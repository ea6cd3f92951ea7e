//! Records that payments refer to and that other parts of a router fill in:
//! what is known of the customer's browser, a refund as a client sees it, and
//! a payment as it is stored.

use vstd::prelude::*;
use crate::enums::{IntentStatus, RefundStatus};

verus! {

/// What the customer's browser told of itself, as a processor's fraud checks
/// want it.
#[derive(Clone, Debug, Default, Eq, PartialEq)]
pub struct BrowserInformation {
    pub color_depth: u8,
    pub java_enabled: bool,
    pub java_script_enabled: bool,
    pub language: String,
    pub screen_height: u32,
    pub screen_width: u32,
    pub time_zone: i32,
    /// The customer's address on the network, as text.
    pub ip_address: Option<String>,
    pub accept_header: String,
    pub user_agent: String,
}

/// A refund as a client sees it.
#[derive(Clone, Debug, Default, Eq, PartialEq)]
pub struct RefundResponse {
    pub refund_id: String,
    pub payment_id: String,
    pub amount: i64,
    pub currency: String,
    pub reason: Option<String>,
    pub status: RefundStatus,
    pub metadata: Option<serde_json::Value>,
    pub error_message: Option<String>,
}

/// A payment as it is stored: the fields of the record that a response is
/// made from.
#[derive(Debug, Eq, PartialEq)]
pub struct PaymentIntent {
    pub payment_id: String,
    pub merchant_id: String,
    pub status: IntentStatus,
    pub amount: i32,
    /// The code of the currency, where the record names one.
    pub currency: Option<String>,
    pub amount_captured: Option<i32>,
    pub customer_id: Option<String>,
    pub description: Option<String>,
    pub metadata: Option<serde_json::Value>,
    pub created_at: time::PrimitiveDateTime,
    pub client_secret: Option<String>,
}

/// The HTTP method with which a customer is sent on.
#[derive(Clone, Copy, Debug, Eq, PartialEq, Structural)]
pub enum Method {
    Get,
    Post,
    Put,
    Delete,
}

} // verus!
