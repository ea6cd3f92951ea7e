//! What a processor's integration, a connector, must be able to do.
//!
//! A connector says what it can do by implementing traits, so what is missing
//! is found when the connector is compiled, not when a payment needs it.
//! Nothing here runs: these are shapes that the compiler holds a connector to.

use vstd::prelude::*;
use crate::enums::{CaptureMethod, FutureUsage};
use crate::mandate::MandateData;
use crate::payment_method::PaymentMethod;
use crate::types::BrowserInformation;

verus! {

/// The operation that asks a processor to authorize a payment.
#[derive(Debug, Clone)]
pub struct Authorize;

/// The operation that takes the money of an authorized payment.
#[derive(Debug, Clone)]
pub struct PCapture;

/// The operation that asks a processor how a payment stands.
#[derive(Debug, Clone)]
pub struct PSync;

/// The operation that cancels an authorized payment.
#[derive(Debug, Clone)]
pub struct Void;

/// What a processor is asked to authorize.
#[derive(Clone)]
pub struct PaymentsRequestData {
    pub payment_method_data: PaymentMethod,
    pub amount: i32,
    pub currency: String,
    pub confirm: bool,
    pub statement_descriptor_suffix: Option<String>,
    pub capture_method: Option<CaptureMethod>,
    pub setup_future_usage: Option<FutureUsage>,
    pub mandate_id: Option<String>,
    pub off_session: Option<bool>,
    pub setup_mandate_details: Option<MandateData>,
    pub browser_info: Option<BrowserInformation>,
}

/// The transaction whose state a processor is asked for.
#[derive(Debug, Clone, Default, Eq, PartialEq)]
pub struct PaymentsRequestSyncData {
    pub connector_transaction_id: String,
    pub encoded_data: Option<String>,
}

/// The transaction that a processor is asked to cancel, and why.
#[derive(Debug, Clone, Default, Eq, PartialEq)]
pub struct PaymentRequestCancelData {
    pub connector_transaction_id: String,
    pub cancellation_reason: Option<String>,
}

/// The transaction whose money a processor is asked to take, and how much of
/// it.
#[derive(Debug, Clone, Default, Eq, PartialEq)]
pub struct PaymentsRequestCaptureData {
    pub amount_to_capture: Option<i32>,
    pub connector_transaction_id: String,
}

/// What a processor answers, whatever the operation: the transaction it
/// speaks of, and whether the customer has to be sent somewhere.
#[derive(Debug, Clone, Default, Eq, PartialEq)]
pub struct PaymentsResponseData {
    pub connector_transaction_id: Option<String>,
    pub redirect: bool,
}

/// What every connector has in common: a name by which the router knows it.
pub trait ConnectorCommon {
    /// The name of the connector.
    fn id(&self) -> &'static str;
}

/// The connector can do the operation `T`, which takes a `Req` and answers
/// with a `Resp`.
pub trait ConnectorIntegration<T, Req, Resp> {
}

/// The connector can authorize.
pub trait PaymentAuthorize: ConnectorIntegration<
    Authorize,
    PaymentsRequestData,
    PaymentsResponseData,
> {
}

/// The connector can ask how a payment stands.
pub trait PaymentSync: ConnectorIntegration<PSync, PaymentsRequestSyncData, PaymentsResponseData> {
}

/// The connector can cancel.
pub trait PaymentVoid: ConnectorIntegration<Void, PaymentRequestCancelData, PaymentsResponseData> {
}

/// The connector can capture.
pub trait PaymentCapture: ConnectorIntegration<
    PCapture,
    PaymentsRequestCaptureData,
    PaymentsResponseData,
> {
}

/// The connector can take a payment through its whole life: it has a name
/// and can authorize, ask, capture and cancel. There is no connector for a
/// part of it.
pub trait Payment: ConnectorCommon + PaymentAuthorize + PaymentSync + PaymentCapture + PaymentVoid {
}

} // verus!
