//! What clients send.

use vstd::prelude::*;
use crate::address::Address;
use crate::enums::{AuthenticationType, CaptureMethod, FutureUsage, PaymentMethodType};
use crate::mandate::{classify, MandateData, MandateTxnType};
use crate::payment_id::PaymentIdType;
use crate::payment_method::PaymentMethod;
use crate::secret::Secret;
use crate::types::BrowserInformation;

verus! {

/// What is being done to a payment.
#[derive(Clone, Copy, Debug, Eq, PartialEq, Structural)]
pub enum PaymentOp {
    Create,
    Update,
    Confirm,
}

/// A request to create, update or confirm a payment. Every field may be left
/// out.
#[derive(Clone)]
pub struct PaymentsRequest {
    pub payment_id: Option<PaymentIdType>,
    pub merchant_id: Option<String>,
    pub amount: Option<i32>,
    pub currency: Option<String>,
    pub capture_method: Option<CaptureMethod>,
    pub amount_to_capture: Option<i32>,
    pub capture_on: Option<time::PrimitiveDateTime>,
    pub confirm: Option<bool>,
    pub customer_id: Option<String>,
    pub email: Option<Secret>,
    pub name: Option<Secret>,
    pub phone: Option<Secret>,
    pub phone_country_code: Option<String>,
    pub off_session: Option<bool>,
    pub description: Option<String>,
    pub return_url: Option<String>,
    pub setup_future_usage: Option<FutureUsage>,
    pub authentication_type: Option<AuthenticationType>,
    pub payment_method_data: Option<PaymentMethod>,
    pub payment_method: Option<PaymentMethodType>,
    pub payment_token: Option<i32>,
    pub shipping: Option<Address>,
    pub billing: Option<Address>,
    pub browser_info: Option<BrowserInformation>,
    pub statement_descriptor_name: Option<String>,
    pub statement_descriptor_suffix: Option<String>,
    pub metadata: Option<serde_json::Value>,
    pub client_secret: Option<String>,
    pub mandate_data: Option<MandateData>,
    pub mandate_id: Option<String>,
}

impl PaymentsRequest {
    /// Whether every field has been left out.
    pub open spec fn is_blank(self) -> bool {
        &&& self.payment_id is None
        &&& self.merchant_id is None
        &&& self.amount is None
        &&& self.currency is None
        &&& self.capture_method is None
        &&& self.amount_to_capture is None
        &&& self.capture_on is None
        &&& self.confirm is None
        &&& self.customer_id is None
        &&& self.email is None
        &&& self.name is None
        &&& self.phone is None
        &&& self.phone_country_code is None
        &&& self.off_session is None
        &&& self.description is None
        &&& self.return_url is None
        &&& self.setup_future_usage is None
        &&& self.authentication_type is None
        &&& self.payment_method_data is None
        &&& self.payment_method is None
        &&& self.payment_token is None
        &&& self.shipping is None
        &&& self.billing is None
        &&& self.browser_info is None
        &&& self.statement_descriptor_name is None
        &&& self.statement_descriptor_suffix is None
        &&& self.metadata is None
        &&& self.client_secret is None
        &&& self.mandate_data is None
        &&& self.mandate_id is None
    }

    /// Whether a response can be made of `self`: a card among its fields
    /// needs a number with a last four.
    pub open spec fn spec_has_response(&self) -> bool {
        self.payment_method_data matches Some(method) ==> method.has_response()
    }

    /// Whether a response can be made of `self`.
    #[verifier::when_used_as_spec(spec_has_response)]
    pub fn has_response(&self) -> (ok: bool)
        ensures
            ok == self.spec_has_response(),
    {
        match &self.payment_method_data {
            Some(method) => method.has_response(),
            None => true,
        }
    }

    /// What `self` means for stored credentials: nothing where it names
    /// neither mandate data nor a mandate, a recurring payment where it names
    /// a mandate, and else the first payment of a new mandate.
    pub fn is_mandate(&self) -> (kind: Option<MandateTxnType>)
        ensures
            kind == classify(self.mandate_data is Some, self.mandate_id is Some),
    {
        classify(self.mandate_data.is_some(), self.mandate_id.is_some())
    }
}

impl Default for PaymentsRequest {
    /// The request with every field left out.
    fn default() -> (request: PaymentsRequest)
        ensures
            request.is_blank(),
    {
        PaymentsRequest {
            payment_id: None,
            merchant_id: None,
            amount: None,
            currency: None,
            capture_method: None,
            amount_to_capture: None,
            capture_on: None,
            confirm: None,
            customer_id: None,
            email: None,
            name: None,
            phone: None,
            phone_country_code: None,
            off_session: None,
            description: None,
            return_url: None,
            setup_future_usage: None,
            authentication_type: None,
            payment_method_data: None,
            payment_method: None,
            payment_token: None,
            shipping: None,
            billing: None,
            browser_info: None,
            statement_descriptor_name: None,
            statement_descriptor_suffix: None,
            metadata: None,
            client_secret: None,
            mandate_data: None,
            mandate_id: None,
        }
    }
}

/// What a processor's redirect brings back to the router.
#[derive(Default, Debug, Clone, Eq, PartialEq)]
pub struct PaymentsRedirectRequest {
    pub payment_id: String,
    pub merchant_id: String,
    pub connector: String,
    pub param: String,
}

/// A request to capture what was authorized.
#[derive(Debug, Clone, Default, Eq, PartialEq)]
pub struct PaymentsCaptureRequest {
    pub payment_id: Option<String>,
    pub merchant_id: Option<String>,
    pub amount_to_capture: Option<i32>,
    pub refund_uncaptured_amount: Option<bool>,
    pub statement_descriptor_suffix: Option<String>,
    pub statement_descriptor_prefix: Option<String>,
}

/// A request for the state of a payment, addressed in any of the three forms.
#[derive(Default, Debug, Clone, Eq, PartialEq)]
pub struct PaymentsRetrieveRequest {
    pub resource_id: PaymentIdType,
    pub merchant_id: Option<String>,
    pub force_sync: bool,
    pub param: Option<String>,
    pub connector: Option<String>,
}

/// The body of a request for the state of a payment.
#[derive(Default, Debug, Clone, Eq, PartialEq)]
pub struct PaymentRetrieveBody {
    pub merchant_id: Option<String>,
    pub force_sync: Option<bool>,
}

/// A request to cancel a payment.
#[derive(Default, Debug, Clone, Eq, PartialEq)]
pub struct PaymentsCancelRequest {
    /// Taken from the path of the request, never from its body.
    pub payment_id: String,
    pub cancellation_reason: Option<String>,
}

/// A request to start a payment that was created before.
#[derive(Default, Debug, Clone, Eq, PartialEq)]
pub struct PaymentsStartRequest {
    pub payment_id: String,
    pub merchant_id: String,
    pub txn_id: String,
}

impl From<PaymentsStartRequest> for PaymentsRequest {
    /// A request that names the payment and the merchant of `item` and
    /// leaves everything else out.
    fn from(item: PaymentsStartRequest) -> (request: PaymentsRequest)
        ensures
            request.payment_id == Some(PaymentIdType::PaymentIntentId(item.payment_id)),
            request.merchant_id == Some(item.merchant_id),
            (PaymentsRequest { payment_id: None, merchant_id: None, ..request }).is_blank(),
    {
        PaymentsRequest {
            payment_id: Some(PaymentIdType::PaymentIntentId(item.payment_id)),
            merchant_id: Some(item.merchant_id),
            ..Default::default()
        }
    }
}

impl vstd::std_specs::convert::FromSpecImpl<PaymentsStartRequest> for PaymentsRequest {
    open spec fn obeys_from_spec() -> bool {
        true
    }

    open spec fn from_spec(item: PaymentsStartRequest) -> PaymentsRequest {
        PaymentsRequest {
            payment_id: Some(PaymentIdType::PaymentIntentId(item.payment_id)),
            merchant_id: Some(item.merchant_id),
            amount: None,
            currency: None,
            capture_method: None,
            amount_to_capture: None,
            capture_on: None,
            confirm: None,
            customer_id: None,
            email: None,
            name: None,
            phone: None,
            phone_country_code: None,
            off_session: None,
            description: None,
            return_url: None,
            setup_future_usage: None,
            authentication_type: None,
            payment_method_data: None,
            payment_method: None,
            payment_token: None,
            shipping: None,
            billing: None,
            browser_info: None,
            statement_descriptor_name: None,
            statement_descriptor_suffix: None,
            metadata: None,
            client_secret: None,
            mandate_data: None,
            mandate_id: None,
        }
    }
}

} // verus!
