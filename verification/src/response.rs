//! What clients get back.

use vstd::prelude::*;
use crate::address::Address;
use crate::enums::{
    AuthenticationType,
    CaptureMethod,
    FutureUsage,
    IntentStatus,
    PaymentMethodType,
};
use crate::mandate::MandateData;
use crate::payment_id::{narrow_to_intent_id, PaymentIdType};
use crate::payment_method::{shows, PaymentMethod, PaymentMethodDataResponse};
use crate::request::{
    PaymentsCancelRequest,
    PaymentsCaptureRequest,
    PaymentsRequest,
    PaymentsRetrieveRequest,
    PaymentsStartRequest,
};
use crate::secret::Secret;
use crate::types::{Method, PaymentIntent, RefundResponse};

verus! {

/// Where to send the customer, and how.
#[derive(Default, Clone, Debug, Eq, PartialEq)]
pub struct UrlDetails {
    pub url: String,
    pub method: String,
}

/// What a client needs to start the customer's authentication.
#[derive(Default, Clone, Debug, Eq, PartialEq)]
pub struct AuthenticationForStartResponse {
    pub authentication: UrlDetails,
}

/// What a client is to do next.
#[derive(Clone, Copy, Debug, Eq, PartialEq, Structural)]
pub enum NextActionType {
    RedirectToUrl,
    DisplayQrCode,
    InvokeSdkClient,
    TriggerApi,
}

/// The next step that a response asks of the client: its kind, and for a
/// redirect the address to go to.
#[derive(Clone, Debug, Eq, PartialEq)]
pub struct NextAction {
    pub next_action_type: NextActionType,
    pub redirect_to_url: Option<String>,
}

impl NextAction {
    /// An address is there only for a redirect.
    pub open spec fn well_formed(self) -> bool {
        self.redirect_to_url is Some ==> self.next_action_type == NextActionType::RedirectToUrl
    }

    /// The step that sends the customer to `url`.
    pub fn redirect(url: String) -> (action: NextAction)
        ensures
            action.well_formed(),
            action.next_action_type == NextActionType::RedirectToUrl,
            action.redirect_to_url == Some(url),
    {
        NextAction { next_action_type: NextActionType::RedirectToUrl, redirect_to_url: Some(url) }
    }

    /// The step of kind `next_action_type`, with no address.
    pub fn without_url(next_action_type: NextActionType) -> (action: NextAction)
        ensures
            action.well_formed(),
            action.next_action_type == next_action_type,
            action.redirect_to_url is None,
    {
        NextAction { next_action_type, redirect_to_url: None }
    }
}

/// A payment as a client sees it.
#[derive(Clone, Eq, PartialEq)]
pub struct PaymentsResponse {
    pub payment_id: Option<String>,
    pub merchant_id: Option<String>,
    pub status: IntentStatus,
    pub amount: i32,
    pub amount_capturable: Option<i32>,
    pub amount_received: Option<i32>,
    pub client_secret: Option<Secret>,
    pub created: Option<time::PrimitiveDateTime>,
    pub currency: String,
    pub customer_id: Option<String>,
    pub description: Option<String>,
    pub refunds: Option<Vec<RefundResponse>>,
    pub mandate_id: Option<String>,
    pub mandate_data: Option<MandateData>,
    pub setup_future_usage: Option<FutureUsage>,
    pub off_session: Option<bool>,
    pub capture_on: Option<time::PrimitiveDateTime>,
    pub capture_method: Option<CaptureMethod>,
    pub payment_method: Option<PaymentMethodType>,
    pub payment_method_data: Option<PaymentMethodDataResponse>,
    pub payment_token: Option<i32>,
    pub shipping: Option<Address>,
    pub billing: Option<Address>,
    pub metadata: Option<serde_json::Value>,
    pub email: Option<Secret>,
    pub name: Option<Secret>,
    pub phone: Option<Secret>,
    pub return_url: Option<String>,
    pub authentication_type: Option<AuthenticationType>,
    pub statement_descriptor_name: Option<String>,
    pub statement_descriptor_suffix: Option<String>,
    pub next_action: Option<NextAction>,
    pub cancellation_reason: Option<String>,
    pub error_code: Option<String>,
    pub error_message: Option<String>,
}

/// The intent identifier that an optional identifier holds, if it is there
/// and of that form.
pub open spec fn intent_id_of(id: Option<PaymentIdType>) -> Option<String> {
    match id {
        Some(id) => narrow_to_intent_id(id),
        None => None,
    }
}

/// Whether `shown` is what a response shows of an optional means of payment.
pub open spec fn shows_opt(
    shown: Option<PaymentMethodDataResponse>,
    method: Option<PaymentMethod>,
) -> bool {
    match method {
        Some(method) => shown matches Some(shown) && shows(shown, method),
        None => shown is None,
    }
}

/// The text of an optional string, the empty text where there is none.
pub open spec fn text_or_empty(s: Option<String>) -> Seq<char> {
    match s {
        Some(text) => text@,
        None => Seq::<char>::empty(),
    }
}

/// The secret that holds an optional text.
pub open spec fn secret_text(s: Option<Secret>) -> Option<Seq<char>> {
    match s {
        Some(secret) => Some(secret@),
        None => None,
    }
}

impl PaymentsResponse {
    /// Whether `self` says nothing, its currency apart: a payment that
    /// awaits confirmation, of amount zero, every optional field left out.
    pub open spec fn is_blank_but_currency(self) -> bool {
        &&& self.payment_id is None
        &&& self.merchant_id is None
        &&& self.status == IntentStatus::RequiresConfirmation
        &&& self.amount == 0
        &&& self.amount_capturable is None
        &&& self.amount_received is None
        &&& self.client_secret is None
        &&& self.created is None
        &&& self.customer_id is None
        &&& self.description is None
        &&& self.refunds is None
        &&& self.mandate_id is None
        &&& self.mandate_data is None
        &&& self.setup_future_usage is None
        &&& self.off_session is None
        &&& self.capture_on is None
        &&& self.capture_method is None
        &&& self.payment_method is None
        &&& self.payment_method_data is None
        &&& self.payment_token is None
        &&& self.shipping is None
        &&& self.billing is None
        &&& self.metadata is None
        &&& self.email is None
        &&& self.name is None
        &&& self.phone is None
        &&& self.return_url is None
        &&& self.authentication_type is None
        &&& self.statement_descriptor_name is None
        &&& self.statement_descriptor_suffix is None
        &&& self.next_action is None
        &&& self.cancellation_reason is None
        &&& self.error_code is None
        &&& self.error_message is None
    }

    /// Whether `self` says nothing at all: blank, and in no currency.
    pub open spec fn is_blank(self) -> bool {
        &&& self.is_blank_but_currency()
        &&& self.currency@ == Seq::<char>::empty()
    }

    /// `self` with the fields that an incoming request fills set back to
    /// what a blank response has.
    pub open spec fn without_request_fields(self) -> PaymentsResponse {
        PaymentsResponse {
            payment_id: None,
            merchant_id: None,
            setup_future_usage: None,
            off_session: None,
            shipping: None,
            billing: None,
            metadata: None,
            capture_method: None,
            payment_method: None,
            capture_on: None,
            payment_method_data: None,
            email: None,
            name: None,
            phone: None,
            payment_token: None,
            return_url: None,
            authentication_type: None,
            statement_descriptor_name: None,
            statement_descriptor_suffix: None,
            mandate_data: None,
            ..self
        }
    }

    /// Whether `self` is the response that echoes `item`.
    ///
    /// The fields below are taken over as they are, the identifier only
    /// where it is an intent identifier, and the means of payment as a
    /// response shows it. Nothing else of the request is echoed: amount,
    /// currency, customer, description, mandate and client secret stay as a
    /// blank response has them.
    pub open spec fn echoes(self, item: PaymentsRequest) -> bool {
        &&& self.payment_id == intent_id_of(item.payment_id)
        &&& self.merchant_id == item.merchant_id
        &&& self.setup_future_usage == item.setup_future_usage
        &&& self.off_session == item.off_session
        &&& self.shipping == item.shipping
        &&& self.billing == item.billing
        &&& self.metadata == item.metadata
        &&& self.capture_method == item.capture_method
        &&& self.payment_method == item.payment_method
        &&& self.capture_on == item.capture_on
        &&& shows_opt(self.payment_method_data, item.payment_method_data)
        &&& self.email == item.email
        &&& self.name == item.name
        &&& self.phone == item.phone
        &&& self.payment_token == item.payment_token
        &&& self.return_url == item.return_url
        &&& self.authentication_type == item.authentication_type
        &&& self.statement_descriptor_name == item.statement_descriptor_name
        &&& self.statement_descriptor_suffix == item.statement_descriptor_suffix
        &&& self.mandate_data == item.mandate_data
        &&& self.without_request_fields().is_blank()
    }

    /// Whether `self` is the response that presents the stored payment
    /// `item`.
    ///
    /// What can still be captured is what the record has as captured, and
    /// the currency is the record's code, empty where it has none.
    pub open spec fn presents(self, item: PaymentIntent) -> bool {
        &&& self.payment_id == Some(item.payment_id)
        &&& self.merchant_id == Some(item.merchant_id)
        &&& self.status == item.status
        &&& self.amount == item.amount
        &&& self.amount_capturable == item.amount_captured
        &&& secret_text(self.client_secret) == crate::text::opt_text(item.client_secret)
        &&& self.created == Some(item.created_at)
        &&& self.currency@ == text_or_empty(item.currency)
        &&& self.description == item.description
        &&& self.metadata == item.metadata
        &&& self.customer_id == item.customer_id
        &&& (PaymentsResponse {
            payment_id: None,
            merchant_id: None,
            status: IntentStatus::RequiresConfirmation,
            amount: 0,
            amount_capturable: None,
            client_secret: None,
            created: None,
            description: None,
            metadata: None,
            customer_id: None,
            ..self
        }).is_blank_but_currency()
    }

    /// Whether `self` names the payment and the merchant of `item` and says
    /// nothing else.
    pub open spec fn starts(self, item: PaymentsStartRequest) -> bool {
        &&& self.payment_id == Some(item.payment_id)
        &&& self.merchant_id == Some(item.merchant_id)
        &&& (PaymentsResponse { payment_id: None, merchant_id: None, ..self }).is_blank()
    }

    /// Whether `self` names the payment of `item`, where `item` addresses it
    /// by its intent identifier, and the merchant, and says nothing else.
    pub open spec fn retrieves(self, item: PaymentsRetrieveRequest) -> bool {
        &&& self.payment_id == narrow_to_intent_id(item.resource_id)
        &&& self.merchant_id == item.merchant_id
        &&& (PaymentsResponse { payment_id: None, merchant_id: None, ..self }).is_blank()
    }

    /// Whether `self` names the payment of `item` and the reason for
    /// cancelling it, and says nothing else.
    pub open spec fn cancels(self, item: PaymentsCancelRequest) -> bool {
        &&& self.payment_id == Some(item.payment_id)
        &&& self.cancellation_reason == item.cancellation_reason
        &&& (PaymentsResponse { payment_id: None, cancellation_reason: None, ..self }).is_blank()
    }

    /// Whether `self` names the payment of `item`, has the amount that
    /// `item` asks to capture as received, and says nothing else.
    pub open spec fn captures(self, item: PaymentsCaptureRequest) -> bool {
        &&& self.payment_id == item.payment_id
        &&& self.amount_received == item.amount_to_capture
        &&& (PaymentsResponse { payment_id: None, amount_received: None, ..self }).is_blank()
    }

    /// The response that echoes `item`.
    pub fn from_request(item: PaymentsRequest) -> (response: PaymentsResponse)
        requires
            item.has_response(),
        ensures
            response.echoes(item),
    {
        let payment_id = match item.payment_id {
            Some(PaymentIdType::PaymentIntentId(id)) => Some(id),
            _ => None,
        };
        let payment_method_data = match item.payment_method_data {
            Some(method) => Some(PaymentMethodDataResponse::from(method)),
            None => None,
        };
        PaymentsResponse {
            payment_id,
            merchant_id: item.merchant_id,
            setup_future_usage: item.setup_future_usage,
            off_session: item.off_session,
            shipping: item.shipping,
            billing: item.billing,
            metadata: item.metadata,
            capture_method: item.capture_method,
            payment_method: item.payment_method,
            capture_on: item.capture_on,
            payment_method_data,
            email: item.email,
            name: item.name,
            phone: item.phone,
            payment_token: item.payment_token,
            return_url: item.return_url,
            authentication_type: item.authentication_type,
            statement_descriptor_name: item.statement_descriptor_name,
            statement_descriptor_suffix: item.statement_descriptor_suffix,
            mandate_data: item.mandate_data,
            ..Default::default()
        }
    }
}

impl Default for PaymentsResponse {
    /// The response that says nothing.
    fn default() -> (response: PaymentsResponse)
        ensures
            response.is_blank(),
    {
        PaymentsResponse {
            payment_id: None,
            merchant_id: None,
            status: IntentStatus::RequiresConfirmation,
            amount: 0,
            amount_capturable: None,
            amount_received: None,
            client_secret: None,
            created: None,
            currency: String::new(),
            customer_id: None,
            description: None,
            refunds: None,
            mandate_id: None,
            mandate_data: None,
            setup_future_usage: None,
            off_session: None,
            capture_on: None,
            capture_method: None,
            payment_method: None,
            payment_method_data: None,
            payment_token: None,
            shipping: None,
            billing: None,
            metadata: None,
            email: None,
            name: None,
            phone: None,
            return_url: None,
            authentication_type: None,
            statement_descriptor_name: None,
            statement_descriptor_suffix: None,
            next_action: None,
            cancellation_reason: None,
            error_code: None,
            error_message: None,
        }
    }
}

impl From<PaymentsStartRequest> for PaymentsResponse {
    /// The response that names the payment and the merchant of `item` and
    /// says nothing else.
    fn from(item: PaymentsStartRequest) -> (response: PaymentsResponse)
        ensures
            response.starts(item),
    {
        PaymentsResponse {
            payment_id: Some(item.payment_id),
            merchant_id: Some(item.merchant_id),
            ..Default::default()
        }
    }
}

/// The response holds a currency string of its own making, and no
/// specification expression names a string: `from` says in its own `ensures`
/// what comes back.
impl vstd::std_specs::convert::FromSpecImpl<PaymentsStartRequest> for PaymentsResponse {
    open spec fn obeys_from_spec() -> bool {
        false
    }

    open spec fn from_spec(item: PaymentsStartRequest) -> PaymentsResponse {
        choose|response: PaymentsResponse| response.starts(item)
    }
}

impl From<PaymentIntent> for PaymentsResponse {
    /// The response that presents the stored payment `item`.
    fn from(item: PaymentIntent) -> (response: PaymentsResponse)
        ensures
            response.presents(item),
    {
        let client_secret = match item.client_secret {
            Some(text) => Some(Secret::new(text)),
            None => None,
        };
        let currency = match item.currency {
            Some(code) => code,
            None => String::new(),
        };
        PaymentsResponse {
            payment_id: Some(item.payment_id),
            merchant_id: Some(item.merchant_id),
            status: item.status,
            amount: item.amount,
            amount_capturable: item.amount_captured,
            client_secret,
            created: Some(item.created_at),
            currency,
            description: item.description,
            metadata: item.metadata,
            customer_id: item.customer_id,
            ..Default::default()
        }
    }
}

/// The response holds a currency string of its own making, and no
/// specification expression names a string: `from` says in its own `ensures`
/// what comes back.
impl vstd::std_specs::convert::FromSpecImpl<PaymentIntent> for PaymentsResponse {
    open spec fn obeys_from_spec() -> bool {
        false
    }

    open spec fn from_spec(item: PaymentIntent) -> PaymentsResponse {
        choose|response: PaymentsResponse| response.presents(item)
    }
}

impl From<PaymentsRetrieveRequest> for PaymentsResponse {
    /// The response that names the payment of `item`, where `item` addresses
    /// it by its intent identifier, and the merchant, and says nothing else.
    fn from(item: PaymentsRetrieveRequest) -> (response: PaymentsResponse)
        ensures
            response.retrieves(item),
    {
        let payment_id = match item.resource_id {
            PaymentIdType::PaymentIntentId(id) => Some(id),
            _ => None,
        };
        PaymentsResponse { payment_id, merchant_id: item.merchant_id, ..Default::default() }
    }
}

/// The response holds a currency string of its own making, and no
/// specification expression names a string: `from` says in its own `ensures`
/// what comes back.
impl vstd::std_specs::convert::FromSpecImpl<PaymentsRetrieveRequest> for PaymentsResponse {
    open spec fn obeys_from_spec() -> bool {
        false
    }

    open spec fn from_spec(item: PaymentsRetrieveRequest) -> PaymentsResponse {
        choose|response: PaymentsResponse| response.retrieves(item)
    }
}

impl From<PaymentsCancelRequest> for PaymentsResponse {
    /// The response that names the payment of `item` and the reason for
    /// cancelling it, and says nothing else.
    fn from(item: PaymentsCancelRequest) -> (response: PaymentsResponse)
        ensures
            response.cancels(item),
    {
        PaymentsResponse {
            payment_id: Some(item.payment_id),
            cancellation_reason: item.cancellation_reason,
            ..Default::default()
        }
    }
}

/// The response holds a currency string of its own making, and no
/// specification expression names a string: `from` says in its own `ensures`
/// what comes back.
impl vstd::std_specs::convert::FromSpecImpl<PaymentsCancelRequest> for PaymentsResponse {
    open spec fn obeys_from_spec() -> bool {
        false
    }

    open spec fn from_spec(item: PaymentsCancelRequest) -> PaymentsResponse {
        choose|response: PaymentsResponse| response.cancels(item)
    }
}

impl From<PaymentsCaptureRequest> for PaymentsResponse {
    /// The response that names the payment of `item` and has the amount to
    /// capture as received, and says nothing else.
    fn from(item: PaymentsCaptureRequest) -> (response: PaymentsResponse)
        ensures
            response.captures(item),
    {
        PaymentsResponse {
            payment_id: item.payment_id,
            amount_received: item.amount_to_capture,
            ..Default::default()
        }
    }
}

/// The response holds a currency string of its own making, and no
/// specification expression names a string: `from` says in its own `ensures`
/// what comes back.
impl vstd::std_specs::convert::FromSpecImpl<PaymentsCaptureRequest> for PaymentsResponse {
    open spec fn obeys_from_spec() -> bool {
        false
    }

    open spec fn from_spec(item: PaymentsCaptureRequest) -> PaymentsResponse {
        choose|response: PaymentsResponse| response.captures(item)
    }
}

/// A page of payments.
#[derive(Clone, Eq, PartialEq)]
pub struct PaymentListResponse {
    pub size: usize,
    pub data: Vec<PaymentsResponse>,
}

/// Where a customer is sent after a payment.
#[derive(Default, Debug, Clone, Eq, PartialEq)]
pub struct PaymentsRedirectionResponse {
    pub redirect_url: String,
}

impl PaymentsRedirectionResponse {
    /// The response that sends the customer to `redirect_url`.
    pub fn new(redirect_url: &str) -> (response: PaymentsRedirectionResponse)
        ensures
            response.redirect_url@ == redirect_url@,
    {
        PaymentsRedirectionResponse { redirect_url: redirect_url.to_owned() }
    }
}

/// What a merchant's page is told when the customer comes back from a
/// processor.
#[derive(Debug, Clone, Eq, PartialEq)]
pub struct PgRedirectResponse {
    pub payment_id: String,
    pub status: IntentStatus,
    pub gateway_id: String,
    pub customer_id: Option<String>,
    pub amount: Option<i32>,
}

/// A redirect in full: where to, with which parameters and headers, and by
/// which method.
#[derive(Debug, Clone, PartialEq, Eq)]
pub struct RedirectionResponse {
    pub return_url: String,
    pub params: Vec<(String, String)>,
    pub return_url_with_query_params: String,
    pub http_method: Method,
    pub headers: Vec<(String, String)>,
}

/// The form that a processor posts back.
#[derive(Debug, Clone, Eq, PartialEq)]
pub struct PaymentsResponseForm {
    pub transaction_id: String,
    pub merchant_id: String,
    pub order_id: String,
}

} // verus!
