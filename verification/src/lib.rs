//! Request and response shapes of a payment router's API, with the rules that
//! go with them: which status a payment takes from the outcome of an attempt,
//! what a request means for stored credentials, how an identifier of one form
//! is told from another, and what of a card a response may show.
//!
//! Everything here is a value or a function of values: nothing is shared,
//! nothing blocks, and nothing but [`mandate::CustomerAcceptance::get_accepted_at`]
//! looks beyond its arguments.

pub mod address;
pub mod connector;
pub mod date_time;
pub mod enums;
pub mod errors;
pub mod json;
pub mod list;
pub mod mandate;
pub mod payment_id;
pub mod payment_method;
pub mod request;
pub mod response;
pub mod secret;
pub mod text;
pub mod types;

pub use address::{Address, AddressDetails, PhoneDetails};
pub use connector::{
    Authorize, ConnectorCommon, ConnectorIntegration, PCapture, PSync, Payment, PaymentAuthorize,
    PaymentCapture, PaymentRequestCancelData, PaymentSync, PaymentVoid, PaymentsRequestCaptureData,
    PaymentsRequestData, PaymentsRequestSyncData, PaymentsResponseData, Void,
};
pub use enums::{
    AttemptStatus, AuthenticationType, CaptureMethod, FutureUsage, IntentStatus, PaymentMethodType,
    RefundStatus,
};
pub use errors::{ValidationError, ValidationReport};
pub use list::{default_limit, limit_or_default, PaymentListConstraints};
pub use mandate::{
    classify, AcceptanceType, CustomerAcceptance, MandateData, MandateTxnType, OnlineMandate,
};
pub use payment_id::PaymentIdType;
pub use payment_method::{
    CCard, CCardResponse, PayLaterData, PaymentMethod, PaymentMethodDataResponse,
};
pub use request::{
    PaymentOp, PaymentRetrieveBody, PaymentsCancelRequest, PaymentsCaptureRequest,
    PaymentsRedirectRequest, PaymentsRequest, PaymentsRetrieveRequest, PaymentsStartRequest,
};
pub use response::{
    AuthenticationForStartResponse, NextAction, NextActionType, PaymentListResponse,
    PaymentsRedirectionResponse, PaymentsResponse, PaymentsResponseForm, PgRedirectResponse,
    RedirectionResponse, UrlDetails,
};
pub use secret::Secret;
pub use types::{BrowserInformation, Method, PaymentIntent, RefundResponse};
