use payments_api::{
    Authorize, ConnectorCommon, ConnectorIntegration, PCapture, PSync, Payment, PaymentAuthorize,
    PaymentCapture, PaymentRequestCancelData, PaymentSync, PaymentVoid, PaymentsRequestCaptureData,
    PaymentsRequestData, PaymentsRequestSyncData, PaymentsResponseData, Void,
};

struct Acme;

impl ConnectorCommon for Acme {
    fn id(&self) -> &'static str {
        "acme"
    }
}

impl ConnectorIntegration<Authorize, PaymentsRequestData, PaymentsResponseData> for Acme {}
impl ConnectorIntegration<PSync, PaymentsRequestSyncData, PaymentsResponseData> for Acme {}
impl ConnectorIntegration<PCapture, PaymentsRequestCaptureData, PaymentsResponseData> for Acme {}
impl ConnectorIntegration<Void, PaymentRequestCancelData, PaymentsResponseData> for Acme {}
impl PaymentAuthorize for Acme {}
impl PaymentSync for Acme {}
impl PaymentCapture for Acme {}
impl PaymentVoid for Acme {}
impl Payment for Acme {}

fn register<C: Payment>(connector: &C) -> &'static str {
    connector.id()
}

fn can_authorize<C: ConnectorIntegration<Authorize, PaymentsRequestData, PaymentsResponseData>>(
    _connector: &C,
) -> bool {
    true
}

fn can_sync<C: ConnectorIntegration<PSync, PaymentsRequestSyncData, PaymentsResponseData>>(
    _connector: &C,
) -> bool {
    true
}

fn can_capture<
    C: ConnectorIntegration<PCapture, PaymentsRequestCaptureData, PaymentsResponseData>,
>(
    _connector: &C,
) -> bool {
    true
}

fn can_void<C: ConnectorIntegration<Void, PaymentRequestCancelData, PaymentsResponseData>>(
    _connector: &C,
) -> bool {
    true
}

fn whole_life<C: Payment>(connector: &C) -> bool {
    can_authorize(connector)
        && can_sync(connector)
        && can_capture(connector)
        && can_void(connector)
}

#[test]
fn connector_with_every_capability_is_registered() {
    assert_eq!(register(&Acme), "acme");
}

#[test]
fn payment_capability_gives_every_operation() {
    assert!(whole_life(&Acme));
}

#[test]
fn payloads_hold_what_they_are_given() {
    let sync = PaymentsRequestSyncData {
        connector_transaction_id: "txn_9".to_string(),
        encoded_data: None,
    };
    assert_eq!(sync.connector_transaction_id, "txn_9");
    let cancel = PaymentRequestCancelData {
        connector_transaction_id: "txn_9".to_string(),
        cancellation_reason: Some("requested_by_customer".to_string()),
    };
    assert_eq!(cancel.cancellation_reason.as_deref(), Some("requested_by_customer"));
    let capture = PaymentsRequestCaptureData {
        amount_to_capture: Some(100),
        connector_transaction_id: "txn_9".to_string(),
    };
    assert_eq!(capture.amount_to_capture, Some(100));
    let answer = PaymentsResponseData::default();
    assert_eq!(answer.connector_transaction_id, None);
    assert!(!answer.redirect);
}
