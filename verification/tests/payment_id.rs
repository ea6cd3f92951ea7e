use payments_api::payment_id::PaymentIdType;
use payments_api::{ValidationError, ValidationReport};

fn through_json(id: &PaymentIdType) -> PaymentIdType {
    let mut object = serde_json::Map::new();
    object.insert(
        id.tag().to_string(),
        serde_json::Value::String(id.payload().clone()),
    );
    let text = serde_json::to_string(&serde_json::Value::Object(object)).unwrap();
    let parsed = serde_json::from_str::<serde_json::Value>(&text).unwrap();
    let entries = parsed.as_object().unwrap();
    assert_eq!(entries.len(), 1);
    let (tag, payload) = entries.iter().next().unwrap();
    PaymentIdType::from_tagged(tag, payload.as_str().unwrap().to_string()).unwrap()
}

#[test]
fn test_connector_id_type() {
    let sample_1 = PaymentIdType::PaymentIntentId("test_234565430uolsjdnf48i0".to_string());
    let ds_sample_1 = through_json(&sample_1);
    assert_eq!(ds_sample_1, sample_1)
}

#[test]
fn intent_id_goes_on_the_wire_under_its_tag() {
    let id = PaymentIdType::PaymentIntentId("pay_123".to_string());
    let mut object = serde_json::Map::new();
    object.insert(
        id.tag().to_string(),
        serde_json::Value::String(id.payload().clone()),
    );
    let text = serde_json::to_string(&serde_json::Value::Object(object)).unwrap();
    assert_eq!(text, "{\"PaymentIntentId\":\"pay_123\"}");
}

#[test]
fn round_trip_keeps_intent_id() {
    let id = PaymentIdType::PaymentIntentId("pay_123".to_string());
    assert_eq!(through_json(&id), PaymentIdType::PaymentIntentId("pay_123".to_string()));
}

#[test]
fn round_trip_keeps_connector_transaction_id() {
    let id = PaymentIdType::ConnectorTransactionId("txn_9".to_string());
    assert_eq!(through_json(&id), PaymentIdType::ConnectorTransactionId("txn_9".to_string()));
}

#[test]
fn round_trip_keeps_attempt_id() {
    let id = PaymentIdType::PaymentTxnId("att_7".to_string());
    assert_eq!(through_json(&id), PaymentIdType::PaymentTxnId("att_7".to_string()));
}

#[test]
fn round_trip_keeps_text_that_needs_escaping() {
    let id = PaymentIdType::ConnectorTransactionId("a\"b\\c\n\u{e9}\u{1F600}".to_string());
    assert_eq!(through_json(&id), id);
}

#[test]
fn tagged_round_trip_without_json() {
    let ids = vec![
        PaymentIdType::PaymentIntentId("pay_123".to_string()),
        PaymentIdType::ConnectorTransactionId("pay_123".to_string()),
        PaymentIdType::PaymentTxnId("pay_123".to_string()),
        PaymentIdType::PaymentIntentId(String::new()),
    ];
    for id in ids {
        let back = PaymentIdType::from_tagged(id.tag(), id.payload().clone());
        assert_eq!(back, Some(id));
    }
}

#[test]
fn tags_are_the_names_of_the_forms() {
    assert_eq!(PaymentIdType::PaymentIntentId("a".to_string()).tag(), "PaymentIntentId");
    assert_eq!(
        PaymentIdType::ConnectorTransactionId("a".to_string()).tag(),
        "ConnectorTransactionId"
    );
    assert_eq!(PaymentIdType::PaymentTxnId("a".to_string()).tag(), "PaymentTxnId");
}

#[test]
fn payload_is_the_text_held() {
    assert_eq!(PaymentIdType::PaymentIntentId("a".to_string()).payload(), "a");
    assert_eq!(PaymentIdType::ConnectorTransactionId("b".to_string()).payload(), "b");
    assert_eq!(PaymentIdType::PaymentTxnId("c".to_string()).payload(), "c");
}

#[test]
fn unknown_tag_gives_no_identifier() {
    assert_eq!(PaymentIdType::from_tagged("IntentId", "x".to_string()), None);
    assert_eq!(PaymentIdType::from_tagged("", "x".to_string()), None);
    assert_eq!(PaymentIdType::from_tagged("paymentintentid", "x".to_string()), None);
    assert_eq!(PaymentIdType::from_tagged("PaymentIntentIdx", "x".to_string()), None);
    assert_eq!(PaymentIdType::from_tagged("PaymentTxnI", "x".to_string()), None);
}

#[test]
fn known_tags_give_their_forms() {
    assert_eq!(
        PaymentIdType::from_tagged("PaymentIntentId", "x".to_string()),
        Some(PaymentIdType::PaymentIntentId("x".to_string()))
    );
    assert_eq!(
        PaymentIdType::from_tagged("ConnectorTransactionId", "x".to_string()),
        Some(PaymentIdType::ConnectorTransactionId("x".to_string()))
    );
    assert_eq!(
        PaymentIdType::from_tagged("PaymentTxnId", "x".to_string()),
        Some(PaymentIdType::PaymentTxnId("x".to_string()))
    );
}

#[test]
fn narrowing_an_intent_id_gives_its_text() {
    let id = PaymentIdType::PaymentIntentId("pay_123".to_string());
    assert_eq!(id.get_payment_intent_id(), Ok("pay_123".to_string()));
    // Reading does not consume or change the identifier.
    assert_eq!(id, PaymentIdType::PaymentIntentId("pay_123".to_string()));
    assert_eq!(id.get_payment_intent_id(), Ok("pay_123".to_string()));
}

#[test]
fn narrowing_a_connector_transaction_id_fails() {
    let id = PaymentIdType::ConnectorTransactionId("txn_9".to_string());
    let report = id.get_payment_intent_id().unwrap_err();
    assert_eq!(
        report.error,
        ValidationError::IncorrectValueProvided { field_name: "payment_id" }
    );
    assert_eq!(report.note, "Expected payment intent ID but got connector transaction ID");
}

#[test]
fn narrowing_an_attempt_id_fails() {
    let id = PaymentIdType::PaymentTxnId("att_7".to_string());
    assert_eq!(
        id.get_payment_intent_id(),
        Err(ValidationReport {
            error: ValidationError::IncorrectValueProvided { field_name: "payment_id" },
            note: "Expected payment intent ID but got connector transaction ID",
        })
    );
}

#[test]
fn narrowing_an_empty_intent_id_gives_empty_text() {
    let id = PaymentIdType::PaymentIntentId(String::new());
    assert_eq!(id.get_payment_intent_id(), Ok(String::new()));
}

#[test]
fn default_identifier_is_an_empty_intent_id() {
    assert_eq!(PaymentIdType::default(), PaymentIdType::PaymentIntentId(String::new()));
}
