use payments_api::{default_limit, limit_or_default, PaymentListConstraints};

#[test]
fn default_limit_is_ten() {
    assert_eq!(default_limit(), 10);
}

#[test]
fn request_without_limit_gets_ten() {
    assert_eq!(limit_or_default(None), 10);
    let constraints = PaymentListConstraints::default();
    assert_eq!(constraints.limit, 10);
    assert!(constraints.customer_id.is_none());
    assert!(constraints.starting_after.is_none());
    assert!(constraints.ending_before.is_none());
    assert!(constraints.created.is_none());
    assert!(constraints.created_lt.is_none());
    assert!(constraints.created_gt.is_none());
    assert!(constraints.created_lte.is_none());
    assert!(constraints.created_gte.is_none());
}

#[test]
fn request_with_limit_keeps_it() {
    assert_eq!(limit_or_default(Some(25)), 25);
    assert_eq!(limit_or_default(Some(0)), 0);
    assert_eq!(limit_or_default(Some(-3)), -3);
    assert_eq!(limit_or_default(Some(i64::MAX)), i64::MAX);
    assert_eq!(limit_or_default(Some(10)), 10);
}
