use payments_api::text::{check_last_four, same_text, take_last_four};
use payments_api::{
    CCard, CCardResponse, PayLaterData, PaymentMethod, PaymentMethodDataResponse, Secret,
};

fn card_with_number(number: &str) -> CCard {
    CCard {
        card_number: Secret::new(number.to_string()),
        card_exp_month: Secret::new("12".to_string()),
        card_exp_year: Secret::new("99".to_string()),
        card_holder_name: Secret::new("JohnDoe".to_string()),
        card_cvc: Secret::new("123".to_string()),
    }
}

fn card() -> CCard {
    card_with_number("1234432112344321")
}

#[test]
fn response_shows_the_last_four_digits() {
    let shown = CCardResponse::from(card());
    assert_eq!(shown.last4(), "4321");
    assert_eq!(shown.exp_month(), "12");
    assert_eq!(shown.exp_year(), "99");
}

#[test]
fn response_never_shows_the_full_number() {
    let shown = CCardResponse::from(card());
    assert_ne!(shown.last4(), "1234432112344321");
    assert_eq!(shown.last4().len(), 4);
    let printed = format!("{:?}", shown);
    assert!(!printed.contains("1234432112344321"));
    assert!(!printed.contains("JohnDoe"));
    assert!(!printed.contains("123443"));
}

#[test]
fn last_four_of_a_number_of_four_is_the_number() {
    let shown = CCardResponse::from(card_with_number("9876"));
    assert_eq!(shown.last4(), "9876");
}

#[test]
fn last_four_counts_bytes() {
    // Two characters of two bytes each.
    let shown = CCardResponse::from(card_with_number("12\u{e9}\u{e9}"));
    assert_eq!(shown.last4(), "\u{e9}\u{e9}");
}

#[test]
fn card_knows_whether_it_has_a_last_four() {
    assert!(card().has_last4());
    assert!(card_with_number("1234").has_last4());
    assert!(!card_with_number("123").has_last4());
    assert!(!card_with_number("").has_last4());
    // The cut would fall inside the three bytes of the first character.
    assert!(!card_with_number("\u{20ac}12").has_last4());
    assert!(card_with_number("1\u{20ac}2").has_last4());
    assert!(!card_with_number("12\u{e9}3\u{e9}").has_last4());
}

#[test]
fn default_card_has_no_last_four() {
    assert!(!CCard::default().has_last4());
    assert_eq!(CCard::default().card_number.peek(), "");
}

#[test]
fn check_and_take_last_four() {
    assert!(check_last_four("1234432112344321"));
    assert_eq!(take_last_four("1234432112344321"), "4321");
    assert!(check_last_four("abcd"));
    assert_eq!(take_last_four("abcd"), "abcd");
    assert!(!check_last_four("abc"));
    assert!(check_last_four("x\u{1F600}"));
    assert_eq!(take_last_four("x\u{1F600}"), "\u{1F600}");
    assert!(!check_last_four("\u{1F600}x"));
}

#[test]
fn same_text_tells_texts_apart() {
    assert!(same_text("", ""));
    assert!(same_text("PaymentIntentId", "PaymentIntentId"));
    assert!(!same_text("PaymentIntentId", "PaymentIntentIe"));
    assert!(!same_text("PaymentIntentId", "PaymentIntentI"));
    assert!(!same_text("a", ""));
    assert!(!same_text("\u{e9}", "e"));
    assert!(same_text("\u{e9}\u{1F600}", "\u{e9}\u{1F600}"));
}

#[test]
fn card_method_is_shown_as_a_summary() {
    let method = PaymentMethod::Card(card());
    assert!(method.has_response());
    let shown = PaymentMethodDataResponse::from(method);
    match shown {
        PaymentMethodDataResponse::Card(summary) => {
            assert_eq!(summary.last4(), "4321");
            assert_eq!(summary.exp_month(), "12");
            assert_eq!(summary.exp_year(), "99");
        }
        _ => panic!("a card is shown as a card"),
    }
}

#[test]
fn other_methods_are_shown_as_they_are() {
    assert_eq!(
        PaymentMethodDataResponse::from(PaymentMethod::BankTransfer),
        PaymentMethodDataResponse::BankTransfer
    );
    assert_eq!(
        PaymentMethodDataResponse::from(PaymentMethod::Wallet),
        PaymentMethodDataResponse::Wallet
    );
    assert_eq!(
        PaymentMethodDataResponse::from(PaymentMethod::Paypal),
        PaymentMethodDataResponse::Paypal
    );
    let later = PayLaterData {
        billing_email: "a@example.com".to_string(),
        country: "US".to_string(),
    };
    assert_eq!(
        PaymentMethodDataResponse::from(PaymentMethod::PayLater(later.clone())),
        PaymentMethodDataResponse::PayLater(later)
    );
}

#[test]
fn methods_without_a_card_always_have_a_response() {
    assert!(PaymentMethod::BankTransfer.has_response());
    assert!(PaymentMethod::Wallet.has_response());
    assert!(PaymentMethod::Paypal.has_response());
    assert!(PaymentMethod::PayLater(PayLaterData::default()).has_response());
    assert!(!PaymentMethod::Card(card_with_number("12")).has_response());
}

#[test]
fn default_method_is_a_bank_transfer() {
    assert!(PaymentMethod::default() == PaymentMethod::BankTransfer);
}

#[test]
fn summary_clone_is_equal() {
    let shown = CCardResponse::from(card());
    assert_eq!(shown.clone(), shown);
}

#[test]
fn secret_keeps_its_text() {
    let secret = Secret::new("4242".to_string());
    assert_eq!(secret.peek(), "4242");
    assert_eq!(secret.peek(), "4242");
    assert_eq!(secret.clone().expose(), "4242".to_string());
    assert_eq!(Secret::default().peek(), "");
    assert!(secret == Secret::new("4242".to_string()));
    assert!(secret != Secret::new("4243".to_string()));
}
