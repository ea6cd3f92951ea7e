//! The means of payment that a request names, and what of them a response
//! shows.

use vstd::prelude::*;
use vstd::utf8::encode_utf8;
use crate::secret::Secret;
use crate::text::{check_last_four, has_last_four, last_four, take_last_four};

verus! {

/// A card as the customer entered it. Every field is a secret.
#[derive(Default, Eq, PartialEq, Clone)]
pub struct CCard {
    pub card_number: Secret,
    pub card_exp_month: Secret,
    pub card_exp_year: Secret,
    pub card_holder_name: Secret,
    pub card_cvc: Secret,
}

/// The details of a purchase that is paid later.
#[derive(Default, Eq, PartialEq, Clone, Debug)]
pub struct PayLaterData {
    pub billing_email: String,
    pub country: String,
}

/// The means of payment that a request names.
#[derive(Clone, Eq, PartialEq)]
pub enum PaymentMethod {
    Card(CCard),
    BankTransfer,
    Wallet,
    PayLater(PayLaterData),
    Paypal,
}

impl Default for PaymentMethod {
    /// A bank transfer.
    fn default() -> (method: PaymentMethod)
        ensures
            method == PaymentMethod::BankTransfer,
    {
        PaymentMethod::BankTransfer
    }
}

/// What a response may show of a card: the end of its number and when it
/// expires.
pub struct CardSummary {
    pub last4: Seq<char>,
    pub exp_month: Seq<char>,
    pub exp_year: Seq<char>,
}

/// What a response shows of `card`: the last four bytes of its number, and
/// its expiry. The rest of the number, the holder's name and the security
/// code have no place in it.
pub open spec fn summarize(card: CCard) -> CardSummary {
    CardSummary {
        last4: last_four(card.card_number@),
        exp_month: card.card_exp_month@,
        exp_year: card.card_exp_year@,
    }
}

/// What a response shows of a card.
///
/// The fields are private, and the only way to a value is
/// [`CCardResponse::from`]: a value never holds more of a card number than
/// its last four bytes.
#[derive(Eq, PartialEq, Debug)]
pub struct CCardResponse {
    last4: String,
    exp_month: String,
    exp_year: String,
}

impl View for CCardResponse {
    type V = CardSummary;

    closed spec fn view(&self) -> CardSummary {
        CardSummary { last4: self.last4@, exp_month: self.exp_month@, exp_year: self.exp_year@ }
    }
}

impl Clone for CCardResponse {
    fn clone(&self) -> (copy: CCardResponse)
        ensures
            copy@ == self@,
    {
        proof {
            use_type_invariant(self);
        }
        CCardResponse {
            last4: self.last4.clone(),
            exp_month: self.exp_month.clone(),
            exp_year: self.exp_year.clone(),
        }
    }
}

impl CCard {
    /// Whether the number of `self` has a last four: at least four bytes,
    /// the fourth from the end being the start of a character.
    pub open spec fn spec_has_last4(&self) -> bool {
        has_last_four(self.card_number@)
    }

    /// Whether the number of `self` has a last four, so that a response can
    /// be made of the card.
    #[verifier::when_used_as_spec(spec_has_last4)]
    pub fn has_last4(&self) -> (ok: bool)
        ensures
            ok == self.spec_has_last4(),
    {
        check_last_four(self.card_number.peek().as_str())
    }
}

impl CCardResponse {
    #[verifier::type_invariant]
    spec fn four_bytes_of_the_number(&self) -> bool {
        encode_utf8(self.last4@).len() == 4
    }

    /// What a response shows of `card`.
    pub fn from(card: CCard) -> (shown: CCardResponse)
        requires
            card.has_last4(),
        ensures
            shown@ == summarize(card),
    {
        let last4 = take_last_four(card.card_number.peek().as_str());
        proof {
            crate::text::lemma_last_four_is_four_bytes(card.card_number@);
        }
        CCardResponse {
            last4,
            exp_month: card.card_exp_month.peek().clone(),
            exp_year: card.card_exp_year.peek().clone(),
        }
    }

    /// The end of the card's number: four bytes, never more.
    pub fn last4(&self) -> (text: &String)
        ensures
            text@ == self@.last4,
            encode_utf8(text@).len() == 4,
    {
        proof {
            use_type_invariant(self);
        }
        &self.last4
    }

    /// The month in which the card expires.
    pub fn exp_month(&self) -> (text: &String)
        ensures
            text@ == self@.exp_month,
    {
        &self.exp_month
    }

    /// The year in which the card expires.
    pub fn exp_year(&self) -> (text: &String)
        ensures
            text@ == self@.exp_year,
    {
        &self.exp_year
    }
}

/// The means of payment as a response shows it.
#[derive(Clone, Eq, PartialEq, Debug)]
pub enum PaymentMethodDataResponse {
    Card(CCardResponse),
    BankTransfer,
    Wallet,
    PayLater(PayLaterData),
    Paypal,
}

/// Whether `shown` is what a response shows of `method`: the same kind, a
/// card cut down to its summary, everything else as it was.
pub open spec fn shows(shown: PaymentMethodDataResponse, method: PaymentMethod) -> bool {
    match method {
        PaymentMethod::Card(card) => shown matches PaymentMethodDataResponse::Card(summary)
            && summary@ == summarize(card),
        PaymentMethod::BankTransfer => shown == PaymentMethodDataResponse::BankTransfer,
        PaymentMethod::Wallet => shown == PaymentMethodDataResponse::Wallet,
        PaymentMethod::PayLater(data) => shown == PaymentMethodDataResponse::PayLater(data),
        PaymentMethod::Paypal => shown == PaymentMethodDataResponse::Paypal,
    }
}

impl PaymentMethod {
    /// Whether a response can be made of `self`: a card needs a number with
    /// a last four, every other kind passes.
    pub open spec fn spec_has_response(&self) -> bool {
        match *self {
            PaymentMethod::Card(card) => card.has_last4(),
            _ => true,
        }
    }

    /// Whether a response can be made of `self`.
    #[verifier::when_used_as_spec(spec_has_response)]
    pub fn has_response(&self) -> (ok: bool)
        ensures
            ok == self.spec_has_response(),
    {
        match self {
            PaymentMethod::Card(card) => card.has_last4(),
            _ => true,
        }
    }
}

impl PaymentMethodDataResponse {
    /// What a response shows of `payment_method_data`.
    pub fn from(payment_method_data: PaymentMethod) -> (shown: PaymentMethodDataResponse)
        requires
            payment_method_data.has_response(),
        ensures
            shows(shown, payment_method_data),
    {
        match payment_method_data {
            PaymentMethod::Card(card) => PaymentMethodDataResponse::Card(CCardResponse::from(card)),
            PaymentMethod::BankTransfer => PaymentMethodDataResponse::BankTransfer,
            PaymentMethod::PayLater(pay_later_data) => PaymentMethodDataResponse::PayLater(
                pay_later_data,
            ),
            PaymentMethod::Wallet => PaymentMethodDataResponse::Wallet,
            PaymentMethod::Paypal => PaymentMethodDataResponse::Paypal,
        }
    }
}

} // verus!
