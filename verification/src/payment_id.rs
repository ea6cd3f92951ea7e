//! The ways in which a payment can be addressed.

use vstd::prelude::*;
use crate::errors::{ValidationError, ValidationReport};
use crate::text::same_text;

verus! {

/// An identifier of a payment, in one of exactly three forms.
///
/// On the wire an identifier is a tagged structure: the name of its form and
/// the text it holds. [`PaymentIdType::tag`] and [`PaymentIdType::payload`]
/// take an identifier apart that way, [`PaymentIdType::from_tagged`] puts one
/// together again, and nothing is lost in between ([`lemma_tagged_round_trip`]).
#[derive(Debug, Clone, PartialEq, Eq)]
pub enum PaymentIdType {
    /// The identifier of the payment itself, the intent.
    PaymentIntentId(String),
    /// The identifier that the processor gave to the transaction.
    ConnectorTransactionId(String),
    /// The identifier of one attempt at the payment.
    PaymentTxnId(String),
}

/// The intent identifier that `id` holds, if it is of that form.
pub open spec fn narrow_to_intent_id(id: PaymentIdType) -> Option<String> {
    match id {
        PaymentIdType::PaymentIntentId(intent_id) => Some(intent_id),
        PaymentIdType::ConnectorTransactionId(_) | PaymentIdType::PaymentTxnId(_) => None,
    }
}

/// What a caller is told who asked for an intent identifier and held another
/// form: the field at fault, and a note on what was expected.
pub open spec fn intent_id_expected() -> ValidationReport {
    ValidationReport {
        error: ValidationError::IncorrectValueProvided { field_name: "payment_id" },
        note: "Expected payment intent ID but got connector transaction ID",
    }
}

/// The identifier with the form that `tag` names and the text `payload`;
/// none where `tag` names no form.
pub open spec fn untag(tag: Seq<char>, payload: String) -> Option<PaymentIdType> {
    if tag == "PaymentIntentId"@ {
        Some(PaymentIdType::PaymentIntentId(payload))
    } else if tag == "ConnectorTransactionId"@ {
        Some(PaymentIdType::ConnectorTransactionId(payload))
    } else if tag == "PaymentTxnId"@ {
        Some(PaymentIdType::PaymentTxnId(payload))
    } else {
        None
    }
}

impl PaymentIdType {
    /// The name of the form of `self`.
    pub open spec fn spec_tag(self) -> Seq<char> {
        match self {
            PaymentIdType::PaymentIntentId(_) => "PaymentIntentId"@,
            PaymentIdType::ConnectorTransactionId(_) => "ConnectorTransactionId"@,
            PaymentIdType::PaymentTxnId(_) => "PaymentTxnId"@,
        }
    }

    /// The text that `self` holds, whatever its form.
    pub open spec fn spec_payload(self) -> String {
        match self {
            PaymentIdType::PaymentIntentId(text) => text,
            PaymentIdType::ConnectorTransactionId(text) => text,
            PaymentIdType::PaymentTxnId(text) => text,
        }
    }

    /// The intent identifier, if that is the form held; for the two other
    /// forms the report [`intent_id_expected`].
    pub fn get_payment_intent_id(&self) -> (result: Result<String, ValidationReport>)
        ensures
            result == match narrow_to_intent_id(*self) {
                Some(intent_id) => Ok::<String, ValidationReport>(intent_id),
                None => Err::<String, ValidationReport>(intent_id_expected()),
            },
    {
        match self {
            PaymentIdType::PaymentIntentId(id) => Ok(id.clone()),
            PaymentIdType::ConnectorTransactionId(_) | PaymentIdType::PaymentTxnId(_) => {
                Err(
                    ValidationReport {
                        error: ValidationError::IncorrectValueProvided { field_name: "payment_id" },
                        note: "Expected payment intent ID but got connector transaction ID",
                    },
                )
            },
        }
    }

    /// The name of the form of `self`: the tag under which it goes on the wire.
    pub fn tag(&self) -> (tag: &'static str)
        ensures
            tag@ == self.spec_tag(),
    {
        match self {
            PaymentIdType::PaymentIntentId(_) => "PaymentIntentId",
            PaymentIdType::ConnectorTransactionId(_) => "ConnectorTransactionId",
            PaymentIdType::PaymentTxnId(_) => "PaymentTxnId",
        }
    }

    /// The text that `self` holds, whatever its form.
    pub fn payload(&self) -> (text: &String)
        ensures
            *text == self.spec_payload(),
    {
        match self {
            PaymentIdType::PaymentIntentId(text) => text,
            PaymentIdType::ConnectorTransactionId(text) => text,
            PaymentIdType::PaymentTxnId(text) => text,
        }
    }

    /// The identifier with the form that `tag` names and the text `payload`;
    /// none where `tag` names no form.
    pub fn from_tagged(tag: &str, payload: String) -> (id: Option<PaymentIdType>)
        ensures
            id == untag(tag@, payload),
    {
        if same_text(tag, "PaymentIntentId") {
            Some(PaymentIdType::PaymentIntentId(payload))
        } else if same_text(tag, "ConnectorTransactionId") {
            Some(PaymentIdType::ConnectorTransactionId(payload))
        } else if same_text(tag, "PaymentTxnId") {
            Some(PaymentIdType::PaymentTxnId(payload))
        } else {
            None
        }
    }
}

impl Default for PaymentIdType {
    /// An intent identifier with no text.
    fn default() -> (id: PaymentIdType)
        ensures
            id matches PaymentIdType::PaymentIntentId(text) && text@ == Seq::<char>::empty(),
    {
        PaymentIdType::PaymentIntentId(String::new())
    }
}

/// The three tags are three different texts.
pub proof fn lemma_tags_differ()
    ensures
        "PaymentIntentId"@ != "ConnectorTransactionId"@,
        "PaymentIntentId"@ != "PaymentTxnId"@,
        "ConnectorTransactionId"@ != "PaymentTxnId"@,
{
    reveal_strlit("PaymentIntentId");
    reveal_strlit("ConnectorTransactionId");
    reveal_strlit("PaymentTxnId");
    assert("PaymentIntentId"@.len() == 15);
    assert("ConnectorTransactionId"@.len() == 22);
    assert("PaymentTxnId"@.len() == 12);
}

/// Taking an identifier apart into tag and text and putting it together again
/// gives the identifier back: the same form, the same text.
pub proof fn lemma_tagged_round_trip(id: PaymentIdType)
    ensures
        untag(id.spec_tag(), id.spec_payload()) == Some(id),
{
    lemma_tags_differ();
}

/// An identifier that was put together from a tag and a text has that tag and
/// that text: no two tagged structures give the same identifier.
pub proof fn lemma_untag_keeps_tag_and_payload(tag: Seq<char>, payload: String, id: PaymentIdType)
    requires
        untag(tag, payload) == Some(id),
    ensures
        id.spec_tag() == tag,
        id.spec_payload() == payload,
{
}

} // verus!
