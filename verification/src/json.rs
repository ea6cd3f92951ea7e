//! Free-form data that a merchant attaches to a payment.

use vstd::prelude::*;

verus! {

/// `serde_json::Value`, any JSON value. Nothing here looks inside one: it is
/// stored and handed on as it came.
#[verifier::external_type_specification]
#[verifier::external_body]
pub struct ExValue(serde_json::Value);

} // verus!
