//! Listing payments: what a client may ask for, and how many come back.

use vstd::prelude::*;

verus! {

/// The page size of a listing whose request names none.
pub open spec fn spec_default_limit() -> i64 {
    10
}

/// The page size of a listing whose request names none.
#[verifier::when_used_as_spec(spec_default_limit)]
pub fn default_limit() -> (limit: i64)
    ensures
        limit == 10,
{
    10
}

/// The page size of a listing, from what its request says of it, if
/// anything.
pub open spec fn spec_limit_or_default(requested: Option<i64>) -> i64 {
    match requested {
        Some(limit) => limit,
        None => default_limit(),
    }
}

/// The page size of a listing: the one that its request names, and ten where
/// it names none.
#[verifier::when_used_as_spec(spec_limit_or_default)]
pub fn limit_or_default(requested: Option<i64>) -> (limit: i64)
    ensures
        limit == spec_limit_or_default(requested),
        requested is None ==> limit == 10,
{
    match requested {
        Some(limit) => limit,
        None => default_limit(),
    }
}

/// Which payments a listing is to hold.
///
/// The five fields on the time of creation ask for payments made at a given
/// time, before it, after it, at or before it, and at or after it.
#[derive(Clone, Debug, Eq, PartialEq)]
pub struct PaymentListConstraints {
    pub customer_id: Option<String>,
    pub starting_after: Option<String>,
    pub ending_before: Option<String>,
    /// How many payments a page holds.
    pub limit: i64,
    pub created: Option<time::PrimitiveDateTime>,
    pub created_lt: Option<time::PrimitiveDateTime>,
    pub created_gt: Option<time::PrimitiveDateTime>,
    pub created_lte: Option<time::PrimitiveDateTime>,
    pub created_gte: Option<time::PrimitiveDateTime>,
}

impl PaymentListConstraints {
    /// Whether `self` asks for nothing in particular.
    pub open spec fn is_unconstrained(self) -> bool {
        &&& self.customer_id is None
        &&& self.starting_after is None
        &&& self.ending_before is None
        &&& self.created is None
        &&& self.created_lt is None
        &&& self.created_gt is None
        &&& self.created_lte is None
        &&& self.created_gte is None
    }
}

impl Default for PaymentListConstraints {
    /// The constraints of a request that says nothing: any payment, ten to
    /// a page.
    fn default() -> (constraints: PaymentListConstraints)
        ensures
            constraints.is_unconstrained(),
            constraints.limit == 10,
    {
        PaymentListConstraints {
            customer_id: None,
            starting_after: None,
            ending_before: None,
            limit: limit_or_default(None),
            created: None,
            created_lt: None,
            created_gt: None,
            created_lte: None,
            created_gte: None,
        }
    }
}

} // verus!
