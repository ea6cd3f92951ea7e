//! Dates and times, and the clock.

use vstd::prelude::*;

verus! {

/// `time::PrimitiveDateTime`, a calendar date with a time of day and no
/// offset. Nothing here looks inside a value: it is stored, copied and handed
/// on.
#[verifier::external_type_specification]
#[verifier::external_body]
pub struct ExPrimitiveDateTime(time::PrimitiveDateTime);

/// The current date and time in UTC, read from the system clock by
/// `time::OffsetDateTime::now_utc`; its date and time of day are put together
/// again by `time::PrimitiveDateTime::new`, which drops the offset.
///
/// Nothing is claimed of the value: two calls may differ. The call comes
/// back for every clock that reads a year from -9999 to 9999, which are the
/// years that `time` can hold.
#[verifier::external_body]
pub(crate) fn now() -> time::PrimitiveDateTime {
    let utc = time::OffsetDateTime::now_utc();
    time::PrimitiveDateTime::new(utc.date(), utc.time())
}

} // verus!
