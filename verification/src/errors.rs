//! What a caller is told when a value is not the one that was asked for.

use vstd::prelude::*;

verus! {

/// A value that the caller supplied does not pass validation.
#[derive(Debug, Clone, Copy, PartialEq, Eq)]
pub enum ValidationError {
    /// The field `field_name` holds a value of the wrong kind.
    IncorrectValueProvided { field_name: &'static str },
}

/// A validation error together with a note that tells a human what was
/// expected and what was found instead.
///
/// The error is for the program: the caller can match on it and try another
/// accessor. The note is for the message that the caller shows or logs.
#[derive(Debug, Clone, Copy, PartialEq, Eq)]
pub struct ValidationReport {
    pub error: ValidationError,
    pub note: &'static str,
}

} // verus!
