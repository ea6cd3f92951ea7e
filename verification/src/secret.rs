//! A holder for sensitive text.

use vstd::prelude::*;

verus! {

/// Sensitive text: a card number, an e-mail address, an IP address.
///
/// The text is private to this module and the type has no formatter, so a
/// value cannot end up in a log by accident. The only ways to read it are
/// [`Secret::peek`] and [`Secret::expose`], and every read shows in the source.
#[derive(Clone, PartialEq, Eq)]
pub struct Secret {
    inner: String,
}

impl View for Secret {
    type V = Seq<char>;

    /// The text held.
    closed spec fn view(&self) -> Seq<char> {
        self.inner@
    }
}

impl Secret {
    /// Wraps `value`.
    pub fn new(value: String) -> (secret: Secret)
        ensures
            secret@ == value@,
    {
        Secret { inner: value }
    }

    /// Reads the text. Nothing is moved, changed or wiped.
    pub fn peek(&self) -> (text: &String)
        ensures
            text@ == self@,
    {
        &self.inner
    }

    /// Gives the text up, consuming the holder.
    pub fn expose(self) -> (text: String)
        ensures
            text@ == self@,
    {
        self.inner
    }
}

impl Default for Secret {
    /// The empty text.
    fn default() -> (secret: Secret)
        ensures
            secret@ == Seq::<char>::empty(),
    {
        Secret { inner: String::new() }
    }
}

} // verus!
