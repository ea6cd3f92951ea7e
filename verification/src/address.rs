//! Where a customer lives and how to reach them.

use vstd::prelude::*;
use crate::secret::Secret;

verus! {

/// The lines of a postal address. What could single out a person is secret.
#[derive(Clone, Default, Eq, PartialEq)]
pub struct AddressDetails {
    pub city: Option<String>,
    pub country: Option<String>,
    pub line1: Option<Secret>,
    pub line2: Option<Secret>,
    pub line3: Option<Secret>,
    pub zip: Option<Secret>,
    pub state: Option<Secret>,
    pub first_name: Option<Secret>,
    pub last_name: Option<Secret>,
}

/// A telephone number.
#[derive(Clone, Default, Eq, PartialEq)]
pub struct PhoneDetails {
    pub number: Option<Secret>,
    pub country_code: Option<String>,
}

/// A postal address and a telephone number, either of which may be missing.
#[derive(Default, Clone, Eq, PartialEq)]
pub struct Address {
    pub address: Option<AddressDetails>,
    pub phone: Option<PhoneDetails>,
}

} // verus!
