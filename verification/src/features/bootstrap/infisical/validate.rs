//! Checks on Infisical inputs.

use vstd::prelude::*;
use crate::features::bootstrap::docker::validate::has_http_scheme;
use crate::text::starts_with;

verus! {

/// The Infisical API address is not an http(s) URL.
#[derive(Debug, Clone, Copy, PartialEq, Eq, Structural)]
pub enum AddressError {
    Scheme,
}

impl AddressError {
    /// The error's text.
    pub fn message(&self) -> (r: String)
        ensures
            r@ == self.spec_message(),
    {
        match self {
            AddressError::Scheme => String::from_str("Infisical address must start with https:// or http://"),
        }
    }

    pub open spec fn spec_message(&self) -> Seq<char> {
        match self {
            AddressError::Scheme => "Infisical address must start with https:// or http://"@,
        }
    }
}

/// The outcome of [`validate_address`].
pub open spec fn spec_validate_address(address: Seq<char>) -> Result<(), AddressError> {
    if has_http_scheme(address) {
        Ok(())
    } else {
        Err(AddressError::Scheme)
    }
}

/// The API address must start with `https://` or `http://`.
pub fn validate_address(address: &str) -> (r: Result<(), AddressError>)
    ensures
        r == spec_validate_address(address@),
{
    if !starts_with(address, "https://") && !starts_with(address, "http://") {
        return Err(AddressError::Scheme);
    }
    Ok(())
}

} // verus!
