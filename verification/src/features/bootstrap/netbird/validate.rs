//! Input checks for the NetBird bootstrap.

use vstd::prelude::*;
use crate::text::{has_prefix, starts_with, trim, trim_ws};

verus! {

/// Why a management URL was rejected.
#[derive(Debug, Clone, Copy, PartialEq, Eq, Structural)]
pub enum ManagementUrlError {
    Empty,
    Scheme,
}

impl ManagementUrlError {
    /// Human-readable message for the error.
    pub fn message(&self) -> (r: String)
        ensures
            r@ == (match self {
                ManagementUrlError::Empty => "management URL must not be empty"@,
                ManagementUrlError::Scheme => "management URL must start with http:// or https://"@,
            }),
    {
        match self {
            ManagementUrlError::Empty => String::from_str("management URL must not be empty"),
            ManagementUrlError::Scheme => String::from_str("management URL must start with http:// or https://"),
        }
    }
}

/// Outcome of [`validate_management_url`]: non-blank and http(s) after trimming.
pub open spec fn spec_validate_management_url(url: Seq<char>) -> Result<(), ManagementUrlError> {
    let t = trim_ws(url);
    if t.len() == 0 {
        Err(ManagementUrlError::Empty)
    } else if !(has_prefix(t, "http://"@) || has_prefix(t, "https://"@)) {
        Err(ManagementUrlError::Scheme)
    } else {
        Ok(())
    }
}

/// Checks a self-hosted management service URL.
pub fn validate_management_url(url: &str) -> (r: Result<(), ManagementUrlError>)
    ensures
        r == spec_validate_management_url(url@),
{
    let trimmed = trim(url);
    if trimmed.unicode_len() == 0 {
        return Err(ManagementUrlError::Empty);
    }
    if !(starts_with(trimmed, "http://") || starts_with(trimmed, "https://")) {
        return Err(ManagementUrlError::Scheme);
    }
    Ok(())
}

} // verus!
