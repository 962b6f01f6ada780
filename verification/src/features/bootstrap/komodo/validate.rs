//! Checks on Komodo addresses.

use vstd::prelude::*;
use crate::features::bootstrap::docker::validate::has_http_scheme;
use crate::text::{find_char_from, has_prefix, starts_with, utf8_len, utf8_len_exceeds};

verus! {

/// Why a Komodo address was refused.
#[derive(Debug, Clone)]
pub enum KomodoValidationError {
    /// The host (kept) is not an http(s) URL.
    HostScheme(String),
    /// The host is shorter than 10 bytes.
    HostTooShort,
    /// The core address (kept) is not a WebSocket URL.
    CoreAddressScheme(String),
    /// The core address has no port part.
    CoreAddressFormat,
}

fn got(prefix: &str, value: &str) -> (r: String)
    ensures
        r@ == prefix@ + value@ + ")"@,
{
    let mut m = String::from_str(prefix);
    m.append(value);
    m.append(")");
    m
}

impl KomodoValidationError {
    /// Human-readable message for the error.
    pub fn message(&self) -> (r: String)
        ensures
            r@ == self.spec_message(),
    {
        match self {
            KomodoValidationError::HostScheme(h) => got(
                "Komodo host must start with https:// or http:// (got: ",
                h.as_str(),
            ),
            KomodoValidationError::HostTooShort => String::from_str("Invalid host URL"),
            KomodoValidationError::CoreAddressScheme(a) => got(
                "Core address must start with ws:// or wss:// (got: ",
                a.as_str(),
            ),
            KomodoValidationError::CoreAddressFormat => String::from_str("Invalid WebSocket address format"),
        }
    }

    pub open spec fn spec_message(&self) -> Seq<char> {
        match self {
            KomodoValidationError::HostScheme(h) => "Komodo host must start with https:// or http:// (got: "@ + h@
                + ")"@,
            KomodoValidationError::HostTooShort => "Invalid host URL"@,
            KomodoValidationError::CoreAddressScheme(a) => "Core address must start with ws:// or wss:// (got: "@
                + a@ + ")"@,
            KomodoValidationError::CoreAddressFormat => "Invalid WebSocket address format"@,
        }
    }
}

/// The public host must be an http(s) URL of at least 10 bytes.
pub fn validate_komodo_host(host: &str) -> (r: Result<(), KomodoValidationError>)
    ensures
        !has_http_scheme(host@) ==> (r matches Err(KomodoValidationError::HostScheme(h)) && h@ == host@),
        has_http_scheme(host@) && utf8_len(host@) < 10 ==> (r matches Err(KomodoValidationError::HostTooShort)),
        has_http_scheme(host@) && utf8_len(host@) >= 10 ==> r is Ok,
{
    if !starts_with(host, "https://") && !starts_with(host, "http://") {
        return Err(KomodoValidationError::HostScheme(String::from_str(host)));
    }
    if !utf8_len_exceeds(host, 9) {
        return Err(KomodoValidationError::HostTooShort);
    }
    Ok(())
}

/// `s` starts with `ws://` or `wss://`.
pub open spec fn has_ws_scheme(s: Seq<char>) -> bool {
    has_prefix(s, "ws://"@) || has_prefix(s, "wss://"@)
}

/// `c` occurs at least twice in `s`.
pub open spec fn occurs_twice(s: Seq<char>, c: char) -> bool {
    exists|i: int, j: int| 0 <= i < j < s.len() && s[i] == c && s[j] == c
}

fn has_two_colons(s: &str) -> (r: bool)
    ensures
        r == occurs_twice(s@, ':'),
{
    let n = s.unicode_len();
    let k = find_char_from(s, ':', 0, n);
    if k == n {
        return false;
    }
    let k2 = find_char_from(s, ':', k + 1, n);
    if k2 < n {
        assert(s@[k as int] == ':' && s@[k2 as int] == ':');
        true
    } else {
        assert forall|i: int, j: int| 0 <= i < j < s@.len() && s@[i] == ':' implies s@[j] != ':' by {
            assert(i >= k);
        }
        false
    }
}

/// The core address must be a WebSocket URL with a port (`ws://host:port`):
/// splitting at `:` must give a third piece.
pub fn validate_ws_address(addr: &str) -> (r: Result<(), KomodoValidationError>)
    ensures
        !has_ws_scheme(addr@) ==> (r matches Err(KomodoValidationError::CoreAddressScheme(a)) && a@ == addr@),
        has_ws_scheme(addr@) && !occurs_twice(addr@, ':') ==> (r matches Err(KomodoValidationError::CoreAddressFormat)),
        has_ws_scheme(addr@) && occurs_twice(addr@, ':') ==> r is Ok,
{
    if !starts_with(addr, "ws://") && !starts_with(addr, "wss://") {
        return Err(KomodoValidationError::CoreAddressScheme(String::from_str(addr)));
    }
    if !has_two_colons(addr) {
        return Err(KomodoValidationError::CoreAddressFormat);
    }
    Ok(())
}

} // verus!
