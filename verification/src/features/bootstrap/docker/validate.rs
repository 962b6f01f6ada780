//! Input checks for the Docker bootstrap.

use vstd::prelude::*;
use crate::text::{char_is_alphanumeric, has_prefix, starts_with, unicode_alphanumeric, utf8_len, utf8_len_exceeds};

verus! {

/// Why a Docker bootstrap input was rejected.
#[derive(Debug, Clone, Copy, PartialEq, Eq, Structural)]
pub enum DockerValidationError {
    InstallScriptUrlScheme,
    EmptyUsername,
    UsernameTooLong,
    UsernameCharacters,
    RegistryMirrorScheme,
}

impl DockerValidationError {
    /// Human-readable message for the error.
    pub fn message(&self) -> (r: String)
        ensures
            r@ == self.spec_message(),
    {
        match self {
            DockerValidationError::InstallScriptUrlScheme => String::from_str(
                "install script URL must start with https:// or http://",
            ),
            DockerValidationError::EmptyUsername => String::from_str("username cannot be empty"),
            DockerValidationError::UsernameTooLong => String::from_str(
                "username too long (max 32 chars)",
            ),
            DockerValidationError::UsernameCharacters => String::from_str(
                "username can only contain alphanumerics, underscore, and dash",
            ),
            DockerValidationError::RegistryMirrorScheme => String::from_str(
                "registry mirror URL must start with https:// or http://",
            ),
        }
    }

    pub open spec fn spec_message(&self) -> Seq<char> {
        match self {
            DockerValidationError::InstallScriptUrlScheme => "install script URL must start with https:// or http://"@,
            DockerValidationError::EmptyUsername => "username cannot be empty"@,
            DockerValidationError::UsernameTooLong => "username too long (max 32 chars)"@,
            DockerValidationError::UsernameCharacters => "username can only contain alphanumerics, underscore, and dash"@,
            DockerValidationError::RegistryMirrorScheme => "registry mirror URL must start with https:// or http://"@,
        }
    }
}

/// `s` starts with `https://` or `http://`.
pub open spec fn has_http_scheme(s: Seq<char>) -> bool {
    has_prefix(s, "https://"@) || has_prefix(s, "http://"@)
}

/// Install script URLs must use an http(s) scheme.
pub fn validate_url(url: &str) -> (r: Result<(), DockerValidationError>)
    ensures
        r == (if has_http_scheme(url@) { Ok(()) } else { Err(DockerValidationError::InstallScriptUrlScheme) }),
{
    if !starts_with(url, "https://") && !starts_with(url, "http://") {
        return Err(DockerValidationError::InstallScriptUrlScheme);
    }
    Ok(())
}

/// A character allowed in a docker-group user name.
pub open spec fn docker_username_char(c: char) -> bool {
    unicode_alphanumeric(c) || c == '_' || c == '-'
}

/// The outcome of [`validate_username`].
pub open spec fn spec_validate_username(username: Seq<char>) -> Result<(), DockerValidationError> {
    if username.len() == 0 {
        Err(DockerValidationError::EmptyUsername)
    } else if utf8_len(username) > 32 {
        Err(DockerValidationError::UsernameTooLong)
    } else if !(forall|i: int| 0 <= i < username.len() ==> docker_username_char(#[trigger] username[i])) {
        Err(DockerValidationError::UsernameCharacters)
    } else {
        Ok(())
    }
}

/// User names added to the docker group: non-empty, at most 32 bytes, alphanumerics, `_` or `-`.
pub fn validate_username(username: &str) -> (r: Result<(), DockerValidationError>)
    ensures
        r == spec_validate_username(username@),
{
    if username.is_empty() {
        return Err(DockerValidationError::EmptyUsername);
    }
    if utf8_len_exceeds(username, 32) {
        return Err(DockerValidationError::UsernameTooLong);
    }
    let n = username.unicode_len();
    let mut i: usize = 0;
    while i < n
        invariant
            i <= n,
            n == username@.len(),
            username@.len() != 0,
            utf8_len(username@) <= 32,
            forall|j: int| 0 <= j < i ==> docker_username_char(#[trigger] username@[j]),
        decreases n - i,
    {
        let c = username.get_char(i);
        if !(char_is_alphanumeric(c) || c == '_' || c == '-') {
            assert(!docker_username_char(username@[i as int]));
            return Err(DockerValidationError::UsernameCharacters);
        }
        i = i + 1;
    }
    Ok(())
}

/// Registry mirrors must use an http(s) scheme.
pub fn validate_registry_mirror(url: &str) -> (r: Result<(), DockerValidationError>)
    ensures
        r == (if has_http_scheme(url@) { Ok(()) } else { Err(DockerValidationError::RegistryMirrorScheme) }),
{
    if !starts_with(url, "https://") && !starts_with(url, "http://") {
        return Err(DockerValidationError::RegistryMirrorScheme);
    }
    Ok(())
}

} // verus!
