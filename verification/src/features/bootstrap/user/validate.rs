//! Input checks for the admin user bootstrap.

use vstd::prelude::*;
use crate::text::{first_two_words, nth_token_or_empty, str_eq};

verus! {

/// Why user bootstrap inputs were rejected.
#[derive(Debug, Clone)]
pub enum UserValidationError {
    EmptyUsername,
    UsernameStart,
    UsernameCharacters,
    NoKeys,
    KeyMissingParts,
    /// The key's first word is not a supported algorithm (the word is kept).
    UnsupportedKeyAlgorithm(String),
}

impl UserValidationError {
    /// Human-readable message for the error.
    pub fn message(&self) -> (r: String)
        ensures
            r@ == self.spec_message(),
    {
        match self {
            UserValidationError::EmptyUsername => String::from_str("username must not be empty"),
            UserValidationError::UsernameStart => String::from_str("username must start with a lowercase letter or underscore"),
            UserValidationError::UsernameCharacters => String::from_str("username contains unsupported characters"),
            UserValidationError::NoKeys => String::from_str("at least one SSH key is required"),
            UserValidationError::KeyMissingParts => String::from_str("ssh key must contain algorithm and payload"),
            UserValidationError::UnsupportedKeyAlgorithm(algo) => {
                let mut m = String::from_str("unsupported ssh key algorithm: ");
                m.append(algo.as_str());
                m
            },
        }
    }

    pub open spec fn spec_message(&self) -> Seq<char> {
        match self {
            UserValidationError::EmptyUsername => "username must not be empty"@,
            UserValidationError::UsernameStart => "username must start with a lowercase letter or underscore"@,
            UserValidationError::UsernameCharacters => "username contains unsupported characters"@,
            UserValidationError::NoKeys => "at least one SSH key is required"@,
            UserValidationError::KeyMissingParts => "ssh key must contain algorithm and payload"@,
            UserValidationError::UnsupportedKeyAlgorithm(algo) => "unsupported ssh key algorithm: "@ + algo@,
        }
    }
}

/// Characters allowed in a system user or group name.
pub open spec fn username_char(c: char) -> bool {
    ('a' <= c && c <= 'z') || ('0' <= c && c <= '9') || c == '_' || c == '-'
}

/// Outcome of [`validate_username`]: non-empty, starting with a lowercase ASCII
/// letter or `_`, and made of lowercase ASCII letters, digits, `_` and `-`.
pub open spec fn spec_validate_username(u: Seq<char>) -> Result<(), UserValidationError> {
    if u.len() == 0 {
        Err(UserValidationError::EmptyUsername)
    } else if !(('a' <= u[0] && u[0] <= 'z') || u[0] == '_') {
        Err(UserValidationError::UsernameStart)
    } else if !(forall|i: int| 0 <= i < u.len() ==> username_char(#[trigger] u[i])) {
        Err(UserValidationError::UsernameCharacters)
    } else {
        Ok(())
    }
}

/// Checks a user or group name.
pub fn validate_username(username: &str) -> (r: Result<(), UserValidationError>)
    ensures
        r == spec_validate_username(username@),
{
    let n = username.unicode_len();
    if n == 0 {
        return Err(UserValidationError::EmptyUsername);
    }
    let first = username.get_char(0);
    if !(('a' <= first && first <= 'z') || first == '_') {
        return Err(UserValidationError::UsernameStart);
    }
    let mut i: usize = 0;
    while i < n
        invariant
            i <= n,
            n == username@.len(),
            n > 0,
            ('a' <= username@[0] && username@[0] <= 'z') || username@[0] == '_',
            forall|j: int| 0 <= j < i ==> username_char(#[trigger] username@[j]),
        decreases n - i,
    {
        let c = username.get_char(i);
        if !(('a' <= c && c <= 'z') || ('0' <= c && c <= '9') || c == '_' || c == '-') {
            assert(!username_char(username@[i as int]));
            return Err(UserValidationError::UsernameCharacters);
        }
        i = i + 1;
    }
    Ok(())
}

/// Key algorithms accepted in `authorized_keys`.
pub open spec fn supported_algorithm(a: Seq<char>) -> bool {
    a == "ssh-ed25519"@ || a == "ssh-rsa"@ || a == "ecdsa-sha2-nistp256"@
}

/// What [`validate_ssh_key`] finds in a key line.
pub enum SshKeyCheck {
    Valid,
    MissingParts,
    UnsupportedAlgorithm(Seq<char>),
}

/// The key needs an algorithm word and a payload word, and the algorithm must be supported.
pub open spec fn spec_check_ssh_key(key: Seq<char>) -> SshKeyCheck {
    let algo = nth_token_or_empty(key, 0);
    let payload = nth_token_or_empty(key, 1);
    if algo.len() == 0 || payload.len() == 0 {
        SshKeyCheck::MissingParts
    } else if !supported_algorithm(algo) {
        SshKeyCheck::UnsupportedAlgorithm(algo)
    } else {
        SshKeyCheck::Valid
    }
}

/// The result of [`validate_ssh_key`] matches the check.
pub open spec fn key_result_matches(r: Result<(), UserValidationError>, check: SshKeyCheck) -> bool {
    match check {
        SshKeyCheck::Valid => r is Ok,
        SshKeyCheck::MissingParts => r matches Err(UserValidationError::KeyMissingParts),
        SshKeyCheck::UnsupportedAlgorithm(a) => r matches Err(UserValidationError::UnsupportedKeyAlgorithm(w)) && w@ == a,
    }
}

/// Checks an SSH public key line such as `ssh-ed25519 AAAA... user@host`.
pub fn validate_ssh_key(key: &str) -> (r: Result<(), UserValidationError>)
    ensures
        key_result_matches(r, spec_check_ssh_key(key@)),
{
    let (algo, payload) = first_two_words(key);
    if algo.unicode_len() == 0 || payload.unicode_len() == 0 {
        return Err(UserValidationError::KeyMissingParts);
    }
    let a = algo.as_str();
    if !(str_eq(a, "ssh-ed25519") || str_eq(a, "ssh-rsa") || str_eq(a, "ecdsa-sha2-nistp256")) {
        return Err(UserValidationError::UnsupportedKeyAlgorithm(algo));
    }
    Ok(())
}

} // verus!
