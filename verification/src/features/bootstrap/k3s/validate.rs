//! Input checks for the k3s bootstrap.

use vstd::prelude::*;
use crate::cli::K3sRole;
use crate::text::{has_prefix, prefix_before, starts_with, trim, trim_ws};

verus! {

/// Why k3s bootstrap inputs were rejected.
#[derive(Debug, Clone, Copy, PartialEq, Eq, Structural)]
pub enum K3sValidationError {
    EmptyServerUrl,
    ServerUrlScheme,
    ServerUrlHost,
    AgentMissingServerUrl,
    AgentMissingToken,
}

impl K3sValidationError {
    /// Human-readable message for the error.
    pub fn message(&self) -> (r: String)
        ensures
            r@ == self.spec_message(),
    {
        match self {
            K3sValidationError::EmptyServerUrl => String::from_str("K3S server URL must not be empty"),
            K3sValidationError::ServerUrlScheme => String::from_str("K3S server URL must start with https://"),
            K3sValidationError::ServerUrlHost => String::from_str("K3S server URL must include a host"),
            K3sValidationError::AgentMissingServerUrl => String::from_str("--role agent requires --server-url or K3S_URL"),
            K3sValidationError::AgentMissingToken => String::from_str("--role agent requires --token or K3S_TOKEN"),
        }
    }

    pub open spec fn spec_message(&self) -> Seq<char> {
        match self {
            K3sValidationError::EmptyServerUrl => "K3S server URL must not be empty"@,
            K3sValidationError::ServerUrlScheme => "K3S server URL must start with https://"@,
            K3sValidationError::ServerUrlHost => "K3S server URL must include a host"@,
            K3sValidationError::AgentMissingServerUrl => "--role agent requires --server-url or K3S_URL"@,
            K3sValidationError::AgentMissingToken => "--role agent requires --token or K3S_TOKEN"@,
        }
    }
}

/// Outcome of [`validate_k3s_server_url`]: after trimming, the URL must be non-empty,
/// use `https://`, and have a non-empty host (the text before the first `/`).
pub open spec fn spec_validate_k3s_server_url(url: Seq<char>) -> Result<(), K3sValidationError> {
    let t = trim_ws(url);
    if t.len() == 0 {
        Err(K3sValidationError::EmptyServerUrl)
    } else if !has_prefix(t, "https://"@) {
        Err(K3sValidationError::ServerUrlScheme)
    } else if prefix_before(t.skip(8), '/').len() == 0 {
        Err(K3sValidationError::ServerUrlHost)
    } else {
        Ok(())
    }
}

/// Checks a k3s API server URL such as `https://server:6443`.
pub fn validate_k3s_server_url(url: &str) -> (r: Result<(), K3sValidationError>)
    ensures
        r == spec_validate_k3s_server_url(url@),
{
    let trimmed = trim(url);
    let n = trimmed.unicode_len();
    if n == 0 {
        return Err(K3sValidationError::EmptyServerUrl);
    }
    if !starts_with(trimmed, "https://") {
        return Err(K3sValidationError::ServerUrlScheme);
    }
    proof {
        reveal_strlit("https://");
    }
    let rest = trimmed.substring_char(8, n);
    assert(rest@ =~= trimmed@.skip(8));
    if rest.unicode_len() == 0 || rest.get_char(0) == '/' {
        return Err(K3sValidationError::ServerUrlHost);
    }
    assert(prefix_before(rest@, '/') == seq![rest@[0]] + prefix_before(rest@.drop_first(), '/'));
    Ok(())
}

/// The present value when it is not blank after trimming.
pub open spec fn nonblank(o: Option<&str>) -> Option<Seq<char>> {
    match o {
        Some(s) => if trim_ws(s@).len() > 0 {
            Some(s@)
        } else {
            None
        },
        None => None,
    }
}

/// Outcome of [`validate_agent_inputs`].
pub open spec fn spec_validate_agent_inputs(role: K3sRole, server_url: Option<&str>, token: Option<&str>) -> Result<
    (),
    K3sValidationError,
> {
    if role != K3sRole::Agent {
        Ok(())
    } else {
        match nonblank(server_url) {
            None => Err(K3sValidationError::AgentMissingServerUrl),
            Some(u) => match spec_validate_k3s_server_url(u) {
                Err(e) => Err(e),
                Ok(_) => if nonblank(token) is None {
                    Err(K3sValidationError::AgentMissingToken)
                } else {
                    Ok(())
                },
            },
        }
    }
}

/// Agents need a valid server URL and a non-blank token; servers need nothing.
pub fn validate_agent_inputs(role: K3sRole, server_url: Option<&str>, token: Option<&str>) -> (r: Result<
    (),
    K3sValidationError,
>)
    ensures
        r == spec_validate_agent_inputs(role, server_url, token),
{
    if role != K3sRole::Agent {
        return Ok(());
    }
    let url = match server_url {
        Some(u) => {
            if trim(u).unicode_len() == 0 {
                return Err(K3sValidationError::AgentMissingServerUrl);
            }
            u
        },
        None => return Err(K3sValidationError::AgentMissingServerUrl),
    };
    match validate_k3s_server_url(url) {
        Ok(_) => {},
        Err(e) => return Err(e),
    }
    match token {
        Some(t) => {
            if trim(t).unicode_len() == 0 {
                return Err(K3sValidationError::AgentMissingToken);
            }
        },
        None => return Err(K3sValidationError::AgentMissingToken),
    }
    Ok(())
}

} // verus!
