//! Git URL checks and normalization for the Flux bootstrap.

use vstd::prelude::*;
use crate::text::{
    find_char_from, has_prefix, is_ws, lemma_prefix_before, lemma_prefix_before_at, lemma_trim_idempotent, lemma_trim_shape,
    prefix_before, starts_with, trim, trim_end_ws, trim_start_ws, trim_ws,
};

verus! {

/// Why a Flux Git URL was rejected.
#[derive(Debug, Clone, Copy, PartialEq, Eq, Structural)]
pub enum GitUrlError {
    Empty,
    HttpNotSupported,
    NotSsh,
}

impl GitUrlError {
    /// Human-readable message for the error.
    pub fn message(&self) -> (r: String)
        ensures
            r@ == self.spec_message(),
    {
        match self {
            GitUrlError::Empty => String::from_str("Git URL must not be empty"),
            GitUrlError::HttpNotSupported => String::from_str(
                "use an SSH Git URL (https:// is for PAT + --token-auth; not supported in this bootstrap)",
            ),
            GitUrlError::NotSsh => String::from_str("Git URL must start with ssh:// or use scp form git@host:path"),
        }
    }

    pub open spec fn spec_message(&self) -> Seq<char> {
        match self {
            GitUrlError::Empty => "Git URL must not be empty"@,
            GitUrlError::HttpNotSupported => "use an SSH Git URL (https:// is for PAT + --token-auth; not supported in this bootstrap)"@,
            GitUrlError::NotSsh => "Git URL must start with ssh:// or use scp form git@host:path"@,
        }
    }
}

/// The scp form `git@host:path`.
pub open spec fn is_scp_form(t: Seq<char>) -> bool {
    has_prefix(t, "git@"@) && t.contains(':')
}

/// Outcome of [`validate_ssh_git_url`] on the trimmed URL: non-empty, not http(s),
/// and either `ssh://…` or the scp form.
pub open spec fn spec_validate_ssh_git_url(url: Seq<char>) -> Result<(), GitUrlError> {
    let t = trim_ws(url);
    if t.len() == 0 {
        Err(GitUrlError::Empty)
    } else if has_prefix(t, "https://"@) || has_prefix(t, "http://"@) {
        Err(GitUrlError::HttpNotSupported)
    } else if has_prefix(t, "ssh://"@) || is_scp_form(t) {
        Ok(())
    } else {
        Err(GitUrlError::NotSsh)
    }
}

fn contains_colon(t: &str) -> (r: bool)
    ensures
        r == t@.contains(':'),
{
    let n = t.unicode_len();
    let k = find_char_from(t, ':', 0, n);
    if k < n {
        assert(t@[k as int] == ':');
        true
    } else {
        false
    }
}

/// Checks that a Git URL is an SSH URL.
pub fn validate_ssh_git_url(url: &str) -> (r: Result<(), GitUrlError>)
    ensures
        r == spec_validate_ssh_git_url(url@),
{
    let t = trim(url);
    if t.unicode_len() == 0 {
        return Err(GitUrlError::Empty);
    }
    if starts_with(t, "https://") || starts_with(t, "http://") {
        return Err(GitUrlError::HttpNotSupported);
    }
    if starts_with(t, "ssh://") {
        return Ok(());
    }
    if starts_with(t, "git@") && contains_colon(t) {
        return Ok(());
    }
    Err(GitUrlError::NotSsh)
}

/// The URL handed to `flux bootstrap git`: the trimmed URL, with the scp form
/// `git@host:path` rewritten to `ssh://git@host/path`.
pub open spec fn spec_normalize_flux_url(url: Seq<char>) -> Seq<char> {
    let t = trim_ws(url);
    if !has_prefix(t, "ssh://"@) && is_scp_form(t) {
        let p = prefix_before(t, ':');
        "ssh://"@ + p + "/"@ + t.skip(p.len() as int + 1)
    } else {
        t
    }
}

/// Rewrites an scp-style Git URL into the `ssh://` form the Flux CLI expects.
pub fn normalize_ssh_git_url_for_flux(url: &str) -> (r: String)
    ensures
        r@ == spec_normalize_flux_url(url@),
{
    let t = trim(url);
    let n = t.unicode_len();
    if !starts_with(t, "ssh://") && starts_with(t, "git@") && contains_colon(t) {
        let k = find_char_from(t, ':', 0, n);
        proof {
            lemma_prefix_before_at(t@, ':', k as int);
        }
        let mut out = String::from_str("ssh://");
        out.append(t.substring_char(0, k));
        out.append("/");
        out.append(t.substring_char(k + 1, n));
        proof {
            assert(t@.subrange(0, k as int) =~= t@.take(k as int));
            assert(t@.subrange(k + 1, n as int) =~= t@.skip(k + 1));
        }
        out
    } else {
        String::from_str(t)
    }
}

/// Validates a Git URL and returns it trimmed.
pub fn finalize_flux_git_url(url: &str) -> (r: Result<String, GitUrlError>)
    ensures
        match spec_validate_ssh_git_url(url@) {
            Ok(_) => r matches Ok(s) && s@ == trim_ws(url@),
            Err(e) => r == Err::<String, GitUrlError>(e),
        },
{
    match validate_ssh_git_url(url) {
        Ok(_) => Ok(String::from_str(trim(url))),
        Err(e) => Err(e),
    }
}

/// A URL that passes [`validate_ssh_git_url`] reaches the Flux CLI in `ssh://`
/// form, already trimmed, and normalizing it again changes nothing.
pub proof fn law_valid_flux_url_normalizes_to_ssh(url: Seq<char>)
    requires
        spec_validate_ssh_git_url(url) is Ok,
    ensures
        has_prefix(spec_normalize_flux_url(url), "ssh://"@),
        trim_ws(spec_normalize_flux_url(url)) == spec_normalize_flux_url(url),
        spec_normalize_flux_url(spec_normalize_flux_url(url)) == spec_normalize_flux_url(url),
{
    reveal_strlit("ssh://");
    let t = trim_ws(url);
    let n = spec_normalize_flux_url(url);
    lemma_trim_shape(url);
    lemma_trim_idempotent(url);
    if !has_prefix(t, "ssh://"@) && is_scp_form(t) {
        let p = prefix_before(t, ':');
        lemma_prefix_before(t, ':');
        let rest = t.skip(p.len() as int + 1);
        assert(n == "ssh://"@ + p + "/"@ + rest);
        assert(n.subrange(0, 6) =~= "ssh://"@);
        assert(n[0] == 's');
        assert(!is_ws(n[0]));
        if rest.len() > 0 {
            assert(n.last() == rest.last());
            assert(rest.last() == t.last());
        } else {
            reveal_strlit("/");
            assert(n.last() == '/');
        }
        assert(!is_ws(n.last()));
        assert(trim_start_ws(n) == n);
        assert(trim_end_ws(n) == n);
        assert(trim_ws(n) == n);
    } else {
        assert(n == t);
    }
}

} // verus!
