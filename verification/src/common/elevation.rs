//! Privilege elevation policy for subprocess execution and privileged filesystem paths.
//!
//! Default stance: the process stays the invoking user; elevation is granular
//! (`sudo` per operation) unless a workflow asks for elevated operations.

use vstd::prelude::*;
use crate::text::{has_prefix, starts_with};

verus! {

/// Controls how plan execution runs shell operations and verify steps.
#[derive(Clone, Copy, Debug, PartialEq, Eq, Structural)]
pub struct PrivilegeContext {
    /// When true, wrap shell and verify subprocesses with `sudo -E` unless the planned command is already `sudo`.
    pub elevate_shell: bool,
}

impl PrivilegeContext {
    /// Read-only / diagnostic flows that should not wrap arbitrary subprocesses.
    pub fn user_session() -> (r: Self)
        ensures
            !r.elevate_shell,
    {
        PrivilegeContext { elevate_shell: false }
    }

    /// Bootstrap, harden, reset, and other workflows that mutate system state.
    pub fn elevated_ops() -> (r: Self)
        ensures
            r.elevate_shell,
    {
        PrivilegeContext { elevate_shell: true }
    }
}

impl Default for PrivilegeContext {
    fn default() -> (r: Self)
        ensures
            !r.elevate_shell,
    {
        Self::user_session()
    }
}

/// Paths under `/etc/`, `/var/` or `/root/` typically require root for read/write.
pub open spec fn spec_path_requires_privilege_escalation(path: Seq<char>) -> bool {
    has_prefix(path, "/etc/"@) || has_prefix(path, "/var/"@) || has_prefix(path, "/root/"@)
}

/// Paths that typically require root for read/write.
pub fn path_requires_privilege_escalation(path: &str) -> (r: bool)
    ensures
        r == spec_path_requires_privilege_escalation(path@),
{
    starts_with(path, "/etc/") || starts_with(path, "/var/") || starts_with(path, "/root/")
}

/// Returns true when the planned shell command is already invoked via `sudo` (avoid `sudo sudo …`).
pub fn command_already_elevated(command: &str) -> (r: bool)
    ensures
        r == (command@ == "sudo"@),
{
    crate::text::str_eq(command, "sudo")
}

} // verus!
