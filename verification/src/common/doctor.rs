//! What read-only diagnostic probes run with.

use vstd::prelude::*;
use crate::common::elevation::PrivilegeContext;
use crate::runner::{CommandRunner, IoMode};

verus! {

/// Inputs of diagnostic probes: the runner, the output mode, and the privilege
/// policy (diagnostics use the user's session).
pub struct DoctorContext<'a, R: CommandRunner> {
    pub runner: &'a R,
    pub io_mode: IoMode,
    pub privilege: PrivilegeContext,
}

impl<'a, R: CommandRunner> DoctorContext<'a, R> {
    /// A context for probes run in the user's session.
    pub fn new(runner: &'a R, io_mode: IoMode) -> (r: Self)
        ensures
            r.runner == runner,
            r.io_mode == io_mode,
            !r.privilege.elevate_shell,
    {
        DoctorContext { runner, io_mode, privilege: PrivilegeContext::user_session() }
    }
}

} // verus!
