//! Result of the flux bootstrap.

use vstd::prelude::*;
use crate::common::operation::{OperationResult, any_failed, results_have_failures};

verus! {

/// Per-operation results of a flux bootstrap run.
#[derive(Debug, Clone)]
pub struct BootstrapFluxReport {
    pub operations: Vec<OperationResult>,
}

impl BootstrapFluxReport {
    /// True when some operation failed.
    pub fn has_failures(&self) -> (r: bool)
        ensures
            r == any_failed(self.operations@),
    {
        results_have_failures(&self.operations)
    }
}

} // verus!
