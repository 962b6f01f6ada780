//! Result of the Docker bootstrap.

use vstd::prelude::*;
use crate::common::operation::{OperationResult, any_failed, results_have_failures};

verus! {

/// Per-operation results of a Docker bootstrap run.
#[derive(Debug, Clone)]
pub struct BootstrapDockerReport {
    pub operations: Vec<OperationResult>,
}

impl BootstrapDockerReport {
    /// True when some operation failed.
    pub fn has_failures(&self) -> (r: bool)
        ensures
            r == any_failed(self.operations@),
    {
        results_have_failures(&self.operations)
    }
}

} // verus!
