//! Result of the Infisical bootstrap.

use vstd::prelude::*;
use crate::common::operation::{OperationResult, any_failed, results_have_failures};

verus! {

/// Per-operation results of an Infisical bootstrap run.
#[derive(Debug, Clone)]
pub struct BootstrapInfisicalReport {
    pub environment: Option<String>,
    pub operations: Vec<OperationResult>,
}

impl BootstrapInfisicalReport {
    /// True when some operation failed.
    pub fn has_failures(&self) -> (r: bool)
        ensures
            r == any_failed(self.operations@),
    {
        results_have_failures(&self.operations)
    }
}

} // verus!
