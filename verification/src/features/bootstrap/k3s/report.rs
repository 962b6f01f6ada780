//! Result of the k3s bootstrap.

use vstd::prelude::*;
use crate::common::operation::{OperationResult, any_failed, results_have_failures};

verus! {

/// Per-operation results of a k3s bootstrap run.
#[derive(Debug, Clone)]
pub struct BootstrapK3sReport {
    pub operations: Vec<OperationResult>,
}

impl BootstrapK3sReport {
    /// True when some operation failed.
    pub fn has_failures(&self) -> (r: bool)
        ensures
            r == any_failed(self.operations@),
    {
        results_have_failures(&self.operations)
    }
}

} // verus!
