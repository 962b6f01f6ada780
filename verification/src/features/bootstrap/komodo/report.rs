//! Result of the komodo bootstrap.

use vstd::prelude::*;
use crate::common::operation::{OperationResult, any_failed, results_have_failures};

verus! {

/// Per-operation results of a komodo bootstrap run.
#[derive(Debug, Clone)]
pub struct BootstrapKomodoReport {
    pub operations: Vec<OperationResult>,
}

impl BootstrapKomodoReport {
    /// True when some operation failed.
    pub fn has_failures(&self) -> (r: bool)
        ensures
            r == any_failed(self.operations@),
    {
        results_have_failures(&self.operations)
    }
}

} // verus!
