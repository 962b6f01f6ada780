//! Human-readable Docker bootstrap report.

use vstd::prelude::*;
use crate::common::operation::results_view;
use crate::output::{Style, format_operation_report, spec_operation_report};
use super::report::BootstrapDockerReport;

verus! {

/// The report under the title `heimdall bootstrap docker`.
pub fn format_report_human(report: &BootstrapDockerReport, style: &Style) -> (r: String)
    ensures
        r@ == spec_operation_report("heimdall bootstrap docker"@, results_view(report.operations@), *style),
{
    proof {
        reveal_strlit("heimdall bootstrap docker");
        crate::text::lemma_ascii_utf8_len("heimdall bootstrap docker"@);
    }
    format_operation_report("heimdall bootstrap docker", &report.operations, style)
}

} // verus!
