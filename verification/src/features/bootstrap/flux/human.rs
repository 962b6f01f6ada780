//! Human-readable Flux bootstrap report.

use vstd::prelude::*;
use crate::common::operation::results_view;
use crate::output::{Style, format_operation_report, spec_operation_report};
use super::report::BootstrapFluxReport;

verus! {

/// The report under the title `heimdall bootstrap flux`.
pub fn format_report_human(report: &BootstrapFluxReport, style: &Style) -> (r: String)
    ensures
        r@ == spec_operation_report("heimdall bootstrap flux"@, results_view(report.operations@), *style),
{
    proof {
        reveal_strlit("heimdall bootstrap flux");
        crate::text::lemma_ascii_utf8_len("heimdall bootstrap flux"@);
    }
    format_operation_report("heimdall bootstrap flux", &report.operations, style)
}

} // verus!
