//! Human-readable K3s bootstrap report.

use vstd::prelude::*;
use crate::common::operation::results_view;
use crate::output::{Style, format_operation_report, spec_operation_report};
use super::report::BootstrapK3sReport;

verus! {

/// The report under the title `heimdall bootstrap k3s`.
pub fn format_report_human(report: &BootstrapK3sReport, style: &Style) -> (r: String)
    ensures
        r@ == spec_operation_report("heimdall bootstrap k3s"@, results_view(report.operations@), *style),
{
    proof {
        reveal_strlit("heimdall bootstrap k3s");
        crate::text::lemma_ascii_utf8_len("heimdall bootstrap k3s"@);
    }
    format_operation_report("heimdall bootstrap k3s", &report.operations, style)
}

} // verus!
