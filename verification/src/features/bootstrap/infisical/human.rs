//! Human-readable Infisical bootstrap report.

use vstd::prelude::*;
use crate::common::operation::results_view;
use crate::output::{Style, format_operation_report, spec_operation_report};
use super::report::BootstrapInfisicalReport;

verus! {

/// The report under the title `heimdall bootstrap infisical`.
pub fn format_report_human(report: &BootstrapInfisicalReport, style: &Style) -> (r: String)
    ensures
        r@ == spec_operation_report("heimdall bootstrap infisical"@, results_view(report.operations@), *style),
{
    proof {
        reveal_strlit("heimdall bootstrap infisical");
        crate::text::lemma_ascii_utf8_len("heimdall bootstrap infisical"@);
    }
    format_operation_report("heimdall bootstrap infisical", &report.operations, style)
}

} // verus!
