//! Human-readable User bootstrap report.

use vstd::prelude::*;
use crate::common::operation::results_view;
use crate::output::{Style, format_operation_report, spec_operation_report};
use super::report::BootstrapUserReport;

verus! {

/// The report under the title `heimdall bootstrap user`.
pub fn format_report_human(report: &BootstrapUserReport, style: &Style) -> (r: String)
    ensures
        r@ == spec_operation_report("heimdall bootstrap user"@, results_view(report.operations@), *style),
{
    proof {
        reveal_strlit("heimdall bootstrap user");
        crate::text::lemma_ascii_utf8_len("heimdall bootstrap user"@);
    }
    format_operation_report("heimdall bootstrap user", &report.operations, style)
}

} // verus!
