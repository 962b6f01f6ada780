//! Human-readable Netbird bootstrap report.

use vstd::prelude::*;
use crate::common::operation::results_view;
use crate::output::{Style, format_operation_report, spec_operation_report};
use super::report::BootstrapNetbirdReport;

verus! {

/// The report under the title `heimdall bootstrap netbird`.
pub fn format_report_human(report: &BootstrapNetbirdReport, style: &Style) -> (r: String)
    ensures
        r@ == spec_operation_report("heimdall bootstrap netbird"@, results_view(report.operations@), *style),
{
    proof {
        reveal_strlit("heimdall bootstrap netbird");
        crate::text::lemma_ascii_utf8_len("heimdall bootstrap netbird"@);
    }
    format_operation_report("heimdall bootstrap netbird", &report.operations, style)
}

} // verus!
