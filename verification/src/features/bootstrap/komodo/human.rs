//! Human-readable Komodo bootstrap report.

use vstd::prelude::*;
use crate::common::operation::results_view;
use crate::output::{Style, format_operation_report, spec_operation_report};
use super::report::BootstrapKomodoReport;

verus! {

/// The report under the title `heimdall bootstrap komodo`.
pub fn format_report_human(report: &BootstrapKomodoReport, style: &Style) -> (r: String)
    ensures
        r@ == spec_operation_report("heimdall bootstrap komodo"@, results_view(report.operations@), *style),
{
    proof {
        reveal_strlit("heimdall bootstrap komodo");
        crate::text::lemma_ascii_utf8_len("heimdall bootstrap komodo"@);
    }
    format_operation_report("heimdall bootstrap komodo", &report.operations, style)
}

} // verus!
