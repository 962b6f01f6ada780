use heimdall::common::operation::{OperationResult, OperationStatus};
use heimdall::features::bootstrap::k3s::human::format_report_human;
use heimdall::features::bootstrap::k3s::report::BootstrapK3sReport;
use heimdall::output::{format_operation_report, ColorArg, Style};

fn result(id: &'static str, description: &str, status: OperationStatus, detail: &str) -> OperationResult {
    OperationResult { id, description: description.to_string(), status, detail: detail.to_string() }
}

#[test]
fn plain_report_layout() {
    let ops = vec![
        result("a", "Install", OperationStatus::Succeeded, ""),
        result("b", "Write file", OperationStatus::Failed, "/etc/x"),
    ];
    let text = format_operation_report("heimdall bootstrap k3s", &ops, &Style::plain());
    let rule = "─".repeat(48 - "heimdall bootstrap k3s".len());
    assert_eq!(text, format!("\nheimdall bootstrap k3s {rule}\n\n[OK]   Install\n[FAIL] Write file\n  /etc/x\n"));
}

#[test]
fn colored_report_wraps_in_ansi_codes() {
    let ops = vec![result("a", "Plan it", OperationStatus::Planned, ""), result("s", "Skip it", OperationStatus::Skipped, "")];
    let style = Style::new(true);
    let report = BootstrapK3sReport { operations: ops };
    let text = format_report_human(&report, &style);
    assert!(text.starts_with("\n\x1b[1mheimdall bootstrap k3s\x1b[0m \x1b[2m"));
    assert!(text.contains("\n\x1b[2m[PLAN]\x1b[0m \x1b[1mPlan it\x1b[0m"));
    assert!(text.contains("\n\x1b[2m[SKIP]\x1b[0m   \x1b[1mSkip it\x1b[0m"));
}

#[test]
fn color_choice() {
    assert!(Style::for_human(ColorArg::Always, false, false).enabled);
    assert!(!Style::for_human(ColorArg::Always, true, true).enabled);
    assert!(!Style::for_human(ColorArg::Never, true, false).enabled);
    assert!(Style::for_human(ColorArg::Auto, true, false).enabled);
    assert!(!Style::for_human(ColorArg::Auto, false, false).enabled);
    assert_eq!(Style::plain().bold("x"), "x");
    assert_eq!(Style::new(true).red("x"), "\x1b[31mx\x1b[0m");
}

#[test]
fn uncolored_report_has_no_escape() {
    let ops = vec![result("a", "Install", OperationStatus::Skipped, "detail")];
    let text = format_operation_report("t", &ops, &Style::plain());
    assert!(!text.contains('\x1b'));
}
