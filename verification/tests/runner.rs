use std::cell::RefCell;

use heimdall::common::elevation::PrivilegeContext;
use heimdall::common::operation::{
    output_passes, results_have_failures, shell_operation, shell_operation_full, with_output_check,
    write_file_operation, OperationResult, OperationStatus, OutputCheck, PlannedOperation,
};
use heimdall::text::{contains_non_ws, contains_str};
use heimdall::runner::{
    execute_operations, io_mode_for, probe_succeeded, shell_status, status_for_outcome, subprocess_status,
    CommandOutput, CommandRunner, IoMode, RunnerError,
};
use heimdall::cli::OutputFormat;

struct Scripted {
    fail_program: Option<&'static str>,
    calls: RefCell<Vec<String>>,
}

impl CommandRunner for Scripted {
    fn run_with_env_io(
        &self,
        program: &str,
        args: &Vec<String>,
        _env: &Vec<(String, String)>,
        _mode: IoMode,
    ) -> Result<CommandOutput, RunnerError> {
        self.calls.borrow_mut().push(format!("{} {}", program, args.join(" ")));
        let failing = args.iter().any(|a| Some(a.as_str()) == self.fail_program) || Some(program) == self.fail_program;
        Ok(CommandOutput { success: !failing, stdout: String::new(), stderr: String::new() })
    }

    fn run_with_stdin(
        &self,
        program: &str,
        args: &Vec<String>,
        _env: &Vec<(String, String)>,
        stdin_data: &str,
        _mode: IoMode,
    ) -> Result<CommandOutput, RunnerError> {
        self.calls.borrow_mut().push(format!("{} {} <{}", program, args.join(" "), stdin_data));
        Ok(CommandOutput { success: true, stdout: String::new(), stderr: String::new() })
    }
}

fn plan() -> Vec<PlannedOperation> {
    vec![
        shell_operation("one", "first", "echo", vec!["1".to_string()], vec![], false),
        shell_operation_full("risky", "needs consent", "sshd", vec!["-t".to_string()], None, true),
        shell_operation("warn", "may fail", "probe", vec![], vec![], true),
        write_file_operation("file", "write", "/tmp/x", "hello".to_string(), Some(0o600)),
        shell_operation("last", "final", "echo", vec!["2".to_string()], vec![], false),
    ]
}

fn statuses(rs: &[OperationResult]) -> Vec<OperationStatus> {
    rs.iter().map(|r| r.status).collect()
}

#[test]
fn dry_run_plans_every_operation_without_running() {
    let runner = Scripted { fail_program: None, calls: RefCell::new(vec![]) };
    let rs = execute_operations(&plan(), &runner, PrivilegeContext::elevated_ops(), true, false, IoMode::Buffered);
    assert_eq!(rs.len(), 5);
    assert!(rs.iter().all(|r| r.status == OperationStatus::Planned));
    assert!(runner.calls.borrow().is_empty());
    assert!(!results_have_failures(&rs));
}

#[test]
fn unconfirmed_risky_steps_are_skipped_and_warnings_never_fail() {
    let runner = Scripted { fail_program: Some("probe"), calls: RefCell::new(vec![]) };
    let rs = execute_operations(&plan(), &runner, PrivilegeContext::user_session(), false, false, IoMode::Buffered);
    assert_eq!(
        statuses(&rs),
        vec![
            OperationStatus::Succeeded,
            OperationStatus::Skipped,
            OperationStatus::Skipped,
            OperationStatus::Succeeded,
            OperationStatus::Succeeded,
        ]
    );
    assert_eq!(rs[3].detail, "/tmp/x");
    let calls = runner.calls.borrow();
    assert_eq!(calls[0], "echo 1");
    assert_eq!(calls[2], "install -D -m 600 /dev/stdin /tmp/x <hello");
}

#[test]
fn execution_stops_after_first_failure() {
    let runner = Scripted { fail_program: Some("1"), calls: RefCell::new(vec![]) };
    let rs = execute_operations(&plan(), &runner, PrivilegeContext::elevated_ops(), false, true, IoMode::Buffered);
    assert_eq!(statuses(&rs), vec![OperationStatus::Failed]);
    assert_eq!(runner.calls.borrow().len(), 1);
    assert_eq!(runner.calls.borrow()[0], "sudo -E echo 1");
    assert!(results_have_failures(&rs));
}

#[test]
fn outcome_helpers() {
    let ok = Ok(CommandOutput { success: true, stdout: String::new(), stderr: String::new() });
    let bad = Ok(CommandOutput { success: false, stdout: String::new(), stderr: String::new() });
    let err: Result<CommandOutput, RunnerError> = Err(RunnerError { message: "spawn".to_string() });
    assert!(probe_succeeded(&ok));
    assert!(!probe_succeeded(&bad));
    assert!(!probe_succeeded(&err));
    assert_eq!(status_for_outcome(true, &bad), OperationStatus::Skipped);
    assert_eq!(status_for_outcome(false, &err), OperationStatus::Failed);
    assert_eq!(subprocess_status(&bad, true), OperationStatus::Failed);
    assert_eq!(subprocess_status(&err, true), OperationStatus::Skipped);
}

#[test]
fn live_output_only_for_human_real_runs() {
    assert_eq!(io_mode_for(OutputFormat::Human, false), IoMode::LiveTee);
    assert_eq!(io_mode_for(OutputFormat::Human, true), IoMode::Buffered);
    assert_eq!(io_mode_for(OutputFormat::Json, false), IoMode::Buffered);
}

#[test]
fn text_search_finds_runs_of_characters() {
    assert!(contains_str("Management: Connected\n", "Connected"));
    assert!(contains_str("abc", ""));
    assert!(!contains_str("Signal: Disconnected", "Signal: Connected"));
    assert!(!contains_str("ab", "abc"));
    assert!(contains_non_ws(" \n node/a"));
    assert!(!contains_non_ws(" \t\n"));
    assert!(!contains_non_ws(""));
}

#[test]
fn output_checks_decide_shell_status() {
    let ok = |out: &str| -> Result<CommandOutput, RunnerError> {
        Ok(CommandOutput { success: true, stdout: out.to_string(), stderr: String::new() })
    };
    let both = OutputCheck::ContainsAll(vec!["A: up".to_string(), "B: up".to_string()]);
    assert!(output_passes(&both, "A: up\nB: up\n"));
    assert!(!output_passes(&both, "A: up\n"));
    assert!(output_passes(&OutputCheck::Any, ""));
    assert_eq!(shell_status(false, &OutputCheck::NonBlank, &ok("")), OperationStatus::Failed);
    assert_eq!(shell_status(true, &OutputCheck::NonBlank, &ok("")), OperationStatus::Skipped);
    assert_eq!(shell_status(false, &OutputCheck::NonBlank, &ok("node/x")), OperationStatus::Succeeded);
    let failed = Ok(CommandOutput { success: false, stdout: "node/x".to_string(), stderr: String::new() });
    assert_eq!(shell_status(false, &OutputCheck::NonBlank, &failed), OperationStatus::Failed);
}

#[test]
fn executor_applies_output_check_of_a_step() {
    let runner = Scripted { fail_program: None, calls: RefCell::new(vec![]) };
    let op = with_output_check(
        shell_operation("check", "lists something", "lister", vec![], vec![], false),
        OutputCheck::NonBlank,
    );
    let rs = execute_operations(&vec![op], &runner, PrivilegeContext::user_session(), false, false, IoMode::Buffered);
    assert_eq!(statuses(&rs), vec![OperationStatus::Failed]);
    assert_eq!(runner.calls.borrow().as_slice(), &["lister ".to_string()]);
}
