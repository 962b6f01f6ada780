//! The boundary to subprocess execution: a runner trait implemented outside the
//! library, plus the verified executor that walks a plan through it.

use vstd::prelude::*;
use crate::cli::OutputFormat;
use crate::common::elevation::{PrivilegeContext, command_already_elevated, path_requires_privilege_escalation, spec_path_requires_privilege_escalation};
use crate::common::operation::{
    OperationKind, OperationKindView, OperationResult, OperationStatus, OutputCheck, OutputCheckView, PlannedOperation,
    PlannedOperationView, any_failed, output_check_passes, output_passes,
};
use crate::text::{octal_string, radix_digits};

verus! {

/// How subprocess output is handled.
#[derive(Debug, Clone, Copy, PartialEq, Eq, Structural)]
pub enum IoMode {
    /// Capture stdout/stderr only.
    Buffered,
    /// Stream stdout/stderr to the terminal while capturing them.
    LiveTee,
}

/// Live output (streamed while captured) for a human report of a real run;
/// captured output otherwise.
pub fn io_mode_for(output: OutputFormat, dry_run: bool) -> (r: IoMode)
    ensures
        r == (if output == OutputFormat::Human && !dry_run { IoMode::LiveTee } else { IoMode::Buffered }),
{
    match output {
        OutputFormat::Human => if dry_run {
            IoMode::Buffered
        } else {
            IoMode::LiveTee
        },
        OutputFormat::Json => IoMode::Buffered,
    }
}

/// What a finished subprocess reported.
#[derive(Debug, Clone)]
pub struct CommandOutput {
    pub success: bool,
    pub stdout: String,
    pub stderr: String,
}

/// The subprocess could not be started or waited for.
#[derive(Debug, Clone)]
pub struct RunnerError {
    pub message: String,
}

/// One request to run a subprocess: program, arguments, environment, the text fed
/// to its stdin (if any), and how its output is handled.
pub struct RunnerCall {
    pub program: Seq<char>,
    pub args: Seq<Seq<char>>,
    pub env: Seq<(Seq<char>, Seq<char>)>,
    pub stdin: Option<Seq<char>>,
    pub mode: IoMode,
}

/// The request of a call without stdin.
pub open spec fn plain_call(
    program: Seq<char>,
    args: Seq<Seq<char>>,
    env: Seq<(Seq<char>, Seq<char>)>,
    mode: IoMode,
) -> RunnerCall {
    RunnerCall { program, args, env, stdin: None, mode }
}

/// Runs subprocesses. Implemented by the host program and by test doubles.
///
/// `may_run` is the permission a caller must hold to make a call: a library
/// function whose `requires` does not ask for it for some call never makes that
/// call. `outcome_possible` relates each call to the outcomes it can give.
/// Verified code knows nothing of either for a runner type it is generic over; an
/// implementation that does not give its own keeps the defaults, which permit every
/// call and allow every outcome.
pub trait CommandRunner {
    open spec fn may_run(&self, call: RunnerCall) -> bool {
        true
    }

    open spec fn outcome_possible(&self, call: RunnerCall, outcome: Result<CommandOutput, RunnerError>) -> bool {
        true
    }

    fn run_with_env_io(
        &self,
        program: &str,
        args: &Vec<String>,
        env: &Vec<(String, String)>,
        mode: IoMode,
    ) -> (r: Result<CommandOutput, RunnerError>)
        requires
            self.may_run(plain_call(program@, args.deep_view(), env.deep_view(), mode)),
        ensures
            self.outcome_possible(plain_call(program@, args.deep_view(), env.deep_view(), mode), r),
    ;

    fn run_with_stdin(
        &self,
        program: &str,
        args: &Vec<String>,
        env: &Vec<(String, String)>,
        stdin_data: &str,
        mode: IoMode,
    ) -> (r: Result<CommandOutput, RunnerError>)
        requires
            self.may_run(RunnerCall {
                program: program@,
                args: args.deep_view(),
                env: env.deep_view(),
                stdin: Some(stdin_data@),
                mode,
            }),
        ensures
            self.outcome_possible(
                RunnerCall {
                    program: program@,
                    args: args.deep_view(),
                    env: env.deep_view(),
                    stdin: Some(stdin_data@),
                    mode,
                },
                r,
            ),
    ;
}

/// Writes files directly (not through a subprocess). Implemented by the host
/// program and by test doubles. `may_write` is the permission a caller must hold
/// to write; `write_possible` relates each write to the answers it can give. As for
/// [`CommandRunner`], the defaults permit every write and allow every answer.
pub trait FileWriter {
    open spec fn may_write(&self, path: Seq<char>, content: Seq<char>, mode: u32) -> bool {
        true
    }

    open spec fn write_possible(&self, path: Seq<char>, content: Seq<char>, mode: u32, written: bool) -> bool {
        true
    }

    /// Creates the parent directories, writes `content` to `path` and sets the
    /// permission bits to `mode`; true when every step succeeded.
    fn write_file_with_mode(&self, path: &str, content: &str, mode: u32) -> (r: bool)
        requires
            self.may_write(path@, content@, mode),
        ensures
            self.write_possible(path@, content@, mode, r),
    ;
}

/// A subprocess that exited successfully.
pub open spec fn outcome_succeeded(outcome: Result<CommandOutput, RunnerError>) -> bool {
    outcome matches Ok(out) && out.success
}

/// True when the subprocess ran and exited successfully.
pub fn probe_succeeded(outcome: &Result<CommandOutput, RunnerError>) -> (r: bool)
    ensures
        r == outcome_succeeded(*outcome),
{
    match outcome {
        Ok(out) => out.success,
        Err(_) => false,
    }
}

/// The program and arguments used to run `command args` under the given privilege
/// policy: `sudo -E command args` when elevation is on and `command` is not already `sudo`.
pub open spec fn spec_elevated_invocation(
    privilege: PrivilegeContext,
    command: Seq<char>,
    args: Seq<Seq<char>>,
) -> (Seq<char>, Seq<Seq<char>>) {
    if privilege.elevate_shell && command != "sudo"@ {
        ("sudo"@, seq!["-E"@, command] + args)
    } else {
        (command, args)
    }
}

/// Applies the privilege policy to a command line.
pub fn elevated_invocation(privilege: PrivilegeContext, command: &String, args: &Vec<String>) -> (r: (
    String,
    Vec<String>,
))
    ensures
        (r.0@, r.1.deep_view()) == spec_elevated_invocation(privilege, command@, args.deep_view()),
{
    if privilege.elevate_shell && !command_already_elevated(command.as_str()) {
        let mut full: Vec<String> = Vec::new();
        full.push(String::from_str("-E"));
        full.push(command.clone());
        let mut i: usize = 0;
        while i < args.len()
            invariant
                i <= args@.len(),
                full.deep_view() =~= seq!["-E"@, command@] + args.deep_view().take(i as int),
            decreases args.len() - i,
        {
            let ghost before = full.deep_view();
            let item = args[i].clone();
            full.push(item);
            assert(full.deep_view() =~= before.push(args@[i as int]@));
            assert(args.deep_view().take(i + 1) =~= args.deep_view().take(i as int).push(args@[i as int]@));
            i = i + 1;
        }
        assert(args.deep_view().take(args@.len() as int) =~= args.deep_view());
        (String::from_str("sudo"), full)
    } else {
        proof {
            assert(command@ == "sudo"@ || !privilege.elevate_shell);
        }
        (command.clone(), args.clone())
    }
}

/// The command that writes `path` from stdin with the given mode (default `644`),
/// through `sudo` when the path is privileged.
pub open spec fn spec_write_file_invocation(path: Seq<char>, mode: Option<u32>) -> (Seq<char>, Seq<Seq<char>>) {
    let mode_text = radix_digits(
        match mode {
            Some(m) => m as nat,
            None => 0o644nat,
        },
        8,
    );
    let install_args = seq!["-D"@, "-m"@, mode_text, "/dev/stdin"@, path];
    if spec_path_requires_privilege_escalation(path) {
        ("sudo"@, seq!["install"@] + install_args)
    } else {
        ("install"@, install_args)
    }
}

/// Builds the command line of [`spec_write_file_invocation`].
pub fn write_file_invocation(path: &str, mode: Option<u32>) -> (r: (String, Vec<String>))
    ensures
        (r.0@, r.1.deep_view()) == spec_write_file_invocation(path@, mode),
{
    let m: u32 = match mode {
        Some(m) => m,
        None => 0o644u32,
    };
    let mut args: Vec<String> = Vec::new();
    let escalate = path_requires_privilege_escalation(path);
    if escalate {
        args.push(String::from_str("install"));
    }
    args.push(String::from_str("-D"));
    args.push(String::from_str("-m"));
    args.push(octal_string(m as u64));
    args.push(String::from_str("/dev/stdin"));
    args.push(String::from_str(path));
    if escalate {
        (String::from_str("sudo"), args)
    } else {
        (String::from_str("install"), args)
    }
}

/// The runner call for `command args` with the given environment and stdin, after
/// the privilege policy.
pub open spec fn command_call(
    privilege: PrivilegeContext,
    command: Seq<char>,
    args: Seq<Seq<char>>,
    env: Seq<(Seq<char>, Seq<char>)>,
    stdin: Option<Seq<char>>,
    mode: IoMode,
) -> RunnerCall {
    let inv = spec_elevated_invocation(privilege, command, args);
    RunnerCall { program: inv.0, args: inv.1, env, stdin, mode }
}

/// The runner call that writes `content` to `path` with the given permission bits.
pub open spec fn write_call(path: Seq<char>, content: Seq<char>, mode: Option<u32>, io_mode: IoMode) -> RunnerCall {
    let inv = spec_write_file_invocation(path, mode);
    RunnerCall { program: inv.0, args: inv.1, env: seq![], stdin: Some(content), mode: io_mode }
}

/// Writes `content` to `path` through the runner (escalating for privileged paths)
/// and reports `Succeeded` when the write subprocess ran and exited successfully,
/// `Failed` otherwise.
pub fn write_file_with_escalation<R: CommandRunner>(
    runner: &R,
    path: &str,
    content: &str,
    mode: Option<u32>,
    io_mode: IoMode,
) -> (r: OperationStatus)
    requires
        runner.may_run(write_call(path@, content@, mode, io_mode)),
    ensures
        exists|o: Result<CommandOutput, RunnerError>|
            #[trigger] runner.outcome_possible(write_call(path@, content@, mode, io_mode), o)
                && r == spec_status_for_outcome(false, o),
{
    let (program, args) = write_file_invocation(path, mode);
    let env: Vec<(String, String)> = Vec::new();
    assert(env.deep_view() =~= Seq::<(Seq<char>, Seq<char>)>::empty());
    let outcome = runner.run_with_stdin(program.as_str(), &args, &env, content, io_mode);
    status_for_outcome(false, &outcome)
}

/// The status an operation gets from a subprocess outcome: `Succeeded` when it ran and
/// exited successfully, otherwise `Skipped` for a warning-only operation and `Failed` else.
pub open spec fn spec_status_for_outcome(
    failure_is_warning: bool,
    outcome: Result<CommandOutput, RunnerError>,
) -> OperationStatus {
    if outcome_succeeded(outcome) {
        OperationStatus::Succeeded
    } else if failure_is_warning {
        OperationStatus::Skipped
    } else {
        OperationStatus::Failed
    }
}

/// Decides the status of an operation from its subprocess outcome.
pub fn status_for_outcome(failure_is_warning: bool, outcome: &Result<CommandOutput, RunnerError>) -> (r:
    OperationStatus)
    ensures
        r == spec_status_for_outcome(failure_is_warning, *outcome),
{
    if probe_succeeded(outcome) {
        OperationStatus::Succeeded
    } else if failure_is_warning {
        OperationStatus::Skipped
    } else {
        OperationStatus::Failed
    }
}

/// Status of a subprocess step: its exit status when it ran; when it could not
/// be started, `Skipped` for a warning-only step and `Failed` otherwise.
pub open spec fn spec_subprocess_status(outcome: Result<CommandOutput, RunnerError>, failure_is_warning: bool) -> OperationStatus {
    match outcome {
        Ok(out) => if out.success {
            OperationStatus::Succeeded
        } else {
            OperationStatus::Failed
        },
        Err(_) => if failure_is_warning {
            OperationStatus::Skipped
        } else {
            OperationStatus::Failed
        },
    }
}

/// Status of a subprocess step from the runner's outcome.
pub fn subprocess_status(outcome: &Result<CommandOutput, RunnerError>, failure_is_warning: bool) -> (r: OperationStatus)
    ensures
        r == spec_subprocess_status(*outcome, failure_is_warning),
{
    match outcome {
        Ok(out) => if out.success {
            OperationStatus::Succeeded
        } else {
            OperationStatus::Failed
        },
        Err(_) => if failure_is_warning {
            OperationStatus::Skipped
        } else {
            OperationStatus::Failed
        },
    }
}

/// The status of a shell step from its outcome: `Succeeded` when it ran, exited
/// successfully and its standard output passes `check`; otherwise `Skipped` for a
/// warning-only step and `Failed` else.
pub open spec fn spec_shell_status(
    failure_is_warning: bool,
    check: OutputCheckView,
    outcome: Result<CommandOutput, RunnerError>,
) -> OperationStatus {
    let passed = match outcome {
        Ok(out) => out.success && output_check_passes(check, out.stdout@),
        Err(_) => false,
    };
    if passed {
        OperationStatus::Succeeded
    } else if failure_is_warning {
        OperationStatus::Skipped
    } else {
        OperationStatus::Failed
    }
}

/// Decides the status of a shell step from its outcome and output check.
pub fn shell_status(failure_is_warning: bool, check: &OutputCheck, outcome: &Result<CommandOutput, RunnerError>) -> (r:
    OperationStatus)
    ensures
        r == spec_shell_status(failure_is_warning, check@, *outcome),
{
    let passed = match outcome {
        Ok(out) => out.success && output_passes(check, out.stdout.as_str()),
        Err(_) => false,
    };
    if passed {
        OperationStatus::Succeeded
    } else if failure_is_warning {
        OperationStatus::Skipped
    } else {
        OperationStatus::Failed
    }
}

/// The call that running `op` makes first, if any: its command line (shell steps
/// with their environment and stdin and the given output handling, interactive steps
/// streamed), or the `install` call that writes a file.
pub open spec fn op_call(op: PlannedOperationView, privilege: PrivilegeContext, io_mode: IoMode) -> Option<RunnerCall> {
    match op.kind {
        OperationKindView::Shell { command, args, env, stdin_input } => Some(
            command_call(privilege, command, args, env, stdin_input, io_mode),
        ),
        OperationKindView::WriteFile { path, content, mode } => Some(write_call(path, content, mode, io_mode)),
        OperationKindView::InheritIo { command, args } => Some(
            command_call(privilege, command, args, seq![], None, IoMode::LiveTee),
        ),
        OperationKindView::EnsurePackage { .. } => None,
    }
}

/// The follow-up call of a shell step with a verify step: its command line, without
/// environment or stdin, output captured.
pub open spec fn verify_call(op: PlannedOperationView, privilege: PrivilegeContext) -> Option<RunnerCall> {
    match op.verify {
        Some(step) => if op.kind is Shell {
            Some(command_call(privilege, step.command, step.args, seq![], None, IoMode::Buffered))
        } else {
            None
        },
        None => None,
    }
}

/// `runner` permits every call that running `op` can make.
pub open spec fn op_permitted<R: CommandRunner>(
    runner: &R,
    op: PlannedOperationView,
    privilege: PrivilegeContext,
    io_mode: IoMode,
) -> bool {
    &&& (op_call(op, privilege, io_mode) matches Some(c) ==> runner.may_run(c))
    &&& (verify_call(op, privilege) matches Some(c) ==> runner.may_run(c))
}

/// `status` is what running `op` reports after its first call gave `outcome`: for a
/// shell step the status its outcome and output check give, replaced, when that is
/// `Succeeded` and the step has a verify step, by the status of a possible outcome of
/// the verify call; for the other steps the status the outcome gives.
pub open spec fn status_after<R: CommandRunner>(
    runner: &R,
    op: PlannedOperationView,
    privilege: PrivilegeContext,
    outcome: Result<CommandOutput, RunnerError>,
    status: OperationStatus,
) -> bool {
    if op.kind is Shell {
        let first = spec_shell_status(op.failure_is_warning, op.output_check, outcome);
        match verify_call(op, privilege) {
            Some(vc) => if first == OperationStatus::Succeeded {
                exists|vo: Result<CommandOutput, RunnerError>|
                    #[trigger] runner.outcome_possible(vc, vo) && status == spec_status_for_outcome(op.failure_is_warning, vo)
            } else {
                status == first
            },
            None => status == first,
        }
    } else {
        status == spec_status_for_outcome(op.failure_is_warning, outcome)
    }
}

/// `status` is a status that running `op` through `runner` can report: a package
/// step is `Skipped` without any call; otherwise the status follows from an outcome
/// that the runner can give for the step's call.
pub open spec fn run_outcome_ok<R: CommandRunner>(
    runner: &R,
    op: PlannedOperationView,
    privilege: PrivilegeContext,
    io_mode: IoMode,
    status: OperationStatus,
) -> bool {
    match op_call(op, privilege, io_mode) {
        Some(c) => exists|o: Result<CommandOutput, RunnerError>|
            #[trigger] runner.outcome_possible(c, o) && status_after(runner, op, privilege, o, status),
        None => status == OperationStatus::Skipped,
    }
}

/// The detail text reported for a step that ran: the path of a written file, a note
/// for a package step, nothing otherwise.
pub open spec fn run_detail(op: PlannedOperationView) -> Seq<char> {
    match op.kind {
        OperationKindView::WriteFile { path, .. } => path,
        OperationKindView::EnsurePackage { .. } => "package installation is not handled by the plan executor"@,
        _ => seq![],
    }
}

/// Runs one operation (not in dry-run mode, and already confirmed if needed) and
/// returns its status and detail text.
fn run_operation<R: CommandRunner>(
    op: &PlannedOperation,
    runner: &R,
    privilege: PrivilegeContext,
    io_mode: IoMode,
) -> (r: (OperationStatus, String))
    requires
        op_permitted(runner, op@, privilege, io_mode),
    ensures
        run_outcome_ok(runner, op@, privilege, io_mode, r.0),
        r.1@ == run_detail(op@),
        r.0 != OperationStatus::Planned,
        r.0 == OperationStatus::Failed ==> !op.failure_is_warning,
{
    match &op.kind {
        OperationKind::Shell { command, args, env, stdin_input } => {
            let (program, full_args) = elevated_invocation(privilege, command, args);
            let ghost call = command_call(privilege, command@, args.deep_view(), env.deep_view(), stdin_input.deep_view(), io_mode);
            let outcome = match stdin_input {
                Some(data) => {
                    assert(call == RunnerCall {
                        program: program@,
                        args: full_args.deep_view(),
                        env: env.deep_view(),
                        stdin: Some(data@),
                        mode: io_mode,
                    });
                    runner.run_with_stdin(program.as_str(), &full_args, env, data.as_str(), io_mode)
                },
                None => {
                    assert(call == plain_call(program@, full_args.deep_view(), env.deep_view(), io_mode));
                    runner.run_with_env_io(program.as_str(), &full_args, env, io_mode)
                },
            };
            let first = shell_status(op.failure_is_warning, &op.output_check, &outcome);
            let mut status = first;
            if first == OperationStatus::Succeeded {
                match &op.verify {
                    Some(step) => {
                        let (vprogram, vargs) = elevated_invocation(privilege, &step.command, &step.args);
                        let no_env: Vec<(String, String)> = Vec::new();
                        assert(no_env.deep_view() =~= Seq::<(Seq<char>, Seq<char>)>::empty());
                        assert(verify_call(op@, privilege) == Some(
                            plain_call(vprogram@, vargs.deep_view(), no_env.deep_view(), IoMode::Buffered),
                        ));
                        let voutcome = runner.run_with_env_io(vprogram.as_str(), &vargs, &no_env, IoMode::Buffered);
                        status = status_for_outcome(op.failure_is_warning, &voutcome);
                        assert(status_after(runner, op@, privilege, outcome, status));
                    },
                    None => {},
                }
            }
            assert(status_after(runner, op@, privilege, outcome, status));
            (status, String::new())
        },
        OperationKind::WriteFile { path, content, mode } => {
            let written = write_file_with_escalation(runner, path.as_str(), content.as_str(), *mode, io_mode);
            let status = if written == OperationStatus::Succeeded {
                OperationStatus::Succeeded
            } else if op.failure_is_warning {
                OperationStatus::Skipped
            } else {
                OperationStatus::Failed
            };
            (status, path.clone())
        },
        OperationKind::InheritIo { command, args } => {
            let (program, full_args) = elevated_invocation(privilege, command, args);
            let no_env: Vec<(String, String)> = Vec::new();
            assert(no_env.deep_view() =~= Seq::<(Seq<char>, Seq<char>)>::empty());
            let outcome = runner.run_with_env_io(program.as_str(), &full_args, &no_env, IoMode::LiveTee);
            let status = status_for_outcome(op.failure_is_warning, &outcome);
            assert(status_after(runner, op@, privilege, outcome, status));
            (status, String::new())
        },
        OperationKind::EnsurePackage { package } => {
            (OperationStatus::Skipped, String::from_str("package installation is not handled by the plan executor"))
        },
    }
}

/// The id and description of `result` are those of `op`.
pub open spec fn result_matches(result: OperationResult, op: PlannedOperation) -> bool {
    result.id@ == op.id@ && result.description@ == op.description@
}

/// The operation at `i` is run (not just planned or skipped as unconfirmed).
pub open spec fn op_runs(ops: Seq<PlannedOperation>, i: int, dry_run: bool, confirmed: bool) -> bool {
    !dry_run && (confirmed || !ops[i].requires_confirmation)
}

/// `runner` permits every call that running the plan can make: none in a dry run,
/// none for an operation that needs confirmation when it was not given.
pub open spec fn plan_permitted<R: CommandRunner>(
    runner: &R,
    ops: Seq<PlannedOperation>,
    privilege: PrivilegeContext,
    dry_run: bool,
    confirmed: bool,
    io_mode: IoMode,
) -> bool {
    forall|i: int|
        0 <= i < ops.len() && op_runs(ops, i, dry_run, confirmed) ==> op_permitted(runner, (#[trigger] ops[i])@, privilege, io_mode)
}

/// Each operation that ran reports a status that an outcome of its calls gives, and
/// its detail text.
pub open spec fn execution_follows_runner<R: CommandRunner>(
    runner: &R,
    ops: Seq<PlannedOperation>,
    results: Seq<OperationResult>,
    privilege: PrivilegeContext,
    dry_run: bool,
    confirmed: bool,
    io_mode: IoMode,
) -> bool {
    forall|i: int|
        0 <= i < results.len() && op_runs(ops, i, dry_run, confirmed) ==> {
            &&& run_outcome_ok(runner, ops[i]@, privilege, io_mode, (#[trigger] results[i]).status)
            &&& results[i].detail@ == run_detail(ops[i]@)
        }
}

/// What holds of every report produced by [`execute_operations`], whatever the
/// subprocesses returned: results follow the plan in order, a dry run plans every
/// operation, unconfirmed risky operations are skipped, warning-only operations never
/// fail, and execution stops right after the first failure.
pub open spec fn execution_report_ok(
    ops: Seq<PlannedOperation>,
    results: Seq<OperationResult>,
    dry_run: bool,
    confirmed: bool,
) -> bool {
    &&& results.len() <= ops.len()
    &&& forall|i: int| 0 <= i < results.len() ==> result_matches(#[trigger] results[i], ops[i])
    &&& dry_run ==> results.len() == ops.len()
    &&& dry_run ==> forall|i: int| 0 <= i < results.len() ==> (#[trigger] results[i]).status == OperationStatus::Planned
    &&& !dry_run ==> forall|i: int| 0 <= i < results.len() ==> (#[trigger] results[i]).status != OperationStatus::Planned
    &&& !dry_run && !confirmed ==> forall|i: int|
        0 <= i < results.len() && ops[i].requires_confirmation ==> (#[trigger] results[i]).status == OperationStatus::Skipped
    &&& forall|i: int|
        0 <= i < results.len() && (#[trigger] results[i]).status == OperationStatus::Failed ==> !ops[i].failure_is_warning
    &&& forall|i: int| 0 <= i < results.len() - 1 ==> (#[trigger] results[i]).status != OperationStatus::Failed
    &&& results.len() < ops.len() ==> results.len() > 0 && results[results.len() - 1].status == OperationStatus::Failed
}

/// Walks a plan in order. In a dry run every operation is reported `Planned` and the
/// runner is not called. Otherwise operations that require confirmation are `Skipped`
/// without a call unless `confirmed`, the rest are run through `runner` (shell commands
/// wrapped in `sudo -E` when `privilege` asks for it), each reporting the status an
/// outcome of its calls gives, and execution stops after the first failure.
pub fn execute_operations<R: CommandRunner>(
    operations: &Vec<PlannedOperation>,
    runner: &R,
    privilege: PrivilegeContext,
    dry_run: bool,
    confirmed: bool,
    io_mode: IoMode,
) -> (results: Vec<OperationResult>)
    requires
        plan_permitted(runner, operations@, privilege, dry_run, confirmed, io_mode),
    ensures
        execution_report_ok(operations@, results@, dry_run, confirmed),
        execution_follows_runner(runner, operations@, results@, privilege, dry_run, confirmed, io_mode),
{
    let mut results: Vec<OperationResult> = Vec::new();
    let mut i: usize = 0;
    while i < operations.len()
        invariant
            i <= operations@.len(),
            results@.len() == i,
            plan_permitted(runner, operations@, privilege, dry_run, confirmed, io_mode),
            forall|j: int| 0 <= j < i ==> result_matches(#[trigger] results@[j], operations@[j]),
            dry_run ==> forall|j: int| 0 <= j < i ==> (#[trigger] results@[j]).status == OperationStatus::Planned,
            !dry_run ==> forall|j: int| 0 <= j < i ==> (#[trigger] results@[j]).status != OperationStatus::Planned,
            !dry_run && !confirmed ==> forall|j: int|
                0 <= j < i && operations@[j].requires_confirmation ==> (#[trigger] results@[j]).status == OperationStatus::Skipped,
            forall|j: int| 0 <= j < i ==> (#[trigger] results@[j]).status != OperationStatus::Failed,
            execution_follows_runner(runner, operations@, results@, privilege, dry_run, confirmed, io_mode),
        decreases operations.len() - i,
    {
        let op = &operations[i];
        let (status, detail) = if dry_run {
            (OperationStatus::Planned, String::new())
        } else if op.requires_confirmation && !confirmed {
            (OperationStatus::Skipped, String::new())
        } else {
            assert(op_runs(operations@, i as int, dry_run, confirmed));
            run_operation(op, runner, privilege, io_mode)
        };
        let result = OperationResult {
            id: op.id,
            description: op.description.clone(),
            status,
            detail,
        };
        let ghost before = results@;
        results.push(result);
        assert(forall|j: int| 0 <= j < i ==> results@[j] == before[j]);
        if status == OperationStatus::Failed {
            return results;
        }
        i = i + 1;
    }
    results
}

/// A dry run makes no runner call: it needs no permission of any runner, for any
/// plan. Without confirmation, the steps that need it make no call either: the
/// runner only has to permit the calls of the other steps.
pub proof fn law_runner_calls_only_for_run_steps<R: CommandRunner>(
    runner: &R,
    ops: Seq<PlannedOperation>,
    privilege: PrivilegeContext,
    io_mode: IoMode,
)
    ensures
        forall|confirmed: bool| plan_permitted(runner, ops, privilege, true, confirmed, io_mode),
        (forall|i: int|
            0 <= i < ops.len() && !(#[trigger] ops[i]).requires_confirmation ==> op_permitted(runner, ops[i]@, privilege, io_mode))
            ==> plan_permitted(runner, ops, privilege, false, false, io_mode),
{
}

/// Reading a report back: a run that stopped before the end of the plan reports
/// a failure, a run without failures covered the whole plan, and a dry run never fails.
pub proof fn law_execution_failures_are_reported(
    ops: Seq<PlannedOperation>,
    results: Seq<OperationResult>,
    dry_run: bool,
    confirmed: bool,
)
    requires
        execution_report_ok(ops, results, dry_run, confirmed),
    ensures
        results.len() < ops.len() ==> any_failed(results),
        !any_failed(results) ==> results.len() == ops.len(),
        dry_run ==> !any_failed(results),
{
    if results.len() < ops.len() {
        assert(results[results.len() - 1].status == OperationStatus::Failed);
    }
    if dry_run {
        assert forall|i: int| 0 <= i < results.len() implies results[i].status != OperationStatus::Failed by {
            assert(results[i].status == OperationStatus::Planned);
        }
    }
}

} // verus!
