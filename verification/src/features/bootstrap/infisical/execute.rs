//! Runs the Infisical plan: subprocesses through the runner, files through the
//! file writer; a dry run only plans every step.

use vstd::prelude::*;
use crate::common::operation::{OperationResult, OperationStatus, any_failed};
use crate::runner::{
    CommandOutput, CommandRunner, FileWriter, IoMode, RunnerCall, RunnerError, plain_call, spec_subprocess_status,
    subprocess_status,
};
use super::plan::InfisicalPlannedOperation;
use super::report::BootstrapInfisicalReport;

verus! {

/// The result recorded for a step: its id and description, and for a file the path.
pub open spec fn infisical_result_matches(r: OperationResult, op: InfisicalPlannedOperation) -> bool {
    match op {
        InfisicalPlannedOperation::Subprocess { id, description, .. } => r.id@ == id@ && r.description@
            == description@ && r.detail@ == Seq::<char>::empty(),
        InfisicalPlannedOperation::WriteFile { id, description, path, .. } => r.id@ == id@ && r.description@
            == description@ && r.detail@ == path@,
    }
}

/// The runner call of a subprocess step: its command as planned, with its
/// environment, no stdin, and the given output handling.
pub open spec fn infisical_call(command: Seq<char>, args: Seq<Seq<char>>, env: Seq<(Seq<char>, Seq<char>)>, io_mode: IoMode) -> RunnerCall {
    plain_call(command, args, env, io_mode)
}

/// The runner and the file writer permit what running `op` does: its subprocess
/// call, or its file write.
pub open spec fn infisical_step_permitted<R: CommandRunner, W: FileWriter>(
    runner: &R,
    files: &W,
    op: InfisicalPlannedOperation,
    io_mode: IoMode,
) -> bool {
    match op {
        InfisicalPlannedOperation::Subprocess { command, args, env, .. } => runner.may_run(
            infisical_call(command@, args.deep_view(), env.deep_view(), io_mode),
        ),
        InfisicalPlannedOperation::WriteFile { path, content, mode, .. } => files.may_write(path@, content@, mode),
    }
}

/// `status` follows from a possible answer to what running `op` does: the status
/// of a possible outcome of its subprocess call (`Succeeded` on a successful exit,
/// `Failed` on another exit, `Skipped` or `Failed` by `failure_is_warning` when the
/// runner could not run it), or `Succeeded` / `Failed` by a possible answer of its
/// file write.
pub open spec fn infisical_step_ok<R: CommandRunner, W: FileWriter>(
    runner: &R,
    files: &W,
    op: InfisicalPlannedOperation,
    io_mode: IoMode,
    status: OperationStatus,
) -> bool {
    match op {
        InfisicalPlannedOperation::Subprocess { command, args, env, failure_is_warning, .. } => exists|
            o: Result<CommandOutput, RunnerError>,
        |
            #[trigger] runner.outcome_possible(infisical_call(command@, args.deep_view(), env.deep_view(), io_mode), o)
                && status == spec_subprocess_status(o, failure_is_warning),
        InfisicalPlannedOperation::WriteFile { path, content, mode, .. } => exists|w: bool|
            #[trigger] files.write_possible(path@, content@, mode, w) && status == (if w {
                OperationStatus::Succeeded
            } else {
                OperationStatus::Failed
            }),
    }
}

/// Outside a dry run, the runner and the file writer permit every step.
pub open spec fn infisical_plan_permitted<R: CommandRunner, W: FileWriter>(
    runner: &R,
    files: &W,
    ops: Seq<InfisicalPlannedOperation>,
    dry_run: bool,
    io_mode: IoMode,
) -> bool {
    !dry_run ==> forall|i: int| 0 <= i < ops.len() ==> infisical_step_permitted(runner, files, #[trigger] ops[i], io_mode)
}

/// Outside a dry run, each reported step ended with a status that an answer to it
/// gives.
pub open spec fn infisical_follows<R: CommandRunner, W: FileWriter>(
    runner: &R,
    files: &W,
    ops: Seq<InfisicalPlannedOperation>,
    results: Seq<OperationResult>,
    dry_run: bool,
    io_mode: IoMode,
) -> bool {
    !dry_run ==> forall|i: int|
        0 <= i < results.len() ==> infisical_step_ok(runner, files, ops[i], io_mode, (#[trigger] results[i]).status)
}

/// What holds of every Infisical report, whatever the runner and the file writer
/// did: one result per step in plan order; a dry run plans every step; otherwise no
/// step is left planned and the run stops right after the first failure.
pub open spec fn infisical_report_ok(
    ops: Seq<InfisicalPlannedOperation>,
    results: Seq<OperationResult>,
    dry_run: bool,
) -> bool {
    &&& results.len() <= ops.len()
    &&& forall|i: int| 0 <= i < results.len() ==> infisical_result_matches(#[trigger] results[i], ops[i])
    &&& dry_run ==> results.len() == ops.len()
    &&& dry_run ==> forall|i: int| 0 <= i < results.len() ==> (#[trigger] results[i]).status == OperationStatus::Planned
    &&& !dry_run ==> forall|i: int| 0 <= i < results.len() ==> (#[trigger] results[i]).status != OperationStatus::Planned
    &&& forall|i: int| 0 <= i < results.len() - 1 ==> (#[trigger] results[i]).status != OperationStatus::Failed
    &&& results.len() < ops.len() ==> results.len() > 0 && results[results.len() - 1].status == OperationStatus::Failed
}

/// Runs the plan in order. In a dry run every step is reported `Planned` and neither
/// the runner nor the file writer is used; otherwise subprocesses run through the
/// runner with the given output handling and files are written through the file
/// writer, and the run stops after the first failure. See [`infisical_report_ok`]
/// and [`infisical_follows`].
pub fn execute_plan<R: CommandRunner, W: FileWriter>(
    runner: &R,
    files: &W,
    operations: Vec<InfisicalPlannedOperation>,
    dry_run: bool,
    io_mode: IoMode,
) -> (report: BootstrapInfisicalReport)
    requires
        infisical_plan_permitted(runner, files, operations@, dry_run, io_mode),
    ensures
        infisical_report_ok(operations@, report.operations@, dry_run),
        infisical_follows(runner, files, operations@, report.operations@, dry_run, io_mode),
        report.environment is None,
{
    let mut results: Vec<OperationResult> = Vec::new();
    let mut i: usize = 0;
    while i < operations.len()
        invariant
            i <= operations@.len(),
            results@.len() == i,
            infisical_plan_permitted(runner, files, operations@, dry_run, io_mode),
            forall|j: int| 0 <= j < i ==> infisical_result_matches(#[trigger] results@[j], operations@[j]),
            dry_run ==> forall|j: int| 0 <= j < i ==> (#[trigger] results@[j]).status == OperationStatus::Planned,
            !dry_run ==> forall|j: int| 0 <= j < i ==> (#[trigger] results@[j]).status != OperationStatus::Planned,
            infisical_follows(runner, files, operations@, results@, dry_run, io_mode),
            forall|j: int| 0 <= j < i ==> (#[trigger] results@[j]).status != OperationStatus::Failed,
        decreases operations.len() - i,
    {
        let ghost op = operations@[i as int];
        let result = match &operations[i] {
            InfisicalPlannedOperation::Subprocess { id, description, command, args, env, failure_is_warning } => {
                let status = if dry_run {
                    OperationStatus::Planned
                } else {
                    assert(infisical_step_permitted(runner, files, op, io_mode));
                    let outcome = runner.run_with_env_io(command.as_str(), args, env, io_mode);
                    subprocess_status(&outcome, *failure_is_warning)
                };
                OperationResult {
                    id: *id,
                    description: String::from_str(*description),
                    status,
                    detail: String::new(),
                }
            },
            InfisicalPlannedOperation::WriteFile { id, description, path, content, mode } => {
                let status = if dry_run {
                    OperationStatus::Planned
                } else {
                    assert(infisical_step_permitted(runner, files, op, io_mode));
                    if files.write_file_with_mode(path.as_str(), content.as_str(), *mode) {
                        OperationStatus::Succeeded
                    } else {
                        OperationStatus::Failed
                    }
                };
                OperationResult { id: *id, description: String::from_str(*description), status, detail: path.clone() }
            },
        };
        assert(!dry_run ==> infisical_step_ok(runner, files, op, io_mode, result.status));
        let failed = result.status == OperationStatus::Failed;
        let ghost before = results@;
        results.push(result);
        assert(forall|j: int| 0 <= j < i ==> results@[j] == before[j]);
        if failed {
            return BootstrapInfisicalReport { environment: None, operations: results };
        }
        i = i + 1;
    }
    BootstrapInfisicalReport { environment: None, operations: results }
}

/// A dry run uses neither the runner nor the file writer: it needs no permission of
/// either, for any plan.
pub proof fn law_infisical_dry_run_calls_nothing<R: CommandRunner, W: FileWriter>(
    runner: &R,
    files: &W,
    ops: Seq<InfisicalPlannedOperation>,
    io_mode: IoMode,
)
    ensures
        infisical_plan_permitted(runner, files, ops, true, io_mode),
{
}

/// Reading a report back: a run that stopped before the end of the plan reports
/// a failure, a run without failures covered the whole plan, and a dry run never
/// fails.
pub proof fn law_infisical_failures_are_reported(
    ops: Seq<InfisicalPlannedOperation>,
    results: Seq<OperationResult>,
    dry_run: bool,
)
    requires
        infisical_report_ok(ops, results, dry_run),
    ensures
        results.len() < ops.len() ==> any_failed(results),
        !any_failed(results) ==> results.len() == ops.len(),
        dry_run ==> !any_failed(results),
{
    if results.len() < ops.len() {
        assert(results[results.len() - 1].status == OperationStatus::Failed);
    }
    if dry_run {
        assert forall|i: int| 0 <= i < results.len() implies results[i].status != OperationStatus::Failed by {
            assert(results[i].status == OperationStatus::Planned);
        }
    }
}

} // verus!
