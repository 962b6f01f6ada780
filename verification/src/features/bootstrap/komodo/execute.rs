//! Runs the Komodo plan through the runner: subprocesses under the privilege
//! policy, files through `install` (under `sudo` for system paths).

use vstd::prelude::*;
use crate::common::elevation::PrivilegeContext;
use crate::common::operation::{OperationResult, OperationStatus, any_failed};
use crate::runner::{
    CommandOutput, CommandRunner, IoMode, RunnerCall, RunnerError, command_call, elevated_invocation, plain_call,
    spec_status_for_outcome, spec_subprocess_status, subprocess_status, write_call, write_file_with_escalation,
};
use super::input::BootstrapKomodoConfig;
use super::plan::KomodoPlannedOperation;
use super::report::BootstrapKomodoReport;

verus! {

/// The result recorded for a step: its id and description, and for a file the path.
pub open spec fn komodo_result_matches(r: OperationResult, op: KomodoPlannedOperation) -> bool {
    match op {
        KomodoPlannedOperation::Subprocess { id, description, .. } => r.id@ == id@ && r.description@ == description@
            && r.detail@ == Seq::<char>::empty(),
        KomodoPlannedOperation::WriteFile { id, description, path, .. } => r.id@ == id@ && r.description@
            == description@ && r.detail@ == path@,
    }
}

/// The runner call a step makes: a subprocess under the privilege policy with its
/// environment, or the `install` call that writes a file (default mode `644`).
pub open spec fn komodo_call(op: KomodoPlannedOperation, privilege: PrivilegeContext, io_mode: IoMode) -> RunnerCall {
    match op {
        KomodoPlannedOperation::Subprocess { command, args, env, .. } => command_call(
            privilege,
            command@,
            args.deep_view(),
            env.deep_view(),
            None,
            io_mode,
        ),
        KomodoPlannedOperation::WriteFile { path, content, .. } => write_call(path@, content@, None, io_mode),
    }
}

/// `status` follows from a possible outcome of the step's call: for a subprocess
/// `Succeeded` on a successful exit, `Failed` on another exit, `Skipped` or `Failed`
/// by `failure_is_warning` when the runner could not run it; for a file write
/// `Succeeded` when the write ran and exited successfully, `Failed` otherwise.
pub open spec fn komodo_step_ok<R: CommandRunner>(
    runner: &R,
    op: KomodoPlannedOperation,
    privilege: PrivilegeContext,
    io_mode: IoMode,
    status: OperationStatus,
) -> bool {
    exists|o: Result<CommandOutput, RunnerError>|
        #[trigger] runner.outcome_possible(komodo_call(op, privilege, io_mode), o) && status == match op {
            KomodoPlannedOperation::Subprocess { failure_is_warning, .. } => spec_subprocess_status(o, failure_is_warning),
            KomodoPlannedOperation::WriteFile { .. } => spec_status_for_outcome(false, o),
        }
}

/// Outside a dry run, the runner permits the call of every step.
pub open spec fn komodo_plan_permitted<R: CommandRunner>(
    runner: &R,
    ops: Seq<KomodoPlannedOperation>,
    privilege: PrivilegeContext,
    dry_run: bool,
    io_mode: IoMode,
) -> bool {
    !dry_run ==> forall|i: int| 0 <= i < ops.len() ==> runner.may_run(komodo_call(#[trigger] ops[i], privilege, io_mode))
}

/// Outside a dry run, each reported step ended with a status that an outcome of its
/// call gives.
pub open spec fn komodo_follows<R: CommandRunner>(
    runner: &R,
    ops: Seq<KomodoPlannedOperation>,
    results: Seq<OperationResult>,
    privilege: PrivilegeContext,
    dry_run: bool,
    io_mode: IoMode,
) -> bool {
    !dry_run ==> forall|i: int|
        0 <= i < results.len() ==> komodo_step_ok(runner, ops[i], privilege, io_mode, (#[trigger] results[i]).status)
}

/// What holds of every Komodo report, whatever the runner did: one result per step
/// in plan order; a dry run plans every step; otherwise no step is left planned and
/// the run stops right after the first failure.
pub open spec fn komodo_report_ok(ops: Seq<KomodoPlannedOperation>, results: Seq<OperationResult>, dry_run: bool) -> bool {
    &&& results.len() <= ops.len()
    &&& forall|i: int| 0 <= i < results.len() ==> komodo_result_matches(#[trigger] results[i], ops[i])
    &&& dry_run ==> results.len() == ops.len()
    &&& dry_run ==> forall|i: int| 0 <= i < results.len() ==> (#[trigger] results[i]).status == OperationStatus::Planned
    &&& !dry_run ==> forall|i: int| 0 <= i < results.len() ==> (#[trigger] results[i]).status != OperationStatus::Planned
    &&& forall|i: int| 0 <= i < results.len() - 1 ==> (#[trigger] results[i]).status != OperationStatus::Failed
    &&& results.len() < ops.len() ==> results.len() > 0 && results[results.len() - 1].status == OperationStatus::Failed
}

/// Runs the plan in order. In a dry run (`config.dry_run`) every step is reported
/// `Planned` and the runner is not called; otherwise each step's call runs through
/// the runner with the given output handling and the run stops after the first
/// failure. See [`komodo_report_ok`] and [`komodo_follows`].
pub fn execute_plan<R: CommandRunner>(
    runner: &R,
    privilege: PrivilegeContext,
    config: &BootstrapKomodoConfig,
    operations: Vec<KomodoPlannedOperation>,
    io_mode: IoMode,
) -> (report: BootstrapKomodoReport)
    requires
        komodo_plan_permitted(runner, operations@, privilege, config.dry_run, io_mode),
    ensures
        komodo_report_ok(operations@, report.operations@, config.dry_run),
        komodo_follows(runner, operations@, report.operations@, privilege, config.dry_run, io_mode),
{
    let dry_run = config.dry_run;
    let mut results: Vec<OperationResult> = Vec::new();
    let mut i: usize = 0;
    while i < operations.len()
        invariant
            i <= operations@.len(),
            results@.len() == i,
            dry_run == config.dry_run,
            komodo_plan_permitted(runner, operations@, privilege, dry_run, io_mode),
            forall|j: int| 0 <= j < i ==> komodo_result_matches(#[trigger] results@[j], operations@[j]),
            dry_run ==> forall|j: int| 0 <= j < i ==> (#[trigger] results@[j]).status == OperationStatus::Planned,
            !dry_run ==> forall|j: int| 0 <= j < i ==> (#[trigger] results@[j]).status != OperationStatus::Planned,
            komodo_follows(runner, operations@, results@, privilege, dry_run, io_mode),
            forall|j: int| 0 <= j < i ==> (#[trigger] results@[j]).status != OperationStatus::Failed,
        decreases operations.len() - i,
    {
        let ghost op = operations@[i as int];
        proof {
            if !dry_run {
                assert(runner.may_run(komodo_call(op, privilege, io_mode)));
            }
        }
        let result = match &operations[i] {
            KomodoPlannedOperation::Subprocess { id, description, command, args, env, failure_is_warning } => {
                let status = if dry_run {
                    OperationStatus::Planned
                } else {
                    let (program, full_args) = elevated_invocation(privilege, command, args);
                    assert(komodo_call(op, privilege, io_mode) == plain_call(
                        program@,
                        full_args.deep_view(),
                        env.deep_view(),
                        io_mode,
                    ));
                    let outcome = runner.run_with_env_io(program.as_str(), &full_args, env, io_mode);
                    subprocess_status(&outcome, *failure_is_warning)
                };
                OperationResult { id: *id, description: String::from_str(*description), status, detail: String::new() }
            },
            KomodoPlannedOperation::WriteFile { id, description, path, content } => {
                let status = if dry_run {
                    OperationStatus::Planned
                } else {
                    write_file_with_escalation(runner, path.as_str(), content.as_str(), None, io_mode)
                };
                OperationResult { id: *id, description: String::from_str(*description), status, detail: path.clone() }
            },
        };
        assert(!dry_run ==> komodo_step_ok(runner, op, privilege, io_mode, result.status));
        let failed = result.status == OperationStatus::Failed;
        let ghost before = results@;
        results.push(result);
        assert(forall|j: int| 0 <= j < i ==> results@[j] == before[j]);
        if failed {
            return BootstrapKomodoReport { operations: results };
        }
        i = i + 1;
    }
    BootstrapKomodoReport { operations: results }
}

/// A dry run makes no runner call: it needs no permission of the runner, for any
/// plan.
pub proof fn law_komodo_dry_run_calls_nothing<R: CommandRunner>(
    runner: &R,
    ops: Seq<KomodoPlannedOperation>,
    privilege: PrivilegeContext,
    io_mode: IoMode,
)
    ensures
        komodo_plan_permitted(runner, ops, privilege, true, io_mode),
{
}

/// Reading a report back: a run that stopped before the end of the plan reports
/// a failure, a run without failures covered the whole plan, and a dry run never
/// fails.
pub proof fn law_komodo_failures_are_reported(ops: Seq<KomodoPlannedOperation>, results: Seq<OperationResult>, dry_run: bool)
    requires
        komodo_report_ok(ops, results, dry_run),
    ensures
        results.len() < ops.len() ==> any_failed(results),
        !any_failed(results) ==> results.len() == ops.len(),
        dry_run ==> !any_failed(results),
{
    if results.len() < ops.len() {
        assert(results[results.len() - 1].status == OperationStatus::Failed);
    }
    if dry_run {
        assert forall|i: int| 0 <= i < results.len() implies results[i].status != OperationStatus::Failed by {
            assert(results[i].status == OperationStatus::Planned);
        }
    }
}

} // verus!
