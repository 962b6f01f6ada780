//! Runs the Flux plan.

use vstd::prelude::*;
use crate::common::elevation::PrivilegeContext;
use crate::common::operation::PlannedOperation;
use crate::runner::{CommandRunner, IoMode, execute_operations, execution_follows_runner, execution_report_ok, plan_permitted};
use super::input::BootstrapFluxConfig;
use super::report::BootstrapFluxReport;

verus! {

/// Runs the plan with elevated shell operations (dry-run from the config, no
/// confirmation of risky steps).
pub fn execute_plan<R: CommandRunner>(
    runner: &R,
    config: &BootstrapFluxConfig,
    operations: &Vec<PlannedOperation>,
    io_mode: IoMode,
) -> (report: BootstrapFluxReport)
    requires
        plan_permitted(runner, operations@, (PrivilegeContext { elevate_shell: true }), config.dry_run, false, io_mode),
    ensures
        execution_report_ok(operations@, report.operations@, config.dry_run, false),
        execution_follows_runner(
            runner,
            operations@,
            report.operations@,
            (PrivilegeContext { elevate_shell: true }),
            config.dry_run,
            false,
            io_mode,
        ),
{
    let results = execute_operations(operations, runner, PrivilegeContext::elevated_ops(), config.dry_run, false, io_mode);
    BootstrapFluxReport { operations: results }
}

} // verus!
