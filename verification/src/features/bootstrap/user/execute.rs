//! Runs the admin user plan.

use vstd::prelude::*;
use crate::common::elevation::PrivilegeContext;
use crate::common::operation::PlannedOperation;
use crate::runner::{CommandRunner, IoMode, execute_operations, execution_follows_runner, execution_report_ok, plan_permitted};
use super::input::BootstrapUserConfig;
use super::report::BootstrapUserReport;

verus! {

/// Runs the plan; steps that require confirmation run only when the risky changes
/// were confirmed.
pub fn execute_plan<R: CommandRunner>(
    runner: &R,
    config: &BootstrapUserConfig,
    operations: &Vec<PlannedOperation>,
    io_mode: IoMode,
) -> (report: BootstrapUserReport)
    requires
        plan_permitted(runner, operations@, (PrivilegeContext { elevate_shell: true }), config.dry_run, config.confirmed, io_mode),
    ensures
        execution_report_ok(operations@, report.operations@, config.dry_run, config.confirmed),
        execution_follows_runner(
            runner,
            operations@,
            report.operations@,
            (PrivilegeContext { elevate_shell: true }),
            config.dry_run,
            config.confirmed,
            io_mode,
        ),
{
    let results = execute_operations(
        operations,
        runner,
        PrivilegeContext::elevated_ops(),
        config.dry_run,
        config.confirmed,
        io_mode,
    );
    BootstrapUserReport { operations: results }
}

} // verus!
