//! Planned operations, their results, and the abstract views that contracts speak of.

use vstd::prelude::*;
use crate::text::{contains_non_ws, contains_str, contains_text, has_non_ws};

verus! {

/// Outcome recorded for one planned operation.
#[derive(Debug, Clone, Copy, PartialEq, Eq, Structural)]
pub enum OperationStatus {
    Planned,
    Skipped,
    Succeeded,
    Failed,
}

impl OperationStatus {
    /// The snake_case name used in machine-readable reports.
    pub fn as_str(&self) -> (r: &'static str)
        ensures
            r@ == self.spec_name(),
    {
        match self {
            OperationStatus::Planned => "planned",
            OperationStatus::Skipped => "skipped",
            OperationStatus::Succeeded => "succeeded",
            OperationStatus::Failed => "failed",
        }
    }

    pub open spec fn spec_name(&self) -> Seq<char> {
        match self {
            OperationStatus::Planned => "planned"@,
            OperationStatus::Skipped => "skipped"@,
            OperationStatus::Succeeded => "succeeded"@,
            OperationStatus::Failed => "failed"@,
        }
    }
}

/// Result of running (or planning) one operation.
#[derive(Debug, Clone)]
pub struct OperationResult {
    pub id: &'static str,
    pub description: String,
    pub status: OperationStatus,
    pub detail: String,
}

/// What one planned operation does.
#[derive(Debug, Clone)]
pub enum OperationKind {
    Shell { command: String, args: Vec<String>, env: Vec<(String, String)>, stdin_input: Option<String> },
    EnsurePackage { package: String },
    WriteFile { path: String, content: String, mode: Option<u32> },
    InheritIo { command: String, args: Vec<String> },
}

/// A follow-up command that checks an operation took effect.
#[derive(Debug, Clone)]
pub struct VerifyStep {
    pub description: String,
    pub command: String,
    pub args: Vec<String>,
}

/// What the standard output of a shell step that exited successfully must show
/// for the step to count as succeeded.
#[derive(Debug, Clone)]
pub enum OutputCheck {
    /// Any output.
    Any,
    /// Some character of the output is not whitespace: something was listed.
    NonBlank,
    /// Each of the given texts occurs in the output.
    ContainsAll(Vec<String>),
}

/// One step of a bootstrap plan.
#[derive(Debug, Clone)]
pub struct PlannedOperation {
    pub id: &'static str,
    pub description: String,
    pub kind: OperationKind,
    pub requires_confirmation: bool,
    pub failure_is_warning: bool,
    pub verify: Option<VerifyStep>,
    pub output_check: OutputCheck,
}

/// A plan could not be built.
#[derive(Debug, Clone, Copy, PartialEq, Eq, Structural)]
pub enum PlanError {
    /// Flux bootstrap was planned without a private key path.
    MissingPrivateKeyPath,
}

impl PlanError {
    /// The error's text.
    pub fn message(&self) -> (r: String)
        ensures
            r@ == self.spec_message(),
    {
        match self {
            PlanError::MissingPrivateKeyPath => String::from_str("internal error: missing private key path for Flux bootstrap"),
        }
    }

    pub open spec fn spec_message(&self) -> Seq<char> {
        match self {
            PlanError::MissingPrivateKeyPath => "internal error: missing private key path for Flux bootstrap"@,
        }
    }
}

/// Abstract value of an [`OperationKind`].
pub enum OperationKindView {
    Shell {
        command: Seq<char>,
        args: Seq<Seq<char>>,
        env: Seq<(Seq<char>, Seq<char>)>,
        stdin_input: Option<Seq<char>>,
    },
    EnsurePackage { package: Seq<char> },
    WriteFile { path: Seq<char>, content: Seq<char>, mode: Option<u32> },
    InheritIo { command: Seq<char>, args: Seq<Seq<char>> },
}

/// Abstract value of a [`VerifyStep`].
pub struct VerifyStepView {
    pub description: Seq<char>,
    pub command: Seq<char>,
    pub args: Seq<Seq<char>>,
}

/// Abstract value of an [`OutputCheck`].
pub enum OutputCheckView {
    Any,
    NonBlank,
    ContainsAll(Seq<Seq<char>>),
}

/// Abstract value of a [`PlannedOperation`].
pub struct PlannedOperationView {
    pub id: Seq<char>,
    pub description: Seq<char>,
    pub kind: OperationKindView,
    pub requires_confirmation: bool,
    pub failure_is_warning: bool,
    pub verify: Option<VerifyStepView>,
    pub output_check: OutputCheckView,
}

/// Abstract value of an [`OperationResult`].
pub struct OperationResultView {
    pub id: Seq<char>,
    pub description: Seq<char>,
    pub status: OperationStatus,
    pub detail: Seq<char>,
}

impl View for OperationKind {
    type V = OperationKindView;

    open spec fn view(&self) -> OperationKindView {
        match self {
            OperationKind::Shell { command, args, env, stdin_input } => OperationKindView::Shell {
                command: command@,
                args: args.deep_view(),
                env: env.deep_view(),
                stdin_input: stdin_input.deep_view(),
            },
            OperationKind::EnsurePackage { package } => OperationKindView::EnsurePackage {
                package: package@,
            },
            OperationKind::WriteFile { path, content, mode } => OperationKindView::WriteFile {
                path: path@,
                content: content@,
                mode: *mode,
            },
            OperationKind::InheritIo { command, args } => OperationKindView::InheritIo {
                command: command@,
                args: args.deep_view(),
            },
        }
    }
}

impl View for VerifyStep {
    type V = VerifyStepView;

    open spec fn view(&self) -> VerifyStepView {
        VerifyStepView {
            description: self.description@,
            command: self.command@,
            args: self.args.deep_view(),
        }
    }
}

impl View for OutputCheck {
    type V = OutputCheckView;

    open spec fn view(&self) -> OutputCheckView {
        match self {
            OutputCheck::Any => OutputCheckView::Any,
            OutputCheck::NonBlank => OutputCheckView::NonBlank,
            OutputCheck::ContainsAll(texts) => OutputCheckView::ContainsAll(texts.deep_view()),
        }
    }
}

impl View for PlannedOperation {
    type V = PlannedOperationView;

    open spec fn view(&self) -> PlannedOperationView {
        PlannedOperationView {
            id: self.id@,
            description: self.description@,
            kind: self.kind@,
            requires_confirmation: self.requires_confirmation,
            failure_is_warning: self.failure_is_warning,
            verify: match self.verify {
                Some(v) => Some(v@),
                None => None,
            },
            output_check: self.output_check@,
        }
    }
}

impl View for OperationResult {
    type V = OperationResultView;

    open spec fn view(&self) -> OperationResultView {
        OperationResultView {
            id: self.id@,
            description: self.description@,
            status: self.status,
            detail: self.detail@,
        }
    }
}

/// Abstract value of a whole plan.
pub open spec fn plan_view(ops: Seq<PlannedOperation>) -> Seq<PlannedOperationView> {
    ops.map_values(|o: PlannedOperation| o@)
}

/// Abstract value of a list of results.
pub open spec fn results_view(rs: Seq<OperationResult>) -> Seq<OperationResultView> {
    rs.map_values(|r: OperationResult| r@)
}

/// A plain shell operation with no stdin, no confirmation and no verify step.
pub open spec fn shell_op(
    id: Seq<char>,
    description: Seq<char>,
    command: Seq<char>,
    args: Seq<Seq<char>>,
    env: Seq<(Seq<char>, Seq<char>)>,
    failure_is_warning: bool,
) -> PlannedOperationView {
    PlannedOperationView {
        id,
        description,
        kind: OperationKindView::Shell { command, args, env, stdin_input: None },
        requires_confirmation: false,
        failure_is_warning,
        verify: None,
        output_check: OutputCheckView::Any,
    }
}

/// A shell operation with the given stdin and confirmation flag and no verify step.
pub open spec fn shell_op_full(
    id: Seq<char>,
    description: Seq<char>,
    command: Seq<char>,
    args: Seq<Seq<char>>,
    stdin_input: Option<Seq<char>>,
    requires_confirmation: bool,
) -> PlannedOperationView {
    PlannedOperationView {
        id,
        description,
        kind: OperationKindView::Shell { command, args, env: seq![], stdin_input },
        requires_confirmation,
        failure_is_warning: false,
        verify: None,
        output_check: OutputCheckView::Any,
    }
}

/// Builds a shell operation with optional stdin and confirmation, no environment.
pub fn shell_operation_full(
    id: &'static str,
    description: &str,
    command: &str,
    args: Vec<String>,
    stdin_input: Option<String>,
    requires_confirmation: bool,
) -> (op: PlannedOperation)
    ensures
        op@ == shell_op_full(id@, description@, command@, args.deep_view(), stdin_input.deep_view(), requires_confirmation),
{
    let env: Vec<(String, String)> = Vec::new();
    assert(env.deep_view() =~= Seq::<(Seq<char>, Seq<char>)>::empty());
    PlannedOperation {
        id,
        description: String::from_str(description),
        kind: OperationKind::Shell { command: String::from_str(command), args, env, stdin_input },
        requires_confirmation,
        failure_is_warning: false,
        verify: None,
        output_check: OutputCheck::Any,
    }
}

/// Builds a shell operation with no stdin, no confirmation and no verify step.
pub fn shell_operation(
    id: &'static str,
    description: &str,
    command: &str,
    args: Vec<String>,
    env: Vec<(String, String)>,
    failure_is_warning: bool,
) -> (op: PlannedOperation)
    ensures
        op@ == shell_op(id@, description@, command@, args.deep_view(), env.deep_view(), failure_is_warning),
{
    PlannedOperation {
        id,
        description: String::from_str(description),
        kind: OperationKind::Shell {
            command: String::from_str(command),
            args,
            env,
            stdin_input: None,
        },
        requires_confirmation: false,
        failure_is_warning,
        verify: None,
        output_check: OutputCheck::Any,
    }
}

/// A file write with no confirmation and no verify step.
pub open spec fn write_op(
    id: Seq<char>,
    description: Seq<char>,
    path: Seq<char>,
    content: Seq<char>,
    mode: Option<u32>,
) -> PlannedOperationView {
    PlannedOperationView {
        id,
        description,
        kind: OperationKindView::WriteFile { path, content, mode },
        requires_confirmation: false,
        failure_is_warning: false,
        verify: None,
        output_check: OutputCheckView::Any,
    }
}

/// Builds a file write with no confirmation and no verify step.
pub fn write_file_operation(
    id: &'static str,
    description: &str,
    path: &str,
    content: String,
    mode: Option<u32>,
) -> (op: PlannedOperation)
    ensures
        op@ == write_op(id@, description@, path@, content@, mode),
{
    PlannedOperation {
        id,
        description: String::from_str(description),
        kind: OperationKind::WriteFile { path: String::from_str(path), content, mode },
        requires_confirmation: false,
        failure_is_warning: false,
        verify: None,
        output_check: OutputCheck::Any,
    }
}

/// `op` with its output check replaced by `check`.
pub open spec fn checked_op(op: PlannedOperationView, check: OutputCheckView) -> PlannedOperationView {
    PlannedOperationView {
        id: op.id,
        description: op.description,
        kind: op.kind,
        requires_confirmation: op.requires_confirmation,
        failure_is_warning: op.failure_is_warning,
        verify: op.verify,
        output_check: check,
    }
}

/// Gives `op` the output check `check`.
pub fn with_output_check(op: PlannedOperation, check: OutputCheck) -> (r: PlannedOperation)
    ensures
        r@ == checked_op(op@, check@),
{
    PlannedOperation { output_check: check, ..op }
}

/// Whether captured standard output `stdout` passes `check`.
pub open spec fn output_check_passes(check: OutputCheckView, stdout: Seq<char>) -> bool {
    match check {
        OutputCheckView::Any => true,
        OutputCheckView::NonBlank => has_non_ws(stdout),
        OutputCheckView::ContainsAll(texts) => contains_all(stdout, texts),
    }
}

/// Each of `texts` occurs in `stdout`.
pub open spec fn contains_all(stdout: Seq<char>, texts: Seq<Seq<char>>) -> bool {
    forall|j: int| 0 <= j < texts.len() ==> contains_text(stdout, #[trigger] texts[j])
}

/// Checks captured standard output against `check`.
pub fn output_passes(check: &OutputCheck, stdout: &str) -> (r: bool)
    ensures
        r == output_check_passes(check@, stdout@),
{
    match check {
        OutputCheck::Any => true,
        OutputCheck::NonBlank => contains_non_ws(stdout),
        OutputCheck::ContainsAll(texts) => {
            let mut j: usize = 0;
            while j < texts.len()
                invariant
                    j <= texts@.len(),
                    check@ == OutputCheckView::ContainsAll(texts.deep_view()),
                    forall|k: int| 0 <= k < j ==> contains_text(stdout@, #[trigger] texts.deep_view()[k]),
                decreases texts.len() - j,
            {
                assert(texts.deep_view()[j as int] == texts@[j as int]@);
                let found = contains_str(stdout, texts[j].as_str());
                if !found {
                    assert(!contains_text(stdout@, texts.deep_view()[j as int]));
                    return false;
                }
                j = j + 1;
            }
            true
        },
    }
}

/// An empty plan.
pub fn new_plan() -> (ops: Vec<PlannedOperation>)
    ensures
        plan_view(ops@) == Seq::<PlannedOperationView>::empty(),
{
    let ops: Vec<PlannedOperation> = Vec::new();
    assert(plan_view(ops@) =~= Seq::<PlannedOperationView>::empty());
    ops
}

/// Appends `op` to a plan.
pub fn push_operation(ops: &mut Vec<PlannedOperation>, op: PlannedOperation)
    ensures
        plan_view(final(ops)@) == plan_view(old(ops)@).push(op@),
{
    let ghost before = ops@;
    ops.push(op);
    assert(plan_view(ops@) =~= plan_view(before).push(op@));
}

/// True when some result failed.
pub open spec fn any_failed(rs: Seq<OperationResult>) -> bool {
    exists|i: int| 0 <= i < rs.len() && rs[i].status == OperationStatus::Failed
}

/// True when some operation in `operations` has status `Failed`.
pub fn results_have_failures(operations: &Vec<OperationResult>) -> (r: bool)
    ensures
        r == any_failed(operations@),
{
    let mut i: usize = 0;
    while i < operations.len()
        invariant
            i <= operations@.len(),
            forall|j: int| 0 <= j < i ==> operations@[j].status != OperationStatus::Failed,
        decreases operations.len() - i,
    {
        if operations[i].status == OperationStatus::Failed {
            return true;
        }
        i = i + 1;
    }
    false
}

/// Some operation of the plan has the given id.
pub open spec fn plan_has(ops: Seq<PlannedOperationView>, id: Seq<char>) -> bool {
    exists|i: int| 0 <= i < ops.len() && (#[trigger] ops[i]).id == id
}

} // verus!
