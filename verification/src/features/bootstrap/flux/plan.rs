//! The ordered operations of the Flux bootstrap, or of a reconcile when Flux is
//! already installed.

use vstd::prelude::*;
use crate::common::argv::{args1, args4, args8, extend_args, joined, lit, no_args, no_env, option_at, passes_option, push_arg};
use crate::common::operation::{
    OperationKindView, PlanError, PlannedOperation, PlannedOperationView, new_plan, plan_view, push_operation, shell_op,
    shell_operation,
};
use super::input::{BootstrapFluxConfig, kube_env};
use super::validate::{normalize_ssh_git_url_for_flux, spec_normalize_flux_url};

verus! {

/// Name of the `GitRepository` and `Kustomization` that `flux bootstrap` creates.
pub const FLUX_SYNC_NAME: &'static str = "flux-system";

/// `flux <args>`, or `sudo flux <args>` when the kubeconfig needs root.
pub open spec fn spec_flux_invocation(args: Seq<Seq<char>>, kube_elevated: bool) -> (Seq<char>, Seq<Seq<char>>) {
    if kube_elevated {
        ("sudo"@, seq!["flux"@] + args)
    } else {
        ("flux"@, args)
    }
}

/// Program and arguments of a `flux` call, under `sudo` when the kubeconfig needs root.
pub fn sudo_wrap_flux(args: Vec<String>, kube_elevated: bool) -> (r: (String, Vec<String>))
    ensures
        (r.0@, r.1.deep_view()) == spec_flux_invocation(args.deep_view(), kube_elevated),
{
    if kube_elevated {
        let mut prefixed = no_args();
        push_arg(&mut prefixed, lit("flux"));
        extend_args(&mut prefixed, &args);
        assert(prefixed.deep_view() =~= seq!["flux"@] + args.deep_view());
        (lit("sudo"), prefixed)
    } else {
        (lit("flux"), args)
    }
}

/// A `flux` operation with `KUBECONFIG` set.
pub open spec fn flux_op(
    id: Seq<char>,
    description: Seq<char>,
    args: Seq<Seq<char>>,
    c: BootstrapFluxConfig,
) -> PlannedOperationView {
    let inv = spec_flux_invocation(args, c.kube_elevated);
    shell_op(id, description, inv.0, inv.1, seq![("KUBECONFIG"@, c.kubeconfig@)], false)
}

/// `flux <verb> <kind> flux-system -n <ns> --kubeconfig <kc>`, the words before
/// the object name given.
pub open spec fn sync_object_args(head: Seq<Seq<char>>, c: BootstrapFluxConfig) -> Seq<Seq<char>> {
    head + seq!["flux-system"@, "-n"@, c.namespace@, "--kubeconfig"@, c.kubeconfig@]
}

/// The plan when Flux is already in the namespace: reconcile the Git source, then
/// the kustomization, then read the kustomization back.
pub open spec fn spec_reconcile_plan(c: BootstrapFluxConfig) -> Seq<PlannedOperationView> {
    seq![
        flux_op(
            "flux_reconcile_source_git"@,
            "Reconcile existing Flux Git source"@,
            sync_object_args(seq!["reconcile"@, "source"@, "git"@], c),
            c,
        ),
        flux_op(
            "flux_reconcile_kustomization"@,
            "Reconcile existing Flux kustomization"@,
            sync_object_args(seq!["reconcile"@, "kustomization"@], c),
            c,
        ),
        flux_op(
            "flux_get_kustomization"@,
            "Verify Flux kustomization after reconcile"@,
            sync_object_args(seq!["get"@, "kustomization"@], c),
            c,
        ),
    ]
}

/// Arguments of `flux bootstrap git`: the URL in `ssh://` form, the private key,
/// branch, path, namespace and kubeconfig, `--silent`, and the key passphrase
/// when there is one.
pub open spec fn spec_bootstrap_args(c: BootstrapFluxConfig, private_key: Seq<char>) -> Seq<Seq<char>> {
    seq![
        "bootstrap"@,
        "git"@,
        "--url="@ + spec_normalize_flux_url(c.git_url@),
        "--private-key-file="@ + private_key,
        "--branch="@ + c.branch@,
        "--path="@ + c.cluster_path@,
        "--namespace="@ + c.namespace@,
        "--kubeconfig="@ + c.kubeconfig@,
        "--silent"@,
    ] + match c.private_key_passphrase {
        Some(p) => seq!["--password"@, p@],
        None => seq![],
    }
}

/// Download and run the official install script (installs the `flux` CLI).
pub open spec fn flux_install_ops(c: BootstrapFluxConfig) -> Seq<PlannedOperationView> {
    seq![
        shell_op(
            "download_flux_install_script"@,
            "Download official Flux install script"@,
            "curl"@,
            seq!["-fsSL"@, "-o"@, c.install_script_path@, c.install_script_url@],
            seq![],
            false,
        ),
        shell_op(
            "run_flux_install_script"@,
            "Execute Flux install script (installs `flux` CLI)"@,
            "bash"@,
            seq![c.install_script_path@],
            seq![],
            false,
        ),
    ]
}

/// The Flux plan. With the namespace present, a reconcile. Otherwise the CLI
/// install (unless skipped), `flux bootstrap git`, and a check that the
/// kustomization is known; without a private key path, an error.
pub open spec fn spec_flux_plan(c: BootstrapFluxConfig) -> Result<Seq<PlannedOperationView>, PlanError> {
    if c.namespace_exists {
        Ok(spec_reconcile_plan(c))
    } else {
        match c.private_key_bootstrap_path {
            None => Err(PlanError::MissingPrivateKeyPath),
            Some(pk) => Ok(
                (if c.skip_flux_cli_install { seq![] } else { flux_install_ops(c) }) + seq![
                    flux_op(
                        "flux_bootstrap_git"@,
                        "Flux bootstrap git (SSH deploy key; commits manifests and configures cluster)"@,
                        spec_bootstrap_args(c, pk@),
                        c,
                    ),
                    flux_op(
                        "flux_get_kustomization"@,
                        "Verify Flux kustomization is known to the API"@,
                        sync_object_args(seq!["get"@, "kustomization"@], c),
                        c,
                    ),
                ],
            ),
        }
    }
}

fn flux_operation(id: &'static str, description: &str, args: Vec<String>, config: &BootstrapFluxConfig) -> (op:
    PlannedOperation)
    ensures
        op@ == flux_op(id@, description@, args.deep_view(), *config),
{
    let (command, command_args) = sudo_wrap_flux(args, config.kube_elevated);
    shell_operation(id, description, command.as_str(), command_args, kube_env(config.kubeconfig.as_str()), false)
}

fn sync_object_arguments(head: Vec<String>, config: &BootstrapFluxConfig) -> (r: Vec<String>)
    ensures
        r.deep_view() == sync_object_args(head.deep_view(), *config),
{
    let mut r = head;
    push_arg(&mut r, lit(FLUX_SYNC_NAME));
    push_arg(&mut r, lit("-n"));
    push_arg(&mut r, config.namespace.clone());
    push_arg(&mut r, lit("--kubeconfig"));
    push_arg(&mut r, config.kubeconfig.clone());
    assert(r.deep_view() =~= sync_object_args(head.deep_view(), *config));
    r
}

fn reconcile_plan(config: &BootstrapFluxConfig) -> (ops: Vec<PlannedOperation>)
    ensures
        plan_view(ops@) == spec_reconcile_plan(*config),
{
    let mut ops = new_plan();
    let mut head = no_args();
    push_arg(&mut head, lit("reconcile"));
    push_arg(&mut head, lit("source"));
    push_arg(&mut head, lit("git"));
    assert(head.deep_view() =~= seq!["reconcile"@, "source"@, "git"@]);
    push_operation(
        &mut ops,
        flux_operation(
            "flux_reconcile_source_git",
            "Reconcile existing Flux Git source",
            sync_object_arguments(head, config),
            config,
        ),
    );
    let mut head = no_args();
    push_arg(&mut head, lit("reconcile"));
    push_arg(&mut head, lit("kustomization"));
    assert(head.deep_view() =~= seq!["reconcile"@, "kustomization"@]);
    push_operation(
        &mut ops,
        flux_operation(
            "flux_reconcile_kustomization",
            "Reconcile existing Flux kustomization",
            sync_object_arguments(head, config),
            config,
        ),
    );
    let mut head = no_args();
    push_arg(&mut head, lit("get"));
    push_arg(&mut head, lit("kustomization"));
    assert(head.deep_view() =~= seq!["get"@, "kustomization"@]);
    push_operation(
        &mut ops,
        flux_operation(
            "flux_get_kustomization",
            "Verify Flux kustomization after reconcile",
            sync_object_arguments(head, config),
            config,
        ),
    );
    assert(plan_view(ops@) =~= spec_reconcile_plan(*config));
    ops
}

fn bootstrap_arguments(config: &BootstrapFluxConfig, private_key: &str) -> (r: Vec<String>)
    ensures
        r.deep_view() == spec_bootstrap_args(*config, private_key@),
{
    let url = normalize_ssh_git_url_for_flux(config.git_url.as_str());
    let mut r = args8(
        lit("bootstrap"),
        lit("git"),
        joined("--url=", url.as_str()),
        joined("--private-key-file=", private_key),
        joined("--branch=", config.branch.as_str()),
        joined("--path=", config.cluster_path.as_str()),
        joined("--namespace=", config.namespace.as_str()),
        joined("--kubeconfig=", config.kubeconfig.as_str()),
    );
    push_arg(&mut r, lit("--silent"));
    match &config.private_key_passphrase {
        Some(pass) => {
            push_arg(&mut r, lit("--password"));
            push_arg(&mut r, pass.clone());
        },
        None => {},
    }
    assert(r.deep_view() =~= spec_bootstrap_args(*config, private_key@));
    r
}

/// Builds the Flux plan; fails only when a bootstrap is planned without a
/// private key path.
pub fn build_plan(config: &BootstrapFluxConfig) -> (r: Result<Vec<PlannedOperation>, PlanError>)
    ensures
        match spec_flux_plan(*config) {
            Ok(p) => r matches Ok(ops) && plan_view(ops@) == p,
            Err(e) => r == Err::<Vec<PlannedOperation>, PlanError>(e),
        },
{
    if config.namespace_exists {
        return Ok(reconcile_plan(config));
    }
    let pk = match &config.private_key_bootstrap_path {
        Some(pk) => pk,
        None => return Err(PlanError::MissingPrivateKeyPath),
    };
    let mut ops = new_plan();
    if !config.skip_flux_cli_install {
        let download = shell_operation(
            "download_flux_install_script",
            "Download official Flux install script",
            "curl",
            args4(lit("-fsSL"), lit("-o"), config.install_script_path.clone(), config.install_script_url.clone()),
            no_env(),
            false,
        );
        let run_install = shell_operation(
            "run_flux_install_script",
            "Execute Flux install script (installs `flux` CLI)",
            "bash",
            args1(config.install_script_path.clone()),
            no_env(),
            false,
        );
        push_operation(&mut ops, download);
        push_operation(&mut ops, run_install);
    }
    push_operation(
        &mut ops,
        flux_operation(
            "flux_bootstrap_git",
            "Flux bootstrap git (SSH deploy key; commits manifests and configures cluster)",
            bootstrap_arguments(config, pk.as_str()),
            config,
        ),
    );
    let mut head = no_args();
    push_arg(&mut head, lit("get"));
    push_arg(&mut head, lit("kustomization"));
    assert(head.deep_view() =~= seq!["get"@, "kustomization"@]);
    push_operation(
        &mut ops,
        flux_operation(
            "flux_get_kustomization",
            "Verify Flux kustomization is known to the API",
            sync_object_arguments(head, config),
            config,
        ),
    );
    assert(plan_view(ops@) =~= spec_flux_plan(*config)->Ok_0);
    Ok(ops)
}

/// Number of install steps at the head of the plan.
pub open spec fn flux_install_count(c: BootstrapFluxConfig) -> int {
    if c.namespace_exists || c.skip_flux_cli_install {
        0
    } else {
        2
    }
}

/// Flux plan shapes: a reconcile is exactly three steps, reconciling the Git
/// source first and reading the kustomization last; a bootstrap without a key is
/// refused; a bootstrap runs `flux bootstrap git` right after the optional CLI
/// install and checks the kustomization last.
pub proof fn law_flux_plan_shape(c: BootstrapFluxConfig)
    ensures
        c.namespace_exists ==> (spec_flux_plan(c) matches Ok(p) && p.len() == 3 && p[0].id
            == "flux_reconcile_source_git"@ && p[1].id == "flux_reconcile_kustomization"@ && p[2].id
            == "flux_get_kustomization"@),
        !c.namespace_exists && c.private_key_bootstrap_path is None ==> spec_flux_plan(c) == Err::<
            Seq<PlannedOperationView>,
            PlanError,
        >(PlanError::MissingPrivateKeyPath),
        !c.namespace_exists && c.private_key_bootstrap_path is Some ==> (spec_flux_plan(c) matches Ok(p) && p.len()
            == flux_install_count(c) + 2 && p[flux_install_count(c)].id == "flux_bootstrap_git"@ && p[p.len() - 1].id
            == "flux_get_kustomization"@),
        !c.namespace_exists && c.private_key_bootstrap_path is Some && !c.skip_flux_cli_install ==> (spec_flux_plan(
            c,
        ) matches Ok(p) && p[0].id == "download_flux_install_script"@ && p[1].id == "run_flux_install_script"@),
{
}

/// A step that calls `flux` with `KUBECONFIG` set, under `sudo` exactly when the
/// kubeconfig needs root.
pub open spec fn is_flux_call(op: PlannedOperationView, c: BootstrapFluxConfig) -> bool {
    &&& op.kind matches OperationKindView::Shell { command, args, env, .. }
    &&& op.kind->Shell_env == seq![("KUBECONFIG"@, c.kubeconfig@)]
    &&& if c.kube_elevated {
        op.kind->Shell_command == "sudo"@ && op.kind->Shell_args.len() > 0 && op.kind->Shell_args[0] == "flux"@
    } else {
        op.kind->Shell_command == "flux"@
    }
}

/// Every step after the CLI install calls `flux` with `KUBECONFIG` set, under
/// `sudo` exactly when the kubeconfig needs root.
pub proof fn law_flux_steps_use_kubeconfig(c: BootstrapFluxConfig)
    ensures
        spec_flux_plan(c) matches Ok(p) ==> forall|i: int|
            flux_install_count(c) <= i < p.len() ==> is_flux_call(#[trigger] p[i], c),
{
    if spec_flux_plan(c) is Ok {
        let p = spec_flux_plan(c)->Ok_0;
        let k = flux_install_count(c);
        assert forall|i: int| k <= i < p.len() implies is_flux_call(#[trigger] p[i], c) by {
            if !c.namespace_exists {
                assert(p[i] == seq![
                    flux_op(
                        "flux_bootstrap_git"@,
                        "Flux bootstrap git (SSH deploy key; commits manifests and configures cluster)"@,
                        spec_bootstrap_args(c, c.private_key_bootstrap_path->0@),
                        c,
                    ),
                    flux_op(
                        "flux_get_kustomization"@,
                        "Verify Flux kustomization is known to the API"@,
                        sync_object_args(seq!["get"@, "kustomization"@], c),
                        c,
                    ),
                ][i - k]);
            }
        }
    }
}

/// The arguments of a step, when it is a shell step.
pub open spec fn shell_args(op: PlannedOperationView) -> Seq<Seq<char>> {
    match op.kind {
        OperationKindView::Shell { args, .. } => args,
        _ => seq![],
    }
}

/// Every reconcile step and every kustomization read passes `-n` immediately
/// followed by the configured namespace: the three steps of a reconcile, and the
/// final check of a bootstrap.
pub proof fn law_flux_sync_steps_use_namespace(c: BootstrapFluxConfig)
    ensures
        c.namespace_exists ==> (spec_flux_plan(c) matches Ok(p) && forall|i: int|
            0 <= i < 3 ==> passes_option(shell_args(#[trigger] p[i]), "-n"@, c.namespace@)),
        !c.namespace_exists && c.private_key_bootstrap_path is Some ==> (spec_flux_plan(c) matches Ok(p) && passes_option(
            shell_args(p[p.len() - 1]),
            "-n"@,
            c.namespace@,
        )),
{
    let heads = seq![seq!["reconcile"@, "source"@, "git"@], seq!["reconcile"@, "kustomization"@], seq!["get"@, "kustomization"@]];
    if c.namespace_exists {
        let p = spec_reconcile_plan(c);
        assert forall|i: int| 0 <= i < 3 implies passes_option(shell_args(#[trigger] p[i]), "-n"@, c.namespace@) by {
            lemma_sync_args_pass_namespace(heads[i], c);
            if i == 0 {
                assert(p[0] == flux_op(
                    "flux_reconcile_source_git"@,
                    "Reconcile existing Flux Git source"@,
                    sync_object_args(heads[0], c),
                    c,
                ));
            } else if i == 1 {
                assert(p[1] == flux_op(
                    "flux_reconcile_kustomization"@,
                    "Reconcile existing Flux kustomization"@,
                    sync_object_args(heads[1], c),
                    c,
                ));
            } else {
                assert(p[2] == flux_op(
                    "flux_get_kustomization"@,
                    "Verify Flux kustomization after reconcile"@,
                    sync_object_args(heads[2], c),
                    c,
                ));
            }
        }
    } else if c.private_key_bootstrap_path is Some {
        let p = spec_flux_plan(c)->Ok_0;
        lemma_sync_args_pass_namespace(heads[2], c);
        assert(p[p.len() - 1] == flux_op(
            "flux_get_kustomization"@,
            "Verify Flux kustomization is known to the API"@,
            sync_object_args(heads[2], c),
            c,
        ));
    }
}

/// A `flux` step on the sync objects passes `-n <namespace>`, with or without `sudo`.
proof fn lemma_sync_args_pass_namespace(head: Seq<Seq<char>>, c: BootstrapFluxConfig)
    ensures
        forall|id: Seq<char>, d: Seq<char>|
            passes_option(#[trigger] shell_args(flux_op(id, d, sync_object_args(head, c), c)), "-n"@, c.namespace@),
{
    let a = sync_object_args(head, c);
    let j: int = head.len() as int + 1;
    assert(option_at(a, "-n"@, c.namespace@, j));
    let b = seq!["flux"@] + a;
    assert(b[j + 1] == a[j]);
    assert(b[j + 2] == a[j + 1]);
    assert(option_at(b, "-n"@, c.namespace@, j + 1));
    assert forall|id: Seq<char>, d: Seq<char>|
        passes_option(#[trigger] shell_args(flux_op(id, d, a, c)), "-n"@, c.namespace@) by {
        if c.kube_elevated {
            assert(shell_args(flux_op(id, d, a, c)) == b);
        } else {
            assert(shell_args(flux_op(id, d, a, c)) == a);
        }
    }
}

/// `flux bootstrap git` gets the URL in `ssh://` form, the private key file, the
/// branch, the cluster path, the namespace and the kubeconfig, and, when a key
/// passphrase is given, `--password` followed by it.
pub proof fn law_flux_bootstrap_arguments(c: BootstrapFluxConfig)
    requires
        !c.namespace_exists,
        c.private_key_bootstrap_path is Some,
    ensures
        spec_flux_plan(c) matches Ok(p) && ({
            let args = shell_args(p[flux_install_count(c)]);
            &&& args.contains("--url="@ + spec_normalize_flux_url(c.git_url@))
            &&& args.contains("--private-key-file="@ + c.private_key_bootstrap_path->0@)
            &&& args.contains("--branch="@ + c.branch@)
            &&& args.contains("--path="@ + c.cluster_path@)
            &&& args.contains("--namespace="@ + c.namespace@)
            &&& args.contains("--kubeconfig="@ + c.kubeconfig@)
            &&& (c.private_key_passphrase matches Some(pw) ==> passes_option(args, "--password"@, pw@))
        }),
{
    let p = spec_flux_plan(c)->Ok_0;
    let k = flux_install_count(c);
    let a = spec_bootstrap_args(c, c.private_key_bootstrap_path->0@);
    assert(p[k] == flux_op(
        "flux_bootstrap_git"@,
        "Flux bootstrap git (SSH deploy key; commits manifests and configures cluster)"@,
        a,
        c,
    ));
    let off: int = if c.kube_elevated { 1 } else { 0 };
    let args = shell_args(p[k]);
    assert(forall|t: int| 0 <= t < a.len() ==> args[t + off] == a[t] && 0 <= t + off < args.len());
    assert(args[2 + off] == a[2]);
    assert(args[3 + off] == a[3]);
    assert(args[4 + off] == a[4]);
    assert(args[5 + off] == a[5]);
    assert(args[6 + off] == a[6]);
    assert(args[7 + off] == a[7]);
    if c.private_key_passphrase is Some {
        assert(a[9] == "--password"@);
        assert(option_at(args, "--password"@, c.private_key_passphrase->0@, 9 + off));
    }
}

} // verus!
