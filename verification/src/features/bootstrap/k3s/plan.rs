//! The ordered operations of the k3s bootstrap.

use vstd::prelude::*;
use crate::cli::K3sRole;
use crate::common::argv::{
    args1, args4, args5, env_has, env_pair, flag_env, lemma_env_pair_concat, lemma_env_pair_flag, lemma_env_pair_opt, lit,
    no_env, opt_env, push_flag_env, push_opt_env,
};
use crate::common::operation::{
    OperationKindView, OutputCheck, OutputCheckView, PlanError, PlannedOperation, PlannedOperationView, checked_op, new_plan, plan_has,
    plan_view, push_operation, shell_op, shell_operation, with_output_check,
};
use crate::common::elevation::PrivilegeContext;
use crate::common::operation::OperationStatus;
use crate::runner::{CommandOutput, CommandRunner, IoMode, RunnerCall, RunnerError, command_call, run_outcome_ok};
use crate::text::has_non_ws;
use super::input::BootstrapK3sConfig;

verus! {

/// The cluster check: `k3s kubectl get nodes -o name`, which succeeds only when its
/// output lists at least one node.
pub open spec fn kubectl_verify_op() -> PlannedOperationView {
    checked_op(
        shell_op(
            "k3s_kubectl_get_nodes"@,
            "Verify cluster API (`k3s kubectl get nodes -o name`)"@,
            "k3s"@,
            seq!["kubectl"@, "get"@, "nodes"@, "-o"@, "name"@],
            seq![],
            false,
        ),
        OutputCheckView::NonBlank,
    )
}

pub open spec fn download_k3s_op(path: Seq<char>) -> PlannedOperationView {
    shell_op(
        "download_official_install_script"@,
        "Download official k3s install script from get.k3s.io"@,
        "curl"@,
        seq!["-fsSL"@, "-o"@, path, "https://get.k3s.io"@],
        seq![],
        false,
    )
}

pub open spec fn run_k3s_install_op(path: Seq<char>, env: Seq<(Seq<char>, Seq<char>)>) -> PlannedOperationView {
    shell_op(
        "run_official_install_script"@,
        "Execute official k3s install script (delegates to systemd and upstream layout)"@,
        "sh"@,
        seq![path],
        env,
        false,
    )
}

/// Environment of the install script: version, extra args, skip flags, and for
/// agents the server URL and token.
pub open spec fn spec_k3s_install_env(c: BootstrapK3sConfig) -> Seq<(Seq<char>, Seq<char>)> {
    opt_env("INSTALL_K3S_VERSION"@, c.version) + opt_env("INSTALL_K3S_EXEC"@, c.install_exec) + flag_env(
        "INSTALL_K3S_SKIP_START"@,
        c.skip_start,
    ) + flag_env("INSTALL_K3S_SKIP_ENABLE"@, c.skip_enable) + if c.role == K3sRole::Agent {
        opt_env("K3S_URL"@, c.server_url) + opt_env("K3S_TOKEN"@, c.token)
    } else {
        seq![]
    }
}

/// The k3s plan: download and run the install script unless the install is
/// skipped, then verify the cluster API unless the service is not started.
pub open spec fn spec_k3s_plan(c: BootstrapK3sConfig) -> Seq<PlannedOperationView> {
    let install = if c.skip_install {
        seq![]
    } else {
        seq![download_k3s_op(c.install_script_path@), run_k3s_install_op(c.install_script_path@, spec_k3s_install_env(c))]
    };
    let verify = if c.skip_start { seq![] } else { seq![kubectl_verify_op()] };
    install + verify
}

fn kubectl_verify_operation() -> (op: PlannedOperation)
    ensures
        op@ == kubectl_verify_op(),
{
    let op = shell_operation(
        "k3s_kubectl_get_nodes",
        "Verify cluster API (`k3s kubectl get nodes -o name`)",
        "k3s",
        args5(lit("kubectl"), lit("get"), lit("nodes"), lit("-o"), lit("name")),
        no_env(),
        false,
    );
    with_output_check(op, OutputCheck::NonBlank)
}

/// Builds the k3s plan (never fails: the install path is already text).
pub fn build_plan(config: &BootstrapK3sConfig) -> (r: Result<Vec<PlannedOperation>, PlanError>)
    ensures
        r matches Ok(ops) && plan_view(ops@) == spec_k3s_plan(*config),
{
    let mut ops = new_plan();
    if config.skip_install {
        if !config.skip_start {
            push_operation(&mut ops, kubectl_verify_operation());
        }
        assert(plan_view(ops@) =~= spec_k3s_plan(*config));
        return Ok(ops);
    }
    let path = config.install_script_path.clone();
    let download = shell_operation(
        "download_official_install_script",
        "Download official k3s install script from get.k3s.io",
        "curl",
        args4(lit("-fsSL"), lit("-o"), path.clone(), lit("https://get.k3s.io")),
        no_env(),
        false,
    );
    let mut env = no_env();
    push_opt_env(&mut env, "INSTALL_K3S_VERSION", &config.version);
    push_opt_env(&mut env, "INSTALL_K3S_EXEC", &config.install_exec);
    push_flag_env(&mut env, "INSTALL_K3S_SKIP_START", config.skip_start);
    push_flag_env(&mut env, "INSTALL_K3S_SKIP_ENABLE", config.skip_enable);
    if config.role == K3sRole::Agent {
        push_opt_env(&mut env, "K3S_URL", &config.server_url);
        push_opt_env(&mut env, "K3S_TOKEN", &config.token);
    }
    assert(env.deep_view() =~= spec_k3s_install_env(*config));
    let run_install = shell_operation(
        "run_official_install_script",
        "Execute official k3s install script (delegates to systemd and upstream layout)",
        "sh",
        args1(path),
        env,
        false,
    );
    push_operation(&mut ops, download);
    push_operation(&mut ops, run_install);
    if !config.skip_start {
        push_operation(&mut ops, kubectl_verify_operation());
    }
    assert(plan_view(ops@) =~= spec_k3s_plan(*config));
    Ok(ops)
}

/// k3s plan invariants: the cluster check is there exactly when the service is
/// started, the download and install steps exactly when the install is not
/// skipped; skipping both leaves nothing to do.
pub proof fn law_k3s_plan_contents(c: BootstrapK3sConfig)
    ensures
        plan_has(spec_k3s_plan(c), "k3s_kubectl_get_nodes"@) <==> !c.skip_start,
        plan_has(spec_k3s_plan(c), "download_official_install_script"@) <==> !c.skip_install,
        plan_has(spec_k3s_plan(c), "run_official_install_script"@) <==> !c.skip_install,
        c.skip_install && c.skip_start ==> spec_k3s_plan(c).len() == 0,
{
    reveal_strlit("k3s_kubectl_get_nodes");
    reveal_strlit("download_official_install_script");
    reveal_strlit("run_official_install_script");
    assert("k3s_kubectl_get_nodes"@.len() == 21);
    assert("download_official_install_script"@.len() == 32);
    assert("run_official_install_script"@.len() == 27);
    let p = spec_k3s_plan(c);
    let install = if c.skip_install {
        seq![]
    } else {
        seq![download_k3s_op(c.install_script_path@), run_k3s_install_op(c.install_script_path@, spec_k3s_install_env(c))]
    };
    let verify = if c.skip_start { seq![] } else { seq![kubectl_verify_op()] };
    if !c.skip_install {
        assert(p[0] == download_k3s_op(c.install_script_path@));
        assert(p[1] == run_k3s_install_op(c.install_script_path@, spec_k3s_install_env(c)));
    }
    if !c.skip_start {
        assert(p[install.len() as int] == kubectl_verify_op());
    }
    assert forall|i: int| 0 <= i < p.len() implies
        (p[i].id == "k3s_kubectl_get_nodes"@ ==> !c.skip_start)
        && (p[i].id == "download_official_install_script"@ ==> !c.skip_install)
        && (p[i].id == "run_official_install_script"@ ==> !c.skip_install)
    by {
        if i < install.len() {
            assert(p[i] == install[i]);
        } else {
            assert(p[i] == verify[i - install.len()]);
        }
    }
}

/// The runner call of the cluster check.
pub open spec fn kubectl_verify_call(privilege: PrivilegeContext, io_mode: IoMode) -> RunnerCall {
    command_call(privilege, "k3s"@, seq!["kubectl"@, "get"@, "nodes"@, "-o"@, "name"@], seq![], None, io_mode)
}

/// The cluster check reports success only for an outcome of its call that exited
/// successfully and listed at least one node.
pub proof fn law_k3s_node_check_needs_a_node<R: CommandRunner>(runner: &R, privilege: PrivilegeContext, io_mode: IoMode)
    requires
        run_outcome_ok(runner, kubectl_verify_op(), privilege, io_mode, OperationStatus::Succeeded),
    ensures
        exists|o: Result<CommandOutput, RunnerError>|
            #[trigger] runner.outcome_possible(kubectl_verify_call(privilege, io_mode), o) && (o matches Ok(out) && out.success
                && has_non_ws(out.stdout@)),
{
}

/// The join URL and token reach the install script only for an agent.
pub proof fn law_k3s_join_env_only_for_agents(c: BootstrapK3sConfig)
    ensures
        env_has(spec_k3s_install_env(c), "K3S_TOKEN"@) ==> c.role == K3sRole::Agent,
        env_has(spec_k3s_install_env(c), "K3S_URL"@) ==> c.role == K3sRole::Agent,
        c.role == K3sRole::Agent && c.token is Some ==> env_has(spec_k3s_install_env(c), "K3S_TOKEN"@),
        c.role == K3sRole::Agent && c.server_url is Some ==> env_has(spec_k3s_install_env(c), "K3S_URL"@),
{
    reveal_strlit("INSTALL_K3S_VERSION");
    reveal_strlit("INSTALL_K3S_EXEC");
    reveal_strlit("INSTALL_K3S_SKIP_START");
    reveal_strlit("INSTALL_K3S_SKIP_ENABLE");
    reveal_strlit("K3S_URL");
    reveal_strlit("K3S_TOKEN");
    assert("INSTALL_K3S_VERSION"@.len() == 19);
    assert("INSTALL_K3S_EXEC"@.len() == 16);
    assert("INSTALL_K3S_SKIP_START"@.len() == 22);
    assert("INSTALL_K3S_SKIP_ENABLE"@.len() == 23);
    assert("K3S_URL"@.len() == 7);
    assert("K3S_TOKEN"@.len() == 9);
    let base = opt_env("INSTALL_K3S_VERSION"@, c.version) + opt_env("INSTALL_K3S_EXEC"@, c.install_exec) + flag_env(
        "INSTALL_K3S_SKIP_START"@,
        c.skip_start,
    ) + flag_env("INSTALL_K3S_SKIP_ENABLE"@, c.skip_enable);
    let join = opt_env("K3S_URL"@, c.server_url) + opt_env("K3S_TOKEN"@, c.token);
    let e = spec_k3s_install_env(c);
    assert forall|i: int| 0 <= i < base.len() implies base[i].0 != "K3S_TOKEN"@ && base[i].0 != "K3S_URL"@ by {
        let a = opt_env("INSTALL_K3S_VERSION"@, c.version);
        let b = opt_env("INSTALL_K3S_EXEC"@, c.install_exec);
        let s1 = flag_env("INSTALL_K3S_SKIP_START"@, c.skip_start);
        if i < a.len() {
        } else if i < a.len() + b.len() {
            assert(base[i] == b[i - a.len()]);
        } else if i < a.len() + b.len() + s1.len() {
            assert(base[i] == s1[i - a.len() - b.len()]);
        } else {
            assert(base[i] == flag_env("INSTALL_K3S_SKIP_ENABLE"@, c.skip_enable)[i - a.len() - b.len() - s1.len()]);
        }
    }
    if c.role != K3sRole::Agent {
        assert(e =~= base);
    } else {
        assert(e =~= base + join);
        if c.server_url is Some {
            assert(e[base.len() as int] == join[0]);
        }
        if c.token is Some {
            assert(e[e.len() - 1] == join[join.len() - 1]);
        }
    }
}

/// With the install planned, its script gets `INSTALL_K3S_SKIP_START=true` exactly
/// when starting is skipped and `INSTALL_K3S_SKIP_ENABLE=true` exactly when enabling
/// at boot is skipped: `--skip-enable` leaves k3s started, `--skip-start` leaves it
/// enabled.
pub proof fn law_k3s_skip_flags_reach_installer(c: BootstrapK3sConfig)
    requires
        !c.skip_install,
    ensures
        ({
            let op = spec_k3s_plan(c)[1];
            &&& op.id == "run_official_install_script"@
            &&& op.kind is Shell
            &&& (env_pair(op.kind->Shell_env, "INSTALL_K3S_SKIP_START"@, "true"@) <==> c.skip_start)
            &&& (env_pair(op.kind->Shell_env, "INSTALL_K3S_SKIP_ENABLE"@, "true"@) <==> c.skip_enable)
        }),
{
    reveal_strlit("INSTALL_K3S_VERSION");
    reveal_strlit("INSTALL_K3S_EXEC");
    reveal_strlit("INSTALL_K3S_SKIP_START");
    reveal_strlit("INSTALL_K3S_SKIP_ENABLE");
    reveal_strlit("K3S_URL");
    reveal_strlit("K3S_TOKEN");
    assert("INSTALL_K3S_VERSION"@.len() == 19);
    assert("INSTALL_K3S_EXEC"@.len() == 16);
    assert("INSTALL_K3S_SKIP_START"@.len() == 22);
    assert("INSTALL_K3S_SKIP_ENABLE"@.len() == 23);
    assert("K3S_URL"@.len() == 7);
    assert("K3S_TOKEN"@.len() == 9);
    let p = spec_k3s_plan(c);
    let e = spec_k3s_install_env(c);
    assert(p[1] == run_k3s_install_op(c.install_script_path@, e));
    let a = opt_env("INSTALL_K3S_VERSION"@, c.version);
    let b = opt_env("INSTALL_K3S_EXEC"@, c.install_exec);
    let s1 = flag_env("INSTALL_K3S_SKIP_START"@, c.skip_start);
    let s2 = flag_env("INSTALL_K3S_SKIP_ENABLE"@, c.skip_enable);
    let j = if c.role == K3sRole::Agent {
        opt_env("K3S_URL"@, c.server_url) + opt_env("K3S_TOKEN"@, c.token)
    } else {
        seq![]
    };
    assert(e == a + b + s1 + s2 + j);
    let keys = seq!["INSTALL_K3S_SKIP_START"@, "INSTALL_K3S_SKIP_ENABLE"@];
    assert forall|k: int| 0 <= k < 2 implies (env_pair(e, #[trigger] keys[k], "true"@) <==> (if k == 0 {
        c.skip_start
    } else {
        c.skip_enable
    })) by {
        let key = keys[k];
        lemma_env_pair_concat(a + b + s1 + s2, j, key, "true"@);
        lemma_env_pair_concat(a + b + s1, s2, key, "true"@);
        lemma_env_pair_concat(a + b, s1, key, "true"@);
        lemma_env_pair_concat(a, b, key, "true"@);
        lemma_env_pair_opt("INSTALL_K3S_VERSION"@, c.version, key, "true"@);
        lemma_env_pair_opt("INSTALL_K3S_EXEC"@, c.install_exec, key, "true"@);
        lemma_env_pair_flag("INSTALL_K3S_SKIP_START"@, c.skip_start, key, "true"@);
        lemma_env_pair_flag("INSTALL_K3S_SKIP_ENABLE"@, c.skip_enable, key, "true"@);
        if c.role == K3sRole::Agent {
            lemma_env_pair_concat(opt_env("K3S_URL"@, c.server_url), opt_env("K3S_TOKEN"@, c.token), key, "true"@);
            lemma_env_pair_opt("K3S_URL"@, c.server_url, key, "true"@);
            lemma_env_pair_opt("K3S_TOKEN"@, c.token, key, "true"@);
        }
    }
    assert(keys[0] == "INSTALL_K3S_SKIP_START"@);
    assert(keys[1] == "INSTALL_K3S_SKIP_ENABLE"@);
}

/// With the install planned, the script is downloaded from get.k3s.io to the
/// configured path and run from there with `sh`, and its environment sets exactly:
/// the pinned version, the extra install arguments, the two skip flags (as `true`)
/// when asked for, and for an agent the server URL and token; nothing else.
pub proof fn law_k3s_install_steps(c: BootstrapK3sConfig, key: Seq<char>, value: Seq<char>)
    requires
        !c.skip_install,
    ensures
        spec_k3s_plan(c)[0].kind == (OperationKindView::Shell {
            command: "curl"@,
            args: seq!["-fsSL"@, "-o"@, c.install_script_path@, "https://get.k3s.io"@],
            env: seq![],
            stdin_input: None,
        }),
        spec_k3s_plan(c)[1].kind is Shell,
        spec_k3s_plan(c)[1].kind->Shell_command == "sh"@,
        spec_k3s_plan(c)[1].kind->Shell_args == seq![c.install_script_path@],
        env_pair(spec_k3s_plan(c)[1].kind->Shell_env, key, value) <==> {
            ||| (c.version matches Some(v) && key == "INSTALL_K3S_VERSION"@ && value == v@)
            ||| (c.install_exec matches Some(x) && key == "INSTALL_K3S_EXEC"@ && value == x@)
            ||| (c.skip_start && key == "INSTALL_K3S_SKIP_START"@ && value == "true"@)
            ||| (c.skip_enable && key == "INSTALL_K3S_SKIP_ENABLE"@ && value == "true"@)
            ||| (c.role == K3sRole::Agent && (c.server_url matches Some(u) && key == "K3S_URL"@ && value == u@))
            ||| (c.role == K3sRole::Agent && (c.token matches Some(t) && key == "K3S_TOKEN"@ && value == t@))
        },
{
    let p = spec_k3s_plan(c);
    let e = spec_k3s_install_env(c);
    assert(p[0] == download_k3s_op(c.install_script_path@));
    assert(p[1] == run_k3s_install_op(c.install_script_path@, e));
    let a = opt_env("INSTALL_K3S_VERSION"@, c.version);
    let b = opt_env("INSTALL_K3S_EXEC"@, c.install_exec);
    let s1 = flag_env("INSTALL_K3S_SKIP_START"@, c.skip_start);
    let s2 = flag_env("INSTALL_K3S_SKIP_ENABLE"@, c.skip_enable);
    let j = if c.role == K3sRole::Agent {
        opt_env("K3S_URL"@, c.server_url) + opt_env("K3S_TOKEN"@, c.token)
    } else {
        seq![]
    };
    assert(e == a + b + s1 + s2 + j);
    lemma_env_pair_concat(a + b + s1 + s2, j, key, value);
    lemma_env_pair_concat(a + b + s1, s2, key, value);
    lemma_env_pair_concat(a + b, s1, key, value);
    lemma_env_pair_concat(a, b, key, value);
    lemma_env_pair_opt("INSTALL_K3S_VERSION"@, c.version, key, value);
    lemma_env_pair_opt("INSTALL_K3S_EXEC"@, c.install_exec, key, value);
    lemma_env_pair_flag("INSTALL_K3S_SKIP_START"@, c.skip_start, key, value);
    lemma_env_pair_flag("INSTALL_K3S_SKIP_ENABLE"@, c.skip_enable, key, value);
    if c.role == K3sRole::Agent {
        lemma_env_pair_concat(opt_env("K3S_URL"@, c.server_url), opt_env("K3S_TOKEN"@, c.token), key, value);
        lemma_env_pair_opt("K3S_URL"@, c.server_url, key, value);
        lemma_env_pair_opt("K3S_TOKEN"@, c.token, key, value);
    }
}

/// Unless starting is skipped, the plan ends with `k3s kubectl get nodes -o name`,
/// which counts as done only when its output lists something.
pub proof fn law_k3s_cluster_check_last(c: BootstrapK3sConfig)
    ensures
        !c.skip_start ==> ({
            let p = spec_k3s_plan(c);
            &&& p.len() > 0
            &&& p[p.len() - 1].kind == (OperationKindView::Shell {
                command: "k3s"@,
                args: seq!["kubectl"@, "get"@, "nodes"@, "-o"@, "name"@],
                env: seq![],
                stdin_input: None,
            })
            &&& p[p.len() - 1].output_check == OutputCheckView::NonBlank
        }),
{
    if !c.skip_start {
        let p = spec_k3s_plan(c);
        assert(p[p.len() - 1] == kubectl_verify_op());
    }
}

} // verus!
