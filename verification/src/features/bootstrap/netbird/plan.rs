//! The ordered operations of the NetBird bootstrap.

use vstd::prelude::*;
use crate::cli::NetbirdInstallMethod;
use crate::common::argv::{
    args1, args3, args4, env_has, env_pair, flag_env, lemma_env_pair_concat, lemma_env_pair_flag, lemma_env_pair_opt,
    lemma_env_pair_single, lit, no_env, opt_env, push_arg, push_env, push_flag_env, push_opt_env,
};
use crate::common::operation::{
    OperationKindView, OutputCheck, OutputCheckView, PlanError, PlannedOperation, PlannedOperationView, checked_op, new_plan, plan_view,
    push_operation, shell_op, shell_operation, with_output_check,
};
use crate::common::elevation::PrivilegeContext;
use crate::common::operation::OperationStatus;
use crate::runner::{CommandOutput, CommandRunner, IoMode, RunnerCall, RunnerError, command_call, run_outcome_ok};
use crate::text::contains_text;
use super::input::BootstrapNetbirdConfig;

verus! {

pub open spec fn download_netbird_op(path: Seq<char>) -> PlannedOperationView {
    shell_op(
        "download_official_install_script"@,
        "Download official NetBird install.sh from pkgs.netbird.io"@,
        "curl"@,
        seq!["-fsSL"@, "-o"@, path, "https://pkgs.netbird.io/install.sh"@],
        seq![],
        false,
    )
}

/// Environment of the install script: release, UI skip, GitHub token, and the
/// install-method switch (`USE_BIN_INSTALL=true` or `DEBIAN_FRONTEND=noninteractive`).
pub open spec fn spec_netbird_install_env(c: BootstrapNetbirdConfig) -> Seq<(Seq<char>, Seq<char>)> {
    seq![("NETBIRD_RELEASE"@, c.release@)] + flag_env("SKIP_UI_APP"@, c.skip_ui) + opt_env("GITHUB_TOKEN"@, c.github_token)
        + match c.install_method {
        NetbirdInstallMethod::Binary => seq![("USE_BIN_INSTALL"@, "true"@)],
        NetbirdInstallMethod::Package => seq![("DEBIAN_FRONTEND"@, "noninteractive"@)],
    }
}

pub open spec fn run_netbird_install_op(path: Seq<char>, env: Seq<(Seq<char>, Seq<char>)>) -> PlannedOperationView {
    shell_op(
        "run_official_install_script"@,
        "Execute official NetBird install.sh (delegates to apt/dnf/yum or binary upstream)"@,
        "sh"@,
        seq![path],
        env,
        false,
    )
}

/// A flag followed by its value, when the value is present.
pub open spec fn opt_flag(flag: Seq<char>, value: Option<String>) -> Seq<Seq<char>> {
    match value {
        Some(v) => seq![flag, v@],
        None => seq![],
    }
}

/// `netbird up` with the optional setup key and management URL.
pub open spec fn spec_up_args(c: BootstrapNetbirdConfig) -> Seq<Seq<char>> {
    seq!["up"@] + opt_flag("--setup-key"@, c.setup_key) + opt_flag("--management-url"@, c.management_url)
}

pub open spec fn netbird_up_op(args: Seq<Seq<char>>) -> PlannedOperationView {
    shell_op("netbird_up"@, "Join NetBird network (official `netbird up` CLI)"@, "netbird"@, args, seq![], false)
}

/// The connectivity check: `netbird status`, which succeeds only when its output
/// shows both `Management: Connected` and `Signal: Connected`.
pub open spec fn netbird_status_op() -> PlannedOperationView {
    checked_op(
        shell_op("netbird_status"@, "Verify NetBird client status"@, "netbird"@, seq!["status"@], seq![], false),
        OutputCheckView::ContainsAll(seq!["Management: Connected"@, "Signal: Connected"@]),
    )
}

/// The runner call of the connectivity check.
pub open spec fn netbird_status_call(privilege: PrivilegeContext, io_mode: IoMode) -> RunnerCall {
    command_call(privilege, "netbird"@, seq!["status"@], seq![], None, io_mode)
}

/// The connectivity check reports success only for an outcome of its call that
/// exited successfully and showed both `Management: Connected` and
/// `Signal: Connected`.
pub proof fn law_netbird_status_needs_both_connections<R: CommandRunner>(
    runner: &R,
    privilege: PrivilegeContext,
    io_mode: IoMode,
)
    requires
        run_outcome_ok(runner, netbird_status_op(), privilege, io_mode, OperationStatus::Succeeded),
    ensures
        exists|o: Result<CommandOutput, RunnerError>|
            #[trigger] runner.outcome_possible(netbird_status_call(privilege, io_mode), o) && (o matches Ok(out) && out.success
                && contains_text(out.stdout@, "Management: Connected"@) && contains_text(out.stdout@, "Signal: Connected"@)),
{
    let texts = seq!["Management: Connected"@, "Signal: Connected"@];
    assert(texts[0] == "Management: Connected"@);
    assert(texts[1] == "Signal: Connected"@);
}

/// Builds the connectivity check of [`netbird_status_op`].
fn netbird_status_operation() -> (op: PlannedOperation)
    ensures
        op@ == netbird_status_op(),
{
    let op = shell_operation("netbird_status", "Verify NetBird client status", "netbird", args1(lit("status")), no_env(), false);
    let mut expected: Vec<String> = Vec::new();
    expected.push(lit("Management: Connected"));
    expected.push(lit("Signal: Connected"));
    assert(expected.deep_view() =~= seq!["Management: Connected"@, "Signal: Connected"@]);
    with_output_check(op, OutputCheck::ContainsAll(expected))
}

pub open spec fn wt0_op() -> PlannedOperationView {
    shell_op(
        "verify_wt0_interface"@,
        "Check for wt0 interface (optional; may be absent until fully connected)"@,
        "ip"@,
        seq!["link"@, "show"@, "wt0"@],
        seq![],
        true,
    )
}

/// The NetBird plan: download and run the install script, `netbird up`,
/// `netbird status`, and a warning-only check of the `wt0` interface.
pub open spec fn spec_netbird_plan(c: BootstrapNetbirdConfig) -> Seq<PlannedOperationView> {
    seq![
        download_netbird_op(c.install_script_path@),
        run_netbird_install_op(c.install_script_path@, spec_netbird_install_env(c)),
        netbird_up_op(spec_up_args(c)),
        netbird_status_op(),
        wt0_op(),
    ]
}

fn push_opt_flag(args: &mut Vec<String>, flag: &str, value: &Option<String>)
    ensures
        final(args).deep_view() == old(args).deep_view() + opt_flag(flag@, *value),
{
    match value {
        Some(v) => {
            push_arg(args, lit(flag));
            push_arg(args, v.clone());
        },
        None => {},
    }
    assert(final(args).deep_view() =~= old(args).deep_view() + opt_flag(flag@, *value));
}

/// Builds the NetBird plan (never fails: the install path is already text).
pub fn build_plan(config: &BootstrapNetbirdConfig) -> (r: Result<Vec<PlannedOperation>, PlanError>)
    ensures
        r matches Ok(ops) && plan_view(ops@) == spec_netbird_plan(*config),
{
    let path = config.install_script_path.clone();
    let mut ops = new_plan();
    push_operation(
        &mut ops,
        shell_operation(
            "download_official_install_script",
            "Download official NetBird install.sh from pkgs.netbird.io",
            "curl",
            args4(lit("-fsSL"), lit("-o"), path.clone(), lit("https://pkgs.netbird.io/install.sh")),
            no_env(),
            false,
        ),
    );
    let mut env = no_env();
    push_env(&mut env, lit("NETBIRD_RELEASE"), config.release.clone());
    push_flag_env(&mut env, "SKIP_UI_APP", config.skip_ui);
    push_opt_env(&mut env, "GITHUB_TOKEN", &config.github_token);
    match config.install_method {
        NetbirdInstallMethod::Binary => push_env(&mut env, lit("USE_BIN_INSTALL"), lit("true")),
        NetbirdInstallMethod::Package => push_env(&mut env, lit("DEBIAN_FRONTEND"), lit("noninteractive")),
    }
    assert(env.deep_view() =~= spec_netbird_install_env(*config));
    push_operation(
        &mut ops,
        shell_operation(
            "run_official_install_script",
            "Execute official NetBird install.sh (delegates to apt/dnf/yum or binary upstream)",
            "sh",
            args1(path),
            env,
            false,
        ),
    );
    let mut up_args = args1(lit("up"));
    push_opt_flag(&mut up_args, "--setup-key", &config.setup_key);
    push_opt_flag(&mut up_args, "--management-url", &config.management_url);
    assert(up_args.deep_view() =~= spec_up_args(*config));
    push_operation(
        &mut ops,
        shell_operation("netbird_up", "Join NetBird network (official `netbird up` CLI)", "netbird", up_args, no_env(), false),
    );
    push_operation(
        &mut ops,
        netbird_status_operation(),
    );
    push_operation(
        &mut ops,
        shell_operation(
            "verify_wt0_interface",
            "Check for wt0 interface (optional; may be absent until fully connected)",
            "ip",
            args3(lit("link"), lit("show"), lit("wt0")),
            no_env(),
            true,
        ),
    );
    assert(plan_view(ops@) =~= spec_netbird_plan(*config));
    Ok(ops)
}

/// The install method decides exactly one switch of the install script: the
/// binary install sets `USE_BIN_INSTALL` and never `DEBIAN_FRONTEND`, the package
/// install the reverse; the release is always passed.
pub proof fn law_netbird_install_method_switch(c: BootstrapNetbirdConfig)
    ensures
        env_has(spec_netbird_install_env(c), "NETBIRD_RELEASE"@),
        env_has(spec_netbird_install_env(c), "USE_BIN_INSTALL"@) <==> c.install_method == NetbirdInstallMethod::Binary,
        env_has(spec_netbird_install_env(c), "DEBIAN_FRONTEND"@) <==> c.install_method == NetbirdInstallMethod::Package,
{
    reveal_strlit("NETBIRD_RELEASE");
    reveal_strlit("SKIP_UI_APP");
    reveal_strlit("GITHUB_TOKEN");
    reveal_strlit("USE_BIN_INSTALL");
    reveal_strlit("DEBIAN_FRONTEND");
    assert("NETBIRD_RELEASE"@.len() == 15);
    assert("SKIP_UI_APP"@.len() == 11);
    assert("GITHUB_TOKEN"@.len() == 12);
    assert("USE_BIN_INSTALL"@.len() == 15);
    assert("DEBIAN_FRONTEND"@.len() == 15);
    assert("USE_BIN_INSTALL"@[0] != "DEBIAN_FRONTEND"@[0]);
    assert("USE_BIN_INSTALL"@[0] != "NETBIRD_RELEASE"@[0]);
    assert("DEBIAN_FRONTEND"@[0] != "NETBIRD_RELEASE"@[0]);
    let e = spec_netbird_install_env(c);
    let a = seq![("NETBIRD_RELEASE"@, c.release@)];
    let b = flag_env("SKIP_UI_APP"@, c.skip_ui);
    let g = opt_env("GITHUB_TOKEN"@, c.github_token);
    let m: Seq<(Seq<char>, Seq<char>)> = match c.install_method {
        NetbirdInstallMethod::Binary => seq![("USE_BIN_INSTALL"@, "true"@)],
        NetbirdInstallMethod::Package => seq![("DEBIAN_FRONTEND"@, "noninteractive"@)],
    };
    assert(e[0] == a[0]);
    assert(e[e.len() - 1] == m[0]);
    assert forall|i: int| 0 <= i < e.len() - 1 implies e[i].0 != "USE_BIN_INSTALL"@ && e[i].0 != "DEBIAN_FRONTEND"@ by {
        if i == 0 {
        } else if i < 1 + b.len() {
            assert(e[i] == b[i - 1]);
        } else {
            assert(e[i] == g[i - 1 - b.len()]);
        }
    }
}

/// The install script gets `GITHUB_TOKEN=t` exactly when the token `t` is given:
/// a given token always reaches it, and no other value is passed under that name.
pub proof fn law_netbird_github_token_reaches_installer(c: BootstrapNetbirdConfig)
    ensures
        ({
            let op = spec_netbird_plan(c)[1];
            &&& op.id == "run_official_install_script"@
            &&& op.kind is Shell
            &&& forall|t: Seq<char>|
                #[trigger] env_pair(op.kind->Shell_env, "GITHUB_TOKEN"@, t) <==> (c.github_token matches Some(g) && g@ == t)
        }),
{
    reveal_strlit("NETBIRD_RELEASE");
    reveal_strlit("SKIP_UI_APP");
    reveal_strlit("GITHUB_TOKEN");
    reveal_strlit("USE_BIN_INSTALL");
    reveal_strlit("DEBIAN_FRONTEND");
    assert("NETBIRD_RELEASE"@.len() == 15);
    assert("SKIP_UI_APP"@.len() == 11);
    assert("GITHUB_TOKEN"@.len() == 12);
    assert("USE_BIN_INSTALL"@.len() == 15);
    assert("DEBIAN_FRONTEND"@.len() == 15);
    let e = spec_netbird_install_env(c);
    assert(spec_netbird_plan(c)[1] == run_netbird_install_op(c.install_script_path@, e));
    let r = seq![("NETBIRD_RELEASE"@, c.release@)];
    let u = flag_env("SKIP_UI_APP"@, c.skip_ui);
    let g = opt_env("GITHUB_TOKEN"@, c.github_token);
    let m = match c.install_method {
        NetbirdInstallMethod::Binary => seq![("USE_BIN_INSTALL"@, "true"@)],
        NetbirdInstallMethod::Package => seq![("DEBIAN_FRONTEND"@, "noninteractive"@)],
    };
    assert(e == r + u + g + m);
    assert forall|t: Seq<char>|
        #[trigger] env_pair(e, "GITHUB_TOKEN"@, t) <==> (c.github_token matches Some(gt) && gt@ == t) by {
        let key = "GITHUB_TOKEN"@;
        lemma_env_pair_concat(r + u + g, m, key, t);
        lemma_env_pair_concat(r + u, g, key, t);
        lemma_env_pair_concat(r, u, key, t);
        lemma_env_pair_single("NETBIRD_RELEASE"@, c.release@, key, t);
        lemma_env_pair_flag("SKIP_UI_APP"@, c.skip_ui, key, t);
        lemma_env_pair_opt(key, c.github_token, key, t);
        match c.install_method {
            NetbirdInstallMethod::Binary => lemma_env_pair_single("USE_BIN_INSTALL"@, "true"@, key, t),
            NetbirdInstallMethod::Package => lemma_env_pair_single("DEBIAN_FRONTEND"@, "noninteractive"@, key, t),
        }
    }
}

/// The install script is downloaded from pkgs.netbird.io to the configured path
/// and run from there with `sh`; its environment sets exactly the release, the UI
/// skip (as `true`) when asked for, the GitHub token when given, and the
/// install-method switch: `USE_BIN_INSTALL=true` for a binary install,
/// `DEBIAN_FRONTEND=noninteractive` for a package install.
pub proof fn law_netbird_install_steps(c: BootstrapNetbirdConfig, key: Seq<char>, value: Seq<char>)
    ensures
        spec_netbird_plan(c)[0].kind == (OperationKindView::Shell {
            command: "curl"@,
            args: seq!["-fsSL"@, "-o"@, c.install_script_path@, "https://pkgs.netbird.io/install.sh"@],
            env: seq![],
            stdin_input: None,
        }),
        spec_netbird_plan(c)[1].kind is Shell,
        spec_netbird_plan(c)[1].kind->Shell_command == "sh"@,
        spec_netbird_plan(c)[1].kind->Shell_args == seq![c.install_script_path@],
        env_pair(spec_netbird_plan(c)[1].kind->Shell_env, key, value) <==> {
            ||| (key == "NETBIRD_RELEASE"@ && value == c.release@)
            ||| (c.skip_ui && key == "SKIP_UI_APP"@ && value == "true"@)
            ||| (c.github_token matches Some(t) && key == "GITHUB_TOKEN"@ && value == t@)
            ||| (c.install_method == NetbirdInstallMethod::Binary && key == "USE_BIN_INSTALL"@ && value == "true"@)
            ||| (c.install_method == NetbirdInstallMethod::Package && key == "DEBIAN_FRONTEND"@ && value
                == "noninteractive"@)
        },
{
    let e = spec_netbird_install_env(c);
    assert(spec_netbird_plan(c)[0] == download_netbird_op(c.install_script_path@));
    assert(spec_netbird_plan(c)[1] == run_netbird_install_op(c.install_script_path@, e));
    let r = seq![("NETBIRD_RELEASE"@, c.release@)];
    let u = flag_env("SKIP_UI_APP"@, c.skip_ui);
    let g = opt_env("GITHUB_TOKEN"@, c.github_token);
    let m = match c.install_method {
        NetbirdInstallMethod::Binary => seq![("USE_BIN_INSTALL"@, "true"@)],
        NetbirdInstallMethod::Package => seq![("DEBIAN_FRONTEND"@, "noninteractive"@)],
    };
    assert(e == r + u + g + m);
    lemma_env_pair_concat(r + u + g, m, key, value);
    lemma_env_pair_concat(r + u, g, key, value);
    lemma_env_pair_concat(r, u, key, value);
    lemma_env_pair_single("NETBIRD_RELEASE"@, c.release@, key, value);
    lemma_env_pair_flag("SKIP_UI_APP"@, c.skip_ui, key, value);
    lemma_env_pair_opt("GITHUB_TOKEN"@, c.github_token, key, value);
    match c.install_method {
        NetbirdInstallMethod::Binary => lemma_env_pair_single("USE_BIN_INSTALL"@, "true"@, key, value),
        NetbirdInstallMethod::Package => lemma_env_pair_single("DEBIAN_FRONTEND"@, "noninteractive"@, key, value),
    }
}

/// The join runs `netbird up`, passing `--setup-key k` exactly when the setup key
/// `k` is given and `--management-url m` exactly when the management URL `m` is
/// given, after which `netbird status` is checked.
pub proof fn law_netbird_join_arguments(c: BootstrapNetbirdConfig)
    ensures
        spec_netbird_plan(c)[2].kind is Shell,
        spec_netbird_plan(c)[2].kind->Shell_command == "netbird"@,
        spec_netbird_plan(c)[2].kind->Shell_args == seq!["up"@] + (match c.setup_key {
            Some(k) => seq!["--setup-key"@, k@],
            None => seq![],
        }) + (match c.management_url {
            Some(m) => seq!["--management-url"@, m@],
            None => seq![],
        }),
        spec_netbird_plan(c)[3].kind->Shell_command == "netbird"@,
        spec_netbird_plan(c)[3].kind->Shell_args == seq!["status"@],
{
    assert(spec_netbird_plan(c)[2] == netbird_up_op(spec_up_args(c)));
    assert(spec_netbird_plan(c)[3] == netbird_status_op());
}

} // verus!
