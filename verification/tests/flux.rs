use heimdall::cli::{BootstrapFluxCommand, OutputFormat};
use heimdall::common::operation::OperationKind;
use heimdall::features::bootstrap::flux::command::{
    bootstrap_key_source, ephemeral_key_cleanup, BootstrapKeySource, FluxCommandError,
};
use heimdall::features::bootstrap::flux::input::{
    branch_from_opts_and_env, branch_from_prompt, cluster_path_from_opts_and_env, git_url_from_opts_and_env,
    namespace_probe_command, parse_default_branch_from_ls_remote, resolve_branch_with, BootstrapFluxConfig,
};
use heimdall::features::bootstrap::flux::plan::{build_plan, sudo_wrap_flux, FLUX_SYNC_NAME};
use heimdall::features::bootstrap::flux::validate::{
    finalize_flux_git_url, normalize_ssh_git_url_for_flux, validate_ssh_git_url,
};

fn flux_cmd(url: Option<&str>, path: Option<&str>) -> BootstrapFluxCommand {
    BootstrapFluxCommand {
        url: url.map(String::from),
        branch: None,
        path: path.map(String::from),
        namespace: None,
        kubeconfig: None,
        private_key_file: None,
        private_key_passphrase: None,
        install_script_url: None,
        keep_generated_key: None,
        force: false,
        dry_run: false,
        yes: true,
        output: OutputFormat::Human,
    }
}

fn base_config() -> BootstrapFluxConfig {
    BootstrapFluxConfig {
        install_script_path: "/tmp/flux-install.sh".to_string(),
        install_script_url: "https://fluxcd.io/install.sh".to_string(),
        git_url: "ssh://git@gitlab.com/g/r.git".to_string(),
        branch: "main".to_string(),
        cluster_path: "clusters/x".to_string(),
        namespace: "flux-system".to_string(),
        kubeconfig: "/kube".to_string(),
        dry_run: false,
        force: false,
        skip_flux_cli_install: false,
        namespace_exists: false,
        byok_private_key: None,
        private_key_bootstrap_path: Some("/tmp/priv".to_string()),
        ephemeral_key_pair_root: None,
        ephemeral_key_generated: false,
        private_key_passphrase: None,
        keep_generated_key_dir: None,
        kube_elevated: false,
    }
}

#[test]
fn git_url_from_opts_trims_flag() {
    assert_eq!(
        git_url_from_opts_and_env(&flux_cmd(Some("  ssh://git@x/y.git  "), None), None).as_deref(),
        Some("ssh://git@x/y.git")
    );
}

#[test]
fn git_url_from_opts_none_when_missing() {
    assert!(git_url_from_opts_and_env(&flux_cmd(None, None), None).is_none());
}

#[test]
fn git_url_falls_back_to_environment() {
    assert_eq!(
        git_url_from_opts_and_env(&flux_cmd(None, None), Some(" git@h:o/r.git ".to_string())).as_deref(),
        Some("git@h:o/r.git")
    );
    assert!(git_url_from_opts_and_env(&flux_cmd(None, None), Some("   ".to_string())).is_none());
}

#[test]
fn branch_from_opts_trims_flag() {
    let mut cmd = flux_cmd(None, None);
    cmd.branch = Some("  master  ".to_string());
    assert_eq!(branch_from_opts_and_env(&cmd, None).as_deref(), Some("master"));
}

#[test]
fn parse_default_branch_from_symref_output() {
    let stdout = "ref: refs/heads/master\tHEAD\n0123456789abcdef\tHEAD\n";
    assert_eq!(parse_default_branch_from_ls_remote(stdout).as_deref(), Some("master"));
}

#[test]
fn parse_default_branch_edge_cases() {
    assert_eq!(parse_default_branch_from_ls_remote(""), None);
    assert_eq!(parse_default_branch_from_ls_remote("0123\tHEAD\n"), None);
    assert_eq!(parse_default_branch_from_ls_remote("ref: refs/heads/dev\tHEAD"), Some("dev".to_string()));
    assert_eq!(parse_default_branch_from_ls_remote("ref: refs/heads/dev\tHEAD\r\n"), Some("dev".to_string()));
    assert_eq!(parse_default_branch_from_ls_remote("ref: refs/heads/dev\tmain\n"), None);
    assert_eq!(
        parse_default_branch_from_ls_remote("abc\tHEAD\nref: refs/heads/trunk\tHEAD\n"),
        Some("trunk".to_string())
    );
}

#[test]
fn resolve_branch_prefers_explicit_over_detection() {
    let mut cmd = flux_cmd(None, None);
    cmd.branch = Some("main".to_string());
    let branch = resolve_branch_with(&cmd, None, "ssh://git@x/y.git", false, |_: &str| Some("master".to_string()))
        .expect("branch");
    assert_eq!(branch.as_deref(), Some("main"));
}

#[test]
fn resolve_branch_uses_detected_remote_default() {
    let cmd = flux_cmd(None, None);
    let branch = resolve_branch_with(&cmd, None, "ssh://git@x/y.git", false, |_: &str| Some("master".to_string()))
        .expect("branch");
    assert_eq!(branch.as_deref(), Some("master"));
}

#[test]
fn resolve_branch_non_interactive_fails_when_undetected() {
    let cmd = flux_cmd(None, None);
    let err = resolve_branch_with(&cmd, None, "ssh://git@x/y.git", false, |_: &str| None).expect_err("must fail");
    let msg = err.message();
    assert!(msg.contains("Flux branch not set"));
    assert!(msg.contains("--branch"));
    assert!(msg.contains("FLUX_GIT_BRANCH"));
}

#[test]
fn resolve_branch_interactive_asks_when_undetected() {
    let cmd = flux_cmd(None, None);
    let r = resolve_branch_with(&cmd, None, "ssh://git@x/y.git", true, |_: &str| None).expect("prompt");
    assert_eq!(r, None);
    assert_eq!(branch_from_prompt("   "), "main");
    assert_eq!(branch_from_prompt(" release "), "release");
}

#[test]
fn cluster_path_from_opts_trims_flag() {
    assert_eq!(
        cluster_path_from_opts_and_env(&flux_cmd(None, Some("  clusters/prod  ")), None).as_deref(),
        Some("clusters/prod")
    );
}

#[test]
fn cluster_path_from_opts_none_when_missing() {
    assert!(cluster_path_from_opts_and_env(&flux_cmd(None, None), None).is_none());
}

fn bootstrap_args(plan: &[heimdall::common::operation::PlannedOperation]) -> (String, Vec<String>, Vec<(String, String)>) {
    let op = plan.iter().find(|o| o.id == "flux_bootstrap_git").expect("bootstrap");
    match &op.kind {
        OperationKind::Shell { command, args, env, .. } => (command.clone(), args.clone(), env.clone()),
        _ => panic!("expected Shell kind"),
    }
}

#[test]
fn bootstrap_plan_includes_git_and_kubeconfig() {
    let plan = build_plan(&base_config()).expect("plan");
    let (_, args, env) = bootstrap_args(&plan);
    assert!(args.iter().any(|a| a.starts_with("--url=ssh://")));
    assert!(args.iter().any(|a| a.starts_with("--private-key-file=")));
    assert!(!args.iter().any(|a| a == "--token-auth"));
    assert!(args.contains(&"--silent".to_string()));
    assert!(env.iter().any(|(k, _)| k == "KUBECONFIG"));
}

#[test]
fn bootstrap_plan_wraps_flux_in_sudo_when_kube_elevated() {
    let mut c = base_config();
    c.kube_elevated = true;
    let plan = build_plan(&c).expect("plan");
    let (command, args, _) = bootstrap_args(&plan);
    assert_eq!(command, "sudo");
    assert_eq!(args.first().map(String::as_str), Some("flux"));
    assert!(args.contains(&"bootstrap".to_string()));
}

#[test]
fn reconcile_plan_targets_flux_system() {
    let mut c = base_config();
    c.namespace_exists = true;
    let plan = build_plan(&c).expect("plan");
    assert_eq!(plan.len(), 3);
    assert!(plan.iter().any(|o| o.id == "flux_reconcile_source_git"));
    let src = plan.first().expect("src");
    if let OperationKind::Shell { args, .. } = &src.kind {
        assert!(args.contains(&FLUX_SYNC_NAME.to_string()));
    } else {
        panic!("expected Shell kind");
    }
}

#[test]
fn skip_flux_install_omits_curl_bash() {
    let mut c = base_config();
    c.skip_flux_cli_install = true;
    let plan = build_plan(&c).expect("plan");
    assert!(!plan.iter().any(|o| o.id == "download_flux_install_script"));
    assert_eq!(plan.first().map(|o| o.id), Some("flux_bootstrap_git"));
}

#[test]
fn bootstrap_plan_normalizes_scp_git_url_for_flux_cli() {
    let mut c = base_config();
    c.git_url = "git@gitlab.com:futharkd/cluster.git".to_string();
    let plan = build_plan(&c).expect("plan");
    let (_, args, _) = bootstrap_args(&plan);
    assert!(args.iter().any(|a| a == "--url=ssh://git@gitlab.com/futharkd/cluster.git"));
}

#[test]
fn bootstrap_plan_exact_arguments_with_passphrase() {
    let mut c = base_config();
    c.private_key_passphrase = Some("pw".to_string());
    let plan = build_plan(&c).expect("plan");
    let ids: Vec<&str> = plan.iter().map(|o| o.id).collect();
    assert_eq!(
        ids,
        vec!["download_flux_install_script", "run_flux_install_script", "flux_bootstrap_git", "flux_get_kustomization"]
    );
    let (command, args, env) = bootstrap_args(&plan);
    assert_eq!(command, "flux");
    assert_eq!(
        args,
        vec![
            "bootstrap",
            "git",
            "--url=ssh://git@gitlab.com/g/r.git",
            "--private-key-file=/tmp/priv",
            "--branch=main",
            "--path=clusters/x",
            "--namespace=flux-system",
            "--kubeconfig=/kube",
            "--silent",
            "--password",
            "pw",
        ]
    );
    assert_eq!(env, vec![("KUBECONFIG".to_string(), "/kube".to_string())]);
}

#[test]
fn bootstrap_plan_without_key_is_refused() {
    let mut c = base_config();
    c.private_key_bootstrap_path = None;
    let err = build_plan(&c).unwrap_err();
    assert_eq!(err.message(), "internal error: missing private key path for Flux bootstrap");
}

#[test]
fn sudo_wrap_prefixes_flux() {
    let (cmd, args) = sudo_wrap_flux(vec!["version".to_string()], true);
    assert_eq!(cmd, "sudo");
    assert_eq!(args, vec!["flux", "version"]);
    let (cmd, args) = sudo_wrap_flux(vec!["version".to_string()], false);
    assert_eq!(cmd, "flux");
    assert_eq!(args, vec!["version"]);
}

#[test]
fn namespace_probe_uses_k3s_kubectl_under_sudo() {
    let (p, a) = namespace_probe_command("flux-system", true);
    assert_eq!(p, "sudo");
    assert_eq!(a, vec!["k3s", "kubectl", "get", "ns", "flux-system"]);
    let (p, a) = namespace_probe_command("flux-system", false);
    assert_eq!(p, "kubectl");
    assert_eq!(a, vec!["get", "ns", "flux-system"]);
}

#[test]
fn rejects_https() {
    assert!(validate_ssh_git_url("https://gitlab.com/a/b.git").is_err());
}

#[test]
fn accepts_ssh_scheme() {
    assert!(validate_ssh_git_url("ssh://git@gitlab.com/group/repo.git").is_ok());
}

#[test]
fn accepts_git_at_scp() {
    assert!(validate_ssh_git_url("git@github.com:org/repo.git").is_ok());
}

#[test]
fn validate_ssh_git_url_error_messages() {
    assert_eq!(validate_ssh_git_url("  ").unwrap_err().message(), "Git URL must not be empty");
    assert_eq!(
        validate_ssh_git_url("gitlab.com/a/b").unwrap_err().message(),
        "Git URL must start with ssh:// or use scp form git@host:path"
    );
}

#[test]
fn normalize_is_idempotent_on_concrete_urls() {
    let once = normalize_ssh_git_url_for_flux("  git@gitlab.com:g/r.git ");
    assert_eq!(once, "ssh://git@gitlab.com/g/r.git");
    assert_eq!(normalize_ssh_git_url_for_flux(&once), once);
    assert_eq!(finalize_flux_git_url(" ssh://git@h/r.git ").unwrap(), "ssh://git@h/r.git");
}

#[test]
fn key_source_prefers_user_key_then_dry_run_then_terminal() {
    let mut c = base_config();
    c.byok_private_key = Some("/home/me/.ssh/id".to_string());
    match bootstrap_key_source(&c, false).unwrap() {
        BootstrapKeySource::Provided(p) => assert_eq!(p, "/home/me/.ssh/id"),
        _ => panic!("expected the user's key"),
    }
    c.byok_private_key = None;
    c.dry_run = true;
    match bootstrap_key_source(&c, false).unwrap() {
        BootstrapKeySource::Provided(p) => assert_eq!(p, "/tmp/heimdall-flux-dryrun-private-key"),
        _ => panic!("expected the dry-run placeholder"),
    }
    c.dry_run = false;
    assert_eq!(bootstrap_key_source(&c, false).unwrap_err(), FluxCommandError::KeyNeedsTerminal);
    assert!(matches!(bootstrap_key_source(&c, true).unwrap(), BootstrapKeySource::GenerateEphemeral));
}

#[test]
fn generated_keys_are_kept_only_after_success() {
    let mut c = base_config();
    assert!(ephemeral_key_cleanup(&c, true).is_none());
    c.ephemeral_key_generated = true;
    c.ephemeral_key_pair_root = Some("/tmp/k".to_string());
    c.keep_generated_key_dir = Some("/keep".to_string());
    let ok = ephemeral_key_cleanup(&c, true).unwrap();
    assert_eq!(ok.private_key, "/tmp/k");
    assert_eq!(ok.keep_copy_in.as_deref(), Some("/keep"));
    let failed = ephemeral_key_cleanup(&c, false).unwrap();
    assert_eq!(failed.keep_copy_in, None);
}
