use heimdall::cli::NetbirdInstallMethod;
use heimdall::common::operation::{OperationKind, OperationStatus};
use heimdall::features::bootstrap::netbird::execute::execute_plan;
use heimdall::features::bootstrap::netbird::input::BootstrapNetbirdConfig;
use heimdall::runner::{CommandOutput, CommandRunner, IoMode, RunnerError};
use heimdall::features::bootstrap::netbird::plan::build_plan;
use heimdall::features::bootstrap::netbird::validate::validate_management_url;

fn sample(method: NetbirdInstallMethod) -> BootstrapNetbirdConfig {
    BootstrapNetbirdConfig {
        install_script_path: "/tmp/heimdall-netbird-test.sh".to_string(),
        skip_ui: true,
        release: "latest".to_string(),
        install_method: method,
        github_token: None,
        setup_key: Some("secret-setup-key".to_string()),
        management_url: Some("https://netbird.example:443".to_string()),
        dry_run: false,
    }
}

#[test]
fn plan_downloads_official_script_and_runs_install_with_release_env() {
    let plan = build_plan(&sample(NetbirdInstallMethod::Binary)).expect("plan");
    let dl = plan.first().expect("download step");
    assert_eq!(dl.id, "download_official_install_script");
    if let OperationKind::Shell { args, .. } = &dl.kind {
        assert!(args.contains(&"https://pkgs.netbird.io/install.sh".to_string()));
    } else {
        panic!("expected Shell kind");
    }
    let inst = plan.get(1).expect("install step");
    assert_eq!(inst.id, "run_official_install_script");
    if let OperationKind::Shell { env, .. } = &inst.kind {
        assert!(env.iter().any(|(k, v)| k == "NETBIRD_RELEASE" && v == "latest"));
        assert!(env.iter().any(|(k, v)| k == "SKIP_UI_APP" && v == "true"));
        assert!(env.iter().any(|(k, v)| k == "USE_BIN_INSTALL" && v == "true"));
    } else {
        panic!("expected Shell kind");
    }
}

#[test]
fn plan_package_install_sets_debian_frontend_not_use_bin() {
    let plan = build_plan(&sample(NetbirdInstallMethod::Package)).expect("plan");
    let inst = plan.get(1).expect("install step");
    if let OperationKind::Shell { env, .. } = &inst.kind {
        assert!(env.iter().any(|(k, v)| k == "DEBIAN_FRONTEND" && v == "noninteractive"));
        assert!(!env.iter().any(|(k, _)| k == "USE_BIN_INSTALL"));
    } else {
        panic!("expected Shell kind");
    }
}

#[test]
fn plan_netbird_up_includes_setup_key_and_management_url() {
    let plan = build_plan(&sample(NetbirdInstallMethod::Binary)).expect("plan");
    let up = plan.iter().find(|s| s.id == "netbird_up").expect("up");
    if let OperationKind::Shell { args, .. } = &up.kind {
        let pos = args.iter().position(|a| a == "--setup-key").expect("--setup-key");
        assert!(!args[pos + 1].is_empty());
        let mpos = args.iter().position(|a| a == "--management-url").expect("--management-url");
        assert_eq!(args[mpos + 1], "https://netbird.example:443");
    } else {
        panic!("expected Shell kind");
    }
}

#[test]
fn rejects_non_http_management_url() {
    assert!(validate_management_url("ftp://x").is_err());
}

#[test]
fn accepts_https_management_url() {
    assert!(validate_management_url("https://netbird.example:443").is_ok());
}

#[test]
fn management_url_error_messages() {
    assert_eq!(validate_management_url("  ").unwrap_err().message(), "management URL must not be empty");
    assert_eq!(
        validate_management_url("ftp://x").unwrap_err().message(),
        "management URL must start with http:// or https://"
    );
}

struct StatusRunner {
    status_stdout: &'static str,
}

impl CommandRunner for StatusRunner {
    fn run_with_env_io(
        &self,
        program: &str,
        args: &Vec<String>,
        _env: &Vec<(String, String)>,
        _mode: IoMode,
    ) -> Result<CommandOutput, RunnerError> {
        let is_status = args.iter().any(|a| a == "status") && args.iter().any(|a| a == "netbird") || program == "netbird" && args.first().map(|a| a == "status").unwrap_or(false);
        let stdout = if is_status { self.status_stdout.to_string() } else { String::new() };
        Ok(CommandOutput { success: true, stdout, stderr: String::new() })
    }

    fn run_with_stdin(
        &self,
        _program: &str,
        _args: &Vec<String>,
        _env: &Vec<(String, String)>,
        _stdin_data: &str,
        _mode: IoMode,
    ) -> Result<CommandOutput, RunnerError> {
        Ok(CommandOutput { success: true, stdout: String::new(), stderr: String::new() })
    }
}

fn status_of(report: &heimdall::features::bootstrap::netbird::report::BootstrapNetbirdReport, id: &str) -> OperationStatus {
    report.operations.iter().find(|r| r.id == id).expect("step").status
}

#[test]
fn status_check_needs_management_and_signal_connected() {
    let c = sample(NetbirdInstallMethod::Binary);
    let plan = build_plan(&c).unwrap();
    let connected = "Daemon status: Connected\nManagement: Connected\nSignal: Connected\n";
    let report = execute_plan(&StatusRunner { status_stdout: connected }, &c, &plan, IoMode::Buffered);
    assert_eq!(status_of(&report, "netbird_status"), OperationStatus::Succeeded);
    assert!(!report.has_failures());

    let half = "Management: Connected\nSignal: Disconnected\n";
    let report = execute_plan(&StatusRunner { status_stdout: half }, &c, &plan, IoMode::Buffered);
    assert_eq!(status_of(&report, "netbird_status"), OperationStatus::Failed);
    assert_eq!(report.operations.last().unwrap().id, "netbird_status");

    let report = execute_plan(&StatusRunner { status_stdout: "Signal: Connected\n" }, &c, &plan, IoMode::Buffered);
    assert_eq!(status_of(&report, "netbird_status"), OperationStatus::Failed);
}
