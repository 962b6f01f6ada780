use heimdall::cli::K3sRole;
use heimdall::common::operation::{OperationKind, OperationStatus};
use heimdall::features::bootstrap::k3s::execute::execute_plan;
use heimdall::features::bootstrap::k3s::input::{probe_k3s_on_path, skip_install_when_present, BootstrapK3sConfig};
use heimdall::features::bootstrap::k3s::plan::build_plan;
use heimdall::features::bootstrap::k3s::validate::{validate_agent_inputs, validate_k3s_server_url};
use heimdall::runner::{CommandOutput, CommandRunner, IoMode, RunnerError};

struct MockProbe(bool);

impl CommandRunner for MockProbe {
    fn run_with_env_io(
        &self,
        program: &str,
        args: &Vec<String>,
        _env: &Vec<(String, String)>,
        _mode: IoMode,
    ) -> Result<CommandOutput, RunnerError> {
        if program == "sh" && args.len() >= 2 && args[0] == "-c" && args[1] == "command -v k3s >/dev/null 2>&1" {
            return Ok(CommandOutput { success: self.0, stdout: String::new(), stderr: String::new() });
        }
        Ok(CommandOutput { success: false, stdout: String::new(), stderr: String::new() })
    }

    fn run_with_stdin(
        &self,
        _program: &str,
        _args: &Vec<String>,
        _env: &Vec<(String, String)>,
        _stdin_data: &str,
        _mode: IoMode,
    ) -> Result<CommandOutput, RunnerError> {
        Ok(CommandOutput { success: false, stdout: String::new(), stderr: String::new() })
    }
}

fn server_config() -> BootstrapK3sConfig {
    BootstrapK3sConfig {
        install_script_path: "/tmp/heimdall-k3s-test.sh".to_string(),
        role: K3sRole::Server,
        server_url: None,
        token: None,
        version: Some("v1.30.1+k3s1".to_string()),
        install_exec: Some("--disable traefik".to_string()),
        skip_start: false,
        skip_enable: false,
        force: false,
        skip_install: false,
        dry_run: false,
    }
}

fn agent_config() -> BootstrapK3sConfig {
    BootstrapK3sConfig {
        install_script_path: "/tmp/heimdall-k3s-agent.sh".to_string(),
        role: K3sRole::Agent,
        server_url: Some("https://cp.example:6443".to_string()),
        token: Some("secret-agent-token".to_string()),
        version: None,
        install_exec: None,
        skip_start: false,
        skip_enable: false,
        force: false,
        skip_install: false,
        dry_run: false,
    }
}

fn env_of(op: &heimdall::common::operation::PlannedOperation) -> Vec<(String, String)> {
    match &op.kind {
        OperationKind::Shell { env, .. } => env.clone(),
        _ => panic!("expected Shell kind"),
    }
}

#[test]
fn probe_k3s_on_path_true_when_sh_probe_succeeds() {
    assert!(probe_k3s_on_path(&MockProbe(true)));
}

#[test]
fn probe_k3s_on_path_false_when_sh_probe_fails() {
    assert!(!probe_k3s_on_path(&MockProbe(false)));
}

#[test]
fn plan_downloads_get_k3s_io_and_sets_version_exec() {
    let plan = build_plan(&server_config()).expect("plan");
    let dl = plan.first().expect("download");
    assert_eq!(dl.id, "download_official_install_script");
    if let OperationKind::Shell { args, .. } = &dl.kind {
        assert!(args.contains(&"https://get.k3s.io".to_string()));
    } else {
        panic!("expected Shell kind");
    }
    let inst = plan.get(1).expect("install");
    assert_eq!(inst.id, "run_official_install_script");
    let env = env_of(inst);
    assert!(env.iter().any(|(k, v)| k == "INSTALL_K3S_VERSION" && v == "v1.30.1+k3s1"));
    assert!(env.iter().any(|(k, v)| k == "INSTALL_K3S_EXEC" && v == "--disable traefik"));
    assert!(!env.iter().any(|(k, _)| k == "K3S_TOKEN"));
}

#[test]
fn plan_agent_includes_k3s_url_and_token() {
    let plan = build_plan(&agent_config()).expect("plan");
    let env = env_of(plan.get(1).expect("install"));
    assert!(env.iter().any(|(k, v)| k == "K3S_URL" && v == "https://cp.example:6443"));
    assert!(env.iter().any(|(k, v)| k == "K3S_TOKEN" && v == "secret-agent-token"));
}

#[test]
fn plan_server_ignores_join_values() {
    let mut c = server_config();
    c.server_url = Some("https://cp.example:6443".to_string());
    c.token = Some("t".to_string());
    let env = env_of(build_plan(&c).expect("plan").get(1).expect("install"));
    assert!(!env.iter().any(|(k, _)| k == "K3S_URL" || k == "K3S_TOKEN"));
}

#[test]
fn plan_skip_start_omits_kubectl_verify() {
    let mut c = server_config();
    c.skip_start = true;
    let plan = build_plan(&c).expect("plan");
    assert_eq!(plan.len(), 2);
    assert!(!plan.iter().any(|o| o.id == "k3s_kubectl_get_nodes"));
}

#[test]
fn plan_sets_skip_flags_in_env() {
    let mut c = server_config();
    c.skip_start = true;
    c.skip_enable = true;
    let env = env_of(build_plan(&c).expect("plan").get(1).expect("install"));
    assert!(env.iter().any(|(k, v)| k == "INSTALL_K3S_SKIP_START" && v == "true"));
    assert!(env.iter().any(|(k, v)| k == "INSTALL_K3S_SKIP_ENABLE" && v == "true"));
}

#[test]
fn plan_skip_install_omits_download_and_install_keeps_verify() {
    let mut c = server_config();
    c.skip_install = true;
    let plan = build_plan(&c).expect("plan");
    assert_eq!(plan.len(), 1);
    assert_eq!(plan[0].id, "k3s_kubectl_get_nodes");
    assert!(!plan.iter().any(|o| o.id == "download_official_install_script"));
}

#[test]
fn plan_skip_install_and_skip_start_yields_empty_plan() {
    let mut c = server_config();
    c.skip_install = true;
    c.skip_start = true;
    let plan = build_plan(&c).expect("plan");
    assert!(plan.is_empty());
}

#[test]
fn rejects_http_url() {
    assert!(validate_k3s_server_url("http://x:6443").is_err());
}

#[test]
fn accepts_https_with_host() {
    assert!(validate_k3s_server_url("https://server:6443").is_ok());
}

#[test]
fn server_url_needs_host_and_text() {
    assert_eq!(validate_k3s_server_url("   ").unwrap_err().message(), "K3S server URL must not be empty");
    assert_eq!(validate_k3s_server_url("https:///x").unwrap_err().message(), "K3S server URL must include a host");
    assert!(validate_k3s_server_url("  https://h  ").is_ok());
}

#[test]
fn agent_requires_url_and_token() {
    assert!(validate_agent_inputs(K3sRole::Agent, None, Some("t")).is_err());
    assert!(validate_agent_inputs(K3sRole::Agent, Some("https://h:6443"), None).is_err());
    assert!(validate_agent_inputs(K3sRole::Agent, Some("https://h:6443"), Some("tok")).is_ok());
}

#[test]
fn server_skips_agent_validation() {
    assert!(validate_agent_inputs(K3sRole::Server, None, None).is_ok());
}

struct NodeLister {
    stdout: &'static str,
}

impl CommandRunner for NodeLister {
    fn run_with_env_io(
        &self,
        _program: &str,
        _args: &Vec<String>,
        _env: &Vec<(String, String)>,
        _mode: IoMode,
    ) -> Result<CommandOutput, RunnerError> {
        Ok(CommandOutput { success: true, stdout: self.stdout.to_string(), stderr: String::new() })
    }

    fn run_with_stdin(
        &self,
        _program: &str,
        _args: &Vec<String>,
        _env: &Vec<(String, String)>,
        _stdin_data: &str,
        _mode: IoMode,
    ) -> Result<CommandOutput, RunnerError> {
        Ok(CommandOutput { success: true, stdout: String::new(), stderr: String::new() })
    }
}

fn verify_only_config() -> BootstrapK3sConfig {
    let mut c = server_config();
    c.skip_install = true;
    c
}

#[test]
fn node_check_fails_when_no_node_is_listed() {
    let c = verify_only_config();
    let plan = build_plan(&c).unwrap();
    let report = execute_plan(&NodeLister { stdout: "\n  \n" }, &c, &plan, IoMode::Buffered);
    assert_eq!(report.operations.len(), 1);
    assert_eq!(report.operations[0].id, "k3s_kubectl_get_nodes");
    assert_eq!(report.operations[0].status, OperationStatus::Failed);
}

#[test]
fn node_check_succeeds_when_a_node_is_listed() {
    let c = verify_only_config();
    let plan = build_plan(&c).unwrap();
    let report = execute_plan(&NodeLister { stdout: "node/cp-1\n" }, &c, &plan, IoMode::Buffered);
    assert_eq!(report.operations[0].status, OperationStatus::Succeeded);
}

#[test]
fn skip_install_when_k3s_found_unless_forced() {
    let mut c = server_config();
    assert!(skip_install_when_present(&MockProbe(true), &mut c));
    assert!(c.skip_install);
    let mut forced = server_config();
    forced.force = true;
    assert!(!skip_install_when_present(&MockProbe(true), &mut forced));
    assert!(!forced.skip_install);
    let mut absent = server_config();
    assert!(!skip_install_when_present(&MockProbe(false), &mut absent));
    assert!(!absent.skip_install);
}
