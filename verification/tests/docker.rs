use heimdall::cli::{BootstrapDockerCommand, OutputFormat};
use heimdall::features::bootstrap::docker::generate::generate_daemon_json;
use heimdall::features::bootstrap::docker::input::{probe_docker_on_path, resolve_inputs, skip_install_when_present, DockerConfig};
use heimdall::runner::{CommandOutput, CommandRunner, IoMode, RunnerError};
use heimdall::features::bootstrap::docker::plan::build_plan;
use heimdall::features::bootstrap::docker::validate::{validate_registry_mirror, validate_url, validate_username};

fn opts() -> BootstrapDockerCommand {
    BootstrapDockerCommand {
        install_script_url: None,
        user: None,
        log_driver: None,
        registry_mirrors: vec![],
        force: false,
        dry_run: true,
        yes: false,
        output: OutputFormat::Human,
    }
}

fn config(skip_install: bool) -> DockerConfig {
    DockerConfig {
        install_script_url: "https://get.docker.com".to_string(),
        add_user: None,
        log_driver: None,
        registry_mirrors: vec![],
        dry_run: false,
        force: false,
        skip_install,
    }
}

#[test]
fn resolve_inputs_uses_default_script_url() {
    let resolved = resolve_inputs(opts(), None).unwrap();
    assert_eq!(resolved.config.install_script_url, "https://get.docker.com");
}

#[test]
fn resolve_inputs_respects_custom_url() {
    let mut o = opts();
    o.install_script_url = Some("https://custom.example.com/install.sh".to_string());
    let resolved = resolve_inputs(o, None).unwrap();
    assert_eq!(resolved.config.install_script_url, "https://custom.example.com/install.sh");
}

#[test]
fn resolve_inputs_sets_confirmed_with_yes() {
    let mut o = opts();
    o.dry_run = false;
    o.yes = true;
    let _resolved = resolve_inputs(o, None).unwrap();
}

#[test]
fn resolve_inputs_sets_confirmed_with_dry_run() {
    let _resolved = resolve_inputs(opts(), None).unwrap();
}

#[test]
fn resolve_inputs_stores_user_and_daemon_config() {
    let mut o = opts();
    o.user = Some("ubuntu".to_string());
    o.log_driver = Some("json-file".to_string());
    o.registry_mirrors = vec!["https://mirror.example.com".to_string()];
    let resolved = resolve_inputs(o, None).unwrap();
    assert_eq!(resolved.config.add_user, Some("ubuntu".to_string()));
    assert_eq!(resolved.config.log_driver, Some("json-file".to_string()));
    assert_eq!(resolved.config.registry_mirrors, vec!["https://mirror.example.com"]);
}

#[test]
fn resolve_inputs_uses_environment_url_when_no_flag() {
    let resolved = resolve_inputs(opts(), Some("https://env.example.com/get.sh".to_string())).unwrap();
    assert_eq!(resolved.config.install_script_url, "https://env.example.com/get.sh");
}

#[test]
fn resolve_inputs_rejects_bad_install_url() {
    let mut o = opts();
    o.install_script_url = Some("ftp://example.com".to_string());
    let err = resolve_inputs(o, None).unwrap_err();
    assert_eq!(err.message(), "install script URL must start with https:// or http://");
}

#[test]
fn resolve_inputs_rejects_bad_mirror() {
    let mut o = opts();
    o.registry_mirrors = vec!["mirror.example.com".to_string()];
    let err = resolve_inputs(o, None).unwrap_err();
    assert_eq!(err.message(), "registry mirror URL must start with https:// or http://");
}

#[test]
fn build_plan_skips_install_when_skip_install_true() {
    let ops = build_plan(&config(true)).unwrap();
    assert!(!ops.iter().any(|op| op.id == "install_docker"));
}

#[test]
fn build_plan_includes_install_when_skip_install_false() {
    let ops = build_plan(&config(false)).unwrap();
    assert!(ops.iter().any(|op| op.id == "install_docker"));
}

#[test]
fn build_plan_omits_daemon_json_when_no_config() {
    let ops = build_plan(&config(true)).unwrap();
    assert!(!ops.iter().any(|op| op.id == "write_daemon_json"));
}

#[test]
fn build_plan_includes_daemon_json_with_log_driver() {
    let mut c = config(true);
    c.log_driver = Some("json-file".to_string());
    let ops = build_plan(&c).unwrap();
    assert!(ops.iter().any(|op| op.id == "write_daemon_json"));
}

#[test]
fn build_plan_includes_daemon_json_with_registry_mirrors() {
    let mut c = config(true);
    c.registry_mirrors = vec!["https://mirror.example.com".to_string()];
    let ops = build_plan(&c).unwrap();
    assert!(ops.iter().any(|op| op.id == "write_daemon_json"));
}

#[test]
fn build_plan_omits_add_user_when_none() {
    let ops = build_plan(&config(true)).unwrap();
    assert!(!ops.iter().any(|op| op.id == "add_to_docker_group"));
}

#[test]
fn build_plan_includes_add_user_when_some() {
    let mut c = config(true);
    c.add_user = Some("ubuntu".to_string());
    let ops = build_plan(&c).unwrap();
    assert!(ops.iter().any(|op| op.id == "add_to_docker_group"));
}

#[test]
fn build_plan_always_includes_enable_and_verify() {
    let ops = build_plan(&config(true)).unwrap();
    assert!(ops.iter().any(|op| op.id == "enable_docker_service"));
    assert!(ops.iter().any(|op| op.id == "verify_docker"));
}

#[test]
fn build_plan_full_order_and_verify_is_last_warning() {
    let mut c = config(false);
    c.add_user = Some("ubuntu".to_string());
    c.log_driver = Some("json-file".to_string());
    let ops = build_plan(&c).unwrap();
    let ids: Vec<&str> = ops.iter().map(|o| o.id).collect();
    assert_eq!(
        ids,
        vec!["install_docker", "enable_docker_service", "write_daemon_json", "add_to_docker_group", "verify_docker"]
    );
    assert!(ops[4].failure_is_warning);
    match &ops[0].kind {
        heimdall::common::operation::OperationKind::Shell { command, args, .. } => {
            assert_eq!(command, "sh");
            assert_eq!(args, &vec!["-c".to_string(), "curl -fsSL https://get.docker.com | sh".to_string()]);
        }
        _ => panic!("expected a shell step"),
    }
}

#[test]
fn validate_url_accepts_https() {
    assert!(validate_url("https://get.docker.com").is_ok());
}

#[test]
fn validate_url_accepts_http() {
    assert!(validate_url("http://example.com/install.sh").is_ok());
}

#[test]
fn validate_url_rejects_missing_scheme() {
    assert!(validate_url("get.docker.com").is_err());
}

#[test]
fn validate_url_rejects_ftp() {
    assert!(validate_url("ftp://example.com").is_err());
}

#[test]
fn validate_username_accepts_alphanumeric() {
    assert!(validate_username("ubuntu").is_ok());
    assert!(validate_username("user123").is_ok());
}

#[test]
fn validate_username_accepts_underscore_and_dash() {
    assert!(validate_username("my_user").is_ok());
    assert!(validate_username("my-user").is_ok());
}

#[test]
fn validate_username_rejects_empty() {
    assert!(validate_username("").is_err());
}

#[test]
fn validate_username_rejects_too_long() {
    assert!(validate_username(&"a".repeat(33)).is_err());
}

#[test]
fn validate_username_accepts_exactly_32_and_counts_bytes() {
    assert!(validate_username(&"a".repeat(32)).is_ok());
    // 17 two-byte letters are 34 bytes, over the limit although only 17 characters.
    assert!(validate_username(&"é".repeat(17)).is_err());
    assert!(validate_username(&"é".repeat(16)).is_ok());
}

#[test]
fn validate_username_rejects_special_chars() {
    assert!(validate_username("user@host").is_err());
    assert!(validate_username("user.name").is_err());
}

#[test]
fn validate_registry_mirror_accepts_https() {
    assert!(validate_registry_mirror("https://mirror.example.com").is_ok());
}

#[test]
fn validate_registry_mirror_rejects_missing_scheme() {
    assert!(validate_registry_mirror("mirror.example.com").is_err());
}

#[test]
fn generate_daemon_json_with_log_driver() {
    let result = generate_daemon_json(Some("json-file"), &vec![]).unwrap();
    let parsed: serde_json::Value = serde_json::from_str(&result).unwrap();
    assert_eq!(parsed["log-driver"], "json-file");
}

#[test]
fn generate_daemon_json_with_registry_mirrors() {
    let mirrors = vec!["https://mirror1.example.com".to_string(), "https://mirror2.example.com".to_string()];
    let result = generate_daemon_json(None, &mirrors).unwrap();
    let parsed: serde_json::Value = serde_json::from_str(&result).unwrap();
    assert_eq!(parsed["registry-mirrors"][0], "https://mirror1.example.com");
    assert_eq!(parsed["registry-mirrors"][1], "https://mirror2.example.com");
}

#[test]
fn generate_daemon_json_with_both() {
    let mirrors = vec!["https://mirror.example.com".to_string()];
    let result = generate_daemon_json(Some("json-file"), &mirrors).unwrap();
    let parsed: serde_json::Value = serde_json::from_str(&result).unwrap();
    assert_eq!(parsed["log-driver"], "json-file");
    assert_eq!(parsed["registry-mirrors"][0], "https://mirror.example.com");
}

#[test]
fn generate_daemon_json_empty() {
    let result = generate_daemon_json(None, &vec![]).unwrap();
    let parsed: serde_json::Value = serde_json::from_str(&result).unwrap();
    assert_eq!(parsed, serde_json::Value::Object(serde_json::Map::new()));
}

struct DockerProbe(bool);

impl CommandRunner for DockerProbe {
    fn run_with_env_io(
        &self,
        program: &str,
        args: &Vec<String>,
        _env: &Vec<(String, String)>,
        _mode: IoMode,
    ) -> Result<CommandOutput, RunnerError> {
        let is_probe = program == "sh" && args.len() == 2 && args[1] == "command -v docker >/dev/null 2>&1";
        Ok(CommandOutput { success: is_probe && self.0, stdout: String::new(), stderr: String::new() })
    }

    fn run_with_stdin(
        &self,
        _program: &str,
        _args: &Vec<String>,
        _env: &Vec<(String, String)>,
        _stdin_data: &str,
        _mode: IoMode,
    ) -> Result<CommandOutput, RunnerError> {
        Ok(CommandOutput { success: false, stdout: String::new(), stderr: String::new() })
    }
}

#[test]
fn docker_probe_answers_from_the_sh_probe() {
    assert!(probe_docker_on_path(&DockerProbe(true)));
    assert!(!probe_docker_on_path(&DockerProbe(false)));
}

#[test]
fn installer_skipped_when_docker_found_unless_forced() {
    let mut c = config(false);
    assert!(skip_install_when_present(&DockerProbe(true), &mut c));
    assert!(c.skip_install);
    let mut forced = config(false);
    forced.force = true;
    assert!(!skip_install_when_present(&DockerProbe(true), &mut forced));
    assert!(!forced.skip_install);
}

#[test]
fn plan_is_built_whenever_daemon_json_is_wanted() {
    let mut c = config(true);
    c.log_driver = Some("journald".to_string());
    let plan = build_plan(&c).expect("plan");
    assert!(plan.iter().any(|o| o.id == "write_daemon_json"));
}
