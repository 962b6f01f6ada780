use heimdall::cli::{BootstrapKomodoCommand, KomodoMode, OutputFormat};
use heimdall::common::elevation::PrivilegeContext;
use heimdall::common::operation::OperationStatus;
use heimdall::features::bootstrap::komodo::execute::execute_plan;
use heimdall::features::bootstrap::komodo::generate::{
    compose_env_core, compose_env_periphery, compose_yaml_core, compose_yaml_periphery,
};
use heimdall::features::bootstrap::komodo::input::{hex_string, resolve_inputs, BootstrapKomodoConfig};
use heimdall::features::bootstrap::komodo::plan::{build_plan, KomodoPlannedOperation, KomodoSecrets};
use heimdall::features::bootstrap::komodo::validate::{validate_komodo_host, validate_ws_address};
use heimdall::runner::{CommandOutput, CommandRunner, IoMode, RunnerError};

fn opts(mode: KomodoMode) -> BootstrapKomodoCommand {
    BootstrapKomodoCommand {
        mode,
        dir: None,
        image_tag: None,
        force: false,
        host: None,
        title: None,
        port: None,
        admin_username: None,
        admin_password: None,
        db_username: None,
        db_password: None,
        backups_path: None,
        first_server_name: None,
        core_address: None,
        connect_as: None,
        core_public_key_file: None,
        periphery_root: None,
        no_up: false,
        dry_run: true,
        yes: false,
        output: OutputFormat::Human,
    }
}

fn core_config() -> BootstrapKomodoConfig {
    resolve_inputs(opts(KomodoMode::Core), None, Some(vec![0xab; 32]), None).config
}

fn secrets() -> KomodoSecrets {
    KomodoSecrets { webhook: vec![0x01, 0x02], jwt: vec![0xff] }
}

fn ids(ops: &[KomodoPlannedOperation]) -> Vec<&'static str> {
    ops.iter()
        .map(|o| match o {
            KomodoPlannedOperation::Subprocess { id, .. } => *id,
            KomodoPlannedOperation::WriteFile { id, .. } => *id,
        })
        .collect()
}

#[test]
fn hex_renders_two_lowercase_digits_per_byte() {
    assert_eq!(hex_string(&vec![0x00, 0xff, 0x10, 0x9a]), "00ff109a");
    assert_eq!(hex_string(&vec![]), "");
    assert_eq!(hex_string(&vec![7u8; 16]).len(), 32);
}

#[test]
fn resolve_inputs_defaults() {
    let c = core_config();
    assert_eq!(c.dir, "/etc/heimdall/komodo");
    assert_eq!(c.image_tag, "2");
    assert_eq!(c.title, "Komodo");
    assert_eq!(c.port, 9120);
    assert_eq!(c.admin_username, "admin");
    assert_eq!(c.admin_password, "ab".repeat(32));
    assert_eq!(c.db_username, "admin");
    assert_eq!(c.db_password, "changeme");
    assert_eq!(c.backups_path, "/etc/komodo/backups");
    assert_eq!(c.first_server_name, "Local");
    assert_eq!(c.connect_as, "Local");
    assert_eq!(c.periphery_root, "/etc/komodo");
}

#[test]
fn resolve_inputs_flags_win() {
    let mut o = opts(KomodoMode::Periphery);
    o.first_server_name = Some("edge".to_string());
    o.admin_password = Some("pw".to_string());
    o.port = Some(8443);
    let c = resolve_inputs(o, Some("KEY".to_string()), Some(vec![1]), None).config;
    assert_eq!(c.connect_as, "edge");
    assert_eq!(c.admin_password, "pw");
    assert_eq!(c.port, 8443);
    assert_eq!(c.core_public_key_content.as_deref(), Some("KEY"));
    assert_eq!(c.mode, KomodoMode::Periphery);
}

#[test]
fn compose_files_render_settings() {
    let mut c = core_config();
    c.port = 8080;
    let yaml = compose_yaml_core(&c);
    assert!(yaml.contains("      - \"8080:9120\"\n"));
    assert!(yaml.contains("${COMPOSE_KOMODO_IMAGE_TAG:-2}"));
    let env = compose_env_core(&c, "wh", "jw");
    assert!(env.starts_with("COMPOSE_KOMODO_IMAGE_TAG=2\nCOMPOSE_KOMODO_BACKUPS_PATH=/etc/komodo/backups\n"));
    assert!(env.contains("KOMODO_HOST=https://komodo.example.com\n"));
    assert!(env.contains("KOMODO_WEBHOOK_SECRET=wh\nKOMODO_JWT_SECRET=jw\n"));
    assert!(env.contains("PERIPHERY_CONNECT_AS=Local\n"));
    assert!(yaml.starts_with("################################\n# 🦎 KOMODO COMPOSE - MONGO 🦎 #"));
}

#[test]
fn periphery_env_is_exact() {
    let mut c = core_config();
    c.core_address = Some("wss://core.example:9120".to_string());
    assert_eq!(
        compose_env_periphery(&c),
        "COMPOSE_KOMODO_IMAGE_TAG=2\n\nTZ=Etc/UTC\n\nPERIPHERY_CORE_ADDRESS=wss://core.example:9120\nPERIPHERY_CONNECT_AS=Local\nPERIPHERY_CORE_PUBLIC_KEYS=file:/config/keys/core.pub\n\nPERIPHERY_ROOT_DIRECTORY=/etc/komodo\n\nPERIPHERY_DISABLE_TERMINALS=false\nPERIPHERY_DISABLE_CONTAINER_TERMINALS=false\n\nPERIPHERY_LOGGING_PRETTY=false\nPERIPHERY_PRETTY_STARTUP_CONFIG=false\n"
    );
    assert!(compose_yaml_periphery(&c).contains("      - ./keys:/config/keys\n"));
}

#[test]
fn core_plan_order_and_up_arguments() {
    let ops = build_plan(&core_config(), &secrets()).unwrap();
    assert_eq!(
        ids(&ops),
        vec!["check_docker", "check_docker_compose", "write_compose_yaml", "write_compose_env", "docker_compose_up"]
    );
    match &ops[3] {
        KomodoPlannedOperation::WriteFile { path, content, .. } => {
            assert_eq!(path, "/etc/heimdall/komodo/compose.env");
            assert!(content.contains("KOMODO_WEBHOOK_SECRET=0102\nKOMODO_JWT_SECRET=ff\n"));
        }
        _ => panic!("expected a file"),
    }
    match &ops[4] {
        KomodoPlannedOperation::Subprocess { command, args, .. } => {
            assert_eq!(command, "docker");
            assert_eq!(
                args,
                &vec![
                    "compose",
                    "-f",
                    "/etc/heimdall/komodo/compose.yaml",
                    "--env-file",
                    "/etc/heimdall/komodo/compose.env",
                    "up",
                    "-d",
                ]
            );
        }
        _ => panic!("expected a subprocess"),
    }
}

#[test]
fn periphery_plan_writes_key_and_honours_no_up() {
    let mut c = core_config();
    c.mode = KomodoMode::Periphery;
    c.core_public_key_content = Some("PUB".to_string());
    c.no_up = true;
    let ops = build_plan(&c, &secrets()).unwrap();
    assert_eq!(
        ids(&ops),
        vec!["check_docker", "check_docker_compose", "write_core_public_key", "write_compose_yaml", "write_compose_env"]
    );
    match &ops[2] {
        KomodoPlannedOperation::WriteFile { path, content, .. } => {
            assert_eq!(path, "/etc/heimdall/komodo/keys/core.pub");
            assert_eq!(content, "PUB");
        }
        _ => panic!("expected a file"),
    }
}

#[test]
fn host_validation() {
    assert!(validate_komodo_host("https://komodo.example.com").is_ok());
    assert_eq!(
        validate_komodo_host("komodo.example.com").unwrap_err().message(),
        "Komodo host must start with https:// or http:// (got: komodo.example.com)"
    );
    assert_eq!(validate_komodo_host("http://a").unwrap_err().message(), "Invalid host URL");
    assert!(validate_komodo_host("http://abc").is_ok());
}

#[test]
fn ws_address_validation() {
    assert!(validate_ws_address("ws://core:9120").is_ok());
    assert!(validate_ws_address("wss://core.example.com:443/ws").is_ok());
    assert_eq!(validate_ws_address("wss://core").unwrap_err().message(), "Invalid WebSocket address format");
    assert_eq!(
        validate_ws_address("http://core:1").unwrap_err().message(),
        "Core address must start with ws:// or wss:// (got: http://core:1)"
    );
}

struct Recorder {
    calls: std::cell::RefCell<Vec<(String, Vec<String>)>>,
}

impl CommandRunner for Recorder {
    fn run_with_env_io(
        &self,
        program: &str,
        args: &Vec<String>,
        _env: &Vec<(String, String)>,
        _mode: IoMode,
    ) -> Result<CommandOutput, RunnerError> {
        self.calls.borrow_mut().push((program.to_string(), args.clone()));
        Ok(CommandOutput { success: true, stdout: String::new(), stderr: String::new() })
    }

    fn run_with_stdin(
        &self,
        program: &str,
        args: &Vec<String>,
        _env: &Vec<(String, String)>,
        _stdin_data: &str,
        _mode: IoMode,
    ) -> Result<CommandOutput, RunnerError> {
        self.calls.borrow_mut().push((program.to_string(), args.clone()));
        Ok(CommandOutput { success: true, stdout: String::new(), stderr: String::new() })
    }
}

#[test]
fn execute_runs_docker_under_sudo_and_writes_with_install() {
    let mut c = core_config();
    c.dry_run = false;
    let ops = build_plan(&c, &secrets()).unwrap();
    let runner = Recorder { calls: std::cell::RefCell::new(vec![]) };
    let report = execute_plan(&runner, PrivilegeContext::elevated_ops(), &c, ops, IoMode::LiveTee);
    assert!(report.operations.iter().all(|r| r.status == OperationStatus::Succeeded));
    let calls = runner.calls.borrow();
    assert_eq!(calls[0], ("sudo".to_string(), vec!["-E".to_string(), "docker".to_string(), "--version".to_string()]));
    assert_eq!(calls[2].0, "sudo");
    assert_eq!(calls[2].1[0], "install");
    assert_eq!(report.operations[2].detail, "/etc/heimdall/komodo/compose.yaml");
}

#[test]
fn execute_dry_run_plans_everything() {
    let c = core_config();
    assert!(c.dry_run);
    let ops = build_plan(&c, &secrets()).unwrap();
    let runner = Recorder { calls: std::cell::RefCell::new(vec![]) };
    let report = execute_plan(&runner, PrivilegeContext::elevated_ops(), &c, ops, IoMode::Buffered);
    assert_eq!(report.operations.len(), 5);
    assert!(report.operations.iter().all(|r| r.status == OperationStatus::Planned));
    assert!(runner.calls.borrow().is_empty());
    assert!(!report.has_failures());
}

#[test]
fn execute_buffered_run_still_calls_runner() {
    let mut c = core_config();
    c.dry_run = false;
    let ops = build_plan(&c, &secrets()).unwrap();
    let runner = Recorder { calls: std::cell::RefCell::new(vec![]) };
    let report = execute_plan(&runner, PrivilegeContext::elevated_ops(), &c, ops, IoMode::Buffered);
    assert_eq!(report.operations.len(), 5);
    assert!(report.operations.iter().all(|r| r.status == OperationStatus::Succeeded));
    assert_eq!(runner.calls.borrow().len(), 5);
}
