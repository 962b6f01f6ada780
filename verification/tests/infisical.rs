use std::cell::RefCell;

use heimdall::cli::{BootstrapInfisicalCommand, OutputFormat};
use heimdall::common::operation::OperationStatus;
use heimdall::config::InfisicalState;
use heimdall::features::bootstrap::infisical::execute::execute_plan;
use heimdall::features::bootstrap::infisical::generate::{agent_yaml, systemd_unit};
use heimdall::features::bootstrap::infisical::input::{
    address_source, field_source, folders_after_discovery, folders_from_listing, folders_given, node_name_from_hostname,
    parse_folder_list, prompted_field_value, resolve_inputs, token_from_login, AddressSource, BootstrapInfisicalConfig,
    FieldSource, InfisicalAnswers, InfisicalField, InfisicalInputError,
};
use heimdall::features::bootstrap::infisical::plan::{
    build_plan, folder_names_from_listing, parse_folder_names, resolve_plan_artifacts, InfisicalPlanArtifacts,
    InfisicalPlannedOperation,
};
use heimdall::features::bootstrap::infisical::report::BootstrapInfisicalReport;
use heimdall::features::bootstrap::infisical::validate::validate_address;
use heimdall::runner::{CommandOutput, CommandRunner, FileWriter, IoMode, RunnerError};

fn config() -> BootstrapInfisicalConfig {
    BootstrapInfisicalConfig {
        address: "https://eu.infisical.com".to_string(),
        project_slug: "kenaz".to_string(),
        project_id: "5bafc061".to_string(),
        environment: "prod".to_string(),
        node_name: "kenaz".to_string(),
        folders: vec!["app".to_string()],
        client_id: "cid".to_string(),
        client_secret: "csecret".to_string(),
        secrets_dir: "/var/secrets".to_string(),
        config_dir: "/etc/heimdall/infisical".to_string(),
        skip_login: false,
        skip_install: false,
        dry_run: false,
        output: OutputFormat::Human,
    }
}

const EXPECTED_AGENT_YAML: &str = r#"infisical:
  address: "https://eu.infisical.com"

auth:
  type: "universal-auth"
  config:
    client-id: "/var/secrets/.infisical/client-id"
    client-secret: "/var/secrets/.infisical/client-secret"
    remove_client_secret_on_read: false

templates:
  - template-content: |
      {{- with listSecretsByProjectSlug "kenaz" "prod" "/kenaz" `{"recursive": false, "expandSecretReferences": true}` }}
      {{- range . }}
      {{ .Key }}={{ .Value }}
      {{- end }}
      {{- end }}
    destination-path: /var/secrets/.env
    config:
      polling-interval: 60s

  - template-content: |
      {{- with listSecretsByProjectSlug "kenaz" "prod" "/kenaz/app" `{"recursive": false, "expandSecretReferences": true}` }}
      {{- range . }}
      {{ .Key }}={{ .Value }}
      {{- end }}
      {{- end }}
    destination-path: /var/secrets/app/.env
    config:
      polling-interval: 60s
"#;

#[test]
fn agent_yaml_renders_root_and_folder_templates() {
    assert_eq!(agent_yaml(&config()), EXPECTED_AGENT_YAML);
}

#[test]
fn agent_yaml_without_folders_has_one_template() {
    let mut c = config();
    c.folders.clear();
    let text = agent_yaml(&c);
    assert_eq!(text.matches("template-content").count(), 1);
    assert!(text.ends_with("polling-interval: 60s\n"));
}

#[test]
fn systemd_unit_points_at_config() {
    assert_eq!(
        systemd_unit("/etc/heimdall/infisical/agent.yaml"),
        "[Unit]\nDescription=Infisical Agent\nAfter=network.target\n\n[Service]\nType=simple\nExecStart=/usr/bin/infisical agent --config /etc/heimdall/infisical/agent.yaml\nRestart=on-failure\nRestartSec=5s\nUser=root\n\n[Install]\nWantedBy=multi-user.target\n"
    );
}

fn ids(ops: &[InfisicalPlannedOperation]) -> Vec<&'static str> {
    ops.iter()
        .map(|o| match o {
            InfisicalPlannedOperation::Subprocess { id, .. } => *id,
            InfisicalPlannedOperation::WriteFile { id, .. } => *id,
        })
        .collect()
}

#[test]
fn plan_order_modes_and_paths() {
    let artifacts = InfisicalPlanArtifacts { folders: vec![] };
    let ops = build_plan(&config(), &artifacts).unwrap();
    assert_eq!(
        ids(&ops),
        vec![
            "download_setup_script",
            "run_setup_script",
            "install_infisical",
            "create_creds_dir",
            "write_client_id",
            "write_client_secret",
            "secure_creds",
            "write_agent_config",
            "write_systemd_unit",
            "verify_universal_auth",
            "systemd_daemon_reload",
            "systemd_enable",
            "systemd_restart",
        ]
    );
    match &ops[4] {
        InfisicalPlannedOperation::WriteFile { path, content, mode, .. } => {
            assert_eq!(path, "/var/secrets/.infisical/client-id");
            assert_eq!(content, "cid");
            assert_eq!(*mode, 0o600);
        }
        _ => panic!("expected a file"),
    }
    match &ops[7] {
        InfisicalPlannedOperation::WriteFile { path, content, mode, .. } => {
            assert_eq!(path, "/etc/heimdall/infisical/agent.yaml");
            assert_eq!(*mode, 0o640);
            assert_eq!(content.matches("template-content").count(), 1);
        }
        _ => panic!("expected a file"),
    }
    match &ops[9] {
        InfisicalPlannedOperation::Subprocess { command, args, env, .. } => {
            assert_eq!(command, "infisical");
            assert_eq!(
                args,
                &vec![
                    "secrets", "--domain", "https://eu.infisical.com", "--projectId", "5bafc061", "--env", "prod",
                    "--path", "/kenaz", "--silent",
                ]
            );
            assert_eq!(env[0], ("INFISICAL_UNIVERSAL_AUTH_CLIENT_ID".to_string(), "cid".to_string()));
        }
        _ => panic!("expected a subprocess"),
    }
}

#[test]
fn plan_skip_install_and_config_dir_with_slash() {
    let mut c = config();
    c.skip_install = true;
    c.config_dir = "/opt/cfg/".to_string();
    let ops = build_plan(&c, &InfisicalPlanArtifacts { folders: vec!["db".to_string()] }).unwrap();
    assert_eq!(ids(&ops)[0], "create_creds_dir");
    match &ops[4] {
        InfisicalPlannedOperation::WriteFile { path, content, .. } => {
            assert_eq!(path, "/opt/cfg/agent.yaml");
            assert!(content.contains("\"/kenaz/db\""));
        }
        _ => panic!("expected a file"),
    }
    match &ops[5] {
        InfisicalPlannedOperation::WriteFile { content, .. } => {
            assert!(content.contains("--config /opt/cfg/agent.yaml\n"))
        }
        _ => panic!("expected a file"),
    }
}

#[test]
fn validate_address_requires_http_scheme() {
    assert!(validate_address("https://eu.infisical.com").is_ok());
    assert!(validate_address("http://localhost:8080").is_ok());
    assert_eq!(
        validate_address("eu.infisical.com").unwrap_err().message(),
        "Infisical address must start with https:// or http://"
    );
}

#[test]
fn folder_answers_are_split_trimmed_and_filtered() {
    assert_eq!(parse_folder_list(" app , ,db/x ,"), vec!["app", "db/x"]);
    assert!(parse_folder_list("   ").is_empty());
    assert_eq!(folders_after_discovery(Err(InfisicalInputError::EmptyToken), None), Vec::<String>::new());
    assert_eq!(
        folders_after_discovery(Err(InfisicalInputError::EmptyToken), Some("a,b".to_string())),
        vec!["a", "b"]
    );
    assert_eq!(folders_after_discovery(Ok(vec!["x".to_string()]), Some("a".to_string())), vec!["x"]);
}

fn ok_output(success: bool, stdout: &str, stderr: &str) -> Result<CommandOutput, RunnerError> {
    Ok(CommandOutput { success, stdout: stdout.to_string(), stderr: stderr.to_string() })
}

#[test]
fn folder_listing_reads_names() {
    let listing = ok_output(true, r#"[{"name":"app","id":1},{"id":2},{"name":"db"}]"#, "");
    assert_eq!(folders_from_listing(&listing).unwrap(), vec!["app", "db"]);
    let bad = ok_output(true, "not json", "");
    assert_eq!(folders_from_listing(&bad).unwrap_err().message(), "failed to parse folder list JSON");
    let failed = ok_output(false, "", "  denied \n");
    assert_eq!(folders_from_listing(&failed).unwrap_err().message(), "folder discovery failed: denied");
    let missing: Result<CommandOutput, RunnerError> = Err(RunnerError { message: "no such file".to_string() });
    assert_eq!(folders_from_listing(&missing).unwrap_err().message(), "failed to invoke `infisical`: no such file");
    assert_eq!(parse_folder_names(r#"[{"folderName":"a"},{"name":"b"}]"#).unwrap(), vec!["a"]);
}

#[test]
fn login_token_is_trimmed_output() {
    assert_eq!(token_from_login(&ok_output(true, " tok\n", "")).unwrap(), "tok");
    assert_eq!(
        token_from_login(&ok_output(true, "  ", "")).unwrap_err().message(),
        "universal auth login returned an empty token"
    );
    assert_eq!(
        token_from_login(&ok_output(false, "", " bad creds ")).unwrap_err().message(),
        "universal auth login failed: bad creds"
    );
}

#[test]
fn hostname_output_becomes_node_name() {
    assert_eq!(node_name_from_hostname(&ok_output(true, "kenaz\n", "")).unwrap(), "kenaz");
    assert!(matches!(node_name_from_hostname(&ok_output(true, " \n", "")), Err(InfisicalInputError::HostnameEmpty)));
    assert!(matches!(node_name_from_hostname(&ok_output(false, "x", "")), Err(InfisicalInputError::HostnameFailed)));
}

#[test]
fn field_sources_follow_flag_saved_prompt_order() {
    let flag = Some("f".to_string());
    let saved = Some("s".to_string());
    assert!(matches!(field_source(InfisicalField::ProjectSlug, &flag, &saved, true), Ok(FieldSource::Value(v)) if v == "f"));
    assert!(matches!(field_source(InfisicalField::ProjectSlug, &None, &saved, false), Ok(FieldSource::Value(v)) if v == "s"));
    let err = field_source(InfisicalField::ProjectId, &None, &None, false).unwrap_err();
    assert_eq!(err.message(), "project_id is required; pass --project-id or INFISICAL_PROJECT_ID");
    assert!(matches!(
        field_source(InfisicalField::ClientId, &None, &saved, true),
        Ok(FieldSource::Prompt { default: Some(d) }) if d == "s"
    ));
    assert_eq!(prompted_field_value(InfisicalField::ClientSecret, "  x ").unwrap(), "x");
    assert_eq!(
        prompted_field_value(InfisicalField::ClientSecret, "  ").unwrap_err().message(),
        "client secret cannot be empty"
    );
}

#[test]
fn address_source_defaults_and_menu() {
    assert!(matches!(address_source(&None, &None, false), AddressSource::Value(v) if v == "https://eu.infisical.com"));
    assert!(matches!(
        address_source(&None, &Some("https://app.infisical.com".to_string()), true),
        AddressSource::Prompt { starting_cursor: 1, custom_default: None }
    ));
    assert!(matches!(
        address_source(&None, &Some("https://vault.local".to_string()), true),
        AddressSource::Prompt { starting_cursor: 2, custom_default: Some(d) } if d == "https://vault.local"
    ));
}

#[test]
fn resolve_inputs_applies_defaults() {
    let opts = BootstrapInfisicalCommand {
        address: None,
        project_slug: None,
        project_id: None,
        environment: None,
        node_name: None,
        folders: vec![],
        client_id: None,
        client_secret: None,
        secrets_dir: None,
        config_dir: None,
        dry_run: true,
        yes: false,
        output: OutputFormat::Json,
    };
    let mut saved = InfisicalState::default();
    saved.environment = Some("staging".to_string());
    let answers = InfisicalAnswers {
        address: "https://eu.infisical.com".to_string(),
        project_slug: "p".to_string(),
        project_id: "i".to_string(),
        node_name: "n".to_string(),
        client_id: "c".to_string(),
        client_secret: "s".to_string(),
        folders: vec![],
    };
    let r = resolve_inputs(opts, &saved, answers);
    assert_eq!(r.config.environment, "staging");
    assert_eq!(r.config.secrets_dir, "/var/secrets");
    assert_eq!(r.config.config_dir, "/etc/heimdall/infisical");
    assert!(r.config.dry_run);
    assert!(!r.config.skip_install);
}

struct Runner {
    succeed: bool,
}

impl CommandRunner for Runner {
    fn run_with_env_io(
        &self,
        _program: &str,
        _args: &Vec<String>,
        _env: &Vec<(String, String)>,
        _mode: IoMode,
    ) -> Result<CommandOutput, RunnerError> {
        ok_output(self.succeed, "", "")
    }

    fn run_with_stdin(
        &self,
        _program: &str,
        _args: &Vec<String>,
        _env: &Vec<(String, String)>,
        _stdin_data: &str,
        _mode: IoMode,
    ) -> Result<CommandOutput, RunnerError> {
        ok_output(self.succeed, "", "")
    }
}

struct Files {
    ok: bool,
    written: RefCell<Vec<(String, u32)>>,
}

impl FileWriter for Files {
    fn write_file_with_mode(&self, path: &str, _content: &str, mode: u32) -> bool {
        self.written.borrow_mut().push((path.to_string(), mode));
        self.ok
    }
}

#[test]
fn execute_dry_run_only_plans() {
    let ops = build_plan(&config(), &InfisicalPlanArtifacts { folders: vec![] }).unwrap();
    let n = ops.len();
    let files = Files { ok: false, written: RefCell::new(vec![]) };
    let report: BootstrapInfisicalReport = execute_plan(&Runner { succeed: false }, &files, ops, true, IoMode::Buffered);
    assert_eq!(report.operations.len(), n);
    assert!(report.operations.iter().all(|r| r.status == OperationStatus::Planned));
    assert!(files.written.borrow().is_empty());
    assert!(!report.has_failures());
    assert_eq!(report.operations[4].detail, "/var/secrets/.infisical/client-id");
}

#[test]
fn execute_buffered_run_still_runs_every_step() {
    let mut c = config();
    c.skip_install = true;
    let ops = build_plan(&c, &InfisicalPlanArtifacts { folders: vec![] }).unwrap();
    let n = ops.len();
    let files = Files { ok: true, written: RefCell::new(vec![]) };
    let report = execute_plan(&Runner { succeed: true }, &files, ops, false, IoMode::Buffered);
    assert_eq!(report.operations.len(), n);
    assert!(report.operations.iter().all(|r| r.status == OperationStatus::Succeeded));
    assert!(!files.written.borrow().is_empty());
    assert!(!report.has_failures());
}

#[test]
fn execute_marks_failed_exit_as_failed() {
    let mut c = config();
    c.skip_install = true;
    let ops = build_plan(&c, &InfisicalPlanArtifacts { folders: vec![] }).unwrap();
    let files = Files { ok: true, written: RefCell::new(vec![]) };
    let report = execute_plan(&Runner { succeed: false }, &files, ops, false, IoMode::LiveTee);
    assert_eq!(report.operations.last().unwrap().status, OperationStatus::Failed);
    assert!(report.has_failures());
}

#[test]
fn execute_stops_at_first_failed_write() {
    let mut c = config();
    c.skip_install = true;
    let ops = build_plan(&c, &InfisicalPlanArtifacts { folders: vec![] }).unwrap();
    let files = Files { ok: false, written: RefCell::new(vec![]) };
    let report = execute_plan(&Runner { succeed: true }, &files, ops, false, IoMode::LiveTee);
    assert_eq!(report.operations.len(), 2);
    assert_eq!(report.operations[0].status, OperationStatus::Succeeded);
    assert_eq!(report.operations[1].status, OperationStatus::Failed);
    assert_eq!(files.written.borrow()[0], ("/var/secrets/.infisical/client-id".to_string(), 0o600));
    assert!(report.has_failures());
}

#[test]
fn given_folders_win_over_discovery() {
    assert_eq!(folders_given(&vec!["app".to_string()]), Some(vec!["app".to_string()]));
    assert_eq!(folders_given(&vec![]), None);
    let mut c = config();
    c.folders = vec!["db".to_string()];
    let artifacts = resolve_plan_artifacts(&c, Some(Ok(vec!["other".to_string()])), None);
    assert_eq!(artifacts.folders, vec!["db"]);
    c.folders = vec![];
    let artifacts = resolve_plan_artifacts(&c, Some(Ok(vec!["other".to_string()])), None);
    assert_eq!(artifacts.folders, vec!["other"]);
    let failed = Err(InfisicalInputError::FolderListUnparsable);
    let artifacts = resolve_plan_artifacts(&c, Some(failed), Some(" a , b ,".to_string()));
    assert_eq!(artifacts.folders, vec!["a", "b"]);
    assert!(resolve_plan_artifacts(&c, None, None).folders.is_empty());
}

#[test]
fn plan_time_listing_reads_folder_names() {
    let ok = Ok(CommandOutput {
        success: true,
        stdout: r#"[{"folderName":"web"},{"folderName":"db"}]"#.to_string(),
        stderr: String::new(),
    });
    assert_eq!(folder_names_from_listing(&ok).unwrap(), vec!["web", "db"]);
    let bad = Ok(CommandOutput { success: false, stdout: String::new(), stderr: " denied \n".to_string() });
    assert!(matches!(folder_names_from_listing(&bad), Err(InfisicalInputError::FolderDiscoveryFailed(m)) if m == "denied"));
    let down: Result<CommandOutput, RunnerError> = Err(RunnerError { message: "no infisical".to_string() });
    assert!(matches!(folder_names_from_listing(&down), Err(InfisicalInputError::ListingUnavailable(m)) if m == "no infisical"));
}
