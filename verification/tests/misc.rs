use heimdall::cli::{
    BootstrapAction, BootstrapCommand, BootstrapK3sCommand, Cli, Command, GlobalOpts, K3sRole, OutputFormat,
    UpdateCommand,
};
use heimdall::output::ColorArg;
use heimdall::commands::{dispatch, Route};
use heimdall::common::validation::{ensure_valid, validation_outcome, Validate, ValidationDiagnostic};
use heimdall::config::{saved_infisical_state, BootstrapConfig, HeimdallConfig, InfisicalState};
use heimdall::text::{decimal_string, octal_string, split_trimmed_nonempty, trim};

struct Port(u32);

impl Validate for Port {
    fn validate(&self) -> Result<(), ValidationDiagnostic> {
        if self.0 == 0 {
            Err(ValidationDiagnostic { field: "port", message: "must be positive".to_string() })
        } else {
            Ok(())
        }
    }
}

#[test]
fn ensure_valid_names_field_and_reason() {
    assert!(ensure_valid(&Port(22)).is_ok());
    assert_eq!(ensure_valid(&Port(0)).unwrap_err().message, "validation failed for port: must be positive");
    assert!(validation_outcome(Ok(())).is_ok());
}

#[test]
fn dispatch_routes_leaf_commands() {
    let cli = Cli {
        global: GlobalOpts { color: ColorArg::Never },
        command: Command::Update(UpdateCommand { dry_run: true, yes: false, force: false, tag: None, output: OutputFormat::Human }),
    };
    let d = dispatch(cli);
    assert_eq!(d.global.color, ColorArg::Never);
    assert!(matches!(d.route, Route::Update(u) if u.dry_run));
    let k3s = BootstrapK3sCommand {
        role: K3sRole::Server,
        server_url: None,
        token: None,
        version: None,
        install_exec: None,
        skip_start: false,
        skip_enable: false,
        force: false,
        dry_run: true,
        yes: false,
        output: OutputFormat::Json,
    };
    let cli = Cli {
        global: GlobalOpts { color: ColorArg::Auto },
        command: Command::Bootstrap(Box::new(BootstrapCommand { action: BootstrapAction::K3s(k3s) })),
    };
    assert!(matches!(dispatch(cli).route, Route::BootstrapK3s(_)));
}

#[test]
fn saved_state_is_read_or_empty() {
    assert!(saved_infisical_state(None).address.is_none());
    let mut s = InfisicalState::default();
    s.project_slug = Some("kenaz".to_string());
    let cfg = HeimdallConfig { harden: None, bootstrap: Some(BootstrapConfig { infisical: Some(s) }) };
    assert_eq!(saved_infisical_state(Some(cfg)).project_slug.as_deref(), Some("kenaz"));
    let empty = HeimdallConfig { harden: None, bootstrap: Some(BootstrapConfig { infisical: None }) };
    assert!(saved_infisical_state(Some(empty)).folders.is_empty());
}

#[test]
fn text_helpers() {
    assert_eq!(trim("\t a b \n"), "a b");
    assert_eq!(decimal_string(9120), "9120");
    assert_eq!(decimal_string(0), "0");
    assert_eq!(octal_string(0o644), "644");
    assert_eq!(split_trimmed_nonempty("a, b,,c ", ','), vec!["a", "b", "c"]);
}
