use heimdall::common::operation::OperationKind;
use heimdall::features::bootstrap::user::input::{chosen_password, chosen_username, key_lines, BootstrapUserConfig};
use heimdall::features::bootstrap::user::plan::{build_plan, escape_single_quotes};
use heimdall::features::bootstrap::user::validate::{validate_ssh_key, validate_username, UserValidationError};

fn config() -> BootstrapUserConfig {
    BootstrapUserConfig {
        user: "admin".to_string(),
        group: "admin".to_string(),
        keys: vec!["ssh-ed25519 AAAAC3NzaC1lZDI1NTE5AAAAIabc123 user@host".to_string()],
        password: "testpass".to_string(),
        disable_root_login: true,
        disable_password_auth: false,
        dry_run: false,
        confirmed: true,
    }
}

fn shell_args(op: &heimdall::common::operation::PlannedOperation) -> Vec<String> {
    match &op.kind {
        OperationKind::Shell { args, .. } => args.clone(),
        _ => panic!("expected Shell kind"),
    }
}

#[test]
fn plan_requires_key() {
    let mut c = config();
    c.keys.clear();
    assert!(build_plan(&c).is_err());
}

#[test]
fn plan_uses_idempotent_user_and_key_operations() {
    let plan = build_plan(&config()).expect("plan should build");
    let ensure_user = plan.iter().find(|op| op.id == "ensure_user").expect("ensure_user operation must exist");
    assert!(shell_args(ensure_user).join(" ").contains("id -u"));
    let append_key =
        plan.iter().find(|op| op.id == "append_authorized_key").expect("append_authorized_key operation must exist");
    let joined = shell_args(append_key).join(" ");
    assert!(joined.contains("grep -qxF"));
    assert!(joined.contains(".authorized_keys.tmp"));
    assert!(plan.iter().any(|op| op.id == "prepare_authorized_keys_temp"));
    assert!(plan.iter().any(|op| op.id == "promote_authorized_keys_temp"));
}

#[test]
fn plan_grants_sudo_access() {
    let plan = build_plan(&config()).expect("plan should build");
    let op = plan.iter().find(|op| op.id == "grant_sudo_access").expect("grant_sudo_access operation must exist");
    let args_str = shell_args(op).join(" ");
    assert!(args_str.contains("usermod -aG sudo"), "args must reference sudo group: {args_str}");
    assert!(args_str.contains("usermod -aG wheel"), "args must reference wheel group: {args_str}");
}

#[test]
fn plan_marks_sshd_changes_for_confirmation() {
    let plan = build_plan(&config()).expect("plan");
    let ids: Vec<&str> = plan.iter().map(|o| o.id).collect();
    assert!(ids.contains(&"disable_root_login"));
    assert!(!ids.contains(&"disable_password_auth"));
    for id in ["disable_root_login", "validate_sshd_config", "reload_sshd"] {
        let op = plan.iter().find(|o| o.id == id).expect("sshd step");
        assert!(op.requires_confirmation);
    }
    let pw = plan.iter().find(|o| o.id == "set_password").expect("password step");
    match &pw.kind {
        OperationKind::Shell { stdin_input, .. } => assert_eq!(stdin_input.as_deref(), Some("admin:testpass\n")),
        _ => panic!("expected Shell kind"),
    }
}

#[test]
fn plan_without_ssh_changes_has_no_confirmation_steps() {
    let mut c = config();
    c.disable_root_login = false;
    let plan = build_plan(&c).expect("plan");
    assert!(!plan.iter().any(|o| o.requires_confirmation));
    assert_eq!(plan.last().map(|o| o.id), Some("set_password"));
}

#[test]
fn plan_quotes_keys_with_single_quotes() {
    let mut c = config();
    c.keys = vec!["ssh-rsa AAAA it's".to_string()];
    let plan = build_plan(&c).expect("plan");
    let op = plan.iter().find(|o| o.id == "append_authorized_key").unwrap();
    assert!(shell_args(op)[2].contains("'ssh-rsa AAAA it'\"'\"'s'"));
    assert_eq!(escape_single_quotes("a'b"), "a'\"'\"'b");
}

#[test]
fn rejects_invalid_key() {
    assert!(validate_ssh_key("not-a-key").is_err());
}

#[test]
fn ssh_key_algorithm_must_be_supported() {
    assert!(validate_ssh_key("ssh-ed25519 AAAA").is_ok());
    assert!(validate_ssh_key("  ecdsa-sha2-nistp256   AAAA  c ").is_ok());
    let err = validate_ssh_key("ssh-dss AAAA").unwrap_err();
    assert!(matches!(&err, UserValidationError::UnsupportedKeyAlgorithm(w) if w == "ssh-dss"));
    assert_eq!(err.message(), "unsupported ssh key algorithm: ssh-dss");
}

#[test]
fn username_rules() {
    assert!(validate_username("admin_1-x").is_ok());
    assert!(validate_username("_svc").is_ok());
    assert!(matches!(validate_username(""), Err(UserValidationError::EmptyUsername)));
    assert!(matches!(validate_username("1abc"), Err(UserValidationError::UsernameStart)));
    assert!(matches!(validate_username("ab.c"), Err(UserValidationError::UsernameCharacters)));
}

#[test]
fn key_file_lines_are_trimmed_and_blank_lines_dropped() {
    let keys = key_lines("  ssh-ed25519 AAA a@b  \r\n\n\t\nssh-rsa BBB\n");
    assert_eq!(keys, vec!["ssh-ed25519 AAA a@b", "ssh-rsa BBB"]);
    assert!(key_lines("").is_empty());
}

#[test]
fn plan_appends_each_key_in_order_between_copy_and_promotion() {
    let mut c = config();
    c.keys = vec!["ssh-rsa AAA one".to_string(), "ssh-ed25519 BBB two".to_string()];
    c.disable_root_login = false;
    c.disable_password_auth = true;
    let plan = build_plan(&c).expect("plan");
    let ids: Vec<&str> = plan.iter().map(|o| o.id).collect();
    assert_eq!(
        ids,
        vec![
            "ensure_group",
            "ensure_user",
            "grant_sudo_access",
            "ensure_ssh_dir",
            "ensure_authorized_keys_file",
            "prepare_authorized_keys_temp",
            "append_authorized_key",
            "append_authorized_key",
            "promote_authorized_keys_temp",
            "set_authorized_keys_permissions",
            "chmod_authorized_keys",
            "set_password",
            "disable_password_auth",
            "validate_sshd_config",
            "reload_sshd",
        ]
    );
    assert!(shell_args(&plan[6])[2].contains("'ssh-rsa AAA one'"));
    assert!(shell_args(&plan[7])[2].contains("'ssh-ed25519 BBB two'"));
    assert_eq!(plan.iter().filter(|o| o.requires_confirmation).count(), 3);
}

#[test]
fn username_flag_wins_and_blank_answer_is_refused() {
    assert_eq!(chosen_username(Some("ops".to_string()), None), Some("ops".to_string()));
    assert_eq!(chosen_username(None, Some(" admin ".to_string())), Some(" admin ".to_string()));
    assert_eq!(chosen_username(None, Some("   ".to_string())), None);
    assert_eq!(chosen_username(None, None), None);
    assert_eq!(chosen_password(Some("pw".to_string()), Some("other".to_string())), Some("pw".to_string()));
    assert_eq!(chosen_password(None, Some("typed".to_string())), Some("typed".to_string()));
}
