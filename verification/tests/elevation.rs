use heimdall::common::elevation::{command_already_elevated, path_requires_privilege_escalation, PrivilegeContext};
use heimdall::runner::{elevated_invocation, write_file_invocation};

#[test]
fn path_requires_escalation_under_standard_prefixes() {
    assert!(path_requires_privilege_escalation("/etc/foo"));
    assert!(path_requires_privilege_escalation("/var/lib/x"));
    assert!(path_requires_privilege_escalation("/root/.bashrc"));
    assert!(!path_requires_privilege_escalation("/tmp/a"));
}

#[test]
fn sudo_command_detected() {
    assert!(command_already_elevated("sudo"));
    assert!(!command_already_elevated("cp"));
}

#[test]
fn elevated_invocation_prefixes_sudo_once() {
    let args = vec!["enable".to_string(), "docker".to_string()];
    let (p, a) = elevated_invocation(PrivilegeContext::elevated_ops(), &"systemctl".to_string(), &args);
    assert_eq!(p, "sudo");
    assert_eq!(a, vec!["-E", "systemctl", "enable", "docker"]);
    let (p, a) = elevated_invocation(PrivilegeContext::elevated_ops(), &"sudo".to_string(), &args);
    assert_eq!(p, "sudo");
    assert_eq!(a, args);
    let (p, a) = elevated_invocation(PrivilegeContext::user_session(), &"systemctl".to_string(), &args);
    assert_eq!(p, "systemctl");
    assert_eq!(a, args);
}

#[test]
fn write_file_invocation_uses_install_with_octal_mode() {
    let (p, a) = write_file_invocation("/etc/heimdall/x", Some(0o600));
    assert_eq!(p, "sudo");
    assert_eq!(a, vec!["install", "-D", "-m", "600", "/dev/stdin", "/etc/heimdall/x"]);
    let (p, a) = write_file_invocation("/tmp/x", None);
    assert_eq!(p, "install");
    assert_eq!(a, vec!["-D", "-m", "644", "/dev/stdin", "/tmp/x"]);
}
