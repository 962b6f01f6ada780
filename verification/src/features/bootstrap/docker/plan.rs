//! The ordered operations of the Docker bootstrap.

use vstd::prelude::*;
use crate::common::argv::{args1, args2, args3, lit, no_env};
use crate::common::operation::{new_plan, plan_has, OperationKindView,
    PlannedOperation, PlannedOperationView, plan_view, push_operation, shell_op, shell_operation, write_file_operation,
    write_op,
};
use super::generate::{DaemonJsonError, generate_daemon_json, spec_daemon_json};
use super::input::DockerConfig;

verus! {

/// The shell pipeline that downloads and runs the install script.
pub open spec fn spec_install_pipeline(url: Seq<char>) -> Seq<char> {
    "curl -fsSL "@ + url + " | sh"@
}

/// `daemon.json` is written when a log driver or a registry mirror is configured.
pub open spec fn wants_daemon_json(c: DockerConfig) -> bool {
    c.log_driver is Some || c.registry_mirrors@.len() > 0
}

/// The daemon configuration text for `c`.
pub open spec fn config_daemon_json(c: DockerConfig) -> Seq<char> {
    spec_daemon_json(c.log_driver.deep_view(), c.registry_mirrors.deep_view())
}

pub open spec fn install_docker_op(url: Seq<char>) -> PlannedOperationView {
    shell_op(
        "install_docker"@,
        "Download and run Docker install script"@,
        "sh"@,
        seq!["-c"@, spec_install_pipeline(url)],
        seq![],
        false,
    )
}

pub open spec fn enable_docker_op() -> PlannedOperationView {
    shell_op(
        "enable_docker_service"@,
        "Enable and start docker systemd service"@,
        "systemctl"@,
        seq!["enable"@, "--now"@, "docker"@],
        seq![],
        false,
    )
}

pub open spec fn write_daemon_json_op(content: Seq<char>) -> PlannedOperationView {
    write_op("write_daemon_json"@, "Write /etc/docker/daemon.json"@, "/etc/docker/daemon.json"@, content, None)
}

pub open spec fn add_to_group_op(user: Seq<char>) -> PlannedOperationView {
    shell_op(
        "add_to_docker_group"@,
        "Add user to docker group"@,
        "usermod"@,
        seq!["-aG"@, "docker"@, user],
        seq![],
        false,
    )
}

pub open spec fn verify_docker_op() -> PlannedOperationView {
    shell_op("verify_docker"@, "Verify Docker daemon responds"@, "docker"@, seq!["info"@], seq![], true)
}

/// The Docker plan: install (unless skipped), enable the service, write
/// `daemon.json` (when configured), add the user to the docker group (when given),
/// and verify the daemon (a warning only).
pub open spec fn spec_docker_plan(c: DockerConfig) -> Seq<PlannedOperationView> {
    let install = if !c.skip_install { seq![install_docker_op(c.install_script_url@)] } else { seq![] };
    let daemon = if wants_daemon_json(c) { seq![write_daemon_json_op(config_daemon_json(c))] } else { seq![] };
    let group = match c.add_user {
        Some(u) => seq![add_to_group_op(u@)],
        None => seq![],
    };
    install + seq![enable_docker_op()] + daemon + group + seq![verify_docker_op()]
}

/// Builds the Docker plan; it is always built, since rendering `daemon.json` never
/// fails.
pub fn build_plan(config: &DockerConfig) -> (r: Result<Vec<PlannedOperation>, DaemonJsonError>)
    ensures
        r is Ok,
        r matches Ok(ops) && plan_view(ops@) == spec_docker_plan(*config),
{
    let mut operations = new_plan();
    let ghost mut expected: Seq<PlannedOperationView> = seq![];
    if !config.skip_install {
        let (command, args) = build_install_command(config.install_script_url.as_str());
        let op = shell_operation("install_docker", "Download and run Docker install script", command.as_str(), args, no_env(), false);
        push_operation(&mut operations, op);
        proof {
            expected = expected.push(install_docker_op(config.install_script_url@));
        }
    }
    let op = shell_operation(
        "enable_docker_service",
        "Enable and start docker systemd service",
        "systemctl",
        args3(lit("enable"), lit("--now"), lit("docker")),
        no_env(),
        false,
    );
    push_operation(&mut operations, op);
    proof {
        expected = expected.push(enable_docker_op());
    }
    if config.log_driver.is_some() || config.registry_mirrors.len() > 0 {
        let log_driver = match &config.log_driver {
            Some(d) => Some(d.as_str()),
            None => None,
        };
        let daemon_json = match generate_daemon_json(log_driver, &config.registry_mirrors) {
            Ok(text) => text,
            Err(e) => return Err(e),
        };
        let op = write_file_operation("write_daemon_json", "Write /etc/docker/daemon.json", "/etc/docker/daemon.json", daemon_json, None);
        push_operation(&mut operations, op);
        proof {
            expected = expected.push(write_daemon_json_op(config_daemon_json(*config)));
        }
    }
    match &config.add_user {
        Some(user) => {
            let op = shell_operation(
                "add_to_docker_group",
                "Add user to docker group",
                "usermod",
                args3(lit("-aG"), lit("docker"), user.clone()),
                no_env(),
                false,
            );
            push_operation(&mut operations, op);
            proof {
                expected = expected.push(add_to_group_op(user@));
            }
        },
        None => {},
    }
    let op = shell_operation("verify_docker", "Verify Docker daemon responds", "docker", args1(lit("info")), no_env(), true);
    push_operation(&mut operations, op);
    proof {
        expected = expected.push(verify_docker_op());
        assert(expected =~= spec_docker_plan(*config));
    }
    Ok(operations)
}

/// `sh -c "curl -fsSL <url> | sh"`.
fn build_install_command(url: &str) -> (r: (String, Vec<String>))
    ensures
        r.0@ == "sh"@,
        r.1.deep_view() == seq!["-c"@, spec_install_pipeline(url@)],
{
    let mut pipeline = String::from_str("curl -fsSL ");
    pipeline.append(url);
    pipeline.append(" | sh");
    (lit("sh"), args2(lit("-c"), pipeline))
}

/// Docker plan invariants: the service is always enabled and the daemon always
/// verified, last and as a warning only; the install step is there exactly when
/// the install is not skipped, `daemon.json` exactly when a log driver or mirror
/// is configured, and the group change exactly when a user is given.
pub proof fn law_docker_plan_contents(c: DockerConfig)
    ensures
        plan_has(spec_docker_plan(c), "enable_docker_service"@),
        plan_has(spec_docker_plan(c), "verify_docker"@),
        spec_docker_plan(c).last() == verify_docker_op(),
        spec_docker_plan(c).last().failure_is_warning,
        plan_has(spec_docker_plan(c), "install_docker"@) <==> !c.skip_install,
        plan_has(spec_docker_plan(c), "write_daemon_json"@) <==> wants_daemon_json(c),
        plan_has(spec_docker_plan(c), "add_to_docker_group"@) <==> c.add_user is Some,
{
    reveal_strlit("install_docker");
    reveal_strlit("enable_docker_service");
    reveal_strlit("write_daemon_json");
    reveal_strlit("add_to_docker_group");
    reveal_strlit("verify_docker");
    assert("install_docker"@.len() == 14);
    assert("enable_docker_service"@.len() == 21);
    assert("write_daemon_json"@.len() == 17);
    assert("add_to_docker_group"@.len() == 19);
    assert("verify_docker"@.len() == 13);
    let p = spec_docker_plan(c);
    let install = if !c.skip_install { seq![install_docker_op(c.install_script_url@)] } else { seq![] };
    let daemon = if wants_daemon_json(c) { seq![write_daemon_json_op(config_daemon_json(c))] } else { seq![] };
    let group = match c.add_user {
        Some(u) => seq![add_to_group_op(u@)],
        None => seq![],
    };
    let k = install.len() as int;
    assert(p[k] == enable_docker_op());
    assert(p[p.len() - 1] == verify_docker_op());
    if !c.skip_install {
        assert(p[0] == install_docker_op(c.install_script_url@));
    }
    if wants_daemon_json(c) {
        assert(p[k + 1] == write_daemon_json_op(config_daemon_json(c)));
    }
    if c.add_user is Some {
        assert(p[k + 1 + daemon.len()] == add_to_group_op(c.add_user->0@));
    }
    assert forall|i: int| 0 <= i < p.len() implies
        (p[i].id == "install_docker"@ ==> !c.skip_install)
        && (p[i].id == "write_daemon_json"@ ==> wants_daemon_json(c))
        && (p[i].id == "add_to_docker_group"@ ==> c.add_user is Some)
    by {
        if i < k {
            assert(p[i] == install[i]);
        } else if i == k {
            assert(p[i] == enable_docker_op());
        } else if i < k + 1 + daemon.len() {
            assert(p[i] == daemon[i - k - 1]);
        } else if i < k + 1 + daemon.len() + group.len() {
            assert(p[i] == group[i - k - 1 - daemon.len()]);
        } else {
            assert(i == p.len() - 1);
            assert(p[i] == verify_docker_op());
        }
    }
}

/// The group step runs `usermod -aG docker <user>` for the given user: it appends
/// the docker group and keeps the user's other supplementary groups. It is there
/// exactly when a user is given.
pub proof fn law_docker_group_step_appends(c: DockerConfig)
    ensures
        forall|i: int|
            0 <= i < spec_docker_plan(c).len() && (#[trigger] spec_docker_plan(c)[i]).id == "add_to_docker_group"@ ==> (
            c.add_user matches Some(u) && spec_docker_plan(c)[i].kind == (OperationKindView::Shell {
                command: "usermod"@,
                args: seq!["-aG"@, "docker"@, u@],
                env: seq![],
                stdin_input: None,
            })),
        plan_has(spec_docker_plan(c), "add_to_docker_group"@) <==> c.add_user is Some,
{
    law_docker_plan_contents(c);
    reveal_strlit("install_docker");
    reveal_strlit("enable_docker_service");
    reveal_strlit("write_daemon_json");
    reveal_strlit("add_to_docker_group");
    reveal_strlit("verify_docker");
    assert("install_docker"@.len() == 14);
    assert("enable_docker_service"@.len() == 21);
    assert("write_daemon_json"@.len() == 17);
    assert("add_to_docker_group"@.len() == 19);
    assert("verify_docker"@.len() == 13);
    let p = spec_docker_plan(c);
    let install = if !c.skip_install { seq![install_docker_op(c.install_script_url@)] } else { seq![] };
    let daemon = if wants_daemon_json(c) { seq![write_daemon_json_op(config_daemon_json(c))] } else { seq![] };
    let group = match c.add_user {
        Some(u) => seq![add_to_group_op(u@)],
        None => seq![],
    };
    let k = install.len() as int;
    assert forall|i: int| 0 <= i < p.len() && (#[trigger] p[i]).id == "add_to_docker_group"@ implies (
        c.add_user matches Some(u) && p[i].kind == (OperationKindView::Shell {
            command: "usermod"@,
            args: seq!["-aG"@, "docker"@, u@],
            env: seq![],
            stdin_input: None,
        })) by {
        if i < k {
            assert(p[i] == install[i]);
        } else if i == k {
            assert(p[i] == enable_docker_op());
        } else if i < k + 1 + daemon.len() {
            assert(p[i] == daemon[i - k - 1]);
        } else if i < k + 1 + daemon.len() + group.len() {
            assert(p[i] == group[i - k - 1 - daemon.len()]);
        } else {
            assert(p[i] == verify_docker_op());
        }
    }
}

/// What each Docker step runs: the install pipes the configured script URL into
/// `sh`; the service is enabled and started with `systemctl enable --now docker`;
/// `daemon.json` is written to `/etc/docker/daemon.json`; the daemon is checked with
/// `docker info`, as a warning only.
pub proof fn law_docker_step_commands(c: DockerConfig)
    ensures
        forall|i: int| 0 <= i < spec_docker_plan(c).len() ==> {
            let op = #[trigger] spec_docker_plan(c)[i];
            &&& op.id == "install_docker"@ ==> op.kind == (OperationKindView::Shell {
                command: "sh"@,
                args: seq!["-c"@, "curl -fsSL "@ + c.install_script_url@ + " | sh"@],
                env: seq![],
                stdin_input: None,
            })
            &&& op.id == "enable_docker_service"@ ==> op.kind == (OperationKindView::Shell {
                command: "systemctl"@,
                args: seq!["enable"@, "--now"@, "docker"@],
                env: seq![],
                stdin_input: None,
            })
            &&& op.id == "write_daemon_json"@ ==> (op.kind matches OperationKindView::WriteFile { path, .. } && path
                == "/etc/docker/daemon.json"@)
            &&& op.id == "verify_docker"@ ==> op.failure_is_warning && op.kind == (OperationKindView::Shell {
                command: "docker"@,
                args: seq!["info"@],
                env: seq![],
                stdin_input: None,
            })
        },
{
    reveal_strlit("install_docker");
    reveal_strlit("enable_docker_service");
    reveal_strlit("write_daemon_json");
    reveal_strlit("add_to_docker_group");
    reveal_strlit("verify_docker");
    assert("install_docker"@.len() == 14);
    assert("enable_docker_service"@.len() == 21);
    assert("write_daemon_json"@.len() == 17);
    assert("add_to_docker_group"@.len() == 19);
    assert("verify_docker"@.len() == 13);
    let p = spec_docker_plan(c);
    let install = if !c.skip_install { seq![install_docker_op(c.install_script_url@)] } else { seq![] };
    let daemon = if wants_daemon_json(c) { seq![write_daemon_json_op(config_daemon_json(c))] } else { seq![] };
    let group = match c.add_user {
        Some(u) => seq![add_to_group_op(u@)],
        None => seq![],
    };
    let k = install.len() as int;
    assert forall|i: int| 0 <= i < p.len() implies {
        let op = #[trigger] p[i];
        &&& op.id == "install_docker"@ ==> op.kind == (OperationKindView::Shell {
            command: "sh"@,
            args: seq!["-c"@, "curl -fsSL "@ + c.install_script_url@ + " | sh"@],
            env: seq![],
            stdin_input: None,
        })
        &&& op.id == "enable_docker_service"@ ==> op.kind == (OperationKindView::Shell {
            command: "systemctl"@,
            args: seq!["enable"@, "--now"@, "docker"@],
            env: seq![],
            stdin_input: None,
        })
        &&& op.id == "write_daemon_json"@ ==> (op.kind matches OperationKindView::WriteFile { path, .. } && path
            == "/etc/docker/daemon.json"@)
        &&& op.id == "verify_docker"@ ==> op.failure_is_warning && op.kind == (OperationKindView::Shell {
            command: "docker"@,
            args: seq!["info"@],
            env: seq![],
            stdin_input: None,
        })
    } by {
        if i < k {
            assert(p[i] == install[i]);
        } else if i == k {
            assert(p[i] == enable_docker_op());
        } else if i < k + 1 + daemon.len() {
            assert(p[i] == daemon[i - k - 1]);
        } else if i < k + 1 + daemon.len() + group.len() {
            assert(p[i] == group[i - k - 1 - daemon.len()]);
        } else {
            assert(p[i] == verify_docker_op());
        }
    }
}

} // verus!
