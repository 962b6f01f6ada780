//! The ordered operations of a Komodo deployment.

use vstd::prelude::*;
use crate::cli::KomodoMode;
use crate::common::argv::{args1, args2, lit, no_args, no_env, push_arg};
use crate::common::operation::PlanError;
use crate::common::path::{join_path, path_join};
use super::generate::{
    PERIPHERY_YAML, compose_env_core, compose_env_periphery, compose_yaml_core, compose_yaml_periphery,
    spec_compose_env_core, spec_compose_env_periphery, spec_compose_yaml_core,
};
use super::input::{BootstrapKomodoConfig, hex_of, hex_string};

verus! {

/// One step of a Komodo deployment: a subprocess, or a file to write.
#[derive(Debug, Clone)]
pub enum KomodoPlannedOperation {
    Subprocess {
        id: &'static str,
        description: &'static str,
        command: String,
        args: Vec<String>,
        env: Vec<(String, String)>,
        failure_is_warning: bool,
    },
    WriteFile { id: &'static str, description: &'static str, path: String, content: String },
}

/// Random bytes for the secrets of the core environment file.
#[derive(Debug, Clone)]
pub struct KomodoSecrets {
    pub webhook: Vec<u8>,
    pub jwt: Vec<u8>,
}

/// Abstract value of a [`KomodoPlannedOperation`].
pub enum KomodoOperationView {
    Subprocess {
        id: Seq<char>,
        description: Seq<char>,
        command: Seq<char>,
        args: Seq<Seq<char>>,
        env: Seq<(Seq<char>, Seq<char>)>,
        failure_is_warning: bool,
    },
    WriteFile { id: Seq<char>, description: Seq<char>, path: Seq<char>, content: Seq<char> },
}

impl View for KomodoPlannedOperation {
    type V = KomodoOperationView;

    open spec fn view(&self) -> KomodoOperationView {
        match self {
            KomodoPlannedOperation::Subprocess { id, description, command, args, env, failure_is_warning } =>
                KomodoOperationView::Subprocess {
                id: id@,
                description: description@,
                command: command@,
                args: args.deep_view(),
                env: env.deep_view(),
                failure_is_warning: *failure_is_warning,
            },
            KomodoPlannedOperation::WriteFile { id, description, path, content } => KomodoOperationView::WriteFile {
                id: id@,
                description: description@,
                path: path@,
                content: content@,
            },
        }
    }
}

impl KomodoOperationView {
    /// The step that starts the stack.
    pub open spec fn is_up(&self) -> bool {
        self matches KomodoOperationView::Subprocess { id, .. } && id == "docker_compose_up"@
    }
}

/// Abstract value of a whole plan.
pub open spec fn komodo_plan_view(ops: Seq<KomodoPlannedOperation>) -> Seq<KomodoOperationView> {
    ops.map_values(|o: KomodoPlannedOperation| o@)
}

/// A `docker` step without environment that fails the run when it fails.
pub open spec fn docker_op(id: Seq<char>, description: Seq<char>, args: Seq<Seq<char>>) -> KomodoOperationView {
    KomodoOperationView::Subprocess { id, description, command: "docker"@, args, env: seq![], failure_is_warning: false }
}

/// Path of the compose file.
pub open spec fn compose_yaml_path(c: BootstrapKomodoConfig) -> Seq<char> {
    path_join(c.dir@, "compose.yaml"@)
}

/// Path of the compose environment file.
pub open spec fn compose_env_path(c: BootstrapKomodoConfig) -> Seq<char> {
    path_join(c.dir@, "compose.env"@)
}

/// Writing the compose file and its environment file.
pub open spec fn compose_file_ops(c: BootstrapKomodoConfig, yaml: Seq<char>, env: Seq<char>) -> Seq<KomodoOperationView> {
    seq![
        KomodoOperationView::WriteFile {
            id: "write_compose_yaml"@,
            description: "Write Docker Compose configuration"@,
            path: compose_yaml_path(c),
            content: yaml,
        },
        KomodoOperationView::WriteFile {
            id: "write_compose_env"@,
            description: "Write Docker Compose environment variables"@,
            path: compose_env_path(c),
            content: env,
        },
    ]
}

/// The Komodo plan: check Docker and Compose; write the compose files (for a
/// periphery, first the core's public key when one was given); then start the
/// stack unless `--no-up`.
pub open spec fn spec_komodo_plan(c: BootstrapKomodoConfig, s: KomodoSecrets) -> Seq<KomodoOperationView> {
    let checks = seq![
        docker_op("check_docker"@, "Check Docker is installed"@, seq!["--version"@]),
        docker_op("check_docker_compose"@, "Check Docker Compose is available"@, seq!["compose"@, "version"@]),
    ];
    let files = if c.mode == KomodoMode::Core {
        compose_file_ops(c, spec_compose_yaml_core(c), spec_compose_env_core(c, hex_of(s.webhook@), hex_of(s.jwt@)))
    } else {
        (match c.core_public_key_content {
            Some(k) => seq![
                KomodoOperationView::WriteFile {
                    id: "write_core_public_key"@,
                    description: "Write Core's public key"@,
                    path: path_join(path_join(c.dir@, "keys"@), "core.pub"@),
                    content: k@,
                },
            ],
            None => seq![],
        }) + compose_file_ops(c, PERIPHERY_YAML@, spec_compose_env_periphery(c))
    };
    let up = if c.no_up {
        seq![]
    } else {
        seq![
            docker_op(
                "docker_compose_up"@,
                "Start containers with docker compose"@,
                seq!["compose"@, "-f"@, compose_yaml_path(c), "--env-file"@, compose_env_path(c), "up"@, "-d"@],
            ),
        ]
    };
    checks + files + up
}

fn push_op(ops: &mut Vec<KomodoPlannedOperation>, op: KomodoPlannedOperation)
    ensures
        komodo_plan_view(final(ops)@) == komodo_plan_view(old(ops)@).push(op@),
{
    let ghost before = ops@;
    ops.push(op);
    assert(komodo_plan_view(ops@) =~= komodo_plan_view(before).push(op@));
}

fn docker_operation(id: &'static str, description: &'static str, args: Vec<String>) -> (op: KomodoPlannedOperation)
    ensures
        op@ == docker_op(id@, description@, args.deep_view()),
{
    KomodoPlannedOperation::Subprocess {
        id,
        description,
        command: lit("docker"),
        args,
        env: no_env(),
        failure_is_warning: false,
    }
}

/// Builds the Komodo plan (never fails); `secrets` are the random bytes of the
/// core's webhook and JWT secrets.
pub fn build_plan(config: &BootstrapKomodoConfig, secrets: &KomodoSecrets) -> (r: Result<
    Vec<KomodoPlannedOperation>,
    PlanError,
>)
    ensures
        r matches Ok(ops) && komodo_plan_view(ops@) == spec_komodo_plan(*config, *secrets),
{
    let mut ops: Vec<KomodoPlannedOperation> = Vec::new();
    assert(komodo_plan_view(ops@) =~= Seq::<KomodoOperationView>::empty());
    push_op(&mut ops, docker_operation("check_docker", "Check Docker is installed", args1(lit("--version"))));
    push_op(
        &mut ops,
        docker_operation("check_docker_compose", "Check Docker Compose is available", args2(lit("compose"), lit("version"))),
    );
    let ghost checks = komodo_plan_view(ops@);
    let yaml_path = join_path(config.dir.as_str(), "compose.yaml");
    let env_path = join_path(config.dir.as_str(), "compose.env");
    let (yaml, env) = match config.mode {
        KomodoMode::Core => {
            let webhook = hex_string(&secrets.webhook);
            let jwt = hex_string(&secrets.jwt);
            (compose_yaml_core(config), compose_env_core(config, webhook.as_str(), jwt.as_str()))
        },
        KomodoMode::Periphery => {
            match &config.core_public_key_content {
                Some(key) => {
                    let keys_dir = join_path(config.dir.as_str(), "keys");
                    push_op(
                        &mut ops,
                        KomodoPlannedOperation::WriteFile {
                            id: "write_core_public_key",
                            description: "Write Core's public key",
                            path: join_path(keys_dir.as_str(), "core.pub"),
                            content: key.clone(),
                        },
                    );
                },
                None => {},
            }
            (compose_yaml_periphery(config), compose_env_periphery(config))
        },
    };
    push_op(
        &mut ops,
        KomodoPlannedOperation::WriteFile {
            id: "write_compose_yaml",
            description: "Write Docker Compose configuration",
            path: yaml_path.clone(),
            content: yaml,
        },
    );
    push_op(
        &mut ops,
        KomodoPlannedOperation::WriteFile {
            id: "write_compose_env",
            description: "Write Docker Compose environment variables",
            path: env_path.clone(),
            content: env,
        },
    );
    let ghost files = komodo_plan_view(ops@).skip(2);
    assert(komodo_plan_view(ops@) =~= checks + files);
    assert(files =~= (if config.mode == KomodoMode::Core {
        compose_file_ops(*config, spec_compose_yaml_core(*config), spec_compose_env_core(*config, hex_of(secrets.webhook@), hex_of(secrets.jwt@)))
    } else {
        (match config.core_public_key_content {
            Some(k) => seq![
                KomodoOperationView::WriteFile {
                    id: "write_core_public_key"@,
                    description: "Write Core's public key"@,
                    path: path_join(path_join(config.dir@, "keys"@), "core.pub"@),
                    content: k@,
                },
            ],
            None => seq![],
        }) + compose_file_ops(*config, PERIPHERY_YAML@, spec_compose_env_periphery(*config))
    }));
    if !config.no_up {
        let mut args = no_args();
        push_arg(&mut args, lit("compose"));
        push_arg(&mut args, lit("-f"));
        push_arg(&mut args, yaml_path);
        push_arg(&mut args, lit("--env-file"));
        push_arg(&mut args, env_path);
        push_arg(&mut args, lit("up"));
        push_arg(&mut args, lit("-d"));
        assert(args.deep_view() =~= seq!["compose"@, "-f"@, compose_yaml_path(*config), "--env-file"@, compose_env_path(*config), "up"@, "-d"@]);
        push_op(&mut ops, docker_operation("docker_compose_up", "Start containers with docker compose", args));
    }
    assert(komodo_plan_view(ops@) =~= spec_komodo_plan(*config, *secrets));
    Ok(ops)
}

/// `docker compose up` reads exactly the compose and environment files the plan
/// writes, and is the last step; with `--no-up` nothing is started.
pub proof fn law_komodo_up_uses_written_files(c: BootstrapKomodoConfig, s: KomodoSecrets)
    ensures
        ({
            let p = spec_komodo_plan(c, s);
            let files = p.len() - (if c.no_up { 0int } else { 1int });
            &&& p[files - 2] matches KomodoOperationView::WriteFile { path: yaml_path, .. }
            &&& p[files - 2]->WriteFile_path == compose_yaml_path(c)
            &&& p[files - 1] matches KomodoOperationView::WriteFile { path: env_path, .. }
            &&& p[files - 1]->WriteFile_path == compose_env_path(c)
            &&& !c.no_up ==> p[p.len() - 1] == docker_op(
                "docker_compose_up"@,
                "Start containers with docker compose"@,
                seq!["compose"@, "-f"@, compose_yaml_path(c), "--env-file"@, compose_env_path(c), "up"@, "-d"@],
            )
            &&& c.no_up ==> forall|i: int| 0 <= i < p.len() ==> (#[trigger] p[i]).is_up() == false
        }),
{
    let p = spec_komodo_plan(c, s);
    reveal_strlit("docker_compose_up");
    reveal_strlit("check_docker");
    reveal_strlit("check_docker_compose");
    reveal_strlit("write_compose_yaml");
    reveal_strlit("write_compose_env");
    reveal_strlit("write_core_public_key");
    assert("docker_compose_up"@.len() == 17);
    assert("check_docker"@.len() == 12);
    assert("check_docker_compose"@.len() == 20);
    if c.no_up {
        assert forall|i: int| 0 <= i < p.len() implies (#[trigger] p[i]).is_up() == false by {
            if i >= 2 {
                if c.mode != KomodoMode::Core && c.core_public_key_content is Some {
                    assert(i < 5);
                } else {
                    assert(i < 4);
                }
            }
        }
    }
}

} // verus!
