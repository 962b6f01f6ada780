//! The ordered operations of the Infisical Agent bootstrap.

use vstd::prelude::*;
use crate::common::argv::{args1, args2, args3, args4, joined, lit, no_env, push_arg, push_env};
use crate::common::operation::PlanError;
use crate::common::path::{join_path, path_join};
use super::generate::{agent_yaml_with_folders, creds_dir, render_agent_yaml, spec_systemd_unit, systemd_unit};
use crate::runner::{CommandOutput, RunnerError};
use crate::text::{trim, trim_ws};
use super::input::{
    BootstrapInfisicalConfig, InfisicalInputError, folders_after_discovery, folders_given, listed_names, spec_folder_list,
    spec_listed_names,
};

verus! {

/// One step of the Infisical bootstrap: a subprocess, or a file written with a mode.
#[derive(Debug, Clone)]
pub enum InfisicalPlannedOperation {
    Subprocess {
        id: &'static str,
        description: &'static str,
        command: String,
        args: Vec<String>,
        env: Vec<(String, String)>,
        failure_is_warning: bool,
    },
    WriteFile { id: &'static str, description: &'static str, path: String, content: String, mode: u32 },
}

/// Values found before planning: the secrets subfolders to render.
#[derive(Debug, Clone)]
pub struct InfisicalPlanArtifacts {
    pub folders: Vec<String>,
}

/// Abstract value of an [`InfisicalPlannedOperation`].
pub enum InfisicalOperationView {
    Subprocess {
        id: Seq<char>,
        description: Seq<char>,
        command: Seq<char>,
        args: Seq<Seq<char>>,
        env: Seq<(Seq<char>, Seq<char>)>,
        failure_is_warning: bool,
    },
    WriteFile { id: Seq<char>, description: Seq<char>, path: Seq<char>, content: Seq<char>, mode: u32 },
}

impl View for InfisicalPlannedOperation {
    type V = InfisicalOperationView;

    open spec fn view(&self) -> InfisicalOperationView {
        match self {
            InfisicalPlannedOperation::Subprocess { id, description, command, args, env, failure_is_warning } =>
                InfisicalOperationView::Subprocess {
                id: id@,
                description: description@,
                command: command@,
                args: args.deep_view(),
                env: env.deep_view(),
                failure_is_warning: *failure_is_warning,
            },
            InfisicalPlannedOperation::WriteFile { id, description, path, content, mode } =>
                InfisicalOperationView::WriteFile {
                id: id@,
                description: description@,
                path: path@,
                content: content@,
                mode: *mode,
            },
        }
    }
}

/// Abstract value of a whole plan.
pub open spec fn infisical_plan_view(ops: Seq<InfisicalPlannedOperation>) -> Seq<InfisicalOperationView> {
    ops.map_values(|o: InfisicalPlannedOperation| o@)
}

/// A subprocess step without environment that fails the run when it fails.
pub open spec fn run_op(id: Seq<char>, description: Seq<char>, command: Seq<char>, args: Seq<Seq<char>>) -> InfisicalOperationView {
    InfisicalOperationView::Subprocess { id, description, command, args, env: seq![], failure_is_warning: false }
}

/// A file write step.
pub open spec fn file_op(id: Seq<char>, description: Seq<char>, path: Seq<char>, content: Seq<char>, mode: u32) -> InfisicalOperationView {
    InfisicalOperationView::WriteFile { id, description, path, content, mode }
}

/// Path of the agent configuration.
pub open spec fn agent_config_path(c: BootstrapInfisicalConfig) -> Seq<char> {
    path_join(c.config_dir@, "agent.yaml"@)
}

/// Installation of the Infisical CLI from its RPM repository.
pub open spec fn infisical_install_ops() -> Seq<InfisicalOperationView> {
    seq![
        run_op(
            "download_setup_script"@,
            "Download Infisical RPM setup script"@,
            "curl"@,
            seq!["-1sLf"@, "https://artifacts-cli.infisical.com/setup.rpm.sh"@, "-o"@, "/tmp/setup.rpm.sh"@],
        ),
        run_op("run_setup_script"@, "Configure Infisical RPM repository"@, "bash"@, seq!["/tmp/setup.rpm.sh"@]),
        run_op("install_infisical"@, "Install Infisical CLI via yum"@, "yum"@, seq!["install"@, "-y"@, "infisical"@]),
    ]
}

/// The check that the credentials can read the node's secrets.
pub open spec fn verify_auth_op(c: BootstrapInfisicalConfig) -> InfisicalOperationView {
    InfisicalOperationView::Subprocess {
        id: "verify_universal_auth"@,
        description: "Verify Universal Auth credentials and project access"@,
        command: "infisical"@,
        args: seq![
            "secrets"@,
            "--domain"@,
            c.address@,
            "--projectId"@,
            c.project_id@,
            "--env"@,
            c.environment@,
            "--path"@,
            "/"@ + c.node_name@,
            "--silent"@,
        ],
        env: seq![
            ("INFISICAL_UNIVERSAL_AUTH_CLIENT_ID"@, c.client_id@),
            ("INFISICAL_UNIVERSAL_AUTH_CLIENT_SECRET"@, c.client_secret@),
        ],
        failure_is_warning: false,
    }
}

/// The Infisical plan: the CLI install unless skipped; the credentials written
/// (mode 0600) and owned by root; the agent configuration (0640) for the
/// discovered folders and its systemd unit (0644); a credentials check; then the
/// service reloaded, enabled and restarted.
pub open spec fn spec_infisical_plan(c: BootstrapInfisicalConfig, folders: Seq<Seq<char>>) -> Seq<InfisicalOperationView> {
    let creds = creds_dir(c);
    (if c.skip_install { seq![] } else { infisical_install_ops() }) + seq![
        run_op("create_creds_dir"@, "Create credentials directory"@, "mkdir"@, seq!["-p"@, creds]),
        file_op("write_client_id"@, "Write Infisical client ID"@, creds + "/client-id"@, c.client_id@, 0o600),
        file_op(
            "write_client_secret"@,
            "Write Infisical client secret"@,
            creds + "/client-secret"@,
            c.client_secret@,
            0o600,
        ),
        run_op(
            "secure_creds"@,
            "Set ownership of credentials to root:root"@,
            "chown"@,
            seq!["-R"@, "root:root"@, creds],
        ),
        file_op(
            "write_agent_config"@,
            "Write Infisical Agent configuration"@,
            agent_config_path(c),
            agent_yaml_with_folders(c, folders),
            0o640,
        ),
        file_op(
            "write_systemd_unit"@,
            "Write systemd service unit"@,
            "/etc/systemd/system/infisical-agent.service"@,
            spec_systemd_unit(agent_config_path(c)),
            0o644,
        ),
        verify_auth_op(c),
        run_op("systemd_daemon_reload"@, "Reload systemd daemon"@, "systemctl"@, seq!["daemon-reload"@]),
        run_op(
            "systemd_enable"@,
            "Enable infisical-agent service"@,
            "systemctl"@,
            seq!["enable"@, "infisical-agent.service"@],
        ),
        run_op(
            "systemd_restart"@,
            "Restart infisical-agent service"@,
            "systemctl"@,
            seq!["restart"@, "infisical-agent.service"@],
        ),
    ]
}

fn run_operation(id: &'static str, description: &'static str, command: &str, args: Vec<String>) -> (op:
    InfisicalPlannedOperation)
    ensures
        op@ == run_op(id@, description@, command@, args.deep_view()),
{
    InfisicalPlannedOperation::Subprocess {
        id,
        description,
        command: String::from_str(command),
        args,
        env: no_env(),
        failure_is_warning: false,
    }
}

fn push_op(ops: &mut Vec<InfisicalPlannedOperation>, op: InfisicalPlannedOperation)
    ensures
        infisical_plan_view(final(ops)@) == infisical_plan_view(old(ops)@).push(op@),
{
    let ghost before = ops@;
    ops.push(op);
    assert(infisical_plan_view(ops@) =~= infisical_plan_view(before).push(op@));
}

fn verify_auth_operation(config: &BootstrapInfisicalConfig) -> (op: InfisicalPlannedOperation)
    ensures
        op@ == verify_auth_op(*config),
{
    let mut args = args4(lit("secrets"), lit("--domain"), config.address.clone(), lit("--projectId"));
    push_arg(&mut args, config.project_id.clone());
    push_arg(&mut args, lit("--env"));
    push_arg(&mut args, config.environment.clone());
    push_arg(&mut args, lit("--path"));
    push_arg(&mut args, joined("/", config.node_name.as_str()));
    push_arg(&mut args, lit("--silent"));
    let mut env = no_env();
    push_env(&mut env, lit("INFISICAL_UNIVERSAL_AUTH_CLIENT_ID"), config.client_id.clone());
    push_env(&mut env, lit("INFISICAL_UNIVERSAL_AUTH_CLIENT_SECRET"), config.client_secret.clone());
    let op = InfisicalPlannedOperation::Subprocess {
        id: "verify_universal_auth",
        description: "Verify Universal Auth credentials and project access",
        command: lit("infisical"),
        args,
        env,
        failure_is_warning: false,
    };
    assert(op@ == verify_auth_op(*config)) by {
        assert(args.deep_view() =~= seq![
            "secrets"@,
            "--domain"@,
            config.address@,
            "--projectId"@,
            config.project_id@,
            "--env"@,
            config.environment@,
            "--path"@,
            "/"@ + config.node_name@,
            "--silent"@,
        ]);
        assert(env.deep_view() =~= seq![
            ("INFISICAL_UNIVERSAL_AUTH_CLIENT_ID"@, config.client_id@),
            ("INFISICAL_UNIVERSAL_AUTH_CLIENT_SECRET"@, config.client_secret@),
        ]);
    }
    op
}

/// Folder names from the JSON folder listing of `infisical secrets folders get`:
/// the `folderName` of each listed folder; an error when it is not a JSON array.
pub fn parse_folder_names(stdout_json: &str) -> (r: Result<Vec<String>, InfisicalInputError>)
    ensures
        match spec_listed_names(stdout_json@, "folderName"@) {
            Some(names) => r matches Ok(v) && v.deep_view() == names,
            None => r matches Err(InfisicalInputError::FolderListUnparsable),
        },
{
    match listed_names(stdout_json, "folderName") {
        Some(v) => Ok(v),
        None => Err(InfisicalInputError::FolderListUnparsable),
    }
}

/// Folder names from a plan-time run of the folder listing: parsed from its output
/// when it exited successfully; its trimmed stderr when it did not; the runner's
/// message when it could not run.
pub fn folder_names_from_listing(outcome: &Result<CommandOutput, RunnerError>) -> (r: Result<
    Vec<String>,
    InfisicalInputError,
>)
    ensures
        match *outcome {
            Err(e) => r matches Err(InfisicalInputError::ListingUnavailable(m)) && m@ == e.message@,
            Ok(out) => if !out.success {
                r matches Err(InfisicalInputError::FolderDiscoveryFailed(m)) && m@ == trim_ws(out.stderr@)
            } else {
                match spec_listed_names(out.stdout@, "folderName"@) {
                    Some(names) => r matches Ok(v) && v.deep_view() == names,
                    None => r matches Err(InfisicalInputError::FolderListUnparsable),
                }
            },
        },
{
    match outcome {
        Err(e) => Err(InfisicalInputError::ListingUnavailable(e.message.clone())),
        Ok(out) => {
            if !out.success {
                return Err(InfisicalInputError::FolderDiscoveryFailed(String::from_str(trim(out.stderr.as_str()))));
            }
            parse_folder_names(out.stdout.as_str())
        },
    }
}

/// The plan's folders: those of the config when it names any; otherwise the result
/// of discovery (`None` when it was not run), and after a failed discovery the typed
/// list (`None`: no terminal, root only).
pub fn resolve_plan_artifacts(
    config: &BootstrapInfisicalConfig,
    discovery: Option<Result<Vec<String>, InfisicalInputError>>,
    typed: Option<String>,
) -> (r: InfisicalPlanArtifacts)
    ensures
        config.folders@.len() > 0 ==> r.folders.deep_view() == config.folders.deep_view(),
        config.folders@.len() == 0 ==> r.folders.deep_view() == (match discovery {
            Some(Ok(f)) => f.deep_view(),
            Some(Err(_)) => match typed {
                Some(t) => spec_folder_list(t@),
                None => Seq::empty(),
            },
            None => Seq::empty(),
        }),
{
    match folders_given(&config.folders) {
        Some(f) => InfisicalPlanArtifacts { folders: f },
        None => match discovery {
            Some(d) => InfisicalPlanArtifacts { folders: folders_after_discovery(d, typed) },
            None => {
                let r: Vec<String> = Vec::new();
                assert(r.deep_view() =~= Seq::<Seq<char>>::empty());
                InfisicalPlanArtifacts { folders: r }
            },
        },
    }
}

/// Builds the Infisical plan (never fails) for the folders found beforehand.
pub fn build_plan(config: &BootstrapInfisicalConfig, artifacts: &InfisicalPlanArtifacts) -> (r: Result<
    Vec<InfisicalPlannedOperation>,
    PlanError,
>)
    ensures
        r matches Ok(ops) && infisical_plan_view(ops@) == spec_infisical_plan(*config, artifacts.folders.deep_view()),
{
    let mut ops: Vec<InfisicalPlannedOperation> = Vec::new();
    assert(infisical_plan_view(ops@) =~= Seq::<InfisicalOperationView>::empty());
    if !config.skip_install {
        push_op(
            &mut ops,
            run_operation(
                "download_setup_script",
                "Download Infisical RPM setup script",
                "curl",
                args4(
                    lit("-1sLf"),
                    lit("https://artifacts-cli.infisical.com/setup.rpm.sh"),
                    lit("-o"),
                    lit("/tmp/setup.rpm.sh"),
                ),
            ),
        );
        push_op(
            &mut ops,
            run_operation("run_setup_script", "Configure Infisical RPM repository", "bash", args1(lit("/tmp/setup.rpm.sh"))),
        );
        push_op(
            &mut ops,
            run_operation(
                "install_infisical",
                "Install Infisical CLI via yum",
                "yum",
                args3(lit("install"), lit("-y"), lit("infisical")),
            ),
        );
    }
    let creds = joined(config.secrets_dir.as_str(), "/.infisical");
    push_op(
        &mut ops,
        run_operation("create_creds_dir", "Create credentials directory", "mkdir", args2(lit("-p"), creds.clone())),
    );
    push_op(
        &mut ops,
        InfisicalPlannedOperation::WriteFile {
            id: "write_client_id",
            description: "Write Infisical client ID",
            path: joined(creds.as_str(), "/client-id"),
            content: config.client_id.clone(),
            mode: 0o600,
        },
    );
    push_op(
        &mut ops,
        InfisicalPlannedOperation::WriteFile {
            id: "write_client_secret",
            description: "Write Infisical client secret",
            path: joined(creds.as_str(), "/client-secret"),
            content: config.client_secret.clone(),
            mode: 0o600,
        },
    );
    push_op(
        &mut ops,
        run_operation(
            "secure_creds",
            "Set ownership of credentials to root:root",
            "chown",
            args3(lit("-R"), lit("root:root"), creds),
        ),
    );
    let config_path = join_path(config.config_dir.as_str(), "agent.yaml");
    push_op(
        &mut ops,
        InfisicalPlannedOperation::WriteFile {
            id: "write_agent_config",
            description: "Write Infisical Agent configuration",
            path: config_path.clone(),
            content: render_agent_yaml(config, &artifacts.folders),
            mode: 0o640,
        },
    );
    push_op(
        &mut ops,
        InfisicalPlannedOperation::WriteFile {
            id: "write_systemd_unit",
            description: "Write systemd service unit",
            path: lit("/etc/systemd/system/infisical-agent.service"),
            content: systemd_unit(config_path.as_str()),
            mode: 0o644,
        },
    );
    push_op(&mut ops, verify_auth_operation(config));
    push_op(
        &mut ops,
        run_operation("systemd_daemon_reload", "Reload systemd daemon", "systemctl", args1(lit("daemon-reload"))),
    );
    push_op(
        &mut ops,
        run_operation(
            "systemd_enable",
            "Enable infisical-agent service",
            "systemctl",
            args2(lit("enable"), lit("infisical-agent.service")),
        ),
    );
    push_op(
        &mut ops,
        run_operation(
            "systemd_restart",
            "Restart infisical-agent service",
            "systemctl",
            args2(lit("restart"), lit("infisical-agent.service")),
        ),
    );
    assert(infisical_plan_view(ops@) =~= spec_infisical_plan(*config, artifacts.folders.deep_view()));
    Ok(ops)
}

/// Number of install steps at the head of the plan.
pub open spec fn infisical_install_count(c: BootstrapInfisicalConfig) -> int {
    if c.skip_install {
        0
    } else {
        3
    }
}

/// Infisical plan invariants: both credentials are written readable by their
/// owner only (0600) inside the credentials directory, before ownership is
/// fixed; the systemd unit starts the agent with exactly the configuration file
/// the plan writes; the service is restarted last.
pub proof fn law_infisical_plan_consistency(c: BootstrapInfisicalConfig, folders: Seq<Seq<char>>)
    ensures
        ({
            let p = spec_infisical_plan(c, folders);
            let k = infisical_install_count(c);
            &&& p.len() == k + 10
            &&& p[k + 1] == file_op("write_client_id"@, "Write Infisical client ID"@, creds_dir(c) + "/client-id"@, c.client_id@, 0o600)
            &&& p[k + 2] == file_op(
                "write_client_secret"@,
                "Write Infisical client secret"@,
                creds_dir(c) + "/client-secret"@,
                c.client_secret@,
                0o600,
            )
            &&& p[k + 3] == run_op("secure_creds"@, "Set ownership of credentials to root:root"@, "chown"@, seq!["-R"@, "root:root"@, creds_dir(c)])
            &&& p[k + 4] matches InfisicalOperationView::WriteFile { path: config_path, .. }
            &&& p[k + 5] matches InfisicalOperationView::WriteFile { content: unit, .. }
            &&& p[k + 5]->WriteFile_content == spec_systemd_unit(p[k + 4]->WriteFile_path)
            &&& p[p.len() - 1] == run_op(
                "systemd_restart"@,
                "Restart infisical-agent service"@,
                "systemctl"@,
                seq!["restart"@, "infisical-agent.service"@],
            )
        }),
{
}

} // verus!
