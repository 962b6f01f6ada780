//! Docker bootstrap inputs resolved from flags and environment.

use vstd::prelude::*;
use crate::cli::{BootstrapDockerCommand, OutputFormat};
use crate::runner::{CommandOutput, CommandRunner, IoMode, RunnerCall, RunnerError, outcome_succeeded, plain_call, probe_succeeded};
use super::validate::{
    DockerValidationError, has_http_scheme, spec_validate_username, validate_registry_mirror, validate_url,
    validate_username,
};

verus! {

/// Resolved settings of the Docker bootstrap.
#[derive(Debug, Clone)]
pub struct DockerConfig {
    pub install_script_url: String,
    pub add_user: Option<String>,
    pub log_driver: Option<String>,
    pub registry_mirrors: Vec<String>,
    pub dry_run: bool,
    pub force: bool,
    /// When true, the plan omits the install script (docker already on `PATH`).
    pub skip_install: bool,
}

/// Resolved settings plus the report format.
#[derive(Debug, Clone)]
pub struct ResolvedDockerInputs {
    pub config: DockerConfig,
    pub output: OutputFormat,
}

/// Install script URL: the flag, else `DOCKER_INSTALL_SCRIPT_URL`, else `https://get.docker.com`.
pub open spec fn chosen_install_script_url(flag: Option<String>, env_url: Option<String>) -> Seq<char> {
    match flag {
        Some(u) => u@,
        None => match env_url {
            Some(e) => e@,
            None => "https://get.docker.com"@,
        },
    }
}

/// Some registry mirror lacks an http(s) scheme.
pub open spec fn has_bad_mirror(mirrors: Seq<String>) -> bool {
    exists|i: int| 0 <= i < mirrors.len() && !has_http_scheme(#[trigger] mirrors[i]@)
}

/// The first check that rejects the inputs, in the order the checks run.
pub open spec fn spec_resolve_error(opts: BootstrapDockerCommand, env_url: Option<String>) -> Option<
    DockerValidationError,
> {
    if !has_http_scheme(chosen_install_script_url(opts.install_script_url, env_url)) {
        Some(DockerValidationError::InstallScriptUrlScheme)
    } else if has_bad_mirror(opts.registry_mirrors@) {
        Some(DockerValidationError::RegistryMirrorScheme)
    } else {
        match opts.user {
            Some(u) => match spec_validate_username(u@) {
                Err(e) => Some(e),
                Ok(_) => None,
            },
            None => None,
        }
    }
}

/// Builds the Docker settings from the flags and the value of
/// `DOCKER_INSTALL_SCRIPT_URL` (if set), after validating the URL, every registry
/// mirror and the optional user name. Asking for confirmation is left to the caller
/// (see [`needs_confirmation`]).
#[verifier::loop_isolation(false)]
pub fn resolve_inputs(opts: BootstrapDockerCommand, env_install_script_url: Option<String>) -> (r: Result<
    ResolvedDockerInputs,
    DockerValidationError,
>)
    ensures
        match spec_resolve_error(opts, env_install_script_url) {
            Some(e) => r == Err::<ResolvedDockerInputs, DockerValidationError>(e),
            None => r matches Ok(res) && {
                &&& res.config.install_script_url@ == chosen_install_script_url(opts.install_script_url, env_install_script_url)
                &&& res.config.add_user == opts.user
                &&& res.config.log_driver == opts.log_driver
                &&& res.config.registry_mirrors == opts.registry_mirrors
                &&& res.config.dry_run == opts.dry_run
                &&& res.config.force == opts.force
                &&& !res.config.skip_install
                &&& res.output == opts.output
            },
        },
{
    let install_script_url = match opts.install_script_url {
        Some(u) => u,
        None => match env_install_script_url {
            Some(e) => e,
            None => String::from_str("https://get.docker.com"),
        },
    };
    match validate_url(install_script_url.as_str()) {
        Ok(_) => {},
        Err(e) => return Err(e),
    }
    let mut i: usize = 0;
    while i < opts.registry_mirrors.len()
        invariant
            i <= opts.registry_mirrors@.len(),
            forall|j: int| 0 <= j < i ==> has_http_scheme(#[trigger] opts.registry_mirrors@[j]@),
        decreases opts.registry_mirrors.len() - i,
    {
        match validate_registry_mirror(opts.registry_mirrors[i].as_str()) {
            Ok(_) => {},
            Err(e) => {
                assert(!has_http_scheme(opts.registry_mirrors@[i as int]@));
                return Err(e);
            },
        }
        i = i + 1;
    }
    match &opts.user {
        Some(user) => match validate_username(user.as_str()) {
            Ok(_) => {},
            Err(e) => return Err(e),
        },
        None => {},
    }
    Ok(ResolvedDockerInputs {
        config: DockerConfig {
            install_script_url,
            add_user: opts.user,
            log_driver: opts.log_driver,
            registry_mirrors: opts.registry_mirrors,
            dry_run: opts.dry_run,
            force: opts.force,
            skip_install: false,
        },
        output: opts.output,
    })
}

/// The user must confirm the install unless `--yes` or `--dry-run` is given.
pub fn needs_confirmation(opts: &BootstrapDockerCommand) -> (r: bool)
    ensures
        r == !(opts.yes || opts.dry_run),
{
    !(opts.yes || opts.dry_run)
}

/// The read-only probe `sh -c "command -v docker >/dev/null 2>&1"`.
pub open spec fn spec_docker_probe_args() -> Seq<Seq<char>> {
    seq!["-c"@, "command -v docker >/dev/null 2>&1"@]
}

/// Arguments of the `sh` probe for docker on `PATH`.
pub fn docker_probe_args() -> (r: Vec<String>)
    ensures
        r.deep_view() == spec_docker_probe_args(),
{
    vec![String::from_str("-c"), String::from_str("command -v docker >/dev/null 2>&1")]
}

/// The runner call of the docker probe: `sh -c "command -v docker >/dev/null 2>&1"`,
/// no environment, output captured.
pub open spec fn docker_probe_call() -> RunnerCall {
    plain_call("sh"@, spec_docker_probe_args(), seq![], IoMode::Buffered)
}

/// Runs the probe through `runner`; true when it ran and exited successfully.
pub fn probe_docker_on_path<R: CommandRunner>(runner: &R) -> (r: bool)
    requires
        runner.may_run(docker_probe_call()),
    ensures
        exists|o: Result<CommandOutput, RunnerError>|
            #[trigger] runner.outcome_possible(docker_probe_call(), o) && r == outcome_succeeded(o),
{
    let args = docker_probe_args();
    let env: Vec<(String, String)> = Vec::new();
    assert(env.deep_view() =~= Seq::<(Seq<char>, Seq<char>)>::empty());
    let outcome = runner.run_with_env_io("sh", &args, &env, IoMode::Buffered);
    probe_succeeded(&outcome)
}

/// Skips the installer when docker is already on `PATH`, unless `--force` asks to
/// run it again: without `force` the probe runs and, when it succeeds, `skip_install`
/// is set; with `force` nothing runs and the config is unchanged. Returns whether the
/// installer is now skipped because docker was found.
pub fn skip_install_when_present<R: CommandRunner>(runner: &R, config: &mut DockerConfig) -> (found: bool)
    requires
        !old(config).force ==> runner.may_run(docker_probe_call()),
    ensures
        old(config).force ==> !found,
        !old(config).force ==> exists|o: Result<CommandOutput, RunnerError>|
            #[trigger] runner.outcome_possible(docker_probe_call(), o) && found == outcome_succeeded(o),
        *final(config) == (DockerConfig { skip_install: old(config).skip_install || found, ..*old(config) }),
{
    if config.force {
        return false;
    }
    let found = probe_docker_on_path(runner);
    if found {
        config.skip_install = true;
    }
    found
}

} // verus!
