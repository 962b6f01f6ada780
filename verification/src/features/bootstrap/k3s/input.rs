//! k3s bootstrap inputs resolved from flags and environment.

use vstd::prelude::*;
use crate::cli::{BootstrapK3sCommand, K3sRole, OutputFormat};
use crate::runner::{CommandOutput, CommandRunner, IoMode, RunnerCall, RunnerError, outcome_succeeded, plain_call, probe_succeeded};
use crate::text::{flag_or_env_trimmed, spec_flag_or_env_trimmed};
use super::validate::{K3sValidationError, spec_validate_agent_inputs, spec_validate_k3s_server_url, validate_agent_inputs, validate_k3s_server_url};

verus! {

/// Resolved settings of the k3s bootstrap.
#[derive(Debug, Clone)]
pub struct BootstrapK3sConfig {
    pub install_script_path: String,
    pub role: K3sRole,
    pub server_url: Option<String>,
    pub token: Option<String>,
    pub version: Option<String>,
    pub install_exec: Option<String>,
    pub skip_start: bool,
    pub skip_enable: bool,
    pub force: bool,
    /// When true, the plan omits the get.k3s.io download and install.
    pub skip_install: bool,
    pub dry_run: bool,
}

/// Resolved settings plus the report format.
#[derive(Debug, Clone)]
pub struct ResolvedK3sInputs {
    pub config: BootstrapK3sConfig,
    pub output: OutputFormat,
}

/// Values of the environment variables the k3s bootstrap reads.
#[derive(Debug, Clone)]
pub struct K3sEnvironment {
    /// `INSTALL_K3S_VERSION`
    pub version: Option<String>,
    /// `INSTALL_K3S_EXEC`
    pub install_exec: Option<String>,
    /// `K3S_URL`
    pub server_url: Option<String>,
    /// `K3S_TOKEN`
    pub token: Option<String>,
}

/// The agent-only value of a flag or its environment variable.
pub open spec fn agent_value(role: K3sRole, flag: Option<String>, env: Option<String>) -> Option<Seq<char>> {
    if role == K3sRole::Agent {
        spec_flag_or_env_trimmed(flag.deep_view(), env.deep_view())
    } else {
        None
    }
}

/// The check that rejects the inputs, if any: the server URL (when given), then the agent requirements.
pub open spec fn spec_k3s_input_error(opts: BootstrapK3sCommand, env: K3sEnvironment) -> Option<K3sValidationError> {
    let url = agent_value(opts.role, opts.server_url, env.server_url);
    let token = agent_value(opts.role, opts.token, env.token);
    let url_check = match url {
        Some(u) => spec_validate_k3s_server_url(u),
        None => Ok(()),
    };
    if url_check is Err {
        Some(url_check->Err_0)
    } else if opts.role == K3sRole::Agent && url is None {
        Some(K3sValidationError::AgentMissingServerUrl)
    } else if opts.role == K3sRole::Agent && token is None {
        Some(K3sValidationError::AgentMissingToken)
    } else {
        None
    }
}

fn as_str_opt(o: &Option<String>) -> (r: Option<&str>)
    ensures
        match r {
            Some(s) => o matches Some(t) && s@ == t@,
            None => o is None,
        },
{
    match o {
        Some(s) => Some(s.as_str()),
        None => None,
    }
}

/// Builds the k3s settings from the flags, the environment and the temporary path
/// chosen for the install script. Asking for confirmation is left to the caller.
pub fn resolve_inputs(opts: BootstrapK3sCommand, env: K3sEnvironment, install_script_path: String) -> (r: Result<
    ResolvedK3sInputs,
    K3sValidationError,
>)
    ensures
        match spec_k3s_input_error(opts, env) {
            Some(e) => r == Err::<ResolvedK3sInputs, K3sValidationError>(e),
            None => r matches Ok(res) && {
                &&& res.config.install_script_path == install_script_path
                &&& res.config.role == opts.role
                &&& res.config.server_url.deep_view() == agent_value(opts.role, opts.server_url, env.server_url)
                &&& res.config.token.deep_view() == agent_value(opts.role, opts.token, env.token)
                &&& res.config.version.deep_view() == spec_flag_or_env_trimmed(opts.version.deep_view(), env.version.deep_view())
                &&& res.config.install_exec.deep_view() == spec_flag_or_env_trimmed(opts.install_exec.deep_view(), env.install_exec.deep_view())
                &&& res.config.skip_start == opts.skip_start
                &&& res.config.skip_enable == opts.skip_enable
                &&& res.config.force == opts.force
                &&& !res.config.skip_install
                &&& res.config.dry_run == opts.dry_run
                &&& res.output == opts.output
            },
        },
{
    let version = flag_or_env_trimmed(opts.version, env.version);
    let install_exec = flag_or_env_trimmed(opts.install_exec, env.install_exec);
    let agent = opts.role == K3sRole::Agent;
    let server_url = if agent { flag_or_env_trimmed(opts.server_url, env.server_url) } else { None };
    let token = if agent { flag_or_env_trimmed(opts.token, env.token) } else { None };
    match &server_url {
        Some(url) => match validate_k3s_server_url(url.as_str()) {
            Ok(_) => {},
            Err(e) => return Err(e),
        },
        None => {},
    }
    match validate_agent_inputs(opts.role, as_str_opt(&server_url), as_str_opt(&token)) {
        Ok(_) => {},
        Err(e) => return Err(e),
    }
    Ok(ResolvedK3sInputs {
        config: BootstrapK3sConfig {
            install_script_path,
            role: opts.role,
            server_url,
            token,
            version,
            install_exec,
            skip_start: opts.skip_start,
            skip_enable: opts.skip_enable,
            force: opts.force,
            skip_install: false,
            dry_run: opts.dry_run,
        },
        output: opts.output,
    })
}

/// The user must confirm the install unless `--yes` or `--dry-run` is given.
pub fn needs_confirmation(opts: &BootstrapK3sCommand) -> (r: bool)
    ensures
        r == !(opts.yes || opts.dry_run),
{
    !(opts.yes || opts.dry_run)
}

/// Arguments of the `sh` probe for k3s on `PATH`.
pub fn k3s_probe_args() -> (r: Vec<String>)
    ensures
        r.deep_view() == seq!["-c"@, "command -v k3s >/dev/null 2>&1"@],
{
    crate::common::argv::args2(String::from_str("-c"), String::from_str("command -v k3s >/dev/null 2>&1"))
}

/// The runner call of the k3s probe: `sh -c "command -v k3s >/dev/null 2>&1"`, no
/// environment, output captured.
pub open spec fn k3s_probe_call() -> RunnerCall {
    plain_call("sh"@, seq!["-c"@, "command -v k3s >/dev/null 2>&1"@], seq![], IoMode::Buffered)
}

/// Read-only probe: runs `sh -c "command -v k3s >/dev/null 2>&1"` through `runner`;
/// true when it ran and exited successfully.
pub fn probe_k3s_on_path<R: CommandRunner>(runner: &R) -> (r: bool)
    requires
        runner.may_run(k3s_probe_call()),
    ensures
        exists|o: Result<CommandOutput, RunnerError>|
            #[trigger] runner.outcome_possible(k3s_probe_call(), o) && r == outcome_succeeded(o),
{
    let args = k3s_probe_args();
    let env: Vec<(String, String)> = Vec::new();
    assert(env.deep_view() =~= Seq::<(Seq<char>, Seq<char>)>::empty());
    let outcome = runner.run_with_env_io("sh", &args, &env, IoMode::Buffered);
    probe_succeeded(&outcome)
}

/// Skips the installer when k3s is already on `PATH`, unless `--force` asks to run it
/// again: without `force` the probe runs and, when it succeeds, `skip_install` is set;
/// with `force` nothing runs and the config is unchanged. Returns whether the
/// installer is now skipped because k3s was found.
pub fn skip_install_when_present<R: CommandRunner>(runner: &R, config: &mut BootstrapK3sConfig) -> (found: bool)
    requires
        !old(config).force ==> runner.may_run(k3s_probe_call()),
    ensures
        old(config).force ==> !found,
        !old(config).force ==> exists|o: Result<CommandOutput, RunnerError>|
            #[trigger] runner.outcome_possible(k3s_probe_call(), o) && found == outcome_succeeded(o),
        *final(config) == (BootstrapK3sConfig { skip_install: old(config).skip_install || found, ..*old(config) }),
{
    if config.force {
        return false;
    }
    let found = probe_k3s_on_path(runner);
    if found {
        config.skip_install = true;
    }
    found
}

} // verus!
