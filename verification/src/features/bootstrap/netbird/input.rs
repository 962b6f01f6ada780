//! NetBird bootstrap inputs resolved from flags and environment.

use vstd::prelude::*;
use crate::cli::{BootstrapNetbirdCommand, NetbirdInstallMethod, OutputFormat};
use crate::text::{ascii_lowercase, eq_ascii_lowercase, trim, trim_ws};
use super::validate::{ManagementUrlError, spec_validate_management_url, validate_management_url};

verus! {

/// Resolved settings of the NetBird bootstrap.
#[derive(Debug, Clone)]
pub struct BootstrapNetbirdConfig {
    pub install_script_path: String,
    pub skip_ui: bool,
    pub release: String,
    pub install_method: NetbirdInstallMethod,
    pub github_token: Option<String>,
    pub setup_key: Option<String>,
    pub management_url: Option<String>,
    pub dry_run: bool,
}

/// Resolved settings plus the report format.
#[derive(Debug, Clone)]
pub struct ResolvedNetbirdInputs {
    pub config: BootstrapNetbirdConfig,
    pub output: OutputFormat,
}

/// Values of the environment variables the NetBird bootstrap reads.
#[derive(Debug, Clone)]
pub struct NetbirdEnvironment {
    /// `NETBIRD_RELEASE`
    pub release: Option<String>,
    /// `NETBIRD_SETUP_KEY`
    pub setup_key: Option<String>,
    /// `NETBIRD_MANAGEMENT_URL`
    pub management_url: Option<String>,
    /// `GITHUB_TOKEN`
    pub github_token: Option<String>,
    /// `HEIMDALL_NETBIRD_INSTALL_METHOD`
    pub install_method: Option<String>,
}

/// Why NetBird inputs were rejected.
#[derive(Debug, Clone)]
pub enum NetbirdInputError {
    ManagementUrl(ManagementUrlError),
    /// `HEIMDALL_NETBIRD_INSTALL_METHOD` holds neither a binary nor a package alias (raw value kept).
    InvalidInstallMethod(String),
}

impl NetbirdInputError {
    /// Human-readable message for the error.
    pub fn message(&self) -> (r: String)
        ensures
            r@ == (match self {
                NetbirdInputError::ManagementUrl(e) => match e {
                    ManagementUrlError::Empty => "management URL must not be empty"@,
                    ManagementUrlError::Scheme => "management URL must start with http:// or https://"@,
                },
                NetbirdInputError::InvalidInstallMethod(raw) => "invalid HEIMDALL_NETBIRD_INSTALL_METHOD=\""@ + raw@
                    + "\" (expected binary or package)"@,
            }),
    {
        match self {
            NetbirdInputError::ManagementUrl(e) => e.message(),
            NetbirdInputError::InvalidInstallMethod(raw) => {
                let mut m = String::from_str("invalid HEIMDALL_NETBIRD_INSTALL_METHOD=\"");
                m.append(raw.as_str());
                m.append("\" (expected binary or package)");
                m
            },
        }
    }
}

/// Aliases accepted for the binary install.
pub open spec fn binary_alias(v: Seq<char>) -> bool {
    v == "binary"@ || v == "bin"@ || v == "1"@ || v == "portable"@
}

/// Aliases accepted for the package install.
pub open spec fn package_alias(v: Seq<char>) -> bool {
    v == "package"@ || v == "repo"@ || v == "apt"@ || v == "dnf"@ || v == "yum"@ || v == "2"@
}

/// Reading of `HEIMDALL_NETBIRD_INSTALL_METHOD`: unset or blank means no choice;
/// the trimmed, ASCII-lowercased value must be a binary or a package alias.
pub open spec fn spec_parse_install_method(raw: Option<String>) -> Result<Option<NetbirdInstallMethod>, NetbirdInputError> {
    match raw {
        None => Ok(None),
        Some(r) => {
            let v = ascii_lowercase(trim_ws(r@));
            if v.len() == 0 {
                Ok(None)
            } else if binary_alias(v) {
                Ok(Some(NetbirdInstallMethod::Binary))
            } else if package_alias(v) {
                Ok(Some(NetbirdInstallMethod::Package))
            } else {
                Err(NetbirdInputError::InvalidInstallMethod(r))
            }
        },
    }
}

/// Parses the value of `HEIMDALL_NETBIRD_INSTALL_METHOD`, if set.
pub fn parse_install_method_env(raw: Option<String>) -> (r: Result<Option<NetbirdInstallMethod>, NetbirdInputError>)
    ensures
        r == spec_parse_install_method(raw),
{
    match raw {
        None => Ok(None),
        Some(r) => {
            let t = trim(r.as_str());
            if t.unicode_len() == 0 {
                return Ok(None);
            }
            if eq_ascii_lowercase(t, "binary") || eq_ascii_lowercase(t, "bin") || eq_ascii_lowercase(t, "1")
                || eq_ascii_lowercase(t, "portable") {
                Ok(Some(NetbirdInstallMethod::Binary))
            } else if eq_ascii_lowercase(t, "package") || eq_ascii_lowercase(t, "repo") || eq_ascii_lowercase(t, "apt")
                || eq_ascii_lowercase(t, "dnf") || eq_ascii_lowercase(t, "yum") || eq_ascii_lowercase(t, "2") {
                Ok(Some(NetbirdInstallMethod::Package))
            } else {
                Err(NetbirdInputError::InvalidInstallMethod(r))
            }
        },
    }
}

/// The install method: the flag, else the environment, else binary under
/// `--yes`/`--dry-run`; `Ok(None)` means the user has to be asked.
pub open spec fn spec_resolve_install_method(opts: BootstrapNetbirdCommand, env_raw: Option<String>) -> Result<
    Option<NetbirdInstallMethod>,
    NetbirdInputError,
> {
    match opts.install_method {
        Some(m) => Ok(Some(m)),
        None => match spec_parse_install_method(env_raw) {
            Err(e) => Err(e),
            Ok(Some(m)) => Ok(Some(m)),
            Ok(None) => if opts.yes || opts.dry_run {
                Ok(Some(NetbirdInstallMethod::Binary))
            } else {
                Ok(None)
            },
        },
    }
}

/// Decides the install method without prompting.
pub fn resolve_install_method(opts: &BootstrapNetbirdCommand, env_raw: Option<String>) -> (r: Result<
    Option<NetbirdInstallMethod>,
    NetbirdInputError,
>)
    ensures
        r == spec_resolve_install_method(*opts, env_raw),
{
    if let Some(method) = opts.install_method {
        return Ok(Some(method));
    }
    match parse_install_method_env(env_raw) {
        Err(e) => Err(e),
        Ok(Some(m)) => Ok(Some(m)),
        Ok(None) => if opts.yes || opts.dry_run {
            Ok(Some(NetbirdInstallMethod::Binary))
        } else {
            Ok(None)
        },
    }
}

/// Either the resolved inputs, or the install method still has to be asked.
#[derive(Debug, Clone)]
pub enum NetbirdResolution {
    Ready(ResolvedNetbirdInputs),
    NeedsInstallMethodPrompt,
}

/// `flag.or(env)`.
pub open spec fn or_env(flag: Option<String>, env: Option<String>) -> Option<String> {
    match flag {
        Some(f) => Some(f),
        None => env,
    }
}

/// Resolves the NetBird settings: release (default `latest`), setup key and
/// management URL from flags or environment, the URL checked; then the install
/// method, where `prompted_method` is the user's answer when one was asked.
pub fn resolve_inputs(
    opts: BootstrapNetbirdCommand,
    env: NetbirdEnvironment,
    install_script_path: String,
    prompted_method: Option<NetbirdInstallMethod>,
) -> (r: Result<NetbirdResolution, NetbirdInputError>)
    ensures
        ({
            let url = or_env(opts.management_url, env.management_url);
            let url_check = match url {
                Some(u) => spec_validate_management_url(u@),
                None => Ok(()),
            };
            let method = spec_resolve_install_method(opts, env.install_method);
            if url_check is Err {
                r == Err::<NetbirdResolution, NetbirdInputError>(NetbirdInputError::ManagementUrl(url_check->Err_0))
            } else if method is Err {
                r == Err::<NetbirdResolution, NetbirdInputError>(method->Err_0)
            } else if method->Ok_0 is None && prompted_method is None {
                r == Ok::<NetbirdResolution, NetbirdInputError>(NetbirdResolution::NeedsInstallMethodPrompt)
            } else {
                r matches Ok(NetbirdResolution::Ready(res)) && {
                    &&& res.config.install_script_path == install_script_path
                    &&& res.config.skip_ui == opts.skip_ui
                    &&& res.config.release@ == (match or_env(opts.release, env.release) {
                        Some(v) => v@,
                        None => "latest"@,
                    })
                    &&& res.config.install_method == (match method->Ok_0 {
                        Some(m) => m,
                        None => prompted_method->0,
                    })
                    &&& res.config.github_token == env.github_token
                    &&& res.config.setup_key == or_env(opts.setup_key, env.setup_key)
                    &&& res.config.management_url == url
                    &&& res.config.dry_run == opts.dry_run
                    &&& res.output == opts.output
                }
            }
        }),
{
    let release = match opts.release.clone() {
        Some(v) => v,
        None => match env.release {
            Some(v) => v,
            None => String::from_str("latest"),
        },
    };
    let setup_key = match opts.setup_key.clone() {
        Some(v) => Some(v),
        None => env.setup_key,
    };
    let management_url = match opts.management_url.clone() {
        Some(v) => Some(v),
        None => env.management_url,
    };
    match &management_url {
        Some(url) => match validate_management_url(url.as_str()) {
            Ok(_) => {},
            Err(e) => return Err(NetbirdInputError::ManagementUrl(e)),
        },
        None => {},
    }
    let install_method = match resolve_install_method(&opts, env.install_method) {
        Err(e) => return Err(e),
        Ok(Some(m)) => m,
        Ok(None) => match prompted_method {
            Some(m) => m,
            None => return Ok(NetbirdResolution::NeedsInstallMethodPrompt),
        },
    };
    Ok(NetbirdResolution::Ready(ResolvedNetbirdInputs {
        config: BootstrapNetbirdConfig {
            install_script_path,
            skip_ui: opts.skip_ui,
            release,
            install_method,
            github_token: env.github_token,
            setup_key,
            management_url,
            dry_run: opts.dry_run,
        },
        output: opts.output,
    }))
}

/// The user must confirm the install unless `--yes` or `--dry-run` is given.
pub fn needs_confirmation(opts: &BootstrapNetbirdCommand) -> (r: bool)
    ensures
        r == !(opts.yes || opts.dry_run),
{
    !(opts.yes || opts.dry_run)
}

} // verus!
