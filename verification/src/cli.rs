//! Command-line options of every workflow, as plain data.

use vstd::prelude::*;
use crate::output::ColorArg;

verus! {

/// Report format of a command.
#[derive(Debug, Clone, Copy, PartialEq, Eq, Structural)]
pub enum OutputFormat {
    Human,
    Json,
}

impl Default for OutputFormat {
    fn default() -> (r: Self)
        ensures
            r == OutputFormat::Human,
    {
        OutputFormat::Human
    }
}

/// k3s role for the official `get.k3s.io` install script (via `K3S_URL` / `K3S_TOKEN` for agents).
#[derive(Debug, Clone, Copy, PartialEq, Eq, Structural)]
pub enum K3sRole {
    Server,
    Agent,
}

impl Default for K3sRole {
    fn default() -> (r: Self)
        ensures
            r == K3sRole::Server,
    {
        K3sRole::Server
    }
}

/// How the official NetBird `install.sh` should install the client (via environment).
#[derive(Debug, Clone, Copy, PartialEq, Eq, Structural)]
pub enum NetbirdInstallMethod {
    /// Set `USE_BIN_INSTALL=true` for upstream: GitHub release tarballs.
    Binary,
    /// Let upstream pick apt, dnf, or yum; `DEBIAN_FRONTEND=noninteractive` for quieter apt.
    Package,
}

impl Default for NetbirdInstallMethod {
    fn default() -> (r: Self)
        ensures
            r == NetbirdInstallMethod::Binary,
    {
        NetbirdInstallMethod::Binary
    }
}

/// Komodo deployment mode.
#[derive(Debug, Clone, Copy, PartialEq, Eq, Structural)]
pub enum KomodoMode {
    /// Full stack: MongoDB + Komodo Core + Komodo Periphery.
    Core,
    /// Periphery only: connect to existing remote Core.
    Periphery,
}

impl Default for KomodoMode {
    fn default() -> (r: Self)
        ensures
            r == KomodoMode::Core,
    {
        KomodoMode::Core
    }
}

impl KomodoMode {
    /// Display name of the mode (`Core` or `Periphery`).
    pub fn to_string(&self) -> (r: String)
        ensures
            r@ == (match self {
                KomodoMode::Core => "Core"@,
                KomodoMode::Periphery => "Periphery"@,
            }),
    {
        match self {
            KomodoMode::Core => String::from_str("Core"),
            KomodoMode::Periphery => String::from_str("Periphery"),
        }
    }
}

/// Options shared by every command.
#[derive(Debug, Clone, Copy)]
pub struct GlobalOpts {
    /// When to emit ANSI colors in human reports.
    pub color: ColorArg,
}

/// The whole command line.
#[derive(Debug, Clone)]
pub struct Cli {
    pub global: GlobalOpts,
    pub command: Command,
}

/// Top-level workflows.
#[derive(Debug, Clone)]
pub enum Command {
    /// Install and configure infrastructure components.
    Bootstrap(Box<BootstrapCommand>),
    /// Harden infrastructure security (SSH config, firewall).
    Harden(HardenCommand),
    /// Reset infrastructure to initial state (k3s cluster wipe).
    Reset(ResetCommand),
    /// Verify infrastructure health and configuration (read-only checks).
    Verify(VerifyCommand),
    /// Replace the running binary with a newer version.
    Update(UpdateCommand),
}

/// Bootstrap sub-workflows.
#[derive(Debug, Clone)]
pub enum BootstrapAction {
    Docker(BootstrapDockerCommand),
    Flux(BootstrapFluxCommand),
    Infisical(BootstrapInfisicalCommand),
    K3s(BootstrapK3sCommand),
    Netbird(BootstrapNetbirdCommand),
    User(BootstrapUserCommand),
    Komodo(BootstrapKomodoCommand),
}

#[derive(Debug, Clone)]
pub struct BootstrapCommand {
    pub action: BootstrapAction,
}

#[derive(Debug, Clone)]
pub enum ResetAction {
    /// Destructively reset k3s cluster to initial state.
    Cluster(ResetClusterCommand),
}

#[derive(Debug, Clone)]
pub struct ResetCommand {
    pub action: ResetAction,
}

/// Options of `reset cluster`.
#[derive(Debug, Clone)]
pub struct ResetClusterCommand {
    pub dry_run: bool,
    pub yes: bool,
    /// Destructive confirmation token. Must equal `reset-cluster`.
    pub confirm: Option<String>,
    pub output: OutputFormat,
}

/// Options of `bootstrap flux`.
#[derive(Debug, Clone)]
pub struct BootstrapFluxCommand {
    pub url: Option<String>,
    pub branch: Option<String>,
    pub path: Option<String>,
    pub namespace: Option<String>,
    pub kubeconfig: Option<String>,
    pub private_key_file: Option<String>,
    pub private_key_passphrase: Option<String>,
    pub install_script_url: Option<String>,
    pub keep_generated_key: Option<String>,
    pub force: bool,
    pub dry_run: bool,
    pub yes: bool,
    pub output: OutputFormat,
}

/// Options of `bootstrap docker`.
#[derive(Debug, Clone)]
pub struct BootstrapDockerCommand {
    pub install_script_url: Option<String>,
    pub user: Option<String>,
    pub log_driver: Option<String>,
    pub registry_mirrors: Vec<String>,
    pub force: bool,
    pub dry_run: bool,
    pub yes: bool,
    pub output: OutputFormat,
}

/// Options of `bootstrap k3s`.
#[derive(Debug, Clone)]
pub struct BootstrapK3sCommand {
    pub role: K3sRole,
    pub server_url: Option<String>,
    pub token: Option<String>,
    pub version: Option<String>,
    pub install_exec: Option<String>,
    pub skip_start: bool,
    pub skip_enable: bool,
    pub force: bool,
    pub dry_run: bool,
    pub yes: bool,
    pub output: OutputFormat,
}

/// Options of `bootstrap netbird`.
#[derive(Debug, Clone)]
pub struct BootstrapNetbirdCommand {
    pub skip_ui: bool,
    pub release: Option<String>,
    pub setup_key: Option<String>,
    pub management_url: Option<String>,
    pub install_method: Option<NetbirdInstallMethod>,
    pub dry_run: bool,
    pub yes: bool,
    pub output: OutputFormat,
}

/// Options of `bootstrap user`.
#[derive(Debug, Clone)]
pub struct BootstrapUserCommand {
    pub user: Option<String>,
    pub group: Option<String>,
    pub key_files: Vec<String>,
    pub keys: Vec<String>,
    pub password: Option<String>,
    pub disable_root_login: bool,
    pub disable_password_auth: bool,
    pub dry_run: bool,
    pub yes: bool,
    pub output: OutputFormat,
}

/// Options of `bootstrap infisical`.
#[derive(Debug, Clone)]
pub struct BootstrapInfisicalCommand {
    pub address: Option<String>,
    pub project_slug: Option<String>,
    pub project_id: Option<String>,
    pub environment: Option<String>,
    pub node_name: Option<String>,
    pub folders: Vec<String>,
    pub client_id: Option<String>,
    pub client_secret: Option<String>,
    pub secrets_dir: Option<String>,
    pub config_dir: Option<String>,
    pub dry_run: bool,
    pub yes: bool,
    pub output: OutputFormat,
}

/// Options of `bootstrap komodo`.
#[derive(Debug, Clone)]
pub struct BootstrapKomodoCommand {
    pub mode: KomodoMode,
    pub dir: Option<String>,
    pub image_tag: Option<String>,
    pub force: bool,
    pub host: Option<String>,
    pub title: Option<String>,
    pub port: Option<u16>,
    pub admin_username: Option<String>,
    pub admin_password: Option<String>,
    pub db_username: Option<String>,
    pub db_password: Option<String>,
    pub backups_path: Option<String>,
    pub first_server_name: Option<String>,
    pub core_address: Option<String>,
    pub connect_as: Option<String>,
    pub core_public_key_file: Option<String>,
    pub periphery_root: Option<String>,
    pub no_up: bool,
    pub dry_run: bool,
    pub yes: bool,
    pub output: OutputFormat,
}

#[derive(Debug, Clone)]
pub enum HardenAction {
    /// Harden firewall with toggle rules (SSH, established, HTTP, HTTPS) + custom ports.
    Firewall(HardenFirewallCommand),
    /// Harden SSH server (change port + optional toggles for root login, password auth).
    Ssh(HardenSshCommand),
}

/// Options of `harden firewall`.
#[derive(Debug, Clone)]
pub struct HardenFirewallCommand {
    pub allow_ssh: bool,
    pub allow_established: bool,
    pub allow_http: bool,
    pub allow_https: bool,
    /// Custom firewall rule. Format: port=<N>,protocol=<tcp|udp|both>. Repeatable.
    pub custom_rules: Vec<String>,
    pub dry_run: bool,
    pub yes: bool,
    pub output: OutputFormat,
}

/// Options of `harden ssh`.
#[derive(Debug, Clone)]
pub struct HardenSshCommand {
    pub port: Option<u16>,
    pub allow_root_login: bool,
    pub allow_password_auth: bool,
    pub disable_root_login: bool,
    pub disable_password_auth: bool,
    pub dry_run: bool,
    pub yes: bool,
    pub output: OutputFormat,
}

#[derive(Debug, Clone)]
pub struct HardenCommand {
    pub action: HardenAction,
}

#[derive(Debug, Clone)]
pub enum VerifyAction {
    /// Run environment diagnostics.
    Doctor(VerifyDoctorCommand),
}

#[derive(Debug, Clone)]
pub struct VerifyCommand {
    pub action: VerifyAction,
}

/// Options of `verify doctor`.
#[derive(Debug, Clone, Copy)]
pub struct VerifyDoctorCommand {
    pub output: OutputFormat,
}

/// Options of `update`.
#[derive(Debug, Clone)]
pub struct UpdateCommand {
    pub dry_run: bool,
    pub yes: bool,
    pub force: bool,
    pub tag: Option<String>,
    pub output: OutputFormat,
}

} // verus!
