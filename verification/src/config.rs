//! The persisted Heimdall configuration (`config.yaml`): what hardening was
//! applied and what the Infisical bootstrap last used. Reading and writing the
//! YAML file happen outside the library.

use vstd::prelude::*;

verus! {

/// The whole configuration file.
#[derive(Debug)]
pub struct HeimdallConfig {
    pub harden: Option<HardenConfig>,
    pub bootstrap: Option<BootstrapConfig>,
}

/// Saved bootstrap state.
#[derive(Debug)]
pub struct BootstrapConfig {
    pub infisical: Option<InfisicalState>,
}

/// Values the last Infisical bootstrap used; offered again as defaults.
#[derive(Debug, Clone)]
pub struct InfisicalState {
    pub address: Option<String>,
    pub project_id: Option<String>,
    pub project_slug: Option<String>,
    pub environment: Option<String>,
    pub node_name: Option<String>,
    pub secrets_dir: Option<String>,
    pub config_dir: Option<String>,
    pub folders: Vec<String>,
}

/// Saved hardening state.
#[derive(Debug)]
pub struct HardenConfig {
    pub ssh: Option<SshHardenState>,
    pub firewall: Option<FirewallHardenState>,
}

/// Applied SSH hardening.
#[derive(Debug)]
pub struct SshHardenState {
    pub port: Option<u16>,
    pub root_login_disabled: bool,
    pub password_auth_disabled: bool,
}

/// Applied firewall rules.
#[derive(Debug)]
pub struct FirewallHardenState {
    pub applied: bool,
    pub presets: Vec<String>,
    pub custom_rules: Vec<CustomFirewallRule>,
}

/// One extra port opened in the firewall.
#[derive(Debug, Clone)]
pub struct CustomFirewallRule {
    pub port: u16,
    pub protocol: String,
}

impl Default for HeimdallConfig {
    fn default() -> (r: Self)
        ensures
            r.harden is None,
            r.bootstrap is None,
    {
        HeimdallConfig { harden: None, bootstrap: None }
    }
}

impl Default for BootstrapConfig {
    fn default() -> (r: Self)
        ensures
            r.infisical is None,
    {
        BootstrapConfig { infisical: None }
    }
}

impl Default for InfisicalState {
    fn default() -> (r: Self)
        ensures
            r.is_empty(),
    {
        InfisicalState {
            address: None,
            project_id: None,
            project_slug: None,
            environment: None,
            node_name: None,
            secrets_dir: None,
            config_dir: None,
            folders: Vec::new(),
        }
    }
}

impl InfisicalState {
    /// Nothing saved.
    pub open spec fn is_empty(&self) -> bool {
        &&& self.address is None
        &&& self.project_id is None
        &&& self.project_slug is None
        &&& self.environment is None
        &&& self.node_name is None
        &&& self.secrets_dir is None
        &&& self.config_dir is None
        &&& self.folders@.len() == 0
    }
}

impl Default for HardenConfig {
    fn default() -> (r: Self)
        ensures
            r.ssh is None,
            r.firewall is None,
    {
        HardenConfig { ssh: None, firewall: None }
    }
}

impl Default for SshHardenState {
    fn default() -> (r: Self)
        ensures
            r.port is None,
            !r.root_login_disabled,
            !r.password_auth_disabled,
    {
        SshHardenState { port: None, root_login_disabled: false, password_auth_disabled: false }
    }
}

impl Default for FirewallHardenState {
    fn default() -> (r: Self)
        ensures
            !r.applied,
            r.presets@.len() == 0,
            r.custom_rules@.len() == 0,
    {
        FirewallHardenState { applied: false, presets: Vec::new(), custom_rules: Vec::new() }
    }
}

/// The saved Infisical state of a loaded configuration; empty when there is no
/// configuration or it holds none.
pub fn saved_infisical_state(config: Option<HeimdallConfig>) -> (r: InfisicalState)
    ensures
        match config {
            Some(HeimdallConfig { bootstrap: Some(BootstrapConfig { infisical: Some(s) }), .. }) => r == s,
            _ => r.is_empty(),
        },
{
    match config {
        Some(c) => match c.bootstrap {
            Some(b) => match b.infisical {
                Some(s) => s,
                None => InfisicalState::default(),
            },
            None => InfisicalState::default(),
        },
        None => InfisicalState::default(),
    }
}

} // verus!
