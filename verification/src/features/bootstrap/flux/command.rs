//! Decisions of the Flux bootstrap command between its interactive and
//! filesystem steps: where the private key comes from, what the namespace
//! probe changes, and what is cleaned up afterwards.

use vstd::prelude::*;
use super::input::BootstrapFluxConfig;

verus! {

/// Private key path used for a dry run when no key was supplied.
pub const DRY_RUN_PRIVATE_KEY_PATH: &'static str = "/tmp/heimdall-flux-dryrun-private-key";

/// Where the private key for `flux bootstrap git` comes from.
#[derive(Debug, Clone)]
pub enum BootstrapKeySource {
    /// An existing path: the user's key, or the dry-run placeholder.
    Provided(String),
    /// A fresh ed25519 pair is generated and its public half shown to the user.
    GenerateEphemeral,
}

/// Why the Flux command could not go on.
#[derive(Debug, Clone, Copy, PartialEq, Eq, Structural)]
pub enum FluxCommandError {
    /// A key would have to be generated, but nobody can be asked to register it.
    KeyNeedsTerminal,
}

impl FluxCommandError {
    /// The error's text.
    pub fn message(&self) -> (r: String)
        ensures
            r@ == self.spec_message(),
    {
        match self {
            FluxCommandError::KeyNeedsTerminal => String::from_str(
                "stdin is not a TTY: use --private-key-file for non-interactive Flux bootstrap, or run from a terminal for generated deploy keys",
            ),
        }
    }

    pub open spec fn spec_message(&self) -> Seq<char> {
        match self {
            FluxCommandError::KeyNeedsTerminal => "stdin is not a TTY: use --private-key-file for non-interactive Flux bootstrap, or run from a terminal for generated deploy keys"@,
        }
    }
}

/// The user's key when given; else the placeholder path for a dry run; else a
/// generated key, which needs a terminal.
pub fn bootstrap_key_source(config: &BootstrapFluxConfig, stdin_is_tty: bool) -> (r: Result<
    BootstrapKeySource,
    FluxCommandError,
>)
    ensures
        match config.byok_private_key {
            Some(p) => r matches Ok(BootstrapKeySource::Provided(q)) && q@ == p@,
            None => if config.dry_run {
                r matches Ok(BootstrapKeySource::Provided(q)) && q@ == DRY_RUN_PRIVATE_KEY_PATH@
            } else if !stdin_is_tty {
                r == Err::<BootstrapKeySource, FluxCommandError>(FluxCommandError::KeyNeedsTerminal)
            } else {
                r matches Ok(BootstrapKeySource::GenerateEphemeral)
            },
        },
{
    match &config.byok_private_key {
        Some(p) => Ok(BootstrapKeySource::Provided(p.clone())),
        None => if config.dry_run {
            Ok(BootstrapKeySource::Provided(String::from_str(DRY_RUN_PRIVATE_KEY_PATH)))
        } else if !stdin_is_tty {
            Err(FluxCommandError::KeyNeedsTerminal)
        } else {
            Ok(BootstrapKeySource::GenerateEphemeral)
        },
    }
}

/// Records a generated key pair: it is the bootstrap key and is removed afterwards.
pub fn use_generated_key(config: &mut BootstrapFluxConfig, key_path: String)
    ensures
        *final(config) == (BootstrapFluxConfig {
            private_key_bootstrap_path: Some(key_path),
            ephemeral_key_pair_root: Some(key_path),
            ephemeral_key_generated: true,
            ..*old(config)
        }),
{
    config.private_key_bootstrap_path = Some(key_path.clone());
    config.ephemeral_key_pair_root = Some(key_path);
    config.ephemeral_key_generated = true;
}

/// Records the namespace probe: with Flux already installed no key is needed.
pub fn record_namespace_probe(config: &mut BootstrapFluxConfig, namespace_exists: bool)
    ensures
        final(config).namespace_exists == namespace_exists,
        namespace_exists ==> final(config).private_key_bootstrap_path is None
            && final(config).ephemeral_key_pair_root is None,
        *final(config) == (BootstrapFluxConfig {
            namespace_exists,
            private_key_bootstrap_path: final(config).private_key_bootstrap_path,
            ephemeral_key_pair_root: final(config).ephemeral_key_pair_root,
            ..*old(config)
        }),
        !namespace_exists ==> final(config).private_key_bootstrap_path == old(config).private_key_bootstrap_path
            && final(config).ephemeral_key_pair_root == old(config).ephemeral_key_pair_root,
{
    config.namespace_exists = namespace_exists;
    if namespace_exists {
        config.private_key_bootstrap_path = None;
        config.ephemeral_key_pair_root = None;
    }
}

/// Whether to look for `flux` on `PATH` to skip the install script: only for a
/// fresh bootstrap without `--force`.
pub fn flux_cli_probe_wanted(config: &BootstrapFluxConfig) -> (r: bool)
    ensures
        r == (!config.namespace_exists && !config.force),
{
    !config.namespace_exists && !config.force
}

/// Key files to remove after the run, and where to keep a copy first.
#[derive(Debug, Clone)]
pub struct EphemeralKeyCleanup {
    /// Private key of the generated pair (its `.pub` sits beside it).
    pub private_key: String,
    /// Directory that receives `deploy_key` and `deploy_key.pub` before removal.
    pub keep_copy_in: Option<String>,
}

/// Cleanup of a generated key pair: none unless one was generated; a copy is
/// kept only after a successful bootstrap and when a directory was given.
pub fn ephemeral_key_cleanup(config: &BootstrapFluxConfig, bootstrap_succeeded: bool) -> (r: Option<
    EphemeralKeyCleanup,
>)
    ensures
        match (config.ephemeral_key_generated, config.ephemeral_key_pair_root) {
            (true, Some(root)) => r matches Some(c) && c.private_key@ == root@ && c.keep_copy_in == (if bootstrap_succeeded {
                config.keep_generated_key_dir
            } else {
                None
            }),
            _ => r is None,
        },
{
    if !config.ephemeral_key_generated {
        return None;
    }
    match &config.ephemeral_key_pair_root {
        None => None,
        Some(root) => {
            let keep = if bootstrap_succeeded {
                config.keep_generated_key_dir.clone()
            } else {
                None
            };
            Some(EphemeralKeyCleanup { private_key: root.clone(), keep_copy_in: keep })
        },
    }
}

} // verus!
