//! Which workflow a parsed command line selects.

use vstd::prelude::*;
use crate::cli::{
    BootstrapAction, BootstrapDockerCommand, BootstrapFluxCommand, BootstrapInfisicalCommand, BootstrapK3sCommand,
    BootstrapKomodoCommand, BootstrapNetbirdCommand, BootstrapUserCommand, Cli, Command, GlobalOpts, HardenAction,
    HardenFirewallCommand, HardenSshCommand, ResetAction, ResetClusterCommand, UpdateCommand, VerifyAction,
    VerifyDoctorCommand,
};

verus! {

/// One workflow with its options.
#[derive(Debug, Clone)]
pub enum Route {
    BootstrapDocker(BootstrapDockerCommand),
    BootstrapFlux(BootstrapFluxCommand),
    BootstrapInfisical(BootstrapInfisicalCommand),
    BootstrapK3s(BootstrapK3sCommand),
    BootstrapKomodo(BootstrapKomodoCommand),
    BootstrapNetbird(BootstrapNetbirdCommand),
    BootstrapUser(BootstrapUserCommand),
    HardenFirewall(HardenFirewallCommand),
    HardenSsh(HardenSshCommand),
    ResetCluster(ResetClusterCommand),
    VerifyDoctor(VerifyDoctorCommand),
    Update(UpdateCommand),
}

/// The workflow to run and the global options it runs with.
#[derive(Debug, Clone)]
pub struct Dispatch {
    pub global: GlobalOpts,
    pub route: Route,
}

/// The route of a command: one per leaf subcommand, options passed on unchanged.
pub open spec fn spec_route(command: Command) -> Route {
    match command {
        Command::Bootstrap(b) => match b.action {
            BootstrapAction::Docker(o) => Route::BootstrapDocker(o),
            BootstrapAction::Flux(o) => Route::BootstrapFlux(o),
            BootstrapAction::Infisical(o) => Route::BootstrapInfisical(o),
            BootstrapAction::K3s(o) => Route::BootstrapK3s(o),
            BootstrapAction::Komodo(o) => Route::BootstrapKomodo(o),
            BootstrapAction::Netbird(o) => Route::BootstrapNetbird(o),
            BootstrapAction::User(o) => Route::BootstrapUser(o),
        },
        Command::Harden(h) => match h.action {
            HardenAction::Firewall(o) => Route::HardenFirewall(o),
            HardenAction::Ssh(o) => Route::HardenSsh(o),
        },
        Command::Reset(r) => match r.action {
            ResetAction::Cluster(o) => Route::ResetCluster(o),
        },
        Command::Verify(v) => match v.action {
            VerifyAction::Doctor(o) => Route::VerifyDoctor(o),
        },
        Command::Update(o) => Route::Update(o),
    }
}

/// Selects the workflow of a parsed command line.
pub fn dispatch(cli: Cli) -> (r: Dispatch)
    ensures
        r.global == cli.global,
        r.route == spec_route(cli.command),
{
    let route = match cli.command {
        Command::Bootstrap(b) => match b.action {
            BootstrapAction::Docker(o) => Route::BootstrapDocker(o),
            BootstrapAction::Flux(o) => Route::BootstrapFlux(o),
            BootstrapAction::Infisical(o) => Route::BootstrapInfisical(o),
            BootstrapAction::K3s(o) => Route::BootstrapK3s(o),
            BootstrapAction::Komodo(o) => Route::BootstrapKomodo(o),
            BootstrapAction::Netbird(o) => Route::BootstrapNetbird(o),
            BootstrapAction::User(o) => Route::BootstrapUser(o),
        },
        Command::Harden(h) => match h.action {
            HardenAction::Firewall(o) => Route::HardenFirewall(o),
            HardenAction::Ssh(o) => Route::HardenSsh(o),
        },
        Command::Reset(r) => match r.action {
            ResetAction::Cluster(o) => Route::ResetCluster(o),
        },
        Command::Verify(v) => match v.action {
            VerifyAction::Doctor(o) => Route::VerifyDoctor(o),
        },
        Command::Update(o) => Route::Update(o),
    };
    Dispatch { global: cli.global, route }
}

} // verus!
