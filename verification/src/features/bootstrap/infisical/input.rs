//! Inputs of the Infisical bootstrap: where each value comes from (flag, saved
//! state, prompt or default), the checks on prompted answers, and the reading of
//! the `hostname`, `infisical login` and folder-listing outputs.

use vstd::prelude::*;
use crate::cli::{BootstrapInfisicalCommand, OutputFormat};
use crate::config::InfisicalState;
use crate::json::{json_array_string_field_values, json_array_string_fields};
use crate::runner::{CommandOutput, RunnerError};
use crate::text::{split_trimmed_nonempty, str_eq, trim, trim_ws, trimmed_pieces};
use super::validate::{AddressError, spec_validate_address, validate_address};

verus! {

/// EU cloud API address (the default).
pub const ADDRESS_EU: &'static str = "https://eu.infisical.com";

/// US cloud API address.
pub const ADDRESS_US: &'static str = "https://app.infisical.com";

/// Secrets environment used when none is given or saved.
pub const DEFAULT_ENVIRONMENT: &'static str = "prod";

/// Default directory for secrets and credentials.
pub const DEFAULT_SECRETS_DIR: &'static str = "/var/secrets";

/// Default directory of the agent configuration.
pub const DEFAULT_CONFIG_DIR: &'static str = "/etc/heimdall/infisical";

/// Settings of one Infisical bootstrap.
#[derive(Debug, Clone)]
pub struct BootstrapInfisicalConfig {
    pub address: String,
    pub project_slug: String,
    pub project_id: String,
    pub environment: String,
    pub node_name: String,
    pub folders: Vec<String>,
    pub client_id: String,
    pub client_secret: String,
    pub secrets_dir: String,
    pub config_dir: String,
    pub skip_login: bool,
    pub skip_install: bool,
    pub dry_run: bool,
    pub output: OutputFormat,
}

/// Resolved settings.
#[derive(Debug, Clone)]
pub struct ResolvedInfisicalInputs {
    pub config: BootstrapInfisicalConfig,
}

/// A value that is given by flag, restored from saved state, or asked for.
#[derive(Debug, Clone, Copy, PartialEq, Eq, Structural)]
pub enum InfisicalField {
    ProjectSlug,
    ProjectId,
    ClientId,
    ClientSecret,
}

/// Why Infisical inputs could not be resolved.
#[derive(Debug, Clone)]
pub enum InfisicalInputError {
    /// No flag, no saved value, and no terminal to ask on.
    Required(InfisicalField),
    /// The prompted answer was blank.
    Empty(InfisicalField),
    Address(AddressError),
    /// `hostname` could not be run.
    HostnameUnavailable,
    /// `hostname` exited with an error.
    HostnameFailed,
    /// `hostname` printed nothing.
    HostnameEmpty,
    /// `infisical login` could not be run (the runner's message).
    LoginUnavailable(String),
    /// `infisical login` failed (its trimmed stderr).
    LoginFailed(String),
    /// `infisical login` printed no token.
    EmptyToken,
    /// The folder listing could not be run (the runner's message).
    ListingUnavailable(String),
    /// The folder listing failed (its trimmed stderr).
    FolderDiscoveryFailed(String),
    /// The folder listing was not a JSON array.
    FolderListUnparsable,
}

/// `prefix` + `value` + `suffix` as one message.
fn framed(prefix: &str, value: &str) -> (r: String)
    ensures
        r@ == prefix@ + value@,
{
    let mut m = String::from_str(prefix);
    m.append(value);
    m
}

impl InfisicalInputError {
    /// Human-readable message for the error.
    pub fn message(&self) -> (r: String)
        ensures
            r@ == self.spec_message(),
    {
        match self {
            InfisicalInputError::Required(InfisicalField::ProjectSlug) => String::from_str(
                "project_slug is required; pass --project-slug or INFISICAL_PROJECT_SLUG",
            ),
            InfisicalInputError::Required(InfisicalField::ProjectId) => String::from_str(
                "project_id is required; pass --project-id or INFISICAL_PROJECT_ID",
            ),
            InfisicalInputError::Required(InfisicalField::ClientId) => String::from_str(
                "client_id is required; pass --client-id or INFISICAL_CLIENT_ID",
            ),
            InfisicalInputError::Required(InfisicalField::ClientSecret) => String::from_str(
                "client_secret is required; pass --client-secret or INFISICAL_CLIENT_SECRET",
            ),
            InfisicalInputError::Empty(InfisicalField::ProjectSlug) => String::from_str("project slug cannot be empty"),
            InfisicalInputError::Empty(InfisicalField::ProjectId) => String::from_str("project ID cannot be empty"),
            InfisicalInputError::Empty(InfisicalField::ClientId) => String::from_str("client ID cannot be empty"),
            InfisicalInputError::Empty(InfisicalField::ClientSecret) => String::from_str(
                "client secret cannot be empty",
            ),
            InfisicalInputError::Address(e) => e.message(),
            InfisicalInputError::HostnameUnavailable => String::from_str(
                "failed to get hostname; pass --node-name explicitly",
            ),
            InfisicalInputError::HostnameFailed => String::from_str(
                "hostname command failed; pass --node-name explicitly",
            ),
            InfisicalInputError::HostnameEmpty => String::from_str("hostname is empty; pass --node-name explicitly"),
            InfisicalInputError::LoginUnavailable(m) => framed("failed to invoke `infisical login`: ", m.as_str()),
            InfisicalInputError::LoginFailed(m) => framed("universal auth login failed: ", m.as_str()),
            InfisicalInputError::EmptyToken => String::from_str("universal auth login returned an empty token"),
            InfisicalInputError::ListingUnavailable(m) => framed("failed to invoke `infisical`: ", m.as_str()),
            InfisicalInputError::FolderDiscoveryFailed(m) => framed("folder discovery failed: ", m.as_str()),
            InfisicalInputError::FolderListUnparsable => String::from_str("failed to parse folder list JSON"),
        }
    }

    pub open spec fn spec_message(&self) -> Seq<char> {
        match self {
            InfisicalInputError::Required(InfisicalField::ProjectSlug) => "project_slug is required; pass --project-slug or INFISICAL_PROJECT_SLUG"@,
            InfisicalInputError::Required(InfisicalField::ProjectId) => "project_id is required; pass --project-id or INFISICAL_PROJECT_ID"@,
            InfisicalInputError::Required(InfisicalField::ClientId) => "client_id is required; pass --client-id or INFISICAL_CLIENT_ID"@,
            InfisicalInputError::Required(InfisicalField::ClientSecret) => "client_secret is required; pass --client-secret or INFISICAL_CLIENT_SECRET"@,
            InfisicalInputError::Empty(InfisicalField::ProjectSlug) => "project slug cannot be empty"@,
            InfisicalInputError::Empty(InfisicalField::ProjectId) => "project ID cannot be empty"@,
            InfisicalInputError::Empty(InfisicalField::ClientId) => "client ID cannot be empty"@,
            InfisicalInputError::Empty(InfisicalField::ClientSecret) => "client secret cannot be empty"@,
            InfisicalInputError::Address(e) => e.spec_message(),
            InfisicalInputError::HostnameUnavailable => "failed to get hostname; pass --node-name explicitly"@,
            InfisicalInputError::HostnameFailed => "hostname command failed; pass --node-name explicitly"@,
            InfisicalInputError::HostnameEmpty => "hostname is empty; pass --node-name explicitly"@,
            InfisicalInputError::LoginUnavailable(m) => "failed to invoke `infisical login`: "@ + m@,
            InfisicalInputError::LoginFailed(m) => "universal auth login failed: "@ + m@,
            InfisicalInputError::EmptyToken => "universal auth login returned an empty token"@,
            InfisicalInputError::ListingUnavailable(m) => "failed to invoke `infisical`: "@ + m@,
            InfisicalInputError::FolderDiscoveryFailed(m) => "folder discovery failed: "@ + m@,
            InfisicalInputError::FolderListUnparsable => "failed to parse folder list JSON"@,
        }
    }
}

/// Where a field's value comes from.
#[derive(Debug, Clone)]
pub enum FieldSource {
    Value(String),
    /// Ask on the terminal, offering the saved value as the default.
    Prompt { default: Option<String> },
}

/// The flag wins; without a terminal the saved value is used and its absence is
/// an error; on a terminal the user is asked, with the saved value as default.
pub fn field_source(
    field: InfisicalField,
    flag: &Option<String>,
    saved: &Option<String>,
    stdin_is_tty: bool,
) -> (r: Result<FieldSource, InfisicalInputError>)
    ensures
        match *flag {
            Some(f) => r matches Ok(FieldSource::Value(v)) && v@ == f@,
            None => if !stdin_is_tty {
                match *saved {
                    Some(s) => r matches Ok(FieldSource::Value(v)) && v@ == s@,
                    None => r matches Err(InfisicalInputError::Required(g)) && g == field,
                }
            } else {
                r matches Ok(FieldSource::Prompt { default: d }) && d.deep_view() == saved.deep_view()
            },
        },
{
    match flag {
        Some(f) => Ok(FieldSource::Value(f.clone())),
        None => if !stdin_is_tty {
            match saved {
                Some(s) => Ok(FieldSource::Value(s.clone())),
                None => Err(InfisicalInputError::Required(field)),
            }
        } else {
            let d = match saved {
                Some(s) => Some(s.clone()),
                None => None,
            };
            Ok(FieldSource::Prompt { default: d })
        },
    }
}

/// A prompted answer, trimmed; blank answers are refused.
pub fn prompted_field_value(field: InfisicalField, answer: &str) -> (r: Result<String, InfisicalInputError>)
    ensures
        trim_ws(answer@).len() > 0 ==> (r matches Ok(v) && v@ == trim_ws(answer@)),
        trim_ws(answer@).len() == 0 ==> (r matches Err(InfisicalInputError::Empty(g)) && g == field),
{
    let t = trim(answer);
    if t.unicode_len() == 0 {
        Err(InfisicalInputError::Empty(field))
    } else {
        Ok(String::from_str(t))
    }
}

/// How the API address is chosen on a terminal: a region menu (cursor on the
/// saved choice: EU 0, US 1, custom 2) and, for a custom address, a text prompt
/// prefilled with a saved custom address.
#[derive(Debug, Clone)]
pub enum AddressSource {
    Value(String),
    Prompt { starting_cursor: u8, custom_default: Option<String> },
}

/// Menu position of a saved address.
pub open spec fn spec_region_cursor(saved: Option<Seq<char>>) -> u8 {
    match saved {
        None => 0,
        Some(a) => if a == ADDRESS_EU@ {
            0
        } else if a == ADDRESS_US@ {
            1
        } else {
            2
        },
    }
}

/// The flag wins; without a terminal the saved address, else the EU cloud; on a
/// terminal, a region menu.
pub fn address_source(flag: &Option<String>, saved: &Option<String>, stdin_is_tty: bool) -> (r: AddressSource)
    ensures
        flag is Some ==> (r matches AddressSource::Value(v) && v@ == flag->0@),
        flag is None && !stdin_is_tty ==> (r matches AddressSource::Value(v) && v@ == (match *saved {
            Some(s) => s@,
            None => ADDRESS_EU@,
        })),
        flag is None && stdin_is_tty ==> (r matches AddressSource::Prompt { starting_cursor: c, custom_default: d }
            && c == spec_region_cursor(saved.deep_view()) && d.deep_view() == (if c == 2 {
            saved.deep_view()
        } else {
            None
        })),
{
    match flag {
        Some(f) => AddressSource::Value(f.clone()),
        None => if !stdin_is_tty {
            match saved {
                Some(s) => AddressSource::Value(s.clone()),
                None => AddressSource::Value(String::from_str(ADDRESS_EU)),
            }
        } else {
            match saved {
                None => AddressSource::Prompt { starting_cursor: 0, custom_default: None },
                Some(s) => {
                    if str_eq(s.as_str(), ADDRESS_EU) {
                        AddressSource::Prompt { starting_cursor: 0, custom_default: None }
                    } else if str_eq(s.as_str(), ADDRESS_US) {
                        AddressSource::Prompt { starting_cursor: 1, custom_default: None }
                    } else {
                        AddressSource::Prompt { starting_cursor: 2, custom_default: Some(s.clone()) }
                    }
                },
            }
        },
    }
}

/// A typed custom address: trimmed, then checked.
pub fn custom_address(answer: &str) -> (r: Result<String, InfisicalInputError>)
    ensures
        match spec_validate_address(trim_ws(answer@)) {
            Ok(_) => r matches Ok(a) && a@ == trim_ws(answer@),
            Err(e) => r matches Err(InfisicalInputError::Address(f)) && f == e,
        },
{
    let t = trim(answer);
    match validate_address(t) {
        Ok(()) => Ok(String::from_str(t)),
        Err(e) => Err(InfisicalInputError::Address(e)),
    }
}

/// Node name from the flag, else the saved one; `None` means ask `hostname`.
pub fn node_name_source(flag: &Option<String>, saved: &Option<String>) -> (r: Option<String>)
    ensures
        r.deep_view() == (match *flag {
            Some(f) => Some(f@),
            None => saved.deep_view(),
        }),
{
    match flag {
        Some(f) => Some(f.clone()),
        None => match saved {
            Some(s) => Some(s.clone()),
            None => None,
        },
    }
}

/// The node name from a run of `hostname`: its trimmed output, which must not be empty.
pub fn node_name_from_hostname(outcome: &Result<CommandOutput, RunnerError>) -> (r: Result<
    String,
    InfisicalInputError,
>)
    ensures
        match *outcome {
            Err(_) => r matches Err(InfisicalInputError::HostnameUnavailable),
            Ok(out) => if !out.success {
                r matches Err(InfisicalInputError::HostnameFailed)
            } else if trim_ws(out.stdout@).len() == 0 {
                r matches Err(InfisicalInputError::HostnameEmpty)
            } else {
                r matches Ok(n) && n@ == trim_ws(out.stdout@)
            },
        },
{
    match outcome {
        Err(_) => Err(InfisicalInputError::HostnameUnavailable),
        Ok(out) => {
            if !out.success {
                return Err(InfisicalInputError::HostnameFailed);
            }
            let t = trim(out.stdout.as_str());
            if t.unicode_len() == 0 {
                Err(InfisicalInputError::HostnameEmpty)
            } else {
                Ok(String::from_str(t))
            }
        },
    }
}

/// The access token printed by `infisical login --plain`: its trimmed output;
/// a failed login reports its trimmed stderr.
pub fn token_from_login(outcome: &Result<CommandOutput, RunnerError>) -> (r: Result<String, InfisicalInputError>)
    ensures
        match *outcome {
            Err(e) => r matches Err(InfisicalInputError::LoginUnavailable(m)) && m@ == e.message@,
            Ok(out) => if !out.success {
                r matches Err(InfisicalInputError::LoginFailed(m)) && m@ == trim_ws(out.stderr@)
            } else if trim_ws(out.stdout@).len() == 0 {
                r matches Err(InfisicalInputError::EmptyToken)
            } else {
                r matches Ok(t) && t@ == trim_ws(out.stdout@)
            },
        },
{
    match outcome {
        Err(e) => Err(InfisicalInputError::LoginUnavailable(e.message.clone())),
        Ok(out) => {
            if !out.success {
                return Err(InfisicalInputError::LoginFailed(String::from_str(trim(out.stderr.as_str()))));
            }
            let t = trim(out.stdout.as_str());
            if t.unicode_len() == 0 {
                Err(InfisicalInputError::EmptyToken)
            } else {
                Ok(String::from_str(t))
            }
        },
    }
}

/// The entries that are present, in order.
pub open spec fn present_values(s: Seq<Option<Seq<char>>>) -> Seq<Seq<char>>
    decreases s.len(),
{
    if s.len() == 0 {
        Seq::empty()
    } else {
        let rest = present_values(s.drop_last());
        match s.last() {
            Some(v) => rest.push(v),
            None => rest,
        }
    }
}

fn keep_present(values: Vec<Option<String>>) -> (r: Vec<String>)
    ensures
        r.deep_view() == present_values(values.deep_view()),
{
    let mut out: Vec<String> = Vec::new();
    let mut i: usize = 0;
    while i < values.len()
        invariant
            i <= values@.len(),
            out.deep_view() == present_values(values.deep_view().take(i as int)),
        decreases values.len() - i,
    {
        let ghost before = out.deep_view();
        assert(values.deep_view().take(i + 1).drop_last() =~= values.deep_view().take(i as int));
        match &values[i] {
            Some(v) => {
                out.push(v.clone());
                assert(out.deep_view() =~= before.push(v@));
            },
            None => {},
        }
        i = i + 1;
    }
    assert(values.deep_view().take(values@.len() as int) =~= values.deep_view());
    out
}

/// Folder names in a JSON listing: the string field `key` of each element that has one.
pub open spec fn spec_listed_names(text: Seq<char>, key: Seq<char>) -> Option<Seq<Seq<char>>> {
    match json_array_string_fields(text, key) {
        Some(fields) => Some(present_values(fields)),
        None => None,
    }
}

/// Reads the names under `key` from a JSON array; `None` when the text is not one.
pub fn listed_names(text: &str, key: &str) -> (r: Option<Vec<String>>)
    ensures
        r.deep_view() == spec_listed_names(text@, key@),
{
    match json_array_string_field_values(text, key) {
        Some(fields) => Some(keep_present(fields)),
        None => None,
    }
}

/// Subfolders from a run of `infisical secrets folders get --output json`: the
/// `name` of each listed folder.
pub fn folders_from_listing(outcome: &Result<CommandOutput, RunnerError>) -> (r: Result<
    Vec<String>,
    InfisicalInputError,
>)
    ensures
        match *outcome {
            Err(e) => r matches Err(InfisicalInputError::ListingUnavailable(m)) && m@ == e.message@,
            Ok(out) => if !out.success {
                r matches Err(InfisicalInputError::FolderDiscoveryFailed(m)) && m@ == trim_ws(out.stderr@)
            } else {
                match spec_listed_names(out.stdout@, "name"@) {
                    Some(names) => r matches Ok(v) && v.deep_view() == names,
                    None => r matches Err(InfisicalInputError::FolderListUnparsable),
                }
            },
        },
{
    match outcome {
        Err(e) => Err(InfisicalInputError::ListingUnavailable(e.message.clone())),
        Ok(out) => {
            if !out.success {
                return Err(InfisicalInputError::FolderDiscoveryFailed(String::from_str(trim(out.stderr.as_str()))));
            }
            match listed_names(out.stdout.as_str(), "name") {
                Some(v) => Ok(v),
                None => Err(InfisicalInputError::FolderListUnparsable),
            }
        },
    }
}

/// Folder names typed at the prompt: comma-separated, trimmed, blanks dropped.
pub open spec fn spec_folder_list(input: Seq<char>) -> Seq<Seq<char>> {
    if trim_ws(input).len() == 0 {
        Seq::empty()
    } else {
        trimmed_pieces(trim_ws(input), ',')
    }
}

/// Parses the comma-separated folder answer.
pub fn parse_folder_list(input: &str) -> (r: Vec<String>)
    ensures
        r.deep_view() == spec_folder_list(input@),
{
    let t = trim(input);
    if t.unicode_len() == 0 {
        let r: Vec<String> = Vec::new();
        assert(r.deep_view() =~= Seq::<Seq<char>>::empty());
        r
    } else {
        split_trimmed_nonempty(t, ',')
    }
}

/// Folders given by flag win: `Some` of them when there is at least one, `None`
/// when discovery has to decide.
pub fn folders_given(given: &Vec<String>) -> (r: Option<Vec<String>>)
    ensures
        given@.len() > 0 ==> (r matches Some(f) && f.deep_view() == given.deep_view()),
        given@.len() == 0 ==> r is None,
{
    if given.len() > 0 {
        Some(given.clone())
    } else {
        None
    }
}

/// Folders when none were given by flag: the discovered ones; after a failed
/// discovery, the typed list (`None`: no terminal, root only).
pub fn folders_after_discovery(
    discovery: Result<Vec<String>, InfisicalInputError>,
    typed: Option<String>,
) -> (r: Vec<String>)
    ensures
        r.deep_view() == (match discovery {
            Ok(f) => f.deep_view(),
            Err(_) => match typed {
                Some(t) => spec_folder_list(t@),
                None => Seq::empty(),
            },
        }),
{
    match discovery {
        Ok(f) => f,
        Err(_) => match typed {
            Some(t) => parse_folder_list(t.as_str()),
            None => {
                let r: Vec<String> = Vec::new();
                assert(r.deep_view() =~= Seq::<Seq<char>>::empty());
                r
            },
        },
    }
}

/// The secrets environment: flag, else saved, else `prod`.
pub open spec fn spec_environment(flag: Option<String>, saved: Option<String>) -> Seq<char> {
    match flag {
        Some(f) => f@,
        None => match saved {
            Some(s) => s@,
            None => DEFAULT_ENVIRONMENT@,
        },
    }
}

/// Values resolved interactively or from the system before assembly.
#[derive(Debug, Clone)]
pub struct InfisicalAnswers {
    pub address: String,
    pub project_slug: String,
    pub project_id: String,
    pub node_name: String,
    pub client_id: String,
    pub client_secret: String,
    pub folders: Vec<String>,
}

/// Assembles the configuration: the resolved values, the environment (flag,
/// saved, `prod`), the secrets and config directories (flag or default); the
/// install is not skipped until probed.
pub fn resolve_inputs(opts: BootstrapInfisicalCommand, saved: &InfisicalState, answers: InfisicalAnswers) -> (r:
    ResolvedInfisicalInputs)
    ensures
        r.config.address == answers.address,
        r.config.project_slug == answers.project_slug,
        r.config.project_id == answers.project_id,
        r.config.node_name == answers.node_name,
        r.config.client_id == answers.client_id,
        r.config.client_secret == answers.client_secret,
        r.config.folders == answers.folders,
        r.config.environment@ == spec_environment(opts.environment, saved.environment),
        r.config.secrets_dir@ == (match opts.secrets_dir {
            Some(d) => d@,
            None => DEFAULT_SECRETS_DIR@,
        }),
        r.config.config_dir@ == (match opts.config_dir {
            Some(d) => d@,
            None => DEFAULT_CONFIG_DIR@,
        }),
        !r.config.skip_login,
        !r.config.skip_install,
        r.config.dry_run == opts.dry_run,
        r.config.output == opts.output,
{
    let environment = match &opts.environment {
        Some(e) => e.clone(),
        None => match &saved.environment {
            Some(e) => e.clone(),
            None => String::from_str(DEFAULT_ENVIRONMENT),
        },
    };
    let secrets_dir = match opts.secrets_dir {
        Some(d) => d,
        None => String::from_str(DEFAULT_SECRETS_DIR),
    };
    let config_dir = match opts.config_dir {
        Some(d) => d,
        None => String::from_str(DEFAULT_CONFIG_DIR),
    };
    ResolvedInfisicalInputs {
        config: BootstrapInfisicalConfig {
            address: answers.address,
            project_slug: answers.project_slug,
            project_id: answers.project_id,
            environment,
            node_name: answers.node_name,
            folders: answers.folders,
            client_id: answers.client_id,
            client_secret: answers.client_secret,
            secrets_dir,
            config_dir,
            skip_login: false,
            skip_install: false,
            dry_run: opts.dry_run,
            output: opts.output,
        },
    }
}

} // verus!
