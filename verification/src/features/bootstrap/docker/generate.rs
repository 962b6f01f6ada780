//! `/etc/docker/daemon.json` content.

use vstd::prelude::*;
use crate::json::{JsonEntry, JsonObject, json_object_entries, json_object_insert_text, json_object_insert_text_list, json_object_new, json_object_to_string_pretty, json_pretty_text, no_json_entries};

verus! {

/// The daemon configuration could not be rendered as JSON.
#[derive(Debug, Clone, Copy, PartialEq, Eq, Structural)]
pub enum DaemonJsonError {
    Serialize,
}

impl DaemonJsonError {
    /// The error's text.
    pub fn message(&self) -> (r: String)
        ensures
            r@ == "failed to serialize daemon.json"@,
    {
        String::from_str("failed to serialize daemon.json")
    }
}

/// Entries of the daemon configuration: `log-driver` when a driver is given and
/// `registry-mirrors` when at least one mirror is given.
pub open spec fn daemon_json_entries(log_driver: Option<Seq<char>>, registry_mirrors: Seq<Seq<char>>) -> Map<
    Seq<char>,
    JsonEntry,
> {
    let with_driver = match log_driver {
        Some(d) => no_json_entries().insert("log-driver"@, JsonEntry::Text(d)),
        None => no_json_entries(),
    };
    if registry_mirrors.len() > 0 {
        with_driver.insert("registry-mirrors"@, JsonEntry::TextList(registry_mirrors))
    } else {
        with_driver
    }
}

/// The pretty-printed JSON text of the daemon configuration.
pub open spec fn spec_daemon_json(log_driver: Option<Seq<char>>, registry_mirrors: Seq<Seq<char>>) -> Seq<char> {
    json_pretty_text(daemon_json_entries(log_driver, registry_mirrors))
}

/// Renders `daemon.json` with the optional log driver and the registry mirrors;
/// rendering always succeeds.
pub fn generate_daemon_json(log_driver: Option<&str>, registry_mirrors: &Vec<String>) -> (r: Result<
    String,
    DaemonJsonError,
>)
    ensures
        r matches Ok(s) && s@ == spec_daemon_json(
            match log_driver {
                Some(d) => Some(d@),
                None => None,
            },
            registry_mirrors.deep_view(),
        ),
{
    let mut config = json_object_new();
    match log_driver {
        Some(driver) => json_object_insert_text(&mut config, String::from_str("log-driver"), String::from_str(driver)),
        None => {},
    }
    if registry_mirrors.len() > 0 {
        json_object_insert_text_list(&mut config, String::from_str("registry-mirrors"), registry_mirrors.clone());
    }
    match json_object_to_string_pretty(&config) {
        Ok(text) => Ok(text),
        Err(_) => Err(DaemonJsonError::Serialize),
    }
}

} // verus!
