//! The Infisical Agent configuration and its systemd unit, as exact text.

use vstd::prelude::*;
use super::input::BootstrapInfisicalConfig;

verus! {

/// Text of a template entry before the project slug.
pub const TEMPLATE_HEAD: &'static str = "  - template-content: |\n      {{- with listSecretsByProjectSlug \"";

/// Between the project slug and the environment.
pub const TEMPLATE_AFTER_SLUG: &'static str = "\" \"";

/// Between the environment and the secrets path (which starts with `/`).
pub const TEMPLATE_AFTER_ENV: &'static str = "\" \"/";

/// Between the secrets path and the destination directory.
pub const TEMPLATE_AFTER_PATH: &'static str =
    "\" `{\"recursive\": false, \"expandSecretReferences\": true}` }}\n      {{- range . }}\n      {{ .Key }}={{ .Value }}\n      {{- end }}\n      {{- end }}\n    destination-path: ";

/// After the destination directory.
pub const TEMPLATE_TAIL: &'static str = "/.env\n    config:\n      polling-interval: 60s";

/// Start of the agent configuration, before the API address.
pub const AGENT_HEAD: &'static str = "infisical:\n  address: \"";

/// Between the address and the credentials directory of the client ID.
pub const AGENT_AFTER_ADDRESS: &'static str =
    "\"\n\nauth:\n  type: \"universal-auth\"\n  config:\n    client-id: \"";

/// Between the client ID file's directory and the client secret file's directory.
pub const AGENT_AFTER_CLIENT_ID_DIR: &'static str = "/client-id\"\n    client-secret: \"";

/// Between the client secret file's directory and the templates.
pub const AGENT_AFTER_CLIENT_SECRET_DIR: &'static str =
    "/client-secret\"\n    remove_client_secret_on_read: false\n\ntemplates:\n";

/// Start of the systemd unit, before the configuration path.
pub const UNIT_HEAD: &'static str =
    "[Unit]\nDescription=Infisical Agent\nAfter=network.target\n\n[Service]\nType=simple\nExecStart=/usr/bin/infisical agent --config ";

/// Rest of the systemd unit.
pub const UNIT_TAIL: &'static str =
    "\nRestart=on-failure\nRestartSec=5s\nUser=root\n\n[Install]\nWantedBy=multi-user.target\n";

/// One agent template: the secrets of `/path` in the project and environment,
/// rendered as `KEY=value` lines into `dest/.env`, polled every minute.
pub open spec fn template_entry(slug: Seq<char>, env: Seq<char>, path: Seq<char>, dest: Seq<char>) -> Seq<char> {
    TEMPLATE_HEAD@ + slug + TEMPLATE_AFTER_SLUG@ + env + TEMPLATE_AFTER_ENV@ + path + TEMPLATE_AFTER_PATH@ + dest
        + TEMPLATE_TAIL@
}

/// The entries of the subfolders, each after a blank line, in order.
pub open spec fn folder_entries(c: BootstrapInfisicalConfig, folders: Seq<Seq<char>>) -> Seq<char>
    decreases folders.len(),
{
    if folders.len() == 0 {
        Seq::empty()
    } else {
        let f = folders.last();
        folder_entries(c, folders.drop_last()) + "\n\n"@ + template_entry(
            c.project_slug@,
            c.environment@,
            c.node_name@ + "/"@ + f,
            c.secrets_dir@ + "/"@ + f,
        )
    }
}

/// Directory holding the Universal Auth credential files.
pub open spec fn creds_dir(c: BootstrapInfisicalConfig) -> Seq<char> {
    c.secrets_dir@ + "/.infisical"@
}

/// The agent configuration: the API address, Universal Auth reading the client
/// ID and secret from the credentials directory, one template for the node's
/// root folder into `<secrets_dir>/.env` and one per subfolder into
/// `<secrets_dir>/<folder>/.env`.
pub open spec fn spec_agent_yaml(c: BootstrapInfisicalConfig) -> Seq<char> {
    agent_yaml_with_folders(c, c.folders.deep_view())
}

/// The agent configuration of `c` with the subfolders `folders`.
pub open spec fn agent_yaml_with_folders(c: BootstrapInfisicalConfig, folders: Seq<Seq<char>>) -> Seq<char> {
    AGENT_HEAD@ + c.address@ + AGENT_AFTER_ADDRESS@ + creds_dir(c) + AGENT_AFTER_CLIENT_ID_DIR@ + creds_dir(c)
        + AGENT_AFTER_CLIENT_SECRET_DIR@ + template_entry(c.project_slug@, c.environment@, c.node_name@, c.secrets_dir@)
        + folder_entries(c, folders) + "\n"@
}

/// The systemd unit that runs the agent with the given configuration file.
pub open spec fn spec_systemd_unit(config_path: Seq<char>) -> Seq<char> {
    UNIT_HEAD@ + config_path + UNIT_TAIL@
}

fn append_template_entry(out: &mut String, slug: &str, env: &str, path: &str, dest: &str)
    ensures
        final(out)@ == old(out)@ + template_entry(slug@, env@, path@, dest@),
{
    out.append(TEMPLATE_HEAD);
    out.append(slug);
    out.append(TEMPLATE_AFTER_SLUG);
    out.append(env);
    out.append(TEMPLATE_AFTER_ENV);
    out.append(path);
    out.append(TEMPLATE_AFTER_PATH);
    out.append(dest);
    out.append(TEMPLATE_TAIL);
    assert(out@ =~= old(out)@ + template_entry(slug@, env@, path@, dest@));
}

fn slash_joined(a: &str, b: &str) -> (r: String)
    ensures
        r@ == a@ + "/"@ + b@,
{
    let mut r = String::from_str(a);
    r.append("/");
    r.append(b);
    r
}

/// Renders the Infisical Agent configuration.
pub fn agent_yaml(config: &BootstrapInfisicalConfig) -> (r: String)
    ensures
        r@ == spec_agent_yaml(*config),
{
    render_agent_yaml(config, &config.folders)
}

/// Renders the agent configuration of `config` for the subfolders `folders`.
pub(crate) fn render_agent_yaml(config: &BootstrapInfisicalConfig, folders: &Vec<String>) -> (r: String)
    ensures
        r@ == agent_yaml_with_folders(*config, folders.deep_view()),
{
    let mut creds = String::from_str(config.secrets_dir.as_str());
    creds.append("/.infisical");
    let mut out = String::from_str(AGENT_HEAD);
    out.append(config.address.as_str());
    out.append(AGENT_AFTER_ADDRESS);
    out.append(creds.as_str());
    out.append(AGENT_AFTER_CLIENT_ID_DIR);
    out.append(creds.as_str());
    out.append(AGENT_AFTER_CLIENT_SECRET_DIR);
    append_template_entry(
        &mut out,
        config.project_slug.as_str(),
        config.environment.as_str(),
        config.node_name.as_str(),
        config.secrets_dir.as_str(),
    );
    let ghost head = out@;
    let mut i: usize = 0;
    while i < folders.len()
        invariant
            i <= folders@.len(),
            out@ == head + folder_entries(*config, folders.deep_view().take(i as int)),
        decreases folders.len() - i,
    {
        let folder = folders[i].as_str();
        let path = slash_joined(config.node_name.as_str(), folder);
        let dest = slash_joined(config.secrets_dir.as_str(), folder);
        out.append("\n\n");
        append_template_entry(
            &mut out,
            config.project_slug.as_str(),
            config.environment.as_str(),
            path.as_str(),
            dest.as_str(),
        );
        proof {
            let taken = folders.deep_view().take(i + 1);
            assert(taken.drop_last() =~= folders.deep_view().take(i as int));
            assert(taken.last() == folders@[i as int]@);
        }
        i = i + 1;
    }
    assert(folders.deep_view().take(folders@.len() as int) =~= folders.deep_view());
    out.append("\n");
    assert(out@ =~= agent_yaml_with_folders(*config, folders.deep_view()));
    out
}

/// Renders the systemd unit for the agent.
pub fn systemd_unit(config_path: &str) -> (r: String)
    ensures
        r@ == spec_systemd_unit(config_path@),
{
    let mut out = String::from_str(UNIT_HEAD);
    out.append(config_path);
    out.append(UNIT_TAIL);
    out
}

} // verus!
