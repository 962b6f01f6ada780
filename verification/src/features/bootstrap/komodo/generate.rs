//! The Docker Compose files of a Komodo deployment, as exact text. Secrets that
//! must be random are rendered by the caller and passed in.

use vstd::prelude::*;
use crate::text::{decimal_string, radix_digits};
use super::input::BootstrapKomodoConfig;

verus! {

/// Core compose file: text before `port`.
pub const CORE_YAML_BEFORE_PORT: &'static str = "################################\n# 🦎 KOMODO COMPOSE - MONGO 🦎 #\n################################\n\nversion: '3.8'\n\nservices:\n  mongo:\n    image: mongo\n    labels:\n      komodo.skip: \"\"\n    command: --quiet --wiredTigerCacheSizeGB 0.25\n    restart: unless-stopped\n    volumes:\n      - mongo-data:/data/db\n      - mongo-config:/data/configdb\n    environment:\n      MONGO_INITDB_ROOT_USERNAME: ${KOMODO_DATABASE_USERNAME}\n      MONGO_INITDB_ROOT_PASSWORD: ${KOMODO_DATABASE_PASSWORD}\n\n  core:\n    image: ghcr.io/moghtech/komodo-core:${COMPOSE_KOMODO_IMAGE_TAG:-2}\n    init: true\n    restart: unless-stopped\n    depends_on:\n      - mongo\n    ports:\n      - \"";

/// Core compose file: text after the last value.
pub const CORE_YAML_TAIL: &'static str = ":9120\"\n    env_file: ./compose.env\n    environment:\n      KOMODO_DATABASE_ADDRESS: mongo:27017\n    volumes:\n      - keys:/config/keys\n      - ${COMPOSE_KOMODO_BACKUPS_PATH}:/backups\n\n  periphery:\n    image: ghcr.io/moghtech/komodo-periphery:${COMPOSE_KOMODO_IMAGE_TAG:-2}\n    init: true\n    restart: unless-stopped\n    depends_on:\n      - core\n    env_file: ./compose.env\n    volumes:\n      - keys:/config/keys\n      - /var/run/docker.sock:/var/run/docker.sock\n      - /proc:/proc\n      - ${PERIPHERY_ROOT_DIRECTORY:-/etc/komodo}:${PERIPHERY_ROOT_DIRECTORY:-/etc/komodo}\n\nvolumes:\n  mongo-data:\n  mongo-config:\n  keys:\n";

/// Core environment file: text before `image_tag`.
pub const CORE_ENV_BEFORE_IMAGE_TAG: &'static str = "COMPOSE_KOMODO_IMAGE_TAG=";

/// Core environment file: text before `backups_path`.
pub const CORE_ENV_BEFORE_BACKUPS_PATH: &'static str = "\nCOMPOSE_KOMODO_BACKUPS_PATH=";

/// Core environment file: text before `db_username`.
pub const CORE_ENV_BEFORE_DB_USERNAME: &'static str = "\n\nKOMODO_DATABASE_USERNAME=";

/// Core environment file: text before `db_password`.
pub const CORE_ENV_BEFORE_DB_PASSWORD: &'static str = "\nKOMODO_DATABASE_PASSWORD=";

/// Core environment file: text before `host`.
pub const CORE_ENV_BEFORE_HOST: &'static str = "\n\nTZ=Etc/UTC\n\nKOMODO_HOST=";

/// Core environment file: text before `title`.
pub const CORE_ENV_BEFORE_TITLE: &'static str = "\nKOMODO_TITLE=";

/// Core environment file: text before `periphery_public_key_ref`.
pub const CORE_ENV_BEFORE_PERIPHERY_PUBLIC_KEY_REF: &'static str = "\n\nKOMODO_PERIPHERY_PUBLIC_KEY=";

/// Core environment file: text before `admin_username`.
pub const CORE_ENV_BEFORE_ADMIN_USERNAME: &'static str = "\n\nKOMODO_LOCAL_AUTH=true\nKOMODO_INIT_ADMIN_USERNAME=";

/// Core environment file: text before `admin_password`.
pub const CORE_ENV_BEFORE_ADMIN_PASSWORD: &'static str = "\nKOMODO_INIT_ADMIN_PASSWORD=";

/// Core environment file: text before `first_server_name`.
pub const CORE_ENV_BEFORE_FIRST_SERVER_NAME: &'static str = "\n\nKOMODO_FIRST_SERVER_NAME=";

/// Core environment file: text before `webhook_secret`.
pub const CORE_ENV_BEFORE_WEBHOOK_SECRET: &'static str = "\n\nKOMODO_DISABLE_CONFIRM_DIALOG=false\n\nKOMODO_DISABLE_INIT_RESOURCES=false\n\nKOMODO_WEBHOOK_SECRET=";

/// Core environment file: text before `jwt_secret`.
pub const CORE_ENV_BEFORE_JWT_SECRET: &'static str = "\nKOMODO_JWT_SECRET=";

/// Core environment file: text before the server name that periphery connects as.
pub const CORE_ENV_BEFORE_CONNECT_AS: &'static str = "\nKOMODO_JWT_TTL=1-day\n\nKOMODO_MONITORING_INTERVAL=15-sec\nKOMODO_RESOURCE_POLL_INTERVAL=1-hr\n\nKOMODO_DISABLE_USER_REGISTRATION=false\nKOMODO_ENABLE_NEW_USERS=false\nKOMODO_DISABLE_NON_ADMIN_CREATE=false\nKOMODO_TRANSPARENT_MODE=false\n\nKOMODO_OIDC_ENABLED=false\n\nKOMODO_GITHUB_OAUTH_ENABLED=false\n\nKOMODO_GOOGLE_OAUTH_ENABLED=false\n\nKOMODO_LOGGING_PRETTY=false\nKOMODO_PRETTY_STARTUP_CONFIG=false\n\nPERIPHERY_CORE_ADDRESS=ws://core:9120\nPERIPHERY_CONNECT_AS=";

/// Core environment file: text before `core_public_key_ref`.
pub const CORE_ENV_BEFORE_CORE_PUBLIC_KEY_REF: &'static str = "\nPERIPHERY_CORE_PUBLIC_KEYS=";

/// Core environment file: text before `periphery_root`.
pub const CORE_ENV_BEFORE_PERIPHERY_ROOT: &'static str = "\n\nPERIPHERY_ROOT_DIRECTORY=";

/// Core environment file: text after the last value.
pub const CORE_ENV_TAIL: &'static str = "\n\nPERIPHERY_DISABLE_TERMINALS=false\nPERIPHERY_DISABLE_CONTAINER_TERMINALS=false\n\nPERIPHERY_LOGGING_PRETTY=false\nPERIPHERY_PRETTY_STARTUP_CONFIG=false\n";

/// Periphery environment file: text before `image_tag`.
pub const PERIPHERY_ENV_BEFORE_IMAGE_TAG: &'static str = "COMPOSE_KOMODO_IMAGE_TAG=";

/// Periphery environment file: text before `core_address`.
pub const PERIPHERY_ENV_BEFORE_CORE_ADDRESS: &'static str = "\n\nTZ=Etc/UTC\n\nPERIPHERY_CORE_ADDRESS=";

/// Periphery environment file: text before `connect_as`.
pub const PERIPHERY_ENV_BEFORE_CONNECT_AS: &'static str = "\nPERIPHERY_CONNECT_AS=";

/// Periphery environment file: text before `core_public_key_ref`.
pub const PERIPHERY_ENV_BEFORE_CORE_PUBLIC_KEY_REF: &'static str = "\nPERIPHERY_CORE_PUBLIC_KEYS=";

/// Periphery environment file: text before `periphery_root`.
pub const PERIPHERY_ENV_BEFORE_PERIPHERY_ROOT: &'static str = "\n\nPERIPHERY_ROOT_DIRECTORY=";

/// Periphery environment file: text after the last value.
pub const PERIPHERY_ENV_TAIL: &'static str = "\n\nPERIPHERY_DISABLE_TERMINALS=false\nPERIPHERY_DISABLE_CONTAINER_TERMINALS=false\n\nPERIPHERY_LOGGING_PRETTY=false\nPERIPHERY_PRETTY_STARTUP_CONFIG=false\n";

/// The periphery-only compose file (it has no settings of its own).
pub const PERIPHERY_YAML: &'static str = "################################\n# 🦎 KOMODO PERIPHERY COMPOSE 🦎 #\n################################\n\nversion: '3.8'\n\nservices:\n  periphery:\n    image: ghcr.io/moghtech/komodo-periphery:${COMPOSE_KOMODO_IMAGE_TAG:-2}\n    init: true\n    restart: unless-stopped\n    env_file: ./compose.env\n    volumes:\n      - ./keys:/config/keys\n      - /var/run/docker.sock:/var/run/docker.sock\n      - /proc:/proc\n      - ${PERIPHERY_ROOT_DIRECTORY:-/etc/komodo}:${PERIPHERY_ROOT_DIRECTORY:-/etc/komodo}\n";

/// Reference to the periphery public key inside the core container.
pub const PERIPHERY_PUBLIC_KEY_REF: &'static str = "file:/config/keys/periphery.pub";

/// Reference to the core public key inside the containers.
pub const CORE_PUBLIC_KEY_REF: &'static str = "file:/config/keys/core.pub";

/// `KOMODO_HOST` when no host is configured.
pub const DEFAULT_KOMODO_HOST: &'static str = "https://komodo.example.com";

/// Core address a periphery uses when none is configured.
pub const DEFAULT_CORE_ADDRESS: &'static str = "ws://core:9120";

/// The public host: configured, else a placeholder.
pub open spec fn host_ref(c: BootstrapKomodoConfig) -> Seq<char> {
    match c.host {
        Some(h) => h@,
        None => DEFAULT_KOMODO_HOST@,
    }
}

/// The core address of a periphery: configured, else the core container.
pub open spec fn core_address_ref(c: BootstrapKomodoConfig) -> Seq<char> {
    match c.core_address {
        Some(a) => a@,
        None => DEFAULT_CORE_ADDRESS@,
    }
}

/// The core compose file: MongoDB, Komodo Core published on `port`, and a local periphery.
pub open spec fn spec_compose_yaml_core(c: BootstrapKomodoConfig) -> Seq<char> {
    CORE_YAML_BEFORE_PORT@
        + radix_digits(c.port as nat, 10)
        + CORE_YAML_TAIL@
}

/// The core environment file, with the two random secrets given.
pub open spec fn spec_compose_env_core(c: BootstrapKomodoConfig, webhook_secret: Seq<char>, jwt_secret: Seq<char>) -> Seq<char> {
    CORE_ENV_BEFORE_IMAGE_TAG@
        + c.image_tag@
        + CORE_ENV_BEFORE_BACKUPS_PATH@
        + c.backups_path@
        + CORE_ENV_BEFORE_DB_USERNAME@
        + c.db_username@
        + CORE_ENV_BEFORE_DB_PASSWORD@
        + c.db_password@
        + CORE_ENV_BEFORE_HOST@
        + host_ref(c)
        + CORE_ENV_BEFORE_TITLE@
        + c.title@
        + CORE_ENV_BEFORE_PERIPHERY_PUBLIC_KEY_REF@
        + PERIPHERY_PUBLIC_KEY_REF@
        + CORE_ENV_BEFORE_ADMIN_USERNAME@
        + c.admin_username@
        + CORE_ENV_BEFORE_ADMIN_PASSWORD@
        + c.admin_password@
        + CORE_ENV_BEFORE_FIRST_SERVER_NAME@
        + c.first_server_name@
        + CORE_ENV_BEFORE_WEBHOOK_SECRET@
        + webhook_secret
        + CORE_ENV_BEFORE_JWT_SECRET@
        + jwt_secret
        + CORE_ENV_BEFORE_CONNECT_AS@
        + c.first_server_name@
        + CORE_ENV_BEFORE_CORE_PUBLIC_KEY_REF@
        + CORE_PUBLIC_KEY_REF@
        + CORE_ENV_BEFORE_PERIPHERY_ROOT@
        + c.periphery_root@
        + CORE_ENV_TAIL@
}

/// The periphery environment file.
pub open spec fn spec_compose_env_periphery(c: BootstrapKomodoConfig) -> Seq<char> {
    PERIPHERY_ENV_BEFORE_IMAGE_TAG@
        + c.image_tag@
        + PERIPHERY_ENV_BEFORE_CORE_ADDRESS@
        + core_address_ref(c)
        + PERIPHERY_ENV_BEFORE_CONNECT_AS@
        + c.connect_as@
        + PERIPHERY_ENV_BEFORE_CORE_PUBLIC_KEY_REF@
        + CORE_PUBLIC_KEY_REF@
        + PERIPHERY_ENV_BEFORE_PERIPHERY_ROOT@
        + c.periphery_root@
        + PERIPHERY_ENV_TAIL@
}

/// Renders the core compose file.
pub fn compose_yaml_core(config: &BootstrapKomodoConfig) -> (r: String)
    ensures
        r@ == spec_compose_yaml_core(*config),
{
    let port = decimal_string(config.port as u64);
    let mut out = String::from_str(CORE_YAML_BEFORE_PORT);
    out.append(port.as_str());
    out.append(CORE_YAML_TAIL);
    assert(out@ =~= spec_compose_yaml_core(*config));
    out
}

/// Renders the periphery-only compose file.
pub fn compose_yaml_periphery(_config: &BootstrapKomodoConfig) -> (r: String)
    ensures
        r@ == PERIPHERY_YAML@,
{
    String::from_str(PERIPHERY_YAML)
}

/// Renders the core environment file; `webhook_secret` and `jwt_secret` are the
/// random secrets the caller generated for it.
pub fn compose_env_core(config: &BootstrapKomodoConfig, webhook_secret: &str, jwt_secret: &str) -> (r: String)
    ensures
        r@ == spec_compose_env_core(*config, webhook_secret@, jwt_secret@),
{
    let host = match &config.host {
        Some(h) => h.as_str(),
        None => DEFAULT_KOMODO_HOST,
    };
    let mut out = String::from_str(CORE_ENV_BEFORE_IMAGE_TAG);
    out.append(config.image_tag.as_str());
    out.append(CORE_ENV_BEFORE_BACKUPS_PATH);
    out.append(config.backups_path.as_str());
    out.append(CORE_ENV_BEFORE_DB_USERNAME);
    out.append(config.db_username.as_str());
    out.append(CORE_ENV_BEFORE_DB_PASSWORD);
    out.append(config.db_password.as_str());
    out.append(CORE_ENV_BEFORE_HOST);
    out.append(host);
    out.append(CORE_ENV_BEFORE_TITLE);
    out.append(config.title.as_str());
    out.append(CORE_ENV_BEFORE_PERIPHERY_PUBLIC_KEY_REF);
    out.append(PERIPHERY_PUBLIC_KEY_REF);
    out.append(CORE_ENV_BEFORE_ADMIN_USERNAME);
    out.append(config.admin_username.as_str());
    out.append(CORE_ENV_BEFORE_ADMIN_PASSWORD);
    out.append(config.admin_password.as_str());
    out.append(CORE_ENV_BEFORE_FIRST_SERVER_NAME);
    out.append(config.first_server_name.as_str());
    out.append(CORE_ENV_BEFORE_WEBHOOK_SECRET);
    out.append(webhook_secret);
    out.append(CORE_ENV_BEFORE_JWT_SECRET);
    out.append(jwt_secret);
    out.append(CORE_ENV_BEFORE_CONNECT_AS);
    out.append(config.first_server_name.as_str());
    out.append(CORE_ENV_BEFORE_CORE_PUBLIC_KEY_REF);
    out.append(CORE_PUBLIC_KEY_REF);
    out.append(CORE_ENV_BEFORE_PERIPHERY_ROOT);
    out.append(config.periphery_root.as_str());
    out.append(CORE_ENV_TAIL);
    assert(out@ =~= spec_compose_env_core(*config, webhook_secret@, jwt_secret@));
    out
}

/// Renders the periphery environment file.
pub fn compose_env_periphery(config: &BootstrapKomodoConfig) -> (r: String)
    ensures
        r@ == spec_compose_env_periphery(*config),
{
    let core_address = match &config.core_address {
        Some(a) => a.as_str(),
        None => DEFAULT_CORE_ADDRESS,
    };
    let mut out = String::from_str(PERIPHERY_ENV_BEFORE_IMAGE_TAG);
    out.append(config.image_tag.as_str());
    out.append(PERIPHERY_ENV_BEFORE_CORE_ADDRESS);
    out.append(core_address);
    out.append(PERIPHERY_ENV_BEFORE_CONNECT_AS);
    out.append(config.connect_as.as_str());
    out.append(PERIPHERY_ENV_BEFORE_CORE_PUBLIC_KEY_REF);
    out.append(CORE_PUBLIC_KEY_REF);
    out.append(PERIPHERY_ENV_BEFORE_PERIPHERY_ROOT);
    out.append(config.periphery_root.as_str());
    out.append(PERIPHERY_ENV_TAIL);
    assert(out@ =~= spec_compose_env_periphery(*config));
    out
}

} // verus!
