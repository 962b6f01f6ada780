//! Settings of a Komodo deployment: flags with their defaults, and generated
//! passwords rendered as hex.

use vstd::prelude::*;
use crate::cli::{BootstrapKomodoCommand, KomodoMode, OutputFormat};
use crate::text::{digit_char, digit_str};

verus! {

/// Default directory of the compose files.
pub const DEFAULT_KOMODO_DIR: &'static str = "/etc/heimdall/komodo";

/// Default Komodo image tag.
pub const DEFAULT_IMAGE_TAG: &'static str = "2";

/// Default UI title.
pub const DEFAULT_TITLE: &'static str = "Komodo";

/// Default published port of Komodo Core.
pub const DEFAULT_PORT: u16 = 9120;

/// Default admin and database user name.
pub const DEFAULT_USERNAME: &'static str = "admin";

/// Password used when no random bytes could be read.
pub const FALLBACK_PASSWORD: &'static str = "changeme";

/// Default backups directory.
pub const DEFAULT_BACKUPS_PATH: &'static str = "/etc/komodo/backups";

/// Default name of the first server.
pub const DEFAULT_FIRST_SERVER_NAME: &'static str = "Local";

/// Default periphery root directory.
pub const DEFAULT_PERIPHERY_ROOT: &'static str = "/etc/komodo";

/// Settings of one Komodo deployment.
#[derive(Debug, Clone)]
pub struct BootstrapKomodoConfig {
    pub mode: KomodoMode,
    pub dir: String,
    pub image_tag: String,
    pub force: bool,
    pub no_up: bool,
    pub dry_run: bool,
    pub confirmed: bool,
    pub output: OutputFormat,
    pub host: Option<String>,
    pub title: String,
    pub port: u16,
    pub admin_username: String,
    pub admin_password: String,
    pub db_username: String,
    pub db_password: String,
    pub backups_path: String,
    pub first_server_name: String,
    pub core_address: Option<String>,
    pub connect_as: String,
    pub core_public_key_content: Option<String>,
    pub periphery_root: String,
}

/// Resolved settings.
#[derive(Debug, Clone)]
pub struct ResolvedKomodoInputs {
    pub config: BootstrapKomodoConfig,
}

/// Lower-case hexadecimal, two digits per byte (`{:02x}` of each byte).
pub open spec fn hex_of(bytes: Seq<u8>) -> Seq<char>
    decreases bytes.len(),
{
    if bytes.len() == 0 {
        Seq::empty()
    } else {
        let b = bytes.last();
        hex_of(bytes.drop_last()) + seq![digit_char((b / 16) as nat), digit_char((b % 16) as nat)]
    }
}

/// Renders bytes as lower-case hexadecimal.
pub fn hex_string(bytes: &Vec<u8>) -> (r: String)
    ensures
        r@ == hex_of(bytes@),
{
    let mut out = String::new();
    let mut i: usize = 0;
    while i < bytes.len()
        invariant
            i <= bytes@.len(),
            out@ == hex_of(bytes@.take(i as int)),
        decreases bytes.len() - i,
    {
        let b = bytes[i];
        out.append(digit_str((b / 16) as u64));
        out.append(digit_str((b % 16) as u64));
        assert(bytes@.take(i + 1).drop_last() =~= bytes@.take(i as int));
        i = i + 1;
    }
    assert(bytes@.take(bytes@.len() as int) =~= bytes@);
    out
}

/// A password: the flag, else the hex of the random bytes read for it, else the fallback.
pub open spec fn spec_password(flag: Option<String>, random: Option<Vec<u8>>) -> Seq<char> {
    match flag {
        Some(p) => p@,
        None => match random {
            Some(b) => hex_of(b@),
            None => FALLBACK_PASSWORD@,
        },
    }
}

fn password(flag: Option<String>, random: &Option<Vec<u8>>) -> (r: String)
    ensures
        r@ == spec_password(flag, *random),
{
    match flag {
        Some(p) => p,
        None => match random {
            Some(b) => hex_string(b),
            None => String::from_str(FALLBACK_PASSWORD),
        },
    }
}

fn or_default(o: Option<String>, default: &str) -> (r: String)
    ensures
        r@ == (match o {
            Some(s) => s@,
            None => default@,
        }),
{
    match o {
        Some(s) => s,
        None => String::from_str(default),
    }
}

/// The value of an optional text flag, or its default.
pub open spec fn flag_or(o: Option<String>, default: Seq<char>) -> Seq<char> {
    match o {
        Some(s) => s@,
        None => default,
    }
}

/// Assembles the settings: each flag or its default; passwords from the flag,
/// else from the random bytes read for them (`None` when reading failed); the
/// periphery connects as the first server unless told otherwise;
/// `core_public_key_content` is the text of `--core-public-key-file`, read by the caller.
pub fn resolve_inputs(
    opts: BootstrapKomodoCommand,
    core_public_key_content: Option<String>,
    admin_password_bytes: Option<Vec<u8>>,
    db_password_bytes: Option<Vec<u8>>,
) -> (r: ResolvedKomodoInputs)
    ensures
        r.config.mode == opts.mode,
        r.config.dir@ == flag_or(opts.dir, DEFAULT_KOMODO_DIR@),
        r.config.image_tag@ == flag_or(opts.image_tag, DEFAULT_IMAGE_TAG@),
        r.config.force == opts.force,
        r.config.no_up == opts.no_up,
        r.config.dry_run == opts.dry_run,
        r.config.confirmed == opts.yes,
        r.config.output == opts.output,
        r.config.host == opts.host,
        r.config.title@ == flag_or(opts.title, DEFAULT_TITLE@),
        r.config.port == (match opts.port {
            Some(p) => p,
            None => DEFAULT_PORT,
        }),
        r.config.admin_username@ == flag_or(opts.admin_username, DEFAULT_USERNAME@),
        r.config.admin_password@ == spec_password(opts.admin_password, admin_password_bytes),
        r.config.db_username@ == flag_or(opts.db_username, DEFAULT_USERNAME@),
        r.config.db_password@ == spec_password(opts.db_password, db_password_bytes),
        r.config.backups_path@ == flag_or(opts.backups_path, DEFAULT_BACKUPS_PATH@),
        r.config.first_server_name@ == flag_or(opts.first_server_name, DEFAULT_FIRST_SERVER_NAME@),
        r.config.core_address == opts.core_address,
        r.config.connect_as@ == flag_or(opts.connect_as, r.config.first_server_name@),
        r.config.core_public_key_content == core_public_key_content,
        r.config.periphery_root@ == flag_or(opts.periphery_root, DEFAULT_PERIPHERY_ROOT@),
{
    let first_server_name = or_default(opts.first_server_name, DEFAULT_FIRST_SERVER_NAME);
    let connect_as = match opts.connect_as {
        Some(c) => c,
        None => first_server_name.clone(),
    };
    let config = BootstrapKomodoConfig {
        mode: opts.mode,
        dir: or_default(opts.dir, DEFAULT_KOMODO_DIR),
        image_tag: or_default(opts.image_tag, DEFAULT_IMAGE_TAG),
        force: opts.force,
        no_up: opts.no_up,
        dry_run: opts.dry_run,
        confirmed: opts.yes,
        output: opts.output,
        host: opts.host,
        title: or_default(opts.title, DEFAULT_TITLE),
        port: match opts.port {
            Some(p) => p,
            None => DEFAULT_PORT,
        },
        admin_username: or_default(opts.admin_username, DEFAULT_USERNAME),
        admin_password: password(opts.admin_password, &admin_password_bytes),
        db_username: or_default(opts.db_username, DEFAULT_USERNAME),
        db_password: password(opts.db_password, &db_password_bytes),
        backups_path: or_default(opts.backups_path, DEFAULT_BACKUPS_PATH),
        first_server_name,
        core_address: opts.core_address,
        connect_as,
        core_public_key_content,
        periphery_root: or_default(opts.periphery_root, DEFAULT_PERIPHERY_ROOT),
    };
    ResolvedKomodoInputs { config }
}

/// Hex rendering doubles the length and uses only `0-9a-f`, so `n` random bytes
/// give a secret of `2n` characters.
pub proof fn law_hex_shape(bytes: Seq<u8>)
    ensures
        hex_of(bytes).len() == 2 * bytes.len(),
        forall|i: int| 0 <= i < hex_of(bytes).len() ==> {
            let ch = #[trigger] hex_of(bytes)[i];
            ('0' <= ch && ch <= '9') || ('a' <= ch && ch <= 'f')
        },
    decreases bytes.len(),
{
    if bytes.len() > 0 {
        law_hex_shape(bytes.drop_last());
        let b = bytes.last();
        let h = hex_of(bytes);
        let front = hex_of(bytes.drop_last());
        assert forall|i: int| 0 <= i < h.len() implies {
            let ch = #[trigger] h[i];
            ('0' <= ch && ch <= '9') || ('a' <= ch && ch <= 'f')
        } by {
            if i < front.len() {
                assert(h[i] == front[i]);
            } else {
                let d = if i == front.len() { (b / 16) as nat } else { (b % 16) as nat };
                assert(d < 16);
                assert(h[i] == digit_char(d));
            }
        }
    }
}

} // verus!
