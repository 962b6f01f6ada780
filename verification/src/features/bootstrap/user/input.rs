//! Admin user bootstrap inputs.

use vstd::prelude::*;
use crate::cli::{BootstrapUserCommand, OutputFormat};
use crate::common::argv::extend_args;
use crate::text::{lines_of, next_line, strip_trailing_cr, trim, trim_ws};

verus! {

/// Resolved settings of the admin user bootstrap.
#[derive(Debug, Clone)]
pub struct BootstrapUserConfig {
    pub user: String,
    pub group: String,
    pub keys: Vec<String>,
    pub password: String,
    pub disable_root_login: bool,
    pub disable_password_auth: bool,
    pub dry_run: bool,
    /// Whether the risky SSH changes (root login / password auth) were confirmed.
    pub confirmed: bool,
}

/// Resolved settings plus the report format.
#[derive(Debug, Clone)]
pub struct ResolvedInputs {
    pub config: BootstrapUserConfig,
    pub output: OutputFormat,
}

/// The user name: the `--user` flag when given, else the answer typed at the
/// prompt (`None` when no prompt was shown); a blank answer is refused (`None`), a
/// non-blank one is kept as typed.
pub fn chosen_username(flag: Option<String>, answer: Option<String>) -> (r: Option<String>)
    ensures
        r == (match flag {
            Some(u) => Some(u),
            None => match answer {
                Some(a) => if trim_ws(a@).len() == 0 {
                    None
                } else {
                    Some(a)
                },
                None => None,
            },
        }),
{
    match flag {
        Some(u) => Some(u),
        None => match answer {
            Some(a) => if trim(a.as_str()).unicode_len() == 0 {
                None
            } else {
                Some(a)
            },
            None => None,
        },
    }
}

/// The password: the `--password` flag when given, else the answer typed at the
/// prompt (`None` when no prompt was shown).
pub fn chosen_password(flag: Option<String>, answer: Option<String>) -> (r: Option<String>)
    ensures
        r == (match flag {
            Some(p) => Some(p),
            None => answer,
        }),
{
    match flag {
        Some(p) => Some(p),
        None => answer,
    }
}

/// Disabling root login or password authentication is risky.
pub open spec fn spec_risky(opts: BootstrapUserCommand) -> bool {
    opts.disable_root_login || opts.disable_password_auth
}

/// The user must confirm risky SSH changes unless `--yes` is given.
pub fn confirmation_needed(opts: &BootstrapUserCommand) -> (r: bool)
    ensures
        r == (spec_risky(*opts) && !opts.yes),
{
    (opts.disable_root_login || opts.disable_password_auth) && !opts.yes
}

/// The lines that are not blank, trimmed, in order.
pub open spec fn trimmed_nonblank_lines(lines: Seq<Seq<char>>) -> Seq<Seq<char>>
    decreases lines.len(),
{
    if lines.len() == 0 {
        Seq::empty()
    } else {
        let t = trim_ws(lines[0]);
        let rest = trimmed_nonblank_lines(lines.drop_first());
        if t.len() > 0 {
            seq![t] + rest
        } else {
            rest
        }
    }
}

/// The keys in a key file: one per non-blank line, trimmed.
pub fn key_lines(content: &str) -> (r: Vec<String>)
    ensures
        r.deep_view() == trimmed_nonblank_lines(lines_of(content@)),
{
    let n = content.unicode_len();
    let mut keys: Vec<String> = Vec::new();
    let mut start: usize = 0;
    assert(content@.skip(0) =~= content@);
    assert(keys.deep_view() + trimmed_nonblank_lines(lines_of(content@)) =~= trimmed_nonblank_lines(lines_of(content@)));
    while start < n
        invariant
            start <= n,
            n == content@.len(),
            trimmed_nonblank_lines(lines_of(content@)) == keys.deep_view() + trimmed_nonblank_lines(
                lines_of(content@.skip(start as int)),
            ),
        decreases n - start,
    {
        let e = next_line(content, start, n);
        let raw = content.substring_char(start, e);
        let line = if e < n {
            strip_trailing_cr(raw)
        } else {
            raw
        };
        let t = trim(line);
        let ghost before = keys.deep_view();
        let ghost ls = lines_of(content@.skip(start as int));
        proof {
            assert(ls.len() > 0);
            assert(line@ == ls[0]);
            if e < n {
                assert(ls.drop_first() =~= lines_of(content@.skip(e + 1)));
            } else {
                assert(ls.drop_first() =~= Seq::<Seq<char>>::empty());
            }
        }
        if t.unicode_len() > 0 {
            keys.push(String::from_str(t));
            assert(keys.deep_view() =~= before + seq![t@]);
        }
        if e == n {
            assert(trimmed_nonblank_lines(ls.drop_first()) =~= Seq::<Seq<char>>::empty());
            assert(trimmed_nonblank_lines(lines_of(content@)) =~= keys.deep_view());
            return keys;
        }
        assert(trimmed_nonblank_lines(lines_of(content@)) =~= keys.deep_view() + trimmed_nonblank_lines(
            lines_of(content@.skip(e + 1)),
        ));
        start = e + 1;
    }
    assert(content@.skip(n as int).len() == 0);
    assert(lines_of(content@.skip(n as int)) =~= Seq::<Seq<char>>::empty());
    assert(keys.deep_view() + trimmed_nonblank_lines(Seq::<Seq<char>>::empty()) =~= keys.deep_view());
    keys
}

/// Assembles the settings: the group defaults to the user name; the keys are the
/// `--key` values, then the keys read from key files, then the keys entered
/// interactively; the changes count as confirmed when no confirmation was needed
/// or the user agreed.
pub fn assemble_inputs(
    opts: BootstrapUserCommand,
    user: String,
    file_keys: Vec<String>,
    entered_keys: Vec<String>,
    password: String,
    confirmation_answer: bool,
) -> (r: ResolvedInputs)
    ensures
        r.config.user == user,
        r.config.group@ == (match opts.group {
            Some(g) => g@,
            None => user@,
        }),
        r.config.keys.deep_view() == opts.keys.deep_view() + file_keys.deep_view() + entered_keys.deep_view(),
        r.config.password == password,
        r.config.disable_root_login == opts.disable_root_login,
        r.config.disable_password_auth == opts.disable_password_auth,
        r.config.dry_run == opts.dry_run,
        r.config.confirmed == (!(spec_risky(opts) && !opts.yes) || confirmation_answer),
        r.output == opts.output,
{
    let needed = confirmation_needed(&opts);
    let group = match opts.group {
        Some(g) => g,
        None => user.clone(),
    };
    let mut keys = opts.keys;
    extend_args(&mut keys, &file_keys);
    extend_args(&mut keys, &entered_keys);
    ResolvedInputs {
        config: BootstrapUserConfig {
            user,
            group,
            keys,
            password,
            disable_root_login: opts.disable_root_login,
            disable_password_auth: opts.disable_password_auth,
            dry_run: opts.dry_run,
            confirmed: !needed || confirmation_answer,
        },
        output: opts.output,
    }
}

} // verus!
