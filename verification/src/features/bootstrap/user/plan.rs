//! The ordered operations of the admin user bootstrap.

use vstd::prelude::*;
use crate::common::argv::{args1, args2, args3, args4, args9, lit, no_env};
use crate::common::operation::{
    OperationKindView, PlannedOperation, PlannedOperationView, new_plan, plan_view, push_operation, shell_op, shell_op_full,
    shell_operation, shell_operation_full,
};
use super::input::BootstrapUserConfig;
use super::validate::{
    SshKeyCheck, UserValidationError, key_result_matches, spec_check_ssh_key, spec_validate_username, validate_ssh_key,
    validate_username,
};

verus! {

/// `s` with every `'` replaced by `'"'"'`, for use inside a single-quoted shell word.
pub open spec fn shell_quote_escape(s: Seq<char>) -> Seq<char>
    decreases s.len(),
{
    if s.len() == 0 {
        Seq::empty()
    } else {
        shell_quote_escape(s.drop_last()) + if s.last() == '\'' {
            "'\"'\"'"@
        } else {
            seq![s.last()]
        }
    }
}

/// Escapes single quotes for a single-quoted shell word.
pub fn escape_single_quotes(s: &str) -> (r: String)
    ensures
        r@ == shell_quote_escape(s@),
{
    let n = s.unicode_len();
    let mut out = String::new();
    let mut i: usize = 0;
    while i < n
        invariant
            i <= n,
            n == s@.len(),
            out@ == shell_quote_escape(s@.take(i as int)),
        decreases n - i,
    {
        assert(s@.take(i + 1).drop_last() =~= s@.take(i as int));
        if s.get_char(i) == '\'' {
            out.append("'\"'\"'");
        } else {
            let piece = s.substring_char(i, i + 1);
            assert(piece@ =~= seq![s@[i as int]]);
            out.append(piece);
        }
        i = i + 1;
    }
    assert(s@.take(n as int) =~= s@);
    out
}

pub open spec fn authorized_keys_path(u: Seq<char>) -> Seq<char> {
    "/home/"@ + u + "/.ssh/authorized_keys"@
}

pub open spec fn authorized_keys_tmp_path(u: Seq<char>) -> Seq<char> {
    "/home/"@ + u + "/.ssh/.authorized_keys.tmp"@
}

pub open spec fn sudo_sh_op(id: Seq<char>, description: Seq<char>, script: Seq<char>) -> PlannedOperationView {
    shell_op(id, description, "sudo"@, seq!["sh"@, "-c"@, script], seq![], false)
}

pub open spec fn ensure_group_op(g: Seq<char>) -> PlannedOperationView {
    sudo_sh_op("ensure_group"@, "Ensure admin group exists"@, "getent group "@ + g + " >/dev/null || groupadd "@ + g)
}

pub open spec fn ensure_user_op(u: Seq<char>, g: Seq<char>) -> PlannedOperationView {
    sudo_sh_op(
        "ensure_user"@,
        "Ensure admin user exists"@,
        "id -u "@ + u + " >/dev/null 2>&1 || useradd --create-home --shell /bin/bash --gid "@ + g + " "@ + u,
    )
}

pub open spec fn grant_sudo_op(u: Seq<char>) -> PlannedOperationView {
    sudo_sh_op(
        "grant_sudo_access"@,
        "Add user to sudo/wheel group for administrator privileges"@,
        "getent group sudo >/dev/null 2>&1 && usermod -aG sudo "@ + u
            + "; getent group wheel >/dev/null 2>&1 && usermod -aG wheel "@ + u + "; true"@,
    )
}

pub open spec fn ensure_ssh_dir_op(u: Seq<char>, g: Seq<char>) -> PlannedOperationView {
    shell_op(
        "ensure_ssh_dir"@,
        "Ensure .ssh directory and permissions"@,
        "sudo"@,
        seq!["install"@, "-d"@, "-m"@, "700"@, "-o"@, u, "-g"@, g, "/home/"@ + u + "/.ssh"@],
        seq![],
        false,
    )
}

pub open spec fn append_key_op(u: Seq<char>, key: Seq<char>) -> PlannedOperationView {
    let tmp = authorized_keys_tmp_path(u);
    let k = shell_quote_escape(key);
    sudo_sh_op(
        "append_authorized_key"@,
        "Install allowed SSH key in temporary file if missing"@,
        "grep -qxF '"@ + k + "' "@ + tmp + " || printf '%s\\n' '"@ + k + "' >> "@ + tmp,
    )
}

/// One append operation per key, in order.
pub open spec fn append_key_ops(u: Seq<char>, keys: Seq<Seq<char>>) -> Seq<PlannedOperationView>
    decreases keys.len(),
{
    if keys.len() == 0 {
        Seq::empty()
    } else {
        append_key_ops(u, keys.drop_last()).push(append_key_op(u, keys.last()))
    }
}

/// Risky SSH changes: disable root login and/or password authentication, then
/// validate and reload sshd; all of them require confirmation.
pub open spec fn sshd_ops(c: BootstrapUserConfig) -> Seq<PlannedOperationView> {
    let root = if c.disable_root_login {
        seq![
            shell_op_full(
                "disable_root_login"@,
                "Disable SSH root login in sshd_config"@,
                "sudo"@,
                seq!["sed"@, "-i.bak"@, "s/^#\\?PermitRootLogin.*/PermitRootLogin no/"@, "/etc/ssh/sshd_config"@],
                None,
                true,
            ),
        ]
    } else {
        seq![]
    };
    let pass = if c.disable_password_auth {
        seq![
            shell_op_full(
                "disable_password_auth"@,
                "Disable SSH password authentication in sshd_config"@,
                "sudo"@,
                seq!["sed"@, "-i.bak"@, "s/^#\\?PasswordAuthentication.*/PasswordAuthentication no/"@, "/etc/ssh/sshd_config"@],
                None,
                true,
            ),
        ]
    } else {
        seq![]
    };
    let reload = if c.disable_root_login || c.disable_password_auth {
        seq![
            shell_op_full("validate_sshd_config"@, "Validate SSH daemon configuration"@, "sudo"@, seq!["sshd"@, "-t"@], None, true),
            shell_op_full("reload_sshd"@, "Reload SSH daemon"@, "sudo"@, seq!["systemctl"@, "reload"@, "sshd"@], None, true),
        ]
    } else {
        seq![]
    };
    root + pass + reload
}

/// The admin user plan: group, user, sudo access, `.ssh` directory, an atomic
/// update of `authorized_keys` through a temporary copy (one idempotent append per
/// key), ownership and mode, the password, and the optional sshd hardening.
pub open spec fn spec_user_plan(c: BootstrapUserConfig) -> Seq<PlannedOperationView> {
    let u = c.user@;
    let g = c.group@;
    let ak = authorized_keys_path(u);
    let tmp = authorized_keys_tmp_path(u);
    seq![
        ensure_group_op(g),
        ensure_user_op(u, g),
        grant_sudo_op(u),
        ensure_ssh_dir_op(u, g),
        shell_op("ensure_authorized_keys_file"@, "Ensure authorized_keys file exists"@, "sudo"@, seq!["touch"@, ak], seq![], false),
        shell_op(
            "prepare_authorized_keys_temp"@,
            "Create temporary authorized_keys copy for atomic update"@,
            "sudo"@,
            seq!["cp"@, ak, tmp],
            seq![],
            false,
        ),
    ] + append_key_ops(u, c.keys.deep_view()) + seq![
        shell_op(
            "promote_authorized_keys_temp"@,
            "Atomically replace authorized_keys with temporary file"@,
            "sudo"@,
            seq!["mv"@, tmp, ak],
            seq![],
            false,
        ),
        shell_op(
            "set_authorized_keys_permissions"@,
            "Set authorized_keys file ownership and mode"@,
            "sudo"@,
            seq!["chown"@, u + ":"@ + g, ak],
            seq![],
            false,
        ),
        shell_op("chmod_authorized_keys"@, "Set authorized_keys mode"@, "sudo"@, seq!["chmod"@, "600"@, ak], seq![], false),
        shell_op_full(
            "set_password"@,
            "Set user password via chpasswd"@,
            "sudo"@,
            seq!["chpasswd"@],
            Some(u + ":"@ + c.password@ + "\n"@),
            false,
        ),
    ] + sshd_ops(c)
}

/// Every key passes [`validate_ssh_key`].
pub open spec fn all_keys_valid(keys: Seq<String>) -> bool {
    forall|i: int| 0 <= i < keys.len() ==> spec_check_ssh_key(#[trigger] keys[i]@) is Valid
}

/// The inputs pass every check of [`build_plan`].
pub open spec fn user_inputs_valid(c: BootstrapUserConfig) -> bool {
    &&& spec_validate_username(c.user@) is Ok
    &&& spec_validate_username(c.group@) is Ok
    &&& c.keys@.len() > 0
    &&& all_keys_valid(c.keys@)
}

/// The error [`build_plan`] reports: the first failing check among user name,
/// group name, "at least one key", and the keys in order.
pub open spec fn plan_error_matches(c: BootstrapUserConfig, e: UserValidationError) -> bool {
    if spec_validate_username(c.user@) is Err {
        Err::<(), UserValidationError>(e) == spec_validate_username(c.user@)
    } else if spec_validate_username(c.group@) is Err {
        Err::<(), UserValidationError>(e) == spec_validate_username(c.group@)
    } else if c.keys@.len() == 0 {
        e == UserValidationError::NoKeys
    } else {
        exists|i: int|
            0 <= i < c.keys@.len() && (forall|j: int| 0 <= j < i ==> spec_check_ssh_key(#[trigger] c.keys@[j]@) is Valid)
                && !(spec_check_ssh_key(c.keys@[i]@) is Valid) && key_result_matches(
                Err(e),
                spec_check_ssh_key(#[trigger] c.keys@[i]@),
            )
    }
}

fn sudo_sh(id: &'static str, description: &str, script: String) -> (op: PlannedOperation)
    ensures
        op@ == sudo_sh_op(id@, description@, script@),
{
    shell_operation(id, description, "sudo", args3(lit("sh"), lit("-c"), script), no_env(), false)
}

fn append_key_operation(user: &String, key: &String) -> (op: PlannedOperation)
    ensures
        op@ == append_key_op(user@, key@),
{
    let k = escape_single_quotes(key.as_str());
    let mut tmp = lit("/home/");
    tmp.append(user.as_str());
    tmp.append("/.ssh/.authorized_keys.tmp");
    let mut script = lit("grep -qxF '");
    script.append(k.as_str());
    script.append("' ");
    script.append(tmp.as_str());
    script.append(" || printf '%s\\n' '");
    script.append(k.as_str());
    script.append("' >> ");
    script.append(tmp.as_str());
    sudo_sh("append_authorized_key", "Install allowed SSH key in temporary file if missing", script)
}

/// Validates the inputs, then builds the admin user plan.
pub fn build_plan(config: &BootstrapUserConfig) -> (r: Result<Vec<PlannedOperation>, UserValidationError>)
    ensures
        match r {
            Ok(ops) => user_inputs_valid(*config) && plan_view(ops@) == spec_user_plan(*config),
            Err(e) => !user_inputs_valid(*config) && plan_error_matches(*config, e),
        },
{
    match validate_username(config.user.as_str()) {
        Ok(_) => {},
        Err(e) => return Err(e),
    }
    match validate_username(config.group.as_str()) {
        Ok(_) => {},
        Err(e) => return Err(e),
    }
    if config.keys.len() == 0 {
        return Err(UserValidationError::NoKeys);
    }
    let mut i: usize = 0;
    while i < config.keys.len()
        invariant
            i <= config.keys@.len(),
            config.keys@.len() > 0,
            spec_validate_username(config.user@) is Ok,
            spec_validate_username(config.group@) is Ok,
            forall|j: int| 0 <= j < i ==> spec_check_ssh_key(#[trigger] config.keys@[j]@) is Valid,
        decreases config.keys.len() - i,
    {
        let checked = validate_ssh_key(config.keys[i].as_str());
        match checked {
            Ok(_) => {},
            Err(e) => {
                assert(!(spec_check_ssh_key(config.keys@[i as int]@) is Valid));
                assert(plan_error_matches(*config, e));
                return Err(e);
            },
        }
        i = i + 1;
    }
    let user = &config.user;
    let group = &config.group;
    let mut ops = new_plan();

    let mut s1 = lit("getent group ");
    s1.append(group.as_str());
    s1.append(" >/dev/null || groupadd ");
    s1.append(group.as_str());
    push_operation(&mut ops, sudo_sh("ensure_group", "Ensure admin group exists", s1));

    let mut s2 = lit("id -u ");
    s2.append(user.as_str());
    s2.append(" >/dev/null 2>&1 || useradd --create-home --shell /bin/bash --gid ");
    s2.append(group.as_str());
    s2.append(" ");
    s2.append(user.as_str());
    push_operation(&mut ops, sudo_sh("ensure_user", "Ensure admin user exists", s2));

    let mut s3 = lit("getent group sudo >/dev/null 2>&1 && usermod -aG sudo ");
    s3.append(user.as_str());
    s3.append("; getent group wheel >/dev/null 2>&1 && usermod -aG wheel ");
    s3.append(user.as_str());
    s3.append("; true");
    push_operation(&mut ops, sudo_sh("grant_sudo_access", "Add user to sudo/wheel group for administrator privileges", s3));

    let mut ssh_dir = lit("/home/");
    ssh_dir.append(user.as_str());
    ssh_dir.append("/.ssh");
    push_operation(
        &mut ops,
        shell_operation(
            "ensure_ssh_dir",
            "Ensure .ssh directory and permissions",
            "sudo",
            args9(lit("install"), lit("-d"), lit("-m"), lit("700"), lit("-o"), user.clone(), lit("-g"), group.clone(), ssh_dir),
            no_env(),
            false,
        ),
    );

    let mut ak = lit("/home/");
    ak.append(user.as_str());
    ak.append("/.ssh/authorized_keys");
    let mut tmp = lit("/home/");
    tmp.append(user.as_str());
    tmp.append("/.ssh/.authorized_keys.tmp");
    push_operation(
        &mut ops,
        shell_operation(
            "ensure_authorized_keys_file",
            "Ensure authorized_keys file exists",
            "sudo",
            args2(lit("touch"), ak.clone()),
            no_env(),
            false,
        ),
    );
    push_operation(
        &mut ops,
        shell_operation(
            "prepare_authorized_keys_temp",
            "Create temporary authorized_keys copy for atomic update",
            "sudo",
            args3(lit("cp"), ak.clone(), tmp.clone()),
            no_env(),
            false,
        ),
    );
    let ghost head = plan_view(ops@);
    let mut k: usize = 0;
    while k < config.keys.len()
        invariant
            k <= config.keys@.len(),
            plan_view(ops@) == head + append_key_ops(config.user@, config.keys.deep_view().take(k as int)),
        decreases config.keys.len() - k,
    {
        let op = append_key_operation(&config.user, &config.keys[k]);
        push_operation(&mut ops, op);
        proof {
            let kv = config.keys.deep_view();
            assert(kv.take(k + 1).drop_last() =~= kv.take(k as int));
            assert(kv.take(k + 1).last() == config.keys@[k as int]@);
            assert(head + append_key_ops(config.user@, kv.take(k + 1)) =~= (head + append_key_ops(
                config.user@,
                kv.take(k as int),
            )).push(append_key_op(config.user@, config.keys@[k as int]@)));
        }
        k = k + 1;
    }
    assert(config.keys.deep_view().take(config.keys@.len() as int) =~= config.keys.deep_view());
    let ghost after_keys = plan_view(ops@);
    push_operation(
        &mut ops,
        shell_operation(
            "promote_authorized_keys_temp",
            "Atomically replace authorized_keys with temporary file",
            "sudo",
            args3(lit("mv"), tmp, ak.clone()),
            no_env(),
            false,
        ),
    );
    let mut owner = user.clone();
    owner.append(":");
    owner.append(group.as_str());
    push_operation(
        &mut ops,
        shell_operation(
            "set_authorized_keys_permissions",
            "Set authorized_keys file ownership and mode",
            "sudo",
            args3(lit("chown"), owner, ak.clone()),
            no_env(),
            false,
        ),
    );
    push_operation(
        &mut ops,
        shell_operation("chmod_authorized_keys", "Set authorized_keys mode", "sudo", args3(lit("chmod"), lit("600"), ak), no_env(), false),
    );
    let mut stdin = user.clone();
    stdin.append(":");
    stdin.append(config.password.as_str());
    stdin.append("\n");
    push_operation(
        &mut ops,
        shell_operation_full("set_password", "Set user password via chpasswd", "sudo", args1(lit("chpasswd")), Some(stdin), false),
    );
    let ghost before_sshd = plan_view(ops@);
    if config.disable_root_login {
        push_operation(
            &mut ops,
            shell_operation_full(
                "disable_root_login",
                "Disable SSH root login in sshd_config",
                "sudo",
                args4(lit("sed"), lit("-i.bak"), lit("s/^#\\?PermitRootLogin.*/PermitRootLogin no/"), lit("/etc/ssh/sshd_config")),
                None,
                true,
            ),
        );
    }
    if config.disable_password_auth {
        push_operation(
            &mut ops,
            shell_operation_full(
                "disable_password_auth",
                "Disable SSH password authentication in sshd_config",
                "sudo",
                args4(
                    lit("sed"),
                    lit("-i.bak"),
                    lit("s/^#\\?PasswordAuthentication.*/PasswordAuthentication no/"),
                    lit("/etc/ssh/sshd_config"),
                ),
                None,
                true,
            ),
        );
    }
    if config.disable_root_login || config.disable_password_auth {
        push_operation(
            &mut ops,
            shell_operation_full("validate_sshd_config", "Validate SSH daemon configuration", "sudo", args2(lit("sshd"), lit("-t")), None, true),
        );
        push_operation(
            &mut ops,
            shell_operation_full(
                "reload_sshd",
                "Reload SSH daemon",
                "sudo",
                args3(lit("systemctl"), lit("reload"), lit("sshd")),
                None,
                true,
            ),
        );
    }
    assert(plan_view(ops@) =~= before_sshd + sshd_ops(*config));
    assert(plan_view(ops@) =~= spec_user_plan(*config));
    Ok(ops)
}

proof fn lemma_append_key_ops(u: Seq<char>, keys: Seq<Seq<char>>)
    ensures
        append_key_ops(u, keys).len() == keys.len(),
        forall|i: int| 0 <= i < keys.len() ==> #[trigger] append_key_ops(u, keys)[i] == append_key_op(u, keys[i]),
    decreases keys.len(),
{
    if keys.len() > 0 {
        lemma_append_key_ops(u, keys.drop_last());
        assert forall|i: int| 0 <= i < keys.len() implies #[trigger] append_key_ops(u, keys)[i] == append_key_op(u, keys[i]) by {
            if i < keys.len() - 1 {
                assert(keys.drop_last()[i] == keys[i]);
            }
        }
    }
}

/// User plan structure: one idempotent append step per key, in key order,
/// between the copy and the promotion of `authorized_keys`; the steps that need
/// confirmation are exactly the sshd hardening steps at the end, present only
/// when root login or password authentication is being disabled.
pub proof fn law_user_plan_structure(c: BootstrapUserConfig)
    ensures
        ({
            let p = spec_user_plan(c);
            let n = c.keys@.len() as int;
            &&& p.len() == 10 + n + sshd_ops(c).len()
            &&& p[5].id == "prepare_authorized_keys_temp"@
            &&& p[6 + n].id == "promote_authorized_keys_temp"@
            &&& forall|i: int| 0 <= i < n ==> #[trigger] p[6 + i] == append_key_op(c.user@, c.keys@[i]@)
            &&& forall|i: int| 0 <= i < p.len() ==> ((#[trigger] p[i]).requires_confirmation <==> i >= 10 + n)
            &&& (sshd_ops(c).len() > 0 <==> (c.disable_root_login || c.disable_password_auth))
        }),
{
    let p = spec_user_plan(c);
    let keys = c.keys.deep_view();
    let n = c.keys@.len() as int;
    lemma_append_key_ops(c.user@, keys);
    let head = seq![
        ensure_group_op(c.group@),
        ensure_user_op(c.user@, c.group@),
        grant_sudo_op(c.user@),
        ensure_ssh_dir_op(c.user@, c.group@),
        shell_op("ensure_authorized_keys_file"@, "Ensure authorized_keys file exists"@, "sudo"@, seq!["touch"@, authorized_keys_path(c.user@)], seq![], false),
        shell_op(
            "prepare_authorized_keys_temp"@,
            "Create temporary authorized_keys copy for atomic update"@,
            "sudo"@,
            seq!["cp"@, authorized_keys_path(c.user@), authorized_keys_tmp_path(c.user@)],
            seq![],
            false,
        ),
    ];
    let appends = append_key_ops(c.user@, keys);
    let sshd = sshd_ops(c);
    assert(keys.len() == n);
    assert forall|i: int| 0 <= i < n implies #[trigger] p[6 + i] == append_key_op(c.user@, c.keys@[i]@) by {
        assert(p[6 + i] == appends[i]);
        assert(keys[i] == c.keys@[i]@);
    }
    assert forall|i: int| 0 <= i < p.len() implies ((#[trigger] p[i]).requires_confirmation <==> i >= 10 + n) by {
        if i < 6 {
            assert(p[i] == head[i]);
        } else if i < 6 + n {
            assert(p[i] == appends[i - 6]);
        } else if i < 10 + n {
        } else {
            let k = i - 10 - n;
            assert(p[i] == sshd[k]);
        }
    }
}

/// After the keys are in place, `authorized_keys` is handed to the configured user
/// and group: the step runs `sudo chown <user>:<group> /home/<user>/.ssh/authorized_keys`.
pub proof fn law_user_authorized_keys_owner(c: BootstrapUserConfig)
    ensures
        ({
            let p = spec_user_plan(c);
            let n = c.keys@.len() as int;
            &&& p[7 + n].id == "set_authorized_keys_permissions"@
            &&& p[7 + n].kind == (OperationKindView::Shell {
                command: "sudo"@,
                args: seq!["chown"@, c.user@ + ":"@ + c.group@, "/home/"@ + c.user@ + "/.ssh/authorized_keys"@],
                env: seq![],
                stdin_input: None,
            })
        }),
{
    let keys = c.keys.deep_view();
    lemma_append_key_ops(c.user@, keys);
    let n = c.keys@.len() as int;
    assert(keys.len() == n);
    let p = spec_user_plan(c);
    let u = c.user@;
    let ak = authorized_keys_path(u);
    assert(p[7 + n] == shell_op(
        "set_authorized_keys_permissions"@,
        "Set authorized_keys file ownership and mode"@,
        "sudo"@,
        seq!["chown"@, u + ":"@ + c.group@, ak],
        seq![],
        false,
    ));
}

/// The `.ssh` directory is created mode `700` owned by the user and group; the keys
/// file is copied aside, the copy moved back over it, then made mode `600`; the
/// password is set by feeding `<user>:<password>` to `chpasswd`.
pub proof fn law_user_ssh_and_password_steps(c: BootstrapUserConfig)
    ensures
        ({
            let p = spec_user_plan(c);
            let n = c.keys@.len() as int;
            let u = c.user@;
            let ak = "/home/"@ + u + "/.ssh/authorized_keys"@;
            let tmp = "/home/"@ + u + "/.ssh/.authorized_keys.tmp"@;
            &&& p[3].kind == (OperationKindView::Shell {
                command: "sudo"@,
                args: seq!["install"@, "-d"@, "-m"@, "700"@, "-o"@, u, "-g"@, c.group@, "/home/"@ + u + "/.ssh"@],
                env: seq![],
                stdin_input: None,
            })
            &&& p[5].kind == (OperationKindView::Shell {
                command: "sudo"@,
                args: seq!["cp"@, ak, tmp],
                env: seq![],
                stdin_input: None,
            })
            &&& p[6 + n].kind == (OperationKindView::Shell {
                command: "sudo"@,
                args: seq!["mv"@, tmp, ak],
                env: seq![],
                stdin_input: None,
            })
            &&& p[8 + n].kind == (OperationKindView::Shell {
                command: "sudo"@,
                args: seq!["chmod"@, "600"@, ak],
                env: seq![],
                stdin_input: None,
            })
            &&& p[9 + n].kind == (OperationKindView::Shell {
                command: "sudo"@,
                args: seq!["chpasswd"@],
                env: seq![],
                stdin_input: Some(u + ":"@ + c.password@ + "\n"@),
            })
        }),
{
    let keys = c.keys.deep_view();
    lemma_append_key_ops(c.user@, keys);
    let n = c.keys@.len() as int;
    assert(keys.len() == n);
    let p = spec_user_plan(c);
    let u = c.user@;
    let g = c.group@;
    let ak = authorized_keys_path(u);
    let tmp = authorized_keys_tmp_path(u);
    let head = seq![
        ensure_group_op(g),
        ensure_user_op(u, g),
        grant_sudo_op(u),
        ensure_ssh_dir_op(u, g),
        shell_op("ensure_authorized_keys_file"@, "Ensure authorized_keys file exists"@, "sudo"@, seq!["touch"@, ak], seq![], false),
        shell_op(
            "prepare_authorized_keys_temp"@,
            "Create temporary authorized_keys copy for atomic update"@,
            "sudo"@,
            seq!["cp"@, ak, tmp],
            seq![],
            false,
        ),
    ];
    assert(p[3] == head[3]);
    assert(p[5] == head[5]);
    assert(p[6 + n] == shell_op(
        "promote_authorized_keys_temp"@,
        "Atomically replace authorized_keys with temporary file"@,
        "sudo"@,
        seq!["mv"@, tmp, ak],
        seq![],
        false,
    ));
    assert(p[8 + n] == shell_op("chmod_authorized_keys"@, "Set authorized_keys mode"@, "sudo"@, seq!["chmod"@, "600"@, ak], seq![], false));
    assert(p[9 + n] == shell_op_full(
        "set_password"@,
        "Set user password via chpasswd"@,
        "sudo"@,
        seq!["chpasswd"@],
        Some(u + ":"@ + c.password@ + "\n"@),
        false,
    ));
}

} // verus!
