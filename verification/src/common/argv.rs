//! Building argument and environment vectors whose views are stated exactly.

use vstd::prelude::*;

verus! {

/// An owned copy of a string slice.
pub fn lit(s: &str) -> (r: String)
    ensures
        r@ == s@,
{
    String::from_str(s)
}

/// `prefix` followed by `value`, as one argument (`--flag=value`).
pub fn joined(prefix: &str, value: &str) -> (r: String)
    ensures
        r@ == prefix@ + value@,
{
    let mut r = String::from_str(prefix);
    r.append(value);
    r
}

/// An empty environment.
pub fn no_env() -> (r: Vec<(String, String)>)
    ensures
        r.deep_view() == Seq::<(Seq<char>, Seq<char>)>::empty(),
{
    let r: Vec<(String, String)> = Vec::new();
    assert(r.deep_view() =~= Seq::<(Seq<char>, Seq<char>)>::empty());
    r
}

/// Appends `KEY=value` to an environment.
pub fn push_env(env: &mut Vec<(String, String)>, key: String, value: String)
    ensures
        final(env).deep_view() == old(env).deep_view().push((key@, value@)),
{
    let ghost before = env.deep_view();
    let ghost pair = (key@, value@);
    env.push((key, value));
    assert(env.deep_view() =~= before.push(pair));
}

/// `KEY=value` when the value is present.
pub open spec fn opt_env(key: Seq<char>, value: Option<String>) -> Seq<(Seq<char>, Seq<char>)> {
    match value {
        Some(v) => seq![(key, v@)],
        None => seq![],
    }
}

/// `KEY=true` when the flag is set.
pub open spec fn flag_env(key: Seq<char>, flag: bool) -> Seq<(Seq<char>, Seq<char>)> {
    if flag {
        seq![(key, "true"@)]
    } else {
        seq![]
    }
}

/// Appends `KEY=value` when the value is present.
pub fn push_opt_env(env: &mut Vec<(String, String)>, key: &str, value: &Option<String>)
    ensures
        final(env).deep_view() == old(env).deep_view() + opt_env(key@, *value),
{
    match value {
        Some(v) => push_env(env, lit(key), v.clone()),
        None => {},
    }
    assert(final(env).deep_view() =~= old(env).deep_view() + opt_env(key@, *value));
}

/// Appends `KEY=true` when the flag is set.
pub fn push_flag_env(env: &mut Vec<(String, String)>, key: &str, flag: bool)
    ensures
        final(env).deep_view() == old(env).deep_view() + flag_env(key@, flag),
{
    if flag {
        push_env(env, lit(key), lit("true"));
    }
    assert(final(env).deep_view() =~= old(env).deep_view() + flag_env(key@, flag));
}

/// An empty argument list.
pub fn no_args() -> (r: Vec<String>)
    ensures
        r.deep_view() == Seq::<Seq<char>>::empty(),
{
    let r: Vec<String> = Vec::new();
    assert(r.deep_view() =~= Seq::<Seq<char>>::empty());
    r
}

/// Appends one argument.
pub fn push_arg(args: &mut Vec<String>, arg: String)
    ensures
        final(args).deep_view() == old(args).deep_view().push(arg@),
{
    let ghost before = args.deep_view();
    let ghost a = arg@;
    args.push(arg);
    assert(args.deep_view() =~= before.push(a));
}

/// Appends copies of all of `more`.
pub fn extend_args(args: &mut Vec<String>, more: &Vec<String>)
    ensures
        final(args).deep_view() == old(args).deep_view() + more.deep_view(),
{
    let ghost before = args.deep_view();
    let mut i: usize = 0;
    while i < more.len()
        invariant
            i <= more@.len(),
            args.deep_view() =~= before + more.deep_view().take(i as int),
        decreases more.len() - i,
    {
        let item = more[i].clone();
        push_arg(args, item);
        assert(more.deep_view().take(i + 1) =~= more.deep_view().take(i as int).push(more@[i as int]@));
        i = i + 1;
    }
    assert(more.deep_view().take(more@.len() as int) =~= more.deep_view());
}

/// An argument list of 1 item.
pub fn args1(a: String) -> (r: Vec<String>)
    ensures
        r.deep_view() == seq![a@],
{
    let mut r = no_args();
    push_arg(&mut r, a);
    assert(r.deep_view() =~= seq![a@]);
    r
}

/// An argument list of 2 items.
pub fn args2(a: String, b: String) -> (r: Vec<String>)
    ensures
        r.deep_view() == seq![a@, b@],
{
    let mut r = no_args();
    push_arg(&mut r, a);
    push_arg(&mut r, b);
    assert(r.deep_view() =~= seq![a@, b@]);
    r
}

/// An argument list of 3 items.
pub fn args3(a: String, b: String, c: String) -> (r: Vec<String>)
    ensures
        r.deep_view() == seq![a@, b@, c@],
{
    let mut r = no_args();
    push_arg(&mut r, a);
    push_arg(&mut r, b);
    push_arg(&mut r, c);
    assert(r.deep_view() =~= seq![a@, b@, c@]);
    r
}

/// An argument list of 4 items.
pub fn args4(a: String, b: String, c: String, d: String) -> (r: Vec<String>)
    ensures
        r.deep_view() == seq![a@, b@, c@, d@],
{
    let mut r = no_args();
    push_arg(&mut r, a);
    push_arg(&mut r, b);
    push_arg(&mut r, c);
    push_arg(&mut r, d);
    assert(r.deep_view() =~= seq![a@, b@, c@, d@]);
    r
}

/// An argument list of 5 items.
pub fn args5(a: String, b: String, c: String, d: String, e: String) -> (r: Vec<String>)
    ensures
        r.deep_view() == seq![a@, b@, c@, d@, e@],
{
    let mut r = no_args();
    push_arg(&mut r, a);
    push_arg(&mut r, b);
    push_arg(&mut r, c);
    push_arg(&mut r, d);
    push_arg(&mut r, e);
    assert(r.deep_view() =~= seq![a@, b@, c@, d@, e@]);
    r
}

/// An argument list of 8 items.
pub fn args8(a: String, b: String, c: String, d: String, e: String, f: String, g: String, h: String) -> (r: Vec<String>)
    ensures
        r.deep_view() == seq![a@, b@, c@, d@, e@, f@, g@, h@],
{
    let mut r = no_args();
    push_arg(&mut r, a);
    push_arg(&mut r, b);
    push_arg(&mut r, c);
    push_arg(&mut r, d);
    push_arg(&mut r, e);
    push_arg(&mut r, f);
    push_arg(&mut r, g);
    push_arg(&mut r, h);
    assert(r.deep_view() =~= seq![a@, b@, c@, d@, e@, f@, g@, h@]);
    r
}

/// An argument list of 9 items.
pub fn args9(a: String, b: String, c: String, d: String, e: String, f: String, g: String, h: String, i: String) -> (r: Vec<String>)
    ensures
        r.deep_view() == seq![a@, b@, c@, d@, e@, f@, g@, h@, i@],
{
    let mut r = no_args();
    push_arg(&mut r, a);
    push_arg(&mut r, b);
    push_arg(&mut r, c);
    push_arg(&mut r, d);
    push_arg(&mut r, e);
    push_arg(&mut r, f);
    push_arg(&mut r, g);
    push_arg(&mut r, h);
    push_arg(&mut r, i);
    assert(r.deep_view() =~= seq![a@, b@, c@, d@, e@, f@, g@, h@, i@]);
    r
}

/// The environment sets `key`.
pub open spec fn env_has(env: Seq<(Seq<char>, Seq<char>)>, key: Seq<char>) -> bool {
    exists|i: int| 0 <= i < env.len() && (#[trigger] env[i]).0 == key
}

/// The environment sets `key` to `value`.
pub open spec fn env_pair(env: Seq<(Seq<char>, Seq<char>)>, key: Seq<char>, value: Seq<char>) -> bool {
    exists|i: int| 0 <= i < env.len() && #[trigger] env[i] == (key, value)
}

/// A pair is set by a concatenation exactly when one of the parts sets it.
pub proof fn lemma_env_pair_concat(
    a: Seq<(Seq<char>, Seq<char>)>,
    b: Seq<(Seq<char>, Seq<char>)>,
    key: Seq<char>,
    value: Seq<char>,
)
    ensures
        env_pair(a + b, key, value) <==> env_pair(a, key, value) || env_pair(b, key, value),
{
    let ab = a + b;
    if env_pair(ab, key, value) {
        let i = choose|i: int| 0 <= i < ab.len() && #[trigger] ab[i] == (key, value);
        if i < a.len() {
            assert(a[i] == ab[i]);
        } else {
            assert(b[i - a.len()] == ab[i]);
        }
    }
    if env_pair(a, key, value) {
        let i = choose|i: int| 0 <= i < a.len() && #[trigger] a[i] == (key, value);
        assert(ab[i] == a[i]);
    }
    if env_pair(b, key, value) {
        let i = choose|i: int| 0 <= i < b.len() && #[trigger] b[i] == (key, value);
        assert(ab[i + a.len()] == b[i]);
    }
}

/// A one-entry environment sets exactly its entry.
pub proof fn lemma_env_pair_single(k: Seq<char>, v: Seq<char>, key: Seq<char>, value: Seq<char>)
    ensures
        env_pair(seq![(k, v)], key, value) <==> (key == k && value == v),
{
    if key == k && value == v {
        assert(seq![(k, v)][0] == (key, value));
    }
}

/// An optional entry sets `key` to `value` exactly when it is present with that key
/// and value.
pub proof fn lemma_env_pair_opt(k: Seq<char>, v: Option<String>, key: Seq<char>, value: Seq<char>)
    ensures
        env_pair(opt_env(k, v), key, value) <==> (v matches Some(s) && key == k && value == s@),
{
    if v is Some {
        lemma_env_pair_single(k, v->0@, key, value);
    }
}

/// A flag entry sets `key` to `value` exactly when the flag is on, with that key
/// and the value `true`.
pub proof fn lemma_env_pair_flag(k: Seq<char>, f: bool, key: Seq<char>, value: Seq<char>)
    ensures
        env_pair(flag_env(k, f), key, value) <==> (f && key == k && value == "true"@),
{
    if f {
        lemma_env_pair_single(k, "true"@, key, value);
    }
}

/// `flag` appears in `args` immediately followed by `value`, at position `j`.
pub open spec fn option_at(args: Seq<Seq<char>>, flag: Seq<char>, value: Seq<char>, j: int) -> bool {
    0 <= j && j + 1 < args.len() && args[j] == flag && args[j + 1] == value
}

/// `flag` appears in `args` immediately followed by `value`.
pub open spec fn passes_option(args: Seq<Seq<char>>, flag: Seq<char>, value: Seq<char>) -> bool {
    exists|j: int| #[trigger] option_at(args, flag, value, j)
}

} // verus!
