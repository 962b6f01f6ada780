//! Character-level helpers on strings, each stated over the `Seq<char>` view.

use vstd::prelude::*;

verus! {

/// `p` is a prefix of `s`.
pub open spec fn has_prefix(s: Seq<char>, p: Seq<char>) -> bool {
    p.len() <= s.len() && s.subrange(0, p.len() as int) == p
}

/// True when `s` begins with `prefix` (character-wise).
pub fn starts_with(s: &str, prefix: &str) -> (r: bool)
    ensures
        r == has_prefix(s@, prefix@),
{
    let n = s.unicode_len();
    let m = prefix.unicode_len();
    if m > n {
        return false;
    }
    let mut i: usize = 0;
    while i < m
        invariant
            i <= m,
            m <= n,
            n == s@.len(),
            m == prefix@.len(),
            forall|j: int| 0 <= j < i ==> s@[j] == prefix@[j],
        decreases m - i,
    {
        if s.get_char(i) != prefix.get_char(i) {
            assert(s@.subrange(0, m as int)[i as int] != prefix@[i as int]);
            return false;
        }
        i = i + 1;
    }
    assert(s@.subrange(0, m as int) =~= prefix@);
    true
}

/// Character-wise equality of two strings.
pub fn str_eq(a: &str, b: &str) -> (r: bool)
    ensures
        r == (a@ == b@),
{
    let n = a.unicode_len();
    let m = b.unicode_len();
    if n != m {
        return false;
    }
    let mut i: usize = 0;
    while i < n
        invariant
            i <= n,
            n == a@.len(),
            m == b@.len(),
            n == m,
            forall|j: int| 0 <= j < i ==> a@[j] == b@[j],
        decreases n - i,
    {
        if a.get_char(i) != b.get_char(i) {
            return false;
        }
        i = i + 1;
    }
    assert(a@ =~= b@);
    true
}

/// The Unicode `White_Space` property, which `char::is_whitespace` tests.
pub open spec fn is_ws(c: char) -> bool {
    let u = c as u32;
    (0x09 <= u && u <= 0x0D) || u == 0x20 || u == 0x85 || u == 0xA0 || u == 0x1680 || (0x2000 <= u && u <= 0x200A)
        || u == 0x2028 || u == 0x2029 || u == 0x202F || u == 0x205F || u == 0x3000
}

/// `char::is_whitespace`.
pub fn char_is_whitespace(c: char) -> (r: bool)
    ensures
        r == is_ws(c),
{
    let u = c as u32;
    (0x09 <= u && u <= 0x0D) || u == 0x20 || u == 0x85 || u == 0xA0 || u == 0x1680 || (0x2000 <= u && u <= 0x200A)
        || u == 0x2028 || u == 0x2029 || u == 0x202F || u == 0x205F || u == 0x3000
}

/// Some character of `s` is not whitespace.
pub open spec fn has_non_ws(s: Seq<char>) -> bool {
    exists|i: int| 0 <= i < s.len() && !is_ws(#[trigger] s[i])
}

/// True when some character of `s` is not whitespace.
pub fn contains_non_ws(s: &str) -> (r: bool)
    ensures
        r == has_non_ws(s@),
{
    let n = s.unicode_len();
    let mut i: usize = 0;
    while i < n
        invariant
            i <= n,
            n == s@.len(),
            forall|j: int| 0 <= j < i ==> is_ws(#[trigger] s@[j]),
        decreases n - i,
    {
        if !char_is_whitespace(s.get_char(i)) {
            return true;
        }
        i = i + 1;
    }
    false
}

/// `needle` occurs in `hay` starting at position `i`.
pub open spec fn text_at(hay: Seq<char>, needle: Seq<char>, i: int) -> bool {
    0 <= i && i + needle.len() <= hay.len() && hay.subrange(i, i + needle.len()) == needle
}

/// `needle` occurs in `hay` as a run of consecutive characters.
pub open spec fn contains_text(hay: Seq<char>, needle: Seq<char>) -> bool {
    exists|i: int| #[trigger] text_at(hay, needle, i)
}

/// True when `needle` occurs in `hay`.
pub fn contains_str(hay: &str, needle: &str) -> (r: bool)
    ensures
        r == contains_text(hay@, needle@),
{
    let n = hay.unicode_len();
    let m = needle.unicode_len();
    if m > n {
        assert forall|i: int| !#[trigger] text_at(hay@, needle@, i) by {}
        return false;
    }
    if m == 0 {
        assert(hay@.subrange(0, 0) =~= needle@);
        assert(text_at(hay@, needle@, 0));
        return true;
    }
    let mut i: usize = 0;
    while i <= n - m
        invariant
            0 < m <= n,
            n == hay@.len(),
            m == needle@.len(),
            i <= n - m + 1,
            forall|k: int| 0 <= k < i ==> !#[trigger] text_at(hay@, needle@, k),
        decreases n - m + 1 - i,
    {
        let mut j: usize = 0;
        let mut same = true;
        while j < m
            invariant
                j <= m,
                i + m <= n,
                n == hay@.len(),
                m == needle@.len(),
                same ==> forall|t: int| 0 <= t < j ==> hay@[i + t] == needle@[t],
                !same ==> hay@.subrange(i as int, i + m) != needle@,
            decreases m - j,
        {
            if same && hay.get_char(i + j) != needle.get_char(j) {
                assert(hay@.subrange(i as int, i + m)[j as int] != needle@[j as int]);
                same = false;
            }
            j = j + 1;
        }
        if same {
            assert(hay@.subrange(i as int, i + m) =~= needle@);
            assert(text_at(hay@, needle@, i as int));
            return true;
        }
        i = i + 1;
    }
    assert forall|k: int| !#[trigger] text_at(hay@, needle@, k) by {
        if 0 <= k && k + m <= n {
            assert(k < i);
        }
    }
    false
}

/// `s` without leading whitespace.
pub open spec fn trim_start_ws(s: Seq<char>) -> Seq<char>
    decreases s.len(),
{
    if s.len() > 0 && is_ws(s[0]) {
        trim_start_ws(s.drop_first())
    } else {
        s
    }
}

/// `s` without trailing whitespace.
pub open spec fn trim_end_ws(s: Seq<char>) -> Seq<char>
    decreases s.len(),
{
    if s.len() > 0 && is_ws(s.last()) {
        trim_end_ws(s.drop_last())
    } else {
        s
    }
}

/// `s` without leading and trailing whitespace, as `str::trim` returns it.
pub open spec fn trim_ws(s: Seq<char>) -> Seq<char> {
    trim_end_ws(trim_start_ws(s))
}

pub proof fn lemma_trim_start_skip(s: Seq<char>, a: int)
    requires
        0 <= a <= s.len(),
        forall|i: int| 0 <= i < a ==> is_ws(#[trigger] s[i]),
        a == s.len() || !is_ws(s[a]),
    ensures
        trim_start_ws(s) == s.skip(a),
    decreases a,
{
    if a == 0 {
        assert(s.skip(0) =~= s);
    } else {
        let t = s.drop_first();
        assert forall|i: int| 0 <= i < a - 1 implies is_ws(#[trigger] t[i]) by {
            assert(t[i] == s[i + 1]);
        }
        if a < s.len() {
            assert(t[a - 1] == s[a]);
        }
        lemma_trim_start_skip(t, a - 1);
        assert(t.skip(a - 1) =~= s.skip(a));
    }
}

proof fn lemma_trim_end_take(s: Seq<char>, b: int)
    requires
        0 <= b <= s.len(),
        forall|i: int| b <= i < s.len() ==> is_ws(#[trigger] s[i]),
        b == 0 || !is_ws(s[b - 1]),
    ensures
        trim_end_ws(s) == s.take(b),
    decreases s.len() - b,
{
    if b == s.len() {
        assert(s.take(b) =~= s);
    } else {
        let t = s.drop_last();
        assert forall|i: int| b <= i < t.len() implies is_ws(#[trigger] t[i]) by {
            assert(t[i] == s[i]);
        }
        if b > 0 {
            assert(t[b - 1] == s[b - 1]);
        }
        lemma_trim_end_take(t, b);
        assert(t.take(b) =~= s.take(b));
    }
}

pub proof fn lemma_trim_start_shape(s: Seq<char>)
    ensures
        trim_start_ws(s).len() <= s.len(),
        trim_start_ws(s).len() == 0 || !is_ws(trim_start_ws(s)[0]),
        trim_start_ws(s) == s.skip(s.len() - trim_start_ws(s).len()),
    decreases s.len(),
{
    if s.len() > 0 && is_ws(s[0]) {
        lemma_trim_start_shape(s.drop_first());
        let t = trim_start_ws(s.drop_first());
        assert(s.drop_first().skip(s.drop_first().len() - t.len()) =~= s.skip(s.len() - t.len()));
    } else {
        assert(s.skip(0) =~= s);
    }
}

proof fn lemma_trim_end_shape(s: Seq<char>)
    ensures
        trim_end_ws(s).len() <= s.len(),
        trim_end_ws(s).len() == 0 || !is_ws(trim_end_ws(s).last()),
        trim_end_ws(s) == s.take(trim_end_ws(s).len() as int),
    decreases s.len(),
{
    if s.len() > 0 && is_ws(s.last()) {
        lemma_trim_end_shape(s.drop_last());
        let t = trim_end_ws(s.drop_last());
        assert(s.drop_last().take(t.len() as int) =~= s.take(t.len() as int));
    } else {
        assert(s.take(s.len() as int) =~= s);
    }
}

/// Trimmed text is empty or starts and ends with a non-whitespace character.
pub proof fn lemma_trim_shape(s: Seq<char>)
    ensures
        trim_ws(s).len() == 0 || (!is_ws(trim_ws(s)[0]) && !is_ws(trim_ws(s).last())),
{
    lemma_trim_start_shape(s);
    let t = trim_start_ws(s);
    lemma_trim_end_shape(t);
    let u = trim_end_ws(t);
    if u.len() > 0 {
        assert(u[0] == t[0]);
    }
}

/// Trimming twice is trimming once.
pub proof fn lemma_trim_idempotent(s: Seq<char>)
    ensures
        trim_ws(trim_ws(s)) == trim_ws(s),
{
    lemma_trim_shape(s);
    let u = trim_ws(s);
    if u.len() > 0 {
        assert(trim_start_ws(u) == u);
        assert(trim_end_ws(u) == u);
    } else {
        assert(trim_start_ws(u) == u);
        assert(trim_end_ws(u) == u);
    }
}

/// `str::trim`: `s` without leading and trailing whitespace.
pub fn trim(s: &str) -> (r: &str)
    ensures
        r@ == trim_ws(s@),
{
    let n = s.unicode_len();
    let mut a: usize = 0;
    while a < n && char_is_whitespace(s.get_char(a))
        invariant
            a <= n,
            n == s@.len(),
            forall|i: int| 0 <= i < a ==> is_ws(#[trigger] s@[i]),
        decreases n - a,
    {
        a = a + 1;
    }
    let mut b: usize = n;
    while b > a && char_is_whitespace(s.get_char(b - 1))
        invariant
            a <= b <= n,
            n == s@.len(),
            a == n || !is_ws(s@[a as int]),
            forall|i: int| b <= i < n ==> is_ws(#[trigger] s@[i]),
        decreases b - a,
    {
        b = b - 1;
    }
    proof {
        lemma_trim_start_skip(s@, a as int);
        let t = s@.skip(a as int);
        assert forall|i: int| b - a <= i < t.len() implies is_ws(#[trigger] t[i]) by {
            assert(t[i] == s@[i + a]);
        }
        if b > a {
            assert(t[b - a - 1] == s@[b - 1]);
        }
        lemma_trim_end_take(t, b - a);
        assert(t.take(b - a) =~= s@.subrange(a as int, b as int));
    }
    s.substring_char(a, b)
}

/// The trimmed text of `o` when it is present and not blank.
pub open spec fn spec_trimmed_nonempty(o: Option<Seq<char>>) -> Option<Seq<char>> {
    match o {
        Some(s) => if trim_ws(s).len() > 0 {
            Some(trim_ws(s))
        } else {
            None
        },
        None => None,
    }
}

/// `o.map(|s| s.trim().to_string()).filter(|s| !s.is_empty())`.
pub fn trimmed_nonempty(o: Option<String>) -> (r: Option<String>)
    ensures
        r.deep_view() == spec_trimmed_nonempty(o.deep_view()),
        r matches Some(t) ==> trim_ws(t@) == t@ && t@.len() > 0,
{
    proof {
        if o is Some {
            lemma_trim_idempotent(o->0@);
        }
    }
    match o {
        Some(s) => {
            let t = trim(s.as_str());
            if t.unicode_len() > 0 {
                Some(String::from_str(t))
            } else {
                None
            }
        },
        None => None,
    }
}

/// The first of `flag` and `env` that is present, trimmed, when it is not blank.
pub open spec fn spec_flag_or_env_trimmed(flag: Option<Seq<char>>, env: Option<Seq<char>>) -> Option<Seq<char>> {
    spec_trimmed_nonempty(
        match flag {
            Some(f) => Some(f),
            None => env,
        },
    )
}

/// `flag.or(env).map(trim).filter(non-empty)`.
pub fn flag_or_env_trimmed(flag: Option<String>, env: Option<String>) -> (r: Option<String>)
    ensures
        r.deep_view() == spec_flag_or_env_trimmed(flag.deep_view(), env.deep_view()),
        r matches Some(t) ==> trim_ws(t@) == t@ && t@.len() > 0,
{
    match flag {
        Some(f) => trimmed_nonempty(Some(f)),
        None => trimmed_nonempty(env),
    }
}

/// `char::to_ascii_lowercase`.
pub open spec fn ascii_lower(c: char) -> char {
    if 'A' <= c && c <= 'Z' {
        ((c as u32) + 32) as char
    } else {
        c
    }
}

/// `str::to_ascii_lowercase` as a character map.
pub open spec fn ascii_lowercase(s: Seq<char>) -> Seq<char> {
    s.map_values(|c: char| ascii_lower(c))
}

/// Whether `s`, lowercased in ASCII, equals `word`.
pub fn eq_ascii_lowercase(s: &str, word: &str) -> (r: bool)
    ensures
        r == (ascii_lowercase(s@) == word@),
{
    let n = s.unicode_len();
    let m = word.unicode_len();
    if n != m {
        return false;
    }
    let mut i: usize = 0;
    while i < n
        invariant
            i <= n,
            n == s@.len(),
            m == word@.len(),
            n == m,
            forall|j: int| 0 <= j < i ==> ascii_lower(#[trigger] s@[j]) == word@[j],
        decreases n - i,
    {
        let c = s.get_char(i);
        let w = word.get_char(i);
        let same = if 'A' <= c && c <= 'Z' { (w as u32) == (c as u32) + 32 } else { w == c };
        if !same {
            assert(ascii_lowercase(s@)[i as int] != word@[i as int]);
            return false;
        }
        i = i + 1;
    }
    assert(ascii_lowercase(s@) =~= word@);
    true
}

/// Length of the leading run of non-whitespace characters.
pub open spec fn token_len(s: Seq<char>) -> nat
    decreases s.len(),
{
    if s.len() == 0 || is_ws(s[0]) {
        0
    } else {
        1 + token_len(s.drop_first())
    }
}

pub proof fn lemma_token_len_bound(s: Seq<char>)
    ensures
        token_len(s) <= s.len(),
    decreases s.len(),
{
    if s.len() > 0 && !is_ws(s[0]) {
        lemma_token_len_bound(s.drop_first());
    }
}

/// The whitespace-separated words of `s`, as `str::split_whitespace` yields them.
pub open spec fn ws_tokens(s: Seq<char>) -> Seq<Seq<char>>
    decreases s.len(),
{
    let t = trim_start_ws(s);
    if t.len() == 0 {
        Seq::empty()
    } else {
        proof {
            lemma_trim_start_shape(s);
            lemma_token_len_bound(t);
            assert(token_len(t) >= 1);
        }
        let k = token_len(t);
        seq![t.take(k as int)] + ws_tokens(t.skip(k as int))
    }
}

proof fn lemma_token_len(s: Seq<char>, j: int)
    requires
        0 <= j <= s.len(),
        forall|x: int| 0 <= x < j ==> !is_ws(#[trigger] s[x]),
        j == s.len() || is_ws(s[j]),
    ensures
        token_len(s) == j,
    decreases j,
{
    if j > 0 {
        let t = s.drop_first();
        assert forall|x: int| 0 <= x < j - 1 implies !is_ws(#[trigger] t[x]) by {
            assert(t[x] == s[x + 1]);
        }
        if j < s.len() {
            assert(t[j - 1] == s[j]);
        }
        lemma_token_len(t, j - 1);
    }
}

/// Splitting off the first word, which spans `[i, j)`.
proof fn lemma_first_token(s: Seq<char>, i: int, j: int)
    requires
        0 <= i < j <= s.len(),
        forall|x: int| 0 <= x < i ==> is_ws(#[trigger] s[x]),
        forall|x: int| i <= x < j ==> !is_ws(#[trigger] s[x]),
        j == s.len() || is_ws(s[j]),
    ensures
        ws_tokens(s) == seq![s.subrange(i, j)] + ws_tokens(s.skip(j)),
{
    lemma_trim_start_skip(s, i);
    let t = s.skip(i);
    assert forall|x: int| 0 <= x < j - i implies !is_ws(#[trigger] t[x]) by {
        assert(t[x] == s[x + i]);
    }
    if j < s.len() {
        assert(t[j - i] == s[j]);
    }
    lemma_token_len(t, j - i);
    assert(t.take(j - i) =~= s.subrange(i, j));
    assert(t.skip(j - i) =~= s.skip(j));
}

/// A string of whitespace has no words.
proof fn lemma_no_tokens(s: Seq<char>)
    requires
        forall|x: int| 0 <= x < s.len() ==> is_ws(#[trigger] s[x]),
    ensures
        ws_tokens(s) == Seq::<Seq<char>>::empty(),
{
    lemma_trim_start_skip(s, s.len() as int);
}

/// The `n`-th word, or the empty text when there are fewer words.
pub open spec fn nth_token_or_empty(s: Seq<char>, n: int) -> Seq<char> {
    if n < ws_tokens(s).len() {
        ws_tokens(s)[n]
    } else {
        Seq::empty()
    }
}

fn skip_ws_from(s: &str, start: usize, n: usize) -> (r: usize)
    requires
        start <= n,
        n == s@.len(),
    ensures
        start <= r <= n,
        forall|x: int| start <= x < r ==> is_ws(#[trigger] s@[x]),
        r == n || !is_ws(s@[r as int]),
{
    let mut i = start;
    while i < n && char_is_whitespace(s.get_char(i))
        invariant
            start <= i <= n,
            n == s@.len(),
            forall|x: int| start <= x < i ==> is_ws(#[trigger] s@[x]),
        decreases n - i,
    {
        i = i + 1;
    }
    i
}

fn skip_word_from(s: &str, start: usize, n: usize) -> (r: usize)
    requires
        start <= n,
        n == s@.len(),
    ensures
        start <= r <= n,
        forall|x: int| start <= x < r ==> !is_ws(#[trigger] s@[x]),
        r == n || is_ws(s@[r as int]),
{
    let mut i = start;
    while i < n && !char_is_whitespace(s.get_char(i))
        invariant
            start <= i <= n,
            n == s@.len(),
            forall|x: int| start <= x < i ==> !is_ws(#[trigger] s@[x]),
        decreases n - i,
    {
        i = i + 1;
    }
    i
}

/// The first two whitespace-separated words of `s` (empty when missing).
pub fn first_two_words(s: &str) -> (r: (String, String))
    ensures
        r.0@ == nth_token_or_empty(s@, 0),
        r.1@ == nth_token_or_empty(s@, 1),
{
    let n = s.unicode_len();
    let a = skip_ws_from(s, 0, n);
    if a == n {
        proof {
            lemma_no_tokens(s@);
        }
        return (String::new(), String::new());
    }
    let b = skip_word_from(s, a, n);
    proof {
        lemma_first_token(s@, a as int, b as int);
    }
    let first = String::from_str(s.substring_char(a, b));
    let c = skip_ws_from(s, b, n);
    let ghost rest = s@.skip(b as int);
    if c == n {
        proof {
            assert forall|x: int| 0 <= x < rest.len() implies is_ws(#[trigger] rest[x]) by {
                assert(rest[x] == s@[x + b]);
            }
            lemma_no_tokens(rest);
        }
        return (first, String::new());
    }
    let d = skip_word_from(s, c, n);
    proof {
        assert forall|x: int| 0 <= x < c - b implies is_ws(#[trigger] rest[x]) by {
            assert(rest[x] == s@[x + b]);
        }
        assert forall|x: int| c - b <= x < d - b implies !is_ws(#[trigger] rest[x]) by {
            assert(rest[x] == s@[x + b]);
        }
        if d < n {
            assert(rest[d - b] == s@[d as int]);
        }
        lemma_first_token(rest, c - b, d - b);
        assert(rest.subrange(c - b, d - b) =~= s@.subrange(c as int, d as int));
    }
    let second = String::from_str(s.substring_char(c, d));
    (first, second)
}

/// The text of `s` before the first `c` (all of `s` when `c` does not occur).
pub open spec fn prefix_before(s: Seq<char>, c: char) -> Seq<char>
    decreases s.len(),
{
    if s.len() == 0 {
        s
    } else if s[0] == c {
        Seq::empty()
    } else {
        seq![s[0]] + prefix_before(s.drop_first(), c)
    }
}

/// The text before the first `c` is a prefix of `s`; it is all of `s` exactly when `c` does not occur.
pub proof fn lemma_prefix_before(s: Seq<char>, c: char)
    ensures
        prefix_before(s, c).len() <= s.len(),
        prefix_before(s, c) == s.take(prefix_before(s, c).len() as int),
        forall|i: int| 0 <= i < prefix_before(s, c).len() ==> s[i] != c,
        prefix_before(s, c).len() < s.len() ==> s[prefix_before(s, c).len() as int] == c,
    decreases s.len(),
{
    if s.len() > 0 && s[0] != c {
        let t = s.drop_first();
        lemma_prefix_before(t, c);
        let p = prefix_before(t, c);
        assert(prefix_before(s, c) =~= s.take(p.len() as int + 1));
        assert forall|i: int| 0 <= i < prefix_before(s, c).len() implies s[i] != c by {
            if i > 0 {
                assert(s[i] == t[i - 1]);
            }
        }
        if p.len() < t.len() {
            assert(s[p.len() as int + 1] == t[p.len() as int]);
        }
    } else if s.len() > 0 {
        assert(s.take(0) =~= Seq::<char>::empty());
    } else {
        assert(s.take(0) =~= s);
    }
}

/// Index of the first `c` at or after `start`, or `n` when there is none.
pub fn find_char_from(s: &str, c: char, start: usize, n: usize) -> (r: usize)
    requires
        start <= n,
        n == s@.len(),
    ensures
        start <= r <= n,
        forall|i: int| start <= i < r ==> s@[i] != c,
        r < n ==> s@[r as int] == c,
{
    let mut i = start;
    while i < n && s.get_char(i) != c
        invariant
            start <= i <= n,
            n == s@.len(),
            forall|j: int| start <= j < i ==> s@[j] != c,
        decreases n - i,
    {
        i = i + 1;
    }
    i
}

/// The characters before the first `c` are exactly the run found by a scan.
pub proof fn lemma_prefix_before_at(s: Seq<char>, c: char, k: int)
    requires
        0 <= k <= s.len(),
        forall|i: int| 0 <= i < k ==> s[i] != c,
        k == s.len() || s[k] == c,
    ensures
        prefix_before(s, c) == s.take(k),
{
    lemma_prefix_before(s, c);
    let p = prefix_before(s, c);
    if p.len() < k {
        assert(s[p.len() as int] == c);
    } else if p.len() > k {
        assert(p[k] == s[k]);
    }
    assert(p.len() == k);
}

/// A line without its `\r` terminator, if any.
pub open spec fn strip_cr(l: Seq<char>) -> Seq<char> {
    if l.len() > 0 && l.last() == '\r' {
        l.drop_last()
    } else {
        l
    }
}

/// The lines of `s` as `str::lines` yields them: split after each `\n`, the `\n`
/// (and a `\r` right before it) removed; an unterminated last line is kept as is,
/// and no empty line follows a final `\n`.
pub open spec fn lines_of(s: Seq<char>) -> Seq<Seq<char>>
    decreases s.len(),
{
    if s.len() == 0 {
        Seq::empty()
    } else {
        let p = prefix_before(s, '\n');
        proof {
            lemma_prefix_before(s, '\n');
        }
        if p.len() == s.len() {
            seq![s]
        } else {
            seq![strip_cr(p)] + lines_of(s.skip(p.len() as int + 1))
        }
    }
}

/// Removes a trailing `\r`.
pub fn strip_trailing_cr(l: &str) -> (r: &str)
    ensures
        r@ == strip_cr(l@),
{
    let n = l.unicode_len();
    if n > 0 && l.get_char(n - 1) == '\r' {
        let r = l.substring_char(0, n - 1);
        assert(r@ =~= l@.drop_last());
        r
    } else {
        l
    }
}

/// End of the line that starts at `start`: it spans `[start, r)`; when `r < n`
/// a `\n` ends it and the following line starts at `r + 1`.
pub fn next_line(s: &str, start: usize, n: usize) -> (r: usize)
    requires
        start < n,
        n == s@.len(),
    ensures
        start <= r <= n,
        ({
            let x = s@.skip(start as int);
            let line = s@.subrange(start as int, r as int);
            if r == n {
                lines_of(x) == seq![x] && line == x
            } else {
                lines_of(x) == seq![strip_cr(line)] + lines_of(s@.skip(r + 1))
            }
        }),
{
    let e = find_char_from(s, '\n', start, n);
    proof {
        let x = s@.skip(start as int);
        assert forall|i: int| 0 <= i < e - start implies x[i] != '\n' by {
            assert(x[i] == s@[i + start]);
        }
        if e < n {
            assert(x[e - start] == s@[e as int]);
        }
        lemma_prefix_before_at(x, '\n', e - start);
        assert(x.take(e - start) =~= s@.subrange(start as int, e as int));
        if e < n {
            assert(x.skip(e - start + 1) =~= s@.skip(e + 1));
        } else {
            assert(x.take(e - start) =~= x);
        }
    }
    e
}

/// The pieces of `s` between occurrences of `sep`, each trimmed, empty ones dropped
/// (`s.split(sep).map(str::trim).filter(|p| !p.is_empty())`).
pub open spec fn trimmed_pieces(s: Seq<char>, sep: char) -> Seq<Seq<char>>
    decreases s.len(),
{
    let p = prefix_before(s, sep);
    proof {
        lemma_prefix_before(s, sep);
    }
    let t = trim_ws(p);
    let head = if t.len() > 0 {
        seq![t]
    } else {
        Seq::<Seq<char>>::empty()
    };
    if p.len() == s.len() {
        head
    } else {
        head + trimmed_pieces(s.skip(p.len() as int + 1), sep)
    }
}

/// Splits `s` at each `sep`, trims the pieces and keeps the non-empty ones, in order.
pub fn split_trimmed_nonempty(s: &str, sep: char) -> (r: Vec<String>)
    ensures
        r.deep_view() == trimmed_pieces(s@, sep),
{
    let n = s.unicode_len();
    let mut out: Vec<String> = Vec::new();
    let mut start: usize = 0;
    assert(s@.skip(0) =~= s@);
    assert(out.deep_view() + trimmed_pieces(s@, sep) =~= trimmed_pieces(s@, sep));
    while start < n
        invariant
            start <= n,
            n == s@.len(),
            trimmed_pieces(s@, sep) == out.deep_view() + trimmed_pieces(s@.skip(start as int), sep),
        decreases n - start,
    {
        let e = find_char_from(s, sep, start, n);
        let piece = s.substring_char(start, e);
        let t = trim(piece);
        let ghost before = out.deep_view();
        let ghost x = s@.skip(start as int);
        proof {
            assert forall|i: int| 0 <= i < e - start implies x[i] != sep by {
                assert(x[i] == s@[i + start]);
            }
            if e < n {
                assert(x[e - start] == s@[e as int]);
            }
            lemma_prefix_before_at(x, sep, e - start);
            assert(x.take(e - start) =~= s@.subrange(start as int, e as int));
            if e < n {
                assert(x.skip(e - start + 1) =~= s@.skip(e + 1));
            }
        }
        if t.unicode_len() > 0 {
            out.push(String::from_str(t));
            assert(out.deep_view() =~= before + seq![t@]);
        }
        if e == n {
            assert(trimmed_pieces(s@.skip(n as int), sep) =~= Seq::<Seq<char>>::empty()) by {
                assert(s@.skip(n as int).len() == 0);
                assert(prefix_before(s@.skip(n as int), sep).len() == 0);
            }
            assert(out.deep_view() =~= out.deep_view() + trimmed_pieces(s@.skip(n as int), sep));
            return out;
        }
        assert(trimmed_pieces(s@, sep) =~= out.deep_view() + trimmed_pieces(s@.skip(e + 1), sep));
        start = e + 1;
    }
    assert(s@.skip(n as int).len() == 0);
    assert(prefix_before(s@.skip(n as int), sep).len() == 0);
    assert(out.deep_view() =~= out.deep_view() + trimmed_pieces(s@.skip(n as int), sep));
    out
}

/// Number of bytes of `c` in UTF-8.
pub open spec fn char_utf8_len(c: char) -> nat {
    if (c as u32) < 0x80 {
        1
    } else if (c as u32) < 0x800 {
        2
    } else if (c as u32) < 0x10000 {
        3
    } else {
        4
    }
}

/// Number of bytes of `s` in UTF-8 (what `str::len` returns).
pub open spec fn utf8_len(s: Seq<char>) -> nat
    decreases s.len(),
{
    if s.len() == 0 {
        0
    } else {
        utf8_len(s.drop_last()) + char_utf8_len(s.last())
    }
}

/// The UTF-8 length of a prefix never exceeds that of a longer prefix.
pub proof fn lemma_utf8_len_prefix_monotone(s: Seq<char>, i: int, j: int)
    requires
        0 <= i <= j <= s.len(),
    ensures
        utf8_len(s.take(i)) <= utf8_len(s.take(j)),
    decreases j - i,
{
    if i < j {
        lemma_utf8_len_prefix_monotone(s, i, j - 1);
        assert(s.take(j).drop_last() =~= s.take(j - 1));
    }
}

/// An ASCII string has one byte per character.
pub proof fn lemma_ascii_utf8_len(s: Seq<char>)
    requires
        forall|i: int| 0 <= i < s.len() ==> (#[trigger] s[i] as u32) < 0x80,
    ensures
        utf8_len(s) == s.len(),
    decreases s.len(),
{
    if s.len() > 0 {
        let t = s.drop_last();
        assert forall|i: int| 0 <= i < t.len() implies (#[trigger] t[i] as u32) < 0x80 by {
            assert(t[i] == s[i]);
        }
        lemma_ascii_utf8_len(t);
        assert((s.last() as u32) < 0x80);
    }
}

/// True when `s` is longer than `limit` bytes in UTF-8.
pub fn utf8_len_exceeds(s: &str, limit: u64) -> (r: bool)
    ensures
        r == (utf8_len(s@) > limit),
{
    let n = s.unicode_len();
    let mut total: u64 = 0;
    let mut i: usize = 0;
    while i < n
        invariant
            i <= n,
            n == s@.len(),
            total == utf8_len(s@.take(i as int)),
            total <= limit,
        decreases n - i,
    {
        let c = s.get_char(i);
        let cu = c as u32;
        let w: u64 = if cu < 0x80 { 1 } else if cu < 0x800 { 2 } else if cu < 0x10000 { 3 } else { 4 };
        assert(s@.take(i + 1).drop_last() =~= s@.take(i as int));
        if w > limit - total {
            proof {
                lemma_utf8_len_prefix_monotone(s@, i + 1, n as int);
                assert(s@.take(n as int) =~= s@);
            }
            return true;
        }
        total = total + w;
        i = i + 1;
    }
    assert(s@.take(n as int) =~= s@);
    false
}

/// Name for what `char::is_alphanumeric` returns: whether the character has the
/// Unicode `Alphabetic` property or a numeric general category (`Nd`, `Nl`, `No`).
pub uninterp spec fn unicode_alphanumeric(c: char) -> bool;

/// Calls `char::is_alphanumeric`. The contract ties the answer to the name
/// [`unicode_alphanumeric`] and, for ASCII characters, states it: an ASCII letter or
/// digit. The Unicode tables behind the rest are not restated here.
#[verifier::external_body]
pub fn char_is_alphanumeric(c: char) -> (r: bool)
    ensures
        r == unicode_alphanumeric(c),
        (c as u32) < 128 ==> (r <==> ('a' <= c <= 'z' || 'A' <= c <= 'Z' || '0' <= c <= '9')),
{
    c.is_alphanumeric()
}

/// The ASCII digit character for `d` (0 through 15 map to `0`-`9`, `a`-`f`).
pub open spec fn digit_char(d: nat) -> char {
    if d < 10 {
        ((d + 48) as u32) as char
    } else {
        ((d + 87) as u32) as char
    }
}

/// Positional representation of `n` in base `radix` (no leading zeros; `0` is `"0"`).
pub open spec fn radix_digits(n: nat, radix: nat) -> Seq<char>
    decreases n,
{
    if radix < 2 || n < radix {
        seq![digit_char(n)]
    } else {
        proof {
            assert(n / radix < n) by (nonlinear_arith)
                requires
                    radix >= 2,
                    n >= radix,
            ;
        }
        radix_digits(n / radix, radix) + seq![digit_char(n % radix)]
    }
}

/// One-character string for a digit below 16.
pub fn digit_str(d: u64) -> (r: &'static str)
    requires
        d < 16,
    ensures
        r@ == seq![digit_char(d as nat)],
{
    proof {
        reveal_strlit("0");
        reveal_strlit("1");
        reveal_strlit("2");
        reveal_strlit("3");
        reveal_strlit("4");
        reveal_strlit("5");
        reveal_strlit("6");
        reveal_strlit("7");
        reveal_strlit("8");
        reveal_strlit("9");
        reveal_strlit("a");
        reveal_strlit("b");
        reveal_strlit("c");
        reveal_strlit("d");
        reveal_strlit("e");
        reveal_strlit("f");
    }
    if d == 0 { "0" } else if d == 1 { "1" } else if d == 2 { "2" } else if d == 3 { "3" }
    else if d == 4 { "4" } else if d == 5 { "5" } else if d == 6 { "6" } else if d == 7 { "7" }
    else if d == 8 { "8" } else if d == 9 { "9" } else if d == 10 { "a" } else if d == 11 { "b" }
    else if d == 12 { "c" } else if d == 13 { "d" } else if d == 14 { "e" } else { "f" }
}

/// Renders `n` in base `radix` (2 to 16).
pub fn to_radix_string(n: u64, radix: u64) -> (r: String)
    requires
        2 <= radix <= 16,
    ensures
        r@ == radix_digits(n as nat, radix as nat),
    decreases n,
{
    if n < radix {
        String::from_str(digit_str(n))
    } else {
        assert(n / radix < n) by (nonlinear_arith)
            requires
                radix >= 2,
                n >= radix,
        ;
        let mut s = to_radix_string(n / radix, radix);
        s.append(digit_str(n % radix));
        s
    }
}

/// Decimal rendering of `n`, as `n.to_string()` prints it.
pub fn decimal_string(n: u64) -> (r: String)
    ensures
        r@ == radix_digits(n as nat, 10),
{
    to_radix_string(n, 10)
}

/// Octal rendering of `n` (file modes such as `600`).
pub fn octal_string(n: u64) -> (r: String)
    ensures
        r@ == radix_digits(n as nat, 8),
{
    to_radix_string(n, 8)
}

} // verus!
