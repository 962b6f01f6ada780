//! Terminal styling and human-readable operation reports.

use vstd::prelude::*;
use crate::common::operation::{OperationResult, OperationResultView, OperationStatus, results_view};
use crate::text::{utf8_len, utf8_len_exceeds};

verus! {

/// When to emit ANSI colors.
#[derive(Debug, Clone, Copy, PartialEq, Eq, Structural)]
pub enum ColorArg {
    Auto,
    Always,
    Never,
}

/// Whether human reports carry ANSI styling.
#[derive(Debug, Clone, Copy, PartialEq, Eq, Structural)]
pub struct Style {
    pub enabled: bool,
}

/// `s` wrapped in the ANSI sequence `code` and a reset, when styling is enabled.
pub open spec fn styled(style: Style, code: Seq<char>, s: Seq<char>) -> Seq<char> {
    if style.enabled {
        "\x1b["@ + code + "m"@ + s + "\x1b[0m"@
    } else {
        s
    }
}

impl Style {
    /// Styling on or off.
    pub fn new(enabled: bool) -> (r: Self)
        ensures
            r.enabled == enabled,
    {
        Style { enabled }
    }

    /// No styling (machine-readable output).
    pub fn plain() -> (r: Self)
        ensures
            !r.enabled,
    {
        Style { enabled: false }
    }

    /// Styling decided from the color flag, whether stdout is a terminal and
    /// whether `NO_COLOR` is set (which always disables color).
    pub fn for_human(color: ColorArg, stdout_is_terminal: bool, no_color_set: bool) -> (r: Self)
        ensures
            r.enabled == (!no_color_set && match color {
                ColorArg::Always => true,
                ColorArg::Never => false,
                ColorArg::Auto => stdout_is_terminal,
            }),
    {
        let enabled = if no_color_set {
            false
        } else {
            match color {
                ColorArg::Always => true,
                ColorArg::Never => false,
                ColorArg::Auto => stdout_is_terminal,
            }
        };
        Style { enabled }
    }

    fn wrap(&self, code: &str, s: &str) -> (r: String)
        ensures
            r@ == styled(*self, code@, s@),
    {
        if self.enabled {
            let mut out = String::from_str("\x1b[");
            out.append(code);
            out.append("m");
            out.append(s);
            out.append("\x1b[0m");
            out
        } else {
            String::from_str(s)
        }
    }

    /// Bold text.
    pub fn bold(&self, s: &str) -> (r: String)
        ensures
            r@ == styled(*self, "1"@, s@),
    {
        self.wrap("1", s)
    }

    /// Dim text.
    pub fn dim(&self, s: &str) -> (r: String)
        ensures
            r@ == styled(*self, "2"@, s@),
    {
        self.wrap("2", s)
    }

    /// Green text.
    pub fn green(&self, s: &str) -> (r: String)
        ensures
            r@ == styled(*self, "32"@, s@),
    {
        self.wrap("32", s)
    }

    /// Red text.
    pub fn red(&self, s: &str) -> (r: String)
        ensures
            r@ == styled(*self, "31"@, s@),
    {
        self.wrap("31", s)
    }
}

/// Width of the title rule: the title plus the rule span 48 columns.
pub open spec fn rule_of(title: Seq<char>) -> Seq<char> {
    Seq::new((48 - utf8_len(title)) as nat, |i: int| '─')
}

/// The status tag of a result line.
pub open spec fn status_tag(style: Style, status: OperationStatus) -> Seq<char> {
    match status {
        OperationStatus::Planned => styled(style, "2"@, "[PLAN]"@),
        OperationStatus::Succeeded => styled(style, "32"@, "[OK]"@) + "  "@,
        OperationStatus::Failed => styled(style, "31"@, "[FAIL]"@),
        OperationStatus::Skipped => styled(style, "2"@, "[SKIP]"@) + "  "@,
    }
}

/// The text a result contributes: a status line, then an indented detail line when
/// the detail is not empty.
pub open spec fn result_block(style: Style, r: OperationResultView) -> Seq<char> {
    let line = status_tag(style, r.status) + " "@ + styled(style, "1"@, r.description);
    if r.detail.len() > 0 {
        line + "\n"@ + "  "@ + styled(style, "2"@, r.detail)
    } else {
        line
    }
}

/// The result blocks, each preceded by a newline.
pub open spec fn result_blocks(style: Style, rs: Seq<OperationResultView>) -> Seq<char>
    decreases rs.len(),
{
    if rs.len() == 0 {
        Seq::empty()
    } else {
        result_blocks(style, rs.drop_last()) + "\n"@ + result_block(style, rs.last())
    }
}

/// The whole report: a blank line, the bold title and a dim rule, a blank line, one
/// block per result, and a final newline.
pub open spec fn spec_operation_report(title: Seq<char>, rs: Seq<OperationResultView>, style: Style) -> Seq<
    char,
> {
    "\n"@ + styled(style, "1"@, title) + " "@ + styled(style, "2"@, rule_of(title)) + "\n"@ + result_blocks(
        style,
        rs,
    ) + "\n"@
}

fn rule_string(title: &str) -> (r: String)
    requires
        utf8_len(title@) <= 48,
    ensures
        r@ == rule_of(title@),
{
    let n = title.unicode_len();
    let mut width: usize = 0;
    let mut i: usize = 0;
    while i < n
        invariant
            i <= n,
            n == title@.len(),
            width == crate::text::utf8_len(title@.take(i as int)),
            utf8_len(title@) <= 48,
        decreases n - i,
    {
        let c = title.get_char(i);
        let cu = c as u32;
        let w: usize = if cu < 0x80 { 1 } else if cu < 0x800 { 2 } else if cu < 0x10000 { 3 } else { 4 };
        assert(title@.take(i + 1).drop_last() =~= title@.take(i as int));
        proof {
            crate::text::lemma_utf8_len_prefix_monotone(title@, i + 1, n as int);
            assert(title@.take(n as int) =~= title@);
        }
        width = width + w;
        i = i + 1;
    }
    assert(title@.take(n as int) =~= title@);
    let count = 48 - width;
    let mut rule = String::new();
    let mut k: usize = 0;
    while k < count
        invariant
            k <= count,
            rule@ =~= Seq::new(k as nat, |j: int| '─'),
        decreases count - k,
    {
        proof {
            reveal_strlit("─");
        }
        rule.append("─");
        k = k + 1;
    }
    rule
}

/// Renders the lines of one result.
pub fn result_block_string(style: &Style, op: &OperationResult) -> (r: String)
    ensures
        r@ == result_block(*style, op@),
{
    let mut out = match op.status {
        OperationStatus::Planned => style.dim("[PLAN]"),
        OperationStatus::Succeeded => {
            let mut s = style.green("[OK]");
            s.append("  ");
            s
        },
        OperationStatus::Failed => style.red("[FAIL]"),
        OperationStatus::Skipped => {
            let mut s = style.dim("[SKIP]");
            s.append("  ");
            s
        },
    };
    out.append(" ");
    let desc = style.bold(op.description.as_str());
    out.append(desc.as_str());
    if op.detail.unicode_len() > 0 {
        out.append("\n");
        out.append("  ");
        let det = style.dim(op.detail.as_str());
        out.append(det.as_str());
    }
    out
}

/// Renders a titled report of operation results.
pub fn format_operation_report(title: &str, operations: &Vec<OperationResult>, style: &Style) -> (r: String)
    requires
        utf8_len(title@) <= 48,
    ensures
        r@ == spec_operation_report(title@, results_view(operations@), *style),
{
    let mut out = String::from_str("\n");
    let t = style.bold(title);
    out.append(t.as_str());
    out.append(" ");
    let rule = rule_string(title);
    let d = style.dim(rule.as_str());
    out.append(d.as_str());
    out.append("\n");
    let ghost head = out@;
    let mut i: usize = 0;
    while i < operations.len()
        invariant
            i <= operations@.len(),
            out@ == head + result_blocks(*style, results_view(operations@).take(i as int)),
        decreases operations.len() - i,
    {
        let block = result_block_string(style, &operations[i]);
        out.append("\n");
        out.append(block.as_str());
        proof {
            let rs = results_view(operations@);
            assert(rs.take(i + 1).drop_last() =~= rs.take(i as int));
            assert(rs.take(i + 1).last() == operations@[i as int]@);
        }
        i = i + 1;
    }
    assert(results_view(operations@).take(operations@.len() as int) =~= results_view(operations@));
    out.append("\n");
    out
}

/// `s` holds no escape character (`\x1b`), so no ANSI sequence.
pub open spec fn escape_free(s: Seq<char>) -> bool {
    forall|i: int| 0 <= i < s.len() ==> s[i] != '\x1b'
}

proof fn lemma_escape_free_concat(a: Seq<char>, b: Seq<char>)
    requires
        escape_free(a),
        escape_free(b),
    ensures
        escape_free(a + b),
{
    assert forall|i: int| 0 <= i < (a + b).len() implies (a + b)[i] != '\x1b' by {
        if i < a.len() {
            assert((a + b)[i] == a[i]);
        } else {
            assert((a + b)[i] == b[i - a.len()]);
        }
    }
}

proof fn lemma_literals_escape_free()
    ensures
        escape_free("\n"@),
        escape_free(" "@),
        escape_free("  "@),
        escape_free("[PLAN]"@),
        escape_free("[OK]"@),
        escape_free("[FAIL]"@),
        escape_free("[SKIP]"@),
{
    reveal_strlit("\n");
    reveal_strlit(" ");
    reveal_strlit("  ");
    reveal_strlit("[PLAN]");
    reveal_strlit("[OK]");
    reveal_strlit("[FAIL]");
    reveal_strlit("[SKIP]");
}

proof fn lemma_result_blocks_escape_free(rs: Seq<OperationResultView>)
    requires
        forall|i: int| 0 <= i < rs.len() ==> escape_free((#[trigger] rs[i]).description) && escape_free(rs[i].detail),
    ensures
        escape_free(result_blocks(Style { enabled: false }, rs)),
    decreases rs.len(),
{
    let st = Style { enabled: false };
    lemma_literals_escape_free();
    if rs.len() > 0 {
        lemma_result_blocks_escape_free(rs.drop_last());
        let r = rs.last();
        assert(escape_free(r.description) && escape_free(r.detail));
        let tag = status_tag(st, r.status);
        match r.status {
            OperationStatus::Succeeded => lemma_escape_free_concat("[OK]"@, "  "@),
            OperationStatus::Skipped => lemma_escape_free_concat("[SKIP]"@, "  "@),
            _ => {},
        }
        lemma_escape_free_concat(tag, " "@);
        lemma_escape_free_concat(tag + " "@, r.description);
        let line = tag + " "@ + r.description;
        lemma_escape_free_concat(line, "\n"@);
        lemma_escape_free_concat(line + "\n"@, "  "@);
        lemma_escape_free_concat(line + "\n"@ + "  "@, r.detail);
        assert(escape_free(result_block(st, r)));
        lemma_escape_free_concat(result_blocks(st, rs.drop_last()), "\n"@);
        lemma_escape_free_concat(result_blocks(st, rs.drop_last()) + "\n"@, result_block(st, r));
    }
}

/// Without styling (`--color never`, `NO_COLOR`, or JSON mode) a report adds no
/// ANSI sequence: it holds an escape character only if the title or a result did.
pub proof fn law_uncolored_report_has_no_escapes(title: Seq<char>, rs: Seq<OperationResultView>)
    requires
        escape_free(title),
        forall|i: int| 0 <= i < rs.len() ==> escape_free((#[trigger] rs[i]).description) && escape_free(rs[i].detail),
    ensures
        escape_free(spec_operation_report(title, rs, Style { enabled: false })),
{
    let st = Style { enabled: false };
    lemma_literals_escape_free();
    lemma_result_blocks_escape_free(rs);
    let rule = rule_of(title);
    assert(escape_free(rule));
    lemma_escape_free_concat("\n"@, title);
    lemma_escape_free_concat("\n"@ + title, " "@);
    lemma_escape_free_concat("\n"@ + title + " "@, rule);
    lemma_escape_free_concat("\n"@ + title + " "@ + rule, "\n"@);
    lemma_escape_free_concat("\n"@ + title + " "@ + rule + "\n"@, result_blocks(st, rs));
    lemma_escape_free_concat("\n"@ + title + " "@ + rule + "\n"@ + result_blocks(st, rs), "\n"@);
}

} // verus!
