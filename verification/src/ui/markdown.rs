//! Terminal Markdown rendering: headings, lists, tables, code blocks and inline styling
//! (code, bold, links, and highlighted paths, versions, metrics and URLs) as styled lines.

use vstd::prelude::*;
use vstd::utf8::encode_utf8;
use crate::text::{
    chars_ends_with, chars_of, chars_starts_with, ends_with, extend_chars, find_first,
    find_first_chars, is_whitespace, is_ws, seq_contains, slice_chars, split_chars,
    split_on, starts_with, trim, trim_chars, trim_end, trim_end_chars,
    trim_start, vec_views, chars_contains,
};
use crate::ui::styled::{
    fg, fg_bold, line_from, line_view, lines_view, plain_style, span_from, span_str, style_fg,
    style_fg_bold,
    SpanStyle, StyledLine, StyledSpan, ThemeColor,
};

verus! {

/// Rich terminal Markdown parser and syntax highlighter.
pub struct MarkdownRenderer;

/// A rendered line: text and style of each span.
pub type LineView = Seq<(Seq<char>, SpanStyle)>;

pub open spec fn spans_view(s: Seq<StyledSpan>) -> LineView {
    s.map_values(|x: StyledSpan| crate::ui::styled::span_view(x))
}

/// Bytes of the UTF-8 encoding of a character.
pub open spec fn char_utf8_len(c: char) -> nat {
    if (c as u32) < 0x80 {
        1
    } else if (c as u32) < 0x800 {
        2
    } else if (c as u32) < 0x10000 {
        3
    } else {
        4
    }
}

/// Bytes of the UTF-8 encoding of a text (`str::len`).
pub open spec fn utf8_len(s: Seq<char>) -> nat
    decreases s.len(),
{
    if s.len() == 0 {
        0
    } else {
        utf8_len(s.drop_last()) + char_utf8_len(s.last())
    }
}

/// A prefix takes no more UTF-8 bytes than the whole text.
pub proof fn lemma_utf8_len_prefix(s: Seq<char>, i: int)
    requires
        0 <= i <= s.len(),
    ensures
        utf8_len(s.take(i)) <= utf8_len(s),
    decreases s.len() - i,
{
    if i < s.len() {
        lemma_utf8_len_prefix(s, i + 1);
        assert(s.take(i + 1).drop_last() =~= s.take(i));
    } else {
        assert(s.take(i) =~= s);
    }
}

pub open spec fn is_ascii_digit(c: char) -> bool {
    '0' <= c <= '9'
}

pub open spec fn all_digits(s: Seq<char>) -> bool {
    forall|i: int| 0 <= i < s.len() ==> is_ascii_digit(#[trigger] s[i])
}

/// Digits and dots only.
pub open spec fn all_numeric(s: Seq<char>) -> bool {
    forall|i: int| 0 <= i < s.len() ==> is_ascii_digit(#[trigger] s[i]) || s[i] == '.'
}

/// Position of the last occurrence of `c`.
pub open spec fn last_index(s: Seq<char>, c: char) -> Option<nat>
    decreases s.len(),
{
    if s.len() == 0 {
        None
    } else if s.last() == c {
        Some((s.len() - 1) as nat)
    } else {
        last_index(s.drop_last(), c)
    }
}

/// The last index of `c`, when there is one, holds `c`.
pub proof fn lemma_last_index(s: Seq<char>, c: char)
    ensures
        last_index(s, c) matches Some(p) ==> p < s.len() && s[p as int] == c,
    decreases s.len(),
{
    if s.len() > 0 && s.last() != c {
        lemma_last_index(s.drop_last(), c);
    }
}

pub open spec fn has_code_ext(s: Seq<char>) -> bool {
    ||| ends_with(s, ".rs"@)
    ||| ends_with(s, ".toml"@)
    ||| ends_with(s, ".json"@)
    ||| ends_with(s, ".ts"@)
    ||| ends_with(s, ".js"@)
    ||| ends_with(s, ".md"@)
    ||| ends_with(s, ".py"@)
    ||| ends_with(s, ".go"@)
    ||| ends_with(s, ".yaml"@)
    ||| ends_with(s, ".yml"@)
    ||| ends_with(s, ".gguf"@)
    ||| ends_with(s, ".c"@)
    ||| ends_with(s, ".cpp"@)
    ||| ends_with(s, ".h"@)
}

pub open spec fn has_path_prefix(s: Seq<char>) -> bool {
    ||| starts_with(s, "src/"@)
    ||| starts_with(s, "tests/"@)
    ||| starts_with(s, "models/"@)
    ||| starts_with(s, "configs/"@)
    ||| starts_with(s, "./"@)
    ||| starts_with(s, "~/"@)
}

/// A file path: at least three bytes long, with a code file extension, or a path followed by
/// `:<line number>`, or a known directory prefix and a dot.
pub open spec fn is_file_path(s: Seq<char>) -> bool
    decreases s.len(),
{
    if utf8_len(s) < 3 {
        false
    } else {
        let line_ref = match last_index(s, ':') {
            Some(p) => {
                proof {
                    lemma_last_index(s, ':');
                }
                let after = s.skip(p + 1int);
                after.len() > 0 && all_digits(after) && is_file_path(s.take(p as int))
            },
            None => false,
        };
        has_code_ext(s) || line_ref || (has_path_prefix(s) && s.contains('.'))
    }
}

/// A version: `v` followed by digits and dots, with at least one dot.
pub open spec fn is_version(s: Seq<char>) -> bool {
    s.len() > 0 && s[0] == 'v' && s.drop_first().contains('.') && all_numeric(s.drop_first())
}

/// `s` without its leading `c` characters.
pub open spec fn lead_stripped(s: Seq<char>, c: char) -> Seq<char>
    decreases s.len(),
{
    if s.len() > 0 && s[0] == c {
        lead_stripped(s.drop_first(), c)
    } else {
        s
    }
}

/// `s` without its trailing `c` characters.
pub open spec fn tail_stripped(s: Seq<char>, c: char) -> Seq<char>
    decreases s.len(),
{
    if s.len() > 0 && s.last() == c {
        tail_stripped(s.drop_last(), c)
    } else {
        s
    }
}

/// `s` without its trailing repetitions of the non-empty `p` (`trim_end_matches`).
pub open spec fn suffix_stripped(s: Seq<char>, p: Seq<char>) -> Seq<char>
    decreases s.len(),
{
    if p.len() > 0 && ends_with(s, p) {
        suffix_stripped(s.take(s.len() - p.len()), p)
    } else {
        s
    }
}

/// A metric, latency or size: after leading `~`, `<`, `>`, a number of digits and dots
/// followed by `s`/`ms`, by `MB`/`GB`/`KB`, or by `k`/`M`.
pub open spec fn is_metric(s: Seq<char>) -> bool {
    let t = lead_stripped(lead_stripped(lead_stripped(s, '~'), '<'), '>');
    if ends_with(t, "s"@) || ends_with(t, "ms"@) {
        let num = tail_stripped(suffix_stripped(t, "ms"@), 's');
        num.len() > 0 && all_numeric(num)
    } else if ends_with(t, "MB"@) || ends_with(t, "GB"@) || ends_with(t, "KB"@) {
        let num = trim(suffix_stripped(suffix_stripped(suffix_stripped(t, "MB"@), "GB"@), "KB"@));
        num.len() > 0 && all_numeric(num)
    } else if ends_with(t, "k"@) || ends_with(t, "M"@) {
        let num = tail_stripped(tail_stripped(t, 'k'), 'M');
        num.len() > 0 && all_numeric(num)
    } else {
        false
    }
}

pub open spec fn is_url(s: Seq<char>) -> bool {
    starts_with(s, "http://"@) || starts_with(s, "https://"@)
}

/// Characters that end a highlighted token.
pub open spec fn is_token_end(c: char) -> bool {
    is_ws(c) || c == ',' || c == '(' || c == ')'
}

/// Characters trimmed from a token before it is classified.
pub open spec fn is_token_punct(c: char) -> bool {
    c == ',' || c == '(' || c == ')' || c == ';' || c == '"' || c == '\''
}

/// Pieces of `t` each ending at a token end (`str::split_inclusive`).
pub open spec fn token_pieces(t: Seq<char>) -> Seq<Seq<char>>
    decreases t.len(),
{
    if t.len() == 0 {
        Seq::empty()
    } else {
        let init = token_pieces(t.drop_last());
        if init.len() == 0 || is_token_end(init.last().last()) {
            init.push(seq![t.last()])
        } else {
            init.update(init.len() - 1, init.last().push(t.last()))
        }
    }
}

pub open spec fn punct_lead_stripped(s: Seq<char>) -> Seq<char>
    decreases s.len(),
{
    if s.len() > 0 && is_token_punct(s[0]) {
        punct_lead_stripped(s.drop_first())
    } else {
        s
    }
}

pub open spec fn punct_tail_stripped(s: Seq<char>) -> Seq<char>
    decreases s.len(),
{
    if s.len() > 0 && is_token_punct(s.last()) {
        punct_tail_stripped(s.drop_last())
    } else {
        s
    }
}

/// Style of a token: paths green, versions and metrics bold yellow, URLs underlined, words of
/// success green, words of failure red, others in the primary text colour.
pub open spec fn token_style(word: Seq<char>) -> SpanStyle {
    let t = punct_tail_stripped(punct_lead_stripped(word));
    if is_file_path(t) {
        fg(ThemeColor::Success)
    } else if is_version(t) || is_metric(t) {
        fg_bold(ThemeColor::Warning)
    } else if is_url(t) {
        SpanStyle { fg: Some(ThemeColor::Info), bg: None, bold: false, underlined: true, italic: false, dim: false }
    } else if t == "Hello!"@ || t == "Passed"@ || t == "Success"@ || t == "Correct"@ {
        fg(ThemeColor::Success)
    } else if t == "Failed"@ || t == "Error"@ || t == "Wrong"@ {
        fg(ThemeColor::Destructive)
    } else {
        fg(ThemeColor::TextPrimary)
    }
}

/// Spans of plain text: one per token, styled by `token_style`.
pub open spec fn highlighted(t: Seq<char>) -> LineView {
    token_pieces(t).map_values(|w: Seq<char>| (w, token_style(w)))
}

/// Highlighted spans of a pending buffer (none for an empty one).
pub open spec fn flushed(buf: Seq<char>) -> LineView {
    if buf.len() == 0 {
        Seq::empty()
    } else {
        highlighted(buf)
    }
}

pub open spec fn code_style() -> SpanStyle {
    SpanStyle {
        fg: Some(ThemeColor::Info),
        bg: Some(ThemeColor::BgElevated),
        bold: true,
        underlined: false, italic: false, dim: false
    }
}

pub open spec fn link_style() -> SpanStyle {
    SpanStyle { fg: Some(ThemeColor::Info), bg: None, bold: false, underlined: true, italic: false, dim: false }
}

/// Style of bold text: versions yellow, commit kinds blue, others primary.
pub open spec fn bold_style(b: Seq<char>) -> SpanStyle {
    if b.len() >= 2 && b[0] == 'v' && is_ascii_digit(b[1]) {
        fg_bold(ThemeColor::Warning)
    } else if starts_with(b, "feat"@) || starts_with(b, "fix"@) || starts_with(b, "refactor"@) {
        fg_bold(ThemeColor::Info)
    } else {
        fg_bold(ThemeColor::TextPrimary)
    }
}

/// Inline spans of `rem`, with `buf` the plain text read so far: `` `code` ``, `**bold**`
/// and `[text](url)` become their own spans, plain text is highlighted token by token.
pub open spec fn inline_spans(rem: Seq<char>, buf: Seq<char>) -> LineView
    decreases rem.len(),
{
    if rem.len() == 0 {
        flushed(buf)
    } else if rem[0] == '`' && find_first(rem.skip(1), seq!['`']) is Some {
        let e = find_first(rem.skip(1), seq!['`']).unwrap();
        proof {
            crate::text::lemma_find_first_bounds(rem.skip(1), seq!['`']);
        }
        flushed(buf) + seq![(rem.subrange(1, 1 + e), code_style())] + inline_spans(
            rem.skip(e + 2),
            Seq::empty(),
        )
    } else if starts_with(rem, seq!['*', '*']) && find_first(rem.skip(2), seq!['*', '*']) is Some {
        let e = find_first(rem.skip(2), seq!['*', '*']).unwrap();
        proof {
            crate::text::lemma_find_first_bounds(rem.skip(2), seq!['*', '*']);
        }
        let b = rem.subrange(2, 2 + e);
        flushed(buf) + seq![(b, bold_style(b))] + inline_spans(rem.skip(e + 4), Seq::empty())
    } else if rem[0] == '[' && link_parts(rem) is Some {
        let (text, consumed) = link_parts(rem).unwrap();
        proof {
            lemma_link_parts_bounds(rem);
        }
        flushed(buf) + seq![(text, link_style())] + inline_spans(
            rem.skip(consumed as int),
            Seq::empty(),
        )
    } else {
        inline_spans(rem.drop_first(), buf.push(rem[0]))
    }
}

/// A link `[text](url)` at the start of `rem`: its text and the number of characters it
/// takes.
pub open spec fn link_parts(rem: Seq<char>) -> Option<(Seq<char>, nat)> {
    if rem.len() == 0 || rem[0] != '[' {
        None
    } else {
        let after = rem.skip(1);
        match find_first(after, seq![']']) {
            Some(b) => {
                let ab = after.skip(b + 1);
                if ab.len() > 0 && ab[0] == '(' {
                    match find_first(ab.skip(1), seq![')']) {
                        Some(p) => Some((after.take(b), (1 + b + 1 + 1 + p + 1) as nat)),
                        None => None,
                    }
                } else {
                    None
                }
            },
            None => None,
        }
    }
}

/// A link found at the start of the text ends inside it, after its first character.
pub proof fn lemma_link_parts_bounds(rem: Seq<char>)
    ensures
        link_parts(rem) matches Some(lp) ==> 1 <= lp.1 <= rem.len(),
{
    if rem.len() > 0 && rem[0] == '[' {
        let after = rem.skip(1);
        crate::text::lemma_find_first_bounds(after, seq![']']);
        match find_first(after, seq![']']) {
            Some(b) => {
                let ab = after.skip(b + 1);
                crate::text::lemma_find_first_bounds(ab.skip(1), seq![')']);
            },
            None => {},
        }
    }
}

/// The header title of a standalone bold line (`**Title:**` or `**Title**`).
pub open spec fn section_header(line: Seq<char>) -> Option<Seq<char>> {
    if utf8_len(line) < 5 || !starts_with(line, "**"@) {
        None
    } else {
        let w = line.skip(2);
        if ends_with(w, "**:"@) {
            let inner = w.take(w.len() - 3);
            if !seq_contains(inner, "**"@) && trim(inner).len() > 0 {
                Some(trim(inner) + seq![':'])
            } else {
                None
            }
        } else if ends_with(w, "**"@) {
            let inner = w.take(w.len() - 2);
            if !seq_contains(inner, "**"@) && trim(inner).len() > 0 {
                Some(trim(inner))
            } else {
                None
            }
        } else {
            None
        }
    }
}

/// A numbered list item: the digits before the first `. ` of the line (leading whitespace
/// dropped) and the text after it.
pub open spec fn numbered_item(line: Seq<char>) -> Option<(Seq<char>, Seq<char>)> {
    let t = trim_start(line);
    match find_first(t, ". "@) {
        Some(d) => {
            let num = t.take(d);
            if num.len() > 0 && all_digits(num) {
                Some((num, t.skip(d + 2)))
            } else {
                None
            }
        },
        None => None,
    }
}

/// `s` without leading and trailing `|`.
pub open spec fn bars_trimmed(s: Seq<char>) -> Seq<char> {
    tail_stripped(lead_stripped(s, '|'), '|')
}

/// The trimmed cells of a table row.
pub open spec fn table_cells(line: Seq<char>) -> Seq<Seq<char>> {
    split_on(bars_trimmed(line), '|').map_values(|c: Seq<char>| trim(c))
}

pub open spec fn is_rule_cell(c: Seq<char>) -> bool {
    c.len() > 0 && forall|i: int| 0 <= i < c.len() ==> (#[trigger] c[i] == '-' || c[i] == ':')
}

/// Spans of the table cells from `k` on, each after a separator but the first.
pub open spec fn cells_spans(cells: Seq<Seq<char>>, k: nat) -> LineView
    decreases cells.len() - k,
{
    if k >= cells.len() {
        Seq::empty()
    } else {
        (if k > 0 {
            seq![(" │ "@, fg(ThemeColor::Border))]
        } else {
            Seq::empty()
        }) + inline_spans(cells[k as int], Seq::empty()) + cells_spans(cells, k + 1)
    }
}

/// Spans of a separator row with `n` columns, from column `k` on.
pub open spec fn rule_spans(n: nat, k: nat) -> LineView
    decreases n - k,
{
    if k >= n {
        Seq::empty()
    } else {
        (if k > 0 {
            seq![("┼"@, fg(ThemeColor::Border))]
        } else {
            Seq::empty()
        }) + seq![("────────────────────"@, fg(ThemeColor::Border))] + rule_spans(n, k + 1)
    }
}

/// A table row: a separator row (every cell made of `-` and `:`) becomes a rule, other rows
/// their cells between borders.
pub open spec fn table_row(line: Seq<char>) -> LineView {
    let cells = table_cells(line);
    if forall|k: int| 0 <= k < cells.len() ==> is_rule_cell(#[trigger] cells[k]) {
        seq![("├"@, fg(ThemeColor::Border))] + rule_spans(cells.len(), 0) + seq![
            ("┤"@, fg(ThemeColor::Border)),
        ]
    } else {
        seq![("│ "@, fg(ThemeColor::Border))] + cells_spans(cells, 0) + seq![
            (" │"@, fg(ThemeColor::Border)),
        ]
    }
}

/// The line with a prefix style for `prefix` and inline spans for the rest.
pub open spec fn prefixed(prefix: Seq<char>, style: SpanStyle, rest: Seq<char>) -> LineView {
    seq![(prefix, style)] + inline_spans(rest, Seq::empty())
}

/// The first of `prefixes` that `line` starts with.
pub open spec fn strip_any(line: Seq<char>, a: Seq<char>, b: Seq<char>, c: Seq<char>) -> Option<
    Seq<char>,
> {
    if starts_with(line, a) {
        Some(line.skip(a.len() as int))
    } else if starts_with(line, b) {
        Some(line.skip(b.len() as int))
    } else if starts_with(line, c) {
        Some(line.skip(c.len() as int))
    } else {
        None
    }
}

/// A line outside code blocks (already trimmed at its end).
pub open spec fn text_line(line: Seq<char>) -> LineView {
    if line.len() == 0 {
        seq![(Seq::<char>::empty(), plain_style())]
    } else if line[0] == '|' && line.last() == '|' && line.len() >= 2 {
        table_row(line)
    } else if starts_with(line, "#### "@) {
        prefixed("#### "@, fg_bold(ThemeColor::Info), line.skip(5))
    } else if starts_with(line, "### "@) {
        prefixed("### "@, fg_bold(ThemeColor::Highlight), line.skip(4))
    } else if starts_with(line, "## "@) {
        prefixed("## "@, fg_bold(ThemeColor::BrandAccent), line.skip(3))
    } else if starts_with(line, "# "@) {
        prefixed("# "@, fg_bold(ThemeColor::BrandAccent), line.skip(2))
    } else if section_header(line) is Some {
        seq![(section_header(line).unwrap(), fg_bold(ThemeColor::Highlight))]
    } else if strip_any(line, "  - "@, "  * "@, "  • "@) is Some {
        prefixed("    - "@, fg(ThemeColor::Muted), strip_any(line, "  - "@, "  * "@, "  • "@).unwrap())
    } else if strip_any(line, "- "@, "* "@, "• "@) is Some {
        prefixed("• "@, fg(ThemeColor::BrandAccent), strip_any(line, "- "@, "* "@, "• "@).unwrap())
    } else if numbered_item(line) is Some {
        let (num, rest) = numbered_item(line).unwrap();
        prefixed(num + ". "@, fg_bold(ThemeColor::BrandAccent), rest)
    } else if line == "---"@ || line == "***"@ || line == "___"@ {
        seq![("────────────────────────────────────────────────────"@, fg(ThemeColor::Border))]
    } else {
        inline_spans(line, Seq::empty())
    }
}

/// A line `<digits>. <text>` is a numbered list item: it renders as the number followed by
/// `. ` in bold accent, then the inline rendering of the text after `. `, so the number is
/// shown once and the text keeps nothing of it.
pub proof fn law_numbered_item_line(d: Seq<char>, x: Seq<char>)
    requires
        d.len() > 0,
        all_digits(d),
    ensures
        numbered_item(d + ". "@ + x) == Some((d, x)),
        text_line(d + ". "@ + x) == seq![(d + ". "@, fg_bold(ThemeColor::BrandAccent))] + inline_spans(
            x,
            Seq::empty(),
        ),
{
    reveal_strlit(". ");
    reveal_strlit("#### ");
    reveal_strlit("### ");
    reveal_strlit("## ");
    reveal_strlit("# ");
    reveal_strlit("**");
    reveal_strlit("  - ");
    reveal_strlit("  * ");
    reveal_strlit("  • ");
    reveal_strlit("- ");
    reveal_strlit("* ");
    reveal_strlit("• ");
    let sep = ". "@;
    let l = d + sep + x;
    assert(l[0] == d[0]);
    assert(is_ascii_digit(d[0]));
    assert(!is_ws(l[0]));
    assert(trim_start(l) == l);
    assert(l.subrange(d.len() as int, d.len() + 2int) =~= sep);
    assert forall|j: int| 0 <= j < d.len() implies !crate::text::occurs_at(l, sep, j) by {
        assert(l[j] == d[j]);
        assert(is_ascii_digit(d[j]));
        if crate::text::occurs_at(l, sep, j) {
            assert(l.subrange(j, j + 2)[0] == l[j]);
        }
    }
    crate::text::lemma_find_first_from(l, sep, 0, Some(d.len() as int));
    assert(l.take(d.len() as int) =~= d);
    assert(l.skip(d.len() + 2int) =~= x);
    assert(!starts_with(l, "#### "@)) by {
        if starts_with(l, "#### "@) {
            assert(l.take(5)[0] == l[0]);
        }
    }
    assert(!starts_with(l, "### "@)) by {
        if starts_with(l, "### "@) {
            assert(l.take(4)[0] == l[0]);
        }
    }
    assert(!starts_with(l, "## "@)) by {
        if starts_with(l, "## "@) {
            assert(l.take(3)[0] == l[0]);
        }
    }
    assert(!starts_with(l, "# "@)) by {
        if starts_with(l, "# "@) {
            assert(l.take(2)[0] == l[0]);
        }
    }
    assert(!starts_with(l, "**"@)) by {
        if starts_with(l, "**"@) {
            assert(l.take(2)[0] == l[0]);
        }
    }
    assert(strip_any(l, "  - "@, "  * "@, "  • "@) is None) by {
        if starts_with(l, "  - "@) || starts_with(l, "  * "@) || starts_with(l, "  • "@) {
            assert(l.take(4)[0] == l[0]);
        }
    }
    assert(strip_any(l, "- "@, "* "@, "• "@) is None) by {
        if starts_with(l, "- "@) || starts_with(l, "* "@) || starts_with(l, "• "@) {
            assert(l.take(2)[0] == l[0]);
        }
    }
}

pub open spec fn code_text_style() -> SpanStyle {
    SpanStyle {
        fg: Some(ThemeColor::TextPrimary),
        bg: Some(ThemeColor::BgElevated),
        bold: false,
        underlined: false, italic: false, dim: false
    }
}

/// Header line of a code block.
pub open spec fn fence_header(lang: Seq<char>) -> Seq<char> {
    if lang.len() == 0 {
        "  ┌─ code ────────────────────────"@
    } else {
        "  ┌─ "@ + lang + " ────────────────────────"@
    }
}

/// Rendered lines of the first `n` source lines, and whether a code block is open after them.
pub open spec fn rendered(ls: Seq<Seq<char>>, n: nat) -> (Seq<LineView>, bool)
    decreases n,
{
    if n == 0 {
        (Seq::empty(), false)
    } else {
        let prev = rendered(ls, (n - 1) as nat);
        let raw = ls[n - 1];
        let line = trim_end(raw);
        if starts_with(line, "```"@) {
            if prev.1 {
                (prev.0.push(seq![("  └────────────────────────────────"@, fg(ThemeColor::Border))]), false)
            } else {
                (prev.0.push(seq![(fence_header(trim(line.skip(3))), fg(ThemeColor::Border))]), true)
            }
        } else if prev.1 {
            (prev.0.push(seq![("  │ "@, fg(ThemeColor::Border)), (raw, code_text_style())]), true)
        } else {
            (prev.0.push(text_line(line)), false)
        }
    }
}

fn has_prefix(v: &[char], p: &str) -> (b: bool)
    ensures
        b == starts_with(v@, p@),
{
    chars_starts_with(v, &chars_of(p))
}

fn has_suffix(v: &[char], p: &str) -> (b: bool)
    ensures
        b == ends_with(v@, p@),
{
    chars_ends_with(v, &chars_of(p))
}

fn all_digits_exec(v: &[char]) -> (b: bool)
    ensures
        b == all_digits(v@),
{
    let mut i: usize = 0;
    while i < v.len()
        invariant
            i <= v@.len(),
            forall|k: int| 0 <= k < i ==> is_ascii_digit(#[trigger] v@[k]),
        decreases v@.len() - i,
    {
        if !('0' <= v[i] && v[i] <= '9') {
            return false;
        }
        i += 1;
    }
    true
}

fn all_numeric_exec(v: &[char]) -> (b: bool)
    ensures
        b == all_numeric(v@),
{
    let mut i: usize = 0;
    while i < v.len()
        invariant
            i <= v@.len(),
            forall|k: int| 0 <= k < i ==> is_ascii_digit(#[trigger] v@[k]) || v@[k] == '.',
        decreases v@.len() - i,
    {
        if !(('0' <= v[i] && v[i] <= '9') || v[i] == '.') {
            return false;
        }
        i += 1;
    }
    true
}

fn contains_char(v: &[char], c: char) -> (b: bool)
    ensures
        b == v@.contains(c),
{
    let mut i: usize = 0;
    while i < v.len()
        invariant
            i <= v@.len(),
            forall|k: int| 0 <= k < i ==> v@[k] != c,
        decreases v@.len() - i,
    {
        if v[i] == c {
            assert(v@[i as int] == c);
            return true;
        }
        i += 1;
    }
    false
}

fn last_index_exec(v: &[char], c: char) -> (r: Option<usize>)
    ensures
        match r {
            Some(p) => last_index(v@, c) == Some(p as nat),
            None => last_index(v@, c) is None,
        },
{
    let mut j = v.len();
    assert(v@.take(j as int) =~= v@);
    while j > 0
        invariant
            j <= v@.len(),
            last_index(v@, c) == last_index(v@.take(j as int), c),
        decreases j,
    {
        assert(v@.take(j as int).drop_last() =~= v@.take(j - 1));
        if v[j - 1] == c {
            return Some(j - 1);
        }
        j -= 1;
    }
    None
}

/// Whether the UTF-8 encoding of the characters is shorter than `k` bytes.
fn utf8_shorter(v: &[char], k: usize) -> (b: bool)
    requires
        1 <= k <= 8,
    ensures
        b == (utf8_len(v@) < k),
{
    let mut i: usize = 0;
    let mut n: usize = 0;
    assert(v@.take(0) =~= Seq::<char>::empty());
    while i < v.len()
        invariant
            i <= v@.len(),
            k <= 8,
            n == utf8_len(v@.take(i as int)),
            n < k,
        decreases v@.len() - i,
    {
        let u = v[i] as u32;
        let w: usize = if u < 0x80 {
            1
        } else if u < 0x800 {
            2
        } else if u < 0x10000 {
            3
        } else {
            4
        };
        assert(v@.take(i + 1).drop_last() =~= v@.take(i as int));
        n = n + w;
        i += 1;
        if n >= k {
            proof {
                lemma_utf8_len_prefix(v@, i as int);
            }
            return false;
        }
    }
    assert(v@.take(v@.len() as int) =~= v@);
    true
}

fn is_file_path_exec(s: &Vec<char>) -> (b: bool)
    ensures
        b == is_file_path(s@),
    decreases s@.len(),
{
    if utf8_shorter(s, 3) {
        return false;
    }
    let ext = has_suffix(s, ".rs") || has_suffix(s, ".toml") || has_suffix(s, ".json")
        || has_suffix(s, ".ts") || has_suffix(s, ".js") || has_suffix(s, ".md") || has_suffix(
        s,
        ".py",
    ) || has_suffix(s, ".go") || has_suffix(s, ".yaml") || has_suffix(s, ".yml") || has_suffix(
        s,
        ".gguf",
    ) || has_suffix(s, ".c") || has_suffix(s, ".cpp") || has_suffix(s, ".h");
    let line_ref = match last_index_exec(s, ':') {
        Some(p) => {
            proof {
                lemma_last_index(s@, ':');
            }
            assert(p < s.len());
            let after = slice_chars(s, p + 1, s.len());
            assert(after@ =~= s@.skip(p + 1int));
            if after.len() > 0 && all_digits_exec(&after) {
                let head = slice_chars(s, 0, p);
                assert(head@ =~= s@.take(p as int));
                is_file_path_exec(&head)
            } else {
                false
            }
        },
        None => false,
    };
    let prefix = has_prefix(s, "src/") || has_prefix(s, "tests/") || has_prefix(s, "models/")
        || has_prefix(s, "configs/") || has_prefix(s, "./") || has_prefix(s, "~/");
    ext || line_ref || (prefix && contains_char(s, '.'))
}

fn is_version_exec(s: &Vec<char>) -> (b: bool)
    ensures
        b == is_version(s@),
{
    if s.len() == 0 || s[0] != 'v' {
        return false;
    }
    let rest = slice_chars(s, 1, s.len());
    assert(rest@ =~= s@.drop_first());
    contains_char(&rest, '.') && all_numeric_exec(&rest)
}

fn lead_stripped_exec(v: &Vec<char>, c: char) -> (r: Vec<char>)
    ensures
        r@ == lead_stripped(v@, c),
{
    let mut i: usize = 0;
    assert(v@.skip(0) =~= v@);
    while i < v.len() && v[i] == c
        invariant
            i <= v@.len(),
            lead_stripped(v@, c) == lead_stripped(v@.skip(i as int), c),
        decreases v@.len() - i,
    {
        assert(v@.skip(i as int).drop_first() =~= v@.skip(i + 1));
        i += 1;
    }
    let r = slice_chars(v, i, v.len());
    assert(r@ =~= v@.skip(i as int));
    r
}

fn tail_stripped_exec(v: &Vec<char>, c: char) -> (r: Vec<char>)
    ensures
        r@ == tail_stripped(v@, c),
{
    let mut j = v.len();
    assert(v@.take(j as int) =~= v@);
    while j > 0 && v[j - 1] == c
        invariant
            j <= v@.len(),
            tail_stripped(v@, c) == tail_stripped(v@.take(j as int), c),
        decreases j,
    {
        assert(v@.take(j as int).drop_last() =~= v@.take(j - 1));
        j -= 1;
    }
    let r = slice_chars(v, 0, j);
    assert(r@ =~= v@.take(j as int));
    r
}

fn suffix_stripped_exec(v: &Vec<char>, p: &str) -> (r: Vec<char>)
    ensures
        r@ == suffix_stripped(v@, p@),
{
    let pv = chars_of(p);
    let mut j = v.len();
    assert(v@.take(j as int) =~= v@);
    while pv.len() > 0 && chars_ends_with(&slice_chars(v, 0, j), &pv)
        invariant
            j <= v@.len(),
            pv@ == p@,
            suffix_stripped(v@, p@) == suffix_stripped(v@.take(j as int), p@),
        decreases j,
    {
        let ghost t = v@.take(j as int);
        assert(slice_chars_view(v@, j as int) == t);
        assert(t.take(t.len() - p@.len()) =~= v@.take(j - pv@.len()));
        j -= pv.len();
    }
    let r = slice_chars(v, 0, j);
    assert(r@ =~= v@.take(j as int));
    r
}

spec fn slice_chars_view(v: Seq<char>, j: int) -> Seq<char> {
    v.subrange(0, j)
}

fn is_metric_exec(s: &Vec<char>) -> (b: bool)
    ensures
        b == is_metric(s@),
{
    let t = lead_stripped_exec(&lead_stripped_exec(&lead_stripped_exec(s, '~'), '<'), '>');
    if has_suffix(&t, "s") || has_suffix(&t, "ms") {
        let num = tail_stripped_exec(&suffix_stripped_exec(&t, "ms"), 's');
        num.len() > 0 && all_numeric_exec(&num)
    } else if has_suffix(&t, "MB") || has_suffix(&t, "GB") || has_suffix(&t, "KB") {
        let num = trim_chars(
            &suffix_stripped_exec(&suffix_stripped_exec(&suffix_stripped_exec(&t, "MB"), "GB"), "KB"),
        );
        num.len() > 0 && all_numeric_exec(&num)
    } else if has_suffix(&t, "k") || has_suffix(&t, "M") {
        let num = tail_stripped_exec(&tail_stripped_exec(&t, 'k'), 'M');
        num.len() > 0 && all_numeric_exec(&num)
    } else {
        false
    }
}

fn is_token_end_exec(c: char) -> (b: bool)
    ensures
        b == is_token_end(c),
{
    is_whitespace(c) || c == ',' || c == '(' || c == ')'
}

fn is_token_punct_exec(c: char) -> (b: bool)
    ensures
        b == is_token_punct(c),
{
    c == ',' || c == '(' || c == ')' || c == ';' || c == '"' || c == '\''
}

fn token_pieces_exec(t: &Vec<char>) -> (r: Vec<Vec<char>>)
    ensures
        vec_views(r@) == token_pieces(t@),
{
    let mut out: Vec<Vec<char>> = Vec::new();
    let mut cur: Vec<char> = Vec::new();
    let mut i: usize = 0;
    assert(t@.take(0) =~= Seq::<char>::empty());
    assert(vec_views(out@) =~= Seq::<Seq<char>>::empty());
    while i < t.len()
        invariant
            i <= t@.len(),
            i == 0 ==> cur@.len() == 0 && out@.len() == 0,
            forall|k: int| 0 <= k < out@.len() ==> (#[trigger] out@[k])@.len() > 0,
            (if cur@.len() == 0 {
                vec_views(out@)
            } else {
                vec_views(out@).push(cur@)
            }) == token_pieces(t@.take(i as int)),
            cur@.len() > 0 ==> !is_token_end(cur@.last()),
            i > 0 && cur@.len() == 0 ==> vec_views(out@).len() > 0 && is_token_end(
                vec_views(out@).last().last(),
            ),
        decreases t@.len() - i,
    {
        let ghost before = if cur@.len() == 0 {
            vec_views(out@)
        } else {
            vec_views(out@).push(cur@)
        };
        proof {
            assert(t@.take(i + 1).drop_last() =~= t@.take(i as int));
            assert(t@.take(i + 1).last() == t@[i as int]);
        }
        let ghost old_out = out@;
        let ghost old_cur = cur@;
        cur.push(t[i]);
        if is_token_end_exec(t[i]) {
            let piece = cur;
            proof {
                if old_cur.len() == 0 {
                    assert(piece@ =~= seq![t@[i as int]]);
                }
            }
            out.push(piece);
            cur = Vec::new();
            assert(vec_views(out@) =~= vec_views(old_out).push(piece@));
            proof {
                if old_cur.len() == 0 {
                    assert(vec_views(out@) =~= before.push(seq![t@[i as int]]));
                } else {
                    assert(vec_views(out@) =~= before.update(
                        before.len() - 1,
                        before.last().push(t@[i as int]),
                    ));
                }
            }
        } else {
            proof {
                if old_cur.len() == 0 {
                    assert(cur@ =~= seq![t@[i as int]]);
                    assert(vec_views(out@).push(cur@) =~= before.push(seq![t@[i as int]]));
                } else {
                    assert(vec_views(out@).push(cur@) =~= before.update(
                        before.len() - 1,
                        before.last().push(t@[i as int]),
                    ));
                }
            }
        }
        i += 1;
    }
    assert(t@.take(t@.len() as int) =~= t@);
    if cur.len() > 0 {
        let ghost old_out = out@;
        let last = cur;
        out.push(last);
        assert(vec_views(out@) =~= vec_views(old_out).push(last@));
    }
    out
}

fn punct_lead_stripped_exec(v: &Vec<char>) -> (r: Vec<char>)
    ensures
        r@ == punct_lead_stripped(v@),
{
    let mut i: usize = 0;
    assert(v@.skip(0) =~= v@);
    while i < v.len() && is_token_punct_exec(v[i])
        invariant
            i <= v@.len(),
            punct_lead_stripped(v@) == punct_lead_stripped(v@.skip(i as int)),
        decreases v@.len() - i,
    {
        assert(v@.skip(i as int).drop_first() =~= v@.skip(i + 1));
        i += 1;
    }
    let r = slice_chars(v, i, v.len());
    assert(r@ =~= v@.skip(i as int));
    r
}

fn punct_tail_stripped_exec(v: &Vec<char>) -> (r: Vec<char>)
    ensures
        r@ == punct_tail_stripped(v@),
{
    let mut j = v.len();
    assert(v@.take(j as int) =~= v@);
    while j > 0 && is_token_punct_exec(v[j - 1])
        invariant
            j <= v@.len(),
            punct_tail_stripped(v@) == punct_tail_stripped(v@.take(j as int)),
        decreases j,
    {
        assert(v@.take(j as int).drop_last() =~= v@.take(j - 1));
        j -= 1;
    }
    let r = slice_chars(v, 0, j);
    assert(r@ =~= v@.take(j as int));
    r
}

fn eq_lit(v: &Vec<char>, lit: &str) -> (b: bool)
    ensures
        b == (v@ == lit@),
{
    crate::text::chars_eq(v, &chars_of(lit))
}

fn token_style_exec(w: &Vec<char>) -> (st: SpanStyle)
    ensures
        st == token_style(w@),
{
    let t = punct_tail_stripped_exec(&punct_lead_stripped_exec(w));
    if is_file_path_exec(&t) {
        style_fg(ThemeColor::Success)
    } else if is_version_exec(&t) || is_metric_exec(&t) {
        style_fg_bold(ThemeColor::Warning)
    } else if has_prefix(&t, "http://") || has_prefix(&t, "https://") {
        SpanStyle { fg: Some(ThemeColor::Info), bg: None, bold: false, underlined: true, italic: false, dim: false }
    } else if eq_lit(&t, "Hello!") || eq_lit(&t, "Passed") || eq_lit(&t, "Success") || eq_lit(
        &t,
        "Correct",
    ) {
        style_fg(ThemeColor::Success)
    } else if eq_lit(&t, "Failed") || eq_lit(&t, "Error") || eq_lit(&t, "Wrong") {
        style_fg(ThemeColor::Destructive)
    } else {
        style_fg(ThemeColor::TextPrimary)
    }
}

/// Appends the highlighted spans of a non-empty plain text.
fn push_highlighted(t: &Vec<char>, spans: &mut Vec<StyledSpan>)
    ensures
        spans_view(final(spans)@) == spans_view(old(spans)@) + highlighted(t@),
{
    let pieces = token_pieces_exec(t);
    let ghost pv = vec_views(pieces@);
    let ghost start = spans_view(spans@);
    let mut k: usize = 0;
    while k < pieces.len()
        invariant
            k <= pieces@.len(),
            pv == vec_views(pieces@),
            pv == token_pieces(t@),
            spans_view(spans@) == start + pv.take(k as int).map_values(
                |w: Seq<char>| (w, token_style(w)),
            ),
        decreases pieces@.len() - k,
    {
        let ghost before = spans@;
        let st = token_style_exec(&pieces[k]);
        spans.push(span_from(&pieces[k], st));
        proof {
            assert(pv[k as int] == pieces@[k as int]@);
            assert(pv.take(k + 1).map_values(|w: Seq<char>| (w, token_style(w))) =~= pv.take(
                k as int,
            ).map_values(|w: Seq<char>| (w, token_style(w))).push((pv[k as int], token_style(pv[k as int]))));
            assert(spans_view(spans@) =~= spans_view(before).push((pv[k as int], token_style(pv[k as int]))));
        }
        k += 1;
    }
    assert(pv.take(pv.len() as int) =~= pv);
}

/// Appends the spans of the pending plain text, if any, and empties it.
fn flush_buf(buf: &mut Vec<char>, spans: &mut Vec<StyledSpan>)
    ensures
        spans_view(final(spans)@) == spans_view(old(spans)@) + flushed(old(buf)@),
        final(buf)@.len() == 0,
{
    if buf.len() > 0 {
        push_highlighted(buf, spans);
        *buf = Vec::new();
    } else {
        assert(spans_view(spans@) + flushed(buf@) =~= spans_view(spans@));
    }
}

/// Inline spans of a text (see `inline_spans`).
fn inline_chars(text: &Vec<char>) -> (r: Vec<StyledSpan>)
    ensures
        spans_view(r@) == inline_spans(text@, Seq::empty()),
{
    let mut spans: Vec<StyledSpan> = Vec::new();
    let mut buf: Vec<char> = Vec::new();
    let mut i: usize = 0;
    assert(text@.skip(0) =~= text@);
    assert(spans_view(spans@) =~= Seq::<(Seq<char>, SpanStyle)>::empty());
    while i < text.len()
        invariant
            i <= text@.len(),
            inline_spans(text@, Seq::empty()) == spans_view(spans@) + inline_spans(
                text@.skip(i as int),
                buf@,
            ),
        decreases text@.len() - i,
    {
        let ghost rem = text@.skip(i as int);
        assert(rem[0] == text@[i as int]);
        let rest = slice_chars(text, i, text.len());
        assert(rest@ =~= rem);
        if text[i] == '`' {
            let after = slice_chars(text, i + 1, text.len());
            assert(after@ =~= rem.skip(1));
            let tick: Vec<char> = vec!['`'];
            assert(tick@ =~= seq!['`']);
            match find_first_chars(&after, &tick) {
                Some(e) => {
                    let ghost before = spans_view(spans@);
                    let ghost b0 = buf@;
                    flush_buf(&mut buf, &mut spans);
                    let code = slice_chars(&after, 0, e);
                    assert(code@ =~= rem.subrange(1, 1 + e));
                    spans.push(span_from(&code, code_style_exec()));
                    assert(rem.skip(e + 2) =~= text@.skip(i + e + 2));
                    assert(spans_view(spans@) =~= before + flushed(b0) + seq![
                        (rem.subrange(1, 1 + e), code_style()),
                    ]);
                    assert(buf@ =~= Seq::<char>::empty());
                    assert(inline_spans(rem, b0) == flushed(b0) + seq![
                        (rem.subrange(1, 1 + e), code_style()),
                    ] + inline_spans(rem.skip(e + 2), Seq::empty()));
                    assert(spans_view(spans@) + inline_spans(text@.skip(i + e + 2), buf@) =~= before
                        + inline_spans(rem, b0));
                    i = i + e + 2;
                    continue;
                },
                None => {},
            }
        }
        if text.len() - i >= 2 && text[i] == '*' && text[i + 1] == '*' {
            let after = slice_chars(text, i + 2, text.len());
            assert(after@ =~= rem.skip(2));
            let stars: Vec<char> = vec!['*', '*'];
            assert(stars@ =~= seq!['*', '*']);
            assert(starts_with(rem, seq!['*', '*'])) by {
                assert(rem.take(2) =~= seq!['*', '*']);
            }
            match find_first_chars(&after, &stars) {
                Some(e) => {
                    let ghost before = spans_view(spans@);
                    let ghost b0 = buf@;
                    flush_buf(&mut buf, &mut spans);
                    let bold = slice_chars(&after, 0, e);
                    assert(bold@ =~= rem.subrange(2, 2 + e));
                    let st = bold_style_exec(&bold);
                    spans.push(span_from(&bold, st));
                    assert(rem.skip(e + 4) =~= text@.skip(i + e + 4));
                    assert(spans_view(spans@) =~= before + flushed(b0) + seq![
                        (rem.subrange(2, 2 + e), bold_style(rem.subrange(2, 2 + e))),
                    ]);
                    assert(buf@ =~= Seq::<char>::empty());
                    assert(inline_spans(rem, b0) == flushed(b0) + seq![
                        (rem.subrange(2, 2 + e), bold_style(rem.subrange(2, 2 + e))),
                    ] + inline_spans(rem.skip(e + 4), Seq::empty()));
                    assert(spans_view(spans@) + inline_spans(text@.skip(i + e + 4), buf@) =~= before
                        + inline_spans(rem, b0));
                    i = i + e + 4;
                    continue;
                },
                None => {},
            }
        } else {
            assert(!starts_with(rem, seq!['*', '*']));
        }
        if text[i] == '[' {
            match link_exec(&rest) {
                Some((lt, consumed)) => {
                    proof {
                        lemma_link_parts_bounds(rem);
                    }
                    let ghost before = spans_view(spans@);
                    let ghost b0 = buf@;
                    flush_buf(&mut buf, &mut spans);
                    spans.push(span_from(&lt, link_style_exec()));
                    assert(rem.skip(consumed as int) =~= text@.skip(i + consumed));
                    assert(spans_view(spans@) =~= before + flushed(b0) + seq![(lt@, link_style())]);
                    assert(buf@ =~= Seq::<char>::empty());
                    assert(spans_view(spans@) + inline_spans(text@.skip(i + consumed), buf@) =~= before
                        + inline_spans(rem, b0));
                    i = i + consumed;
                    continue;
                },
                None => {},
            }
        }
        let ghost b0 = buf@;
        buf.push(text[i]);
        assert(rem.drop_first() =~= text@.skip(i + 1));
        i += 1;
    }
    let ghost before = spans_view(spans@);
    let ghost b0 = buf@;
    flush_buf(&mut buf, &mut spans);
    assert(text@.skip(i as int) =~= Seq::<char>::empty());
    spans
}

fn code_style_exec() -> (s: SpanStyle)
    ensures
        s == code_style(),
{
    SpanStyle {
        fg: Some(ThemeColor::Info),
        bg: Some(ThemeColor::BgElevated),
        bold: true,
        underlined: false, italic: false, dim: false
    }
}

fn link_style_exec() -> (s: SpanStyle)
    ensures
        s == link_style(),
{
    SpanStyle { fg: Some(ThemeColor::Info), bg: None, bold: false, underlined: true, italic: false, dim: false }
}

fn bold_style_exec(b: &Vec<char>) -> (s: SpanStyle)
    ensures
        s == bold_style(b@),
{
    if b.len() >= 2 && b[0] == 'v' && '0' <= b[1] && b[1] <= '9' {
        style_fg_bold(ThemeColor::Warning)
    } else if has_prefix(b, "feat") || has_prefix(b, "fix") || has_prefix(b, "refactor") {
        style_fg_bold(ThemeColor::Info)
    } else {
        style_fg_bold(ThemeColor::TextPrimary)
    }
}

fn link_exec(rem: &Vec<char>) -> (r: Option<(Vec<char>, usize)>)
    ensures
        match r {
            Some((t, n)) => link_parts(rem@) == Some((t@, n as nat)),
            None => link_parts(rem@) is None,
        },
{
    if rem.len() == 0 || rem[0] != '[' {
        return None;
    }
    let after = slice_chars(rem, 1, rem.len());
    assert(after@ =~= rem@.skip(1));
    let close: Vec<char> = vec![']'];
    assert(close@ =~= seq![']']);
    match find_first_chars(&after, &close) {
        Some(b) => {
            let ab = slice_chars(&after, b + 1, after.len());
            assert(ab@ =~= after@.skip(b + 1));
            if ab.len() > 0 && ab[0] == '(' {
                let inner = slice_chars(&ab, 1, ab.len());
                assert(inner@ =~= ab@.skip(1));
                let paren: Vec<char> = vec![')'];
                assert(paren@ =~= seq![')']);
                match find_first_chars(&inner, &paren) {
                    Some(p) => {
                        let t = slice_chars(&after, 0, b);
                        assert(t@ =~= after@.take(b as int));
                        Some((t, 1 + b + 1 + 1 + p + 1))
                    },
                    None => None,
                }
            } else {
                None
            }
        },
        None => None,
    }
}


fn section_header_exec(line: &Vec<char>) -> (r: Option<Vec<char>>)
    ensures
        match r {
            Some(t) => section_header(line@) == Some(t@),
            None => section_header(line@) is None,
        },
{
    if utf8_shorter(line, 5) || !has_prefix(line, "**") {
        return None;
    }
    proof {
        reveal_strlit("**");
        reveal_strlit("**:");
    }
    let w = slice_chars(line, 2, line.len());
    assert(w@ =~= line@.skip(2));
    let stars = chars_of("**");
    if has_suffix(&w, "**:") {
        let inner = slice_chars(&w, 0, w.len() - 3);
        assert(inner@ =~= w@.take(w@.len() - 3));
        let t = trim_chars(&inner);
        if !chars_contains(&inner, &stars) && t.len() > 0 {
            let mut out = t;
            out.push(':');
            return Some(out);
        }
        None
    } else if has_suffix(&w, "**") {
        let inner = slice_chars(&w, 0, w.len() - 2);
        assert(inner@ =~= w@.take(w@.len() - 2));
        let t = trim_chars(&inner);
        if !chars_contains(&inner, &stars) && t.len() > 0 {
            return Some(t);
        }
        None
    } else {
        None
    }
}

fn numbered_item_exec(line: &Vec<char>) -> (r: Option<(Vec<char>, Vec<char>)>)
    ensures
        match r {
            Some((n, rest)) => numbered_item(line@) == Some((n@, rest@)),
            None => numbered_item(line@) is None,
        },
{
    let start = crate::text::skip_ws_forward(line, 0);
    let t = slice_chars(line, start, line.len());
    proof {
        crate::text::lemma_trim_start_skip(line@, start as int);
        if start < line@.len() {
            assert(line@.skip(start as int)[0] == line@[start as int]);
        }
        assert(t@ =~= line@.skip(start as int));
        assert(trim_start(t@) == t@);
    }
    let sep = chars_of(". ");
    proof {
        reveal_strlit(". ");
    }
    match find_first_chars(&t, &sep) {
        Some(d) => {
            let num = slice_chars(&t, 0, d);
            assert(num@ =~= t@.take(d as int));
            if num.len() > 0 && all_digits_exec(&num) {
                let rest = slice_chars(&t, d + 2, t.len());
                assert(rest@ =~= t@.skip(d + 2));
                Some((num, rest))
            } else {
                None
            }
        },
        None => None,
    }
}

fn trimmed_cells(line: &Vec<char>) -> (r: Vec<Vec<char>>)
    ensures
        vec_views(r@) == table_cells(line@),
{
    let inner = tail_stripped_exec(&lead_stripped_exec(line, '|'), '|');
    let parts = split_chars(&inner, '|');
    let ghost pv = vec_views(parts@);
    let mut out: Vec<Vec<char>> = Vec::new();
    let mut k: usize = 0;
    while k < parts.len()
        invariant
            k <= parts@.len(),
            pv == vec_views(parts@),
            pv == split_on(bars_trimmed(line@), '|'),
            vec_views(out@) == pv.take(k as int).map_values(|c: Seq<char>| trim(c)),
        decreases parts@.len() - k,
    {
        let ghost before = out@;
        out.push(trim_chars(&parts[k]));
        proof {
            assert(pv[k as int] == parts@[k as int]@);
            assert(vec_views(out@) =~= vec_views(before).push(trim(pv[k as int])));
            assert(pv.take(k + 1).map_values(|c: Seq<char>| trim(c)) =~= pv.take(k as int).map_values(
                |c: Seq<char>| trim(c),
            ).push(trim(pv[k as int])));
        }
        k += 1;
    }
    assert(pv.take(pv.len() as int) =~= pv);
    out
}

fn is_rule_cell_exec(c: &Vec<char>) -> (b: bool)
    ensures
        b == is_rule_cell(c@),
{
    if c.len() == 0 {
        return false;
    }
    let mut i: usize = 0;
    while i < c.len()
        invariant
            i <= c@.len(),
            forall|k: int| 0 <= k < i ==> (#[trigger] c@[k] == '-' || c@[k] == ':'),
        decreases c@.len() - i,
    {
        if c[i] != '-' && c[i] != ':' {
            return false;
        }
        i += 1;
    }
    true
}

fn push_span(spans: &mut Vec<StyledSpan>, text: &str, style: SpanStyle)
    ensures
        spans_view(final(spans)@) == spans_view(old(spans)@).push((text@, style)),
{
    let ghost before = spans@;
    spans.push(span_str(text, style));
    assert(spans_view(spans@) =~= spans_view(before).push((text@, style)));
}

fn append_spans(spans: &mut Vec<StyledSpan>, more: Vec<StyledSpan>)
    ensures
        spans_view(final(spans)@) == spans_view(old(spans)@) + spans_view(more@),
{
    let ghost before = spans@;
    let mut m = more;
    let ghost mv = m@;
    spans.append(&mut m);
    assert(spans@ =~= before + mv);
    assert(spans_view(spans@) =~= spans_view(before) + spans_view(mv));
}

fn table_row_exec(line: &Vec<char>) -> (r: Vec<StyledSpan>)
    ensures
        spans_view(r@) == table_row(line@),
{
    let cells = trimmed_cells(line);
    let ghost cv = vec_views(cells@);
    let mut all_rule = true;
    let mut k: usize = 0;
    while k < cells.len()
        invariant
            k <= cells@.len(),
            cv == vec_views(cells@),
            all_rule == forall|j: int| 0 <= j < k ==> is_rule_cell(#[trigger] cv[j]),
        decreases cells@.len() - k,
    {
        assert(cv[k as int] == cells@[k as int]@);
        let ok = is_rule_cell_exec(&cells[k]);
        all_rule = all_rule && ok;
        k += 1;
    }
    let border = style_fg(ThemeColor::Border);
    let mut spans: Vec<StyledSpan> = Vec::new();
    assert(spans_view(spans@) =~= Seq::<(Seq<char>, SpanStyle)>::empty());
    if all_rule {
        push_span(&mut spans, "├", border);
        let mut j: usize = 0;
        while j < cells.len()
            invariant
                j <= cells@.len(),
                border == fg(ThemeColor::Border),
                seq![("├"@, fg(ThemeColor::Border))] + rule_spans(cells@.len(), 0) == spans_view(
                    spans@,
                ) + rule_spans(cells@.len(), j as nat),
            decreases cells@.len() - j,
        {
            let ghost before = spans_view(spans@);
            if j > 0 {
                push_span(&mut spans, "┼", border);
            }
            push_span(&mut spans, "────────────────────", border);
            proof {
                let head: Seq<(Seq<char>, SpanStyle)> = if j > 0 {
                    seq![("┼"@, fg(ThemeColor::Border))]
                } else {
                    Seq::empty()
                };
                assert(spans_view(spans@) =~= before + head + seq![
                    ("────────────────────"@, fg(ThemeColor::Border)),
                ]);
                assert(spans_view(spans@) + rule_spans(cells@.len(), (j + 1) as nat) =~= before
                    + rule_spans(cells@.len(), j as nat));
            }
            j += 1;
        }
        push_span(&mut spans, "┤", border);
        assert(spans_view(spans@) =~= table_row(line@));
    } else {
        push_span(&mut spans, "│ ", border);
        let mut j: usize = 0;
        while j < cells.len()
            invariant
                j <= cells@.len(),
                cv == vec_views(cells@),
                border == fg(ThemeColor::Border),
                seq![("│ "@, fg(ThemeColor::Border))] + cells_spans(cv, 0) == spans_view(spans@)
                    + cells_spans(cv, j as nat),
            decreases cells@.len() - j,
        {
            let ghost before = spans_view(spans@);
            if j > 0 {
                push_span(&mut spans, " │ ", border);
            }
            let ghost mid = spans_view(spans@);
            assert(cv[j as int] == cells@[j as int]@);
            let cell_spans = inline_chars(&cells[j]);
            append_spans(&mut spans, cell_spans);
            proof {
                let head: Seq<(Seq<char>, SpanStyle)> = if j > 0 {
                    seq![(" │ "@, fg(ThemeColor::Border))]
                } else {
                    Seq::empty()
                };
                assert(mid =~= before + head);
                assert(spans_view(spans@) + cells_spans(cv, (j + 1) as nat) =~= before + cells_spans(
                    cv,
                    j as nat,
                ));
            }
            j += 1;
        }
        push_span(&mut spans, " │", border);
        assert(spans_view(spans@) =~= table_row(line@));
    }
    spans
}

fn prefixed_exec(prefix: &[char], style: SpanStyle, rest: &Vec<char>) -> (r: Vec<StyledSpan>)
    ensures
        spans_view(r@) == prefixed(prefix@, style, rest@),
{
    let mut spans: Vec<StyledSpan> = Vec::new();
    let ghost e = spans@;
    spans.push(span_from(prefix, style));
    assert(spans_view(spans@) =~= seq![(prefix@, style)]);
    append_spans(&mut spans, inline_chars(rest));
    spans
}

fn strip_prefix_exec(line: &Vec<char>, p: &str) -> (r: Option<Vec<char>>)
    ensures
        match r {
            Some(rest) => starts_with(line@, p@) && rest@ == line@.skip(p@.len() as int),
            None => !starts_with(line@, p@),
        },
{
    let pv = chars_of(p);
    if chars_starts_with(line, &pv) {
        let rest = slice_chars(line, pv.len(), line.len());
        assert(rest@ =~= line@.skip(p@.len() as int));
        Some(rest)
    } else {
        None
    }
}

fn strip_any_exec(line: &Vec<char>, a: &str, b: &str, c: &str) -> (r: Option<Vec<char>>)
    ensures
        match r {
            Some(rest) => strip_any(line@, a@, b@, c@) == Some(rest@),
            None => strip_any(line@, a@, b@, c@) is None,
        },
{
    match strip_prefix_exec(line, a) {
        Some(r) => Some(r),
        None => match strip_prefix_exec(line, b) {
            Some(r) => Some(r),
            None => strip_prefix_exec(line, c),
        },
    }
}

fn one_span_line(text: &[char], style: SpanStyle) -> (r: Vec<StyledSpan>)
    ensures
        spans_view(r@) == seq![(text@, style)],
{
    let mut spans: Vec<StyledSpan> = Vec::new();
    spans.push(span_from(text, style));
    assert(spans_view(spans@) =~= seq![(text@, style)]);
    spans
}

fn text_line_exec(line: &Vec<char>) -> (r: Vec<StyledSpan>)
    ensures
        spans_view(r@) == text_line(line@),
{
    proof {
        reveal_strlit("#### ");
        reveal_strlit("### ");
        reveal_strlit("## ");
        reveal_strlit("# ");
    }
    if line.len() == 0 {
        assert(line@ =~= Seq::<char>::empty());
        return one_span_line(line, SpanStyle { fg: None, bg: None, bold: false, underlined: false, italic: false, dim: false });
    }
    if line[0] == '|' && line[line.len() - 1] == '|' && line.len() >= 2 {
        return table_row_exec(line);
    }
    match strip_prefix_exec(line, "#### ") {
        Some(rest) => {
            return prefixed_exec(&chars_of("#### "), style_fg_bold(ThemeColor::Info), &rest);
        },
        None => {},
    }
    match strip_prefix_exec(line, "### ") {
        Some(rest) => {
            return prefixed_exec(&chars_of("### "), style_fg_bold(ThemeColor::Highlight), &rest);
        },
        None => {},
    }
    match strip_prefix_exec(line, "## ") {
        Some(rest) => {
            return prefixed_exec(&chars_of("## "), style_fg_bold(ThemeColor::BrandAccent), &rest);
        },
        None => {},
    }
    match strip_prefix_exec(line, "# ") {
        Some(rest) => {
            return prefixed_exec(&chars_of("# "), style_fg_bold(ThemeColor::BrandAccent), &rest);
        },
        None => {},
    }
    match section_header_exec(line) {
        Some(title) => {
            return one_span_line(&title, style_fg_bold(ThemeColor::Highlight));
        },
        None => {},
    }
    match strip_any_exec(line, "  - ", "  * ", "  • ") {
        Some(rest) => {
            return prefixed_exec(&chars_of("    - "), style_fg(ThemeColor::Muted), &rest);
        },
        None => {},
    }
    match strip_any_exec(line, "- ", "* ", "• ") {
        Some(rest) => {
            return prefixed_exec(&chars_of("• "), style_fg(ThemeColor::BrandAccent), &rest);
        },
        None => {},
    }
    match numbered_item_exec(line) {
        Some((num, rest)) => {
            let mut p = num;
            extend_chars(&mut p, &chars_of(". "));
            return prefixed_exec(&p, style_fg_bold(ThemeColor::BrandAccent), &rest);
        },
        None => {},
    }
    if eq_lit(line, "---") || eq_lit(line, "***") || eq_lit(line, "___") {
        return one_span_line(
            &chars_of("────────────────────────────────────────────────────"),
            style_fg(ThemeColor::Border),
        );
    }
    inline_chars(line)
}

impl MarkdownRenderer {
    /// Renders markdown text into styled lines.
    pub fn render(text: &str) -> (r: Vec<StyledLine>)
        ensures
            lines_view(r@) == rendered(crate::text::text_lines(text@), crate::text::text_lines(text@).len()).0,
    {
        let src = crate::text::str_lines(text);
        let ghost ls = vec_views(src@);
        let mut lines: Vec<StyledLine> = Vec::new();
        let mut in_code = false;
        let mut i: usize = 0;
        let border = style_fg(ThemeColor::Border);
        assert(lines_view(lines@) =~= Seq::<LineView>::empty());
        while i < src.len()
            invariant
                i <= src@.len(),
                ls == vec_views(src@),
                border == fg(ThemeColor::Border),
                (lines_view(lines@), in_code) == rendered(ls, i as nat),
            decreases src@.len() - i,
        {
            let raw = &src[i];
            assert(ls[i as int] == raw@);
            let line = trim_end_chars(raw);
            let ghost before = lines@;
            proof {
                reveal_strlit("```");
            }
            if has_prefix(&line, "```") {
                if in_code {
                    in_code = false;
                    lines.push(
                        line_from(
                            one_span_line(&chars_of("  └────────────────────────────────"), border),
                        ),
                    );
                } else {
                    in_code = true;
                    let lang = trim_chars(&slice_chars(&line, 3, line.len()));
                    assert(slice_chars_view(line@, line@.len() as int) == line@);
                    let header: Vec<char> = if lang.len() == 0 {
                        chars_of("  ┌─ code ────────────────────────")
                    } else {
                        let mut h = chars_of("  ┌─ ");
                        extend_chars(&mut h, &lang);
                        extend_chars(&mut h, &chars_of(" ────────────────────────"));
                        h
                    };
                    assert(line@.subrange(3, line@.len() as int) =~= line@.skip(3));
                    assert(header@ =~= fence_header(trim(line@.skip(3))));
                    lines.push(line_from(one_span_line(&header, border)));
                }
            } else if in_code {
                let mut spans: Vec<StyledSpan> = Vec::new();
                assert(spans_view(spans@) =~= Seq::<(Seq<char>, SpanStyle)>::empty());
                push_span(&mut spans, "  │ ", border);
                let ghost mid = spans@;
                spans.push(span_from(raw, code_text_style_exec()));
                assert(spans_view(spans@) =~= spans_view(mid).push((raw@, code_text_style())));
                assert(spans_view(spans@) =~= seq![("  │ "@, fg(ThemeColor::Border)), (raw@, code_text_style())]);
                lines.push(line_from(spans));
            } else {
                lines.push(line_from(text_line_exec(&line)));
            }
            proof {
                assert(lines_view(lines@) =~= lines_view(before).push(line_view(lines@.last())));
            }
            i += 1;
        }
        lines
    }

    /// Parses inline Markdown styling (bold, code, paths, URLs, metrics) into spans.
    pub fn parse_inline(text: &str) -> (r: Vec<StyledSpan>)
        ensures
            spans_view(r@) == inline_spans(text@, Seq::empty()),
    {
        inline_chars(&chars_of(text))
    }
}

fn code_text_style_exec() -> (s: SpanStyle)
    ensures
        s == code_text_style(),
{
    SpanStyle {
        fg: Some(ThemeColor::TextPrimary),
        bg: Some(ThemeColor::BgElevated),
        bold: false,
        underlined: false, italic: false, dim: false
    }
}

} // verus!
