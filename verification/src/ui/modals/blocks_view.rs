//! Content of the Components tab of the blocks warehouse modal as styled lines: the search
//! line, the component list, the selected component's metadata and its code preview.

use vstd::prelude::*;
use vstd::utf8::*;
use vstd::string::StringSliceAdditionalSpecFns;
use crate::text::{chars_of, decimal, push_char, push_str, str_lines, string_from_chars, text_lines, u64_to_decimal, vec_views};
use crate::tools::{concat2, concat3};
use crate::ui::modals::blocks::{code_line_spans, style_code_line};
use crate::ui::modals::command_catalog::{pad_left, pad_left_exec, pad_right, pad_right_exec, scroll_offset_spec};
use crate::ui::styled::{
    fg, fg_bold, line_from, line_of, line_view, lines_view, span_str, span_view, style_fg,
    style_fg_bold, SpanStyle, StyledLine, StyledSpan, ThemeColor,
};

verus! {

/// A component of the block store, as the Components tab shows it.
#[derive(Debug, Clone)]
pub struct ComponentCard {
    pub name: String,
    pub category: String,
    pub framework: String,
    pub version: String,
    pub description: String,
    pub dependencies: Vec<String>,
    pub tags: Vec<String>,
    pub code: String,
}

/// The search line: the query with a bar cursor, or a hint while it is empty.
pub open spec fn components_search_spec(query: Seq<char>) -> Seq<(Seq<char>, SpanStyle)> {
    seq![
        (" 🔍"@, fg(ThemeColor::BrandAccent)),
        if query.len() == 0 {
            (" Type to filter..."@, fg(ThemeColor::Muted))
        } else {
            (" "@ + query + "▌"@, fg_bold(ThemeColor::TextPrimary))
        },
    ]
}

/// Title of the list: the number of matching components.
pub open spec fn components_title_spec(n: nat) -> Seq<char> {
    " Components ("@ + decimal(n) + ") "@
}

/// A component name as listed: names over 18 bytes keep their first 17 bytes and `…`.
pub open spec fn short_name(name: Seq<char>) -> Seq<char> {
    if encode_utf8(name).len() > 18 {
        decode_utf8(encode_utf8(name).take(17)) + "…"@
    } else {
        name
    }
}

/// The cut of `short_name` falls on a character boundary (or no cut is made), and the
/// name's byte length fits in `usize`.
pub open spec fn short_name_ok(name: Seq<char>) -> bool {
    &&& encode_utf8(name).len() <= usize::MAX
    &&& encode_utf8(name).len() > 18 ==> is_char_boundary(encode_utf8(name), 17)
}

/// Style of a list row: highlighted on the border colour and bold when selected.
pub open spec fn component_row_style(selected: bool) -> SpanStyle {
    if selected {
        SpanStyle {
            fg: Some(ThemeColor::Highlight),
            bg: Some(ThemeColor::Border),
            bold: true,
            underlined: false,
            italic: false, dim: false,
        }
    } else {
        fg(ThemeColor::TextPrimary)
    }
}

/// A list row: marker, name in 19 columns, category badge in 9 columns, framework badge.
pub open spec fn component_row(c: ComponentCard, selected: bool) -> Seq<(Seq<char>, SpanStyle)> {
    seq![
        (if selected {
            "▸ "@
        } else {
            "  "@
        }, component_row_style(selected)),
        (pad_right(short_name(c.name@), 19) + " "@, component_row_style(selected)),
        (pad_right("["@ + c.category@ + "]"@, 9) + " "@, fg(ThemeColor::Info)),
        ("["@ + c.framework@ + "]"@, fg(ThemeColor::Success)),
    ]
}

/// Rows for list positions `off..k`; a position whose component the store did not give
/// back has no row.
pub open spec fn component_rows(cards: Seq<Option<ComponentCard>>, sel: nat, off: int, k: int) -> Seq<
    Seq<(Seq<char>, SpanStyle)>,
>
    decreases k - off,
{
    if k <= off {
        seq![]
    } else {
        component_rows(cards, sel, off, k - 1) + match cards[k - 1] {
            Some(c) => seq![component_row(c, k - 1 == sel)],
            None => seq![],
        }
    }
}

/// First and past-the-last list positions shown in `rows` rows around `sel`.
pub open spec fn component_window(sel: nat, rows: nat, n: nat) -> (nat, nat) {
    let off = scroll_offset_spec(sel, rows);
    (off, if off + rows < n {
        off + rows
    } else {
        n
    })
}

/// The component list in `rows` rows; `cards[i]` is what the store holds for the i-th
/// matching identifier.
pub open spec fn component_list_spec(cards: Seq<Option<ComponentCard>>, sel: nat, rows: nat) -> Seq<
    Seq<(Seq<char>, SpanStyle)>,
> {
    if cards.len() == 0 {
        seq![seq![("  (No components found)"@, fg(ThemeColor::Muted))]]
    } else {
        let w = component_window(sel, rows, cards.len());
        component_rows(cards, sel, w.0 as int, w.1 as int)
    }
}

/// Texts joined with `sep`.
pub open spec fn join_sep(xs: Seq<String>, sep: Seq<char>) -> Seq<char>
    decreases xs.len(),
{
    if xs.len() == 0 {
        seq![]
    } else if xs.len() == 1 {
        xs[0]@
    } else {
        join_sep(xs.drop_last(), sep) + sep + xs.last()@
    }
}

/// A list of names as shown: `none` when empty, else joined with `, `.
pub open spec fn names_text(xs: Seq<String>) -> Seq<char> {
    if xs.len() == 0 {
        "none"@
    } else {
        join_sep(xs, ", "@)
    }
}

/// The metadata of a component: name, version, category and framework; description;
/// dependencies and tags.
pub open spec fn component_meta_spec(c: ComponentCard) -> Seq<Seq<(Seq<char>, SpanStyle)>> {
    seq![
        seq![
            (c.name@ + " "@, fg_bold(ThemeColor::BrandAccent)),
            ("(v"@ + c.version@ + ") "@, fg(ThemeColor::Muted)),
            ("• Category: "@ + c.category@ + " "@, fg(ThemeColor::Info)),
            ("• Framework: "@ + c.framework@, fg(ThemeColor::Success)),
        ],
        seq![("Description: "@, fg(ThemeColor::Muted)), (c.description@, fg(ThemeColor::TextPrimary))],
        seq![
            ("Dependencies: "@, fg(ThemeColor::Muted)),
            (names_text(c.dependencies@), fg(ThemeColor::Warning)),
            ("   Tags: "@, fg(ThemeColor::Muted)),
            (names_text(c.tags@), fg(ThemeColor::Highlight)),
        ],
    ]
}

/// First code line shown: the scroll offset, at most the last line.
pub open spec fn preview_offset(n: nat, scroll: nat) -> nat {
    if n == 0 {
        0
    } else if scroll < n - 1 {
        scroll
    } else {
        (n - 1) as nat
    }
}

/// The code preview in `height` rows: from the preview offset on, each line numbered from
/// 1 in 3 columns, then highlighted.
pub open spec fn code_preview_spec(code: Seq<char>, scroll: nat, height: nat) -> Seq<
    Seq<(Seq<char>, SpanStyle)>,
> {
    let ls = text_lines(code);
    let off = preview_offset(ls.len(), scroll);
    let shown = if height < ls.len() - off {
        height
    } else {
        (ls.len() - off) as nat
    };
    Seq::new(
        shown,
        |i: int|
            seq![(pad_left(decimal((off + i + 1) as nat), 3) + " │ "@, fg(ThemeColor::Muted))]
                + code_line_spans(ls[off + i]),
    )
}

/// Title of the code preview.
pub open spec fn code_preview_title_spec(scroll: nat) -> Seq<char> {
    " Code Preview (lines "@ + decimal(scroll + 1) + "+) "@
}

fn decimal_string(n: usize) -> (r: String)
    ensures
        r@ == decimal(n as nat),
{
    string_from_chars(&u64_to_decimal(n as u64))
}

/// The search line of the Components tab.
pub fn components_search_line(query: &str) -> (r: StyledLine)
    ensures
        line_view(r) == components_search_spec(query@),
{
    let mut v: Vec<StyledSpan> = Vec::new();
    v.push(span_str(" 🔍", style_fg(ThemeColor::BrandAccent)));
    if chars_of(query).len() == 0 {
        v.push(span_str(" Type to filter...", style_fg(ThemeColor::Muted)));
    } else {
        v.push(span_str(concat3(" ", query, "▌").as_str(), style_fg_bold(ThemeColor::TextPrimary)));
    }
    let l = line_from(v);
    assert(line_view(l) =~= components_search_spec(query@));
    l
}

/// Title of the component list for `n` matches.
pub fn components_title(n: usize) -> (r: String)
    ensures
        r@ == components_title_spec(n as nat),
{
    concat3(" Components (", decimal_string(n).as_str(), ") ")
}

fn short_name_exec(name: &str) -> (r: String)
    requires
        short_name_ok(name@),
    ensures
        r@ == short_name(name@),
{
    if name.len() <= 18 {
        return name.to_owned();
    }
    let (head, _) = name.split_at(17);
    proof {
        encode_utf8_decode_utf8(head@);
        assert(head.spec_bytes() =~= encode_utf8(name@).take(17));
    }
    let mut r = String::new();
    push_str(&mut r, head);
    push_char(&mut r, '…');
    proof {
        reveal_strlit("…");
        assert(r@ =~= head@ + "…"@);
    }
    r
}

fn row_style_exec(selected: bool) -> (r: SpanStyle)
    ensures
        r == component_row_style(selected),
{
    if selected {
        SpanStyle {
            fg: Some(ThemeColor::Highlight),
            bg: Some(ThemeColor::Border),
            bold: true,
            underlined: false,
            italic: false, dim: false,
        }
    } else {
        style_fg(ThemeColor::TextPrimary)
    }
}

fn component_row_line(c: &ComponentCard, selected: bool) -> (l: StyledLine)
    requires
        short_name_ok(c.name@),
    ensures
        line_view(l) == component_row(*c, selected),
{
    let st = row_style_exec(selected);
    let name = concat2(pad_right_exec(short_name_exec(c.name.as_str()).as_str(), 19).as_str(), " ");
    let cat = concat2(
        pad_right_exec(concat3("[", c.category.as_str(), "]").as_str(), 9).as_str(),
        " ",
    );
    let mut v: Vec<StyledSpan> = Vec::new();
    v.push(span_str(
        if selected {
            "▸ "
        } else {
            "  "
        },
        st,
    ));
    v.push(span_str(name.as_str(), st));
    v.push(span_str(cat.as_str(), style_fg(ThemeColor::Info)));
    v.push(span_str(concat3("[", c.framework.as_str(), "]").as_str(), style_fg(ThemeColor::Success)));
    let l = line_from(v);
    assert(line_view(l) =~= component_row(*c, selected));
    l
}

/// The component list in `rows` rows around `selected`; `cards[i]` is what the block store
/// holds for the i-th matching identifier. The list must reach the first shown row, and the
/// names shown are cut at a byte offset that must fall on a character boundary.
pub fn component_list_lines(cards: &Vec<Option<ComponentCard>>, selected: usize, rows: usize) -> (r: Vec<StyledLine>)
    requires
        cards@.len() > 0 ==> scroll_offset_spec(selected as nat, rows as nat) <= cards@.len(),
        scroll_offset_spec(selected as nat, rows as nat) + rows <= usize::MAX,
        forall|i: int|
            component_window(selected as nat, rows as nat, cards@.len()).0 <= i
                < component_window(selected as nat, rows as nat, cards@.len()).1
                ==> (#[trigger] cards@[i] matches Some(c) ==> short_name_ok(c.name@)),
    ensures
        lines_view(r@) == component_list_spec(cards@, selected as nat, rows as nat),
{
    let n = cards.len();
    let mut out: Vec<StyledLine> = Vec::new();
    if n == 0 {
        out.push(line_of(span_str("  (No components found)", style_fg(ThemeColor::Muted))));
        assert(lines_view(out@) =~= component_list_spec(cards@, selected as nat, rows as nat));
        return out;
    }
    let off = crate::ui::layout_utils::compute_scroll_offset(selected, rows);
    let end = if off + rows < n {
        off + rows
    } else {
        n
    };
    let ghost w = component_window(selected as nat, rows as nat, cards@.len());
    assert(w == (off as nat, end as nat));
    let mut k: usize = off;
    while k < end
        invariant
            off <= k <= end <= n,
            n == cards@.len(),
            w == (off as nat, end as nat),
            forall|i: int|
                w.0 <= i < w.1 ==> (#[trigger] cards@[i] matches Some(c) ==> short_name_ok(c.name@)),
            lines_view(out@) == component_rows(cards@, selected as nat, off as int, k as int),
        decreases end - k,
    {
        let ghost before = out@;
        match &cards[k] {
            Some(c) => {
                assert(cards@[k as int] matches Some(c) ==> short_name_ok(c.name@));
                let l = component_row_line(c, k == selected);
                out.push(l);
                assert(out@ =~= before.push(l));
                assert(lines_view(out@) =~= lines_view(before).push(line_view(l)));
            },
            None => {},
        }
        proof {
            assert(lines_view(out@) =~= component_rows(
                cards@,
                selected as nat,
                off as int,
                k + 1,
            ));
        }
        k += 1;
    }
    out
}

/// The texts of `xs` joined with `sep`.
pub fn join_sep_exec(xs: &Vec<String>, sep: &str) -> (r: String)
    ensures
        r@ == join_sep(xs@, sep@),
{
    let mut r = String::new();
    let mut i: usize = 0;
    while i < xs.len()
        invariant
            i <= xs@.len(),
            r@ == join_sep(xs@.take(i as int), sep@),
        decreases xs@.len() - i,
    {
        proof {
            assert(xs@.take(i + 1).drop_last() =~= xs@.take(i as int));
            assert(xs@.take(i + 1).last() == xs@[i as int]);
        }
        if i > 0 {
            push_str(&mut r, sep);
        }
        push_str(&mut r, xs[i].as_str());
        i += 1;
    }
    assert(xs@.take(xs@.len() as int) =~= xs@);
    r
}

fn names_text_exec(xs: &Vec<String>) -> (r: String)
    ensures
        r@ == names_text(xs@),
{
    if xs.len() == 0 {
        "none".to_owned()
    } else {
        join_sep_exec(xs, ", ")
    }
}

/// The metadata lines of a component.
pub fn component_meta_lines(c: &ComponentCard) -> (r: Vec<StyledLine>)
    ensures
        lines_view(r@) == component_meta_spec(*c),
{
    let mut a: Vec<StyledSpan> = Vec::new();
    a.push(span_str(concat2(c.name.as_str(), " ").as_str(), style_fg_bold(ThemeColor::BrandAccent)));
    a.push(span_str(concat3("(v", c.version.as_str(), ") ").as_str(), style_fg(ThemeColor::Muted)));
    a.push(span_str(concat3("• Category: ", c.category.as_str(), " ").as_str(), style_fg(ThemeColor::Info)));
    a.push(span_str(concat2("• Framework: ", c.framework.as_str()).as_str(), style_fg(ThemeColor::Success)));
    let la = line_from(a);
    assert(line_view(la) =~= component_meta_spec(*c)[0]);
    let mut b: Vec<StyledSpan> = Vec::new();
    b.push(span_str("Description: ", style_fg(ThemeColor::Muted)));
    b.push(span_str(c.description.as_str(), style_fg(ThemeColor::TextPrimary)));
    let lb = line_from(b);
    assert(line_view(lb) =~= component_meta_spec(*c)[1]);
    let mut d: Vec<StyledSpan> = Vec::new();
    d.push(span_str("Dependencies: ", style_fg(ThemeColor::Muted)));
    d.push(span_str(names_text_exec(&c.dependencies).as_str(), style_fg(ThemeColor::Warning)));
    d.push(span_str("   Tags: ", style_fg(ThemeColor::Muted)));
    d.push(span_str(names_text_exec(&c.tags).as_str(), style_fg(ThemeColor::Highlight)));
    let ld = line_from(d);
    assert(line_view(ld) =~= component_meta_spec(*c)[2]);
    let mut out: Vec<StyledLine> = Vec::new();
    out.push(la);
    out.push(lb);
    out.push(ld);
    assert(lines_view(out@) =~= component_meta_spec(*c));
    out
}

/// The code preview of `code` in `height` rows, scrolled to line `scroll` (0-based).
pub fn code_preview_lines(code: &str, scroll: usize, height: usize) -> (r: Vec<StyledLine>)
    ensures
        lines_view(r@) == code_preview_spec(code@, scroll as nat, height as nat),
{
    let ls = str_lines(code);
    let ghost lv = text_lines(code@);
    assert(vec_views(ls@) == lv);
    let n = ls.len();
    let off: usize = if n == 0 {
        0
    } else if scroll < n - 1 {
        scroll
    } else {
        n - 1
    };
    let shown: usize = if height < n - off {
        height
    } else {
        n - off
    };
    let mut out: Vec<StyledLine> = Vec::new();
    let mut i: usize = 0;
    while i < shown
        invariant
            i <= shown,
            off + shown <= n,
            n == ls@.len(),
            vec_views(ls@) == lv,
            lv == text_lines(code@),
            off == preview_offset(n as nat, scroll as nat),
            lines_view(out@) == Seq::new(
                i as nat,
                |j: int|
                    seq![(pad_left(decimal((off + j + 1) as nat), 3) + " │ "@, fg(ThemeColor::Muted))]
                        + code_line_spans(lv[off + j]),
            ),
        decreases shown - i,
    {
        let line = string_from_chars(&ls[off + i]);
        assert(line@ == lv[off + i]);
        let num = concat2(pad_left_exec(decimal_string(off + i + 1).as_str(), 3).as_str(), " │ ");
        let mut spans = style_code_line(line.as_str());
        let ghost code_view = spans@.map_values(|x: StyledSpan| span_view(x));
        let num_span = span_str(num.as_str(), style_fg(ThemeColor::Muted));
        let ghost old_spans = spans@;
        spans.insert(0, num_span);
        proof {
            assert(spans@ =~= seq![num_span] + old_spans);
            assert(spans@.map_values(|x: StyledSpan| span_view(x)) =~= seq![span_view(num_span)]
                + code_view);
        }
        let ghost before = out@;
        let l = line_from(spans);
        out.push(l);
        proof {
            assert(out@ =~= before.push(l));
            assert(lines_view(out@) =~= lines_view(before).push(line_view(l)));
        }
        i += 1;
    }
    out
}

/// Title of the code preview scrolled to line `scroll` (0-based).
pub fn code_preview_title(scroll: usize) -> (r: String)
    requires
        scroll < usize::MAX,
    ensures
        r@ == code_preview_title_spec(scroll as nat),
{
    concat3(" Code Preview (lines ", decimal_string(scroll + 1).as_str(), "+) ")
}

/// The text shown when no component is selected.
pub fn no_component_line() -> (r: StyledLine)
    ensures
        line_view(r) == seq![(" No component selected."@, fg(ThemeColor::Muted))],
{
    line_of(span_str(" No component selected.", style_fg(ThemeColor::Muted)))
}

} // verus!
