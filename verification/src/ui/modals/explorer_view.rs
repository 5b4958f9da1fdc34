//! Content of the code explorer modal as styled lines: the filter line, the symbol list and
//! the selected symbol's details with its four tabs.

use vstd::prelude::*;
use crate::records::{CallSite, CodeExploreMatch};
use crate::text::{
    chars_of, decimal, str_lines, string_from_chars, text_lines, trim, trim_chars,
    u64_to_decimal, vec_views,
};
use crate::tools::{concat2, concat3};
use crate::ui::modals::command_catalog::{
    blank_line, blank_line_exec, pad_left, pad_left_exec, pad_right, pad_right_exec,
    scroll_offset_spec,
};
use crate::ui::styled::{
    fg, fg_bold, line_from, line_of, line_view, lines_view, push_line, span_str, style_fg,
    style_fg_bold, SpanStyle, StyledLine, StyledSpan, ThemeColor,
};

verus! {

/// The filter line: the filter text after its prompt, with a block cursor.
pub open spec fn explorer_search_spec(filter: Seq<char>) -> Seq<(Seq<char>, SpanStyle)> {
    seq![(" Filter symbols/layers: "@ + filter + "█"@, fg(ThemeColor::TextPrimary))]
}

/// Title of the symbol list.
pub open spec fn explorer_list_title_spec(n: nat) -> Seq<char> {
    " Symbols ("@ + decimal(n) + ") "@
}

/// Rows shown of the symbol list in a box `height` rows high: two less, at least one.
pub open spec fn explorer_rows(height: nat) -> nat {
    if height > 3 {
        (height - 2) as nat
    } else {
        1
    }
}

/// First and past-the-last list positions shown.
pub open spec fn explorer_window(sel: nat, height: nat, n: nat) -> (nat, nat) {
    let off = scroll_offset_spec(sel, explorer_rows(height));
    (off, if off + explorer_rows(height) < n {
        off + explorer_rows(height)
    } else if off < n {
        n
    } else {
        off
    })
}

/// A list row: the layer badge in `badge_cols` columns, the symbol name (in the selection
/// colours when selected) and its kind.
pub open spec fn explorer_row(s: CodeExploreMatch, selected: bool, badge_cols: nat) -> Seq<
    (Seq<char>, SpanStyle),
> {
    seq![
        (pad_right(s.layer_badge@, badge_cols) + " "@, fg(ThemeColor::BrandAccent)),
        (s.symbol_name@, if selected {
            fg_bold(ThemeColor::BgPrimary)
        } else {
            fg_bold(ThemeColor::TextPrimary)
        }),
        (" ["@ + s.kind@ + "]"@, fg(ThemeColor::Muted)),
    ]
}

/// The visible rows of the symbol list; the selected row is drawn on the accent colour.
pub open spec fn explorer_list_spec(
    symbols: Seq<CodeExploreMatch>,
    filtered: Seq<usize>,
    sel: nat,
    height: nat,
    badge_cols: nat,
) -> Seq<Seq<(Seq<char>, SpanStyle)>> {
    let w = explorer_window(sel, height, filtered.len());
    Seq::new(
        (w.1 - w.0) as nat,
        |k: int| explorer_row(symbols[filtered[w.0 + k] as int], w.0 + k == sel, badge_cols),
    )
}

/// A call site: its arrow, the function name and where it is.
pub open spec fn call_line(c: CallSite, arrow: Seq<char>, arrow_color: ThemeColor) -> Seq<
    (Seq<char>, SpanStyle),
> {
    seq![
        (arrow, fg(arrow_color)),
        (c.name@, fg_bold(ThemeColor::TextPrimary)),
        (" in "@ + c.file_path@ + ":"@ + decimal(c.line as nat), fg(ThemeColor::Muted)),
    ]
}

/// Title of detail tab `i` of a symbol.
pub open spec fn explorer_tab_title(s: CodeExploreMatch, i: int) -> Seq<char> {
    if i == 0 {
        "[ 1. Source Definition ]"@
    } else if i == 1 {
        "[ 2. Callers ("@ + decimal(s.callers@.len()) + ") ]"@
    } else if i == 2 {
        "[ 3. Callees ("@ + decimal(s.callees@.len()) + ") ]"@
    } else {
        "[ 4. Blast Radius ("@ + decimal(s.blast_radius_files@.len()) + ") ]"@
    }
}

/// Style of a detail tab: accent, bold and underlined when active, else muted.
pub open spec fn explorer_tab_style(active: bool) -> SpanStyle {
    if active {
        SpanStyle {
            fg: Some(ThemeColor::BrandAccent),
            bg: None,
            bold: true,
            underlined: true,
            italic: false, dim: false,
        }
    } else {
        fg(ThemeColor::Muted)
    }
}

/// The source lines of a symbol, numbered from the first line of its definition.
pub open spec fn source_lines(src: Seq<char>, start: nat) -> Seq<Seq<(Seq<char>, SpanStyle)>> {
    let ls = text_lines(src);
    Seq::new(
        ls.len(),
        |i: int|
            seq![
                (pad_left(decimal((start + i) as nat), 4) + " │ "@, fg(ThemeColor::Muted)),
                (ls[i], fg(ThemeColor::TextPrimary)),
            ],
    )
}

/// The active tab's content: the source, the callers, the callees or the dependent files.
pub open spec fn explorer_tab_content(s: CodeExploreMatch, tab: nat) -> Seq<Seq<(Seq<char>, SpanStyle)>> {
    if tab == 0 {
        match s.source_code {
            Some(src) => source_lines(src@, s.line_start as nat),
            None => seq![seq![(" (Source code not loaded) "@, fg(ThemeColor::Muted))]],
        }
    } else if tab == 1 {
        if s.callers@.len() == 0 {
            seq![
                seq![
                    (
                        " No incoming callers found (Root entrypoint / public symbol)."@,
                        fg(ThemeColor::Muted),
                    ),
                ],
            ]
        } else {
            Seq::new(s.callers@.len(), |i: int| call_line(s.callers@[i], "  ← "@, ThemeColor::Success))
        }
    } else if tab == 2 {
        if s.callees@.len() == 0 {
            seq![seq![(" No outgoing calls found (Leaf function)."@, fg(ThemeColor::Muted))]]
        } else {
            Seq::new(
                s.callees@.len(),
                |i: int| call_line(s.callees@[i], "  → "@, ThemeColor::BrandAccent),
            )
        }
    } else {
        if s.blast_radius_files@.len() == 0 {
            seq![
                seq![
                    (
                        " Isolated module (No direct downstream dependents)."@,
                        fg(ThemeColor::Success),
                    ),
                ],
            ]
        } else {
            seq![seq![("Files directly dependent on this symbol:"@, fg(ThemeColor::Warning))]]
                + Seq::new(
                s.blast_radius_files@.len(),
                |i: int|
                    seq![
                        ("  • "@, fg(ThemeColor::Destructive)),
                        (s.blast_radius_files@[i]@, fg(ThemeColor::TextPrimary)),
                    ],
            )
        }
    }
}

/// The header of a symbol's details: badge, name, kind and location; signature.
pub open spec fn details_head(s: CodeExploreMatch) -> Seq<Seq<(Seq<char>, SpanStyle)>> {
    seq![
        seq![
            (s.layer_badge@ + " "@, fg_bold(ThemeColor::BrandAccent)),
            (s.symbol_name@, fg_bold(ThemeColor::BrandAccent)),
            (
                " ("@ + s.kind@ + ") in "@ + s.file_path@ + ":"@ + decimal(s.line_start as nat)
                    + "-"@ + decimal(s.line_end as nat),
                fg(ThemeColor::Muted),
            ),
        ],
        seq![("Signature: "@, fg(ThemeColor::Warning)), (s.signature@, fg(ThemeColor::TextPrimary))],
    ]
}

/// The trimmed doc comment, if the symbol has one.
pub open spec fn doc_lines(s: CodeExploreMatch) -> Seq<Seq<(Seq<char>, SpanStyle)>> {
    match s.doc_comment {
        Some(d) => seq![seq![("Doc: "@, fg(ThemeColor::Muted)), (trim(d@), fg(ThemeColor::Muted))]],
        None => seq![],
    }
}

/// The tab bar: each tab's title followed by a space.
pub open spec fn tab_bar_line(s: CodeExploreMatch, tab: nat) -> Seq<(Seq<char>, SpanStyle)> {
    Seq::new(4, |i: int| (explorer_tab_title(s, i) + " "@, explorer_tab_style(i == tab)))
}

/// The tab bar between blank lines.
pub open spec fn details_tab_bar(s: CodeExploreMatch, tab: nat) -> Seq<Seq<(Seq<char>, SpanStyle)>> {
    seq![blank_line(), tab_bar_line(s, tab), blank_line()]
}

/// The details of a symbol: header, signature, doc comment if any, the tab bar and the
/// active tab's content.
pub open spec fn symbol_details_spec(s: CodeExploreMatch, tab: nat) -> Seq<Seq<(Seq<char>, SpanStyle)>> {
    details_head(s) + doc_lines(s) + details_tab_bar(s, tab) + explorer_tab_content(s, tab)
}

/// The detail pane: the selected symbol's details, or a note when nothing matches.
pub open spec fn explorer_details_spec(
    symbols: Seq<CodeExploreMatch>,
    filtered: Seq<usize>,
    sel: nat,
    tab: nat,
) -> Seq<Seq<(Seq<char>, SpanStyle)>> {
    if sel < filtered.len() {
        symbol_details_spec(symbols[filtered[sel as int] as int], tab)
    } else {
        seq![seq![(" No matching AST symbols found. "@, fg(ThemeColor::Muted))]]
    }
}

fn decimal_string(n: usize) -> (r: String)
    ensures
        r@ == decimal(n as nat),
{
    string_from_chars(&u64_to_decimal(n as u64))
}

/// The filter line.
pub fn explorer_search_line(filter: &str) -> (r: StyledLine)
    ensures
        line_view(r) == explorer_search_spec(filter@),
{
    let l = line_of(span_str(
        concat3(" Filter symbols/layers: ", filter, "█").as_str(),
        style_fg(ThemeColor::TextPrimary),
    ));
    assert(line_view(l) =~= explorer_search_spec(filter@));
    l
}

/// Title of the symbol list for `n` matches.
pub fn explorer_list_title(n: usize) -> (r: String)
    ensures
        r@ == explorer_list_title_spec(n as nat),
{
    concat3(" Symbols (", decimal_string(n).as_str(), ") ")
}

fn explorer_row_line(s: &CodeExploreMatch, selected: bool, badge_cols: usize) -> (l: StyledLine)
    ensures
        line_view(l) == explorer_row(*s, selected, badge_cols as nat),
{
    let mut v: Vec<StyledSpan> = Vec::new();
    v.push(span_str(
        concat2(pad_right_exec(s.layer_badge.as_str(), badge_cols).as_str(), " ").as_str(),
        style_fg(ThemeColor::BrandAccent),
    ));
    v.push(span_str(
        s.symbol_name.as_str(),
        if selected {
            style_fg_bold(ThemeColor::BgPrimary)
        } else {
            style_fg_bold(ThemeColor::TextPrimary)
        },
    ));
    v.push(span_str(concat3(" [", s.kind.as_str(), "]").as_str(), style_fg(ThemeColor::Muted)));
    let l = line_from(v);
    assert(line_view(l) =~= explorer_row(*s, selected, badge_cols as nat));
    l
}

/// The visible rows of the symbol list in a box `height` rows high, with the layer badges
/// padded to `badge_cols` columns, and the position among them of the selected row, if
/// shown. The listed indices must point into `symbols`.
pub fn explorer_list_lines(
    symbols: &Vec<CodeExploreMatch>,
    filtered: &Vec<usize>,
    sel: usize,
    height: usize,
    badge_cols: usize,
) -> (r: (Vec<StyledLine>, Option<usize>))
    requires
        scroll_offset_spec(sel as nat, explorer_rows(height as nat)) + explorer_rows(height as nat)
            <= usize::MAX,
        forall|k: int|
            explorer_window(sel as nat, height as nat, filtered@.len()).0 <= k
                < explorer_window(sel as nat, height as nat, filtered@.len()).1
                ==> #[trigger] filtered@[k] < symbols@.len(),
    ensures
        lines_view(r.0@) == explorer_list_spec(
            symbols@,
            filtered@,
            sel as nat,
            height as nat,
            badge_cols as nat,
        ),
        r.1 == (if explorer_window(sel as nat, height as nat, filtered@.len()).0 <= sel
            < explorer_window(sel as nat, height as nat, filtered@.len()).1 {
            Some((sel - explorer_window(sel as nat, height as nat, filtered@.len()).0) as usize)
        } else {
            None::<usize>
        }),
{
    let rows: usize = if height > 3 {
        height - 2
    } else {
        1
    };
    let off = crate::ui::layout_utils::compute_scroll_offset(sel, rows);
    let n = filtered.len();
    let end = if off + rows < n {
        off + rows
    } else if off < n {
        n
    } else {
        off
    };
    let ghost w = explorer_window(sel as nat, height as nat, filtered@.len());
    assert(w == (off as nat, end as nat));
    let mut out: Vec<StyledLine> = Vec::new();
    let mut k: usize = off;
    while k < end
        invariant
            off <= k <= end <= n || (k == off && off == end),
            n == filtered@.len(),
            w == (off as nat, end as nat),
            forall|j: int| w.0 <= j < w.1 ==> #[trigger] filtered@[j] < symbols@.len(),
            lines_view(out@) == Seq::new(
                (k - off) as nat,
                |j: int|
                    explorer_row(
                        symbols@[filtered@[off + j] as int],
                        off + j == sel,
                        badge_cols as nat,
                    ),
            ),
        decreases end - k,
    {
        assert(filtered@[k as int] < symbols@.len());
        let l = explorer_row_line(&symbols[filtered[k]], k == sel, badge_cols);
        push_line(&mut out, l);
        k += 1;
        assert(lines_view(out@) =~= Seq::new(
            (k - off) as nat,
            |j: int|
                explorer_row(symbols@[filtered@[off + j] as int], off + j == sel, badge_cols as nat),
        ));
    }
    let hl = if off <= sel && sel < end {
        Some(sel - off)
    } else {
        None
    };
    (out, hl)
}

fn tab_style_exec(active: bool) -> (s: SpanStyle)
    ensures
        s == explorer_tab_style(active),
{
    if active {
        SpanStyle {
            fg: Some(ThemeColor::BrandAccent),
            bg: None,
            bold: true,
            underlined: true,
            italic: false, dim: false,
        }
    } else {
        style_fg(ThemeColor::Muted)
    }
}

fn push_calls(out: &mut Vec<StyledLine>, cs: &Vec<CallSite>, arrow: &str, color: ThemeColor)
    ensures
        lines_view(final(out)@) == lines_view(old(out)@) + Seq::new(
            cs@.len(),
            |i: int| call_line(cs@[i], arrow@, color),
        ),
{
    let ghost head = lines_view(out@);
    let mut i: usize = 0;
    while i < cs.len()
        invariant
            i <= cs@.len(),
            lines_view(out@) == head + Seq::new(i as nat, |j: int| call_line(cs@[j], arrow@, color)),
        decreases cs@.len() - i,
    {
        let c = &cs[i];
        let mut v: Vec<StyledSpan> = Vec::new();
        v.push(span_str(arrow, style_fg(color)));
        v.push(span_str(c.name.as_str(), style_fg_bold(ThemeColor::TextPrimary)));
        v.push(span_str(
            concat3(
                concat2(" in ", c.file_path.as_str()).as_str(),
                ":",
                decimal_string(c.line).as_str(),
            ).as_str(),
            style_fg(ThemeColor::Muted),
        ));
        let l = line_from(v);
        assert(line_view(l) =~= call_line(cs@[i as int], arrow@, color));
        push_line(out, l);
        i += 1;
        assert(lines_view(out@) =~= head + Seq::new(i as nat, |j: int| call_line(cs@[j], arrow@, color)));
    }
}

fn push_tab_content(out: &mut Vec<StyledLine>, s: &CodeExploreMatch, tab: usize)
    requires
        tab == 0 ==> (s.source_code matches Some(src) ==> s.line_start + text_lines(src@).len()
            <= usize::MAX),
    ensures
        lines_view(final(out)@) == lines_view(old(out)@) + explorer_tab_content(*s, tab as nat),
{
    let ghost head = lines_view(out@);
    if tab == 0 {
        match &s.source_code {
            Some(src) => {
                let ls = str_lines(src.as_str());
                let ghost lv = text_lines(src@);
                let start = s.line_start;
                let mut i: usize = 0;
                while i < ls.len()
                    invariant
                        i <= ls@.len(),
                        vec_views(ls@) == lv,
                        start + lv.len() <= usize::MAX,
                        lines_view(out@) == head + Seq::new(
                            i as nat,
                            |j: int|
                                seq![
                                    (pad_left(decimal((start + j) as nat), 4) + " │ "@, fg(ThemeColor::Muted)),
                                    (lv[j], fg(ThemeColor::TextPrimary)),
                                ],
                        ),
                    decreases ls@.len() - i,
                {
                    let num = concat2(pad_left_exec(decimal_string(start + i).as_str(), 4).as_str(), " │ ");
                    let text = string_from_chars(&ls[i]);
                    assert(text@ == lv[i as int]);
                    let mut v: Vec<StyledSpan> = Vec::new();
                    v.push(span_str(num.as_str(), style_fg(ThemeColor::Muted)));
                    v.push(span_str(text.as_str(), style_fg(ThemeColor::TextPrimary)));
                    let l = line_from(v);
                    assert(line_view(l) =~= seq![
                        (pad_left(decimal((start + i) as nat), 4) + " │ "@, fg(ThemeColor::Muted)),
                        (lv[i as int], fg(ThemeColor::TextPrimary)),
                    ]);
                    push_line(out, l);
                    i += 1;
                    assert(lines_view(out@) =~= head + Seq::new(
                        i as nat,
                        |j: int|
                            seq![
                                (pad_left(decimal((start + j) as nat), 4) + " │ "@, fg(ThemeColor::Muted)),
                                (lv[j], fg(ThemeColor::TextPrimary)),
                            ],
                    ));
                }
            },
            None => {
                push_line(out, line_of(span_str(" (Source code not loaded) ", style_fg(ThemeColor::Muted))));
            },
        }
    } else if tab == 1 {
        if s.callers.len() == 0 {
            push_line(out, line_of(span_str(
                " No incoming callers found (Root entrypoint / public symbol).",
                style_fg(ThemeColor::Muted),
            )));
        } else {
            push_calls(out, &s.callers, "  ← ", ThemeColor::Success);
        }
    } else if tab == 2 {
        if s.callees.len() == 0 {
            push_line(out, line_of(span_str(
                " No outgoing calls found (Leaf function).",
                style_fg(ThemeColor::Muted),
            )));
        } else {
            push_calls(out, &s.callees, "  → ", ThemeColor::BrandAccent);
        }
    } else {
        if s.blast_radius_files.len() == 0 {
            push_line(out, line_of(span_str(
                " Isolated module (No direct downstream dependents).",
                style_fg(ThemeColor::Success),
            )));
        } else {
            push_line(out, line_of(span_str(
                "Files directly dependent on this symbol:",
                style_fg(ThemeColor::Warning),
            )));
            let ghost mid = lines_view(out@);
            let fs = &s.blast_radius_files;
            let mut i: usize = 0;
            while i < fs.len()
                invariant
                    i <= fs@.len(),
                    lines_view(out@) == mid + Seq::new(
                        i as nat,
                        |j: int|
                            seq![
                                ("  • "@, fg(ThemeColor::Destructive)),
                                (fs@[j]@, fg(ThemeColor::TextPrimary)),
                            ],
                    ),
                decreases fs@.len() - i,
            {
                let mut v: Vec<StyledSpan> = Vec::new();
                v.push(span_str("  • ", style_fg(ThemeColor::Destructive)));
                v.push(span_str(fs[i].as_str(), style_fg(ThemeColor::TextPrimary)));
                let l = line_from(v);
                assert(line_view(l) =~= seq![
                    ("  • "@, fg(ThemeColor::Destructive)),
                    (fs@[i as int]@, fg(ThemeColor::TextPrimary)),
                ]);
                push_line(out, l);
                i += 1;
                assert(lines_view(out@) =~= mid + Seq::new(
                    i as nat,
                    |j: int|
                        seq![
                            ("  • "@, fg(ThemeColor::Destructive)),
                            (fs@[j]@, fg(ThemeColor::TextPrimary)),
                        ],
                ));
            }
        }
    }
    assert(lines_view(out@) =~= head + explorer_tab_content(*s, tab as nat));
}

/// The details of one symbol with detail tab `tab` active. Line numbers of its source must
/// fit in `usize`.
pub fn symbol_details_lines(s: &CodeExploreMatch, tab: usize) -> (r: Vec<StyledLine>)
    requires
        tab == 0 ==> (s.source_code matches Some(src) ==> s.line_start + text_lines(src@).len()
            <= usize::MAX),
    ensures
        lines_view(r@) == symbol_details_spec(*s, tab as nat),
{
    let mut out: Vec<StyledLine> = Vec::new();
    let where_ = concat3(
        concat3(" (", s.kind.as_str(), ") in ").as_str(),
        concat2(s.file_path.as_str(), ":").as_str(),
        concat3(decimal_string(s.line_start).as_str(), "-", decimal_string(s.line_end).as_str()).as_str(),
    );
    assert(where_@ =~= " ("@ + s.kind@ + ") in "@ + s.file_path@ + ":"@ + decimal(
        s.line_start as nat,
    ) + "-"@ + decimal(s.line_end as nat));
    let mut h: Vec<StyledSpan> = Vec::new();
    h.push(span_str(concat2(s.layer_badge.as_str(), " ").as_str(), style_fg_bold(ThemeColor::BrandAccent)));
    h.push(span_str(s.symbol_name.as_str(), style_fg_bold(ThemeColor::BrandAccent)));
    h.push(span_str(where_.as_str(), style_fg(ThemeColor::Muted)));
    let lh = line_from(h);
    assert(line_view(lh) =~= details_head(*s)[0]);
    push_line(&mut out, lh);
    let mut g: Vec<StyledSpan> = Vec::new();
    g.push(span_str("Signature: ", style_fg(ThemeColor::Warning)));
    g.push(span_str(s.signature.as_str(), style_fg(ThemeColor::TextPrimary)));
    let lg = line_from(g);
    assert(line_view(lg) =~= details_head(*s)[1]);
    push_line(&mut out, lg);
    let ghost after_sig = lines_view(out@);
    match &s.doc_comment {
        Some(d) => {
            let t = string_from_chars(&trim_chars(&chars_of(d.as_str())));
            let mut dv: Vec<StyledSpan> = Vec::new();
            dv.push(span_str("Doc: ", style_fg(ThemeColor::Muted)));
            dv.push(span_str(t.as_str(), style_fg(ThemeColor::Muted)));
            let ld = line_from(dv);
            assert(line_view(ld) =~= seq![("Doc: "@, fg(ThemeColor::Muted)), (trim(d@), fg(ThemeColor::Muted))]);
            push_line(&mut out, ld);
            assert(lines_view(out@) =~= after_sig + doc_lines(*s));
        },
        None => {
            assert(lines_view(out@) =~= after_sig + doc_lines(*s));
        },
    }
    let ghost after_doc = lines_view(out@);
    push_line(&mut out, blank_line_exec());
    let mut tv: Vec<StyledSpan> = Vec::new();
    tv.push(span_str(concat2(explorer_tab0().as_str(), " ").as_str(), tab_style_exec(tab == 0)));
    tv.push(span_str(
        concat2(concat3("[ 2. Callers (", decimal_string(s.callers.len()).as_str(), ") ]").as_str(), " ").as_str(),
        tab_style_exec(tab == 1),
    ));
    tv.push(span_str(
        concat2(concat3("[ 3. Callees (", decimal_string(s.callees.len()).as_str(), ") ]").as_str(), " ").as_str(),
        tab_style_exec(tab == 2),
    ));
    tv.push(span_str(
        concat2(
            concat3("[ 4. Blast Radius (", decimal_string(s.blast_radius_files.len()).as_str(), ") ]").as_str(),
            " ",
        ).as_str(),
        tab_style_exec(tab == 3),
    ));
    let lt = line_from(tv);
    assert(line_view(lt) =~= tab_bar_line(*s, tab as nat));
    push_line(&mut out, lt);
    push_line(&mut out, blank_line_exec());
    let ghost before_content = lines_view(out@);
    proof {
        assert(after_sig =~= details_head(*s));
        assert(before_content =~= after_doc + details_tab_bar(*s, tab as nat));
        assert(before_content =~= details_head(*s) + doc_lines(*s) + details_tab_bar(*s, tab as nat));
    }
    push_tab_content(&mut out, s, tab);
    assert(lines_view(out@) =~= symbol_details_spec(*s, tab as nat));
    out
}

fn explorer_tab0() -> (r: String)
    ensures
        r@ == "[ 1. Source Definition ]"@,
{
    "[ 1. Source Definition ]".to_owned()
}

/// The detail pane for the selected symbol with detail tab `tab` active.
pub fn explorer_details_lines(
    symbols: &Vec<CodeExploreMatch>,
    filtered: &Vec<usize>,
    sel: usize,
    tab: usize,
) -> (r: Vec<StyledLine>)
    requires
        sel < filtered@.len() ==> filtered@[sel as int] < symbols@.len(),
        sel < filtered@.len() && tab == 0 ==> (symbols@[filtered@[sel as int] as int].source_code matches Some(
            src,
        ) ==> symbols@[filtered@[sel as int] as int].line_start + text_lines(src@).len() <= usize::MAX),
    ensures
        lines_view(r@) == explorer_details_spec(symbols@, filtered@, sel as nat, tab as nat),
{
    if sel < filtered.len() {
        symbol_details_lines(&symbols[filtered[sel]], tab)
    } else {
        let mut out: Vec<StyledLine> = Vec::new();
        push_line(&mut out, line_of(span_str(" No matching AST symbols found. ", style_fg(ThemeColor::Muted))));
        assert(lines_view(out@) =~= explorer_details_spec(symbols@, filtered@, sel as nat, tab as nat));
        out
    }
}

} // verus!
