//! Content of the workspace dialogs as styled lines: the index analysis offered at start,
//! the drift notice when files changed since the last index, and the notice that the
//! active provider has no key yet. Each shows a header and numbered choices.

use vstd::prelude::*;
use crate::text::{decimal, string_from_chars, u64_to_decimal};
use crate::tools::{concat2, concat3};
use crate::ui::modals::command_catalog::{pad_left, pad_left_exec};
use crate::ui::styled::{
    fg, fg_bold, line_from, line_view, lines_view, plain_style, push_line, span_str,
    style_fg, style_fg_bold, style_plain, SpanStyle, StyledLine, StyledSpan, ThemeColor,
};

verus! {

/// A choice: its numbered tag, its description and its key, right-aligned in eight
/// columns; the selected one in the accent colour behind a `❯`.
pub open spec fn choice_row(tag: Seq<char>, desc: Seq<char>, key: Seq<char>, selected: bool) -> Seq<
    (Seq<char>, SpanStyle),
> {
    if selected {
        seq![
            ("  ❯ "@, fg_bold(ThemeColor::BrandAccent)),
            (tag, fg_bold(ThemeColor::BrandAccent)),
            ("  ("@ + desc + ")"@, fg(ThemeColor::TextPrimary)),
            ("  "@ + pad_left(key, 8), fg_bold(ThemeColor::BrandAccent)),
        ]
    } else {
        seq![
            ("    "@, plain_style()),
            (tag, fg(ThemeColor::TextPrimary)),
            ("  ("@ + desc + ")"@, fg(ThemeColor::Muted)),
            ("  "@ + pad_left(key, 8), fg(ThemeColor::Muted)),
        ]
    }
}

/// The rows of a list of choices.
pub open spec fn choice_rows(opts: Seq<(Seq<char>, Seq<char>, Seq<char>)>, sel: nat) -> Seq<
    Seq<(Seq<char>, SpanStyle)>,
> {
    Seq::new(opts.len(), |i: int| choice_row(opts[i].0, opts[i].1, opts[i].2, i == sel))
}

/// The choices of the index analysis, which depend on whether an index exists.
pub open spec fn analysis_options(indexed: bool) -> Seq<(Seq<char>, Seq<char>, Seq<char>)> {
    if !indexed {
        seq![
            ("[1] ⚡ Quick Index"@, "AST symbols & PageRank graph"@, "[ENTER]"@),
            ("[2] 🧠 Deep Scan"@, "Symbol graph & architecture scan"@, "[2]"@),
            ("[3] ⏩ Skip"@, "Instant lightweight chat"@, "[ESC]"@),
        ]
    } else {
        seq![
            ("[1] ⚡ Incremental Sync"@, "Scan modified files only (~5ms)"@, "[ENTER]"@),
            ("[2] 🔄 Full Rebuild"@, "Cold re-index from scratch"@, "[2]"@),
            ("[3] 🗺️ View Repo Map"@, "Display AST centrality hierarchy"@, "[3]"@),
            ("[4] ⏩ Close"@, "Resume chat without re-indexing"@, "[ESC]"@),
        ]
    }
}

/// The index analysis: the workspace and its cache state, then the choices.
pub open spec fn analysis_spec(path: Seq<char>, indexed: bool, syms: nat, files: nat, sel: nat) -> Seq<
    Seq<(Seq<char>, SpanStyle)>,
> {
    let status = if indexed {
        ("Indexed ("@ + decimal(syms) + " syms, "@ + decimal(files) + " files)"@, fg_bold(ThemeColor::Success))
    } else {
        ("Unindexed"@, fg_bold(ThemeColor::Warning))
    };
    seq![
        seq![
            (" 📁 "@, plain_style()),
            (path, fg(ThemeColor::TextPrimary)),
            ("  │  🔍 Cache: "@, fg(ThemeColor::Muted)),
            status,
        ],
    ] + choice_rows(analysis_options(indexed), sel)
}

/// The choices offered on drift.
pub open spec fn drift_options() -> Seq<(Seq<char>, Seq<char>, Seq<char>)> {
    seq![
        ("[1] ⚡ Incremental Sync"@, "Update modified files only (~15ms)"@, "[ENTER]"@),
        ("[2] 🔄 Full Rebuild"@, "Cold re-index entire project"@, "[2]"@),
        ("[3] ⏩ Skip"@, "Use existing cached graph"@, "[ESC]"@),
    ]
}

/// The drift notice: the workspace and the changed, added and removed file counts, then
/// the choices.
pub open spec fn drift_spec(path: Seq<char>, modified: nat, added: nat, removed: nat, sel: nat) -> Seq<
    Seq<(Seq<char>, SpanStyle)>,
> {
    seq![
        seq![
            (" 📁 "@, plain_style()),
            (path, fg(ThemeColor::TextPrimary)),
            ("  │  ⚠️ Drift: "@, fg(ThemeColor::Muted)),
            (
                decimal(modified + added + removed) + " changed ("@ + decimal(modified) + " mod, "@
                    + decimal(added) + " add, "@ + decimal(removed) + " del)"@,
                fg_bold(ThemeColor::Warning),
            ),
        ],
    ] + choice_rows(drift_options(), sel)
}

/// The choices when no key is configured.
pub open spec fn setup_options() -> Seq<(Seq<char>, Seq<char>, Seq<char>)> {
    seq![
        ("[1] ⚡ Run Interactive Setup"@, "Configure provider & API key"@, "[ENTER]"@),
        ("[2] ◄ Cancel Prompt"@, "Return to prompt editor"@, "[ESC]"@),
    ]
}

/// The missing-key notice: the provider and its status, the prompt waiting to be sent,
/// then the choices.
pub open spec fn setup_spec(provider: Seq<char>, prompt: Seq<char>, sel: nat) -> Seq<Seq<(Seq<char>, SpanStyle)>> {
    seq![
        seq![
            (" 🤖 Active Provider: "@, plain_style()),
            (provider, fg_bold(ThemeColor::BrandAccent)),
            ("  │  Status: "@, fg(ThemeColor::Muted)),
            ("No API key configured"@, fg_bold(ThemeColor::Warning)),
        ],
        seq![(" 💬 Pending Prompt:  "@, plain_style()), ("\""@ + prompt + "\""@, fg(ThemeColor::TextPrimary))],
    ] + choice_rows(setup_options(), sel)
}

/// Title of the index analysis, with the program's version.
pub open spec fn analysis_title_spec(version: Seq<char>) -> Seq<char> {
    " ✨ minicode v"@ + version + " "@
}

/// Title of the drift notice, with the program's version.
pub open spec fn drift_title_spec(version: Seq<char>) -> Seq<char> {
    " ⚠️ Workspace Drift Detected — minicode v"@ + version + " "@
}

fn decimal_string(n: usize) -> (r: String)
    ensures
        r@ == decimal(n as nat),
{
    string_from_chars(&u64_to_decimal(n as u64))
}

fn four_spans(a: (&str, SpanStyle), b: (&str, SpanStyle), c: (&str, SpanStyle), d: (&str, SpanStyle)) -> (l: StyledLine)
    ensures
        line_view(l) == seq![(a.0@, a.1), (b.0@, b.1), (c.0@, c.1), (d.0@, d.1)],
{
    let mut v: Vec<StyledSpan> = Vec::new();
    v.push(span_str(a.0, a.1));
    v.push(span_str(b.0, b.1));
    v.push(span_str(c.0, c.1));
    v.push(span_str(d.0, d.1));
    let l = line_from(v);
    assert(line_view(l) =~= seq![(a.0@, a.1), (b.0@, b.1), (c.0@, c.1), (d.0@, d.1)]);
    l
}

fn choice_row_exec(tag: &str, desc: &str, key: &str, selected: bool) -> (l: StyledLine)
    ensures
        line_view(l) == choice_row(tag@, desc@, key@, selected),
{
    let d = concat3("  (", desc, ")");
    let k = concat2("  ", pad_left_exec(key, 8).as_str());
    if selected {
        four_spans(
            ("  ❯ ", style_fg_bold(ThemeColor::BrandAccent)),
            (tag, style_fg_bold(ThemeColor::BrandAccent)),
            (d.as_str(), style_fg(ThemeColor::TextPrimary)),
            (k.as_str(), style_fg_bold(ThemeColor::BrandAccent)),
        )
    } else {
        four_spans(
            ("    ", style_plain()),
            (tag, style_fg(ThemeColor::TextPrimary)),
            (d.as_str(), style_fg(ThemeColor::Muted)),
            (k.as_str(), style_fg(ThemeColor::Muted)),
        )
    }
}

/// Lines of the index analysis: the header, then one row per choice.
pub fn workspace_analysis_lines(path: &str, indexed: bool, syms: usize, files: usize, sel: usize) -> (r: Vec<StyledLine>)
    ensures
        lines_view(r@) == analysis_spec(path@, indexed, syms as nat, files as nat, sel as nat),
{
    let mut out: Vec<StyledLine> = Vec::new();
    let status = if indexed {
        let a = concat3("Indexed (", decimal_string(syms).as_str(), " syms, ");
        concat3(a.as_str(), decimal_string(files).as_str(), " files)")
    } else {
        "Unindexed".to_owned()
    };
    let status_style = if indexed { style_fg_bold(ThemeColor::Success) } else { style_fg_bold(ThemeColor::Warning) };
    push_line(
        &mut out,
        four_spans(
            (" 📁 ", style_plain()),
            (path, style_fg(ThemeColor::TextPrimary)),
            ("  │  🔍 Cache: ", style_fg(ThemeColor::Muted)),
            (status.as_str(), status_style),
        ),
    );
    if !indexed {
        push_line(&mut out, choice_row_exec("[1] ⚡ Quick Index", "AST symbols & PageRank graph", "[ENTER]", sel == 0));
        push_line(&mut out, choice_row_exec("[2] 🧠 Deep Scan", "Symbol graph & architecture scan", "[2]", sel == 1));
        push_line(&mut out, choice_row_exec("[3] ⏩ Skip", "Instant lightweight chat", "[ESC]", sel == 2));
    } else {
        push_line(&mut out, choice_row_exec("[1] ⚡ Incremental Sync", "Scan modified files only (~5ms)", "[ENTER]", sel == 0));
        push_line(&mut out, choice_row_exec("[2] 🔄 Full Rebuild", "Cold re-index from scratch", "[2]", sel == 1));
        push_line(&mut out, choice_row_exec("[3] 🗺️ View Repo Map", "Display AST centrality hierarchy", "[3]", sel == 2));
        push_line(&mut out, choice_row_exec("[4] ⏩ Close", "Resume chat without re-indexing", "[ESC]", sel == 3));
    }
    assert(lines_view(out@) =~= analysis_spec(path@, indexed, syms as nat, files as nat, sel as nat));
    out
}

/// Lines of the drift notice: the header, then one row per choice. The three counts must
/// have a sum that fits in `usize`.
pub fn workspace_drift_lines(path: &str, modified: usize, added: usize, removed: usize, sel: usize) -> (r: Vec<StyledLine>)
    requires
        modified + added + removed <= usize::MAX,
    ensures
        lines_view(r@) == drift_spec(path@, modified as nat, added as nat, removed as nat, sel as nat),
{
    let mut out: Vec<StyledLine> = Vec::new();
    let total = modified + added + removed;
    let a = concat3(decimal_string(total).as_str(), " changed (", decimal_string(modified).as_str());
    let b = concat3(a.as_str(), " mod, ", decimal_string(added).as_str());
    let c = concat3(b.as_str(), " add, ", decimal_string(removed).as_str());
    let detail = concat2(c.as_str(), " del)");
    push_line(
        &mut out,
        four_spans(
            (" 📁 ", style_plain()),
            (path, style_fg(ThemeColor::TextPrimary)),
            ("  │  ⚠️ Drift: ", style_fg(ThemeColor::Muted)),
            (detail.as_str(), style_fg_bold(ThemeColor::Warning)),
        ),
    );
    push_line(&mut out, choice_row_exec("[1] ⚡ Incremental Sync", "Update modified files only (~15ms)", "[ENTER]", sel == 0));
    push_line(&mut out, choice_row_exec("[2] 🔄 Full Rebuild", "Cold re-index entire project", "[2]", sel == 1));
    push_line(&mut out, choice_row_exec("[3] ⏩ Skip", "Use existing cached graph", "[ESC]", sel == 2));
    assert(lines_view(out@) =~= drift_spec(path@, modified as nat, added as nat, removed as nat, sel as nat));
    out
}

/// Lines of the missing-key notice: provider, pending prompt, then one row per choice.
pub fn provider_setup_lines(provider: &str, prompt: &str, sel: usize) -> (r: Vec<StyledLine>)
    ensures
        lines_view(r@) == setup_spec(provider@, prompt@, sel as nat),
{
    let mut out: Vec<StyledLine> = Vec::new();
    push_line(
        &mut out,
        four_spans(
            (" 🤖 Active Provider: ", style_plain()),
            (provider, style_fg_bold(ThemeColor::BrandAccent)),
            ("  │  Status: ", style_fg(ThemeColor::Muted)),
            ("No API key configured", style_fg_bold(ThemeColor::Warning)),
        ),
    );
    let mut v: Vec<StyledSpan> = Vec::new();
    v.push(span_str(" 💬 Pending Prompt:  ", style_plain()));
    v.push(span_str(concat3("\"", prompt, "\"").as_str(), style_fg(ThemeColor::TextPrimary)));
    let l = line_from(v);
    assert(line_view(l) =~= seq![(" 💬 Pending Prompt:  "@, plain_style()), ("\""@ + prompt@ + "\""@, fg(ThemeColor::TextPrimary))]);
    push_line(&mut out, l);
    push_line(&mut out, choice_row_exec("[1] ⚡ Run Interactive Setup", "Configure provider & API key", "[ENTER]", sel == 0));
    push_line(&mut out, choice_row_exec("[2] ◄ Cancel Prompt", "Return to prompt editor", "[ESC]", sel == 1));
    assert(lines_view(out@) =~= setup_spec(provider@, prompt@, sel as nat));
    out
}

/// Title of the index analysis.
pub fn analysis_title(version: &str) -> (r: String)
    ensures
        r@ == analysis_title_spec(version@),
{
    concat3(" ✨ minicode v", version, " ")
}

/// Title of the drift notice.
pub fn drift_title(version: &str) -> (r: String)
    ensures
        r@ == drift_title_spec(version@),
{
    concat3(" ⚠️ Workspace Drift Detected — minicode v", version, " ")
}

} // verus!
