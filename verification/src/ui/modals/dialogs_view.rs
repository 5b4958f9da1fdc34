//! Content of the small dialogs as styled lines: the exit confirmation, the response
//! streaming picker and the approval of a configuration change.

use vstd::prelude::*;
use crate::records::ConfigChangeProposal;
use crate::text::{ascii_lower_chars, ascii_lower_seq, chars_eq, chars_of, decimal, string_from_chars, u64_to_decimal};
use crate::tools::{concat2, concat3};
use crate::ui::approval_view::{repeat_char, repeat_char_exec};
use crate::ui::modal_view::picked_style;
use crate::ui::modals::command_catalog::{pad_right, pad_right_exec};
use crate::ui::styled::{
    fg, fg_bold, line_from, line_of, line_view, lines_view, plain_style, push_line, span_str,
    style_fg, style_fg_bold, style_plain, SpanStyle, StyledLine, StyledSpan, ThemeColor,
};

verus! {

/// A button's style: `fg` on `bg`, bold or not.
pub open spec fn button_style(fg: ThemeColor, bg: ThemeColor, bold: bool) -> SpanStyle {
    SpanStyle { fg: Some(fg), bg: Some(bg), bold: bold, underlined: false, italic: false, dim: false }
}

/// `s` with its text underlined.
pub open spec fn underlined(s: SpanStyle) -> SpanStyle {
    SpanStyle { underlined: true, ..s }
}

/// The buttons of the exit dialog; the selected one is filled, the other shows its key
/// underlined.
pub open spec fn exit_buttons(selected_yes: bool) -> Seq<(Seq<char>, SpanStyle)> {
    let yep = if selected_yes {
        button_style(ThemeColor::BgPrimary, ThemeColor::Destructive, true)
    } else {
        button_style(ThemeColor::TextPrimary, ThemeColor::BgPrimary, false)
    };
    let nope = if !selected_yes {
        button_style(ThemeColor::BgPrimary, ThemeColor::BrandAccent, true)
    } else {
        button_style(ThemeColor::TextPrimary, ThemeColor::BgPrimary, false)
    };
    if selected_yes {
        seq![
            ("  ✖ Yep, Quit (Y)  "@, yep),
            ("   "@, plain_style()),
            ("  ✔ Stay in Session ("@, nope),
            ("N"@, underlined(nope)),
            (")  "@, nope),
        ]
    } else {
        seq![
            ("  ✖ "@, yep),
            ("Y"@, underlined(yep)),
            ("ep, Quit  "@, yep),
            ("   "@, plain_style()),
            ("  ✔ Stay in Session (N)  "@, nope),
        ]
    }
}

/// The exit dialog: workspace and version, where the session is saved, the question, and
/// the buttons.
pub open spec fn exit_confirm_spec(workspace: Seq<char>, version: Seq<char>, selected_yes: bool) -> Seq<
    Seq<(Seq<char>, SpanStyle)>,
> {
    seq![
        seq![
            (" ● "@, fg(ThemeColor::Success)),
            ("Workspace: "@, fg(ThemeColor::Muted)),
            (workspace, fg_bold(ThemeColor::TextPrimary)),
            (" (v"@ + version + ")"@, fg(ThemeColor::Muted)),
        ],
        seq![
            (" ● "@, fg(ThemeColor::Info)),
            ("Session: "@, fg(ThemeColor::Muted)),
            ("auto-saved to .minicode/history"@, fg(ThemeColor::Muted)),
        ],
        seq![("Are you sure you want to quit?"@, fg_bold(ThemeColor::TextPrimary))],
        exit_buttons(selected_yes),
    ]
}

/// Label and description of a streaming option.
pub open spec fn streaming_option(i: nat) -> (Seq<char>, Seq<char>) {
    if i == 0 {
        ("Enable Streaming"@, "Token-by-token live streaming (default)"@)
    } else if i == 1 {
        ("Disable Streaming"@, "Wait for full response before rendering"@)
    } else {
        ("Cancel / Back"@, "Keep current setting and return"@)
    }
}

/// The two lines of streaming option `i`: label in twenty columns with the active marker,
/// then the description.
pub open spec fn streaming_row(i: nat, selected: bool, active: bool) -> Seq<Seq<(Seq<char>, SpanStyle)>> {
    let item = if selected {
        picked_style()
    } else if active {
        fg_bold(ThemeColor::Success)
    } else {
        fg(ThemeColor::TextPrimary)
    };
    let marker = if i == 2 {
        ""@
    } else if active {
        " [Active ◉]"@
    } else {
        " [○]"@
    };
    let prefix = if selected { " › "@ } else { "   "@ };
    seq![
        seq![
            (prefix + pad_right(streaming_option(i).0, 20), item),
            (marker, if active && !selected { fg_bold(ThemeColor::Success) } else { item }),
        ],
        seq![(
            "     "@ + streaming_option(i).1,
            if selected { fg(ThemeColor::BgPrimary) } else { fg(ThemeColor::Muted) },
        )],
    ]
}

/// The streaming options; the active one is the current setting.
pub open spec fn streaming_rows_spec(sel: nat, current: bool) -> Seq<Seq<(Seq<char>, SpanStyle)>> {
    let active: nat = if current { 0 } else { 1 };
    streaming_row(0, sel == 0, active == 0) + streaming_row(1, sel == 1, active == 1) + streaming_row(
        2,
        sel == 2,
        false,
    )
}

/// The key hints of the streaming picker.
pub open spec fn streaming_footer_spec() -> Seq<(Seq<char>, SpanStyle)> {
    seq![
        ("  ↑/↓/Tab: "@, fg_bold(ThemeColor::BrandAccent)),
        ("Navigate  "@, fg(ThemeColor::Muted)),
        ("Enter/1/2: "@, fg_bold(ThemeColor::BrandAccent)),
        ("Select  "@, fg(ThemeColor::Muted)),
        ("Esc: "@, fg_bold(ThemeColor::BrandAccent)),
        ("Close"@, fg(ThemeColor::Muted)),
    ]
}

fn line_of_spans(spans: Vec<StyledSpan>) -> (l: StyledLine)
    ensures
        line_view(l) == line_view(StyledLine { spans }),
{
    line_from(spans)
}

/// The exit dialog's lines: workspace, session, question and buttons; `version` is the
/// program's version.
pub fn exit_confirm_lines(workspace: &str, version: &str, selected_yes: bool) -> (r: Vec<StyledLine>)
    ensures
        lines_view(r@) == exit_confirm_spec(workspace@, version@, selected_yes),
{
    let mut out: Vec<StyledLine> = Vec::new();
    let mut a: Vec<StyledSpan> = Vec::new();
    a.push(span_str(" ● ", style_fg(ThemeColor::Success)));
    a.push(span_str("Workspace: ", style_fg(ThemeColor::Muted)));
    a.push(span_str(workspace, style_fg_bold(ThemeColor::TextPrimary)));
    a.push(span_str(concat3(" (v", version, ")").as_str(), style_fg(ThemeColor::Muted)));
    assert(line_view(StyledLine { spans: a }) =~= exit_confirm_spec(workspace@, version@, selected_yes)[0]);
    push_line(&mut out, line_of_spans(a));
    let mut b: Vec<StyledSpan> = Vec::new();
    b.push(span_str(" ● ", style_fg(ThemeColor::Info)));
    b.push(span_str("Session: ", style_fg(ThemeColor::Muted)));
    b.push(span_str("auto-saved to .minicode/history", style_fg(ThemeColor::Muted)));
    assert(line_view(StyledLine { spans: b }) =~= exit_confirm_spec(workspace@, version@, selected_yes)[1]);
    push_line(&mut out, line_of_spans(b));
    push_line(&mut out, line_of(span_str("Are you sure you want to quit?", style_fg_bold(ThemeColor::TextPrimary))));
    let yep = if selected_yes {
        SpanStyle { fg: Some(ThemeColor::BgPrimary), bg: Some(ThemeColor::Destructive), bold: true, underlined: false, italic: false, dim: false }
    } else {
        SpanStyle { fg: Some(ThemeColor::TextPrimary), bg: Some(ThemeColor::BgPrimary), bold: false, underlined: false, italic: false, dim: false }
    };
    let nope = if !selected_yes {
        SpanStyle { fg: Some(ThemeColor::BgPrimary), bg: Some(ThemeColor::BrandAccent), bold: true, underlined: false, italic: false, dim: false }
    } else {
        SpanStyle { fg: Some(ThemeColor::TextPrimary), bg: Some(ThemeColor::BgPrimary), bold: false, underlined: false, italic: false, dim: false }
    };
    let mut c: Vec<StyledSpan> = Vec::new();
    if selected_yes {
        c.push(span_str("  ✖ Yep, Quit (Y)  ", yep));
        c.push(span_str("   ", style_plain()));
        c.push(span_str("  ✔ Stay in Session (", nope));
        c.push(span_str("N", SpanStyle { underlined: true, ..nope }));
        c.push(span_str(")  ", nope));
    } else {
        c.push(span_str("  ✖ ", yep));
        c.push(span_str("Y", SpanStyle { underlined: true, ..yep }));
        c.push(span_str("ep, Quit  ", yep));
        c.push(span_str("   ", style_plain()));
        c.push(span_str("  ✔ Stay in Session (N)  ", nope));
    }
    assert(line_view(StyledLine { spans: c }) =~= exit_buttons(selected_yes));
    push_line(&mut out, line_of_spans(c));
    assert(lines_view(out@) =~= exit_confirm_spec(workspace@, version@, selected_yes));
    out
}

fn streaming_row_push(out: &mut Vec<StyledLine>, i: usize, selected: bool, active: bool)
    requires
        i < 3,
    ensures
        lines_view(final(out)@) == lines_view(old(out)@) + streaming_row(i as nat, selected, active),
{
    let ghost start = lines_view(out@);
    let (label, desc) = if i == 0 {
        ("Enable Streaming", "Token-by-token live streaming (default)")
    } else if i == 1 {
        ("Disable Streaming", "Wait for full response before rendering")
    } else {
        ("Cancel / Back", "Keep current setting and return")
    };
    assert((label@, desc@) == streaming_option(i as nat));
    let item = if selected {
        SpanStyle { fg: Some(ThemeColor::BgPrimary), bg: Some(ThemeColor::BrandAccent), bold: true, underlined: false, italic: false, dim: false }
    } else if active {
        style_fg_bold(ThemeColor::Success)
    } else {
        style_fg(ThemeColor::TextPrimary)
    };
    let marker = if i == 2 {
        ""
    } else if active {
        " [Active ◉]"
    } else {
        " [○]"
    };
    let prefix = if selected { " › " } else { "   " };
    let head = concat2(prefix, pad_right_exec(label, 20).as_str());
    let mut a: Vec<StyledSpan> = Vec::new();
    a.push(span_str(head.as_str(), item));
    a.push(span_str(marker, if active && !selected { style_fg_bold(ThemeColor::Success) } else { item }));
    assert(line_view(StyledLine { spans: a }) =~= streaming_row(i as nat, selected, active)[0]);
    push_line(out, line_of_spans(a));
    push_line(
        out,
        line_of(span_str(
            concat2("     ", desc).as_str(),
            if selected { style_fg(ThemeColor::BgPrimary) } else { style_fg(ThemeColor::Muted) },
        )),
    );
    assert(lines_view(out@) =~= start + streaming_row(i as nat, selected, active));
}

/// The streaming picker's option lines, two per option.
pub fn streaming_rows(sel: usize, current: bool) -> (r: Vec<StyledLine>)
    ensures
        lines_view(r@) == streaming_rows_spec(sel as nat, current),
{
    let active: usize = if current { 0 } else { 1 };
    let mut out: Vec<StyledLine> = Vec::new();
    streaming_row_push(&mut out, 0, sel == 0, active == 0);
    streaming_row_push(&mut out, 1, sel == 1, active == 1);
    streaming_row_push(&mut out, 2, sel == 2, false);
    assert(lines_view(out@) =~= streaming_rows_spec(sel as nat, current));
    out
}

/// The streaming picker's subtitle.
pub fn streaming_subtitle() -> (l: StyledLine)
    ensures
        line_view(l) == seq![(" Select streaming behavior for assistant turns:"@, fg(ThemeColor::Muted))],
{
    line_of(span_str(" Select streaming behavior for assistant turns:", style_fg(ThemeColor::Muted)))
}

/// The streaming picker's key hints.
pub fn streaming_footer() -> (l: StyledLine)
    ensures
        line_view(l) == streaming_footer_spec(),
{
    let mut v: Vec<StyledSpan> = Vec::new();
    v.push(span_str("  ↑/↓/Tab: ", style_fg_bold(ThemeColor::BrandAccent)));
    v.push(span_str("Navigate  ", style_fg(ThemeColor::Muted)));
    v.push(span_str("Enter/1/2: ", style_fg_bold(ThemeColor::BrandAccent)));
    v.push(span_str("Select  ", style_fg(ThemeColor::Muted)));
    v.push(span_str("Esc: ", style_fg_bold(ThemeColor::BrandAccent)));
    v.push(span_str("Close", style_fg(ThemeColor::Muted)));
    let l = line_from(v);
    assert(line_view(l) =~= streaming_footer_spec());
    l
}

/// A detail line of a configuration change: its label, then the value in bold accent.
pub open spec fn change_line(label: Seq<char>, value: Seq<char>) -> Seq<(Seq<char>, SpanStyle)> {
    seq![(label, fg(ThemeColor::TextPrimary)), (value, fg_bold(ThemeColor::BrandAccent))]
}

/// The line of an optional text value: none when unset.
pub open spec fn opt_change(label: Seq<char>, v: Option<String>) -> Seq<Seq<(Seq<char>, SpanStyle)>> {
    match v {
        Some(x) => seq![change_line(label, x@)],
        None => seq![],
    }
}

/// Where a change is saved, by its scope compared without ASCII case.
pub open spec fn scope_text(scope: Seq<char>) -> Seq<char> {
    if ascii_lower_seq(scope) == "global"@ {
        "Global (~/.config/minicode/config.toml)"@
    } else {
        "Workspace (.minicode/config.toml)"@
    }
}

/// The details of a change: each value it sets, then its scope.
pub open spec fn change_details(p: ConfigChangeProposal) -> Seq<Seq<(Seq<char>, SpanStyle)>> {
    opt_change("     • Active Provider : "@, p.provider) + opt_change("     • Active Model    : "@, p.model)
        + match p.auto_approve {
        Some(b) => seq![change_line("     • Auto Approve    : "@, if b { "true"@ } else { "false"@ })],
        None => seq![],
    } + match p.thinking_budget {
        Some(t) => seq![change_line("     • Thinking Budget : "@, decimal(t as nat) + " tokens"@)],
        None => seq![],
    } + opt_change("     • Theme           : "@, p.theme) + seq![
        seq![("     • Scope           : "@, fg(ThemeColor::TextPrimary)), (scope_text(p.scope@), fg(ThemeColor::Warning))],
    ]
}

/// The allow and deny buttons; the selected one is filled.
pub open spec fn change_buttons(sel: nat) -> Seq<(Seq<char>, SpanStyle)> {
    seq![
        ("  "@, plain_style()),
        (" [1] Allow Change "@, if sel == 0 { button_style(ThemeColor::BgPrimary, ThemeColor::BrandAccent, true) } else { fg(ThemeColor::TextPrimary) }),
        ("    "@, plain_style()),
        (" [2] Deny Change "@, if sel == 1 { button_style(ThemeColor::BgPrimary, ThemeColor::Destructive, true) } else { fg(ThemeColor::Muted) }),
    ]
}

/// The configuration approval dialog for an inner width of `w`: request, divider, the
/// details and the buttons.
pub open spec fn config_approval_spec(p: ConfigChangeProposal, w: nat, sel: nat) -> Seq<Seq<(Seq<char>, SpanStyle)>> {
    seq![
        seq![("  ⚙️ minicode requests permission to modify configuration:"@, fg_bold(ThemeColor::BrandAccent))],
        seq![(repeat_char('─', w), fg(ThemeColor::Border))],
    ] + change_details(p) + seq![change_buttons(sel)]
}

fn change_line_exec(label: &str, value: &str) -> (l: StyledLine)
    ensures
        line_view(l) == change_line(label@, value@),
{
    let mut v: Vec<StyledSpan> = Vec::new();
    v.push(span_str(label, style_fg(ThemeColor::TextPrimary)));
    v.push(span_str(value, style_fg_bold(ThemeColor::BrandAccent)));
    let l = line_from(v);
    assert(line_view(l) =~= change_line(label@, value@));
    l
}

fn opt_change_push(out: &mut Vec<StyledLine>, label: &str, v: &Option<String>)
    ensures
        lines_view(final(out)@) == lines_view(old(out)@) + opt_change(label@, *v),
{
    let ghost start = lines_view(out@);
    if let Some(x) = v {
        push_line(out, change_line_exec(label, x.as_str()));
    }
    assert(lines_view(out@) =~= start + opt_change(label@, *v));
}

fn auto_approve_push(out: &mut Vec<StyledLine>, v: Option<bool>)
    ensures
        lines_view(final(out)@) == lines_view(old(out)@) + match v {
            Some(b) => seq![change_line("     • Auto Approve    : "@, if b { "true"@ } else { "false"@ })],
            None => seq![],
        },
{
    let ghost start = lines_view(out@);
    if let Some(b) = v {
        push_line(out, change_line_exec("     • Auto Approve    : ", if b { "true" } else { "false" }));
    }
    assert(lines_view(out@) =~= start + match v {
        Some(b) => seq![change_line("     • Auto Approve    : "@, if b { "true"@ } else { "false"@ })],
        None => seq![],
    });
}

fn budget_push(out: &mut Vec<StyledLine>, v: Option<u64>)
    ensures
        lines_view(final(out)@) == lines_view(old(out)@) + match v {
            Some(t) => seq![change_line("     • Thinking Budget : "@, decimal(t as nat) + " tokens"@)],
            None => seq![],
        },
{
    let ghost start = lines_view(out@);
    if let Some(t) = v {
        let text = concat2(string_from_chars(&u64_to_decimal(t)).as_str(), " tokens");
        push_line(out, change_line_exec("     • Thinking Budget : ", text.as_str()));
    }
    assert(lines_view(out@) =~= start + match v {
        Some(t) => seq![change_line("     • Thinking Budget : "@, decimal(t as nat) + " tokens"@)],
        None => seq![],
    });
}

fn scope_line(scope: &str) -> (l: StyledLine)
    ensures
        line_view(l) == seq![("     • Scope           : "@, fg(ThemeColor::TextPrimary)), (scope_text(scope@), fg(ThemeColor::Warning))],
{
    let global = chars_eq(&ascii_lower_chars(&chars_of(scope)), &chars_of("global"));
    let text = if global { "Global (~/.config/minicode/config.toml)" } else { "Workspace (.minicode/config.toml)" };
    let mut s: Vec<StyledSpan> = Vec::new();
    s.push(span_str("     • Scope           : ", style_fg(ThemeColor::TextPrimary)));
    s.push(span_str(text, style_fg(ThemeColor::Warning)));
    let l = line_from(s);
    assert(line_view(l) =~= seq![("     • Scope           : "@, fg(ThemeColor::TextPrimary)), (scope_text(scope@), fg(ThemeColor::Warning))]);
    l
}

fn change_details_push(out: &mut Vec<StyledLine>, p: &ConfigChangeProposal)
    ensures
        lines_view(final(out)@) == lines_view(old(out)@) + change_details(*p),
{
    let ghost start = lines_view(out@);
    opt_change_push(out, "     • Active Provider : ", &p.provider);
    opt_change_push(out, "     • Active Model    : ", &p.model);
    auto_approve_push(out, p.auto_approve);
    budget_push(out, p.thinking_budget);
    opt_change_push(out, "     • Theme           : ", &p.theme);
    push_line(out, scope_line(p.scope.as_str()));
    assert(lines_view(out@) =~= start + change_details(*p));
}

fn change_buttons_line(sel: usize) -> (l: StyledLine)
    ensures
        line_view(l) == change_buttons(sel as nat),
{
    let allow = if sel == 0 {
        SpanStyle { fg: Some(ThemeColor::BgPrimary), bg: Some(ThemeColor::BrandAccent), bold: true, underlined: false, italic: false, dim: false }
    } else {
        style_fg(ThemeColor::TextPrimary)
    };
    let deny = if sel == 1 {
        SpanStyle { fg: Some(ThemeColor::BgPrimary), bg: Some(ThemeColor::Destructive), bold: true, underlined: false, italic: false, dim: false }
    } else {
        style_fg(ThemeColor::Muted)
    };
    let mut bt: Vec<StyledSpan> = Vec::new();
    bt.push(span_str("  ", style_plain()));
    bt.push(span_str(" [1] Allow Change ", allow));
    bt.push(span_str("    ", style_plain()));
    bt.push(span_str(" [2] Deny Change ", deny));
    let l = line_from(bt);
    assert(line_view(l) =~= change_buttons(sel as nat));
    l
}

/// The configuration approval dialog's lines for an inner width of `width`: the request,
/// the divider, one line per value changed and the scope, and the buttons.
pub fn config_approval_lines(p: &ConfigChangeProposal, width: u16, sel: usize) -> (r: Vec<StyledLine>)
    ensures
        lines_view(r@) == config_approval_spec(*p, width as nat, sel as nat),
{
    let mut out: Vec<StyledLine> = Vec::new();
    push_line(&mut out, line_of(span_str("  ⚙️ minicode requests permission to modify configuration:", style_fg_bold(ThemeColor::BrandAccent))));
    let rule = repeat_char_exec('─', width as usize);
    push_line(&mut out, line_of(span_str(rule.as_str(), style_fg(ThemeColor::Border))));
    change_details_push(&mut out, p);
    push_line(&mut out, change_buttons_line(sel));
    assert(lines_view(out@) =~= config_approval_spec(*p, width as nat, sel as nat));
    out
}

} // verus!
