//! Content of the permission approval dialog as styled lines: the tool banner with its
//! target cut to the dialog's width, the divider, the four options with the selected one
//! highlighted across the whole width, and, while instructions are typed, the input line.

use vstd::prelude::*;
use crate::text::{chars_of, push_char, slice_chars, str_eq, string_from_chars};
use crate::tools::{concat3, concat4};
use crate::ui::approval::{option_key, option_label, ApprovalModalState, ApprovalOption};
use crate::ui::modals::command_catalog::{pad_right, pad_right_exec};
use crate::ui::styled::{
    fg, fg_bold, line_from, line_of, line_view, lines_view, plain_style, push_line,
    span_str, style_fg, style_fg_bold, style_plain, SpanStyle, StyledLine, StyledSpan,
    ThemeColor,
};

verus! {

/// `n` copies of `c`.
pub open spec fn repeat_char(c: char, n: nat) -> Seq<char> {
    Seq::new(n, |i: int| c)
}

/// The target as shown in at most `max` characters: cut to `max - 1` characters and an
/// ellipsis when longer.
pub open spec fn shown_target(t: Seq<char>, max: nat) -> Seq<char> {
    if t.len() > max {
        t.take(if max >= 1 { (max - 1) as int } else { 0 }).push('…')
    } else {
        t
    }
}

/// Room left for the target on a line of the dialog's inner width.
pub open spec fn target_room(inner_width: nat) -> nat {
    if inner_width >= 12 {
        (inner_width - 12) as nat
    } else {
        0
    }
}

/// The banner: what the tool does, then its target.
pub open spec fn approval_header(tool: Seq<char>, target: Seq<char>) -> Seq<(Seq<char>, SpanStyle)> {
    if tool == "exec_cmd"@ {
        seq![("  ▶ Run: "@, fg_bold(ThemeColor::BrandAccent)), (target, fg_bold(ThemeColor::Warning))]
    } else if tool == "patch_file"@ {
        seq![("  📝 Patch: "@, fg_bold(ThemeColor::BrandAccent)), (target, fg_bold(ThemeColor::TextPrimary))]
    } else if tool == "write_file"@ {
        seq![("  📄 Write: "@, fg_bold(ThemeColor::BrandAccent)), (target, fg_bold(ThemeColor::TextPrimary))]
    } else {
        seq![
            ("  🔧 "@ + tool + ": "@, fg_bold(ThemeColor::BrandAccent)),
            (target, fg_bold(ThemeColor::TextPrimary)),
        ]
    }
}

/// Style of the selected option: theme background on the accent colour, bold.
pub open spec fn pill_style() -> SpanStyle {
    SpanStyle {
        fg: Some(ThemeColor::BgPrimary),
        bg: Some(ThemeColor::BrandAccent),
        bold: true,
        underlined: false,
        italic: false, dim: false,
    }
}

/// One option line, padded to the inner width.
pub open spec fn option_line(o: ApprovalOption, selected: bool, w: nat) -> Seq<(Seq<char>, SpanStyle)> {
    if selected {
        seq![(pad_right(" ❯ "@ + option_key(o) + " "@ + option_label(o), w), pill_style())]
    } else {
        seq![(pad_right("   "@ + option_key(o) + " "@ + option_label(o), w), fg(ThemeColor::Muted))]
    }
}

/// The four option lines in menu order.
pub open spec fn option_lines(selected: nat, w: nat) -> Seq<Seq<(Seq<char>, SpanStyle)>> {
    seq![
        option_line(ApprovalOption::Accept, selected == 0, w),
        option_line(ApprovalOption::Reject, selected == 1, w),
        option_line(ApprovalOption::AllowSession, selected == 2, w),
        option_line(ApprovalOption::TypeFeedback, selected == 3, w),
    ]
}

/// The instructions being typed, with a block cursor.
pub open spec fn feedback_line(input: Seq<char>) -> Seq<(Seq<char>, SpanStyle)> {
    seq![("❯ "@ + input + "█"@, plain_style())]
}

/// The dialog's lines for an inner width of `w` characters.
pub open spec fn approval_lines_spec(m: ApprovalModalState, w: nat) -> Seq<
    Seq<(Seq<char>, SpanStyle)>,
> {
    let head = seq![
        approval_header(m.tool_name@, shown_target(m.target_description@, target_room(w))),
        seq![(repeat_char('─', w), fg(ThemeColor::Border))],
    ] + option_lines(m.selected_index as nat, w);
    if m.is_typing_feedback {
        head.push(feedback_line(m.feedback_input@))
    } else {
        head
    }
}

pub(crate) fn repeat_char_exec(c: char, n: usize) -> (r: String)
    ensures
        r@ == repeat_char(c, n as nat),
{
    let mut r = String::new();
    let mut i: usize = 0;
    while i < n
        invariant
            i <= n,
            r@ == repeat_char(c, i as nat),
        decreases n - i,
    {
        push_char(&mut r, c);
        i += 1;
        assert(r@ =~= repeat_char(c, i as nat));
    }
    r
}

fn shown_target_exec(t: &str, max: usize) -> (r: String)
    ensures
        r@ == shown_target(t@, max as nat),
{
    let v = chars_of(t);
    if v.len() > max {
        let keep: usize = if max >= 1 { max - 1 } else { 0 };
        let mut cut = slice_chars(&v, 0, keep);
        cut.push('…');
        assert(cut@ =~= t@.take(keep as int).push('…'));
        string_from_chars(&cut)
    } else {
        t.to_owned()
    }
}

fn header_line(tool: &str, target: &str) -> (l: StyledLine)
    ensures
        line_view(l) == approval_header(tool@, target@),
{
    let mut spans: Vec<StyledSpan> = Vec::new();
    if str_eq(tool, "exec_cmd") {
        spans.push(span_str("  ▶ Run: ", style_fg_bold(ThemeColor::BrandAccent)));
        spans.push(span_str(target, style_fg_bold(ThemeColor::Warning)));
    } else if str_eq(tool, "patch_file") {
        spans.push(span_str("  📝 Patch: ", style_fg_bold(ThemeColor::BrandAccent)));
        spans.push(span_str(target, style_fg_bold(ThemeColor::TextPrimary)));
    } else if str_eq(tool, "write_file") {
        spans.push(span_str("  📄 Write: ", style_fg_bold(ThemeColor::BrandAccent)));
        spans.push(span_str(target, style_fg_bold(ThemeColor::TextPrimary)));
    } else {
        let lead = concat3("  🔧 ", tool, ": ");
        spans.push(span_str(lead.as_str(), style_fg_bold(ThemeColor::BrandAccent)));
        spans.push(span_str(target, style_fg_bold(ThemeColor::TextPrimary)));
    }
    let l = line_from(spans);
    assert(line_view(l) =~= approval_header(tool@, target@));
    l
}

fn option_line_exec(o: ApprovalOption, selected: bool, w: usize) -> (l: StyledLine)
    ensures
        line_view(l) == option_line(o, selected, w as nat),
{
    if selected {
        let text = concat4(" ❯ ", o.key_hint(), " ", o.label());
        let padded = pad_right_exec(text.as_str(), w);
        let style = SpanStyle {
            fg: Some(ThemeColor::BgPrimary),
            bg: Some(ThemeColor::BrandAccent),
            bold: true,
            underlined: false,
            italic: false, dim: false,
        };
        line_of(span_str(padded.as_str(), style))
    } else {
        let text = concat4("   ", o.key_hint(), " ", o.label());
        let padded = pad_right_exec(text.as_str(), w);
        line_of(span_str(padded.as_str(), style_fg(ThemeColor::Muted)))
    }
}

/// The lines of the approval dialog for an inner width of `inner_width` characters.
pub fn approval_lines(m: &ApprovalModalState, inner_width: u16) -> (r: Vec<StyledLine>)
    ensures
        lines_view(r@) == approval_lines_spec(*m, inner_width as nat),
{
    let w = inner_width as usize;
    let room: usize = if w >= 12 { w - 12 } else { 0 };
    let target = shown_target_exec(m.target_description.as_str(), room);
    let mut out: Vec<StyledLine> = Vec::new();
    push_line(&mut out, header_line(m.tool_name.as_str(), target.as_str()));
    let rule = repeat_char_exec('─', w);
    push_line(&mut out, line_of(span_str(rule.as_str(), style_fg(ThemeColor::Border))));
    let sel = m.selected_index;
    push_line(&mut out, option_line_exec(ApprovalOption::Accept, sel == 0, w));
    push_line(&mut out, option_line_exec(ApprovalOption::Reject, sel == 1, w));
    push_line(&mut out, option_line_exec(ApprovalOption::AllowSession, sel == 2, w));
    push_line(&mut out, option_line_exec(ApprovalOption::TypeFeedback, sel == 3, w));
    if m.is_typing_feedback {
        let text = concat3("❯ ", m.feedback_input.as_str(), "█");
        push_line(&mut out, line_of(span_str(text.as_str(), style_plain())));
    }
    assert(lines_view(out@) =~= approval_lines_spec(*m, inner_width as nat));
    out
}

} // verus!
