//! Content of the slash command palette as styled lines: the title with the category
//! tabs, the query row, and the matching commands around the selection with their
//! shortcuts aligned to the right by display width.

use vstd::prelude::*;
use crate::text::chars_of;
use crate::tools::concat2;
use crate::ui::approval_view::{repeat_char, repeat_char_exec};
use crate::ui::input::{
    category_label, category_order, matching_commands, text_width, text_width_of, CommandCategory,
    InputDock, PaletteCommand,
};
use crate::ui::modals::command_catalog::{scroll_offset_spec, spaces, spaces_exec};
use crate::ui::styled::{
    fg, fg_bold, line_from, line_of, line_view, lines_view, plain_style, push_line, span_str,
    style_fg, style_fg_bold, style_plain, SpanStyle, StyledLine, StyledSpan, ThemeColor,
};

verus! {

/// `a - b`, or zero when `b` is larger.
pub open spec fn sat_sub(a: nat, b: nat) -> nat {
    if a > b {
        (a - b) as nat
    } else {
        0
    }
}

/// A category tab of the title: filled when active.
pub open spec fn category_tab(c: CommandCategory, active: bool) -> (Seq<char>, SpanStyle) {
    if active {
        ("◉ "@ + category_label(c) + " "@, fg_bold(ThemeColor::BrandAccent))
    } else {
        ("○ "@ + category_label(c) + " "@, fg(ThemeColor::Muted))
    }
}

/// The palette's title: its name, the tab hint, the four category tabs with the active
/// one filled, and a space.
pub open spec fn palette_title_spec(category_index: nat) -> Seq<(Seq<char>, SpanStyle)> {
    let a = category_index % 4;
    seq![
        (" ⌘ Commands "@, fg_bold(ThemeColor::BrandAccent)),
        ("[Tab] "@, fg(ThemeColor::Muted)),
        category_tab(category_order()[0], a == 0),
        category_tab(category_order()[1], a == 1),
        category_tab(category_order()[2], a == 2),
        category_tab(category_order()[3], a == 3),
        (" "@, plain_style()),
    ]
}

/// The query row: the typed first line, or `/` when it is empty, and a block cursor.
pub open spec fn palette_search_spec(typed: Seq<char>) -> Seq<(Seq<char>, SpanStyle)> {
    seq![
        ("  › "@, fg_bold(ThemeColor::BrandAccent)),
        (if typed.len() == 0 { "/"@ } else { typed }, fg_bold(ThemeColor::TextPrimary)),
        ("█"@, fg(ThemeColor::BrandAccent)),
    ]
}

/// The shortcut of a command as shown: empty without one.
pub open spec fn shortcut_text(c: PaletteCommand) -> Seq<char> {
    match c.shortcut {
        Some(s) => s@,
        None => ""@,
    }
}

/// Style of the selected row: theme background on the accent colour, bold.
pub open spec fn palette_pill() -> SpanStyle {
    SpanStyle {
        fg: Some(ThemeColor::BgPrimary),
        bg: Some(ThemeColor::BrandAccent),
        bold: true,
        underlined: false,
        italic: false, dim: false,
    }
}

/// A command row in `w` columns: marker and title, spaces, and the shortcut ending two
/// columns before the edge; the selected row is one span filled to the full width.
pub open spec fn palette_row(c: PaletteCommand, selected: bool, w: nat) -> Seq<(Seq<char>, SpanStyle)> {
    let sc = shortcut_text(c);
    let left = (if selected { " ❯ "@ } else { "   "@ }) + c.title@;
    let pad = spaces(sat_sub(w, text_width(left) + text_width(sc) + 2));
    if selected {
        let ls = left + pad + sc;
        seq![(ls + spaces(sat_sub(w, text_width(ls))), palette_pill())]
    } else {
        seq![(left, fg(ThemeColor::TextPrimary)), (pad, plain_style())] + (if sc.len() > 0 {
            seq![(sc, fg(ThemeColor::Muted))]
        } else {
            seq![]
        }) + seq![(" "@, plain_style())]
    }
}

/// The rows of the commands at positions `off..k`.
pub open spec fn palette_rows_from(m: Seq<PaletteCommand>, sel: nat, w: nat, off: int, k: int) -> Seq<
    Seq<(Seq<char>, SpanStyle)>,
>
    decreases k - off,
{
    if k <= off {
        seq![]
    } else {
        palette_rows_from(m, sel, w, off, k - 1).push(palette_row(m[k - 1], k - 1 == sel, w))
    }
}

/// The command list in `h` rows of `w` columns: a notice without matches, else the rows
/// from the scroll offset that keeps the selection (clamped to the last match) visible.
pub open spec fn palette_rows_spec(m: Seq<PaletteCommand>, selected: nat, h: nat, w: nat) -> Seq<
    Seq<(Seq<char>, SpanStyle)>,
> {
    if m.len() == 0 {
        seq![seq![("   No matching commands found"@, fg(ThemeColor::Muted))]]
    } else {
        let sel = if selected < m.len() - 1 { selected } else { (m.len() - 1) as nat };
        let off = scroll_offset_spec(sel, h);
        let end = if off + h < m.len() { off + h } else if off < m.len() { m.len() } else { off };
        palette_rows_from(m, sel, w, off as int, end as int)
    }
}

fn category_tab_exec(c: CommandCategory, active: bool) -> (s: StyledSpan)
    ensures
        crate::ui::styled::span_view(s) == category_tab(c, active),
{
    if active {
        let t = crate::tools::concat3("◉ ", c.label(), " ");
        span_str(t.as_str(), style_fg_bold(ThemeColor::BrandAccent))
    } else {
        let t = crate::tools::concat3("○ ", c.label(), " ");
        span_str(t.as_str(), style_fg(ThemeColor::Muted))
    }
}

fn palette_row_exec(c: &PaletteCommand, selected: bool, w: usize) -> (l: StyledLine)
    ensures
        line_view(l) == palette_row(*c, selected, w as nat),
{
    let sc: &str = match c.shortcut {
        Some(s) => s,
        None => "",
    };
    assert(sc@ == shortcut_text(*c));
    let left = concat2(if selected { " ❯ " } else { "   " }, c.title);
    let lw = text_width_of(left.as_str());
    let sw = text_width_of(sc);
    let used: u128 = lw as u128 + sw as u128 + 2;
    let avail: usize = if (w as u128) > used { (w as u128 - used) as usize } else { 0 };
    let pad = spaces_exec(avail);
    if selected {
        let ls = crate::tools::concat3(left.as_str(), pad.as_str(), sc);
        let cw = text_width_of(ls.as_str());
        let trail: usize = if w > cw { w - cw } else { 0 };
        let full = concat2(ls.as_str(), spaces_exec(trail).as_str());
        let style = SpanStyle {
            fg: Some(ThemeColor::BgPrimary),
            bg: Some(ThemeColor::BrandAccent),
            bold: true,
            underlined: false,
            italic: false, dim: false,
        };
        let l = line_of(span_str(full.as_str(), style));
        assert(line_view(l) =~= palette_row(*c, selected, w as nat));
        l
    } else {
        let mut v: Vec<StyledSpan> = Vec::new();
        v.push(span_str(left.as_str(), style_fg(ThemeColor::TextPrimary)));
        v.push(span_str(pad.as_str(), style_plain()));
        if chars_of(sc).len() > 0 {
            v.push(span_str(sc, style_fg(ThemeColor::Muted)));
        }
        v.push(span_str(" ", style_plain()));
        let l = line_from(v);
        assert(line_view(l) =~= palette_row(*c, selected, w as nat));
        l
    }
}

impl InputDock {
    /// The palette's title line.
    pub fn palette_title(&self) -> (l: StyledLine)
        ensures
            line_view(l) == palette_title_spec(self.category_index as nat),
    {
        let cats = CommandCategory::all();
        let a = self.category_index % 4;
        let mut v: Vec<StyledSpan> = Vec::new();
        v.push(span_str(" ⌘ Commands ", style_fg_bold(ThemeColor::BrandAccent)));
        v.push(span_str("[Tab] ", style_fg(ThemeColor::Muted)));
        v.push(category_tab_exec(cats[0], a == 0));
        v.push(category_tab_exec(cats[1], a == 1));
        v.push(category_tab_exec(cats[2], a == 2));
        v.push(category_tab_exec(cats[3], a == 3));
        v.push(span_str(" ", style_plain()));
        let l = line_from(v);
        assert(line_view(l) =~= palette_title_spec(self.category_index as nat));
        l
    }

    /// The palette's query row.
    pub fn palette_search_line(&self) -> (l: StyledLine)
        ensures
            line_view(l) == palette_search_spec(self.lines_view()[0]),
    {
        let typed = self.first_line();
        let shown = if chars_of(typed.as_str()).len() == 0 { "/".to_owned() } else { typed };
        let mut v: Vec<StyledSpan> = Vec::new();
        v.push(span_str("  › ", style_fg_bold(ThemeColor::BrandAccent)));
        v.push(span_str(shown.as_str(), style_fg_bold(ThemeColor::TextPrimary)));
        v.push(span_str("█", style_fg(ThemeColor::BrandAccent)));
        let l = line_from(v);
        assert(line_view(l) =~= palette_search_spec(self.lines_view()[0]));
        l
    }

    /// The palette's command rows for a list of `list_height` rows of `inner_width` columns.
    pub fn palette_rows(&self, list_height: usize, inner_width: usize) -> (r: Vec<StyledLine>)
        ensures
            lines_view(r@) == palette_rows_spec(
                matching_commands(self.lines_view()[0], self.category_index as nat),
                self.slash_selected_index as nat,
                list_height as nat,
                inner_width as nat,
            ),
    {
        let ghost m = matching_commands(self.lines_view()[0], self.category_index as nat);
        let matches = self.matching_palette_commands();
        let mut out: Vec<StyledLine> = Vec::new();
        let n = matches.len();
        if n == 0 {
            push_line(&mut out, line_of(span_str("   No matching commands found", style_fg(ThemeColor::Muted))));
            assert(lines_view(out@) =~= palette_rows_spec(m, self.slash_selected_index as nat, list_height as nat, inner_width as nat));
            return out;
        }
        let sel: usize = if self.slash_selected_index < n - 1 { self.slash_selected_index } else { n - 1 };
        let off = crate::ui::layout_utils::compute_scroll_offset(sel, list_height);
        let end: usize = if off < n && n - off > list_height {
            off + list_height
        } else if off < n {
            n
        } else {
            off
        };
        assert(off as nat == scroll_offset_spec(sel as nat, list_height as nat));
        let mut k: usize = off;
        while k < end
            invariant
                off <= k <= end,
                off < end ==> end <= n,
                n == matches@.len(),
                n == m.len(),
                forall|j: int| 0 <= j < n ==> *matches@[j] == m[j],
                lines_view(out@) == palette_rows_from(m, sel as nat, inner_width as nat, off as int, k as int),
            decreases end - k,
        {
            let c: &PaletteCommand = matches[k];
            push_line(&mut out, palette_row_exec(c, k == sel, inner_width));
            k += 1;
        }
        assert(lines_view(out@) =~= palette_rows_spec(m, self.slash_selected_index as nat, list_height as nat, inner_width as nat));
        out
    }
}

/// A divider of `width` characters in the border colour.
pub fn divider_line(width: usize) -> (l: StyledLine)
    ensures
        line_view(l) == seq![(repeat_char('─', width as nat), fg(ThemeColor::Border))],
{
    let rule = repeat_char_exec('─', width);
    line_of(span_str(rule.as_str(), style_fg(ThemeColor::Border)))
}

} // verus!
