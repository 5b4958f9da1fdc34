//! Context and content of the theme and animation selection modal.

use vstd::prelude::*;
use crate::records::ThemeInfo;
use crate::text::{chars_eq, chars_of, chars_starts_with, decimal, string_from_chars, u64_to_decimal};
use crate::tools::concat3;
use crate::ui::animation::AnimationOption;
use crate::ui::modals::command_catalog::{
    blank_line, blank_line_exec, pad_right, pad_right_exec, scroll_offset_spec,
};
use crate::ui::modals::theme_matches;
use crate::ui::styled::{
    fg, fg_bold, line_from, line_view, lines_view, plain_style, push_line, span_str, span_view,
    style_fg, style_fg_bold, style_plain, SpanStyle, StyledLine, StyledSpan, ThemeColor,
};

verus! {

/// Tab of the theme modal.
#[derive(Debug, Clone, Copy, PartialEq, Eq, Structural)]
pub enum ThemeModalTab {
    Themes,
    Animations,
}

/// What the theme modal shows: the themes and animations, the active tab, the selection in
/// each list and the identifiers of the active theme and animation.
pub struct ThemeSelectContext<'a> {
    pub themes: &'a [ThemeInfo],
    pub animations: &'a [AnimationOption],
    pub active_tab: ThemeModalTab,
    pub theme_selected_index: usize,
    pub animation_selected_index: usize,
    pub active_theme_id: &'a str,
    pub active_animation_id: &'a str,
}


/// Highlight of the active tab: background colour on the accent colour, bold.
pub open spec fn theme_tab_style(active: bool) -> SpanStyle {
    if active {
        SpanStyle {
            fg: Some(ThemeColor::BgPrimary),
            bg: Some(ThemeColor::BrandAccent),
            bold: true,
            underlined: false,
            italic: false, dim: false,
        }
    } else {
        fg(ThemeColor::TextPrimary)
    }
}

/// The tab line of the theme modal.
pub open spec fn theme_tabs_spec(tab: ThemeModalTab) -> Seq<(Seq<char>, SpanStyle)> {
    let t = tab == ThemeModalTab::Themes;
    seq![
        ("  "@, plain_style()),
        (if t {
            " [ 1. Themes (Tab) ] "@
        } else {
            " [ 1. Themes ] "@
        }, theme_tab_style(t)),
        ("   "@, plain_style()),
        (if !t {
            " [ 2. Loading Animations (Tab) ] "@
        } else {
            " [ 2. Loading Animations ] "@
        }, theme_tab_style(!t)),
        ("    "@, plain_style()),
        ("Tab/1/2 to switch"@, fg(ThemeColor::Muted)),
    ]
}

/// The header of an entry: cursor, number and name in `cols` columns.
pub open spec fn entry_head(name: Seq<char>, idx: nat, selected: bool, cols: nat) -> Seq<
    (Seq<char>, SpanStyle),
> {
    seq![
        (if selected {
            "  ❯ "@
        } else {
            "    "@
        }, fg_bold(ThemeColor::BrandAccent)),
        ("["@ + decimal(idx + 1) + "] "@, fg(ThemeColor::Muted)),
        (pad_right(name, cols), if selected {
            fg_bold(ThemeColor::BrandAccent)
        } else {
            fg(ThemeColor::TextPrimary)
        }),
    ]
}

/// The description line of an entry.
pub open spec fn entry_desc(desc: Seq<char>, selected: bool) -> Seq<(Seq<char>, SpanStyle)> {
    seq![
        ("        "@, plain_style()),
        (desc, if selected {
            fg(ThemeColor::TextPrimary)
        } else {
            fg(ThemeColor::Muted)
        }),
    ]
}

/// Colour samples of a theme.
pub open spec fn swatch_spans(t: ThemeInfo) -> Seq<(Seq<char>, SpanStyle)> {
    Seq::new(
        t.swatches@.len(),
        |k: int| (" ■"@, fg(ThemeColor::Rgb(t.swatches@[k].0, t.swatches@[k].1, t.swatches@[k].2))),
    )
}

/// A theme entry: header with samples and the active mark, description, blank.
pub open spec fn theme_entry(t: ThemeInfo, idx: nat, selected: bool, active: Seq<char>, cols: nat) -> Seq<
    Seq<(Seq<char>, SpanStyle)>,
> {
    seq![
        entry_head(t.name@, idx, selected, cols) + swatch_spans(t) + (if theme_matches(t, active) {
            seq![("  [Active ✔]"@, fg_bold(ThemeColor::Success))]
        } else {
            seq![]
        }),
        entry_desc(t.description@, selected),
        blank_line(),
    ]
}

/// An animation entry: header with its preview and the active mark, description, blank.
pub open spec fn animation_entry(
    a: AnimationOption,
    preview: Seq<(Seq<char>, SpanStyle)>,
    idx: nat,
    selected: bool,
    active: Seq<char>,
) -> Seq<Seq<(Seq<char>, SpanStyle)>> {
    seq![
        entry_head(a.name@, idx, selected, 26) + preview + (if a.id@ == active {
            seq![(" [Active ✔]"@, fg_bold(ThemeColor::Success))]
        } else {
            seq![]
        }),
        entry_desc(a.description@, selected),
        blank_line(),
    ]
}

/// First and past-the-last of `max` entries shown around `sel` in a list of `n`.
pub open spec fn entry_window(sel: nat, max: nat, n: nat) -> (nat, nat) {
    let off = scroll_offset_spec(sel, max);
    (off, if off + max < n {
        off + max
    } else if off < n {
        n
    } else {
        off
    })
}

/// The theme entries at positions `off..k`.
pub open spec fn theme_entries(ctx: ThemeSelectContext, cols: nat, off: int, k: int) -> Seq<
    Seq<(Seq<char>, SpanStyle)>,
>
    decreases k - off,
{
    if k <= off {
        seq![]
    } else {
        theme_entries(ctx, cols, off, k - 1) + theme_entry(
            ctx.themes@[k - 1],
            (k - 1) as nat,
            k - 1 == ctx.theme_selected_index,
            ctx.active_theme_id@,
            cols,
        )
    }
}

/// The animation entries at positions `off..k`, with their previews.
pub open spec fn animation_entries(
    ctx: ThemeSelectContext,
    previews: Seq<Seq<(Seq<char>, SpanStyle)>>,
    off: int,
    k: int,
) -> Seq<Seq<(Seq<char>, SpanStyle)>>
    decreases k - off,
{
    if k <= off {
        seq![]
    } else {
        animation_entries(ctx, previews, off, k - 1) + animation_entry(
            ctx.animations@[k - 1],
            previews[k - 1],
            (k - 1) as nat,
            k - 1 == ctx.animation_selected_index,
            ctx.active_animation_id@,
        )
    }
}

/// The list of the theme modal: a blank line, then `max` entries of the active tab around
/// its selection; theme names take `cols` columns, and `previews[i]` is the preview of
/// animation `i`.
pub open spec fn theme_list_spec(
    ctx: ThemeSelectContext,
    max: nat,
    cols: nat,
    previews: Seq<Seq<(Seq<char>, SpanStyle)>>,
) -> Seq<Seq<(Seq<char>, SpanStyle)>> {
    seq![blank_line()] + if ctx.active_tab == ThemeModalTab::Themes {
        let w = entry_window(ctx.theme_selected_index as nat, max, ctx.themes@.len());
        theme_entries(ctx, cols, w.0 as int, w.1 as int)
    } else {
        let w = entry_window(ctx.animation_selected_index as nat, max, ctx.animations@.len());
        animation_entries(ctx, previews, w.0 as int, w.1 as int)
    }
}

/// The key hints of the theme modal.
pub open spec fn theme_footer_spec() -> Seq<(Seq<char>, SpanStyle)> {
    seq![
        ("  [Tab] "@, fg_bold(ThemeColor::BrandAccent)),
        ("Menu   "@, fg(ThemeColor::TextPrimary)),
        ("[↑/↓] "@, fg_bold(ThemeColor::BrandAccent)),
        ("Move   "@, fg(ThemeColor::TextPrimary)),
        ("[Enter] "@, fg_bold(ThemeColor::BrandAccent)),
        ("Apply   "@, fg(ThemeColor::TextPrimary)),
        ("[Esc] "@, fg(ThemeColor::Muted)),
        ("Cancel"@, fg(ThemeColor::Muted)),
    ]
}

fn tab_style_exec(active: bool) -> (s: SpanStyle)
    ensures
        s == theme_tab_style(active),
{
    if active {
        SpanStyle {
            fg: Some(ThemeColor::BgPrimary),
            bg: Some(ThemeColor::BrandAccent),
            bold: true,
            underlined: false,
            italic: false, dim: false,
        }
    } else {
        style_fg(ThemeColor::TextPrimary)
    }
}

/// The tab line of the theme modal.
pub fn theme_tabs(tab: ThemeModalTab) -> (r: StyledLine)
    ensures
        line_view(r) == theme_tabs_spec(tab),
{
    let t = tab == ThemeModalTab::Themes;
    let mut v: Vec<StyledSpan> = Vec::new();
    v.push(span_str("  ", style_plain()));
    v.push(span_str(
        if t {
            " [ 1. Themes (Tab) ] "
        } else {
            " [ 1. Themes ] "
        },
        tab_style_exec(t),
    ));
    v.push(span_str("   ", style_plain()));
    v.push(span_str(
        if !t {
            " [ 2. Loading Animations (Tab) ] "
        } else {
            " [ 2. Loading Animations ] "
        },
        tab_style_exec(!t),
    ));
    v.push(span_str("    ", style_plain()));
    v.push(span_str("Tab/1/2 to switch", style_fg(ThemeColor::Muted)));
    let l = line_from(v);
    assert(line_view(l) =~= theme_tabs_spec(tab));
    l
}

fn push_spans(v: &mut Vec<StyledSpan>, more: Vec<StyledSpan>)
    ensures
        final(v)@.map_values(|x: StyledSpan| span_view(x)) == old(v)@.map_values(|x: StyledSpan| span_view(x))
            + more@.map_values(|x: StyledSpan| span_view(x)),
{
    let ghost start = v@;
    let mut more = more;
    let ghost all = more@;
    v.append(&mut more);
    assert(v@.map_values(|x: StyledSpan| span_view(x)) =~= start.map_values(|x: StyledSpan| span_view(x))
        + all.map_values(|x: StyledSpan| span_view(x)));
}

fn entry_head_exec(name: &str, idx: usize, selected: bool, cols: usize) -> (v: Vec<StyledSpan>)
    requires
        idx < usize::MAX,
    ensures
        v@.map_values(|x: StyledSpan| span_view(x)) == entry_head(name@, idx as nat, selected, cols as nat),
{
    let mut v: Vec<StyledSpan> = Vec::new();
    v.push(span_str(
        if selected {
            "  ❯ "
        } else {
            "    "
        },
        style_fg_bold(ThemeColor::BrandAccent),
    ));
    v.push(span_str(
        concat3("[", string_from_chars(&u64_to_decimal((idx + 1) as u64)).as_str(), "] ").as_str(),
        style_fg(ThemeColor::Muted),
    ));
    v.push(span_str(
        pad_right_exec(name, cols).as_str(),
        if selected {
            style_fg_bold(ThemeColor::BrandAccent)
        } else {
            style_fg(ThemeColor::TextPrimary)
        },
    ));
    assert(v@.map_values(|x: StyledSpan| span_view(x)) =~= entry_head(name@, idx as nat, selected, cols as nat));
    v
}

fn entry_desc_line(desc: &str, selected: bool) -> (l: StyledLine)
    ensures
        line_view(l) == entry_desc(desc@, selected),
{
    let mut v: Vec<StyledSpan> = Vec::new();
    v.push(span_str("        ", style_plain()));
    v.push(span_str(
        desc,
        if selected {
            style_fg(ThemeColor::TextPrimary)
        } else {
            style_fg(ThemeColor::Muted)
        },
    ));
    let l = line_from(v);
    assert(line_view(l) =~= entry_desc(desc@, selected));
    l
}

fn push_theme_entry(out: &mut Vec<StyledLine>, t: &ThemeInfo, idx: usize, selected: bool, active: &str, cols: usize)
    requires
        idx < usize::MAX,
    ensures
        lines_view(final(out)@) == lines_view(old(out)@) + theme_entry(*t, idx as nat, selected, active@, cols as nat),
{
    let ghost start = lines_view(out@);
    let ghost spec = theme_entry(*t, idx as nat, selected, active@, cols as nat);
    let mut v = entry_head_exec(t.name.as_str(), idx, selected, cols);
    let ghost base = v@.map_values(|x: StyledSpan| span_view(x));
    let mut k: usize = 0;
    while k < t.swatches.len()
        invariant
            k <= t.swatches@.len(),
            v@.map_values(|x: StyledSpan| span_view(x)) == base + swatch_spans(*t).take(k as int),
        decreases t.swatches@.len() - k,
    {
        let (r, g, b) = t.swatches[k];
        let ghost before = v@;
        let sp = span_str(" ■", style_fg(ThemeColor::Rgb(r, g, b)));
        v.push(sp);
        assert(v@ =~= before.push(sp));
        assert(v@.map_values(|x: StyledSpan| span_view(x)) =~= before.map_values(|x: StyledSpan| span_view(x)).push(
            span_view(sp),
        ));
        k += 1;
        assert(v@.map_values(|x: StyledSpan| span_view(x)) =~= base + swatch_spans(*t).take(k as int));
    }
    assert(swatch_spans(*t).take(k as int) =~= swatch_spans(*t));
    let id = chars_of(t.id.as_str());
    let act = chars_of(active);
    if chars_eq(&id, &act) || chars_starts_with(&act, &id) {
        let ghost before = v@;
        let sp = span_str("  [Active ✔]", style_fg_bold(ThemeColor::Success));
        v.push(sp);
        assert(v@.map_values(|x: StyledSpan| span_view(x)) =~= before.map_values(|x: StyledSpan| span_view(x)).push(
            span_view(sp),
        ));
    }
    let l = line_from(v);
    assert(line_view(l) =~= spec[0]);
    push_line(out, l);
    push_line(out, entry_desc_line(t.description.as_str(), selected));
    push_line(out, blank_line_exec());
    assert(lines_view(out@) =~= start + spec);
}

fn push_animation_entry(
    out: &mut Vec<StyledLine>,
    a: &AnimationOption,
    preview: Vec<StyledSpan>,
    idx: usize,
    selected: bool,
    active: &str,
)
    requires
        idx < usize::MAX,
    ensures
        lines_view(final(out)@) == lines_view(old(out)@) + animation_entry(
            *a,
            preview@.map_values(|x: StyledSpan| span_view(x)),
            idx as nat,
            selected,
            active@,
        ),
{
    let ghost start = lines_view(out@);
    let ghost spec = animation_entry(*a, preview@.map_values(|x: StyledSpan| span_view(x)), idx as nat, selected, active@);
    let mut v = entry_head_exec(a.name, idx, selected, 26);
    push_spans(&mut v, preview);
    if crate::text::str_eq(a.id, active) {
        let ghost before = v@;
        let sp = span_str(" [Active ✔]", style_fg_bold(ThemeColor::Success));
        v.push(sp);
        assert(v@.map_values(|x: StyledSpan| span_view(x)) =~= before.map_values(|x: StyledSpan| span_view(x)).push(
            span_view(sp),
        ));
    }
    let l = line_from(v);
    assert(line_view(l) =~= spec[0]);
    push_line(out, l);
    push_line(out, entry_desc_line(a.description, selected));
    push_line(out, blank_line_exec());
    assert(lines_view(out@) =~= start + spec);
}

fn window_exec(sel: usize, max: usize, n: usize) -> (r: (usize, usize))
    ensures
        (r.0 as nat, r.1 as nat) == entry_window(sel as nat, max as nat, n as nat),
        r.0 <= r.1,
        r.0 < r.1 ==> r.1 <= n,
{
    let off = crate::ui::layout_utils::compute_scroll_offset(sel, max);
    let end = if off < n && n - off > max {
        off + max
    } else if off < n {
        n
    } else {
        off
    };
    (off, end)
}

/// The list of the theme modal: `max` entries of the active tab around its selection,
/// theme names in `cols` columns; `previews[i]` is the preview of animation `i` (one per
/// animation), and is consumed.
pub fn theme_list_lines(
    ctx: &ThemeSelectContext,
    max: usize,
    cols: usize,
    previews: Vec<Vec<StyledSpan>>,
) -> (r: Vec<StyledLine>)
    requires
        previews@.len() == ctx.animations@.len(),
    ensures
        lines_view(r@) == theme_list_spec(
            *ctx,
            max as nat,
            cols as nat,
            previews@.map_values(|p: Vec<StyledSpan>| p@.map_values(|x: StyledSpan| span_view(x))),
        ),
{
    let ghost pv = previews@.map_values(|p: Vec<StyledSpan>| p@.map_values(|x: StyledSpan| span_view(x)));
    let mut out: Vec<StyledLine> = Vec::new();
    push_line(&mut out, blank_line_exec());
    let ghost head = lines_view(out@);
    if ctx.active_tab == ThemeModalTab::Themes {
        let (off, end) = window_exec(ctx.theme_selected_index, max, ctx.themes.len());
        let mut k: usize = off;
        while k < end
            invariant
                off <= k <= end,
                off < end ==> end <= ctx.themes@.len(),
                lines_view(out@) == head + theme_entries(*ctx, cols as nat, off as int, k as int),
            decreases end - k,
        {
            push_theme_entry(&mut out, &ctx.themes[k], k, k == ctx.theme_selected_index, ctx.active_theme_id, cols);
            k += 1;
            assert(lines_view(out@) =~= head + theme_entries(*ctx, cols as nat, off as int, k as int));
        }
    } else {
        let (off, end) = window_exec(ctx.animation_selected_index, max, ctx.animations.len());
        let mut previews = previews;
        let mut k: usize = off;
        while k < end
            invariant
                off <= k <= end,
                off < end ==> end <= ctx.animations@.len(),
                previews@.len() == ctx.animations@.len(),
                forall|i: int| k <= i < previews@.len() ==> (#[trigger] previews@[i])@.map_values(
                    |x: StyledSpan| span_view(x),
                ) == pv[i],
                pv.len() == previews@.len(),
                lines_view(out@) == head + animation_entries(*ctx, pv, off as int, k as int),
            decreases end - k,
        {
            let ghost old_prev = previews@;
            let mut p: Vec<StyledSpan> = Vec::new();
            std::mem::swap(&mut p, &mut previews[k]);
            assert(p@.map_values(|x: StyledSpan| span_view(x)) == pv[k as int]);
            push_animation_entry(&mut out, &ctx.animations[k], p, k, k == ctx.animation_selected_index, ctx.active_animation_id);
            k += 1;
            assert(lines_view(out@) =~= head + animation_entries(*ctx, pv, off as int, k as int));
        }
    }
    assert(lines_view(out@) =~= theme_list_spec(*ctx, max as nat, cols as nat, pv));
    out
}

/// The key hints of the theme modal.
pub fn theme_footer() -> (r: StyledLine)
    ensures
        line_view(r) == theme_footer_spec(),
{
    let a = style_fg_bold(ThemeColor::BrandAccent);
    let t = style_fg(ThemeColor::TextPrimary);
    let m = style_fg(ThemeColor::Muted);
    let mut v: Vec<StyledSpan> = Vec::new();
    v.push(span_str("  [Tab] ", a));
    v.push(span_str("Menu   ", t));
    v.push(span_str("[↑/↓] ", a));
    v.push(span_str("Move   ", t));
    v.push(span_str("[Enter] ", a));
    v.push(span_str("Apply   ", t));
    v.push(span_str("[Esc] ", m));
    v.push(span_str("Cancel", m));
    let l = line_from(v);
    assert(line_view(l) =~= theme_footer_spec());
    l
}

} // verus!
