//! Unified diff lines for previews of file edits.

use vstd::prelude::*;
use similar::{ChangeTag, TextDiff};
use crate::text::{chars_of, decimal, u64_to_decimal, extend_chars};
use crate::ui::styled::{
    fg, fg_bold, line_from, line_of, line_view, lines_view, span_from, span_str, style_fg, style_fg_bold, SpanStyle, StyledLine, StyledSpan, ThemeColor,
};

verus! {

/// Kind of one line change.
#[derive(Debug, Clone, Copy, PartialEq, Eq, Structural)]
pub enum DiffTag {
    Equal,
    Delete,
    Insert,
}

/// One changed (or context) line and its kind.
#[derive(Debug, Clone)]
pub struct DiffChange {
    pub tag: DiffTag,
    pub text: String,
}

/// Abstract view of a change.
pub open spec fn change_view(c: DiffChange) -> (DiffTag, Seq<char>) {
    (c.tag, c.text@)
}

/// Abstract view of diff groups: groups of operations of changes.
pub open spec fn groups_view(g: Seq<Vec<Vec<DiffChange>>>) -> Seq<Seq<Seq<(DiffTag, Seq<char>)>>> {
    g.map_values(
        |grp: Vec<Vec<DiffChange>>|
            grp@.map_values(|op: Vec<DiffChange>| op@.map_values(|c: DiffChange| change_view(c))),
    )
}

/// The line diff of `old` and `new` that `similar::TextDiff::from_lines` computes, grouped
/// with `grouped_ops(3)`: groups of operations, each operation a list of changed lines.
pub uninterp spec fn grouped_line_diff(old: Seq<char>, new: Seq<char>) -> Seq<
    Seq<Seq<(DiffTag, Seq<char>)>>,
>;

/// `similar::TextDiff::from_lines(old, new).grouped_ops(3)` with the changes of each
/// operation (`iter_changes`); the result is the name `grouped_line_diff` of the texts.
#[verifier::external_body]
fn line_diff_groups(old: &str, new: &str) -> (g: Vec<Vec<Vec<DiffChange>>>)
    ensures
        groups_view(g@) == grouped_line_diff(old@, new@),
{
    let diff = TextDiff::from_lines(old, new);
    diff.grouped_ops(3).iter().map(|group| {
        group.iter().map(|op| {
            diff.iter_changes(op).map(|c| {
                let tag = match c.tag() {
                    ChangeTag::Equal => DiffTag::Equal,
                    ChangeTag::Delete => DiffTag::Delete,
                    ChangeTag::Insert => DiffTag::Insert,
                };
                DiffChange { tag, text: c.value().to_string() }
            }).collect()
        }).collect()
    }).collect()
}

/// One step of the rendering: a separator between groups, or a change together with the
/// number of changes of its operation.
pub enum DiffEvent {
    Separator,
    Change(DiffTag, Seq<char>, nat),
}

/// The changes of one operation as events.
pub open spec fn op_events(op: Seq<(DiffTag, Seq<char>)>) -> Seq<DiffEvent> {
    op.map_values(|c: (DiffTag, Seq<char>)| DiffEvent::Change(c.0, c.1, op.len()))
}

/// The events of the operations of one group, in order.
pub open spec fn group_events(ops: Seq<Seq<(DiffTag, Seq<char>)>>) -> Seq<DiffEvent>
    decreases ops.len(),
{
    if ops.len() == 0 {
        seq![]
    } else {
        op_events(ops[0]) + group_events(ops.drop_first())
    }
}

/// The events of the groups, with a separator before every group except a leading first one.
pub open spec fn events_from(groups: Seq<Seq<Seq<(DiffTag, Seq<char>)>>>, first: bool) -> Seq<
    DiffEvent,
>
    decreases groups.len(),
{
    if groups.len() == 0 {
        seq![]
    } else {
        (if first {
            seq![]
        } else {
            seq![DiffEvent::Separator]
        }) + group_events(groups[0]) + events_from(groups.drop_first(), false)
    }
}

/// The events of all groups, with a separator before every group but the first.
pub open spec fn diff_events(groups: Seq<Seq<Seq<(DiffTag, Seq<char>)>>>) -> Seq<DiffEvent> {
    events_from(groups, true)
}

/// Sign column of a change.
pub open spec fn sign_char(t: DiffTag) -> char {
    match t {
        DiffTag::Delete => '-',
        DiffTag::Insert => '+',
        DiffTag::Equal => ' ',
    }
}

/// Colour role of a change.
pub open spec fn tag_color(t: DiffTag) -> ThemeColor {
    match t {
        DiffTag::Delete => ThemeColor::Destructive,
        DiffTag::Insert => ThemeColor::Success,
        DiffTag::Equal => ThemeColor::Muted,
    }
}

/// Style of the text of a change.
pub open spec fn change_text_style(t: DiffTag) -> SpanStyle {
    match t {
        DiffTag::Delete => SpanStyle {
            fg: Some(ThemeColor::Destructive),
            bg: Some(ThemeColor::BgElevated),
            bold: false,
            underlined: false, italic: false, dim: false
        },
        DiffTag::Insert => SpanStyle {
            fg: Some(ThemeColor::Success),
            bg: Some(ThemeColor::BgElevated),
            bold: false,
            underlined: false, italic: false, dim: false
        },
        DiffTag::Equal => fg(ThemeColor::Muted),
    }
}

/// `s` without trailing carriage returns and line feeds.
pub open spec fn trim_line_end(s: Seq<char>) -> Seq<char>
    decreases s.len(),
{
    if s.len() > 0 && (s.last() == '\r' || s.last() == '\n') {
        trim_line_end(s.drop_last())
    } else {
        s
    }
}

/// The separator drawn between groups.
pub open spec fn separator_text() -> Seq<char> {
    Seq::new(36, |i: int| '┈')
}

/// The rendered line of one change.
pub open spec fn change_line(t: DiffTag, text: Seq<char>) -> Seq<(Seq<char>, SpanStyle)> {
    seq![(seq![sign_char(t), ' '], fg_bold(tag_color(t))), (trim_line_end(text), change_text_style(t))]
}

/// The line that ends a truncated diff.
pub open spec fn truncation_text(n: nat) -> Seq<char> {
    "  ... (diff truncated, "@ + decimal(n) + " more lines)"@
}

/// Lines rendered from `events` after the lines `acc`, with at most `max` change lines
/// before the diff is cut.
pub open spec fn render_events(
    events: Seq<DiffEvent>,
    acc: Seq<Seq<(Seq<char>, SpanStyle)>>,
    max: nat,
) -> Seq<Seq<(Seq<char>, SpanStyle)>>
    decreases events.len(),
{
    if events.len() == 0 {
        if acc.len() == 0 {
            seq![seq![("  (No textual differences)"@, fg(ThemeColor::Muted))]]
        } else {
            acc
        }
    } else {
        match events[0] {
            DiffEvent::Separator => render_events(
                events.drop_first(),
                acc.push(seq![(separator_text(), fg(ThemeColor::Muted))]),
                max,
            ),
            DiffEvent::Change(t, x, n) => if acc.len() >= max {
                acc.push(seq![(truncation_text(n), fg(ThemeColor::Muted))])
            } else {
                render_events(events.drop_first(), acc.push(change_line(t, x)), max)
            },
        }
    }
}

fn trim_line_end_chars(v: &Vec<char>) -> (r: Vec<char>)
    ensures
        r@ == trim_line_end(v@),
{
    let mut j = v.len();
    assert(v@.take(v@.len() as int) =~= v@);
    while j > 0 && (v[j - 1] == '\r' || v[j - 1] == '\n')
        invariant
            j <= v@.len(),
            trim_line_end(v@) == trim_line_end(v@.take(j as int)),
        decreases j,
    {
        assert(v@.take(j as int).drop_last() =~= v@.take(j - 1));
        j -= 1;
    }
    proof {
        assert(v@.subrange(0, j as int) =~= v@.take(j as int));
    }
    crate::text::slice_chars(v.as_slice(), 0, j)
}

proof fn lemma_render_step(
    a: Seq<DiffEvent>,
    b: Seq<DiffEvent>,
    acc: Seq<Seq<(Seq<char>, SpanStyle)>>,
    max: nat,
)
    requires
        a.len() > 0,
    ensures
        render_events(a + b, acc, max) == (match a[0] {
            DiffEvent::Separator => render_events(
                a.drop_first() + b,
                acc.push(seq![(separator_text(), fg(ThemeColor::Muted))]),
                max,
            ),
            DiffEvent::Change(t, x, n) => if acc.len() >= max {
                acc.push(seq![(truncation_text(n), fg(ThemeColor::Muted))])
            } else {
                render_events(a.drop_first() + b, acc.push(change_line(t, x)), max)
            },
        }),
{
    assert((a + b)[0] == a[0]);
    assert((a + b).drop_first() =~= a.drop_first() + b);
}

fn separator_line() -> (l: StyledLine)
    ensures
        line_view(l) == seq![(separator_text(), fg(ThemeColor::Muted))],
{
    let mut v: Vec<char> = Vec::new();
    let mut k: usize = 0;
    while k < 36
        invariant
            k <= 36,
            v@ == Seq::new(k as nat, |i: int| '┈'),
        decreases 36 - k,
    {
        v.push('┈');
        k += 1;
        assert(v@ =~= Seq::new(k as nat, |i: int| '┈'));
    }
    line_of(span_from(&v, style_fg(ThemeColor::Muted)))
}

fn truncation_line(n: usize) -> (l: StyledLine)
    ensures
        line_view(l) == seq![(truncation_text(n as nat), fg(ThemeColor::Muted))],
{
    let mut v = chars_of("  ... (diff truncated, ");
    let d = u64_to_decimal(n as u64);
    extend_chars(&mut v, &d);
    let tail = chars_of(" more lines)");
    extend_chars(&mut v, &tail);
    line_of(span_from(&v, style_fg(ThemeColor::Muted)))
}

fn change_line_exec(c: &DiffChange) -> (l: StyledLine)
    ensures
        line_view(l) == change_line(c.tag, c.text@),
{
    let sign = match c.tag {
        DiffTag::Delete => '-',
        DiffTag::Insert => '+',
        DiffTag::Equal => ' ',
    };
    let color = match c.tag {
        DiffTag::Delete => ThemeColor::Destructive,
        DiffTag::Insert => ThemeColor::Success,
        DiffTag::Equal => ThemeColor::Muted,
    };
    let text_style = match c.tag {
        DiffTag::Delete => SpanStyle {
            fg: Some(ThemeColor::Destructive),
            bg: Some(ThemeColor::BgElevated),
            bold: false,
            underlined: false, italic: false, dim: false
        },
        DiffTag::Insert => SpanStyle {
            fg: Some(ThemeColor::Success),
            bg: Some(ThemeColor::BgElevated),
            bold: false,
            underlined: false, italic: false, dim: false
        },
        DiffTag::Equal => style_fg(ThemeColor::Muted),
    };
    let mut sv: Vec<char> = Vec::new();
    sv.push(sign);
    sv.push(' ');
    let text = trim_line_end_chars(&chars_of(c.text.as_str()));
    let mut spans: Vec<StyledSpan> = Vec::new();
    spans.push(span_from(&sv, style_fg_bold(color)));
    spans.push(span_from(&text, text_style));
    let l = line_from(spans);
    assert(sv@ =~= seq![sign_char(c.tag), ' ']);
    assert(line_view(l) =~= change_line(c.tag, c.text@));
    l
}

/// Colored lines of the unified diff between two texts, at most `max_lines` change lines
/// (then a truncation notice), with separators between hunks.
pub open spec fn render_diff_spec(old_text: Seq<char>, new_text: Seq<char>, max_lines: nat) -> Seq<
    Seq<(Seq<char>, SpanStyle)>,
> {
    render_events(diff_events(grouped_line_diff(old_text, new_text)), seq![], max_lines)
}

/// Formatter for producing colored unified diff lines.
pub struct DiffViewer;

impl DiffViewer {
    /// Generates colored lines for a unified diff between old and new text.
    pub fn render_diff(old_text: &str, new_text: &str, max_lines: usize) -> (lines: Vec<StyledLine>)
        ensures
            lines_view(lines@) == render_diff_spec(old_text@, new_text@, max_lines as nat),
    {
        let groups = line_diff_groups(old_text, new_text);
        let ghost gv = groups_view(groups@);
        let ghost total = render_diff_spec(old_text@, new_text@, max_lines as nat);
        let mut lines: Vec<StyledLine> = Vec::new();
        let mut gi: usize = 0;
        proof {
            assert(gv.skip(0) =~= gv);
            assert(lines_view(lines@) =~= seq![]);
        }
        while gi < groups.len()
            invariant
                gv == groups_view(groups@),
                gv == grouped_line_diff(old_text@, new_text@),
                total == render_diff_spec(old_text@, new_text@, max_lines as nat),
                gi <= groups@.len(),
                total == render_events(events_from(gv.skip(gi as int), gi == 0), lines_view(lines@), max_lines as nat),
            decreases groups@.len() - gi,
        {
            let ghost rest_groups = gv.skip(gi + 1);
            proof {
                let gs = gv.skip(gi as int);
                assert(gs[0] == gv[gi as int]);
                assert(gs.drop_first() =~= rest_groups);
            }
            if gi > 0 {
                let ghost before = lines_view(lines@);
                proof {
                    let gs = gv.skip(gi as int);
                    let a = seq![DiffEvent::Separator];
                    let b = group_events(gv[gi as int]) + events_from(rest_groups, false);
                    assert(events_from(gs, false) =~= a + b);
                    lemma_render_step(a, b, before, max_lines as nat);
                    assert(a.drop_first() + b =~= b);
                }
                lines.push(separator_line());
                assert(lines_view(lines@) =~= before.push(seq![(separator_text(), fg(ThemeColor::Muted))]));
            } else {
                proof {
                    let gs = gv.skip(gi as int);
                    assert(events_from(gs, true) =~= group_events(gv[gi as int]) + events_from(rest_groups, false));
                }
            }
            let group = &groups[gi];
            let ghost ops = gv[gi as int];
            let mut oi: usize = 0;
            proof {
                assert(ops.skip(0) =~= ops);
            }
            while oi < group.len()
                invariant
                    total == render_diff_spec(old_text@, new_text@, max_lines as nat),
                    gv == groups_view(groups@),
                    gi < groups@.len(),
                    *group == groups@[gi as int],
                    ops == gv[gi as int],
                    rest_groups == gv.skip(gi + 1),
                    oi <= group@.len(),
                    ops.len() == group@.len(),
                    total == render_events(group_events(ops.skip(oi as int)) + events_from(rest_groups, false), lines_view(lines@), max_lines as nat),
                decreases group@.len() - oi,
            {
                let op = &group[oi];
                let ghost opv = ops[oi as int];
                let ghost rest_ops = ops.skip(oi + 1);
                let ghost tail = group_events(rest_ops) + events_from(rest_groups, false);
                proof {
                    let os = ops.skip(oi as int);
                    assert(os[0] == opv);
                    assert(os.drop_first() =~= rest_ops);
                    assert(group_events(os) + events_from(rest_groups, false) =~= op_events(opv) + tail);
                    assert(opv == op@.map_values(|c: DiffChange| change_view(c)));
                    assert(op_events(opv).skip(0) =~= op_events(opv));
                }
                let mut ci: usize = 0;
                while ci < op.len()
                    invariant
                        total == render_diff_spec(old_text@, new_text@, max_lines as nat),
                        oi < group@.len(),
                        *op == group@[oi as int],
                        opv == op@.map_values(|c: DiffChange| change_view(c)),
                        ci <= op@.len(),
                        total == render_events(op_events(opv).skip(ci as int) + tail, lines_view(lines@), max_lines as nat),
                    decreases op@.len() - ci,
                {
                    let c = &op[ci];
                    let ghost a = op_events(opv).skip(ci as int);
                    let ghost before = lines_view(lines@);
                    proof {
                        assert(a[0] == DiffEvent::Change(c.tag, c.text@, opv.len()));
                        lemma_render_step(a, tail, before, max_lines as nat);
                        assert(a.drop_first() =~= op_events(opv).skip(ci + 1));
                    }
                    assert(before.len() == lines@.len());
                    if lines.len() >= max_lines {
                        lines.push(truncation_line(op.len()));
                        assert(lines_view(lines@) =~= before.push(seq![(truncation_text(opv.len()), fg(ThemeColor::Muted))]));
                        return lines;
                    }
                    lines.push(change_line_exec(c));
                    assert(lines_view(lines@) =~= before.push(change_line(c.tag, c.text@)));
                    ci += 1;
                }
                proof {
                    assert(op_events(opv).skip(ci as int) =~= Seq::<DiffEvent>::empty());
                    assert(Seq::<DiffEvent>::empty() + tail =~= tail);
                    assert(ops.skip(oi + 1) == rest_ops);
                }
                oi += 1;
            }
            proof {
                assert(ops.skip(oi as int) =~= Seq::<Seq<(DiffTag, Seq<char>)>>::empty());
                assert(group_events(ops.skip(oi as int)) + events_from(rest_groups, false) =~= events_from(rest_groups, false));
            }
            gi += 1;
        }
        proof {
            assert(gv.skip(gi as int) =~= Seq::<Seq<Seq<(DiffTag, Seq<char>)>>>::empty());
        }
        if lines.len() == 0 {
            lines.push(line_of(span_str("  (No textual differences)", style_fg(ThemeColor::Muted))));
            assert(lines_view(lines@) =~= seq![seq![("  (No textual differences)"@, fg(ThemeColor::Muted))]]);
        }
        lines
    }

    /// Renders a patch preview: a `Target:` line, an empty line, then the diff of the search
    /// and replace blocks with two lines fewer of budget.
    pub fn render_patch_args(
        file_path: &str,
        search_block: &str,
        replace_block: &str,
        max_lines: usize,
    ) -> (lines: Vec<StyledLine>)
        ensures
            lines_view(lines@) == seq![
                seq![("Target: "@, fg_bold(ThemeColor::BrandAccent)), (file_path@, fg(ThemeColor::TextPrimary))],
                seq![(Seq::<char>::empty(), crate::ui::styled::plain_style())],
            ] + render_diff_spec(
                search_block@,
                replace_block@,
                (if max_lines >= 2 { max_lines - 2 } else { 0 }) as nat,
            ),
    {
        let mut lines: Vec<StyledLine> = Vec::new();
        let mut first: Vec<StyledSpan> = Vec::new();
        first.push(span_str("Target: ", style_fg_bold(ThemeColor::BrandAccent)));
        first.push(span_str(file_path, style_fg(ThemeColor::TextPrimary)));
        let l1 = line_from(first);
        lines.push(l1);
        let empty: Vec<char> = Vec::new();
        let l2 = line_of(span_from(&empty, SpanStyle { fg: None, bg: None, bold: false, underlined: false, italic: false, dim: false }));
        lines.push(l2);
        let budget = if max_lines >= 2 { max_lines - 2 } else { 0 };
        let mut diff_lines = Self::render_diff(search_block, replace_block, budget);
        let ghost head = lines@;
        let ghost dl = diff_lines@;
        lines.append(&mut diff_lines);
        proof {
            assert(lines@ == head + dl);
            assert(line_view(l1) =~= seq![("Target: "@, fg_bold(ThemeColor::BrandAccent)), (file_path@, fg(ThemeColor::TextPrimary))]);
            assert(lines_view(lines@) =~= lines_view(head) + lines_view(dl));
            assert(lines_view(head) =~= seq![line_view(l1), line_view(l2)]);
        }
        lines
    }
}

} // verus!
