//! Content of the `/power` MiniPower modal as styled lines: the tab bar, the methodology
//! pillars, the excuses and their answers, the verification barrier with each gate's
//! outcome, and the key hints.

use vstd::prelude::*;
use crate::records::{GateStatus, VerificationReport};
use crate::text::{decimal, string_from_chars, u64_to_decimal};
use crate::tools::{concat2, concat3};
use crate::ui::modals::command_catalog::{blank_line, blank_line_exec};
use crate::ui::modals::minipower::{MiniPowerModalState, MiniPowerTab};
use crate::ui::styled::{
    fg, fg_bold, line_from, line_of, line_view, lines_view, plain_style, push_line, span_str,
    style_fg, style_fg_bold, style_plain, SpanStyle, StyledLine, StyledSpan, ThemeColor,
};

verus! {

/// Title of a MiniPower tab.
pub open spec fn power_tab_title(t: MiniPowerTab) -> Seq<char> {
    match t {
        MiniPowerTab::Pillars => "Pillars & Methodology"@,
        MiniPowerTab::RedFlags => "Anti-Rationalization"@,
        MiniPowerTab::VerificationBarrier => "Verification Barrier"@,
    }
}

/// A tab of the bar, numbered from one; the active tab black on the accent colour.
pub open spec fn power_tab(t: MiniPowerTab, n: nat, active: bool) -> Seq<(Seq<char>, SpanStyle)> {
    seq![
        (
            " ["@ + decimal(n) + "] "@ + power_tab_title(t) + " "@,
            if active {
                SpanStyle { fg: Some(ThemeColor::Black), bg: Some(ThemeColor::BrandAccent), bold: true, underlined: false, italic: false, dim: false }
            } else {
                fg(ThemeColor::Muted)
            },
        ),
        (" "@, plain_style()),
    ]
}

/// The tab bar.
pub open spec fn power_tabs_spec(active: MiniPowerTab) -> Seq<(Seq<char>, SpanStyle)> {
    power_tab(MiniPowerTab::Pillars, 1, active == MiniPowerTab::Pillars) + power_tab(
        MiniPowerTab::RedFlags,
        2,
        active == MiniPowerTab::RedFlags,
    ) + power_tab(MiniPowerTab::VerificationBarrier, 3, active == MiniPowerTab::VerificationBarrier)
}

/// A pillar: its name in bold success colour, then its practice.
pub open spec fn pillar(name: Seq<char>, text: Seq<char>) -> Seq<(Seq<char>, SpanStyle)> {
    seq![(name, fg_bold(ThemeColor::Success)), (text, plain_style())]
}

/// The pillars tab.
pub open spec fn pillars_spec() -> Seq<Seq<(Seq<char>, SpanStyle)>> {
    seq![
        seq![
            ("6 Core Engineering Pillars"@, fg_bold(ThemeColor::BrandAccent)),
            (" — Systematic Discipline over Improvisation"@, fg(ThemeColor::Muted)),
        ],
        blank_line(),
        pillar("  1. 🧠 Socratic Brainstorming   "@, "Clarify intent & trade-offs before touching files (`/power brainstorm <topic>`)"@),
        pillar("  2. 🌳 Git Worktree Isolation   "@, "Execute mutating tasks in ephemeral worktrees (`/power task <prompt>`)"@),
        pillar("  3. 📋 Bite-Sized Planning      "@, "2-5 min atomic tasks with concrete acceptance tests (`/power plan <topic>`)"@),
        pillar("  4. 🛡️ Two-Stage Subagent Review"@, "Automated Stage 1 (Spec Compliance) & Stage 2 (Code Quality) (`/power review`)"@),
        pillar("  5. 🧪 Strict Red/Green TDD     "@, "Write/update failing tests first, verify red, implement minimal code, verify green"@),
        pillar("  6. ⚡ Evidence Before Assertions"@, "Zero unverified claims; all completions must exit code 0 (`/power verify`)"@),
        blank_line(),
        seq![
            ("💡 Quick Shortcuts: "@, fg_bold(ThemeColor::Warning)),
            ("Ctrl+P (this modal) | /power | /power brainstorm | /power plan | /power task | /power verify"@, plain_style()),
        ],
    ]
}

/// The three lines of an excuse and the answer to it.
pub open spec fn excuse_lines(excuse: Seq<char>, reality: Seq<char>) -> Seq<Seq<(Seq<char>, SpanStyle)>> {
    seq![
        seq![
            ("  • \""@, fg(ThemeColor::Warning)),
            (excuse, SpanStyle { fg: Some(ThemeColor::Warning), bg: None, bold: false, underlined: false, italic: true, dim: false }),
            ("\""@, fg(ThemeColor::Warning)),
        ],
        seq![("    ╰─── "@, fg(ThemeColor::Muted)), (reality, fg(ThemeColor::TextPrimary))],
        blank_line(),
    ]
}

/// The excuses of the first `k` entries of the table.
pub open spec fn excuses_from(table: Seq<(String, String)>, k: int) -> Seq<Seq<(Seq<char>, SpanStyle)>>
    decreases k,
{
    if k <= 0 {
        seq![]
    } else {
        excuses_from(table, k - 1) + excuse_lines(table[k - 1].0@, table[k - 1].1@)
    }
}

/// The anti-rationalization tab for a table of excuses and answers.
pub open spec fn red_flags_spec(table: Seq<(String, String)>) -> Seq<Seq<(Seq<char>, SpanStyle)>> {
    seq![
        seq![
            ("Anti-Rationalization Guardrails"@, fg_bold(ThemeColor::BrandAccent)),
            (" — Excuses Mapped to Engineering Reality"@, fg(ThemeColor::Muted)),
        ],
        blank_line(),
    ] + excuses_from(table, table.len() as int)
}

/// The lines of one gate's outcome.
pub open spec fn gate_lines(name: Seq<char>, s: GateStatus) -> Seq<Seq<(Seq<char>, SpanStyle)>> {
    match s {
        GateStatus::Passed => seq![
            seq![("  ✔ "@, fg(ThemeColor::Success)), (name, fg_bold(ThemeColor::TextPrimary)), (": Passed"@, plain_style())],
        ],
        GateStatus::Skipped { reason } => seq![
            seq![("  ○ "@, fg(ThemeColor::Muted)), (name, fg(ThemeColor::TextPrimary)), (": Skipped ("@ + reason@ + ")"@, plain_style())],
        ],
        GateStatus::Failed { reason, actionable_remediation } => seq![
            seq![("  ❌ "@, fg(ThemeColor::Destructive)), (name, fg_bold(ThemeColor::Destructive)), (": "@ + reason@, plain_style())],
            seq![("     ╰── Remediation: "@, fg(ThemeColor::Warning)), (actionable_remediation@, plain_style())],
        ],
    }
}

/// The report: the overall badge, then the four gates.
pub open spec fn report_lines(r: VerificationReport) -> Seq<Seq<(Seq<char>, SpanStyle)>> {
    seq![
        if r.all_passed {
            seq![("  ✔ ALL 4 GATES PASSED CLEANLY"@, fg_bold(ThemeColor::Success))]
        } else {
            seq![("  ❌ VERIFICATION ISSUES DETECTED"@, fg_bold(ThemeColor::Destructive))]
        },
        blank_line(),
    ] + gate_lines("Gate 1: AST Syntax & Compiler Integrity"@, r.gate1_syntax_compiler) + gate_lines(
        "Gate 2: Reproducer & Test Integrity"@,
        r.gate2_reproducer_test,
    ) + gate_lines("Gate 3: Structural Integrity & Conflicts"@, r.gate3_regression_conflicts) + gate_lines(
        "Gate 4: Diff Sanity & Secret Leaks"@,
        r.gate4_diff_sanity,
    )
}

/// What the barrier tab shows before any evaluation.
pub open spec fn barrier_intro() -> Seq<Seq<(Seq<char>, SpanStyle)>> {
    seq![
        seq![
            ("  Press "@, fg(ThemeColor::TextPrimary)),
            ("[r]"@, fg_bold(ThemeColor::BrandAccent)),
            (" or "@, fg(ThemeColor::TextPrimary)),
            ("[v]"@, fg_bold(ThemeColor::BrandAccent)),
            (" to evaluate all 4 gates against modified workspace files."@, fg(ThemeColor::TextPrimary)),
        ],
        blank_line(),
        seq![("  • Gate 1: "@, fg(ThemeColor::Muted)), ("AST syntax verification and scoped compiler integrity"@, plain_style())],
        seq![("  • Gate 2: "@, fg(ThemeColor::Muted)), ("Reproducer & regression test suite execution (exit code 0)"@, plain_style())],
        seq![("  • Gate 3: "@, fg(ThemeColor::Muted)), ("Structural file tree audit & git merge conflict markers"@, plain_style())],
        seq![("  • Gate 4: "@, fg(ThemeColor::Muted)), ("Diff sanity: zero hardcoded secrets, zero forbidden stdout debug logs"@, plain_style())],
    ]
}

/// The verification barrier tab: a note while evaluating, else the report, else how to
/// start one.
pub open spec fn barrier_spec(evaluating: bool, report: Option<VerificationReport>) -> Seq<Seq<(Seq<char>, SpanStyle)>> {
    let head = seq![
        seq![
            ("4-Gate Pre-Completion Verification Barrier"@, fg_bold(ThemeColor::BrandAccent)),
            (" — Programmatic Exit Code 0 Gatekeeper"@, fg(ThemeColor::Muted)),
        ],
        blank_line(),
    ];
    if evaluating {
        head.push(seq![("  ⏳ Evaluating verification gates across workspace..."@, fg(ThemeColor::Warning))])
    } else {
        match report {
            Some(r) => head + report_lines(r),
            None => head + barrier_intro(),
        }
    }
}

/// The lines of the active tab from the scroll offset on.
pub open spec fn power_content_spec(s: MiniPowerModalState, table: Seq<(String, String)>) -> Seq<
    Seq<(Seq<char>, SpanStyle)>,
> {
    let all = match s.active_tab {
        MiniPowerTab::Pillars => pillars_spec(),
        MiniPowerTab::RedFlags => red_flags_spec(table),
        MiniPowerTab::VerificationBarrier => barrier_spec(s.is_evaluating, s.verification_report),
    };
    if s.scroll_offset < all.len() {
        all.skip(s.scroll_offset as int)
    } else {
        seq![]
    }
}

/// The key hints of a tab.
pub open spec fn power_footer_spec(t: MiniPowerTab) -> Seq<char> {
    match t {
        MiniPowerTab::VerificationBarrier => " [Tab/←/→] Switch Tab | [r/v] Run Live Verification | [↑/↓] Scroll | [Esc/q] Close "@,
        _ => " [Tab/←/→] Switch Tab | [1-3] Select Tab | [↑/↓] Scroll | [Esc/q] Close "@,
    }
}

fn two(a: &str, sa: SpanStyle, b: &str, sb: SpanStyle) -> (l: StyledLine)
    ensures
        line_view(l) == seq![(a@, sa), (b@, sb)],
{
    let mut v: Vec<StyledSpan> = Vec::new();
    v.push(span_str(a, sa));
    v.push(span_str(b, sb));
    let l = line_from(v);
    assert(line_view(l) =~= seq![(a@, sa), (b@, sb)]);
    l
}

fn three(a: &str, sa: SpanStyle, b: &str, sb: SpanStyle, c: &str, sc: SpanStyle) -> (l: StyledLine)
    ensures
        line_view(l) == seq![(a@, sa), (b@, sb), (c@, sc)],
{
    let mut v: Vec<StyledSpan> = Vec::new();
    v.push(span_str(a, sa));
    v.push(span_str(b, sb));
    v.push(span_str(c, sc));
    let l = line_from(v);
    assert(line_view(l) =~= seq![(a@, sa), (b@, sb), (c@, sc)]);
    l
}

fn power_tab_push(spans: &mut Vec<StyledSpan>, t: MiniPowerTab, n: u64, active: bool)
    requires
        1 <= n <= 3,
    ensures
        line_view(StyledLine { spans: *final(spans) }) == line_view(StyledLine { spans: *old(spans) }) + power_tab(t, n as nat, active),
{
    let ghost before = *spans;
    let a = concat3(" [", string_from_chars(&u64_to_decimal(n)).as_str(), "] ");
    let title = t.title();
    assert(title@ == power_tab_title(t));
    let text = concat3(a.as_str(), title, " ");
    let style = if active {
        SpanStyle { fg: Some(ThemeColor::Black), bg: Some(ThemeColor::BrandAccent), bold: true, underlined: false, italic: false, dim: false }
    } else {
        style_fg(ThemeColor::Muted)
    };
    spans.push(span_str(text.as_str(), style));
    spans.push(span_str(" ", style_plain()));
    assert(line_view(StyledLine { spans: *spans }) =~= line_view(StyledLine { spans: before }) + power_tab(t, n as nat, active));
}

/// The tab bar of the MiniPower modal.
pub fn power_tabs(active: MiniPowerTab) -> (l: StyledLine)
    ensures
        line_view(l) == power_tabs_spec(active),
{
    let mut v: Vec<StyledSpan> = Vec::new();
    assert(line_view(StyledLine { spans: v }) =~= Seq::<(Seq<char>, SpanStyle)>::empty());
    power_tab_push(&mut v, MiniPowerTab::Pillars, 1, active == MiniPowerTab::Pillars);
    power_tab_push(&mut v, MiniPowerTab::RedFlags, 2, active == MiniPowerTab::RedFlags);
    power_tab_push(&mut v, MiniPowerTab::VerificationBarrier, 3, active == MiniPowerTab::VerificationBarrier);
    let l = line_from(v);
    assert(line_view(l) =~= power_tabs_spec(active));
    l
}

fn pillars_push(out: &mut Vec<StyledLine>)
    ensures
        lines_view(final(out)@) == lines_view(old(out)@) + pillars_spec(),
{
    let ghost start = lines_view(out@);
    push_line(out, two("6 Core Engineering Pillars", style_fg_bold(ThemeColor::BrandAccent), " — Systematic Discipline over Improvisation", style_fg(ThemeColor::Muted)));
    push_line(out, blank_line_exec());
    let p = style_fg_bold(ThemeColor::Success);
    push_line(out, two("  1. 🧠 Socratic Brainstorming   ", p, "Clarify intent & trade-offs before touching files (`/power brainstorm <topic>`)", style_plain()));
    push_line(out, two("  2. 🌳 Git Worktree Isolation   ", p, "Execute mutating tasks in ephemeral worktrees (`/power task <prompt>`)", style_plain()));
    push_line(out, two("  3. 📋 Bite-Sized Planning      ", p, "2-5 min atomic tasks with concrete acceptance tests (`/power plan <topic>`)", style_plain()));
    push_line(out, two("  4. 🛡️ Two-Stage Subagent Review", p, "Automated Stage 1 (Spec Compliance) & Stage 2 (Code Quality) (`/power review`)", style_plain()));
    push_line(out, two("  5. 🧪 Strict Red/Green TDD     ", p, "Write/update failing tests first, verify red, implement minimal code, verify green", style_plain()));
    push_line(out, two("  6. ⚡ Evidence Before Assertions", p, "Zero unverified claims; all completions must exit code 0 (`/power verify`)", style_plain()));
    push_line(out, blank_line_exec());
    push_line(out, two("💡 Quick Shortcuts: ", style_fg_bold(ThemeColor::Warning), "Ctrl+P (this modal) | /power | /power brainstorm | /power plan | /power task | /power verify", style_plain()));
    assert(lines_view(out@) =~= start + pillars_spec());
}

fn red_flags_push(out: &mut Vec<StyledLine>, table: &Vec<(String, String)>)
    ensures
        lines_view(final(out)@) == lines_view(old(out)@) + red_flags_spec(table@),
{
    let ghost start = lines_view(out@);
    push_line(out, two("Anti-Rationalization Guardrails", style_fg_bold(ThemeColor::BrandAccent), " — Excuses Mapped to Engineering Reality", style_fg(ThemeColor::Muted)));
    push_line(out, blank_line_exec());
    let ghost head = lines_view(out@);
    let italic = SpanStyle { fg: Some(ThemeColor::Warning), bg: None, bold: false, underlined: false, italic: true, dim: false };
    let mut i: usize = 0;
    while i < table.len()
        invariant
            i <= table@.len(),
            lines_view(out@) == head + excuses_from(table@, i as int),
            italic == (SpanStyle { fg: Some(ThemeColor::Warning), bg: None, bold: false, underlined: false, italic: true, dim: false }),
        decreases table@.len() - i,
    {
        let ghost before = lines_view(out@);
        push_line(out, three("  • \"", style_fg(ThemeColor::Warning), table[i].0.as_str(), italic, "\"", style_fg(ThemeColor::Warning)));
        push_line(out, two("    ╰─── ", style_fg(ThemeColor::Muted), table[i].1.as_str(), style_fg(ThemeColor::TextPrimary)));
        push_line(out, blank_line_exec());
        assert(lines_view(out@) =~= before + excuse_lines(table@[i as int].0@, table@[i as int].1@));
        i += 1;
        assert(excuses_from(table@, i as int) == excuses_from(table@, i - 1) + excuse_lines(
            table@[i - 1].0@,
            table@[i - 1].1@,
        ));
        assert(lines_view(out@) =~= head + excuses_from(table@, i as int));
    }
    assert(lines_view(out@) =~= start + red_flags_spec(table@));
}

fn gate_push(out: &mut Vec<StyledLine>, name: &str, s: &GateStatus)
    ensures
        lines_view(final(out)@) == lines_view(old(out)@) + gate_lines(name@, *s),
{
    let ghost start = lines_view(out@);
    match s {
        GateStatus::Passed => {
            push_line(out, three("  ✔ ", style_fg(ThemeColor::Success), name, style_fg_bold(ThemeColor::TextPrimary), ": Passed", style_plain()));
        },
        GateStatus::Skipped { reason } => {
            let r = concat3(": Skipped (", reason.as_str(), ")");
            push_line(out, three("  ○ ", style_fg(ThemeColor::Muted), name, style_fg(ThemeColor::TextPrimary), r.as_str(), style_plain()));
        },
        GateStatus::Failed { reason, actionable_remediation } => {
            let r = concat2(": ", reason.as_str());
            push_line(out, three("  ❌ ", style_fg(ThemeColor::Destructive), name, style_fg_bold(ThemeColor::Destructive), r.as_str(), style_plain()));
            push_line(out, two("     ╰── Remediation: ", style_fg(ThemeColor::Warning), actionable_remediation.as_str(), style_plain()));
        },
    }
    assert(lines_view(out@) =~= start + gate_lines(name@, *s));
}

fn report_push(out: &mut Vec<StyledLine>, r: &VerificationReport)
    ensures
        lines_view(final(out)@) == lines_view(old(out)@) + report_lines(*r),
{
    let ghost start = lines_view(out@);
    if r.all_passed {
        push_line(out, line_of(span_str("  ✔ ALL 4 GATES PASSED CLEANLY", style_fg_bold(ThemeColor::Success))));
    } else {
        push_line(out, line_of(span_str("  ❌ VERIFICATION ISSUES DETECTED", style_fg_bold(ThemeColor::Destructive))));
    }
    push_line(out, blank_line_exec());
    gate_push(out, "Gate 1: AST Syntax & Compiler Integrity", &r.gate1_syntax_compiler);
    gate_push(out, "Gate 2: Reproducer & Test Integrity", &r.gate2_reproducer_test);
    gate_push(out, "Gate 3: Structural Integrity & Conflicts", &r.gate3_regression_conflicts);
    gate_push(out, "Gate 4: Diff Sanity & Secret Leaks", &r.gate4_diff_sanity);
    assert(lines_view(out@) =~= start + report_lines(*r));
}

fn barrier_intro_push(out: &mut Vec<StyledLine>)
    ensures
        lines_view(final(out)@) == lines_view(old(out)@) + barrier_intro(),
{
    let ghost start = lines_view(out@);
    let mut v: Vec<StyledSpan> = Vec::new();
    v.push(span_str("  Press ", style_fg(ThemeColor::TextPrimary)));
    v.push(span_str("[r]", style_fg_bold(ThemeColor::BrandAccent)));
    v.push(span_str(" or ", style_fg(ThemeColor::TextPrimary)));
    v.push(span_str("[v]", style_fg_bold(ThemeColor::BrandAccent)));
    v.push(span_str(" to evaluate all 4 gates against modified workspace files.", style_fg(ThemeColor::TextPrimary)));
    let l = line_from(v);
    assert(line_view(l) =~= barrier_intro()[0]);
    push_line(out, l);
    push_line(out, blank_line_exec());
    push_line(out, two("  • Gate 1: ", style_fg(ThemeColor::Muted), "AST syntax verification and scoped compiler integrity", style_plain()));
    push_line(out, two("  • Gate 2: ", style_fg(ThemeColor::Muted), "Reproducer & regression test suite execution (exit code 0)", style_plain()));
    push_line(out, two("  • Gate 3: ", style_fg(ThemeColor::Muted), "Structural file tree audit & git merge conflict markers", style_plain()));
    push_line(out, two("  • Gate 4: ", style_fg(ThemeColor::Muted), "Diff sanity: zero hardcoded secrets, zero forbidden stdout debug logs", style_plain()));
    assert(lines_view(out@) =~= start + barrier_intro());
}

fn barrier_push(out: &mut Vec<StyledLine>, evaluating: bool, report: &Option<VerificationReport>)
    ensures
        lines_view(final(out)@) == lines_view(old(out)@) + barrier_spec(evaluating, *report),
{
    let ghost start = lines_view(out@);
    push_line(out, two("4-Gate Pre-Completion Verification Barrier", style_fg_bold(ThemeColor::BrandAccent), " — Programmatic Exit Code 0 Gatekeeper", style_fg(ThemeColor::Muted)));
    push_line(out, blank_line_exec());
    if evaluating {
        push_line(out, line_of(span_str("  ⏳ Evaluating verification gates across workspace...", style_fg(ThemeColor::Warning))));
    } else {
        match report {
            Some(r) => report_push(out, r),
            None => barrier_intro_push(out),
        }
    }
    assert(lines_view(out@) =~= start + barrier_spec(evaluating, *report));
}

impl MiniPowerModalState {
    /// The lines of the active tab from the scroll offset on; `table` holds the excuses and
    /// their answers for the anti-rationalization tab.
    pub fn content_lines(&self, table: &Vec<(String, String)>) -> (r: Vec<StyledLine>)
        ensures
            lines_view(r@) == power_content_spec(*self, table@),
    {
        let mut all: Vec<StyledLine> = Vec::new();
        match self.active_tab {
            MiniPowerTab::Pillars => pillars_push(&mut all),
            MiniPowerTab::RedFlags => red_flags_push(&mut all, table),
            MiniPowerTab::VerificationBarrier => barrier_push(&mut all, self.is_evaluating, &self.verification_report),
        }
        let ghost whole = lines_view(all@);
        assert(whole =~= Seq::<Seq<(Seq<char>, SpanStyle)>>::empty() + match self.active_tab {
            MiniPowerTab::Pillars => pillars_spec(),
            MiniPowerTab::RedFlags => red_flags_spec(table@),
            MiniPowerTab::VerificationBarrier => barrier_spec(self.is_evaluating, self.verification_report),
        });
        if self.scroll_offset < all.len() {
            let tail = all.split_off(self.scroll_offset);
            assert(lines_view(tail@) =~= whole.skip(self.scroll_offset as int));
            tail
        } else {
            let empty: Vec<StyledLine> = Vec::new();
            assert(lines_view(empty@) =~= Seq::<Seq<(Seq<char>, SpanStyle)>>::empty());
            empty
        }
    }

    /// The key hints of the active tab.
    pub fn footer_text(&self) -> (r: &'static str)
        ensures
            r@ == power_footer_spec(self.active_tab),
    {
        match self.active_tab {
            MiniPowerTab::VerificationBarrier => " [Tab/←/→] Switch Tab | [r/v] Run Live Verification | [↑/↓] Scroll | [Esc/q] Close ",
            _ => " [Tab/←/→] Switch Tab | [1-3] Select Tab | [↑/↓] Scroll | [Esc/q] Close ",
        }
    }
}

} // verus!
