//! Content of the architecture audit modal as styled lines: the title with the health
//! score, the tab line, the Overview and Cycles tabs, and the key hints.

use vstd::prelude::*;
use crate::records::{ArchitectureReport, CouplingMetric, CouplingRole, LayerViolation};
use crate::text::{decimal, string_from_chars, u64_to_decimal};
use crate::tools::{concat2, concat3};
use crate::ui::modals::blocks_view::{join_sep, join_sep_exec};
use crate::ui::modals::command_catalog::{
    blank_line, blank_line_exec, pad_left, pad_left_exec, pad_right, pad_right_exec,
};
use crate::ui::styled::{
    fg, fg_bold, line_from, line_of, line_view, lines_view, plain_style, push_line, span_str,
    style_fg, style_fg_bold, style_plain, SpanStyle, StyledLine, StyledSpan, ThemeColor,
};

verus! {

/// Colour of the health score: green from 90, amber from 70, red below.
pub open spec fn score_color(score: u32) -> ThemeColor {
    if score >= 90 {
        ThemeColor::Success
    } else if score >= 70 {
        ThemeColor::Warning
    } else {
        ThemeColor::Destructive
    }
}

/// The title line: name, health score and size of the codebase.
pub open spec fn audit_title_spec(r: ArchitectureReport) -> Seq<(Seq<char>, SpanStyle)> {
    seq![
        (" 🏛️ Architecture Governance "@, fg_bold(ThemeColor::BrandAccent)),
        (" [Score: "@ + decimal(r.health_score as nat) + "/100] "@, fg_bold(score_color(r.health_score))),
        (
            "("@ + decimal(r.total_files as nat) + " files, "@ + decimal(r.total_loc as nat)
                + " LOC) "@,
            fg(ThemeColor::Muted),
        ),
    ]
}

/// Name of audit tab `i`.
pub open spec fn audit_tab_name(i: int) -> Seq<char> {
    if i == 0 {
        " [1] Overview & Violations "@
    } else if i == 1 {
        " [2] Coupling Matrix "@
    } else {
        " [3] Circular Cycles "@
    }
}

/// Style of an audit tab: black on the accent colour and bold when active, else muted.
pub open spec fn audit_tab_style(active: bool) -> SpanStyle {
    if active {
        SpanStyle {
            fg: Some(ThemeColor::Black),
            bg: Some(ThemeColor::BrandAccent),
            bold: true,
            underlined: false,
            italic: false, dim: false,
        }
    } else {
        fg(ThemeColor::Muted)
    }
}

/// The tab line: each of the three tabs followed by a space.
pub open spec fn audit_tabs_spec(active_tab: nat) -> Seq<(Seq<char>, SpanStyle)> {
    seq![
        (audit_tab_name(0), audit_tab_style(active_tab == 0)),
        (" "@, plain_style()),
        (audit_tab_name(1), audit_tab_style(active_tab == 1)),
        (" "@, plain_style()),
        (audit_tab_name(2), audit_tab_style(active_tab == 2)),
        (" "@, plain_style()),
    ]
}

/// The pointer in front of the selected entry.
pub open spec fn pointer(selected: bool) -> Seq<char> {
    if selected {
        "  👉 "@
    } else {
        "     "@
    }
}

/// The three lines of a violation: rule, source location and target; message; blank.
pub open spec fn violation_lines(v: LayerViolation, selected: bool) -> Seq<Seq<(Seq<char>, SpanStyle)>> {
    seq![
        seq![
            (pointer(selected), plain_style()),
            ("["@ + v.rule_id@ + "] "@, fg(ThemeColor::Destructive)),
            (v.source_file@ + ":"@ + decimal(v.line_number as nat) + " ➔ "@, if selected {
                fg_bold(ThemeColor::BrandAccent)
            } else {
                fg(ThemeColor::TextPrimary)
            }),
            (v.target_module@, fg(ThemeColor::BrandAccent)),
        ],
        seq![("        "@, plain_style()), (v.message@, fg(ThemeColor::Muted))],
        blank_line(),
    ]
}

/// The lines of the first `k` violations.
pub open spec fn violations_spec(vs: Seq<LayerViolation>, sel: nat, k: int) -> Seq<
    Seq<(Seq<char>, SpanStyle)>,
>
    decreases k,
{
    if k <= 0 {
        seq![]
    } else {
        violations_spec(vs, sel, k - 1) + violation_lines(vs[k - 1], k - 1 == sel)
    }
}

/// The list of oversized files, if there are any.
pub open spec fn god_files_spec(gs: Seq<(String, usize)>) -> Seq<Seq<(Seq<char>, SpanStyle)>> {
    if gs.len() == 0 {
        seq![]
    } else {
        seq![seq![("  ⚠️  God Files (>1,000 LOC):"@, fg(ThemeColor::Warning))]] + Seq::new(
            gs.len(),
            |i: int|
                seq![
                    ("    • "@, plain_style()),
                    (gs[i].0@, fg(ThemeColor::TextPrimary)),
                    (" ("@ + decimal(gs[i].1 as nat) + " lines)"@, fg(ThemeColor::Muted)),
                ],
        ) + seq![blank_line()]
    }
}

/// The Overview tab: a clean bill of health, or the count of violations and cycles and the
/// violations; then the oversized files.
pub open spec fn overview_spec(r: ArchitectureReport, sel: nat) -> Seq<Seq<(Seq<char>, SpanStyle)>> {
    let nv = r.layer_violations@.len();
    let nc = r.circular_cycles@.len();
    seq![blank_line()] + (if nv == 0 && nc == 0 {
        seq![
            seq![
                ("  ✔ "@, fg(ThemeColor::Success)),
                (
                    "All architectural boundaries are intact and 100% DAG compliant."@,
                    fg_bold(ThemeColor::TextPrimary),
                ),
            ],
            blank_line(),
            seq![
                (
                    "    No layer inversions or cross-module boundary violations detected."@,
                    fg(ThemeColor::Muted),
                ),
            ],
        ]
    } else {
        seq![
            seq![
                (
                    "  ⚠️  Detected "@ + decimal(nv) + " Layer Violations and "@ + decimal(nc)
                        + " Circular Cycles:"@,
                    fg(ThemeColor::Warning),
                ),
            ],
            blank_line(),
        ] + violations_spec(r.layer_violations@, sel, nv as int)
    }) + god_files_spec(r.god_files@)
}

/// The Cycles tab: a clean bill of health, or the count of cycles and each cycle's modules
/// joined with arrows.
pub open spec fn cycles_spec(r: ArchitectureReport, sel: nat) -> Seq<Seq<(Seq<char>, SpanStyle)>> {
    let cs = r.circular_cycles@;
    seq![blank_line()] + (if cs.len() == 0 {
        seq![
            seq![
                ("  ✔ "@, fg(ThemeColor::Success)),
                (
                    "Codebase is 100% DAG compliant — zero circular dependency cycles."@,
                    fg_bold(ThemeColor::TextPrimary),
                ),
            ],
        ]
    } else {
        seq![
            seq![
                (
                    "  ⚠️  Detected "@ + decimal(cs.len()) + " Strongly Connected Component Cycles:"@,
                    fg(ThemeColor::Destructive),
                ),
            ],
            blank_line(),
        ] + Seq::new(
            cs.len(),
            |i: int|
                seq![
                    (pointer(i == sel), plain_style()),
                    ("Cycle #"@ + decimal((i + 1) as nat) + ": "@, fg(ThemeColor::Warning)),
                    (join_sep(cs[i]@, " ➔ "@), fg(ThemeColor::TextPrimary)),
                ],
        )
    })
}

/// The key hints of the footer.
pub open spec fn audit_footer_spec() -> Seq<(Seq<char>, SpanStyle)> {
    seq![
        (" [1/2/3/Tab] "@, fg(ThemeColor::BrandAccent)),
        ("Switch View  "@, fg(ThemeColor::Muted)),
        (" [↑/↓] "@, fg(ThemeColor::BrandAccent)),
        ("Navigate/Scroll  "@, fg(ThemeColor::Muted)),
        (" [Esc] "@, fg(ThemeColor::BrandAccent)),
        ("Dismiss"@, fg(ThemeColor::Muted)),
    ]
}

/// Name of a coupling role.
pub open spec fn role_text(r: CouplingRole) -> Seq<char> {
    match r {
        CouplingRole::Core => "🛡️ Core Base"@,
        CouplingRole::Leaf => "🍃 Leaf / UI"@,
        CouplingRole::Mediator => "⚖️ Mediator"@,
    }
}

/// The columns of the coupling table, after their two-character prefix.
pub open spec fn coupling_columns(
    name: Seq<char>,
    files: Seq<char>,
    loc: Seq<char>,
    ca: Seq<char>,
    ce: Seq<char>,
    instab: Seq<char>,
    role: Seq<char>,
) -> Seq<char> {
    pad_right(name, 18) + " "@ + pad_left(files, 6) + " "@ + pad_left(loc, 8) + " "@ + pad_left(ca, 6)
        + " "@ + pad_left(ce, 6) + " "@ + pad_left(instab, 8) + "   "@ + role
}

/// A row of the coupling table.
pub open spec fn coupling_row(m: CouplingMetric, selected: bool) -> Seq<(Seq<char>, SpanStyle)> {
    seq![
        ((if selected {
            "▶ "@
        } else {
            "  "@
        }) + coupling_columns(
            m.module_name@,
            decimal(m.file_count as nat),
            decimal(m.total_loc as nat),
            decimal(m.afferent_coupling as nat),
            decimal(m.efferent_coupling as nat),
            m.instability_text@,
            role_text(m.role),
        ), if selected {
            fg_bold(ThemeColor::BrandAccent)
        } else {
            fg(ThemeColor::TextPrimary)
        }),
    ]
}

/// The Coupling tab: heading, the underlined column header and one row per module.
pub open spec fn coupling_spec(r: ArchitectureReport, sel: nat) -> Seq<Seq<(Seq<char>, SpanStyle)>> {
    seq![
        blank_line(),
        seq![
            (
                "  Module Coupling & Robert C. Martin Instability (I = Ce / [Ca + Ce]):"@,
                fg_bold(ThemeColor::BrandAccent),
            ),
        ],
        blank_line(),
        seq![
            ("  "@ + coupling_columns(
                "Module"@,
                "Files"@,
                "LOC"@,
                "Ca"@,
                "Ce"@,
                "Instab(I)"@,
                "Role"@,
            ), SpanStyle {
                fg: Some(ThemeColor::Muted),
                bg: None,
                bold: false,
                underlined: true,
                italic: false, dim: false,
            }),
        ],
    ] + Seq::new(
        r.coupling_metrics@.len(),
        |i: int| coupling_row(r.coupling_metrics@[i], i == sel),
    )
}

/// The content area from line `scroll` on: the Overview, Coupling or (from tab 2 on)
/// Cycles tab.
pub open spec fn audit_content_spec(r: ArchitectureReport, tab: nat, sel: nat, scroll: nat) -> Seq<
    Seq<(Seq<char>, SpanStyle)>,
> {
    let c = if tab == 0 {
        overview_spec(r, sel)
    } else if tab == 1 {
        coupling_spec(r, sel)
    } else {
        cycles_spec(r, sel)
    };
    if scroll < c.len() {
        c.skip(scroll as int)
    } else {
        seq![]
    }
}

fn decimal_string(n: u64) -> (r: String)
    ensures
        r@ == decimal(n as nat),
{
    string_from_chars(&u64_to_decimal(n))
}

fn pointer_exec(selected: bool) -> (r: &'static str)
    ensures
        r@ == pointer(selected),
{
    if selected {
        "  👉 "
    } else {
        "     "
    }
}

/// The title line of the audit modal.
pub fn audit_title(r: &ArchitectureReport) -> (l: StyledLine)
    ensures
        line_view(l) == audit_title_spec(*r),
{
    let color = if r.health_score >= 90 {
        ThemeColor::Success
    } else if r.health_score >= 70 {
        ThemeColor::Warning
    } else {
        ThemeColor::Destructive
    };
    let score = concat3(" [Score: ", decimal_string(r.health_score as u64).as_str(), "/100] ");
    let size = concat3(
        concat2("(", decimal_string(r.total_files as u64).as_str()).as_str(),
        " files, ",
        concat2(decimal_string(r.total_loc as u64).as_str(), " LOC) ").as_str(),
    );
    assert(size@ =~= "("@ + decimal(r.total_files as nat) + " files, "@ + decimal(
        r.total_loc as nat,
    ) + " LOC) "@);
    let mut v: Vec<StyledSpan> = Vec::new();
    v.push(span_str(" 🏛️ Architecture Governance ", style_fg_bold(ThemeColor::BrandAccent)));
    v.push(span_str(score.as_str(), style_fg_bold(color)));
    v.push(span_str(size.as_str(), style_fg(ThemeColor::Muted)));
    let l = line_from(v);
    assert(line_view(l) =~= audit_title_spec(*r));
    l
}

fn tab_style_exec(active: bool) -> (s: SpanStyle)
    ensures
        s == audit_tab_style(active),
{
    if active {
        SpanStyle {
            fg: Some(ThemeColor::Black),
            bg: Some(ThemeColor::BrandAccent),
            bold: true,
            underlined: false,
            italic: false, dim: false,
        }
    } else {
        style_fg(ThemeColor::Muted)
    }
}

/// The tab line with tab `active_tab` highlighted.
pub fn audit_tabs(active_tab: usize) -> (l: StyledLine)
    ensures
        line_view(l) == audit_tabs_spec(active_tab as nat),
{
    let mut v: Vec<StyledSpan> = Vec::new();
    v.push(span_str(" [1] Overview & Violations ", tab_style_exec(active_tab == 0)));
    v.push(span_str(" ", style_plain()));
    v.push(span_str(" [2] Coupling Matrix ", tab_style_exec(active_tab == 1)));
    v.push(span_str(" ", style_plain()));
    v.push(span_str(" [3] Circular Cycles ", tab_style_exec(active_tab == 2)));
    v.push(span_str(" ", style_plain()));
    let l = line_from(v);
    assert(line_view(l) =~= audit_tabs_spec(active_tab as nat));
    l
}

fn push_violation(out: &mut Vec<StyledLine>, v: &LayerViolation, selected: bool)
    ensures
        lines_view(final(out)@) == lines_view(old(out)@) + violation_lines(*v, selected),
{
    let ghost start = lines_view(out@);
    let location = concat3(
        concat2(v.source_file.as_str(), ":").as_str(),
        decimal_string(v.line_number as u64).as_str(),
        " ➔ ",
    );
    let mut a: Vec<StyledSpan> = Vec::new();
    a.push(span_str(pointer_exec(selected), style_plain()));
    a.push(span_str(concat3("[", v.rule_id.as_str(), "] ").as_str(), style_fg(ThemeColor::Destructive)));
    a.push(span_str(
        location.as_str(),
        if selected {
            style_fg_bold(ThemeColor::BrandAccent)
        } else {
            style_fg(ThemeColor::TextPrimary)
        },
    ));
    a.push(span_str(v.target_module.as_str(), style_fg(ThemeColor::BrandAccent)));
    let la = line_from(a);
    assert(line_view(la) =~= violation_lines(*v, selected)[0]);
    let mut b: Vec<StyledSpan> = Vec::new();
    b.push(span_str("        ", style_plain()));
    b.push(span_str(v.message.as_str(), style_fg(ThemeColor::Muted)));
    let lb = line_from(b);
    assert(line_view(lb) =~= violation_lines(*v, selected)[1]);
    push_line(out, la);
    push_line(out, lb);
    push_line(out, blank_line_exec());
    assert(lines_view(out@) =~= start + violation_lines(*v, selected));
}

fn push_god_files(out: &mut Vec<StyledLine>, gs: &Vec<(String, usize)>)
    ensures
        lines_view(final(out)@) == lines_view(old(out)@) + god_files_spec(gs@),
{
    if gs.len() == 0 {
        assert(lines_view(out@) =~= lines_view(out@) + god_files_spec(gs@));
        return;
    }
    let ghost start = lines_view(out@);
    push_line(out, line_of(span_str("  ⚠️  God Files (>1,000 LOC):", style_fg(ThemeColor::Warning))));
    let ghost head = lines_view(out@);
    let mut i: usize = 0;
    while i < gs.len()
        invariant
            i <= gs@.len(),
            lines_view(out@) == head + Seq::new(
                i as nat,
                |j: int|
                    seq![
                        ("    • "@, plain_style()),
                        (gs@[j].0@, fg(ThemeColor::TextPrimary)),
                        (" ("@ + decimal(gs@[j].1 as nat) + " lines)"@, fg(ThemeColor::Muted)),
                    ],
            ),
        decreases gs@.len() - i,
    {
        let mut v: Vec<StyledSpan> = Vec::new();
        v.push(span_str("    • ", style_plain()));
        v.push(span_str(gs[i].0.as_str(), style_fg(ThemeColor::TextPrimary)));
        v.push(span_str(
            concat3(" (", decimal_string(gs[i].1 as u64).as_str(), " lines)").as_str(),
            style_fg(ThemeColor::Muted),
        ));
        let l = line_from(v);
        assert(line_view(l) =~= seq![
            ("    • "@, plain_style()),
            (gs@[i as int].0@, fg(ThemeColor::TextPrimary)),
            (" ("@ + decimal(gs@[i as int].1 as nat) + " lines)"@, fg(ThemeColor::Muted)),
        ]);
        push_line(out, l);
        i += 1;
        assert(lines_view(out@) =~= head + Seq::new(
            i as nat,
            |j: int|
                seq![
                    ("    • "@, plain_style()),
                    (gs@[j].0@, fg(ThemeColor::TextPrimary)),
                    (" ("@ + decimal(gs@[j].1 as nat) + " lines)"@, fg(ThemeColor::Muted)),
                ],
        ));
    }
    push_line(out, blank_line_exec());
    assert(lines_view(out@) =~= start + god_files_spec(gs@));
}

/// The Overview tab's lines with violation `sel` pointed at.
pub fn overview_lines(r: &ArchitectureReport, sel: usize) -> (out: Vec<StyledLine>)
    ensures
        lines_view(out@) == overview_spec(*r, sel as nat),
{
    let nv = r.layer_violations.len();
    let nc = r.circular_cycles.len();
    let mut out: Vec<StyledLine> = Vec::new();
    push_line(&mut out, blank_line_exec());
    if nv == 0 && nc == 0 {
        let mut a: Vec<StyledSpan> = Vec::new();
        a.push(span_str("  ✔ ", style_fg(ThemeColor::Success)));
        a.push(span_str(
            "All architectural boundaries are intact and 100% DAG compliant.",
            style_fg_bold(ThemeColor::TextPrimary),
        ));
        let la = line_from(a);
        assert(line_view(la) =~= seq![
            ("  ✔ "@, fg(ThemeColor::Success)),
            (
                "All architectural boundaries are intact and 100% DAG compliant."@,
                fg_bold(ThemeColor::TextPrimary),
            ),
        ]);
        push_line(&mut out, la);
        push_line(&mut out, blank_line_exec());
        push_line(&mut out, line_of(span_str(
            "    No layer inversions or cross-module boundary violations detected.",
            style_fg(ThemeColor::Muted),
        )));
    } else {
        let heading = concat3(
            concat2("  ⚠️  Detected ", decimal_string(nv as u64).as_str()).as_str(),
            " Layer Violations and ",
            concat2(decimal_string(nc as u64).as_str(), " Circular Cycles:").as_str(),
        );
        assert(heading@ =~= "  ⚠️  Detected "@ + decimal(nv as nat) + " Layer Violations and "@
            + decimal(nc as nat) + " Circular Cycles:"@);
        push_line(&mut out, line_of(span_str(heading.as_str(), style_fg(ThemeColor::Warning))));
        push_line(&mut out, blank_line_exec());
        let ghost head = lines_view(out@);
        let mut k: usize = 0;
        while k < nv
            invariant
                k <= nv,
                nv == r.layer_violations@.len(),
                lines_view(out@) == head + violations_spec(r.layer_violations@, sel as nat, k as int),
            decreases nv - k,
        {
            push_violation(&mut out, &r.layer_violations[k], k == sel);
            k += 1;
            assert(lines_view(out@) =~= head + violations_spec(
                r.layer_violations@,
                sel as nat,
                k as int,
            ));
        }
    }
    let ghost mid = lines_view(out@);
    proof {
        let nv0 = r.layer_violations@.len();
        let nc0 = r.circular_cycles@.len();
        if nv0 == 0 && nc0 == 0 {
        } else {
            assert(violations_spec(r.layer_violations@, sel as nat, nv0 as int) == violations_spec(
                r.layer_violations@,
                sel as nat,
                nv as int,
            ));
        }
        let ov = overview_spec(*r, sel as nat);
        assert(ov =~= mid + god_files_spec(r.god_files@));
    }
    push_god_files(&mut out, &r.god_files);
    assert(lines_view(out@) =~= overview_spec(*r, sel as nat));
    out
}

/// The Cycles tab's lines with cycle `sel` pointed at.
pub fn cycles_lines(r: &ArchitectureReport, sel: usize) -> (out: Vec<StyledLine>)
    ensures
        lines_view(out@) == cycles_spec(*r, sel as nat),
{
    let nc = r.circular_cycles.len();
    let mut out: Vec<StyledLine> = Vec::new();
    push_line(&mut out, blank_line_exec());
    if nc == 0 {
        let mut a: Vec<StyledSpan> = Vec::new();
        a.push(span_str("  ✔ ", style_fg(ThemeColor::Success)));
        a.push(span_str(
            "Codebase is 100% DAG compliant — zero circular dependency cycles.",
            style_fg_bold(ThemeColor::TextPrimary),
        ));
        let la = line_from(a);
        assert(line_view(la) =~= seq![
            ("  ✔ "@, fg(ThemeColor::Success)),
            (
                "Codebase is 100% DAG compliant — zero circular dependency cycles."@,
                fg_bold(ThemeColor::TextPrimary),
            ),
        ]);
        push_line(&mut out, la);
    } else {
        let heading = concat3(
            "  ⚠️  Detected ",
            decimal_string(nc as u64).as_str(),
            " Strongly Connected Component Cycles:",
        );
        push_line(&mut out, line_of(span_str(heading.as_str(), style_fg(ThemeColor::Destructive))));
        push_line(&mut out, blank_line_exec());
        let ghost head = lines_view(out@);
        let mut i: usize = 0;
        while i < nc
            invariant
                i <= nc,
                nc == r.circular_cycles@.len(),
                lines_view(out@) == head + Seq::new(
                    i as nat,
                    |j: int|
                        seq![
                            (pointer(j == sel), plain_style()),
                            ("Cycle #"@ + decimal((j + 1) as nat) + ": "@, fg(ThemeColor::Warning)),
                            (join_sep(r.circular_cycles@[j]@, " ➔ "@), fg(ThemeColor::TextPrimary)),
                        ],
                ),
            decreases nc - i,
        {
            let mut v: Vec<StyledSpan> = Vec::new();
            v.push(span_str(pointer_exec(i == sel), style_plain()));
            v.push(span_str(
                concat3("Cycle #", decimal_string((i + 1) as u64).as_str(), ": ").as_str(),
                style_fg(ThemeColor::Warning),
            ));
            v.push(span_str(
                join_sep_exec(&r.circular_cycles[i], " ➔ ").as_str(),
                style_fg(ThemeColor::TextPrimary),
            ));
            let l = line_from(v);
            assert(line_view(l) =~= seq![
                (pointer(i == sel), plain_style()),
                ("Cycle #"@ + decimal((i + 1) as nat) + ": "@, fg(ThemeColor::Warning)),
                (join_sep(r.circular_cycles@[i as int]@, " ➔ "@), fg(ThemeColor::TextPrimary)),
            ]);
            push_line(&mut out, l);
            i += 1;
            assert(lines_view(out@) =~= head + Seq::new(
                i as nat,
                |j: int|
                    seq![
                        (pointer(j == sel), plain_style()),
                        ("Cycle #"@ + decimal((j + 1) as nat) + ": "@, fg(ThemeColor::Warning)),
                        (join_sep(r.circular_cycles@[j]@, " ➔ "@), fg(ThemeColor::TextPrimary)),
                    ],
            ));
        }
    }
    assert(lines_view(out@) =~= cycles_spec(*r, sel as nat));
    out
}

/// The footer's key hints.
pub fn audit_footer() -> (l: StyledLine)
    ensures
        line_view(l) == audit_footer_spec(),
{
    let accent = style_fg(ThemeColor::BrandAccent);
    let muted = style_fg(ThemeColor::Muted);
    let mut v: Vec<StyledSpan> = Vec::new();
    v.push(span_str(" [1/2/3/Tab] ", accent));
    v.push(span_str("Switch View  ", muted));
    v.push(span_str(" [↑/↓] ", accent));
    v.push(span_str("Navigate/Scroll  ", muted));
    v.push(span_str(" [Esc] ", accent));
    v.push(span_str("Dismiss", muted));
    let l = line_from(v);
    assert(line_view(l) =~= audit_footer_spec());
    l
}


fn columns_exec(
    name: &str,
    files: &str,
    loc: &str,
    ca: &str,
    ce: &str,
    instab: &str,
    role: &str,
) -> (r: String)
    ensures
        r@ == coupling_columns(name@, files@, loc@, ca@, ce@, instab@, role@),
{
    let mut s = pad_right_exec(name, 18);
    crate::text::push_str(&mut s, " ");
    crate::text::push_str(&mut s, pad_left_exec(files, 6).as_str());
    crate::text::push_str(&mut s, " ");
    crate::text::push_str(&mut s, pad_left_exec(loc, 8).as_str());
    crate::text::push_str(&mut s, " ");
    crate::text::push_str(&mut s, pad_left_exec(ca, 6).as_str());
    crate::text::push_str(&mut s, " ");
    crate::text::push_str(&mut s, pad_left_exec(ce, 6).as_str());
    crate::text::push_str(&mut s, " ");
    crate::text::push_str(&mut s, pad_left_exec(instab, 8).as_str());
    crate::text::push_str(&mut s, "   ");
    crate::text::push_str(&mut s, role);
    s
}

/// The Coupling tab's lines with module `sel` highlighted.
pub fn coupling_lines(r: &ArchitectureReport, sel: usize) -> (out: Vec<StyledLine>)
    ensures
        lines_view(out@) == coupling_spec(*r, sel as nat),
{
    let mut out: Vec<StyledLine> = Vec::new();
    push_line(&mut out, blank_line_exec());
    push_line(&mut out, line_of(span_str(
        "  Module Coupling & Robert C. Martin Instability (I = Ce / [Ca + Ce]):",
        style_fg_bold(ThemeColor::BrandAccent),
    )));
    push_line(&mut out, blank_line_exec());
    let header = concat2("  ", columns_exec("Module", "Files", "LOC", "Ca", "Ce", "Instab(I)", "Role").as_str());
    push_line(&mut out, line_of(span_str(header.as_str(), SpanStyle {
        fg: Some(ThemeColor::Muted),
        bg: None,
        bold: false,
        underlined: true,
        italic: false, dim: false,
    })));
    let ghost head = lines_view(out@);
    let ms = &r.coupling_metrics;
    let mut i: usize = 0;
    while i < ms.len()
        invariant
            i <= ms@.len(),
            ms@ == r.coupling_metrics@,
            lines_view(out@) == head + Seq::new(i as nat, |j: int| coupling_row(ms@[j], j == sel)),
        decreases ms@.len() - i,
    {
        let m = &ms[i];
        let role = match m.role {
            CouplingRole::Core => "🛡️ Core Base",
            CouplingRole::Leaf => "🍃 Leaf / UI",
            CouplingRole::Mediator => "⚖️ Mediator",
        };
        let cols = columns_exec(
            m.module_name.as_str(),
            decimal_string(m.file_count as u64).as_str(),
            decimal_string(m.total_loc as u64).as_str(),
            decimal_string(m.afferent_coupling as u64).as_str(),
            decimal_string(m.efferent_coupling as u64).as_str(),
            m.instability_text.as_str(),
            role,
        );
        let text = concat2(
            if i == sel {
                "▶ "
            } else {
                "  "
            },
            cols.as_str(),
        );
        let st = if i == sel {
            style_fg_bold(ThemeColor::BrandAccent)
        } else {
            style_fg(ThemeColor::TextPrimary)
        };
        let l = line_of(span_str(text.as_str(), st));
        assert(line_view(l) =~= coupling_row(ms@[i as int], i == sel));
        push_line(&mut out, l);
        i += 1;
        assert(lines_view(out@) =~= head + Seq::new(i as nat, |j: int| coupling_row(ms@[j], j == sel)));
    }
    assert(lines_view(out@) =~= coupling_spec(*r, sel as nat));
    out
}

/// The audit's content area for tab `tab`, with entry `sel` pointed at, from line
/// `scroll` on.
pub fn audit_content_lines(r: &ArchitectureReport, tab: usize, sel: usize, scroll: usize) -> (out: Vec<StyledLine>)
    ensures
        lines_view(out@) == audit_content_spec(*r, tab as nat, sel as nat, scroll as nat),
{
    let mut c = if tab == 0 {
        overview_lines(r, sel)
    } else if tab == 1 {
        coupling_lines(r, sel)
    } else {
        cycles_lines(r, sel)
    };
    if scroll < c.len() {
        let ghost all = c@;
        let rest = c.split_off(scroll);
        assert(rest@ =~= all.skip(scroll as int));
        assert(lines_view(rest@) =~= lines_view(all).skip(scroll as int));
        rest
    } else {
        Vec::new()
    }
}

} // verus!
