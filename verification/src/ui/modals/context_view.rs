//! Content of the context visualizer modal as styled lines. Figures that are floating-point
//! ratios (window use, cache hit rate, kilobytes) and the texts of the context budget (its
//! progress bar and advice) arrive already formatted.

use vstd::prelude::*;
use crate::text::{decimal, string_from_chars, u64_to_decimal};
use crate::tools::{concat2, concat3};
use crate::ui::modals::architecture_view::audit_tab_style;
use crate::ui::modals::blocks_view::{join_sep, join_sep_exec};
use crate::ui::modals::command_catalog::{blank_line, blank_line_exec, pad_right, pad_right_exec};
use crate::ui::styled::{
    fg, fg_bold, line_from, line_view, lines_view, plain_style, push_line, span_str, style_fg,
    style_fg_bold, style_plain, SpanStyle, StyledLine, StyledSpan, ThemeColor,
};

verus! {

/// How full the context window is: under 60%, under 80%, or more.
#[derive(Debug, Clone, Copy, PartialEq, Eq, Structural)]
pub enum UsageLevel {
    Low,
    Medium,
    High,
}

/// A snapshot of the context window, caches, rules and memory.
#[derive(Debug, Clone)]
pub struct ContextDiagnosticsData {
    pub model_name: String,
    pub provider_name: String,
    pub context_limit: usize,
    pub used_tokens: usize,
    pub headroom_tokens: usize,
    /// Window use in percent, with one decimal.
    pub utilization_text: String,
    pub usage_level: UsageLevel,
    /// The budget's progress bar.
    pub progress_bar: String,
    /// The budget's advice on headroom.
    pub advice: String,
    pub cached_tokens: usize,
    /// Cache hit rate in percent, with one decimal.
    pub cache_hit_text: String,
    pub provider_cache_type: String,
    pub ttft_savings: String,
    pub cost_savings: String,
    pub kv_anchor_status: String,
    pub prefix_stability: String,
    pub dox_rules_files: Vec<String>,
    pub dox_total_lines: usize,
    pub dox_estimated_tokens: usize,
    pub memory_l0_count: usize,
    pub memory_l1_count: usize,
    pub memory_l2_count: usize,
    pub memory_l3_count: usize,
    pub memory_sample_keys: Vec<String>,
    pub working_memory_active: bool,
    pub working_memory_lines: usize,
    pub active_working_set_files: usize,
    pub conversation_messages_count: usize,
    pub ccr_entries_count: usize,
    pub ccr_total_bytes: usize,
    /// Size of the observation cache in kilobytes, with one decimal.
    pub ccr_kb_text: String,
}

/// Colour of the window use.
pub open spec fn usage_color(l: UsageLevel) -> ThemeColor {
    match l {
        UsageLevel::Low => ThemeColor::Success,
        UsageLevel::Medium => ThemeColor::Warning,
        UsageLevel::High => ThemeColor::Destructive,
    }
}

/// The title line: name, window use and token counts.
pub open spec fn context_title_spec(d: ContextDiagnosticsData) -> Seq<(Seq<char>, SpanStyle)> {
    seq![
        (" ⚡ Context Visualizer & KV-Cache Telemetry "@, fg_bold(ThemeColor::BrandAccent)),
        (" ["@ + d.utilization_text@ + "% Window Used] "@, fg_bold(usage_color(d.usage_level))),
        (
            "("@ + decimal(d.used_tokens as nat) + "/"@ + decimal(d.context_limit as nat) + " tokens | KV: "@
                + d.cache_hit_text@ + "%) "@,
            fg(ThemeColor::Muted),
        ),
    ]
}

/// Name of tab `i`.
pub open spec fn context_tab_name(i: int) -> Seq<char> {
    if i == 0 {
        " [1] Token Budget & Allocation "@
    } else if i == 1 {
        " [2] KV-Cache & Prefix Diagnostics "@
    } else {
        " [3] Memory, Rules & CCR Storage "@
    }
}

/// The tab line: each tab followed by a space.
pub open spec fn context_tabs_spec(tab: nat) -> Seq<(Seq<char>, SpanStyle)> {
    seq![
        (context_tab_name(0), audit_tab_style(tab == 0)),
        (" "@, plain_style()),
        (context_tab_name(1), audit_tab_style(tab == 1)),
        (" "@, plain_style()),
        (context_tab_name(2), audit_tab_style(tab == 2)),
        (" "@, plain_style()),
    ]
}

/// A row of the zone table.
pub open spec fn zone_row(title: Seq<char>, desc: Seq<char>, size: Seq<char>, status: Seq<char>) -> Seq<
    (Seq<char>, SpanStyle),
> {
    seq![
        (pad_right(title, 26) + " "@, fg_bold(ThemeColor::TextPrimary)),
        (pad_right(size, 18) + " "@, fg(ThemeColor::Highlight)),
        ("["@ + pad_right(status, 14) + "] "@, fg(ThemeColor::Muted)),
        (desc, fg(ThemeColor::Muted)),
    ]
}

/// Total memory entries over the four tiers.
pub open spec fn memory_total(d: ContextDiagnosticsData) -> nat {
    (d.memory_l0_count + d.memory_l1_count + d.memory_l2_count + d.memory_l3_count) as nat
}

/// The budget tab: model, limit and headroom; window use; the zone table; the advice.
pub open spec fn budget_tab_spec(d: ContextDiagnosticsData) -> Seq<Seq<(Seq<char>, SpanStyle)>> {
    let c = usage_color(d.usage_level);
    seq![
        seq![
            ("● Active Model: "@, fg(ThemeColor::Muted)),
            (d.model_name@ + " ("@ + d.provider_name@ + ")"@, fg_bold(ThemeColor::Highlight)),
            ("  "@, plain_style()),
            ("● Window Limit: "@, fg(ThemeColor::Muted)),
            (decimal(d.context_limit as nat) + " tokens"@, fg(ThemeColor::TextPrimary)),
            ("  "@, plain_style()),
            ("● Headroom: "@, fg(ThemeColor::Muted)),
            (decimal(d.headroom_tokens as nat) + " tokens"@, fg(ThemeColor::Success)),
        ],
        blank_line(),
        seq![
            ("Utilization: "@, fg(ThemeColor::Muted)),
            (d.progress_bar@, fg_bold(c)),
            (" "@ + d.utilization_text@ + "%"@, fg_bold(c)),
        ],
        blank_line(),
        seq![("--- Context Window Zone Allocations ---"@, fg_bold(ThemeColor::BrandAccent))],
        blank_line(),
        zone_row(
            "🛡️ System Prompt & Tools"@,
            "Base identity, instructions, and compacted tool schemas"@,
            "~2,400 tokens"@,
            "Fixed Baseline"@,
        ),
        zone_row(
            "📜 Hierarchical DOX Rules"@,
            "Localized developer instructions from AGENTS.md & .dox"@,
            "~"@ + decimal(d.dox_estimated_tokens as nat) + " tokens ("@ + decimal(d.dox_total_lines as nat)
                + " lines)"@,
            "Cached Prefix"@,
        ),
        zone_row(
            "🧠 Progressive Memory"@,
            "L0-L3 architectural facts, project conventions, preferences"@,
            decimal(memory_total(d)) + " entries"@,
            "Decay-Managed"@,
        ),
        zone_row(
            "📋 Working Memory / Plan"@,
            if d.working_memory_active {
                "Active plan.md & scratchpad checklist"@
            } else {
                "No active plan file"@
            },
            decimal(d.working_memory_lines as nat) + " lines ("@ + decimal(d.active_working_set_files as nat)
                + " active files)"@,
            "Volatile State"@,
        ),
        zone_row(
            "💬 Conversation Timeline"@,
            "Turns, user queries, assistant replies, tool interactions"@,
            decimal(d.conversation_messages_count as nat) + " entries ("@ + decimal(d.used_tokens as nat)
                + " used tokens)"@,
            "Append-Only"@,
        ),
        zone_row(
            "📦 Reversible CCR Cache"@,
            "Offline compressed observations stored losslessly"@,
            decimal(d.ccr_entries_count as nat) + " observations ("@ + decimal((d.ccr_total_bytes / 1024) as nat)
                + " KB)"@,
            "On-Demand"@,
        ),
        blank_line(),
        seq![("● Headroom Advice: "@, fg(ThemeColor::Muted)), (d.advice@, fg(c))],
    ]
}

/// A labelled value.
pub open spec fn labelled(label: Seq<char>, value: Seq<char>, color: ThemeColor) -> Seq<(Seq<char>, SpanStyle)> {
    seq![(label, fg(ThemeColor::Muted)), (value, fg(color))]
}

/// A cache principle.
pub open spec fn principle(title: Seq<char>, desc: Seq<char>) -> Seq<(Seq<char>, SpanStyle)> {
    seq![("• "@ + pad_right(title, 26) + " "@, fg_bold(ThemeColor::Highlight)), (desc, fg(ThemeColor::Muted))]
}

/// The cache tab: hit rate, speed-up, discount, anchor, history, provider cache, and the
/// prefix stability principles.
pub open spec fn cache_tab_spec(d: ContextDiagnosticsData) -> Seq<Seq<(Seq<char>, SpanStyle)>> {
    seq![
        seq![("--- Real-Time KV-Cache Prefix Diagnostics ---"@, fg_bold(ThemeColor::BrandAccent))],
        blank_line(),
        seq![
            ("⚡ KV Cache Hit Rate:       "@, fg(ThemeColor::Muted)),
            (d.cache_hit_text@ + "% "@, fg_bold(ThemeColor::Success)),
            (
                "("@ + decimal(d.cached_tokens as nat) + " cached tokens out of "@ + decimal(d.used_tokens as nat)
                    + " total)"@,
                fg(ThemeColor::TextPrimary),
            ),
        ],
        labelled("⏱️ TTFT Acceleration:       "@, d.ttft_savings@, ThemeColor::Highlight),
        labelled("💰 Input Token Discount:    "@, d.cost_savings@, ThemeColor::Success),
        labelled("⚓ Cache Boundary Anchor:    "@, d.kv_anchor_status@, ThemeColor::TextPrimary),
        labelled("🔒 History Immutability:    "@, d.prefix_stability@, ThemeColor::TextPrimary),
        labelled("🏷️ Active Provider Cache:   "@, d.provider_cache_type@, ThemeColor::BrandAccent),
        blank_line(),
        seq![("--- Prefix Stability Principles ---"@, fg_bold(ThemeColor::BrandAccent))],
        blank_line(),
        principle(
            "1. Append-Only History"@,
            "Conversation messages are strictly immutable across turns to preserve KV byte alignment."@,
        ),
        principle(
            "2. Stable Pre-Sorted Tools"@,
            "Tool schemas are deterministically alphabetized to prevent random permutation cache-busts."@,
        ),
        principle(
            "3. Tiered Recency Context"@,
            "Static context (DOX rules & progressive memory) is ordered before volatile session state."@,
        ),
        principle(
            "4. Ephemeral Breakpoints"@,
            "Anthropic cache breakpoints and OpenAI 1024-token aligned blocks maximize hardware reuse."@,
        ),
    ]
}

/// A memory tier line.
pub open spec fn tier_line(label: Seq<char>, count: nat, note: Seq<char>) -> Seq<(Seq<char>, SpanStyle)> {
    seq![
        (label, fg(ThemeColor::Muted)),
        (decimal(count) + " entries"@, fg(ThemeColor::TextPrimary)),
        (note, fg(ThemeColor::Muted)),
    ]
}

/// The storage tab: rule files, memory tiers and sample keys, the observation cache.
pub open spec fn storage_tab_spec(d: ContextDiagnosticsData) -> Seq<Seq<(Seq<char>, SpanStyle)>> {
    seq![
        seq![("--- Hierarchical DOX Rules & Memory Storage ---"@, fg_bold(ThemeColor::BrandAccent))],
        blank_line(),
        seq![
            ("📜 Discovered DOX Files: "@, fg(ThemeColor::Muted)),
            (if d.dox_rules_files@.len() == 0 {
                "None (Using default conventions)"@
            } else {
                join_sep(d.dox_rules_files@, ", "@)
            }, fg(ThemeColor::Highlight)),
            (" ("@ + decimal(d.dox_total_lines as nat) + " lines total)"@, fg(ThemeColor::Muted)),
        ],
        blank_line(),
        seq![("🧠 Progressive Memory Tiers:"@, fg_bold(ThemeColor::TextPrimary))],
        tier_line("  • L0 Working Scratchpad:    "@, d.memory_l0_count as nat, " (ephemeral turn scratchpad)"@),
        tier_line("  • L1 Session Anchors:       "@, d.memory_l1_count as nat, " (session milestone rollups)"@),
        tier_line(
            "  • L2 Project Facts:         "@,
            d.memory_l2_count as nat,
            " (.minicode/progressive_memory.json)"@,
        ),
        tier_line(
            "  • L3 Global Preferences:    "@,
            d.memory_l3_count as nat,
            " (~/.config/minicode/global_memory.json)"@,
        ),
    ] + (if d.memory_sample_keys@.len() == 0 {
        seq![]
    } else {
        seq![blank_line(), seq![("Sample Memory Keys:"@, fg(ThemeColor::Muted))]] + Seq::new(
            d.memory_sample_keys@.len(),
            |i: int| seq![("    "@, plain_style()), (d.memory_sample_keys@[i]@, fg(ThemeColor::Highlight))],
        )
    }) + seq![
        blank_line(),
        seq![("📦 Reversible CCR Observation Cache:"@, fg_bold(ThemeColor::TextPrimary))],
        seq![
            ("  • Cached Observations:     "@, fg(ThemeColor::Muted)),
            (decimal(d.ccr_entries_count as nat) + " entries"@, fg(ThemeColor::TextPrimary)),
        ],
        seq![
            ("  • Memory Footprint:        "@, fg(ThemeColor::Muted)),
            (d.ccr_kb_text@ + " KB"@, fg(ThemeColor::TextPrimary)),
        ],
        blank_line(),
        seq![
            ("🧹 Memory Maintenance: "@, fg(ThemeColor::Muted)),
            (
                "Press [P] to prune biologically decayed memories and flush observation cache."@,
                fg(ThemeColor::Warning),
            ),
        ],
    ]
}

/// The lines of tab `tab` (the storage tab from 2 on).
pub open spec fn context_tab_spec(d: ContextDiagnosticsData, tab: nat) -> Seq<Seq<(Seq<char>, SpanStyle)>> {
    if tab == 0 {
        budget_tab_spec(d)
    } else if tab == 1 {
        cache_tab_spec(d)
    } else {
        storage_tab_spec(d)
    }
}

/// The visible part of tab `tab` in `visible` rows: from the scroll offset, but never past
/// the last full screen.
pub open spec fn context_content_spec(d: ContextDiagnosticsData, tab: nat, scroll: nat, visible: nat) -> Seq<
    Seq<(Seq<char>, SpanStyle)>,
> {
    let all = context_tab_spec(d, tab);
    let last = if all.len() >= visible {
        (all.len() - visible) as nat
    } else {
        0
    };
    let start = if scroll < last {
        scroll
    } else {
        last
    };
    let end: int = if start + visible < all.len() {
        (start + visible) as int
    } else {
        all.len() as int
    };
    all.subrange(start as int, end)
}

/// The key hints of the modal.
pub open spec fn context_footer_spec() -> Seq<(Seq<char>, SpanStyle)> {
    seq![
        (" [1-3/Tab] "@, fg_bold(ThemeColor::BrandAccent)),
        ("Switch Tab  "@, fg(ThemeColor::Muted)),
        ("[↑/↓/j/k] "@, fg_bold(ThemeColor::BrandAccent)),
        ("Scroll  "@, fg(ThemeColor::Muted)),
        ("[P] "@, fg_bold(ThemeColor::Warning)),
        ("Prune Cache  "@, fg(ThemeColor::Muted)),
        ("[Esc/q] "@, fg_bold(ThemeColor::BrandAccent)),
        ("Close"@, fg(ThemeColor::Muted)),
    ]
}

fn dec(n: usize) -> (r: String)
    ensures
        r@ == decimal(n as nat),
{
    string_from_chars(&u64_to_decimal(n as u64))
}

fn line_spans(v: Vec<StyledSpan>) -> (l: StyledLine)
    ensures
        l.spans@ == v@,
{
    line_from(v)
}

fn two(a: &str, sa: SpanStyle, b: &str, sb: SpanStyle) -> (l: StyledLine)
    ensures
        line_view(l) == seq![(a@, sa), (b@, sb)],
{
    let mut v: Vec<StyledSpan> = Vec::new();
    v.push(span_str(a, sa));
    v.push(span_str(b, sb));
    let l = line_spans(v);
    assert(line_view(l) =~= seq![(a@, sa), (b@, sb)]);
    l
}

fn three(a: &str, sa: SpanStyle, b: &str, sb: SpanStyle, c: &str, sc: SpanStyle) -> (l: StyledLine)
    ensures
        line_view(l) == seq![(a@, sa), (b@, sb), (c@, sc)],
{
    let mut v: Vec<StyledSpan> = Vec::new();
    v.push(span_str(a, sa));
    v.push(span_str(b, sb));
    v.push(span_str(c, sc));
    let l = line_spans(v);
    assert(line_view(l) =~= seq![(a@, sa), (b@, sb), (c@, sc)]);
    l
}

fn one(a: &str, sa: SpanStyle) -> (l: StyledLine)
    ensures
        line_view(l) == seq![(a@, sa)],
{
    crate::ui::styled::line_of(span_str(a, sa))
}

fn usage_color_exec(l: UsageLevel) -> (c: ThemeColor)
    ensures
        c == usage_color(l),
{
    match l {
        UsageLevel::Low => ThemeColor::Success,
        UsageLevel::Medium => ThemeColor::Warning,
        UsageLevel::High => ThemeColor::Destructive,
    }
}

/// The title line.
pub fn context_title(d: &ContextDiagnosticsData) -> (r: StyledLine)
    ensures
        line_view(r) == context_title_spec(*d),
{
    let mut counts = concat3("(", dec(d.used_tokens).as_str(), "/");
    crate::text::push_str(&mut counts, dec(d.context_limit).as_str());
    crate::text::push_str(&mut counts, " tokens | KV: ");
    crate::text::push_str(&mut counts, d.cache_hit_text.as_str());
    crate::text::push_str(&mut counts, "%) ");
    let l = three(
        " ⚡ Context Visualizer & KV-Cache Telemetry ",
        style_fg_bold(ThemeColor::BrandAccent),
        concat3(" [", d.utilization_text.as_str(), "% Window Used] ").as_str(),
        style_fg_bold(usage_color_exec(d.usage_level)),
        counts.as_str(),
        style_fg(ThemeColor::Muted),
    );
    assert(line_view(l) =~= context_title_spec(*d));
    l
}

fn tab_style_exec(active: bool) -> (s: SpanStyle)
    ensures
        s == audit_tab_style(active),
{
    if active {
        SpanStyle {
            fg: Some(ThemeColor::Black),
            bg: Some(ThemeColor::BrandAccent),
            bold: true,
            underlined: false,
            italic: false, dim: false,
        }
    } else {
        style_fg(ThemeColor::Muted)
    }
}

/// The tab line.
pub fn context_tabs(tab: usize) -> (r: StyledLine)
    ensures
        line_view(r) == context_tabs_spec(tab as nat),
{
    let mut v: Vec<StyledSpan> = Vec::new();
    v.push(span_str(" [1] Token Budget & Allocation ", tab_style_exec(tab == 0)));
    v.push(span_str(" ", style_plain()));
    v.push(span_str(" [2] KV-Cache & Prefix Diagnostics ", tab_style_exec(tab == 1)));
    v.push(span_str(" ", style_plain()));
    v.push(span_str(" [3] Memory, Rules & CCR Storage ", tab_style_exec(tab == 2)));
    v.push(span_str(" ", style_plain()));
    let l = line_spans(v);
    assert(line_view(l) =~= context_tabs_spec(tab as nat));
    l
}

fn zone_line(title: &str, desc: &str, size: &str, status: &str) -> (l: StyledLine)
    ensures
        line_view(l) == zone_row(title@, desc@, size@, status@),
{
    let mut v: Vec<StyledSpan> = Vec::new();
    v.push(span_str(concat2(pad_right_exec(title, 26).as_str(), " ").as_str(), style_fg_bold(ThemeColor::TextPrimary)));
    v.push(span_str(concat2(pad_right_exec(size, 18).as_str(), " ").as_str(), style_fg(ThemeColor::Highlight)));
    v.push(span_str(concat3("[", pad_right_exec(status, 14).as_str(), "] ").as_str(), style_fg(ThemeColor::Muted)));
    v.push(span_str(desc, style_fg(ThemeColor::Muted)));
    let l = line_spans(v);
    assert(line_view(l) =~= zone_row(title@, desc@, size@, status@));
    l
}

fn budget_tab(d: &ContextDiagnosticsData) -> (r: Vec<StyledLine>)
    requires
        d.memory_l0_count + d.memory_l1_count + d.memory_l2_count + d.memory_l3_count <= usize::MAX,
    ensures
        lines_view(r@) == budget_tab_spec(*d),
{
    let ghost spec = budget_tab_spec(*d);
    let c = usage_color_exec(d.usage_level);
    let m = style_fg(ThemeColor::Muted);
    let mut out: Vec<StyledLine> = Vec::new();
    let mut v: Vec<StyledSpan> = Vec::new();
    v.push(span_str("● Active Model: ", m));
    let mp = concat3(d.model_name.as_str(), " (", concat2(d.provider_name.as_str(), ")").as_str());
    assert(mp@ =~= d.model_name@ + " ("@ + d.provider_name@ + ")"@);
    v.push(span_str(mp.as_str(), style_fg_bold(ThemeColor::Highlight)));
    v.push(span_str("  ", style_plain()));
    v.push(span_str("● Window Limit: ", m));
    v.push(span_str(concat2(dec(d.context_limit).as_str(), " tokens").as_str(), style_fg(ThemeColor::TextPrimary)));
    v.push(span_str("  ", style_plain()));
    v.push(span_str("● Headroom: ", m));
    v.push(span_str(concat2(dec(d.headroom_tokens).as_str(), " tokens").as_str(), style_fg(ThemeColor::Success)));
    let l0 = line_spans(v);
    assert(line_view(l0) =~= spec[0]);
    push_line(&mut out, l0);
    push_line(&mut out, blank_line_exec());
    let l2 = three(
        "Utilization: ",
        m,
        d.progress_bar.as_str(),
        style_fg_bold(c),
        concat3(" ", d.utilization_text.as_str(), "%").as_str(),
        style_fg_bold(c),
    );
    push_line(&mut out, l2);
    push_line(&mut out, blank_line_exec());
    push_line(&mut out, one("--- Context Window Zone Allocations ---", style_fg_bold(ThemeColor::BrandAccent)));
    push_line(&mut out, blank_line_exec());
    push_line(
        &mut out,
        zone_line(
            "🛡️ System Prompt & Tools",
            "Base identity, instructions, and compacted tool schemas",
            "~2,400 tokens",
            "Fixed Baseline",
        ),
    );
    let s1 = concat3(
        concat2("~", dec(d.dox_estimated_tokens).as_str()).as_str(),
        " tokens (",
        concat2(dec(d.dox_total_lines).as_str(), " lines)").as_str(),
    );
    assert(s1@ =~= "~"@ + decimal(d.dox_estimated_tokens as nat) + " tokens ("@ + decimal(d.dox_total_lines as nat)
        + " lines)"@);
    push_line(
        &mut out,
        zone_line(
            "📜 Hierarchical DOX Rules",
            "Localized developer instructions from AGENTS.md & .dox",
            s1.as_str(),
            "Cached Prefix",
        ),
    );
    let total = d.memory_l0_count + d.memory_l1_count + d.memory_l2_count + d.memory_l3_count;
    let s2 = concat2(dec(total).as_str(), " entries");
    push_line(
        &mut out,
        zone_line(
            "🧠 Progressive Memory",
            "L0-L3 architectural facts, project conventions, preferences",
            s2.as_str(),
            "Decay-Managed",
        ),
    );
    let s3 = concat3(
        dec(d.working_memory_lines).as_str(),
        " lines (",
        concat2(dec(d.active_working_set_files).as_str(), " active files)").as_str(),
    );
    assert(s3@ =~= decimal(d.working_memory_lines as nat) + " lines ("@ + decimal(d.active_working_set_files as nat)
        + " active files)"@);
    push_line(
        &mut out,
        zone_line(
            "📋 Working Memory / Plan",
            if d.working_memory_active {
                "Active plan.md & scratchpad checklist"
            } else {
                "No active plan file"
            },
            s3.as_str(),
            "Volatile State",
        ),
    );
    let s4 = concat3(
        dec(d.conversation_messages_count).as_str(),
        " entries (",
        concat2(dec(d.used_tokens).as_str(), " used tokens)").as_str(),
    );
    assert(s4@ =~= decimal(d.conversation_messages_count as nat) + " entries ("@ + decimal(d.used_tokens as nat)
        + " used tokens)"@);
    push_line(
        &mut out,
        zone_line(
            "💬 Conversation Timeline",
            "Turns, user queries, assistant replies, tool interactions",
            s4.as_str(),
            "Append-Only",
        ),
    );
    let s5 = concat3(
        dec(d.ccr_entries_count).as_str(),
        " observations (",
        concat2(dec(d.ccr_total_bytes / 1024).as_str(), " KB)").as_str(),
    );
    assert(s5@ =~= decimal(d.ccr_entries_count as nat) + " observations ("@ + decimal((d.ccr_total_bytes / 1024) as nat)
        + " KB)"@);
    push_line(
        &mut out,
        zone_line(
            "📦 Reversible CCR Cache",
            "Offline compressed observations stored losslessly",
            s5.as_str(),
            "On-Demand",
        ),
    );
    push_line(&mut out, blank_line_exec());
    push_line(&mut out, two("● Headroom Advice: ", m, d.advice.as_str(), style_fg(c)));
    assert(lines_view(out@) =~= spec);
    out
}

fn cache_tab(d: &ContextDiagnosticsData) -> (r: Vec<StyledLine>)
    ensures
        lines_view(r@) == cache_tab_spec(*d),
{
    let m = style_fg(ThemeColor::Muted);
    let mut out: Vec<StyledLine> = Vec::new();
    push_line(&mut out, one("--- Real-Time KV-Cache Prefix Diagnostics ---", style_fg_bold(ThemeColor::BrandAccent)));
    push_line(&mut out, blank_line_exec());
    let counts = concat3(
        concat2("(", dec(d.cached_tokens).as_str()).as_str(),
        " cached tokens out of ",
        concat2(dec(d.used_tokens).as_str(), " total)").as_str(),
    );
    assert(counts@ =~= "("@ + decimal(d.cached_tokens as nat) + " cached tokens out of "@ + decimal(d.used_tokens as nat)
        + " total)"@);
    push_line(
        &mut out,
        three(
            "⚡ KV Cache Hit Rate:       ",
            m,
            concat2(d.cache_hit_text.as_str(), "% ").as_str(),
            style_fg_bold(ThemeColor::Success),
            counts.as_str(),
            style_fg(ThemeColor::TextPrimary),
        ),
    );
    push_line(&mut out, two("⏱️ TTFT Acceleration:       ", m, d.ttft_savings.as_str(), style_fg(ThemeColor::Highlight)));
    push_line(&mut out, two("💰 Input Token Discount:    ", m, d.cost_savings.as_str(), style_fg(ThemeColor::Success)));
    push_line(&mut out, two("⚓ Cache Boundary Anchor:    ", m, d.kv_anchor_status.as_str(), style_fg(ThemeColor::TextPrimary)));
    push_line(&mut out, two("🔒 History Immutability:    ", m, d.prefix_stability.as_str(), style_fg(ThemeColor::TextPrimary)));
    push_line(&mut out, two("🏷️ Active Provider Cache:   ", m, d.provider_cache_type.as_str(), style_fg(ThemeColor::BrandAccent)));
    push_line(&mut out, blank_line_exec());
    push_line(&mut out, one("--- Prefix Stability Principles ---", style_fg_bold(ThemeColor::BrandAccent)));
    push_line(&mut out, blank_line_exec());
    let h = style_fg_bold(ThemeColor::Highlight);
    push_line(
        &mut out,
        two(
            concat3("• ", pad_right_exec("1. Append-Only History", 26).as_str(), " ").as_str(),
            h,
            "Conversation messages are strictly immutable across turns to preserve KV byte alignment.",
            m,
        ),
    );
    push_line(
        &mut out,
        two(
            concat3("• ", pad_right_exec("2. Stable Pre-Sorted Tools", 26).as_str(), " ").as_str(),
            h,
            "Tool schemas are deterministically alphabetized to prevent random permutation cache-busts.",
            m,
        ),
    );
    push_line(
        &mut out,
        two(
            concat3("• ", pad_right_exec("3. Tiered Recency Context", 26).as_str(), " ").as_str(),
            h,
            "Static context (DOX rules & progressive memory) is ordered before volatile session state.",
            m,
        ),
    );
    push_line(
        &mut out,
        two(
            concat3("• ", pad_right_exec("4. Ephemeral Breakpoints", 26).as_str(), " ").as_str(),
            h,
            "Anthropic cache breakpoints and OpenAI 1024-token aligned blocks maximize hardware reuse.",
            m,
        ),
    );
    assert(lines_view(out@) =~= cache_tab_spec(*d));
    out
}

fn tier(label: &str, count: usize, note: &str) -> (l: StyledLine)
    ensures
        line_view(l) == tier_line(label@, count as nat, note@),
{
    three(
        label,
        style_fg(ThemeColor::Muted),
        concat2(dec(count).as_str(), " entries").as_str(),
        style_fg(ThemeColor::TextPrimary),
        note,
        style_fg(ThemeColor::Muted),
    )
}

fn storage_tab(d: &ContextDiagnosticsData) -> (r: Vec<StyledLine>)
    ensures
        lines_view(r@) == storage_tab_spec(*d),
{
    let m = style_fg(ThemeColor::Muted);
    let mut out: Vec<StyledLine> = Vec::new();
    push_line(&mut out, one("--- Hierarchical DOX Rules & Memory Storage ---", style_fg_bold(ThemeColor::BrandAccent)));
    push_line(&mut out, blank_line_exec());
    let files = if d.dox_rules_files.len() == 0 {
        "None (Using default conventions)".to_owned()
    } else {
        join_sep_exec(&d.dox_rules_files, ", ")
    };
    push_line(
        &mut out,
        three(
            "📜 Discovered DOX Files: ",
            m,
            files.as_str(),
            style_fg(ThemeColor::Highlight),
            concat3(" (", dec(d.dox_total_lines).as_str(), " lines total)").as_str(),
            m,
        ),
    );
    push_line(&mut out, blank_line_exec());
    push_line(&mut out, one("🧠 Progressive Memory Tiers:", style_fg_bold(ThemeColor::TextPrimary)));
    push_line(&mut out, tier("  • L0 Working Scratchpad:    ", d.memory_l0_count, " (ephemeral turn scratchpad)"));
    push_line(&mut out, tier("  • L1 Session Anchors:       ", d.memory_l1_count, " (session milestone rollups)"));
    push_line(&mut out, tier("  • L2 Project Facts:         ", d.memory_l2_count, " (.minicode/progressive_memory.json)"));
    push_line(&mut out, tier("  • L3 Global Preferences:    ", d.memory_l3_count, " (~/.config/minicode/global_memory.json)"));
    let ghost head = lines_view(out@);
    if d.memory_sample_keys.len() > 0 {
        push_line(&mut out, blank_line_exec());
        push_line(&mut out, one("Sample Memory Keys:", m));
        let ghost mid = lines_view(out@);
        let keys = &d.memory_sample_keys;
        let mut i: usize = 0;
        while i < keys.len()
            invariant
                i <= keys@.len(),
                lines_view(out@) == mid + Seq::new(
                    i as nat,
                    |j: int| seq![("    "@, plain_style()), (keys@[j]@, fg(ThemeColor::Highlight))],
                ),
            decreases keys@.len() - i,
        {
            push_line(&mut out, two("    ", style_plain(), keys[i].as_str(), style_fg(ThemeColor::Highlight)));
            i += 1;
            assert(lines_view(out@) =~= mid + Seq::new(
                i as nat,
                |j: int| seq![("    "@, plain_style()), (keys@[j]@, fg(ThemeColor::Highlight))],
            ));
        }
    }
    let ghost after_keys = lines_view(out@);
    push_line(&mut out, blank_line_exec());
    push_line(&mut out, one("📦 Reversible CCR Observation Cache:", style_fg_bold(ThemeColor::TextPrimary)));
    push_line(
        &mut out,
        two(
            "  • Cached Observations:     ",
            m,
            concat2(dec(d.ccr_entries_count).as_str(), " entries").as_str(),
            style_fg(ThemeColor::TextPrimary),
        ),
    );
    push_line(
        &mut out,
        two(
            "  • Memory Footprint:        ",
            m,
            concat2(d.ccr_kb_text.as_str(), " KB").as_str(),
            style_fg(ThemeColor::TextPrimary),
        ),
    );
    push_line(&mut out, blank_line_exec());
    push_line(
        &mut out,
        two(
            "🧹 Memory Maintenance: ",
            m,
            "Press [P] to prune biologically decayed memories and flush observation cache.",
            style_fg(ThemeColor::Warning),
        ),
    );
    assert(lines_view(out@) =~= storage_tab_spec(*d));
    out
}

/// The visible lines of tab `tab` in `visible` rows from line `scroll`, pulled back so the
/// last screen stays full. The memory tier counts must add up within `usize`.
pub fn context_content_lines(d: &ContextDiagnosticsData, tab: usize, scroll: usize, visible: usize) -> (r: Vec<StyledLine>)
    requires
        d.memory_l0_count + d.memory_l1_count + d.memory_l2_count + d.memory_l3_count <= usize::MAX,
    ensures
        lines_view(r@) == context_content_spec(*d, tab as nat, scroll as nat, visible as nat),
{
    let mut all = if tab == 0 {
        budget_tab(d)
    } else if tab == 1 {
        cache_tab(d)
    } else {
        storage_tab(d)
    };
    let ghost av = all@;
    let n = all.len();
    let last = if n >= visible {
        n - visible
    } else {
        0
    };
    let start = if scroll < last {
        scroll
    } else {
        last
    };
    let end = if visible < n - start {
        start + visible
    } else {
        n
    };
    let mut rest = all.split_off(start);
    rest.truncate(end - start);
    assert(rest@ =~= av.subrange(start as int, end as int));
    assert(lines_view(rest@) =~= lines_view(av).subrange(start as int, end as int));
    rest
}

/// The key hints.
pub fn context_footer() -> (r: StyledLine)
    ensures
        line_view(r) == context_footer_spec(),
{
    let a = style_fg_bold(ThemeColor::BrandAccent);
    let m = style_fg(ThemeColor::Muted);
    let mut v: Vec<StyledSpan> = Vec::new();
    v.push(span_str(" [1-3/Tab] ", a));
    v.push(span_str("Switch Tab  ", m));
    v.push(span_str("[↑/↓/j/k] ", a));
    v.push(span_str("Scroll  ", m));
    v.push(span_str("[P] ", style_fg_bold(ThemeColor::Warning)));
    v.push(span_str("Prune Cache  ", m));
    v.push(span_str("[Esc/q] ", a));
    v.push(span_str("Close", m));
    let l = line_spans(v);
    assert(line_view(l) =~= context_footer_spec());
    l
}

} // verus!
