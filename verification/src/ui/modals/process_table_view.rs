//! The process monitor's tab bar with its counts, its filter field, and the cells of its
//! table: for each process its status, identifier, name, kind, process id, port or address
//! and restart count. CPU load and memory are floating point and are formatted by the
//! caller.

use vstd::prelude::*;
use crate::records::{DevProcessStatus, DevProcessSummary, DevProcessType, PortResolution};
use crate::text::{decimal, push_str, string_from_chars, u64_to_decimal};
use crate::tools::{concat2, concat3};
use crate::ui::modals::processes::{tab_matches, ProcessesModalState, ProcessesTab};
use crate::ui::modals::processes_view::process_kind_name;
use crate::ui::modals::command_catalog::{blank_line, blank_line_exec};
use crate::ui::styled::{
    fg, fg_bold, line_from, line_of, line_view, lines_view, plain_style, push_line, span_str,
    span_view, style_fg, style_fg_bold, style_plain, SpanStyle, StyledLine, StyledSpan, ThemeColor,
};

verus! {

/// The status cell's text and colour.
pub open spec fn status_cell(s: DevProcessStatus) -> (Seq<char>, ThemeColor) {
    match s {
        DevProcessStatus::Running => ("● Run"@, ThemeColor::Success),
        DevProcessStatus::Healthy => ("✔ Ready"@, ThemeColor::Success),
        DevProcessStatus::Degraded => ("⚠ Degraded"@, ThemeColor::Warning),
        DevProcessStatus::Exited => ("○ Exited"@, ThemeColor::Muted),
        DevProcessStatus::Stopped => ("○ Stop"@, ThemeColor::Muted),
        DevProcessStatus::Killed => ("✖ Killed"@, ThemeColor::Destructive),
    }
}

/// Ports joined with commas.
pub open spec fn ports_comma(ps: Seq<u16>) -> Seq<char>
    decreases ps.len(),
{
    if ps.len() == 0 {
        seq![]
    } else if ps.len() == 1 {
        decimal(ps[0] as nat)
    } else {
        ports_comma(ps.drop_last()) + ","@ + decimal(ps.last() as nat)
    }
}

/// The port or address cell: how the port was resolved, else the address, else the
/// ports, else a dash.
pub open spec fn port_cell(p: DevProcessSummary) -> Seq<char> {
    match p.port_resolution {
        Some(PortResolution::Shifted { requested, resolved }) => decimal(requested as nat) + "➜"@ + decimal(resolved as nat),
        Some(PortResolution::Reclaimed { port }) => decimal(port as nat) + "(rec)"@,
        Some(PortResolution::Unchanged { port }) => decimal(port as nat),
        Some(PortResolution::Ignored) => "-"@,
        None => match p.url {
            Some(u) => u@,
            None => if p.ports@.len() > 0 { ports_comma(p.ports@) } else { "-"@ },
        },
    }
}

/// The cells of a process row but CPU and memory, in column order.
pub open spec fn process_cells_spec(p: DevProcessSummary) -> Seq<(Seq<char>, SpanStyle)> {
    seq![
        (status_cell(p.status).0, fg_bold(status_cell(p.status).1)),
        (p.id@, plain_style()),
        (p.name@, plain_style()),
        (process_kind_name(p.process_type), plain_style()),
        (match p.pid { Some(n) => decimal(n as nat), None => "-"@ }, plain_style()),
        (port_cell(p), if p.port_resolution is Some { fg(ThemeColor::Warning) } else { fg(ThemeColor::TextPrimary) }),
        (if p.restart_count > 0 { decimal(p.restart_count as nat) } else { "-"@ }, plain_style()),
    ]
}

/// The table's title with the number of processes listed.
pub open spec fn process_table_title_spec(n: nat) -> Seq<char> {
    " Active Processes ("@ + decimal(n) + ") "@
}

fn decimal_string(n: u64) -> (r: String)
    ensures
        r@ == decimal(n as nat),
{
    string_from_chars(&u64_to_decimal(n))
}

fn ports_comma_exec(ps: &Vec<u16>) -> (r: String)
    ensures
        r@ == ports_comma(ps@),
{
    let mut r = String::new();
    let mut i: usize = 0;
    while i < ps.len()
        invariant
            i <= ps@.len(),
            r@ == ports_comma(ps@.take(i as int)),
        decreases ps@.len() - i,
    {
        proof {
            assert(ps@.take(i + 1).drop_last() =~= ps@.take(i as int));
            assert(ps@.take(i + 1).last() == ps@[i as int]);
        }
        if i > 0 {
            push_str(&mut r, ",");
        }
        push_str(&mut r, decimal_string(ps[i] as u64).as_str());
        i += 1;
    }
    assert(ps@.take(ps@.len() as int) =~= ps@);
    r
}

fn port_cell_exec(p: &DevProcessSummary) -> (r: String)
    ensures
        r@ == port_cell(*p),
{
    match &p.port_resolution {
        Some(PortResolution::Shifted { requested, resolved }) => concat3(
            decimal_string(*requested as u64).as_str(),
            "➜",
            decimal_string(*resolved as u64).as_str(),
        ),
        Some(PortResolution::Reclaimed { port }) => concat2(decimal_string(*port as u64).as_str(), "(rec)"),
        Some(PortResolution::Unchanged { port }) => decimal_string(*port as u64),
        Some(PortResolution::Ignored) => "-".to_owned(),
        None => match &p.url {
            Some(u) => u.clone(),
            None => if p.ports.len() > 0 { ports_comma_exec(&p.ports) } else { "-".to_owned() },
        },
    }
}

/// The cells of a process row but CPU and memory: status, identifier, name, kind, process
/// id, port or address, restarts.
pub fn process_row_cells(p: &DevProcessSummary) -> (r: Vec<StyledSpan>)
    ensures
        r@.map_values(|s: StyledSpan| span_view(s)) == process_cells_spec(*p),
{
    let (status, color) = match p.status {
        DevProcessStatus::Running => ("● Run", ThemeColor::Success),
        DevProcessStatus::Healthy => ("✔ Ready", ThemeColor::Success),
        DevProcessStatus::Degraded => ("⚠ Degraded", ThemeColor::Warning),
        DevProcessStatus::Exited => ("○ Exited", ThemeColor::Muted),
        DevProcessStatus::Stopped => ("○ Stop", ThemeColor::Muted),
        DevProcessStatus::Killed => ("✖ Killed", ThemeColor::Destructive),
    };
    let kind = match p.process_type {
        DevProcessType::Frontend => "Frontend",
        DevProcessType::Backend => "Backend",
        DevProcessType::Docker => "Docker",
        DevProcessType::Worker => "Worker",
    };
    let pid = match p.pid {
        Some(n) => decimal_string(n as u64),
        None => "-".to_owned(),
    };
    let restarts = if p.restart_count > 0 { decimal_string(p.restart_count as u64) } else { "-".to_owned() };
    let port_style = if p.port_resolution.is_some() { style_fg(ThemeColor::Warning) } else { style_fg(ThemeColor::TextPrimary) };
    let mut v: Vec<StyledSpan> = Vec::new();
    v.push(span_str(status, style_fg_bold(color)));
    v.push(span_str(p.id.as_str(), style_plain()));
    v.push(span_str(p.name.as_str(), style_plain()));
    v.push(span_str(kind, style_plain()));
    v.push(span_str(pid.as_str(), style_plain()));
    v.push(span_str(port_cell_exec(p).as_str(), port_style));
    v.push(span_str(restarts.as_str(), style_plain()));
    assert(v@.map_values(|s: StyledSpan| span_view(s)) =~= process_cells_spec(*p));
    v
}

/// The table's title.
pub fn process_table_title(n: usize) -> (r: String)
    ensures
        r@ == process_table_title_spec(n as nat),
{
    concat3(" Active Processes (", decimal_string(n as u64).as_str(), ") ")
}

/// `c` dimmed.
pub open spec fn dim_fg(c: ThemeColor) -> SpanStyle {
    SpanStyle { fg: Some(c), bg: None, bold: false, underlined: false, italic: false, dim: true }
}

/// Title of a tab of the process monitor.
pub open spec fn proc_tab_title(t: ProcessesTab) -> Seq<char> {
    match t {
        ProcessesTab::All => "All Processes"@,
        ProcessesTab::Servers => "Dev Servers"@,
        ProcessesTab::Workers => "Workers"@,
        ProcessesTab::Logs => "Live Logs"@,
        ProcessesTab::Telemetry => "Telemetry"@,
    }
}

/// How many of the first `k` processes belong on the tab.
pub open spec fn tab_count(ps: Seq<DevProcessSummary>, tab: ProcessesTab, k: int) -> nat
    decreases k,
{
    if k <= 0 {
        0
    } else {
        tab_count(ps, tab, k - 1) + if tab_matches(tab, ps[k - 1]) { 1nat } else { 0nat }
    }
}

/// The count shown after a tab's title: all processes, servers, workers, the selected
/// process's name on the logs tab, nothing on the telemetry tab.
pub open spec fn tab_count_text(s: ProcessesModalState, t: ProcessesTab) -> Seq<char> {
    match t {
        ProcessesTab::All => " ("@ + decimal(s.processes@.len()) + ")"@,
        ProcessesTab::Servers => " ("@ + decimal(tab_count(s.processes@, t, s.processes@.len() as int)) + ")"@,
        ProcessesTab::Workers => " ("@ + decimal(tab_count(s.processes@, t, s.processes@.len() as int)) + ")"@,
        ProcessesTab::Logs => if s.selected_index < s.filtered_indices@.len()
            && s.filtered_indices@[s.selected_index as int] < s.processes@.len() {
            " ("@ + s.processes@[s.filtered_indices@[s.selected_index as int] as int].name@ + ")"@
        } else {
            Seq::<char>::empty()
        },
        ProcessesTab::Telemetry => Seq::<char>::empty(),
    }
}

/// A tab: number, title and count; the active tab filled, the others dimmed.
pub open spec fn proc_tab(s: ProcessesModalState, t: ProcessesTab, n: nat) -> Seq<(Seq<char>, SpanStyle)> {
    seq![
        (
            " ["@ + decimal(n) + "] "@ + proc_tab_title(t) + tab_count_text(s, t) + " "@,
            if s.active_tab == t {
                SpanStyle { fg: Some(ThemeColor::BgPrimary), bg: Some(ThemeColor::BrandAccent), bold: true, underlined: false, italic: false, dim: false }
            } else {
                dim_fg(ThemeColor::TextPrimary)
            },
        ),
        (" "@, plain_style()),
    ]
}

/// The tab bar of the process monitor.
pub open spec fn process_tabs_spec(s: ProcessesModalState) -> Seq<(Seq<char>, SpanStyle)> {
    proc_tab(s, ProcessesTab::All, 1) + proc_tab(s, ProcessesTab::Servers, 2) + proc_tab(s, ProcessesTab::Workers, 3)
        + proc_tab(s, ProcessesTab::Logs, 4) + proc_tab(s, ProcessesTab::Telemetry, 5)
}

/// The filter field: the query being typed with a cursor, a hint when there is no query,
/// else the query with how to clear it.
pub open spec fn process_search_spec(searching: bool, q: Seq<char>) -> Seq<(Seq<char>, SpanStyle)> {
    if searching {
        seq![("🔍 "@, fg(ThemeColor::BrandAccent)), (q, fg_bold(ThemeColor::TextPrimary)), ("▎"@, fg(ThemeColor::BrandAccent))]
    } else if q.len() == 0 {
        seq![("[/] Filter"@, dim_fg(ThemeColor::Muted)), (" "@, plain_style())]
    } else {
        seq![("🔍 Filter: "@, fg(ThemeColor::BrandAccent)), (q, fg(ThemeColor::TextPrimary)), (" (Esc to clear)"@, dim_fg(ThemeColor::Muted))]
    }
}

/// What the table shows when no process matches.
pub open spec fn process_table_empty_spec() -> Seq<Seq<(Seq<char>, SpanStyle)>> {
    seq![
        blank_line(),
        seq![("  ℹ No active development processes match filter."@, fg(ThemeColor::Muted))],
        blank_line(),
        seq![("  Use 'mini_dev start', /dev, or run npm/cargo to launch processes."@, dim_fg(ThemeColor::Muted))],
    ]
}

fn tab_count_exec(ps: &Vec<DevProcessSummary>, tab: ProcessesTab) -> (r: usize)
    ensures
        r == tab_count(ps@, tab, ps@.len() as int),
{
    let mut n: usize = 0;
    let mut i: usize = 0;
    while i < ps.len()
        invariant
            i <= ps@.len(),
            n == tab_count(ps@, tab, i as int),
            n <= i,
        decreases ps@.len() - i,
    {
        let p = &ps[i];
        let m = match tab {
            ProcessesTab::Servers => {
                match p.process_type {
                    DevProcessType::Frontend | DevProcessType::Backend | DevProcessType::Docker => true,
                    DevProcessType::Worker => p.ports.len() > 0 || p.url.is_some(),
                }
            },
            ProcessesTab::Workers => match p.process_type {
                DevProcessType::Worker => true,
                _ => false,
            },
            _ => true,
        };
        assert(m == tab_matches(tab, ps@[i as int]));
        if m {
            n += 1;
        }
        i += 1;
    }
    n
}

fn count_text_exec(s: &ProcessesModalState, t: ProcessesTab) -> (r: String)
    ensures
        r@ == tab_count_text(*s, t),
{
    match t {
        ProcessesTab::All => concat3(" (", decimal_string(s.processes.len() as u64).as_str(), ")"),
        ProcessesTab::Servers => concat3(
            " (",
            decimal_string(tab_count_exec(&s.processes, t) as u64).as_str(),
            ")",
        ),
        ProcessesTab::Workers => concat3(
            " (",
            decimal_string(tab_count_exec(&s.processes, t) as u64).as_str(),
            ")",
        ),
        ProcessesTab::Logs => match s.selected_process() {
            Some(p) => concat3(" (", p.name.as_str(), ")"),
            None => String::new(),
        },
        ProcessesTab::Telemetry => String::new(),
    }
}

fn proc_tab_push(spans: &mut Vec<StyledSpan>, s: &ProcessesModalState, t: ProcessesTab, n: u64)
    requires
        1 <= n <= 5,
    ensures
        crate::ui::styled::line_view(StyledLine { spans: *final(spans) }) == crate::ui::styled::line_view(
            StyledLine { spans: *old(spans) },
        ) + proc_tab(*s, t, n as nat),
{
    let ghost before = *spans;
    let title = t.title();
    assert(title@ == proc_tab_title(t));
    let a = concat3(" [", decimal_string(n).as_str(), "] ");
    let b = concat3(a.as_str(), title, count_text_exec(s, t).as_str());
    let label = concat2(b.as_str(), " ");
    let active = match (s.active_tab, t) {
        (ProcessesTab::All, ProcessesTab::All) => true,
        (ProcessesTab::Servers, ProcessesTab::Servers) => true,
        (ProcessesTab::Workers, ProcessesTab::Workers) => true,
        (ProcessesTab::Logs, ProcessesTab::Logs) => true,
        (ProcessesTab::Telemetry, ProcessesTab::Telemetry) => true,
        _ => false,
    };
    assert(active == (s.active_tab == t));
    let style = if active {
        SpanStyle { fg: Some(ThemeColor::BgPrimary), bg: Some(ThemeColor::BrandAccent), bold: true, underlined: false, italic: false, dim: false }
    } else {
        SpanStyle { fg: Some(ThemeColor::TextPrimary), bg: None, bold: false, underlined: false, italic: false, dim: true }
    };
    spans.push(span_str(label.as_str(), style));
    spans.push(span_str(" ", style_plain()));
    assert(crate::ui::styled::line_view(StyledLine { spans: *spans }) =~= crate::ui::styled::line_view(
        StyledLine { spans: before },
    ) + proc_tab(*s, t, n as nat));
}

/// The tab bar of the process monitor.
pub fn process_tabs(s: &ProcessesModalState) -> (l: StyledLine)
    ensures
        line_view(l) == process_tabs_spec(*s),
{
    let mut v: Vec<StyledSpan> = Vec::new();
    assert(line_view(StyledLine { spans: v }) =~= Seq::<(Seq<char>, SpanStyle)>::empty());
    proc_tab_push(&mut v, s, ProcessesTab::All, 1);
    proc_tab_push(&mut v, s, ProcessesTab::Servers, 2);
    proc_tab_push(&mut v, s, ProcessesTab::Workers, 3);
    proc_tab_push(&mut v, s, ProcessesTab::Logs, 4);
    proc_tab_push(&mut v, s, ProcessesTab::Telemetry, 5);
    let l = line_from(v);
    assert(line_view(l) =~= process_tabs_spec(*s));
    l
}

/// The filter field of the process monitor.
pub fn process_search_line(s: &ProcessesModalState) -> (l: StyledLine)
    ensures
        line_view(l) == process_search_spec(s.is_searching, s.search_query@),
{
    let mut v: Vec<StyledSpan> = Vec::new();
    let dim_muted = SpanStyle { fg: Some(ThemeColor::Muted), bg: None, bold: false, underlined: false, italic: false, dim: true };
    if s.is_searching {
        v.push(span_str("🔍 ", style_fg(ThemeColor::BrandAccent)));
        v.push(span_str(s.search_query.as_str(), style_fg_bold(ThemeColor::TextPrimary)));
        v.push(span_str("▎", style_fg(ThemeColor::BrandAccent)));
    } else if crate::text::chars_of(s.search_query.as_str()).len() == 0 {
        v.push(span_str("[/] Filter", dim_muted));
        v.push(span_str(" ", style_plain()));
    } else {
        v.push(span_str("🔍 Filter: ", style_fg(ThemeColor::BrandAccent)));
        v.push(span_str(s.search_query.as_str(), style_fg(ThemeColor::TextPrimary)));
        v.push(span_str(" (Esc to clear)", dim_muted));
    }
    let l = line_from(v);
    assert(line_view(l) =~= process_search_spec(s.is_searching, s.search_query@));
    l
}

/// What the table shows when no process matches.
pub fn process_table_empty() -> (r: Vec<StyledLine>)
    ensures
        lines_view(r@) == process_table_empty_spec(),
{
    let mut out: Vec<StyledLine> = Vec::new();
    push_line(&mut out, blank_line_exec());
    push_line(&mut out, line_of(span_str("  ℹ No active development processes match filter.", style_fg(ThemeColor::Muted))));
    push_line(&mut out, blank_line_exec());
    push_line(
        &mut out,
        line_of(span_str(
            "  Use 'mini_dev start', /dev, or run npm/cargo to launch processes.",
            SpanStyle { fg: Some(ThemeColor::Muted), bg: None, bold: false, underlined: false, italic: false, dim: true },
        )),
    );
    assert(lines_view(out@) =~= process_table_empty_spec());
    out
}

} // verus!
