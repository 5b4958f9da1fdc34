//! Content of the process monitor's telemetry tab and process details card as styled lines.
//! Floating-point figures (CPU load, memory) arrive already formatted.

use vstd::prelude::*;
use vstd::utf8::*;
use vstd::string::StringSliceAdditionalSpecFns;
use crate::records::{
    DevProcessStatus, DevProcessSummary, DevProcessType, PortResolution, RestartPolicy,
};
use crate::text::{decimal, push_str, string_from_chars, u64_to_decimal};
use crate::tools::{concat2, concat3};
use crate::ui::modals::command_catalog::{blank_line, blank_line_exec};
use crate::ui::modals::processes::ProcessesModalState;
use crate::ui::styled::{
    fg, fg_bold, line_from, line_of, line_view, lines_view, push_line, span_str, style_fg,
    style_fg_bold, SpanStyle, StyledLine, StyledSpan, ThemeColor,
};

verus! {

/// The distinct ports of the processes, ascending.
pub open spec fn all_process_ports(ps: Seq<DevProcessSummary>) -> Set<u16> {
    Set::new(|p: u16| exists|i: int, j: int| 0 <= i < ps.len() && 0 <= j < ps[i].ports@.len() && ps[i].ports@[j] == p)
}

/// `s` is strictly ascending.
pub open spec fn ascending(s: Seq<u16>) -> bool {
    forall|i: int, j: int| 0 <= i < j < s.len() ==> s[i] < s[j]
}

/// The ports a list shows: ascending, without repeats, exactly those of the processes.
pub open spec fn is_port_list(s: Seq<u16>, ps: Seq<DevProcessSummary>) -> bool {
    ascending(s) && s.to_set() == all_process_ports(ps)
}

/// Ports joined with `, `.
pub open spec fn ports_join(ps: Seq<u16>) -> Seq<char>
    decreases ps.len(),
{
    if ps.len() == 0 {
        seq![]
    } else if ps.len() == 1 {
        decimal(ps[0] as nat)
    } else {
        ports_join(ps.drop_last()) + ", "@ + decimal(ps.last() as nat)
    }
}

/// The ports as shown: `None`, or the list.
pub open spec fn ports_text(ps: Seq<u16>) -> Seq<char> {
    if ps.len() == 0 {
        "None"@
    } else {
        ports_join(ps)
    }
}

/// A metric card: blank line, value after three spaces in bold, label below.
pub open spec fn card_spec(value: Seq<char>, color: ThemeColor, label: Seq<char>) -> Seq<
    Seq<(Seq<char>, SpanStyle)>,
> {
    seq![
        blank_line(),
        seq![("   "@ + value, fg_bold(color))],
        seq![("   "@ + label, fg(ThemeColor::Muted))],
    ]
}

/// The watchdog panel of the telemetry tab.
pub open spec fn watchdog_spec() -> Seq<Seq<(Seq<char>, SpanStyle)>> {
    seq![
        blank_line(),
        seq![
            ("  ✔ Pure-Rust Linux Inode Discovery"@, fg_bold(ThemeColor::Success)),
            (" (/proc/net/tcp + /proc/*/fd)"@, fg(ThemeColor::Muted)),
        ],
        seq![
            ("  ✔ Zero-Orphan Isolation Guard"@, fg_bold(ThemeColor::Success)),
            (" (PR_SET_PDEATHSIG + setpgid)"@, fg(ThemeColor::Muted)),
        ],
        seq![
            ("  ✔ Two-Phase Signal Escalation"@, fg_bold(ThemeColor::Success)),
            (" (SIGTERM ➜ 1000ms ➜ SIGKILL)"@, fg(ThemeColor::Muted)),
        ],
        seq![
            ("  ✔ Crash-Loop Circuit Breaker"@, fg_bold(ThemeColor::Success)),
            (" (≥3 fast crashes <3s trips Degraded)"@, fg(ThemeColor::Muted)),
        ],
        seq![
            ("  ✔ Exponential Backoff Watchdog"@, fg_bold(ThemeColor::Success)),
            (" (backoff_ms * 2^(retry - 1))"@, fg(ThemeColor::Muted)),
        ],
    ]
}

/// The port arbitration panel, with the bound ports where there are some.
pub open spec fn port_matrix_spec(ports: Seq<u16>) -> Seq<Seq<(Seq<char>, SpanStyle)>> {
    seq![
        blank_line(),
        seq![("  Port Conflict Resolution Matrix:"@, fg_bold(ThemeColor::BrandAccent))],
        seq![
            ("  • Fallback: "@, fg(ThemeColor::Warning)),
            ("Auto-shifts to next open port and injects PORT=..."@, fg(ThemeColor::TextPrimary)),
        ],
        seq![
            ("  • Error:    "@, fg(ThemeColor::Destructive)),
            ("Fails immediately with PID & process command report"@, fg(ThemeColor::TextPrimary)),
        ],
        seq![
            ("  • Kill:     "@, fg(ThemeColor::BrandAccent)),
            ("Sends SIGTERM/SIGKILL to conflicting process"@, fg(ThemeColor::TextPrimary)),
        ],
        seq![
            ("  • Ignore:   "@, fg(ThemeColor::Muted)),
            ("Bypasses probe and attempts spawn unconditionally"@, fg(ThemeColor::TextPrimary)),
        ],
    ] + (if ports.len() == 0 {
        seq![]
    } else {
        seq![
            blank_line(),
            seq![
                ("  Active Port Bindings: "@, fg_bold(ThemeColor::Success)),
                (ports_text(ports), fg(ThemeColor::TextPrimary)),
            ],
        ]
    })
}

/// Process count and ports of the telemetry tab: those of the supervisor's summary, or
/// else counted from the processes.
pub open spec fn telemetry_totals_ok(s: ProcessesModalState, count: nat, ports: Seq<u16>) -> bool {
    match s.resources {
        Some(r) => count == r.total_active_processes && ports == r.active_ports@,
        None => count == s.processes@.len() && is_port_list(ports, s.processes@),
    }
}

/// Status label and its colour.
pub open spec fn status_label(p: DevProcessSummary) -> (Seq<char>, ThemeColor) {
    match p.status {
        DevProcessStatus::Running => ("RUNNING"@, ThemeColor::Success),
        DevProcessStatus::Healthy => ("READY"@, ThemeColor::Success),
        DevProcessStatus::Degraded => (p.degraded_reason@, ThemeColor::Warning),
        DevProcessStatus::Exited => ("EXITED"@, ThemeColor::Muted),
        DevProcessStatus::Stopped => ("STOPPED"@, ThemeColor::Muted),
        DevProcessStatus::Killed => ("KILLED"@, ThemeColor::Destructive),
    }
}

/// How the port was settled, or the endpoint, or whether it listens.
pub open spec fn port_resolution_text(p: DevProcessSummary) -> Seq<char> {
    match p.port_resolution {
        Some(PortResolution::Shifted { requested, resolved }) => "Shifted: "@ + decimal(requested as nat)
            + " ➜ "@ + decimal(resolved as nat) + " (Port Conflict)"@,
        Some(PortResolution::Reclaimed { port }) => "Reclaimed port "@ + decimal(port as nat)
            + " after conflict kill"@,
        Some(PortResolution::Unchanged { port }) => "Port "@ + decimal(port as nat) + " bound directly"@,
        Some(PortResolution::Ignored) => "Ignored port conflicts"@,
        None => match p.url {
            Some(u) => u@,
            None => if p.ports@.len() == 0 {
                "None"@
            } else {
                "Listening"@
            },
        },
    }
}

/// The restart policy as shown.
pub open spec fn policy_text(r: RestartPolicy) -> Seq<char> {
    match r {
        RestartPolicy::Never => "Never"@,
        RestartPolicy::OnFailure { max_retries, backoff_ms } => "OnFailure (max "@ + decimal(
            max_retries as nat,
        ) + ", backoff "@ + decimal(backoff_ms as nat) + "ms)"@,
        RestartPolicy::Always { max_retries, backoff_ms } => "Always (max "@ + decimal(max_retries as nat)
            + ", backoff "@ + decimal(backoff_ms as nat) + "ms)"@,
    }
}

/// Uptime as hours and minutes, minutes and seconds, or seconds.
pub open spec fn uptime_text(u: nat) -> Seq<char> {
    if u >= 3600 {
        decimal(u / 3600) + "h "@ + decimal((u % 3600) / 60) + "m"@
    } else if u >= 60 {
        decimal(u / 60) + "m "@ + decimal(u % 60) + "s"@
    } else {
        decimal(u) + "s"@
    }
}

/// Name of a process kind.
pub open spec fn process_kind_name(t: DevProcessType) -> Seq<char> {
    match t {
        DevProcessType::Frontend => "Frontend"@,
        DevProcessType::Backend => "Backend"@,
        DevProcessType::Docker => "Docker"@,
        DevProcessType::Worker => "Worker"@,
    }
}

/// The information lines of the details card.
pub open spec fn process_info_spec(p: DevProcessSummary) -> Seq<Seq<(Seq<char>, SpanStyle)>> {
    seq![
        seq![
            ("  "@ + p.name@ + " "@, fg_bold(ThemeColor::BrandAccent)),
            (" ["@ + status_label(p).0 + "]"@, fg_bold(status_label(p).1)),
        ],
        seq![("  ID:        "@, fg(ThemeColor::Muted)), (p.id@, fg(ThemeColor::TextPrimary))],
        seq![
            ("  Type:      "@, fg(ThemeColor::Muted)),
            (process_kind_name(p.process_type), fg(ThemeColor::TextPrimary)),
            ("  PID: "@, fg(ThemeColor::Muted)),
            (match p.pid {
                Some(n) => decimal(n as nat),
                None => "-"@,
            }, fg(ThemeColor::TextPrimary)),
            ("  Uptime: "@, fg(ThemeColor::Muted)),
            (uptime_text(p.uptime_secs as nat), fg(ThemeColor::TextPrimary)),
        ],
        seq![
            ("  Endpoint:  "@, fg(ThemeColor::Muted)),
            (match p.url {
                Some(u) => u@,
                None => "-"@,
            }, fg(ThemeColor::BrandAccent)),
        ],
        seq![
            ("  Port Res:  "@, fg(ThemeColor::Muted)),
            (port_resolution_text(p), if p.port_resolution is Some {
                fg(ThemeColor::Warning)
            } else {
                fg(ThemeColor::TextPrimary)
            }),
        ],
        seq![
            ("  Watchdog:  "@, fg(ThemeColor::Muted)),
            (policy_text(p.restart_policy), fg(ThemeColor::TextPrimary)),
            (" | Restarts: "@ + decimal(p.restart_count as nat), fg(ThemeColor::Muted)),
        ],
    ]
}

/// A log line as peeked: over 60 bytes it keeps its first 59 bytes and `…`.
pub open spec fn log_shown(l: Seq<char>) -> Seq<char> {
    if encode_utf8(l).len() > 60 {
        decode_utf8(encode_utf8(l).take(59)) + "…"@
    } else {
        l
    }
}

/// The cut of `log_shown` falls on a character boundary, and the byte length fits.
pub open spec fn log_cut_ok(l: Seq<char>) -> bool {
    &&& encode_utf8(l).len() <= usize::MAX
    &&& encode_utf8(l).len() > 60 ==> is_char_boundary(encode_utf8(l), 59)
}

/// Number of log lines peeked in a box `height` rows high.
pub open spec fn peek_count(n: nat, height: nat) -> nat {
    let rows: nat = if height >= 2 {
        (height - 2) as nat
    } else {
        0
    };
    if rows < n {
        rows
    } else {
        n
    }
}

/// The recent output peek: the last log lines that fit, or a note when there are none.
pub open spec fn log_peek_spec(logs: Seq<Seq<char>>, height: nat) -> Seq<Seq<(Seq<char>, SpanStyle)>> {
    if logs.len() == 0 {
        seq![seq![("  (No log output recorded yet)"@, fg(ThemeColor::Muted))]]
    } else {
        let k = peek_count(logs.len(), height);
        Seq::new(
            k,
            |i: int|
                seq![
                    (" › "@, fg(ThemeColor::BrandAccent)),
                    (log_shown(logs[logs.len() - k + i]), fg(ThemeColor::TextPrimary)),
                ],
        )
    }
}

/// The card's text when no process is selected.
pub open spec fn no_process_spec() -> Seq<Seq<(Seq<char>, SpanStyle)>> {
    seq![blank_line(), seq![("  No process selected."@, fg(ThemeColor::Muted))]]
}

fn decimal_string(n: u64) -> (r: String)
    ensures
        r@ == decimal(n as nat),
{
    string_from_chars(&u64_to_decimal(n))
}

/// Inserts `p` into an ascending list, keeping it ascending and without repeats.
fn insert_port(out: &mut Vec<u16>, p: u16)
    requires
        ascending(old(out)@),
    ensures
        ascending(final(out)@),
        final(out)@.to_set() == old(out)@.to_set().insert(p),
{
    let mut i: usize = 0;
    while i < out.len() && out[i] < p
        invariant
            i <= out@.len(),
            ascending(out@),
            forall|j: int| 0 <= j < i ==> out@[j] < p,
        decreases out@.len() - i,
    {
        i += 1;
    }
    let ghost before = out@;
    if i < out.len() && out[i] == p {
        assert(before.to_set().insert(p) =~= before.to_set());
        return;
    }
    out.insert(i, p);
    proof {
        assert forall|a: int, b: int| 0 <= a < b < out@.len() implies out@[a] < out@[b] by {
            if b < i {
            } else if a < i && b == i {
            } else if a < i {
                assert(out@[b] == before[b - 1]);
            } else if a == i {
                assert(out@[b] == before[b - 1]);
                assert(before[i as int] > p);
                assert(before[i as int] <= before[b - 1]);
            } else {
                assert(out@[a] == before[a - 1] && out@[b] == before[b - 1]);
            }
        }
        assert forall|x: u16| out@.to_set().contains(x) <==> before.to_set().insert(p).contains(x) by {
            if out@.to_set().contains(x) {
                let k = choose|k: int| 0 <= k < out@.len() && out@[k] == x;
                if k < i {
                    assert(before[k] == x);
                } else if k > i {
                    assert(before[k - 1] == x);
                }
            }
            if before.to_set().contains(x) {
                let k = choose|k: int| 0 <= k < before.len() && before[k] == x;
                if k < i {
                    assert(out@[k] == x);
                } else {
                    assert(out@[k + 1] == x);
                }
            }
            if x == p {
                assert(out@[i as int] == p);
            }
        }
        assert(out@.to_set() =~= before.to_set().insert(p));
    }
}

/// Process count and ports shown by the telemetry tab.
pub fn telemetry_totals(s: &ProcessesModalState) -> (r: (usize, Vec<u16>))
    ensures
        telemetry_totals_ok(*s, r.0 as nat, r.1@),
{
    match &s.resources {
        Some(res) => (res.total_active_processes, res.active_ports.clone()),
        None => {
            let mut out: Vec<u16> = Vec::new();
            let mut i: usize = 0;
            while i < s.processes.len()
                invariant
                    i <= s.processes@.len(),
                    ascending(out@),
                    out@.to_set() == Set::new(
                        |p: u16|
                            exists|a: int, b: int|
                                0 <= a < i && 0 <= b < s.processes@[a].ports@.len()
                                    && s.processes@[a].ports@[b] == p,
                    ),
                decreases s.processes@.len() - i,
            {
                let ports = &s.processes[i].ports;
                let ghost done = out@.to_set();
                let mut j: usize = 0;
                while j < ports.len()
                    invariant
                        j <= ports@.len(),
                        ports@ == s.processes@[i as int].ports@,
                        ascending(out@),
                        out@.to_set() == done.union(Set::new(
                            |p: u16| exists|b: int| 0 <= b < j && ports@[b] == p,
                        )),
                    decreases ports@.len() - j,
                {
                    let ghost before = out@.to_set();
                    insert_port(&mut out, ports[j]);
                    j += 1;
                    proof {
                        assert(out@.to_set() =~= done.union(Set::new(
                            |p: u16| exists|b: int| 0 <= b < j && ports@[b] == p,
                        ))) by {
                            assert forall|x: u16| #[trigger] out@.to_set().contains(x) <==> done.union(Set::new(
                                |p: u16| exists|b: int| 0 <= b < j && ports@[b] == p,
                            )).contains(x) by {
                                if x == ports@[j - 1] {
                                }
                                if exists|b: int| 0 <= b < j && ports@[b] == x {
                                    let b = choose|b: int| 0 <= b < j && ports@[b] == x;
                                    if b < j - 1 {
                                    }
                                }
                            }
                        }
                    }
                }
                i += 1;
                proof {
                    assert(out@.to_set() =~= Set::new(
                        |p: u16|
                            exists|a: int, b: int|
                                0 <= a < i && 0 <= b < s.processes@[a].ports@.len()
                                    && s.processes@[a].ports@[b] == p,
                    )) by {
                        assert forall|x: u16| #[trigger] out@.to_set().contains(x) <==> Set::new(
                            |p: u16|
                                exists|a: int, b: int|
                                    0 <= a < i && 0 <= b < s.processes@[a].ports@.len()
                                        && s.processes@[a].ports@[b] == p,
                        ).contains(x) by {
                            if exists|a: int, b: int|
                                0 <= a < i && 0 <= b < s.processes@[a].ports@.len()
                                    && s.processes@[a].ports@[b] == x {
                                let (a, b) = choose|a: int, b: int|
                                    0 <= a < i && 0 <= b < s.processes@[a].ports@.len()
                                        && s.processes@[a].ports@[b] == x;
                                if a < i - 1 {
                                } else {
                                    assert(ports@[b] == x);
                                }
                            }
                            if out@.to_set().contains(x) && !done.contains(x) {
                                let b = choose|b: int| 0 <= b < ports@.len() && ports@[b] == x;
                                assert(s.processes@[i - 1].ports@[b] == x);
                            }
                        }
                    }
                }
            }
            assert(Set::new(
                |p: u16|
                    exists|a: int, b: int|
                        0 <= a < i && 0 <= b < s.processes@[a].ports@.len()
                            && s.processes@[a].ports@[b] == p,
            ) =~= all_process_ports(s.processes@));
            (s.processes.len(), out)
        },
    }
}

fn ports_text_exec(ps: &Vec<u16>) -> (r: String)
    ensures
        r@ == ports_text(ps@),
{
    if ps.len() == 0 {
        return "None".to_owned();
    }
    let mut r = String::new();
    let mut i: usize = 0;
    while i < ps.len()
        invariant
            i <= ps@.len(),
            r@ == ports_join(ps@.take(i as int)),
        decreases ps@.len() - i,
    {
        proof {
            assert(ps@.take(i + 1).drop_last() =~= ps@.take(i as int));
            assert(ps@.take(i + 1).last() == ps@[i as int]);
        }
        if i > 0 {
            push_str(&mut r, ", ");
        }
        push_str(&mut r, decimal_string(ps[i] as u64).as_str());
        i += 1;
    }
    assert(ps@.take(ps@.len() as int) =~= ps@);
    r
}

/// The ports as shown.
pub fn ports_label(ps: &Vec<u16>) -> (r: String)
    ensures
        r@ == ports_text(ps@),
{
    ports_text_exec(ps)
}

/// A metric card's lines.
pub fn card_lines(value: &str, color: ThemeColor, label: &str) -> (r: Vec<StyledLine>)
    ensures
        lines_view(r@) == card_spec(value@, color, label@),
{
    let mut out: Vec<StyledLine> = Vec::new();
    push_line(&mut out, blank_line_exec());
    push_line(&mut out, line_of(span_str(concat2("   ", value).as_str(), style_fg_bold(color))));
    push_line(&mut out, line_of(span_str(concat2("   ", label).as_str(), style_fg(ThemeColor::Muted))));
    assert(lines_view(out@) =~= card_spec(value@, color, label@));
    out
}

/// The process-count card's value.
pub fn count_text(n: usize) -> (r: String)
    ensures
        r@ == decimal(n as nat),
{
    decimal_string(n as u64)
}

fn two(a: &str, sa: SpanStyle, b: &str, sb: SpanStyle) -> (l: StyledLine)
    ensures
        line_view(l) == seq![(a@, sa), (b@, sb)],
{
    let mut v: Vec<StyledSpan> = Vec::new();
    v.push(span_str(a, sa));
    v.push(span_str(b, sb));
    let l = line_from(v);
    assert(line_view(l) =~= seq![(a@, sa), (b@, sb)]);
    l
}

/// The watchdog panel's lines.
pub fn watchdog_lines() -> (r: Vec<StyledLine>)
    ensures
        lines_view(r@) == watchdog_spec(),
{
    let ok = style_fg_bold(ThemeColor::Success);
    let m = style_fg(ThemeColor::Muted);
    let mut out: Vec<StyledLine> = Vec::new();
    push_line(&mut out, blank_line_exec());
    push_line(&mut out, two("  ✔ Pure-Rust Linux Inode Discovery", ok, " (/proc/net/tcp + /proc/*/fd)", m));
    push_line(&mut out, two("  ✔ Zero-Orphan Isolation Guard", ok, " (PR_SET_PDEATHSIG + setpgid)", m));
    push_line(&mut out, two("  ✔ Two-Phase Signal Escalation", ok, " (SIGTERM ➜ 1000ms ➜ SIGKILL)", m));
    push_line(&mut out, two("  ✔ Crash-Loop Circuit Breaker", ok, " (≥3 fast crashes <3s trips Degraded)", m));
    push_line(&mut out, two("  ✔ Exponential Backoff Watchdog", ok, " (backoff_ms * 2^(retry - 1))", m));
    assert(lines_view(out@) =~= watchdog_spec());
    out
}

/// The port arbitration panel's lines.
pub fn port_matrix_lines(ports: &Vec<u16>) -> (r: Vec<StyledLine>)
    ensures
        lines_view(r@) == port_matrix_spec(ports@),
{
    let t = style_fg(ThemeColor::TextPrimary);
    let mut out: Vec<StyledLine> = Vec::new();
    push_line(&mut out, blank_line_exec());
    push_line(&mut out, line_of(span_str("  Port Conflict Resolution Matrix:", style_fg_bold(ThemeColor::BrandAccent))));
    push_line(&mut out, two("  • Fallback: ", style_fg(ThemeColor::Warning), "Auto-shifts to next open port and injects PORT=...", t));
    push_line(&mut out, two("  • Error:    ", style_fg(ThemeColor::Destructive), "Fails immediately with PID & process command report", t));
    push_line(&mut out, two("  • Kill:     ", style_fg(ThemeColor::BrandAccent), "Sends SIGTERM/SIGKILL to conflicting process", t));
    push_line(&mut out, two("  • Ignore:   ", style_fg(ThemeColor::Muted), "Bypasses probe and attempts spawn unconditionally", t));
    if ports.len() > 0 {
        push_line(&mut out, blank_line_exec());
        push_line(&mut out, two("  Active Port Bindings: ", style_fg_bold(ThemeColor::Success), ports_text_exec(ports).as_str(), t));
    }
    assert(lines_view(out@) =~= port_matrix_spec(ports@));
    out
}


fn port_resolution_exec(p: &DevProcessSummary) -> (r: String)
    ensures
        r@ == port_resolution_text(*p),
{
    match p.port_resolution {
        Some(PortResolution::Shifted { requested, resolved }) => {
            let mut s = concat2("Shifted: ", decimal_string(requested as u64).as_str());
            push_str(&mut s, " ➜ ");
            push_str(&mut s, decimal_string(resolved as u64).as_str());
            push_str(&mut s, " (Port Conflict)");
            s
        },
        Some(PortResolution::Reclaimed { port }) => concat3(
            "Reclaimed port ",
            decimal_string(port as u64).as_str(),
            " after conflict kill",
        ),
        Some(PortResolution::Unchanged { port }) => concat3(
            "Port ",
            decimal_string(port as u64).as_str(),
            " bound directly",
        ),
        Some(PortResolution::Ignored) => "Ignored port conflicts".to_owned(),
        None => match &p.url {
            Some(u) => u.clone(),
            None => if p.ports.len() == 0 {
                "None".to_owned()
            } else {
                "Listening".to_owned()
            },
        },
    }
}

fn policy_exec(r: RestartPolicy) -> (s: String)
    ensures
        s@ == policy_text(r),
{
    let (head, m, b) = match r {
        RestartPolicy::Never => {
            return "Never".to_owned();
        },
        RestartPolicy::OnFailure { max_retries, backoff_ms } => ("OnFailure (max ", max_retries, backoff_ms),
        RestartPolicy::Always { max_retries, backoff_ms } => ("Always (max ", max_retries, backoff_ms),
    };
    let mut s = concat2(head, decimal_string(m as u64).as_str());
    push_str(&mut s, ", backoff ");
    push_str(&mut s, decimal_string(b).as_str());
    push_str(&mut s, "ms)");
    s
}

fn uptime_exec(u: u64) -> (r: String)
    ensures
        r@ == uptime_text(u as nat),
{
    if u >= 3600 {
        let mut s = concat2(decimal_string(u / 3600).as_str(), "h ");
        push_str(&mut s, decimal_string((u % 3600) / 60).as_str());
        push_str(&mut s, "m");
        s
    } else if u >= 60 {
        let mut s = concat2(decimal_string(u / 60).as_str(), "m ");
        push_str(&mut s, decimal_string(u % 60).as_str());
        push_str(&mut s, "s");
        s
    } else {
        concat2(decimal_string(u).as_str(), "s")
    }
}

/// The information lines of the details card for process `p`.
pub fn process_info_lines(p: &DevProcessSummary) -> (r: Vec<StyledLine>)
    ensures
        lines_view(r@) == process_info_spec(*p),
{
    let ghost spec = process_info_spec(*p);
    let (label, color): (String, ThemeColor) = match p.status {
        DevProcessStatus::Running => ("RUNNING".to_owned(), ThemeColor::Success),
        DevProcessStatus::Healthy => ("READY".to_owned(), ThemeColor::Success),
        DevProcessStatus::Degraded => (p.degraded_reason.clone(), ThemeColor::Warning),
        DevProcessStatus::Exited => ("EXITED".to_owned(), ThemeColor::Muted),
        DevProcessStatus::Stopped => ("STOPPED".to_owned(), ThemeColor::Muted),
        DevProcessStatus::Killed => ("KILLED".to_owned(), ThemeColor::Destructive),
    };
    let m = style_fg(ThemeColor::Muted);
    let t = style_fg(ThemeColor::TextPrimary);
    let mut out: Vec<StyledLine> = Vec::new();
    let l0 = two(
        concat3("  ", p.name.as_str(), " ").as_str(),
        style_fg_bold(ThemeColor::BrandAccent),
        concat3(" [", label.as_str(), "]").as_str(),
        style_fg_bold(color),
    );
    assert(line_view(l0) =~= spec[0]);
    push_line(&mut out, l0);
    let l1 = two("  ID:        ", m, p.id.as_str(), t);
    assert(line_view(l1) =~= spec[1]);
    push_line(&mut out, l1);
    let tname = match p.process_type {
        DevProcessType::Frontend => "Frontend",
        DevProcessType::Backend => "Backend",
        DevProcessType::Docker => "Docker",
        DevProcessType::Worker => "Worker",
    };
    let pid = match p.pid {
        Some(n) => decimal_string(n as u64),
        None => "-".to_owned(),
    };
    let mut v: Vec<StyledSpan> = Vec::new();
    v.push(span_str("  Type:      ", m));
    v.push(span_str(tname, t));
    v.push(span_str("  PID: ", m));
    v.push(span_str(pid.as_str(), t));
    v.push(span_str("  Uptime: ", m));
    v.push(span_str(uptime_exec(p.uptime_secs).as_str(), t));
    let l2 = line_from(v);
    assert(line_view(l2) =~= spec[2]);
    push_line(&mut out, l2);
    let endpoint: &str = match &p.url {
        Some(u) => u.as_str(),
        None => "-",
    };
    let l3 = two("  Endpoint:  ", m, endpoint, style_fg(ThemeColor::BrandAccent));
    assert(line_view(l3) =~= spec[3]);
    push_line(&mut out, l3);
    let res_style = if p.port_resolution.is_some() {
        style_fg(ThemeColor::Warning)
    } else {
        t
    };
    let l4 = two("  Port Res:  ", m, port_resolution_exec(p).as_str(), res_style);
    assert(line_view(l4) =~= spec[4]);
    push_line(&mut out, l4);
    let mut w: Vec<StyledSpan> = Vec::new();
    w.push(span_str("  Watchdog:  ", m));
    w.push(span_str(policy_exec(p.restart_policy).as_str(), t));
    w.push(span_str(concat2(" | Restarts: ", decimal_string(p.restart_count as u64).as_str()).as_str(), m));
    let l5 = line_from(w);
    assert(line_view(l5) =~= spec[5]);
    push_line(&mut out, l5);
    assert(lines_view(out@) =~= spec);
    out
}

fn log_shown_exec(l: &str) -> (r: String)
    requires
        log_cut_ok(l@),
    ensures
        r@ == log_shown(l@),
{
    if l.len() <= 60 {
        return l.to_owned();
    }
    let (head, _) = l.split_at(59);
    proof {
        encode_utf8_decode_utf8(head@);
        assert(head.spec_bytes() =~= encode_utf8(l@).take(59));
    }
    concat2(head, "…")
}

/// The recent output peek in a box `height` rows high; the lines shown are cut at a byte
/// offset that must fall on a character boundary.
pub fn log_peek_lines(logs: &Vec<String>, height: usize) -> (r: Vec<StyledLine>)
    requires
        forall|i: int|
            logs@.len() - peek_count(logs@.len(), height as nat) <= i < logs@.len() ==> log_cut_ok(
                #[trigger] logs@[i]@,
            ),
    ensures
        lines_view(r@) == log_peek_spec(logs@.map_values(|s: String| s@), height as nat),
{
    let ghost lv = logs@.map_values(|s: String| s@);
    let mut out: Vec<StyledLine> = Vec::new();
    let n = logs.len();
    if n == 0 {
        push_line(&mut out, line_of(span_str("  (No log output recorded yet)", style_fg(ThemeColor::Muted))));
        assert(lines_view(out@) =~= log_peek_spec(lv, height as nat));
        return out;
    }
    let rows: usize = if height >= 2 {
        height - 2
    } else {
        0
    };
    let k: usize = if rows < n {
        rows
    } else {
        n
    };
    assert(k == peek_count(n as nat, height as nat));
    let mut i: usize = 0;
    while i < k
        invariant
            i <= k <= n,
            n == logs@.len(),
            lv == logs@.map_values(|s: String| s@),
            k == peek_count(n as nat, height as nat),
            forall|j: int| n - k <= j < n ==> log_cut_ok(#[trigger] logs@[j]@),
            lines_view(out@) == Seq::new(
                i as nat,
                |j: int|
                    seq![
                        (" › "@, fg(ThemeColor::BrandAccent)),
                        (log_shown(lv[n - k + j]), fg(ThemeColor::TextPrimary)),
                    ],
            ),
        decreases k - i,
    {
        let idx = n - k + i;
        assert(log_cut_ok(logs@[idx as int]@));
        let shown = log_shown_exec(logs[idx].as_str());
        push_line(&mut out, two(" › ", style_fg(ThemeColor::BrandAccent), shown.as_str(), style_fg(ThemeColor::TextPrimary)));
        i += 1;
        assert(lines_view(out@) =~= Seq::new(
            i as nat,
            |j: int|
                seq![
                    (" › "@, fg(ThemeColor::BrandAccent)),
                    (log_shown(lv[n - k + j]), fg(ThemeColor::TextPrimary)),
                ],
        ));
    }
    assert(lines_view(out@) =~= log_peek_spec(lv, height as nat));
    out
}

/// The card's text when no process is selected.
pub fn no_process_lines() -> (r: Vec<StyledLine>)
    ensures
        lines_view(r@) == no_process_spec(),
{
    let mut out: Vec<StyledLine> = Vec::new();
    push_line(&mut out, blank_line_exec());
    push_line(&mut out, line_of(span_str("  No process selected.", style_fg(ThemeColor::Muted))));
    assert(lines_view(out@) =~= no_process_spec());
    out
}

} // verus!
