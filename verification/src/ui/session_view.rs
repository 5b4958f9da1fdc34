//! Content of the session browser as styled lines: the list of stored sessions around the
//! selection and the summary of the selected one. The session store shortens identifiers
//! and the last response for display, and the tool time is a decimal fraction of seconds:
//! those texts arrive already made.

use vstd::prelude::*;
use crate::records::{SessionMetadata, SessionSummary};
use crate::text::{decimal, u64_to_decimal, string_from_chars};
use crate::tools::{concat2, concat3};
use crate::ui::modal_view::{picked_detail_style, picked_style};
use crate::ui::modals::command_catalog::{blank_line, blank_line_exec, pad_right, pad_right_exec, scroll_offset_spec};
use crate::ui::styled::{
    fg, fg_bold, line_from, line_of, line_view, lines_view, plain_style, push_line, span_str, style_fg,
    style_fg_bold, style_plain, SpanStyle, StyledLine, StyledSpan, ThemeColor,
};

verus! {

/// The event badge of a row: empty without events.
pub open spec fn event_badge(n: nat) -> Seq<char> {
    if n == 0 {
        seq![]
    } else {
        " ("@ + decimal(n) + " evt)"@
    }
}

/// The two lines of a session row: age and event badge, then the shortened identifier.
pub open spec fn session_row(age: Seq<char>, events: nat, id: Seq<char>, selected: bool) -> Seq<
    Seq<(Seq<char>, SpanStyle)>,
> {
    if selected {
        seq![
            seq![(" › "@ + age + " "@, picked_style()), (event_badge(events), picked_detail_style())],
            seq![(
                "     "@ + id,
                SpanStyle {
                    fg: Some(ThemeColor::BgElevated),
                    bg: Some(ThemeColor::BrandAccent),
                    bold: false,
                    underlined: false,
                    italic: false, dim: false,
                },
            )],
        ]
    } else {
        seq![
            seq![("   "@ + age + " "@, fg_bold(ThemeColor::Warning)), (event_badge(events), fg(ThemeColor::Muted))],
            seq![("     "@ + id, fg(ThemeColor::Muted))],
        ]
    }
}

/// First session shown when `max_visible` rows fit and `sel` is selected.
pub open spec fn session_offset(sel: nat, max_visible: nat) -> nat {
    if sel >= max_visible {
        (sel - max_visible + 1) as nat
    } else {
        0
    }
}

/// The rows of the sessions at positions `off..k`.
pub open spec fn session_rows_from(
    ss: Seq<SessionMetadata>,
    ages: Seq<String>,
    ids: Seq<String>,
    sel: nat,
    off: int,
    k: int,
) -> Seq<Seq<(Seq<char>, SpanStyle)>>
    decreases k - off,
{
    if k <= off {
        seq![]
    } else {
        session_rows_from(ss, ages, ids, sel, off, k - 1) + session_row(
            ages[k - 1]@,
            ss[k - 1].event_count as nat,
            ids[k - 1]@,
            k - 1 == sel,
        )
    }
}

/// Past-the-last session shown.
pub open spec fn session_end(n: nat, off: nat, max_visible: nat) -> nat {
    if off + max_visible < n {
        off + max_visible
    } else if off < n {
        n
    } else {
        off
    }
}

/// The session list: a notice when there is no session, else the rows that fit around
/// the selection, each session's age and shortened identifier given at its position.
pub open spec fn session_list_spec(
    ss: Seq<SessionMetadata>,
    ages: Seq<String>,
    ids: Seq<String>,
    sel: nat,
    max_visible: nat,
) -> Seq<Seq<(Seq<char>, SpanStyle)>> {
    if ss.len() == 0 {
        seq![seq![("  No past sessions found in this workspace."@, fg(ThemeColor::Muted))]]
    } else {
        let off = session_offset(sel, max_visible);
        session_rows_from(ss, ages, ids, sel, off as int, session_end(ss.len(), off, max_visible) as int)
    }
}

/// The tool entries `[name: count] ` of the first `k` tools.
pub open spec fn tool_spans(tools: Seq<(String, usize)>, k: int) -> Seq<(Seq<char>, SpanStyle)>
    decreases k,
{
    if k <= 0 {
        seq![]
    } else {
        tool_spans(tools, k - 1).push(
            ("["@ + tools[k - 1].0@ + ": "@ + decimal(tools[k - 1].1 as nat) + "] "@, fg(ThemeColor::BrandAccent)),
        )
    }
}

/// The line of a touched file.
pub open spec fn file_line(f: Seq<char>) -> Seq<(Seq<char>, SpanStyle)> {
    seq![("  • "@, fg(ThemeColor::Success)), (f, fg(ThemeColor::TextPrimary))]
}

/// The lines of the first `k` touched files.
pub open spec fn file_lines(files: Seq<String>, k: int) -> Seq<Seq<(Seq<char>, SpanStyle)>>
    decreases k,
{
    if k <= 0 {
        seq![]
    } else {
        file_lines(files, k - 1).push(file_line(files[k - 1]@))
    }
}

/// The touched files: a count, at most `max_files` of them, and how many more there are.
pub open spec fn files_block(files: Seq<String>, max_files: nat) -> Seq<Seq<(Seq<char>, SpanStyle)>> {
    if files.len() == 0 {
        seq![]
    } else {
        let shown: nat = if files.len() < max_files { files.len() } else { max_files };
        let head = seq![seq![("Files Touched ("@ + decimal(files.len()) + ") : "@, fg(ThemeColor::Muted))]]
            + file_lines(files, shown as int);
        if files.len() > max_files {
            head.push(
                seq![(
                    "    +"@ + decimal((files.len() - max_files) as nat) + " more files..."@,
                    fg(ThemeColor::Muted),
                )],
            )
        } else {
            head
        }
    }
}

/// `s` with each line break turned into a space.
pub open spec fn newlines_to_spaces(s: Seq<char>) -> Seq<char> {
    s.map_values(|c: char| if c == '\n' { ' ' } else { c })
}

/// The counters line of a summary; `tool_time` is the tool time as shown.
pub open spec fn counters_line(s: SessionSummary, tool_time: Seq<char>) -> Seq<(Seq<char>, SpanStyle)> {
    seq![
        ("Turns: "@, fg(ThemeColor::Muted)),
        (decimal(s.total_turns as nat) + "   "@, fg(ThemeColor::TextPrimary)),
        ("Events: "@, fg(ThemeColor::Muted)),
        (decimal(s.total_events as nat) + "   "@, fg(ThemeColor::TextPrimary)),
        ("Tokens: "@, fg(ThemeColor::Muted)),
        ("~"@ + decimal(s.total_tokens as nat) + "   "@, fg(ThemeColor::TextPrimary)),
        ("Tool Time: "@, fg(ThemeColor::Muted)),
        (tool_time, fg(ThemeColor::TextPrimary)),
    ]
}

/// The summary pane: a hint without a summary; else identifier, creation and model,
/// counters, tools, touched files, first prompt and the shortened last response.
pub open spec fn session_preview_spec(
    summary: Option<SessionSummary>,
    tool_time: Seq<char>,
    snippet: Seq<char>,
    max_files: nat,
) -> Seq<Seq<(Seq<char>, SpanStyle)>> {
    match summary {
        None => seq![
            seq![(
                "Select a session on the left to preview history, tool calls, and touched files."@,
                fg(ThemeColor::Muted),
            )],
        ],
        Some(s) => {
            let head = seq![
                seq![("Session: "@, fg(ThemeColor::Muted)), (s.id@, fg_bold(ThemeColor::BrandAccent))],
                seq![
                    ("Created: "@, fg(ThemeColor::Muted)),
                    (s.created_at@, fg(ThemeColor::TextPrimary)),
                    ("   Model: "@, fg(ThemeColor::Muted)),
                    (s.model@, fg_bold(ThemeColor::Success)),
                ],
                counters_line(s, tool_time),
                blank_line(),
            ];
            let tools = if s.tools_used@.len() == 0 {
                seq![]
            } else {
                seq![seq![("Tools: "@, fg(ThemeColor::Muted))] + tool_spans(s.tools_used@, s.tools_used@.len() as int)]
            };
            let prompt = if s.first_prompt@.len() == 0 {
                seq![]
            } else {
                seq![seq![("Initial Prompt: "@, fg_bold(ThemeColor::Warning)), (s.first_prompt@, fg(ThemeColor::TextPrimary))]]
            };
            let response = if s.last_response@.len() == 0 {
                seq![]
            } else {
                seq![seq![("Last Response: "@, fg(ThemeColor::Muted)), (newlines_to_spaces(snippet), fg(ThemeColor::Muted))]]
            };
            head + tools + files_block(s.files_touched@, max_files) + seq![blank_line()] + prompt + response
        },
    }
}

/// The key hints under the session browser.
pub open spec fn session_footer_spec() -> Seq<(Seq<char>, SpanStyle)> {
    seq![
        ("[Enter] "@, fg_bold(ThemeColor::Success)),
        ("Load   "@, fg(ThemeColor::TextPrimary)),
        ("[f] "@, fg_bold(ThemeColor::BrandAccent)),
        ("Fork   "@, fg(ThemeColor::TextPrimary)),
        ("[e] "@, fg_bold(ThemeColor::Warning)),
        ("Export MD   "@, fg(ThemeColor::TextPrimary)),
        ("[d] "@, fg_bold(ThemeColor::Destructive)),
        ("Delete   "@, fg(ThemeColor::TextPrimary)),
        ("[Esc/q] "@, fg_bold(ThemeColor::Muted)),
        ("Close"@, fg(ThemeColor::TextPrimary)),
    ]
}

fn decimal_string(n: usize) -> (r: String)
    ensures
        r@ == decimal(n as nat),
{
    string_from_chars(&u64_to_decimal(n as u64))
}

fn event_badge_exec(n: usize) -> (r: String)
    ensures
        r@ == event_badge(n as nat),
{
    if n == 0 {
        String::new()
    } else {
        concat3(" (", decimal_string(n).as_str(), " evt)")
    }
}

fn two_span_line(a: &str, sa: SpanStyle, b: &str, sb: SpanStyle) -> (l: StyledLine)
    ensures
        line_view(l) == seq![(a@, sa), (b@, sb)],
{
    let mut v: Vec<StyledSpan> = Vec::new();
    v.push(span_str(a, sa));
    v.push(span_str(b, sb));
    let l = line_from(v);
    assert(line_view(l) =~= seq![(a@, sa), (b@, sb)]);
    l
}

fn session_row_push(out: &mut Vec<StyledLine>, age: &str, events: usize, id: &str, selected: bool)
    ensures
        lines_view(final(out)@) == lines_view(old(out)@) + session_row(age@, events as nat, id@, selected),
{
    let ghost start = lines_view(out@);
    let badge = event_badge_exec(events);
    if selected {
        let pill = SpanStyle {
            fg: Some(ThemeColor::BgPrimary),
            bg: Some(ThemeColor::BrandAccent),
            bold: true,
            underlined: false,
            italic: false, dim: false,
        };
        let detail = SpanStyle {
            fg: Some(ThemeColor::BgPrimary),
            bg: Some(ThemeColor::BrandAccent),
            bold: false,
            underlined: false,
            italic: false, dim: false,
        };
        let id_style = SpanStyle {
            fg: Some(ThemeColor::BgElevated),
            bg: Some(ThemeColor::BrandAccent),
            bold: false,
            underlined: false,
            italic: false, dim: false,
        };
        push_line(out, two_span_line(concat3(" › ", age, " ").as_str(), pill, badge.as_str(), detail));
        push_line(out, line_of(span_str(concat2("     ", id).as_str(), id_style)));
    } else {
        push_line(
            out,
            two_span_line(
                concat3("   ", age, " ").as_str(),
                style_fg_bold(ThemeColor::Warning),
                badge.as_str(),
                style_fg(ThemeColor::Muted),
            ),
        );
        push_line(out, line_of(span_str(concat2("     ", id).as_str(), style_fg(ThemeColor::Muted))));
    }
    assert(lines_view(out@) =~= start + session_row(age@, events as nat, id@, selected));
}

/// The session list's lines; `ages[i]` and `ids[i]` are the age and the shortened
/// identifier of session `i`, `max_visible` the number of rows that fit.
pub fn session_list_lines(
    ss: &Vec<SessionMetadata>,
    ages: &Vec<String>,
    ids: &Vec<String>,
    sel: usize,
    max_visible: usize,
) -> (r: Vec<StyledLine>)
    requires
        ages@.len() == ss@.len(),
        ids@.len() == ss@.len(),
        max_visible >= 1,
    ensures
        lines_view(r@) == session_list_spec(ss@, ages@, ids@, sel as nat, max_visible as nat),
{
    let mut out: Vec<StyledLine> = Vec::new();
    if ss.len() == 0 {
        push_line(
            &mut out,
            line_of(span_str("  No past sessions found in this workspace.", style_fg(ThemeColor::Muted))),
        );
        assert(lines_view(out@) =~= session_list_spec(ss@, ages@, ids@, sel as nat, max_visible as nat));
        return out;
    }
    let off: usize = if sel >= max_visible { sel - max_visible + 1 } else { 0 };
    let n = ss.len();
    let end: usize = if off < n && n - off > max_visible {
        off + max_visible
    } else if off < n {
        n
    } else {
        off
    };
    assert(off as nat == session_offset(sel as nat, max_visible as nat));
    assert(end as nat == session_end(n as nat, off as nat, max_visible as nat));
    let mut k: usize = off;
    while k < end
        invariant
            off <= k <= end,
            off < end ==> end <= n,
            n == ss@.len(),
            ages@.len() == n,
            ids@.len() == n,
            lines_view(out@) == session_rows_from(ss@, ages@, ids@, sel as nat, off as int, k as int),
        decreases end - k,
    {
        session_row_push(&mut out, ages[k].as_str(), ss[k].event_count, ids[k].as_str(), k == sel);
        k += 1;
    }
    out
}

fn counters_line_exec(s: &SessionSummary, tool_time: &str) -> (l: StyledLine)
    ensures
        line_view(l) == counters_line(*s, tool_time@),
{
    let mut v: Vec<StyledSpan> = Vec::new();
    v.push(span_str("Turns: ", style_fg(ThemeColor::Muted)));
    v.push(span_str(concat2(decimal_string(s.total_turns).as_str(), "   ").as_str(), style_fg(ThemeColor::TextPrimary)));
    v.push(span_str("Events: ", style_fg(ThemeColor::Muted)));
    v.push(span_str(concat2(decimal_string(s.total_events).as_str(), "   ").as_str(), style_fg(ThemeColor::TextPrimary)));
    v.push(span_str("Tokens: ", style_fg(ThemeColor::Muted)));
    v.push(span_str(concat3("~", decimal_string(s.total_tokens).as_str(), "   ").as_str(), style_fg(ThemeColor::TextPrimary)));
    v.push(span_str("Tool Time: ", style_fg(ThemeColor::Muted)));
    v.push(span_str(tool_time, style_fg(ThemeColor::TextPrimary)));
    let l = line_from(v);
    assert(line_view(l) =~= counters_line(*s, tool_time@));
    l
}

fn tools_line(tools: &Vec<(String, usize)>) -> (l: StyledLine)
    ensures
        line_view(l) == seq![("Tools: "@, fg(ThemeColor::Muted))] + tool_spans(tools@, tools@.len() as int),
{
    let mut v: Vec<StyledSpan> = Vec::new();
    v.push(span_str("Tools: ", style_fg(ThemeColor::Muted)));
    let ghost head = seq![("Tools: "@, fg(ThemeColor::Muted))];
    assert(line_view(StyledLine { spans: v }) =~= head);
    let mut i: usize = 0;
    while i < tools.len()
        invariant
            i <= tools@.len(),
            line_view(StyledLine { spans: v }) == head + tool_spans(tools@, i as int),
        decreases tools@.len() - i,
    {
        let entry = concat4_str(tools[i].0.as_str(), decimal_string(tools[i].1).as_str());
        let sp = span_str(entry.as_str(), style_fg(ThemeColor::BrandAccent));
        let ghost before = v;
        v.push(sp);
        proof {
            assert(v@ =~= before@.push(sp));
            assert(line_view(StyledLine { spans: v }) =~= line_view(StyledLine { spans: before }).push(
                crate::ui::styled::span_view(sp),
            ));
        }
        i += 1;
        assert(line_view(StyledLine { spans: v }) =~= head + tool_spans(tools@, i as int));
    }
    let l = line_from(v);
    assert(line_view(l) =~= line_view(StyledLine { spans: v }));
    l
}

fn concat4_str(name: &str, count: &str) -> (r: String)
    ensures
        r@ == "["@ + name@ + ": "@ + count@ + "] "@,
{
    let a = concat3("[", name, ": ");
    concat3(a.as_str(), count, "] ")
}

fn files_block_push(out: &mut Vec<StyledLine>, files: &Vec<String>, max_files: usize)
    ensures
        lines_view(final(out)@) == lines_view(old(out)@) + files_block(files@, max_files as nat),
{
    let ghost start = lines_view(out@);
    let n = files.len();
    if n == 0 {
        assert(lines_view(out@) =~= start + files_block(files@, max_files as nat));
        return;
    }
    push_line(
        out,
        line_of(span_str(concat3("Files Touched (", decimal_string(n).as_str(), ") : ").as_str(), style_fg(ThemeColor::Muted))),
    );
    let ghost head = lines_view(out@);
    let shown: usize = if n < max_files { n } else { max_files };
    let mut i: usize = 0;
    while i < shown
        invariant
            i <= shown,
            shown <= files@.len(),
            lines_view(out@) == head + file_lines(files@, i as int),
        decreases shown - i,
    {
        push_line(out, two_span_line("  • ", style_fg(ThemeColor::Success), files[i].as_str(), style_fg(ThemeColor::TextPrimary)));
        i += 1;
        assert(lines_view(out@) =~= head + file_lines(files@, i as int));
    }
    if n > max_files {
        push_line(
            out,
            line_of(span_str(concat3("    +", decimal_string(n - max_files).as_str(), " more files...").as_str(), style_fg(ThemeColor::Muted))),
        );
    }
    assert(lines_view(out@) =~= start + files_block(files@, max_files as nat));
}

fn newlines_to_spaces_exec(s: &str) -> (r: String)
    ensures
        r@ == newlines_to_spaces(s@),
{
    let v = crate::text::chars_of(s);
    let mut w: Vec<char> = Vec::new();
    let mut i: usize = 0;
    while i < v.len()
        invariant
            i <= v@.len(),
            v@ == s@,
            w@ == newlines_to_spaces(s@).take(i as int),
        decreases v@.len() - i,
    {
        w.push(if v[i] == '\n' { ' ' } else { v[i] });
        i += 1;
        assert(w@ =~= newlines_to_spaces(s@).take(i as int));
    }
    assert(w@ =~= newlines_to_spaces(s@));
    string_from_chars(&w)
}

/// The summary pane's lines; `tool_time` is the tool time as shown, `snippet` the last
/// response as the session store shortens it, `max_files` the number of files listed.
pub fn session_preview_lines(
    summary: &Option<SessionSummary>,
    tool_time: &str,
    snippet: &str,
    max_files: usize,
) -> (r: Vec<StyledLine>)
    ensures
        lines_view(r@) == session_preview_spec(*summary, tool_time@, snippet@, max_files as nat),
{
    let mut out: Vec<StyledLine> = Vec::new();
    match summary {
        None => {
            push_line(
                &mut out,
                line_of(span_str(
                    "Select a session on the left to preview history, tool calls, and touched files.",
                    style_fg(ThemeColor::Muted),
                )),
            );
        },
        Some(s) => {
            push_line(&mut out, two_span_line("Session: ", style_fg(ThemeColor::Muted), s.id.as_str(), style_fg_bold(ThemeColor::BrandAccent)));
            let mut v: Vec<StyledSpan> = Vec::new();
            v.push(span_str("Created: ", style_fg(ThemeColor::Muted)));
            v.push(span_str(s.created_at.as_str(), style_fg(ThemeColor::TextPrimary)));
            v.push(span_str("   Model: ", style_fg(ThemeColor::Muted)));
            v.push(span_str(s.model.as_str(), style_fg_bold(ThemeColor::Success)));
            let created = line_from(v);
            assert(line_view(created) =~= seq![
                ("Created: "@, fg(ThemeColor::Muted)),
                (s.created_at@, fg(ThemeColor::TextPrimary)),
                ("   Model: "@, fg(ThemeColor::Muted)),
                (s.model@, fg_bold(ThemeColor::Success)),
            ]);
            push_line(&mut out, created);
            push_line(&mut out, counters_line_exec(s, tool_time));
            push_line(&mut out, blank_line_exec());
            let ghost head = seq![
                seq![("Session: "@, fg(ThemeColor::Muted)), (s.id@, fg_bold(ThemeColor::BrandAccent))],
                seq![
                    ("Created: "@, fg(ThemeColor::Muted)),
                    (s.created_at@, fg(ThemeColor::TextPrimary)),
                    ("   Model: "@, fg(ThemeColor::Muted)),
                    (s.model@, fg_bold(ThemeColor::Success)),
                ],
                counters_line(*s, tool_time@),
                blank_line(),
            ];
            assert(lines_view(out@) =~= head);
            let ghost tools = if s.tools_used@.len() == 0 {
                seq![]
            } else {
                seq![seq![("Tools: "@, fg(ThemeColor::Muted))] + tool_spans(s.tools_used@, s.tools_used@.len() as int)]
            };
            if s.tools_used.len() > 0 {
                push_line(&mut out, tools_line(&s.tools_used));
            }
            assert(lines_view(out@) =~= head + tools);
            files_block_push(&mut out, &s.files_touched, max_files);
            push_line(&mut out, blank_line_exec());
            let ghost mid = head + tools + files_block(s.files_touched@, max_files as nat) + seq![blank_line()];
            assert(lines_view(out@) =~= mid);
            let ghost prompt = if s.first_prompt@.len() == 0 {
                seq![]
            } else {
                seq![seq![("Initial Prompt: "@, fg_bold(ThemeColor::Warning)), (s.first_prompt@, fg(ThemeColor::TextPrimary))]]
            };
            if crate::text::chars_of(s.first_prompt.as_str()).len() > 0 {
                push_line(&mut out, two_span_line("Initial Prompt: ", style_fg_bold(ThemeColor::Warning), s.first_prompt.as_str(), style_fg(ThemeColor::TextPrimary)));
            }
            assert(lines_view(out@) =~= mid + prompt);
            let ghost response = if s.last_response@.len() == 0 {
                seq![]
            } else {
                seq![seq![("Last Response: "@, fg(ThemeColor::Muted)), (newlines_to_spaces(snippet@), fg(ThemeColor::Muted))]]
            };
            if crate::text::chars_of(s.last_response.as_str()).len() > 0 {
                push_line(&mut out, two_span_line("Last Response: ", style_fg(ThemeColor::Muted), newlines_to_spaces_exec(snippet).as_str(), style_fg(ThemeColor::Muted)));
            }
            assert(lines_view(out@) =~= mid + prompt + response);
        },
    }
    assert(lines_view(out@) =~= session_preview_spec(*summary, tool_time@, snippet@, max_files as nat));
    out
}

/// The key hints under the session browser.
pub fn session_footer() -> (l: StyledLine)
    ensures
        line_view(l) == session_footer_spec(),
{
    let mut v: Vec<StyledSpan> = Vec::new();
    v.push(span_str("[Enter] ", style_fg_bold(ThemeColor::Success)));
    v.push(span_str("Load   ", style_fg(ThemeColor::TextPrimary)));
    v.push(span_str("[f] ", style_fg_bold(ThemeColor::BrandAccent)));
    v.push(span_str("Fork   ", style_fg(ThemeColor::TextPrimary)));
    v.push(span_str("[e] ", style_fg_bold(ThemeColor::Warning)));
    v.push(span_str("Export MD   ", style_fg(ThemeColor::TextPrimary)));
    v.push(span_str("[d] ", style_fg_bold(ThemeColor::Destructive)));
    v.push(span_str("Delete   ", style_fg(ThemeColor::TextPrimary)));
    v.push(span_str("[Esc/q] ", style_fg_bold(ThemeColor::Muted)));
    v.push(span_str("Close", style_fg(ThemeColor::TextPrimary)));
    let l = line_from(v);
    assert(line_view(l) =~= session_footer_spec());
    l
}

/// The count badge of the history list's title: position of the selection and total.
pub open spec fn history_badge(sel: nat, n: nat) -> Seq<char> {
    if n > 0 {
        " ["@ + decimal(sel + 1) + "/"@ + decimal(n) + "] "@
    } else {
        " [0/0] "@
    }
}

/// The title of the history list.
pub open spec fn history_title_spec(sel: nat, n: nat) -> Seq<(Seq<char>, SpanStyle)> {
    seq![(" 📜 Session History "@, fg_bold(ThemeColor::BrandAccent)), (history_badge(sel, n), fg(ThemeColor::Muted))]
}

/// The number of events in words.
pub open spec fn events_text(n: nat) -> Seq<char> {
    if n == 0 {
        "0 events"@
    } else if n == 1 {
        "1 event"@
    } else {
        decimal(n) + " events"@
    }
}

/// The title of a stored session: its first prompt on one line, or its identifier.
pub open spec fn history_title_text(m: SessionMetadata) -> Seq<char> {
    if m.preview@.len() > 0 {
        newlines_to_spaces(m.preview@)
    } else {
        "Session "@ + m.id@
    }
}

/// The two lines of a history row: age in `age_cols` columns and title, then the event
/// count and the shortened identifier.
pub open spec fn history_row(m: SessionMetadata, age: Seq<char>, id: Seq<char>, age_cols: nat, selected: bool) -> Seq<
    Seq<(Seq<char>, SpanStyle)>,
> {
    let detail = events_text(m.event_count as nat) + "  •  id: "@ + id;
    if selected {
        seq![
            seq![
                (" › "@, fg_bold(ThemeColor::BrandAccent)),
                (pad_right(age, age_cols) + " "@, fg_bold(ThemeColor::BrandAccent)),
                (history_title_text(m), fg_bold(ThemeColor::TextPrimary)),
            ],
            seq![("     "@, plain_style()), ("● "@, fg(ThemeColor::Success)), (detail, fg(ThemeColor::Muted))],
        ]
    } else {
        seq![
            seq![
                ("   "@, plain_style()),
                (pad_right(age, age_cols) + " "@, fg(ThemeColor::Muted)),
                (history_title_text(m), fg(ThemeColor::TextPrimary)),
            ],
            seq![("     "@, plain_style()), ("● "@, fg(ThemeColor::Muted)), (detail, fg(ThemeColor::Muted))],
        ]
    }
}

/// The history rows at positions `off..k`.
pub open spec fn history_rows_from(
    ss: Seq<SessionMetadata>,
    ages: Seq<String>,
    ids: Seq<String>,
    age_cols: nat,
    sel: nat,
    off: int,
    k: int,
) -> Seq<Seq<(Seq<char>, SpanStyle)>>
    decreases k - off,
{
    if k <= off {
        seq![]
    } else {
        history_rows_from(ss, ages, ids, age_cols, sel, off, k - 1) + history_row(
            ss[k - 1],
            ages[k - 1]@,
            ids[k - 1]@,
            age_cols,
            k - 1 == sel,
        )
    }
}

/// The history list: a notice when there is no session, else the rows that fit from the
/// scroll offset that keeps the selection visible.
pub open spec fn history_list_spec(
    ss: Seq<SessionMetadata>,
    ages: Seq<String>,
    ids: Seq<String>,
    age_cols: nat,
    sel: nat,
    max_visible: nat,
) -> Seq<Seq<(Seq<char>, SpanStyle)>> {
    if ss.len() == 0 {
        seq![seq![("No past sessions found in this workspace."@, fg(ThemeColor::Muted))]]
    } else {
        let off = scroll_offset_spec(sel, max_visible);
        history_rows_from(ss, ages, ids, age_cols, sel, off as int, session_end(ss.len(), off, max_visible) as int)
    }
}

/// The title of the history list.
pub fn history_title(sel: usize, n: usize) -> (l: StyledLine)
    requires
        sel < usize::MAX,
    ensures
        line_view(l) == history_title_spec(sel as nat, n as nat),
{
    let badge = if n > 0 {
        let a = concat3(" [", decimal_string(sel + 1).as_str(), "/");
        concat3(a.as_str(), decimal_string(n).as_str(), "] ")
    } else {
        " [0/0] ".to_owned()
    };
    two_span_line(" 📜 Session History ", style_fg_bold(ThemeColor::BrandAccent), badge.as_str(), style_fg(ThemeColor::Muted))
}

fn history_title_text_exec(m: &SessionMetadata) -> (r: String)
    ensures
        r@ == history_title_text(*m),
{
    if crate::text::chars_of(m.preview.as_str()).len() > 0 {
        newlines_to_spaces_exec(m.preview.as_str())
    } else {
        concat2("Session ", m.id.as_str())
    }
}

fn events_text_exec(n: usize) -> (r: String)
    ensures
        r@ == events_text(n as nat),
{
    if n == 0 {
        "0 events".to_owned()
    } else if n == 1 {
        "1 event".to_owned()
    } else {
        concat2(decimal_string(n).as_str(), " events")
    }
}

fn history_row_push(out: &mut Vec<StyledLine>, m: &SessionMetadata, age: &str, id: &str, age_cols: usize, selected: bool)
    ensures
        lines_view(final(out)@) == lines_view(old(out)@) + history_row(*m, age@, id@, age_cols as nat, selected),
{
    let ghost start = lines_view(out@);
    let ghost spec = history_row(*m, age@, id@, age_cols as nat, selected);
    let detail = concat3(events_text_exec(m.event_count).as_str(), "  •  id: ", id);
    let aged = concat2(pad_right_exec(age, age_cols).as_str(), " ");
    let title = history_title_text_exec(m);
    let mut a: Vec<StyledSpan> = Vec::new();
    let mut b: Vec<StyledSpan> = Vec::new();
    b.push(span_str("     ", style_plain()));
    if selected {
        a.push(span_str(" › ", style_fg_bold(ThemeColor::BrandAccent)));
        a.push(span_str(aged.as_str(), style_fg_bold(ThemeColor::BrandAccent)));
        a.push(span_str(title.as_str(), style_fg_bold(ThemeColor::TextPrimary)));
        b.push(span_str("● ", style_fg(ThemeColor::Success)));
    } else {
        a.push(span_str("   ", style_plain()));
        a.push(span_str(aged.as_str(), style_fg(ThemeColor::Muted)));
        a.push(span_str(title.as_str(), style_fg(ThemeColor::TextPrimary)));
        b.push(span_str("● ", style_fg(ThemeColor::Muted)));
    }
    b.push(span_str(detail.as_str(), style_fg(ThemeColor::Muted)));
    assert(line_view(StyledLine { spans: a }) =~= spec[0]);
    assert(line_view(StyledLine { spans: b }) =~= spec[1]);
    let la = line_from(a);
    let lb = line_from(b);
    assert(line_view(la) =~= spec[0]);
    assert(line_view(lb) =~= spec[1]);
    push_line(out, la);
    push_line(out, lb);
    assert(lines_view(out@) =~= start + spec);
}

/// The history list's lines; `ages[i]` and `ids[i]` are the age and the shortened
/// identifier of session `i`, `age_cols` the width of the age column and `max_visible`
/// the number of rows that fit.
pub fn history_list_lines(
    ss: &Vec<SessionMetadata>,
    ages: &Vec<String>,
    ids: &Vec<String>,
    age_cols: usize,
    sel: usize,
    max_visible: usize,
) -> (r: Vec<StyledLine>)
    requires
        ages@.len() == ss@.len(),
        ids@.len() == ss@.len(),
        max_visible >= 1,
    ensures
        lines_view(r@) == history_list_spec(ss@, ages@, ids@, age_cols as nat, sel as nat, max_visible as nat),
{
    let mut out: Vec<StyledLine> = Vec::new();
    if ss.len() == 0 {
        push_line(&mut out, line_of(span_str("No past sessions found in this workspace.", style_fg(ThemeColor::Muted))));
        assert(lines_view(out@) =~= history_list_spec(ss@, ages@, ids@, age_cols as nat, sel as nat, max_visible as nat));
        return out;
    }
    let off = crate::ui::layout_utils::compute_scroll_offset(sel, max_visible);
    let n = ss.len();
    let end: usize = if off < n && n - off > max_visible {
        off + max_visible
    } else if off < n {
        n
    } else {
        off
    };
    assert(off as nat == scroll_offset_spec(sel as nat, max_visible as nat));
    assert(end as nat == session_end(n as nat, off as nat, max_visible as nat));
    let mut k: usize = off;
    while k < end
        invariant
            off <= k <= end,
            off < end ==> end <= n,
            n == ss@.len(),
            ages@.len() == n,
            ids@.len() == n,
            lines_view(out@) == history_rows_from(ss@, ages@, ids@, age_cols as nat, sel as nat, off as int, k as int),
        decreases end - k,
    {
        history_row_push(&mut out, &ss[k], ages[k].as_str(), ids[k].as_str(), age_cols, k == sel);
        k += 1;
    }
    out
}

} // verus!
