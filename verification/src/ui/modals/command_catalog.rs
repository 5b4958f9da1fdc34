//! The slash command catalog listed by the `/commands` modal.

use vstd::prelude::*;
use crate::tools::concat3;
use crate::ui::input::{text_width, text_width_of};
use crate::ui::layout_utils::compute_scroll_offset;
use crate::ui::styled::{
    fg, fg_bold, line_from, line_of, line_view, lines_view, plain_style, span_str, style_fg,
    style_fg_bold, SpanStyle, StyledLine, StyledSpan, ThemeColor,
};

verus! {

/// One entry of the command catalog.
#[derive(Debug, Clone, Copy)]
pub struct CommandCatalogItem {
    pub name: &'static str,
    pub category: &'static str,
    pub shortcut: &'static str,
    pub description: &'static str,
    pub example: &'static str,
}

/// The catalog entries, in display order.
pub open spec fn command_catalog_view() -> Seq<CommandCatalogItem> {
    seq![
        CommandCatalogItem {
            name: "/commands",
            category: "Discovery & Help",
            shortcut: "",
            description: "Interactive catalog of all available slash commands & keybindings",
            example: "/commands",
        },
        CommandCatalogItem {
            name: "/new",
            category: "History & Sessions",
            shortcut: "Ctrl+N",
            description: "Start fresh session & reset conversation timeline",
            example: "/new",
        },
        CommandCatalogItem {
            name: "/configure",
            category: "Config & Runtime",
            shortcut: "F2",
            description: "Interactive API key & endpoint manager for providers",
            example: "/configure | /init",
        },
        CommandCatalogItem {
            name: "/provider",
            category: "Config & Runtime",
            shortcut: "",
            description: "Select active LLM provider (OpenRouter, Groq, Ollama, etc.)",
            example: "/provider",
        },
        CommandCatalogItem {
            name: "/index",
            category: "Code & Inspection",
            shortcut: "F5",
            description: "Scan AST symbols & build PageRank code graph",
            example: "/index | /analyze",
        },
        CommandCatalogItem {
            name: "/stack",
            category: "Workflows & Scaffolding",
            shortcut: "",
            description: "Interactive multi-runtime stack wizard & template scaffolder (onpkg)",
            example: "/stack nextjs | /stack react-vite",
        },
        CommandCatalogItem {
            name: "/plan",
            category: "Workflows & Scaffolding",
            shortcut: "",
            description: "Generate structured implementation plan without modifying files",
            example: "/plan add auth middleware",
        },
        CommandCatalogItem {
            name: "/explore",
            category: "Code & Inspection",
            shortcut: "Ctrl+E",
            description: "Interactive PageRank AST CodeGraph symbol explorer & blast radius",
            example: "/explore | /explore SymbolName",
        },
        CommandCatalogItem {
            name: "/review",
            category: "Code & Inspection",
            shortcut: "",
            description: "Comprehensive code quality, security & architectural review",
            example: "/review",
        },
        CommandCatalogItem {
            name: "/arch",
            category: "Code & Inspection",
            shortcut: "",
            description: "Lint layered software architecture boundaries, instability & circular cycles",
            example: "/arch",
        },
        CommandCatalogItem {
            name: "/subagent",
            category: "Workflows & Scaffolding",
            shortcut: "",
            description: "Spawn parallel specialized subagent worker swarm",
            example: "/subagent researcher \"find all memory leaks\"",
        },
        CommandCatalogItem {
            name: "/stream",
            category: "Config & Runtime",
            shortcut: "",
            description: "Toggle token-by-token live assistant streaming mode",
            example: "/stream on | /stream off",
        },
        CommandCatalogItem {
            name: "/model",
            category: "Config & Runtime",
            shortcut: "",
            description: "Switch active LLM model interactively from live provider list",
            example: "/model",
        },
        CommandCatalogItem {
            name: "/theme",
            category: "Display & Aesthetics",
            shortcut: "",
            description: "Switch TUI color theme palette interactively",
            example: "/theme | /theme catppuccin",
        },
        CommandCatalogItem {
            name: "/diff",
            category: "Code & Inspection",
            shortcut: "",
            description: "View git changes (unstaged working tree or --cached staged)",
            example: "/diff | /diff --cached",
        },
        CommandCatalogItem {
            name: "/undo",
            category: "History & Sessions",
            shortcut: "",
            description: "Revert all file modifications from previous turn",
            example: "/undo",
        },
        CommandCatalogItem {
            name: "/sessions",
            category: "History & Sessions",
            shortcut: "",
            description: "Browse & reload past workspace session history",
            example: "/sessions",
        },
        CommandCatalogItem {
            name: "/logs",
            category: "History & Sessions",
            shortcut: "",
            description: "Stream live server-style agent logs (tail -f, -n 100, session IDs)",
            example: "/logs | minicode logs -f",
        },
        CommandCatalogItem {
            name: "/copy",
            category: "Display & Aesthetics",
            shortcut: "",
            description: "Copy latest AI response or entire chat to system clipboard",
            example: "/copy | /copy all",
        },
        CommandCatalogItem {
            name: "/clear",
            category: "Display & Aesthetics",
            shortcut: "",
            description: "Clear conversation timeline display",
            example: "/clear",
        },
        CommandCatalogItem {
            name: "/help",
            category: "Discovery & Help",
            shortcut: "F1",
            description: "Display help cheatsheet & keyboard shortcuts modal",
            example: "/help",
        },
        CommandCatalogItem {
            name: "/terminal",
            category: "Config & Runtime",
            shortcut: "Ctrl+T",
            description: "Toggle embedded persistent PTY shell terminal drawer",
            example: "/terminal",
        },
        CommandCatalogItem {
            name: "/exit",
            category: "Discovery & Help",
            shortcut: "",
            description: "Quit minicode interactive session cleanly",
            example: "/exit",
        },
    ]
}

/// The catalog entries, in display order.
pub fn command_catalog_items() -> (r: &'static [CommandCatalogItem])
    ensures
        r@ == command_catalog_view(),
{
    &[
        CommandCatalogItem {
            name: "/commands",
            category: "Discovery & Help",
            shortcut: "",
            description: "Interactive catalog of all available slash commands & keybindings",
            example: "/commands",
        },
        CommandCatalogItem {
            name: "/new",
            category: "History & Sessions",
            shortcut: "Ctrl+N",
            description: "Start fresh session & reset conversation timeline",
            example: "/new",
        },
        CommandCatalogItem {
            name: "/configure",
            category: "Config & Runtime",
            shortcut: "F2",
            description: "Interactive API key & endpoint manager for providers",
            example: "/configure | /init",
        },
        CommandCatalogItem {
            name: "/provider",
            category: "Config & Runtime",
            shortcut: "",
            description: "Select active LLM provider (OpenRouter, Groq, Ollama, etc.)",
            example: "/provider",
        },
        CommandCatalogItem {
            name: "/index",
            category: "Code & Inspection",
            shortcut: "F5",
            description: "Scan AST symbols & build PageRank code graph",
            example: "/index | /analyze",
        },
        CommandCatalogItem {
            name: "/stack",
            category: "Workflows & Scaffolding",
            shortcut: "",
            description: "Interactive multi-runtime stack wizard & template scaffolder (onpkg)",
            example: "/stack nextjs | /stack react-vite",
        },
        CommandCatalogItem {
            name: "/plan",
            category: "Workflows & Scaffolding",
            shortcut: "",
            description: "Generate structured implementation plan without modifying files",
            example: "/plan add auth middleware",
        },
        CommandCatalogItem {
            name: "/explore",
            category: "Code & Inspection",
            shortcut: "Ctrl+E",
            description: "Interactive PageRank AST CodeGraph symbol explorer & blast radius",
            example: "/explore | /explore SymbolName",
        },
        CommandCatalogItem {
            name: "/review",
            category: "Code & Inspection",
            shortcut: "",
            description: "Comprehensive code quality, security & architectural review",
            example: "/review",
        },
        CommandCatalogItem {
            name: "/arch",
            category: "Code & Inspection",
            shortcut: "",
            description: "Lint layered software architecture boundaries, instability & circular cycles",
            example: "/arch",
        },
        CommandCatalogItem {
            name: "/subagent",
            category: "Workflows & Scaffolding",
            shortcut: "",
            description: "Spawn parallel specialized subagent worker swarm",
            example: "/subagent researcher \"find all memory leaks\"",
        },
        CommandCatalogItem {
            name: "/stream",
            category: "Config & Runtime",
            shortcut: "",
            description: "Toggle token-by-token live assistant streaming mode",
            example: "/stream on | /stream off",
        },
        CommandCatalogItem {
            name: "/model",
            category: "Config & Runtime",
            shortcut: "",
            description: "Switch active LLM model interactively from live provider list",
            example: "/model",
        },
        CommandCatalogItem {
            name: "/theme",
            category: "Display & Aesthetics",
            shortcut: "",
            description: "Switch TUI color theme palette interactively",
            example: "/theme | /theme catppuccin",
        },
        CommandCatalogItem {
            name: "/diff",
            category: "Code & Inspection",
            shortcut: "",
            description: "View git changes (unstaged working tree or --cached staged)",
            example: "/diff | /diff --cached",
        },
        CommandCatalogItem {
            name: "/undo",
            category: "History & Sessions",
            shortcut: "",
            description: "Revert all file modifications from previous turn",
            example: "/undo",
        },
        CommandCatalogItem {
            name: "/sessions",
            category: "History & Sessions",
            shortcut: "",
            description: "Browse & reload past workspace session history",
            example: "/sessions",
        },
        CommandCatalogItem {
            name: "/logs",
            category: "History & Sessions",
            shortcut: "",
            description: "Stream live server-style agent logs (tail -f, -n 100, session IDs)",
            example: "/logs | minicode logs -f",
        },
        CommandCatalogItem {
            name: "/copy",
            category: "Display & Aesthetics",
            shortcut: "",
            description: "Copy latest AI response or entire chat to system clipboard",
            example: "/copy | /copy all",
        },
        CommandCatalogItem {
            name: "/clear",
            category: "Display & Aesthetics",
            shortcut: "",
            description: "Clear conversation timeline display",
            example: "/clear",
        },
        CommandCatalogItem {
            name: "/help",
            category: "Discovery & Help",
            shortcut: "F1",
            description: "Display help cheatsheet & keyboard shortcuts modal",
            example: "/help",
        },
        CommandCatalogItem {
            name: "/terminal",
            category: "Config & Runtime",
            shortcut: "Ctrl+T",
            description: "Toggle embedded persistent PTY shell terminal drawer",
            example: "/terminal",
        },
        CommandCatalogItem {
            name: "/exit",
            category: "Discovery & Help",
            shortcut: "",
            description: "Quit minicode interactive session cleanly",
            example: "/exit",
        },
    ]
}

/// `n` spaces.
pub open spec fn spaces(n: nat) -> Seq<char> {
    Seq::new(n, |i: int| ' ')
}

/// `s` left-aligned in `w` columns of characters (`{:<w}`).
pub open spec fn pad_right(s: Seq<char>, w: nat) -> Seq<char> {
    if s.len() < w {
        s + spaces((w - s.len()) as nat)
    } else {
        s
    }
}

/// `s` right-aligned in `w` columns of characters (`{:>w}`).
pub open spec fn pad_left(s: Seq<char>, w: nat) -> Seq<char> {
    if s.len() < w {
        spaces((w - s.len()) as nat) + s
    } else {
        s
    }
}

/// An empty line (`Line::from("")`).
pub open spec fn blank_line() -> Seq<(Seq<char>, SpanStyle)> {
    seq![(Seq::<char>::empty(), plain_style())]
}

/// First row shown in a list of `max_visible` rows keeping `selected` visible.
pub open spec fn scroll_offset_spec(selected: nat, max_visible: nat) -> nat {
    if max_visible == 0 || selected < max_visible {
        0
    } else {
        (selected - (max_visible - 1)) as nat
    }
}

/// The rows of the command list: `list_height - 2` rows (at least one) from the scroll
/// offset; a row is the cursor (`▶ ` on the selected row), the name padded to `name_cols`
/// columns (accent and bold when selected) and the shortcut in brackets, if any.
pub open spec fn catalog_row(c: CommandCatalogItem, selected: bool, name_cols: nat) -> Seq<
    (Seq<char>, SpanStyle),
> {
    seq![
        (if selected {
            "▶ "@
        } else {
            "  "@
        }, fg_bold(ThemeColor::BrandAccent)),
        (pad_right(c.name@, name_cols), if selected {
            fg_bold(ThemeColor::BrandAccent)
        } else {
            fg(ThemeColor::TextPrimary)
        }),
        (if c.shortcut@.len() == 0 {
            Seq::empty()
        } else {
            " ["@ + c.shortcut@ + "]"@
        }, fg(ThemeColor::Warning)),
    ]
}

/// Rows shown of a list of `len` entries: at most `max_visible` from `offset`.
pub open spec fn shown_rows(len: nat, offset: nat, max_visible: nat) -> nat {
    if offset >= len {
        0
    } else if len - offset < max_visible {
        (len - offset) as nat
    } else {
        max_visible
    }
}

/// Rows that fit a list area of `height` rows: two fewer, at least one.
pub open spec fn list_capacity(height: nat) -> nat {
    if height >= 3 {
        (height - 2) as nat
    } else {
        1
    }
}

/// Lines of the command list pane.
pub open spec fn catalog_list_spec(
    items: Seq<CommandCatalogItem>,
    filtered: Seq<usize>,
    selected: nat,
    height: nat,
    name_cols: nat,
) -> Seq<Seq<(Seq<char>, SpanStyle)>> {
    let maxv = list_capacity(height);
    let off = scroll_offset_spec(selected, maxv);
    let rows = Seq::new(
        shown_rows(filtered.len(), off, maxv),
        |j: int| catalog_row(items[filtered[off + j] as int], off + j == selected, name_cols),
    );
    if filtered.len() == 0 {
        seq![seq![("  No matching commands found"@, fg(ThemeColor::Muted))]]
    } else {
        rows
    }
}

/// Lines of the details pane for the selected entry (none when nothing is selected).
pub open spec fn catalog_detail_spec(
    items: Seq<CommandCatalogItem>,
    filtered: Seq<usize>,
    selected: nat,
) -> Seq<Seq<(Seq<char>, SpanStyle)>> {
    if selected < filtered.len() {
        let c = items[filtered[selected as int] as int];
        seq![
            seq![
                (c.name@, fg_bold(ThemeColor::BrandAccent)),
                ("  •  "@ + c.category@, fg(ThemeColor::Muted)),
            ],
            blank_line(),
        ] + (if c.shortcut@.len() > 0 {
            seq![
                seq![
                    ("⚡ Shortcut: "@, fg_bold(ThemeColor::Warning)),
                    (c.shortcut@, fg(ThemeColor::TextPrimary)),
                ],
                blank_line(),
            ]
        } else {
            seq![]
        }) + seq![
            seq![("📖 Description:"@, fg_bold(ThemeColor::Success))],
            seq![("  "@ + c.description@, fg(ThemeColor::TextPrimary))],
            blank_line(),
            seq![("💡 Usage Example:"@, fg_bold(ThemeColor::BrandAccent))],
            seq![
                ("  "@ + c.example@, SpanStyle {
                    fg: Some(ThemeColor::Muted),
                    bg: None,
                    bold: false,
                    underlined: false,
                    italic: true, dim: false,
                }),
            ],
            blank_line(),
            seq![("🤖 Autonomous Intent Routing:"@, fg_bold(ThemeColor::BrandAccent))],
            seq![
                ("  You can type natural language in the prompt dock. minicode's"@, fg(
                    ThemeColor::Muted,
                )),
            ],
            seq![
                ("  intent router will recognize and trigger this workflow automatically."@, fg(
                    ThemeColor::Muted,
                )),
            ],
        ]
    } else {
        seq![]
    }
}

/// The count badge of the search bar, ` [k/n] `: the selected position (0 for an empty
/// list) and the number of matches.
pub open spec fn count_badge(filtered_len: nat, selected: nat) -> Seq<char> {
    " ["@ + crate::text::decimal(if filtered_len == 0 {
        0
    } else {
        selected + 1
    }) + "/"@ + crate::text::decimal(filtered_len) + "] "@
}

/// The search bar line: prompt, filter text, block cursor, and the count badge right-aligned
/// in the bar's `width` columns less the filter's display width and 8.
pub open spec fn catalog_search_spec(filter: Seq<char>, filtered_len: nat, selected: nat, width: nat) -> Seq<
    (Seq<char>, SpanStyle),
> {
    let room = if width >= text_width(filter) + 8 {
        (width - (text_width(filter) + 8)) as nat
    } else {
        0
    };
    seq![
        ("❯ "@, fg_bold(ThemeColor::BrandAccent)),
        (filter, fg_bold(ThemeColor::TextPrimary)),
        ("█"@, fg(ThemeColor::BrandAccent)),
        (pad_left(count_badge(filtered_len, selected), room), fg(ThemeColor::Muted)),
    ]
}

pub(crate) fn blank_line_exec() -> (l: StyledLine)
    ensures
        line_view(l) == blank_line(),
{
    let empty: Vec<char> = Vec::new();
    let st = SpanStyle { fg: None, bg: None, bold: false, underlined: false, italic: false, dim: false };
    let l = line_of(crate::ui::styled::span_from(&empty, st));
    assert(empty@ =~= Seq::<char>::empty());
    l
}

pub(crate) fn spaces_exec(n: usize) -> (r: String)
    ensures
        r@ == spaces(n as nat),
{
    let mut r = String::new();
    let mut i: usize = 0;
    while i < n
        invariant
            i <= n,
            r@ == spaces(i as nat),
        decreases n - i,
    {
        crate::text::push_char(&mut r, ' ');
        i += 1;
        assert(r@ =~= spaces(i as nat));
    }
    r
}

pub(crate) fn pad_right_exec(s: &str, w: usize) -> (r: String)
    ensures
        r@ == pad_right(s@, w as nat),
{
    let n = crate::text::chars_of(s).len();
    if n < w {
        crate::tools::concat2(s, spaces_exec(w - n).as_str())
    } else {
        s.to_owned()
    }
}

pub(crate) fn pad_left_exec(s: &str, w: usize) -> (r: String)
    ensures
        r@ == pad_left(s@, w as nat),
{
    let n = crate::text::chars_of(s).len();
    if n < w {
        crate::tools::concat2(spaces_exec(w - n).as_str(), s)
    } else {
        s.to_owned()
    }
}

fn catalog_row_exec(c: &CommandCatalogItem, selected: bool, name_cols: usize) -> (l: StyledLine)
    ensures
        line_view(l) == catalog_row(*c, selected, name_cols as nat),
{
    let mut spans: Vec<StyledSpan> = Vec::new();
    spans.push(span_str(if selected {
        "▶ "
    } else {
        "  "
    }, style_fg_bold(ThemeColor::BrandAccent)));
    let name = pad_right_exec(c.name, name_cols);
    spans.push(span_str(name.as_str(), if selected {
        style_fg_bold(ThemeColor::BrandAccent)
    } else {
        style_fg(ThemeColor::TextPrimary)
    }));
    let shortcut = if crate::text::chars_of(c.shortcut).len() == 0 {
        String::new()
    } else {
        concat3(" [", c.shortcut, "]")
    };
    spans.push(span_str(shortcut.as_str(), style_fg(ThemeColor::Warning)));
    let l = line_from(spans);
    assert(line_view(l) =~= catalog_row(*c, selected, name_cols as nat));
    l
}

/// Lines of the command list pane for a list area `height` rows high; `name_cols` is the
/// width the names are padded to.
pub fn catalog_list_lines(
    items: &[CommandCatalogItem],
    filtered: &Vec<usize>,
    selected: usize,
    height: usize,
    name_cols: usize,
) -> (r: Vec<StyledLine>)
    requires
        forall|k: int| 0 <= k < filtered@.len() ==> filtered@[k] < items@.len(),
    ensures
        lines_view(r@) == catalog_list_spec(items@, filtered@, selected as nat, height as nat, name_cols as nat),
{
    let mut out: Vec<StyledLine> = Vec::new();
    if filtered.len() == 0 {
        out.push(line_of(span_str("  No matching commands found", style_fg(ThemeColor::Muted))));
        assert(lines_view(out@) =~= catalog_list_spec(items@, filtered@, selected as nat, height as nat, name_cols as nat));
        return out;
    }
    let maxv: usize = if height >= 3 {
        height - 2
    } else {
        1
    };
    let off = compute_scroll_offset(selected, maxv);
    let count: usize = if off >= filtered.len() {
        0
    } else if filtered.len() - off < maxv {
        filtered.len() - off
    } else {
        maxv
    };
    let ghost spec_rows = catalog_list_spec(items@, filtered@, selected as nat, height as nat, name_cols as nat);
    assert(spec_rows.len() == count);
    let mut j: usize = 0;
    while j < count
        invariant
            j <= count,
            count == spec_rows.len(),
            count > 0 ==> off + count <= filtered@.len(),
            spec_rows == catalog_list_spec(items@, filtered@, selected as nat, height as nat, name_cols as nat),
            forall|k: int| 0 <= k < filtered@.len() ==> filtered@[k] < items@.len(),
            filtered@.len() > 0,
            off == scroll_offset_spec(selected as nat, list_capacity(height as nat)),
            lines_view(out@) == spec_rows.take(j as int),
        decreases count - j,
    {
        let item = &items[filtered[off + j]];
        let row = catalog_row_exec(item, off + j == selected, name_cols);
        let ghost before = out@;
        out.push(row);
        assert(lines_view(out@) =~= lines_view(before).push(line_view(row)));
        assert(spec_rows.take(j + 1) =~= spec_rows.take(j as int).push(spec_rows[j as int]));
        j += 1;
    }
    assert(spec_rows.take(count as int) =~= spec_rows);
    out
}

/// Lines of the details pane for the selected entry.
pub fn catalog_detail_lines(items: &[CommandCatalogItem], filtered: &Vec<usize>, selected: usize) -> (r: Vec<StyledLine>)
    requires
        forall|k: int| 0 <= k < filtered@.len() ==> filtered@[k] < items@.len(),
    ensures
        lines_view(r@) == catalog_detail_spec(items@, filtered@, selected as nat),
{
    let mut out: Vec<StyledLine> = Vec::new();
    if selected >= filtered.len() {
        assert(lines_view(out@) =~= catalog_detail_spec(items@, filtered@, selected as nat));
        return out;
    }
    let c = &items[filtered[selected]];
    let mut head: Vec<StyledSpan> = Vec::new();
    head.push(span_str(c.name, style_fg_bold(ThemeColor::BrandAccent)));
    head.push(span_str(crate::tools::concat2("  •  ", c.category).as_str(), style_fg(ThemeColor::Muted)));
    let head_line = line_from(head);
    assert(line_view(head_line) =~= seq![
        (c.name@, fg_bold(ThemeColor::BrandAccent)),
        ("  •  "@ + c.category@, fg(ThemeColor::Muted)),
    ]);
    out.push(head_line);
    out.push(blank_line_exec());
    if crate::text::chars_of(c.shortcut).len() > 0 {
        let mut sc: Vec<StyledSpan> = Vec::new();
        sc.push(span_str("⚡ Shortcut: ", style_fg_bold(ThemeColor::Warning)));
        sc.push(span_str(c.shortcut, style_fg(ThemeColor::TextPrimary)));
        let sl = line_from(sc);
        assert(line_view(sl) =~= seq![
            ("⚡ Shortcut: "@, fg_bold(ThemeColor::Warning)),
            (c.shortcut@, fg(ThemeColor::TextPrimary)),
        ]);
        out.push(sl);
        out.push(blank_line_exec());
    }
    out.push(line_of(span_str("📖 Description:", style_fg_bold(ThemeColor::Success))));
    out.push(line_of(span_str(crate::tools::concat2("  ", c.description).as_str(), style_fg(ThemeColor::TextPrimary))));
    out.push(blank_line_exec());
    out.push(line_of(span_str("💡 Usage Example:", style_fg_bold(ThemeColor::BrandAccent))));
    out.push(line_of(span_str(crate::tools::concat2("  ", c.example).as_str(), SpanStyle {
        fg: Some(ThemeColor::Muted),
        bg: None,
        bold: false,
        underlined: false,
        italic: true, dim: false,
    })));
    out.push(blank_line_exec());
    out.push(line_of(span_str("🤖 Autonomous Intent Routing:", style_fg_bold(ThemeColor::BrandAccent))));
    out.push(line_of(span_str("  You can type natural language in the prompt dock. minicode's", style_fg(ThemeColor::Muted))));
    out.push(line_of(span_str("  intent router will recognize and trigger this workflow automatically.", style_fg(ThemeColor::Muted))));
    assert(lines_view(out@) =~= catalog_detail_spec(items@, filtered@, selected as nat));
    out
}

/// The search bar line for a bar `width` columns wide.
pub fn catalog_search_line(filter: &str, filtered_len: usize, selected: usize, width: usize) -> (r: StyledLine)
    requires
        selected < usize::MAX,
    ensures
        line_view(r) == catalog_search_spec(filter@, filtered_len as nat, selected as nat, width as nat),
{
    let fw = text_width_of(filter);
    let room: usize = if fw <= usize::MAX - 8 && width >= fw + 8 {
        width - (fw + 8)
    } else {
        0
    };
    let shown: usize = if filtered_len == 0 {
        0
    } else {
        selected + 1
    };
    let mut badge = crate::text::chars_of(" [");
    crate::text::extend_chars(&mut badge, &crate::text::u64_to_decimal(shown as u64));
    crate::text::extend_chars(&mut badge, &crate::text::chars_of("/"));
    crate::text::extend_chars(&mut badge, &crate::text::u64_to_decimal(filtered_len as u64));
    crate::text::extend_chars(&mut badge, &crate::text::chars_of("] "));
    let badge_s = crate::text::string_from_chars(&badge);
    assert(badge_s@ =~= count_badge(filtered_len as nat, selected as nat));
    let mut spans: Vec<StyledSpan> = Vec::new();
    spans.push(span_str("❯ ", style_fg_bold(ThemeColor::BrandAccent)));
    spans.push(span_str(filter, style_fg_bold(ThemeColor::TextPrimary)));
    spans.push(span_str("█", style_fg(ThemeColor::BrandAccent)));
    spans.push(span_str(pad_left_exec(badge_s.as_str(), room).as_str(), style_fg(ThemeColor::Muted)));
    let l = line_from(spans);
    assert(line_view(l) =~= catalog_search_spec(filter@, filtered_len as nat, selected as nat, width as nat));
    l
}

} // verus!
