//! The prompt input dock: slash command palette, pasted block placeholders, line wrapping
//! and key handling around a `tui_textarea` text area.

use vstd::prelude::*;
use tui_textarea::{Input, Key};
use crate::text::{
    chars_contains, chars_of, count_lines, decimal, extend_chars, find_first, find_first_chars,
    line_count, lowercase, occurs_at, seq_contains, slice_chars, split_chars, split_on,
    str_to_lowercase, str_trim, string_from_chars, trim, trim_chars, trim_end, trim_end_chars,
    u64_to_decimal, vec_views,
};

verus! {

/// Categories for organizing palette commands.
#[derive(Debug, Clone, Copy, PartialEq, Eq, Structural)]
pub enum CommandCategory {
    All,
    System,
    Intelligence,
    Tools,
}

/// The categories in the order the palette cycles through them.
pub open spec fn category_order() -> Seq<CommandCategory> {
    seq![
        CommandCategory::All,
        CommandCategory::System,
        CommandCategory::Intelligence,
        CommandCategory::Tools,
    ]
}

pub open spec fn category_label(c: CommandCategory) -> Seq<char> {
    match c {
        CommandCategory::All => "All"@,
        CommandCategory::System => "System"@,
        CommandCategory::Intelligence => "Intelligence"@,
        CommandCategory::Tools => "Tools"@,
    }
}

impl CommandCategory {
    pub fn all() -> (r: &'static [CommandCategory])
        ensures
            r@ == category_order(),
    {
        let r: &'static [CommandCategory] = &[
            CommandCategory::All,
            CommandCategory::System,
            CommandCategory::Intelligence,
            CommandCategory::Tools,
        ];
        assert(r@ =~= category_order());
        r
    }

    pub fn label(&self) -> (r: &'static str)
        ensures
            r@ == category_label(*self),
    {
        match self {
            CommandCategory::All => "All",
            CommandCategory::System => "System",
            CommandCategory::Intelligence => "Intelligence",
            CommandCategory::Tools => "Tools",
        }
    }
}

/// A command item displayed in the floating spotlight palette.
#[derive(Debug, Clone, Copy)]
pub struct PaletteCommand {
    pub slash_name: &'static str,
    pub title: &'static str,
    pub description: &'static str,
    pub category: CommandCategory,
    pub shortcut: Option<&'static str>,
}

/// The palette commands, in display order.
pub open spec fn palette_view() -> Seq<PaletteCommand> {
    seq![
    PaletteCommand {
        slash_name: "/commands",
        title: "Command Catalog",
        description: "Interactive catalog of all slash commands & shortcuts",
        category: CommandCategory::System,
        shortcut: None,
    },
    PaletteCommand {
        slash_name: "/new",
        title: "New Session",
        description: "Start fresh session & reset conversation",
        category: CommandCategory::System,
        shortcut: Some("ctrl+n"),
    },
    PaletteCommand {
        slash_name: "/model",
        title: "Switch Model",
        description: "Choose AI model or provider",
        category: CommandCategory::System,
        shortcut: Some("ctrl+l"),
    },
    PaletteCommand {
        slash_name: "/thinking",
        title: "Extended Thinking",
        description: "Configure reasoning budget for Sonnet 3.7 / o1 / o3 / DeepSeek R1",
        category: CommandCategory::System,
        shortcut: None,
    },
    PaletteCommand {
        slash_name: "/configure",
        title: "Configure Providers",
        description: "Interactive API key & endpoint manager",
        category: CommandCategory::System,
        shortcut: Some("F2"),
    },
    PaletteCommand {
        slash_name: "/keys",
        title: "Manage API Keys",
        description: "Configure or update provider API keys",
        category: CommandCategory::System,
        shortcut: None,
    },
    PaletteCommand {
        slash_name: "/provider",
        title: "Switch Provider",
        description: "Select active LLM provider (OpenRouter, Groq, Ollama, etc.)",
        category: CommandCategory::System,
        shortcut: None,
    },
    PaletteCommand {
        slash_name: "/theme",
        title: "Theme Selector",
        description: "Switch TUI color theme palette",
        category: CommandCategory::System,
        shortcut: None,
    },
    PaletteCommand {
        slash_name: "/sessions",
        title: "Session History",
        description: "Browse & reload past workspace sessions",
        category: CommandCategory::System,
        shortcut: Some("ctrl+h"),
    },
    PaletteCommand {
        slash_name: "/tokens",
        title: "Token Breakdown",
        description: "Display detailed token usage & context stats",
        category: CommandCategory::System,
        shortcut: None,
    },
    PaletteCommand {
        slash_name: "/streaming",
        title: "Streaming Mode",
        description: "Enable or disable LLM response streaming",
        category: CommandCategory::System,
        shortcut: None,
    },
    PaletteCommand {
        slash_name: "/parallel",
        title: "Parallel Tools",
        description: "Configure parallel & speculative read-only tool execution",
        category: CommandCategory::System,
        shortcut: None,
    },
    PaletteCommand {
        slash_name: "/tx",
        title: "Workspace Transaction",
        description: "Inspect, commit, or rollback active multi-file transaction",
        category: CommandCategory::System,
        shortcut: None,
    },
    PaletteCommand {
        slash_name: "/dag",
        title: "Execution DAG",
        description: "View DAG pipeline execution syntax and active workflow templates",
        category: CommandCategory::System,
        shortcut: None,
    },
    PaletteCommand {
        slash_name: "/heal",
        title: "Self-Healing Diagnostics",
        description: "Triage compiler diagnostics and run autonomous error repair pass",
        category: CommandCategory::System,
        shortcut: None,
    },
    PaletteCommand {
        slash_name: "/sandbox",
        title: "Execute Sandboxed Command",
        description: "Run command in isolated sandbox (network/fs/overlay protection)",
        category: CommandCategory::System,
        shortcut: None,
    },
    PaletteCommand {
        slash_name: "/retrieve",
        title: "Multi-Modal Knowledge Retrieval",
        description: "Search across CodeGraph, semantic vectors, wiki, and memory",
        category: CommandCategory::System,
        shortcut: None,
    },
    PaletteCommand {
        slash_name: "/route",
        title: "Adaptive Model Router",
        description: "Adaptive tier routing (Fast/Standard/Deep) and provider health",
        category: CommandCategory::System,
        shortcut: None,
    },
    PaletteCommand {
        slash_name: "/quarantine",
        title: "Flaky Test Quarantine",
        description: "Quarantine intermittent tests and analyze statistical failure variance",
        category: CommandCategory::Tools,
        shortcut: None,
    },
    PaletteCommand {
        slash_name: "/commit",
        title: "Synthesize Semantic Commits",
        description: "Synthesize atomic Conventional Commits and release changelog from git diff",
        category: CommandCategory::Tools,
        shortcut: None,
    },
    PaletteCommand {
        slash_name: "/clear",
        title: "Clear Timeline",
        description: "Clear active conversation timeline messages",
        category: CommandCategory::System,
        shortcut: None,
    },
    PaletteCommand {
        slash_name: "/help",
        title: "Help & Shortcuts",
        description: "Interactive keyboard shortcuts cheatsheet",
        category: CommandCategory::System,
        shortcut: Some("F1"),
    },
    PaletteCommand {
        slash_name: "/exit",
        title: "Exit minicode",
        description: "Quit minicode interactive session cleanly",
        category: CommandCategory::System,
        shortcut: Some("ctrl+c"),
    },
    PaletteCommand {
        slash_name: "/index",
        title: "Repository Index",
        description: "Scan AST symbols & build PageRank code graph",
        category: CommandCategory::Intelligence,
        shortcut: Some("F5"),
    },
    PaletteCommand {
        slash_name: "/review",
        title: "Code Review",
        description: "Run git diff impact analysis & security audit",
        category: CommandCategory::Intelligence,
        shortcut: Some("ctrl+r"),
    },
    PaletteCommand {
        slash_name: "/explore",
        title: "Code Explorer",
        description: "Surgically explore AST symbols, call graph & blast radius",
        category: CommandCategory::Intelligence,
        shortcut: Some("ctrl+e"),
    },
    PaletteCommand {
        slash_name: "/map",
        title: "Codebase Map",
        description: "Render AST PageRank repository hierarchy & dependency graph",
        category: CommandCategory::Intelligence,
        shortcut: None,
    },
    PaletteCommand {
        slash_name: "/arch",
        title: "Architecture Governor",
        description: "Lint layered boundaries, instability metrics & circular cycles",
        category: CommandCategory::Intelligence,
        shortcut: None,
    },
    PaletteCommand {
        slash_name: "/compact",
        title: "Compact Context",
        description: "Manually compact conversation context tokens",
        category: CommandCategory::Intelligence,
        shortcut: None,
    },
    PaletteCommand {
        slash_name: "/plan",
        title: "Plan Feature",
        description: "Break complex task into verifiable milestones",
        category: CommandCategory::Intelligence,
        shortcut: None,
    },
    PaletteCommand {
        slash_name: "/goal",
        title: "Autonomous Goal",
        description: "Run self-directed loop until complete",
        category: CommandCategory::Intelligence,
        shortcut: None,
    },
    PaletteCommand {
        slash_name: "/diff",
        title: "Git Diff Viewer",
        description: "Interactive split/unified git diff viewer & staging",
        category: CommandCategory::Tools,
        shortcut: Some("ctrl+d"),
    },
    PaletteCommand {
        slash_name: "/terminal",
        title: "Toggle Terminal",
        description: "Toggle embedded interactive terminal drawer",
        category: CommandCategory::Tools,
        shortcut: Some("ctrl+t"),
    },
    PaletteCommand {
        slash_name: "/swarm",
        title: "Subagent Swarm Drawer",
        description: "Toggle interactive subagent swarm activity telemetry drawer",
        category: CommandCategory::Intelligence,
        shortcut: Some("ctrl+s"),
    },
    PaletteCommand {
        slash_name: "/stack",
        title: "Scaffold Stack",
        description: "Interactive onpkg multi-runtime stack wizard",
        category: CommandCategory::Tools,
        shortcut: None,
    },
    PaletteCommand {
        slash_name: "/undo",
        title: "Undo Changes",
        description: "Revert file modifications from previous turn",
        category: CommandCategory::Tools,
        shortcut: Some("ctrl+u"),
    },
    PaletteCommand {
        slash_name: "/retry",
        title: "Retry Prompt",
        description: "Re-submit previous prompt to agent",
        category: CommandCategory::Tools,
        shortcut: None,
    },
    PaletteCommand {
        slash_name: "/export",
        title: "Export Session",
        description: "Export conversation trajectory to markdown",
        category: CommandCategory::Tools,
        shortcut: None,
    },
    PaletteCommand {
        slash_name: "/save",
        title: "Save Session Transcript",
        description: "Export full conversation history transcript to a target file",
        category: CommandCategory::Tools,
        shortcut: None,
    },
    PaletteCommand {
        slash_name: "/load",
        title: "Load Session",
        description: "Load and replay past session events into active timeline",
        category: CommandCategory::Tools,
        shortcut: None,
    },
    PaletteCommand {
        slash_name: "/copy",
        title: "Copy Transcript",
        description: "Copy latest response or whole transcript to clipboard",
        category: CommandCategory::Tools,
        shortcut: None,
    },

    ]
}

/// The palette commands, in display order.
pub fn palette_commands() -> (r: &'static [PaletteCommand])
    ensures
        r@ == palette_view(),
{
    &[
        PaletteCommand {
            slash_name: "/commands",
            title: "Command Catalog",
            description: "Interactive catalog of all slash commands & shortcuts",
            category: CommandCategory::System,
            shortcut: None,
        },
        PaletteCommand {
            slash_name: "/new",
            title: "New Session",
            description: "Start fresh session & reset conversation",
            category: CommandCategory::System,
            shortcut: Some("ctrl+n"),
        },
        PaletteCommand {
            slash_name: "/model",
            title: "Switch Model",
            description: "Choose AI model or provider",
            category: CommandCategory::System,
            shortcut: Some("ctrl+l"),
        },
        PaletteCommand {
            slash_name: "/thinking",
            title: "Extended Thinking",
            description: "Configure reasoning budget for Sonnet 3.7 / o1 / o3 / DeepSeek R1",
            category: CommandCategory::System,
            shortcut: None,
        },
        PaletteCommand {
            slash_name: "/configure",
            title: "Configure Providers",
            description: "Interactive API key & endpoint manager",
            category: CommandCategory::System,
            shortcut: Some("F2"),
        },
        PaletteCommand {
            slash_name: "/keys",
            title: "Manage API Keys",
            description: "Configure or update provider API keys",
            category: CommandCategory::System,
            shortcut: None,
        },
        PaletteCommand {
            slash_name: "/provider",
            title: "Switch Provider",
            description: "Select active LLM provider (OpenRouter, Groq, Ollama, etc.)",
            category: CommandCategory::System,
            shortcut: None,
        },
        PaletteCommand {
            slash_name: "/theme",
            title: "Theme Selector",
            description: "Switch TUI color theme palette",
            category: CommandCategory::System,
            shortcut: None,
        },
        PaletteCommand {
            slash_name: "/sessions",
            title: "Session History",
            description: "Browse & reload past workspace sessions",
            category: CommandCategory::System,
            shortcut: Some("ctrl+h"),
        },
        PaletteCommand {
            slash_name: "/tokens",
            title: "Token Breakdown",
            description: "Display detailed token usage & context stats",
            category: CommandCategory::System,
            shortcut: None,
        },
        PaletteCommand {
            slash_name: "/streaming",
            title: "Streaming Mode",
            description: "Enable or disable LLM response streaming",
            category: CommandCategory::System,
            shortcut: None,
        },
        PaletteCommand {
            slash_name: "/parallel",
            title: "Parallel Tools",
            description: "Configure parallel & speculative read-only tool execution",
            category: CommandCategory::System,
            shortcut: None,
        },
        PaletteCommand {
            slash_name: "/tx",
            title: "Workspace Transaction",
            description: "Inspect, commit, or rollback active multi-file transaction",
            category: CommandCategory::System,
            shortcut: None,
        },
        PaletteCommand {
            slash_name: "/dag",
            title: "Execution DAG",
            description: "View DAG pipeline execution syntax and active workflow templates",
            category: CommandCategory::System,
            shortcut: None,
        },
        PaletteCommand {
            slash_name: "/heal",
            title: "Self-Healing Diagnostics",
            description: "Triage compiler diagnostics and run autonomous error repair pass",
            category: CommandCategory::System,
            shortcut: None,
        },
        PaletteCommand {
            slash_name: "/sandbox",
            title: "Execute Sandboxed Command",
            description: "Run command in isolated sandbox (network/fs/overlay protection)",
            category: CommandCategory::System,
            shortcut: None,
        },
        PaletteCommand {
            slash_name: "/retrieve",
            title: "Multi-Modal Knowledge Retrieval",
            description: "Search across CodeGraph, semantic vectors, wiki, and memory",
            category: CommandCategory::System,
            shortcut: None,
        },
        PaletteCommand {
            slash_name: "/route",
            title: "Adaptive Model Router",
            description: "Adaptive tier routing (Fast/Standard/Deep) and provider health",
            category: CommandCategory::System,
            shortcut: None,
        },
        PaletteCommand {
            slash_name: "/quarantine",
            title: "Flaky Test Quarantine",
            description: "Quarantine intermittent tests and analyze statistical failure variance",
            category: CommandCategory::Tools,
            shortcut: None,
        },
        PaletteCommand {
            slash_name: "/commit",
            title: "Synthesize Semantic Commits",
            description: "Synthesize atomic Conventional Commits and release changelog from git diff",
            category: CommandCategory::Tools,
            shortcut: None,
        },
        PaletteCommand {
            slash_name: "/clear",
            title: "Clear Timeline",
            description: "Clear active conversation timeline messages",
            category: CommandCategory::System,
            shortcut: None,
        },
        PaletteCommand {
            slash_name: "/help",
            title: "Help & Shortcuts",
            description: "Interactive keyboard shortcuts cheatsheet",
            category: CommandCategory::System,
            shortcut: Some("F1"),
        },
        PaletteCommand {
            slash_name: "/exit",
            title: "Exit minicode",
            description: "Quit minicode interactive session cleanly",
            category: CommandCategory::System,
            shortcut: Some("ctrl+c"),
        },
        PaletteCommand {
            slash_name: "/index",
            title: "Repository Index",
            description: "Scan AST symbols & build PageRank code graph",
            category: CommandCategory::Intelligence,
            shortcut: Some("F5"),
        },
        PaletteCommand {
            slash_name: "/review",
            title: "Code Review",
            description: "Run git diff impact analysis & security audit",
            category: CommandCategory::Intelligence,
            shortcut: Some("ctrl+r"),
        },
        PaletteCommand {
            slash_name: "/explore",
            title: "Code Explorer",
            description: "Surgically explore AST symbols, call graph & blast radius",
            category: CommandCategory::Intelligence,
            shortcut: Some("ctrl+e"),
        },
        PaletteCommand {
            slash_name: "/map",
            title: "Codebase Map",
            description: "Render AST PageRank repository hierarchy & dependency graph",
            category: CommandCategory::Intelligence,
            shortcut: None,
        },
        PaletteCommand {
            slash_name: "/arch",
            title: "Architecture Governor",
            description: "Lint layered boundaries, instability metrics & circular cycles",
            category: CommandCategory::Intelligence,
            shortcut: None,
        },
        PaletteCommand {
            slash_name: "/compact",
            title: "Compact Context",
            description: "Manually compact conversation context tokens",
            category: CommandCategory::Intelligence,
            shortcut: None,
        },
        PaletteCommand {
            slash_name: "/plan",
            title: "Plan Feature",
            description: "Break complex task into verifiable milestones",
            category: CommandCategory::Intelligence,
            shortcut: None,
        },
        PaletteCommand {
            slash_name: "/goal",
            title: "Autonomous Goal",
            description: "Run self-directed loop until complete",
            category: CommandCategory::Intelligence,
            shortcut: None,
        },
        PaletteCommand {
            slash_name: "/diff",
            title: "Git Diff Viewer",
            description: "Interactive split/unified git diff viewer & staging",
            category: CommandCategory::Tools,
            shortcut: Some("ctrl+d"),
        },
        PaletteCommand {
            slash_name: "/terminal",
            title: "Toggle Terminal",
            description: "Toggle embedded interactive terminal drawer",
            category: CommandCategory::Tools,
            shortcut: Some("ctrl+t"),
        },
        PaletteCommand {
            slash_name: "/swarm",
            title: "Subagent Swarm Drawer",
            description: "Toggle interactive subagent swarm activity telemetry drawer",
            category: CommandCategory::Intelligence,
            shortcut: Some("ctrl+s"),
        },
        PaletteCommand {
            slash_name: "/stack",
            title: "Scaffold Stack",
            description: "Interactive onpkg multi-runtime stack wizard",
            category: CommandCategory::Tools,
            shortcut: None,
        },
        PaletteCommand {
            slash_name: "/undo",
            title: "Undo Changes",
            description: "Revert file modifications from previous turn",
            category: CommandCategory::Tools,
            shortcut: Some("ctrl+u"),
        },
        PaletteCommand {
            slash_name: "/retry",
            title: "Retry Prompt",
            description: "Re-submit previous prompt to agent",
            category: CommandCategory::Tools,
            shortcut: None,
        },
        PaletteCommand {
            slash_name: "/export",
            title: "Export Session",
            description: "Export conversation trajectory to markdown",
            category: CommandCategory::Tools,
            shortcut: None,
        },
        PaletteCommand {
            slash_name: "/save",
            title: "Save Session Transcript",
            description: "Export full conversation history transcript to a target file",
            category: CommandCategory::Tools,
            shortcut: None,
        },
        PaletteCommand {
            slash_name: "/load",
            title: "Load Session",
            description: "Load and replay past session events into active timeline",
            category: CommandCategory::Tools,
            shortcut: None,
        },
        PaletteCommand {
            slash_name: "/copy",
            title: "Copy Transcript",
            description: "Copy latest response or whole transcript to clipboard",
            category: CommandCategory::Tools,
            shortcut: None,
        },

    ]
}

/// A collapsed block representing a multiline paste (> 5 lines).
#[derive(Debug, Clone, PartialEq, Eq)]
pub struct PastedBlock {
    pub id: usize,
    pub placeholder: String,
    pub full_text: String,
    pub line_count: usize,
}

/// Prompt submission containing both the visual display version (with placeholders)
/// and the full version (with placeholders expanded back to the pasted text).
#[derive(Debug, Clone, PartialEq, Eq)]
pub struct PromptSubmission {
    pub display: String,
    pub full: String,
}

/// `s` without its leading `c` characters (`str::trim_start_matches`).
pub open spec fn strip_leading(s: Seq<char>, c: char) -> Seq<char>
    decreases s.len(),
{
    if s.len() > 0 && s[0] == c {
        strip_leading(s.drop_first(), c)
    } else {
        s
    }
}

fn strip_leading_exec(s: &str, c: char) -> (r: Vec<char>)
    ensures
        r@ == strip_leading(s@, c),
{
    let v = chars_of(s);
    let mut i: usize = 0;
    assert(v@.skip(0) =~= v@);
    while i < v.len() && v[i] == c
        invariant
            i <= v@.len(),
            strip_leading(v@, c) == strip_leading(v@.skip(i as int), c),
        decreases v@.len() - i,
    {
        assert(v@.skip(i as int).drop_first() =~= v@.skip(i + 1));
        i += 1;
    }
    let r = slice_chars(&v, i, v.len());
    assert(r@ =~= v@.skip(i as int));
    r
}

/// The palette query typed on the first line: the trimmed line without its leading `/`,
/// lower-cased; none when the line does not start with `/`.
pub open spec fn palette_query(first_line: Seq<char>) -> Option<Seq<char>> {
    let t = trim(first_line);
    if t.len() > 0 && t[0] == '/' {
        Some(lowercase(t.drop_first()))
    } else {
        None
    }
}

/// The command belongs to the category (every command belongs to `All`) and its title,
/// name (without slashes), description or shortcut contains the query, lower-cased.
pub open spec fn command_matches(c: PaletteCommand, cat: CommandCategory, q: Seq<char>) -> bool {
    &&& (cat == CommandCategory::All || c.category == cat)
    &&& (q.len() == 0 || seq_contains(lowercase(c.title@), q) || seq_contains(
        lowercase(strip_leading(c.slash_name@, '/')),
        q,
    ) || seq_contains(lowercase(c.description@), q) || match c.shortcut {
        Some(s) => seq_contains(lowercase(s@), q),
        None => false,
    })
}

/// The commands offered for the first input line and the category selector position.
pub open spec fn matching_commands(first_line: Seq<char>, category_index: nat) -> Seq<
    PaletteCommand,
> {
    match palette_query(first_line) {
        None => Seq::empty(),
        Some(q) => commands_matching(
            palette_view(),
            category_order()[(category_index % 4) as int],
            q,
        ),
    }
}

/// The commands of `cs` that match the category and query, in order.
pub open spec fn commands_matching(cs: Seq<PaletteCommand>, cat: CommandCategory, q: Seq<char>) -> Seq<
    PaletteCommand,
>
    decreases cs.len(),
{
    if cs.len() == 0 {
        Seq::empty()
    } else {
        let init = commands_matching(cs.drop_last(), cat, q);
        if command_matches(cs.last(), cat, q) {
            init.push(cs.last())
        } else {
            init
        }
    }
}

/// A command of `cs` that matches is kept by the filter.
pub proof fn lemma_commands_matching_keeps(cs: Seq<PaletteCommand>, cat: CommandCategory, q: Seq<char>, j: int)
    requires
        0 <= j < cs.len(),
        command_matches(cs[j], cat, q),
    ensures
        commands_matching(cs, cat, q).contains(cs[j]),
    decreases cs.len(),
{
    let init = commands_matching(cs.drop_last(), cat, q);
    if j == cs.len() - 1 {
        assert(commands_matching(cs, cat, q) == init.push(cs.last()));
        assert(init.push(cs.last())[init.len() as int] == cs[j]);
    } else {
        lemma_commands_matching_keeps(cs.drop_last(), cat, q, j);
        assert(cs.drop_last()[j] == cs[j]);
        let k = choose|k: int| 0 <= k < init.len() && init[k] == cs[j];
        if command_matches(cs.last(), cat, q) {
            assert(init.push(cs.last())[k] == cs[j]);
        }
    }
}

/// The palette searches with the query lower-cased: for a first line that trims to `/`
/// followed by `q`, the commands offered are those matching `lowercase(q)`, whatever the
/// case `q` was typed in.
pub proof fn law_palette_query_lowercased(first_line: Seq<char>, q: Seq<char>, category_index: nat)
    requires
        trim(first_line) == seq!['/'] + q,
    ensures
        matching_commands(first_line, category_index) == commands_matching(
            palette_view(),
            category_order()[(category_index % 4) as int],
            lowercase(q),
        ),
{
    assert((seq!['/'] + q).drop_first() =~= q);
}

/// Two first lines whose queries differ only in case offer the same commands.
pub proof fn law_palette_case_insensitive(l1: Seq<char>, q1: Seq<char>, l2: Seq<char>, q2: Seq<char>, category_index: nat)
    requires
        trim(l1) == seq!['/'] + q1,
        trim(l2) == seq!['/'] + q2,
        lowercase(q1) == lowercase(q2),
    ensures
        matching_commands(l1, category_index) == matching_commands(l2, category_index),
{
    law_palette_query_lowercased(l1, q1, category_index);
    law_palette_query_lowercased(l2, q2, category_index);
}

/// A palette command in the selected category whose lower-cased title contains the
/// lower-cased query is offered.
pub proof fn law_palette_lists_title_match(first_line: Seq<char>, q: Seq<char>, category_index: nat, j: int)
    requires
        trim(first_line) == seq!['/'] + q,
        0 <= j < palette_view().len(),
        category_index % 4 == 0 || palette_view()[j].category == category_order()[(category_index % 4) as int],
        seq_contains(lowercase(palette_view()[j].title@), lowercase(q)),
    ensures
        matching_commands(first_line, category_index).contains(palette_view()[j]),
{
    law_palette_query_lowercased(first_line, q, category_index);
    let cat = category_order()[(category_index % 4) as int];
    assert(command_matches(palette_view()[j], cat, lowercase(q)));
    lemma_commands_matching_keeps(palette_view(), cat, lowercase(q), j);
}

/// The palette is open: the trimmed first line starts with `/` and holds no space.
pub open spec fn slash_query_active(first_line: Seq<char>) -> bool {
    let t = trim(first_line);
    t.len() > 0 && t[0] == '/' && !t.contains(' ')
}

/// `s` with the first occurrence of `pat` replaced by `rep`.
pub open spec fn replace_first(s: Seq<char>, pat: Seq<char>, rep: Seq<char>) -> Seq<char> {
    match find_first(s, pat) {
        Some(p) => s.take(p) + rep + s.skip(p + pat.len()),
        None => s,
    }
}

/// `s` with each block's placeholder, in order, replaced by the block's full text.
pub open spec fn expand_blocks(s: Seq<char>, blocks: Seq<PastedBlock>) -> Seq<char>
    decreases blocks.len(),
{
    if blocks.len() == 0 {
        s
    } else {
        expand_blocks(
            replace_first(s, blocks[0].placeholder@, blocks[0].full_text@),
            blocks.drop_first(),
        )
    }
}

/// Lines joined with `\n`.
pub open spec fn join_lines(ls: Seq<Seq<char>>) -> Seq<char>
    decreases ls.len(),
{
    if ls.len() == 0 {
        Seq::empty()
    } else if ls.len() == 1 {
        ls[0]
    } else {
        join_lines(ls.drop_last()) + seq!['\n'] + ls.last()
    }
}

pub open spec fn strings_view(v: Seq<String>) -> Seq<Seq<char>> {
    v.map_values(|s: String| s@)
}

/// Text shown in an empty input dock.
pub open spec fn input_placeholder() -> Seq<char> {
    "Ask anything or type / for commands"@
}

/// Text shown in an empty input dock.
pub fn placeholder_text() -> (r: &'static str)
    ensures
        r@ == input_placeholder(),
{
    "Ask anything or type / for commands"
}

/// The editable text of the dock: a `tui_textarea::TextArea`, which Verus cannot take as
/// a declared type, held in a field that verified code does not see.
#[verifier::external_body]
pub struct TextBuffer {
    area: tui_textarea::TextArea<'static>,
}

/// The lines a text buffer holds.
pub uninterp spec fn ta_lines(t: TextBuffer) -> Seq<Seq<char>>;

/// The placeholder text a text buffer shows while it is empty.
pub uninterp spec fn ta_placeholder(t: TextBuffer) -> Seq<char>;

/// The cursor of a text buffer: row and column, in characters.
pub uninterp spec fn ta_cursor(t: TextBuffer) -> (nat, nat);

/// A selection is in progress in the text buffer.
pub uninterp spec fn ta_selecting(t: TextBuffer) -> bool;

/// `TextArea::lines`, each line copied. The text area's source keeps at least one line and
/// the cursor on a line, at most at its end.
#[verifier::external_body]
fn textarea_lines(t: &TextBuffer) -> (r: Vec<String>)
    ensures
        strings_view(r@) == ta_lines(*t),
        r@.len() >= 1,
        ta_cursor(*t).0 < r@.len(),
        ta_cursor(*t).1 <= r@[ta_cursor(*t).0 as int]@.len(),
{
    t.area.lines().to_vec()
}

/// `TextArea::cursor`.
#[verifier::external_body]
fn textarea_cursor(t: &TextBuffer) -> (r: (usize, usize))
    ensures
        (r.0 as nat, r.1 as nat) == ta_cursor(*t),
{
    t.area.cursor()
}

/// The cursor that `CursorMove::Jump(row, col)` gives on `lines`: the row clamped to the
/// last line, the column to the length of that line.
pub open spec fn jump_cursor(lines: Seq<Seq<char>>, row: nat, col: nat) -> (nat, nat) {
    let r = if row < lines.len() {
        row
    } else {
        (lines.len() - 1) as nat
    };
    let c = if col <= lines[r as int].len() {
        col
    } else {
        lines[r as int].len()
    };
    (r, c)
}

/// Lines of a new text area: the given lines, or one empty line for none.
pub open spec fn new_lines(lines: Seq<Seq<char>>) -> Seq<Seq<char>> {
    if lines.len() == 0 {
        seq![Seq::empty()]
    } else {
        lines
    }
}

/// `TextArea::new(lines)` with `set_placeholder_text(placeholder)` and a plain cursor line,
/// then `move_cursor(CursorMove::Jump(row as u16, col as u16))`: the text area holds the
/// lines (one empty line for none), the cursor is the jump target, nothing is selected and
/// the placeholder is the given text.
#[verifier::external_body]
fn textarea_with(lines: Vec<String>, row: u16, col: u16, placeholder: &str) -> (t: TextBuffer)
    ensures
        ta_lines(t) == new_lines(strings_view(lines@)),
        ta_cursor(t) == jump_cursor(new_lines(strings_view(lines@)), row as nat, col as nat),
        !ta_selecting(t),
        ta_placeholder(t) == placeholder@,
{
    let mut t = tui_textarea::TextArea::new(lines);
    t.set_placeholder_text(placeholder);
    t.set_cursor_line_style(ratatui::style::Style::default());
    t.move_cursor(tui_textarea::CursorMove::Jump(row, col));
    TextBuffer { area: t }
}

/// A line piece of inserted text: a trailing `\r` is dropped.
pub open spec fn strip_cr(p: Seq<char>) -> Seq<char> {
    if p.len() > 0 && p.last() == '\r' {
        p.drop_last()
    } else {
        p
    }
}

/// The lines of inserted text: the pieces between `\n`s, each without a trailing `\r`.
pub open spec fn insert_pieces(s: Seq<char>) -> Seq<Seq<char>> {
    split_on(s, '\n').map_values(|p: Seq<char>| strip_cr(p))
}

/// Lines and cursor after `TextArea::insert_str(s)` with nothing selected: a single piece
/// is inserted at the cursor, which moves past it; several pieces split the cursor line, the
/// first piece ending it, the last one starting the rest, the cursor after the last piece.
pub open spec fn after_insert(lines: Seq<Seq<char>>, cur: (nat, nat), s: Seq<char>) -> (
    Seq<Seq<char>>,
    (nat, nat),
) {
    let ps = insert_pieces(s);
    let row = cur.0;
    let col = cur.1;
    let line = lines[row as int];
    let at = if col <= line.len() {
        col
    } else {
        line.len()
    };
    if ps.len() <= 1 {
        if ps.len() == 0 || ps[0].len() == 0 {
            (lines, cur)
        } else {
            (
                lines.update(row as int, line.take(at as int) + ps[0] + line.skip(at as int)),
                (row, col + ps[0].len()),
            )
        }
    } else {
        let n = ps.len();
        (
            lines.take(row as int) + seq![line.take(at as int) + ps[0]] + ps.subrange(1, n - 1)
                + seq![ps[n - 1] + line.skip(at as int)] + lines.skip(row + 1int),
            ((row + n - 1) as nat, ps[n - 1].len()),
        )
    }
}

/// Lines and cursor after `TextArea::insert_newline()` with nothing selected: the cursor
/// line is split at the cursor and the cursor moves to the start of the new line.
pub open spec fn after_newline(lines: Seq<Seq<char>>, cur: (nat, nat)) -> (
    Seq<Seq<char>>,
    (nat, nat),
) {
    let row = cur.0;
    let line = lines[row as int];
    let at = if cur.1 <= line.len() {
        cur.1
    } else {
        line.len()
    };
    (
        lines.take(row as int) + seq![line.take(at as int), line.skip(at as int)] + lines.skip(
            row + 1int,
        ),
        (row + 1, 0),
    )
}

/// `TextArea::insert_str`: with nothing selected, the lines and cursor become
/// `after_insert` of the old ones, and nothing is selected after. With a selection the source
/// first deletes the selected text; that case is left unsaid.
#[verifier::external_body]
fn buffer_insert_str(t: &mut TextBuffer, s: &str)
    ensures
        !ta_selecting(*old(t)) ==> (ta_lines(*final(t)), ta_cursor(*final(t))) == after_insert(
            ta_lines(*old(t)),
            ta_cursor(*old(t)),
            s@,
        ),
        !ta_selecting(*old(t)) ==> !ta_selecting(*final(t)),
{
    t.area.insert_str(s);
}

/// `TextArea::insert_newline`: with nothing selected, the lines and cursor become
/// `after_newline` of the old ones, and nothing is selected after. With a selection the
/// source first deletes the selected text; that case is left unsaid.
#[verifier::external_body]
fn buffer_insert_newline(t: &mut TextBuffer)
    ensures
        !ta_selecting(*old(t)) ==> (ta_lines(*final(t)), ta_cursor(*final(t))) == after_newline(
            ta_lines(*old(t)),
            ta_cursor(*old(t)),
        ),
        !ta_selecting(*old(t)) ==> !ta_selecting(*final(t)),
{
    t.area.insert_newline();
}

impl TextBuffer {
    /// Inserts text at the cursor.
    pub fn insert_str(&mut self, s: &str)
        ensures
            !ta_selecting(*old(self)) ==> (ta_lines(*final(self)), ta_cursor(*final(self)))
                == after_insert(ta_lines(*old(self)), ta_cursor(*old(self)), s@),
            !ta_selecting(*old(self)) ==> !ta_selecting(*final(self)),
    {
        buffer_insert_str(self, s);
    }

    /// Splits the cursor line at the cursor.
    pub fn insert_newline(&mut self)
        ensures
            !ta_selecting(*old(self)) ==> (ta_lines(*final(self)), ta_cursor(*final(self)))
                == after_newline(ta_lines(*old(self)), ta_cursor(*old(self))),
            !ta_selecting(*old(self)) ==> !ta_selecting(*final(self)),
    {
        buffer_insert_newline(self);
    }

    /// The lines of the buffer.
    pub fn lines(&self) -> (r: Vec<String>)
        ensures
            strings_view(r@) == ta_lines(*self),
            r@.len() >= 1,
    {
        textarea_lines(self)
    }

    /// The cursor: row and column, in characters.
    pub fn cursor(&self) -> (r: (usize, usize))
        ensures
            (r.0 as nat, r.1 as nat) == ta_cursor(*self),
    {
        textarea_cursor(self)
    }
}

/// Display width of a character (`UnicodeWidthChar::width`): none for control characters.
pub uninterp spec fn char_width(c: char) -> Option<nat>;

/// Display width of a text (`UnicodeWidthStr::width`).
pub uninterp spec fn text_width(s: Seq<char>) -> nat;

/// `UnicodeWidthChar::width`; the crate's tables give no width above 3, printable ASCII
/// (space to `~`) has width 1, and the other ASCII characters are control characters.
#[verifier::external_body]
fn char_width_of(c: char) -> (r: Option<usize>)
    ensures
        match r {
            Some(w) => char_width(c) == Some(w as nat) && w <= 3,
            None => char_width(c) is None,
        },
        ' ' <= c <= '~' ==> r == Some(1usize),
        c < ' ' || c == '\u{7f}' ==> r is None,
{
    unicode_width::UnicodeWidthChar::width(c)
}

/// `UnicodeWidthStr::width`; the empty text has width 0, and a text of printable ASCII
/// characters (space to `~`) is as wide as it is long.
#[verifier::external_body]
pub(crate) fn text_width_of(s: &str) -> (r: usize)
    ensures
        r == text_width(s@),
        s@.len() == 0 ==> r == 0,
        (forall|i: int| 0 <= i < s@.len() ==> ' ' <= #[trigger] s@[i] <= '~') ==> r == s@.len(),
{
    unicode_width::UnicodeWidthStr::width(s)
}

/// Columns a character takes when a line is broken: its width, 1 for control characters.
pub open spec fn break_width(c: char) -> nat {
    match char_width(c) {
        Some(w) => w,
        None => 1,
    }
}

/// The last space outside brackets whose end lies within `maxw` columns, scanning until the
/// columns exceed `maxw`.
pub open spec fn space_scan(
    line: Seq<char>,
    maxw: nat,
    i: nat,
    w: nat,
    in_bracket: bool,
    last: Option<nat>,
) -> Option<nat>
    decreases line.len() - i,
{
    if i >= line.len() {
        last
    } else {
        let ch = line[i as int];
        let inb = if ch == '[' {
            true
        } else if ch == ']' {
            false
        } else {
            in_bracket
        };
        let w2 = w + break_width(ch);
        let last2 = if ch == ' ' && !inb && w2 <= maxw {
            Some(i)
        } else {
            last
        };
        if w2 > maxw {
            last2
        } else {
            space_scan(line, maxw, i + 1, w2, inb, last2)
        }
    }
}

/// The last `[` after the first character.
pub open spec fn bracket_scan(line: Seq<char>, i: nat, last: Option<nat>) -> Option<nat>
    decreases line.len() - i,
{
    if i >= line.len() {
        last
    } else {
        bracket_scan(
            line,
            i + 1,
            if line[i as int] == '[' && i > 0 {
                Some(i)
            } else {
                last
            },
        )
    }
}

/// The number of leading characters that fit in `maxw` columns.
pub open spec fn hard_scan(line: Seq<char>, maxw: nat, i: nat, w: nat) -> nat
    decreases line.len() - i,
{
    if i >= line.len() {
        i
    } else if w + break_width(line[i as int]) > maxw {
        i
    } else {
        hard_scan(line, maxw, i + 1, w + break_width(line[i as int]))
    }
}

/// Where a too-wide line is broken: at the last fitting space outside brackets, else before
/// the last bracket, else after as many characters as fit (at least one).
pub open spec fn break_at(line: Seq<char>, maxw: nat) -> nat {
    match space_scan(line, maxw, 0, 0, false, None) {
        Some(i) => i,
        None => match bracket_scan(line, 0, None) {
            Some(b) => b,
            None => {
                let h = hard_scan(line, maxw, 0, 0);
                if h >= 1 {
                    h
                } else {
                    1
                }
            },
        },
    }
}

/// Where the rest of a broken line starts: a space at the break is dropped.
pub open spec fn rest_start(line: Seq<char>, cb: nat) -> nat {
    if cb < line.len() && line[cb as int] == ' ' {
        cb + 1
    } else {
        cb
    }
}

proof fn lemma_space_scan(line: Seq<char>, maxw: nat, i: nat, w: nat, inb: bool, last: Option<nat>)
    requires
        last matches Some(k) ==> k < line.len() && line[k as int] == ' ',
    ensures
        space_scan(line, maxw, i, w, inb, last) matches Some(k) ==> k < line.len() && line[k as int]
            == ' ',
    decreases line.len() - i,
{
    if i < line.len() {
        let ch = line[i as int];
        let inb2 = if ch == '[' {
            true
        } else if ch == ']' {
            false
        } else {
            inb
        };
        let w2 = w + break_width(ch);
        let last2 = if ch == ' ' && !inb2 && w2 <= maxw {
            Some(i)
        } else {
            last
        };
        if w2 <= maxw {
            lemma_space_scan(line, maxw, i + 1, w2, inb2, last2);
        }
    }
}

proof fn lemma_bracket_scan(line: Seq<char>, i: nat, last: Option<nat>)
    requires
        last matches Some(k) ==> 0 < k < line.len(),
    ensures
        bracket_scan(line, i, last) matches Some(k) ==> 0 < k < line.len(),
    decreases line.len() - i,
{
    if i < line.len() {
        lemma_bracket_scan(
            line,
            i + 1,
            if line[i as int] == '[' && i > 0 {
                Some(i)
            } else {
                last
            },
        );
    }
}

proof fn lemma_hard_scan(line: Seq<char>, maxw: nat, i: nat, w: nat)
    requires
        i <= line.len(),
    ensures
        i <= hard_scan(line, maxw, i, w) <= line.len(),
    decreases line.len() - i,
{
    if i < line.len() && w + break_width(line[i as int]) <= maxw {
        lemma_hard_scan(line, maxw, i + 1, w + break_width(line[i as int]));
    }
}

/// A non-empty line breaks inside it, and its rest starts after the first character or a
/// dropped space.
pub proof fn lemma_break_bounds(line: Seq<char>, maxw: nat)
    requires
        line.len() >= 1,
    ensures
        break_at(line, maxw) <= line.len(),
        1 <= rest_start(line, break_at(line, maxw)) <= line.len(),
{
    lemma_space_scan(line, maxw, 0, 0, false, None);
    lemma_bracket_scan(line, 0, None);
    lemma_hard_scan(line, maxw, 0, 0);
}

/// Lines and cursor after breaking the too-wide line `r`: the line keeps the text before the
/// break; the rest is put in front of the next line (joined with a space) or becomes a new
/// last line; a cursor after the break moves along with the rest.
pub open spec fn wrap_row(lines: Seq<Seq<char>>, crow: nat, ccol: nat, maxw: nat, r: nat) -> (
    Seq<Seq<char>>,
    nat,
    nat,
) {
    let line = lines[r as int];
    let cb = break_at(line, maxw);
    let rs = rest_start(line, cb);
    let first = line.take(cb as int);
    let second = line.skip(rs as int);
    let lines1 = lines.update(r as int, first);
    let lines2 = if r + 1 < lines.len() {
        if second.len() == 0 {
            lines1
        } else {
            lines1.update(r + 1int, second + seq![' '] + lines[r + 1int])
        }
    } else {
        lines1.push(second)
    };
    if crow == r {
        if ccol > cb {
            (lines2, r + 1, if ccol >= rs {
                (ccol - rs) as nat
            } else {
                0
            })
        } else {
            (lines2, crow, ccol)
        }
    } else if crow > r {
        (lines2, crow + 1, ccol)
    } else {
        (lines2, crow, ccol)
    }
}

/// Characters left from line `r` on, one more per line.
pub open spec fn tail_measure(lines: Seq<Seq<char>>, r: nat) -> nat
    decreases lines.len() - r,
{
    if r >= lines.len() {
        0
    } else {
        lines[r as int].len() + 1 + tail_measure(lines, r + 1)
    }
}

/// The measure of the rows from `r` on depends only on those rows.
pub proof fn lemma_tail_measure_same(a: Seq<Seq<char>>, b: Seq<Seq<char>>, r: nat)
    requires
        a.len() == b.len(),
        forall|j: int| r <= j < a.len() ==> a[j] == b[j],
    ensures
        tail_measure(a, r) == tail_measure(b, r),
    decreases a.len() - r,
{
    if r < a.len() {
        lemma_tail_measure_same(a, b, r + 1);
    }
}

/// Breaking a too-wide line leaves less to scan from the next line on.
pub proof fn lemma_wrap_row_decreases(lines: Seq<Seq<char>>, crow: nat, ccol: nat, maxw: nat, r: nat)
    requires
        r < lines.len(),
        lines[r as int].len() >= 1,
    ensures
        wrap_row(lines, crow, ccol, maxw, r).0.len() >= lines.len(),
        tail_measure(wrap_row(lines, crow, ccol, maxw, r).0, r + 1) < tail_measure(lines, r),
{
    let line = lines[r as int];
    lemma_break_bounds(line, maxw);
    let cb = break_at(line, maxw);
    let rs = rest_start(line, cb);
    let first = line.take(cb as int);
    let second = line.skip(rs as int);
    let lines1 = lines.update(r as int, first);
    let after = wrap_row(lines, crow, ccol, maxw, r).0;
    if r + 1 < lines.len() {
        assert(tail_measure(lines, r) == line.len() + 1 + tail_measure(lines, r + 1));
        assert(tail_measure(lines, r + 1) == lines[r + 1int].len() + 1 + tail_measure(lines, r + 2));
        lemma_tail_measure_same(after, lines, r + 2);
        assert(tail_measure(after, r + 1) == after[r + 1int].len() + 1 + tail_measure(after, r + 2));
    } else {
        assert(after == lines1.push(second));
        assert(tail_measure(after, r + 2) == 0);
        assert(tail_measure(after, r + 1) == after[r + 1int].len() + 1 + tail_measure(after, r + 2));
        assert(tail_measure(lines, r + 1) == 0);
    }
}

/// Lines, cursor and whether anything changed after breaking, from line `r` on, every line
/// wider than `maxw` columns.
pub open spec fn wrap_from(
    lines: Seq<Seq<char>>,
    crow: nat,
    ccol: nat,
    maxw: nat,
    r: nat,
    changed: bool,
) -> (Seq<Seq<char>>, nat, nat, bool)
    decreases tail_measure(lines, r),
{
    if r >= lines.len() {
        (lines, crow, ccol, changed)
    } else if text_width(lines[r as int]) > maxw && lines[r as int].len() >= 1 {
        let w = wrap_row(lines, crow, ccol, maxw, r);
        proof {
            lemma_wrap_row_decreases(lines, crow, ccol, maxw, r);
        }
        wrap_from(w.0, w.1, w.2, maxw, r + 1, true)
    } else {
        proof {
            assert(tail_measure(lines, r) == lines[r as int].len() + 1 + tail_measure(lines, r + 1));
        }
        wrap_from(lines, crow, ccol, maxw, r + 1, changed)
    }
}

/// The widest line, in columns, that the dock keeps for a drawn width: two columns less,
/// at least 20.
pub open spec fn wrap_width(width: u16) -> nat {
    let w: nat = if width >= 2 {
        (width - 2) as nat
    } else {
        0
    };
    if w >= 20 {
        w
    } else {
        20
    }
}

/// Lines and cursor after `auto_wrap`: unchanged while the palette is open or when no line
/// is too wide; otherwise the wrapped lines, with the cursor jumped to its new place.
pub open spec fn wrapped(lines: Seq<Seq<char>>, cur: (nat, nat), width: u16) -> (
    Seq<Seq<char>>,
    (nat, nat),
) {
    if lines.len() == 0 || slash_query_active(lines[0]) {
        (lines, cur)
    } else {
        let w = wrap_from(lines, cur.0, cur.1, wrap_width(width), 0, false);
        if w.3 {
            (new_lines(w.0), jump_cursor(new_lines(w.0), (w.1 as u16) as nat, (w.2 as u16) as nat))
        } else {
            (lines, cur)
        }
    }
}

fn break_width_exec(c: char) -> (r: usize)
    ensures
        r == break_width(c),
        r <= 3,
{
    match char_width_of(c) {
        Some(w) => w,
        None => 1,
    }
}

fn space_scan_exec(line: &Vec<char>, maxw: usize) -> (r: Option<usize>)
    requires
        maxw <= 0xffff,
    ensures
        match r {
            Some(k) => space_scan(line@, maxw as nat, 0, 0, false, None) == Some(k as nat),
            None => space_scan(line@, maxw as nat, 0, 0, false, None) is None,
        },
{
    let mut i: usize = 0;
    let mut w: usize = 0;
    let mut inb = false;
    let mut last: Option<usize> = None;
    while i < line.len()
        invariant
            i <= line@.len(),
            w <= maxw,
            maxw <= 0xffff,
            space_scan(line@, maxw as nat, 0, 0, false, None) == space_scan(
                line@,
                maxw as nat,
                i as nat,
                w as nat,
                inb,
                match last {
                    Some(k) => Some(k as nat),
                    None => None,
                },
            ),
        decreases line@.len() - i,
    {
        let ch = line[i];
        if ch == '[' {
            inb = true;
        } else if ch == ']' {
            inb = false;
        }
        let w2 = w + break_width_exec(ch);
        if ch == ' ' && !inb && w2 <= maxw {
            last = Some(i);
        }
        if w2 > maxw {
            return last;
        }
        w = w2;
        i += 1;
    }
    last
}

fn bracket_scan_exec(line: &Vec<char>) -> (r: Option<usize>)
    ensures
        match r {
            Some(k) => bracket_scan(line@, 0, None) == Some(k as nat),
            None => bracket_scan(line@, 0, None) is None,
        },
{
    let mut i: usize = 0;
    let mut last: Option<usize> = None;
    while i < line.len()
        invariant
            i <= line@.len(),
            bracket_scan(line@, 0, None) == bracket_scan(
                line@,
                i as nat,
                match last {
                    Some(k) => Some(k as nat),
                    None => None,
                },
            ),
        decreases line@.len() - i,
    {
        if line[i] == '[' && i > 0 {
            last = Some(i);
        }
        i += 1;
    }
    last
}

fn hard_scan_exec(line: &Vec<char>, maxw: usize) -> (r: usize)
    requires
        maxw <= 0xffff,
    ensures
        r == hard_scan(line@, maxw as nat, 0, 0),
{
    let mut i: usize = 0;
    let mut w: usize = 0;
    while i < line.len()
        invariant
            i <= line@.len(),
            w <= maxw,
            maxw <= 0xffff,
            hard_scan(line@, maxw as nat, 0, 0) == hard_scan(line@, maxw as nat, i as nat, w as nat),
        decreases line@.len() - i,
    {
        let cw = break_width_exec(line[i]);
        if w + cw > maxw {
            return i;
        }
        w = w + cw;
        i += 1;
    }
    i
}

fn break_at_exec(line: &Vec<char>, maxw: usize) -> (r: usize)
    requires
        maxw <= 0xffff,
    ensures
        r == break_at(line@, maxw as nat),
{
    match space_scan_exec(line, maxw) {
        Some(i) => i,
        None => match bracket_scan_exec(line) {
            Some(b) => b,
            None => {
                let h = hard_scan_exec(line, maxw);
                if h >= 1 {
                    h
                } else {
                    1
                }
            },
        },
    }
}

fn wrap_width_exec(width: u16) -> (r: usize)
    ensures
        r == wrap_width(width),
        r <= 0xffff,
{
    let w: usize = if width >= 2 {
        (width - 2) as usize
    } else {
        0
    };
    if w >= 20 {
        w
    } else {
        20
    }
}

/// Breaks, from the first line on, every line wider than `maxw` columns (see `wrap_from`).
fn wrap_lines(lines: &mut Vec<String>, crow: usize, ccol: usize, maxw: usize) -> (r: (u128, usize, bool))
    requires
        maxw <= 0xffff,
    ensures
        ({
            let w = wrap_from(strings_view(old(lines)@), crow as nat, ccol as nat, maxw as nat, 0, false);
            strings_view(final(lines)@) == w.0 && r.0 == w.1 && r.1 == w.2 && r.2 == w.3
        }),
{
    let ghost init = strings_view(lines@);
    let mut row: u128 = crow as u128;
    let mut col: usize = ccol;
    let mut changed = false;
    let mut r: usize = 0;
    while r < lines.len()
        invariant
            r <= lines@.len(),
            maxw <= 0xffff,
            row <= crow + r,
            wrap_from(init, crow as nat, ccol as nat, maxw as nat, 0, false) == wrap_from(
                strings_view(lines@),
                row as nat,
                col as nat,
                maxw as nat,
                r as nat,
                changed,
            ),
        decreases tail_measure(strings_view(lines@), r as nat),
    {
        let ghost ls = strings_view(lines@);
        assert(ls[r as int] == lines@[r as int]@);
        let width = text_width_of(lines[r].as_str());
        if width > maxw {
            let cv = chars_of(lines[r].as_str());
            proof {
                lemma_break_bounds(cv@, maxw as nat);
                lemma_wrap_row_decreases(ls, row as nat, col as nat, maxw as nat, r as nat);
            }
            let cb = break_at_exec(&cv, maxw);
            let rs = if cb < cv.len() && cv[cb] == ' ' {
                cb + 1
            } else {
                cb
            };
            let first = string_from_chars(&slice_chars(&cv, 0, cb));
            let second = slice_chars(&cv, rs, cv.len());
            let ghost w = wrap_row(ls, row as nat, col as nat, maxw as nat, r as nat);
            assert(cv@ == ls[r as int]);
            assert(first@ == ls[r as int].take(cb as int));
            assert(second@ == ls[r as int].skip(rs as int));
            lines.set(r, first);
            assert(strings_view(lines@) =~= ls.update(r as int, first@));
            let ghost lines1 = ls.update(r as int, ls[r as int].take(cb as int));
            if r + 1 < lines.len() {
                if second.len() > 0 {
                    let ghost sv = second@;
                    let mut merged = second;
                    merged.push(' ');
                    assert(lines@[r + 1]@ == ls[r + 1]);
                    extend_chars(&mut merged, &chars_of(lines[r + 1].as_str()));
                    assert(merged@ =~= sv + seq![' '] + ls[r + 1]);
                    let ghost before = strings_view(lines@);
                    lines.set(r + 1, string_from_chars(&merged));
                    assert(strings_view(lines@) =~= before.update(r + 1, merged@));
                    assert(strings_view(lines@) =~= lines1.update(r + 1, sv + seq![' '] + ls[r + 1]));
                } else {
                    assert(strings_view(lines@) =~= lines1);
                }
            } else {
                let ghost before = strings_view(lines@);
                lines.push(string_from_chars(&second));
                assert(strings_view(lines@) =~= before.push(second@));
            }
            if row == r as u128 {
                if col > cb {
                    row = (r + 1) as u128;
                    col = if col >= rs {
                        col - rs
                    } else {
                        0
                    };
                }
            } else if row > r as u128 {
                row = row + 1;
            }
            changed = true;
            proof {
                let line = ls[r as int];
                assert(break_at(line, maxw as nat) == cb);
                assert(rest_start(line, cb as nat) == rs);
                let lines1 = ls.update(r as int, line.take(cb as int));
                let second_v = line.skip(rs as int);
                let lines2 = if r + 1 < ls.len() {
                    if second_v.len() == 0 {
                        lines1
                    } else {
                        lines1.update(r + 1, second_v + seq![' '] + ls[r + 1])
                    }
                } else {
                    lines1.push(second_v)
                };
                assert(w.0 == lines2);
                assert(strings_view(lines@) =~= lines2);
            }
        } else {
            proof {
                assert(tail_measure(ls, r as nat) == ls[r as int].len() + 1 + tail_measure(
                    ls,
                    (r + 1) as nat,
                ));
            }
        }
        r += 1;
    }
    (row, col, changed)
}

/// `s` with each `\r\n` and each remaining `\r` turned into `\n`.
pub open spec fn normalize_newlines(s: Seq<char>) -> Seq<char>
    decreases s.len(),
{
    if s.len() == 0 {
        s
    } else if s[0] == '\r' && s.len() >= 2 && s[1] == '\n' {
        seq!['\n'] + normalize_newlines(s.skip(2))
    } else if s[0] == '\r' {
        seq!['\n'] + normalize_newlines(s.skip(1))
    } else {
        seq![s[0]] + normalize_newlines(s.skip(1))
    }
}

/// No carriage return is left after normalization.
pub proof fn law_normalize_leaves_no_cr(s: Seq<char>)
    ensures
        forall|i: int| 0 <= i < normalize_newlines(s).len() ==> normalize_newlines(s)[i] != '\r',
    decreases s.len(),
{
    if s.len() > 0 {
        let r = normalize_newlines(s);
        let k: int = if s[0] == '\r' && s.len() >= 2 && s[1] == '\n' { 2 } else { 1 };
        let t = normalize_newlines(s.skip(k));
        law_normalize_leaves_no_cr(s.skip(k));
        assert(r == seq![if s[0] == '\r' { '\n' } else { s[0] }] + t);
        assert forall|i: int| 0 <= i < r.len() implies r[i] != '\r' by {
            if i > 0 {
                assert(r[i] == t[i - 1]);
            }
        }
    }
}

/// Text without carriage returns is left as it is.
pub proof fn law_normalize_keeps_text_without_cr(s: Seq<char>)
    requires
        forall|i: int| 0 <= i < s.len() ==> s[i] != '\r',
    ensures
        normalize_newlines(s) == s,
    decreases s.len(),
{
    if s.len() > 0 {
        law_normalize_keeps_text_without_cr(s.skip(1));
        assert(seq![s[0]] + s.skip(1) =~= s);
    }
}

/// Normalization works piece by piece where a piece does not end with a carriage return:
/// `normalize(a + b) == normalize(a) + normalize(b)`.
pub proof fn law_normalize_concat(a: Seq<char>, b: Seq<char>)
    requires
        a.len() == 0 || a.last() != '\r',
    ensures
        normalize_newlines(a + b) == normalize_newlines(a) + normalize_newlines(b),
    decreases a.len(),
{
    let ab = a + b;
    if a.len() == 0 {
        assert(ab =~= b);
        assert(normalize_newlines(a) + normalize_newlines(b) =~= normalize_newlines(b));
    } else if a[0] == '\r' && a.len() >= 2 && a[1] == '\n' {
        assert(ab[0] == '\r' && ab[1] == '\n');
        assert(ab.skip(2) =~= a.skip(2) + b);
        law_normalize_concat(a.skip(2), b);
        assert(seq!['\n'] + (normalize_newlines(a.skip(2)) + normalize_newlines(b)) =~= (seq!['\n']
            + normalize_newlines(a.skip(2))) + normalize_newlines(b));
    } else if a[0] == '\r' {
        assert(a.len() >= 2);
        assert(ab[0] == '\r' && ab[1] == a[1]);
        assert(ab.skip(1) =~= a.skip(1) + b);
        law_normalize_concat(a.skip(1), b);
        assert(seq!['\n'] + (normalize_newlines(a.skip(1)) + normalize_newlines(b)) =~= (seq!['\n']
            + normalize_newlines(a.skip(1))) + normalize_newlines(b));
    } else {
        assert(ab[0] == a[0]);
        assert(ab.skip(1) =~= a.skip(1) + b);
        law_normalize_concat(a.skip(1), b);
        assert(seq![a[0]] + (normalize_newlines(a.skip(1)) + normalize_newlines(b)) =~= (seq![a[0]]
            + normalize_newlines(a.skip(1))) + normalize_newlines(b));
    }
}

/// Each line break of a pasted text becomes exactly one line feed: a CRLF pair becomes one
/// `\n`, and so does a carriage return on its own.
pub proof fn law_normalize_one_newline_per_break(a: Seq<char>, b: Seq<char>)
    requires
        a.len() == 0 || a.last() != '\r',
    ensures
        normalize_newlines(a + seq!['\r', '\n'] + b) == normalize_newlines(a) + seq!['\n'] + normalize_newlines(b),
        (b.len() == 0 || b[0] != '\n') ==> normalize_newlines(a + seq!['\r'] + b) == normalize_newlines(a)
            + seq!['\n'] + normalize_newlines(b),
{
    let crlf = seq!['\r', '\n'] + b;
    assert(a + seq!['\r', '\n'] + b =~= a + crlf);
    law_normalize_concat(a, crlf);
    assert(crlf.skip(2) =~= b);
    assert(normalize_newlines(crlf) =~= seq!['\n'] + normalize_newlines(b));
    assert(normalize_newlines(a) + (seq!['\n'] + normalize_newlines(b)) =~= normalize_newlines(a) + seq!['\n']
        + normalize_newlines(b));
    if b.len() == 0 || b[0] != '\n' {
        let cr = seq!['\r'] + b;
        assert(a + seq!['\r'] + b =~= a + cr);
        law_normalize_concat(a, cr);
        assert(cr.skip(1) =~= b);
        assert(normalize_newlines(cr) =~= seq!['\n'] + normalize_newlines(b));
        assert(normalize_newlines(a) + (seq!['\n'] + normalize_newlines(b)) =~= normalize_newlines(a)
            + seq!['\n'] + normalize_newlines(b));
    }
}

fn normalize_newlines_exec(text: &str) -> (r: String)
    ensures
        r@ == normalize_newlines(text@),
{
    let v = chars_of(text);
    let mut out: Vec<char> = Vec::new();
    let mut i: usize = 0;
    assert(v@.skip(0) =~= v@);
    while i < v.len()
        invariant
            i <= v@.len(),
            v@ == text@,
            normalize_newlines(text@) == out@ + normalize_newlines(v@.skip(i as int)),
        decreases v@.len() - i,
    {
        let ghost rest = v@.skip(i as int);
        let ghost before = out@;
        assert(rest[0] == v@[i as int]);
        if v[i] == '\r' && i + 1 < v.len() && v[i + 1] == '\n' {
            assert(rest[1] == v@[i + 1]);
            assert(rest.skip(2) =~= v@.skip(i + 2));
            out.push('\n');
            assert(before + (seq!['\n'] + normalize_newlines(rest.skip(2))) =~= out@
                + normalize_newlines(v@.skip(i + 2)));
            i += 2;
        } else {
            let c = if v[i] == '\r' {
                '\n'
            } else {
                v[i]
            };
            assert(rest.skip(1) =~= v@.skip(i + 1));
            out.push(c);
            assert(before + (seq![c] + normalize_newlines(rest.skip(1))) =~= out@
                + normalize_newlines(v@.skip(i + 1)));
            i += 1;
        }
    }
    assert(v@.skip(i as int) =~= Seq::<char>::empty());
    assert(out@ + Seq::<char>::empty() =~= out@);
    string_from_chars(&out)
}

/// A paste is collapsed when it is not empty and has more than five lines.
pub open spec fn paste_collapses(text: Seq<char>) -> bool {
    text.len() > 0 && line_count(normalize_newlines(text)) > 5
}

/// The first non-blank line, or `snippet`.
pub open spec fn first_nonblank(ps: Seq<Seq<char>>) -> Seq<char>
    decreases ps.len(),
{
    if ps.len() == 0 {
        "snippet"@
    } else if trim(ps[0]).len() > 0 {
        ps[0]
    } else {
        first_nonblank(ps.drop_first())
    }
}

/// Preview of a collapsed paste: its first non-blank line, trimmed, cut to 24 characters
/// with `…` when longer.
pub open spec fn paste_preview(norm: Seq<char>) -> Seq<char> {
    let t = trim(first_nonblank(split_on(norm, '\n')));
    if t.len() > 24 {
        trim_end(t.take(24)) + seq!['…']
    } else {
        t
    }
}

/// Placeholder of a collapsed paste: `[<preview> ..... +<n> lines]`.
pub open spec fn paste_placeholder(norm: Seq<char>) -> Seq<char> {
    "["@ + paste_preview(norm) + " ..... +"@ + decimal(line_count(norm)) + " lines]"@
}

fn first_nonblank_index(parts: &Vec<Vec<char>>) -> (r: Option<usize>)
    ensures
        match r {
            Some(k) => k < parts@.len() && first_nonblank(vec_views(parts@)) == parts@[k as int]@,
            None => first_nonblank(vec_views(parts@)) == "snippet"@,
        },
{
    let ghost pv = vec_views(parts@);
    let mut i: usize = 0;
    assert(pv.skip(0) =~= pv);
    while i < parts.len()
        invariant
            i <= parts@.len(),
            pv == vec_views(parts@),
            first_nonblank(pv) == first_nonblank(pv.skip(i as int)),
        decreases parts@.len() - i,
    {
        assert(pv.skip(i as int)[0] == parts@[i as int]@);
        assert(pv.skip(i as int).drop_first() =~= pv.skip(i + 1));
        let t = trim_chars(&parts[i]);
        if t.len() > 0 {
            return Some(i);
        }
        i += 1;
    }
    assert(pv.skip(i as int) =~= Seq::<Seq<char>>::empty());
    None
}

fn paste_placeholder_exec(norm: &str, n: usize) -> (r: String)
    requires
        n == line_count(norm@),
    ensures
        r@ == paste_placeholder(norm@),
{
    let parts = split_chars(&chars_of(norm), '\n');
    let ghost pv = vec_views(parts@);
    let line: Vec<char> = match first_nonblank_index(&parts) {
        Some(k) => slice_chars(&parts[k], 0, parts[k].len()),
        None => chars_of("snippet"),
    };
    assert(line@ =~= first_nonblank(pv));
    let t = trim_chars(&line);
    let preview: Vec<char> = if t.len() > 24 {
        let mut p = trim_end_chars(&slice_chars(&t, 0, 24));
        p.push('…');
        p
    } else {
        t
    };
    assert(preview@ =~= paste_preview(norm@));
    let mut out = chars_of("[");
    extend_chars(&mut out, &preview);
    extend_chars(&mut out, &chars_of(" ..... +"));
    extend_chars(&mut out, &u64_to_decimal(n as u64));
    extend_chars(&mut out, &chars_of(" lines]"));
    assert(out@ =~= paste_placeholder(norm@));
    string_from_chars(&out)
}

/// Lines and cursor after typing the first `n` parts, a new line before each but the first.
pub open spec fn paste_prefix(
    lines: Seq<Seq<char>>,
    cur: (nat, nat),
    parts: Seq<Seq<char>>,
    n: nat,
) -> (Seq<Seq<char>>, (nat, nat))
    decreases n,
{
    if n == 0 {
        (lines, cur)
    } else {
        let prev = paste_prefix(lines, cur, parts, (n - 1) as nat);
        let nl = if n > 1 {
            after_newline(prev.0, prev.1)
        } else {
            prev
        };
        after_insert(nl.0, nl.1, parts[n - 1])
    }
}

/// The dock after `reset`: one empty line, cursor at the start, nothing selected, no
/// palette selection and no pasted blocks; category and width are kept.
pub open spec fn is_reset(o: InputDock, n: InputDock) -> bool {
    &&& ta_lines(n.textarea) == seq![Seq::<char>::empty()]
    &&& ta_cursor(n.textarea) == (0nat, 0nat)
    &&& !ta_selecting(n.textarea)
    &&& n.slash_selected_index == 0
    &&& n.pasted_blocks@.len() == 0
    &&& n.next_block_id == 1
    &&& n.category_index == o.category_index
    &&& n.last_width == o.last_width
}

/// What a key is, as the dock reads it.
#[derive(Debug, Clone, Copy, PartialEq, Eq, Structural)]
pub enum KeyKind {
    Esc,
    Up,
    Down,
    Left,
    Right,
    Home,
    End,
    PageUp,
    PageDown,
    Tab,
    BackTab,
    Enter,
    Backspace,
    Delete,
    Char(char),
    F(u8),
    Other,
}

/// A key event as the dock reads it: the key, whether it is a release, and its modifiers
/// (`control_only` when Control is the only one).
#[derive(Debug, Clone, Copy, PartialEq, Eq, Structural)]
pub struct KeyInput {
    pub kind: KeyKind,
    pub release: bool,
    pub shift: bool,
    pub alt: bool,
    pub control: bool,
    pub control_only: bool,
}

/// The character a key types into the text area by its default bindings: a character key
/// with neither Control nor Alt.
pub open spec fn typed_char(key: KeyInput) -> Option<char> {
    match key.kind {
        KeyKind::Char(c) => if !key.control && !key.alt {
            Some(c)
        } else {
            None
        },
        _ => None,
    }
}

/// The key starts a new line in the text area: Enter, `\n` or `\r` typed without Control or
/// Alt, or Control+M.
pub open spec fn key_is_newline(key: KeyInput) -> bool {
    ||| key.kind == KeyKind::Enter
    ||| (typed_char(key) == Some('\n') || typed_char(key) == Some('\r'))
    ||| (key.kind == KeyKind::Char('m') && key.control && !key.alt)
}

/// What `TextArea::input` does with the key, with nothing selected: a new line is inserted
/// at the cursor for a newline key, a typed character is inserted at the cursor, which
/// moves past it; either way nothing is selected after. Other keys (moves, deletions, undo,
/// clipboard) are left unsaid.
pub open spec fn input_effect(before: TextBuffer, key: KeyInput, after: TextBuffer) -> bool {
    !ta_selecting(before) ==> {
        if key_is_newline(key) {
            &&& (ta_lines(after), ta_cursor(after)) == after_newline(
                ta_lines(before),
                ta_cursor(before),
            )
            &&& !ta_selecting(after)
        } else {
            match typed_char(key) {
                Some(c) => {
                    &&& (ta_lines(after), ta_cursor(after)) == after_insert(
                        ta_lines(before),
                        ta_cursor(before),
                        seq![c],
                    )
                    &&& !ta_selecting(after)
                },
                None => true,
            }
        }
    }
}

/// `TextArea::input` with the key as a `tui_textarea::Input` (its key, Control, Alt and
/// Shift). With nothing selected the source's default bindings run `insert_newline` for
/// Enter, `\n`, `\r` and Control+M, and `insert_char` for another character without Control
/// or Alt, which inserts it at the cursor and moves the cursor past it. The other bindings
/// (cursor moves, deletions, undo, clipboard) are left unsaid.
#[verifier::external_body]
fn buffer_input(t: &mut TextBuffer, key: KeyInput)
    ensures
        input_effect(*old(t), key, *final(t)),
{
    let k = match key.kind {
        KeyKind::Esc => Key::Esc, KeyKind::Up => Key::Up, KeyKind::Down => Key::Down,
        KeyKind::Left => Key::Left, KeyKind::Right => Key::Right, KeyKind::Home => Key::Home,
        KeyKind::End => Key::End, KeyKind::PageUp => Key::PageUp, KeyKind::PageDown => Key::PageDown,
        KeyKind::Tab => Key::Tab, KeyKind::Enter => Key::Enter, KeyKind::Backspace => Key::Backspace,
        KeyKind::Delete => Key::Delete, KeyKind::Char(c) => Key::Char(c), KeyKind::F(n) => Key::F(n),
        KeyKind::BackTab | KeyKind::Other => Key::Null,
    };
    t.area.input(Input { key: k, ctrl: key.control, alt: key.alt, shift: key.shift });
}

/// The dock is unchanged but for the palette selection.
pub open spec fn same_but_selection(o: InputDock, n: InputDock, sel: nat) -> bool {
    &&& n.textarea == o.textarea
    &&& n.slash_selected_index == sel
    &&& n.category_index == o.category_index
    &&& n.last_width == o.last_width
    &&& n.pasted_blocks == o.pasted_blocks
    &&& n.next_block_id == o.next_block_id
}

/// The category moved one step (forward or back) and the selection was reset.
pub open spec fn cycled(o: InputDock, n: InputDock, forward: bool) -> bool {
    &&& n.category_index == if forward {
        ((o.category_index + 1) % 4) as usize
    } else if o.category_index == 0 {
        3
    } else {
        (o.category_index - 1) as usize
    }
    &&& n.slash_selected_index == 0
    &&& n.textarea == o.textarea
    &&& n.last_width == o.last_width
    &&& n.pasted_blocks == o.pasted_blocks
    &&& n.next_block_id == o.next_block_id
}

/// A new line was typed at the cursor and the lines wrapped.
pub open spec fn newline_typed(o: InputDock, n: InputDock) -> bool {
    &&& n.slash_selected_index == o.slash_selected_index
    &&& n.category_index == o.category_index
    &&& n.last_width == o.last_width
    &&& n.pasted_blocks == o.pasted_blocks
    &&& n.next_block_id == o.next_block_id
    &&& !ta_selecting(o.textarea) ==> {
        let a = after_newline(ta_lines(o.textarea), ta_cursor(o.textarea));
        &&& (ta_lines(n.textarea), ta_cursor(n.textarea)) == wrapped(a.0, a.1, o.last_width)
        &&& !ta_selecting(n.textarea)
    }
}

/// The key went to the text area: the text area `t` that `TextArea::input` made of the key
/// (`input_effect`), the selection clamped to the candidates of `t`'s first line, and the
/// lines of `t` wrapped.
pub open spec fn typed_other(o: InputDock, key: KeyInput, n: InputDock) -> bool {
    &&& n.category_index == o.category_index
    &&& n.last_width == o.last_width
    &&& n.pasted_blocks == o.pasted_blocks
    &&& n.next_block_id == o.next_block_id
    &&& exists|t: TextBuffer|
        {
            let m = matching_commands(ta_lines(t)[0], o.category_index as nat);
            &&& input_effect(o.textarea, key, t)
            &&& (ta_lines(n.textarea), ta_cursor(n.textarea)) == wrapped(
                #[trigger] ta_lines(t),
                ta_cursor(t),
                o.last_width,
            )
            &&& n.slash_selected_index == if o.slash_selected_index >= m.len() {
                if m.len() > 0 {
                    (m.len() - 1) as usize
                } else {
                    0
                }
            } else {
                o.slash_selected_index
            }
        }
}

/// Plain Enter: the prompt is the highlighted palette command when the palette is open and
/// offers one, else the trimmed text; a non-empty prompt is submitted (expanding pasted
/// blocks unless the palette is open) and the dock reset; an empty one changes nothing.
pub open spec fn submitted(o: InputDock, n: InputDock, r: Option<PromptSubmission>) -> bool {
    let first = o.lines_view()[0];
    let open = slash_query_active(first);
    let m = matching_commands(first, o.category_index as nat);
    let trimmed = trim(join_lines(o.lines_view()));
    let fp = if open && m.len() > 0 {
        m[if o.slash_selected_index < m.len() {
            o.slash_selected_index as int
        } else {
            m.len() - 1
        }].slash_name@
    } else {
        trimmed
    };
    if fp.len() > 0 {
        &&& is_reset(o, n)
        &&& r matches Some(sub) && if open {
            sub.display@ == fp && sub.full@ == fp
        } else {
            sub.display@ == trim(fp) && sub.full@ == expand_blocks(trim(fp), o.pasted_blocks@)
        }
    } else {
        r is None && n == o
    }
}

/// What a key does to the dock and what it returns.
pub open spec fn key_outcome(o: InputDock, key: KeyInput, n: InputDock, r: Option<PromptSubmission>) -> bool {
    let first = o.lines_view()[0];
    let open = slash_query_active(first);
    let m = matching_commands(first, o.category_index as nat);
    if key.release {
        r is None && n == o
    } else if open && key.kind == KeyKind::Esc {
        r is None && is_reset(o, n)
    } else if open && m.len() > 0 && key.kind == KeyKind::Up {
        r is None && same_but_selection(
            o,
            n,
            if o.slash_selected_index > 0 {
                (o.slash_selected_index - 1) as nat
            } else {
                0
            },
        )
    } else if open && m.len() > 0 && key.kind == KeyKind::Down {
        r is None && same_but_selection(
            o,
            n,
            if o.slash_selected_index + 1 < m.len() {
                (o.slash_selected_index + 1) as nat
            } else {
                o.slash_selected_index as nat
            },
        )
    } else if open && key.kind == KeyKind::Tab {
        r is None && cycled(o, n, true)
    } else if open && key.kind == KeyKind::BackTab {
        r is None && cycled(o, n, false)
    } else if (key.kind == KeyKind::Enter && (key.shift || key.alt || key.control)) || (key.kind
        == KeyKind::Char('j') && key.control_only) {
        r is None && newline_typed(o, n)
    } else if key.kind == KeyKind::Enter {
        submitted(o, n, r)
    } else {
        r is None && typed_other(o, key, n)
    }
}

/// The prompt input dock.
pub struct InputDock {
    pub textarea: TextBuffer,
    pub slash_selected_index: usize,
    pub category_index: usize,
    /// Width of the dock when it was last drawn, in columns.
    pub last_width: u16,
    pub pasted_blocks: Vec<PastedBlock>,
    pub next_block_id: usize,
}

impl Default for InputDock {
    /// The dock that `new` gives.
    fn default() -> (d: Self)
        ensures
            d.lines_view() == seq![Seq::<char>::empty()],
            ta_cursor(d.textarea) == (0nat, 0nat),
            d.slash_selected_index == 0,
            d.category_index == 0,
            d.pasted_blocks@.len() == 0,
            d.next_block_id == 1,
    {
        Self::new()
    }
}

impl InputDock {
    /// The lines typed into the dock.
    pub open spec fn lines_view(&self) -> Seq<Seq<char>> {
        ta_lines(self.textarea)
    }

    pub fn new() -> (d: Self)
        ensures
            d.lines_view() == seq![Seq::<char>::empty()],
            ta_cursor(d.textarea) == (0nat, 0nat),
            !ta_selecting(d.textarea),
            d.slash_selected_index == 0,
            d.category_index == 0,
            d.last_width == 80,
            d.pasted_blocks@.len() == 0,
            d.next_block_id == 1,
            ta_placeholder(d.textarea) == input_placeholder(),
    {
        let mut lines: Vec<String> = Vec::new();
        lines.push(String::new());
        assert(strings_view(lines@) =~= seq![Seq::<char>::empty()]);
        InputDock {
            textarea: textarea_with(lines, 0, 0, placeholder_text()),
            slash_selected_index: 0,
            category_index: 0,
            last_width: 80,
            pasted_blocks: Vec::new(),
            next_block_id: 1,
        }
    }

    pub(crate) fn first_line(&self) -> (r: String)
        ensures
            self.lines_view().len() >= 1,
            r@ == self.lines_view()[0],
    {
        let lines = textarea_lines(&self.textarea);
        assert(strings_view(lines@)[0] == lines@[0]@);
        lines[0].clone()
    }

    /// Returns the required dynamic height for the input dock (border top + lines + border
    /// bottom): the line count, between 1 and 5, plus 2.
    pub fn required_height(&self) -> (h: u16)
        ensures
            h == if self.lines_view().len() > 5 {
                5
            } else {
                self.lines_view().len()
            } + 2,
    {
        let n = textarea_lines(&self.textarea).len();
        let shown: u16 = if n > 5 {
            5
        } else {
            n as u16
        };
        shown + 2
    }

    /// Returns the full text in the input dock (joining lines with newline)
    pub fn get_text(&self) -> (r: String)
        ensures
            r@ == join_lines(self.lines_view()),
    {
        let lines = textarea_lines(&self.textarea);
        let ghost ls = strings_view(lines@);
        let mut out: Vec<char> = chars_of(lines[0].as_str());
        let mut i: usize = 1;
        assert(ls.take(1) =~= seq![ls[0]]);
        while i < lines.len()
            invariant
                1 <= i <= lines@.len(),
                ls == strings_view(lines@),
                out@ == join_lines(ls.take(i as int)),
            decreases lines@.len() - i,
        {
            out.push('\n');
            extend_chars(&mut out, &chars_of(lines[i].as_str()));
            assert(ls.take(i + 1).drop_last() =~= ls.take(i as int));
            i += 1;
        }
        assert(ls.take(lines@.len() as int) =~= ls);
        string_from_chars(&out)
    }

    /// Checks whether the input dock has no user text typed into it
    pub fn is_empty(&self) -> (b: bool)
        ensures
            b == forall|i: int|
                0 <= i < self.lines_view().len() ==> trim(#[trigger] self.lines_view()[i]).len() == 0,
    {
        let lines = textarea_lines(&self.textarea);
        let mut i: usize = 0;
        while i < lines.len()
            invariant
                i <= lines@.len(),
                strings_view(lines@) == self.lines_view(),
                forall|k: int| 0 <= k < i ==> trim(#[trigger] self.lines_view()[k]).len() == 0,
            decreases lines@.len() - i,
        {
            assert(self.lines_view()[i as int] == lines@[i as int]@);
            if !str_trim(lines[i].as_str()).as_str().is_empty() {
                return false;
            }
            i += 1;
        }
        true
    }

    /// Resolves the typed text against any collapsed paste blocks: the display text is the
    /// trimmed text, the full text has each block's placeholder replaced by its content.
    pub fn resolve_submission(&self, text: &str) -> (r: PromptSubmission)
        ensures
            r.display@ == trim(text@),
            r.full@ == expand_blocks(trim(text@), self.pasted_blocks@),
    {
        let display = str_trim(text);
        let mut full = chars_of(display.as_str());
        let mut i: usize = 0;
        assert(self.pasted_blocks@.skip(0) =~= self.pasted_blocks@);
        while i < self.pasted_blocks.len()
            invariant
                i <= self.pasted_blocks@.len(),
                expand_blocks(display@, self.pasted_blocks@) == expand_blocks(
                    full@,
                    self.pasted_blocks@.skip(i as int),
                ),
            decreases self.pasted_blocks@.len() - i,
        {
            let b = &self.pasted_blocks[i];
            assert(self.pasted_blocks@.skip(i as int).drop_first() =~= self.pasted_blocks@.skip(
                i + 1,
            ));
            assert(self.pasted_blocks@.skip(i as int)[0] == *b);
            let pat = chars_of(b.placeholder.as_str());
            match find_first_chars(&full, &pat) {
                Some(pos) => {
                    assert(occurs_at(full@, pat@, pos as int));
                    assert(pos + pat.len() <= full.len());
                    let mut next = slice_chars(&full, 0, pos);
                    extend_chars(&mut next, &chars_of(b.full_text.as_str()));
                    let tail = slice_chars(&full, pos + pat.len(), full.len());
                    extend_chars(&mut next, &tail);
                    assert(next@ =~= replace_first(full@, pat@, b.full_text@));
                    full = next;
                },
                None => {},
            }
            i += 1;
        }
        assert(self.pasted_blocks@.skip(i as int) =~= Seq::<PastedBlock>::empty());
        PromptSubmission { display, full: string_from_chars(&full) }
    }

    /// Checks if the input starts with '/' and is actively triggering the command palette
    pub fn has_active_slash_query(&self) -> (b: bool)
        ensures
            b == slash_query_active(self.lines_view()[0]),
    {
        let t = trim_chars(&chars_of(self.first_line().as_str()));
        if t.len() == 0 || t[0] != '/' {
            return false;
        }
        let mut i: usize = 0;
        while i < t.len()
            invariant
                i <= t@.len(),
                self.lines_view().len() >= 1,
                t@ == trim(self.lines_view()[0]),
                t@.len() > 0 && t@[0] == '/',
                forall|k: int| 0 <= k < i ==> t@[k] != ' ',
            decreases t@.len() - i,
        {
            if t[i] == ' ' {
                assert(t@[i as int] == ' ');
                assert(t@.contains(' '));
                return false;
            }
            i += 1;
        }
        true
    }

    /// Returns matching slash command candidates filtered by search query and active category
    pub fn matching_palette_commands(&self) -> (r: Vec<&'static PaletteCommand>)
        ensures
            r@.len() == matching_commands(self.lines_view()[0], self.category_index as nat).len(),
            forall|k: int|
                0 <= k < r@.len() ==> *r@[k] == matching_commands(
                    self.lines_view()[0],
                    self.category_index as nat,
                )[k],
    {
        let t = trim_chars(&chars_of(self.first_line().as_str()));
        if t.len() == 0 || t[0] != '/' {
            return Vec::new();
        }
        let rest = slice_chars(&t, 1, t.len());
        assert(rest@ =~= t@.drop_first());
        let q = str_to_lowercase(string_from_chars(&rest).as_str());
        let cats = CommandCategory::all();
        let cat = cats[self.category_index % 4];
        let cmds = palette_commands();
        let mut out: Vec<&'static PaletteCommand> = Vec::new();
        let mut i: usize = 0;
        while i < cmds.len()
            invariant
                i <= cmds@.len(),
                cmds@ == palette_view(),
                out@.len() == commands_matching(cmds@.take(i as int), cat, q@).len(),
                forall|k: int|
                    0 <= k < out@.len() ==> *out@[k] == commands_matching(
                        cmds@.take(i as int),
                        cat,
                        q@,
                    )[k],
            decreases cmds@.len() - i,
        {
            let c: &'static PaletteCommand = &cmds[i];
            let ok = command_matches_exec(c, cat, q.as_str());
            assert(cmds@.take(i + 1).drop_last() =~= cmds@.take(i as int));
            assert(cmds@.take(i + 1).last() == cmds@[i as int]);
            if ok {
                out.push(c);
            }
            i += 1;
        }
        assert(cmds@.take(cmds@.len() as int) =~= cmds@);
        out
    }

    /// Returns the currently selected palette command candidate: the one at the selection
    /// index, clamped to the last candidate.
    pub fn selected_palette_command(&self) -> (r: Option<&'static PaletteCommand>)
        ensures
            ({
                let m = matching_commands(self.lines_view()[0], self.category_index as nat);
                match r {
                    None => m.len() == 0,
                    Some(c) => m.len() > 0 && *c == m[if self.slash_selected_index < m.len() {
                        self.slash_selected_index as int
                    } else {
                        m.len() - 1
                    }],
                }
            }),
    {
        let matches = self.matching_palette_commands();
        if matches.len() == 0 {
            None
        } else {
            let idx = if self.slash_selected_index < matches.len() - 1 {
                self.slash_selected_index
            } else {
                matches.len() - 1
            };
            Some(matches[idx])
        }
    }

    /// Cycles the active category (Tab / BackTab) and resets the palette selection.
    pub fn cycle_category(&mut self, forward: bool)
        ensures
            final(self).category_index == if forward {
                ((old(self).category_index + 1) % 4) as usize
            } else if old(self).category_index == 0 {
                3
            } else {
                (old(self).category_index - 1) as usize
            },
            final(self).slash_selected_index == 0,
            final(self).textarea == old(self).textarea,
            final(self).last_width == old(self).last_width,
            final(self).pasted_blocks == old(self).pasted_blocks,
            final(self).next_block_id == old(self).next_block_id,
    {
        let total = CommandCategory::all().len();
        if forward {
            let ci = self.category_index;
            assert((ci % 4 + 1) % 4 == (ci + 1) % 4) by (nonlinear_arith);
            self.category_index = (self.category_index % total + 1) % total;
        } else if self.category_index == 0 {
            self.category_index = total - 1;
        } else {
            self.category_index = self.category_index - 1;
        }
        self.slash_selected_index = 0;
    }

    /// Resets the input dock textarea to an empty prompt state
    pub fn reset(&mut self)
        ensures
            is_reset(*old(self), *final(self)),
            ta_placeholder(final(self).textarea) == input_placeholder(),
    {
        let mut lines: Vec<String> = Vec::new();
        lines.push(String::new());
        assert(strings_view(lines@) =~= seq![Seq::<char>::empty()]);
        self.textarea = textarea_with(lines, 0, 0, placeholder_text());
        self.slash_selected_index = 0;
        self.pasted_blocks.clear();
        self.next_block_id = 1;
    }

    /// Automatically wraps lines that exceed the visible input dock width
    pub fn auto_wrap(&mut self)
        ensures
            (ta_lines(final(self).textarea), ta_cursor(final(self).textarea)) == wrapped(
                ta_lines(old(self).textarea),
                ta_cursor(old(self).textarea),
                old(self).last_width,
            ),
            !ta_selecting(old(self).textarea) ==> !ta_selecting(final(self).textarea),
            final(self).slash_selected_index == old(self).slash_selected_index,
            final(self).category_index == old(self).category_index,
            final(self).last_width == old(self).last_width,
            final(self).pasted_blocks == old(self).pasted_blocks,
            final(self).next_block_id == old(self).next_block_id,
    {
        if self.has_active_slash_query() {
            return;
        }
        let maxw = wrap_width_exec(self.last_width);
        let (crow, ccol) = textarea_cursor(&self.textarea);
        let mut lines = textarea_lines(&self.textarea);
        let (row, col, changed) = wrap_lines(&mut lines, crow, ccol, maxw);
        if changed {
            self.textarea = textarea_with(lines, row as u16, col as u16, placeholder_text());
        }
    }

    /// Handles bracketed paste events: up to 5 lines are typed in as they are; longer text is
    /// collapsed into a placeholder `[<preview> ..... +<n> lines]` and kept as a pasted block,
    /// to be expanded on submission.
    pub fn handle_paste(&mut self, text: &str)
        requires
            paste_collapses(text@) ==> old(self).next_block_id < usize::MAX,
        ensures
            text@.len() == 0 ==> *final(self) == *old(self),
            text@.len() > 0 ==> {
                &&& final(self).slash_selected_index == old(self).slash_selected_index
                &&& final(self).category_index == old(self).category_index
                &&& final(self).last_width == old(self).last_width
                &&& !ta_selecting(old(self).textarea) ==> !ta_selecting(final(self).textarea)
            },
            text@.len() > 0 && !paste_collapses(text@) ==> {
                &&& final(self).pasted_blocks == old(self).pasted_blocks
                &&& final(self).next_block_id == old(self).next_block_id
                &&& !ta_selecting(old(self).textarea) ==> (
                    ta_lines(final(self).textarea),
                    ta_cursor(final(self).textarea),
                ) == {
                    let parts = split_on(normalize_newlines(text@), '\n');
                    let typed = paste_prefix(
                        ta_lines(old(self).textarea),
                        ta_cursor(old(self).textarea),
                        parts,
                        parts.len(),
                    );
                    wrapped(typed.0, typed.1, old(self).last_width)
                }
            },
            paste_collapses(text@) ==> {
                let norm = normalize_newlines(text@);
                &&& final(self).pasted_blocks@ == old(self).pasted_blocks@.push(
                    PastedBlock {
                        id: old(self).next_block_id,
                        placeholder: final(self).pasted_blocks@.last().placeholder,
                        full_text: final(self).pasted_blocks@.last().full_text,
                        line_count: line_count(norm) as usize,
                    },
                )
                &&& final(self).pasted_blocks@.last().placeholder@ == paste_placeholder(norm)
                &&& final(self).pasted_blocks@.last().full_text@ == norm
                &&& final(self).next_block_id == old(self).next_block_id + 1
                &&& !ta_selecting(old(self).textarea) ==> (
                    ta_lines(final(self).textarea),
                    ta_cursor(final(self).textarea),
                ) == {
                    let a = after_insert(
                        ta_lines(old(self).textarea),
                        ta_cursor(old(self).textarea),
                        paste_placeholder(norm),
                    );
                    let b = after_insert(a.0, a.1, " "@);
                    wrapped(b.0, b.1, old(self).last_width)
                }
            },
    {
        if text.is_empty() {
            return;
        }
        let norm = normalize_newlines_exec(text);
        let n = count_lines(norm.as_str());
        if n <= 5 {
            let parts = split_chars(&chars_of(norm.as_str()), '\n');
            let ghost start = (ta_lines(self.textarea), ta_cursor(self.textarea));
            let ghost sel0 = ta_selecting(self.textarea);
            let ghost pv = vec_views(parts@);
            let mut i: usize = 0;
            while i < parts.len()
                invariant
                    i <= parts@.len(),
                    pv == vec_views(parts@),
                    pv == split_on(norm@, '\n'),
                    self.slash_selected_index == old(self).slash_selected_index,
                    self.category_index == old(self).category_index,
                    self.last_width == old(self).last_width,
                    self.pasted_blocks == old(self).pasted_blocks,
                    self.next_block_id == old(self).next_block_id,
                    sel0 == ta_selecting(old(self).textarea),
                    start == (ta_lines(old(self).textarea), ta_cursor(old(self).textarea)),
                    !sel0 ==> !ta_selecting(self.textarea),
                    !sel0 ==> (ta_lines(self.textarea), ta_cursor(self.textarea)) == paste_prefix(
                        start.0,
                        start.1,
                        pv,
                        i as nat,
                    ),
                decreases parts@.len() - i,
            {
                if i > 0 {
                    buffer_insert_newline(&mut self.textarea);
                }
                let part = string_from_chars(&parts[i]);
                assert(part@ == pv[i as int]);
                buffer_insert_str(&mut self.textarea, part.as_str());
                i += 1;
            }
            self.auto_wrap();
        } else {
            let placeholder = paste_placeholder_exec(norm.as_str(), n);
            let block_id = self.next_block_id;
            self.next_block_id = self.next_block_id + 1;
            let block = PastedBlock {
                id: block_id,
                placeholder: placeholder.clone(),
                full_text: norm,
                line_count: n,
            };
            self.pasted_blocks.push(block);
            buffer_insert_str(&mut self.textarea, placeholder.as_str());
            buffer_insert_str(&mut self.textarea, " ");
            self.auto_wrap();
        }
    }

    /// Handles a key press: the palette, newline and submission bindings of the dock, else
    /// the text area's own bindings for the key.
    pub fn handle_key(&mut self, key: KeyInput) -> (r: Option<PromptSubmission>)
        ensures
            key_outcome(*old(self), key, *final(self), r),
    {
        if key.release {
            return None;
        }
        let is_slash_open = self.has_active_slash_query();
        let matching = self.matching_palette_commands();
        if is_slash_open && key.kind == KeyKind::Esc {
            self.reset();
            return None;
        }
        if is_slash_open && matching.len() > 0 {
            if key.kind == KeyKind::Up {
                self.slash_selected_index = if self.slash_selected_index > 0 {
                    self.slash_selected_index - 1
                } else {
                    0
                };
                return None;
            }
            if key.kind == KeyKind::Down {
                if self.slash_selected_index < matching.len() - 1 {
                    self.slash_selected_index = self.slash_selected_index + 1;
                }
                return None;
            }
        }
        if is_slash_open && key.kind == KeyKind::Tab {
            self.cycle_category(true);
            return None;
        }
        if is_slash_open && key.kind == KeyKind::BackTab {
            self.cycle_category(false);
            return None;
        }
        if key.kind == KeyKind::Enter && (key.shift || key.alt || key.control) {
            buffer_insert_newline(&mut self.textarea);
            self.auto_wrap();
            return None;
        }
        if key.kind == KeyKind::Char('j') && key.control_only {
            buffer_insert_newline(&mut self.textarea);
            self.auto_wrap();
            return None;
        }
        if key.kind == KeyKind::Enter {
            let text = self.get_text();
            let trimmed = str_trim(text.as_str());
            let final_prompt: String = if is_slash_open && matching.len() > 0 {
                match self.selected_palette_command() {
                    Some(cmd) => cmd.slash_name.to_owned(),
                    None => trimmed,
                }
            } else {
                trimmed
            };
            if !final_prompt.as_str().is_empty() {
                let submission = if is_slash_open {
                    PromptSubmission { display: final_prompt.clone(), full: final_prompt }
                } else {
                    self.resolve_submission(final_prompt.as_str())
                };
                self.reset();
                return Some(submission);
            } else {
                return None;
            }
        }
        buffer_input(&mut self.textarea, key);
        let new_matches = self.matching_palette_commands();
        if self.slash_selected_index >= new_matches.len() {
            self.slash_selected_index = if new_matches.len() > 0 {
                new_matches.len() - 1
            } else {
                0
            };
        }
        self.auto_wrap();
        None
    }
}

fn contains_lower(hay: &str, q: &str) -> (b: bool)
    ensures
        b == seq_contains(lowercase(hay@), q@),
{
    let h = str_to_lowercase(hay);
    chars_contains(&chars_of(h.as_str()), &chars_of(q))
}

fn command_matches_exec(c: &PaletteCommand, cat: CommandCategory, q: &str) -> (b: bool)
    ensures
        b == command_matches(*c, cat, q@),
{
    let in_category = match cat {
        CommandCategory::All => true,
        _ => c.category == cat,
    };
    if !in_category {
        return false;
    }
    if q.is_empty() {
        return true;
    }
    if contains_lower(c.title, q) {
        return true;
    }
    let name = string_from_chars(&strip_leading_exec(c.slash_name, '/'));
    if contains_lower(name.as_str(), q) {
        return true;
    }
    if contains_lower(c.description, q) {
        return true;
    }
    match c.shortcut {
        Some(s) => contains_lower(s, q),
        None => false,
    }
}

} // verus!
