//! Spinner styles, animation choices and classification of agent activity.

use vstd::prelude::*;
use crate::json::{json_lookup, lookup_json_field, JsonField, JsonLookup};
use crate::text::{
    ascii_lower_chars, ascii_lower_seq, chars_contains, chars_eq, chars_of, seq_contains, slice_chars, str_eq, string_from_chars, trim, trim_chars,
};
use crate::tools::{concat2, concat3};
use crate::ui::styled::{
    fg_bold, span_str, span_view, style_fg_bold, SpanStyle, StyledSpan, ThemeColor,
};

verus! {

/// Supported loading animation styles selectable by the user in /theme.
#[derive(Debug, Clone, Copy, PartialEq, Eq, Structural)]
pub enum SpinnerStyle {
    DualPillars,
    Quadrants,
    PulseMatrix,
    Concentric,
    BrailleWave,
    CornerAngles,
    ScannerBar,
    ParticleOrbit,
}

/// Identifier of a spinner style.
pub open spec fn spinner_id(s: SpinnerStyle) -> Seq<char> {
    match s {
        SpinnerStyle::DualPillars => "dual_pillars"@,
        SpinnerStyle::Quadrants => "quadrants"@,
        SpinnerStyle::PulseMatrix => "pulse_matrix"@,
        SpinnerStyle::Concentric => "concentric"@,
        SpinnerStyle::BrailleWave => "braille_wave"@,
        SpinnerStyle::CornerAngles => "corner_angles"@,
        SpinnerStyle::ScannerBar => "scanner_bar"@,
        SpinnerStyle::ParticleOrbit => "particle_orbit"@,
    }
}

/// Spinner style named by an identifier; unknown identifiers (and `dual_pillars`) give the
/// default `DualPillars`.
pub open spec fn spinner_from_id(id: Seq<char>) -> SpinnerStyle {
    if id == "quadrants"@ {
        SpinnerStyle::Quadrants
    } else if id == "pulse_matrix"@ {
        SpinnerStyle::PulseMatrix
    } else if id == "concentric"@ {
        SpinnerStyle::Concentric
    } else if id == "braille_wave"@ {
        SpinnerStyle::BrailleWave
    } else if id == "corner_angles"@ {
        SpinnerStyle::CornerAngles
    } else if id == "scanner_bar"@ {
        SpinnerStyle::ScannerBar
    } else if id == "particle_orbit"@ {
        SpinnerStyle::ParticleOrbit
    } else {
        SpinnerStyle::DualPillars
    }
}

impl SpinnerStyle {
    pub fn from_id(id: &str) -> (r: Self)
        ensures
            r == spinner_from_id(id@),
    {
        if str_eq(id, "quadrants") {
            SpinnerStyle::Quadrants
        } else if str_eq(id, "pulse_matrix") {
            SpinnerStyle::PulseMatrix
        } else if str_eq(id, "concentric") {
            SpinnerStyle::Concentric
        } else if str_eq(id, "braille_wave") {
            SpinnerStyle::BrailleWave
        } else if str_eq(id, "corner_angles") {
            SpinnerStyle::CornerAngles
        } else if str_eq(id, "scanner_bar") {
            SpinnerStyle::ScannerBar
        } else if str_eq(id, "particle_orbit") {
            SpinnerStyle::ParticleOrbit
        } else {
            SpinnerStyle::DualPillars
        }
    }

    pub fn to_id(self) -> (r: &'static str)
        ensures
            r@ == spinner_id(self),
    {
        match self {
            SpinnerStyle::DualPillars => "dual_pillars",
            SpinnerStyle::Quadrants => "quadrants",
            SpinnerStyle::PulseMatrix => "pulse_matrix",
            SpinnerStyle::Concentric => "concentric",
            SpinnerStyle::BrailleWave => "braille_wave",
            SpinnerStyle::CornerAngles => "corner_angles",
            SpinnerStyle::ScannerBar => "scanner_bar",
            SpinnerStyle::ParticleOrbit => "particle_orbit",
        }
    }
}

/// Every style survives the round trip through its identifier.
pub proof fn lemma_spinner_id_roundtrip(s: SpinnerStyle)
    ensures
        spinner_from_id(spinner_id(s)) == s,
{
    reveal_strlit("dual_pillars");
    reveal_strlit("quadrants");
    reveal_strlit("pulse_matrix");
    reveal_strlit("concentric");
    reveal_strlit("braille_wave");
    reveal_strlit("corner_angles");
    reveal_strlit("scanner_bar");
    reveal_strlit("particle_orbit");
    assert("dual_pillars"@[0] == 'd' && "dual_pillars"@.len() == 12);
    assert("quadrants"@[0] == 'q' && "quadrants"@.len() == 9);
    assert("pulse_matrix"@[0] == 'p' && "pulse_matrix"@.len() == 12);
    assert("concentric"@[0] == 'c' && "concentric"@.len() == 10);
    assert("braille_wave"@[0] == 'b' && "braille_wave"@.len() == 12);
    assert("corner_angles"@[0] == 'c' && "corner_angles"@.len() == 13);
    assert("scanner_bar"@[0] == 's' && "scanner_bar"@.len() == 11);
    assert("particle_orbit"@[0] == 'p' && "particle_orbit"@.len() == 14);
}

/// Metadata for selectable animations in the /theme modal.
#[derive(Debug, Clone, Copy)]
pub struct AnimationOption {
    pub id: &'static str,
    pub name: &'static str,
    pub description: &'static str,
    pub style: SpinnerStyle,
}

/// The selectable animations, in display order.
pub open spec fn animation_options_view() -> Seq<AnimationOption> {
    seq![
        AnimationOption {
            id: "dual_pillars",
            name: "MiniCode Dual-Pillars",
            description: "Stepped brand logo pillars with dynamic dual-color lighting",
            style: SpinnerStyle::DualPillars,
        },
        AnimationOption {
            id: "quadrants",
            name: "Rotating Quadrants",
            description: "Smooth 2x2 corner-orbit rotating square blocks",
            style: SpinnerStyle::Quadrants,
        },
        AnimationOption {
            id: "pulse_matrix",
            name: "Cyber Pulse Block",
            description: "High-tech breathing block density matrix",
            style: SpinnerStyle::PulseMatrix,
        },
        AnimationOption {
            id: "concentric",
            name: "Concentric Squares",
            description: "Nested geometric expanding and contracting boxes",
            style: SpinnerStyle::Concentric,
        },
        AnimationOption {
            id: "braille_wave",
            name: "Orbital Dots Wave",
            description: "Classic high-speed smooth Braille orbital spinner",
            style: SpinnerStyle::BrailleWave,
        },
        AnimationOption {
            id: "corner_angles",
            name: "Rotating Corner Frames",
            description: "Precision geometric corner frame quadrants",
            style: SpinnerStyle::CornerAngles,
        },
        AnimationOption {
            id: "scanner_bar",
            name: "Horizontal Pulse Bar",
            description: "Progressive horizontal block scanning beam",
            style: SpinnerStyle::ScannerBar,
        },
        AnimationOption {
            id: "particle_orbit",
            name: "Quantum Satellite",
            description: "Dual revolving particle dot satellites",
            style: SpinnerStyle::ParticleOrbit,
        },
    ]
}

/// The selectable animations, in display order.
pub fn animation_options() -> (r: &'static [AnimationOption])
    ensures
        r@ == animation_options_view(),
{
    &[
        AnimationOption {
            id: "dual_pillars",
            name: "MiniCode Dual-Pillars",
            description: "Stepped brand logo pillars with dynamic dual-color lighting",
            style: SpinnerStyle::DualPillars,
        },
        AnimationOption {
            id: "quadrants",
            name: "Rotating Quadrants",
            description: "Smooth 2x2 corner-orbit rotating square blocks",
            style: SpinnerStyle::Quadrants,
        },
        AnimationOption {
            id: "pulse_matrix",
            name: "Cyber Pulse Block",
            description: "High-tech breathing block density matrix",
            style: SpinnerStyle::PulseMatrix,
        },
        AnimationOption {
            id: "concentric",
            name: "Concentric Squares",
            description: "Nested geometric expanding and contracting boxes",
            style: SpinnerStyle::Concentric,
        },
        AnimationOption {
            id: "braille_wave",
            name: "Orbital Dots Wave",
            description: "Classic high-speed smooth Braille orbital spinner",
            style: SpinnerStyle::BrailleWave,
        },
        AnimationOption {
            id: "corner_angles",
            name: "Rotating Corner Frames",
            description: "Precision geometric corner frame quadrants",
            style: SpinnerStyle::CornerAngles,
        },
        AnimationOption {
            id: "scanner_bar",
            name: "Horizontal Pulse Bar",
            description: "Progressive horizontal block scanning beam",
            style: SpinnerStyle::ScannerBar,
        },
        AnimationOption {
            id: "particle_orbit",
            name: "Quantum Satellite",
            description: "Dual revolving particle dot satellites",
            style: SpinnerStyle::ParticleOrbit,
        },
    ]
}

/// Represents the specific activity the agent is executing.
#[derive(Debug, Clone, PartialEq, Eq)]
pub enum AgentActivity {
    Thinking,
    InternetResearch { query: String },
    RepoResearch { target: String },
    EditingFile { path: String },
    Debugging { step: String },
    ExecutingCommand { command: String },
    SubagentWorking { role: String },
    CompactingContext,
}

/// Abstract view of an activity.
pub enum ActivityView {
    Thinking,
    InternetResearch(Seq<char>),
    RepoResearch(Seq<char>),
    EditingFile(Seq<char>),
    Debugging(Seq<char>),
    ExecutingCommand(Seq<char>),
    SubagentWorking(Seq<char>),
    CompactingContext,
}

pub open spec fn activity_view(a: AgentActivity) -> ActivityView {
    match a {
        AgentActivity::Thinking => ActivityView::Thinking,
        AgentActivity::InternetResearch { query } => ActivityView::InternetResearch(query@),
        AgentActivity::RepoResearch { target } => ActivityView::RepoResearch(target@),
        AgentActivity::EditingFile { path } => ActivityView::EditingFile(path@),
        AgentActivity::Debugging { step } => ActivityView::Debugging(step@),
        AgentActivity::ExecutingCommand { command } => ActivityView::ExecutingCommand(command@),
        AgentActivity::SubagentWorking { role } => ActivityView::SubagentWorking(role@),
        AgentActivity::CompactingContext => ActivityView::CompactingContext,
    }
}

/// Text of at most 36 characters: longer text is cut to 33 characters and `...`.
pub open spec fn shorten(s: Seq<char>) -> Seq<char> {
    if s.len() > 36 {
        s.take(33) + seq!['.', '.', '.']
    } else {
        s
    }
}

/// The first of `keys` whose JSON value is a non-blank string, trimmed and shortened, or
/// `default`.
pub open spec fn extract_arg(args: Seq<char>, keys: Seq<Seq<char>>, default: Seq<char>) -> Seq<char>
    decreases keys.len(),
{
    if keys.len() == 0 {
        default
    } else {
        match json_lookup(args, keys[0]) {
            JsonLookup::Str(v) => if trim(v).len() > 0 {
                shorten(trim(v))
            } else {
                extract_arg(args, keys.drop_first(), default)
            },
            _ => extract_arg(args, keys.drop_first(), default),
        }
    }
}

/// Web research tools.
pub open spec fn is_web_tool(t: Seq<char>) -> bool {
    ||| t == "search_web"@
    ||| t == "fetch_or_browse"@
    ||| t == "browser_navigate"@
    ||| seq_contains(t, "web"@)
    ||| seq_contains(t, "fetch"@)
    ||| seq_contains(t, "browse"@)
}

/// File editing tools.
pub open spec fn is_edit_tool(t: Seq<char>) -> bool {
    ||| t == "patch_file"@
    ||| t == "write_file"@
    ||| t == "create_file"@
    ||| t == "replace_file_content"@
    ||| t == "edit_file"@
    ||| seq_contains(t, "patch"@)
}

/// Command execution tools.
pub open spec fn is_exec_tool(t: Seq<char>) -> bool {
    ||| t == "exec_cmd"@
    ||| t == "sandbox_exec"@
    ||| t == "run_command"@
    ||| t == "execute_command"@
}

/// Subagent tools.
pub open spec fn is_subagent_tool(t: Seq<char>) -> bool {
    seq_contains(t, "subagent"@) || seq_contains(t, "swarm"@)
}

/// Codebase research tools.
pub open spec fn is_repo_tool(t: Seq<char>) -> bool {
    ||| t == "read_file"@
    ||| t == "find_files"@
    ||| t == "grep_search"@
    ||| t == "code_graph"@
    ||| t == "semantic_search"@
    ||| t == "repomap"@
    ||| t == "recall_query"@
    ||| t == "explore_codebase"@
    ||| seq_contains(t, "graph"@)
    ||| seq_contains(t, "search"@)
    ||| seq_contains(t, "explore"@)
}

/// Commands that check, test, lint or diff count as debugging.
pub open spec fn is_debug_command(c: Seq<char>) -> bool {
    ||| seq_contains(c, "check"@)
    ||| seq_contains(c, "test"@)
    ||| seq_contains(c, "lint"@)
    ||| seq_contains(c, "clippy"@)
    ||| seq_contains(c, "tsc"@)
    ||| seq_contains(c, "pytest"@)
    ||| seq_contains(c, "vitest"@)
    ||| seq_contains(c, "diff"@)
}

/// The family of a tool, by its ASCII lower-cased name.
#[derive(Debug, Clone, Copy, PartialEq, Eq, Structural)]
pub enum ToolKind {
    Web,
    Edit,
    Exec,
    Subagent,
    Repo,
    Other,
}

/// The family of a tool: web research, file editing, command execution, subagents,
/// codebase research, in that order of precedence, else another tool.
pub open spec fn tool_kind_spec(tool: Seq<char>) -> ToolKind {
    let t = ascii_lower_seq(tool);
    if is_web_tool(t) {
        ToolKind::Web
    } else if is_edit_tool(t) {
        ToolKind::Edit
    } else if is_exec_tool(t) {
        ToolKind::Exec
    } else if is_subagent_tool(t) {
        ToolKind::Subagent
    } else if is_repo_tool(t) {
        ToolKind::Repo
    } else {
        ToolKind::Other
    }
}

/// The JSON argument keys read for a tool family, in order of preference.
pub open spec fn kind_keys(k: ToolKind) -> Seq<Seq<char>> {
    match k {
        ToolKind::Web => seq!["query"@, "url"@],
        ToolKind::Edit => seq!["path"@, "file_path"@, "target"@],
        ToolKind::Exec => seq!["command"@, "cmd"@],
        ToolKind::Subagent => seq!["role"@, "name"@, "task"@],
        ToolKind::Repo => seq!["query"@, "path"@, "symbol"@, "name"@],
        ToolKind::Other => seq![],
    }
}

/// The text shown when no argument key holds a usable string.
pub open spec fn kind_default(k: ToolKind) -> Seq<char> {
    match k {
        ToolKind::Web => "web query"@,
        ToolKind::Edit => "file"@,
        ToolKind::Exec => "command"@,
        ToolKind::Subagent => "agent task"@,
        ToolKind::Repo => "codebase"@,
        ToolKind::Other => seq![],
    }
}

/// Activity of a tool of family `k` named `tool` whose looked-up argument is `arg`; a
/// command that checks, tests, lints or diffs is debugging, another tool is shown by name.
pub open spec fn activity_from(k: ToolKind, tool: Seq<char>, arg: Seq<char>) -> ActivityView {
    match k {
        ToolKind::Web => ActivityView::InternetResearch(arg),
        ToolKind::Edit => ActivityView::EditingFile(arg),
        ToolKind::Exec => if is_debug_command(ascii_lower_seq(arg)) {
            ActivityView::Debugging(arg)
        } else {
            ActivityView::ExecutingCommand(arg)
        },
        ToolKind::Subagent => ActivityView::SubagentWorking(arg),
        ToolKind::Repo => ActivityView::RepoResearch(arg),
        ToolKind::Other => ActivityView::ExecutingCommand(tool),
    }
}

/// Activity of a tool call, by its (ASCII lower-cased) name and JSON arguments.
pub open spec fn classify_activity(tool: Seq<char>, args: Seq<char>) -> ActivityView {
    let k = tool_kind_spec(tool);
    activity_from(k, tool, extract_arg(args, kind_keys(k), kind_default(k)))
}

/// Texts of a list of keys.
pub open spec fn key_views(keys: Seq<&str>) -> Seq<Seq<char>> {
    keys.map_values(|k: &str| k@)
}

fn has(t: &Vec<char>, lit: &str) -> (b: bool)
    ensures
        b == seq_contains(t@, lit@),
{
    chars_contains(t, &chars_of(lit))
}

fn is(t: &Vec<char>, lit: &str) -> (b: bool)
    ensures
        b == (t@ == lit@),
{
    chars_eq(t, &chars_of(lit))
}

/// The family of a tool by its name.
pub fn tool_kind(tool: &str) -> (k: ToolKind)
    ensures
        k == tool_kind_spec(tool@),
{
    let t = ascii_lower_chars(&chars_of(tool));
    if is(&t, "search_web") || is(&t, "fetch_or_browse") || is(&t, "browser_navigate") || has(
        &t,
        "web",
    ) || has(&t, "fetch") || has(&t, "browse") {
        ToolKind::Web
    } else if is(&t, "patch_file") || is(&t, "write_file") || is(&t, "create_file") || is(
        &t,
        "replace_file_content",
    ) || is(&t, "edit_file") || has(&t, "patch") {
        ToolKind::Edit
    } else if is(&t, "exec_cmd") || is(&t, "sandbox_exec") || is(&t, "run_command") || is(
        &t,
        "execute_command",
    ) {
        ToolKind::Exec
    } else if has(&t, "subagent") || has(&t, "swarm") {
        ToolKind::Subagent
    } else if is(&t, "read_file") || is(&t, "find_files") || is(&t, "grep_search") || is(
        &t,
        "code_graph",
    ) || is(&t, "semantic_search") || is(&t, "repomap") || is(&t, "recall_query") || is(
        &t,
        "explore_codebase",
    ) || has(&t, "graph") || has(&t, "search") || has(&t, "explore") {
        ToolKind::Repo
    } else {
        ToolKind::Other
    }
}

impl AgentActivity {
    /// Classifies a tool call and its JSON arguments into an activity.
    pub fn from_tool_call(tool: &str, args_str: &str) -> (r: Self)
        ensures
            activity_view(r) == classify_activity(tool@, args_str@),
    {
        let k = tool_kind(tool);
        let arg = match k {
            ToolKind::Web => {
                let keys: [&str; 2] = ["query", "url"];
                assert(key_views(keys@) =~= kind_keys(k));
                Self::extract_arg_or_default(args_str, &keys, "web query")
            },
            ToolKind::Edit => {
                let keys: [&str; 3] = ["path", "file_path", "target"];
                assert(key_views(keys@) =~= kind_keys(k));
                Self::extract_arg_or_default(args_str, &keys, "file")
            },
            ToolKind::Exec => {
                let keys: [&str; 2] = ["command", "cmd"];
                assert(key_views(keys@) =~= kind_keys(k));
                Self::extract_arg_or_default(args_str, &keys, "command")
            },
            ToolKind::Subagent => {
                let keys: [&str; 3] = ["role", "name", "task"];
                assert(key_views(keys@) =~= kind_keys(k));
                Self::extract_arg_or_default(args_str, &keys, "agent task")
            },
            ToolKind::Repo => {
                let keys: [&str; 4] = ["query", "path", "symbol", "name"];
                assert(key_views(keys@) =~= kind_keys(k));
                Self::extract_arg_or_default(args_str, &keys, "codebase")
            },
            ToolKind::Other => {
                let keys: [&str; 0] = [];
                assert(key_views(keys@) =~= kind_keys(k));
                Self::extract_arg_or_default(args_str, &keys, "")
            },
        };
        Self::from_tool_kind(k, tool, arg)
    }

    /// The activity of a tool of family `k` named `tool`, given the argument text looked up
    /// in its call.
    pub fn from_tool_kind(k: ToolKind, tool: &str, arg: String) -> (r: Self)
        ensures
            activity_view(r) == activity_from(k, tool@, arg@),
    {
        match k {
            ToolKind::Web => AgentActivity::InternetResearch { query: arg },
            ToolKind::Edit => AgentActivity::EditingFile { path: arg },
            ToolKind::Exec => {
                let c = ascii_lower_chars(&chars_of(arg.as_str()));
                if has(&c, "check") || has(&c, "test") || has(&c, "lint") || has(&c, "clippy")
                    || has(&c, "tsc") || has(&c, "pytest") || has(&c, "vitest") || has(&c, "diff") {
                    AgentActivity::Debugging { step: arg }
                } else {
                    AgentActivity::ExecutingCommand { command: arg }
                }
            },
            ToolKind::Subagent => AgentActivity::SubagentWorking { role: arg },
            ToolKind::Repo => AgentActivity::RepoResearch { target: arg },
            ToolKind::Other => AgentActivity::ExecutingCommand { command: tool.to_owned() },
        }
    }

    /// The first of `keys` holding a non-blank string in the JSON arguments, trimmed and
    /// shortened to 36 characters, or `default`.
    fn extract_arg_or_default(args_str: &str, keys: &[&str], default: &str) -> (r: String)
        ensures
            r@ == extract_arg(args_str@, key_views(keys@), default@),
    {
        let ghost kv = key_views(keys@);
        assert(kv.skip(0) =~= kv);
        let mut i: usize = 0;
        while i < keys.len()
            invariant
                i <= keys@.len(),
                kv == key_views(keys@),
                extract_arg(args_str@, kv, default@) == extract_arg(
                    args_str@,
                    kv.skip(i as int),
                    default@,
                ),
            decreases keys@.len() - i,
        {
            let ghost rest = kv.skip(i as int);
            assert(rest[0] == keys@[i as int]@);
            assert(rest.drop_first() =~= kv.skip(i + 1));
            match lookup_json_field(args_str, keys[i]) {
                JsonField::Str(val) => {
                    let s = trim_chars(&chars_of(val.as_str()));
                    if s.len() > 0 {
                        if s.len() > 36 {
                            let mut out = slice_chars(&s, 0, 33);
                            out.push('.');
                            out.push('.');
                            out.push('.');
                            assert(out@ =~= s@.take(33) + seq!['.', '.', '.']);
                            return string_from_chars(&out);
                        } else {
                            return string_from_chars(&s);
                        }
                    }
                },
                _ => {},
            }
            i += 1;
        }
        assert(kv.skip(i as int) =~= Seq::<Seq<char>>::empty());
        default.to_owned()
    }
}

/// Title of the live activity line and the two colours its shimmer moves between.
pub open spec fn activity_title(a: ActivityView) -> (Seq<char>, ThemeColor, ThemeColor) {
    match a {
        ActivityView::Thinking => ("Thinking..."@, ThemeColor::BrandAccent, ThemeColor::Highlight),
        ActivityView::InternetResearch(q) => (
            "Searching web: \""@ + q + "\"..."@,
            ThemeColor::Info,
            ThemeColor::Success,
        ),
        ActivityView::RepoResearch(t) => (
            "Researching repo: "@ + t + "..."@,
            ThemeColor::BrandAccent,
            ThemeColor::Info,
        ),
        ActivityView::EditingFile(p) => (
            "Applying edits to "@ + p + "..."@,
            ThemeColor::Warning,
            ThemeColor::BrandAccent,
        ),
        ActivityView::Debugging(st) => (
            "Debugging & verifying: "@ + st + "..."@,
            ThemeColor::Success,
            ThemeColor::Warning,
        ),
        ActivityView::ExecutingCommand(c) => (
            "Executing: "@ + c + "..."@,
            ThemeColor::Info,
            ThemeColor::TextPrimary,
        ),
        ActivityView::SubagentWorking(r) => (
            "Subagent active: "@ + r + "..."@,
            ThemeColor::Highlight,
            ThemeColor::BrandAccent,
        ),
        ActivityView::CompactingContext => (
            "Compacting conversation memory..."@,
            ThemeColor::Muted,
            ThemeColor::TextPrimary,
        ),
    }
}

impl AgentActivity {
    /// The title of the live activity line and its two shimmer colours.
    pub fn live_title(&self) -> (r: (String, ThemeColor, ThemeColor))
        ensures
            (r.0@, r.1, r.2) == activity_title(activity_view(*self)),
    {
        match self {
            AgentActivity::Thinking => (
                "Thinking...".to_owned(),
                ThemeColor::BrandAccent,
                ThemeColor::Highlight,
            ),
            AgentActivity::InternetResearch { query } => (
                concat3("Searching web: \"", query.as_str(), "\"..."),
                ThemeColor::Info,
                ThemeColor::Success,
            ),
            AgentActivity::RepoResearch { target } => (
                concat3("Researching repo: ", target.as_str(), "..."),
                ThemeColor::BrandAccent,
                ThemeColor::Info,
            ),
            AgentActivity::EditingFile { path } => (
                concat3("Applying edits to ", path.as_str(), "..."),
                ThemeColor::Warning,
                ThemeColor::BrandAccent,
            ),
            AgentActivity::Debugging { step } => (
                concat3("Debugging & verifying: ", step.as_str(), "..."),
                ThemeColor::Success,
                ThemeColor::Warning,
            ),
            AgentActivity::ExecutingCommand { command } => (
                concat3("Executing: ", command.as_str(), "..."),
                ThemeColor::Info,
                ThemeColor::TextPrimary,
            ),
            AgentActivity::SubagentWorking { role } => (
                concat3("Subagent active: ", role.as_str(), "..."),
                ThemeColor::Highlight,
                ThemeColor::BrandAccent,
            ),
            AgentActivity::CompactingContext => (
                "Compacting conversation memory...".to_owned(),
                ThemeColor::Muted,
                ThemeColor::TextPrimary,
            ),
        }
    }
}

/// Colour of a spinner glyph: a theme role, or the first or second colour of the activity.
#[derive(Debug, Clone, Copy, PartialEq, Eq, Structural)]
pub enum GlyphColor {
    Role(ThemeColor),
    First,
    Second,
}

/// Frames of the single-glyph spinners.
pub open spec fn frame_table(style: SpinnerStyle) -> Seq<Seq<char>> {
    match style {
        SpinnerStyle::Quadrants => seq!["▖"@, "▘"@, "▝"@, "▗"@],
        SpinnerStyle::PulseMatrix => seq!["░"@, "▒"@, "▓"@, "█"@, "▓"@, "▒"@],
        SpinnerStyle::Concentric => seq!["▫"@, "◽"@, "◻"@, "⬜"@, "◻"@, "◽"@],
        SpinnerStyle::BrailleWave => seq![
            "⠋"@, "⠙"@, "⠹"@, "⠸"@, "⠼"@, "⠴"@, "⠦"@, "⠧"@, "⠇"@, "⠏"@,
        ],
        SpinnerStyle::CornerAngles => seq!["◰"@, "◳"@, "◲"@, "◱"@],
        SpinnerStyle::ScannerBar => seq![
            "▏"@, "▎"@, "▍"@, "▌"@, "▋"@, "▊"@, "▉"@, "█"@, "▉"@, "▊"@, "▋"@, "▌"@, "▍"@, "▎"@,
        ],
        SpinnerStyle::ParticleOrbit => seq!["⠋"@, "⠙"@, "⠚"@, "⠞"@, "⠦"@, "⠴"@, "⠲"@, "⠳"@],
        SpinnerStyle::DualPillars => seq![],
    }
}

/// Left and right pillar of each frame of the dual-pillars spinner.
pub open spec fn pillar_frames() -> Seq<(Seq<char>, Seq<char>)> {
    seq![("▰"@, "▱"@), ("▰"@, "▰"@), ("▱"@, "▰"@), ("▱"@, "▱"@)]
}

/// Milliseconds each frame of a spinner lasts; `frame_ms` is the interface's frame period.
pub open spec fn frame_period(style: SpinnerStyle, frame_ms: nat) -> nat {
    match style {
        SpinnerStyle::DualPillars => 120,
        SpinnerStyle::Quadrants => frame_ms,
        SpinnerStyle::PulseMatrix => 100,
        SpinnerStyle::Concentric => 120,
        SpinnerStyle::BrailleWave => frame_ms,
        SpinnerStyle::CornerAngles => 100,
        SpinnerStyle::ScannerBar => 70,
        SpinnerStyle::ParticleOrbit => frame_ms,
    }
}

/// The spinner's glyphs at time `millis`: for the dual pillars a filled left pillar in the
/// accent colour and a filled right one in the info colour (empty ones muted); for the
/// others one glyph in the activity's first colour (the second for the particle orbit).
/// Each glyph run ends with two spaces before the title.
pub open spec fn spinner_glyphs(style: SpinnerStyle, millis: nat, frame_ms: nat) -> Seq<
    (Seq<char>, GlyphColor),
> {
    let step = millis / frame_period(style, frame_ms);
    if style == SpinnerStyle::DualPillars {
        let (l, r) = pillar_frames()[(step % 4) as int];
        seq![
            (l, if l == "▰"@ {
                GlyphColor::Role(ThemeColor::BrandAccent)
            } else {
                GlyphColor::Role(ThemeColor::Muted)
            }),
            (r + "  "@, if r == "▰"@ {
                GlyphColor::Role(ThemeColor::Info)
            } else {
                GlyphColor::Role(ThemeColor::Muted)
            }),
        ]
    } else {
        let frames = frame_table(style);
        seq![
            (frames[(step % frames.len()) as int] + "  "@, if style == SpinnerStyle::ParticleOrbit {
                GlyphColor::Second
            } else {
                GlyphColor::First
            }),
        ]
    }
}

fn frames_of(style: SpinnerStyle) -> (r: &'static [&'static str])
    requires
        style != SpinnerStyle::DualPillars,
    ensures
        r@.map_values(|f: &str| f@) == frame_table(style),
        r@.len() > 0,
{
    let r: &'static [&'static str] = match style {
        SpinnerStyle::Quadrants => &["▖", "▘", "▝", "▗"],
        SpinnerStyle::PulseMatrix => &["░", "▒", "▓", "█", "▓", "▒"],
        SpinnerStyle::Concentric => &["▫", "◽", "◻", "⬜", "◻", "◽"],
        SpinnerStyle::BrailleWave => &["⠋", "⠙", "⠹", "⠸", "⠼", "⠴", "⠦", "⠧", "⠇", "⠏"],
        SpinnerStyle::CornerAngles => &["◰", "◳", "◲", "◱"],
        SpinnerStyle::ScannerBar => &[
            "▏", "▎", "▍", "▌", "▋", "▊", "▉", "█", "▉", "▊", "▋", "▌", "▍", "▎",
        ],
        _ => &["⠋", "⠙", "⠚", "⠞", "⠦", "⠴", "⠲", "⠳"],
    };
    assert(r@.map_values(|f: &str| f@) =~= frame_table(style));
    r
}

/// The spinner's glyph runs at time `millis`, each with its colour; `frame_ms` is the
/// interface's frame period.
pub fn render_spinner_spans(style: SpinnerStyle, millis: u64, frame_ms: u64) -> (r: Vec<(String, GlyphColor)>)
    requires
        frame_ms > 0,
    ensures
        r@.map_values(|g: (String, GlyphColor)| (g.0@, g.1)) == spinner_glyphs(
            style,
            millis as nat,
            frame_ms as nat,
        ),
{
    let period: u64 = match style {
        SpinnerStyle::DualPillars => 120,
        SpinnerStyle::Quadrants => frame_ms,
        SpinnerStyle::PulseMatrix => 100,
        SpinnerStyle::Concentric => 120,
        SpinnerStyle::BrailleWave => frame_ms,
        SpinnerStyle::CornerAngles => 100,
        SpinnerStyle::ScannerBar => 70,
        SpinnerStyle::ParticleOrbit => frame_ms,
    };
    let step = millis / period;
    let mut out: Vec<(String, GlyphColor)> = Vec::new();
    if style == SpinnerStyle::DualPillars {
        let pairs: [(&str, &str); 4] = [("▰", "▱"), ("▰", "▰"), ("▱", "▰"), ("▱", "▱")];
        assert(pairs@.map_values(|p: (&str, &str)| (p.0@, p.1@)) =~= pillar_frames());
        let k = (step % 4) as usize;
        let (l, r) = pairs[k];
        assert((l@, r@) == pillar_frames()[k as int]);
        let lc = if str_eq(l, "▰") {
            GlyphColor::Role(ThemeColor::BrandAccent)
        } else {
            GlyphColor::Role(ThemeColor::Muted)
        };
        let rc = if str_eq(r, "▰") {
            GlyphColor::Role(ThemeColor::Info)
        } else {
            GlyphColor::Role(ThemeColor::Muted)
        };
        out.push((l.to_owned(), lc));
        out.push((concat2(r, "  "), rc));
    } else {
        let frames = frames_of(style);
        let k = (step % (frames.len() as u64)) as usize;
        assert(frames@.map_values(|f: &str| f@)[k as int] == frames@[k as int]@);
        let c = if style == SpinnerStyle::ParticleOrbit {
            GlyphColor::Second
        } else {
            GlyphColor::First
        };
        out.push((concat2(frames[k], "  "), c));
    }
    assert(out@.map_values(|g: (String, GlyphColor)| (g.0@, g.1)) =~= spinner_glyphs(
        style,
        millis as nat,
        frame_ms as nat,
    ));
    out
}


/// Colour of a glyph in the theme modal's preview: the activity colours are the accent
/// and info colours.
pub open spec fn preview_color(c: GlyphColor) -> ThemeColor {
    match c {
        GlyphColor::Role(t) => t,
        GlyphColor::First => ThemeColor::BrandAccent,
        GlyphColor::Second => ThemeColor::Info,
    }
}

/// The spinner preview of an animation at `millis`: its glyph runs in bold.
pub open spec fn spinner_preview_spec(style: SpinnerStyle, millis: nat, frame_ms: nat) -> Seq<
    (Seq<char>, SpanStyle),
> {
    spinner_glyphs(style, millis, frame_ms).map_values(
        |g: (Seq<char>, GlyphColor)| (g.0, fg_bold(preview_color(g.1))),
    )
}

/// The spinner preview of an animation at `millis`; `frame_ms` is the interface's frame
/// period.
pub fn render_preview_spinner(style: SpinnerStyle, millis: u64, frame_ms: u64) -> (r: Vec<StyledSpan>)
    requires
        frame_ms > 0,
    ensures
        r@.map_values(|x: StyledSpan| span_view(x)) == spinner_preview_spec(style, millis as nat, frame_ms as nat),
{
    let gs = render_spinner_spans(style, millis, frame_ms);
    let ghost gv = gs@.map_values(|g: (String, GlyphColor)| (g.0@, g.1));
    let mut v: Vec<StyledSpan> = Vec::new();
    let mut i: usize = 0;
    while i < gs.len()
        invariant
            i <= gs@.len(),
            gv == gs@.map_values(|g: (String, GlyphColor)| (g.0@, g.1)),
            v@.map_values(|x: StyledSpan| span_view(x)) == gv.take(i as int).map_values(
                |g: (Seq<char>, GlyphColor)| (g.0, fg_bold(preview_color(g.1))),
            ),
        decreases gs@.len() - i,
    {
        let c = match gs[i].1 {
            GlyphColor::Role(t) => t,
            GlyphColor::First => ThemeColor::BrandAccent,
            GlyphColor::Second => ThemeColor::Info,
        };
        let ghost before = v@;
        let sp = span_str(gs[i].0.as_str(), style_fg_bold(c));
        assert(gv[i as int] == (gs@[i as int].0@, gs@[i as int].1));
        assert(span_view(sp) == (gv[i as int].0, fg_bold(preview_color(gv[i as int].1))));
        v.push(sp);
        assert(v@ =~= before.push(sp));
        assert(v@.map_values(|x: StyledSpan| span_view(x)) =~= before.map_values(|x: StyledSpan| span_view(x)).push(
            span_view(sp),
        ));
        assert(gv.take(i + 1) =~= gv.take(i as int).push(gv[i as int]));
        i += 1;
        assert(v@.map_values(|x: StyledSpan| span_view(x)) =~= gv.take(i as int).map_values(
            |g: (Seq<char>, GlyphColor)| (g.0, fg_bold(preview_color(g.1))),
        ));
    }
    assert(gv.take(i as int) =~= gv);
    v
}
/// A terminal colour: the terminal's default, one of the sixteen named colours, an entry
/// of the indexed palette, or red, green, blue.
#[derive(Debug, Clone, Copy, PartialEq, Eq, Structural)]
pub enum TermColor {
    Reset,
    Black,
    Red,
    Green,
    Yellow,
    Blue,
    Magenta,
    Cyan,
    Gray,
    DarkGray,
    LightRed,
    LightGreen,
    LightYellow,
    LightBlue,
    LightMagenta,
    LightCyan,
    White,
    Rgb(u8, u8, u8),
    Indexed(u8),
}

/// The red, green, blue components a colour is blended with: its own for an RGB colour, a
/// grey of the index's level for an indexed one, and a fixed value for each named one.
pub open spec fn rgb_of(c: TermColor) -> (u8, u8, u8) {
    match c {
        TermColor::Rgb(r, g, b) => (r, g, b),
        TermColor::Reset => (200, 200, 200),
        TermColor::Black => (18, 18, 24),
        TermColor::Red => (255, 100, 100),
        TermColor::Green => (100, 255, 160),
        TermColor::Yellow => (255, 215, 100),
        TermColor::Blue => (100, 180, 255),
        TermColor::Magenta => (240, 120, 255),
        TermColor::Cyan => (100, 240, 255),
        TermColor::Gray => (140, 140, 150),
        TermColor::DarkGray => (80, 80, 90),
        TermColor::LightRed => (255, 140, 140),
        TermColor::LightGreen => (140, 255, 180),
        TermColor::LightYellow => (255, 235, 140),
        TermColor::LightBlue => (140, 200, 255),
        TermColor::LightMagenta => (255, 160, 255),
        TermColor::LightCyan => (140, 250, 255),
        TermColor::White => (245, 245, 245),
        TermColor::Indexed(i) => (i, i, i),
    }
}

/// Red, green and blue components of a colour, for blending two colours.
pub fn color_to_rgb(color: TermColor) -> (r: (u8, u8, u8))
    ensures
        r == rgb_of(color),
{
    match color {
        TermColor::Rgb(r, g, b) => (r, g, b),
        TermColor::Reset => (200, 200, 200),
        TermColor::Black => (18, 18, 24),
        TermColor::Red => (255, 100, 100),
        TermColor::Green => (100, 255, 160),
        TermColor::Yellow => (255, 215, 100),
        TermColor::Blue => (100, 180, 255),
        TermColor::Magenta => (240, 120, 255),
        TermColor::Cyan => (100, 240, 255),
        TermColor::Gray => (140, 140, 150),
        TermColor::DarkGray => (80, 80, 90),
        TermColor::LightRed => (255, 140, 140),
        TermColor::LightGreen => (140, 255, 180),
        TermColor::LightYellow => (255, 235, 140),
        TermColor::LightBlue => (140, 200, 255),
        TermColor::LightMagenta => (255, 160, 255),
        TermColor::LightCyan => (140, 250, 255),
        TermColor::White => (245, 245, 245),
        TermColor::Indexed(i) => (i, i, i),
    }
}

} // verus!
