//! Modal dialog state of the classic single-file modal set.

use vstd::prelude::*;
use crate::records::{BackupManifest, CodeExploreMatch, GitDiffFile, ModelInfo, SessionMetadata, SessionSummary, Stack, ThemeInfo};
use crate::text::lowercase;
use crate::text::str_to_lowercase;
use crate::ui::approval::ApprovalModalState;
use crate::ui::modals::common::{clamp_selection, clamp_selection_exec, normalize_filter, normalized_filter};
use crate::ui::modals::{
    all_indices, checkpoint_list, checkpoint_of, filter_catalog, filter_catalog_exec,
    filter_models, filter_models_exec, filter_stacks, filter_stacks_exec, filter_symbols,
    filter_symbols_exec, index_range, strings_view, theme_matches,
};

pub use crate::ui::modals::command_catalog::CommandCatalogItem;
pub use crate::ui::modals::common::{format_time_ago, TurnCheckpointInfo};

verus! {

/// The command catalog of this modal set, in display order.
pub open spec fn catalog_view() -> Seq<CommandCatalogItem> {
    seq![
    CommandCatalogItem {
        name: "/commands",
        category: "Discovery & Help",
        shortcut: "",
        description: "Interactive catalog of all available slash commands & keybindings",
        example: "/commands",
    },
    CommandCatalogItem {
        name: "/stack",
        category: "Workflows & Scaffolding",
        shortcut: "",
        description: "Interactive multi-runtime stack wizard & template scaffolder (onpkg)",
        example: "/stack nextjs | /stack react-vite",
    },
    CommandCatalogItem {
        name: "/plan",
        category: "Workflows & Scaffolding",
        shortcut: "",
        description: "Break complex feature into verifiable milestones in todo.md & plan.md",
        example: "/plan implement OAuth2 auth flow",
    },
    CommandCatalogItem {
        name: "/goal",
        category: "Workflows & Scaffolding",
        shortcut: "",
        description: "Autonomous goal execution loop until all checklist tasks pass",
        example: "/goal refactor database models and pass tests",
    },
    CommandCatalogItem {
        name: "/diff",
        category: "Code & Inspection",
        shortcut: "Ctrl+D",
        description: "Interactive split/unified git diff viewer & staging explorer",
        example: "/diff",
    },
    CommandCatalogItem {
        name: "/explore",
        category: "Code & Inspection",
        shortcut: "Ctrl+E",
        description: "Surgically explore codebase AST symbols, call graph & blast radius",
        example: "/explore | /explore auth",
    },
    CommandCatalogItem {
        name: "/review",
        category: "Code & Inspection",
        shortcut: "",
        description: "Multi-dimensional adversarial code review on git changes",
        example: "/review | /review --staged",
    },
    CommandCatalogItem {
        name: "/map",
        category: "Code & Inspection",
        shortcut: "",
        description: "Render AST PageRank repository hierarchy & dependency graph",
        example: "/map",
    },
    CommandCatalogItem {
        name: "/history",
        category: "History & Sessions",
        shortcut: "Ctrl+H",
        description: "Interactive 2-column session history, inspector & time-travel explorer",
        example: "/history | /sessions",
    },
    CommandCatalogItem {
        name: "/undo",
        category: "History & Sessions",
        shortcut: "Ctrl+U",
        description: "Interactive checkpoint browser to revert file modifications",
        example: "/undo",
    },
    CommandCatalogItem {
        name: "/export",
        category: "History & Sessions",
        shortcut: "",
        description: "Export current session trajectory to a markdown report",
        example: "/export report.md",
    },
    CommandCatalogItem {
        name: "/save",
        category: "History & Sessions",
        shortcut: "",
        description: "Export full conversation history transcript to a target file",
        example: "/save session_backup.md",
    },
    CommandCatalogItem {
        name: "/load",
        category: "History & Sessions",
        shortcut: "",
        description: "Load and replay past session events into active timeline",
        example: "/load <session_id>",
    },
    CommandCatalogItem {
        name: "/model",
        category: "Config & Runtime",
        shortcut: "",
        description: "Choose active LLM model & provider interactively",
        example: "/model",
    },
    CommandCatalogItem {
        name: "/theme",
        category: "Config & Runtime",
        shortcut: "",
        description: "Switch TUI color theme (Aura, Tokyo Night, Nord, Gruvbox, etc.)",
        example: "/theme",
    },
    CommandCatalogItem {
        name: "/tokens",
        category: "Config & Runtime",
        shortcut: "",
        description: "Display detailed token usage breakdown and compaction limits",
        example: "/tokens",
    },
    CommandCatalogItem {
        name: "/compact",
        category: "Config & Runtime",
        shortcut: "",
        description: "Manually compact and prune context tokens",
        example: "/compact",
    },
    CommandCatalogItem {
        name: "/terminal",
        category: "Utilities",
        shortcut: "Ctrl+T",
        description: "Toggle interactive embedded PTY terminal drawer",
        example: "/terminal",
    },
    CommandCatalogItem {
        name: "/copy",
        category: "Utilities",
        shortcut: "",
        description: "Copy latest assistant response or full transcript to clipboard",
        example: "/copy | /copy all",
    },
    CommandCatalogItem {
        name: "/retry",
        category: "Utilities",
        shortcut: "",
        description: "Re-submit the previous user prompt to the agent",
        example: "/retry",
    },
    CommandCatalogItem {
        name: "/clear",
        category: "Utilities",
        shortcut: "",
        description: "Clear active conversation timeline display",
        example: "/clear",
    },
    CommandCatalogItem {
        name: "/help",
        category: "Discovery & Help",
        shortcut: "",
        description: "Display quick help and keyboard shortcuts",
        example: "/help",
    },
    CommandCatalogItem {
        name: "/exit",
        category: "Discovery & Help",
        shortcut: "Esc / Ctrl+C",
        description: "Quit minicode interactive session cleanly",
        example: "/exit",
    },

    ]
}

/// The command catalog of this modal set, in display order.
pub fn command_catalog_items() -> (r: &'static [CommandCatalogItem])
    ensures
        r@ == catalog_view(),
{
    &[
        CommandCatalogItem {
            name: "/commands",
            category: "Discovery & Help",
            shortcut: "",
            description: "Interactive catalog of all available slash commands & keybindings",
            example: "/commands",
        },
        CommandCatalogItem {
            name: "/stack",
            category: "Workflows & Scaffolding",
            shortcut: "",
            description: "Interactive multi-runtime stack wizard & template scaffolder (onpkg)",
            example: "/stack nextjs | /stack react-vite",
        },
        CommandCatalogItem {
            name: "/plan",
            category: "Workflows & Scaffolding",
            shortcut: "",
            description: "Break complex feature into verifiable milestones in todo.md & plan.md",
            example: "/plan implement OAuth2 auth flow",
        },
        CommandCatalogItem {
            name: "/goal",
            category: "Workflows & Scaffolding",
            shortcut: "",
            description: "Autonomous goal execution loop until all checklist tasks pass",
            example: "/goal refactor database models and pass tests",
        },
        CommandCatalogItem {
            name: "/diff",
            category: "Code & Inspection",
            shortcut: "Ctrl+D",
            description: "Interactive split/unified git diff viewer & staging explorer",
            example: "/diff",
        },
        CommandCatalogItem {
            name: "/explore",
            category: "Code & Inspection",
            shortcut: "Ctrl+E",
            description: "Surgically explore codebase AST symbols, call graph & blast radius",
            example: "/explore | /explore auth",
        },
        CommandCatalogItem {
            name: "/review",
            category: "Code & Inspection",
            shortcut: "",
            description: "Multi-dimensional adversarial code review on git changes",
            example: "/review | /review --staged",
        },
        CommandCatalogItem {
            name: "/map",
            category: "Code & Inspection",
            shortcut: "",
            description: "Render AST PageRank repository hierarchy & dependency graph",
            example: "/map",
        },
        CommandCatalogItem {
            name: "/history",
            category: "History & Sessions",
            shortcut: "Ctrl+H",
            description: "Interactive 2-column session history, inspector & time-travel explorer",
            example: "/history | /sessions",
        },
        CommandCatalogItem {
            name: "/undo",
            category: "History & Sessions",
            shortcut: "Ctrl+U",
            description: "Interactive checkpoint browser to revert file modifications",
            example: "/undo",
        },
        CommandCatalogItem {
            name: "/export",
            category: "History & Sessions",
            shortcut: "",
            description: "Export current session trajectory to a markdown report",
            example: "/export report.md",
        },
        CommandCatalogItem {
            name: "/save",
            category: "History & Sessions",
            shortcut: "",
            description: "Export full conversation history transcript to a target file",
            example: "/save session_backup.md",
        },
        CommandCatalogItem {
            name: "/load",
            category: "History & Sessions",
            shortcut: "",
            description: "Load and replay past session events into active timeline",
            example: "/load <session_id>",
        },
        CommandCatalogItem {
            name: "/model",
            category: "Config & Runtime",
            shortcut: "",
            description: "Choose active LLM model & provider interactively",
            example: "/model",
        },
        CommandCatalogItem {
            name: "/theme",
            category: "Config & Runtime",
            shortcut: "",
            description: "Switch TUI color theme (Aura, Tokyo Night, Nord, Gruvbox, etc.)",
            example: "/theme",
        },
        CommandCatalogItem {
            name: "/tokens",
            category: "Config & Runtime",
            shortcut: "",
            description: "Display detailed token usage breakdown and compaction limits",
            example: "/tokens",
        },
        CommandCatalogItem {
            name: "/compact",
            category: "Config & Runtime",
            shortcut: "",
            description: "Manually compact and prune context tokens",
            example: "/compact",
        },
        CommandCatalogItem {
            name: "/terminal",
            category: "Utilities",
            shortcut: "Ctrl+T",
            description: "Toggle interactive embedded PTY terminal drawer",
            example: "/terminal",
        },
        CommandCatalogItem {
            name: "/copy",
            category: "Utilities",
            shortcut: "",
            description: "Copy latest assistant response or full transcript to clipboard",
            example: "/copy | /copy all",
        },
        CommandCatalogItem {
            name: "/retry",
            category: "Utilities",
            shortcut: "",
            description: "Re-submit the previous user prompt to the agent",
            example: "/retry",
        },
        CommandCatalogItem {
            name: "/clear",
            category: "Utilities",
            shortcut: "",
            description: "Clear active conversation timeline display",
            example: "/clear",
        },
        CommandCatalogItem {
            name: "/help",
            category: "Discovery & Help",
            shortcut: "",
            description: "Display quick help and keyboard shortcuts",
            example: "/help",
        },
        CommandCatalogItem {
            name: "/exit",
            category: "Discovery & Help",
            shortcut: "Esc / Ctrl+C",
            description: "Quit minicode interactive session cleanly",
            example: "/exit",
        },

    ]
}

/// Providers offered by the provider picker, in order.
pub open spec fn provider_choices() -> Seq<Seq<char>> {
    seq!["openrouter"@, "gemini"@, "openai"@, "deepseek"@, "groq"@, "together"@, "ollama"@]
}

/// Modal dialog currently shown over the timeline.
#[derive(Debug, Clone)]
pub enum ModalState {
    /// No modal is open.
    Closed,
    ProviderSelect { providers: Vec<String>, selected_index: usize },
    ModelSelect {
        provider: String,
        models: Vec<ModelInfo>,
        filtered_indices: Vec<usize>,
        selected_index: usize,
        filter: String,
        loading: bool,
    },
    UndoCheckpoint { checkpoints: Vec<TurnCheckpointInfo>, selected_index: usize },
    ThemeSelect { themes: Vec<ThemeInfo>, selected_index: usize },
    SessionBrowser {
        sessions: Vec<SessionMetadata>,
        selected_index: usize,
        cached_summary: Option<SessionSummary>,
    },
    StackSelect {
        stacks: Vec<Stack>,
        filtered_indices: Vec<usize>,
        selected_index: usize,
        filter: String,
    },
    CommandCatalog { filtered_indices: Vec<usize>, selected_index: usize, filter: String },
    CodeExplorer {
        symbols: Vec<CodeExploreMatch>,
        filtered_indices: Vec<usize>,
        selected_index: usize,
        filter: String,
        active_tab: usize,
    },
    GitDiff {
        diff_files: Vec<GitDiffFile>,
        selected_file_index: usize,
        scroll_offset: usize,
        staged_view: bool,
    },
    Help,
    Approval(ApprovalModalState),
}

fn push_owned(v: &mut Vec<String>, s: &str)
    ensures
        strings_view(final(v)@) == strings_view(old(v)@).push(s@),
{
    let ghost before = v@;
    v.push(s.to_owned());
    assert(strings_view(v@) =~= strings_view(before).push(s@));
}

impl ModalState {
    pub fn is_active(&self) -> (r: bool)
        ensures
            r == !(*self is Closed),
    {
        !matches!(self, ModalState::Closed)
    }

    pub fn new_provider_select() -> (r: Self)
        ensures
            r matches ModalState::ProviderSelect { providers, selected_index } && selected_index
                == 0 && strings_view(providers@) == provider_choices(),
    {
        let mut providers: Vec<String> = Vec::new();
        push_owned(&mut providers, "openrouter");
        push_owned(&mut providers, "gemini");
        push_owned(&mut providers, "openai");
        push_owned(&mut providers, "deepseek");
        push_owned(&mut providers, "groq");
        push_owned(&mut providers, "together");
        push_owned(&mut providers, "ollama");
        assert(strings_view(providers@) =~= provider_choices());
        ModalState::ProviderSelect { providers, selected_index: 0 }
    }

    pub fn new_model_select(provider: String, models: Vec<ModelInfo>) -> (r: Self)
        ensures
            r matches ModalState::ModelSelect {
                provider: p,
                models: m,
                filtered_indices,
                selected_index,
                filter,
                loading,
            } && p == provider && m == models && filtered_indices@ == all_indices(models@.len())
                && selected_index == 0 && filter@.len() == 0 && !loading,
    {
        let count = models.len();
        ModalState::ModelSelect {
            provider,
            models,
            filtered_indices: index_range(count),
            selected_index: 0,
            filter: String::new(),
            loading: false,
        }
    }

    /// Undo browser listing one checkpoint per backup manifest, the first marked latest.
    pub fn new_undo_checkpoint(manifests: Vec<BackupManifest>) -> (r: Self)
        ensures
            r matches ModalState::UndoCheckpoint { checkpoints, selected_index } && selected_index
                == 0 && checkpoints@.len() == manifests@.len() && forall|i: int|
                0 <= i < manifests@.len() ==> checkpoint_of(
                    #[trigger] checkpoints@[i],
                    manifests@[i],
                    i,
                ),
    {
        ModalState::UndoCheckpoint { checkpoints: checkpoint_list(&manifests), selected_index: 0 }
    }

    /// Theme picker over `themes`, preselecting the first theme whose identifier equals
    /// `active_theme_id` or is a prefix of it (else the first theme).
    pub fn new_theme_select(active_theme_id: &str, themes: Vec<ThemeInfo>) -> (r: Self)
        ensures
            r matches ModalState::ThemeSelect { themes: t, selected_index } && t == themes && ((
            selected_index < themes@.len() && theme_matches(
                themes@[selected_index as int],
                active_theme_id@,
            ) && forall|j: int|
                0 <= j < selected_index ==> !theme_matches(themes@[j], active_theme_id@)) || (
            selected_index == 0 && forall|j: int|
                0 <= j < themes@.len() ==> !theme_matches(themes@[j], active_theme_id@))),
    {
        let active = crate::text::chars_of(active_theme_id);
        let mut i: usize = 0;
        while i < themes.len()
            invariant
                i <= themes@.len(),
                active@ == active_theme_id@,
                forall|j: int| 0 <= j < i ==> !theme_matches(themes@[j], active_theme_id@),
            decreases themes@.len() - i,
        {
            let id = crate::text::chars_of(themes[i].id.as_str());
            if crate::text::chars_eq(&id, &active) || crate::text::chars_starts_with(&active, &id) {
                return ModalState::ThemeSelect { themes, selected_index: i };
            }
            i += 1;
        }
        ModalState::ThemeSelect { themes, selected_index: 0 }
    }

    pub fn new_session_browser(
        sessions: Vec<SessionMetadata>,
        cached_summary: Option<SessionSummary>,
    ) -> (r: Self)
        ensures
            r matches ModalState::SessionBrowser { sessions: s, selected_index, cached_summary: c }
                && s == sessions && selected_index == 0 && c == cached_summary,
    {
        ModalState::SessionBrowser { sessions, selected_index: 0, cached_summary }
    }

    /// Stack picker over `stacks`, all listed.
    pub fn new_stack_select(stacks: Vec<Stack>) -> (r: Self)
        ensures
            r matches ModalState::StackSelect { stacks: s, filtered_indices, selected_index, filter }
                && s == stacks && filtered_indices@ == all_indices(stacks@.len()) && selected_index
                == 0 && filter@.len() == 0,
    {
        let count = stacks.len();
        ModalState::StackSelect {
            stacks,
            filtered_indices: index_range(count),
            selected_index: 0,
            filter: String::new(),
        }
    }

    pub fn new_command_catalog() -> (r: Self)
        ensures
            r matches ModalState::CommandCatalog { filtered_indices, selected_index, filter }
                && filtered_indices@ == all_indices(catalog_view().len()) && selected_index == 0
                && filter@.len() == 0,
    {
        let count = command_catalog_items().len();
        ModalState::CommandCatalog {
            filtered_indices: index_range(count),
            selected_index: 0,
            filter: String::new(),
        }
    }

    /// Code explorer over the symbols found in the workspace, all listed.
    pub fn new_code_explorer(symbols: Vec<CodeExploreMatch>) -> (r: Self)
        ensures
            r matches ModalState::CodeExplorer {
                symbols: s,
                filtered_indices,
                selected_index,
                filter,
                active_tab,
            } && s == symbols && filtered_indices@ == all_indices(symbols@.len())
                && selected_index == 0 && filter@.len() == 0 && active_tab == 0,
    {
        let count = symbols.len();
        ModalState::CodeExplorer {
            symbols,
            filtered_indices: index_range(count),
            selected_index: 0,
            filter: String::new(),
            active_tab: 0,
        }
    }

    pub fn new_git_diff(diff_files: Vec<GitDiffFile>, staged_view: bool) -> (r: Self)
        ensures
            r matches ModalState::GitDiff {
                diff_files: d,
                selected_file_index,
                scroll_offset,
                staged_view: s,
            } && d == diff_files && selected_file_index == 0 && scroll_offset == 0 && s
                == staged_view,
    {
        ModalState::GitDiff { diff_files, selected_file_index: 0, scroll_offset: 0, staged_view }
    }

    /// Recomputes the filtered list of a filterable modal and clamps the selection into the
    /// new list; other modals are unchanged. The model and stack lists compare against the
    /// lower-cased filter text, the catalog and the code explorer against the trimmed and
    /// lower-cased text.
    pub fn update_filter(&mut self)
        ensures
            match *old(self) {
                ModalState::ModelSelect { provider, models, selected_index, filter, loading, .. } => {
                    &&& *final(self) matches ModalState::ModelSelect {
                        provider: p2,
                        models: m2,
                        filtered_indices: fi,
                        selected_index: si,
                        filter: f2,
                        loading: l2,
                    }
                    &&& p2 == provider && m2 == models && f2 == filter && l2 == loading
                    &&& fi@ == filter_models(models@, lowercase(filter@))
                    &&& si == clamp_selection(selected_index as nat, fi@.len())
                },
                ModalState::StackSelect { stacks, selected_index, filter, .. } => {
                    &&& *final(self) matches ModalState::StackSelect {
                        stacks: s2,
                        filtered_indices: fi,
                        selected_index: si,
                        filter: f2,
                    }
                    &&& s2 == stacks && f2 == filter
                    &&& fi@ == filter_stacks(stacks@, lowercase(filter@))
                    &&& si == clamp_selection(selected_index as nat, fi@.len())
                },
                ModalState::CommandCatalog { selected_index, filter, .. } => {
                    &&& *final(self) matches ModalState::CommandCatalog {
                        filtered_indices: fi,
                        selected_index: si,
                        filter: f2,
                    }
                    &&& f2 == filter
                    &&& fi@ == filter_catalog(catalog_view(), normalized_filter(filter@))
                    &&& si == clamp_selection(selected_index as nat, fi@.len())
                },
                ModalState::CodeExplorer { symbols, selected_index, filter, active_tab, .. } => {
                    &&& *final(self) matches ModalState::CodeExplorer {
                        symbols: s2,
                        filtered_indices: fi,
                        selected_index: si,
                        filter: f2,
                        active_tab: t2,
                    }
                    &&& s2 == symbols && f2 == filter && t2 == active_tab
                    &&& fi@ == filter_symbols(symbols@, normalized_filter(filter@))
                    &&& si == clamp_selection(selected_index as nat, fi@.len())
                },
                _ => *final(self) == *old(self),
            },
    {
        match self {
            ModalState::ModelSelect { models, filtered_indices, selected_index, filter, .. } => {
                let f = str_to_lowercase(filter.as_str());
                let fi = filter_models_exec(models, f.as_str());
                *selected_index = clamp_selection_exec(*selected_index, fi.len());
                *filtered_indices = fi;
            },
            ModalState::StackSelect { stacks, filtered_indices, selected_index, filter } => {
                let f = str_to_lowercase(filter.as_str());
                let fi = filter_stacks_exec(stacks, f.as_str());
                *selected_index = clamp_selection_exec(*selected_index, fi.len());
                *filtered_indices = fi;
            },
            ModalState::CommandCatalog { filtered_indices, selected_index, filter } => {
                let f = normalize_filter(filter.as_str());
                let fi = filter_catalog_exec(command_catalog_items(), f.as_str());
                *selected_index = clamp_selection_exec(*selected_index, fi.len());
                *filtered_indices = fi;
            },
            ModalState::CodeExplorer { symbols, filtered_indices, selected_index, filter, .. } => {
                let f = normalize_filter(filter.as_str());
                let fi = filter_symbols_exec(symbols, f.as_str());
                *selected_index = clamp_selection_exec(*selected_index, fi.len());
                *filtered_indices = fi;
            },
            _ => {},
        }
    }
}

} // verus!
