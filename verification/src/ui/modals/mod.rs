//! Modal dialog state management.

pub mod blocks;
pub mod architecture_view;
pub mod blocks_view;
pub mod command_catalog;
pub mod common;
pub mod context_diagnostics;
pub mod context_view;
pub mod dialogs_view;
pub mod explorer_view;
pub mod minipower;
pub mod minipower_view;
pub mod processes;
pub mod processes_view;
pub mod process_table_view;
pub mod settings;
pub mod settings_view;
pub mod theme_select;
pub mod workspace_view;

use vstd::prelude::*;
use crate::records::{
    ArchitectureReport, BackupManifest, CodeExploreMatch, GitDiffFile, ModelInfo,
    SessionMetadata, SessionSummary, Stack, ThemeInfo,
};
use crate::text::{indices_where, lemma_indices_where, starts_with};
use crate::ui::approval::ApprovalModalState;
use crate::ui::modals::command_catalog::{command_catalog_items, command_catalog_view, CommandCatalogItem};
use crate::ui::modals::common::{
    abbreviate_home, abbreviate_home_spec, clamp_selection, clamp_selection_exec, contains_ci,
    contains_ci_spec, format_time_ago, normalize_filter, normalized_filter, rfc3339_valid,
    time_ago_spec, TurnCheckpointInfo,
};

pub use crate::ui::layout_utils::compute_scroll_offset;

verus! {

/// Modal dialog currently shown over the timeline.
#[derive(Debug, Clone)]
pub enum ModalState {
    /// No modal is open.
    Closed,
    ApiKeyInput { provider: String, env_var: String, input: String, cursor: usize },
    ProviderSelect { providers: Vec<String>, selected_index: usize },
    ModelSelect {
        provider: String,
        models: Vec<ModelInfo>,
        filtered_indices: Vec<usize>,
        selected_index: usize,
        filter: String,
        loading: bool,
    },
    UndoCheckpoint { checkpoints: Vec<TurnCheckpointInfo>, selected_index: usize },
    ThemeSelect { themes: Vec<ThemeInfo>, selected_index: usize },
    SessionBrowser {
        sessions: Vec<SessionMetadata>,
        selected_index: usize,
        cached_summary: Option<SessionSummary>,
    },
    StackSelect {
        stacks: Vec<Stack>,
        filtered_indices: Vec<usize>,
        selected_index: usize,
        filter: String,
    },
    CommandCatalog { filtered_indices: Vec<usize>, selected_index: usize, filter: String },
    CodeExplorer {
        symbols: Vec<CodeExploreMatch>,
        filtered_indices: Vec<usize>,
        selected_index: usize,
        filter: String,
        active_tab: usize,
    },
    GitDiff {
        diff_files: Vec<GitDiffFile>,
        selected_file_index: usize,
        scroll_offset: usize,
        staged_view: bool,
    },
    Help,
    StreamingSelect { selected_index: usize, current_streaming: bool },
    Approval(ApprovalModalState),
    WorkspaceAnalysis {
        workspace_path: String,
        is_indexed: bool,
        cached_symbols_count: usize,
        cached_files_count: usize,
        selected_index: usize,
    },
    ExitConfirm { workspace_name: String, selected_yes: bool },
    ArchitectureAudit {
        report: Box<ArchitectureReport>,
        active_tab: usize,
        selected_index: usize,
        scroll_offset: usize,
    },
}

/// Providers offered by the provider picker, in order.
pub open spec fn provider_choices() -> Seq<Seq<char>> {
    seq![
        "anthropic"@,
        "openrouter"@,
        "gemini"@,
        "openai"@,
        "deepseek"@,
        "groq"@,
        "minimax"@,
        "z.ai"@,
        "together"@,
        "mistral"@,
        "ollama"@,
        "lmstudio"@,
        "vllm"@,
        "localhost"@,
    ]
}

/// Views of a list of strings.
pub open spec fn strings_view(v: Seq<String>) -> Seq<Seq<char>> {
    v.map_values(|s: String| s@)
}

/// The indices `0, 1, ..., n - 1`.
pub open spec fn all_indices(n: nat) -> Seq<usize> {
    Seq::new(n, |i: int| i as usize)
}

/// The model matches the normalized filter by identifier or name.
pub open spec fn model_matches(m: ModelInfo, f: Seq<char>) -> bool {
    f.len() == 0 || contains_ci_spec(m.id@, f) || contains_ci_spec(m.name@, f)
}

/// The stack matches the normalized filter by name, runtime, description or a package.
pub open spec fn stack_matches(s: Stack, f: Seq<char>) -> bool {
    ||| f.len() == 0
    ||| contains_ci_spec(s.name@, f)
    ||| contains_ci_spec(s.runtime@, f)
    ||| contains_ci_spec(s.description@, f)
    ||| exists|k: int| 0 <= k < s.packages@.len() && contains_ci_spec(s.packages@[k]@, f)
}

/// The catalog entry matches the normalized filter by name, category, description or
/// shortcut.
pub open spec fn catalog_matches(c: CommandCatalogItem, f: Seq<char>) -> bool {
    ||| f.len() == 0
    ||| contains_ci_spec(c.name@, f)
    ||| contains_ci_spec(c.category@, f)
    ||| contains_ci_spec(c.description@, f)
    ||| contains_ci_spec(c.shortcut@, f)
}

/// The symbol matches the normalized filter by name, kind, file, signature or layer.
pub open spec fn symbol_matches(s: CodeExploreMatch, f: Seq<char>) -> bool {
    ||| f.len() == 0
    ||| contains_ci_spec(s.symbol_name@, f)
    ||| contains_ci_spec(s.kind@, f)
    ||| contains_ci_spec(s.file_path@, f)
    ||| contains_ci_spec(s.signature@, f)
    ||| contains_ci_spec(s.layer_name@, f)
}

/// Indices of the models matching `f`, in list order.
pub open spec fn filter_models(models: Seq<ModelInfo>, f: Seq<char>) -> Seq<usize> {
    indices_where(models.len(), |i: int| model_matches(models[i], f))
}

/// Indices of the stacks matching `f`, in list order.
pub open spec fn filter_stacks(stacks: Seq<Stack>, f: Seq<char>) -> Seq<usize> {
    indices_where(stacks.len(), |i: int| stack_matches(stacks[i], f))
}

/// Indices of the catalog entries matching `f`, in list order.
pub open spec fn filter_catalog(items: Seq<CommandCatalogItem>, f: Seq<char>) -> Seq<usize> {
    indices_where(items.len(), |i: int| catalog_matches(items[i], f))
}

/// Indices of the symbols matching `f`, in list order.
pub open spec fn filter_symbols(symbols: Seq<CodeExploreMatch>, f: Seq<char>) -> Seq<usize> {
    indices_where(symbols.len(), |i: int| symbol_matches(symbols[i], f))
}

/// Prompt shown for a checkpoint: the user prompt, or `Turn #<id>`.
pub open spec fn checkpoint_prompt(m: BackupManifest) -> Seq<char> {
    match m.user_prompt {
        Some(p) => p@,
        None => "Turn #"@ + crate::text::decimal(m.turn_id as nat),
    }
}

/// The checkpoint entry describes manifest `m` at position `i` of the list.
pub open spec fn checkpoint_of(c: TurnCheckpointInfo, m: BackupManifest, i: int) -> bool {
    &&& c.turn_id == m.turn_id
    &&& c.prompt@ == checkpoint_prompt(m)
    &&& c.timestamp == m.timestamp
    &&& (!rfc3339_valid(m.timestamp@) ==> c.time_ago@ == "recently"@)
    &&& (rfc3339_valid(m.timestamp@) ==> exists|secs: i64| c.time_ago@ == time_ago_spec(secs as int))
    &&& strings_view(c.files@) == m.files@.map_values(|f: crate::records::BackupFile| f.original_path@)
    &&& c.is_latest == (i == 0)
}

/// Index of the theme selected on opening: the first whose identifier equals the active one
/// or is a prefix of it, or 0.
pub open spec fn theme_matches(t: ThemeInfo, active: Seq<char>) -> bool {
    t.id@ == active || starts_with(active, t.id@)
}

fn model_matches_exec(m: &ModelInfo, f: &str) -> (b: bool)
    ensures
        b == model_matches(*m, f@),
{
    f.is_empty() || contains_ci(m.id.as_str(), f) || contains_ci(m.name.as_str(), f)
}

fn stack_matches_exec(s: &Stack, f: &str) -> (b: bool)
    ensures
        b == stack_matches(*s, f@),
{
    if f.is_empty() || contains_ci(s.name.as_str(), f) || contains_ci(s.runtime.as_str(), f)
        || contains_ci(s.description.as_str(), f) {
        return true;
    }
    let mut k: usize = 0;
    while k < s.packages.len()
        invariant
            k <= s.packages@.len(),
            forall|j: int| 0 <= j < k ==> !contains_ci_spec(s.packages@[j]@, f@),
        decreases s.packages@.len() - k,
    {
        if contains_ci(s.packages[k].as_str(), f) {
            return true;
        }
        k += 1;
    }
    false
}

fn catalog_matches_exec(c: &CommandCatalogItem, f: &str) -> (b: bool)
    ensures
        b == catalog_matches(*c, f@),
{
    f.is_empty() || contains_ci(c.name, f) || contains_ci(c.category, f) || contains_ci(
        c.description,
        f,
    ) || contains_ci(c.shortcut, f)
}

fn symbol_matches_exec(s: &CodeExploreMatch, f: &str) -> (b: bool)
    ensures
        b == symbol_matches(*s, f@),
{
    f.is_empty() || contains_ci(s.symbol_name.as_str(), f) || contains_ci(s.kind.as_str(), f)
        || contains_ci(s.file_path.as_str(), f) || contains_ci(s.signature.as_str(), f)
        || contains_ci(s.layer_name.as_str(), f)
}

/// Indices of the models that match the filter.
pub fn filter_models_exec(models: &Vec<ModelInfo>, f: &str) -> (r: Vec<usize>)
    ensures
        r@ == filter_models(models@, f@),
{
    let ghost p = |i: int| model_matches(models@[i], f@);
    let mut r: Vec<usize> = Vec::new();
    let mut i: usize = 0;
    while i < models.len()
        invariant
            i <= models@.len(),
            p == (|i: int| model_matches(models@[i], f@)),
            r@ == indices_where(i as nat, p),
        decreases models@.len() - i,
    {
        if model_matches_exec(&models[i], f) {
            r.push(i);
        }
        i += 1;
    }
    r
}

/// Indices of the stacks that match the filter.
pub fn filter_stacks_exec(stacks: &Vec<Stack>, f: &str) -> (r: Vec<usize>)
    ensures
        r@ == filter_stacks(stacks@, f@),
{
    let ghost p = |i: int| stack_matches(stacks@[i], f@);
    let mut r: Vec<usize> = Vec::new();
    let mut i: usize = 0;
    while i < stacks.len()
        invariant
            i <= stacks@.len(),
            p == (|i: int| stack_matches(stacks@[i], f@)),
            r@ == indices_where(i as nat, p),
        decreases stacks@.len() - i,
    {
        if stack_matches_exec(&stacks[i], f) {
            r.push(i);
        }
        i += 1;
    }
    r
}

/// Indices of the catalog entries that match the filter.
pub fn filter_catalog_exec(items: &[CommandCatalogItem], f: &str) -> (r: Vec<usize>)
    ensures
        r@ == filter_catalog(items@, f@),
{
    let ghost p = |i: int| catalog_matches(items@[i], f@);
    let mut r: Vec<usize> = Vec::new();
    let mut i: usize = 0;
    while i < items.len()
        invariant
            i <= items@.len(),
            p == (|i: int| catalog_matches(items@[i], f@)),
            r@ == indices_where(i as nat, p),
        decreases items@.len() - i,
    {
        if catalog_matches_exec(&items[i], f) {
            r.push(i);
        }
        i += 1;
    }
    r
}

/// Indices of the symbols that match the filter.
pub fn filter_symbols_exec(symbols: &Vec<CodeExploreMatch>, f: &str) -> (r: Vec<usize>)
    ensures
        r@ == filter_symbols(symbols@, f@),
{
    let ghost p = |i: int| symbol_matches(symbols@[i], f@);
    let mut r: Vec<usize> = Vec::new();
    let mut i: usize = 0;
    while i < symbols.len()
        invariant
            i <= symbols@.len(),
            p == (|i: int| symbol_matches(symbols@[i], f@)),
            r@ == indices_where(i as nat, p),
        decreases symbols@.len() - i,
    {
        if symbol_matches_exec(&symbols[i], f) {
            r.push(i);
        }
        i += 1;
    }
    r
}

/// The indices `0..n`.
pub fn index_range(n: usize) -> (r: Vec<usize>)
    ensures
        r@ == all_indices(n as nat),
{
    let mut r: Vec<usize> = Vec::new();
    let mut i: usize = 0;
    while i < n
        invariant
            i <= n,
            r@ == all_indices(i as nat),
        decreases n - i,
    {
        r.push(i);
        i += 1;
        assert(r@ =~= all_indices(i as nat));
    }
    r
}

fn push_owned(v: &mut Vec<String>, s: &str)
    ensures
        strings_view(final(v)@) == strings_view(old(v)@).push(s@),
{
    let ghost before = v@;
    v.push(s.to_owned());
    assert(strings_view(v@) =~= strings_view(before).push(s@));
}

/// One checkpoint per backup manifest, in order, the first marked latest.
pub fn checkpoint_list(manifests: &Vec<BackupManifest>) -> (checkpoints: Vec<TurnCheckpointInfo>)
    ensures
        checkpoints@.len() == manifests@.len(),
        forall|i: int|
            0 <= i < manifests@.len() ==> checkpoint_of(#[trigger] checkpoints@[i], manifests@[i], i),
{
    let mut checkpoints: Vec<TurnCheckpointInfo> = Vec::new();
    let mut i: usize = 0;
    while i < manifests.len()
        invariant
            i <= manifests@.len(),
            checkpoints@.len() == i,
            forall|j: int|
                0 <= j < i ==> checkpoint_of(#[trigger] checkpoints@[j], manifests@[j], j),
        decreases manifests@.len() - i,
    {
        let m = &manifests[i];
        let time_ago = format_time_ago(m.timestamp.as_str());
        let prompt = match &m.user_prompt {
            Some(p) => p.clone(),
            None => {
                let mut v = crate::text::chars_of("Turn #");
                crate::text::extend_chars(&mut v, &crate::text::u64_to_decimal(m.turn_id as u64));
                crate::text::string_from_chars(&v)
            },
        };
        let mut files: Vec<String> = Vec::new();
        let mut k: usize = 0;
        while k < m.files.len()
            invariant
                k <= m.files@.len(),
                strings_view(files@) == m.files@.take(k as int).map_values(
                    |f: crate::records::BackupFile| f.original_path@,
                ),
            decreases m.files@.len() - k,
        {
            let ghost before = files@;
            files.push(m.files[k].original_path.clone());
            proof {
                assert(m.files@.take(k + 1) =~= m.files@.take(k as int).push(m.files@[k as int]));
                assert(strings_view(files@) =~= strings_view(before).push(
                    m.files@[k as int].original_path@,
                ));
            }
            k += 1;
        }
        assert(m.files@.take(m.files@.len() as int) =~= m.files@);
        let c = TurnCheckpointInfo {
            turn_id: m.turn_id,
            prompt,
            timestamp: m.timestamp.clone(),
            time_ago,
            files,
            is_latest: i == 0,
        };
        checkpoints.push(c);
        i += 1;
    }
    checkpoints
}

impl ModalState {
    pub fn is_active(&self) -> (r: bool)
        ensures
            r == !(*self is Closed),
    {
        !matches!(self, ModalState::Closed)
    }

    pub fn new_architecture_audit(report: ArchitectureReport) -> (r: Self)
        ensures
            r matches ModalState::ArchitectureAudit {
                report: rep,
                active_tab,
                selected_index,
                scroll_offset,
            } && *rep == report && active_tab == 0 && selected_index == 0 && scroll_offset == 0,
    {
        ModalState::ArchitectureAudit {
            report: Box::new(report),
            active_tab: 0,
            selected_index: 0,
            scroll_offset: 0,
        }
    }

    /// Exit confirmation naming the workspace by the last component of its root path
    /// (`minicode` when it has none); "No" is preselected.
    pub fn new_exit_confirm(workspace_root: &str) -> (r: Self)
        ensures
            r matches ModalState::ExitConfirm { workspace_name, selected_yes } && !selected_yes
                && workspace_name@ == match path_file_name(workspace_root@) {
                Some(n) => n,
                None => "minicode"@,
            } && workspace_name@.len() > 0,
    {
        let workspace_name = match file_name_of(workspace_root) {
            Some(n) => n,
            None => "minicode".to_owned(),
        };
        proof {
            reveal_strlit("minicode");
        }
        ModalState::ExitConfirm { workspace_name, selected_yes: false }
    }

    /// API key entry for a provider, prefilled with `initial`; the cursor is at the end of
    /// the text (a byte offset).
    pub fn new_api_key_input(provider: String, env_var: String, initial: Option<String>) -> (r: Self)
        ensures
            r matches ModalState::ApiKeyInput { provider: p, env_var: e, input, cursor } && p
                == provider && e == env_var && input@ == match initial {
                Some(s) => s@,
                None => Seq::<char>::empty(),
            } && cursor == (vstd::utf8::encode_utf8(input@).len() as usize),
    {
        let input = match initial {
            Some(s) => s,
            None => String::new(),
        };
        let cursor = input.as_str().len();
        ModalState::ApiKeyInput { provider, env_var, input, cursor }
    }

    pub fn new_provider_select() -> (r: Self)
        ensures
            r matches ModalState::ProviderSelect { providers, selected_index } && selected_index
                == 0 && strings_view(providers@) == provider_choices(),
    {
        let mut providers: Vec<String> = Vec::new();
        push_owned(&mut providers, "anthropic");
        push_owned(&mut providers, "openrouter");
        push_owned(&mut providers, "gemini");
        push_owned(&mut providers, "openai");
        push_owned(&mut providers, "deepseek");
        push_owned(&mut providers, "groq");
        push_owned(&mut providers, "minimax");
        push_owned(&mut providers, "z.ai");
        push_owned(&mut providers, "together");
        push_owned(&mut providers, "mistral");
        push_owned(&mut providers, "ollama");
        push_owned(&mut providers, "lmstudio");
        push_owned(&mut providers, "vllm");
        push_owned(&mut providers, "localhost");
        assert(strings_view(providers@) =~= provider_choices());
        ModalState::ProviderSelect { providers, selected_index: 0 }
    }

    pub fn new_model_select(provider: String, models: Vec<ModelInfo>) -> (r: Self)
        ensures
            r matches ModalState::ModelSelect {
                provider: p,
                models: m,
                filtered_indices,
                selected_index,
                filter,
                loading,
            } && p == provider && m == models && filtered_indices@ == all_indices(models@.len())
                && selected_index == 0 && filter@.len() == 0 && !loading,
    {
        let count = models.len();
        ModalState::ModelSelect {
            provider,
            models,
            filtered_indices: index_range(count),
            selected_index: 0,
            filter: String::new(),
            loading: false,
        }
    }

    /// Undo browser listing one checkpoint per backup manifest, the first marked latest.
    pub fn new_undo_checkpoint(manifests: Vec<BackupManifest>) -> (r: Self)
        ensures
            r matches ModalState::UndoCheckpoint { checkpoints, selected_index } && selected_index
                == 0 && checkpoints@.len() == manifests@.len() && forall|i: int|
                0 <= i < manifests@.len() ==> checkpoint_of(
                    #[trigger] checkpoints@[i],
                    manifests@[i],
                    i,
                ),
    {
        ModalState::UndoCheckpoint { checkpoints: checkpoint_list(&manifests), selected_index: 0 }
    }

    /// Theme picker over `themes`, preselecting the first theme whose identifier equals
    /// `active_theme_id` or is a prefix of it (else the first theme).
    pub fn new_theme_select(active_theme_id: &str, themes: Vec<ThemeInfo>) -> (r: Self)
        ensures
            r matches ModalState::ThemeSelect { themes: t, selected_index } && t == themes && ((
            selected_index < themes@.len() && theme_matches(
                themes@[selected_index as int],
                active_theme_id@,
            ) && forall|j: int|
                0 <= j < selected_index ==> !theme_matches(themes@[j], active_theme_id@)) || (
            selected_index == 0 && forall|j: int|
                0 <= j < themes@.len() ==> !theme_matches(themes@[j], active_theme_id@))),
    {
        let active = crate::text::chars_of(active_theme_id);
        let mut i: usize = 0;
        while i < themes.len()
            invariant
                i <= themes@.len(),
                active@ == active_theme_id@,
                forall|j: int| 0 <= j < i ==> !theme_matches(themes@[j], active_theme_id@),
            decreases themes@.len() - i,
        {
            let id = crate::text::chars_of(themes[i].id.as_str());
            if crate::text::chars_eq(&id, &active) || crate::text::chars_starts_with(&active, &id) {
                return ModalState::ThemeSelect { themes, selected_index: i };
            }
            i += 1;
        }
        ModalState::ThemeSelect { themes, selected_index: 0 }
    }

    pub fn new_session_browser(
        sessions: Vec<SessionMetadata>,
        cached_summary: Option<SessionSummary>,
    ) -> (r: Self)
        ensures
            r matches ModalState::SessionBrowser { sessions: s, selected_index, cached_summary: c }
                && s == sessions && selected_index == 0 && c == cached_summary,
    {
        ModalState::SessionBrowser { sessions, selected_index: 0, cached_summary }
    }

    /// Stack picker over `stacks`, all listed.
    pub fn new_stack_select(stacks: Vec<Stack>) -> (r: Self)
        ensures
            r matches ModalState::StackSelect { stacks: s, filtered_indices, selected_index, filter }
                && s == stacks && filtered_indices@ == all_indices(stacks@.len()) && selected_index
                == 0 && filter@.len() == 0,
    {
        let count = stacks.len();
        ModalState::StackSelect {
            stacks,
            filtered_indices: index_range(count),
            selected_index: 0,
            filter: String::new(),
        }
    }

    pub fn new_command_catalog() -> (r: Self)
        ensures
            r matches ModalState::CommandCatalog { filtered_indices, selected_index, filter }
                && filtered_indices@ == all_indices(command_catalog_view().len()) && selected_index
                == 0 && filter@.len() == 0,
    {
        let count = command_catalog_items().len();
        ModalState::CommandCatalog {
            filtered_indices: index_range(count),
            selected_index: 0,
            filter: String::new(),
        }
    }

    /// Code explorer over the symbols found in the workspace, all listed.
    pub fn new_code_explorer(symbols: Vec<CodeExploreMatch>) -> (r: Self)
        ensures
            r matches ModalState::CodeExplorer {
                symbols: s,
                filtered_indices,
                selected_index,
                filter,
                active_tab,
            } && s == symbols && filtered_indices@ == all_indices(symbols@.len())
                && selected_index == 0 && filter@.len() == 0 && active_tab == 0,
    {
        let count = symbols.len();
        ModalState::CodeExplorer {
            symbols,
            filtered_indices: index_range(count),
            selected_index: 0,
            filter: String::new(),
            active_tab: 0,
        }
    }

    pub fn new_git_diff(diff_files: Vec<GitDiffFile>, staged_view: bool) -> (r: Self)
        ensures
            r matches ModalState::GitDiff {
                diff_files: d,
                selected_file_index,
                scroll_offset,
                staged_view: s,
            } && d == diff_files && selected_file_index == 0 && scroll_offset == 0 && s
                == staged_view,
    {
        ModalState::GitDiff { diff_files, selected_file_index: 0, scroll_offset: 0, staged_view }
    }

    /// Streaming mode picker with the current mode preselected ("on" first, "off" second).
    pub fn new_streaming_select(current_streaming: bool) -> (r: Self)
        ensures
            r matches ModalState::StreamingSelect { selected_index, current_streaming: c } && c
                == current_streaming && selected_index == if current_streaming {
                0usize
            } else {
                1usize
            },
    {
        let selected_index = if current_streaming {
            0
        } else {
            1
        };
        ModalState::StreamingSelect { selected_index, current_streaming }
    }

    /// Workspace analysis prompt. `workspace_root` is the root as displayed, `home` the home
    /// directory when known, `is_indexed` whether a code graph file exists and `snapshot` the
    /// symbol and file counts of the stored graph when it could be loaded.
    pub fn new_workspace_analysis(
        workspace_root: &str,
        home: Option<&str>,
        is_indexed: bool,
        snapshot: Option<(usize, usize)>,
    ) -> (r: Self)
        ensures
            r matches ModalState::WorkspaceAnalysis {
                workspace_path,
                is_indexed: idx,
                cached_symbols_count,
                cached_files_count,
                selected_index,
            } && idx == is_indexed && selected_index == 0 && workspace_path@
                == abbreviate_home_spec(
                workspace_root@,
                match home {
                    Some(h) => Some(h@),
                    None => None,
                },
            ) && (cached_symbols_count, cached_files_count) == match snapshot {
                Some(c) => if is_indexed {
                    c
                } else {
                    (0usize, 0usize)
                },
                None => (0usize, 0usize),
            },
    {
        let (cached_symbols_count, cached_files_count) = match snapshot {
            Some(c) => if is_indexed {
                c
            } else {
                (0, 0)
            },
            None => (0, 0),
        };
        ModalState::WorkspaceAnalysis {
            workspace_path: abbreviate_home(workspace_root, home),
            is_indexed,
            cached_symbols_count,
            cached_files_count,
            selected_index: 0,
        }
    }

    /// Recomputes the filtered list of a filterable modal from its filter text (trimmed and
    /// lower-cased) and clamps the selection into the new list; other modals are unchanged.
    pub fn update_filter(&mut self)
        ensures
            match *old(self) {
                ModalState::ModelSelect { provider, models, selected_index, filter, loading, .. } => {
                    &&& *final(self) matches ModalState::ModelSelect {
                        provider: p2,
                        models: m2,
                        filtered_indices: fi,
                        selected_index: si,
                        filter: f2,
                        loading: l2,
                    }
                    &&& p2 == provider && m2 == models && f2 == filter && l2 == loading
                    &&& fi@ == filter_models(models@, normalized_filter(filter@))
                    &&& si == clamp_selection(selected_index as nat, fi@.len())
                },
                ModalState::StackSelect { stacks, selected_index, filter, .. } => {
                    &&& *final(self) matches ModalState::StackSelect {
                        stacks: s2,
                        filtered_indices: fi,
                        selected_index: si,
                        filter: f2,
                    }
                    &&& s2 == stacks && f2 == filter
                    &&& fi@ == filter_stacks(stacks@, normalized_filter(filter@))
                    &&& si == clamp_selection(selected_index as nat, fi@.len())
                },
                ModalState::CommandCatalog { selected_index, filter, .. } => {
                    &&& *final(self) matches ModalState::CommandCatalog {
                        filtered_indices: fi,
                        selected_index: si,
                        filter: f2,
                    }
                    &&& f2 == filter
                    &&& fi@ == filter_catalog(command_catalog_view(), normalized_filter(filter@))
                    &&& si == clamp_selection(selected_index as nat, fi@.len())
                },
                ModalState::CodeExplorer { symbols, selected_index, filter, active_tab, .. } => {
                    &&& *final(self) matches ModalState::CodeExplorer {
                        symbols: s2,
                        filtered_indices: fi,
                        selected_index: si,
                        filter: f2,
                        active_tab: t2,
                    }
                    &&& s2 == symbols && f2 == filter && t2 == active_tab
                    &&& fi@ == filter_symbols(symbols@, normalized_filter(filter@))
                    &&& si == clamp_selection(selected_index as nat, fi@.len())
                },
                _ => *final(self) == *old(self),
            },
    {
        match self {
            ModalState::ModelSelect { models, filtered_indices, selected_index, filter, .. } => {
                let f = normalize_filter(filter.as_str());
                let fi = filter_models_exec(models, f.as_str());
                *selected_index = clamp_selection_exec(*selected_index, fi.len());
                *filtered_indices = fi;
            },
            ModalState::StackSelect { stacks, filtered_indices, selected_index, filter } => {
                let f = normalize_filter(filter.as_str());
                let fi = filter_stacks_exec(stacks, f.as_str());
                *selected_index = clamp_selection_exec(*selected_index, fi.len());
                *filtered_indices = fi;
            },
            ModalState::CommandCatalog { filtered_indices, selected_index, filter } => {
                let f = normalize_filter(filter.as_str());
                let fi = filter_catalog_exec(command_catalog_items(), f.as_str());
                *selected_index = clamp_selection_exec(*selected_index, fi.len());
                *filtered_indices = fi;
            },
            ModalState::CodeExplorer { symbols, filtered_indices, selected_index, filter, .. } => {
                let f = normalize_filter(filter.as_str());
                let fi = filter_symbols_exec(symbols, f.as_str());
                *selected_index = clamp_selection_exec(*selected_index, fi.len());
                *filtered_indices = fi;
            },
            _ => {},
        }
    }
}

/// After refiltering, every listed index names an entry that matches the filter, the
/// indices increase, no matching entry is left out, and the selection lies in the list (or
/// is 0 for an empty list).
pub proof fn lemma_model_filter_exact(models: Seq<ModelInfo>, f: Seq<char>, selected: nat)
    requires
        models.len() <= usize::MAX,
    ensures
        forall|k: int|
            0 <= k < filter_models(models, f).len() ==> {
                let i = #[trigger] filter_models(models, f)[k] as int;
                i < models.len() && model_matches(models[i], f)
            },
        forall|k1: int, k2: int|
            0 <= k1 < k2 < filter_models(models, f).len() ==> #[trigger] filter_models(models, f)[k1]
                < #[trigger] filter_models(models, f)[k2],
        forall|i: int|
            0 <= i < models.len() && model_matches(models[i], f) ==> #[trigger] filter_models(
                models,
                f,
            ).contains(i as usize),
        clamp_selection(selected, filter_models(models, f).len()) < filter_models(models, f).len()
            || clamp_selection(selected, filter_models(models, f).len()) == 0,
{
    lemma_indices_where(models.len(), |i: int| model_matches(models[i], f));
}

/// The model picker lists exactly the models whose identifier or display name contains
/// the filter ignoring case (every model for an empty filter): a model whose identifier
/// alone contains it is listed too.
pub proof fn law_model_filter_by_id_or_name(models: Seq<ModelInfo>, f: Seq<char>, i: int)
    requires
        models.len() <= usize::MAX,
        0 <= i < models.len(),
    ensures
        contains_ci_spec(models[i].id@, f) ==> filter_models(models, f).contains(i as usize),
        contains_ci_spec(models[i].name@, f) ==> filter_models(models, f).contains(i as usize),
        filter_models(models, f).contains(i as usize) <==> (f.len() == 0 || contains_ci_spec(
            models[i].id@,
            f,
        ) || contains_ci_spec(models[i].name@, f)),
{
    lemma_indices_where(models.len(), |j: int| model_matches(models[j], f));
    if filter_models(models, f).contains(i as usize) {
        let k = choose|k: int| 0 <= k < filter_models(models, f).len() && filter_models(models, f)[k] == i as usize;
        assert(filter_models(models, f)[k] == i as usize);
    }
}

/// An empty (or blank) filter lists every entry.
pub proof fn lemma_blank_filter_lists_all(models: Seq<ModelInfo>)
    ensures
        filter_models(models, Seq::empty()) == all_indices(models.len()),
    decreases models.len(),
{
    lemma_indices_where_all(models.len(), |i: int| model_matches(models[i], Seq::empty()));
}

proof fn lemma_indices_where_all(n: nat, f: spec_fn(int) -> bool)
    requires
        forall|i: int| 0 <= i < n ==> #[trigger] f(i),
    ensures
        indices_where(n, f) == all_indices(n),
    decreases n,
{
    if n > 0 {
        lemma_indices_where_all((n - 1) as nat, f);
        assert(indices_where(n, f) =~= all_indices(n));
    } else {
        assert(indices_where(n, f) =~= all_indices(n));
    }
}

/// Last component of a path (`Path::file_name` as UTF-8), when it has one.
pub uninterp spec fn path_file_name(p: Seq<char>) -> Option<Seq<char>>;

/// `std::path::Path::new(p).file_name()` converted with `OsStr::to_str`; the result is the
/// name `path_file_name` of the path text. A name it gives is a `Component::Normal` of the
/// path, which the path's parsing never makes empty.
#[verifier::external_body]
pub(crate) fn file_name_of(p: &str) -> (r: Option<String>)
    ensures
        match r {
            Some(s) => path_file_name(p@) == Some(s@) && s@.len() > 0,
            None => path_file_name(p@) is None,
        },
{
    std::path::Path::new(p).file_name().and_then(|n| n.to_str()).map(|s| s.to_owned())
}

} // verus!
