//! State of the in-TUI process monitor (`/processes`, `/dev`).

use vstd::prelude::*;
use crate::records::{DevProcessSummary, DevProcessType, RuntimeResourceSummary};
use crate::text::{
    chars_contains, chars_of, decimal, indices_where, lemma_indices_where, lowercase,
    lowercase_chars, push_char, seq_contains, str_trim, trim, u64_to_decimal,
};

verus! {

/// Active tab within the `/processes` (`/dev`) modal dialog.
#[derive(Debug, Clone, Copy, PartialEq, Eq, Structural)]
pub enum ProcessesTab {
    All,
    Servers,
    Workers,
    Logs,
    Telemetry,
}

impl ProcessesTab {
    /// Position of the tab in `all()`.
    pub open spec fn index_spec(self) -> int {
        match self {
            ProcessesTab::All => 0,
            ProcessesTab::Servers => 1,
            ProcessesTab::Workers => 2,
            ProcessesTab::Logs => 3,
            ProcessesTab::Telemetry => 4,
        }
    }

    /// The tab that follows `self`, wrapping around.
    pub open spec fn next_spec(self) -> ProcessesTab {
        match self {
            ProcessesTab::All => ProcessesTab::Servers,
            ProcessesTab::Servers => ProcessesTab::Workers,
            ProcessesTab::Workers => ProcessesTab::Logs,
            ProcessesTab::Logs => ProcessesTab::Telemetry,
            ProcessesTab::Telemetry => ProcessesTab::All,
        }
    }

    /// The tab that precedes `self`, wrapping around.
    pub open spec fn prev_spec(self) -> ProcessesTab {
        match self {
            ProcessesTab::All => ProcessesTab::Telemetry,
            ProcessesTab::Servers => ProcessesTab::All,
            ProcessesTab::Workers => ProcessesTab::Servers,
            ProcessesTab::Logs => ProcessesTab::Workers,
            ProcessesTab::Telemetry => ProcessesTab::Logs,
        }
    }

    pub fn all() -> (r: &'static [ProcessesTab])
        ensures
            r@ == seq![
                ProcessesTab::All,
                ProcessesTab::Servers,
                ProcessesTab::Workers,
                ProcessesTab::Logs,
                ProcessesTab::Telemetry,
            ],
    {
        &[
            ProcessesTab::All,
            ProcessesTab::Servers,
            ProcessesTab::Workers,
            ProcessesTab::Logs,
            ProcessesTab::Telemetry,
        ]
    }

    pub fn title(&self) -> (r: &'static str)
        ensures
            r@ == (match *self {
                ProcessesTab::All => "All Processes"@,
                ProcessesTab::Servers => "Dev Servers"@,
                ProcessesTab::Workers => "Workers"@,
                ProcessesTab::Logs => "Live Logs"@,
                ProcessesTab::Telemetry => "Telemetry"@,
            }),
    {
        match self {
            ProcessesTab::All => "All Processes",
            ProcessesTab::Servers => "Dev Servers",
            ProcessesTab::Workers => "Workers",
            ProcessesTab::Logs => "Live Logs",
            ProcessesTab::Telemetry => "Telemetry",
        }
    }

    pub fn next(&self) -> (r: Self)
        ensures
            r == self.next_spec(),
    {
        match self {
            ProcessesTab::All => ProcessesTab::Servers,
            ProcessesTab::Servers => ProcessesTab::Workers,
            ProcessesTab::Workers => ProcessesTab::Logs,
            ProcessesTab::Logs => ProcessesTab::Telemetry,
            ProcessesTab::Telemetry => ProcessesTab::All,
        }
    }

    pub fn prev(&self) -> (r: Self)
        ensures
            r == self.prev_spec(),
    {
        match self {
            ProcessesTab::All => ProcessesTab::Telemetry,
            ProcessesTab::Servers => ProcessesTab::All,
            ProcessesTab::Workers => ProcessesTab::Servers,
            ProcessesTab::Logs => ProcessesTab::Workers,
            ProcessesTab::Telemetry => ProcessesTab::Logs,
        }
    }
}

/// `prev` undoes `next` and vice versa; `next` follows `all()` and returns after five steps.
pub proof fn lemma_processes_tab_cycle(t: ProcessesTab)
    ensures
        t.next_spec().prev_spec() == t,
        t.prev_spec().next_spec() == t,
        t.next_spec().index_spec() == (t.index_spec() + 1) % 5,
        t.next_spec().next_spec().next_spec().next_spec().next_spec() == t,
{
}

/// Lower-cased `Debug` name of a process type.
pub open spec fn process_type_name(t: DevProcessType) -> Seq<char> {
    match t {
        DevProcessType::Frontend => "frontend"@,
        DevProcessType::Backend => "backend"@,
        DevProcessType::Docker => "docker"@,
        DevProcessType::Worker => "worker"@,
    }
}

fn process_type_name_exec(t: DevProcessType) -> (r: &'static str)
    ensures
        r@ == process_type_name(t),
{
    match t {
        DevProcessType::Frontend => "frontend",
        DevProcessType::Backend => "backend",
        DevProcessType::Docker => "docker",
        DevProcessType::Worker => "worker",
    }
}

/// The process belongs on the tab.
pub open spec fn tab_matches(tab: ProcessesTab, p: DevProcessSummary) -> bool {
    match tab {
        ProcessesTab::Servers => {
            ||| p.process_type == DevProcessType::Frontend
            ||| p.process_type == DevProcessType::Backend
            ||| p.process_type == DevProcessType::Docker
            ||| p.ports@.len() > 0
            ||| p.url is Some
        },
        ProcessesTab::Workers => p.process_type == DevProcessType::Worker,
        _ => true,
    }
}

/// The process matches the (trimmed, lower-cased) search query `q`.
pub open spec fn query_matches(p: DevProcessSummary, q: Seq<char>) -> bool {
    ||| q.len() == 0
    ||| seq_contains(lowercase(p.id@), q)
    ||| seq_contains(lowercase(p.name@), q)
    ||| exists|k: int| 0 <= k < p.ports@.len() && seq_contains(decimal(p.ports@[k] as nat), q)
    ||| seq_contains(
        lowercase(
            match p.url {
                Some(u) => u@,
                None => Seq::<char>::empty(),
            },
        ),
        q,
    )
    ||| seq_contains(process_type_name(p.process_type), q)
}

/// Indices of the processes listed for the given tab and search query, in list order.
pub open spec fn filtered_processes(
    processes: Seq<DevProcessSummary>,
    tab: ProcessesTab,
    search_query: Seq<char>,
) -> Seq<usize> {
    indices_where(
        processes.len(),
        |i: int|
            tab_matches(tab, processes[i]) && query_matches(processes[i], lowercase(trim(search_query))),
    )
}

/// State for the interactive `/processes` (`/dev`, `F7`) modal dialog.
#[derive(Debug, Clone)]
pub struct ProcessesModalState {
    pub workspace_root: String,
    pub active_tab: ProcessesTab,
    pub selected_index: usize,
    pub search_query: String,
    pub is_searching: bool,
    pub processes: Vec<DevProcessSummary>,
    pub filtered_indices: Vec<usize>,
    pub resources: Option<RuntimeResourceSummary>,
    pub selected_logs: Vec<String>,
    pub log_scroll_offset: usize,
    pub auto_scroll_logs: bool,
    pub status_message: Option<String>,
}

/// `i` clamped into a list of length `len` (0 when the list is empty).
pub open spec fn clamp_index(i: nat, len: nat) -> nat {
    if i >= len {
        if len > 0 {
            (len - 1) as nat
        } else {
            0
        }
    } else {
        i
    }
}

/// The filtered list is up to date and the selection lies inside it (or is 0).
pub open spec fn processes_filter_consistent(s: ProcessesModalState) -> bool {
    &&& s.filtered_indices@ == filtered_processes(s.processes@, s.active_tab, s.search_query@)
    &&& (s.selected_index < s.filtered_indices@.len() || s.selected_index == 0)
}

/// Log scroll offset after switching to `tab`.
pub open spec fn log_offset_on_tab(tab: ProcessesTab, auto: bool, logs_len: nat) -> nat {
    if tab == ProcessesTab::Logs && auto && logs_len > 0 {
        (logs_len - 1) as nat
    } else {
        0
    }
}

fn port_matches(ports: &Vec<u16>, q: &Vec<char>) -> (b: bool)
    ensures
        b == exists|k: int| 0 <= k < ports@.len() && seq_contains(decimal(ports@[k] as nat), q@),
{
    let mut k: usize = 0;
    while k < ports.len()
        invariant
            k <= ports@.len(),
            forall|j: int| 0 <= j < k ==> !seq_contains(decimal(ports@[j] as nat), q@),
        decreases ports@.len() - k,
    {
        let d = u64_to_decimal(ports[k] as u64);
        if chars_contains(&d, q) {
            return true;
        }
        k += 1;
    }
    false
}

fn process_matches_query(p: &DevProcessSummary, q: &Vec<char>) -> (b: bool)
    ensures
        b == query_matches(*p, q@),
{
    if q.len() == 0 {
        return true;
    }
    let id_lower = lowercase_chars(&chars_of(p.id.as_str()));
    let name_lower = lowercase_chars(&chars_of(p.name.as_str()));
    let url_chars: Vec<char> = match &p.url {
        Some(u) => chars_of(u.as_str()),
        None => Vec::new(),
    };
    proof {
        assert(url_chars@ == match p.url {
            Some(u) => u@,
            None => Seq::<char>::empty(),
        });
    }
    let url_lower = lowercase_chars(&url_chars);
    let kind_name = chars_of(process_type_name_exec(p.process_type));
    chars_contains(&id_lower, q) || chars_contains(&name_lower, q) || port_matches(&p.ports, q)
        || chars_contains(&url_lower, q) || chars_contains(&kind_name, q)
}

fn process_matches_tab(tab: ProcessesTab, p: &DevProcessSummary) -> (b: bool)
    ensures
        b == tab_matches(tab, *p),
{
    match tab {
        ProcessesTab::Servers => {
            p.process_type == DevProcessType::Frontend || p.process_type == DevProcessType::Backend
                || p.process_type == DevProcessType::Docker || p.ports.len() > 0 || p.url.is_some()
        },
        ProcessesTab::Workers => p.process_type == DevProcessType::Worker,
        _ => true,
    }
}

impl ProcessesModalState {
    pub fn new(workspace: &str) -> (r: Self)
        ensures
            r.workspace_root@ == workspace@,
            r.active_tab == ProcessesTab::All,
            r.selected_index == 0,
            r.search_query@.len() == 0,
            !r.is_searching,
            r.processes@.len() == 0,
            r.filtered_indices@.len() == 0,
            r.resources is None,
            r.selected_logs@.len() == 0,
            r.log_scroll_offset == 0,
            r.auto_scroll_logs,
            r.status_message is None,
    {
        let mut state = Self {
            workspace_root: workspace.to_owned(),
            active_tab: ProcessesTab::All,
            selected_index: 0,
            search_query: String::new(),
            is_searching: false,
            processes: Vec::new(),
            filtered_indices: Vec::new(),
            resources: None,
            selected_logs: Vec::new(),
            log_scroll_offset: 0,
            auto_scroll_logs: true,
            status_message: None,
        };
        state.refresh_filtered();
        state
    }

    pub fn with_data(
        workspace: &str,
        processes: Vec<DevProcessSummary>,
        resources: Option<RuntimeResourceSummary>,
        logs: Vec<String>,
    ) -> (r: Self)
        ensures
            r.workspace_root@ == workspace@,
            r.active_tab == ProcessesTab::All,
            r.selected_index == 0,
            r.search_query@.len() == 0,
            !r.is_searching,
            r.processes@ == processes@,
            r.filtered_indices@ == filtered_processes(processes@, ProcessesTab::All, Seq::empty()),
            r.resources == resources,
            r.selected_logs@ == logs@,
            r.log_scroll_offset == if logs@.len() > 0 {
                logs@.len() - 1
            } else {
                0
            },
            r.auto_scroll_logs,
            r.status_message is None,
            processes_filter_consistent(r),
    {
        let initial_offset = if !logs.is_empty() {
            logs.len() - 1
        } else {
            0
        };
        let mut state = Self {
            workspace_root: workspace.to_owned(),
            active_tab: ProcessesTab::All,
            selected_index: 0,
            search_query: String::new(),
            is_searching: false,
            processes,
            filtered_indices: Vec::new(),
            resources,
            selected_logs: logs,
            log_scroll_offset: initial_offset,
            auto_scroll_logs: true,
            status_message: None,
        };
        state.refresh_filtered();
        state
    }

    pub fn update_data(
        &mut self,
        processes: Vec<DevProcessSummary>,
        resources: Option<RuntimeResourceSummary>,
    )
        ensures
            final(self).processes@ == processes@,
            final(self).resources == resources,
            final(self).filtered_indices@ == filtered_processes(
                processes@,
                old(self).active_tab,
                old(self).search_query@,
            ),
            final(self).selected_index == clamp_index(
                old(self).selected_index as nat,
                final(self).filtered_indices@.len(),
            ),
            final(self).active_tab == old(self).active_tab,
            final(self).search_query == old(self).search_query,
            final(self).selected_logs == old(self).selected_logs,
            final(self).log_scroll_offset == old(self).log_scroll_offset,
            processes_filter_consistent(*final(self)),
    {
        self.processes = processes;
        self.resources = resources;
        self.refresh_filtered();
    }

    pub fn set_logs(&mut self, logs: Vec<String>)
        ensures
            final(self).selected_logs@ == logs@,
            final(self).log_scroll_offset == if old(self).auto_scroll_logs && logs@.len() > 0 {
                logs@.len() - 1
            } else {
                old(self).log_scroll_offset as int
            },
            final(self).auto_scroll_logs == old(self).auto_scroll_logs,
            final(self).processes == old(self).processes,
            final(self).filtered_indices == old(self).filtered_indices,
            final(self).selected_index == old(self).selected_index,
            final(self).active_tab == old(self).active_tab,
    {
        self.selected_logs = logs;
        if self.auto_scroll_logs && !self.selected_logs.is_empty() {
            self.log_scroll_offset = self.selected_logs.len() - 1;
        }
    }

    /// Switches to `tab`, resetting the selection and refreshing the list.
    pub fn set_tab(&mut self, tab: ProcessesTab)
        ensures
            final(self).active_tab == tab,
            final(self).selected_index == 0,
            final(self).log_scroll_offset == log_offset_on_tab(
                tab,
                old(self).auto_scroll_logs,
                old(self).selected_logs@.len(),
            ),
            final(self).status_message is None,
            final(self).filtered_indices@ == filtered_processes(
                old(self).processes@,
                tab,
                old(self).search_query@,
            ),
            final(self).processes == old(self).processes,
            final(self).search_query == old(self).search_query,
            final(self).selected_logs == old(self).selected_logs,
            final(self).auto_scroll_logs == old(self).auto_scroll_logs,
            processes_filter_consistent(*final(self)),
    {
        self.active_tab = tab;
        self.selected_index = 0;
        if self.active_tab == ProcessesTab::Logs && self.auto_scroll_logs
            && !self.selected_logs.is_empty() {
            self.log_scroll_offset = self.selected_logs.len() - 1;
        } else {
            self.log_scroll_offset = 0;
        }
        self.status_message = None;
        self.refresh_filtered();
    }

    pub fn next_tab(&mut self)
        ensures
            final(self).active_tab == old(self).active_tab.next_spec(),
            final(self).selected_index == 0,
            final(self).log_scroll_offset == log_offset_on_tab(
                old(self).active_tab.next_spec(),
                old(self).auto_scroll_logs,
                old(self).selected_logs@.len(),
            ),
            final(self).status_message is None,
            final(self).filtered_indices@ == filtered_processes(
                old(self).processes@,
                old(self).active_tab.next_spec(),
                old(self).search_query@,
            ),
            final(self).processes == old(self).processes,
            final(self).search_query == old(self).search_query,
            final(self).selected_logs == old(self).selected_logs,
            processes_filter_consistent(*final(self)),
    {
        let t = self.active_tab.next();
        self.set_tab(t);
    }

    pub fn prev_tab(&mut self)
        ensures
            final(self).active_tab == old(self).active_tab.prev_spec(),
            final(self).selected_index == 0,
            final(self).log_scroll_offset == log_offset_on_tab(
                old(self).active_tab.prev_spec(),
                old(self).auto_scroll_logs,
                old(self).selected_logs@.len(),
            ),
            final(self).status_message is None,
            final(self).filtered_indices@ == filtered_processes(
                old(self).processes@,
                old(self).active_tab.prev_spec(),
                old(self).search_query@,
            ),
            final(self).processes == old(self).processes,
            final(self).search_query == old(self).search_query,
            final(self).selected_logs == old(self).selected_logs,
            processes_filter_consistent(*final(self)),
    {
        let t = self.active_tab.prev();
        self.set_tab(t);
    }

    pub fn select_next(&mut self)
        ensures
            final(self).selected_index == if old(self).filtered_indices@.len() == 0 {
                0
            } else if old(self).selected_index + 1 < old(self).filtered_indices@.len() {
                old(self).selected_index + 1
            } else {
                0
            },
            *final(self) == (ProcessesModalState {
                selected_index: final(self).selected_index,
                ..*old(self)
            }),
    {
        if self.filtered_indices.is_empty() {
            self.selected_index = 0;
            return ;
        }
        if self.selected_index < self.filtered_indices.len() - 1 {
            self.selected_index += 1;
        } else {
            self.selected_index = 0;
        }
    }

    pub fn select_prev(&mut self)
        ensures
            final(self).selected_index == if old(self).filtered_indices@.len() == 0 {
                0
            } else if old(self).selected_index > 0 {
                old(self).selected_index - 1
            } else {
                old(self).filtered_indices@.len() - 1
            },
            final(self).filtered_indices == old(self).filtered_indices,
            final(self).processes == old(self).processes,
            final(self).active_tab == old(self).active_tab,
            final(self).search_query == old(self).search_query,
    {
        if self.filtered_indices.is_empty() {
            self.selected_index = 0;
            return ;
        }
        if self.selected_index > 0 {
            self.selected_index -= 1;
        } else {
            self.selected_index = self.filtered_indices.len() - 1;
        }
    }

    pub fn scroll_logs_up(&mut self, delta: usize)
        ensures
            !final(self).auto_scroll_logs,
            final(self).log_scroll_offset == if old(self).log_scroll_offset >= delta {
                old(self).log_scroll_offset - delta
            } else {
                0
            },
            *final(self) == (ProcessesModalState {
                auto_scroll_logs: false,
                log_scroll_offset: final(self).log_scroll_offset,
                ..*old(self)
            }),
    {
        self.auto_scroll_logs = false;
        self.log_scroll_offset = self.log_scroll_offset.saturating_sub(delta);
    }

    pub fn scroll_logs_down(&mut self, delta: usize)
        requires
            old(self).log_scroll_offset + delta <= usize::MAX,
        ensures
            ({
                let max_offset: int = if old(self).selected_logs@.len() > 0 {
                    old(self).selected_logs@.len() - 1
                } else {
                    0
                };
                let target: int = old(self).log_scroll_offset + delta;
                &&& final(self).log_scroll_offset == if target < max_offset {
                    target
                } else {
                    max_offset
                }
                &&& final(self).auto_scroll_logs == (old(self).auto_scroll_logs
                    || final(self).log_scroll_offset == max_offset)
            }),
            final(self).selected_logs == old(self).selected_logs,
    {
        let max_offset = if self.selected_logs.len() > 0 {
            self.selected_logs.len() - 1
        } else {
            0
        };
        let target = self.log_scroll_offset + delta;
        self.log_scroll_offset = if target < max_offset {
            target
        } else {
            max_offset
        };
        if self.log_scroll_offset == max_offset {
            self.auto_scroll_logs = true;
        }
    }

    pub fn selected_process(&self) -> (r: Option<&DevProcessSummary>)
        ensures
            r == if self.selected_index < self.filtered_indices@.len()
                && self.filtered_indices@[self.selected_index as int] < self.processes@.len() {
                Some(&self.processes@[self.filtered_indices@[self.selected_index as int] as int])
            } else {
                None
            },
    {
        if self.filtered_indices.is_empty() {
            return None;
        }
        if self.selected_index >= self.filtered_indices.len() {
            return None;
        }
        let actual_idx = self.filtered_indices[self.selected_index];
        if actual_idx >= self.processes.len() {
            return None;
        }
        Some(&self.processes[actual_idx])
    }

    pub fn handle_char(&mut self, c: char)
        ensures
            old(self).is_searching ==> {
                &&& final(self).search_query@ == old(self).search_query@.push(c)
                &&& final(self).filtered_indices@ == filtered_processes(
                    old(self).processes@,
                    old(self).active_tab,
                    final(self).search_query@,
                )
                &&& final(self).selected_index == clamp_index(
                    old(self).selected_index as nat,
                    final(self).filtered_indices@.len(),
                )
            },
            !old(self).is_searching ==> *final(self) == *old(self),
            final(self).processes == old(self).processes,
            final(self).active_tab == old(self).active_tab,
    {
        if self.is_searching {
            push_char(&mut self.search_query, c);
            self.refresh_filtered();
        }
    }

    pub fn handle_backspace(&mut self)
        ensures
            old(self).is_searching ==> {
                &&& final(self).search_query@ == if old(self).search_query@.len() > 0 {
                    old(self).search_query@.drop_last()
                } else {
                    old(self).search_query@
                }
                &&& final(self).filtered_indices@ == filtered_processes(
                    old(self).processes@,
                    old(self).active_tab,
                    final(self).search_query@,
                )
                &&& final(self).selected_index == clamp_index(
                    old(self).selected_index as nat,
                    final(self).filtered_indices@.len(),
                )
            },
            !old(self).is_searching ==> *final(self) == *old(self),
            final(self).processes == old(self).processes,
            final(self).active_tab == old(self).active_tab,
    {
        if self.is_searching {
            crate::text::pop_char(&mut self.search_query);
            self.refresh_filtered();
        }
    }

    pub fn refresh_filtered(&mut self)
        ensures
            final(self).filtered_indices@ == filtered_processes(
                old(self).processes@,
                old(self).active_tab,
                old(self).search_query@,
            ),
            final(self).selected_index == clamp_index(
                old(self).selected_index as nat,
                final(self).filtered_indices@.len(),
            ),
            final(self).processes == old(self).processes,
            final(self).active_tab == old(self).active_tab,
            final(self).search_query == old(self).search_query,
            final(self).is_searching == old(self).is_searching,
            final(self).selected_logs == old(self).selected_logs,
            final(self).log_scroll_offset == old(self).log_scroll_offset,
            final(self).auto_scroll_logs == old(self).auto_scroll_logs,
            final(self).resources == old(self).resources,
            final(self).workspace_root == old(self).workspace_root,
            final(self).status_message == old(self).status_message,
            processes_filter_consistent(*final(self)),
    {
        let trimmed = str_trim(self.search_query.as_str());
        let query = lowercase_chars(&chars_of(trimmed.as_str()));
        let ghost f = |i: int|
            tab_matches(old(self).active_tab, old(self).processes@[i]) && query_matches(
                old(self).processes@[i],
                lowercase(trim(old(self).search_query@)),
            );
        let mut matched: Vec<usize> = Vec::new();
        let mut idx: usize = 0;
        while idx < self.processes.len()
            invariant
                idx <= self.processes@.len(),
                self.processes == old(self).processes,
                self.active_tab == old(self).active_tab,
                self.search_query == old(self).search_query,
                f == (|i: int|
                    tab_matches(old(self).active_tab, old(self).processes@[i]) && query_matches(
                        old(self).processes@[i],
                        lowercase(trim(old(self).search_query@)),
                    )),
                query@ == lowercase(trim(self.search_query@)),
                matched@ == indices_where(idx as nat, f),
            decreases self.processes@.len() - idx,
        {
            let p = &self.processes[idx];
            let keep = process_matches_tab(self.active_tab, p) && process_matches_query(p, &query);
            assert(keep == f(idx as int));
            if keep {
                matched.push(idx);
            }
            idx += 1;
        }
        self.filtered_indices = matched;
        if self.selected_index >= self.filtered_indices.len() {
            self.selected_index = if self.filtered_indices.len() > 0 {
                self.filtered_indices.len() - 1
            } else {
                0
            };
        }
    }
}

/// Every index in the filtered list names a process that belongs on the active tab and
/// matches the query, the indices are increasing, and no such process is left out.
pub proof fn lemma_processes_filter_sound_complete(s: ProcessesModalState)
    requires
        processes_filter_consistent(s),
        s.processes@.len() <= usize::MAX,
    ensures
        forall|k: int|
            0 <= k < s.filtered_indices@.len() ==> {
                let i = #[trigger] s.filtered_indices@[k] as int;
                &&& i < s.processes@.len()
                &&& tab_matches(s.active_tab, s.processes@[i])
                &&& query_matches(s.processes@[i], lowercase(trim(s.search_query@)))
            },
        forall|k1: int, k2: int|
            0 <= k1 < k2 < s.filtered_indices@.len() ==> #[trigger] s.filtered_indices@[k1]
                < #[trigger] s.filtered_indices@[k2],
        forall|i: int|
            0 <= i < s.processes@.len() && tab_matches(s.active_tab, s.processes@[i])
                && query_matches(s.processes@[i], lowercase(trim(s.search_query@)))
                ==> #[trigger] s.filtered_indices@.contains(i as usize),
{
    let f = |i: int|
        tab_matches(s.active_tab, s.processes@[i]) && query_matches(
            s.processes@[i],
            lowercase(trim(s.search_query@)),
        );
    assert(s.filtered_indices@ == indices_where(s.processes@.len(), f));
    lemma_indices_where(s.processes@.len(), f);
}

} // verus!
