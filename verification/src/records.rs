//! Records produced by other parts of the agent (model catalogues, sessions, stacks, code
//! graph, git, process supervisor, verification barrier) that the UI state reads.
//! Each holds, as plain values, the fields that the UI logic uses.

use vstd::prelude::*;

verus! {

/// A model offered by a provider.
#[derive(Debug, Clone)]
pub struct ModelInfo {
    pub id: String,
    pub name: String,
    pub description: Option<String>,
    pub context_length: Option<usize>,
    pub is_free: bool,
}

/// A selectable colour theme.
#[derive(Debug, Clone)]
pub struct ThemeInfo {
    pub id: String,
    pub name: String,
    pub description: String,
    /// Sample colours of the theme, as red, green and blue.
    pub swatches: Vec<(u8, u8, u8)>,
}

/// One stored session as listed in the session browser.
#[derive(Debug, Clone)]
pub struct SessionMetadata {
    pub id: String,
    pub created_at: String,
    pub workspace: String,
    pub path: String,
    pub event_count: usize,
    pub preview: String,
}

/// Summary of the session that the session browser shows beside the list.
#[derive(Debug, Clone)]
pub struct SessionSummary {
    pub id: String,
    pub created_at: String,
    pub model: String,
    pub total_turns: usize,
    pub total_events: usize,
    pub total_tokens: usize,
    pub total_duration_ms: u64,
    /// Tools called in the session with their call counts, in the order listed.
    pub tools_used: Vec<(String, usize)>,
    pub first_prompt: String,
    pub files_touched: Vec<String>,
    pub last_response: String,
}

/// A scaffolding stack template.
#[derive(Debug, Clone)]
pub struct Stack {
    pub name: String,
    pub runtime: String,
    pub description: String,
    pub packages: Vec<String>,
    /// Paths of the files the stack scaffolds.
    pub files: Vec<String>,
}

/// A call from or to a symbol.
#[derive(Debug, Clone)]
pub struct CallSite {
    pub name: String,
    pub file_path: String,
    pub line: usize,
}

/// A symbol found by the code explorer.
#[derive(Debug, Clone)]
pub struct CodeExploreMatch {
    pub symbol_name: String,
    pub kind: String,
    pub file_path: String,
    pub signature: String,
    /// Display name of the architectural layer of the symbol's file.
    pub layer_name: String,
    /// Short badge of that layer, as the list shows it.
    pub layer_badge: String,
    /// First line of the definition.
    pub line_start: usize,
    /// Last line of the definition.
    pub line_end: usize,
    pub doc_comment: Option<String>,
    pub source_code: Option<String>,
    pub callers: Vec<CallSite>,
    pub callees: Vec<CallSite>,
    /// Files that depend directly on the symbol.
    pub blast_radius_files: Vec<String>,
}

/// One line of a file's diff: its tag (`+`, `-`, `@` or another), its numbers in the old
/// and new file, and its text.
#[derive(Debug, Clone)]
pub struct GitDiffLine {
    pub tag: char,
    pub old_lineno: Option<usize>,
    pub new_lineno: Option<usize>,
    pub content: String,
}

/// One changed file in a git diff.
#[derive(Debug, Clone)]
pub struct GitDiffFile {
    pub path: String,
    pub status_char: char,
    pub additions: usize,
    pub deletions: usize,
    pub lines: Vec<GitDiffLine>,
}

/// An import that crosses a layer boundary the wrong way.
#[derive(Debug, Clone)]
pub struct LayerViolation {
    pub rule_id: String,
    pub source_file: String,
    pub line_number: usize,
    pub target_module: String,
    pub message: String,
}

/// Role of a module by its instability: stable core (under 0.3), leaf (over 0.7), or
/// mediator.
#[derive(Debug, Clone, Copy, PartialEq, Eq, Structural)]
pub enum CouplingRole {
    Core,
    Mediator,
    Leaf,
}

/// Coupling of one module: incoming (Ca) and outgoing (Ce) dependencies and the
/// instability Ce / (Ca + Ce), given as text with two decimals.
#[derive(Debug, Clone)]
pub struct CouplingMetric {
    pub module_name: String,
    pub file_count: usize,
    pub total_loc: usize,
    pub afferent_coupling: usize,
    pub efferent_coupling: usize,
    pub instability_text: String,
    pub role: CouplingRole,
}

/// Result of the architecture governor.
#[derive(Debug, Clone)]
pub struct ArchitectureReport {
    pub health_score: u32,
    pub total_files: usize,
    pub total_loc: usize,
    pub circular_cycles: Vec<Vec<String>>,
    pub layer_violations: Vec<LayerViolation>,
    pub coupling_metrics: Vec<CouplingMetric>,
    /// Files over the size limit, with their line counts.
    pub god_files: Vec<(String, usize)>,
    pub fan_out_spikes: Vec<String>,
}

/// One file saved in a turn backup.
#[derive(Debug, Clone)]
pub struct BackupFile {
    pub original_path: String,
}

/// Backup manifest of one agent turn.
#[derive(Debug, Clone)]
pub struct BackupManifest {
    pub turn_id: usize,
    pub timestamp: String,
    pub user_prompt: Option<String>,
    pub files: Vec<BackupFile>,
}

/// Kind of a supervised development process.
#[derive(Debug, Clone, Copy, PartialEq, Eq, Structural)]
pub enum DevProcessType {
    Frontend,
    Backend,
    Docker,
    Worker,
}

/// Run state of a supervised development process.
#[derive(Debug, Clone, Copy, PartialEq, Eq, Structural)]
pub enum DevProcessStatus {
    Running,
    Healthy,
    Degraded,
    Stopped,
    Exited,
    Killed,
}

/// How a process's port was settled when it started.
#[derive(Debug, Clone, Copy)]
pub enum PortResolution {
    Shifted { requested: u16, resolved: u16 },
    Reclaimed { port: u16 },
    Unchanged { port: u16 },
    Ignored,
}

/// When the watchdog restarts a process.
#[derive(Debug, Clone, Copy)]
pub enum RestartPolicy {
    Never,
    OnFailure { max_retries: u32, backoff_ms: u64 },
    Always { max_retries: u32, backoff_ms: u64 },
}

/// A supervised development process as listed by the process monitor.
#[derive(Debug, Clone)]
pub struct DevProcessSummary {
    pub id: String,
    pub name: String,
    pub process_type: DevProcessType,
    pub status: DevProcessStatus,
    /// Why the process is degraded, shown while its status is `Degraded`.
    pub degraded_reason: String,
    pub pid: Option<u32>,
    pub ports: Vec<u16>,
    pub url: Option<String>,
    pub uptime_secs: u64,
    pub restart_count: u32,
    pub port_resolution: Option<PortResolution>,
    pub restart_policy: RestartPolicy,
}

/// Aggregate resource usage of the supervised processes (integer fields only).
#[derive(Debug, Clone)]
pub struct RuntimeResourceSummary {
    pub total_active_processes: usize,
    pub active_ports: Vec<u16>,
}

/// Outcome of one verification gate.
#[derive(Debug, Clone)]
pub enum GateStatus {
    Passed,
    Skipped { reason: String },
    Failed { reason: String, actionable_remediation: String },
}

/// Result of the four-gate verification barrier.
#[derive(Debug, Clone)]
pub struct VerificationReport {
    pub all_passed: bool,
    pub gate1_syntax_compiler: GateStatus,
    pub gate2_reproducer_test: GateStatus,
    pub gate3_regression_conflicts: GateStatus,
    pub gate4_diff_sanity: GateStatus,
}

/// Result of probing one provider connection.
#[derive(Debug, Clone)]
pub struct ConnectionTestResult {
    pub provider: String,
    pub status: String,
    pub latency_ms: u64,
    pub http_status: Option<u16>,
    pub key_source: String,
    pub key_masked: String,
    pub model_count: usize,
    pub error: Option<String>,
}

/// A change of configuration that the agent asks the user to approve; each field set is a
/// value to change, `scope` names where it is saved (`global` or the workspace).
#[derive(Debug, Clone)]
pub struct ConfigChangeProposal {
    pub provider: Option<String>,
    pub model: Option<String>,
    pub auto_approve: Option<bool>,
    pub thinking_budget: Option<u64>,
    pub theme: Option<String>,
    pub scope: String,
}

} // verus!
