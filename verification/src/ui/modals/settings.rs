//! State of the `/settings` modal and its display helpers.

use vstd::prelude::*;
use vstd::utf8::*;
use vstd::string::StringSliceAdditionalSpecFns;
use crate::records::{ConnectionTestResult, ModelInfo};
use crate::text::{decimal, push_char, push_str, string_from_chars, u64_to_decimal};

verus! {

/// Providers that the settings modal lists on its Providers tab.
pub const SUPPORTED_PROVIDERS: [&'static str; 14] = [
    "anthropic",
    "openrouter",
    "gemini",
    "openai",
    "deepseek",
    "groq",
    "minimax",
    "z.ai",
    "together",
    "mistral",
    "ollama",
    "lmstudio",
    "vllm",
    "localhost",
];

/// Number of entries of `SUPPORTED_PROVIDERS`.
pub open spec fn supported_provider_count() -> nat {
    14
}

/// Bytes of `s` kept around the ellipsis when a text is cut to `max_len` bytes.
pub open spec fn truncate_kept(max_len: nat) -> nat {
    if max_len >= 3 {
        (max_len - 3) as nat
    } else {
        0
    }
}

/// Byte length of the kept head of `truncate_middle(s, max_len)`.
pub open spec fn truncate_prefix_len(max_len: nat) -> nat {
    truncate_kept(max_len) / 2
}

/// Byte length of the kept tail of `truncate_middle(s, max_len)`.
pub open spec fn truncate_suffix_len(max_len: nat) -> nat {
    (truncate_kept(max_len) - truncate_prefix_len(max_len)) as nat
}

/// `truncate_middle` leaves `s` as it is: it fits within `max_len` bytes.
pub open spec fn truncate_keeps(s: Seq<char>, max_len: nat) -> bool {
    encode_utf8(s).len() <= max_len
}

/// The cut points of `truncate_middle(s, max_len)` fall on character boundaries (or no cut
/// is made), and the byte length of `s` fits in `usize`.
pub open spec fn truncate_cut_ok(s: Seq<char>, max_len: nat) -> bool {
    &&& encode_utf8(s).len() <= usize::MAX
    &&& !truncate_keeps(s, max_len) ==> {
        &&& is_char_boundary(encode_utf8(s), truncate_prefix_len(max_len) as int)
        &&& is_char_boundary(encode_utf8(s), encode_utf8(s).len() - truncate_suffix_len(max_len))
    }
}

/// What `truncate_middle(s, max_len)` gives: `s` where it fits, else its first
/// `truncate_prefix_len` bytes, `...` and its last `truncate_suffix_len` bytes.
pub open spec fn truncated_middle(s: Seq<char>, max_len: nat) -> Seq<char> {
    if truncate_keeps(s, max_len) {
        s
    } else {
        decode_utf8(encode_utf8(s).take(truncate_prefix_len(max_len) as int)) + seq!['.', '.', '.']
            + decode_utf8(encode_utf8(s).skip(encode_utf8(s).len() - truncate_suffix_len(max_len)))
    }
}

/// Truncates a string in the middle with an ellipsis if it exceeds `max_len` bytes: the
/// first `k / 2` and the last `k - k / 2` bytes are kept around `...`, where `k` is
/// `max_len - 3` (0 for a smaller limit). The cut points are byte offsets; they must fall on
/// character boundaries.
pub fn truncate_middle(s: &str, max_len: usize) -> (r: String)
    requires
        truncate_cut_ok(s@, max_len as nat),
    ensures
        r@ == truncated_middle(s@, max_len as nat),
{
    let len = s.len();
    if len <= max_len {
        return s.to_owned();
    }
    let keep = max_len.saturating_sub(3);
    let prefix_len = keep / 2;
    let suffix_len = keep - prefix_len;
    let (head, _) = s.split_at(prefix_len);
    let (_, tail) = s.split_at(len - suffix_len);
    proof {
        encode_utf8_decode_utf8(head@);
        encode_utf8_decode_utf8(tail@);
        assert(head.spec_bytes() =~= encode_utf8(s@).take(prefix_len as int));
        assert(tail.spec_bytes() =~= encode_utf8(s@).skip(len - suffix_len));
    }
    let mut r = String::new();
    push_str(&mut r, head);
    push_char(&mut r, '.');
    push_char(&mut r, '.');
    push_char(&mut r, '.');
    push_str(&mut r, tail);
    proof {
        assert(r@ =~= head@ + seq!['.', '.', '.'] + tail@);
    }
    r
}

/// Compact rendering of a token count (`128k`, `2M`).
pub open spec fn format_context_tokens_spec(tokens: Option<usize>) -> Seq<char> {
    match tokens {
        Some(t) => if t >= 1_000_000 {
            decimal((t / 1_000_000) as nat).push('M')
        } else if t >= 1_000 {
            decimal((t / 1_000) as nat).push('k')
        } else {
            decimal(t as nat)
        },
        None => seq!['-'],
    }
}

/// Formats token counts into a compact human-readable string (e.g. 128k, 2M).
pub fn format_context_tokens(tokens: Option<usize>) -> (r: String)
    ensures
        r@ == format_context_tokens_spec(tokens),
{
    match tokens {
        Some(t) => {
            if t >= 1_000_000 {
                let mut d = u64_to_decimal((t / 1_000_000) as u64);
                d.push('M');
                string_from_chars(&d)
            } else if t >= 1_000 {
                let mut d = u64_to_decimal((t / 1_000) as u64);
                d.push('k');
                string_from_chars(&d)
            } else {
                let d = u64_to_decimal(t as u64);
                string_from_chars(&d)
            }
        },
        None => {
            let mut r = String::new();
            push_char(&mut r, '-');
            r
        },
    }
}

/// Active tab within the `/settings` modal.
#[derive(Debug, Clone, Copy, PartialEq, Eq, Structural)]
pub enum SettingsTab {
    Providers,
    Workspace,
    Autonomy,
    Probes,
}

impl SettingsTab {
    /// Position of the tab in `all()`.
    pub open spec fn index_spec(self) -> int {
        match self {
            SettingsTab::Providers => 0,
            SettingsTab::Workspace => 1,
            SettingsTab::Autonomy => 2,
            SettingsTab::Probes => 3,
        }
    }

    /// The tab that follows `self`, wrapping around.
    pub open spec fn next_spec(self) -> SettingsTab {
        match self {
            SettingsTab::Providers => SettingsTab::Workspace,
            SettingsTab::Workspace => SettingsTab::Autonomy,
            SettingsTab::Autonomy => SettingsTab::Probes,
            SettingsTab::Probes => SettingsTab::Providers,
        }
    }

    /// The tab that precedes `self`, wrapping around.
    pub open spec fn prev_spec(self) -> SettingsTab {
        match self {
            SettingsTab::Providers => SettingsTab::Probes,
            SettingsTab::Workspace => SettingsTab::Providers,
            SettingsTab::Autonomy => SettingsTab::Workspace,
            SettingsTab::Probes => SettingsTab::Autonomy,
        }
    }

    /// Returns all tabs in order.
    pub fn all() -> (r: &'static [SettingsTab])
        ensures
            r@ == seq![
                SettingsTab::Providers,
                SettingsTab::Workspace,
                SettingsTab::Autonomy,
                SettingsTab::Probes,
            ],
    {
        &[SettingsTab::Providers, SettingsTab::Workspace, SettingsTab::Autonomy, SettingsTab::Probes]
    }

    /// Tab display title.
    pub fn title(&self) -> (r: &'static str)
        ensures
            r@ == (match *self {
                SettingsTab::Providers => "1. Providers"@,
                SettingsTab::Workspace => "2. Workspace"@,
                SettingsTab::Autonomy => "3. Autonomy"@,
                SettingsTab::Probes => "4. Probes"@,
            }),
    {
        match self {
            SettingsTab::Providers => "1. Providers",
            SettingsTab::Workspace => "2. Workspace",
            SettingsTab::Autonomy => "3. Autonomy",
            SettingsTab::Probes => "4. Probes",
        }
    }

    /// Cycles to the next tab.
    pub fn next(&self) -> (r: Self)
        ensures
            r == self.next_spec(),
    {
        match self {
            SettingsTab::Providers => SettingsTab::Workspace,
            SettingsTab::Workspace => SettingsTab::Autonomy,
            SettingsTab::Autonomy => SettingsTab::Probes,
            SettingsTab::Probes => SettingsTab::Providers,
        }
    }

    /// Cycles to the previous tab.
    pub fn prev(&self) -> (r: Self)
        ensures
            r == self.prev_spec(),
    {
        match self {
            SettingsTab::Providers => SettingsTab::Probes,
            SettingsTab::Workspace => SettingsTab::Providers,
            SettingsTab::Autonomy => SettingsTab::Workspace,
            SettingsTab::Probes => SettingsTab::Autonomy,
        }
    }
}

/// `prev` undoes `next` and vice versa; `next` follows the order of `all()` and returns to
/// the start after four steps.
pub proof fn lemma_settings_tab_cycle(t: SettingsTab)
    ensures
        t.next_spec().prev_spec() == t,
        t.prev_spec().next_spec() == t,
        t.next_spec().index_spec() == (t.index_spec() + 1) % 4,
        t.next_spec().next_spec().next_spec().next_spec() == t,
{
}

/// Width and height of the settings modal in a terminal area: 88% of the width clamped to
/// 86..=110 columns and 82% of the height clamped to 24..=32 rows, neither beyond the area.
pub open spec fn settings_modal_size_spec(width: int, height: int) -> (int, int) {
    let w = width * 88 / 100;
    let h = height * 82 / 100;
    let cw = if w < 86 { 86 } else if w > 110 { 110 } else { w };
    let ch = if h < 24 { 24 } else if h > 32 { 32 } else { h };
    (if cw < width { cw } else { width }, if ch < height { ch } else { height })
}

/// The settings modal's size for an area of `width` by `height` cells. The percentages are
/// taken in 16-bit arithmetic, so the area is at most 744 columns and 799 rows wide.
pub fn settings_modal_size(width: u16, height: u16) -> (r: (u16, u16))
    requires
        width * 88 <= u16::MAX,
        height * 82 <= u16::MAX,
    ensures
        (r.0 as int, r.1 as int) == settings_modal_size_spec(width as int, height as int),
{
    let w = width * 88 / 100;
    let h = height * 82 / 100;
    let cw: u16 = if w < 86 { 86 } else if w > 110 { 110 } else { w };
    let ch: u16 = if h < 24 { 24 } else if h > 32 { 32 } else { h };
    (if cw < width { cw } else { width }, if ch < height { ch } else { height })
}

/// Sum of the widths `w[s..e]`.
pub open spec fn width_sum(w: Seq<usize>, s: int, e: int) -> int
    decreases e - s,
{
    if e <= s {
        0
    } else {
        width_sum(w, s, e - 1) + w[e - 1]
    }
}

/// Columns taken by tabs `s..=e` of a tab strip: their labels, two spaces between them and
/// a three-column arrow on each side where tabs are hidden.
pub open spec fn window_width(w: Seq<usize>, s: int, e: int) -> int {
    width_sum(w, s, e + 1) + (e - s) * 2 + (if s > 0 {
        3int
    } else {
        0
    }) + (if e + 1 < w.len() {
        3int
    } else {
        0
    })
}

/// One widening round: take the next tab on the right if the window still fits, then the
/// previous tab on the left if that still fits.
pub open spec fn widen_step(w: Seq<usize>, avail: int, s: int, e: int) -> (int, int) {
    let e2 = if e + 1 < w.len() && window_width(w, s, e + 1) <= avail {
        e + 1
    } else {
        e
    };
    let s2 = if s > 0 && window_width(w, s - 1, e2) <= avail {
        s - 1
    } else {
        s
    };
    (s2, e2)
}

/// The window of tabs shown when the whole strip does not fit: widening rounds from `s..=e`
/// until a round changes nothing.
pub open spec fn widened(w: Seq<usize>, avail: int, s: int, e: int) -> (int, int)
    decreases w.len() - (e - s),
{
    if !(0 <= s <= e < w.len()) {
        (s, e)
    } else {
        let next = widen_step(w, avail, s, e);
        if next.0 == s && next.1 == e {
            (s, e)
        } else {
            widened(w, avail, next.0, next.1)
        }
    }
}

/// Columns the whole strip of tabs takes, with two spaces between tabs and one on each side.
pub open spec fn strip_width(w: Seq<usize>) -> int {
    width_sum(w, 0, w.len() as int) + (if w.len() > 0 {
        (w.len() - 1) * 2
    } else {
        0
    }) + 2
}

proof fn lemma_width_sum_split(w: Seq<usize>, a: int, b: int, c: int)
    requires
        a <= b <= c,
    ensures
        width_sum(w, a, c) == width_sum(w, a, b) + width_sum(w, b, c),
    decreases c - b,
{
    if c > b {
        lemma_width_sum_split(w, a, b, c - 1);
    }
}

proof fn lemma_width_sum_nonneg(w: Seq<usize>, a: int, b: int)
    ensures
        width_sum(w, a, b) >= 0,
    decreases b - a,
{
    if b > a {
        lemma_width_sum_nonneg(w, a, b - 1);
    }
}

/// A sub-range sums to no more than the whole strip.
proof fn lemma_width_sum_within(w: Seq<usize>, s: int, e: int)
    requires
        0 <= s <= e <= w.len(),
    ensures
        width_sum(w, s, e) <= width_sum(w, 0, w.len() as int),
{
    lemma_width_sum_split(w, 0, s, w.len() as int);
    lemma_width_sum_split(w, s, e, w.len() as int);
    lemma_width_sum_nonneg(w, 0, s);
    lemma_width_sum_nonneg(w, e, w.len() as int);
}

fn range_sum(w: &Vec<usize>, s: usize, e: usize) -> (r: usize)
    requires
        s <= e <= w@.len(),
        width_sum(w@, 0, w@.len() as int) <= usize::MAX,
    ensures
        r == width_sum(w@, s as int, e as int),
{
    let mut r: usize = 0;
    let mut k: usize = s;
    while k < e
        invariant
            s <= k <= e <= w@.len(),
            width_sum(w@, 0, w@.len() as int) <= usize::MAX,
            r == width_sum(w@, s as int, k as int),
        decreases e - k,
    {
        proof {
            lemma_width_sum_within(w@, s as int, (k + 1) as int);
        }
        r = r + w[k];
        k += 1;
    }
    r
}

fn window_width_exec(w: &Vec<usize>, s: usize, e: usize) -> (r: usize)
    requires
        s <= e < w@.len(),
        width_sum(w@, 0, w@.len() as int) + 2 * w@.len() + 6 <= usize::MAX,
    ensures
        r == window_width(w@, s as int, e as int),
{
    proof {
        lemma_width_sum_nonneg(w@, 0, w@.len() as int);
        lemma_width_sum_within(w@, s as int, (e + 1) as int);
    }
    let mut r = range_sum(w, s, e + 1) + (e - s) * 2;
    if s > 0 {
        r = r + 3;
    }
    if e + 1 < w.len() {
        r = r + 3;
    }
    r
}

/// Columns the whole strip of tabs with label widths `w` takes.
pub fn tab_strip_width(w: &Vec<usize>) -> (r: usize)
    requires
        width_sum(w@, 0, w@.len() as int) + 2 * w@.len() + 6 <= usize::MAX,
    ensures
        r == strip_width(w@),
{
    proof {
        lemma_width_sum_nonneg(w@, 0, w@.len() as int);
    }
    let total = range_sum(w, 0, w.len());
    if w.len() > 0 {
        total + (w.len() - 1) * 2 + 2
    } else {
        total + 2
    }
}

/// The tabs `r.0..=r.1` shown around the active tab when the strip does not fit `avail`
/// columns: widening rounds from the active tab alone.
pub fn tab_window(w: &Vec<usize>, active: usize, avail: usize) -> (r: (usize, usize))
    requires
        active < w@.len(),
        width_sum(w@, 0, w@.len() as int) + 2 * w@.len() + 6 <= usize::MAX,
    ensures
        (r.0 as int, r.1 as int) == widened(w@, avail as int, active as int, active as int),
{
    let mut s = active;
    let mut e = active;
    while true
        invariant
            s <= e < w@.len(),
            width_sum(w@, 0, w@.len() as int) + 2 * w@.len() + 6 <= usize::MAX,
            widened(w@, avail as int, s as int, e as int) == widened(
                w@,
                avail as int,
                active as int,
                active as int,
            ),
        ensures
            (s as int, e as int) == widened(w@, avail as int, active as int, active as int),
        decreases w@.len() - (e - s),
    {
        proof {
            lemma_width_sum_nonneg(w@, 0, w@.len() as int);
        }
        let e2 = if e + 1 < w.len() && window_width_exec(w, s, e + 1) <= avail {
            e + 1
        } else {
            e
        };
        let s2 = if s > 0 && window_width_exec(w, s - 1, e2) <= avail {
            s - 1
        } else {
            s
        };
        assert(widen_step(w@, avail as int, s as int, e as int) == (s2 as int, e2 as int));
        if s2 == s && e2 == e {
            break;
        }
        s = s2;
        e = e2;
    }
    (s, e)
}

/// The shown window holds the active tab, stays within the strip, cannot take another tab
/// on either side, and fits the width unless it is the active tab alone.
pub proof fn lemma_tab_window(w: Seq<usize>, avail: int, active: int)
    requires
        0 <= active < w.len(),
    ensures
        ({
            let r = widened(w, avail, active, active);
            &&& 0 <= r.0 <= active <= r.1 < w.len()
            &&& widen_step(w, avail, r.0, r.1) == r
            &&& (r.0 < r.1 ==> window_width(w, r.0, r.1) <= avail)
        }),
{
    lemma_widened(w, avail, active, active);
}

proof fn lemma_widened(w: Seq<usize>, avail: int, s: int, e: int)
    requires
        0 <= s <= e < w.len(),
    ensures
        ({
            let r = widened(w, avail, s, e);
            &&& 0 <= r.0 <= s && e <= r.1 < w.len()
            &&& widen_step(w, avail, r.0, r.1) == r
            &&& (r != (s, e) ==> window_width(w, r.0, r.1) <= avail)
        }),
    decreases w.len() - (e - s),
{
    let next = widen_step(w, avail, s, e);
    if !(next.0 == s && next.1 == e) {
        lemma_widened(w, avail, next.0, next.1);
    }
}

/// Runtime configuration values that the settings modal shows and edits.
#[derive(Debug, Clone)]
pub struct ConfigSnapshot {
    pub provider: String,
    pub model: String,
    pub auto_approve: bool,
    pub thinking_budget: Option<usize>,
    pub approval_policy: String,
}

/// State tracking an interactive in-TUI `/settings` modal dialog.
#[derive(Debug, Clone)]
pub struct SettingsModalState {
    pub active_tab: SettingsTab,
    pub selected_index: usize,
    pub active_provider: String,
    pub active_model: String,
    pub workspace_path: String,
    pub save_to_workspace: bool,
    pub auto_approve: bool,
    pub thinking_budget: usize,
    pub approval_policy: String,
    pub probe_results: Option<Vec<ConnectionTestResult>>,
    pub probing: bool,
    pub selecting_model_for_provider: Option<String>,
    pub provider_models: Vec<ModelInfo>,
    pub model_selected_index: usize,
}

/// Number of selectable rows of the active tab, or of the model list while drilling down.
pub open spec fn max_items_spec(s: SettingsModalState) -> nat {
    if s.selecting_model_for_provider is Some {
        s.provider_models@.len()
    } else {
        match s.active_tab {
            SettingsTab::Providers => supported_provider_count(),
            SettingsTab::Workspace => 3,
            SettingsTab::Autonomy => 3,
            SettingsTab::Probes => 1,
        }
    }
}

impl SettingsModalState {
    /// Constructs the modal state from the runtime configuration. `workspace_path` is the
    /// workspace root as displayed; `home` the user's home directory when known; the two
    /// flags tell whether a workspace-local and a global configuration file exist.
    pub fn from_config(
        config: &ConfigSnapshot,
        workspace_path: &str,
        home: Option<&str>,
        has_local_config: bool,
        has_global_config: bool,
    ) -> (r: Self)
        ensures
            r.active_tab == SettingsTab::Providers,
            r.selected_index == 0,
            r.active_provider@ == config.provider@,
            r.active_model@ == config.model@,
            r.workspace_path@ == crate::ui::modals::common::abbreviate_home_spec(
                workspace_path@,
                match home {
                    Some(h) => Some(h@),
                    None => None,
                },
            ),
            r.save_to_workspace == (has_local_config || !has_global_config),
            r.auto_approve == config.auto_approve,
            r.thinking_budget == match config.thinking_budget {
                Some(b) => b,
                None => 0,
            },
            r.approval_policy@ == config.approval_policy@,
            r.probe_results is None,
            !r.probing,
            r.selecting_model_for_provider is None,
            r.provider_models@.len() == 0,
            r.model_selected_index == 0,
    {
        let workspace_path = crate::ui::modals::common::abbreviate_home(workspace_path, home);
        let thinking_budget = match config.thinking_budget {
            Some(b) => b,
            None => 0,
        };
        Self {
            active_tab: SettingsTab::Providers,
            selected_index: 0,
            active_provider: config.provider.clone(),
            active_model: config.model.clone(),
            workspace_path,
            save_to_workspace: has_local_config || !has_global_config,
            auto_approve: config.auto_approve,
            thinking_budget,
            approval_policy: config.approval_policy.clone(),
            probe_results: None,
            probing: false,
            selecting_model_for_provider: None,
            provider_models: Vec::new(),
            model_selected_index: 0,
        }
    }

    /// Switches to next tab and resets selection index and model drilldown.
    pub fn next_tab(&mut self)
        ensures
            final(self).active_tab == old(self).active_tab.next_spec(),
            final(self).provider_models@.len() == 0,
            *final(self) == (SettingsModalState {
                active_tab: final(self).active_tab,
                selected_index: 0,
                selecting_model_for_provider: None,
                provider_models: final(self).provider_models,
                model_selected_index: 0,
                ..*old(self)
            }),
    {
        self.selecting_model_for_provider = None;
        self.provider_models.clear();
        self.model_selected_index = 0;
        self.active_tab = self.active_tab.next();
        self.selected_index = 0;
    }

    /// Switches to previous tab and resets selection index and model drilldown.
    pub fn prev_tab(&mut self)
        ensures
            final(self).active_tab == old(self).active_tab.prev_spec(),
            final(self).provider_models@.len() == 0,
            *final(self) == (SettingsModalState {
                active_tab: final(self).active_tab,
                selected_index: 0,
                selecting_model_for_provider: None,
                provider_models: final(self).provider_models,
                model_selected_index: 0,
                ..*old(self)
            }),
    {
        self.selecting_model_for_provider = None;
        self.provider_models.clear();
        self.model_selected_index = 0;
        self.active_tab = self.active_tab.prev();
        self.selected_index = 0;
    }

    /// Returns the maximum selectable items for the active tab (or model list).
    pub fn max_items(&self) -> (r: usize)
        ensures
            r == max_items_spec(*self),
    {
        if self.selecting_model_for_provider.is_some() {
            return self.provider_models.len();
        }
        match self.active_tab {
            SettingsTab::Providers => SUPPORTED_PROVIDERS.len(),
            SettingsTab::Workspace => 3,
            SettingsTab::Autonomy => 3,
            SettingsTab::Probes => 1,
        }
    }

    /// Moves cursor down within the active tab or model drilldown.
    pub fn next_item(&mut self)
        ensures
            old(self).selecting_model_for_provider is Some ==> {
                &&& final(self).model_selected_index == if old(self).model_selected_index + 1
                    < old(self).provider_models@.len() {
                    old(self).model_selected_index + 1
                } else {
                    old(self).model_selected_index as int
                }
                &&& final(self).selected_index == old(self).selected_index
            },
            old(self).selecting_model_for_provider is None ==> {
                &&& final(self).selected_index == if old(self).selected_index + 1 < max_items_spec(
                    *old(self),
                ) {
                    old(self).selected_index + 1
                } else {
                    old(self).selected_index as int
                }
                &&& final(self).model_selected_index == old(self).model_selected_index
            },
            *final(self) == (SettingsModalState {
                selected_index: final(self).selected_index,
                model_selected_index: final(self).model_selected_index,
                ..*old(self)
            }),
    {
        if self.selecting_model_for_provider.is_some() {
            if !self.provider_models.is_empty() && self.model_selected_index
                < self.provider_models.len() - 1 {
                self.model_selected_index += 1;
            }
            return ;
        }
        let max = self.max_items();
        if max > 0 && self.selected_index < max - 1 {
            self.selected_index += 1;
        }
    }

    /// Moves cursor up within the active tab or model drilldown.
    pub fn prev_item(&mut self)
        ensures
            old(self).selecting_model_for_provider is Some ==> {
                &&& final(self).model_selected_index == if old(self).model_selected_index > 0 {
                    old(self).model_selected_index - 1
                } else {
                    0
                }
                &&& final(self).selected_index == old(self).selected_index
            },
            old(self).selecting_model_for_provider is None ==> {
                &&& final(self).selected_index == if old(self).selected_index > 0 {
                    old(self).selected_index - 1
                } else {
                    0
                }
                &&& final(self).model_selected_index == old(self).model_selected_index
            },
            *final(self) == (SettingsModalState {
                selected_index: final(self).selected_index,
                model_selected_index: final(self).model_selected_index,
                ..*old(self)
            }),
    {
        if self.selecting_model_for_provider.is_some() {
            self.model_selected_index = self.model_selected_index.saturating_sub(1);
            return ;
        }
        self.selected_index = self.selected_index.saturating_sub(1);
    }
}

/// The cursor of the active list never leaves it: from a position inside the list (or 0),
/// `next_item` and `prev_item` keep it inside the list (or at 0 when the list is empty).
pub proof fn lemma_settings_cursor_in_bounds(i: nat, max: nat)
    requires
        i < max || i == 0,
    ensures
        ({
            let down: nat = if i + 1 < max { i + 1 } else { i };
            down < max || down == 0
        }),
        ({
            let up: nat = if i > 0 { (i - 1) as nat } else { 0 };
            up < max || up == 0
        }),
{
}

} // verus!
