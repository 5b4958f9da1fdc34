use minicode::records::{ConnectionTestResult, ModelInfo};
use minicode::ui::modals::settings::{ConfigSnapshot, SettingsModalState, SettingsTab};
use minicode::ui::modals::settings_view::{
    autonomy_tab_lines, model_list_lines, probes_tab_lines, providers_list_lines,
    settings_content_lines, settings_divider, settings_footer, settings_tab_bar,
    workspace_tab_lines,
};
use minicode::ui::styled::{StyledLine, ThemeColor};

fn texts(l: &StyledLine) -> Vec<String> {
    l.spans.iter().map(|s| s.text.clone()).collect()
}

fn state() -> SettingsModalState {
    let config = ConfigSnapshot {
        provider: "openrouter".to_string(),
        model: "anthropic/sonnet-3.7".to_string(),
        auto_approve: false,
        thinking_budget: None,
        approval_policy: "strict".to_string(),
    };
    SettingsModalState::from_config(&config, "/tmp/ws", None, false, false)
}

fn probe(provider: &str, status: &str, latency_ms: u64) -> ConnectionTestResult {
    ConnectionTestResult {
        provider: provider.to_string(),
        status: status.to_string(),
        latency_ms,
        http_status: None,
        key_source: String::new(),
        key_masked: String::new(),
        model_count: 0,
        error: None,
    }
}

fn model(id: &str, context_length: Option<usize>) -> ModelInfo {
    ModelInfo {
        id: id.to_string(),
        name: id.to_string(),
        description: None,
        context_length,
        is_free: false,
    }
}

fn defaults() -> Vec<String> {
    (0..14).map(|i| format!("model-{}", i)).collect()
}

#[test]
fn tab_bar_shows_every_tab_when_it_fits() {
    let bar = settings_tab_bar(SettingsTab::Workspace, 100);
    assert_eq!(
        texts(&bar),
        vec![
            " ",
            " [ 1. Providers ] ",
            "  ",
            " [ 2. Workspace ] ",
            "  ",
            " [ 3. Autonomy ] ",
            "  ",
            " [ 4. Probes ] ",
        ]
    );
    assert_eq!(bar.spans[3].style.bg, Some(ThemeColor::BrandAccent));
    assert_eq!(bar.spans[3].style.fg, Some(ThemeColor::BgPrimary));
    assert_eq!(bar.spans[1].style.fg, Some(ThemeColor::TextPrimary));
    assert_eq!(bar.spans[1].style.bg, None);
}

#[test]
fn tab_bar_scrolls_around_the_active_tab_when_narrow() {
    let bar = settings_tab_bar(SettingsTab::Autonomy, 40);
    assert_eq!(texts(&bar), vec!["◀ ", " [ 3. Autonomy ] ", "  ", " [ 4. Probes ] "]);
    let first = settings_tab_bar(SettingsTab::Providers, 40);
    assert_eq!(texts(&first), vec![" ", " [ 1. Providers ] ", " ▶"]);
}

#[test]
fn divider_fills_the_width() {
    let d = settings_divider(5);
    assert_eq!(texts(&d), vec!["─────"]);
    assert_eq!(d.spans[0].style.fg, Some(ThemeColor::Border));
}

#[test]
fn workspace_tab_cuts_a_long_path_in_the_middle() {
    let mut s = state();
    s.active_tab = SettingsTab::Workspace;
    s.workspace_path = "/home/user/projects/some/very/deeply/nested/repository".to_string();
    s.selected_index = 1;
    let lines = workspace_tab_lines(&s, 40);
    assert_eq!(lines.len(), 11);
    assert_eq!(texts(&lines[1])[0], "    ");
    assert_eq!(texts(&lines[1])[2], "/home/us...epository");
    assert_eq!(texts(&lines[3])[0], "  ❯ ");
    assert_eq!(texts(&lines[3])[2], "openrouter → anthropic/sonnet-3.7");
    assert_eq!(texts(&lines[7])[1], "[●] Workspace only (.minicode/config.toml)");
    assert_eq!(lines[7].spans[1].style.fg, Some(ThemeColor::Success));
    assert_eq!(texts(&lines[8])[1], "[○] Global default (~/.config/minicode/config.toml)");
    assert!(!lines[8].spans[1].style.bold);
}

#[test]
fn autonomy_tab_shows_budget_and_policy() {
    let mut s = state();
    s.thinking_budget = 2048;
    s.selected_index = 2;
    let lines = autonomy_tab_lines(&s);
    assert_eq!(lines.len(), 8);
    assert_eq!(texts(&lines[1])[2], "[○] Disabled (Prompt confirmation)");
    assert_eq!(texts(&lines[3])[2], "2048 tokens");
    assert_eq!(texts(&lines[5])[2], "[ strict ]");
    assert!(lines[5].spans[2].style.bold);
    s.thinking_budget = 0;
    assert_eq!(texts(&autonomy_tab_lines(&s)[3])[2], "0 tokens (Disabled)");
}

#[test]
fn probes_tab_pairs_results_on_rows() {
    let mut s = state();
    s.probe_results = Some(vec![
        probe("openai", "connected", 42),
        probe("groq", "disconnected", 1234),
        probe("ollama", "skipped", 7),
    ]);
    let lines = probes_tab_lines(&s);
    assert_eq!(lines.len(), 5);
    assert_eq!(
        texts(&lines[3]),
        vec!["    ", "✔", " ", "openai      ", "  42ms", "     ", "✗", " ", "groq        ", "1234ms"]
    );
    assert_eq!(texts(&lines[4]), vec!["    ", "○", " ", "ollama      ", "   7ms"]);
    assert_eq!(lines[3].spans[6].style.fg, Some(ThemeColor::Destructive));
    s.probing = true;
    assert!(texts(&probes_tab_lines(&s)[3])[1].starts_with("⏳"));
    s.probing = false;
    s.probe_results = None;
    assert!(texts(&probes_tab_lines(&s)[3])[1].starts_with("Press [Enter] or [Space] to test"));
}

#[test]
fn footer_depends_on_model_browsing() {
    assert_eq!(texts(&settings_footer(false))[0], "  [Tab/◄►] ");
    assert_eq!(settings_footer(false).spans.len(), 10);
    assert_eq!(texts(&settings_footer(true))[1], "Navigate Models  ");
    assert_eq!(settings_footer(true).spans.len(), 8);
}

#[test]
fn provider_list_scrolls_and_marks_the_active_provider() {
    let mut s = state();
    let lines = providers_list_lines(&s, &defaults());
    assert_eq!(lines.len(), 10);
    assert_eq!(
        texts(&lines[1]),
        vec!["  ❯ ", "anthropic     ", " default: ", "model-0                       "]
    );
    assert_eq!(texts(&lines[2])[3], "anthropic/sonnet-3.7          ");
    assert_eq!(texts(&lines[2])[4], " [Active ✔]");
    s.selected_index = 8;
    let scrolled = providers_list_lines(&s, &defaults());
    assert_eq!(texts(&scrolled[1])[1], "gemini        ");
    assert_eq!(texts(&scrolled[7])[0], "  ❯ ");
}

#[test]
fn model_list_marks_reasoning_active_and_default_models() {
    let mut s = state();
    s.selecting_model_for_provider = Some("openrouter".to_string());
    s.provider_models = vec![
        model("anthropic/sonnet-3.7", Some(200_000)),
        model("openai/gpt-4o", Some(128_000)),
        model("meta/llama", None),
    ];
    let reasoning = vec![true, false, false];
    let lines = model_list_lines(&s, "openrouter", "openai/gpt-4o", &reasoning);
    assert_eq!(lines.len(), 9);
    assert_eq!(texts(&lines[1])[2], "  (3 models available)");
    assert_eq!(texts(&lines[4])[5], "[🧠 Reasoning]");
    assert_eq!(texts(&lines[4])[7], "[Active ✔]");
    assert_eq!(texts(&lines[5])[5], "[Default]");
    assert_eq!(texts(&lines[6]).len(), 4);
    s.provider_models = vec![];
    let empty = model_list_lines(&s, "openrouter", "x", &vec![]);
    assert!(texts(&empty[4])[1].starts_with("⚠️ No models found"));
    let content = settings_content_lines(&s, 80, &defaults(), "x", &vec![]);
    assert_eq!(content.len(), 7);
}
