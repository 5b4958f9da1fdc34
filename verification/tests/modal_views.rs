use minicode::records::{
    ArchitectureReport, CallSite, CodeExploreMatch, ConnectionTestResult, LayerViolation, ModelInfo,
};
use minicode::ui::modals::explorer_view::{
    explorer_details_lines, explorer_list_lines, explorer_list_title, explorer_search_line,
};
use minicode::ui::modals::architecture_view::{
    audit_content_lines, audit_footer, audit_tabs, audit_title,
};
use minicode::ui::modals::settings::{
    settings_modal_size, ConfigSnapshot, SettingsModalState, SettingsTab,
};
use minicode::ui::modals::settings_view::{
    settings_content_lines, settings_divider, settings_footer, settings_tab_bar,
};
use minicode::ui::styled::{StyledLine, ThemeColor};

fn texts(l: &StyledLine) -> Vec<String> {
    l.spans.iter().map(|s| s.text.clone()).collect()
}

fn default_state() -> SettingsModalState {
    let config = ConfigSnapshot {
        provider: "openrouter".to_string(),
        model: "anthropic/sonnet-3.7".to_string(),
        auto_approve: false,
        thinking_budget: None,
        approval_policy: "strict".to_string(),
    };
    SettingsModalState::from_config(&config, "/tmp/ws", None, false, false)
}

fn defaults() -> Vec<String> {
    (0..14).map(|i| format!("default-model-{}", i)).collect()
}

/// The content width of the settings modal on a `width` by `height` screen.
fn inner_width(width: u16, height: u16) -> usize {
    let (w, _) = settings_modal_size(width, height);
    let shown = w.min(width.saturating_sub(2));
    shown.saturating_sub(2) as usize
}

/// Every line the settings modal shows on a `width` by `height` screen.
fn settings_screen(state: &SettingsModalState, width: u16, height: u16, reasoning: &Vec<bool>) -> Vec<StyledLine> {
    let inner = inner_width(width, height);
    let mut lines = vec![settings_tab_bar(state.active_tab, inner), settings_divider(inner)];
    lines.extend(settings_content_lines(state, inner, &defaults(), "default-model-0", reasoning));
    lines.push(settings_footer(state.selecting_model_for_provider.is_some()));
    lines
}

#[test]
fn test_render_settings_all_tabs() {
    let mut state = default_state();
    for tab in SettingsTab::all() {
        state.active_tab = *tab;
        state.selected_index = 0;
        let lines = settings_screen(&state, 90, 30, &vec![]);
        assert!(lines.len() > 3);
    }
}

#[test]
fn test_render_settings_probes_with_results() {
    let mut state = default_state();
    state.active_tab = SettingsTab::Probes;
    state.probe_results = Some(vec![
        ConnectionTestResult {
            provider: "anthropic".to_string(),
            status: "connected".to_string(),
            latency_ms: 120,
            http_status: Some(200),
            key_source: "environment (ANTHROPIC_API_KEY)".to_string(),
            key_masked: "sk-ant...xyz".to_string(),
            model_count: 5,
            error: None,
        },
        ConnectionTestResult {
            provider: "ollama".to_string(),
            status: "disconnected".to_string(),
            latency_ms: 45,
            http_status: None,
            key_source: "none (local endpoint)".to_string(),
            key_masked: String::new(),
            model_count: 0,
            error: Some("Connection refused (os error 111)".to_string()),
        },
    ]);
    let lines = settings_screen(&state, 90, 30, &vec![]);
    let row = texts(&lines[5]);
    assert_eq!(row[1], "✔");
    assert_eq!(row[3], "anthropic   ");
    assert_eq!(row[4], " 120ms");
    assert_eq!(row[6], "✗");
    assert_eq!(row[9], "  45ms");
}

#[test]
fn test_render_settings_model_drilldown_and_narrow_scroll() {
    let mut state = default_state();
    state.selecting_model_for_provider = Some("anthropic".to_string());
    state.provider_models = vec![
        ModelInfo {
            id: "sonnet-3-7-20250219".to_string(),
            name: "Sonnet 3.7".to_string(),
            description: None,
            context_length: Some(200_000),
            is_free: false,
        },
        ModelInfo {
            id: "haiku-3-5-20241022".to_string(),
            name: "Haiku 3.5".to_string(),
            description: None,
            context_length: Some(200_000),
            is_free: false,
        },
    ];
    state.model_selected_index = 0;
    let reasoning = vec![true, false];
    let wide = settings_screen(&state, 95, 30, &reasoning);
    assert_eq!(texts(&wide[0])[0], " ");
    assert_eq!(texts(&wide[3])[1], "anthropic");
    assert_eq!(texts(&wide[6])[3], "  200k ctx");
    let narrow = settings_screen(&state, 55, 24, &reasoning);
    assert_eq!(texts(&narrow[0]).last().unwrap(), " ▶");
}

#[test]
fn test_architecture_audit_render() {
    let report = ArchitectureReport {
        health_score: 95,
        total_files: 12,
        total_loc: 1500,
        circular_cycles: vec![vec!["mod_a".into(), "mod_b".into()]],
        layer_violations: vec![],
        coupling_metrics: vec![],
        god_files: vec![],
        fan_out_spikes: vec![],
    };
    let title = audit_title(&report);
    assert_eq!(texts(&title)[1], " [Score: 95/100] ");
    assert_eq!(title.spans[1].style.fg, Some(ThemeColor::Success));
    assert_eq!(texts(&title)[2], "(12 files, 1500 LOC) ");
    let overview = audit_content_lines(&report, 0, 0, 0);
    assert_eq!(
        texts(&overview[1])[0],
        "  ⚠️  Detected 0 Layer Violations and 1 Circular Cycles:"
    );
    let cycles = audit_content_lines(&report, 2, 0, 0);
    assert_eq!(texts(&cycles[3]), vec!["  👉 ", "Cycle #1: ", "mod_a ➔ mod_b"]);
    assert_eq!(audit_tabs(0).spans[0].style.fg, Some(ThemeColor::Black));
    assert_eq!(texts(&audit_footer()).len(), 6);
}

#[test]
fn audit_overview_lists_violations_and_god_files() {
    let report = ArchitectureReport {
        health_score: 60,
        total_files: 3,
        total_loc: 4200,
        circular_cycles: vec![],
        layer_violations: vec![LayerViolation {
            rule_id: "L1".to_string(),
            source_file: "src/ui/a.rs".to_string(),
            line_number: 7,
            target_module: "crate::db".to_string(),
            message: "UI must not import the database layer".to_string(),
        }],
        coupling_metrics: vec![],
        god_files: vec![("src/big.rs".to_string(), 2400)],
        fan_out_spikes: vec![],
    };
    assert_eq!(audit_title(&report).spans[1].style.fg, Some(ThemeColor::Destructive));
    let lines = audit_content_lines(&report, 0, 0, 0);
    assert_eq!(lines.len(), 9);
    assert_eq!(texts(&lines[3]), vec!["  👉 ", "[L1] ", "src/ui/a.rs:7 ➔ ", "crate::db"]);
    assert_eq!(texts(&lines[4])[1], "UI must not import the database layer");
    assert_eq!(texts(&lines[6])[0], "  ⚠️  God Files (>1,000 LOC):");
    assert_eq!(texts(&lines[7]), vec!["    • ", "src/big.rs", " (2400 lines)"]);
    let scrolled = audit_content_lines(&report, 0, 0, 3);
    assert_eq!(scrolled.len(), 6);
    assert!(audit_content_lines(&report, 0, 0, 50).is_empty());
    let clean = ArchitectureReport { layer_violations: vec![], god_files: vec![], ..report };
    assert_eq!(
        texts(&audit_content_lines(&clean, 2, 0, 0)[1])[1],
        "Codebase is 100% DAG compliant — zero circular dependency cycles."
    );
}

fn symbol(name: &str, badge: &str) -> CodeExploreMatch {
    CodeExploreMatch {
        symbol_name: name.to_string(),
        kind: "fn".to_string(),
        file_path: "src/lib.rs".to_string(),
        signature: format!("pub fn {}()", name),
        layer_name: "Core".to_string(),
        layer_badge: badge.to_string(),
        line_start: 10,
        line_end: 12,
        doc_comment: Some("  Does the thing.  ".to_string()),
        source_code: Some("pub fn run() {\n    go();\n}".to_string()),
        callers: vec![CallSite { name: "main".to_string(), file_path: "src/main.rs".to_string(), line: 4 }],
        callees: vec![],
        blast_radius_files: vec!["src/a.rs".to_string(), "src/b.rs".to_string()],
    }
}

#[test]
fn explorer_list_scrolls_and_marks_the_selected_row() {
    let symbols: Vec<CodeExploreMatch> = (0..5).map(|i| symbol(&format!("f{}", i), "[CORE]")).collect();
    let filtered: Vec<usize> = vec![4, 3, 2, 1, 0];
    let (rows, hl) = explorer_list_lines(&symbols, &filtered, 3, 4, 7);
    assert_eq!(rows.len(), 2);
    assert_eq!(hl, Some(1));
    assert_eq!(texts(&rows[0]), vec!["[CORE]  ", "f2", " [fn]"]);
    assert_eq!(rows[1].spans[1].style.fg, Some(ThemeColor::BgPrimary));
    assert_eq!(rows[0].spans[1].style.fg, Some(ThemeColor::TextPrimary));
    assert_eq!(explorer_list_title(5), " Symbols (5) ");
    assert_eq!(texts(&explorer_search_line("ui")), vec![" Filter symbols/layers: ui█"]);
}

#[test]
fn explorer_details_show_each_tab() {
    let symbols = vec![symbol("run", "[CORE]")];
    let filtered = vec![0];
    let src = explorer_details_lines(&symbols, &filtered, 0, 0);
    assert_eq!(texts(&src[0]), vec!["[CORE] ", "run", " (fn) in src/lib.rs:10-12"]);
    assert_eq!(texts(&src[2]), vec!["Doc: ", "Does the thing."]);
    assert_eq!(texts(&src[4])[1], "[ 2. Callers (1) ] ");
    assert!(src[4].spans[0].style.underlined);
    assert_eq!(texts(&src[6]), vec!["  10 │ ", "pub fn run() {"]);
    assert_eq!(texts(&src[8]), vec!["  12 │ ", "}"]);
    let callers = explorer_details_lines(&symbols, &filtered, 0, 1);
    assert_eq!(texts(&callers[6]), vec!["  ← ", "main", " in src/main.rs:4"]);
    let callees = explorer_details_lines(&symbols, &filtered, 0, 2);
    assert_eq!(texts(&callees[6]), vec![" No outgoing calls found (Leaf function)."]);
    let blast = explorer_details_lines(&symbols, &filtered, 0, 3);
    assert_eq!(blast.len(), 9);
    assert_eq!(texts(&blast[8]), vec!["  • ", "src/b.rs"]);
    let none = explorer_details_lines(&symbols, &vec![], 0, 0);
    assert_eq!(texts(&none[0]), vec![" No matching AST symbols found. "]);
}
