use minicode::records::{
    ArchitectureReport, CouplingMetric, CouplingRole, DevProcessStatus, DevProcessSummary,
    DevProcessType, GitDiffFile, GitDiffLine, ModelInfo, PortResolution, RestartPolicy,
    RuntimeResourceSummary, Stack, ThemeInfo,
};
use minicode::ui::animation::{animation_options, render_preview_spinner, SpinnerStyle};
use minicode::ui::modal_view::{
    count_title, diff_file_rows, diff_pane, diff_title, help_lines, model_rows,
    provider_select_lines, select_footer, stack_preview, stack_rows, theme_switcher_lines,
    undo_lines,
};
use minicode::ui::modals::architecture_view::audit_content_lines;
use minicode::ui::modals::common::TurnCheckpointInfo;
use minicode::ui::modals::context_view::{
    context_content_lines, context_title, ContextDiagnosticsData, UsageLevel,
};
use minicode::ui::modals::process_table_view::{
    process_row_cells, process_search_line, process_table_empty, process_table_title, process_tabs,
};
use minicode::ui::modals::processes::ProcessesTab;
use minicode::ui::modals::processes::ProcessesModalState;
use minicode::ui::modals::processes_view::{
    log_peek_lines, port_matrix_lines, ports_label, process_info_lines, telemetry_totals,
};
use minicode::ui::modals::theme_select::{theme_list_lines, ThemeModalTab, ThemeSelectContext};
use minicode::ui::styled::{StyledLine, ThemeColor};

fn texts(l: &StyledLine) -> Vec<String> {
    l.spans.iter().map(|s| s.text.clone()).collect()
}

fn process(id: &str, ports: Vec<u16>) -> DevProcessSummary {
    DevProcessSummary {
        id: id.to_string(),
        name: "Vite Web Server".to_string(),
        process_type: DevProcessType::Frontend,
        status: DevProcessStatus::Running,
        degraded_reason: String::new(),
        pid: Some(12345),
        ports,
        url: Some("http://localhost:5173".to_string()),
        uptime_secs: 3725,
        restart_count: 2,
        port_resolution: None,
        restart_policy: RestartPolicy::OnFailure { max_retries: 3, backoff_ms: 500 },
    }
}

#[test]
fn provider_and_model_pickers_mark_the_selection() {
    let rows = provider_select_lines(&vec!["openai".to_string(), "groq".to_string()], 1);
    assert_eq!(texts(&rows[0]), vec!["   openai"]);
    assert_eq!(texts(&rows[1]), vec![" › groq"]);
    assert_eq!(rows[1].spans[0].style.bg, Some(ThemeColor::BrandAccent));
    let models = vec![
        ModelInfo { id: "a".to_string(), name: "A".to_string(), description: None, context_length: Some(128_500), is_free: true },
        ModelInfo { id: "b".to_string(), name: "B".to_string(), description: None, context_length: None, is_free: false },
    ];
    let m = model_rows(&models, &vec![1, 0], 1);
    assert_eq!(texts(&m[0]), vec!["   ", "b"]);
    assert_eq!(texts(&m[1]), vec![" › ", "a", " [FREE]", " (128k ctx)"]);
}

#[test]
fn stack_wizard_lists_and_previews() {
    let stacks = vec![Stack {
        name: "Axum API".to_string(),
        runtime: "rust".to_string(),
        description: "HTTP service".to_string(),
        packages: vec!["tokio".to_string(), "axum".to_string()],
        files: (0..14).map(|i| format!("src/f{}.rs", i)).collect(),
    }];
    let rows = stack_rows(&stacks, &vec![0], 0);
    assert_eq!(texts(&rows[0]), vec![" › ", "Axum API", " [rust]", " (14 files)"]);
    let p = stack_preview(&stacks, &vec![0], 0);
    assert_eq!(texts(&p[4]), vec!["⚡ Packages: ", "tokio, axum"]);
    assert_eq!(texts(&p[6]), vec!["📁 File Structure (14 files):"]);
    assert_eq!(p.len(), 7 + 12 + 1);
    assert_eq!(texts(&p[19]), vec!["  ╰── ... and 2 more files"]);
    assert_eq!(texts(&stack_preview(&stacks, &vec![], 0)[0]), vec!["No stack selected"]);
    assert_eq!(count_title("Stacks", 1), " Stacks (1) ");
}

#[test]
fn diff_viewer_shows_files_and_numbered_lines() {
    let files = vec![GitDiffFile {
        path: "src/main.rs".to_string(),
        status_char: 'M',
        additions: 3,
        deletions: 1,
        lines: vec![
            GitDiffLine { tag: '@', old_lineno: None, new_lineno: None, content: "@@ -1 +1 @@".to_string() },
            GitDiffLine { tag: '-', old_lineno: Some(1), new_lineno: None, content: "old".to_string() },
            GitDiffLine { tag: '+', old_lineno: None, new_lineno: Some(1), content: "new".to_string() },
            GitDiffLine { tag: ' ', old_lineno: Some(2), new_lineno: Some(2), content: "same".to_string() },
        ],
    }];
    let rows = diff_file_rows(&files, 0);
    assert_eq!(texts(&rows[0]), vec![" › ", "[M] ", "src/main.rs", " +3 -1"]);
    assert_eq!(rows[0].spans[1].style.fg, Some(ThemeColor::Warning));
    let pane = diff_pane(&files, 0, 1);
    assert_eq!(pane.len(), 3);
    assert_eq!(texts(&pane[0]), vec!["   1      │ ", "- ", "old"]);
    assert_eq!(texts(&pane[1]), vec!["        1 │ ", "+ ", "new"]);
    assert_eq!(texts(&pane[2]), vec!["   2    2 │ ", "  ", "same"]);
    assert_eq!(diff_title(&files, 0), " Diff: src/main.rs ");
    assert!(diff_pane(&files, 0, 9).is_empty());
    assert_eq!(texts(&diff_pane(&vec![], 0, 0)[0]), vec![" Working tree is clean — no diffs found. "]);
}

#[test]
fn undo_timeline_and_theme_switcher() {
    let cps: Vec<TurnCheckpointInfo> = (1..=2)
        .map(|i| TurnCheckpointInfo {
            turn_id: i,
            prompt: "x".repeat(60),
            timestamp: String::new(),
            time_ago: "2m ago".to_string(),
            files: vec!["src/a.rs".to_string(), "src/b.rs".to_string(), "c.rs".to_string()],
            is_latest: i == 2,
        })
        .collect();
    let lines = undo_lines(&cps, 1);
    assert_eq!(lines.len(), 1 + 4 + 3);
    assert_eq!(texts(&lines[1]), vec!["  ○─ ", "[Turn 1]"]);
    assert_eq!(texts(&lines[2])[1], format!("\"{}...\"", "x".repeat(52)));
    assert_eq!(texts(&lines[3])[1], "└─ 2m ago • 3 file(s) (a.rs, b.rs +1 more)");
    assert_eq!(texts(&lines[4]), vec!["  │"]);
    assert_eq!(texts(&lines[5]), vec!["  ◉─ ", "[Turn 2] (Latest)"]);
    assert_eq!(lines[6].spans[0].style.fg, Some(ThemeColor::BgElevated));
    assert_eq!(texts(&select_footer("Revert   "))[3], "Revert   ");
    let themes = vec![ThemeInfo {
        id: "nord".to_string(),
        name: "Nord".to_string(),
        description: "Arctic".to_string(),
        swatches: vec![(1, 2, 3)],
    }];
    let t = theme_switcher_lines(&themes, 0);
    assert_eq!(texts(&t[1]), vec!["  ❯ ", "[1] ", "Nord                  ", " ■"]);
    assert_eq!(t[1].spans[3].style.fg, Some(ThemeColor::Rgb(1, 2, 3)));
    assert_eq!(help_lines().len(), 19);
}

#[test]
fn theme_modal_marks_active_entries_and_previews_animations() {
    let themes = vec![ThemeInfo {
        id: "aura".to_string(),
        name: "Aura".to_string(),
        description: "Dark".to_string(),
        swatches: vec![],
    }];
    let anims = animation_options();
    let mut ctx = ThemeSelectContext {
        themes: &themes,
        animations: anims,
        active_tab: ThemeModalTab::Themes,
        theme_selected_index: 0,
        animation_selected_index: 0,
        active_theme_id: "aura-dark",
        active_animation_id: anims[0].id,
    };
    let previews: Vec<_> = anims.iter().map(|a| render_preview_spinner(a.style, 0, 80)).collect();
    let lines = theme_list_lines(&ctx, 5, 12, previews.clone());
    assert_eq!(texts(&lines[1]), vec!["  ❯ ", "[1] ", "Aura        ", "  [Active ✔]"]);
    ctx.active_tab = ThemeModalTab::Animations;
    let lines = theme_list_lines(&ctx, 2, 12, previews);
    assert_eq!(lines.len(), 1 + 2 * 3);
    assert_eq!(texts(&lines[1]).last().unwrap(), " [Active ✔]");
    let pillars = render_preview_spinner(SpinnerStyle::DualPillars, 0, 80);
    assert_eq!(pillars.iter().map(|s| s.text.clone()).collect::<Vec<_>>(), vec!["▰", "▱  "]);
    assert_eq!(pillars[1].style.fg, Some(ThemeColor::Muted));
}

#[test]
fn telemetry_collects_sorted_unique_ports() {
    let mut s = ProcessesModalState::with_data(
        "/tmp",
        vec![process("a", vec![8080, 3000]), process("b", vec![3000, 5173])],
        None,
        vec![],
    );
    let (count, ports) = telemetry_totals(&s);
    assert_eq!(count, 2);
    assert_eq!(ports, vec![3000, 5173, 8080]);
    assert_eq!(ports_label(&ports), "3000, 5173, 8080");
    assert_eq!(ports_label(&vec![]), "None");
    let m = port_matrix_lines(&ports);
    assert_eq!(texts(&m[7])[1], "3000, 5173, 8080");
    s.resources = Some(RuntimeResourceSummary { total_active_processes: 7, active_ports: vec![1] });
    assert_eq!(telemetry_totals(&s), (7, vec![1]));
}

#[test]
fn process_details_show_status_policy_and_log_tail() {
    let mut p = process("vite", vec![5173]);
    let info = process_info_lines(&p);
    assert_eq!(texts(&info[0]), vec!["  Vite Web Server ", " [RUNNING]"]);
    assert_eq!(texts(&info[2])[1], "Frontend");
    assert_eq!(texts(&info[2])[5], "1h 2m");
    assert_eq!(texts(&info[4])[1], "http://localhost:5173");
    assert_eq!(texts(&info[5])[1], "OnFailure (max 3, backoff 500ms)");
    p.status = DevProcessStatus::Degraded;
    p.degraded_reason = "crash loop".to_string();
    p.port_resolution = Some(PortResolution::Shifted { requested: 3000, resolved: 3001 });
    let info = process_info_lines(&p);
    assert_eq!(texts(&info[0])[1], " [crash loop]");
    assert_eq!(texts(&info[4])[1], "Shifted: 3000 ➜ 3001 (Port Conflict)");
    let logs: Vec<String> = vec!["one".to_string(), "two".to_string(), "y".repeat(70)];
    let peek = log_peek_lines(&logs, 4);
    assert_eq!(peek.len(), 2);
    assert_eq!(texts(&peek[0]), vec![" › ", "two"]);
    assert_eq!(texts(&peek[1])[1], format!("{}…", "y".repeat(59)));
    assert_eq!(texts(&log_peek_lines(&vec![], 9)[0]), vec!["  (No log output recorded yet)"]);
}

fn diagnostics() -> ContextDiagnosticsData {
    ContextDiagnosticsData {
        model_name: "m".to_string(),
        provider_name: "p".to_string(),
        context_limit: 200000,
        used_tokens: 5000,
        headroom_tokens: 195000,
        utilization_text: "2.5".to_string(),
        usage_level: UsageLevel::Low,
        progress_bar: "[#---]".to_string(),
        advice: "Plenty of room".to_string(),
        cached_tokens: 1000,
        cache_hit_text: "20.0".to_string(),
        provider_cache_type: "Standard Provider Prefix Cache".to_string(),
        ttft_savings: "x".to_string(),
        cost_savings: "y".to_string(),
        kv_anchor_status: "a".to_string(),
        prefix_stability: "s".to_string(),
        dox_rules_files: vec!["AGENTS.md".to_string()],
        dox_total_lines: 10,
        dox_estimated_tokens: 40,
        memory_l0_count: 1,
        memory_l1_count: 2,
        memory_l2_count: 3,
        memory_l3_count: 4,
        memory_sample_keys: vec!["k".to_string()],
        working_memory_active: false,
        working_memory_lines: 0,
        active_working_set_files: 0,
        conversation_messages_count: 6,
        ccr_entries_count: 2,
        ccr_total_bytes: 4096,
        ccr_kb_text: "4.0".to_string(),
    }
}

#[test]
fn context_visualizer_tabs_and_scrolling() {
    let d = diagnostics();
    let t = context_title(&d);
    assert_eq!(texts(&t)[1], " [2.5% Window Used] ");
    assert_eq!(texts(&t)[2], "(5000/200000 tokens | KV: 20.0%) ");
    let budget = context_content_lines(&d, 0, 0, 100);
    assert_eq!(budget.len(), 14);
    assert_eq!(texts(&budget[8])[1], format!("{:<18} ", "10 entries"));
    assert_eq!(texts(&budget[11])[1], format!("{:<18} ", "2 observations (4 KB)"));
    let storage = context_content_lines(&d, 2, 0, 100);
    assert_eq!(texts(&storage[2])[1], "AGENTS.md");
    assert_eq!(texts(&storage[11]), vec!["    ", "k"]);
    let scrolled = context_content_lines(&d, 1, 50, 5);
    assert_eq!(scrolled.len(), 5);
    let full = context_content_lines(&d, 1, 0, 100);
    assert_eq!(texts(&scrolled[4]), texts(&full[full.len() - 1]));
}

#[test]
fn coupling_tab_lists_modules() {
    let report = ArchitectureReport {
        health_score: 80,
        total_files: 1,
        total_loc: 10,
        circular_cycles: vec![],
        layer_violations: vec![],
        coupling_metrics: vec![CouplingMetric {
            module_name: "ui".to_string(),
            file_count: 3,
            total_loc: 420,
            afferent_coupling: 1,
            efferent_coupling: 4,
            instability_text: "0.80".to_string(),
            role: CouplingRole::Leaf,
        }],
        god_files: vec![],
        fan_out_spikes: vec![],
    };
    let lines = audit_content_lines(&report, 1, 0, 0);
    assert_eq!(lines.len(), 5);
    assert_eq!(
        texts(&lines[3])[0],
        format!("  {:<18} {:>6} {:>8} {:>6} {:>6} {:>8}   {}", "Module", "Files", "LOC", "Ca", "Ce", "Instab(I)", "Role")
    );
    assert!(lines[3].spans[0].style.underlined);
    assert_eq!(
        texts(&lines[4])[0],
        format!("▶ {:<18} {:>6} {:>8} {:>6} {:>6} {:>8}   {}", "ui", 3, 420, 1, 4, "0.80", "🍃 Leaf / UI")
    );
}

#[test]
fn process_table_cells_show_status_port_and_restarts() {
    let p = process("vite-1", vec![5173, 5174]);
    let cells = process_row_cells(&p);
    let t: Vec<String> = cells.iter().map(|c| c.text.clone()).collect();
    assert_eq!(t, vec!["● Run", "vite-1", "Vite Web Server", "Frontend", "12345", "http://localhost:5173", "2"]);
    assert_eq!(cells[0].style.fg, Some(ThemeColor::Success));
    assert!(cells[0].style.bold);
    assert_eq!(cells[5].style.fg, Some(ThemeColor::TextPrimary));

    let mut q = process("api", vec![8080, 8081]);
    q.url = None;
    q.pid = None;
    q.restart_count = 0;
    q.status = DevProcessStatus::Killed;
    let t: Vec<String> = process_row_cells(&q).iter().map(|c| c.text.clone()).collect();
    assert_eq!(t, vec!["✖ Killed", "api", "Vite Web Server", "Frontend", "-", "8080,8081", "-"]);

    q.port_resolution = Some(PortResolution::Shifted { requested: 3000, resolved: 3001 });
    let cells = process_row_cells(&q);
    assert_eq!(cells[5].text, "3000➜3001");
    assert_eq!(cells[5].style.fg, Some(ThemeColor::Warning));
    q.port_resolution = Some(PortResolution::Reclaimed { port: 4000 });
    assert_eq!(process_row_cells(&q)[5].text, "4000(rec)");
    assert_eq!(process_table_title(3), " Active Processes (3) ");
}

#[test]
fn process_tabs_count_servers_workers_and_show_filter() {
    let mut w = process("w", vec![]);
    w.process_type = DevProcessType::Worker;
    w.url = None;
    w.name = "queue".to_string();
    let mut s = ProcessesModalState::with_data("/tmp", vec![process("a", vec![3000]), w], None, vec![]);
    let tabs = process_tabs(&s);
    assert_eq!(tabs.spans.len(), 10);
    assert_eq!(tabs.spans[0].text, " [1] All Processes (2) ");
    assert_eq!(tabs.spans[0].style.bg, Some(ThemeColor::BrandAccent));
    assert_eq!(tabs.spans[2].text, " [2] Dev Servers (1) ");
    assert!(tabs.spans[2].style.dim);
    assert_eq!(tabs.spans[4].text, " [3] Workers (1) ");
    assert_eq!(tabs.spans[6].text, " [4] Live Logs (Vite Web Server) ");
    assert_eq!(tabs.spans[8].text, " [5] Telemetry ");
    s.active_tab = ProcessesTab::Workers;
    assert!(process_tabs(&s).spans[0].style.dim);

    let hint = process_search_line(&s);
    assert_eq!(hint.spans[0].text, "[/] Filter");
    assert!(hint.spans[0].style.dim);
    s.search_query = "vite".to_string();
    assert_eq!(process_search_line(&s).spans[2].text, " (Esc to clear)");
    s.is_searching = true;
    let typing = process_search_line(&s);
    assert_eq!(typing.spans[1].text, "vite");
    assert!(typing.spans[1].style.bold);

    let empty = process_table_empty();
    assert_eq!(empty.len(), 4);
    assert!(empty[3].spans[0].style.dim);
}
