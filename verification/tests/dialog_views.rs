use minicode::records::{ConfigChangeProposal, GateStatus, SessionMetadata, VerificationReport};
use minicode::ui::modals::minipower::{MiniPowerModalState, MiniPowerTab};
use minicode::ui::modals::minipower_view::power_tabs;
use minicode::ui::input::InputDock;
use minicode::ui::modals::dialogs_view::{
    config_approval_lines, exit_confirm_lines, streaming_footer, streaming_rows, streaming_subtitle,
};
use minicode::ui::modals::workspace_view::{
    analysis_title, drift_title, provider_setup_lines, workspace_analysis_lines, workspace_drift_lines,
};
use minicode::ui::session_view::{history_list_lines, history_title};
use minicode::ui::styled::{StyledLine, ThemeColor};

fn texts(l: &StyledLine) -> Vec<String> {
    l.spans.iter().map(|s| s.text.clone()).collect()
}

#[test]
fn exit_confirm_marks_the_selected_button() {
    let lines = exit_confirm_lines("proj", "0.3.1", false);
    assert_eq!(lines.len(), 4);
    assert_eq!(texts(&lines[0]), vec![" ● ", "Workspace: ", "proj", " (v0.3.1)"]);
    assert_eq!(texts(&lines[3]), vec!["  ✖ ", "Y", "ep, Quit  ", "   ", "  ✔ Stay in Session (N)  "]);
    assert!(lines[3].spans[1].style.underlined);
    assert_eq!(lines[3].spans[4].style.bg, Some(ThemeColor::BrandAccent));
    let yes = exit_confirm_lines("proj", "0.3.1", true);
    assert_eq!(texts(&yes[3])[0], "  ✖ Yep, Quit (Y)  ");
    assert_eq!(yes[3].spans[0].style.bg, Some(ThemeColor::Destructive));
    assert!(yes[3].spans[3].style.underlined);
}

#[test]
fn streaming_rows_mark_active_and_selected() {
    let rows = streaming_rows(1, true);
    assert_eq!(rows.len(), 6);
    assert_eq!(texts(&rows[0]), vec!["   Enable Streaming    ", " [Active ◉]"]);
    assert_eq!(rows[0].spans[1].style.fg, Some(ThemeColor::Success));
    assert_eq!(texts(&rows[2]), vec![" › Disable Streaming   ", " [○]"]);
    assert_eq!(rows[2].spans[0].style.bg, Some(ThemeColor::BrandAccent));
    assert_eq!(texts(&rows[3]), vec!["     Wait for full response before rendering"]);
    assert_eq!(texts(&rows[4]), vec!["   Cancel / Back       ", ""]);
    assert_eq!(streaming_subtitle().spans[0].text, " Select streaming behavior for assistant turns:");
    assert_eq!(streaming_footer().spans.len(), 6);
}

#[test]
fn config_approval_lists_set_values_and_scope() {
    let p = ConfigChangeProposal {
        provider: Some("openai".to_string()),
        model: None,
        auto_approve: Some(false),
        thinking_budget: Some(2048),
        theme: None,
        scope: "GLOBAL".to_string(),
    };
    let lines = config_approval_lines(&p, 10, 1);
    assert_eq!(lines.len(), 7);
    assert_eq!(lines[1].spans[0].text, "─".repeat(10));
    assert_eq!(texts(&lines[2]), vec!["     • Active Provider : ", "openai"]);
    assert_eq!(texts(&lines[3]), vec!["     • Auto Approve    : ", "false"]);
    assert_eq!(texts(&lines[4]), vec!["     • Thinking Budget : ", "2048 tokens"]);
    assert_eq!(texts(&lines[5])[1], "Global (~/.config/minicode/config.toml)");
    assert_eq!(lines[6].spans[3].style.bg, Some(ThemeColor::Destructive));
    assert_eq!(lines[6].spans[1].style.fg, Some(ThemeColor::TextPrimary));
    let w = ConfigChangeProposal { scope: "workspace".to_string(), ..p };
    assert_eq!(texts(&config_approval_lines(&w, 4, 0)[5])[1], "Workspace (.minicode/config.toml)");
}

#[test]
fn workspace_dialogs_show_state_and_choices() {
    let a = workspace_analysis_lines("/repo", true, 120, 14, 1);
    assert_eq!(a.len(), 5);
    assert_eq!(texts(&a[0])[3], "Indexed (120 syms, 14 files)");
    assert_eq!(texts(&a[2]), vec!["  ❯ ", "[2] 🔄 Full Rebuild", "  (Cold re-index from scratch)", "       [2]"]);
    assert_eq!(texts(&a[1])[3], "   [ENTER]");
    let u = workspace_analysis_lines("/repo", false, 0, 0, 0);
    assert_eq!(u.len(), 4);
    assert_eq!(texts(&u[0])[3], "Unindexed");
    assert_eq!(u[0].spans[3].style.fg, Some(ThemeColor::Warning));
    let d = workspace_drift_lines("/repo", 3, 2, 1, 2);
    assert_eq!(texts(&d[0])[3], "6 changed (3 mod, 2 add, 1 del)");
    assert_eq!(d[3].spans[0].text, "  ❯ ");
    let s = provider_setup_lines("anthropic", "hello", 0);
    assert_eq!(s.len(), 4);
    assert_eq!(texts(&s[1]), vec![" 💬 Pending Prompt:  ", "\"hello\""]);
    assert_eq!(analysis_title("1.2.0"), " ✨ minicode v1.2.0 ");
    assert_eq!(drift_title("1.2.0"), " ⚠️ Workspace Drift Detected — minicode v1.2.0 ");
}

fn meta(id: &str, events: usize, preview: &str) -> SessionMetadata {
    SessionMetadata {
        id: id.to_string(),
        created_at: "2024-01-01T00:00:00Z".to_string(),
        workspace: "/w".to_string(),
        path: "/w/s".to_string(),
        event_count: events,
        preview: preview.to_string(),
    }
}

#[test]
fn history_list_titles_sessions_and_counts_events() {
    let ss = vec![meta("a1", 1, "fix\nbuild"), meta("b2", 0, ""), meta("c3", 5, "x")];
    let ages: Vec<String> = vec!["5m ago".into(), "1h ago".into(), "2d ago".into()];
    let ids: Vec<String> = vec!["a1".into(), "b2".into(), "c3".into()];
    let lines = history_list_lines(&ss, &ages, &ids, 8, 1, 4);
    assert_eq!(lines.len(), 6);
    assert_eq!(texts(&lines[0]), vec!["   ", "5m ago   ", "fix build"]);
    assert_eq!(texts(&lines[1]), vec!["     ", "● ", "1 event  •  id: a1"]);
    assert_eq!(texts(&lines[2]), vec![" › ", "1h ago   ", "Session b2"]);
    assert_eq!(texts(&lines[3])[2], "0 events  •  id: b2");
    assert_eq!(lines[3].spans[1].style.fg, Some(ThemeColor::Success));
    assert_eq!(texts(&lines[5])[2], "5 events  •  id: c3");
    assert_eq!(texts(&history_title(1, 3)), vec![" 📜 Session History ", " [2/3] "]);
    assert_eq!(texts(&history_title(0, 0))[1], " [0/0] ");
    let none = history_list_lines(&Vec::new(), &Vec::new(), &Vec::new(), 8, 0, 4);
    assert_eq!(texts(&none[0]), vec!["No past sessions found in this workspace."]);
}

#[test]
fn slash_palette_title_query_and_rows() {
    let mut dock = InputDock::new();
    dock.textarea.insert_str("/cheatsheet");
    let title = dock.palette_title();
    assert_eq!(texts(&title)[2], "◉ All ");
    assert_eq!(texts(&title)[3], "○ System ");
    assert_eq!(texts(&dock.palette_search_line())[1], "/cheatsheet");
    let rows = dock.palette_rows(4, 30);
    assert_eq!(rows.len(), 1);
    let first = &rows[0];
    assert_eq!(first.spans.len(), 1);
    assert_eq!(first.spans[0].text, format!(" ❯ Help & Shortcuts{}F1  ", " ".repeat(7)));
    assert!(first.spans[0].text.ends_with("F1  "));
    assert_eq!(first.spans[0].text.chars().count(), 30);

    let mut none = InputDock::new();
    none.textarea.insert_str("/zzzz");
    assert_eq!(texts(&none.palette_rows(4, 30)[0]), vec!["   No matching commands found"]);
    let empty = InputDock::new();
    assert_eq!(texts(&empty.palette_search_line())[1], "/");
}

#[test]
fn minipower_tabs_content_and_scroll() {
    let tabs = power_tabs(MiniPowerTab::RedFlags);
    assert_eq!(tabs.spans.len(), 6);
    assert_eq!(tabs.spans[2].text, " [2] Anti-Rationalization ");
    assert_eq!(tabs.spans[2].style.fg, Some(ThemeColor::Black));
    assert_eq!(tabs.spans[0].style.fg, Some(ThemeColor::Muted));

    let mut st = MiniPowerModalState::new("/w");
    let table: Vec<(String, String)> = vec![("It's a tiny change".to_string(), "Tiny changes break builds".to_string())];
    let pillars = st.content_lines(&table);
    assert_eq!(pillars.len(), 10);
    assert_eq!(pillars[0].spans[0].text, "6 Core Engineering Pillars");
    st.scroll_offset = 8;
    assert_eq!(st.content_lines(&table).len(), 2);
    st.scroll_offset = 50;
    assert!(st.content_lines(&table).is_empty());

    st.scroll_offset = 0;
    st.active_tab = MiniPowerTab::RedFlags;
    let flags = st.content_lines(&table);
    assert_eq!(flags.len(), 5);
    assert_eq!(texts(&flags[2]), vec!["  • \"", "It's a tiny change", "\""]);
    assert!(flags[2].spans[1].style.italic);
    assert_eq!(texts(&flags[3]), vec!["    ╰─── ", "Tiny changes break builds"]);

    st.active_tab = MiniPowerTab::VerificationBarrier;
    assert_eq!(st.content_lines(&table).len(), 8);
    assert_eq!(st.footer_text(), " [Tab/←/→] Switch Tab | [r/v] Run Live Verification | [↑/↓] Scroll | [Esc/q] Close ");
    st.verification_report = Some(VerificationReport {
        all_passed: false,
        gate1_syntax_compiler: GateStatus::Passed,
        gate2_reproducer_test: GateStatus::Failed { reason: "2 tests failed".to_string(), actionable_remediation: "fix them".to_string() },
        gate3_regression_conflicts: GateStatus::Skipped { reason: "no git".to_string() },
        gate4_diff_sanity: GateStatus::Passed,
    });
    let rep = st.content_lines(&table);
    assert_eq!(rep.len(), 9);
    assert_eq!(rep[2].spans[0].text, "  ❌ VERIFICATION ISSUES DETECTED");
    assert_eq!(texts(&rep[5])[2], ": 2 tests failed");
    assert_eq!(texts(&rep[6]), vec!["     ╰── Remediation: ", "fix them"]);
    assert_eq!(texts(&rep[7])[2], ": Skipped (no git)");
    st.is_evaluating = true;
    assert_eq!(st.content_lines(&table).len(), 3);
}
