use minicode::ui::animation::{
    color_to_rgb, TermColor,
    render_spinner_spans, tool_kind, AgentActivity, GlyphColor, SpinnerStyle, ToolKind,
};
use minicode::ui::styled::ThemeColor;
use minicode::ui::approval::{ApprovalModalState, ApprovalResponse};
use minicode::ui::clipboard::base64_encode;
use minicode::ui::diff_viewer::DiffViewer;
use minicode::ui::layout_utils::{centered_rect, centered_rect_exact, compute_scroll_offset, Rect};
use minicode::ui::pty_drawer::PtyDrawer;

#[test]
fn test_activity_classification() {
    let act_web = AgentActivity::from_tool_call("search_web", r#"{"query": "rust ratatui"}"#);
    assert_eq!(
        act_web,
        AgentActivity::InternetResearch {
            query: "rust ratatui".to_string()
        }
    );

    let act_edit = AgentActivity::from_tool_call(
        "patch_file",
        r#"{"path": "src/main.rs", "content": ""}"#,
    );
    assert_eq!(
        act_edit,
        AgentActivity::EditingFile {
            path: "src/main.rs".to_string()
        }
    );

    let act_debug = AgentActivity::from_tool_call(
        "exec_cmd",
        r#"{"command": "cargo test -j 3 --lib ui::view"}"#,
    );
    assert_eq!(
        act_debug,
        AgentActivity::Debugging {
            step: "cargo test -j 3 --lib ui::view".to_string()
        }
    );

    let act_cmd = AgentActivity::from_tool_call("exec_cmd", r#"{"command": "echo hello world"}"#);
    assert_eq!(
        act_cmd,
        AgentActivity::ExecutingCommand {
            command: "echo hello world".to_string()
        }
    );
}

#[test]
fn activity_defaults_and_shortening() {
    assert_eq!(
        AgentActivity::from_tool_call("read_file", "{}"),
        AgentActivity::RepoResearch {
            target: "codebase".to_string()
        }
    );
    assert_eq!(
        AgentActivity::from_tool_call("spawn_subagent", r#"{"role": "  auditor "}"#),
        AgentActivity::SubagentWorking {
            role: "auditor".to_string()
        }
    );
    let long = "x".repeat(40);
    let args = format!(r#"{{"query": "{}"}}"#, long);
    assert_eq!(
        AgentActivity::from_tool_call("fetch_or_browse", &args),
        AgentActivity::InternetResearch {
            query: format!("{}...", "x".repeat(33))
        }
    );
    assert_eq!(
        AgentActivity::from_tool_call("MyTool", "{}"),
        AgentActivity::ExecutingCommand {
            command: "MyTool".to_string()
        }
    );
}

#[test]
fn spinner_ids_round_trip() {
    for id in [
        "dual_pillars",
        "quadrants",
        "pulse_matrix",
        "concentric",
        "braille_wave",
        "corner_angles",
        "scanner_bar",
        "particle_orbit",
    ] {
        assert_eq!(SpinnerStyle::from_id(id).to_id(), id);
    }
    assert_eq!(SpinnerStyle::from_id("unknown"), SpinnerStyle::DualPillars);
}

#[test]
fn test_approval_modal_navigation_and_selection() {
    let mut state = ApprovalModalState::new(
        1,
        "call_1".to_string(),
        "patch_file".to_string(),
        "Patch main.rs".to_string(),
        vec![],
    );

    assert_eq!(state.selected_index, 0);
    state.next_option();
    assert_eq!(state.selected_index, 1);
    state.next_option();
    assert_eq!(state.selected_index, 2);
    state.prev_option();
    assert_eq!(state.selected_index, 1);

    state.select_by_number(3);
    assert_eq!(state.selected_index, 2);
    assert_eq!(
        state.confirm_selection(),
        Some(ApprovalResponse::AllowSession)
    );
}

#[test]
fn test_approval_modal_custom_feedback_typing() {
    let mut state = ApprovalModalState::new(
        1,
        "call_1".to_string(),
        "exec_cmd".to_string(),
        "Run rm -rf".to_string(),
        vec![],
    );

    state.select_by_number(4);
    assert!(state.is_typing_feedback);

    state.handle_char('D');
    state.handle_char('o');
    state.handle_char('n');
    state.handle_char('t');
    assert_eq!(state.feedback_input, "Dont");

    let response = state.confirm_selection();
    assert_eq!(
        response,
        Some(ApprovalResponse::CustomFeedback("Dont".to_string()))
    );
}

#[test]
fn test_approval_modal_direct_char_hotkeys() {
    let mut state = ApprovalModalState::new(
        1,
        "call_1".to_string(),
        "exec_cmd".to_string(),
        "$ cargo test".to_string(),
        vec![],
    );

    assert_eq!(state.handle_char('y'), Some(ApprovalResponse::Accept));
    assert_eq!(state.handle_char('n'), Some(ApprovalResponse::Reject));
    assert_eq!(state.handle_char('a'), Some(ApprovalResponse::AllowSession));
}

#[test]
fn test_base64_encode() {
    assert_eq!(base64_encode(b""), "");
    assert_eq!(base64_encode(b"f"), "Zg==");
    assert_eq!(base64_encode(b"fo"), "Zm8=");
    assert_eq!(base64_encode(b"foo"), "Zm9v");
    assert_eq!(
        base64_encode(b"Hello from minicode"),
        "SGVsbG8gZnJvbSBtaW5pY29kZQ=="
    );
}

#[test]
fn test_diff_viewer_generates_colored_lines() {
    let old = "fn main() {\n    println!(\"old\");\n}\n";
    let new = "fn main() {\n    println!(\"new\");\n}\n";

    let lines = DiffViewer::render_diff(old, new, 20);
    assert!(!lines.is_empty());
    let text: String = lines
        .iter()
        .map(|l| l.spans.iter().map(|s| s.text.as_str()).collect::<String>())
        .collect::<Vec<_>>()
        .join("\n");
    assert!(text.contains("- ") && text.contains("println!(\"old\");"));
    assert!(text.contains("+ ") && text.contains("println!(\"new\");"));
}

#[test]
fn test_centered_rect_dimensions() {
    let screen = Rect::new(0, 0, 100, 50);
    let popup = centered_rect(80, 60, screen);
    assert_eq!(popup.width, 80);
    assert_eq!(popup.height, 30);
    assert_eq!(popup.x, 10);
    assert_eq!(popup.y, 10);
}

#[test]
fn test_centered_rect_exact_dimensions() {
    let screen = Rect::new(0, 0, 100, 50);
    let popup = centered_rect_exact(40, 20, screen);
    assert_eq!(popup.width, 40);
    assert_eq!(popup.height, 20);
    assert_eq!(popup.x, 30);
    assert_eq!(popup.y, 15);
}

#[test]
fn test_centered_rect_exact_clamped_to_screen() {
    let screen = Rect::new(0, 0, 20, 10);
    let popup = centered_rect_exact(50, 50, screen);
    assert!(popup.width <= screen.width);
    assert!(popup.height <= screen.height);
    assert!(popup.x + popup.width <= screen.width);
    assert!(popup.y + popup.height <= screen.height);
}

#[test]
fn test_compute_scroll_offset() {
    assert_eq!(compute_scroll_offset(0, 5), 0);
    assert_eq!(compute_scroll_offset(4, 5), 0);
    assert_eq!(compute_scroll_offset(5, 5), 1);
    assert_eq!(compute_scroll_offset(10, 5), 6);
    assert_eq!(compute_scroll_offset(3, 0), 0);
}

#[test]
fn test_pty_drawer_toggle_and_input() {
    let mut drawer = PtyDrawer::new();
    assert!(!drawer.is_open);

    drawer.toggle();
    assert!(drawer.is_open);

    drawer.handle_char('l');
    drawer.handle_char('s');
    drawer.handle_char(' ');
    drawer.handle_char('-');
    drawer.handle_char('l');
    drawer.handle_char('a');
    assert_eq!(drawer.input_buffer, "ls -la");

    drawer.handle_backspace();
    assert_eq!(drawer.input_buffer, "ls -l");

    let cmd = drawer.submit_command();
    assert_eq!(cmd, Some("ls -l".to_string()));
    assert_eq!(drawer.input_buffer, "");
    assert!(drawer.history_lines.back().unwrap().contains("$ ls -l"));
}

#[test]
fn default_drawer_is_the_new_one() {
    let d = PtyDrawer::default();
    assert!(!d.is_open);
    assert_eq!(d.history_lines.len(), 2);
    assert_eq!(d.max_history, 1000);
    assert!(d.input_buffer.is_empty());
}

#[test]
fn base64_takes_four_characters_per_started_group() {
    for n in 0..10usize {
        let data = vec![0xabu8; n];
        assert_eq!(base64_encode(&data).len(), 4 * ((n + 2) / 3));
    }
}

#[test]
fn live_activity_titles_and_colours() {
    let (t, c1, c2) = AgentActivity::Thinking.live_title();
    assert_eq!((t.as_str(), c1, c2), ("Thinking...", ThemeColor::BrandAccent, ThemeColor::Highlight));
    let (t, c1, c2) = AgentActivity::InternetResearch { query: "verus".to_string() }.live_title();
    assert_eq!((t.as_str(), c1, c2), ("Searching web: \"verus\"...", ThemeColor::Info, ThemeColor::Success));
    let (t, _, _) = AgentActivity::EditingFile { path: "src/lib.rs".to_string() }.live_title();
    assert_eq!(t, "Applying edits to src/lib.rs...");
    let (t, c1, c2) = AgentActivity::CompactingContext.live_title();
    assert_eq!((t.as_str(), c1, c2), ("Compacting conversation memory...", ThemeColor::Muted, ThemeColor::TextPrimary));
}

#[test]
fn spinner_frames_follow_the_clock() {
    assert_eq!(
        render_spinner_spans(SpinnerStyle::DualPillars, 0, 80),
        vec![
            ("▰".to_string(), GlyphColor::Role(ThemeColor::BrandAccent)),
            ("▱  ".to_string(), GlyphColor::Role(ThemeColor::Muted)),
        ]
    );
    assert_eq!(
        render_spinner_spans(SpinnerStyle::DualPillars, 130, 80),
        vec![
            ("▰".to_string(), GlyphColor::Role(ThemeColor::BrandAccent)),
            ("▰  ".to_string(), GlyphColor::Role(ThemeColor::Info)),
        ]
    );
    assert_eq!(render_spinner_spans(SpinnerStyle::DualPillars, 480, 80), render_spinner_spans(SpinnerStyle::DualPillars, 0, 80));
    assert_eq!(render_spinner_spans(SpinnerStyle::Quadrants, 250, 80), vec![("▗  ".to_string(), GlyphColor::First)]);
    assert_eq!(render_spinner_spans(SpinnerStyle::ParticleOrbit, 0, 80), vec![("⠋  ".to_string(), GlyphColor::Second)]);
    assert_eq!(render_spinner_spans(SpinnerStyle::ScannerBar, 910, 80), vec![("▎  ".to_string(), GlyphColor::First)]);
}

#[test]
fn tool_families_and_looked_up_arguments() {
    assert_eq!(tool_kind("Search_Web"), ToolKind::Web);
    assert_eq!(tool_kind("apply_patch"), ToolKind::Edit);
    assert_eq!(tool_kind("run_command"), ToolKind::Exec);
    assert_eq!(tool_kind("spawn_subagent"), ToolKind::Subagent);
    assert_eq!(tool_kind("grep_search"), ToolKind::Repo);
    assert_eq!(tool_kind("todo_write"), ToolKind::Other);
    assert_eq!(
        AgentActivity::from_tool_kind(ToolKind::Exec, "run_command", "cargo test".to_string()),
        AgentActivity::Debugging { step: "cargo test".to_string() }
    );
    assert_eq!(
        AgentActivity::from_tool_kind(ToolKind::Exec, "run_command", "ls -la".to_string()),
        AgentActivity::ExecutingCommand { command: "ls -la".to_string() }
    );
    assert_eq!(
        AgentActivity::from_tool_kind(ToolKind::Other, "todo_write", "ignored".to_string()),
        AgentActivity::ExecutingCommand { command: "todo_write".to_string() }
    );
}

#[test]
fn test_color_to_rgb() {
    let (r, g, b) = color_to_rgb(TermColor::Rgb(10, 20, 30));
    assert_eq!((r, g, b), (10, 20, 30));

    let (r, g, b) = color_to_rgb(TermColor::White);
    assert_eq!((r, g, b), (245, 245, 245));
}

#[test]
fn color_to_rgb_indexed_is_grey_of_its_level() {
    assert_eq!(color_to_rgb(TermColor::Indexed(42)), (42, 42, 42));
    assert_eq!(color_to_rgb(TermColor::Reset), (200, 200, 200));
    assert_eq!(color_to_rgb(TermColor::DarkGray), (80, 80, 90));
}
