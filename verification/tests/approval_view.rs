use minicode::ui::approval::ApprovalModalState;
use minicode::ui::approval_view::approval_lines;
use minicode::ui::styled::{StyledLine, ThemeColor};

fn texts(l: &StyledLine) -> Vec<String> {
    l.spans.iter().map(|s| s.text.clone()).collect()
}

#[test]
fn approval_lines_cut_long_command_and_pad_options() {
    let m = ApprovalModalState::new(
        1,
        "t1".to_string(),
        "exec_cmd".to_string(),
        "echo hello world".to_string(),
        Vec::new(),
    );
    let lines = approval_lines(&m, 20);
    assert_eq!(lines.len(), 6);
    assert_eq!(texts(&lines[0]), vec!["  ▶ Run: ".to_string(), "echo he…".to_string()]);
    assert_eq!(lines[0].spans[1].style.fg, Some(ThemeColor::Warning));
    assert!(lines[0].spans[1].style.bold);
    assert_eq!(lines[1].spans[0].text, "─".repeat(20));
    assert_eq!(lines[1].spans[0].style.fg, Some(ThemeColor::Border));
    assert_eq!(lines[2].spans[0].text, " ❯ [1] ✔ Approve (Execute action)");
    assert_eq!(lines[2].spans[0].style.bg, Some(ThemeColor::BrandAccent));
    assert_eq!(lines[2].spans[0].style.fg, Some(ThemeColor::BgPrimary));
    assert_eq!(lines[3].spans[0].text, "   [2] ✖ Reject (Cancel action)");
    assert_eq!(lines[3].spans[0].style.fg, Some(ThemeColor::Muted));

    let wide = approval_lines(&m, 60);
    assert_eq!(texts(&wide[0])[1], "echo hello world");
    assert_eq!(wide[2].spans[0].text.chars().count(), 60);
    assert_eq!(wide[2].spans[0].text.trim_end(), " ❯ [1] ✔ Approve (Execute action)");
    assert_eq!(wide[5].spans[0].text.trim_end(), "   [4] 💬 Type Instructions / Custom Feedback");
}

#[test]
fn approval_lines_show_typed_feedback_and_tool_banner() {
    let mut m = ApprovalModalState::new(
        2,
        "t2".to_string(),
        "grep_search".to_string(),
        "src".to_string(),
        Vec::new(),
    );
    m.selected_index = 3;
    m.is_typing_feedback = true;
    m.feedback_input = "use ripgrep".to_string();
    let lines = approval_lines(&m, 56);
    assert_eq!(lines.len(), 7);
    assert_eq!(texts(&lines[0]), vec!["  🔧 grep_search: ".to_string(), "src".to_string()]);
    assert_eq!(lines[0].spans[1].style.fg, Some(ThemeColor::TextPrimary));
    assert_eq!(lines[2].spans[0].style.fg, Some(ThemeColor::Muted));
    assert_eq!(lines[5].spans[0].style.bg, Some(ThemeColor::BrandAccent));
    assert_eq!(lines[6].spans[0].text, "❯ use ripgrep█");
    assert_eq!(lines[6].spans[0].style.fg, None);

    let patch = ApprovalModalState::new(3, "t3".to_string(), "patch_file".to_string(), "a.rs".to_string(), Vec::new());
    assert_eq!(approval_lines(&patch, 56)[0].spans[0].text, "  📝 Patch: ");
    let write = ApprovalModalState::new(3, "t3".to_string(), "write_file".to_string(), "b.rs".to_string(), Vec::new());
    assert_eq!(approval_lines(&write, 56)[0].spans[0].text, "  📄 Write: ");
}
