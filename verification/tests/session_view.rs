use minicode::records::{SessionMetadata, SessionSummary};
use minicode::ui::session_view::{session_footer, session_list_lines, session_preview_lines};
use minicode::ui::styled::{StyledLine, ThemeColor};

fn texts(l: &StyledLine) -> Vec<String> {
    l.spans.iter().map(|s| s.text.clone()).collect()
}

fn meta(id: &str, events: usize) -> SessionMetadata {
    SessionMetadata {
        id: id.to_string(),
        created_at: "2024-01-01T00:00:00Z".to_string(),
        workspace: "/w".to_string(),
        path: "/w/s.jsonl".to_string(),
        event_count: events,
        preview: String::new(),
    }
}

fn summary(files: usize) -> SessionSummary {
    SessionSummary {
        id: "sess-42".to_string(),
        created_at: "2024-01-01".to_string(),
        model: "local-model".to_string(),
        total_turns: 3,
        total_events: 17,
        total_tokens: 1200,
        total_duration_ms: 4500,
        tools_used: vec![("read_file".to_string(), 2), ("exec_cmd".to_string(), 1)],
        first_prompt: "fix the build".to_string(),
        files_touched: (0..files).map(|i| format!("src/f{}.rs", i)).collect(),
        last_response: "done".to_string(),
    }
}

#[test]
fn session_list_scrolls_to_selection_and_marks_it() {
    let ss = vec![meta("a", 0), meta("b", 3), meta("c", 1)];
    let ages: Vec<String> = vec!["1m ago".into(), "2h ago".into(), "3d ago".into()];
    let ids: Vec<String> = vec!["a".into(), "b".into(), "c".into()];
    let lines = session_list_lines(&ss, &ages, &ids, 2, 2);
    // two sessions fit, the window starts at the second
    assert_eq!(lines.len(), 4);
    assert_eq!(texts(&lines[0]), vec!["   2h ago ".to_string(), " (3 evt)".to_string()]);
    assert_eq!(lines[0].spans[0].style.fg, Some(ThemeColor::Warning));
    assert_eq!(texts(&lines[1]), vec!["     b".to_string()]);
    assert_eq!(texts(&lines[2]), vec![" › 3d ago ".to_string(), " (1 evt)".to_string()]);
    assert_eq!(lines[2].spans[0].style.bg, Some(ThemeColor::BrandAccent));
    assert_eq!(lines[3].spans[0].style.fg, Some(ThemeColor::BgElevated));

    let first = session_list_lines(&ss, &ages, &ids, 0, 5);
    assert_eq!(first.len(), 6);
    assert_eq!(texts(&first[0]), vec![" › 1m ago ".to_string(), String::new()]);

    let none = session_list_lines(&Vec::new(), &Vec::new(), &Vec::new(), 0, 3);
    assert_eq!(texts(&none[0]), vec!["  No past sessions found in this workspace.".to_string()]);
}

#[test]
fn session_preview_lists_counters_tools_and_capped_files() {
    let s = Some(summary(7));
    let lines = session_preview_lines(&s, "4.50s", "line one\nline two", 5);
    assert_eq!(texts(&lines[0]), vec!["Session: ".to_string(), "sess-42".to_string()]);
    assert_eq!(texts(&lines[1])[3], "local-model");
    assert_eq!(
        texts(&lines[2]),
        vec!["Turns: ", "3   ", "Events: ", "17   ", "Tokens: ", "~1200   ", "Tool Time: ", "4.50s"]
            .into_iter()
            .map(String::from)
            .collect::<Vec<_>>()
    );
    assert_eq!(texts(&lines[3]), vec![String::new()]);
    assert_eq!(
        texts(&lines[4]),
        vec!["Tools: ".to_string(), "[read_file: 2] ".to_string(), "[exec_cmd: 1] ".to_string()]
    );
    assert_eq!(texts(&lines[5]), vec!["Files Touched (7) : ".to_string()]);
    assert_eq!(texts(&lines[6]), vec!["  • ".to_string(), "src/f0.rs".to_string()]);
    assert_eq!(texts(&lines[11]), vec!["    +2 more files...".to_string()]);
    assert_eq!(texts(&lines[13]), vec!["Initial Prompt: ".to_string(), "fix the build".to_string()]);
    assert_eq!(texts(&lines[14]), vec!["Last Response: ".to_string(), "line one line two".to_string()]);
    assert_eq!(lines.len(), 15);

    let placeholder = session_preview_lines(&None, "", "", 5);
    assert_eq!(placeholder.len(), 1);
    assert_eq!(placeholder[0].spans[0].style.fg, Some(ThemeColor::Muted));

    let footer = session_footer();
    assert_eq!(footer.spans.len(), 10);
    assert_eq!(footer.spans[6].text, "[d] ");
    assert_eq!(footer.spans[6].style.fg, Some(ThemeColor::Destructive));
}
