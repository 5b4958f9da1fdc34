use minicode::records::{BackupFile, BackupManifest, ThemeInfo};
use minicode::ui::modals::common::{format_time_ago, time_ago_text};
use minicode::ui::modals::ModalState;

fn theme(id: &str) -> ThemeInfo {
    ThemeInfo {
        id: id.to_string(),
        name: id.to_uppercase(),
        description: String::new(),
        swatches: vec![],
    }
}

#[test]
fn ages_are_written_in_the_largest_whole_unit() {
    assert_eq!(time_ago_text(-5), "1s ago");
    assert_eq!(time_ago_text(0), "1s ago");
    assert_eq!(time_ago_text(59), "59s ago");
    assert_eq!(time_ago_text(60), "1m ago");
    assert_eq!(time_ago_text(3599), "59m ago");
    assert_eq!(time_ago_text(7200), "2h ago");
    assert_eq!(time_ago_text(86400 * 3 + 5), "3d ago");
    assert_eq!(format_time_ago("not a timestamp"), "recently");
    assert!(format_time_ago("2001-09-09T01:46:40Z").ends_with("d ago"));
}

#[test]
fn undo_browser_lists_each_manifest() {
    let manifests = vec![
        BackupManifest {
            turn_id: 7,
            timestamp: "garbage".to_string(),
            user_prompt: Some("fix the parser".to_string()),
            files: vec![BackupFile { original_path: "src/lib.rs".to_string() }],
        },
        BackupManifest {
            turn_id: 6,
            timestamp: "2001-09-09T01:46:40Z".to_string(),
            user_prompt: None,
            files: vec![],
        },
    ];
    match ModalState::new_undo_checkpoint(manifests) {
        ModalState::UndoCheckpoint { checkpoints, selected_index } => {
            assert_eq!(selected_index, 0);
            assert_eq!(checkpoints.len(), 2);
            assert_eq!(checkpoints[0].prompt, "fix the parser");
            assert_eq!(checkpoints[0].time_ago, "recently");
            assert_eq!(checkpoints[0].files, vec!["src/lib.rs".to_string()]);
            assert!(checkpoints[0].is_latest);
            assert_eq!(checkpoints[1].prompt, "Turn #6");
            assert!(!checkpoints[1].is_latest);
        }
        other => panic!("unexpected modal {:?}", other),
    }
}

#[test]
fn theme_picker_preselects_the_active_theme() {
    let themes = vec![theme("aura-dark"), theme("catppuccin"), theme("nord")];
    match ModalState::new_theme_select("catppuccin-mocha", themes.clone()) {
        ModalState::ThemeSelect { selected_index, .. } => assert_eq!(selected_index, 1),
        other => panic!("unexpected modal {:?}", other),
    }
    match ModalState::new_theme_select("nord", themes.clone()) {
        ModalState::ThemeSelect { selected_index, .. } => assert_eq!(selected_index, 2),
        other => panic!("unexpected modal {:?}", other),
    }
    match ModalState::new_theme_select("solarized", themes) {
        ModalState::ThemeSelect { selected_index, .. } => assert_eq!(selected_index, 0),
        other => panic!("unexpected modal {:?}", other),
    }
}

#[test]
fn small_dialog_constructors() {
    match ModalState::new_streaming_select(false) {
        ModalState::StreamingSelect { selected_index, current_streaming } => {
            assert_eq!(selected_index, 1);
            assert!(!current_streaming);
        }
        other => panic!("unexpected modal {:?}", other),
    }
    match ModalState::new_streaming_select(true) {
        ModalState::StreamingSelect { selected_index, .. } => assert_eq!(selected_index, 0),
        other => panic!("unexpected modal {:?}", other),
    }
    match ModalState::new_api_key_input(
        "groq".to_string(),
        "GROQ_API_KEY".to_string(),
        Some("gsk-é1".to_string()),
    ) {
        ModalState::ApiKeyInput { input, cursor, .. } => {
            assert_eq!(input, "gsk-é1");
            assert_eq!(cursor, 7);
        }
        other => panic!("unexpected modal {:?}", other),
    }
    match ModalState::new_git_diff(vec![], true) {
        ModalState::GitDiff { selected_file_index, scroll_offset, staged_view, .. } => {
            assert_eq!((selected_file_index, scroll_offset, staged_view), (0, 0, true));
        }
        other => panic!("unexpected modal {:?}", other),
    }
}
