use minicode::ui::input::{CommandCategory, InputDock, KeyInput, KeyKind};

/// A key press with the given modifiers.
fn press(kind: KeyKind, shift: bool, alt: bool, control: bool) -> KeyInput {
    KeyInput { kind, release: false, shift, alt, control, control_only: control && !shift && !alt }
}

#[test]
fn test_matching_palette_commands_filtering() {
    let mut dock = InputDock::new();
    dock.textarea.insert_str("/mod");
    let matches = dock.matching_palette_commands();
    assert!(matches.iter().any(|c| c.title == "Switch Model"));

    let mut dock2 = InputDock::new();
    dock2.textarea.insert_str("/rev");
    let matches2 = dock2.matching_palette_commands();
    assert!(matches2.iter().any(|c| c.title == "Code Review"));
}

#[test]
fn test_category_cycling() {
    let mut dock = InputDock::new();
    assert_eq!(dock.category_index, 0);
    dock.cycle_category(true);
    assert_eq!(dock.category_index, 1);
    dock.cycle_category(false);
    assert_eq!(dock.category_index, 0);
}

#[test]
fn test_required_height() {
    let mut dock = InputDock::new();
    assert_eq!(dock.required_height(), 3);

    dock.textarea.insert_newline();
    assert_eq!(dock.required_height(), 4);

    dock.textarea.insert_newline();
    assert_eq!(dock.required_height(), 5);

    dock.reset();
    assert_eq!(dock.required_height(), 3);
}

#[test]
fn test_auto_wrap() {
    let mut dock = InputDock::new();
    dock.last_width = 24;
    dock.textarea.insert_str("This is a long sentence that wraps");
    dock.auto_wrap();

    let lines = dock.textarea.lines();
    assert!(lines.len() >= 2);
    assert_eq!(lines[0], "This is a long");
    assert_eq!(lines[1], "sentence that wraps");
    assert_eq!(dock.required_height(), 4);
}

#[test]
fn test_short_paste_lte_5_lines() {
    let mut dock = InputDock::new();
    let short_paste = "line 1\nline 2\nline 3";
    dock.handle_paste(short_paste);

    assert!(dock.pasted_blocks.is_empty());
    assert_eq!(dock.textarea.lines().len(), 3);
    assert_eq!(dock.required_height(), 5);

    let submission = dock.resolve_submission(&dock.textarea.lines().join("\n"));
    assert_eq!(submission.display, "line 1\nline 2\nline 3");
    assert_eq!(submission.full, "line 1\nline 2\nline 3");
}

#[test]
fn test_long_paste_gt_5_lines_collapses_to_preview() {
    let mut dock = InputDock::new();
    let long_code = "\
fn calculate_hash(data: &[u8]) -> u64 {
    let mut hash: u64 = 0x12345678;
    for &byte in data {
        hash = hash.rotate_left(5) ^ (byte as u64);
        hash = hash.wrapping_mul(0x5bd1e995);
    }
    hash ^= hash >> 15;
    hash = hash.wrapping_mul(0x1b873593);
    hash ^= hash >> 13;
    hash
}";
    let lines_count = long_code.lines().count();
    assert_eq!(lines_count, 11);

    dock.handle_paste(long_code);

    assert_eq!(dock.pasted_blocks.len(), 1);
    let block = dock.pasted_blocks[0].clone();
    assert_eq!(block.line_count, 11);
    assert!(block.placeholder.contains("..... +11 lines]"));
    assert!(block.placeholder.starts_with("[fn calculate_hash"));

    let ta_text = dock.textarea.lines().join("\n");
    assert!(ta_text.contains(&block.placeholder));

    dock.textarea.insert_str("please optimize this function");

    let current_text = dock.textarea.lines().join("\n");
    let submission = dock.resolve_submission(&current_text);

    assert!(submission.display.contains(&block.placeholder));
    assert!(submission.display.contains("please optimize this function"));

    assert!(submission
        .full
        .contains("fn calculate_hash(data: &[u8]) -> u64 {"));
    assert!(submission.full.contains("please optimize this function"));
    assert!(!submission.full.contains(&block.placeholder));
}

#[test]
fn test_shift_enter_inserts_newline_and_plain_enter_submits() {
    let mut dock = InputDock::new();
    dock.textarea.insert_str("line 1");

    let shift_enter = press(KeyKind::Enter, true, false, false);
    let res = dock.handle_key(shift_enter);
    assert!(res.is_none());
    assert_eq!(dock.textarea.lines().len(), 2);

    dock.textarea.insert_str("line 2");

    let plain_enter = press(KeyKind::Enter, false, false, false);
    let res = dock.handle_key(plain_enter);
    assert!(res.is_some());
    let submission = res.unwrap();
    assert_eq!(submission.display, "line 1\nline 2");
    assert_eq!(submission.full, "line 1\nline 2");

    assert_eq!(dock.textarea.lines().len(), 1);
    assert_eq!(dock.textarea.lines()[0], "");
}

#[test]
fn test_height_capped_at_5_lines() {
    let mut dock = InputDock::new();
    for i in 1..=20 {
        if i > 1 {
            dock.textarea.insert_newline();
        }
        dock.textarea.insert_str(&format!("Line {}", i));
    }
    assert_eq!(dock.textarea.lines().len(), 20);
    assert_eq!(dock.required_height(), 7);
}

#[test]
fn palette_enter_submits_highlighted_command() {
    let mut dock = InputDock::new();
    dock.textarea.insert_str("/mod");
    assert!(dock.has_active_slash_query());
    let res = dock.handle_key(press(KeyKind::Enter, false, false, false));
    let sub = res.unwrap();
    assert_eq!(sub.display, "/model");
    assert_eq!(sub.full, "/model");
    assert!(dock.is_empty());
}

#[test]
fn palette_keys_move_and_close() {
    let mut dock = InputDock::new();
    dock.textarea.insert_str("/");
    let n = dock.matching_palette_commands().len();
    assert_eq!(n, 41);
    dock.handle_key(press(KeyKind::Down, false, false, false));
    assert_eq!(dock.slash_selected_index, 1);
    dock.handle_key(press(KeyKind::Up, false, false, false));
    dock.handle_key(press(KeyKind::Up, false, false, false));
    assert_eq!(dock.slash_selected_index, 0);
    dock.handle_key(press(KeyKind::Tab, false, false, false));
    assert_eq!(dock.category_index, 1);
    assert!(dock
        .matching_palette_commands()
        .iter()
        .all(|c| c.category == CommandCategory::System));
    dock.handle_key(press(KeyKind::Esc, false, false, false));
    assert_eq!(dock.get_text(), "");
    assert_eq!(CommandCategory::Intelligence.label(), "Intelligence");
}

#[test]
fn typed_keys_reach_the_text_area() {
    let mut dock = InputDock::new();
    dock.handle_key(press(KeyKind::Char('h'), false, false, false));
    dock.handle_key(press(KeyKind::Char('i'), false, false, false));
    assert_eq!(dock.get_text(), "hi");
    dock.handle_key(press(KeyKind::Char('j'), false, false, true));
    assert_eq!(dock.textarea.lines().len(), 2);
    assert!(dock.handle_key(press(KeyKind::Enter, false, false, false)).is_some());
    assert!(dock.handle_key(press(KeyKind::Enter, false, false, false)).is_none());
}

#[test]
fn default_dock_is_empty() {
    let dock = InputDock::default();
    assert!(dock.is_empty());
    assert_eq!(dock.get_text(), "");
    assert_eq!(dock.next_block_id, 1);
}

#[test]
fn text_area_bindings_edit_and_move() {
    let mut dock = InputDock::new();
    for c in "abc".chars() {
        dock.handle_key(press(KeyKind::Char(c), false, false, false));
    }
    dock.handle_key(press(KeyKind::Left, false, false, false));
    dock.handle_key(press(KeyKind::Char('X'), true, false, false));
    assert_eq!(dock.get_text(), "abXc");
    dock.handle_key(press(KeyKind::Backspace, false, false, false));
    assert_eq!(dock.get_text(), "abc");
    dock.handle_key(press(KeyKind::Char('m'), false, false, true));
    assert_eq!(dock.textarea.lines().len(), 2);
    let release = KeyInput { release: true, ..press(KeyKind::Char('z'), false, false, false) };
    assert!(dock.handle_key(release).is_none());
    assert_eq!(dock.textarea.lines().len(), 2);
}
