use minicode::ui::modals::blocks_view::{
    code_preview_lines, code_preview_title, component_list_lines, component_meta_lines,
    components_search_line, components_title, no_component_line, ComponentCard,
};
use minicode::ui::styled::{StyledLine, ThemeColor};

fn texts(l: &StyledLine) -> Vec<String> {
    l.spans.iter().map(|s| s.text.clone()).collect()
}

fn card(name: &str, deps: &[&str]) -> ComponentCard {
    ComponentCard {
        name: name.to_string(),
        category: "button".to_string(),
        framework: "react".to_string(),
        version: "1.2.0".to_string(),
        description: "A button.".to_string(),
        dependencies: deps.iter().map(|d| d.to_string()).collect(),
        tags: vec![],
        code: "fn a() {}\n  let x = 1;\n".to_string(),
    }
}

#[test]
fn search_line_shows_query_or_hint() {
    assert_eq!(texts(&components_search_line("")), vec![" 🔍", " Type to filter..."]);
    let l = components_search_line("nav");
    assert_eq!(texts(&l), vec![" 🔍", " nav▌"]);
    assert!(l.spans[1].style.bold);
    assert_eq!(components_title(12), " Components (12) ");
}

#[test]
fn component_list_rows_skip_missing_entries_and_shorten_names() {
    let cards = vec![
        Some(card("PrimaryButton", &[])),
        None,
        Some(card("AnExtremelyLongComponentName", &[])),
    ];
    let lines = component_list_lines(&cards, 2, 10);
    assert_eq!(lines.len(), 2);
    assert_eq!(
        texts(&lines[0]),
        vec!["  ", "PrimaryButton       ", "[button]  ", "[react]"]
    );
    assert_eq!(texts(&lines[1])[0], "▸ ");
    assert_eq!(texts(&lines[1])[1], "AnExtremelyLongCo…  ");
    assert_eq!(lines[1].spans[1].style.bg, Some(ThemeColor::Border));
    assert_eq!(lines[0].spans[2].style.fg, Some(ThemeColor::Info));
    let empty = component_list_lines(&vec![], 0, 10);
    assert_eq!(texts(&empty[0]), vec!["  (No components found)"]);
}

#[test]
fn component_list_scrolls_to_the_selection() {
    let cards: Vec<Option<ComponentCard>> = (0..6).map(|i| Some(card(&format!("C{}", i), &[]))).collect();
    let lines = component_list_lines(&cards, 5, 3);
    assert_eq!(lines.len(), 3);
    assert!(texts(&lines[0])[1].starts_with("C3"));
    assert_eq!(texts(&lines[2])[0], "▸ ");
}

#[test]
fn metadata_joins_dependencies_and_says_none_for_no_tags() {
    let meta = component_meta_lines(&card("Btn", &["react", "clsx"]));
    assert_eq!(meta.len(), 3);
    assert_eq!(
        texts(&meta[0]),
        vec!["Btn ", "(v1.2.0) ", "• Category: button ", "• Framework: react"]
    );
    assert_eq!(texts(&meta[1]), vec!["Description: ", "A button."]);
    assert_eq!(texts(&meta[2]), vec!["Dependencies: ", "react, clsx", "   Tags: ", "none"]);
}

#[test]
fn code_preview_numbers_lines_from_the_offset() {
    let c = card("Btn", &[]);
    let all = code_preview_lines(&c.code, 0, 10);
    assert_eq!(all.len(), 2);
    assert_eq!(texts(&all[0])[0], "  1 │ ");
    let joined: String = texts(&all[1])[1..].concat();
    assert_eq!(joined, "  let x = 1;");
    let scrolled = code_preview_lines(&c.code, 7, 10);
    assert_eq!(scrolled.len(), 1);
    assert_eq!(texts(&scrolled[0])[0], "  2 │ ");
    assert_eq!(code_preview_lines(&c.code, 0, 1).len(), 1);
    assert!(code_preview_lines("", 3, 5).is_empty());
    assert_eq!(code_preview_title(7), " Code Preview (lines 8+) ");
    assert_eq!(texts(&no_component_line()), vec![" No component selected."]);
}
