use minicode::ui::modals::command_catalog::{
    catalog_detail_lines, catalog_list_lines, catalog_search_line, command_catalog_items,
};
use minicode::ui::styled::{StyledLine, ThemeColor};

fn texts(l: &StyledLine) -> Vec<String> {
    l.spans.iter().map(|s| s.text.clone()).collect()
}

#[test]
fn catalog_list_shows_a_window_around_the_selection() {
    let items = command_catalog_items();
    let all: Vec<usize> = (0..items.len()).collect();
    let lines = catalog_list_lines(items, &all, 0, 6, 12);
    assert_eq!(lines.len(), 4);
    assert_eq!(texts(&lines[0]), vec!["▶ ", "/commands   ", ""]);
    assert_eq!(lines[0].spans[1].style.fg, Some(ThemeColor::BrandAccent));
    assert!(lines[0].spans[1].style.bold);
    assert_eq!(texts(&lines[1]), vec!["  ", "/new        ", " [Ctrl+N]"]);
    assert_eq!(lines[1].spans[1].style.fg, Some(ThemeColor::TextPrimary));
    let scrolled = catalog_list_lines(items, &all, 5, 6, 4);
    assert_eq!(texts(&scrolled[3])[0], "▶ ");
    assert_eq!(texts(&scrolled[0])[1], items[2].name);
    let empty = catalog_list_lines(items, &vec![], 0, 6, 12);
    assert_eq!(texts(&empty[0]), vec!["  No matching commands found"]);
}

#[test]
fn catalog_details_describe_the_selected_command() {
    let items = command_catalog_items();
    let d = catalog_detail_lines(items, &vec![1], 0);
    assert_eq!(texts(&d[0]), vec!["/new".to_string(), format!("  •  {}", items[1].category)]);
    assert_eq!(texts(&d[2]), vec!["⚡ Shortcut: ", "Ctrl+N"]);
    assert_eq!(d.len(), 13);
    let plain = catalog_detail_lines(items, &vec![0], 0);
    assert_eq!(plain.len(), 11);
    assert!(plain[6].spans[0].style.italic);
    assert!(catalog_detail_lines(items, &vec![0], 3).is_empty());
}

#[test]
fn search_bar_right_aligns_the_count() {
    let l = catalog_search_line("gi", 3, 1, 20);
    assert_eq!(texts(&l), vec!["❯ ", "gi", "█", "    [2/3] "]);
    let none = catalog_search_line("", 0, 0, 4);
    assert_eq!(texts(&none)[3], " [0/0] ");
}
