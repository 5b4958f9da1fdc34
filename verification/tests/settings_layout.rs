use minicode::ui::modals::settings::{
    settings_modal_size, tab_strip_width, tab_window, truncate_middle, SettingsTab,
};

fn label_widths() -> Vec<usize> {
    SettingsTab::all().iter().map(|t| format!(" [ {} ] ", t.title()).len()).collect()
}

#[test]
fn modal_size_follows_the_terminal() {
    assert_eq!(settings_modal_size(55, 24), (55, 24));
    assert_eq!(settings_modal_size(120, 40), (105, 32));
    assert_eq!(settings_modal_size(200, 50), (110, 32));
    assert_eq!(settings_modal_size(90, 30), (86, 24));
}

#[test]
fn whole_tab_strip_width() {
    let w = label_widths();
    assert_eq!(w, vec![18, 18, 17, 15]);
    assert_eq!(tab_strip_width(&w), 76);
    assert_eq!(tab_strip_width(&vec![]), 2);
}

#[test]
fn narrow_strip_shows_a_window_around_the_active_tab() {
    let w = label_widths();
    assert_eq!(tab_window(&w, 0, 53), (0, 1));
    assert_eq!(tab_window(&w, 1, 53), (1, 2));
    assert_eq!(tab_window(&w, 2, 53), (2, 3));
    assert_eq!(tab_window(&w, 3, 53), (2, 3));
    assert_eq!(tab_window(&w, 0, 20), (0, 0));
    assert_eq!(tab_window(&w, 2, 200), (0, 3));
}

#[test]
fn over_limit_text_is_cut_in_the_middle_for_small_limits_too() {
    assert_eq!(truncate_middle("abcdefghij", 5), "a...j");
    assert_eq!(truncate_middle("abcdefghij", 7), "ab...ij");
    assert_eq!(truncate_middle("abcdef", 3), "...");
    assert_eq!(truncate_middle("abcdef", 1), "...");
    assert_eq!(truncate_middle("abc", 3), "abc");
}
