use minicode::ui::styled::ThemeColor;
use minicode::ui::modals::blocks::{
    hex_to_rgb, style_code_line,
    BlockEntry, BlockListings, BlockQueries, BlocksModalState, BlocksTab, TemplateEntry,
};

/// A small in-memory block store: components, palettes and gradients are found by a
/// case-insensitive name search, as the warehouse store answers.
struct FixtureStore {
    components: Vec<(u128, &'static str, &'static str)>,
    palettes: Vec<(u128, &'static str, &'static str)>,
    gradients: Vec<(u128, &'static str, &'static str)>,
    templates: Vec<(u128, &'static str, &'static str, &'static str)>,
}

fn search(items: &[(u128, &'static str, &'static str)], q: &str) -> Vec<BlockEntry> {
    let q = q.trim().to_lowercase();
    items
        .iter()
        .filter(|(_, name, _)| q.is_empty() || name.to_lowercase().contains(&q))
        .map(|(id, name, _)| BlockEntry { id: *id, name: name.to_string() })
        .collect()
}

impl FixtureStore {
    fn new() -> Self {
        FixtureStore {
            components: vec![
                (1, "Navbar Sticky", "<nav class=\"sticky\"></nav>"),
                (2, "hero banner", "<section class=\"hero\"></section>"),
                (3, "Footer", "<footer></footer>"),
                (4, "navbar minimal", "<nav></nav>"),
            ],
            palettes: vec![
                (10, "Sunset", ":root { --c0: #ff5e62; }"),
                (11, "aurora", ":root { --c0: #00c9ff; }"),
            ],
            gradients: vec![(20, "Ocean", "linear-gradient(#2e3192, #1bffff)")],
            templates: vec![
                (30, "Landing", "Marketing landing page", "hero + features + footer"),
                (31, "dashboard", "Admin area", "sidebar + grid"),
            ],
        }
    }

    fn answer(&self, q: &BlockQueries) -> BlockListings {
        BlockListings {
            components: search(&self.components, q.component_query.as_deref().unwrap_or("")),
            palettes: search(&self.palettes, &q.palette_query),
            gradients: search(&self.gradients, &q.gradient_query),
            templates: self
                .templates
                .iter()
                .map(|(id, n, d, b)| TemplateEntry {
                    id: *id,
                    name: n.to_string(),
                    description: d.to_string(),
                    base_layout: b.to_string(),
                })
                .collect(),
        }
    }

    fn code(&self, tab: BlocksTab, id: u128) -> Option<String> {
        let find = |items: &[(u128, &'static str, &'static str)]| {
            items.iter().find(|(i, _, _)| *i == id).map(|(_, _, c)| c.to_string())
        };
        match tab {
            BlocksTab::Components => find(&self.components),
            BlocksTab::Palettes => find(&self.palettes),
            BlocksTab::Gradients => find(&self.gradients),
            BlocksTab::Templates => self
                .templates
                .iter()
                .find(|(i, _, _, _)| *i == id)
                .map(|(_, _, _, b)| b.to_string()),
        }
    }

    fn refresh(&self, state: &mut BlocksModalState) {
        let listings = self.answer(&state.store_queries());
        state.refresh_filtered(&listings);
    }

    fn opened(&self, workspace: &str) -> BlocksModalState {
        let mut state = BlocksModalState::new(workspace);
        self.refresh(&mut state);
        state
    }
}

#[test]
fn test_blocks_modal_navigation_and_tabs() {
    let store = FixtureStore::new();
    let mut state = store.opened("/tmp/blocks");

    assert_eq!(state.active_tab, BlocksTab::Components);
    assert_eq!(state.active_tab.title(), "Components");

    state.next_tab();
    store.refresh(&mut state);
    assert_eq!(state.active_tab, BlocksTab::Palettes);
    assert_eq!(state.active_tab.title(), "Palettes");

    state.next_tab();
    store.refresh(&mut state);
    assert_eq!(state.active_tab, BlocksTab::Gradients);
    assert_eq!(state.active_tab.title(), "Gradients");

    state.next_tab();
    store.refresh(&mut state);
    assert_eq!(state.active_tab, BlocksTab::Templates);
    assert_eq!(state.active_tab.title(), "Templates");

    state.next_tab();
    store.refresh(&mut state);
    assert_eq!(state.active_tab, BlocksTab::Components);

    state.prev_tab();
    store.refresh(&mut state);
    assert_eq!(state.active_tab, BlocksTab::Templates);
    state.prev_tab();
    store.refresh(&mut state);
    assert_eq!(state.active_tab, BlocksTab::Gradients);
    state.prev_tab();
    store.refresh(&mut state);
    assert_eq!(state.active_tab, BlocksTab::Palettes);
    state.prev_tab();
    store.refresh(&mut state);
    assert_eq!(state.active_tab, BlocksTab::Components);

    assert_eq!(state.selected_index, 0);
    state.select_prev();
    assert_eq!(state.selected_index, 0);

    let count = state.current_tab_len();
    if count > 1 {
        state.select_next();
        assert_eq!(state.selected_index, 1);
        state.select_prev();
        assert_eq!(state.selected_index, 0);
    }
}

#[test]
fn test_blocks_modal_filtering() {
    let store = FixtureStore::new();
    let mut state = store.opened("/tmp/blocks");

    let initial_comp_count = state.filtered_component_ids.len();

    for c in "navbar".chars() {
        state.handle_char(c);
        store.refresh(&mut state);
    }
    assert_eq!(state.search_query, "navbar");
    assert!(state.filtered_component_ids.len() <= initial_comp_count);

    if state.handle_backspace() {
        store.refresh(&mut state);
    }
    assert_eq!(state.search_query, "navba");

    for c in "xyz999nonexistentfilter".chars() {
        state.handle_char(c);
        store.refresh(&mut state);
    }
    assert_eq!(state.filtered_component_ids.len(), 0);
    assert_eq!(state.selected_index, 0);
}

#[test]
fn test_blocks_modal_preview_scrolling() {
    let store = FixtureStore::new();
    let mut state = store.opened("/tmp/blocks");

    assert_eq!(state.preview_scroll_offset, 0);
    state.scroll_preview_down();
    assert_eq!(state.preview_scroll_offset, 3);
    state.scroll_preview_down();
    assert_eq!(state.preview_scroll_offset, 6);
    state.scroll_preview_up();
    assert_eq!(state.preview_scroll_offset, 3);
    state.scroll_preview_up();
    assert_eq!(state.preview_scroll_offset, 0);
    state.scroll_preview_up();
    assert_eq!(state.preview_scroll_offset, 0);
}

#[test]
fn test_get_selected_code() {
    let store = FixtureStore::new();
    let mut state = store.opened("/tmp/blocks");

    let code = state.selected_id().and_then(|id| store.code(state.active_tab, id));
    if !state.filtered_component_ids.is_empty() {
        assert!(code.is_some());
    }

    state.next_tab();
    store.refresh(&mut state);
    let pal_code = state.selected_id().and_then(|id| store.code(state.active_tab, id));
    if !state.filtered_palette_ids.is_empty() {
        assert!(pal_code.is_some());
        assert!(pal_code.unwrap().contains(":root"));
    }

    state.next_tab();
    store.refresh(&mut state);
    let grad_code = state.selected_id().and_then(|id| store.code(state.active_tab, id));
    if !state.filtered_gradient_ids.is_empty() {
        assert!(grad_code.is_some());
    }

    state.next_tab();
    store.refresh(&mut state);
    let tmpl_code = state.selected_id().and_then(|id| store.code(state.active_tab, id));
    if !state.filtered_template_ids.is_empty() {
        assert!(tmpl_code.is_some());
    }
}

#[test]
fn lists_are_ordered_by_lowercased_name_and_stable() {
    let store = FixtureStore::new();
    let state = store.opened("/tmp/blocks");
    // "Footer" < "hero banner" < "Navbar Sticky" < "navbar minimal"? compared lower-cased:
    // "footer" < "hero banner" < "navbar minimal" < "navbar sticky"
    assert_eq!(state.filtered_component_ids, vec![3, 2, 4, 1]);
    assert_eq!(state.filtered_palette_ids, vec![11, 10]);
    assert_eq!(state.filtered_template_ids, vec![31, 30]);

    let mut ties = BlocksModalState::new("/tmp/blocks");
    let listings = BlockListings {
        components: vec![
            BlockEntry { id: 7, name: "Card".to_string() },
            BlockEntry { id: 5, name: "card".to_string() },
            BlockEntry { id: 6, name: "Alert".to_string() },
        ],
        palettes: vec![],
        gradients: vec![],
        templates: vec![],
    };
    ties.refresh_filtered(&listings);
    assert_eq!(ties.filtered_component_ids, vec![6, 7, 5]);
}

#[test]
fn typed_component_query_keeps_store_order_and_templates_filter() {
    let store = FixtureStore::new();
    let mut state = store.opened("/tmp/blocks");
    for c in "NAV".chars() {
        state.handle_char(c);
    }
    assert_eq!(
        state.store_queries(),
        BlockQueries {
            component_query: Some("NAV".to_string()),
            palette_query: String::new(),
            gradient_query: String::new(),
        }
    );
    store.refresh(&mut state);
    assert_eq!(state.filtered_component_ids, vec![1, 4]);

    let mut t = store.opened("/tmp/blocks");
    t.prev_tab();
    for c in " GRID ".chars() {
        t.handle_char(c);
    }
    store.refresh(&mut t);
    assert_eq!(t.filtered_template_ids, vec![31]);
    assert_eq!(t.selected_id(), Some(31));
    t.select_next();
    assert_eq!(t.selected_index, 0);

    let mut p = store.opened("/tmp/blocks");
    p.next_tab();
    p.handle_char('s');
    assert_eq!(p.store_queries().palette_query, "s");
    store.refresh(&mut p);
    assert_eq!(p.filtered_palette_ids, vec![10]);
}

#[test]
fn selection_is_clamped_after_refresh() {
    let store = FixtureStore::new();
    let mut state = store.opened("/tmp/blocks");
    state.select_next();
    state.select_next();
    state.select_next();
    assert_eq!(state.selected_index, 3);
    state.select_next();
    assert_eq!(state.selected_index, 3);
    state.handle_char('f');
    state.selected_index = 3;
    store.refresh(&mut state);
    assert_eq!(state.filtered_component_ids, vec![3]);
    assert_eq!(state.selected_index, 0);
    assert!(!{
        let mut empty = BlocksModalState::new("/tmp/blocks");
        empty.handle_backspace()
    });
}

fn spans_of(line: &str) -> Vec<(String, Option<ThemeColor>, bool)> {
    style_code_line(line)
        .into_iter()
        .map(|s| (s.text, s.style.fg, s.style.bold))
        .collect()
}

fn sp(t: &str, c: Option<ThemeColor>, bold: bool) -> (String, Option<ThemeColor>, bool) {
    (t.to_string(), c, bold)
}

#[test]
fn code_lines_are_highlighted_by_token() {
    assert_eq!(spans_of("    // comment"), vec![sp("    // comment", Some(ThemeColor::Muted), false)]);
    assert_eq!(spans_of("* item"), vec![sp("* item", Some(ThemeColor::Muted), false)]);
    assert_eq!(
        spans_of("  const x = \"hi\"; // note"),
        vec![
            sp("  ", None, false),
            sp("const", Some(ThemeColor::BrandAccent), true),
            sp(" ", Some(ThemeColor::Muted), false),
            sp("x", Some(ThemeColor::TextPrimary), false),
            sp(" ", Some(ThemeColor::Muted), false),
            sp("=", Some(ThemeColor::Muted), false),
            sp(" ", Some(ThemeColor::Muted), false),
            sp("\"hi\"", Some(ThemeColor::Success), false),
            sp(";", Some(ThemeColor::Muted), false),
            sp(" ", Some(ThemeColor::Muted), false),
            sp("// note", Some(ThemeColor::Muted), false),
        ]
    );
    assert_eq!(
        spans_of("<div className={x}/>"),
        vec![
            sp("<", Some(ThemeColor::Info), false),
            sp("div", Some(ThemeColor::TextPrimary), false),
            sp(" ", Some(ThemeColor::Muted), false),
            sp("className", Some(ThemeColor::Highlight), false),
            sp("=", Some(ThemeColor::Muted), false),
            sp("{", Some(ThemeColor::Muted), false),
            sp("x", Some(ThemeColor::TextPrimary), false),
            sp("}", Some(ThemeColor::Muted), false),
            sp("/>", Some(ThemeColor::Info), false),
        ]
    );
    assert_eq!(
        spans_of("</p>"),
        vec![sp("</", Some(ThemeColor::Info), false), sp("p", Some(ThemeColor::TextPrimary), false), sp(">", Some(ThemeColor::Info), false)]
    );
    assert_eq!(spans_of("n = 42")[4], sp("42", Some(ThemeColor::Warning), false));
    assert_eq!(spans_of("'abc"), vec![sp("'abc", Some(ThemeColor::Success), false)]);
    assert_eq!(spans_of("ünï_1$"), vec![sp("ünï_1$", Some(ThemeColor::TextPrimary), false)]);
    assert!(spans_of("").is_empty());
}

#[test]
fn hex_colours_are_parsed() {
    assert_eq!(hex_to_rgb("#ff8800"), Some((255, 136, 0)));
    assert_eq!(hex_to_rgb(" #0f0 "), Some((0, 255, 0)));
    assert_eq!(hex_to_rgb("#abc"), Some((170, 187, 204)));
    assert_eq!(hex_to_rgb("#ABCDEF"), Some((171, 205, 239)));
    assert_eq!(hex_to_rgb("ff8800"), None);
    assert_eq!(hex_to_rgb("#ff880"), None);
    assert_eq!(hex_to_rgb("#gg0000"), None);
    assert_eq!(hex_to_rgb("#+f0000"), Some((15, 0, 0)));
    assert_eq!(hex_to_rgb("#é12"), None);
    assert_eq!(hex_to_rgb("#"), None);
}
