use vac::app::{App, CleanableEntry, EntryKind, ItemCategory, Mode, SortOrder};
use vac::config::{AppConfig, SafetyConfig, ScanConfig, UiConfig};

fn entry(path: &str, size: Option<u64>) -> CleanableEntry {
    CleanableEntry {
        kind: EntryKind::File,
        category: None,
        path: path.to_string(),
        name: "item".to_string(),
        size,
        modified_at: None,
    }
}

fn named_entry(name: &str, kind: EntryKind, size: Option<u64>) -> CleanableEntry {
    CleanableEntry {
        kind,
        category: None,
        path: format!("/tmp/{name}"),
        name: name.to_string(),
        size,
        modified_at: None,
    }
}

fn names(entries: &[CleanableEntry]) -> Vec<&str> {
    entries.iter().map(|e| e.name.as_str()).collect()
}

#[test]
fn toggle_selected_updates_selected_size() {
    let mut app = App::new();
    app.entries = vec![entry("/tmp/a", Some(10)), entry("/tmp/b", Some(5))];
    app.list_state.select(Some(0));

    app.toggle_selected();
    assert_eq!(app.selected_size(), 10);

    app.toggle_selected();
    assert_eq!(app.selected_size(), 0);
}

#[test]
fn toggle_all_selects_and_deselects() {
    let mut app = App::new();
    app.entries = vec![entry("/tmp/a", Some(3)), entry("/tmp/b", Some(7))];

    app.toggle_all();
    assert_eq!(app.selections.len(), 2);
    assert_eq!(app.selected_size(), 10);

    app.toggle_all();
    assert!(app.selections.is_empty());
    assert_eq!(app.selected_size(), 0);
}

#[test]
fn apply_entry_size_updates_selected_size() {
    let mut app = App::new();
    let entry = entry("/tmp/a", None);
    app.entries = vec![entry.clone()];
    app.list_state.select(Some(0));
    app.toggle_selected();

    app.apply_entry_size("/tmp/a", 12);
    assert_eq!(app.selected_size(), 12);
}

#[test]
fn sort_root_entries_respects_sort_order_by_size() {
    let mut app = App::new();
    app.root_entries = vec![
        named_entry("small", EntryKind::File, Some(10)),
        named_entry("big", EntryKind::File, Some(100)),
        named_entry("mid", EntryKind::File, Some(50)),
    ];
    app.sort_order = SortOrder::BySize;
    app.sort_root_entries();

    assert_eq!(names(&app.root_entries), vec!["big", "mid", "small"]);
}

#[test]
fn sort_root_entries_respects_sort_order_by_name() {
    let mut app = App::new();
    app.root_entries = vec![
        named_entry("c_file", EntryKind::File, Some(10)),
        named_entry("a_dir", EntryKind::Directory, Some(100)),
        named_entry("b_file", EntryKind::File, Some(50)),
    ];
    app.sort_order = SortOrder::ByName;
    app.sort_root_entries();

    assert_eq!(names(&app.root_entries), vec!["a_dir", "b_file", "c_file"]);
}

#[test]
fn toggle_sort_order_at_root_applies_to_root_entries() {
    let mut app = App::new();
    app.root_entries = vec![
        named_entry("z_small", EntryKind::File, Some(1)),
        named_entry("a_big", EntryKind::File, Some(100)),
    ];
    assert!(app.navigation.current_path.is_none());
    app.sort_order = SortOrder::ByName;
    app.sort_root_entries();

    app.toggle_sort_order();
    assert_eq!(app.sort_order, SortOrder::BySize);
    assert_eq!(names(&app.entries), vec!["a_big", "z_small"]);
}

#[test]
fn toggle_sort_order_in_subdir_applies_to_dir_entries() {
    let mut app = App::new();
    app.navigation
        .enter("/tmp/subdir".to_string(), Vec::new(), None);
    app.entries = vec![
        named_entry("z_item", EntryKind::File, Some(1)),
        named_entry("a_item", EntryKind::File, Some(100)),
    ];
    app.sort_order = SortOrder::BySize;

    app.toggle_sort_order();
    assert_eq!(app.sort_order, SortOrder::ByName);
    assert_eq!(names(&app.entries), vec!["a_item", "z_item"]);
}

#[test]
fn restore_root_entries_applies_current_sort_order() {
    let mut app = App::new();
    app.root_entries = vec![
        named_entry("z_item", EntryKind::File, Some(1)),
        named_entry("a_item", EntryKind::File, Some(100)),
    ];
    app.sort_order = SortOrder::ByName;

    app.restore_root_entries();
    assert_eq!(names(&app.entries), vec!["a_item", "z_item"]);
}

#[test]
fn restore_cached_dir_entries_applies_current_sort_order_and_preserves_selection() {
    let mut app = App::new();
    app.sort_order = SortOrder::BySize;
    app.navigation
        .enter("/tmp/parent".to_string(), Vec::new(), None);

    let cached_entries = vec![
        named_entry("z_small", EntryKind::File, Some(1)),
        named_entry("a_big", EntryKind::File, Some(100)),
    ];
    app.restore_cached_dir_entries(cached_entries, Some(0));

    assert_eq!(names(&app.entries), vec!["a_big", "z_small"]);
    assert_eq!(app.list_state.selected(), Some(1));
}

#[test]
fn new_app_starts_idle_at_top_level() {
    let app = App::new();
    assert_eq!(app.mode, Mode::Normal);
    assert!(!app.should_quit);
    assert!(app.entries.is_empty());
    assert_eq!(app.list_state.selected(), Some(0));
    assert_eq!(app.scan_generation, 0);
    assert_eq!(app.sort_order, SortOrder::ByName);
    assert_eq!(app.visible_height, 20);
    assert_eq!(app.selected_size(), 0);
    assert!(!app.dry_run_active);
}

#[test]
fn with_config_takes_configured_order() {
    let config = AppConfig {
        scan: ScanConfig { extra_targets: Vec::new() },
        ui: UiConfig { default_sort: Some("time".to_string()) },
        safety: SafetyConfig { move_to_trash: false },
    };
    assert_eq!(App::with_config(&config).sort_order, SortOrder::ByTime);
    let config = AppConfig {
        scan: ScanConfig { extra_targets: Vec::new() },
        ui: UiConfig { default_sort: Some("size".to_string()) },
        safety: SafetyConfig { move_to_trash: false },
    };
    assert_eq!(App::with_config(&config).sort_order, SortOrder::BySize);
    let config = AppConfig {
        scan: ScanConfig { extra_targets: Vec::new() },
        ui: UiConfig { default_sort: Some("other".to_string()) },
        safety: SafetyConfig { move_to_trash: false },
    };
    assert_eq!(App::with_config(&config).sort_order, SortOrder::ByName);
    assert_eq!(App::with_config(&AppConfig::default()).sort_order, SortOrder::ByName);
}

#[test]
fn cursor_wraps_around_both_ends() {
    let mut app = App::new();
    app.next();
    assert_eq!(app.list_state.selected(), Some(0));
    app.entries = vec![entry("/a", None), entry("/b", None), entry("/c", None)];
    app.list_state.select(Some(2));
    app.next();
    assert_eq!(app.list_state.selected(), Some(0));
    app.next();
    assert_eq!(app.list_state.selected(), Some(1));
    app.list_state.select(Some(0));
    app.previous();
    assert_eq!(app.list_state.selected(), Some(2));
    app.previous();
    assert_eq!(app.list_state.selected(), Some(1));
    app.list_state.select(None);
    app.next();
    assert_eq!(app.list_state.selected(), Some(0));
    app.list_state.select(None);
    app.previous();
    assert_eq!(app.list_state.selected(), Some(0));
    app.list_state.select(Some(10));
    app.next();
    assert_eq!(app.list_state.selected(), Some(2));
    app.last();
    assert_eq!(app.list_state.selected(), Some(2));
    app.first();
    assert_eq!(app.list_state.selected(), Some(0));
}

#[test]
fn paging_moves_half_a_page_and_stays_on_the_list() {
    let mut app = App::new();
    app.entries = (0..10).map(|i| entry(&format!("/p/{i}"), None)).collect();
    app.list_state.select(Some(0));
    app.page_down(6);
    assert_eq!(app.list_state.selected(), Some(3));
    app.page_down(6);
    app.page_down(6);
    assert_eq!(app.list_state.selected(), Some(9));
    app.page_down(6);
    assert_eq!(app.list_state.selected(), Some(9));
    app.page_up(6);
    assert_eq!(app.list_state.selected(), Some(6));
    app.page_up(1);
    assert_eq!(app.list_state.selected(), Some(5));
    app.page_up(100);
    assert_eq!(app.list_state.selected(), Some(0));
    app.page_down(0);
    assert_eq!(app.list_state.selected(), Some(1));
    app.list_state.select(Some(usize::MAX));
    app.page_down(4);
    assert_eq!(app.list_state.selected(), Some(9));
}

#[test]
fn current_entry_needs_cursor_on_the_list() {
    let mut app = App::new();
    assert!(app.current_entry().is_none());
    app.entries = vec![entry("/a", Some(1))];
    assert_eq!(app.current_entry().map(|e| e.path.clone()), Some("/a".to_string()));
    app.list_state.select(Some(1));
    assert!(app.current_entry().is_none());
    app.toggle_selected();
    assert!(app.selections.is_empty());
}

#[test]
fn set_entries_totals_known_sizes() {
    let mut app = App::new();
    app.set_entries(vec![entry("/a", Some(4)), entry("/b", None), entry("/c", Some(6))]);
    assert_eq!(app.total_size, 10);
    assert_eq!(app.list_state.selected(), Some(0));
    app.set_entries(Vec::new());
    assert_eq!(app.total_size, 0);
    assert_eq!(app.list_state.selected(), None);
    app.set_entries(vec![entry("/a", Some(u64::MAX)), entry("/b", Some(1))]);
    assert_eq!(app.total_size, u64::MAX);
}

#[test]
fn root_entries_show_only_at_top_level() {
    let mut app = App::new();
    app.clear_entries();
    app.apply_root_entry(named_entry("one", EntryKind::Directory, Some(5)));
    assert_eq!(app.root_entries.len(), 1);
    assert_eq!(app.entries.len(), 1);
    assert_eq!(app.total_size, 5);
    assert_eq!(app.list_state.selected(), Some(0));
    app.navigation.enter("/tmp/one".to_string(), Vec::new(), Some(0));
    app.apply_root_entry(named_entry("two", EntryKind::Directory, Some(7)));
    assert_eq!(app.root_entries.len(), 2);
    assert_eq!(app.entries.len(), 1);
    assert_eq!(app.total_size, 5);
    app.apply_dir_entry(named_entry("three", EntryKind::File, None));
    assert_eq!(app.entries.len(), 2);
    assert_eq!(app.total_size, 5);
    app.clear_root_entries();
    assert!(app.root_entries.is_empty());
}

#[test]
fn size_is_written_at_most_once() {
    let mut app = App::new();
    app.entries = vec![entry("/tmp/d", None), entry("/tmp/e", Some(3))];
    app.total_size = 3;
    app.list_state.select(Some(0));
    app.toggle_selected();
    app.apply_entry_size("/tmp/d", 12);
    assert_eq!(app.entries[0].size, Some(12));
    assert_eq!(app.total_size, 15);
    assert_eq!(app.selected_size(), 12);
    app.apply_entry_size("/tmp/d", 99);
    assert_eq!(app.entries[0].size, Some(12));
    assert_eq!(app.total_size, 15);
    assert_eq!(app.selected_size(), 12);
    app.apply_entry_size("/tmp/e", 50);
    assert_eq!(app.entries[1].size, Some(3));
    app.apply_entry_size("/tmp/unknown", 50);
    assert_eq!(app.total_size, 15);
    assert_eq!(app.selected_size(), 12);
}

#[test]
fn selected_total_is_sum_after_any_sequence() {
    let mut app = App::new();
    app.entries = vec![
        entry("/s/a", Some(10)),
        entry("/s/b", None),
        entry("/s/c", Some(7)),
        entry("/s/d", Some(1)),
    ];
    let sum = |app: &App| -> u64 {
        app.get_selected_items().iter().filter_map(|e| e.size).sum()
    };
    app.toggle_all();
    assert_eq!(app.selected_size(), 18);
    assert_eq!(app.selected_size(), sum(&app));
    app.apply_entry_size("/s/b", 100);
    assert_eq!(app.selected_size(), 118);
    assert_eq!(app.selected_size(), sum(&app));
    app.list_state.select(Some(2));
    app.toggle_selected();
    assert_eq!(app.selected_size(), 111);
    assert_eq!(app.selected_size(), sum(&app));
    assert!(!app.is_selected("/s/c"));
    assert!(app.is_selected("/s/b"));
    app.toggle_all();
    assert_eq!(app.selections.len(), 4);
    assert_eq!(app.selected_size(), 118);
    app.toggle_all();
    assert_eq!(app.selected_size(), 0);
    assert_eq!(sum(&app), 0);
    app.list_state.select(Some(0));
    app.toggle_selected();
    app.clear_selections();
    assert_eq!(app.selected_size(), 0);
    assert!(app.selections.is_empty());
}

#[test]
fn selected_total_holds_at_the_largest_value() {
    let mut app = App::new();
    app.entries = vec![entry("/s/a", Some(u64::MAX)), entry("/s/b", Some(5))];
    app.toggle_all();
    assert_eq!(app.selected_size(), u64::MAX);
    app.list_state.select(Some(0));
    app.toggle_selected();
    assert_eq!(app.selected_size(), 5);
}

#[test]
fn selected_items_are_named_by_last_component() {
    let mut app = App::new();
    app.entries = vec![CleanableEntry {
        kind: EntryKind::Directory,
        category: Some(ItemCategory::Logs),
        path: "/home/u/Library/Logs".to_string(),
        name: "日志文件".to_string(),
        size: Some(9),
        modified_at: Some(5),
    }];
    app.toggle_all();
    let items = app.get_selected_items();
    assert_eq!(items.len(), 1);
    assert_eq!(items[0].name, "Logs");
    assert_eq!(items[0].path, "/home/u/Library/Logs");
    assert_eq!(items[0].kind, EntryKind::Directory);
    assert_eq!(items[0].size, Some(9));
    assert!(items[0].category.is_none());
    assert!(items[0].modified_at.is_none());
    app.clear_selections();
    app.entries = vec![entry("/", Some(1))];
    app.toggle_all();
    assert_eq!(app.get_selected_items()[0].name, "/");
}

#[test]
fn confirm_mode_needs_something_selected() {
    let mut app = App::new();
    app.enter_confirm_mode();
    assert_eq!(app.mode, Mode::Normal);
    app.entries = vec![entry("/a", Some(1))];
    app.toggle_all();
    app.confirm_scroll = 4;
    app.enter_confirm_mode();
    assert_eq!(app.mode, Mode::Confirm);
    assert_eq!(app.confirm_scroll, 0);
    app.cancel_confirm();
    assert_eq!(app.mode, Mode::Normal);
}

#[test]
fn help_stats_quit_and_errors() {
    let mut app = App::new();
    app.toggle_help();
    assert_eq!(app.mode, Mode::Help);
    app.toggle_help();
    assert_eq!(app.mode, Mode::Normal);
    app.toggle_stats();
    assert_eq!(app.mode, Mode::Stats);
    app.toggle_stats();
    assert_eq!(app.mode, Mode::Normal);
    app.set_error("boom".to_string());
    assert_eq!(app.error_message, Some("boom".to_string()));
    app.clear_error();
    assert!(app.error_message.is_none());
    app.quit();
    assert!(app.should_quit);
    app.mode = Mode::Scanning;
    app.scan_in_progress = true;
    app.finish_scan();
    assert_eq!(app.mode, Mode::Normal);
    assert!(!app.scan_in_progress);
    assert_eq!(app.scan_progress, 100);
}

#[test]
fn search_narrows_and_restores() {
    let mut app = App::new();
    app.set_entries(vec![
        named_entry("Cache", EntryKind::Directory, Some(5)),
        named_entry("logs", EntryKind::Directory, Some(7)),
        named_entry("my-cache.db", EntryKind::File, Some(11)),
    ]);
    app.start_search();
    assert_eq!(app.mode, Mode::Search);
    app.search_char('c');
    app.search_char('A');
    assert_eq!(app.search_query, "cA");
    assert_eq!(names(&app.entries), vec!["Cache", "my-cache.db"]);
    assert_eq!(app.total_size, 16);
    app.search_char('x');
    assert!(app.entries.is_empty());
    assert_eq!(app.list_state.selected(), None);
    app.search_backspace();
    assert_eq!(names(&app.entries), vec!["Cache", "my-cache.db"]);
    app.search_backspace();
    app.search_backspace();
    assert_eq!(app.entries.len(), 3);
    app.search_backspace();
    assert_eq!(app.search_query, "");
    app.search_char('l');
    app.confirm_search();
    assert_eq!(app.mode, Mode::Normal);
    assert_eq!(names(&app.entries), vec!["logs"]);
    app.cancel_search();
    assert_eq!(app.entries.len(), 3);
    assert_eq!(app.search_query, "");
    assert_eq!(app.total_size, 23);
}

#[test]
fn typed_path_is_trimmed_and_expanded() {
    let mut app = App::new();
    app.start_input();
    assert_eq!(app.mode, Mode::InputPath);
    for c in "  /tmp/x ".chars() {
        app.input_char(c);
    }
    app.input_char('y');
    app.input_backspace();
    assert_eq!(app.confirm_input(), Some("/tmp/x".to_string()));
    assert_eq!(app.mode, Mode::Normal);
    app.start_input();
    assert_eq!(app.input_buffer, "");
    app.input_backspace();
    app.input_char(' ');
    assert_eq!(app.confirm_input(), None);
    app.start_input();
    app.input_char('a');
    app.cancel_input();
    assert_eq!(app.input_buffer, "");
    assert_eq!(app.mode, Mode::Normal);
    assert_eq!(App::resolve_input("~/x", Some("/home/u")), Some("/home/u/x".to_string()));
    assert_eq!(App::resolve_input("~/x", None), Some("~/x".to_string()));
    assert_eq!(App::resolve_input("", Some("/home/u")), None);
}

#[test]
fn labels_of_orders_and_categories() {
    assert_eq!(SortOrder::ByName.as_str(), "名称");
    assert_eq!(SortOrder::BySize.as_str(), "大小");
    assert_eq!(SortOrder::ByTime.as_str(), "时间");
    assert_eq!(SortOrder::ByName.toggle(), SortOrder::BySize);
    assert_eq!(SortOrder::BySize.toggle(), SortOrder::ByName);
    assert_eq!(SortOrder::ByTime.toggle(), SortOrder::ByName);
    assert_eq!(SortOrder::default(), SortOrder::ByName);
    assert_eq!(ItemCategory::SystemCache.as_str(), "系统缓存");
    assert_eq!(ItemCategory::NodeModules.as_str(), "node_modules");
    assert_eq!(ItemCategory::Trash.as_str(), "垃圾桶");
    assert_eq!(ItemCategory::Downloads.description(), "下载文件夹中的文件");
    assert_eq!(ItemCategory::CargoCache.description(), "Cargo registry 下载缓存");
    assert_ne!(ItemCategory::Custom.as_str(), "");
}
