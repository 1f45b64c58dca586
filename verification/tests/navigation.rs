use vac::app::{App, CleanableEntry, EntryKind, NavigationState};

fn named_entry(name: &str, kind: EntryKind, size: Option<u64>) -> CleanableEntry {
    CleanableEntry {
        kind,
        category: None,
        path: format!("/tmp/{name}"),
        name: name.to_string(),
        size,
        modified_at: None,
    }
}

#[test]
fn back_returns_cached_entries_and_selected_index() {
    let mut nav = NavigationState::new();
    let root_entries = vec![
        named_entry("dir_a", EntryKind::Directory, Some(100)),
        named_entry("dir_b", EntryKind::Directory, Some(50)),
    ];

    nav.enter("/tmp/dir_a".to_string(), root_entries.clone(), Some(0));
    assert_eq!(nav.current_path, Some("/tmp/dir_a".to_string()));

    let result = nav.back();
    assert!(result.is_none());
    assert!(nav.current_path.is_none());
}

#[test]
fn back_from_nested_restores_parent_cache() {
    let mut nav = NavigationState::new();
    let level1_entries = vec![
        named_entry("child_a", EntryKind::Directory, Some(30)),
        named_entry("child_b", EntryKind::File, Some(20)),
    ];

    nav.enter("/tmp/dir".to_string(), Vec::new(), Some(0));
    nav.enter("/tmp/dir/sub".to_string(), level1_entries.clone(), Some(1));
    assert_eq!(nav.current_path, Some("/tmp/dir/sub".to_string()));

    let result = nav.back();
    assert!(result.is_some());
    let (cached, idx) = result.unwrap();
    assert_eq!(nav.current_path, Some("/tmp/dir".to_string()));
    assert_eq!(cached.len(), 2);
    assert_eq!(idx, Some(1));

    let result = nav.back();
    assert!(result.is_none());
    assert!(nav.current_path.is_none());
}

#[test]
fn reset_root_clears_navigation_stack() {
    let mut nav = NavigationState::new();
    nav.enter("/tmp/a".to_string(), Vec::new(), None);
    nav.enter("/tmp/a/b".to_string(), Vec::new(), None);
    assert!(nav.current_path.is_some());

    nav.reset_root();
    assert!(nav.current_path.is_none());
    assert!(nav.back().is_none());
}

#[test]
fn back_restores_entries_in_app() {
    let mut app = App::new();
    let root_entries = vec![named_entry("dir_parent", EntryKind::Directory, Some(200))];
    app.set_entries(root_entries.clone());

    let parent_entries = vec![
        named_entry("file_a", EntryKind::File, Some(100)),
        named_entry("file_b", EntryKind::File, Some(50)),
    ];
    app.navigation
        .enter("/tmp/parent".to_string(), app.entries.clone(), Some(0));
    app.set_entries(parent_entries.clone());

    app.navigation
        .enter("/tmp/parent/child".to_string(), app.entries.clone(), Some(1));
    app.set_entries(vec![named_entry("sub_file", EntryKind::File, Some(10))]);
    assert_eq!(app.entries.len(), 1);

    if let Some((cached_entries, selected_index)) = app.navigation.back() {
        app.set_entries(cached_entries);
        app.list_state.select(selected_index);
    }
    assert_eq!(app.entries.len(), 2);
    assert_eq!(app.list_state.selected(), Some(1));
    let names: Vec<&str> = app.entries.iter().map(|e| e.name.as_str()).collect();
    assert_eq!(names, vec!["file_a", "file_b"]);
}

#[test]
fn back_on_empty_stack_changes_nothing() {
    let mut nav = NavigationState::new();
    nav.current_path = Some("/kept".to_string());
    assert!(nav.back().is_none());
    assert_eq!(nav.current_path, Some("/kept".to_string()));
}

#[test]
fn breadcrumb_is_current_path_or_root() {
    let mut nav = NavigationState::new();
    assert_eq!(nav.breadcrumb(), "/");
    nav.enter("/tmp/a".to_string(), Vec::new(), None);
    assert_eq!(nav.breadcrumb(), "/tmp/a");
    let mut app = App::new();
    assert_eq!(app.breadcrumb(), "/");
    app.navigation.enter("/var/tmp/x".to_string(), Vec::new(), None);
    assert_eq!(app.breadcrumb(), "/var/tmp/x");
}
