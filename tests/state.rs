use pibox::state::{AppState, FileEntry, FileType, InputMode, SelectionMode, StatusLevel};

fn sample_entries() -> Vec<FileEntry> {
    (0..10)
        .map(|i| FileEntry {
            name: format!("file{}.txt", i),
            path: format!("/test/file{}.txt", i),
            file_type: FileType::File,
            size: 100,
            modified: 0,
            mime_type: None,
        })
        .collect()
}

#[test]
fn test_cursor_movement() {
    let mut state = AppState::default();
    state.entries = sample_entries();

    state.cursor_down();
    assert_eq!(state.cursor, 1);

    state.cursor_down();
    state.cursor_down();
    assert_eq!(state.cursor, 3);

    state.cursor_up();
    assert_eq!(state.cursor, 2);
}

#[test]
fn test_undo_redo() {
    let mut state = AppState::default();
    state.entries = sample_entries();

    state.cursor_down();
    state.cursor_down();
    assert_eq!(state.cursor, 2);

    state.undo();
    assert_eq!(state.cursor, 1);

    state.redo();
    assert_eq!(state.cursor, 2);
}

#[test]
fn test_selection() {
    let mut state = AppState::default();
    state.entries = sample_entries();

    state.toggle_selection();
    assert!(state.selected.contains(&0));

    state.cursor_down();
    state.toggle_selection();
    assert_eq!(state.selected.len(), 2);

    state.toggle_selection();
    assert_eq!(state.selected.len(), 1);
}

#[test]
fn test_range_selection() {
    let mut state = AppState::default();
    state.entries = sample_entries();

    state.cursor = 2;
    state.start_range_selection();

    state.cursor = 5;
    state.update_range_selection();

    assert_eq!(state.selected, vec![2, 3, 4, 5]);
}

#[test]
fn cursor_stays_in_listing_and_scrolls() {
    let mut state = AppState::default();
    state.cursor_down();
    assert_eq!(state.cursor, 0);
    assert!(!state.undo());
    state.entries = sample_entries();
    state.visible_rows = 3;
    state.cursor_bottom();
    assert_eq!(state.cursor, 9);
    assert_eq!(state.scroll_offset, 7);
    state.cursor_down();
    assert_eq!(state.cursor, 9);
    state.cursor_top();
    assert_eq!((state.cursor, state.scroll_offset), (0, 0));
    state.cursor_up();
    assert_eq!(state.cursor, 0);
}

#[test]
fn range_selection_follows_cursor() {
    let mut state = AppState::default();
    state.entries = sample_entries();
    state.cursor = 4;
    state.start_range_selection();
    state.cursor_up();
    state.cursor_up();
    assert_eq!(state.selected, vec![2, 3, 4]);
    state.exit_input_mode();
    assert_eq!(state.selection_mode, SelectionMode::Single);
    assert!(state.selection_anchor.is_none());
}

#[test]
fn undo_history_is_bounded_and_redo_cleared() {
    let mut state = AppState::default();
    state.entries = sample_entries();
    for _ in 0..60 {
        state.cursor_down();
    }
    assert_eq!(state.undo_stack.len(), 50);
    assert!(state.undo());
    assert_eq!(state.redo_stack.len(), 1);
    state.select_all();
    assert_eq!(state.selected, (0..10).collect::<Vec<usize>>());
    assert!(state.redo_stack.is_empty());
    assert!(state.undo());
    assert!(state.selected.is_empty());
    assert!(state.redo());
    assert_eq!(state.selected.len(), 10);
    state.clear_selection();
    assert!(state.selected.is_empty());
}

#[test]
fn navigation_undo_restores_path() {
    let mut state = AppState::new("ws://localhost:9280");
    assert_eq!(state.server_url, "ws://localhost:9280");
    state.set_entries("/music".to_string(), sample_entries());
    assert_eq!(state.current_path, "/music");
    assert!(state.undo());
    assert_eq!(state.current_path, "/");
    assert!(state.redo());
    assert_eq!(state.current_path, "/music");
}

#[test]
fn selected_paths_fall_back_to_cursor() {
    let mut state = AppState::default();
    assert!(state.selected_paths().is_empty());
    state.entries = sample_entries();
    state.cursor = 3;
    assert_eq!(state.selected_paths(), vec!["/test/file3.txt"]);
    state.selected = vec![5, 42, 1];
    assert_eq!(state.selected_paths(), vec!["/test/file5.txt", "/test/file1.txt"]);
    assert_eq!(state.current_entry().unwrap().name, "file3.txt");
    state.cursor = 99;
    assert!(state.current_entry().is_none());
}

#[test]
fn parent_paths() {
    let mut state = AppState::default();
    assert_eq!(state.parent_path(), None);
    state.current_path = "/a/b/".to_string();
    assert_eq!(state.parent_path(), Some("/a".to_string()));
    state.current_path = "/a".to_string();
    assert_eq!(state.parent_path(), Some("/".to_string()));
    state.current_path = "docs".to_string();
    assert_eq!(state.parent_path(), None);
    state.current_path = "a/b".to_string();
    assert_eq!(state.parent_path(), Some("a".to_string()));
}

#[test]
fn modes_and_status() {
    let mut state = AppState::default();
    state.search_query = "old".to_string();
    state.enter_search_mode();
    assert_eq!(state.input_mode, InputMode::Search);
    assert!(state.search_query.is_empty());
    state.set_status("hello".to_string(), StatusLevel::Warning);
    assert_eq!(state.status_message, Some(("hello".to_string(), StatusLevel::Warning)));
    state.clear_status();
    assert!(state.status_message.is_none());
    let e = FileEntry {
        name: "d".to_string(),
        path: "/d".to_string(),
        file_type: FileType::Directory,
        size: 0,
        modified: 0,
        mime_type: None,
    };
    assert!(e.is_dir());
}
