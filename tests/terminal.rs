use pibox::config::{Config, DeviceConfig, DeviceType};
use pibox::state::{InputMode, StatusLevel};
use pibox::terminal::{
    execute_command, handle_key, normal_action_of, words_of, App, AppResult, KeyCode, KeyEvent,
    NormalAction,
};

fn key(code: KeyCode) -> KeyEvent {
    KeyEvent { code, ctrl: false }
}

fn ctrl(code: KeyCode) -> KeyEvent {
    KeyEvent { code, ctrl: true }
}

fn status(app: &App) -> Option<(String, StatusLevel)> {
    app.state.status_message.clone()
}

#[test]
fn app_uses_default_device_url() {
    let app = App::new(Config::default());
    assert_eq!(app.state.server_url, "ws://localhost:9280");
    assert_eq!(app.state.entries.len(), 7);
    assert_eq!(app.status_text, "Demo mode (no server connection)");
    assert!(!app.connected);

    let mut config = Config::default();
    config.upsert_device(DeviceConfig {
        name: "nas".to_string(),
        url: "ws://192.0.2.10:9280".to_string(),
        username: None,
        device_type: DeviceType::Nas,
    });
    config.client.default_device = Some("nas".to_string());
    assert_eq!(App::new(config.clone()).state.server_url, "ws://192.0.2.10:9280");
    config.client.default_device = Some("missing".to_string());
    assert_eq!(App::new(config).state.server_url, "ws://localhost:9280");
}

#[test]
fn normal_mode_bindings() {
    assert_eq!(normal_action_of(&key(KeyCode::Char('j'))), NormalAction::CursorDown);
    assert_eq!(normal_action_of(&key(KeyCode::Up)), NormalAction::CursorUp);
    assert_eq!(normal_action_of(&key(KeyCode::Backspace)), NormalAction::NavigateUp);
    assert_eq!(normal_action_of(&key(KeyCode::Enter)), NormalAction::Enter);
    assert_eq!(normal_action_of(&ctrl(KeyCode::Char('d'))), NormalAction::PageDown);
    assert_eq!(normal_action_of(&key(KeyCode::Char('d'))), NormalAction::Delete);
    assert_eq!(normal_action_of(&key(KeyCode::PageDown)), NormalAction::Nothing);
    assert_eq!(normal_action_of(&ctrl(KeyCode::Char('u'))), NormalAction::PageUp);
    assert_eq!(normal_action_of(&key(KeyCode::Char('u'))), NormalAction::Undo);
    assert_eq!(normal_action_of(&ctrl(KeyCode::Char('a'))), NormalAction::SelectAll);
    assert_eq!(normal_action_of(&ctrl(KeyCode::Char('r'))), NormalAction::Rename);
    assert_eq!(normal_action_of(&key(KeyCode::Esc)), NormalAction::ClearSelection);
    assert_eq!(normal_action_of(&key(KeyCode::Char('z'))), NormalAction::Nothing);
}

#[test]
fn keys_move_select_and_report() {
    let mut app = App::new(Config::default());
    assert_eq!(handle_key(&mut app, key(KeyCode::Char('j'))), AppResult::Continue);
    assert_eq!(app.state.cursor, 1);
    handle_key(&mut app, key(KeyCode::Char(' ')));
    assert_eq!(app.state.selected, vec![1]);
    assert_eq!(app.state.cursor, 2);
    handle_key(&mut app, key(KeyCode::Char('y')));
    assert_eq!(status(&app), Some(("Copied 1 item(s)".to_string(), StatusLevel::Success)));
    handle_key(&mut app, key(KeyCode::Char('d')));
    assert_eq!(status(&app), Some(("Delete 1 item(s)?".to_string(), StatusLevel::Warning)));
    handle_key(&mut app, key(KeyCode::Esc));
    assert!(app.state.selected.is_empty());
    assert!(app.state.status_message.is_none());
    handle_key(&mut app, key(KeyCode::Char('G')));
    assert_eq!(app.state.cursor, 6);
    handle_key(&mut app, key(KeyCode::Enter));
    assert_eq!(status(&app), Some(("Open: video.mp4".to_string(), StatusLevel::Info)));
    handle_key(&mut app, key(KeyCode::Char('g')));
    handle_key(&mut app, key(KeyCode::Char('l')));
    assert_eq!(status(&app), Some(("Navigate to: /Documents".to_string(), StatusLevel::Info)));
    handle_key(&mut app, ctrl(KeyCode::PageDown));
    assert_eq!(app.state.cursor, 6);
    handle_key(&mut app, key(KeyCode::Char('?')));
    assert!(status(&app).unwrap().0.starts_with("j/k:move"));
    handle_key(&mut app, key(KeyCode::Char('p')));
    assert_eq!(status(&app), Some(("Paste (not implemented)".to_string(), StatusLevel::Info)));
}

#[test]
fn navigate_up_reports_parent() {
    let mut app = App::new(Config::default());
    app.navigate_up();
    assert_eq!(status(&app), None);
    app.state.current_path = "/a/b".to_string();
    handle_key(&mut app, key(KeyCode::Char('h')));
    assert_eq!(status(&app), Some(("Navigate to: /a".to_string(), StatusLevel::Info)));
}

#[test]
fn search_mode_typing() {
    let mut app = App::new(Config::default());
    handle_key(&mut app, key(KeyCode::Char('/')));
    assert_eq!(app.state.input_mode, InputMode::Search);
    handle_key(&mut app, key(KeyCode::Char('a')));
    handle_key(&mut app, key(KeyCode::Char('b')));
    handle_key(&mut app, key(KeyCode::Backspace));
    handle_key(&mut app, key(KeyCode::Char('c')));
    assert_eq!(app.state.search_query, "ac");
    handle_key(&mut app, key(KeyCode::Enter));
    assert_eq!(app.state.input_mode, InputMode::Normal);
    assert_eq!(status(&app), Some(("Search: ac".to_string(), StatusLevel::Info)));
}

#[test]
fn command_mode_runs_commands() {
    let mut app = App::new(Config::default());
    handle_key(&mut app, key(KeyCode::Char(':')));
    assert_eq!(app.state.input_mode, InputMode::Command);
    for c in "cd  /tmp ".chars() {
        handle_key(&mut app, key(KeyCode::Char(c)));
    }
    handle_key(&mut app, key(KeyCode::Enter));
    assert_eq!(app.state.input_mode, InputMode::Normal);
    assert_eq!(status(&app), Some(("cd /tmp".to_string(), StatusLevel::Info)));
    execute_command(&mut app, "w");
    assert_eq!(status(&app), Some(("Nothing to save".to_string(), StatusLevel::Info)));
    execute_command(&mut app, "set hidden");
    assert_eq!(status(&app), Some(("set hidden".to_string(), StatusLevel::Info)));
    execute_command(&mut app, "frob x");
    assert_eq!(status(&app), Some(("Unknown command: frob".to_string(), StatusLevel::Error)));
    execute_command(&mut app, "q");
    execute_command(&mut app, "   ");
    assert_eq!(status(&app), Some(("Unknown command: frob".to_string(), StatusLevel::Error)));
}

#[test]
fn words_split_on_white_space() {
    let words: Vec<String> = words_of(" a\tbc \u{3000}d ").into_iter().map(|w| w.into_iter().collect()).collect();
    assert_eq!(words, vec!["a", "bc", "d"]);
    assert!(words_of("").is_empty());
}

#[test]
fn rename_and_confirm_prompts() {
    let mut app = App::new(Config::default());
    handle_key(&mut app, key(KeyCode::Char('r')));
    assert_eq!(app.state.input_mode, InputMode::Rename);
    handle_key(&mut app, key(KeyCode::Char('x')));
    assert_eq!(app.state.input_mode, InputMode::Rename);
    handle_key(&mut app, key(KeyCode::Esc));
    assert_eq!(app.state.input_mode, InputMode::Normal);
    app.state.input_mode = InputMode::Confirm(pibox::state::ConfirmAction::Overwrite("/f".to_string()));
    handle_key(&mut app, key(KeyCode::Char('q')));
    assert!(matches!(app.state.input_mode, InputMode::Confirm(_)));
    handle_key(&mut app, key(KeyCode::Char('N')));
    assert_eq!(app.state.input_mode, InputMode::Normal);
}
