use pibox::gui::{GuiKey, Message, PiboxGui};
use pibox::state::{InputMode, StatusLevel};

fn status(g: &PiboxGui) -> Option<(String, StatusLevel)> {
    g.status_message.clone()
}

#[test]
fn gui_starts_with_demo_listing() {
    let g = PiboxGui::new();
    assert_eq!(g.entries.len(), 7);
    assert_eq!(g.current_path, "/");
    assert_eq!(status(&g), Some(("Demo mode (no server connection)".to_string(), StatusLevel::Info)));
}

#[test]
fn gui_keys_become_messages() {
    let mut g = PiboxGui::new();
    assert_eq!(g.update(Message::KeyPressed(GuiKey::Char('j'), false)), Some(Message::CursorDown));
    assert_eq!(g.handle_key(GuiKey::Char('a'), true), Some(Message::SelectAll));
    assert_eq!(g.handle_key(GuiKey::Char('a'), false), None);
    assert_eq!(g.handle_key(GuiKey::End, false), Some(Message::CursorBottom));
    assert_eq!(g.handle_key(GuiKey::Escape, false), Some(Message::ClearSelection));
    g.update(Message::EnterSearch);
    assert_eq!(g.input_mode, InputMode::Search);
    assert_eq!(g.handle_key(GuiKey::Char('j'), false), None);
    assert_eq!(g.handle_key(GuiKey::Escape, false), Some(Message::ExitMode));
    g.update(Message::ExitMode);
    assert_eq!(g.input_mode, InputMode::Normal);
}

#[test]
fn gui_messages_change_state() {
    let mut g = PiboxGui::new();
    g.update(Message::CursorUp);
    assert_eq!(g.cursor, 0);
    g.update(Message::CursorBottom);
    assert_eq!(g.cursor, 6);
    g.update(Message::CursorDown);
    assert_eq!(g.cursor, 6);
    g.update(Message::Enter);
    assert_eq!(status(&g), Some(("Open: video.mp4".to_string(), StatusLevel::Info)));
    g.update(Message::CursorTop);
    g.update(Message::Enter);
    assert_eq!(status(&g), Some(("Navigate to: /Documents".to_string(), StatusLevel::Info)));
    g.update(Message::Delete);
    assert_eq!(status(&g), Some(("Delete 1 item(s)?".to_string(), StatusLevel::Warning)));
    g.update(Message::SelectAll);
    g.update(Message::ToggleSelect);
    assert_eq!(g.selected, vec![1, 2, 3, 4, 5, 6]);
    g.update(Message::Copy);
    assert_eq!(status(&g), Some(("Copied 6 item(s)".to_string(), StatusLevel::Success)));
    g.update(Message::ClearSelection);
    assert!(g.selected.is_empty());
    g.update(Message::Back);
    assert_eq!(status(&g), Some(("Copied 6 item(s)".to_string(), StatusLevel::Success)));
    g.current_path = "/music".to_string();
    g.update(Message::Back);
    assert_eq!(status(&g), Some(("Navigate up".to_string(), StatusLevel::Info)));
    g.update(Message::Rename);
    assert_eq!(g.input_mode, InputMode::Rename);
}
