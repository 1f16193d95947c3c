//! The graphical client's logic: its state, the messages that change it,
//! and the key bindings that produce them. Drawing is left to the front end.
use vstd::prelude::*;

use crate::state::{toggled, without, FileEntry, FileType, InputMode, StatusLevel};
use crate::text::{chars_of, append_chars, decimal, push_decimal, string_of};

verus! {

/// The keys the graphical client tells apart.
#[derive(Debug, Clone, Copy, PartialEq, Eq, Structural)]
pub enum GuiKey {
    /// A key that types one character.
    Char(char),
    ArrowUp,
    ArrowDown,
    ArrowLeft,
    ArrowRight,
    Enter,
    Escape,
    Home,
    End,
    Other,
}

/// What the graphical client reacts to.
#[derive(Debug, Clone, Copy, PartialEq, Eq, Structural)]
pub enum Message {
    CursorUp,
    CursorDown,
    CursorTop,
    CursorBottom,
    Enter,
    Back,
    ToggleSelect,
    SelectAll,
    ClearSelection,
    Delete,
    Copy,
    Paste,
    Rename,
    EnterSearch,
    ExitMode,
    /// A key press, with whether Control was held.
    KeyPressed(GuiKey, bool),
}

/// The graphical client's state.
pub struct PiboxGui {
    pub entries: Vec<FileEntry>,
    pub cursor: usize,
    pub selected: Vec<usize>,
    pub current_path: String,
    pub status_message: Option<(String, StatusLevel)>,
    pub input_mode: InputMode,
    pub search_query: String,
    pub connected: bool,
}

/// The message a key produces; outside normal mode only Escape does
/// anything (it leaves the mode).
pub open spec fn key_message(normal: bool, key: GuiKey, ctrl: bool) -> Option<Message> {
    if !normal {
        if key == GuiKey::Escape {
            Some(Message::ExitMode)
        } else {
            None
        }
    } else {
        match key {
            GuiKey::Char(c) => if c == 'j' {
                Some(Message::CursorDown)
            } else if c == 'k' {
                Some(Message::CursorUp)
            } else if c == 'h' {
                Some(Message::Back)
            } else if c == 'l' {
                Some(Message::Enter)
            } else if c == 'g' {
                Some(Message::CursorTop)
            } else if c == 'G' {
                Some(Message::CursorBottom)
            } else if c == ' ' {
                Some(Message::ToggleSelect)
            } else if c == 'd' {
                Some(Message::Delete)
            } else if c == 'y' {
                Some(Message::Copy)
            } else if c == 'p' {
                Some(Message::Paste)
            } else if c == 'r' {
                Some(Message::Rename)
            } else if c == '/' {
                Some(Message::EnterSearch)
            } else if c == 'a' && ctrl {
                Some(Message::SelectAll)
            } else {
                None
            },
            GuiKey::ArrowUp => Some(Message::CursorUp),
            GuiKey::ArrowDown => Some(Message::CursorDown),
            GuiKey::ArrowLeft => Some(Message::Back),
            GuiKey::ArrowRight | GuiKey::Enter => Some(Message::Enter),
            GuiKey::Escape => Some(Message::ClearSelection),
            GuiKey::Home => Some(Message::CursorTop),
            GuiKey::End => Some(Message::CursorBottom),
            GuiKey::Other => None,
        }
    }
}

/// Whether the state shows the status message `msg` at `level`.
pub open spec fn shows_status(g: PiboxGui, msg: Seq<char>, level: StatusLevel) -> bool {
    g.status_message matches Some((m, l)) && m@ == msg && l == level
}

/// How many entries an action counts: the selection, or the one entry
/// under the cursor.
pub open spec fn action_count(g: PiboxGui) -> nat {
    if g.selected@.len() == 0 {
        1
    } else {
        g.selected@.len()
    }
}

/// The last index of a listing (0 when empty).
pub open spec fn last_index(len: nat) -> usize {
    if len == 0 {
        0
    } else {
        (len - 1) as usize
    }
}

fn message_text(prefix: &str, rest: &str) -> (r: String)
    ensures
        r@ == prefix@ + rest@,
{
    let mut v = chars_of(prefix);
    append_chars(&mut v, rest);
    string_of(&v)
}

fn count_text(prefix: &str, n: usize, suffix: &str) -> (r: String)
    ensures
        r@ == prefix@ + decimal(n as nat) + suffix@,
{
    let mut v = chars_of(prefix);
    push_decimal(&mut v, n as u64);
    append_chars(&mut v, suffix);
    string_of(&v)
}

fn demo_entry(name: &str, path: &str, dir: bool, size: u64, modified: i64, mime: Option<&str>) -> (e:
    FileEntry)
    ensures
        e.name@ == name@,
        e.path@ == path@,
        e.file_type == (if dir {
            FileType::Directory
        } else {
            FileType::File
        }),
        e.size == size,
{
    FileEntry {
        name: name.to_string(),
        path: path.to_string(),
        file_type: if dir {
            FileType::Directory
        } else {
            FileType::File
        },
        size,
        modified,
        mime_type: match mime {
            Some(m) => Some(m.to_string()),
            None => None,
        },
    }
}

impl PiboxGui {
    /// A client at the root, showing demo data.
    pub fn new() -> (r: Self)
        ensures
            r.current_path@ == "/"@,
            r.entries@.len() == 7,
            r.cursor == 0,
            r.selected@.len() == 0,
            r.input_mode == InputMode::Normal,
            !r.connected,
            shows_status(r, "Demo mode (no server connection)"@, StatusLevel::Info),
    {
        let mut g = PiboxGui {
            entries: Vec::new(),
            cursor: 0,
            selected: Vec::new(),
            current_path: "/".to_string(),
            status_message: None,
            input_mode: InputMode::Normal,
            search_query: String::new(),
            connected: false,
        };
        g.load_demo_data();
        g
    }

    /// Show a fixed listing, for use without a daemon.
    pub fn load_demo_data(&mut self)
        ensures
            final(self).entries@.len() == 7,
            shows_status(*final(self), "Demo mode (no server connection)"@, StatusLevel::Info),
            final(self).cursor == old(self).cursor,
            final(self).selected == old(self).selected,
            final(self).current_path == old(self).current_path,
            final(self).input_mode == old(self).input_mode,
            final(self).connected == old(self).connected,
    {
        let mut entries: Vec<FileEntry> = Vec::new();
        entries.push(demo_entry("Documents", "/Documents", true, 0, 1706000000, None));
        entries.push(demo_entry("Downloads", "/Downloads", true, 0, 1706100000, None));
        entries.push(demo_entry("Movies", "/Movies", true, 0, 1705900000, None));
        entries.push(demo_entry("Music", "/Music", true, 0, 1705800000, None));
        entries.push(demo_entry("readme.txt", "/readme.txt", false, 1234, 1706200000, Some("text/plain")));
        entries.push(demo_entry("photo.jpg", "/photo.jpg", false, 2_500_000, 1706150000, Some("image/jpeg")));
        entries.push(demo_entry("video.mp4", "/video.mp4", false, 150_000_000, 1706050000, Some("video/mp4")));
        self.entries = entries;
        self.set_status("Demo mode (no server connection)".to_string(), StatusLevel::Info);
    }

    /// Show a status message.
    pub fn set_status(&mut self, message: String, level: StatusLevel)
        ensures
            *final(self) == (PiboxGui { status_message: Some((message, level)), ..*old(self) }),
    {
        self.status_message = Some((message, level));
    }

    /// The message a key produces in the current mode, if any.
    pub fn handle_key(&self, key: GuiKey, ctrl: bool) -> (r: Option<Message>)
        ensures
            r == key_message(self.input_mode == InputMode::Normal, key, ctrl),
    {
        let normal = match self.input_mode {
            InputMode::Normal => true,
            _ => false,
        };
        if !normal {
            return match key {
                GuiKey::Escape => Some(Message::ExitMode),
                _ => None,
            };
        }
        match key {
            GuiKey::Char(c) => if c == 'j' {
                Some(Message::CursorDown)
            } else if c == 'k' {
                Some(Message::CursorUp)
            } else if c == 'h' {
                Some(Message::Back)
            } else if c == 'l' {
                Some(Message::Enter)
            } else if c == 'g' {
                Some(Message::CursorTop)
            } else if c == 'G' {
                Some(Message::CursorBottom)
            } else if c == ' ' {
                Some(Message::ToggleSelect)
            } else if c == 'd' {
                Some(Message::Delete)
            } else if c == 'y' {
                Some(Message::Copy)
            } else if c == 'p' {
                Some(Message::Paste)
            } else if c == 'r' {
                Some(Message::Rename)
            } else if c == '/' {
                Some(Message::EnterSearch)
            } else if c == 'a' && ctrl {
                Some(Message::SelectAll)
            } else {
                None
            },
            GuiKey::ArrowUp => Some(Message::CursorUp),
            GuiKey::ArrowDown => Some(Message::CursorDown),
            GuiKey::ArrowLeft => Some(Message::Back),
            GuiKey::ArrowRight | GuiKey::Enter => Some(Message::Enter),
            GuiKey::Escape => Some(Message::ClearSelection),
            GuiKey::Home => Some(Message::CursorTop),
            GuiKey::End => Some(Message::CursorBottom),
            GuiKey::Other => None,
        }
    }

    /// React to a message; a key press yields the message it produces, to be
    /// handled next.
    pub fn update(&mut self, message: Message) -> (r: Option<Message>)
        ensures
            match message {
                Message::KeyPressed(k, ctrl) => r == key_message(
                    old(self).input_mode == InputMode::Normal,
                    k,
                    ctrl,
                ) && *final(self) == *old(self),
                _ => r is None,
            },
            message == Message::CursorUp ==> final(self).cursor == if old(self).cursor > 0 {
                (old(self).cursor - 1) as usize
            } else {
                old(self).cursor
            },
            message == Message::CursorDown ==> final(self).cursor == if old(self).cursor
                < last_index(old(self).entries@.len()) {
                (old(self).cursor + 1) as usize
            } else {
                old(self).cursor
            },
            message == Message::CursorTop ==> final(self).cursor == 0,
            message == Message::CursorBottom ==> final(self).cursor == last_index(
                old(self).entries@.len(),
            ),
            message == Message::ToggleSelect ==> final(self).selected@ == if old(
                self,
            ).selected@.contains(old(self).cursor) {
                without(old(self).selected@, old(self).cursor)
            } else {
                old(self).selected@.push(old(self).cursor)
            },
            message == Message::SelectAll ==> final(self).selected@ == Seq::new(
                old(self).entries@.len(),
                |k: int| k as usize,
            ),
            message == Message::ClearSelection ==> final(self).selected@.len() == 0,
            message == Message::Delete ==> shows_status(
                *final(self),
                "Delete "@ + decimal(action_count(*old(self))) + " item(s)?"@,
                StatusLevel::Warning,
            ),
            message == Message::Copy ==> shows_status(
                *final(self),
                "Copied "@ + decimal(action_count(*old(self))) + " item(s)"@,
                StatusLevel::Success,
            ),
            message == Message::Paste ==> shows_status(
                *final(self),
                "Paste (not implemented)"@,
                StatusLevel::Info,
            ),
            message == Message::Back ==> (old(self).current_path@ != "/"@ ==> shows_status(
                *final(self),
                "Navigate up"@,
                StatusLevel::Info,
            )) && (old(self).current_path@ == "/"@ ==> *final(self) == *old(self)),
            message == Message::Enter && old(self).cursor < old(self).entries@.len() ==> {
                let e = old(self).entries@[old(self).cursor as int];
                if e.file_type == FileType::Directory {
                    shows_status(*final(self), "Navigate to: "@ + e.path@, StatusLevel::Info)
                } else {
                    shows_status(*final(self), "Open: "@ + e.name@, StatusLevel::Info)
                }
            },
            message == Message::Rename ==> final(self).input_mode == InputMode::Rename,
            message == Message::EnterSearch ==> final(self).input_mode == InputMode::Search
                && final(self).search_query@.len() == 0,
            message == Message::ExitMode ==> final(self).input_mode == InputMode::Normal
                && final(self).search_query@.len() == 0,
    {
        match message {
            Message::CursorUp => {
                if self.cursor > 0 {
                    self.cursor = self.cursor - 1;
                }
            },
            Message::CursorDown => {
                let last = if self.entries.len() == 0 {
                    0
                } else {
                    self.entries.len() - 1
                };
                if self.cursor < last {
                    self.cursor = self.cursor + 1;
                }
            },
            Message::CursorTop => {
                self.cursor = 0;
            },
            Message::CursorBottom => {
                self.cursor = if self.entries.len() == 0 {
                    0
                } else {
                    self.entries.len() - 1
                };
            },
            Message::Enter => {
                if self.cursor < self.entries.len() {
                    let msg = if self.entries[self.cursor].is_dir() {
                        message_text("Navigate to: ", self.entries[self.cursor].path.as_str())
                    } else {
                        message_text("Open: ", self.entries[self.cursor].name.as_str())
                    };
                    self.set_status(msg, StatusLevel::Info);
                }
            },
            Message::Back => {
                if !crate::text::str_eq(self.current_path.as_str(), "/") {
                    self.set_status("Navigate up".to_string(), StatusLevel::Info);
                }
            },
            Message::ToggleSelect => {
                self.selected = toggled(&self.selected, self.cursor);
            },
            Message::SelectAll => {
                let mut all: Vec<usize> = Vec::new();
                for i in 0..self.entries.len()
                    invariant
                        all@ == Seq::new(i as nat, |k: int| k as usize),
                {
                    all.push(i);
                    assert(all@ =~= Seq::new((i + 1) as nat, |k: int| k as usize));
                }
                self.selected = all;
            },
            Message::ClearSelection => {
                self.selected = Vec::new();
            },
            Message::Delete => {
                let n = if self.selected.len() == 0 {
                    1
                } else {
                    self.selected.len()
                };
                self.set_status(count_text("Delete ", n, " item(s)?"), StatusLevel::Warning);
            },
            Message::Copy => {
                let n = if self.selected.len() == 0 {
                    1
                } else {
                    self.selected.len()
                };
                self.set_status(count_text("Copied ", n, " item(s)"), StatusLevel::Success);
            },
            Message::Paste => {
                self.set_status("Paste (not implemented)".to_string(), StatusLevel::Info);
            },
            Message::Rename => {
                self.input_mode = InputMode::Rename;
            },
            Message::EnterSearch => {
                self.input_mode = InputMode::Search;
                self.search_query = String::new();
            },
            Message::ExitMode => {
                self.input_mode = InputMode::Normal;
                self.search_query = String::new();
            },
            Message::KeyPressed(key, ctrl) => {
                return self.handle_key(key, ctrl);
            },
        }
        None
    }
}

} // verus!
