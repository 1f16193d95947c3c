//! The terminal client's logic: the application record, its actions, and
//! what each key does in each input mode (vim-style bindings).
//!
//! Keys arrive as `KeyEvent`s of this module; the terminal front end
//! translates its own events into them and draws the state.
use vstd::prelude::*;

use crate::config::{first_named, Config};
use crate::state::{paths_of, AppState, FileEntry, FileType, InputMode, StatusLevel};
use crate::text::{append_chars, chars_of, decimal, push_char, push_decimal, string_of};
use crate::DEFAULT_WS_PORT;

verus! {

/// What the main loop does after a key.
#[derive(Debug, Clone, Copy, PartialEq, Eq, Structural)]
pub enum AppResult {
    Continue,
    Quit,
}

/// The keys the client tells apart.
#[derive(Debug, Clone, Copy, PartialEq, Eq, Structural)]
pub enum KeyCode {
    Char(char),
    Up,
    Down,
    Left,
    Right,
    Enter,
    Backspace,
    Esc,
    PageUp,
    PageDown,
    Other,
}

/// A key press, with whether Control was held.
#[derive(Debug, Clone, Copy, PartialEq, Eq, Structural)]
pub struct KeyEvent {
    pub code: KeyCode,
    pub ctrl: bool,
}

/// What a key does in normal mode.
#[derive(Debug, Clone, Copy, PartialEq, Eq, Structural)]
pub enum NormalAction {
    CursorDown,
    CursorUp,
    NavigateUp,
    Enter,
    Top,
    Bottom,
    PageDown,
    PageUp,
    ToggleAndDown,
    StartRange,
    SelectAll,
    Copy,
    Paste,
    Delete,
    Rename,
    Search,
    Command,
    Undo,
    ClearSelection,
    Help,
    Nothing,
}

/// The help line shown for `?`.
pub open spec fn help_text() -> Seq<char> {
    "j/k:move h/l:nav space:select d:del y:copy p:paste /:search q:quit"@
}

/// The binding of a key in normal mode. The first matching row wins, so `r`
/// opens the rename prompt with or without Control.
pub open spec fn normal_action(k: KeyEvent) -> NormalAction {
    let c = k.code;
    if c == KeyCode::Char('j') || c == KeyCode::Down {
        NormalAction::CursorDown
    } else if c == KeyCode::Char('k') || c == KeyCode::Up {
        NormalAction::CursorUp
    } else if c == KeyCode::Char('h') || c == KeyCode::Left || c == KeyCode::Backspace {
        NormalAction::NavigateUp
    } else if c == KeyCode::Char('l') || c == KeyCode::Right || c == KeyCode::Enter {
        NormalAction::Enter
    } else if c == KeyCode::Char('g') {
        NormalAction::Top
    } else if c == KeyCode::Char('G') {
        NormalAction::Bottom
    } else if (c == KeyCode::PageDown || c == KeyCode::Char('d')) && k.ctrl {
        NormalAction::PageDown
    } else if (c == KeyCode::PageUp || c == KeyCode::Char('u')) && k.ctrl {
        NormalAction::PageUp
    } else if c == KeyCode::Char(' ') {
        NormalAction::ToggleAndDown
    } else if c == KeyCode::Char('V') {
        NormalAction::StartRange
    } else if c == KeyCode::Char('a') && k.ctrl {
        NormalAction::SelectAll
    } else if c == KeyCode::Char('y') {
        NormalAction::Copy
    } else if c == KeyCode::Char('p') {
        NormalAction::Paste
    } else if c == KeyCode::Char('d') {
        NormalAction::Delete
    } else if c == KeyCode::Char('r') {
        NormalAction::Rename
    } else if c == KeyCode::Char('/') {
        NormalAction::Search
    } else if c == KeyCode::Char(':') {
        NormalAction::Command
    } else if c == KeyCode::Char('u') {
        NormalAction::Undo
    } else if c == KeyCode::Esc {
        NormalAction::ClearSelection
    } else if c == KeyCode::Char('?') {
        NormalAction::Help
    } else {
        NormalAction::Nothing
    }
}

/// The binding of a key in normal mode.
pub fn normal_action_of(k: &KeyEvent) -> (a: NormalAction)
    ensures
        a == normal_action(*k),
{
    let c = k.code;
    if c == KeyCode::Char('j') || c == KeyCode::Down {
        NormalAction::CursorDown
    } else if c == KeyCode::Char('k') || c == KeyCode::Up {
        NormalAction::CursorUp
    } else if c == KeyCode::Char('h') || c == KeyCode::Left || c == KeyCode::Backspace {
        NormalAction::NavigateUp
    } else if c == KeyCode::Char('l') || c == KeyCode::Right || c == KeyCode::Enter {
        NormalAction::Enter
    } else if c == KeyCode::Char('g') {
        NormalAction::Top
    } else if c == KeyCode::Char('G') {
        NormalAction::Bottom
    } else if (c == KeyCode::PageDown || c == KeyCode::Char('d')) && k.ctrl {
        NormalAction::PageDown
    } else if (c == KeyCode::PageUp || c == KeyCode::Char('u')) && k.ctrl {
        NormalAction::PageUp
    } else if c == KeyCode::Char(' ') {
        NormalAction::ToggleAndDown
    } else if c == KeyCode::Char('V') {
        NormalAction::StartRange
    } else if c == KeyCode::Char('a') && k.ctrl {
        NormalAction::SelectAll
    } else if c == KeyCode::Char('y') {
        NormalAction::Copy
    } else if c == KeyCode::Char('p') {
        NormalAction::Paste
    } else if c == KeyCode::Char('d') {
        NormalAction::Delete
    } else if c == KeyCode::Char('r') {
        NormalAction::Rename
    } else if c == KeyCode::Char('/') {
        NormalAction::Search
    } else if c == KeyCode::Char(':') {
        NormalAction::Command
    } else if c == KeyCode::Char('u') {
        NormalAction::Undo
    } else if c == KeyCode::Esc {
        NormalAction::ClearSelection
    } else if c == KeyCode::Char('?') {
        NormalAction::Help
    } else {
        NormalAction::Nothing
    }
}

/// Whether the state shows the status message `msg` at `level`.
pub open spec fn shows(st: AppState, msg: Seq<char>, level: StatusLevel) -> bool {
    st.status_message matches Some((m, l)) && m@ == msg && l == level
}

/// How many entries an action on the selection acts on.
pub open spec fn target_count(st: AppState) -> nat {
    if st.selected@.len() == 0 {
        if st.cursor < st.entries@.len() {
            1
        } else {
            0
        }
    } else {
        paths_of(st.entries@, st.selected@).len()
    }
}

/// The daemon URL used when no default device is configured or found.
pub open spec fn fallback_url() -> Seq<char> {
    "ws://localhost:"@ + decimal(DEFAULT_WS_PORT as nat)
}

/// The daemon URL for a configuration: the default device's, if it names a
/// known device, else the local daemon.
pub open spec fn server_url_for(c: Config) -> Seq<char> {
    match c.client.default_device {
        Some(name) => match first_named(c.devices@, name@) {
            Some(i) => c.devices@[i].url@,
            None => fallback_url(),
        },
        None => fallback_url(),
    }
}

/// Relies on `String::pop`: removes the last character, if any.
#[verifier::external_body]
fn pop_char(s: &mut String)
    ensures
        old(s)@.len() > 0 ==> final(s)@ == old(s)@.drop_last(),
        old(s)@.len() == 0 ==> final(s)@ == old(s)@,
{
    s.pop();
}

/// `prefix` followed by `rest`.
fn concat(prefix: &str, rest: &str) -> (r: String)
    ensures
        r@ == prefix@ + rest@,
{
    let mut s = prefix.to_string();
    s.append(rest);
    s
}

/// `prefix`, the numeral of `n`, then `suffix`.
fn count_message(prefix: &str, n: u64, suffix: &str) -> (r: String)
    ensures
        r@ == prefix@ + decimal(n as nat) + suffix@,
{
    let mut v = chars_of(prefix);
    push_decimal(&mut v, n);
    append_chars(&mut v, suffix);
    string_of(&v)
}

/// Whether `c` has the Unicode White_Space property.
pub open spec fn is_white_space(c: char) -> bool {
    ('\u{9}' <= c && c <= '\u{d}') || c == ' ' || c == '\u{85}' || c == '\u{a0}' || c
        == '\u{1680}' || ('\u{2000}' <= c && c <= '\u{200a}') || c == '\u{2028}' || c
        == '\u{2029}' || c == '\u{202f}' || c == '\u{205f}' || c == '\u{3000}'
}

fn white_space(c: char) -> (r: bool)
    ensures
        r == is_white_space(c),
{
    ('\u{9}' <= c && c <= '\u{d}') || c == ' ' || c == '\u{85}' || c == '\u{a0}' || c
        == '\u{1680}' || ('\u{2000}' <= c && c <= '\u{200a}') || c == '\u{2028}' || c
        == '\u{2029}' || c == '\u{202f}' || c == '\u{205f}' || c == '\u{3000}'
}

/// The words finished so far and the word in progress, reading `s` from the
/// left.
pub open spec fn scan_words(s: Seq<char>) -> (Seq<Seq<char>>, Seq<char>)
    decreases s.len(),
{
    if s.len() == 0 {
        (Seq::empty(), Seq::empty())
    } else {
        let (ws, cur) = scan_words(s.drop_last());
        let c = s.last();
        if is_white_space(c) {
            if cur.len() > 0 {
                (ws.push(cur), Seq::empty())
            } else {
                (ws, Seq::empty())
            }
        } else {
            (ws, cur.push(c))
        }
    }
}

/// The words of `s`: its maximal runs of non-white-space characters.
pub open spec fn split_words(s: Seq<char>) -> Seq<Seq<char>> {
    let (ws, cur) = scan_words(s);
    if cur.len() > 0 {
        ws.push(cur)
    } else {
        ws
    }
}

/// The words of a command line.
pub fn words_of(s: &str) -> (r: Vec<Vec<char>>)
    ensures
        r@.map_values(|w: Vec<char>| w@) == split_words(s@),
{
    let v = chars_of(s);
    let mut words: Vec<Vec<char>> = Vec::new();
    let mut cur: Vec<char> = Vec::new();
    for i in 0..v.len()
        invariant
            v@ == s@,
            (words@.map_values(|w: Vec<char>| w@), cur@) == scan_words(v@.take(i as int)),
    {
        let c = v[i];
        assert(v@.take(i + 1).drop_last() == v@.take(i as int));
        if white_space(c) {
            if cur.len() > 0 {
                let w = cur;
                words.push(w);
                cur = Vec::new();
                assert(words@.map_values(|w: Vec<char>| w@) =~= scan_words(v@.take(i + 1)).0);
            }
        } else {
            cur.push(c);
        }
    }
    assert(v@.take(v.len() as int) == v@);
    if cur.len() > 0 {
        words.push(cur);
        assert(words@.map_values(|w: Vec<char>| w@) =~= split_words(s@));
    }
    words
}

/// Whether a word is the given text.
fn word_is(w: &Vec<char>, text: &str) -> (r: bool)
    ensures
        r == (w@ == text@),
{
    let t = chars_of(text);
    if w.len() != t.len() {
        return false;
    }
    for i in 0..w.len()
        invariant
            w.len() == t.len(),
            t@ == text@,
            forall|j: int| 0 <= j < i ==> w@[j] == t@[j],
    {
        if w[i] != t[i] {
            return false;
        }
    }
    assert(w@ =~= t@);
    true
}

/// The status that a command line sets: `None` leaves the status as it was.
pub open spec fn command_status(words: Seq<Seq<char>>) -> Option<(Seq<char>, StatusLevel)> {
    if words.len() == 0 {
        None
    } else {
        let w = words[0];
        if w == "q"@ || w == "quit"@ || w == "wq"@ {
            None
        } else if w == "w"@ || w == "write"@ {
            Some(("Nothing to save"@, StatusLevel::Info))
        } else if w == "cd"@ {
            if words.len() > 1 {
                Some(("cd "@ + words[1], StatusLevel::Info))
            } else {
                None
            }
        } else if w == "set"@ {
            if words.len() > 1 {
                Some(("set "@ + words[1], StatusLevel::Info))
            } else {
                None
            }
        } else {
            Some(("Unknown command: "@ + w, StatusLevel::Error))
        }
    }
}

/// The terminal client.
pub struct App {
    pub config: Config,
    pub state: AppState,
    /// Connection status line.
    pub status_text: String,
    pub connected: bool,
}

impl App {
    /// A client for the configured daemon, showing demo data.
    pub fn new(config: Config) -> (r: Self)
        ensures
            r.state.server_url@ == server_url_for(config),
            r.state.current_path@ == "/"@,
            r.state.entries@.len() == 7,
            r.status_text@ == "Demo mode (no server connection)"@,
            !r.connected,
    {
        let server_url = match &config.client.default_device {
            Some(name) => match config.get_device(name.as_str()) {
                Some(d) => d.url.clone(),
                None => count_message("ws://localhost:", DEFAULT_WS_PORT as u64, ""),
            },
            None => count_message("ws://localhost:", DEFAULT_WS_PORT as u64, ""),
        };
        proof {
            reveal_strlit("");
        }
        assert(server_url@ == server_url_for(config));
        let state = AppState::new(server_url.as_str());
        let mut app = App {
            config,
            state,
            status_text: "Not connected".to_string(),
            connected: false,
        };
        app.load_demo_data();
        app
    }

    /// Show a fixed listing, for use without a daemon.
    pub fn load_demo_data(&mut self)
        ensures
            final(self).state.current_path@ == "/"@,
            final(self).state.entries@.len() == 7,
            final(self).state.cursor == 0,
            final(self).status_text@ == "Demo mode (no server connection)"@,
            final(self).state.server_url == old(self).state.server_url,
            final(self).connected == old(self).connected,
    {
        let mut entries: Vec<FileEntry> = Vec::new();
        entries.push(demo_entry("Documents", "/Documents", true, 0, 1706000000, None));
        entries.push(demo_entry("Downloads", "/Downloads", true, 0, 1706100000, None));
        entries.push(demo_entry("Movies", "/Movies", true, 0, 1705900000, None));
        entries.push(demo_entry("Music", "/Music", true, 0, 1705800000, None));
        entries.push(demo_entry("readme.txt", "/readme.txt", false, 1234, 1706200000, Some("text/plain")));
        entries.push(demo_entry("photo.jpg", "/photo.jpg", false, 2_500_000, 1706150000, Some("image/jpeg")));
        entries.push(demo_entry("video.mp4", "/video.mp4", false, 150_000_000, 1706050000, Some("video/mp4")));
        self.state.set_entries("/".to_string(), entries);
        self.status_text = "Demo mode (no server connection)".to_string();
    }

    /// Process pending work; in demo mode there is none.
    pub fn tick(&mut self)
        ensures
            *final(self) == *old(self),
    {
    }

    /// Go to a directory (shown in the status line).
    pub fn navigate_to(&mut self, path: &str)
        ensures
            shows(final(self).state, "Navigate to: "@ + path@, StatusLevel::Info),
            final(self).state.entries == old(self).state.entries,
            final(self).state.cursor == old(self).state.cursor,
    {
        self.state.set_status(concat("Navigate to: ", path), StatusLevel::Info);
    }

    /// Go to the parent directory, if any.
    pub fn navigate_up(&mut self)
        ensures
            match crate::state::parent_of(old(self).state.current_path@) {
                Some(p) => shows(final(self).state, "Navigate to: "@ + p, StatusLevel::Info),
                None => final(self).state.status_message == old(self).state.status_message,
            },
    {
        match self.state.parent_path() {
            Some(parent) => self.navigate_to(parent.as_str()),
            None => {},
        }
    }

    /// Enter the directory under the cursor, or open the file.
    pub fn enter(&mut self)
        ensures
            old(self).state.cursor < old(self).state.entries@.len() ==> {
                let e = old(self).state.entries@[old(self).state.cursor as int];
                if e.file_type == FileType::Directory {
                    shows(final(self).state, "Navigate to: "@ + e.path@, StatusLevel::Info)
                } else {
                    shows(final(self).state, "Open: "@ + e.name@, StatusLevel::Info)
                }
            },
            old(self).state.cursor >= old(self).state.entries@.len() ==> final(self).state.status_message == old(self).state.status_message,
    {
        let msg = match self.state.current_entry() {
            Some(entry) => {
                if entry.is_dir() {
                    Some(concat("Navigate to: ", entry.path.as_str()))
                } else {
                    Some(concat("Open: ", entry.name.as_str()))
                }
            },
            None => None,
        };
        match msg {
            Some(m) => self.state.set_status(m, StatusLevel::Info),
            None => {},
        }
    }

    /// Ask to delete the entries acted on.
    pub fn delete_selected(&mut self)
        ensures
            target_count(old(self).state) == 0 ==> final(self).state.status_message == old(self).state.status_message,
            target_count(old(self).state) > 0 ==> shows(
                final(self).state,
                "Delete "@ + decimal(target_count(old(self).state)) + " item(s)?"@,
                StatusLevel::Warning,
            ),
    {
        let paths = self.state.selected_paths();
        let n = paths.len();
        assert(paths@.map_values(|p: &str| p@).len() == n);
        if n == 0 {
            return;
        }
        self.state.set_status(count_message("Delete ", n as u64, " item(s)?"), StatusLevel::Warning);
    }

    /// Copy the entries acted on to the clipboard.
    pub fn copy_selected(&mut self)
        ensures
            shows(
                final(self).state,
                "Copied "@ + decimal(target_count(old(self).state)) + " item(s)"@,
                StatusLevel::Success,
            ),
    {
        let paths = self.state.selected_paths();
        let n = paths.len();
        assert(paths@.map_values(|p: &str| p@).len() == n);
        self.state.set_status(count_message("Copied ", n as u64, " item(s)"), StatusLevel::Success);
    }

    /// Paste from the clipboard (not available yet).
    pub fn paste(&mut self)
        ensures
            shows(final(self).state, "Paste (not implemented)"@, StatusLevel::Info),
    {
        self.state.set_status("Paste (not implemented)".to_string(), StatusLevel::Info);
    }

    /// Carry out a normal-mode action.
    pub fn perform(&mut self, a: NormalAction)
        ensures
            a == NormalAction::Rename ==> final(self).state.input_mode == InputMode::Rename,
            a == NormalAction::Search ==> final(self).state.input_mode == InputMode::Search
                && final(self).state.search_query@.len() == 0,
            a == NormalAction::Command ==> final(self).state.input_mode == InputMode::Command
                && final(self).state.command_input@.len() == 0,
            a == NormalAction::Help ==> shows(final(self).state, help_text(), StatusLevel::Info),
            a == NormalAction::ClearSelection ==> final(self).state.selected@.len() == 0
                && final(self).state.status_message is None,
            a == NormalAction::Nothing ==> *final(self) == *old(self),
    {
        match a {
            NormalAction::CursorDown => self.state.cursor_down(),
            NormalAction::CursorUp => self.state.cursor_up(),
            NormalAction::NavigateUp => self.navigate_up(),
            NormalAction::Enter => self.enter(),
            NormalAction::Top => self.state.cursor_top(),
            NormalAction::Bottom => self.state.cursor_bottom(),
            NormalAction::PageDown => {
                let rows = self.state.visible_rows;
                for _i in 0..rows {
                    self.state.cursor_down();
                }
            },
            NormalAction::PageUp => {
                let rows = self.state.visible_rows;
                for _i in 0..rows {
                    self.state.cursor_up();
                }
            },
            NormalAction::ToggleAndDown => {
                self.state.toggle_selection();
                self.state.cursor_down();
            },
            NormalAction::StartRange => self.state.start_range_selection(),
            NormalAction::SelectAll => self.state.select_all(),
            NormalAction::Copy => self.copy_selected(),
            NormalAction::Paste => self.paste(),
            NormalAction::Delete => self.delete_selected(),
            NormalAction::Rename => {
                self.state.input_mode = InputMode::Rename;
            },
            NormalAction::Search => self.state.enter_search_mode(),
            NormalAction::Command => {
                self.state.input_mode = InputMode::Command;
                self.state.command_input = String::new();
            },
            NormalAction::Undo => {
                self.state.undo();
            },
            NormalAction::ClearSelection => {
                self.state.clear_selection();
                self.state.clear_status();
            },
            NormalAction::Help => {
                self.state.set_status(
                    "j/k:move h/l:nav space:select d:del y:copy p:paste /:search q:quit".to_string(),
                    StatusLevel::Info,
                );
            },
            NormalAction::Nothing => {},
        }
    }
}

/// A demo entry.
fn demo_entry(name: &str, path: &str, dir: bool, size: u64, modified: i64, mime: Option<&str>) -> (e:
    FileEntry)
    ensures
        e.name@ == name@,
        e.path@ == path@,
        e.file_type == (if dir {
            FileType::Directory
        } else {
            FileType::File
        }),
        e.size == size,
        e.modified == modified,
{
    FileEntry {
        name: name.to_string(),
        path: path.to_string(),
        file_type: if dir {
            FileType::Directory
        } else {
            FileType::File
        },
        size,
        modified,
        mime_type: match mime {
            Some(m) => Some(m.to_string()),
            None => None,
        },
    }
}

/// Run a command line typed after `:`.
pub fn execute_command(app: &mut App, cmd: &str)
    ensures
        match command_status(split_words(cmd@)) {
            Some((m, l)) => shows(final(app).state, m, l),
            None => final(app).state.status_message == old(app).state.status_message,
        },
        final(app).state.input_mode == old(app).state.input_mode,
        final(app).state.cursor == old(app).state.cursor,
{
    let words = words_of(cmd);
    proof {
        reveal_strlit("");
    }
    let ghost ws = words@.map_values(|w: Vec<char>| w@);
    if words.len() == 0 {
        return;
    }
    assert(ws[0] == words@[0]@);
    let first = &words[0];
    if word_is(first, "q") || word_is(first, "quit") || word_is(first, "wq") {
    } else if word_is(first, "w") || word_is(first, "write") {
        app.state.set_status("Nothing to save".to_string(), StatusLevel::Info);
    } else if word_is(first, "cd") || word_is(first, "set") {
        if words.len() > 1 {
            assert(ws[1] == words@[1]@);
            let arg = string_of(&words[1]);
            let msg = if word_is(first, "cd") {
                concat("cd ", arg.as_str())
            } else {
                concat("set ", arg.as_str())
            };
            app.state.set_status(msg, StatusLevel::Info);
        }
    } else {
        let w = string_of(first);
        app.state.set_status(concat("Unknown command: ", w.as_str()), StatusLevel::Error);
    }
}

/// Handle a key in search mode: type the query, confirm it, or leave.
fn handle_search_mode(app: &mut App, key: KeyEvent) -> (r: AppResult)
    ensures
        r == AppResult::Continue,
        key.code == KeyCode::Esc ==> final(app).state.input_mode == InputMode::Normal,
        key.code == KeyCode::Enter ==> final(app).state.input_mode == InputMode::Normal && shows(
            final(app).state,
            "Search: "@ + old(app).state.search_query@,
            StatusLevel::Info,
        ),
        key.code == KeyCode::Backspace ==> old(app).state.search_query@.len() > 0 ==> final(app).state.search_query@ == old(app).state.search_query@.drop_last(),
        key.code matches KeyCode::Char(c) ==> final(app).state.search_query@ == old(app).state.search_query@.push(c),
{
    match key.code {
        KeyCode::Esc => app.state.exit_input_mode(),
        KeyCode::Enter => {
            let msg = concat("Search: ", app.state.search_query.as_str());
            app.state.set_status(msg, StatusLevel::Info);
            app.state.exit_input_mode();
        },
        KeyCode::Backspace => pop_char(&mut app.state.search_query),
        KeyCode::Char(c) => push_char(&mut app.state.search_query, c),
        _ => {},
    }
    AppResult::Continue
}

/// Handle a key in command mode: type the command, run it, or leave.
fn handle_command_mode(app: &mut App, key: KeyEvent) -> (r: AppResult)
    ensures
        r == AppResult::Continue,
        key.code == KeyCode::Esc || key.code == KeyCode::Enter ==> final(app).state.input_mode
            == InputMode::Normal,
        key.code == KeyCode::Enter ==> match command_status(
            split_words(old(app).state.command_input@),
        ) {
            Some((m, l)) => shows(final(app).state, m, l),
            None => final(app).state.status_message == old(app).state.status_message,
        },
        key.code == KeyCode::Backspace ==> old(app).state.command_input@.len() > 0 ==> final(app).state.command_input@ == old(app).state.command_input@.drop_last(),
        key.code matches KeyCode::Char(c) ==> final(app).state.command_input@ == old(app).state.command_input@.push(c),
{
    match key.code {
        KeyCode::Esc => app.state.exit_input_mode(),
        KeyCode::Enter => {
            let cmd = app.state.command_input.clone();
            execute_command(app, cmd.as_str());
            app.state.exit_input_mode();
        },
        KeyCode::Backspace => pop_char(&mut app.state.command_input),
        KeyCode::Char(c) => push_char(&mut app.state.command_input, c),
        _ => {},
    }
    AppResult::Continue
}

/// Handle a key at the rename prompt: Enter or Esc leaves it.
fn handle_rename_mode(app: &mut App, key: KeyEvent) -> (r: AppResult)
    ensures
        r == AppResult::Continue,
        key.code == KeyCode::Esc || key.code == KeyCode::Enter ==> final(app).state.input_mode
            == InputMode::Normal,
        !(key.code == KeyCode::Esc || key.code == KeyCode::Enter) ==> *final(app) == *old(app),
{
    match key.code {
        KeyCode::Esc | KeyCode::Enter => app.state.exit_input_mode(),
        _ => {},
    }
    AppResult::Continue
}

/// Whether a key answers a confirmation prompt (yes or no).
pub open spec fn answers_prompt(c: KeyCode) -> bool {
    c == KeyCode::Char('y') || c == KeyCode::Char('Y') || c == KeyCode::Enter || c
        == KeyCode::Char('n') || c == KeyCode::Char('N') || c == KeyCode::Esc
}

/// Handle a key at a confirmation prompt: an answer leaves it.
fn handle_confirm_mode(app: &mut App, key: KeyEvent) -> (r: AppResult)
    ensures
        r == AppResult::Continue,
        answers_prompt(key.code) ==> final(app).state.input_mode == InputMode::Normal,
        !answers_prompt(key.code) ==> *final(app) == *old(app),
{
    match key.code {
        KeyCode::Char('y') | KeyCode::Char('Y') | KeyCode::Enter => app.state.exit_input_mode(),
        KeyCode::Char('n') | KeyCode::Char('N') | KeyCode::Esc => app.state.exit_input_mode(),
        _ => {},
    }
    AppResult::Continue
}

/// Handle a key in the current input mode.
pub fn handle_key(app: &mut App, key: KeyEvent) -> (r: AppResult)
    ensures
        r == AppResult::Continue,
        old(app).state.input_mode == InputMode::Rename ==> (key.code == KeyCode::Esc || key.code
            == KeyCode::Enter ==> final(app).state.input_mode == InputMode::Normal),
        old(app).state.input_mode is Confirm ==> (answers_prompt(key.code) ==> final(app).state.input_mode == InputMode::Normal),
        old(app).state.input_mode == InputMode::Normal && normal_action(key)
            == NormalAction::Nothing ==> *final(app) == *old(app),
{
    match app.state.input_mode {
        InputMode::Normal => {
            let a = normal_action_of(&key);
            app.perform(a);
            AppResult::Continue
        },
        InputMode::Search => handle_search_mode(app, key),
        InputMode::Command => handle_command_mode(app, key),
        InputMode::Rename => handle_rename_mode(app, key),
        InputMode::Confirm(_) => handle_confirm_mode(app, key),
    }
}

} // verus!
