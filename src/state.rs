//! The client-side view model: a directory listing with a cursor, a
//! selection, input modes and an undo history.
use vstd::prelude::*;
use std::collections::VecDeque;

use crate::filebrowser::trim_slashes;
use crate::text::{chars_of, str_eq, string_of};

verus! {

/// The kind of a filesystem entry.
#[derive(Debug, Clone, Copy, PartialEq, Eq, Structural)]
pub enum FileType {
    Directory,
    File,
    Symlink,
}

/// A file or directory entry.
#[derive(Debug, Clone)]
pub struct FileEntry {
    pub name: String,
    pub path: String,
    pub file_type: FileType,
    pub size: u64,
    /// Unix seconds.
    pub modified: i64,
    pub mime_type: Option<String>,
}

impl FileEntry {
    /// Whether the entry is a directory.
    pub fn is_dir(&self) -> (r: bool)
        ensures
            r == (self.file_type == FileType::Directory),
    {
        match self.file_type {
            FileType::Directory => true,
            _ => false,
        }
    }
}

/// Most entries kept in the undo history.
pub const MAX_UNDO_HISTORY: usize = 50;

/// How entries are selected.
#[derive(Debug, Clone, Copy, PartialEq, Eq, Structural)]
pub enum SelectionMode {
    Single,
    Multi,
    Range,
}

/// How the listing is shown.
#[derive(Debug, Clone, Copy, PartialEq, Eq, Structural)]
pub enum ViewMode {
    List,
    Grid,
    Tree,
}

/// What keys currently do (vim-style modes).
#[derive(Debug, Clone, PartialEq, Eq)]
pub enum InputMode {
    Normal,
    /// Typing a search.
    Search,
    /// Typing a command (after `:`).
    Command,
    /// The rename prompt.
    Rename,
    /// A confirmation prompt.
    Confirm(ConfirmAction),
}

/// Actions that ask for confirmation.
#[derive(Debug, Clone, PartialEq, Eq)]
pub enum ConfirmAction {
    Delete(Vec<String>),
    Overwrite(String),
}

/// State of the connection to the daemon.
#[derive(Debug, Clone, Copy, PartialEq, Eq, Structural)]
pub enum ConnectionState {
    Disconnected,
    Connecting,
    Connected,
    Reconnecting { attempt: u32 },
}

/// Severity of a status message.
#[derive(Debug, Clone, Copy, PartialEq, Eq, Structural)]
pub enum StatusLevel {
    Info,
    Success,
    Warning,
    Error,
}

/// An operation in progress.
#[derive(Debug, Clone)]
pub struct PendingOp {
    pub id: String,
    pub op_type: OpType,
    /// Progress in thousandths, where known.
    pub progress_permille: Option<u16>,
}

/// The kind of an operation in progress.
#[derive(Debug, Clone)]
pub enum OpType {
    Upload { path: String, size: u64 },
    Download { path: String, size: u64 },
    Delete { paths: Vec<String> },
    Rename { from: String, to: String },
}

/// A step of the undo history.
#[derive(Debug)]
pub struct UndoEntry {
    pub action: UndoAction,
    pub description: String,
}

/// What undoing a step restores.
#[derive(Debug)]
pub enum UndoAction {
    /// The directory shown before.
    Navigate { from: String },
    /// The cursor position before.
    CursorMove { from: usize },
    /// The selection before.
    Selection { previous: Vec<usize> },
}

/// The value of an undo step.
pub enum UndoView {
    Navigate(Seq<char>),
    CursorMove(usize),
    Selection(Seq<usize>),
}

impl UndoAction {
    pub open spec fn view(&self) -> UndoView {
        match self {
            UndoAction::Navigate { from } => UndoView::Navigate(from@),
            UndoAction::CursorMove { from } => UndoView::CursorMove(*from),
            UndoAction::Selection { previous } => UndoView::Selection(previous@),
        }
    }
}

/// The client's view model.
pub struct AppState {
    pub current_path: String,
    pub entries: Vec<FileEntry>,
    pub cursor: usize,
    pub scroll_offset: usize,
    pub visible_rows: usize,
    pub selection_mode: SelectionMode,
    pub selected: Vec<usize>,
    pub selection_anchor: Option<usize>,
    pub view_mode: ViewMode,
    pub input_mode: InputMode,
    pub search_query: String,
    pub command_input: String,
    pub status_message: Option<(String, StatusLevel)>,
    pub connection: ConnectionState,
    pub server_url: String,
    pub pending_ops: Vec<PendingOp>,
    /// Steps that can be undone, oldest first.
    pub undo_stack: VecDeque<UndoEntry>,
    /// Steps that can be redone, most recent last.
    pub redo_stack: Vec<UndoEntry>,
}

/// The scroll offset that keeps `cursor` within `rows` visible rows (with no
/// visible row, the cursor's own position).
pub open spec fn scroll_after(cursor: usize, scroll: usize, rows: usize) -> usize {
    if cursor < scroll {
        cursor
    } else if cursor - scroll >= rows {
        if rows == 0 {
            cursor
        } else {
            (cursor - (rows - 1)) as usize
        }
    } else {
        scroll
    }
}

/// The indices from `a` to `b`, both included, whichever is smaller first.
pub open spec fn index_range(a: usize, b: usize) -> Seq<usize> {
    let lo = if a <= b { a } else { b };
    let hi = if a <= b { b } else { a };
    Seq::new((hi - lo + 1) as nat, |k: int| (lo + k) as usize)
}

/// The history after recording a step: at most the last 50 steps are kept.
pub open spec fn recorded(before: Seq<UndoEntry>, after: Seq<UndoEntry>, a: UndoView) -> bool {
    let kept = if before.len() >= MAX_UNDO_HISTORY {
        before.drop_first()
    } else {
        before
    };
    &&& after.len() == kept.len() + 1
    &&& after.drop_last() == kept
    &&& after.last().action.view() == a
}

/// `sel` without the index `i`.
pub open spec fn without(sel: Seq<usize>, i: usize) -> Seq<usize>
    decreases sel.len(),
{
    if sel.len() == 0 {
        Seq::empty()
    } else {
        let rest = without(sel.drop_last(), i);
        if sel.last() == i {
            rest
        } else {
            rest.push(sel.last())
        }
    }
}

/// Whether the listing, cursor, selection and history kept their values.
pub open spec fn same_view(a: AppState, b: AppState) -> bool {
    &&& a.current_path@ == b.current_path@
    &&& a.entries@ == b.entries@
    &&& a.cursor == b.cursor
    &&& a.scroll_offset == b.scroll_offset
    &&& a.selected@ == b.selected@
    &&& a.selection_mode == b.selection_mode
    &&& a.selection_anchor == b.selection_anchor
    &&& a.undo_stack@ == b.undo_stack@
    &&& a.redo_stack@ == b.redo_stack@
}

/// The effect of a cursor move to `target` on a non-empty listing: the
/// cursor moves, the view scrolls to it, a range selection follows it, and
/// the old position is recorded for undo.
pub open spec fn moved_to(before: AppState, after: AppState, target: usize, scrolls: bool) -> bool {
    &&& after.cursor == target
    &&& after.scroll_offset == if scrolls {
        scroll_after(target, before.scroll_offset, before.visible_rows)
    } else {
        before.scroll_offset
    }
    &&& after.selected@ == if before.selection_mode == SelectionMode::Range
        && before.selection_anchor is Some {
        index_range(before.selection_anchor->0, target)
    } else {
        before.selected@
    }
    &&& recorded(before.undo_stack@, after.undo_stack@, UndoView::CursorMove(before.cursor))
    &&& after.redo_stack@.len() == 0
    &&& after.entries@ == before.entries@
    &&& after.current_path@ == before.current_path@
    &&& after.selection_mode == before.selection_mode
    &&& after.selection_anchor == before.selection_anchor
}

/// The effect of undoing or redoing a step: what it restores, and the step
/// that would restore the state before.
pub open spec fn stepped(before: AppState, after: AppState, a: UndoView, inverse: UndoView) -> bool {
    &&& after.entries@ == before.entries@
    &&& after.selection_mode == before.selection_mode
    &&& after.selection_anchor == before.selection_anchor
    &&& match a {
        UndoView::Navigate(from) => {
            &&& after.current_path@ == from
            &&& inverse == UndoView::Navigate(before.current_path@)
            &&& after.cursor == before.cursor && after.scroll_offset == before.scroll_offset
            &&& after.selected@ == before.selected@
        },
        UndoView::CursorMove(from) => {
            &&& after.cursor == from
            &&& after.scroll_offset == scroll_after(
                from,
                before.scroll_offset,
                before.visible_rows,
            )
            &&& inverse == UndoView::CursorMove(before.cursor)
            &&& after.current_path@ == before.current_path@
            &&& after.selected@ == before.selected@
        },
        UndoView::Selection(previous) => {
            &&& after.selected@ == previous
            &&& inverse == UndoView::Selection(before.selected@)
            &&& after.current_path@ == before.current_path@
            &&& after.cursor == before.cursor && after.scroll_offset == before.scroll_offset
        },
    }
}

/// The paths of the selected entries that exist, in selection order.
pub open spec fn paths_of(entries: Seq<FileEntry>, sel: Seq<usize>) -> Seq<Seq<char>>
    decreases sel.len(),
{
    if sel.len() == 0 {
        Seq::empty()
    } else {
        let rest = paths_of(entries, sel.drop_last());
        if sel.last() < entries.len() {
            rest.push(entries[sel.last() as int].path@)
        } else {
            rest
        }
    }
}

/// The index of the last `/` of `t`, or -1.
pub open spec fn last_slash(t: Seq<char>) -> int
    decreases t.len(),
{
    if t.len() == 0 {
        -1
    } else if t.last() == '/' {
        t.len() - 1
    } else {
        last_slash(t.drop_last())
    }
}

/// The parent of a path: `None` for the root and for a path without `/`.
pub open spec fn parent_of(p: Seq<char>) -> Option<Seq<char>> {
    if p == "/"@ {
        None
    } else {
        let t = trim_slashes(p);
        let k = last_slash(t);
        if k < 0 {
            None
        } else if k == 0 {
            Some("/"@)
        } else {
            Some(t.subrange(0, k))
        }
    }
}

proof fn lemma_last_slash(t: Seq<char>)
    ensures
        -1 <= last_slash(t) < t.len(),
        last_slash(t) >= 0 ==> t[last_slash(t)] == '/',
    decreases t.len(),
{
    if t.len() > 0 && t.last() != '/' {
        lemma_last_slash(t.drop_last());
    }
}

/// A copy of a list of indices.
pub fn copy_indices(v: &Vec<usize>) -> (r: Vec<usize>)
    ensures
        r@ == v@,
{
    let mut r: Vec<usize> = Vec::new();
    for i in 0..v.len()
        invariant
            r@ == v@.take(i as int),
    {
        r.push(v[i]);
        assert(v@.take(i + 1) == v@.take(i as int).push(v@[i as int]));
    }
    assert(v@.take(v.len() as int) == v@);
    r
}

/// `selected` with `i` removed if it holds it, or added at the end if not.
pub fn toggled(selected: &Vec<usize>, i: usize) -> (r: Vec<usize>)
    ensures
        r@ == if selected@.contains(i) {
            without(selected@, i)
        } else {
            selected@.push(i)
        },
{
    let mut found = false;
    let mut kept: Vec<usize> = Vec::new();
    for k in 0..selected.len()
        invariant
            kept@ == without(selected@.take(k as int), i),
            found == selected@.take(k as int).contains(i),
    {
        let x = selected[k];
        assert(selected@.take(k + 1).drop_last() == selected@.take(k as int));
        if x == i {
            found = true;
        } else {
            kept.push(x);
        }
        assert(selected@.take(k + 1).contains(i) == (selected@.take(k as int).contains(i) || x
            == i)) by {
            if x == i {
                assert(selected@.take(k + 1)[k as int] == i);
            }
            if selected@.take(k as int).contains(i) {
                let j = choose|j: int| 0 <= j < k && selected@.take(k as int)[j] == i;
                assert(selected@.take(k + 1)[j] == i);
            }
        }
    }
    assert(selected@.take(selected.len() as int) == selected@);
    if found {
        kept
    } else {
        let mut all = copy_indices(selected);
        all.push(i);
        all
    }
}

impl Default for AppState {
    fn default() -> (r: Self)
        ensures
            r.current_path@ == "/"@,
            r.entries@.len() == 0,
            r.cursor == 0,
            r.scroll_offset == 0,
            r.visible_rows == 20,
            r.selection_mode == SelectionMode::Single,
            r.selected@.len() == 0,
            r.selection_anchor is None,
            r.view_mode == ViewMode::List,
            r.input_mode == InputMode::Normal,
            r.search_query@.len() == 0,
            r.command_input@.len() == 0,
            r.status_message is None,
            r.connection == ConnectionState::Disconnected,
            r.server_url@.len() == 0,
            r.pending_ops@.len() == 0,
            r.undo_stack@.len() == 0,
            r.redo_stack@.len() == 0,
    {
        AppState {
            current_path: "/".to_string(),
            entries: Vec::new(),
            cursor: 0,
            scroll_offset: 0,
            visible_rows: 20,
            selection_mode: SelectionMode::Single,
            selected: Vec::new(),
            selection_anchor: None,
            view_mode: ViewMode::List,
            input_mode: InputMode::Normal,
            search_query: String::new(),
            command_input: String::new(),
            status_message: None,
            connection: ConnectionState::Disconnected,
            server_url: String::new(),
            pending_ops: Vec::new(),
            undo_stack: VecDeque::new(),
            redo_stack: Vec::new(),
        }
    }
}

impl AppState {
    /// A fresh view model for the daemon at `server_url`.
    pub fn new(server_url: &str) -> (r: Self)
        ensures
            r.server_url@ == server_url@,
            r.current_path@ == "/"@,
            r.entries@.len() == 0,
            r.cursor == 0,
            r.visible_rows == 20,
            r.selected@.len() == 0,
            r.undo_stack@.len() == 0,
            r.redo_stack@.len() == 0,
    {
        let mut s = AppState::default();
        s.server_url = server_url.to_string();
        s
    }

    fn push_undo(&mut self, action: UndoAction, description: &str)
        ensures
            recorded(old(self).undo_stack@, final(self).undo_stack@, action.view()),
            final(self).redo_stack@.len() == 0,
            final(self).current_path == old(self).current_path,
            final(self).entries == old(self).entries,
            final(self).cursor == old(self).cursor,
            final(self).scroll_offset == old(self).scroll_offset,
            final(self).visible_rows == old(self).visible_rows,
            final(self).selection_mode == old(self).selection_mode,
            final(self).selected == old(self).selected,
            final(self).selection_anchor == old(self).selection_anchor,
            final(self).server_url == old(self).server_url,
            final(self).status_message == old(self).status_message,
            final(self).input_mode == old(self).input_mode,
    {
        let ghost a = action.view();
        self.redo_stack.clear();
        self.undo_stack.push_back(UndoEntry { action, description: description.to_string() });
        if self.undo_stack.len() > MAX_UNDO_HISTORY {
            self.undo_stack.pop_front();
        }
        assert(self.undo_stack@.drop_last() =~= (if old(self).undo_stack@.len() >= MAX_UNDO_HISTORY {
            old(self).undo_stack@.drop_first()
        } else {
            old(self).undo_stack@
        }));
    }

    /// Move the scroll offset so that the cursor is visible.
    pub fn ensure_cursor_visible(&mut self)
        ensures
            final(self).scroll_offset == scroll_after(
                old(self).cursor,
                old(self).scroll_offset,
                old(self).visible_rows,
            ),
            final(self).cursor == old(self).cursor,
            final(self).selected == old(self).selected,
            final(self).entries == old(self).entries,
            final(self).undo_stack == old(self).undo_stack,
            final(self).redo_stack == old(self).redo_stack,
            final(self).current_path == old(self).current_path,
            final(self).selection_mode == old(self).selection_mode,
            final(self).selection_anchor == old(self).selection_anchor,
            final(self).visible_rows == old(self).visible_rows,
    {
        if self.cursor < self.scroll_offset {
            self.scroll_offset = self.cursor;
        } else if self.cursor - self.scroll_offset >= self.visible_rows {
            if self.visible_rows == 0 {
                self.scroll_offset = self.cursor;
            } else {
                self.scroll_offset = self.cursor - (self.visible_rows - 1);
            }
        }
    }

    /// In range selection, select every index between the anchor and the
    /// cursor.
    pub fn update_range_selection(&mut self)
        ensures
            final(self).selected@ == match old(self).selection_anchor {
                Some(a) => index_range(a, old(self).cursor),
                None => old(self).selected@,
            },
            final(self).cursor == old(self).cursor,
            final(self).scroll_offset == old(self).scroll_offset,
            final(self).entries == old(self).entries,
            final(self).undo_stack == old(self).undo_stack,
            final(self).redo_stack == old(self).redo_stack,
            final(self).selection_mode == old(self).selection_mode,
            final(self).selection_anchor == old(self).selection_anchor,
            final(self).current_path == old(self).current_path,
            final(self).visible_rows == old(self).visible_rows,
    {
        match self.selection_anchor {
            Some(anchor) => {
                let lo = if anchor <= self.cursor { anchor } else { self.cursor };
                let hi = if anchor <= self.cursor { self.cursor } else { anchor };
                let mut v: Vec<usize> = Vec::new();
                for j in 0..hi - lo
                    invariant
                        lo <= hi,
                        v@ == Seq::new(j as nat, |i: int| (lo + i) as usize),
                {
                    v.push(lo + j);
                    assert(v@ =~= Seq::new((j + 1) as nat, |i: int| (lo + i) as usize));
                }
                v.push(hi);
                assert(v@ =~= index_range(anchor, self.cursor));
                self.selected = v;
            },
            None => {},
        }
    }

    /// Show a new directory listing; the previous directory is recorded for
    /// undo, and cursor, scroll and selection start afresh.
    pub fn set_entries(&mut self, path: String, entries: Vec<FileEntry>)
        ensures
            final(self).current_path@ == path@,
            final(self).entries@ == entries@,
            final(self).cursor == 0,
            final(self).scroll_offset == 0,
            final(self).selected@.len() == 0,
            final(self).selection_anchor is None,
            recorded(
                old(self).undo_stack@,
                final(self).undo_stack@,
                UndoView::Navigate(old(self).current_path@),
            ),
            final(self).redo_stack@.len() == 0,
            final(self).server_url == old(self).server_url,
    {
        let from = self.current_path.clone();
        self.push_undo(UndoAction::Navigate { from }, "navigate");
        self.current_path = path;
        self.entries = entries;
        self.cursor = 0;
        self.scroll_offset = 0;
        self.selected.clear();
        self.selection_anchor = None;
    }

    /// Move the cursor one entry down (it stays on the last entry).
    pub fn cursor_down(&mut self)
        ensures
            old(self).entries@.len() == 0 ==> same_view(*final(self), *old(self)),
            old(self).entries@.len() > 0 ==> {
                let last = (old(self).entries@.len() - 1) as usize;
                let moves = old(self).cursor < last;
                moved_to(
                    *old(self),
                    *final(self),
                    if moves {
                        (old(self).cursor + 1) as usize
                    } else {
                        old(self).cursor
                    },
                    moves,
                )
            },
    {
        if self.entries.len() == 0 {
            return;
        }
        self.push_undo(UndoAction::CursorMove { from: self.cursor }, "cursor");
        if self.cursor < self.entries.len() - 1 {
            self.cursor = self.cursor + 1;
            self.ensure_cursor_visible();
        }
        if self.selection_mode == SelectionMode::Range {
            self.update_range_selection();
        }
    }

    /// Move the cursor one entry up (it stays on the first entry).
    pub fn cursor_up(&mut self)
        ensures
            old(self).entries@.len() == 0 ==> same_view(*final(self), *old(self)),
            old(self).entries@.len() > 0 ==> {
                let moves = old(self).cursor > 0;
                moved_to(
                    *old(self),
                    *final(self),
                    if moves {
                        (old(self).cursor - 1) as usize
                    } else {
                        old(self).cursor
                    },
                    moves,
                )
            },
    {
        if self.entries.len() == 0 {
            return;
        }
        self.push_undo(UndoAction::CursorMove { from: self.cursor }, "cursor");
        if self.cursor > 0 {
            self.cursor = self.cursor - 1;
            self.ensure_cursor_visible();
        }
        if self.selection_mode == SelectionMode::Range {
            self.update_range_selection();
        }
    }

    /// Jump to the first entry.
    pub fn cursor_top(&mut self)
        ensures
            final(self).cursor == 0,
            final(self).scroll_offset == 0,
            recorded(
                old(self).undo_stack@,
                final(self).undo_stack@,
                UndoView::CursorMove(old(self).cursor),
            ),
            final(self).redo_stack@.len() == 0,
            final(self).selected@ == old(self).selected@,
            final(self).entries@ == old(self).entries@,
    {
        self.push_undo(UndoAction::CursorMove { from: self.cursor }, "cursor");
        self.cursor = 0;
        self.scroll_offset = 0;
    }

    /// Jump to the last entry.
    pub fn cursor_bottom(&mut self)
        ensures
            old(self).entries@.len() == 0 ==> same_view(*final(self), *old(self)),
            old(self).entries@.len() > 0 ==> {
                let last = (old(self).entries@.len() - 1) as usize;
                &&& final(self).cursor == last
                &&& final(self).scroll_offset == scroll_after(
                    last,
                    old(self).scroll_offset,
                    old(self).visible_rows,
                )
                &&& recorded(
                    old(self).undo_stack@,
                    final(self).undo_stack@,
                    UndoView::CursorMove(old(self).cursor),
                )
                &&& final(self).redo_stack@.len() == 0
                &&& final(self).selected@ == old(self).selected@
            },
    {
        if self.entries.len() == 0 {
            return;
        }
        self.push_undo(UndoAction::CursorMove { from: self.cursor }, "cursor");
        self.cursor = self.entries.len() - 1;
        self.ensure_cursor_visible();
    }

    /// Select the entry under the cursor, or unselect it if it was selected.
    pub fn toggle_selection(&mut self)
        ensures
            final(self).selected@ == if old(self).selected@.contains(old(self).cursor) {
                without(old(self).selected@, old(self).cursor)
            } else {
                old(self).selected@.push(old(self).cursor)
            },
            recorded(
                old(self).undo_stack@,
                final(self).undo_stack@,
                UndoView::Selection(old(self).selected@),
            ),
            final(self).redo_stack@.len() == 0,
            final(self).cursor == old(self).cursor,
            final(self).entries@ == old(self).entries@,
    {
        let previous = copy_indices(&self.selected);
        self.push_undo(UndoAction::Selection { previous }, "selection");
        self.selected = toggled(&self.selected, self.cursor);
    }

    /// Select every entry.
    pub fn select_all(&mut self)
        ensures
            final(self).selected@ == Seq::new(old(self).entries@.len(), |k: int| k as usize),
            recorded(
                old(self).undo_stack@,
                final(self).undo_stack@,
                UndoView::Selection(old(self).selected@),
            ),
            final(self).redo_stack@.len() == 0,
            final(self).cursor == old(self).cursor,
            final(self).entries@ == old(self).entries@,
    {
        let previous = copy_indices(&self.selected);
        self.push_undo(UndoAction::Selection { previous }, "selection");
        let mut all: Vec<usize> = Vec::new();
        for i in 0..self.entries.len()
            invariant
                all@ == Seq::new(i as nat, |k: int| k as usize),
        {
            all.push(i);
            assert(all@ =~= Seq::new((i + 1) as nat, |k: int| k as usize));
        }
        self.selected = all;
    }

    /// Clear the selection; an empty selection records nothing.
    pub fn clear_selection(&mut self)
        ensures
            final(self).selected@.len() == 0,
            old(self).selected@.len() == 0 ==> same_view(*final(self), *old(self)),
            old(self).selected@.len() > 0 ==> recorded(
                old(self).undo_stack@,
                final(self).undo_stack@,
                UndoView::Selection(old(self).selected@),
            ) && final(self).redo_stack@.len() == 0,
            final(self).cursor == old(self).cursor,
            final(self).entries@ == old(self).entries@,
    {
        if self.selected.len() > 0 {
            let previous = copy_indices(&self.selected);
            self.push_undo(UndoAction::Selection { previous }, "selection");
            self.selected.clear();
        }
    }

    /// Start a range selection anchored at the cursor.
    pub fn start_range_selection(&mut self)
        ensures
            final(self).selection_mode == SelectionMode::Range,
            final(self).selection_anchor == Some(old(self).cursor),
            final(self).selected@ == seq![old(self).cursor],
            final(self).cursor == old(self).cursor,
            final(self).undo_stack@ == old(self).undo_stack@,
    {
        self.selection_mode = SelectionMode::Range;
        self.selection_anchor = Some(self.cursor);
        let mut v: Vec<usize> = Vec::new();
        v.push(self.cursor);
        self.selected = v;
    }

    /// Start typing a search.
    pub fn enter_search_mode(&mut self)
        ensures
            final(self).input_mode == InputMode::Search,
            final(self).search_query@.len() == 0,
            same_view(*final(self), *old(self)),
    {
        self.input_mode = InputMode::Search;
        self.search_query = String::new();
    }

    /// Back to normal mode; a range selection ends (the selection stays).
    pub fn exit_input_mode(&mut self)
        ensures
            final(self).input_mode == InputMode::Normal,
            final(self).selection_mode == SelectionMode::Single,
            final(self).selection_anchor is None,
            final(self).selected@ == old(self).selected@,
            final(self).cursor == old(self).cursor,
            final(self).status_message == old(self).status_message,
    {
        self.input_mode = InputMode::Normal;
        self.selection_mode = SelectionMode::Single;
        self.selection_anchor = None;
    }

    /// Show a status message.
    pub fn set_status(&mut self, message: String, level: StatusLevel)
        ensures
            *final(self) == (AppState { status_message: Some((message, level)), ..*old(self) }),
            same_view(*final(self), *old(self)),
    {
        self.status_message = Some((message, level));
    }

    /// Remove the status message.
    pub fn clear_status(&mut self)
        ensures
            *final(self) == (AppState { status_message: None, ..*old(self) }),
            same_view(*final(self), *old(self)),
    {
        self.status_message = None;
    }

    /// The paths to act on: the selected entries (those that exist), or the
    /// entry under the cursor when nothing is selected.
    pub fn selected_paths(&self) -> (r: Vec<&str>)
        ensures
            r@.map_values(|p: &str| p@) == if self.selected@.len() == 0 {
                if self.cursor < self.entries@.len() {
                    seq![self.entries@[self.cursor as int].path@]
                } else {
                    Seq::<Seq<char>>::empty()
                }
            } else {
                paths_of(self.entries@, self.selected@)
            },
    {
        let mut r: Vec<&str> = Vec::new();
        if self.selected.len() == 0 {
            if self.cursor < self.entries.len() {
                r.push(self.entries[self.cursor].path.as_str());
            }
            assert(r@.map_values(|p: &str| p@) =~= if self.cursor < self.entries@.len() {
                seq![self.entries@[self.cursor as int].path@]
            } else {
                Seq::<Seq<char>>::empty()
            });
            return r;
        }
        for i in 0..self.selected.len()
            invariant
                r@.map_values(|p: &str| p@) == paths_of(self.entries@, self.selected@.take(i as int)),
        {
            let k = self.selected[i];
            assert(self.selected@.take(i + 1).drop_last() == self.selected@.take(i as int));
            if k < self.entries.len() {
                r.push(self.entries[k].path.as_str());
            }
            assert(r@.map_values(|p: &str| p@) =~= paths_of(self.entries@, self.selected@.take(i + 1)));
        }
        assert(self.selected@.take(self.selected.len() as int) == self.selected@);
        r
    }

    /// The entry under the cursor, if any.
    pub fn current_entry(&self) -> (r: Option<&FileEntry>)
        ensures
            self.cursor < self.entries@.len() ==> r == Some(&self.entries@[self.cursor as int]),
            self.cursor >= self.entries@.len() ==> r is None,
    {
        if self.cursor < self.entries.len() {
            Some(&self.entries[self.cursor])
        } else {
            None
        }
    }

    /// The parent of the current directory: `None` at the root.
    pub fn parent_path(&self) -> (r: Option<String>)
        ensures
            match r {
                Some(p) => parent_of(self.current_path@) == Some(p@),
                None => parent_of(self.current_path@) is None,
            },
    {
        if str_eq(self.current_path.as_str(), "/") {
            return None;
        }
        let v = chars_of(self.current_path.as_str());
        let mut end = v.len();
        assert(v@.take(end as int) == v@);
        while end > 0 && v[end - 1] == '/'
            invariant
                end <= v.len(),
                trim_slashes(v@.take(end as int)) == trim_slashes(v@),
            decreases end,
        {
            assert(v@.take(end - 1) == v@.take(end as int).drop_last());
            end = end - 1;
        }
        let ghost t = v@.take(end as int);
        assert(trim_slashes(t) == t);
        let mut k = end;
        while k > 0 && v[k - 1] != '/'
            invariant
                k <= end <= v.len(),
                t == v@.take(end as int),
                last_slash(v@.take(k as int)) == last_slash(t),
            decreases k,
        {
            assert(v@.take(k - 1) == v@.take(k as int).drop_last());
            k = k - 1;
        }
        if k == 0 {
            assert(last_slash(v@.take(0)) == -1);
            return None;
        }
        assert(last_slash(v@.take(k as int)) == k - 1);
        let slash = k - 1;
        if slash == 0 {
            return Some("/".to_string());
        }
        let mut parent: Vec<char> = Vec::new();
        for i in 0..slash
            invariant
                slash < k <= end <= v.len(),
                parent@ == v@.take(i as int),
        {
            parent.push(v[i]);
            assert(v@.take(i + 1) == v@.take(i as int).push(v@[i as int]));
        }
        assert(parent@ =~= t.subrange(0, slash as int));
        Some(string_of(&parent))
    }

    /// Restore what a step changed; return the step that restores the
    /// state before.
    fn apply_step(&mut self, action: UndoAction) -> (inverse: UndoAction)
        ensures
            stepped(*old(self), *final(self), action.view(), inverse.view()),
            final(self).undo_stack@ == old(self).undo_stack@,
            final(self).redo_stack@ == old(self).redo_stack@,
    {
        match action {
            UndoAction::Navigate { from } => {
                let current = self.current_path.clone();
                self.current_path = from;
                UndoAction::Navigate { from: current }
            },
            UndoAction::CursorMove { from } => {
                let current = self.cursor;
                self.cursor = from;
                self.ensure_cursor_visible();
                UndoAction::CursorMove { from: current }
            },
            UndoAction::Selection { previous } => {
                let current = copy_indices(&self.selected);
                self.selected = previous;
                UndoAction::Selection { previous: current }
            },
        }
    }

    /// Undo the most recent step; `false` when there is none.
    pub fn undo(&mut self) -> (r: bool)
        ensures
            r == (old(self).undo_stack@.len() > 0),
            !r ==> same_view(*final(self), *old(self)),
            r ==> {
                let e = old(self).undo_stack@.last();
                &&& final(self).undo_stack@ == old(self).undo_stack@.drop_last()
                &&& final(self).redo_stack@.drop_last() == old(self).redo_stack@
                &&& final(self).redo_stack@.len() == old(self).redo_stack@.len() + 1
                &&& stepped(
                    *old(self),
                    *final(self),
                    e.action.view(),
                    final(self).redo_stack@.last().action.view(),
                )
            },
    {
        match self.undo_stack.pop_back() {
            Some(entry) => {
                let inverse = self.apply_step(entry.action);
                self.redo_stack.push(UndoEntry { action: inverse, description: entry.description });
                true
            },
            None => false,
        }
    }

    /// Redo the most recently undone step; `false` when there is none.
    pub fn redo(&mut self) -> (r: bool)
        ensures
            r == (old(self).redo_stack@.len() > 0),
            !r ==> same_view(*final(self), *old(self)),
            r ==> {
                let e = old(self).redo_stack@.last();
                &&& final(self).redo_stack@ == old(self).redo_stack@.drop_last()
                &&& final(self).undo_stack@.drop_last() == old(self).undo_stack@
                &&& final(self).undo_stack@.len() == old(self).undo_stack@.len() + 1
                &&& stepped(
                    *old(self),
                    *final(self),
                    e.action.view(),
                    final(self).undo_stack@.last().action.view(),
                )
            },
    {
        match self.redo_stack.pop() {
            Some(entry) => {
                let inverse = self.apply_step(entry.action);
                self.undo_stack.push_back(UndoEntry { action: inverse, description: entry.description });
                true
            },
            None => false,
        }
    }
}

} // verus!
