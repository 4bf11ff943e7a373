//! The state of the browser: where it is, what the cursor is on, how it got
//! there, what is marked, and what the message line says.

use vstd::prelude::*;
use vstd::string::StringExecFns;

use crate::directory_entry::{listing_view, DirectoryEntry, ListingModel};
use crate::entry::{EntryModel, FilesystemError, PathEntry};
use crate::input::Input;
use crate::model::{AppModel, CursorModel, DeletionModel, HistoryModel};
use crate::selection::SelectionSet;
use crate::text::decimal_text;

verus! {

/// The share of the width that the pane of the parent directory takes by default.
pub const PARENT_FILL: u16 = 1;

/// The share of the width that the pane of the focus directory takes.
pub const FOCUS_FILL: u16 = 2;

/// The share of the width that the preview pane takes.
pub const PREVIEW_FILL: u16 = 3;

/// The cursor: a position in the focus listing, and the entry found there
/// when the cursor was last placed.
#[derive(Debug, PartialEq, Eq)]
pub struct AppCursor {
    pub entry: PathEntry,
    pub idx: usize,
}

impl View for AppCursor {
    type V = CursorModel;

    open spec fn view(&self) -> CursorModel {
        CursorModel { entry: self.entry@, idx: self.idx as nat }
    }
}

impl DeepView for AppCursor {
    type V = CursorModel;

    open spec fn deep_view(&self) -> CursorModel {
        self@
    }
}

impl AppCursor {
    /// A cursor at position `idx` that holds `entry`.
    pub fn new(entry: PathEntry, idx: usize) -> (r: Self)
        ensures
            r@ == (CursorModel { entry: entry@, idx: idx as nat }),
    {
        Self { entry, idx }
    }
}

/// A step of the history: a directory, and the position that the cursor
/// takes when the browser comes back to it.
#[derive(Debug, PartialEq, Eq)]
pub struct HistoryEntry {
    pub path: String,
    pub idx: usize,
}

impl View for HistoryEntry {
    type V = HistoryModel;

    open spec fn view(&self) -> HistoryModel {
        HistoryModel { path: self.path@, idx: self.idx as nat }
    }
}

impl DeepView for HistoryEntry {
    type V = HistoryModel;

    open spec fn deep_view(&self) -> HistoryModel {
        self@
    }
}

impl HistoryEntry {
    /// The step to the directory `path`, with the cursor at position `idx`.
    pub fn new(path: String, idx: usize) -> (r: Self)
        ensures
            r@ == (HistoryModel { path: path@, idx: idx as nat }),
    {
        Self { path, idx }
    }
}

/// What the event loop is to delete.
#[derive(Debug, PartialEq, Eq)]
pub enum Deletion {
    /// Nothing: no entry is marked and the cursor is on none.
    Nothing,
    /// The marked entries of the focus directory, each a file or a directory tree.
    Marked(Vec<String>),
    /// The entry under the cursor: a file, or else a directory tree.
    Cursor(PathEntry),
}

impl View for Deletion {
    type V = DeletionModel;

    open spec fn view(&self) -> DeletionModel {
        match self {
            Deletion::Nothing => DeletionModel::Nothing,
            Deletion::Marked(paths) => DeletionModel::Marked(paths.deep_view().to_set()),
            Deletion::Cursor(entry) => DeletionModel::Cursor(entry@),
        }
    }
}

/// The state of the browser.
#[derive(Debug)]
pub struct App {
    /// False once the user has asked to quit.
    pub running: bool,
    /// The text of the message line, if it shows one.
    pub message: Option<String>,
    /// The share of the width that the pane of the parent directory takes.
    pub parent_constraint: u16,
    /// Whether the pane of the parent directory was collapsed and is to be
    /// given its default share again on the next descent.
    pub parent_needs_reset: bool,
    /// The directory on display.
    pub focus_dir: DirectoryEntry,
    /// The directory one level up; none at the root.
    pub parent_dir: Option<DirectoryEntry>,
    /// The directories that were left by descending, nearest last.
    pub path_stack: Vec<HistoryEntry>,
    /// The directories that were left by going back, nearest last.
    pub forward_stack: Vec<HistoryEntry>,
    /// The marks, per directory.
    pub selections: SelectionSet,
    /// The cursor; none while the focus directory is empty.
    pub app_cursor: Option<AppCursor>,
    /// Whether the cursor wraps around at the ends of the listing.
    pub wrap: bool,
    /// The buffer of the rename that is being typed, if one is.
    pub input: Option<Input>,
    /// The path that the rename being typed is for.
    pub rename_target: Option<String>,
}

impl View for App {
    type V = AppModel;

    open spec fn view(&self) -> AppModel {
        AppModel {
            running: self.running,
            message: self.message.deep_view(),
            parent_constraint: self.parent_constraint,
            parent_needs_reset: self.parent_needs_reset,
            focus_dir: self.focus_dir@,
            parent_dir: self.parent_dir.deep_view(),
            path_stack: self.path_stack.deep_view(),
            forward_stack: self.forward_stack.deep_view(),
            selections: self.selections@,
            app_cursor: self.app_cursor.deep_view(),
            wrap: self.wrap,
            input: self.input.deep_view(),
            rename_target: self.rename_target.deep_view(),
        }
    }
}

/// The view of the outcome of listing a directory.
pub open spec fn outcome_view(outcome: Result<DirectoryEntry, FilesystemError>) -> Result<
    ListingModel,
    FilesystemError,
> {
    match outcome {
        Ok(listing) => Ok(listing@),
        Err(e) => Err(e),
    }
}

/// The view of the outcome of listing the parent of a directory, where it has one.
pub open spec fn parent_outcome_view(
    outcome: Result<Option<DirectoryEntry>, FilesystemError>,
) -> Result<Option<ListingModel>, FilesystemError> {
    match outcome {
        Ok(listing) => Ok(listing.deep_view()),
        Err(e) => Err(e),
    }
}

/// The view of what may have been read from a directory.
pub open spec fn read_view(read: Option<Result<Vec<PathEntry>, FilesystemError>>) -> Option<
    Result<Seq<EntryModel>, FilesystemError>,
> {
    match read {
        Some(listing) => Some(listing_view(listing)),
        None => None,
    }
}

impl App {
    /// Starts a session in `focus_dir`, with the listing of its parent where
    /// it has one, and with the steps that going back is to take.
    pub fn new(
        focus_dir: DirectoryEntry,
        parent_dir: Option<DirectoryEntry>,
        path_stack: Vec<HistoryEntry>,
    ) -> (r: Self)
        ensures
            r@ == AppModel::start(focus_dir@, parent_dir.deep_view(), path_stack.deep_view()),
    {
        let app_cursor = Self::place(&focus_dir, 0);
        let r = Self {
            running: true,
            message: None,
            parent_constraint: PARENT_FILL,
            parent_needs_reset: false,
            focus_dir,
            parent_dir,
            path_stack,
            forward_stack: Vec::new(),
            selections: SelectionSet::new(),
            app_cursor,
            wrap: true,
            input: None,
            rename_target: None,
        };
        assert(r@.forward_stack =~= Seq::empty());
        r
    }

    /// Places the cursor at position `idx` of `listing` or as near as the
    /// listing allows.
    fn place(listing: &DirectoryEntry, idx: usize) -> (r: Option<AppCursor>)
        ensures
            r.deep_view() == AppModel::place(listing@, idx as int),
    {
        let n = listing.len();
        if n == 0 {
            None
        } else {
            let i = if idx < n {
                idx
            } else {
                n - 1
            };
            match listing.get(i) {
                Some(entry) => Some(AppCursor::new(entry.clone(), i)),
                None => None,
            }
        }
    }

    /// What the cursor is on; see [`AppModel::current`].
    pub fn current(&self) -> (r: Option<AppCursor>)
        ensures
            r.deep_view() == self@.current(),
    {
        match &self.app_cursor {
            Some(c) => Self::place(&self.focus_dir, c.idx),
            None => None,
        }
    }

    /// Sets running to false, which ends the session.
    pub fn quit(&mut self)
        ensures
            final(self)@ == (AppModel { running: false, ..old(self)@ }),
    {
        self.running = false;
    }

    /// Handles a tick: refreshes the listings of the parent and the focus
    /// directory from what was read of them at `now`, where something was
    /// read and the listing is due. A failed read leaves the listing as it
    /// is. The cursor is not touched; see [`AppModel::current`].
    pub fn tick(
        &mut self,
        parent_read: Option<Result<Vec<PathEntry>, FilesystemError>>,
        focus_read: Option<Result<Vec<PathEntry>, FilesystemError>>,
        now: u64,
    )
        ensures
            final(self)@.is_tick_of(
                old(self)@,
                read_view(parent_read),
                read_view(focus_read),
                now as nat,
            ),
    {
        match (self.parent_dir.take(), parent_read) {
            (Some(mut parent), Some(read)) => {
                let _ = parent.update(read, now);
                self.parent_dir = Some(parent);
            },
            (parent, _) => {
                self.parent_dir = parent;
            },
        }
        match focus_read {
            Some(read) => {
                let _ = self.focus_dir.update(read, now);
            },
            None => {},
        }
    }

    /// Moves the cursor one entry up; see [`AppModel::move_up`].
    pub fn move_up(&mut self)
        ensures
            final(self)@ == old(self)@.move_up(),
    {
        let idx = match &self.app_cursor {
            Some(c) => c.idx,
            None => {
                return ;
            },
        };
        let n = self.focus_dir.len();
        let target = if n == 0 {
            0
        } else if idx >= n {
            n - 1
        } else if idx > 0 {
            idx - 1
        } else if self.wrap {
            n - 1
        } else {
            0
        };
        self.app_cursor = Self::place(&self.focus_dir, target);
    }

    /// Moves the cursor one entry down; see [`AppModel::move_down`].
    pub fn move_down(&mut self)
        ensures
            final(self)@ == old(self)@.move_down(),
    {
        let idx = match &self.app_cursor {
            Some(c) => c.idx,
            None => {
                return ;
            },
        };
        let n = self.focus_dir.len();
        let target = if n == 0 {
            0
        } else if idx < n - 1 {
            idx + 1
        } else if self.wrap {
            0
        } else {
            n - 1
        };
        self.app_cursor = Self::place(&self.focus_dir, target);
    }

    /// Descends into the entry under the cursor, given the outcome of
    /// listing it; see [`AppModel::move_into`]. Where the listing failed,
    /// or is not that of the entry under the cursor, or the cursor is on a
    /// regular file or on nothing, the state stays as it is.
    pub fn move_into(&mut self, outcome: Result<DirectoryEntry, FilesystemError>)
        ensures
            final(self)@ == old(self)@.move_into(outcome_view(outcome)),
    {
        let cursor = match self.current() {
            Some(c) => c,
            None => {
                return ;
            },
        };
        let mut listing = match outcome {
            Ok(l) => l,
            Err(_) => {
                return ;
            },
        };
        if cursor.entry.is_file() || *listing.path() != cursor.entry.path {
            return ;
        }
        let ghost before = self@;
        let idx = match self.forward_stack.pop() {
            Some(top) => if top.path == *listing.path() {
                top.idx
            } else {
                0
            },
            None => 0,
        };
        let here = HistoryEntry::new(self.focus_dir.path().clone(), cursor.idx);
        self.path_stack.push(here);
        self.app_cursor = Self::place(&listing, idx);
        std::mem::swap(&mut self.focus_dir, &mut listing);
        self.parent_dir = Some(listing);
        if self.parent_needs_reset {
            self.reset_parent_constraint();
        }
        proof {
            let after = before.move_into(outcome_view(outcome));
            assert(self@.path_stack =~= after.path_stack);
            assert(self@.forward_stack =~= after.forward_stack);
        }
    }

    /// Whether `parent` is what stands one level above `listing`.
    fn parent_fits(listing: &DirectoryEntry, parent: &Option<DirectoryEntry>) -> (r: bool)
        ensures
            r == AppModel::parent_fits(listing@, parent.deep_view()),
    {
        match (listing.parent(), parent) {
            (None, None) => true,
            (Some(path), Some(p)) => *p.path() == *path,
            _ => false,
        }
    }

    /// Goes back to the directory on top of the back stack, given the
    /// outcomes of listing it and its parent; see [`AppModel::move_back`].
    /// Where a listing failed, or is not the one that is needed, or there is
    /// nowhere to go back to, the state stays as it is.
    pub fn move_back(
        &mut self,
        outcome: Result<DirectoryEntry, FilesystemError>,
        parent_outcome: Result<Option<DirectoryEntry>, FilesystemError>,
    )
        ensures
            final(self)@ == old(self)@.move_back(
                outcome_view(outcome),
                parent_outcome_view(parent_outcome),
            ),
    {
        let mut listing = match outcome {
            Ok(l) => l,
            Err(_) => {
                return ;
            },
        };
        let parent = match parent_outcome {
            Ok(p) => p,
            Err(_) => {
                return ;
            },
        };
        let n = self.path_stack.len();
        if n == 0 || self.path_stack[n - 1].path != *listing.path() || !Self::parent_fits(
            &listing,
            &parent,
        ) {
            return ;
        }
        let ghost before = self@;
        let here = match self.current() {
            Some(c) => c.idx,
            None => 0,
        };
        let idx = match self.path_stack.pop() {
            Some(top) => top.idx,
            None => 0,
        };
        self.forward_stack.push(HistoryEntry::new(self.focus_dir.path().clone(), here));
        self.app_cursor = Self::place(&listing, idx);
        std::mem::swap(&mut self.focus_dir, &mut listing);
        if parent.is_none() {
            self.set_parent_constraint(0);
        }
        self.parent_dir = parent;
        proof {
            let after = before.move_back(
                outcome_view(outcome),
                parent_outcome_view(parent_outcome),
            );
            assert(self@.path_stack =~= after.path_stack);
            assert(self@.forward_stack =~= after.forward_stack);
        }
    }

    /// Collapses or widens the pane of the parent directory to `fill`
    /// shares, to be undone on the next descent.
    pub fn set_parent_constraint(&mut self, fill: u16)
        ensures
            final(self)@ == (AppModel {
                parent_constraint: fill,
                parent_needs_reset: true,
                ..old(self)@
            }),
    {
        self.parent_needs_reset = true;
        self.parent_constraint = fill;
    }

    /// Gives the pane of the parent directory its default share.
    pub fn reset_parent_constraint(&mut self)
        ensures
            final(self)@ == (AppModel { parent_constraint: PARENT_FILL, ..old(self)@ }),
    {
        self.parent_constraint = PARENT_FILL;
    }

    /// The marked entries of the focus directory, each once.
    pub fn current_selections(&self) -> (r: Vec<String>)
        ensures
            r.deep_view().no_duplicates(),
            r.deep_view().to_set() == self@.current_selections(),
    {
        self.selections.marked_in(self.focus_dir.path())
    }

    /// Flips the mark on the entry under the cursor; see
    /// [`AppModel::toggle_selection_on_cursor`].
    pub fn toggle_selection_on_cursor(&mut self)
        ensures
            final(self)@ == old(self)@.toggle_selection_on_cursor(),
    {
        match self.current() {
            Some(c) => {
                self.selections.toggle(self.focus_dir.path(), &c.entry.path);
            },
            None => {},
        }
    }

    /// Says what a confirmed deletion is to delete; see
    /// [`AppModel::deletion`]. The deleting is the caller's part, who then
    /// reports with [`App::deletion_done`]. Marked paths come each once.
    pub fn delete_selection_or_cursor(&self) -> (r: Deletion)
        ensures
            r@ == self@.deletion(),
            r matches Deletion::Marked(paths) ==> paths.deep_view().no_duplicates(),
    {
        let marked = self.current_selections();
        if marked.len() > 0 {
            assert(marked.deep_view().to_set().contains(marked.deep_view()[0]));
            Deletion::Marked(marked)
        } else {
            match self.current() {
                Some(c) => Deletion::Cursor(c.entry),
                None => Deletion::Nothing,
            }
        }
    }

    /// Takes note of a deletion of which the entries with the paths
    /// `failed` could not be deleted; see [`AppModel::deletion_done`].
    pub fn deletion_done(&mut self, failed: &Vec<String>)
        ensures
            final(self)@ == old(self)@.deletion_done(failed.deep_view().to_set()),
    {
        self.selections.retain_in(self.focus_dir.path(), failed);
    }

    /// Shows the message that asks to confirm the deletion; see
    /// [`AppModel::show_deletion_msg`].
    pub fn show_deletion_msg(&mut self)
        ensures
            final(self)@ == old(self)@.show_deletion_msg(),
    {
        let selections_len = self.selections.count_in(self.focus_dir.path());
        if selections_len != 0 {
            let mut message = String::from_str("Confirm deletion of ");
            message.append(decimal_text(selections_len).as_str());
            message.append(" files? [y/N]");
            self.message = Some(message);
            return ;
        }
        match self.current() {
            Some(c) => {
                let mut message = String::from_str("Confirm deletion of \"");
                message.append(c.entry.name.as_str());
                message.append("\" [y/N]");
                self.message = Some(message);
            },
            None => {},
        }
    }

    /// Starts the typing of a rename of the entry under the cursor; see
    /// [`AppModel::show_rename_msg`].
    pub fn show_rename_msg(&mut self)
        ensures
            final(self)@ == old(self)@.show_rename_msg(),
    {
        match self.current() {
            Some(c) => {
                let mut message = String::from_str("Rename \"");
                message.append(c.entry.name.as_str());
                message.append("\" to: ");
                self.message = Some(message);
                self.input = Some(Input::new());
                self.rename_target = Some(c.entry.path);
            },
            None => {},
        }
    }

    /// Clears the message line.
    pub fn clear_msg(&mut self)
        ensures
            final(self)@ == (AppModel { message: None, ..old(self)@ }),
    {
        self.message = None;
    }

    /// Types `ch` into the buffer, if a rename is being typed.
    pub fn insert_char(&mut self, ch: char)
        ensures
            final(self)@ == old(self)@.insert_char(ch),
    {
        match self.input.take() {
            Some(mut input) => {
                input.insert_char(ch);
                self.input = Some(input);
            },
            None => {},
        }
    }

    /// Deletes the character before the cursor of the buffer, if a rename
    /// is being typed.
    pub fn delete_char(&mut self)
        ensures
            final(self)@ == old(self)@.delete_char(),
    {
        match self.input.take() {
            Some(mut input) => {
                input.delete_char();
                self.input = Some(input);
            },
            None => {},
        }
    }

    /// Moves the cursor of the buffer, if a rename is being typed.
    pub fn move_input_cursor(&mut self, move_right: bool)
        ensures
            final(self)@ == old(self)@.move_input_cursor(move_right),
    {
        match self.input.take() {
            Some(mut input) => {
                input.move_cursor(move_right);
                self.input = Some(input);
            },
            None => {},
        }
    }

    /// Ends the typing of a rename and hands out the rename that was asked
    /// for, the path to rename and the text typed; see
    /// [`AppModel::rename_request`]. The renaming is the caller's part.
    pub fn terminate_input(&mut self) -> (r: Option<(String, String)>)
        ensures
            r.deep_view() == old(self)@.rename_request(),
            final(self)@ == old(self)@.without_input(),
    {
        match (self.rename_target.take(), self.input.take()) {
            (Some(from), Some(input)) => Some((from, input.content)),
            _ => None,
        }
    }

    /// Drops the rename that is being typed, if one is.
    pub fn cancel_input(&mut self)
        ensures
            final(self)@ == old(self)@.without_input(),
    {
        self.input = None;
        self.rename_target = None;
    }
}

} // verus!
