//! The state of the browser as a mathematical value, the steps it can
//! take, and what holds of them.

use vstd::prelude::*;

use crate::app::PARENT_FILL;
use crate::directory_entry::ListingModel;
use crate::entry::{EntryKind, EntryModel, FilesystemError};
use crate::input::InputModel;
use crate::selection::{
    keeping, lemma_toggle_once, lemma_toggle_twice, marks_in, toggled, MarkSet,
};
use crate::text::decimal;

verus! {

/// The mathematical value of an [`AppCursor`].
pub struct CursorModel {
    pub entry: EntryModel,
    pub idx: nat,
}

/// The mathematical value of a [`HistoryEntry`].
pub struct HistoryModel {
    pub path: Seq<char>,
    pub idx: nat,
}

/// The mathematical value of a [`Deletion`].
pub enum DeletionModel {
    Nothing,
    Marked(Set<Seq<char>>),
    Cursor(EntryModel),
}

/// The mathematical value of an [`App`].
pub struct AppModel {
    pub running: bool,
    pub message: Option<Seq<char>>,
    pub parent_constraint: u16,
    pub parent_needs_reset: bool,
    pub focus_dir: ListingModel,
    pub parent_dir: Option<ListingModel>,
    pub path_stack: Seq<HistoryModel>,
    pub forward_stack: Seq<HistoryModel>,
    pub selections: MarkSet,
    pub app_cursor: Option<CursorModel>,
    pub wrap: bool,
    pub input: Option<InputModel>,
    pub rename_target: Option<Seq<char>>,
}

/// The message that asks to confirm the deletion of `n` marked entries.
pub open spec fn deletion_count_msg(n: nat) -> Seq<char> {
    "Confirm deletion of "@ + decimal(n) + " files? [y/N]"@
}

/// The message that asks to confirm the deletion of the entry called `name`.
pub open spec fn deletion_entry_msg(name: Seq<char>) -> Seq<char> {
    "Confirm deletion of \""@ + name + "\" [y/N]"@
}

/// The message that prompts for the new name of the entry called `name`.
pub open spec fn rename_msg(name: Seq<char>) -> Seq<char> {
    "Rename \""@ + name + "\" to: "@
}

impl AppModel {
    /// The cursor at position `idx` of `listing`, or at the nearest
    /// position that the listing has; none on an empty listing.
    pub open spec fn place(listing: ListingModel, idx: int) -> Option<CursorModel> {
        let n = listing.contents.len();
        if n == 0 {
            None
        } else {
            let i = if idx < 0 {
                0
            } else if idx < n {
                idx
            } else {
                n - 1
            };
            Some(CursorModel { entry: listing.contents[i], idx: i as nat })
        }
    }

    /// What the cursor is on. The position counts, not the entry kept with
    /// it: where the listing has changed under the cursor, the cursor is on
    /// what the listing now holds at its position, or on the last entry if
    /// the listing has become shorter than that.
    pub open spec fn current(self) -> Option<CursorModel> {
        match self.app_cursor {
            Some(c) => Self::place(self.focus_dir, c.idx as int),
            None => None,
        }
    }

    /// Whether the cursor, if there is one, stands on an entry of the focus
    /// listing and holds that entry.
    pub open spec fn cursor_in_sync(self) -> bool {
        match self.app_cursor {
            Some(c) => c.idx < self.focus_dir.contents.len()
                && self.focus_dir.contents[c.idx as int] == c.entry,
            None => true,
        }
    }

    /// The position of the cursor; 0 while there is none.
    pub open spec fn position(self) -> nat {
        match self.current() {
            Some(c) => c.idx,
            None => 0,
        }
    }

    /// The state in which a session starts: the cursor on the first entry,
    /// wrapping, no marks, no message, nothing being typed.
    pub open spec fn start(
        focus_dir: ListingModel,
        parent_dir: Option<ListingModel>,
        path_stack: Seq<HistoryModel>,
    ) -> AppModel {
        AppModel {
            running: true,
            message: None,
            parent_constraint: PARENT_FILL,
            parent_needs_reset: false,
            focus_dir,
            parent_dir,
            path_stack,
            forward_stack: Seq::empty(),
            selections: MarkSet::empty(),
            app_cursor: Self::place(focus_dir, 0),
            wrap: true,
            input: None,
            rename_target: None,
        }
    }

    /// The state with the cursor one entry up. At the first entry the
    /// cursor goes to the last one if it wraps, and stays if not. A cursor
    /// beyond the end of the listing comes back to the last entry. On an
    /// empty listing the cursor goes away; without a cursor nothing changes.
    pub open spec fn move_up(self) -> AppModel {
        match self.app_cursor {
            Some(c) => {
                let n = self.focus_dir.contents.len();
                let i = c.idx as int;
                let target = if i >= n {
                    n - 1
                } else if i > 0 {
                    i - 1
                } else if self.wrap {
                    n - 1
                } else {
                    0
                };
                AppModel { app_cursor: Self::place(self.focus_dir, target), ..self }
            },
            None => self,
        }
    }

    /// The state with the cursor one entry down. At the last entry, or
    /// beyond it, the cursor goes to the first one if it wraps, and to the
    /// last if not. On an empty listing the cursor goes away; without a
    /// cursor nothing changes.
    pub open spec fn move_down(self) -> AppModel {
        match self.app_cursor {
            Some(c) => {
                let n = self.focus_dir.contents.len();
                let i = c.idx as int;
                let target = if i + 1 < n {
                    i + 1
                } else if self.wrap {
                    0
                } else {
                    n - 1
                };
                AppModel { app_cursor: Self::place(self.focus_dir, target), ..self }
            },
            None => self,
        }
    }

    /// Whether the browser can descend, given the outcome of listing a
    /// directory: the cursor is on something other than a regular file, and
    /// the listing is that of the entry under the cursor.
    pub open spec fn can_enter(self, outcome: Result<ListingModel, FilesystemError>) -> bool {
        match (self.current(), outcome) {
            (Some(c), Ok(listing)) => c.entry.kind != EntryKind::File && listing.path
                == c.entry.path,
            _ => false,
        }
    }

    /// The state after a descent into the entry under the cursor, given the
    /// outcome of listing it. Where the browser cannot descend, nothing
    /// changes. Where it can: the directory that is left goes onto the back
    /// stack with the position of the cursor, and becomes the parent; the
    /// listing becomes the focus; the top of the forward stack is taken off,
    /// and the cursor goes to the position kept there if that step was into
    /// this same directory, and to the first entry otherwise; a collapsed
    /// parent pane gets its default share again.
    pub open spec fn move_into(self, outcome: Result<ListingModel, FilesystemError>) -> AppModel {
        if self.can_enter(outcome) {
            let c = self.current()->Some_0;
            let listing = outcome->Ok_0;
            let again = self.forward_stack.len() > 0 && self.forward_stack.last().path
                == listing.path;
            let idx = if again {
                self.forward_stack.last().idx
            } else {
                0
            };
            AppModel {
                path_stack: self.path_stack.push(
                    HistoryModel { path: self.focus_dir.path, idx: c.idx },
                ),
                forward_stack: if self.forward_stack.len() > 0 {
                    self.forward_stack.drop_last()
                } else {
                    self.forward_stack
                },
                parent_dir: Some(self.focus_dir),
                focus_dir: listing,
                app_cursor: Self::place(listing, idx as int),
                parent_constraint: if self.parent_needs_reset {
                    PARENT_FILL
                } else {
                    self.parent_constraint
                },
                ..self
            }
        } else {
            self
        }
    }

    /// Whether `parent` is what stands one level above `listing`: no
    /// listing where `listing` has no parent, and else the listing of that parent.
    pub open spec fn parent_fits(listing: ListingModel, parent: Option<ListingModel>) -> bool {
        match (listing.parent, parent) {
            (None, None) => true,
            (Some(path), Some(p)) => p.path == path,
            _ => false,
        }
    }

    /// Whether the browser can go back, given the outcomes of listing a
    /// directory and its parent: the back stack is not empty, the first
    /// listing is that of the directory on top of it, and the second fits
    /// the first.
    pub open spec fn can_leave(
        self,
        outcome: Result<ListingModel, FilesystemError>,
        parent_outcome: Result<Option<ListingModel>, FilesystemError>,
    ) -> bool {
        &&& self.path_stack.len() > 0
        &&& outcome is Ok
        &&& outcome->Ok_0.path == self.path_stack.last().path
        &&& parent_outcome is Ok
        &&& Self::parent_fits(outcome->Ok_0, parent_outcome->Ok_0)
    }

    /// The state after going back to the directory on top of the back
    /// stack, given the outcomes of listing it and its parent. Where the
    /// browser cannot go back, nothing changes. Where it can: the top of
    /// the back stack is taken off; the directory that is left goes onto
    /// the forward stack with the position of the cursor; the listings
    /// become focus and parent; the cursor goes to the position kept with
    /// the step taken off; without a parent the parent pane collapses.
    pub open spec fn move_back(
        self,
        outcome: Result<ListingModel, FilesystemError>,
        parent_outcome: Result<Option<ListingModel>, FilesystemError>,
    ) -> AppModel {
        if self.can_leave(outcome, parent_outcome) {
            let listing = outcome->Ok_0;
            let parent = parent_outcome->Ok_0;
            let here = match self.current() {
                Some(c) => c.idx,
                None => 0,
            };
            AppModel {
                forward_stack: self.forward_stack.push(
                    HistoryModel { path: self.focus_dir.path, idx: here },
                ),
                path_stack: self.path_stack.drop_last(),
                focus_dir: listing,
                parent_dir: parent,
                app_cursor: Self::place(listing, self.path_stack.last().idx as int),
                parent_constraint: if parent is None {
                    0
                } else {
                    self.parent_constraint
                },
                parent_needs_reset: parent is None || self.parent_needs_reset,
                ..self
            }
        } else {
            self
        }
    }

    /// The marked entries of the focus directory.
    pub open spec fn current_selections(self) -> Set<Seq<char>> {
        marks_in(self.selections, self.focus_dir.path)
    }

    /// The state with the mark on the entry under the cursor flipped;
    /// without a cursor nothing changes.
    pub open spec fn toggle_selection_on_cursor(self) -> AppModel {
        match self.current() {
            Some(c) => AppModel {
                selections: toggled(self.selections, self.focus_dir.path, c.entry.path),
                ..self
            },
            None => self,
        }
    }

    /// What a confirmed deletion is to delete: the marked entries of the
    /// focus directory if there are any, else the entry under the cursor.
    pub open spec fn deletion(self) -> DeletionModel {
        if !self.current_selections().is_empty() {
            DeletionModel::Marked(self.current_selections())
        } else {
            match self.current() {
                Some(c) => DeletionModel::Cursor(c.entry),
                None => DeletionModel::Nothing,
            }
        }
    }

    /// The state after a deletion of which the entries with the paths
    /// `failed` could not be deleted: of the marks of the focus directory
    /// those on the failed entries stay.
    pub open spec fn deletion_done(self, failed: Set<Seq<char>>) -> AppModel {
        AppModel { selections: keeping(self.selections, self.focus_dir.path, failed), ..self }
    }

    /// The state with the message that asks to confirm the deletion: it
    /// names the number of marked entries if there are any, else the entry
    /// under the cursor; with neither, the message stays as it is.
    pub open spec fn show_deletion_msg(self) -> AppModel {
        if !self.current_selections().is_empty() {
            AppModel {
                message: Some(deletion_count_msg(self.current_selections().len())),
                ..self
            }
        } else {
            match self.current() {
                Some(c) => AppModel { message: Some(deletion_entry_msg(c.entry.name)), ..self },
                None => self,
            }
        }
    }

    /// The state in which a rename of the entry under the cursor is being
    /// typed: the message prompts for the new name, the buffer is empty,
    /// and the path to rename is kept. Without a cursor nothing changes.
    pub open spec fn show_rename_msg(self) -> AppModel {
        match self.current() {
            Some(c) => AppModel {
                message: Some(rename_msg(c.entry.name)),
                input: Some(InputModel::empty()),
                rename_target: Some(c.entry.path),
                ..self
            },
            None => self,
        }
    }

    /// The state with `ch` typed into the buffer, if there is one.
    pub open spec fn insert_char(self, ch: char) -> AppModel {
        match self.input {
            Some(input) => AppModel { input: Some(input.insert_char(ch)), ..self },
            None => self,
        }
    }

    /// The state with the character before the cursor of the buffer
    /// deleted, if there is a buffer.
    pub open spec fn delete_char(self) -> AppModel {
        match self.input {
            Some(input) => AppModel { input: Some(input.delete_char()), ..self },
            None => self,
        }
    }

    /// The state with the cursor of the buffer moved, if there is a buffer.
    pub open spec fn move_input_cursor(self, move_right: bool) -> AppModel {
        match self.input {
            Some(input) => AppModel { input: Some(input.move_cursor(move_right)), ..self },
            None => self,
        }
    }

    /// The rename that the buffer asks for: from the path that was kept to
    /// the text typed. None where no rename is being typed.
    pub open spec fn rename_request(self) -> Option<(Seq<char>, Seq<char>)> {
        match (self.rename_target, self.input) {
            (Some(from), Some(input)) => Some((from, input.content)),
            _ => None,
        }
    }

    /// The state with no rename being typed.
    pub open spec fn without_input(self) -> AppModel {
        AppModel { input: None, rename_target: None, ..self }
    }

    /// Whether this state is what a tick at `now` may leave of `prev`,
    /// given what was read of the two directories: each listing refreshed
    /// where one was read and due, and all else as it was.
    pub open spec fn is_tick_of(
        self,
        prev: AppModel,
        parent_read: Option<Result<Seq<EntryModel>, FilesystemError>>,
        focus_read: Option<Result<Seq<EntryModel>, FilesystemError>>,
        now: nat,
    ) -> bool {
        &&& self == (AppModel { focus_dir: self.focus_dir, parent_dir: self.parent_dir, ..prev })
        &&& match focus_read {
            Some(read) => self.focus_dir.is_update_of(prev.focus_dir, read, now),
            None => self.focus_dir == prev.focus_dir,
        }
        &&& match (prev.parent_dir, parent_read) {
            (Some(p), Some(read)) => self.parent_dir is Some
                && self.parent_dir->Some_0.is_update_of(p, read, now),
            _ => self.parent_dir == prev.parent_dir,
        }
    }

    /// After a move up or down the cursor is gone or stands on an entry of
    /// the focus listing, whatever the state was before; it is gone exactly
    /// if there was none or the listing is empty.
    pub proof fn lemma_moves_sync_cursor(self)
        ensures
            self.move_up().cursor_in_sync(),
            self.move_down().cursor_in_sync(),
            self.move_up().app_cursor is Some <==> self.app_cursor is Some
                && self.focus_dir.contents.len() > 0,
            self.move_down().app_cursor is Some <==> self.app_cursor is Some
                && self.focus_dir.contents.len() > 0,
    {
    }

    /// Away from the ends of the listing the cursor moves by one.
    pub proof fn lemma_moves_step(self)
        requires
            self.cursor_in_sync(),
            self.app_cursor is Some,
        ensures
            self.position() > 0 ==> self.move_up().position() == self.position() - 1,
            self.position() + 1 < self.focus_dir.contents.len() ==> self.move_down().position()
                == self.position() + 1,
    {
    }

    /// At the ends of the listing: with wrapping, a move up from the first
    /// entry leads to the last, and a move down from the last to the first;
    /// without wrapping both leave the state as it is.
    pub proof fn lemma_cursor_bounds(self)
        requires
            self.cursor_in_sync(),
            self.app_cursor is Some,
        ensures
            self.wrap && self.position() == 0 ==> self.move_up().position()
                == self.focus_dir.contents.len() - 1,
            self.wrap && self.position() == self.focus_dir.contents.len() - 1
                ==> self.move_down().position() == 0,
            !self.wrap && self.position() == 0 ==> self.move_up() == self,
            !self.wrap && self.position() == self.focus_dir.contents.len() - 1 ==> self.move_down()
                == self,
    {
    }

    /// A descent followed by a step back leads to the directory that was
    /// left, and puts the cursor where it was, as long as that directory
    /// still has an entry there.
    pub proof fn lemma_history_symmetry(
        self,
        child: ListingModel,
        focus_again: ListingModel,
        parent_again: Option<ListingModel>,
    )
        requires
            self.can_enter(Ok(child)),
            focus_again.path == self.focus_dir.path,
            Self::parent_fits(focus_again, parent_again),
            self.position() < focus_again.contents.len(),
        ensures
            self.move_into(Ok(child)).can_leave(Ok(focus_again), Ok(parent_again)),
            self.move_into(Ok(child)).move_back(Ok(focus_again), Ok(parent_again)).focus_dir
                == focus_again,
            self.move_into(Ok(child)).move_back(Ok(focus_again), Ok(parent_again)).position()
                == self.position(),
            self.move_into(Ok(child)).move_back(Ok(focus_again), Ok(parent_again)).path_stack
                == self.path_stack,
            focus_again == self.focus_dir ==> self.move_into(Ok(child)).move_back(
                Ok(focus_again),
                Ok(parent_again),
            ).app_cursor == self.current(),
    {
        let inside = self.move_into(Ok(child));
        assert(inside.path_stack.last() == HistoryModel {
            path: self.focus_dir.path,
            idx: self.position(),
        });
    }

    /// A step back followed by a descent into the directory that was left
    /// puts the cursor where it was in that directory, as long as the
    /// directory still has an entry there.
    pub proof fn lemma_forward_reuse(
        self,
        focus_back: ListingModel,
        parent_back: Option<ListingModel>,
        child_again: ListingModel,
    )
        requires
            self.can_leave(Ok(focus_back), Ok(parent_back)),
            self.move_back(Ok(focus_back), Ok(parent_back)).can_enter(Ok(child_again)),
            child_again.path == self.focus_dir.path,
            self.position() < child_again.contents.len(),
        ensures
            self.move_back(Ok(focus_back), Ok(parent_back)).move_into(Ok(child_again)).focus_dir
                == child_again,
            self.move_back(Ok(focus_back), Ok(parent_back)).move_into(Ok(child_again)).position()
                == self.position(),
            self.move_back(Ok(focus_back), Ok(parent_back)).move_into(
                Ok(child_again),
            ).forward_stack == self.forward_stack,
    {
        let outside = self.move_back(Ok(focus_back), Ok(parent_back));
        assert(outside.forward_stack.last() == HistoryModel {
            path: self.focus_dir.path,
            idx: self.position(),
        });
    }

    /// Flipping the mark under the cursor twice leaves the state as it was.
    pub proof fn lemma_toggle_selection_twice(self)
        ensures
            self.toggle_selection_on_cursor().toggle_selection_on_cursor() == self,
    {
        match self.current() {
            Some(c) => {
                lemma_toggle_twice(self.selections, self.focus_dir.path, c.entry.path);
            },
            None => {},
        }
    }

    /// Flipping the mark under the cursor once, with no marks set, leaves
    /// exactly the entry under the cursor marked in the focus directory.
    pub proof fn lemma_toggle_selection_once(self)
        requires
            self.selections == MarkSet::empty(),
            self.current() is Some,
        ensures
            self.toggle_selection_on_cursor().current_selections() == set![
                self.current()->Some_0.entry.path,
            ],
    {
        lemma_toggle_once(self.focus_dir.path, self.current()->Some_0.entry.path);
    }

    /// After a deletion, of the marks of the focus directory exactly those
    /// are left whose entries could not be deleted, and the marks of every
    /// other directory are as they were.
    pub proof fn lemma_deletion_keeps_failed(self, failed: Set<Seq<char>>)
        ensures
            self.deletion_done(failed).current_selections() == self.current_selections().intersect(
                failed,
            ),
            forall|dir: Seq<char>|
                dir != self.focus_dir.path ==> #[trigger] marks_in(
                    self.deletion_done(failed).selections,
                    dir,
                ) == marks_in(self.selections, dir),
    {
        assert(self.deletion_done(failed).current_selections()
            =~= self.current_selections().intersect(failed));
        assert forall|dir: Seq<char>| dir != self.focus_dir.path implies #[trigger] marks_in(
            self.deletion_done(failed).selections,
            dir,
        ) == marks_in(self.selections, dir) by {
            assert(marks_in(self.deletion_done(failed).selections, dir) =~= marks_in(
                self.selections,
                dir,
            ));
        }
    }
}

} // verus!
