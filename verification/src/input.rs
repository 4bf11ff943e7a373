//! The text buffer that a rename is typed into.

use vstd::prelude::*;
use vstd::string::{StrSliceExecFns, StringExecFns};

use crate::text::push_char;

verus! {

/// An editable text with a cursor. The cursor counts characters, not bytes,
/// so the buffer is safe for characters of any width.
#[derive(Debug, PartialEq, Eq)]
pub struct Input {
    pub content: String,
    pub char_idx: usize,
}

/// The mathematical value of an [`Input`].
pub struct InputModel {
    pub content: Seq<char>,
    pub char_idx: nat,
}

impl InputModel {
    /// The empty buffer, cursor at the start.
    pub open spec fn empty() -> InputModel {
        InputModel { content: Seq::empty(), char_idx: 0 }
    }

    /// The position nearest to `pos` that lies within the text.
    pub open spec fn clamp_cursor(self, pos: nat) -> nat {
        if pos <= self.content.len() {
            pos
        } else {
            self.content.len()
        }
    }

    /// The buffer with the cursor one character to the right or to the
    /// left, where the text has room for it.
    pub open spec fn move_cursor(self, move_right: bool) -> InputModel {
        let target = if move_right {
            self.char_idx + 1
        } else if self.char_idx > 0 {
            (self.char_idx - 1) as nat
        } else {
            0
        };
        InputModel { content: self.content, char_idx: self.clamp_cursor(target) }
    }

    /// The buffer with `ch` put in at the cursor, and the cursor behind it.
    pub open spec fn insert_char(self, ch: char) -> InputModel {
        let at = self.clamp_cursor(self.char_idx);
        InputModel {
            content: self.content.insert(at as int, ch),
            char_idx: self.char_idx,
        }.move_cursor(true)
    }

    /// The buffer without the character before the cursor, and the cursor
    /// one to the left. At the start of the text nothing changes.
    pub open spec fn delete_char(self) -> InputModel {
        if self.char_idx == 0 {
            self
        } else {
            let before = self.clamp_cursor((self.char_idx - 1) as nat);
            let after = self.clamp_cursor(self.char_idx);
            InputModel {
                content: self.content.take(before as int) + self.content.skip(after as int),
                char_idx: self.char_idx,
            }.move_cursor(false)
        }
    }
}

impl InputModel {
    /// Whether the cursor lies within the text or at its end.
    pub open spec fn cursor_in_text(self) -> bool {
        self.char_idx <= self.content.len()
    }

    /// Whatever is done to the buffer, the cursor ends up within the text.
    pub proof fn lemma_cursor_stays_in_text(self, ch: char, move_right: bool)
        ensures
            self.move_cursor(move_right).cursor_in_text(),
            self.insert_char(ch).cursor_in_text(),
            self.delete_char().cursor_in_text() || self.char_idx == 0,
            self.cursor_in_text() ==> self.delete_char().cursor_in_text(),
    {
    }

    /// Typing a character and deleting it again leaves the buffer as it was.
    pub proof fn lemma_delete_undoes_insert(self, ch: char)
        requires
            self.cursor_in_text(),
        ensures
            self.insert_char(ch).delete_char() == self,
    {
        let at = self.char_idx as int;
        let typed = self.content.insert(at, ch);
        assert(typed.take(at) + typed.skip(at + 1) =~= self.content);
    }

    /// Typing a character makes the text one longer and puts the character
    /// just before the cursor.
    pub proof fn lemma_insert_puts_char_before_cursor(self, ch: char)
        requires
            self.cursor_in_text(),
        ensures
            self.insert_char(ch).content.len() == self.content.len() + 1,
            self.insert_char(ch).char_idx == self.char_idx + 1,
            self.insert_char(ch).content[self.char_idx as int] == ch,
    {
    }
}

impl View for Input {
    type V = InputModel;

    open spec fn view(&self) -> InputModel {
        InputModel { content: self.content@, char_idx: self.char_idx as nat }
    }
}

impl DeepView for Input {
    type V = InputModel;

    open spec fn deep_view(&self) -> InputModel {
        self@
    }
}

impl Default for Input {
    fn default() -> (r: Self)
        ensures
            r@ == InputModel::empty(),
    {
        Input::new()
    }
}

impl Input {
    /// An empty buffer.
    pub fn new() -> (r: Self)
        ensures
            r@ == InputModel::empty(),
    {
        Self { content: String::new(), char_idx: 0 }
    }

    /// Moves the cursor one character to the right or to the left; at
    /// either end of the text it stays.
    pub fn move_cursor(&mut self, move_right: bool)
        ensures
            final(self)@ == old(self)@.move_cursor(move_right),
    {
        let new_idx = if move_right {
            self.char_idx.saturating_add(1)
        } else {
            self.char_idx.saturating_sub(1)
        };
        self.char_idx = self.clamp_cursor(new_idx);
    }

    /// Puts `ch` in at the cursor and moves the cursor behind it.
    pub fn insert_char(&mut self, ch: char)
        ensures
            final(self)@ == old(self)@.insert_char(ch),
    {
        let len = self.content.as_str().unicode_len();
        let at = self.clamp_cursor(self.char_idx);
        let mut content = String::from_str(self.content.as_str().substring_char(0, at));
        push_char(&mut content, ch);
        content.append(self.content.as_str().substring_char(at, len));
        self.content = content;
        self.move_cursor(true);
    }

    /// Deletes the character before the cursor and moves the cursor one to
    /// the left. At the start of the text nothing happens.
    pub fn delete_char(&mut self)
        ensures
            final(self)@ == old(self)@.delete_char(),
    {
        if self.char_idx != 0 {
            let len = self.content.as_str().unicode_len();
            let before = self.clamp_cursor(self.char_idx - 1);
            let after = self.clamp_cursor(self.char_idx);
            let mut content = String::from_str(self.content.as_str().substring_char(0, before));
            content.append(self.content.as_str().substring_char(after, len));
            assert(content@ =~= old(self)@.content.take(before as int) + old(self)@.content.skip(
                after as int,
            ));
            self.content = content;
            self.move_cursor(false);
        }
    }

    /// The position nearest to `new_cursor_pos` that lies within the text.
    fn clamp_cursor(&self, new_cursor_pos: usize) -> (r: usize)
        ensures
            r == self@.clamp_cursor(new_cursor_pos as nat),
            self@.content.len() <= usize::MAX,
    {
        let len = self.content.as_str().unicode_len();
        if new_cursor_pos <= len {
            new_cursor_pos
        } else {
            len
        }
    }

    /// Empties the buffer and puts the cursor at the start.
    pub fn reset(&mut self)
        ensures
            final(self)@ == InputModel::empty(),
    {
        self.char_idx = 0;
        self.content = String::new();
    }
}

} // verus!
