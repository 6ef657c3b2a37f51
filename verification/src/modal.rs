//! The single-line input of a dialog: one line of text and a column, with
//! no line breaks and no history.

use crate::strings::chars_of;
use vstd::prelude::*;

verus! {

/// The mathematical model of a [`Modal`].
pub struct LineEditor {
    pub name: Seq<char>,
    pub line: Seq<char>,
    pub col: nat,
}

impl LineEditor {
    /// The invariant of a line editor: the column is on the line or just
    /// past its end.
    pub open spec fn well_formed(self) -> bool {
        self.col <= self.line.len()
    }

    /// Left by `delta` columns; nothing moves when fewer than `delta`
    /// columns lie to the left.
    pub open spec fn move_left(self, delta: nat) -> LineEditor {
        if delta <= self.col {
            LineEditor { col: (self.col - delta) as nat, ..self }
        } else {
            self
        }
    }

    /// Right by `delta` columns, stopping at the end of the line.
    pub open spec fn move_right(self, delta: nat) -> LineEditor {
        let target = self.col + delta;
        LineEditor { col: if target <= self.line.len() { target } else { self.line.len() }, ..self }
    }

    pub open spec fn move_start_of_line(self) -> LineEditor {
        LineEditor { col: 0, ..self }
    }

    pub open spec fn move_end_of_line(self) -> LineEditor {
        LineEditor { col: self.line.len(), ..self }
    }

    /// `ch` goes in at the column, and the column steps over it.
    pub open spec fn insert_char(self, ch: char) -> LineEditor {
        LineEditor { line: self.line.insert(self.col as int, ch), col: self.col + 1, ..self }
    }

    /// `text` goes in at the column, and the column steps over it.
    pub open spec fn insert(self, text: Seq<char>) -> LineEditor {
        LineEditor {
            line: self.line.take(self.col as int) + text + self.line.skip(self.col as int),
            col: self.col + text.len(),
            ..self
        }
    }

    /// The character at the column goes; at the end of the line nothing
    /// changes.
    pub open spec fn remove_at(self) -> LineEditor {
        if self.col < self.line.len() {
            LineEditor { line: self.line.remove(self.col as int), ..self }
        } else {
            self
        }
    }

    /// The character before the column goes and the column steps back; at
    /// the start of the line nothing changes.
    pub open spec fn remove_before(self) -> LineEditor {
        if self.col > 0 {
            LineEditor {
                line: self.line.remove(self.col - 1),
                col: (self.col - 1) as nat,
                ..self
            }
        } else {
            self
        }
    }
}

/// A named single-line text input.
#[derive(PartialEq, Eq, Debug)]
pub struct Modal {
    pub name: String,
    pub line: Vec<char>,
    pub col: usize,
}

impl View for Modal {
    type V = LineEditor;

    open spec fn view(&self) -> LineEditor {
        LineEditor { name: self.name@, line: self.line@, col: self.col as nat }
    }
}

impl Modal {
    /// The invariant that `new` establishes and every method keeps.
    pub open spec fn well_formed(&self) -> bool {
        self@.well_formed()
    }

    /// An input named `name` with an empty line.
    pub fn new(name: String) -> (modal: Modal)
        ensures
            modal.well_formed(),
            modal@ == (LineEditor { name: name@, line: Seq::<char>::empty(), col: 0 }),
    {
        Modal { name, line: Vec::new(), col: 0 }
    }

    pub fn move_cursor_left(&mut self, delta: usize)
        requires
            old(self).well_formed(),
        ensures
            final(self).well_formed(),
            final(self)@ == old(self)@.move_left(delta as nat),
            delta > old(self).col ==> *final(self) == *old(self),
    {
        if delta <= self.col {
            self.col -= delta;
        }
    }

    pub fn move_end_of_line(&mut self)
        requires
            old(self).well_formed(),
        ensures
            final(self).well_formed(),
            final(self)@ == old(self)@.move_end_of_line(),
    {
        self.col = self.line.len();
    }

    pub fn move_start_of_line(&mut self)
        requires
            old(self).well_formed(),
        ensures
            final(self).well_formed(),
            final(self)@ == old(self)@.move_start_of_line(),
    {
        self.col = 0;
    }

    pub fn move_cursor_right(&mut self, delta: usize)
        requires
            old(self).well_formed(),
        ensures
            final(self).well_formed(),
            final(self)@ == old(self)@.move_right(delta as nat),
    {
        let end = self.line.len();
        if delta <= end - self.col {
            self.col += delta;
        } else {
            self.col = end;
        }
    }

    pub fn insert_char(&mut self, ch: char)
        requires
            old(self).well_formed(),
        ensures
            final(self).well_formed(),
            final(self)@ == old(self)@.insert_char(ch),
    {
        self.line.insert(self.col, ch);
        assert(self.col < self.line.len() <= usize::MAX);
        self.col += 1;
    }

    /// Puts `text` in at the column and hands the input back with the
    /// column just after the text.
    pub fn insert(self, text: &str) -> (modal: Modal)
        requires
            self.well_formed(),
        ensures
            modal.well_formed(),
            modal@ == self@.insert(text@),
    {
        let mut modal = self;
        let mut tail = modal.line.split_off(modal.col);
        let mut chars = chars_of(text);
        let count = chars.len();
        modal.line.append(&mut chars);
        modal.line.append(&mut tail);
        assert(modal.col + count <= modal.line.len() <= usize::MAX);
        modal.col += count;
        modal
    }

    /// Like a "delete", removes the character under the cursor; at the end
    /// of the line there is none, and nothing changes.
    pub fn remove_at(&mut self)
        requires
            old(self).well_formed(),
        ensures
            final(self).well_formed(),
            final(self)@ == old(self)@.remove_at(),
            old(self).col == old(self).line.len() ==> *final(self) == *old(self),
    {
        if self.col < self.line.len() {
            self.line.remove(self.col);
        }
    }

    /// Like "backspace", removes the character before the cursor; at the
    /// start of the line there is none, and nothing changes.
    pub fn remove_before(&mut self)
        requires
            old(self).well_formed(),
        ensures
            final(self).well_formed(),
            final(self)@ == old(self)@.remove_before(),
            old(self).col == 0 ==> *final(self) == *old(self),
    {
        if self.col > 0 {
            self.line.remove(self.col - 1);
            self.col -= 1;
        }
    }
}

} // verus!
