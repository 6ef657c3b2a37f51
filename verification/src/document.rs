//! The mathematical model of a buffer: its lines, its cursor and its two
//! history stacks, with every buffer operation as a function on that model.

use crate::cursor::Position;
use crate::operation::{LineCombination, Operation};
use crate::text::valid_position;
use vstd::prelude::*;

verus! {

/// Every entry of `stack`, taken from the top (the last entry) downwards,
/// can be taken back in turn, starting from `lines`.
pub open spec fn undoable(lines: Seq<Seq<char>>, stack: Seq<Operation>) -> bool
    decreases stack.len(),
{
    stack.len() > 0 ==> stack.last().revertible(lines) && undoable(
        stack.last().revert(lines),
        stack.drop_last(),
    )
}

/// Every entry of `stack`, taken from the top (the last entry) downwards,
/// can be applied again in turn, starting from `lines`.
pub open spec fn redoable(lines: Seq<Seq<char>>, stack: Seq<Operation>) -> bool
    decreases stack.len(),
{
    stack.len() > 0 ==> stack.last().replayable(lines) && redoable(
        stack.last().replay(lines),
        stack.drop_last(),
    )
}

/// A document being edited.
pub struct Document {
    pub name: Seq<char>,
    /// The text, one entry per line, without line terminators.
    pub lines: Seq<Seq<char>>,
    pub cursor: Position,
    /// The edits that can be undone, the latest last.
    pub undo_stack: Seq<Operation>,
    /// The edits that were undone and can be redone, the latest undone last.
    pub redo_stack: Seq<Operation>,
}

impl Document {
    /// The invariant of a document: it has at least one line, the cursor
    /// stands on a line at or before its end, and both histories fit the
    /// text (which also means that neither holds a `NoOp`).
    pub open spec fn well_formed(self) -> bool {
        &&& self.lines.len() > 0
        &&& valid_position(self.lines, self.cursor)
        &&& undoable(self.lines, self.undo_stack)
        &&& redoable(self.lines, self.redo_stack)
    }

    /// The line the cursor is on.
    pub open spec fn current_line(self) -> Seq<char> {
        self.lines[self.cursor.line as int]
    }

    /// The same document with the cursor at `p`.
    pub open spec fn with_cursor(self, p: Position) -> Document {
        Document { cursor: p, ..self }
    }

    /// The cursor on line `line`, in the column it is in now or at the end
    /// of that line, whichever comes first.
    pub open spec fn cursor_on_line(self, line: nat) -> Position {
        let len = self.lines[line as int].len();
        Position { line, col: if self.cursor.col <= len { self.cursor.col } else { len } }
    }

    // Navigation

    /// Up by `delta` lines, keeping the column where the new line is long
    /// enough; nothing moves when fewer than `delta` lines lie above.
    pub open spec fn move_up(self, delta: nat) -> Document {
        if delta <= self.cursor.line {
            self.with_cursor(self.cursor_on_line((self.cursor.line - delta) as nat))
        } else {
            self
        }
    }

    /// Down by `delta` lines, stopping at the last line, keeping the column
    /// where the new line is long enough.
    pub open spec fn move_down(self, delta: nat) -> Document {
        let last = (self.lines.len() - 1) as nat;
        let target = self.cursor.line + delta;
        self.with_cursor(self.cursor_on_line(if target <= last { target } else { last }))
    }

    /// Left by `delta` columns; nothing moves when fewer than `delta`
    /// columns lie to the left.
    pub open spec fn move_left(self, delta: nat) -> Document {
        if delta <= self.cursor.col {
            self.with_cursor(
                Position { line: self.cursor.line, col: (self.cursor.col - delta) as nat },
            )
        } else {
            self
        }
    }

    /// Right by `delta` columns, stopping at the end of the line.
    pub open spec fn move_right(self, delta: nat) -> Document {
        let end = self.current_line().len();
        let target = self.cursor.col + delta;
        self.with_cursor(
            Position { line: self.cursor.line, col: if target <= end { target } else { end } },
        )
    }

    pub open spec fn move_start_of_line(self) -> Document {
        self.with_cursor(Position { line: self.cursor.line, col: 0 })
    }

    pub open spec fn move_end_of_line(self) -> Document {
        self.with_cursor(Position { line: self.cursor.line, col: self.current_line().len() })
    }

    /// `n` is the number of a line of this document, counted from one.
    pub open spec fn has_line_number(self, n: nat) -> bool {
        1 <= n <= self.lines.len()
    }

    /// The cursor on the line numbered `n` (counted from one), in the column
    /// it is in now or at the end of that line, whichever comes first.
    pub open spec fn go_to_line(self, n: nat) -> Document {
        self.with_cursor(self.cursor_on_line((n - 1) as nat))
    }

    /// The cursor stands at the very end of the document.
    pub open spec fn at_end(self) -> bool {
        self.cursor.line + 1 == self.lines.len() && self.cursor.col == self.current_line().len()
    }

    /// The cursor stands at the very start of the document.
    pub open spec fn at_start(self) -> bool {
        self.cursor.line == 0 && self.cursor.col == 0
    }

    // Editing

    /// What the "delete" key does at the cursor: it removes the character
    /// under the cursor, or at the end of a line pulls the next line up, or
    /// at the end of the document does nothing.
    pub open spec fn forward_delete(self) -> Operation {
        if self.cursor.col < self.current_line().len() {
            Operation::RemoveChar(self.cursor, self.current_line()[self.cursor.col as int], true)
        } else if self.cursor.line + 1 < self.lines.len() {
            Operation::CombineLine(self.cursor, LineCombination::FromEnd)
        } else {
            Operation::NoOp
        }
    }

    /// What the "backspace" key does at the cursor: it removes the character
    /// before the cursor, or at the start of a line pushes the line onto the
    /// end of the one above, or at the start of the document does nothing.
    pub open spec fn backspace(self) -> Operation {
        if self.cursor.col > 0 {
            let at = Position { line: self.cursor.line, col: (self.cursor.col - 1) as nat };
            Operation::RemoveChar(at, self.current_line()[at.col as int], false)
        } else if self.cursor.line > 0 {
            let above = (self.cursor.line - 1) as nat;
            Operation::CombineLine(
                Position { line: above, col: self.lines[above as int].len() },
                LineCombination::FromStart,
            )
        } else {
            Operation::NoOp
        }
    }

    /// The document with the effect of `op` on the lines and the cursor,
    /// and the history as it is. A `NoOp` changes nothing.
    pub open spec fn apply(self, op: Operation) -> Document {
        if op is NoOp {
            self
        } else {
            Document { lines: op.replay(self.lines), cursor: op.cursor_after(), ..self }
        }
    }

    /// The document with the effect of `op` taken back from the lines and
    /// the cursor, and the history as it is. A `NoOp` changes nothing.
    pub open spec fn take_back(self, op: Operation) -> Document {
        if op is NoOp {
            self
        } else {
            Document { lines: op.revert(self.lines), cursor: op.cursor_before(), ..self }
        }
    }

    /// The document with `op` entered into the history as a new edit: it is
    /// the latest that can be undone, and nothing is left to redo. A `NoOp`
    /// is not entered.
    pub open spec fn record(self, op: Operation) -> Document {
        if op is NoOp {
            self
        } else {
            Document {
                undo_stack: self.undo_stack.push(op),
                redo_stack: Seq::empty(),
                ..self
            }
        }
    }

    /// The document after a new edit `op`: the lines and the cursor are as
    /// the edit leaves them, the edit is the latest that can be undone, and
    /// nothing is left to redo. A `NoOp` changes nothing at all.
    pub open spec fn perform(self, op: Operation) -> Document {
        self.apply(op).record(op)
    }

    pub open spec fn insert_char(self, ch: char) -> Document {
        self.perform(Operation::InsertChar(self.cursor, ch))
    }

    pub open spec fn newline(self) -> Document {
        self.perform(Operation::SplitLine(self.cursor))
    }

    pub open spec fn remove_at(self) -> Document {
        self.perform(self.forward_delete())
    }

    pub open spec fn remove_before(self) -> Document {
        self.perform(self.backspace())
    }

    // History

    /// The document with its latest edit taken back: the lines are as they
    /// were before the edit, the cursor is where it stood when the edit was
    /// made, and the edit moves to the redo stack. With nothing to undo the
    /// document stays as it is.
    pub open spec fn undo(self) -> Document {
        if self.undo_stack.len() == 0 {
            self
        } else {
            let op = self.undo_stack.last();
            Document {
                undo_stack: self.undo_stack.drop_last(),
                redo_stack: self.redo_stack.push(op),
                ..self.take_back(op)
            }
        }
    }

    /// The document with the latest undone edit applied again: the lines
    /// and the cursor are as that edit left them, and the edit moves back
    /// to the undo stack. With nothing to redo the document stays as it is.
    pub open spec fn redo(self) -> Document {
        if self.redo_stack.len() == 0 {
            self
        } else {
            let op = self.redo_stack.last();
            Document {
                undo_stack: self.undo_stack.push(op),
                redo_stack: self.redo_stack.drop_last(),
                ..self.apply(op)
            }
        }
    }

    // The invariant is kept

    /// A new edit that can be applied to the lines keeps a document well
    /// formed.
    pub proof fn lemma_perform_well_formed(self, op: Operation)
        requires
            self.well_formed(),
            op is NoOp || op.replayable(self.lines),
        ensures
            self.perform(op).well_formed(),
    {
        if !(op is NoOp) {
            op.lemma_replay_then_revert(self.lines);
            let after = self.perform(op);
            assert(after.undo_stack.last() == op);
            assert(after.undo_stack.drop_last() =~= self.undo_stack);
        }
    }

    /// What the "delete" key does can be applied to the lines, unless it is
    /// nothing.
    pub proof fn lemma_forward_delete_replayable(self)
        requires
            self.well_formed(),
        ensures
            self.forward_delete() is NoOp || self.forward_delete().replayable(self.lines),
    {
    }

    /// What the "backspace" key does can be applied to the lines, unless it
    /// is nothing.
    pub proof fn lemma_backspace_replayable(self)
        requires
            self.well_formed(),
        ensures
            self.backspace() is NoOp || self.backspace().replayable(self.lines),
    {
    }

    /// An undo keeps a document well formed.
    pub proof fn lemma_undo_well_formed(self)
        requires
            self.well_formed(),
        ensures
            self.undo().well_formed(),
    {
        if self.undo_stack.len() > 0 {
            let op = self.undo_stack.last();
            op.lemma_revert_then_replay(self.lines);
            let after = self.undo();
            assert(after.redo_stack.last() == op);
            assert(after.redo_stack.drop_last() =~= self.redo_stack);
        }
    }

    /// A redo keeps a document well formed.
    pub proof fn lemma_redo_well_formed(self)
        requires
            self.well_formed(),
        ensures
            self.redo().well_formed(),
    {
        if self.redo_stack.len() > 0 {
            let op = self.redo_stack.last();
            op.lemma_replay_then_revert(self.lines);
            let after = self.redo();
            assert(after.undo_stack.last() == op);
            assert(after.undo_stack.drop_last() =~= self.undo_stack);
        }
    }
}

} // verus!
