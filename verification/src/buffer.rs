//! The editable buffer: a document held in memory, with every operation
//! proved against the model in [`crate::document`].

use crate::cursor::{Cursor, Position};
use crate::document::Document;
use crate::error::EditError;
use crate::operation::{BufferOp, LineCombination, Operation};
use crate::strings::{chars_of, string_of};
use crate::text::valid_position;
use vstd::prelude::*;

verus! {

/// The text that a vector of lines holds.
pub open spec fn text_of(lines: Seq<Vec<char>>) -> Seq<Seq<char>> {
    Seq::new(lines.len(), |i: int| lines[i]@)
}

/// The history that a vector of recorded edits holds.
pub open spec fn history_of(ops: Seq<BufferOp>) -> Seq<Operation> {
    Seq::new(ops.len(), |i: int| ops[i]@)
}

/// A named document with a cursor and an undo/redo history.
#[derive(PartialEq, Eq, Debug)]
pub struct Buffer {
    pub name: String,
    lines: Vec<Vec<char>>,
    cursor: Cursor,
    undos: Vec<BufferOp>,
    redos: Vec<BufferOp>,
}

impl View for Buffer {
    type V = Document;

    closed spec fn view(&self) -> Document {
        Document {
            name: self.name@,
            lines: text_of(self.lines@),
            cursor: self.cursor@,
            undo_stack: history_of(self.undos@),
            redo_stack: history_of(self.redos@),
        }
    }
}

impl Buffer {
    /// The invariant that every constructor establishes and every method
    /// keeps.
    pub open spec fn well_formed(&self) -> bool {
        self@.well_formed()
    }

    /// A buffer never holds more lines than can be counted.
    pub proof fn lemma_line_count_bounded(&self)
        ensures
            self@.lines.len() <= usize::MAX,
    {
        assert(self.lines@.len() == self.lines.len());
    }

    /// A buffer named "[draft]" that holds one empty line, with the cursor
    /// at its start and no history.
    pub fn empty() -> (buf: Buffer)
        ensures
            buf.well_formed(),
            buf@ == (Document {
                name: "[draft]"@,
                lines: seq![Seq::<char>::empty()],
                cursor: Position { line: 0, col: 0 },
                undo_stack: Seq::<Operation>::empty(),
                redo_stack: Seq::<Operation>::empty(),
            }),
    {
        let mut lines: Vec<Vec<char>> = Vec::new();
        lines.push(Vec::new());
        let buf = Buffer {
            name: "[draft]".to_owned(),
            lines,
            cursor: Cursor { line: 0, col: 0 },
            undos: Vec::new(),
            redos: Vec::new(),
        };
        assert(buf@.lines =~= seq![Seq::<char>::empty()]);
        assert(buf@.undo_stack =~= Seq::<Operation>::empty());
        assert(buf@.redo_stack =~= Seq::<Operation>::empty());
        buf
    }

    pub fn get_cursor(&self) -> (cursor: Cursor)
        ensures
            cursor@ == self@.cursor,
    {
        self.cursor
    }

    /// A buffer named `name` that holds `lines`, with the cursor at the
    /// start of the first line and no history. A source without any line
    /// gives one empty line, since a document is never without a line.
    pub fn new(name: String, lines: Vec<String>) -> (buf: Buffer)
        ensures
            buf.well_formed(),
            buf@ == (Document {
                name: name@,
                lines: if lines.len() == 0 {
                    seq![Seq::<char>::empty()]
                } else {
                    Seq::new(lines.len() as nat, |i: int| lines[i]@)
                },
                cursor: Position { line: 0, col: 0 },
                undo_stack: Seq::<Operation>::empty(),
                redo_stack: Seq::<Operation>::empty(),
            }),
    {
        let mut text: Vec<Vec<char>> = Vec::new();
        let mut i: usize = 0;
        while i < lines.len()
            invariant
                i <= lines.len(),
                text.len() == i,
                forall|j: int| 0 <= j < i ==> text[j]@ == lines[j]@,
            decreases lines.len() - i,
        {
            text.push(chars_of(lines[i].as_str()));
            i += 1;
        }
        if text.len() == 0 {
            text.push(Vec::new());
        }
        let buf = Buffer {
            name,
            lines: text,
            cursor: Cursor { line: 0, col: 0 },
            undos: Vec::new(),
            redos: Vec::new(),
        };
        assert(buf@.lines =~= if lines.len() == 0 {
            seq![Seq::<char>::empty()]
        } else {
            Seq::new(lines.len() as nat, |i: int| lines[i]@)
        });
        assert(buf@.undo_stack =~= Seq::<Operation>::empty());
        assert(buf@.redo_stack =~= Seq::<Operation>::empty());
        buf
    }

    /// Takes back the latest edit, if there is one, and keeps it for
    /// [`Buffer::redo`].
    pub fn undo(&mut self)
        requires
            old(self).well_formed(),
        ensures
            final(self).well_formed(),
            final(self)@ == old(self)@.undo(),
    {
        if let Some(op) = self.undos.pop() {
            assert(op@ == old(self)@.undo_stack.last());
            assert(self@.undo_stack =~= old(self)@.undo_stack.drop_last());
            match op {
                BufferOp::InsertChar(cur, _) => {
                    self.cursor = cur;
                    self.op_remove_at();
                },
                BufferOp::RemoveChar(cur, ch, at) => {
                    self.cursor = cur;
                    self.op_insert_char(ch);
                    if at {
                        self.cursor = cur;
                    }
                },
                BufferOp::SplitLine(cur) => {
                    self.cursor = cur;
                    self.op_remove_at();
                },
                BufferOp::CombineLine(cur, from) => {
                    self.cursor = cur;
                    self.op_newline();
                    if from == LineCombination::FromEnd {
                        self.cursor = cur;
                    }
                },
                BufferOp::NoOp => (),
            }
            self.redos.push(op);
            assert(self@.redo_stack =~= old(self)@.redo_stack.push(op@));
        }
        proof {
            old(self)@.lemma_undo_well_formed();
        }
    }

    /// Applies the latest undone edit again, if there is one, and makes it
    /// the latest edit that [`Buffer::undo`] takes back.
    pub fn redo(&mut self)
        requires
            old(self).well_formed(),
        ensures
            final(self).well_formed(),
            final(self)@ == old(self)@.redo(),
    {
        if let Some(op) = self.redos.pop() {
            assert(op@ == old(self)@.redo_stack.last());
            assert(self@.redo_stack =~= old(self)@.redo_stack.drop_last());
            match op {
                BufferOp::InsertChar(cur, ch) => {
                    self.cursor = cur;
                    self.op_insert_char(ch);
                },
                // An entry for a removal holds the place where the
                // character or the line break stood, whichever key removed
                // it, so removing at that place applies it again.
                BufferOp::RemoveChar(cur, _, _) => {
                    self.cursor = cur;
                    self.op_remove_at();
                },
                BufferOp::SplitLine(cur) => {
                    self.cursor = cur;
                    self.op_newline();
                },
                BufferOp::CombineLine(cur, _) => {
                    self.cursor = cur;
                    self.op_remove_at();
                },
                BufferOp::NoOp => (),
            }
            self.undos.push(op);
            assert(self@.undo_stack =~= old(self)@.undo_stack.push(op@));
        }
        proof {
            old(self)@.lemma_redo_well_formed();
        }
    }

    // MOVING AROUND

    pub fn move_cursor_up(&mut self, delta: usize)
        requires
            old(self).well_formed(),
        ensures
            final(self).well_formed(),
            final(self)@ == old(self)@.move_up(delta as nat),
            delta > old(self)@.cursor.line ==> final(self)@ == old(self)@,
    {
        if delta <= self.cursor.line {
            let line = self.cursor.line - delta;
            let len = self.lines[line].len();
            self.cursor.line = line;
            if self.cursor.col > len {
                self.cursor.col = len;
            }
        }
    }

    pub fn move_cursor_down(&mut self, delta: usize)
        requires
            old(self).well_formed(),
        ensures
            final(self).well_formed(),
            final(self)@ == old(self)@.move_down(delta as nat),
    {
        let last = self.lines.len() - 1;
        let line = if delta <= last - self.cursor.line {
            self.cursor.line + delta
        } else {
            last
        };
        let len = self.lines[line].len();
        self.cursor.line = line;
        if self.cursor.col > len {
            self.cursor.col = len;
        }
    }

    pub fn move_cursor_left(&mut self, delta: usize)
        requires
            old(self).well_formed(),
        ensures
            final(self).well_formed(),
            final(self)@ == old(self)@.move_left(delta as nat),
            delta > old(self)@.cursor.col ==> final(self)@ == old(self)@,
    {
        if delta <= self.cursor.col {
            self.cursor.col -= delta;
        }
    }

    pub fn move_end_of_line(&mut self)
        requires
            old(self).well_formed(),
        ensures
            final(self).well_formed(),
            final(self)@ == old(self)@.move_end_of_line(),
    {
        self.cursor.col = self.lines[self.cursor.line].len();
    }

    pub fn move_start_of_line(&mut self)
        requires
            old(self).well_formed(),
        ensures
            final(self).well_formed(),
            final(self)@ == old(self)@.move_start_of_line(),
    {
        self.cursor.col = 0;
    }

    pub fn move_cursor_right(&mut self, delta: usize)
        requires
            old(self).well_formed(),
        ensures
            final(self).well_formed(),
            final(self)@ == old(self)@.move_right(delta as nat),
    {
        let end = self.lines[self.cursor.line].len();
        if delta <= end - self.cursor.col {
            self.cursor.col += delta;
        } else {
            self.cursor.col = end;
        }
    }

    /// Moves the cursor to the line numbered `line`, counted from one, and
    /// keeps its column, or takes the end of that line where the line is
    /// shorter. A number that names no line is turned down and nothing
    /// changes.
    pub fn go_to_line(&mut self, line: usize) -> (result: Result<(), EditError>)
        requires
            old(self).well_formed(),
        ensures
            final(self).well_formed(),
            match result {
                Ok(()) => old(self)@.has_line_number(line as nat) && final(self)@ == old(
                    self,
                )@.go_to_line(line as nat),
                Err(e) => !old(self)@.has_line_number(line as nat) && e
                    == EditError::OutOfRangeLine(line) && final(self)@ == old(self)@,
            },
    {
        if 0 < line && line <= self.lines.len() {
            let len = self.lines[line - 1].len();
            self.cursor.line = line - 1;
            if self.cursor.col > len {
                self.cursor.col = len;
            }
            Ok(())
        } else {
            Err(EditError::OutOfRangeLine(line))
        }
    }

    // GETTING DATA

    /// The text of the line the cursor is on.
    pub fn get_line(&self) -> (line: String)
        requires
            self.well_formed(),
        ensures
            line@ == self@.current_line(),
    {
        string_of(&self.lines[self.cursor.line])
    }

    // MUTATION OPERATIONS

    /// The lines and the cursor alone are in order; the history may not fit
    /// them. This is what the elementary edits need.
    spec fn text_valid(&self) -> bool {
        self.lines@.len() > 0 && valid_position(text_of(self.lines@), self.cursor@)
    }

    /// Inserts `ch` at the cursor and steps over it. The history is not
    /// touched.
    fn op_insert_char(&mut self, ch: char) -> (op: BufferOp)
        requires
            old(self).text_valid(),
        ensures
            op@ == Operation::InsertChar(old(self)@.cursor, ch),
            final(self)@ == old(self)@.apply(op@),
    {
        let cur = self.cursor;
        self.lines[cur.line].insert(cur.col, ch);
        assert(cur.col < self.lines[cur.line as int].len() <= usize::MAX);
        self.cursor.col += 1;
        let op = BufferOp::InsertChar(cur, ch);
        assert(self@.lines =~= op@.replay(old(self)@.lines));
        op
    }

    /// Breaks the line at the cursor and puts the cursor at the start of
    /// the new line. The history is not touched.
    fn op_newline(&mut self) -> (op: BufferOp)
        requires
            old(self).text_valid(),
        ensures
            op@ == Operation::SplitLine(old(self)@.cursor),
            final(self)@ == old(self)@.apply(op@),
    {
        let new_line = self.lines[self.cursor.line].split_off(self.cursor.col);
        let op = BufferOp::SplitLine(self.cursor);

        assert(self.cursor.line < self.lines.len() <= usize::MAX);
        self.cursor.line += 1;
        self.cursor.col = 0;

        self.lines.insert(self.cursor.line, new_line);

        assert(self@.lines =~= op@.replay(old(self)@.lines));
        op
    }

    /// Like "delete": removes the character under the cursor, or at the end
    /// of a line appends the next line to it. The history is not touched.
    fn op_remove_at(&mut self) -> (op: BufferOp)
        requires
            old(self).text_valid(),
        ensures
            op@ == old(self)@.forward_delete(),
            final(self)@ == old(self)@.apply(op@),
    {
        if self.cursor.col < self.lines[self.cursor.line].len() {
            // Not end of line
            let ch = self.lines[self.cursor.line].remove(self.cursor.col);
            let op = BufferOp::RemoveChar(self.cursor, ch, true);
            assert(self@.lines =~= op@.replay(old(self)@.lines));
            op
        } else if self.cursor.line < self.lines.len() - 1 {
            // End of line, not end of file
            let mut next_line = self.lines.remove(self.cursor.line + 1);
            self.lines[self.cursor.line].append(&mut next_line);
            let op = BufferOp::CombineLine(self.cursor, LineCombination::FromEnd);
            assert(self@.lines =~= op@.replay(old(self)@.lines));
            op
        } else {
            // Del at EOF does nothing
            BufferOp::NoOp
        }
    }

    /// Like "backspace": removes the character before the cursor, or at the
    /// start of a line moves the line to the end of the previous one. The
    /// history is not touched.
    fn op_remove_before(&mut self) -> (op: BufferOp)
        requires
            old(self).text_valid(),
        ensures
            op@ == old(self)@.backspace(),
            final(self)@ == old(self)@.apply(op@),
    {
        if self.cursor.col > 0 {
            self.cursor.col -= 1;
            let ch = self.lines[self.cursor.line].remove(self.cursor.col);
            let op = BufferOp::RemoveChar(self.cursor, ch, false);
            assert(self@.lines =~= op@.replay(old(self)@.lines));
            op
        } else if self.cursor.line > 0 {
            // Start of line, not first line
            let mut line = self.lines.remove(self.cursor.line);

            self.cursor.line -= 1;
            self.cursor.col = self.lines[self.cursor.line].len();

            self.lines[self.cursor.line].append(&mut line);

            let op = BufferOp::CombineLine(self.cursor, LineCombination::FromStart);
            assert(self@.lines =~= op@.replay(old(self)@.lines));
            op
        } else {
            // Backspace at 0,0 does nothing
            BufferOp::NoOp
        }
    }

    /// Enters a new edit into the history, unless it is a `NoOp`.
    fn record_op(&mut self, op: BufferOp)
        ensures
            final(self)@ == old(self)@.record(op@),
    {
        match op {
            BufferOp::NoOp => {},
            _ => {
                self.undos.push(op);
                self.redos.clear();
                assert(self@.undo_stack =~= old(self)@.undo_stack.push(op@));
                assert(self@.redo_stack =~= Seq::<Operation>::empty());
            },
        }
    }

    /// Breaks the line at the cursor in two and moves the cursor to the
    /// start of the second.
    pub fn newline(&mut self)
        requires
            old(self).well_formed(),
        ensures
            final(self).well_formed(),
            final(self)@ == old(self)@.newline(),
    {
        let op = self.op_newline();
        self.record_op(op);
        proof {
            old(self)@.lemma_perform_well_formed(op@);
        }
    }

    /// Inserts `ch` at the cursor and moves the cursor one column right.
    pub fn insert_char(&mut self, ch: char)
        requires
            old(self).well_formed(),
        ensures
            final(self).well_formed(),
            final(self)@ == old(self)@.insert_char(ch),
    {
        let op = self.op_insert_char(ch);
        self.record_op(op);
        proof {
            old(self)@.lemma_perform_well_formed(op@);
        }
    }

    /// Like a "delete", removes the character under the cursor. At the end
    /// of a line, appends the next line to the current one. At the end of
    /// the last line nothing changes and nothing is recorded.
    pub fn remove_at(&mut self)
        requires
            old(self).well_formed(),
        ensures
            final(self).well_formed(),
            final(self)@ == old(self)@.remove_at(),
            old(self)@.at_end() ==> final(self)@ == old(self)@,
    {
        let op = self.op_remove_at();
        self.record_op(op);
        proof {
            old(self)@.lemma_forward_delete_replayable();
            old(self)@.lemma_perform_well_formed(op@);
        }
    }

    /// Like "backspace", removes the character before the cursor. At the
    /// start of a line, moves the line to the end of the previous one. At
    /// the start of the first line nothing changes and nothing is recorded.
    pub fn remove_before(&mut self)
        requires
            old(self).well_formed(),
        ensures
            final(self).well_formed(),
            final(self)@ == old(self)@.remove_before(),
            old(self)@.at_start() ==> final(self)@ == old(self)@,
    {
        let op = self.op_remove_before();
        self.record_op(op);
        proof {
            old(self)@.lemma_backspace_replayable();
            old(self)@.lemma_perform_well_formed(op@);
        }
    }
}

} // verus!
