//! One reversible edit: what it did to the lines, where it left the cursor,
//! and how to take it back.

use crate::cursor::{Cursor, Position};
use crate::text::{
    at_line_break, insert_char_at, join_line_at, lemma_insert_then_remove, lemma_join_then_split,
    lemma_remove_then_insert, lemma_split_then_join, on_character, remove_char_at, split_line_at,
    valid_position,
};
use vstd::prelude::*;

verus! {

/// Which key merged two lines.
#[derive(Clone, Copy, PartialEq, Eq, Structural, Debug)]
pub enum LineCombination {
    /// Backspace at the start of a line: the line went onto the end of the
    /// one before it.
    FromStart,
    /// Delete at the end of a line: the next line came up onto this one.
    FromEnd,
}

/// The mathematical form of one entry of the edit history.
///
/// Every variant but `NoOp` carries the position at which the lines changed.
pub enum Operation {
    /// A character was inserted at the position.
    InsertChar(Position, char),
    /// The character was removed from the position; the flag is true for
    /// a forward delete and false for a backspace.
    RemoveChar(Position, char, bool),
    /// A line break was inserted at the position.
    SplitLine(Position),
    /// The line break at the position was removed.
    CombineLine(Position, LineCombination),
    /// Nothing happened. Never part of a history.
    NoOp,
}

impl Operation {
    /// The operation's effect can be applied to `lines`.
    pub open spec fn replayable(self, lines: Seq<Seq<char>>) -> bool {
        match self {
            Operation::InsertChar(at, _) => valid_position(lines, at),
            Operation::RemoveChar(at, ch, _) => on_character(lines, at)
                && lines[at.line as int][at.col as int] == ch,
            Operation::SplitLine(at) => valid_position(lines, at),
            Operation::CombineLine(at, _) => at_line_break(lines, at),
            Operation::NoOp => false,
        }
    }

    /// The lines after the operation's effect.
    pub open spec fn replay(self, lines: Seq<Seq<char>>) -> Seq<Seq<char>> {
        match self {
            Operation::InsertChar(at, ch) => insert_char_at(lines, at, ch),
            Operation::RemoveChar(at, _, _) => remove_char_at(lines, at),
            Operation::SplitLine(at) => split_line_at(lines, at),
            Operation::CombineLine(at, _) => join_line_at(lines, at),
            Operation::NoOp => lines,
        }
    }

    /// `lines` can be the result of the operation, so that it can be taken
    /// back from them.
    pub open spec fn revertible(self, lines: Seq<Seq<char>>) -> bool {
        match self {
            Operation::InsertChar(at, ch) => on_character(lines, at)
                && lines[at.line as int][at.col as int] == ch,
            Operation::RemoveChar(at, _, _) => valid_position(lines, at),
            Operation::SplitLine(at) => at_line_break(lines, at),
            Operation::CombineLine(at, _) => valid_position(lines, at),
            Operation::NoOp => false,
        }
    }

    /// The lines with the operation's effect taken back.
    pub open spec fn revert(self, lines: Seq<Seq<char>>) -> Seq<Seq<char>> {
        match self {
            Operation::InsertChar(at, _) => remove_char_at(lines, at),
            Operation::RemoveChar(at, ch, _) => insert_char_at(lines, at, ch),
            Operation::SplitLine(at) => join_line_at(lines, at),
            Operation::CombineLine(at, _) => split_line_at(lines, at),
            Operation::NoOp => lines,
        }
    }

    /// Where the cursor stood when the edit was made.
    pub open spec fn cursor_before(self) -> Position {
        match self {
            Operation::InsertChar(at, _) => at,
            Operation::RemoveChar(at, _, forward) => if forward {
                at
            } else {
                Position { line: at.line, col: at.col + 1 }
            },
            Operation::SplitLine(at) => at,
            Operation::CombineLine(at, from) => match from {
                LineCombination::FromEnd => at,
                LineCombination::FromStart => Position { line: at.line + 1, col: 0 },
            },
            Operation::NoOp => Position { line: 0, col: 0 },
        }
    }

    /// Where the edit left the cursor.
    pub open spec fn cursor_after(self) -> Position {
        match self {
            Operation::InsertChar(at, _) => Position { line: at.line, col: at.col + 1 },
            Operation::RemoveChar(at, _, _) => at,
            Operation::SplitLine(at) => Position { line: at.line + 1, col: 0 },
            Operation::CombineLine(at, _) => at,
            Operation::NoOp => Position { line: 0, col: 0 },
        }
    }

    /// An operation that can be applied can be taken back afterwards, and
    /// taking it back restores the lines exactly.
    pub proof fn lemma_replay_then_revert(self, lines: Seq<Seq<char>>)
        requires
            self.replayable(lines),
        ensures
            self.revertible(self.replay(lines)),
            self.revert(self.replay(lines)) == lines,
            valid_position(self.replay(lines), self.cursor_after()),
            lines.len() > 0 ==> self.replay(lines).len() > 0,
    {
        match self {
            Operation::InsertChar(at, ch) => lemma_insert_then_remove(lines, at, ch),
            Operation::RemoveChar(at, _, _) => lemma_remove_then_insert(lines, at),
            Operation::SplitLine(at) => lemma_split_then_join(lines, at),
            Operation::CombineLine(at, _) => lemma_join_then_split(lines, at),
            Operation::NoOp => {},
        }
    }

    /// An operation that can be taken back can be applied again afterwards,
    /// and applying it again restores the lines exactly.
    pub proof fn lemma_revert_then_replay(self, lines: Seq<Seq<char>>)
        requires
            self.revertible(lines),
        ensures
            self.replayable(self.revert(lines)),
            self.replay(self.revert(lines)) == lines,
            valid_position(self.revert(lines), self.cursor_before()),
            lines.len() > 0 ==> self.revert(lines).len() > 0,
    {
        match self {
            Operation::InsertChar(at, _) => lemma_remove_then_insert(lines, at),
            Operation::RemoveChar(at, ch, _) => lemma_insert_then_remove(lines, at, ch),
            Operation::SplitLine(at) => lemma_join_then_split(lines, at),
            Operation::CombineLine(at, _) => lemma_split_then_join(lines, at),
            Operation::NoOp => {},
        }
    }
}

/// One entry of a buffer's edit history.
#[derive(Clone, Copy, PartialEq, Eq, Structural, Debug)]
pub enum BufferOp {
    InsertChar(Cursor, char),
    RemoveChar(Cursor, char, bool),
    SplitLine(Cursor),
    CombineLine(Cursor, LineCombination),
    NoOp,
}

impl View for BufferOp {
    type V = Operation;

    open spec fn view(&self) -> Operation {
        match *self {
            BufferOp::InsertChar(at, ch) => Operation::InsertChar(at@, ch),
            BufferOp::RemoveChar(at, ch, forward) => Operation::RemoveChar(at@, ch, forward),
            BufferOp::SplitLine(at) => Operation::SplitLine(at@),
            BufferOp::CombineLine(at, from) => Operation::CombineLine(at@, from),
            BufferOp::NoOp => Operation::NoOp,
        }
    }
}

} // verus!
