//! Positions in a document and their exact mathematical counterpart.

use std::cmp::Ordering;
use vstd::prelude::*;
use vstd::std_specs::cmp::PartialOrdSpecImpl;

verus! {

/// A place in a document: a line number and a column within that line, both
/// counted from zero. This is the mathematical view of a [`Cursor`].
pub struct Position {
    pub line: nat,
    pub col: nat,
}

impl Position {
    /// The line-major order on positions: an earlier line comes first, and
    /// on the same line the smaller column comes first.
    pub open spec fn precedes(self, other: Position) -> bool {
        self.line < other.line || (self.line == other.line && self.col < other.col)
    }
}

/// A line/column position held by a buffer.
#[derive(Clone, Copy, PartialEq, Eq, Structural, Debug)]
pub struct Cursor {
    pub line: usize,
    pub col: usize,
}

impl View for Cursor {
    type V = Position;

    open spec fn view(&self) -> Position {
        Position { line: self.line as nat, col: self.col as nat }
    }
}

impl PartialOrdSpecImpl for Cursor {
    open spec fn obeys_partial_cmp_spec() -> bool {
        true
    }

    open spec fn partial_cmp_spec(&self, other: &Cursor) -> Option<Ordering> {
        if self@.precedes(other@) {
            Some(Ordering::Less)
        } else if other@.precedes(self@) {
            Some(Ordering::Greater)
        } else {
            Some(Ordering::Equal)
        }
    }
}

impl PartialOrd for Cursor {
    /// Compares two cursors line first, then column. The order is total, so
    /// the result is never `None`.
    fn partial_cmp(&self, other: &Cursor) -> (r: Option<Ordering>) {
        if self.line < other.line {
            Some(Ordering::Less)
        } else if self.line > other.line {
            Some(Ordering::Greater)
        } else if self.col > other.col {
            Some(Ordering::Greater)
        } else if self.col < other.col {
            Some(Ordering::Less)
        } else {
            Some(Ordering::Equal)
        }
    }
}

} // verus!
