//! The ways in which a request to the editor can fail.

use crate::numeral::{decimal_digits, line_number_digits};
use crate::strings::{chars_of, string_of};
use vstd::prelude::*;

verus! {

/// A request that the editor turned down. The buffer is unchanged whenever
/// one of these is returned.
#[derive(Clone, Copy, PartialEq, Eq, Structural, Debug)]
pub enum EditError {
    /// The line number, counted from one, names no line of the buffer.
    OutOfRangeLine(usize),
    /// The text is not a line number: it is not an optional `+` followed by
    /// decimal digits, or the number is too large to be one.
    MalformedLineNumber,
}

impl EditError {
    /// The text of the message for this error. For a line out of range it
    /// holds the number that was asked for.
    pub open spec fn message_text(self) -> Seq<char> {
        match self {
            EditError::OutOfRangeLine(line) => "Error: Line "@ + decimal_digits(line as nat)
                + " is out of bound"@,
            EditError::MalformedLineNumber => "Error: Not a line number"@,
        }
    }

    /// A message for the user.
    pub fn message(&self) -> (text: String)
        ensures
            text@ == self.message_text(),
    {
        match *self {
            EditError::OutOfRangeLine(line) => {
                let mut chars = chars_of("Error: Line ");
                let mut digits = line_number_digits(line);
                let mut rest = chars_of(" is out of bound");
                chars.append(&mut digits);
                chars.append(&mut rest);
                string_of(&chars)
            },
            EditError::MalformedLineNumber => "Error: Not a line number".to_owned(),
        }
    }
}

} // verus!
