//! A line-oriented text editing engine: an editable document with a cursor
//! and a reversible edit history, a single-line input for short prompts, and
//! the mode machine that routes input between the two.
//!
//! Every executable function is specified against a mathematical model of the
//! data it works on and proved to meet that specification.

pub mod buffer;
pub mod cursor;
pub mod document;
pub mod error;
pub mod input;
pub mod laws;
pub mod modal;
pub mod mode;
pub mod numeral;
pub mod operation;
pub mod strings;
pub mod text;
