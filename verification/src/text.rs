//! The four elementary changes to the lines of a document, as functions on
//! sequences of character sequences, and the facts that pair them off as
//! inverses of one another.

use crate::cursor::Position;
use vstd::prelude::*;

verus! {

/// `p` names a place where a cursor may stand: on an existing line, at or
/// before that line's end.
pub open spec fn valid_position(lines: Seq<Seq<char>>, p: Position) -> bool {
    p.line < lines.len() && p.col <= lines[p.line as int].len()
}

/// `p` stands on a character of its line (not at the line's end).
pub open spec fn on_character(lines: Seq<Seq<char>>, p: Position) -> bool {
    p.line < lines.len() && p.col < lines[p.line as int].len()
}

/// `p` stands at the end of a line that has a successor.
pub open spec fn at_line_break(lines: Seq<Seq<char>>, p: Position) -> bool {
    p.line + 1 < lines.len() && p.col == lines[p.line as int].len()
}

/// The lines with `ch` inserted at `p`.
pub open spec fn insert_char_at(lines: Seq<Seq<char>>, p: Position, ch: char) -> Seq<Seq<char>> {
    lines.update(p.line as int, lines[p.line as int].insert(p.col as int, ch))
}

/// The lines with the character at `p` taken out.
pub open spec fn remove_char_at(lines: Seq<Seq<char>>, p: Position) -> Seq<Seq<char>> {
    lines.update(p.line as int, lines[p.line as int].remove(p.col as int))
}

/// The lines with the line of `p` broken in two at `p`.
pub open spec fn split_line_at(lines: Seq<Seq<char>>, p: Position) -> Seq<Seq<char>> {
    lines.update(p.line as int, lines[p.line as int].take(p.col as int)).insert(
        p.line + 1 as int,
        lines[p.line as int].skip(p.col as int),
    )
}

/// The lines with the line after `p`'s appended to the line of `p`.
pub open spec fn join_line_at(lines: Seq<Seq<char>>, p: Position) -> Seq<Seq<char>> {
    lines.update(p.line as int, lines[p.line as int] + lines[p.line + 1 as int]).remove(p.line + 1 as int)
}

/// Removing at `p` undoes inserting at `p`.
pub proof fn lemma_insert_then_remove(lines: Seq<Seq<char>>, p: Position, ch: char)
    requires
        valid_position(lines, p),
    ensures
        on_character(insert_char_at(lines, p, ch), p),
        insert_char_at(lines, p, ch)[p.line as int][p.col as int] == ch,
        insert_char_at(lines, p, ch).len() == lines.len(),
        remove_char_at(insert_char_at(lines, p, ch), p) == lines,
{
    let line = lines[p.line as int];
    assert(line.insert(p.col as int, ch).remove(p.col as int) =~= line);
    assert(remove_char_at(insert_char_at(lines, p, ch), p) =~= lines);
}

/// Inserting the removed character at `p` undoes removing at `p`.
pub proof fn lemma_remove_then_insert(lines: Seq<Seq<char>>, p: Position)
    requires
        on_character(lines, p),
    ensures
        valid_position(remove_char_at(lines, p), p),
        remove_char_at(lines, p).len() == lines.len(),
        insert_char_at(remove_char_at(lines, p), p, lines[p.line as int][p.col as int]) == lines,
{
    let line = lines[p.line as int];
    assert(line.remove(p.col as int).insert(p.col as int, line[p.col as int]) =~= line);
    assert(insert_char_at(remove_char_at(lines, p), p, line[p.col as int]) =~= lines);
}

/// Joining at `p` undoes splitting at `p`.
pub proof fn lemma_split_then_join(lines: Seq<Seq<char>>, p: Position)
    requires
        valid_position(lines, p),
    ensures
        at_line_break(split_line_at(lines, p), p),
        split_line_at(lines, p).len() == lines.len() + 1,
        join_line_at(split_line_at(lines, p), p) == lines,
{
    let line = lines[p.line as int];
    let split = split_line_at(lines, p);
    assert(split[p.line as int] == line.take(p.col as int));
    assert(split[p.line + 1 as int] == line.skip(p.col as int));
    assert(line.take(p.col as int) + line.skip(p.col as int) =~= line);
    assert(join_line_at(split, p) =~= lines);
}

/// Splitting at `p` undoes joining at `p`.
pub proof fn lemma_join_then_split(lines: Seq<Seq<char>>, p: Position)
    requires
        at_line_break(lines, p),
    ensures
        valid_position(join_line_at(lines, p), p),
        join_line_at(lines, p).len() == lines.len() - 1,
        split_line_at(join_line_at(lines, p), p) == lines,
{
    let head = lines[p.line as int];
    let tail = lines[p.line + 1 as int];
    let joined = join_line_at(lines, p);
    assert(joined[p.line as int] == head + tail);
    assert((head + tail).take(p.col as int) =~= head);
    assert((head + tail).skip(p.col as int) =~= tail);
    assert(split_line_at(joined, p) =~= lines);
}

} // verus!
