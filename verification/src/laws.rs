//! What holds of editing, undoing and redoing taken together.

use crate::cursor::Position;
use crate::document::Document;
use crate::modal::LineEditor;
use crate::operation::Operation;
use vstd::prelude::*;

verus! {

/// One of the four requests that change the text.
pub enum Edit {
    InsertChar(char),
    Newline,
    RemoveAt,
    RemoveBefore,
}

impl Document {
    /// The operation that `e` amounts to in this document; `NoOp` where it
    /// has no effect.
    pub open spec fn operation_of(self, e: Edit) -> Operation {
        match e {
            Edit::InsertChar(ch) => Operation::InsertChar(self.cursor, ch),
            Edit::Newline => Operation::SplitLine(self.cursor),
            Edit::RemoveAt => self.forward_delete(),
            Edit::RemoveBefore => self.backspace(),
        }
    }

    /// The document after the edit `e`.
    pub open spec fn edit(self, e: Edit) -> Document {
        match e {
            Edit::InsertChar(ch) => self.insert_char(ch),
            Edit::Newline => self.newline(),
            Edit::RemoveAt => self.remove_at(),
            Edit::RemoveBefore => self.remove_before(),
        }
    }

    /// The document after the edits `es`, made in order.
    pub open spec fn edit_all(self, es: Seq<Edit>) -> Document
        decreases es.len(),
    {
        if es.len() == 0 {
            self
        } else {
            self.edit_all(es.drop_last()).edit(es.last())
        }
    }

    /// How many of the edits `es`, made in order, have an effect and so
    /// enter the history.
    pub open spec fn recorded_count(self, es: Seq<Edit>) -> nat
        decreases es.len(),
    {
        if es.len() == 0 {
            0
        } else {
            let before = self.edit_all(es.drop_last());
            let counted: nat = if before.operation_of(es.last()) is NoOp {
                0
            } else {
                1
            };
            self.recorded_count(es.drop_last()) + counted
        }
    }

    /// The document after `n` undos.
    pub open spec fn undo_times(self, n: nat) -> Document
        decreases n,
    {
        if n == 0 {
            self
        } else {
            self.undo().undo_times((n - 1) as nat)
        }
    }

    /// Two documents with the same lines, the same cursor and the same
    /// edits to undo. What they hold to redo may differ.
    pub open spec fn same_text_and_past(self, other: Document) -> bool {
        &&& self.lines == other.lines
        &&& self.cursor == other.cursor
        &&& self.undo_stack == other.undo_stack
    }
}

/// An edit that has an effect can be applied where the cursor stands, and
/// remembers where the cursor stood.
pub proof fn lemma_edit_fits(d: Document, e: Edit)
    requires
        d.well_formed(),
    ensures
        d.edit(e) == d.perform(d.operation_of(e)),
        d.operation_of(e) is NoOp || d.operation_of(e).replayable(d.lines),
        !(d.operation_of(e) is NoOp) ==> d.operation_of(e).cursor_before() == d.cursor,
        d.edit(e).well_formed(),
{
    d.lemma_perform_well_formed(d.operation_of(e));
}

/// Any number of edits keeps a document well formed.
pub proof fn lemma_edit_all_well_formed(d: Document, es: Seq<Edit>)
    requires
        d.well_formed(),
    ensures
        d.edit_all(es).well_formed(),
        d.recorded_count(es) <= es.len(),
    decreases es.len(),
{
    if es.len() > 0 {
        lemma_edit_all_well_formed(d, es.drop_last());
        lemma_edit_fits(d.edit_all(es.drop_last()), es.last());
    }
}

/// Undoing an edit that had an effect restores the lines, the cursor and
/// the earlier history exactly, and leaves the edit as the one to redo.
pub proof fn lemma_undo_reverses_edit(d: Document, e: Edit)
    requires
        d.well_formed(),
        !(d.operation_of(e) is NoOp),
    ensures
        d.edit(e).undo().same_text_and_past(d),
        d.edit(e).undo().redo_stack == seq![d.operation_of(e)],
        d.edit(e).undo().name == d.name,
{
    let op = d.operation_of(e);
    lemma_edit_fits(d, e);
    op.lemma_replay_then_revert(d.lines);
    let after = d.edit(e);
    assert(after.undo_stack.last() == op);
    assert(after.undo_stack.drop_last() =~= d.undo_stack);
    assert(after.undo().redo_stack =~= seq![op]);
}

/// What undoing does to the lines, the cursor and the edits still to undo
/// does not depend on what there is to redo.
pub proof fn lemma_undo_times_ignores_redo(a: Document, b: Document, n: nat)
    requires
        a.same_text_and_past(b),
    ensures
        a.undo_times(n).same_text_and_past(b.undo_times(n)),
    decreases n,
{
    if n > 0 {
        lemma_undo_times_ignores_redo(a.undo(), b.undo(), (n - 1) as nat);
    }
}

/// Undoing `m + n` times is undoing `m` times and then `n` times.
pub proof fn lemma_undo_times_add(d: Document, m: nat, n: nat)
    ensures
        d.undo_times(m + n) == d.undo_times(m).undo_times(n),
    decreases m,
{
    if m > 0 {
        lemma_undo_times_add(d.undo(), (m - 1) as nat, n);
    }
}

/// With nothing to undo, undoing any number of times changes nothing.
pub proof fn lemma_undo_times_on_empty_history(d: Document, n: nat)
    requires
        d.undo_stack.len() == 0,
    ensures
        d.undo_times(n) == d,
    decreases n,
{
    if n > 0 {
        lemma_undo_times_on_empty_history(d, (n - 1) as nat);
    }
}

/// After any sequence of edits, undoing once for each edit that had an
/// effect restores the lines, the cursor and the earlier history exactly.
pub proof fn lemma_undo_restores_recorded_edits(d: Document, es: Seq<Edit>)
    requires
        d.well_formed(),
    ensures
        d.edit_all(es).undo_times(d.recorded_count(es)).same_text_and_past(d),
    decreases es.len(),
{
    if es.len() > 0 {
        let before = d.edit_all(es.drop_last());
        let e = es.last();
        let n = d.recorded_count(es.drop_last());
        lemma_undo_restores_recorded_edits(d, es.drop_last());
        lemma_edit_all_well_formed(d, es.drop_last());
        lemma_edit_fits(before, e);
        if !(before.operation_of(e) is NoOp) {
            lemma_undo_reverses_edit(before, e);
            lemma_undo_times_ignores_redo(before.edit(e).undo(), before, n);
            assert(d.recorded_count(es) == n + 1);
            assert(before.edit(e).undo_times(n + 1) == before.edit(e).undo().undo_times(n));
        }
    }
}

/// After a sequence of edits, as many undos as there were edits restore the
/// lines and the cursor exactly, provided that every edit of the sequence
/// had an effect, or that there was nothing to undo before the sequence.
///
/// An edit without effect leaves no entry in the history, so without the
/// proviso the last of the undos would take back an edit made before the
/// sequence.
pub proof fn lemma_equal_number_of_undos_restores(d: Document, es: Seq<Edit>)
    requires
        d.well_formed(),
        d.recorded_count(es) == es.len() || d.undo_stack.len() == 0,
    ensures
        d.edit_all(es).undo_times(es.len()).lines == d.lines,
        d.edit_all(es).undo_times(es.len()).cursor == d.cursor,
{
    let n = d.recorded_count(es);
    let after = d.edit_all(es);
    lemma_undo_restores_recorded_edits(d, es);
    lemma_edit_all_well_formed(d, es);
    if n < es.len() {
        let extra = (es.len() - n) as nat;
        lemma_undo_times_add(after, n, extra);
        lemma_undo_times_on_empty_history(after.undo_times(n), extra);
    }
}

/// An edit that had an effect, undone and then redone, gives the very
/// document that the edit gave: lines, cursor and both histories.
pub proof fn lemma_undo_then_redo_restores_edit(d: Document, e: Edit)
    requires
        d.well_formed(),
        !(d.operation_of(e) is NoOp),
    ensures
        d.edit(e).undo().redo() == d.edit(e),
{
    let op = d.operation_of(e);
    lemma_edit_fits(d, e);
    lemma_undo_reverses_edit(d, e);
    let after = d.edit(e);
    let undone = after.undo();
    assert(undone.redo_stack.last() == op);
    assert(undone.redo_stack.drop_last() =~= Seq::<Operation>::empty());
    assert(undone.redo().undo_stack =~= after.undo_stack);
    assert(undone.redo().redo_stack =~= after.redo_stack);
}

/// In any well-formed document with something to undo, an undo followed by
/// a redo restores the lines and both histories, and leaves the cursor
/// where the edit had left it.
pub proof fn lemma_undo_then_redo(d: Document)
    requires
        d.well_formed(),
        d.undo_stack.len() > 0,
    ensures
        d.undo().redo().lines == d.lines,
        d.undo().redo().undo_stack == d.undo_stack,
        d.undo().redo().redo_stack == d.redo_stack,
        d.undo().redo().cursor == d.undo_stack.last().cursor_after(),
{
    let op = d.undo_stack.last();
    op.lemma_revert_then_replay(d.lines);
    let undone = d.undo();
    assert(undone.redo_stack.last() == op);
    assert(undone.redo_stack.drop_last() =~= d.redo_stack);
    assert(undone.redo().undo_stack =~= d.undo_stack);
}

/// In any well-formed document with something to redo, a redo followed by
/// an undo restores the lines and both histories, and leaves the cursor
/// where it stood when the edit was first made.
pub proof fn lemma_redo_then_undo(d: Document)
    requires
        d.well_formed(),
        d.redo_stack.len() > 0,
    ensures
        d.redo().undo().lines == d.lines,
        d.redo().undo().undo_stack == d.undo_stack,
        d.redo().undo().redo_stack == d.redo_stack,
        d.redo().undo().cursor == d.redo_stack.last().cursor_before(),
{
    let op = d.redo_stack.last();
    op.lemma_replay_then_revert(d.lines);
    let redone = d.redo();
    assert(redone.undo_stack.last() == op);
    assert(redone.undo_stack.drop_last() =~= d.undo_stack);
    assert(redone.undo().redo_stack =~= d.redo_stack);
}

/// An edit that has an effect leaves nothing to redo, so that a redo right
/// after it changes nothing.
pub proof fn lemma_edit_discards_redo(d: Document, e: Edit)
    requires
        !(d.operation_of(e) is NoOp),
    ensures
        d.edit(e).redo_stack.len() == 0,
        d.edit(e).redo() == d.edit(e),
{
}

/// After one undo or more, an edit that has an effect leaves nothing to
/// redo: what was undone is given up, and a redo changes nothing.
pub proof fn lemma_edit_after_undo_discards_redo(d: Document, n: nat, e: Edit)
    requires
        n >= 1,
        !(d.undo_times(n).operation_of(e) is NoOp),
    ensures
        d.undo_times(n).edit(e).redo_stack.len() == 0,
        d.undo_times(n).edit(e).redo() == d.undo_times(n).edit(e),
{
    lemma_edit_discards_redo(d.undo_times(n), e);
}

/// The document holds one line, which is the line of `p`, and its cursor
/// stands in the column of `p`.
pub open spec fn is_single_line_of(d: Document, p: LineEditor) -> bool {
    d.lines == seq![p.line] && d.cursor == Position { line: 0, col: p.col }
}

/// A line editor moves and edits as a document of one line does: after the
/// same request the document still holds the one line of the line editor,
/// with the cursor in the same column.
pub proof fn lemma_line_editor_is_single_line_document(
    d: Document,
    p: LineEditor,
    ch: char,
    delta: nat,
)
    requires
        p.well_formed(),
        is_single_line_of(d, p),
    ensures
        is_single_line_of(d.move_left(delta), p.move_left(delta)),
        is_single_line_of(d.move_right(delta), p.move_right(delta)),
        is_single_line_of(d.move_start_of_line(), p.move_start_of_line()),
        is_single_line_of(d.move_end_of_line(), p.move_end_of_line()),
        is_single_line_of(d.insert_char(ch), p.insert_char(ch)),
        is_single_line_of(d.remove_at(), p.remove_at()),
        is_single_line_of(d.remove_before(), p.remove_before()),
{
    assert(d.insert_char(ch).lines =~= seq![p.insert_char(ch).line]);
    assert(d.remove_at().lines =~= seq![p.remove_at().line]);
    assert(d.remove_before().lines =~= seq![p.remove_before().line]);
}

} // verus!
