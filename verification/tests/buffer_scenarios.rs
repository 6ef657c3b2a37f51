use editor_core::buffer::Buffer;
use editor_core::cursor::Cursor;
use editor_core::error::EditError;

/// Reads the whole text by walking the lines. Moves the cursor.
fn lines_of(buf: &mut Buffer) -> Vec<String> {
    let mut out = Vec::new();
    let mut n = 1;
    while buf.go_to_line(n).is_ok() {
        out.push(buf.get_line());
        n += 1;
    }
    out
}

fn buffer_with(lines: &[&str]) -> Buffer {
    Buffer::new("test".to_owned(), lines.iter().map(|l| l.to_string()).collect())
}

fn at(line: usize, col: usize) -> Cursor {
    Cursor { line, col }
}

fn type_text(buf: &mut Buffer, text: &str) {
    for ch in text.chars() {
        buf.insert_char(ch);
    }
}

#[test]
fn empty_buffer_is_one_empty_line_named_draft() {
    let mut buf = Buffer::empty();
    assert_eq!(buf.name, "[draft]");
    assert_eq!(buf.get_cursor(), at(0, 0));
    assert_eq!(buf.get_line(), "");
    assert_eq!(lines_of(&mut buf), vec!["".to_string()]);
}

#[test]
fn new_keeps_the_name_and_the_lines() {
    let mut buf = Buffer::new("notes".to_owned(), vec!["one".to_string(), "".to_string(), "three".to_string()]);
    assert_eq!(buf.name, "notes");
    assert_eq!(buf.get_cursor(), at(0, 0));
    assert_eq!(buf.get_line(), "one");
    assert_eq!(lines_of(&mut buf), vec!["one".to_string(), "".to_string(), "three".to_string()]);
}

#[test]
fn new_from_no_lines_is_one_empty_line() {
    let mut buf = Buffer::new("nothing".to_owned(), Vec::new());
    assert_eq!(buf.get_cursor(), at(0, 0));
    assert_eq!(lines_of(&mut buf), vec!["".to_string()]);
    buf.move_end_of_line();
    buf.insert_char('x');
    assert_eq!(buf.get_line(), "x");
}

#[test]
fn typing_two_lines_then_undoing_everything() {
    let mut buf = Buffer::empty();
    type_text(&mut buf, "ab");
    buf.newline();
    type_text(&mut buf, "cd");
    assert_eq!(buf.get_cursor(), at(1, 2));
    assert_eq!(lines_of(&mut buf), vec!["ab".to_string(), "cd".to_string()]);

    // Each character is an edit of its own: three undos take back "cd" and
    // the line break, two more take back "ab".
    buf.undo();
    buf.undo();
    buf.undo();
    assert_eq!(buf.get_cursor(), at(0, 2));
    assert_eq!(buf.get_line(), "ab");
    assert_eq!(buf.go_to_line(2), Err(EditError::OutOfRangeLine(2)));
    buf.undo();
    buf.undo();
    assert_eq!(buf.get_cursor(), at(0, 0));
    assert_eq!(lines_of(&mut buf), vec!["".to_string()]);

    // Nothing is left to undo.
    buf.undo();
    assert_eq!(buf.get_cursor(), at(0, 0));
    assert_eq!(lines_of(&mut buf), vec!["".to_string()]);
}

#[test]
fn delete_at_end_of_line_joins_and_undo_splits() {
    let mut buf = buffer_with(&["abc", "def"]);
    buf.move_end_of_line();
    assert_eq!(buf.get_cursor(), at(0, 3));
    buf.remove_at();
    assert_eq!(buf.get_cursor(), at(0, 3));
    assert_eq!(buf.get_line(), "abcdef");
    assert_eq!(buf.go_to_line(2), Err(EditError::OutOfRangeLine(2)));

    buf.undo();
    assert_eq!(buf.get_cursor(), at(0, 3));
    assert_eq!(lines_of(&mut buf), vec!["abc".to_string(), "def".to_string()]);
}

#[test]
fn go_to_line_out_of_range_changes_nothing() {
    let mut buf = buffer_with(&["one", "two", "three"]);
    buf.move_cursor_down(1);
    buf.move_cursor_right(2);
    let before_cursor = buf.get_cursor();
    let before_line = buf.get_line();
    assert_eq!(buf.go_to_line(5), Err(EditError::OutOfRangeLine(5)));
    assert_eq!(buf.get_cursor(), before_cursor);
    assert_eq!(buf.get_line(), before_line);
    assert_eq!(buf.go_to_line(0), Err(EditError::OutOfRangeLine(0)));
    assert_eq!(buf.go_to_line(4), Err(EditError::OutOfRangeLine(4)));
    assert_eq!(buf.go_to_line(usize::MAX), Err(EditError::OutOfRangeLine(usize::MAX)));
    assert_eq!(buf.get_cursor(), before_cursor);
    assert_eq!(lines_of(&mut buf), vec!["one".to_string(), "two".to_string(), "three".to_string()]);
}

#[test]
fn go_to_line_counts_from_one_and_reaches_the_last_line() {
    let mut buf = buffer_with(&["one", "two", "three"]);
    assert_eq!(buf.go_to_line(3), Ok(()));
    assert_eq!(buf.get_cursor(), at(2, 0));
    assert_eq!(buf.get_line(), "three");
    assert_eq!(buf.go_to_line(1), Ok(()));
    assert_eq!(buf.get_cursor(), at(0, 0));
    assert_eq!(buf.get_line(), "one");
}

#[test]
fn go_to_line_keeps_the_column_within_the_line() {
    let mut buf = buffer_with(&["a long line", "ab", "another long line"]);
    buf.move_end_of_line();
    assert_eq!(buf.get_cursor(), at(0, 11));
    assert_eq!(buf.go_to_line(3), Ok(()));
    assert_eq!(buf.get_cursor(), at(2, 11));
    assert_eq!(buf.go_to_line(2), Ok(()));
    assert_eq!(buf.get_cursor(), at(1, 2));
    buf.insert_char('c');
    assert_eq!(buf.get_line(), "abc");
}

#[test]
fn move_left_and_up_do_nothing_when_the_step_is_too_long() {
    let mut buf = buffer_with(&["hello", "world", "again"]);
    buf.move_cursor_down(2);
    buf.move_cursor_right(3);
    assert_eq!(buf.get_cursor(), at(2, 3));

    buf.move_cursor_left(4);
    assert_eq!(buf.get_cursor(), at(2, 3));
    buf.move_cursor_up(3);
    assert_eq!(buf.get_cursor(), at(2, 3));
    buf.move_cursor_left(usize::MAX);
    buf.move_cursor_up(usize::MAX);
    assert_eq!(buf.get_cursor(), at(2, 3));
    assert_eq!(buf.get_line(), "again");

    buf.move_cursor_left(3);
    assert_eq!(buf.get_cursor(), at(2, 0));
    buf.move_cursor_up(2);
    assert_eq!(buf.get_cursor(), at(0, 0));
    buf.move_cursor_left(1);
    buf.move_cursor_up(1);
    assert_eq!(buf.get_cursor(), at(0, 0));
}

#[test]
fn move_right_and_down_stop_at_the_end() {
    let mut buf = buffer_with(&["hello", "hi"]);
    buf.move_cursor_right(3);
    assert_eq!(buf.get_cursor(), at(0, 3));
    buf.move_cursor_right(3);
    assert_eq!(buf.get_cursor(), at(0, 5));
    buf.move_cursor_right(usize::MAX);
    assert_eq!(buf.get_cursor(), at(0, 5));
    buf.move_cursor_down(7);
    assert_eq!(buf.get_cursor(), at(1, 2));
    buf.move_cursor_down(usize::MAX);
    assert_eq!(buf.get_cursor(), at(1, 2));
}

#[test]
fn moving_to_a_shorter_line_pulls_the_column_in() {
    let mut buf = buffer_with(&["abcdef", "ab", "abcd"]);
    buf.move_end_of_line();
    buf.move_cursor_down(1);
    assert_eq!(buf.get_cursor(), at(1, 2));
    buf.move_cursor_down(1);
    assert_eq!(buf.get_cursor(), at(2, 2));
    buf.move_end_of_line();
    buf.move_cursor_up(1);
    assert_eq!(buf.get_cursor(), at(1, 2));
    buf.move_cursor_up(1);
    assert_eq!(buf.get_cursor(), at(0, 2));
}

#[test]
fn home_and_end() {
    let mut buf = buffer_with(&["hello"]);
    buf.move_end_of_line();
    assert_eq!(buf.get_cursor(), at(0, 5));
    buf.move_start_of_line();
    assert_eq!(buf.get_cursor(), at(0, 0));
}

#[test]
fn insert_in_the_middle_of_a_line() {
    let mut buf = buffer_with(&["held"]);
    buf.move_cursor_right(3);
    buf.insert_char('l');
    assert_eq!(buf.get_line(), "helld");
    assert_eq!(buf.get_cursor(), at(0, 4));
    buf.insert_char('o');
    assert_eq!(buf.get_line(), "hellod");
}

#[test]
fn newline_in_the_middle_of_a_line() {
    let mut buf = buffer_with(&["abcd", "ef"]);
    buf.move_cursor_right(1);
    buf.newline();
    assert_eq!(buf.get_cursor(), at(1, 0));
    assert_eq!(lines_of(&mut buf), vec!["a".to_string(), "bcd".to_string(), "ef".to_string()]);
}

#[test]
fn delete_removes_the_character_under_the_cursor() {
    let mut buf = buffer_with(&["abc"]);
    buf.move_cursor_right(1);
    buf.remove_at();
    assert_eq!(buf.get_line(), "ac");
    assert_eq!(buf.get_cursor(), at(0, 1));
    buf.undo();
    assert_eq!(buf.get_line(), "abc");
    assert_eq!(buf.get_cursor(), at(0, 1));
}

#[test]
fn backspace_removes_the_character_before_the_cursor() {
    let mut buf = buffer_with(&["abc"]);
    buf.move_cursor_right(2);
    buf.remove_before();
    assert_eq!(buf.get_line(), "ac");
    assert_eq!(buf.get_cursor(), at(0, 1));
    buf.undo();
    assert_eq!(buf.get_line(), "abc");
    assert_eq!(buf.get_cursor(), at(0, 2));
}

#[test]
fn backspace_at_start_of_line_joins_with_the_line_above() {
    let mut buf = buffer_with(&["abc", "def", "ghi"]);
    buf.move_cursor_down(1);
    buf.remove_before();
    assert_eq!(buf.get_cursor(), at(0, 3));
    assert_eq!(buf.get_line(), "abcdef");
    buf.undo();
    assert_eq!(buf.get_cursor(), at(1, 0));
    assert_eq!(lines_of(&mut buf), vec!["abc".to_string(), "def".to_string(), "ghi".to_string()]);
}

#[test]
fn delete_at_end_of_document_does_nothing_and_records_nothing() {
    let mut buf = buffer_with(&["ab", "cd"]);
    buf.insert_char('x');
    buf.move_cursor_down(1);
    buf.move_end_of_line();
    assert_eq!(buf.get_cursor(), at(1, 2));

    buf.remove_at();
    assert_eq!(buf.get_cursor(), at(1, 2));
    assert_eq!(buf.get_line(), "cd");

    // The one undo takes back the insertion: the delete left no entry.
    buf.undo();
    assert_eq!(buf.get_cursor(), at(0, 0));
    assert_eq!(lines_of(&mut buf), vec!["ab".to_string(), "cd".to_string()]);
    buf.undo();
    assert_eq!(lines_of(&mut buf), vec!["ab".to_string(), "cd".to_string()]);
}

#[test]
fn backspace_at_start_of_document_does_nothing_and_records_nothing() {
    let mut buf = buffer_with(&["ab", "cd"]);
    buf.move_end_of_line();
    buf.insert_char('x');
    buf.move_start_of_line();
    assert_eq!(buf.get_cursor(), at(0, 0));

    buf.remove_before();
    assert_eq!(buf.get_cursor(), at(0, 0));
    assert_eq!(buf.get_line(), "abx");

    buf.undo();
    assert_eq!(buf.get_cursor(), at(0, 2));
    assert_eq!(lines_of(&mut buf), vec!["ab".to_string(), "cd".to_string()]);
}

#[test]
fn an_edit_without_effect_does_not_discard_what_can_be_redone() {
    let mut buf = buffer_with(&["ab"]);
    buf.insert_char('x');
    buf.undo();
    assert_eq!(buf.get_line(), "ab");
    buf.remove_before();
    buf.redo();
    assert_eq!(buf.get_line(), "xab");
    assert_eq!(buf.get_cursor(), at(0, 1));
}

#[test]
fn undos_restore_text_and_cursor_after_a_mixed_sequence() {
    let mut buf = buffer_with(&["hello", "world"]);
    buf.move_cursor_down(1);
    buf.move_cursor_right(2);
    let start = buf.get_cursor();

    buf.insert_char('X');
    buf.newline();
    buf.remove_before();
    buf.remove_before();
    buf.remove_at();
    buf.move_end_of_line();
    buf.remove_at();
    buf.move_start_of_line();
    buf.remove_before();
    assert_eq!(buf.get_cursor(), at(0, 5));
    assert_eq!(lines_of(&mut buf), vec!["hellowold".to_string()]);

    for _ in 0..6 {
        buf.undo();
    }
    assert_eq!(buf.get_cursor(), at(1, 2));
    assert_eq!(lines_of(&mut buf), vec!["hello".to_string(), "world".to_string()]);
    assert_eq!(start, at(1, 2));
}

#[test]
fn equal_number_of_undos_restores_a_fresh_buffer_even_after_edits_without_effect() {
    let mut buf = buffer_with(&["ab"]);
    buf.remove_before();
    buf.insert_char('x');
    buf.newline();
    buf.move_cursor_down(1);
    buf.move_end_of_line();
    buf.remove_at();
    for _ in 0..4 {
        buf.undo();
    }
    assert_eq!(buf.get_cursor(), at(0, 0));
    assert_eq!(lines_of(&mut buf), vec!["ab".to_string()]);
}

#[test]
fn undo_then_redo_gives_back_what_each_edit_gave() {
    // insert
    let mut buf = buffer_with(&["ab", "cd"]);
    buf.move_cursor_right(1);
    buf.insert_char('x');
    buf.undo();
    buf.redo();
    assert_eq!(buf.get_cursor(), at(0, 2));
    assert_eq!(lines_of(&mut buf), vec!["axb".to_string(), "cd".to_string()]);

    // newline
    let mut buf = buffer_with(&["ab", "cd"]);
    buf.move_cursor_right(1);
    buf.newline();
    buf.undo();
    buf.redo();
    assert_eq!(buf.get_cursor(), at(1, 0));
    assert_eq!(lines_of(&mut buf), vec!["a".to_string(), "b".to_string(), "cd".to_string()]);

    // delete of a character
    let mut buf = buffer_with(&["ab", "cd"]);
    buf.remove_at();
    buf.undo();
    buf.redo();
    assert_eq!(buf.get_cursor(), at(0, 0));
    assert_eq!(lines_of(&mut buf), vec!["b".to_string(), "cd".to_string()]);

    // delete of a line break
    let mut buf = buffer_with(&["ab", "cd"]);
    buf.move_end_of_line();
    buf.remove_at();
    buf.undo();
    buf.redo();
    assert_eq!(buf.get_cursor(), at(0, 2));
    assert_eq!(lines_of(&mut buf), vec!["abcd".to_string()]);

    // backspace over a character
    let mut buf = buffer_with(&["ab", "cd"]);
    buf.move_end_of_line();
    buf.remove_before();
    buf.undo();
    assert_eq!(buf.get_cursor(), at(0, 2));
    buf.redo();
    assert_eq!(buf.get_cursor(), at(0, 1));
    assert_eq!(lines_of(&mut buf), vec!["a".to_string(), "cd".to_string()]);

    // backspace over a line break
    let mut buf = buffer_with(&["ab", "cd"]);
    buf.move_cursor_down(1);
    buf.remove_before();
    buf.undo();
    assert_eq!(buf.get_cursor(), at(1, 0));
    buf.redo();
    assert_eq!(buf.get_cursor(), at(0, 2));
    assert_eq!(lines_of(&mut buf), vec!["abcd".to_string()]);
}

#[test]
fn history_stays_sound_through_repeated_undo_and_redo() {
    let mut buf = buffer_with(&["x", "y"]);
    buf.move_cursor_down(1);
    buf.remove_before();
    for _ in 0..3 {
        buf.undo();
        assert_eq!(buf.get_cursor(), at(1, 0));
        assert_eq!(lines_of(&mut buf), vec!["x".to_string(), "y".to_string()]);
        buf.redo();
        assert_eq!(buf.get_cursor(), at(0, 1));
        assert_eq!(lines_of(&mut buf), vec!["xy".to_string()]);
    }
}

#[test]
fn redo_without_an_undo_does_nothing() {
    let mut buf = buffer_with(&["ab"]);
    buf.insert_char('x');
    buf.redo();
    assert_eq!(buf.get_cursor(), at(0, 1));
    assert_eq!(buf.get_line(), "xab");
}

#[test]
fn a_new_edit_after_an_undo_leaves_nothing_to_redo() {
    let mut buf = Buffer::empty();
    type_text(&mut buf, "abc");
    buf.undo();
    buf.undo();
    assert_eq!(buf.get_line(), "a");
    buf.insert_char('z');
    assert_eq!(buf.get_line(), "az");
    buf.redo();
    buf.redo();
    assert_eq!(buf.get_line(), "az");
    assert_eq!(buf.get_cursor(), at(0, 2));
    buf.undo();
    assert_eq!(buf.get_line(), "a");
    buf.redo();
    assert_eq!(buf.get_line(), "az");
}

#[test]
fn characters_outside_ascii_take_one_column_each() {
    let mut buf = Buffer::new("t".to_owned(), vec!["héllo wörld".to_string()]);
    buf.move_cursor_right(2);
    buf.insert_char('ß');
    assert_eq!(buf.get_cursor(), at(0, 3));
    assert_eq!(buf.get_line(), "héßllo wörld");
    buf.remove_before();
    buf.remove_before();
    assert_eq!(buf.get_line(), "hllo wörld");
    assert_eq!(buf.get_cursor(), at(0, 1));
    buf.move_end_of_line();
    assert_eq!(buf.get_cursor(), at(0, 10));
    buf.undo();
    buf.undo();
    buf.undo();
    assert_eq!(buf.get_line(), "héllo wörld");
    assert_eq!(buf.get_cursor(), at(0, 2));
}
