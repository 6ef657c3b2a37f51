use editor_core::modal::Modal;

fn text(modal: &Modal) -> String {
    modal.line.iter().collect()
}

fn modal_with(line: &str, col: usize) -> Modal {
    let mut modal = Modal::new("Prompt".to_owned()).insert(line);
    modal.move_start_of_line();
    modal.move_cursor_right(col);
    modal
}

#[test]
fn a_new_modal_is_empty() {
    let modal = Modal::new("Go to line".to_owned());
    assert_eq!(modal.name, "Go to line");
    assert_eq!(text(&modal), "");
    assert_eq!(modal.col, 0);
}

#[test]
fn typing_moves_the_column() {
    let mut modal = Modal::new("Prompt".to_owned());
    modal.insert_char('1');
    modal.insert_char('3');
    assert_eq!(text(&modal), "13");
    assert_eq!(modal.col, 2);
    modal.move_cursor_left(1);
    modal.insert_char('2');
    assert_eq!(text(&modal), "123");
    assert_eq!(modal.col, 2);
}

#[test]
fn insert_puts_the_text_at_the_column() {
    let modal = modal_with("held", 3);
    let modal = modal.insert("lo wor");
    assert_eq!(text(&modal), "hello word");
    assert_eq!(modal.col, 9);
    let modal = modal.insert("");
    assert_eq!(text(&modal), "hello word");
    assert_eq!(modal.col, 9);
    let modal = Modal::new("Prompt".to_owned()).insert("é!");
    assert_eq!(text(&modal), "é!");
    assert_eq!(modal.col, 2);
}

#[test]
fn move_left_does_nothing_when_the_step_is_too_long() {
    let mut modal = modal_with("abc", 2);
    modal.move_cursor_left(3);
    assert_eq!(modal.col, 2);
    modal.move_cursor_left(usize::MAX);
    assert_eq!(modal.col, 2);
    modal.move_cursor_left(2);
    assert_eq!(modal.col, 0);
    modal.move_cursor_left(1);
    assert_eq!(modal.col, 0);
}

#[test]
fn move_right_stops_at_the_end() {
    let mut modal = modal_with("abc", 1);
    modal.move_cursor_right(1);
    assert_eq!(modal.col, 2);
    modal.move_cursor_right(5);
    assert_eq!(modal.col, 3);
    modal.move_cursor_right(usize::MAX);
    assert_eq!(modal.col, 3);
}

#[test]
fn home_and_end_in_a_modal() {
    let mut modal = modal_with("abc", 1);
    modal.move_end_of_line();
    assert_eq!(modal.col, 3);
    modal.move_start_of_line();
    assert_eq!(modal.col, 0);
}

#[test]
fn delete_in_a_modal() {
    let mut modal = modal_with("abc", 1);
    modal.remove_at();
    assert_eq!(text(&modal), "ac");
    assert_eq!(modal.col, 1);
    modal.remove_at();
    assert_eq!(text(&modal), "a");
    assert_eq!(modal.col, 1);
}

#[test]
fn delete_at_the_end_of_a_modal_does_nothing() {
    let mut modal = modal_with("abc", 3);
    modal.remove_at();
    assert_eq!(text(&modal), "abc");
    assert_eq!(modal.col, 3);
    let mut empty = Modal::new("Prompt".to_owned());
    empty.remove_at();
    assert_eq!(text(&empty), "");
    assert_eq!(empty.col, 0);
}

#[test]
fn backspace_in_a_modal() {
    let mut modal = modal_with("abc", 2);
    modal.remove_before();
    assert_eq!(text(&modal), "ac");
    assert_eq!(modal.col, 1);
    modal.remove_before();
    assert_eq!(text(&modal), "c");
    assert_eq!(modal.col, 0);
    modal.remove_before();
    assert_eq!(text(&modal), "c");
    assert_eq!(modal.col, 0);
}
