use editor_core::cursor::Cursor;
use std::cmp::Ordering;

fn at(line: usize, col: usize) -> Cursor {
    Cursor { line, col }
}

#[test]
fn an_earlier_line_comes_first_whatever_the_columns() {
    assert!(at(0, 9) < at(1, 0));
    assert!(at(2, 0) > at(1, 7));
    assert_eq!(at(0, 9).partial_cmp(&at(1, 0)), Some(Ordering::Less));
    assert_eq!(at(3, 0).partial_cmp(&at(1, 5)), Some(Ordering::Greater));
}

#[test]
fn on_one_line_the_smaller_column_comes_first() {
    assert!(at(4, 1) < at(4, 2));
    assert!(at(4, 2) > at(4, 1));
    assert!(at(4, 2) >= at(4, 2));
    assert!(at(4, 2) <= at(4, 2));
    assert_eq!(at(4, 1).partial_cmp(&at(4, 2)), Some(Ordering::Less));
    assert_eq!(at(4, 2).partial_cmp(&at(4, 1)), Some(Ordering::Greater));
}

#[test]
fn equal_cursors_compare_equal() {
    assert_eq!(at(4, 2), at(4, 2));
    assert_ne!(at(4, 2), at(2, 4));
    assert_eq!(at(4, 2).partial_cmp(&at(4, 2)), Some(Ordering::Equal));
    assert!(!(at(4, 2) < at(4, 2)));
}
