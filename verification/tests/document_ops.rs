//! Editing-engine behavior: insertion, deletion, line merge and split,
//! selections (including ones spanning several rows), and line swaps.
use fox::{Fox, Position};

fn chars(s: &str) -> Vec<char> {
    s.chars().collect()
}

fn editor(s: &str) -> Fox {
    Fox::new(&chars(s), 24)
}

#[test]
fn insert_char_advances_cursor() {
    let mut ed = editor("");
    ed.push_char('a');
    ed.push_char('b');
    assert_eq!(ed.line_count(), 1);
    assert_eq!(ed.line(0), &chars("ab"));
    assert_eq!(ed.cursor(), Position { row: 0, col: 2 });
    assert!(ed.is_dirty());
}

#[test]
fn insert_then_backspace_restores() {
    let mut ed = editor("abc\ndef");
    ed.cursor_horizontal(1);
    assert_eq!(ed.cursor(), Position { row: 0, col: 1 });
    ed.push_char('X');
    assert_eq!(ed.line(0), &chars("aXbc"));
    ed.pop_char();
    assert_eq!(ed.line_count(), 2);
    assert_eq!(ed.line(0), &chars("abc"));
    assert_eq!(ed.line(1), &chars("def"));
    assert_eq!(ed.cursor(), Position { row: 0, col: 1 });
    assert_eq!(ed.anchor(), Position { row: 0, col: 1 });
}

#[test]
fn backspace_merges_lines() {
    let mut ed = editor("ab\ncd");
    ed.go_to_line(1);
    assert_eq!(ed.cursor(), Position { row: 1, col: 0 });
    ed.pop_char();
    assert_eq!(ed.line_count(), 1);
    assert_eq!(ed.line(0), &chars("abcd"));
    assert_eq!(ed.cursor(), Position { row: 0, col: 2 });
}

#[test]
fn backspace_at_origin_is_noop() {
    let mut ed = editor("ab");
    ed.pop_char();
    assert_eq!(ed.line(0), &chars("ab"));
    assert_eq!(ed.cursor(), Position { row: 0, col: 0 });
    assert!(!ed.is_dirty());
}

#[test]
fn delete_forward_removes_char_in_place() {
    let mut ed = editor("abc");
    ed.pop_char_del();
    assert_eq!(ed.line(0), &chars("bc"));
    assert_eq!(ed.cursor(), Position { row: 0, col: 0 });
    assert!(ed.is_dirty());
}

#[test]
fn delete_forward_merges_next_line() {
    let mut ed = editor("ab\ncd");
    ed.cursor_end_of_line();
    ed.pop_char_del();
    assert_eq!(ed.line_count(), 1);
    assert_eq!(ed.line(0), &chars("abcd"));
    assert_eq!(ed.cursor(), Position { row: 0, col: 2 });
}

#[test]
fn delete_forward_at_document_end_is_noop() {
    let mut ed = editor("ab\ncd");
    ed.go_to_line(1);
    ed.cursor_end_of_line();
    ed.pop_char_del();
    assert_eq!(ed.line_count(), 2);
    assert_eq!(ed.line(0), &chars("ab"));
    assert_eq!(ed.line(1), &chars("cd"));
    assert!(!ed.is_dirty());
}

#[test]
fn split_line_at_end_inserts_empty_line() {
    let mut ed = editor("abc\ndef");
    ed.cursor_end_of_line();
    assert_eq!(ed.cursor(), Position { row: 0, col: 3 });
    ed.enter();
    assert_eq!(ed.line_count(), 3);
    assert_eq!(ed.line(0), &chars("abc"));
    assert_eq!(ed.line(1), &chars(""));
    assert_eq!(ed.line(2), &chars("def"));
    assert_eq!(ed.cursor(), Position { row: 1, col: 0 });
}

#[test]
fn split_line_in_middle() {
    let mut ed = editor("abcd");
    ed.cursor_horizontal(1);
    ed.cursor_horizontal(1);
    ed.enter();
    assert_eq!(ed.line_count(), 2);
    assert_eq!(ed.line(0), &chars("ab"));
    assert_eq!(ed.line(1), &chars("cd"));
    assert_eq!(ed.cursor(), Position { row: 1, col: 0 });
}

#[test]
fn swap_down_moves_line_and_follows() {
    let mut ed = editor("a\nb\nc");
    ed.swap_down();
    assert_eq!(ed.line(0), &chars("b"));
    assert_eq!(ed.line(1), &chars("a"));
    assert_eq!(ed.line(2), &chars("c"));
    assert_eq!(ed.cursor(), Position { row: 1, col: 0 });
    assert!(ed.is_dirty());
}

#[test]
fn swap_up_moves_line_and_follows() {
    let mut ed = editor("a\nb\nc");
    ed.go_to_line(2);
    ed.swap_up();
    assert_eq!(ed.line(0), &chars("a"));
    assert_eq!(ed.line(1), &chars("c"));
    assert_eq!(ed.line(2), &chars("b"));
    assert_eq!(ed.cursor(), Position { row: 1, col: 0 });
}

#[test]
fn swap_at_boundaries_is_noop() {
    let mut ed = editor("a\nb");
    ed.swap_up();
    assert_eq!(ed.line(0), &chars("a"));
    assert_eq!(ed.line(1), &chars("b"));
    assert!(!ed.is_dirty());
    ed.go_to_line(1);
    ed.swap_down();
    assert_eq!(ed.line(0), &chars("a"));
    assert_eq!(ed.line(1), &chars("b"));
    assert!(!ed.is_dirty());
}

#[test]
fn single_row_selection_backspace_deletes_range() {
    let mut ed = editor("hello");
    ed.highlight_horizontal(2);
    assert_eq!(ed.anchor(), Position { row: 0, col: 2 });
    assert_eq!(ed.cursor(), Position { row: 0, col: 0 });
    ed.pop_char();
    assert_eq!(ed.line(0), &chars("llo"));
    assert_eq!(ed.cursor(), Position { row: 0, col: 0 });
    assert_eq!(ed.anchor(), Position { row: 0, col: 0 });
}

#[test]
fn multi_row_selection_backspace_merges_partials() {
    let mut ed = editor("ab\ncd");
    ed.cursor_horizontal(1);
    ed.highlight_horizontal(2);
    assert_eq!(ed.anchor(), Position { row: 1, col: 0 });
    ed.highlight_horizontal(1);
    assert_eq!(ed.anchor(), Position { row: 1, col: 1 });
    assert_eq!(ed.cursor(), Position { row: 0, col: 1 });
    ed.pop_char();
    assert_eq!(ed.line_count(), 1);
    assert_eq!(ed.line(0), &chars("ad"));
    assert_eq!(ed.cursor(), Position { row: 0, col: 1 });
}

#[test]
fn multi_row_selection_enclosed_lines_removed() {
    let mut ed = editor("abc\nxyz\ndef");
    ed.cursor_horizontal(1);
    ed.highlight_horizontal(3);
    assert_eq!(ed.anchor(), Position { row: 1, col: 0 });
    ed.highlight_horizontal(4);
    assert_eq!(ed.anchor(), Position { row: 2, col: 0 });
    ed.highlight_horizontal(1);
    assert_eq!(ed.anchor(), Position { row: 2, col: 1 });
    ed.pop_char();
    assert_eq!(ed.line_count(), 1);
    assert_eq!(ed.line(0), &chars("aef"));
    assert_eq!(ed.cursor(), Position { row: 0, col: 1 });
}

#[test]
fn insert_replaces_selection() {
    let mut ed = editor("hello");
    ed.highlight_horizontal(2);
    ed.push_char('X');
    assert_eq!(ed.line(0), &chars("Xllo"));
    assert_eq!(ed.cursor(), Position { row: 0, col: 1 });
}

#[test]
fn horizontal_wraps_right_to_next_line() {
    let mut ed = editor("ab\ncd");
    ed.cursor_end_of_line();
    ed.cursor_horizontal(1);
    assert_eq!(ed.cursor(), Position { row: 1, col: 0 });
}

#[test]
fn horizontal_wraps_left_to_previous_line_end() {
    let mut ed = editor("ab\ncd");
    ed.go_to_line(1);
    ed.cursor_horizontal(-1);
    assert_eq!(ed.cursor(), Position { row: 0, col: 2 });
}

#[test]
fn horizontal_clamped_at_document_corners() {
    let mut ed = editor("ab");
    ed.cursor_horizontal(-1);
    assert_eq!(ed.cursor(), Position { row: 0, col: 0 });
    ed.cursor_end_of_line();
    ed.cursor_horizontal(1);
    assert_eq!(ed.cursor(), Position { row: 0, col: 2 });
}

#[test]
fn extend_then_move_collapses_to_right_endpoint() {
    let mut ed = editor("hello");
    ed.highlight_horizontal(2);
    assert_eq!(ed.anchor(), Position { row: 0, col: 2 });
    assert_eq!(ed.cursor(), Position { row: 0, col: 0 });
    ed.cursor_horizontal(1);
    assert_eq!(ed.cursor(), Position { row: 0, col: 2 });
    assert_eq!(ed.anchor(), Position { row: 0, col: 2 });
}

#[test]
fn move_left_collapses_to_left_endpoint() {
    let mut ed = editor("hello");
    ed.cursor_horizontal(1);
    ed.cursor_horizontal(1);
    ed.highlight_horizontal(-2);
    assert_eq!(ed.anchor(), Position { row: 0, col: 0 });
    ed.cursor_horizontal(-1);
    assert_eq!(ed.cursor(), Position { row: 0, col: 0 });
}

#[test]
fn vertical_clamps_column_to_shorter_line() {
    let mut ed = editor("abcd\nx");
    ed.cursor_end_of_line();
    ed.cursor_vertical(1);
    assert_eq!(ed.cursor(), Position { row: 1, col: 1 });
    ed.cursor_vertical(1);
    assert_eq!(ed.cursor(), Position { row: 1, col: 1 });
    ed.cursor_vertical(-5);
    assert_eq!(ed.cursor(), Position { row: 0, col: 1 });
}

#[test]
fn tab_counts_as_one_column() {
    let mut ed = editor("");
    ed.push_char('\t');
    assert_eq!(ed.line(0), &chars("\t"));
    assert_eq!(ed.cursor(), Position { row: 0, col: 1 });
}
