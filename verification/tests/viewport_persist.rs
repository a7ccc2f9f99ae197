//! Viewport reconciliation, persistence round trips, go-to-line
//! clamping, the dirty flag, and the reachable-state invariant.
use fox::{Action, Fox, KeyInput, Position, StatusMessage};

fn chars(s: &str) -> Vec<char> {
    s.chars().collect()
}

fn text_of(ed: &Fox) -> String {
    ed.to_text().into_iter().collect()
}

/// The invariant of spec and implementation: cursor and anchor inside
/// the document, cursor row inside the viewport window.
fn check_invariant(ed: &Fox) {
    let n = ed.line_count();
    assert!(n >= 1);
    let cur = ed.cursor();
    let anc = ed.anchor();
    assert!(cur.row < n);
    assert!(cur.col <= ed.line(cur.row).len());
    assert!(anc.row < n);
    assert!(anc.col <= ed.line(anc.row).len());
    let h = ed.terminal_height();
    let visible = if h >= 3 { h - 2 } else { 1 };
    assert!(ed.scroll_offset() <= cur.row);
    assert!(cur.row < ed.scroll_offset() + visible);
}

#[test]
fn save_then_reload_restores_lines() {
    let mut ed = Fox::new(&chars("abc\n\ndef"), 24);
    ed.push_char('x');
    ed.go_to_line(2);
    ed.enter();
    let saved = ed.to_text();
    let reloaded = Fox::new(&saved, 24);
    assert_eq!(reloaded.line_count(), ed.line_count());
    for i in 0..ed.line_count() {
        assert_eq!(reloaded.line(i), ed.line(i));
    }
}

#[test]
fn roundtrip_with_trailing_line_break() {
    let ed = Fox::new(&chars("ab\n"), 24);
    assert_eq!(ed.line_count(), 2);
    assert_eq!(ed.line(0), &chars("ab"));
    assert_eq!(ed.line(1), &chars(""));
    assert_eq!(text_of(&ed), "ab\n");
}

#[test]
fn empty_text_seeds_single_empty_line() {
    let ed = Fox::new(&chars(""), 24);
    assert_eq!(ed.line_count(), 1);
    assert_eq!(ed.line(0), &chars(""));
    assert_eq!(text_of(&ed), "");
}

#[test]
fn join_uses_single_separators_exactly() {
    let ed = Fox::new(&chars("a\nb\nc"), 24);
    assert_eq!(text_of(&ed), "a\nb\nc");
}

#[test]
fn goto_out_of_range_clamps_to_last_row() {
    let mut ed = Fox::new(&chars("a\nb\nc"), 24);
    ed.go_to_line(7);
    assert_eq!(ed.cursor(), Position { row: 2, col: 0 });
    assert_eq!(ed.anchor(), Position { row: 2, col: 0 });
}

#[test]
fn goto_in_range_is_exact() {
    let mut ed = Fox::new(&chars("a\nb\nc"), 24);
    ed.go_to_line(1);
    assert_eq!(ed.cursor(), Position { row: 1, col: 0 });
}

#[test]
fn scroll_follows_cursor_down_and_up() {
    let mut ed = Fox::new(&chars("0\n1\n2\n3\n4\n5"), 5);
    ed.cursor_vertical(4);
    assert_eq!(ed.cursor().row, 4);
    assert_eq!(ed.scroll_offset(), 2);
    ed.cursor_vertical(-4);
    assert_eq!(ed.cursor().row, 0);
    assert_eq!(ed.scroll_offset(), 0);
}

#[test]
fn goto_reconciles_scroll_exactly() {
    let mut ed = Fox::new(&chars("0\n1\n2\n3\n4\n5\n6\n7"), 5);
    ed.go_to_line(5);
    assert_eq!(ed.scroll_offset(), 3);
    ed.go_to_line(0);
    assert_eq!(ed.scroll_offset(), 0);
}

#[test]
fn find_reconciles_with_bottom_margin() {
    let mut ed = Fox::new(&chars("a\na\na\na\na\na\na\na\na\nzz"), 6);
    let found = ed.find_next(&chars("zz"));
    assert!(found);
    assert_eq!(ed.cursor().row, 9);
    assert_eq!(ed.scroll_offset(), 7);
}

#[test]
fn set_height_reconciles_viewport() {
    let mut ed = Fox::new(&chars("0\n1\n2\n3\n4\n5\n6\n7\n8\n9"), 5);
    ed.go_to_line(9);
    assert_eq!(ed.scroll_offset(), 7);
    ed.set_height(20);
    assert_eq!(ed.scroll_offset(), 7);
    ed.set_height(3);
    assert_eq!(ed.scroll_offset(), 9);
    check_invariant(&ed);
}

#[test]
fn tiny_terminal_still_keeps_cursor_visible() {
    let mut ed = Fox::new(&chars("a\nb\nc"), 0);
    ed.cursor_vertical(2);
    check_invariant(&ed);
    assert_eq!(ed.scroll_offset(), 2);
}

#[test]
fn invariant_holds_along_a_session() {
    let mut ed = Fox::new(&chars("fn main() {\n    body\n}"), 4);
    let keys = [
        KeyInput::Char('x'),
        KeyInput::Down,
        KeyInput::Down,
        KeyInput::Down,
        KeyInput::Right,
        KeyInput::Right,
        KeyInput::Enter,
        KeyInput::Backspace,
        KeyInput::Up,
        KeyInput::ShiftRight,
        KeyInput::ShiftRight,
        KeyInput::Backspace,
        KeyInput::Delete,
        KeyInput::Left,
        KeyInput::Left,
        KeyInput::Left,
        KeyInput::CtrlSwapDown,
        KeyInput::CtrlSwapUp,
        KeyInput::CtrlFind,
        KeyInput::Char('b'),
        KeyInput::Enter,
        KeyInput::Escape,
        KeyInput::CtrlGoto,
        KeyInput::Char('2'),
        KeyInput::Enter,
    ];
    for key in keys {
        let act = ed.handle_key(key);
        assert_ne!(act, Action::Quit);
        check_invariant(&ed);
    }
}

#[test]
fn dirty_flag_lifecycle() {
    let mut ed = Fox::new(&chars("abc"), 24);
    assert!(!ed.is_dirty());
    assert_eq!(ed.status(), StatusMessage::Empty);
    ed.push_char('d');
    assert!(ed.is_dirty());
    ed.mark_saved();
    assert!(!ed.is_dirty());
    assert_eq!(ed.status(), StatusMessage::Saved);
    ed.clear_status();
    assert_eq!(ed.status(), StatusMessage::Empty);
}

#[test]
fn config_default_theme() {
    let config = fox::config::Config::default();
    assert_eq!(config.theme.name, "gruvbox-dark");
    assert!(!config.theme.light_fix);
}
