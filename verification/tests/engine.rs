//! Tests for the text buffer, the cursor and scroll engine, and the
//! input decisions.

use termview::cursor::update::handle_cursor_move;
use termview::output::cursor::CursorBuffer;
use termview::cursor::scroll::scroll;
use termview::cursor::{CursorDirection, CursorMoveEvent, CursorOffset, CursorPosition};
use termview::input::data::{Row, RowBuffer};
use termview::input::{Input, InputAction, InputMode, Key, KeyPress, Modifier};
use termview::output::OutputSize;

fn chars(s: &str) -> Vec<char> {
    s.chars().collect()
}

fn buffer_from(text: &str) -> RowBuffer {
    RowBuffer::from_text(chars("test.txt"), &chars(text))
}

#[test]
fn tab_expansion_from_column_one() {
    let row = Row::new(chars("a\tb"));
    assert_eq!(row.render_chars(), &chars("a   b"));
    assert_eq!(row.render_chars().len(), 5);
}

#[test]
fn tab_expansion_at_stop_emits_full_width() {
    let row = Row::new(chars("\t"));
    assert_eq!(row.render_chars(), &chars("    "));
}

#[test]
fn tab_expansion_one_short_of_stop() {
    let row = Row::new(chars("abc\tx"));
    assert_eq!(row.render_chars(), &chars("abc x"));
}

#[test]
fn render_column_round_trip() {
    let row = Row::new(chars("a\tb\tcd"));
    assert_eq!(row.get_len_with_offset(0), 0);
    let len = chars("a\tb\tcd").len();
    assert_eq!(row.get_len_with_offset(len), row.render_chars().len());
    // An offset past the end saturates to the full render length.
    assert_eq!(row.get_len_with_offset(1000), row.render_chars().len());
}

#[test]
fn render_column_intermediate_offsets() {
    let row = Row::new(chars("a\tb"));
    assert_eq!(row.get_len_with_offset(1), 1);
    assert_eq!(row.get_len_with_offset(2), 4);
    assert_eq!(row.get_len_with_offset(3), 5);
}

#[test]
fn from_text_splits_lines() {
    let b = buffer_from("foo\nbarbaz");
    assert_eq!(b.rows_count(), 2);
    assert_eq!(b.get_row_at(0).contents_len(), 3);
    assert_eq!(b.get_row_at(0).contents_chars(), &chars("foo"));
    assert_eq!(b.get_row_at(1).contents_len(), 6);
    assert_eq!(b.get_char_count(), 9);
    assert_eq!(b.get_buffer_name(), &chars("test.txt"));
}

#[test]
fn from_text_final_newline_adds_no_line() {
    let b = buffer_from("foo\n");
    assert_eq!(b.rows_count(), 1);
    let b2 = buffer_from("foo\n\n");
    assert_eq!(b2.rows_count(), 2);
    assert_eq!(b2.get_row_at(1).contents_len(), 0);
}

#[test]
fn from_text_strips_carriage_return_before_newline() {
    let b = buffer_from("a\r\nb\r");
    assert_eq!(b.rows_count(), 2);
    assert_eq!(b.get_render(0), &chars("a"));
    // A carriage return with no newline after it stays in the line.
    assert_eq!(b.get_row_at(1).contents_len(), 2);
}

#[test]
fn from_text_empty_gives_empty_buffer() {
    let b = buffer_from("");
    assert_eq!(b.rows_count(), 0);
    assert_eq!(b.get_char_count(), 0);
}

#[test]
fn empty_buffer_name_and_counts() {
    let b = RowBuffer::new();
    assert_eq!(b.rows_count(), 0);
    assert_eq!(b.get_char_count(), 0);
    assert_eq!(b.get_buffer_name(), &chars("Empty Buffer"));
}

#[test]
fn render_row_at_keeps_lines() {
    let mut b = buffer_from("a\tb\nxy");
    b.render_row_at(0);
    assert_eq!(b.get_render(0), &chars("a   b"));
    b.render_row_at(99);
    assert_eq!(b.rows_count(), 2);
}

#[test]
fn moves_clamp_and_saturate() {
    let b = buffer_from("foo\nbar\nbaz");
    let size = OutputSize::new(80, 24);
    let mut pos = CursorPosition { x: 0, y: 0 };
    // Underflow on both axes is saturated.
    let events = vec![
        CursorMoveEvent { direction: CursorDirection::Left },
        CursorMoveEvent { direction: CursorDirection::Up },
    ];
    handle_cursor_move(&b, &size, &mut pos, &events);
    assert_eq!(pos, CursorPosition { x: 0, y: 0 });
    // Moving down stops at the row count.
    let downs = vec![CursorMoveEvent { direction: CursorDirection::Down }; 10];
    handle_cursor_move(&b, &size, &mut pos, &downs);
    assert_eq!(pos.y, 3);
    // Moving right stops at the viewport's row extent (the source keeps
    // the swapped-axis bound on purpose).
    let rights = vec![CursorMoveEvent { direction: CursorDirection::Right }; 30];
    handle_cursor_move(&b, &size, &mut pos, &rights);
    assert_eq!(pos.x, 24);
}

#[test]
fn scroll_keeps_cursor_inside_row_window() {
    let b = buffer_from("l0\nl1\nl2\nl3\nl4");
    let size = OutputSize::new(10, 2);
    let mut pos = CursorPosition { x: 0, y: 0 };
    let mut off = CursorOffset { row: 0, column: 0, render: 0 };
    for _ in 0..4 {
        let ev = vec![CursorMoveEvent { direction: CursorDirection::Down }];
        handle_cursor_move(&b, &size, &mut pos, &ev);
        scroll(&mut off, &pos, &size, &b);
        assert!(off.row <= pos.y);
        assert!(pos.y < off.row + size.rows);
    }
    assert_eq!(pos.y, 4);
    assert_eq!(off.row, 3);
}

#[test]
fn scroll_keeps_render_column_visible() {
    // On tab-heavy lines the derived render column passes the right
    // edge and the column anchor must follow it.
    let b = buffer_from("\t\t\t\t\n\t\t\t\t\n\t\t\t\t\n\t\t\t\t");
    let size = OutputSize::new(4, 10);
    let mut pos = CursorPosition { x: 0, y: 0 };
    let mut off = CursorOffset { row: 0, column: 0, render: 0 };
    for _ in 0..3 {
        let ev = vec![CursorMoveEvent { direction: CursorDirection::Down }];
        handle_cursor_move(&b, &size, &mut pos, &ev);
        scroll(&mut off, &pos, &size, &b);
    }
    assert_eq!(pos.y, 3);
    assert_eq!(off.render, 12);
    assert_eq!(off.column, 9);
    assert!(off.render < off.column + size.columns);
}

#[test]
fn down_then_rights_clamps_to_declared_bound() {
    // Two lines, a one-row three-column viewport: one down then four
    // rights must clamp the column to the viewport's row extent and
    // keep the derived render column visible.
    let b = buffer_from("foo\nbarbaz");
    let size = OutputSize::new(3, 1);
    let mut pos = CursorPosition { x: 0, y: 0 };
    let mut off = CursorOffset { row: 0, column: 0, render: 0 };
    let down = vec![CursorMoveEvent { direction: CursorDirection::Down }];
    handle_cursor_move(&b, &size, &mut pos, &down);
    scroll(&mut off, &pos, &size, &b);
    for _ in 0..4 {
        let right = vec![CursorMoveEvent { direction: CursorDirection::Right }];
        handle_cursor_move(&b, &size, &mut pos, &right);
        scroll(&mut off, &pos, &size, &b);
    }
    assert_eq!(pos, CursorPosition { x: 1, y: 1 });
    assert_eq!(off.row, 1);
    assert_eq!(off.column, 0);
    assert_eq!(off.render, 1);
    assert!(off.render < off.column + size.columns);
}

#[test]
fn from_char_maps_navigation_keys() {
    assert_eq!(
        CursorMoveEvent::from_char('h').map(|e| e.direction),
        Some(CursorDirection::Left)
    );
    assert_eq!(
        CursorMoveEvent::from_char('j').map(|e| e.direction),
        Some(CursorDirection::Down)
    );
    assert_eq!(
        CursorMoveEvent::from_char('k').map(|e| e.direction),
        Some(CursorDirection::Up)
    );
    assert_eq!(
        CursorMoveEvent::from_char('l').map(|e| e.direction),
        Some(CursorDirection::Right)
    );
    assert!(CursorMoveEvent::from_char('x').is_none());
}

#[test]
fn input_decisions() {
    let mut input = Input::new();
    assert_eq!(input.mode, InputMode::Normal);
    // Control-q in normal mode quits.
    let quit = input.process_input(KeyPress { code: Key::Char('q'), modifier: Modifier::Control });
    assert_eq!(quit, InputAction::Quit);
    // `i` enters insert mode.
    let act = input.process_input(KeyPress { code: Key::Char('i'), modifier: Modifier::Plain });
    assert_eq!(act, InputAction::Idle);
    assert_eq!(input.mode, InputMode::Insert);
    // Navigation keys do not move in insert mode.
    let act = input.process_input(KeyPress { code: Key::Char('j'), modifier: Modifier::Plain });
    assert_eq!(act, InputAction::Idle);
    // Control-q does not quit in insert mode.
    let act = input.process_input(KeyPress { code: Key::Char('q'), modifier: Modifier::Control });
    assert_eq!(act, InputAction::Idle);
    // Escape returns to normal mode.
    let act = input.process_input(KeyPress { code: Key::Esc, modifier: Modifier::Plain });
    assert_eq!(act, InputAction::Idle);
    assert_eq!(input.mode, InputMode::Normal);
    // Navigation keys move in normal mode.
    let act = input.run(KeyPress { code: Key::Char('j'), modifier: Modifier::Plain });
    assert_eq!(act, InputAction::Move(CursorDirection::Down));
}

#[test]
fn cursor_buffer_mirrors_engine() {
    let b = buffer_from("foo\nbarbaz");
    let size = OutputSize::new(3, 1);
    let mut cb = CursorBuffer::new(size);
    cb.update_pos('j', b.rows_count(), &b);
    for _ in 0..4 {
        cb.update_pos('l', b.rows_count(), &b);
    }
    assert_eq!(cb.row_offset(), 1);
    let off = cb.get_offset();
    assert_eq!(off.row, 1);
    assert_eq!(off.column, 0);
    // A key that is no navigation key moves nothing.
    cb.update_pos('z', b.rows_count(), &b);
    assert_eq!(cb.row_offset(), 1);
}
