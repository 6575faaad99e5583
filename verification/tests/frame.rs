//! Tests for frame assembly: row drawing, the status line, the frame
//! schedule and whole-frame output.

use termview::cursor::{CursorDirection, CursorOffset, CursorPosition};
use termview::output::cursor::CursorBuffer as ViewCursorBuffer;
use termview::input::data::RowBuffer;
use termview::input::InputMode;
use termview::output::buffer::OutputBuffer;
use termview::output::status::{wrap_reversed, StatusBar};
use termview::output::{draw_rows, flush_buffer, OutputSize};
use termview::schedule::{standard_schedule, Editor, FrameStep, Schedule};
use termview::status::fill::fill_bar;
use termview::status::StatusBuffer;

fn chars(s: &str) -> Vec<char> {
    s.chars().collect()
}

fn text_of(v: &[char]) -> String {
    v.iter().collect()
}

/// Drops every `ESC [ ... <letter>` control sequence, keeping visible text.
fn strip_ansi(v: &[char]) -> String {
    let mut out = String::new();
    let mut i = 0;
    while i < v.len() {
        if v[i] == '\u{1b}' && i + 1 < v.len() && v[i + 1] == '[' {
            i += 2;
            while i < v.len() && !v[i].is_ascii_alphabetic() {
                i += 1;
            }
            i += 1;
        } else {
            out.push(v[i]);
            i += 1;
        }
    }
    out
}

#[test]
fn draw_rows_slices_render_lines() {
    let b = RowBuffer::from_text(chars("t"), &chars("abcdef\nxy"));
    let size = OutputSize::new(4, 3);
    let offset = CursorOffset { row: 0, column: 1, render: 0 };
    let mut buffer = OutputBuffer::new();
    draw_rows(&size, &b, &offset, &mut buffer);
    let frame = flush_buffer(&mut buffer);
    assert_eq!(text_of(&frame), "bcde\u{1b}[K\r\ny\u{1b}[K\r\n~\u{1b}[K");
}

#[test]
fn draw_rows_clamps_slice_at_line_end() {
    let b = RowBuffer::from_text(chars("t"), &chars("ab"));
    let size = OutputSize::new(10, 1);
    // A column offset past the line's end yields an empty slice, not a
    // panic.
    let offset = CursorOffset { row: 0, column: 5, render: 0 };
    let mut buffer = OutputBuffer::new();
    draw_rows(&size, &b, &offset, &mut buffer);
    let frame = flush_buffer(&mut buffer);
    assert_eq!(text_of(&frame), "\u{1b}[K");
}

#[test]
fn empty_buffer_welcome_row_is_centered() {
    let b = RowBuffer::new();
    let size = OutputSize::new(40, 9);
    let offset = CursorOffset { row: 0, column: 0, render: 0 };
    let mut buffer = OutputBuffer::new();
    draw_rows(&size, &b, &offset, &mut buffer);
    let frame = flush_buffer(&mut buffer);
    let text = text_of(&frame);
    let rows: Vec<&str> = text.split("\r\n").collect();
    assert_eq!(rows.len(), 9);
    for (i, row) in rows.iter().enumerate() {
        if i == 3 {
            // (40 - 19) / 2 = 10 cells of lead-in: the placeholder and
            // nine spaces, then the label.
            assert_eq!(*row, "~         welcome to termview\u{1b}[K");
        } else {
            assert_eq!(*row, "~\u{1b}[K");
        }
    }
}

#[test]
fn narrow_welcome_row_truncates_label() {
    let b = RowBuffer::new();
    let size = OutputSize::new(7, 3);
    let offset = CursorOffset { row: 0, column: 0, render: 0 };
    let mut buffer = OutputBuffer::new();
    draw_rows(&size, &b, &offset, &mut buffer);
    let frame = flush_buffer(&mut buffer);
    let text = text_of(&frame);
    let rows: Vec<&str> = text.split("\r\n").collect();
    assert_eq!(rows[1], "welcome\u{1b}[K");
}

#[test]
fn status_line_visible_width_is_viewport_width() {
    // Left segment: glyph (1) + space + count "0" (1) + space + name
    // "Empty Buffer" (12) = 16 visible cells; right segment 13; with
    // two edge spaces each side, 43 columns leave exactly 10 joining
    // spaces.
    let b = RowBuffer::new();
    let size = OutputSize::new(43, 5);
    let mode = InputMode::Normal;
    let mut status = StatusBuffer::new();
    fill_bar(&mut status, &b, &size, &mode);
    let stripped = strip_ansi(status.value_chars());
    assert_eq!(stripped.chars().count(), 43);
    let expected = format!("  n 0 Empty Buffer{}[UTF-8] UNIX   ", " ".repeat(10));
    assert_eq!(stripped, expected);
}

#[test]
fn status_line_narrow_viewport_clamps_padding() {
    let b = RowBuffer::new();
    let size = OutputSize::new(10, 5);
    let mode = InputMode::Insert;
    let mut status = StatusBuffer::new();
    fill_bar(&mut status, &b, &size, &mode);
    let stripped = strip_ansi(status.value_chars());
    // No joining spaces are left; the segments still appear whole.
    assert_eq!(stripped, "  i 0 Empty Buffer[UTF-8] UNIX   ");
}

#[test]
fn status_line_styles_wrap_the_line() {
    let b = RowBuffer::new();
    let size = OutputSize::new(43, 5);
    let mut status = StatusBuffer::new();
    fill_bar(&mut status, &b, &size, &InputMode::Visual);
    let text = text_of(status.value_chars());
    assert!(text.starts_with("\u{1b}[48;2;32;35;40m"));
    assert!(text.ends_with("\u{1b}[49m\u{1b}[0m"));
    // The visual-mode glyph is green.
    assert!(text.contains("\u{1b}[38;2;152;190;101mv\u{1b}[39m"));
}

#[test]
fn plain_status_bar_fills_viewport() {
    let size = OutputSize::new(20, 5);
    let mut bar = StatusBar::new();
    let value = bar.draw(&size);
    let expected = format!("\u{1b}[7m[insert]{}\u{1b}[0m", " ".repeat(12));
    assert_eq!(text_of(&value), expected);
    assert_eq!(strip_ansi(&value).chars().count(), 20);
}

#[test]
fn wrap_reversed_brackets_value() {
    let wrapped = wrap_reversed(chars("ab"));
    assert_eq!(text_of(&wrapped), "\u{1b}[7mab\u{1b}[0m");
}

#[test]
fn plain_fill_bar_shows_current_mode() {
    let mut bar = StatusBar::new();
    termview::output::status::fill_bar(&mut bar, &InputMode::Visual);
    assert_eq!(text_of(bar.draw(&OutputSize::new(8, 2)).as_slice()), "\u{1b}[7m[insert]\u{1b}[0m");
}

#[test]
fn schedule_orders_steps_by_dependency() {
    let schedule = standard_schedule();
    let order = schedule.ordered();
    assert_eq!(
        order,
        vec![
            FrameStep::HideCursor,
            FrameStep::ClearScreen,
            FrameStep::DrawRows,
            FrameStep::DrawStatus,
            FrameStep::ShowCursor,
            FrameStep::FlushFrame,
        ]
    );
}

#[test]
fn schedule_registration_order_is_irrelevant() {
    let mut a = Schedule::new();
    a.add_step(FrameStep::FlushFrame);
    a.add_step(FrameStep::ShowCursor);
    a.add_step(FrameStep::DrawStatus);
    a.add_step(FrameStep::DrawRows);
    a.add_step(FrameStep::ClearScreen);
    a.add_step(FrameStep::HideCursor);
    assert_eq!(a.ordered(), standard_schedule().ordered());
}

#[test]
fn output_buffer_flush_drains() {
    let mut buffer = OutputBuffer::new();
    buffer.push('a');
    buffer.push_str(&['b', 'c']);
    let first = buffer.flush();
    assert_eq!(first, vec!['a', 'b', 'c']);
    // Flushing an empty buffer is a no-op.
    let second = buffer.flush();
    assert!(second.is_empty());
}

#[test]
fn frame_starts_hidden_and_ends_shown() {
    let rows = RowBuffer::from_text(chars("demo"), &chars("hello\nworld"));
    let mut editor = Editor::new(rows, OutputSize::new(12, 4));
    let frame = editor.refresh();
    let text = text_of(&frame);
    // Hide, park at the origin, clear: before any content.
    assert!(text.starts_with("\u{1b}[?25l\u{1b}[1;1H\u{1b}[2J"));
    // Place the cursor at its cell, show it: after all content.
    assert!(text.ends_with("\u{1b}[1;1H\u{1b}[?25h"));
    assert!(text.contains("hello"));
    assert!(text.contains("\u{1b}[K"));
}

#[test]
fn frame_scheduler_is_idempotent() {
    let rows = RowBuffer::from_text(chars("demo"), &chars("one\ntwo\nthree"));
    let mut editor = Editor::new(rows, OutputSize::new(10, 3));
    let first = editor.refresh();
    let second = editor.refresh();
    assert_eq!(first, second);
}

#[test]
fn editor_moves_and_scrolls() {
    let rows = RowBuffer::from_text(chars("demo"), &chars("foo\nbarbaz"));
    let mut editor = Editor::new(rows, OutputSize::new(3, 1));
    editor.move_cursor(CursorDirection::Down);
    for _ in 0..4 {
        editor.move_cursor(CursorDirection::Right);
    }
    assert_eq!(editor.position, CursorPosition { x: 1, y: 1 });
    assert_eq!(editor.offset, CursorOffset { row: 1, column: 0, render: 1 });
    let frame = editor.refresh();
    // The viewport shows the line under the cursor, sliced to width.
    assert!(text_of(&frame).contains("bar"));
}

#[test]
fn move_to_sequence_matches_crossterm() {
    // The engine's cursor placement must agree with what crossterm
    // itself writes for the same cell.
    let rows = RowBuffer::from_text(chars("demo"), &chars("abc"));
    let mut editor = Editor::new(rows, OutputSize::new(20, 4));
    editor.move_cursor(CursorDirection::Right);
    editor.move_cursor(CursorDirection::Down);
    let frame = editor.refresh();
    let text = text_of(&frame);
    let mut expected = String::new();
    crossterm::Command::write_ansi(&crossterm::cursor::MoveTo(1, 1), &mut expected).unwrap();
    crossterm::Command::write_ansi(&crossterm::cursor::Show, &mut expected).unwrap();
    assert!(text.ends_with(&expected));
    assert!(expected.ends_with("\u{1b}[?25h"));
}

#[test]
fn status_line_shows_count_and_name() {
    let b = RowBuffer::from_text(chars("test.txt"), &chars("foo\nbarbaz"));
    let size = OutputSize::new(40, 5);
    let mut status = StatusBuffer::new();
    fill_bar(&mut status, &b, &size, &InputMode::Normal);
    let stripped = strip_ansi(status.value_chars());
    // Left segment visible width 12, right 13, so 11 joining spaces.
    let expected = format!("  n 9 test.txt{}[UTF-8] UNIX   ", " ".repeat(11));
    assert_eq!(stripped, expected);
    assert_eq!(stripped.chars().count(), 40);
}

#[test]
fn cursor_buffer_queues_hide_and_update() {
    let cb = ViewCursorBuffer::new(OutputSize::new(10, 5));
    let mut buffer = OutputBuffer::new();
    cb.queue_hide(&mut buffer);
    assert_eq!(text_of(&buffer.flush()), "\u{1b}[?25l\u{1b}[1;1H");
    cb.queue_update(&mut buffer);
    assert_eq!(text_of(&buffer.flush()), "\u{1b}[1;1H\u{1b}[?25h");
}
