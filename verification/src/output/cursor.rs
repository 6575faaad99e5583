//! A self-contained cursor engine: one value owning the cursor, the
//! scroll offsets, the cached render column and the viewport snapshot,
//! with the same movement and scrolling rules as the event-driven engine.

use crate::ansi;
use crate::cursor::hiding::hide_step_seq;
use crate::cursor::update::{move_cursor_spec, run_moves};
use crate::cursor::{direction_of_char, CursorDirection, CursorPosition};
use crate::input::data::RowBuffer;
use crate::output::buffer::OutputBuffer;
use crate::output::OutputSize;
use vstd::prelude::*;

verus! {

/// The viewport's top-left anchor in buffer space.
#[derive(Clone, Copy, PartialEq, Eq, Structural, Debug)]
pub struct CursorOffset {
    pub row: usize,
    pub column: usize,
}

/// A request to move the cursor one step.
#[derive(Clone, Copy, PartialEq, Eq, Structural, Debug)]
pub struct CursorMoveEvent {
    pub direction: CursorDirection,
}

/// The cursor engine as one value: cursor cell, scroll anchors, cached
/// render column and the viewport snapshot it clamps against.
#[derive(Clone)]
pub struct CursorBuffer {
    cursor_x: usize,
    cursor_y: usize,
    offset: CursorOffset,
    output_size: OutputSize,
    render_dist: usize,
}

/// The scroll state after one recomputation, over the engine's fields;
/// the rule is the one the scroll engine declares: anchors pulled back,
/// the render column re-derived from the line under the cursor with its
/// row index as the logical offset, anchors pushed forward to keep the
/// cursor visible.  The result carries the new anchors and the new
/// render column together.
pub open spec fn scroll_buffer_spec(
    position: CursorPosition,
    offset: CursorOffset,
    render_dist: usize,
    size: OutputSize,
    lines: Seq<Seq<char>>,
) -> crate::cursor::CursorOffset {
    crate::cursor::scroll::scroll_spec(
        crate::cursor::CursorOffset { row: offset.row, column: offset.column, render: render_dist },
        position,
        size,
        lines,
    )
}

/// Where one navigation key takes the cursor: the four navigation keys
/// move one step, any other key leaves it in place.
pub open spec fn key_move_spec(
    position: CursorPosition,
    direction: char,
    size: OutputSize,
    row_count: usize,
) -> CursorPosition {
    match direction_of_char(direction) {
        Some(d) => move_cursor_spec(position, d, size, row_count),
        None => position,
    }
}

impl CursorBuffer {
    /// The cursor cell.
    pub closed spec fn position_view(&self) -> CursorPosition {
        CursorPosition { x: self.cursor_x, y: self.cursor_y }
    }

    /// The scroll anchors.
    pub closed spec fn offset_view(&self) -> CursorOffset {
        self.offset
    }

    /// The viewport snapshot.
    pub closed spec fn size_view(&self) -> OutputSize {
        self.output_size
    }

    /// The cached render column.
    pub closed spec fn render_dist_view(&self) -> usize {
        self.render_dist
    }

    /// The cursor never leaves its viewport-derived bounds, and the
    /// viewport is a real terminal's.
    pub open spec fn wf(&self) -> bool {
        &&& self.size_view().wf()
        &&& self.position_view().x <= self.size_view().rows
        &&& self.position_view().y <= self.size_view().columns
    }

    /// A fresh engine: cursor at the origin, nothing scrolled.
    pub fn new(output_size: OutputSize) -> (r: CursorBuffer)
        requires
            output_size.wf(),
        ensures
            r.wf(),
            r.position_view() == (CursorPosition { x: 0, y: 0 }),
            r.offset_view() == (CursorOffset { row: 0, column: 0 }),
            r.size_view() == output_size,
            r.render_dist_view() == 0,
    {
        CursorBuffer {
            cursor_x: 0,
            cursor_y: 0,
            render_dist: 0,
            offset: CursorOffset { row: 0, column: 0 },
            output_size,
        }
    }

    /// Applies one navigation key to the cursor (any other key moves
    /// nothing) and re-clamps the scroll state around it.
    pub fn update_pos(&mut self, direction: char, row_count: usize, rows: &RowBuffer)
        requires
            old(self).wf(),
            rows.wf(),
        ensures
            final(self).wf(),
            final(self).size_view() == old(self).size_view(),
            final(self).position_view() == key_move_spec(
                old(self).position_view(),
                direction,
                old(self).size_view(),
                row_count,
            ),
            final(self).offset_view() == (CursorOffset {
                row: scroll_buffer_spec(
                    final(self).position_view(),
                    old(self).offset_view(),
                    old(self).render_dist_view(),
                    old(self).size_view(),
                    rows.lines(),
                ).row,
                column: scroll_buffer_spec(
                    final(self).position_view(),
                    old(self).offset_view(),
                    old(self).render_dist_view(),
                    old(self).size_view(),
                    rows.lines(),
                ).column,
            }),
            final(self).render_dist_view() == scroll_buffer_spec(
                final(self).position_view(),
                old(self).offset_view(),
                old(self).render_dist_view(),
                old(self).size_view(),
                rows.lines(),
            ).render,
    {
        match direction {
            'h' => {
                if self.cursor_x > 0 {
                    self.cursor_x = self.cursor_x - 1;
                }
            },
            'j' => {
                let y1 = if self.cursor_y < usize::MAX {
                    self.cursor_y + 1
                } else {
                    usize::MAX
                };
                let y2 = if y1 <= self.output_size.columns {
                    y1
                } else {
                    self.output_size.columns
                };
                self.cursor_y = if y2 <= row_count {
                    y2
                } else {
                    row_count
                };
            },
            'k' => {
                if self.cursor_y > 0 {
                    self.cursor_y = self.cursor_y - 1;
                }
            },
            'l' => {
                let x1 = if self.cursor_x < usize::MAX {
                    self.cursor_x + 1
                } else {
                    usize::MAX
                };
                self.cursor_x = if x1 <= self.output_size.rows {
                    x1
                } else {
                    self.output_size.rows
                };
            },
            _ => (),
        }
        self.scroll(rows);
    }

    /// Re-clamps the scroll anchors and the cached render column around
    /// the current cursor.
    pub fn scroll(&mut self, rows: &RowBuffer)
        requires
            old(self).wf(),
            rows.wf(),
        ensures
            final(self).wf(),
            final(self).size_view() == old(self).size_view(),
            final(self).position_view() == old(self).position_view(),
            final(self).offset_view() == (CursorOffset {
                row: scroll_buffer_spec(
                    old(self).position_view(),
                    old(self).offset_view(),
                    old(self).render_dist_view(),
                    old(self).size_view(),
                    rows.lines(),
                ).row,
                column: scroll_buffer_spec(
                    old(self).position_view(),
                    old(self).offset_view(),
                    old(self).render_dist_view(),
                    old(self).size_view(),
                    rows.lines(),
                ).column,
            }),
            final(self).render_dist_view() == scroll_buffer_spec(
                old(self).position_view(),
                old(self).offset_view(),
                old(self).render_dist_view(),
                old(self).size_view(),
                rows.lines(),
            ).render,
    {
        if self.offset.row > self.cursor_y {
            self.offset.row = self.cursor_y;
        }
        if self.offset.column > self.render_dist {
            self.offset.column = self.render_dist;
        }
        if self.cursor_y < rows.rows_count() {
            let row = rows.get_row_at(self.cursor_y);
            self.render_dist = row.get_len_with_offset(self.cursor_y);
        }
        if self.cursor_y - self.offset.row >= self.output_size.rows {
            self.offset.row = self.cursor_y - self.output_size.rows + 1;
        }
        if self.render_dist >= self.output_size.columns && self.render_dist
            - self.output_size.columns >= self.offset.column {
            self.offset.column = self.render_dist - self.output_size.columns + 1;
        }
    }

    /// Queues the hide-and-park sequence that precedes a frame.
    pub fn queue_hide(&self, writer: &mut OutputBuffer)
        ensures
            final(writer).contents() == old(writer).contents() + hide_step_seq(),
    {
        let hide_seq = ansi::ansi_hide_cursor();
        writer.push_str(hide_seq.as_slice());
        let origin_seq = ansi::ansi_move_to(0, 0);
        writer.push_str(origin_seq.as_slice());
        proof {
            assert(final(writer).contents() =~= old(writer).contents() + hide_step_seq());
        }
    }

    /// Queues the sequence that places the cursor at its cell and shows
    /// it again.
    pub fn queue_update(&self, writer: &mut OutputBuffer)
        requires
            self.wf(),
        ensures
            final(writer).contents() == old(writer).contents() + ansi::move_to_seq(
                self.position_view().x as int,
                self.position_view().y as int,
            ) + ansi::show_cursor_seq(),
    {
        let move_seq = ansi::ansi_move_to(self.cursor_x as u16, self.cursor_y as u16);
        writer.push_str(move_seq.as_slice());
        let show_seq = ansi::ansi_show_cursor();
        writer.push_str(show_seq.as_slice());
    }

    /// The scroll anchors.
    pub fn get_offset(&self) -> (r: &CursorOffset)
        ensures
            *r == self.offset_view(),
    {
        &self.offset
    }

    /// The row anchor alone.
    pub fn row_offset(&self) -> (r: usize)
        ensures
            r == self.offset_view().row,
    {
        self.offset.row
    }
}

/// Applies each pending move event to the engine's cursor, without
/// touching the scroll state.
pub fn handle_cursor_move(
    row_buffer: &RowBuffer,
    buffer: &mut CursorBuffer,
    events: &Vec<CursorMoveEvent>,
)
    ensures
        final(buffer).position_view() == run_moves(
            old(buffer).position_view(),
            events@.map_values(|e: CursorMoveEvent| e.direction),
            old(buffer).size_view(),
            row_buffer.lines().len() as usize,
        ),
        final(buffer).offset_view() == old(buffer).offset_view(),
        final(buffer).size_view() == old(buffer).size_view(),
        final(buffer).render_dist_view() == old(buffer).render_dist_view(),
{
    let row_count = row_buffer.rows_count();
    let ghost dirs = events@.map_values(|e: CursorMoveEvent| e.direction);
    let ghost start = buffer.position_view();
    let ghost size = buffer.size_view();
    let mut i: usize = 0;
    while i < events.len()
        invariant
            i <= events@.len(),
            dirs == events@.map_values(|e: CursorMoveEvent| e.direction),
            row_count == row_buffer.lines().len(),
            size == buffer.size_view(),
            buffer.position_view() == run_moves(start, dirs.take(i as int), size, row_count),
            buffer.offset_view() == old(buffer).offset_view(),
            buffer.render_dist_view() == old(buffer).render_dist_view(),
        decreases events@.len() - i,
    {
        let direction = events[i].direction;
        match direction {
            CursorDirection::Left => {
                if buffer.cursor_x > 0 {
                    buffer.cursor_x = buffer.cursor_x - 1;
                }
            },
            CursorDirection::Down => {
                let y1 = if buffer.cursor_y < usize::MAX {
                    buffer.cursor_y + 1
                } else {
                    usize::MAX
                };
                let y2 = if y1 <= buffer.output_size.columns {
                    y1
                } else {
                    buffer.output_size.columns
                };
                buffer.cursor_y = if y2 <= row_count {
                    y2
                } else {
                    row_count
                };
            },
            CursorDirection::Up => {
                if buffer.cursor_y > 0 {
                    buffer.cursor_y = buffer.cursor_y - 1;
                }
            },
            CursorDirection::Right => {
                let x1 = if buffer.cursor_x < usize::MAX {
                    buffer.cursor_x + 1
                } else {
                    usize::MAX
                };
                buffer.cursor_x = if x1 <= buffer.output_size.rows {
                    x1
                } else {
                    buffer.output_size.rows
                };
            },
        }
        i = i + 1;
        proof {
            assert(dirs.take(i as int).drop_last() =~= dirs.take(i - 1));
            assert(dirs.take(i as int).last() == dirs[i - 1]);
        }
    }
    proof {
        assert(dirs.take(i as int) =~= dirs);
    }
}

} // verus!
