//! Applying navigation events to the cursor, and queueing the escape
//! sequence that shows the cursor at its new position.

use super::{CursorDirection, CursorMoveEvent, CursorPosition};
use crate::ansi;
use crate::input::data::RowBuffer;
use crate::output::buffer::OutputBuffer;
use crate::output::OutputSize;
use vstd::prelude::*;

verus! {

/// The smaller of two extents.
pub open spec fn usize_min(a: usize, b: usize) -> usize {
    if a <= b {
        a
    } else {
        b
    }
}

/// One more, saturating at the machine limit.
pub open spec fn sat_inc(v: usize) -> usize {
    if v < usize::MAX {
        (v + 1) as usize
    } else {
        usize::MAX
    }
}

/// One less, saturating at zero.
pub open spec fn sat_dec(v: usize) -> usize {
    if v > 0 {
        (v - 1) as usize
    } else {
        0
    }
}

/// Where one navigation step takes the cursor.  Moving right is bounded
/// by the viewport's row extent, and moving down by its column extent
/// and the buffer's row count: the two viewport bounds deliberately swap
/// the axes, and callers and tests rely on that exact behavior.
pub open spec fn move_cursor_spec(
    c: CursorPosition,
    d: CursorDirection,
    size: OutputSize,
    row_count: usize,
) -> CursorPosition {
    match d {
        CursorDirection::Left => CursorPosition { x: sat_dec(c.x), y: c.y },
        CursorDirection::Down => CursorPosition {
            x: c.x,
            y: usize_min(usize_min(sat_inc(c.y), size.columns), row_count),
        },
        CursorDirection::Up => CursorPosition { x: c.x, y: sat_dec(c.y) },
        CursorDirection::Right => CursorPosition {
            x: usize_min(sat_inc(c.x), size.rows),
            y: c.y,
        },
    }
}

/// Where a sequence of navigation steps takes the cursor.
pub open spec fn run_moves(
    c: CursorPosition,
    dirs: Seq<CursorDirection>,
    size: OutputSize,
    row_count: usize,
) -> CursorPosition
    decreases dirs.len(),
{
    if dirs.len() == 0 {
        c
    } else {
        move_cursor_spec(run_moves(c, dirs.drop_last(), size, row_count), dirs.last(), size, row_count)
    }
}

/// The region navigation can never leave: the column stays within the
/// viewport's row extent, the row within the smaller of the viewport's
/// column extent and the buffer's row count.
pub open spec fn cursor_in_bounds(c: CursorPosition, size: OutputSize, row_count: usize) -> bool {
    &&& c.x <= size.rows
    &&& c.y <= usize_min(size.columns, row_count)
}

/// One navigation step keeps the cursor inside its bounds.
pub proof fn lemma_move_stays_in_bounds(
    c: CursorPosition,
    d: CursorDirection,
    size: OutputSize,
    row_count: usize,
)
    requires
        cursor_in_bounds(c, size, row_count),
    ensures
        cursor_in_bounds(move_cursor_spec(c, d, size, row_count), size, row_count),
{
}

/// Any sequence of navigation events keeps the cursor inside its bounds:
/// neither coordinate ever leaves its viewport-derived range, and no step
/// underflows below zero.
pub proof fn lemma_moves_stay_in_bounds(
    c: CursorPosition,
    dirs: Seq<CursorDirection>,
    size: OutputSize,
    row_count: usize,
)
    requires
        cursor_in_bounds(c, size, row_count),
    ensures
        cursor_in_bounds(run_moves(c, dirs, size, row_count), size, row_count),
    decreases dirs.len(),
{
    if dirs.len() > 0 {
        lemma_moves_stay_in_bounds(c, dirs.drop_last(), size, row_count);
        lemma_move_stays_in_bounds(
            run_moves(c, dirs.drop_last(), size, row_count),
            dirs.last(),
            size,
            row_count,
        );
    }
}

/// The directions a batch of move events asks for, in order.
pub open spec fn directions_of(events: Seq<CursorMoveEvent>) -> Seq<CursorDirection> {
    events.map_values(|e: CursorMoveEvent| e.direction)
}

/// Applies each pending move event to the cursor in order, every step
/// saturated and clamped so that no arithmetic can wrap.
pub fn handle_cursor_move(
    row_buffer: &RowBuffer,
    output_size: &OutputSize,
    position: &mut CursorPosition,
    events: &Vec<CursorMoveEvent>,
)
    ensures
        *final(position) == run_moves(
            *old(position),
            directions_of(events@),
            *output_size,
            row_buffer.lines().len() as usize,
        ),
{
    let row_count = row_buffer.rows_count();
    let ghost dirs = directions_of(events@);
    let ghost start = *position;
    let mut i: usize = 0;
    while i < events.len()
        invariant
            i <= events@.len(),
            dirs == directions_of(events@),
            row_count == row_buffer.lines().len(),
            *position == run_moves(start, dirs.take(i as int), *output_size, row_count),
        decreases events@.len() - i,
    {
        let direction = events[i].direction;
        match direction {
            CursorDirection::Left => {
                if position.x > 0 {
                    position.x = position.x - 1;
                }
            },
            CursorDirection::Down => {
                let y1 = if position.y < usize::MAX {
                    position.y + 1
                } else {
                    usize::MAX
                };
                let y2 = if y1 <= output_size.columns {
                    y1
                } else {
                    output_size.columns
                };
                position.y = if y2 <= row_count {
                    y2
                } else {
                    row_count
                };
            },
            CursorDirection::Up => {
                if position.y > 0 {
                    position.y = position.y - 1;
                }
            },
            CursorDirection::Right => {
                let x1 = if position.x < usize::MAX {
                    position.x + 1
                } else {
                    usize::MAX
                };
                position.x = if x1 <= output_size.rows {
                    x1
                } else {
                    output_size.rows
                };
            },
        }
        i = i + 1;
        proof {
            assert(dirs.take(i as int).drop_last() =~= dirs.take(i - 1));
            assert(dirs.take(i as int).last() == dirs[i - 1]);
        }
    }
    proof {
        assert(dirs.take(i as int) =~= dirs);
    }
}

/// Queues the escape sequence that places the cursor at its logical
/// position and makes it visible again, as the last drawing step of a
/// frame.
pub fn update_cursor(buffer: &mut OutputBuffer, position: &CursorPosition)
    requires
        position.x < 65535,
        position.y < 65535,
    ensures
        final(buffer).contents() == old(buffer).contents() + ansi::move_to_seq(
            position.x as int,
            position.y as int,
        ) + ansi::show_cursor_seq(),
{
    let move_seq = ansi::ansi_move_to(position.x as u16, position.y as u16);
    buffer.push_str(move_seq.as_slice());
    let show_seq = ansi::ansi_show_cursor();
    buffer.push_str(show_seq.as_slice());
}

} // verus!
