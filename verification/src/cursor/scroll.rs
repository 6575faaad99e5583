//! Scroll recomputation: after every cursor change the offsets are
//! re-clamped so the cursor stays inside the visible window, measured in
//! render columns so tab-expanded characters scroll correctly.

use super::{CursorOffset, CursorPosition};
use crate::cursor::update::usize_min;
use crate::input::data::{render_col_clamped, RowBuffer};
use crate::output::OutputSize;
use vstd::prelude::*;

verus! {

/// The scroll state after one recomputation.  In order: the row and
/// column anchors are pulled back to the cursor and the cached render
/// column; the render column is re-derived for the line under the
/// cursor, deliberately using the cursor's row index as the logical
/// offset into that line (not the cursor's column); then each anchor is
/// pushed forward just far enough to keep the cursor inside the
/// viewport's bottom and right edges.
pub open spec fn scroll_spec(
    off: CursorOffset,
    cursor: CursorPosition,
    size: OutputSize,
    lines: Seq<Seq<char>>,
) -> CursorOffset {
    let row1 = usize_min(off.row, cursor.y);
    let col1 = usize_min(off.column, off.render);
    let rend1 = if (cursor.y as int) < lines.len() {
        render_col_clamped(lines[cursor.y as int], cursor.y as int) as usize
    } else {
        off.render
    };
    let row2 = if cursor.y as int >= row1 as int + size.rows as int {
        (cursor.y as int - size.rows as int + 1) as usize
    } else {
        row1
    };
    let col2 = if rend1 as int >= col1 as int + size.columns as int {
        (rend1 as int - size.columns as int + 1) as usize
    } else {
        col1
    };
    CursorOffset { row: row2, column: col2, render: rend1 }
}

/// After any scroll recomputation the cursor's row lies inside the
/// visible row window.
pub proof fn lemma_scroll_row_window(
    off: CursorOffset,
    cursor: CursorPosition,
    size: OutputSize,
    lines: Seq<Seq<char>>,
)
    requires
        size.rows >= 1,
    ensures
        scroll_spec(off, cursor, size, lines).row <= cursor.y,
        (cursor.y as int) < scroll_spec(off, cursor, size, lines).row as int + size.rows as int,
{
}

/// After any scroll recomputation the derived render column lies inside
/// the visible column window.
pub proof fn lemma_scroll_render_window(
    off: CursorOffset,
    cursor: CursorPosition,
    size: OutputSize,
    lines: Seq<Seq<char>>,
)
    requires
        size.columns >= 1,
    ensures
        (scroll_spec(off, cursor, size, lines).render as int) < scroll_spec(
            off,
            cursor,
            size,
            lines,
        ).column as int + size.columns as int,
{
}

/// Re-clamps the scroll offsets around the current cursor, re-deriving
/// the cached render column for the line under the cursor.
pub fn scroll(
    offset: &mut CursorOffset,
    cursor_pos: &CursorPosition,
    output_size: &OutputSize,
    rows: &RowBuffer,
)
    requires
        rows.wf(),
        output_size.wf(),
    ensures
        *final(offset) == scroll_spec(*old(offset), *cursor_pos, *output_size, rows.lines()),
{
    if offset.row > cursor_pos.y {
        offset.row = cursor_pos.y;
    }
    if offset.column > offset.render {
        offset.column = offset.render;
    }
    if cursor_pos.y < rows.rows_count() {
        let row = rows.get_row_at(cursor_pos.y);
        offset.render = row.get_len_with_offset(cursor_pos.y);
    }
    if cursor_pos.y - offset.row >= output_size.rows {
        offset.row = cursor_pos.y - output_size.rows + 1;
    }
    if offset.render >= output_size.columns && offset.render - output_size.columns
        >= offset.column {
        offset.column = offset.render - output_size.columns + 1;
    }
}

} // verus!
