//! Output side of the engine: the viewport size, the staging buffer for
//! one frame, and the drawing steps that fill it.

pub mod buffer;
pub mod cursor;
pub mod status;

use crate::ansi;
use crate::cursor::CursorOffset;
use crate::input::data::{render_of, RowBuffer};
use buffer::OutputBuffer;
use vstd::prelude::*;

verus! {

/// The terminal's visible grid of character cells, read once from the
/// terminal and treated as a per-frame snapshot.
#[derive(Clone, Copy, PartialEq, Eq, Structural, Debug)]
pub struct OutputSize {
    pub columns: usize,
    pub rows: usize,
}

impl OutputSize {
    /// Both extents are positive (a terminal reports at least one cell)
    /// and small enough that any cell coordinate fits a one-based `u16`.
    pub open spec fn wf(&self) -> bool {
        &&& 1 <= self.columns < 65535
        &&& 1 <= self.rows < 65535
    }

    /// Builds a viewport snapshot from a terminal's reported extents.
    pub fn new(columns: usize, rows: usize) -> (r: OutputSize)
        requires
            1 <= columns < 65535,
            1 <= rows < 65535,
        ensures
            r == (OutputSize { columns, rows }),
    {
        OutputSize { columns, rows }
    }
}

/// The placeholder glyph drawn on rows below the end of the buffer.
pub open spec fn placeholder_char() -> char {
    '~'
}

/// The label shown on the centered row of an empty buffer.
pub open spec fn welcome_text() -> Seq<char> {
    seq![
        'w',
        'e',
        'l',
        'c',
        'o',
        'm',
        'e',
        ' ',
        't',
        'o',
        ' ',
        't',
        'e',
        'r',
        'm',
        'v',
        'i',
        'e',
        'w',
    ]
}

fn make_welcome_text() -> (r: Vec<char>)
    ensures
        r@ == welcome_text(),
{
    let mut v: Vec<char> = Vec::new();
    v.push('w');
    v.push('e');
    v.push('l');
    v.push('c');
    v.push('o');
    v.push('m');
    v.push('e');
    v.push(' ');
    v.push('t');
    v.push('o');
    v.push(' ');
    v.push('t');
    v.push('e');
    v.push('r');
    v.push('m');
    v.push('v');
    v.push('i');
    v.push('e');
    v.push('w');
    proof {
        assert(v@ =~= welcome_text());
    }
    v
}

/// The welcome row: the label truncated to the viewport width and centered,
/// a placeholder glyph and spaces padding it from the left edge.
pub open spec fn welcome_row_seq(columns: int) -> Seq<char> {
    let msg = if welcome_text().len() <= columns {
        welcome_text()
    } else {
        welcome_text().take(columns)
    };
    let pad = (columns - msg.len()) / 2;
    if pad > 0 {
        seq![placeholder_char()] + crate::input::data::spaces(pad - 1) + msg
    } else {
        msg
    }
}

/// What one viewport row shows: the visible slice of the line's render
/// form, or a placeholder glyph below the end of the buffer, with the
/// welcome row on the centered row of an empty buffer.
pub open spec fn row_content_seq(
    lines: Seq<Seq<char>>,
    size: OutputSize,
    offset: CursorOffset,
    r: int,
) -> Seq<char> {
    let buffer_row = r + offset.row;
    if lines.len() == 0 && r == size.rows as int / 3 {
        welcome_row_seq(size.columns as int)
    } else if buffer_row >= lines.len() {
        seq![placeholder_char()]
    } else {
        let render = render_of(lines[buffer_row]);
        let start = if offset.column as int <= render.len() {
            offset.column as int
        } else {
            render.len() as int
        };
        let len = if render.len() - start <= size.columns as int {
            render.len() - start
        } else {
            size.columns as int
        };
        render.subrange(start, start + len)
    }
}

/// One viewport row as written to the staging buffer: its content, a
/// clear-to-end-of-line directive, and a line terminator on every row
/// but the last.
pub open spec fn row_output_seq(
    lines: Seq<Seq<char>>,
    size: OutputSize,
    offset: CursorOffset,
    r: int,
) -> Seq<char> {
    row_content_seq(lines, size, offset, r) + ansi::clear_until_newline_seq() + (if r + 1
        < size.rows as int {
        seq!['\r', '\n']
    } else {
        Seq::empty()
    })
}

/// The first `n` viewport rows as written to the staging buffer.
pub open spec fn rows_output_upto(
    lines: Seq<Seq<char>>,
    size: OutputSize,
    offset: CursorOffset,
    n: int,
) -> Seq<char>
    decreases n,
{
    if n <= 0 {
        Seq::empty()
    } else {
        rows_output_upto(lines, size, offset, n - 1) + row_output_seq(lines, size, offset, n - 1)
    }
}

/// Everything `draw_rows` appends for one frame.
pub open spec fn rows_output_seq(
    lines: Seq<Seq<char>>,
    size: OutputSize,
    offset: CursorOffset,
) -> Seq<char> {
    rows_output_upto(lines, size, offset, size.rows as int)
}

/// Writes the centered welcome row for an empty buffer.
fn push_welcome_row(buffer: &mut OutputBuffer, columns: usize)
    ensures
        final(buffer).contents() == old(buffer).contents() + welcome_row_seq(columns as int),
{
    let msg = make_welcome_text();
    let msg_len = if msg.len() <= columns {
        msg.len()
    } else {
        columns
    };
    let pad = (columns - msg_len) / 2;
    let ghost base = buffer.contents();
    if pad > 0 {
        buffer.push('~');
        let mut k: usize = 0;
        let ghost mid = buffer.contents();
        while k < pad - 1
            invariant
                k <= pad - 1,
                buffer.contents() == mid + crate::input::data::spaces(k as int),
            decreases pad - 1 - k,
        {
            buffer.push(' ');
            k = k + 1;
            proof {
                assert(buffer.contents() =~= mid + crate::input::data::spaces(k as int));
            }
        }
    }
    let mut j: usize = 0;
    let ghost mid2 = buffer.contents();
    while j < msg_len
        invariant
            j <= msg_len,
            msg_len <= msg@.len(),
            msg@ == welcome_text(),
            buffer.contents() == mid2 + msg@.take(j as int),
        decreases msg_len - j,
    {
        buffer.push(msg[j]);
        j = j + 1;
        proof {
            assert(buffer.contents() =~= mid2 + msg@.take(j as int));
        }
    }
    proof {
        if welcome_text().len() <= columns {
            assert(msg@.take(msg_len as int) =~= welcome_text());
        } else {
            assert(msg@.take(msg_len as int) =~= welcome_text().take(columns as int));
        }
        assert(buffer.contents() =~= base + welcome_row_seq(columns as int));
    }
}

/// Writes the content of one viewport row.
fn push_row_content(
    size: &OutputSize,
    rows: &RowBuffer,
    cursor_offset: &CursorOffset,
    buffer: &mut OutputBuffer,
    current: usize,
)
    requires
        rows.wf(),
        size.wf(),
        current < size.rows,
    ensures
        final(buffer).contents() == old(buffer).contents() + row_content_seq(
            rows.lines(),
            *size,
            *cursor_offset,
            current as int,
        ),
{
    let ghost lines = rows.lines();
    let ghost base = buffer.contents();
    let row_count = rows.rows_count();
    let buffer_row_overflow = current > usize::MAX - cursor_offset.row;
    if row_count == 0 && current == size.rows / 3 {
        push_welcome_row(buffer, size.columns);
    } else if buffer_row_overflow || current + cursor_offset.row >= row_count {
        buffer.push('~');
        proof {
            assert(current as int + cursor_offset.row as int >= lines.len());
            assert(buffer.contents() =~= base + row_content_seq(
                lines,
                *size,
                *cursor_offset,
                current as int,
            ));
        }
    } else {
        let buffer_row = current + cursor_offset.row;
        let render = rows.get_render(buffer_row);
        let rlen = render.len();
        let start = if cursor_offset.column <= rlen {
            cursor_offset.column
        } else {
            rlen
        };
        let len = if rlen - start <= size.columns {
            rlen - start
        } else {
            size.columns
        };
        let mut j: usize = 0;
        let ghost mid = buffer.contents();
        while j < len
            invariant
                j <= len,
                start + len <= rlen,
                rlen == render@.len(),
                render@ == render_of(lines[current as int + cursor_offset.row as int]),
                buffer.contents() == mid + render@.subrange(start as int, start as int + j as int),
            decreases len - j,
        {
            buffer.push(render[start + j]);
            j = j + 1;
            proof {
                assert(buffer.contents() =~= mid + render@.subrange(
                    start as int,
                    start as int + j as int,
                ));
            }
        }
        proof {
            assert(buffer.contents() =~= base + row_content_seq(
                lines,
                *size,
                *cursor_offset,
                current as int,
            ));
        }
    }
}

/// Draws every viewport row into the staging buffer: visible line slices
/// where the buffer has lines, placeholder glyphs below its end, and the
/// centered welcome row when the buffer is empty.  Each row ends with a
/// clear-to-end-of-line directive, and every row but the last with a
/// line terminator, so the frame occupies exactly the viewport's rows.
pub fn draw_rows(
    size: &OutputSize,
    rows: &RowBuffer,
    cursor_offset: &CursorOffset,
    buffer: &mut OutputBuffer,
)
    requires
        rows.wf(),
        size.wf(),
    ensures
        final(buffer).contents() == old(buffer).contents() + rows_output_seq(
            rows.lines(),
            *size,
            *cursor_offset,
        ),
{
    let ghost lines = rows.lines();
    let ghost base = buffer.contents();
    let mut current: usize = 0;
    while current < size.rows
        invariant
            current <= size.rows,
            size.wf(),
            rows.wf(),
            lines == rows.lines(),
            buffer.contents() == base + rows_output_upto(lines, *size, *cursor_offset, current as int),
        decreases size.rows - current,
    {
        push_row_content(size, rows, cursor_offset, buffer, current);
        let clear_seq = ansi::ansi_clear_until_newline();
        buffer.push_str(clear_seq.as_slice());
        if current + 1 < size.rows {
            buffer.push('\r');
            buffer.push('\n');
        }
        current = current + 1;
        proof {
            assert(buffer.contents() =~= base + rows_output_upto(
                lines,
                *size,
                *cursor_offset,
                current as int,
            ));
        }
    }
}

/// Appends the clear-whole-screen directive to the staging buffer; the
/// terminal itself is touched only by the flush.
pub fn clear(buffer: &mut OutputBuffer)
    ensures
        final(buffer).contents() == old(buffer).contents() + ansi::clear_all_seq(),
{
    let seq = ansi::ansi_clear_all();
    buffer.push_str(seq.as_slice());
}

/// Drains the staging buffer, handing the finished frame to the caller;
/// the caller performs the one externally visible write.  Draining an
/// empty buffer yields an empty frame.
pub fn flush_buffer(buffer: &mut OutputBuffer) -> (r: Vec<char>)
    ensures
        r@ == old(buffer).contents(),
        final(buffer).contents() == Seq::<char>::empty(),
{
    buffer.flush()
}

} // verus!
