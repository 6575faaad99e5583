//! Hiding the cursor and parking it at the origin before a frame is
//! drawn, so no intermediate cursor state is ever visible.

use super::CursorHideEvent;
use crate::ansi;
use crate::output::buffer::OutputBuffer;
use vstd::prelude::*;

verus! {

/// What hiding the cursor appends once: the hide directive, then a move
/// to the origin.
pub open spec fn hide_step_seq() -> Seq<char> {
    ansi::hide_cursor_seq() + ansi::move_to_seq(0, 0)
}

/// What a batch of `n` hide events appends.
pub open spec fn hide_output(n: int) -> Seq<char>
    decreases n,
{
    if n <= 0 {
        Seq::empty()
    } else {
        hide_output(n - 1) + hide_step_seq()
    }
}

/// Queues, for each pending hide event, the escape sequences that hide
/// the cursor and park it at the origin.
pub fn handle_cursor_hide(events: &Vec<CursorHideEvent>, buffer: &mut OutputBuffer)
    ensures
        final(buffer).contents() == old(buffer).contents() + hide_output(events@.len() as int),
{
    let ghost base = buffer.contents();
    let mut i: usize = 0;
    while i < events.len()
        invariant
            i <= events@.len(),
            buffer.contents() == base + hide_output(i as int),
        decreases events@.len() - i,
    {
        let hide_seq = ansi::ansi_hide_cursor();
        buffer.push_str(hide_seq.as_slice());
        let origin_seq = ansi::ansi_move_to(0, 0);
        buffer.push_str(origin_seq.as_slice());
        i = i + 1;
        proof {
            assert(buffer.contents() =~= base + hide_output(i as int));
        }
    }
    proof {
        assert(buffer.contents() =~= base + hide_output(events@.len() as int));
    }
}

/// Emits the event that asks for the cursor to be hidden this frame.
pub fn dispatch_hide() -> (r: CursorHideEvent)
    ensures
        r == CursorHideEvent,
{
    CursorHideEvent
}

} // verus!
