//! Drawing the status line into the staging buffer, after every viewport
//! row has been drawn.

use super::StatusBuffer;
use crate::output::buffer::OutputBuffer;
use vstd::prelude::*;

verus! {

/// Appends the rendered status line to the pending frame.
pub fn draw_status_bar(status: &StatusBuffer, buffer: &mut OutputBuffer)
    ensures
        final(buffer).contents() == old(buffer).contents() + status.value_view(),
{
    buffer.push_str(status.value_chars().as_slice());
}

} // verus!
