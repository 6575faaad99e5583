//! The status line: a single styled line summarizing mode, document and
//! position, sized to exactly fill the viewport width.

pub mod draw;
pub mod fill;

use crate::schedule::{FrameStep, Schedule};
use vstd::prelude::*;

verus! {

/// The rendered status line, recomputed every frame and drawn as one of
/// the frame steps.
#[derive(Clone)]
pub struct StatusBuffer {
    pub(crate) value: Vec<char>,
}

impl StatusBuffer {
    /// The rendered line, style bytes included.
    pub closed spec fn value_view(&self) -> Seq<char> {
        self.value@
    }

    /// An empty status line, before the first frame fills it.
    pub fn new() -> (r: StatusBuffer)
        ensures
            r.value_view() == Seq::<char>::empty(),
    {
        StatusBuffer { value: Vec::new() }
    }

    /// The rendered line, for the drawing step.
    pub fn value_chars(&self) -> (r: &Vec<char>)
        ensures
            r@ == self.value_view(),
    {
        &self.value
    }

    /// Stores a freshly composed line.
    pub fn set_value(&mut self, v: Vec<char>)
        ensures
            final(self).value_view() == v@,
    {
        self.value = v;
    }
}

/// Registers the status drawing step with the frame schedule.
pub fn init(schedule: &mut Schedule)
    ensures
        final(schedule).steps_view() == old(schedule).steps_view().push(FrameStep::DrawStatus),
{
    schedule.add_step(FrameStep::DrawStatus);
}

} // verus!
