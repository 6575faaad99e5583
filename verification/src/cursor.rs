//! The cursor and scroll engine: a logical cursor over the text buffer,
//! scroll offsets anchoring the viewport, and the events that move them.

pub mod hiding;
pub mod scroll;
pub mod update;

use crate::schedule::{FrameStep, Schedule};
use vstd::prelude::*;

verus! {

/// Registers the cursor steps of a frame with the schedule: hiding the
/// cursor before anything is drawn, showing it again once everything is.
pub fn init(schedule: &mut Schedule)
    ensures
        final(schedule).steps_view() == old(schedule).steps_view().push(
            FrameStep::HideCursor,
        ).push(FrameStep::ShowCursor),
{
    schedule.add_step(FrameStep::HideCursor);
    schedule.add_step(FrameStep::ShowCursor);
}

/// The logical cursor: `x` is a column index in logical space, `y` a row
/// index into the text buffer.
#[derive(Clone, Copy, PartialEq, Eq, Structural, Debug)]
pub struct CursorPosition {
    pub x: usize,
    pub y: usize,
}

impl Default for CursorPosition {
    /// The cursor starts at the top-left corner.
    fn default() -> (r: Self)
        ensures
            r == (CursorPosition { x: 0, y: 0 }),
    {
        CursorPosition { x: 0, y: 0 }
    }
}

/// The scroll state: `row` and `column` anchor the viewport's top-left
/// cell in buffer space, and `render` caches the render column derived
/// for the line under the cursor.
#[derive(Clone, Copy, PartialEq, Eq, Structural, Debug)]
pub struct CursorOffset {
    pub row: usize,
    pub column: usize,
    pub render: usize,
}

impl Default for CursorOffset {
    /// Scrolling starts at the buffer's top-left corner.
    fn default() -> (r: Self)
        ensures
            r == (CursorOffset { row: 0, column: 0, render: 0 }),
    {
        CursorOffset { row: 0, column: 0, render: 0 }
    }
}

/// One navigation step.
#[derive(Clone, Copy, PartialEq, Eq, Structural, Debug)]
pub enum CursorDirection {
    Up,
    Down,
    Left,
    Right,
}

/// A request to move the cursor one step.
#[derive(Clone, Copy, PartialEq, Eq, Structural, Debug)]
pub struct CursorMoveEvent {
    pub direction: CursorDirection,
}

/// A request to hide the cursor and park it at the origin before drawing.
#[derive(Clone, Copy, PartialEq, Eq, Structural, Debug, Default)]
pub struct CursorHideEvent;

/// The direction a navigation key maps to, if any.
pub open spec fn direction_of_char(value: char) -> Option<CursorDirection> {
    if value == 'h' {
        Some(CursorDirection::Left)
    } else if value == 'j' {
        Some(CursorDirection::Down)
    } else if value == 'k' {
        Some(CursorDirection::Up)
    } else if value == 'l' {
        Some(CursorDirection::Right)
    } else {
        None
    }
}

impl CursorMoveEvent {
    /// Maps the four navigation keys to move events; any other key maps
    /// to none.
    pub fn from_char(value: char) -> (r: Option<CursorMoveEvent>)
        ensures
            r == match direction_of_char(value) {
                Some(d) => Some(CursorMoveEvent { direction: d }),
                None => None::<CursorMoveEvent>,
            },
    {
        if value == 'h' {
            Some(CursorMoveEvent { direction: CursorDirection::Left })
        } else if value == 'j' {
            Some(CursorMoveEvent { direction: CursorDirection::Down })
        } else if value == 'k' {
            Some(CursorMoveEvent { direction: CursorDirection::Up })
        } else if value == 'l' {
            Some(CursorMoveEvent { direction: CursorDirection::Right })
        } else {
            None
        }
    }
}

} // verus!
