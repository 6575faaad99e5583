//! Rendering and navigation engine of a terminal text viewer.
//!
//! The library owns a read-only text buffer with tab-expanded render lines,
//! tracks a cursor and scroll offsets over it, and assembles each screen
//! frame as one sequence of characters (text plus ANSI control sequences)
//! that the host writes to the terminal in a single flush.

use vstd::prelude::*;

pub mod ansi;
pub mod cursor;
pub mod input;
pub mod output;
pub mod schedule;
pub mod status;

verus! {

/// Labels for the groups of steps that one tick runs, used to state
/// that the frame steps of one group run before those of another.
#[derive(Clone, Copy, PartialEq, Eq, Structural, Debug)]
pub enum SystemType {
    Output,
    Input,
    Flush,
    Cursor,
}

} // verus!
