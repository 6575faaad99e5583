//! A plain status bar: one reverse-video line carrying the mode label,
//! padded to the viewport width.

use crate::ansi;
use crate::input::{mode_text, mode_text_seq, InputMode};
use crate::input::data::spaces;
use crate::output::OutputSize;
use vstd::prelude::*;

verus! {

/// The rendered plain status bar.
#[derive(Clone)]
pub struct StatusBar {
    value: Vec<char>,
}

/// The plain bar: the mode label in reverse video, padded with spaces.
/// The eight cells the two attribute sequences occupy in the encoding
/// are taken off the padding; since every mode label is eight characters
/// wide, the visible width comes out as the viewport width.  The padding
/// clamps at zero on a narrow terminal.
pub open spec fn simple_bar_seq(mode: InputMode, columns: int) -> Seq<char> {
    ansi::attr_reverse_seq() + mode_text_seq(mode) + spaces(
        if columns >= 8 {
            columns - 8
        } else {
            0
        },
    ) + ansi::attr_reset_seq()
}

/// Wraps a value in a reverse-video / reset pair.
pub fn wrap_reversed(value: Vec<char>) -> (r: Vec<char>)
    ensures
        r@ == ansi::attr_reverse_seq() + value@ + ansi::attr_reset_seq(),
{
    let mut r = ansi::ansi_attr_reverse();
    r.extend_from_slice(value.as_slice());
    let mut reset = ansi::ansi_attr_reset();
    r.append(&mut reset);
    proof {
        assert(r@ =~= ansi::attr_reverse_seq() + value@ + ansi::attr_reset_seq());
    }
    r
}

impl StatusBar {
    /// The rendered line, style bytes included.
    pub closed spec fn value_view(&self) -> Seq<char> {
        self.value@
    }

    /// An empty bar.
    pub fn new() -> (r: StatusBar)
        ensures
            r.value_view() == Seq::<char>::empty(),
    {
        StatusBar { value: Vec::new() }
    }

    /// Renders the bar for insert mode, stores it, and hands it back.
    pub fn draw(&mut self, size: &OutputSize) -> (r: Vec<char>)
        ensures
            r@ == simple_bar_seq(InputMode::Insert, size.columns as int),
            final(self).value_view() == r@,
    {
        let mut builder = ansi::ansi_attr_reverse();
        let mut label = mode_text(InputMode::Insert);
        builder.append(&mut label);
        let pad = if size.columns >= 8 {
            size.columns - 8
        } else {
            0
        };
        let ghost mid = builder@;
        let mut k: usize = 0;
        while k < pad
            invariant
                k <= pad,
                builder@ == mid + spaces(k as int),
            decreases pad - k,
        {
            builder.push(' ');
            k = k + 1;
            proof {
                assert(builder@ =~= mid + spaces(k as int));
            }
        }
        let mut reset = ansi::ansi_attr_reset();
        builder.append(&mut reset);
        proof {
            assert(builder@ =~= simple_bar_seq(InputMode::Insert, size.columns as int));
        }
        let mut stored: Vec<char> = Vec::new();
        stored.extend_from_slice(builder.as_slice());
        self.value = stored;
        builder
    }
}

/// Renders the current mode's label in reverse video and stores it as
/// the bar's value.
pub fn fill_bar(status_bar: &mut StatusBar, input_mode: &InputMode)
    ensures
        final(status_bar).value_view() == ansi::attr_reverse_seq() + mode_text_seq(*input_mode)
            + ansi::attr_reset_seq(),
{
    let bar_value = mode_text(*input_mode);
    status_bar.value = wrap_reversed(bar_value);
}

} // verus!
