//! Input side of the engine: the text buffer that a session views, the
//! input modes, and the decision that maps one key press to the next
//! mode and the action to take.  Reading keys from the terminal is the
//! host's job; the engine only decides.

pub mod data;

use crate::cursor::{direction_of_char, CursorDirection};
use vstd::prelude::*;

verus! {

/// The editing mode a session is in; this read-only core only navigates,
/// but the mode is shown and governs which keys move the cursor.
#[derive(Clone, Copy, PartialEq, Eq, Structural, Debug)]
pub enum InputMode {
    Insert,
    Visual,
    Normal,
}

/// The bracketed mode label shown by the plain status bar.
pub open spec fn mode_text_seq(mode: InputMode) -> Seq<char> {
    match mode {
        InputMode::Normal => seq!['[', 'n', 'o', 'r', 'm', 'a', 'l', ']'],
        InputMode::Insert => seq!['[', 'i', 'n', 's', 'e', 'r', 't', ']'],
        InputMode::Visual => seq!['[', 'v', 'i', 's', 'u', 'a', 'l', ']'],
    }
}

/// Renders the bracketed mode label.
pub fn mode_text(mode: InputMode) -> (r: Vec<char>)
    ensures
        r@ == mode_text_seq(mode),
{
    let mut v: Vec<char> = Vec::new();
    v.push('[');
    match mode {
        InputMode::Normal => {
            v.push('n');
            v.push('o');
            v.push('r');
            v.push('m');
            v.push('a');
            v.push('l');
        },
        InputMode::Insert => {
            v.push('i');
            v.push('n');
            v.push('s');
            v.push('e');
            v.push('r');
            v.push('t');
        },
        InputMode::Visual => {
            v.push('v');
            v.push('i');
            v.push('s');
            v.push('u');
            v.push('a');
            v.push('l');
        },
    }
    v.push(']');
    proof {
        assert(v@ =~= mode_text_seq(mode));
    }
    v
}

/// What a key press carries, modeled with plain values: the key itself
/// and which modifier held it.
#[derive(Clone, Copy, PartialEq, Eq, Structural, Debug)]
pub enum Key {
    Char(char),
    Esc,
    Other,
}

/// The modifier state of a key press.
#[derive(Clone, Copy, PartialEq, Eq, Structural, Debug)]
pub enum Modifier {
    Plain,
    Control,
    Other,
}

/// One key press, as the host hands it to the engine.
#[derive(Clone, Copy, PartialEq, Eq, Structural, Debug)]
pub struct KeyPress {
    pub code: Key,
    pub modifier: Modifier,
}

/// What the engine asks the host to do after one key press.
#[derive(Clone, Copy, PartialEq, Eq, Structural, Debug)]
pub enum InputAction {
    Quit,
    Move(CursorDirection),
    Idle,
}

/// The input decision: from the current mode and one key press, the next
/// mode and the action owed.  Control-q in normal mode quits; `i` in
/// normal mode enters insert mode; escape returns to normal mode from
/// any mode; the four navigation keys move the cursor in normal and
/// visual mode; everything else is a no-op for this core.
pub open spec fn process_input_spec(mode: InputMode, key: KeyPress) -> (InputMode, InputAction) {
    match (key.code, key.modifier, mode) {
        (Key::Char('q'), Modifier::Control, InputMode::Normal) => (mode, InputAction::Quit),
        (Key::Char('i'), Modifier::Plain, InputMode::Normal) => (InputMode::Insert, InputAction::Idle),
        (Key::Esc, Modifier::Plain, _) => (InputMode::Normal, InputAction::Idle),
        (Key::Char(c), Modifier::Plain, InputMode::Visual | InputMode::Normal) => match direction_of_char(
            c,
        ) {
            Some(d) => (mode, InputAction::Move(d)),
            None => (mode, InputAction::Idle),
        },
        _ => (mode, InputAction::Idle),
    }
}

/// The engine's input front end: it holds the session's mode and turns
/// key presses into actions.
pub struct Input {
    pub mode: InputMode,
}

impl Input {
    /// A session starts in normal mode.
    pub fn new() -> (r: Input)
        ensures
            r.mode == InputMode::Normal,
    {
        Input { mode: InputMode::Normal }
    }

    /// Applies one key press: updates the mode and returns the action
    /// the host must carry out.
    pub fn process_input(&mut self, key: KeyPress) -> (r: InputAction)
        ensures
            (final(self).mode, r) == process_input_spec(old(self).mode, key),
    {
        match (key.code, key.modifier, self.mode) {
            (Key::Char('q'), Modifier::Control, InputMode::Normal) => InputAction::Quit,
            (Key::Char('i'), Modifier::Plain, InputMode::Normal) => {
                self.mode = InputMode::Insert;
                InputAction::Idle
            },
            (Key::Esc, Modifier::Plain, _) => {
                self.mode = InputMode::Normal;
                InputAction::Idle
            },
            (Key::Char(c), Modifier::Plain, InputMode::Visual | InputMode::Normal) => {
                match crate::cursor::CursorMoveEvent::from_char(c) {
                    Some(ev) => InputAction::Move(ev.direction),
                    None => InputAction::Idle,
                }
            },
            _ => InputAction::Idle,
        }
    }

    /// One input tick: the host reads a key and hands it over; the
    /// engine decides.
    pub fn run(&mut self, key: KeyPress) -> (r: InputAction)
        ensures
            (final(self).mode, r) == process_input_spec(old(self).mode, key),
    {
        self.process_input(key)
    }
}

} // verus!
