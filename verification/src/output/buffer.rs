//! The staging buffer for one frame: every drawing step appends to it,
//! and the flush drains it in one piece.

use vstd::prelude::*;

verus! {

/// An append-only staging buffer holding the pending frame's characters.
#[derive(Clone)]
pub struct OutputBuffer {
    content: Vec<char>,
}

impl OutputBuffer {
    /// The pending frame, in order of appending.
    pub closed spec fn contents(&self) -> Seq<char> {
        self.content@
    }

    /// An empty staging buffer.
    pub fn new() -> (r: OutputBuffer)
        ensures
            r.contents() == Seq::<char>::empty(),
    {
        OutputBuffer { content: Vec::new() }
    }

    /// Appends one character.
    pub fn push(&mut self, c: char)
        ensures
            final(self).contents() == old(self).contents().push(c),
    {
        self.content.push(c);
    }

    /// Appends a run of characters.
    pub fn push_str(&mut self, data: &[char])
        ensures
            final(self).contents() == old(self).contents() + data@,
    {
        self.content.extend_from_slice(data);
    }

    /// Drains the buffer, returning the whole pending frame; the caller
    /// owns the one write to the terminal sink.
    pub fn flush(&mut self) -> (r: Vec<char>)
        ensures
            r@ == old(self).contents(),
            final(self).contents() == Seq::<char>::empty(),
    {
        let mut out: Vec<char> = Vec::new();
        core::mem::swap(&mut out, &mut self.content);
        out
    }
}

} // verus!
