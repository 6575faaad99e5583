//! Composing the status line: a left-aligned segment (mode glyph,
//! character count, buffer name) and a right-aligned segment (fixed
//! informational tags), joined by padding computed to make the visible
//! width exactly the viewport width, the whole line wrapped in one
//! background-color pair so no style leaks into later frames.

use crate::ansi;
use crate::input::data::{spaces, total_chars, RowBuffer};
use crate::input::InputMode;
use crate::output::OutputSize;
use super::StatusBuffer;
use vstd::prelude::*;

verus! {

/// Spaces kept at each end of the status line.
pub const BAR_PADDING: usize = 2;

/// An RGB color, held as plain components.
#[derive(Clone, Copy, PartialEq, Eq, Structural, Debug)]
pub struct Rgb {
    pub r: u8,
    pub g: u8,
    pub b: u8,
}

/// Builds an RGB color from its components.
pub fn color_rgb(r: u8, g: u8, b: u8) -> (c: Rgb)
    ensures
        c == (Rgb { r, g, b }),
{
    Rgb { r, g, b }
}

/// The green used for the informational tags and the visual-mode glyph.
pub open spec fn green_color_spec() -> Rgb {
    Rgb { r: 0x98, g: 0xbe, b: 0x65 }
}

/// The red used for the normal-mode glyph.
pub open spec fn red_color_spec() -> Rgb {
    Rgb { r: 0xec, g: 0x5f, b: 0x67 }
}

/// The pink used for the buffer name.
pub open spec fn pink_color_spec() -> Rgb {
    Rgb { r: 0xc6, g: 0x78, b: 0xdd }
}

/// The foreground used for the insert-mode glyph and the count.
pub open spec fn bar_foreground_spec() -> Rgb {
    Rgb { r: 0xbb, g: 0xc2, b: 0xcf }
}

/// The background the whole line is wrapped in.
pub open spec fn bar_background_spec() -> Rgb {
    Rgb { r: 0x20, g: 0x23, b: 0x28 }
}

/// One independently styled span of a status segment: its visible text
/// and an optional foreground color.
pub struct BarSpan {
    pub text: Vec<char>,
    pub color: Option<Rgb>,
}

/// How a span appears once styled: colored spans are wrapped in a
/// set-foreground / restore-foreground pair, plain spans appear as they
/// are.  The visible length is the text's length either way.
pub open spec fn styled_span_seq(text: Seq<char>, color: Option<Rgb>) -> Seq<char> {
    match color {
        Some(c) => ansi::fg_color_seq(c.r, c.g, c.b) + text + ansi::fg_reset_seq(),
        None => text,
    }
}

/// The visible length of a segment: the sum of its spans' text lengths,
/// style bytes excluded.
pub open spec fn spans_size(spans: Seq<BarSpan>) -> int
    decreases spans.len(),
{
    if spans.len() == 0 {
        0
    } else {
        spans_size(spans.drop_last()) + spans.last().text@.len()
    }
}

/// A segment's styled rendering: its spans styled and concatenated.
pub open spec fn spans_value(spans: Seq<BarSpan>) -> Seq<char>
    decreases spans.len(),
{
    if spans.len() == 0 {
        Seq::empty()
    } else {
        spans_value(spans.drop_last()) + styled_span_seq(
            spans.last().text@,
            spans.last().color,
        )
    }
}

proof fn lemma_spans_size_take_step(spans: Seq<BarSpan>, i: int)
    requires
        0 <= i < spans.len(),
    ensures
        spans_size(spans.take(i + 1)) == spans_size(spans.take(i)) + spans[i].text@.len(),
        spans_value(spans.take(i + 1)) == spans_value(spans.take(i)) + styled_span_seq(
            spans[i].text@,
            spans[i].color,
        ),
{
    assert(spans.take(i + 1).drop_last() =~= spans.take(i));
    assert(spans.take(i + 1).last() == spans[i]);
}

proof fn lemma_spans_size_take_le(spans: Seq<BarSpan>, i: int)
    requires
        0 <= i <= spans.len(),
    ensures
        spans_size(spans.take(i)) <= spans_size(spans),
    decreases spans.len() - i,
{
    if i == spans.len() {
        assert(spans.take(i) =~= spans);
    } else {
        lemma_spans_size_take_step(spans, i);
        lemma_spans_size_take_le(spans, i + 1);
    }
}

/// Styles one span with a foreground color.
fn wrap_fg(text: &Vec<char>, color: Rgb) -> (v: Vec<char>)
    ensures
        v@ == styled_span_seq(text@, Some(color)),
{
    let mut v = ansi::ansi_fg_color(color.r, color.g, color.b);
    v.extend_from_slice(text.as_slice());
    let mut reset = ansi::ansi_fg_reset();
    v.append(&mut reset);
    proof {
        assert(v@ =~= styled_span_seq(text@, Some(color)));
    }
    v
}

/// Builds one segment of the status line from its styled spans,
/// returning the segment's visible length and its styled rendering.
pub fn build_bar_part(content: Vec<BarSpan>) -> (r: (usize, Vec<char>))
    requires
        spans_size(content@) <= usize::MAX,
    ensures
        r.0 as int == spans_size(content@),
        r.1@ == spans_value(content@),
{
    let ghost spans = content@;
    let mut size: usize = 0;
    let mut value: Vec<char> = Vec::new();
    let mut i: usize = 0;
    while i < content.len()
        invariant
            i <= spans.len(),
            spans == content@,
            spans_size(spans) <= usize::MAX,
            size as int == spans_size(spans.take(i as int)),
            value@ == spans_value(spans.take(i as int)),
        decreases spans.len() - i,
    {
        proof {
            lemma_spans_size_take_step(spans, i as int);
            lemma_spans_size_take_le(spans, i + 1);
        }
        let span = &content[i];
        size = size + span.text.len();
        match span.color {
            Some(c) => {
                let mut styled = wrap_fg(&span.text, c);
                value.append(&mut styled);
            },
            None => {
                value.extend_from_slice(span.text.as_slice());
            },
        }
        i = i + 1;
    }
    proof {
        assert(spans.take(i as int) =~= spans);
    }
    (size, value)
}

/// Wraps a composed line in the bar's background color and ends it with
/// a full attribute reset, so no style leaks past the line.
pub fn wrap_colored(value: Vec<char>) -> (r: Vec<char>)
    ensures
        r@ == ansi::bg_color_seq(0x20, 0x23, 0x28) + value@ + ansi::bg_reset_seq()
            + ansi::attr_reset_seq(),
{
    let mut r = ansi::ansi_bg_color(0x20, 0x23, 0x28);
    r.extend_from_slice(value.as_slice());
    let mut bg_reset = ansi::ansi_bg_reset();
    r.append(&mut bg_reset);
    let mut attr_reset = ansi::ansi_attr_reset();
    r.append(&mut attr_reset);
    proof {
        assert(r@ =~= ansi::bg_color_seq(0x20, 0x23, 0x28) + value@ + ansi::bg_reset_seq()
            + ansi::attr_reset_seq());
    }
    r
}

/// The mode glyph shown at the left edge.
pub open spec fn mode_glyph_seq(mode: InputMode) -> Seq<char> {
    match mode {
        InputMode::Insert => seq!['i'],
        InputMode::Normal => seq!['n'],
        InputMode::Visual => seq!['v'],
    }
}

/// The color of the mode glyph.
pub open spec fn mode_color_spec(mode: InputMode) -> Rgb {
    match mode {
        InputMode::Insert => bar_foreground_spec(),
        InputMode::Normal => red_color_spec(),
        InputMode::Visual => green_color_spec(),
    }
}

/// The left segment: the mode glyph, the character count and the buffer
/// name, each styled, separated by plain spaces.
pub open spec fn left_value_seq(mode: InputMode, count: int, name: Seq<char>) -> Seq<char> {
    styled_span_seq(mode_glyph_seq(mode), Some(mode_color_spec(mode))) + seq![' ']
        + styled_span_seq(ansi::dec_of(count), Some(bar_foreground_spec())) + seq![' ']
        + styled_span_seq(name, Some(pink_color_spec()))
}

/// The left segment's visible length.
pub open spec fn left_size_spec(count: int, name: Seq<char>) -> int {
    3 + ansi::dec_of(count).len() as int + name.len() as int
}

/// The tag naming the document's encoding.
pub open spec fn utf8_tag_seq() -> Seq<char> {
    seq!['[', 'U', 'T', 'F', '-', '8', ']', ' ']
}

/// The tag naming the document's line-ending convention.
pub open spec fn unix_tag_seq() -> Seq<char> {
    seq!['U', 'N', 'I', 'X', ' ']
}

/// The right segment: the fixed informational tags, both green.
pub open spec fn right_value_seq() -> Seq<char> {
    styled_span_seq(utf8_tag_seq(), Some(green_color_spec())) + styled_span_seq(
        unix_tag_seq(),
        Some(green_color_spec()),
    )
}

/// The right segment's visible length.
pub open spec fn right_size_spec() -> int {
    13
}

/// The spaces joining the two segments: what is left of the viewport
/// width after the reset sequence's length and both segments' visible
/// lengths, clamped at zero so a narrow terminal never underflows.
pub open spec fn bar_padding_spec(columns: int, left: int, right: int) -> int {
    if columns >= 4 + left + right {
        columns - 4 - left - right
    } else {
        0
    }
}

/// The whole status line: edge padding, the left segment, the joining
/// spaces, the right segment and edge padding again, wrapped in the
/// bar's background color and a final attribute reset.
pub open spec fn status_line_seq(mode: InputMode, count: int, name: Seq<char>, columns: int) -> Seq<
    char,
> {
    ansi::bg_color_seq(0x20, 0x23, 0x28) + spaces(BAR_PADDING as int) + left_value_seq(
        mode,
        count,
        name,
    ) + spaces(bar_padding_spec(columns, left_size_spec(count, name), right_size_spec()))
        + right_value_seq() + spaces(BAR_PADDING as int) + ansi::bg_reset_seq()
        + ansi::attr_reset_seq()
}

/// Appends the bar's edge padding.
fn push_edge_padding(bar_value: &mut Vec<char>)
    ensures
        final(bar_value)@ == old(bar_value)@ + spaces(BAR_PADDING as int),
{
    let ghost base = bar_value@;
    let mut k: usize = 0;
    while k < BAR_PADDING
        invariant
            k <= BAR_PADDING,
            bar_value@ == base + spaces(k as int),
        decreases BAR_PADDING - k,
    {
        bar_value.push(' ');
        k = k + 1;
        proof {
            assert(bar_value@ =~= base + spaces(k as int));
        }
    }
}

/// Once the two segments fit beside the edge padding, the line's visible
/// length is exactly the viewport width: the edge padding and the reset
/// allowance cancel, and the joining spaces make up the difference.
pub proof fn lemma_status_line_width(columns: int, left: int, right: int)
    requires
        4 + left + right <= columns,
        0 <= left,
        0 <= right,
    ensures
        2 + left + bar_padding_spec(columns, left, right) + right + 2 == columns,
{
}

fn make_utf8_tag() -> (v: Vec<char>)
    ensures
        v@ == utf8_tag_seq(),
{
    let mut v: Vec<char> = Vec::new();
    v.push('[');
    v.push('U');
    v.push('T');
    v.push('F');
    v.push('-');
    v.push('8');
    v.push(']');
    v.push(' ');
    proof {
        assert(v@ =~= utf8_tag_seq());
    }
    v
}

fn make_unix_tag() -> (v: Vec<char>)
    ensures
        v@ == unix_tag_seq(),
{
    let mut v: Vec<char> = Vec::new();
    v.push('U');
    v.push('N');
    v.push('I');
    v.push('X');
    v.push(' ');
    proof {
        assert(v@ =~= unix_tag_seq());
    }
    v
}

/// Fills the status line from the current mode, document summary and
/// viewport width; the result is stored for the frame's status drawing
/// step.
#[verifier::rlimit(80)]
pub fn fill_bar(
    status_bar: &mut StatusBuffer,
    row_buffer: &RowBuffer,
    size: &OutputSize,
    input_mode: &InputMode,
)
    requires
        row_buffer.wf(),
        row_buffer.name_view().len() + 23 <= usize::MAX,
    ensures
        final(status_bar).value_view() == status_line_seq(
            *input_mode,
            total_chars(row_buffer.lines()),
            row_buffer.name_view(),
            size.columns as int,
        ),
{
    let ghost count = total_chars(row_buffer.lines());
    let ghost name = row_buffer.name_view();

    let mut right_spans: Vec<BarSpan> = Vec::new();
    right_spans.push(BarSpan { text: make_utf8_tag(), color: Some(color_rgb(0x98, 0xbe, 0x65)) });
    right_spans.push(BarSpan { text: make_unix_tag(), color: Some(color_rgb(0x98, 0xbe, 0x65)) });
    proof {
        reveal_with_fuel(spans_size, 4);
        reveal_with_fuel(spans_value, 4);
        assert(right_spans@.take(1).drop_last() =~= Seq::<BarSpan>::empty());
        assert(right_spans@.take(1).last() == right_spans@[0]);
        assert(right_spans@.drop_last() =~= right_spans@.take(1));
        assert(spans_size(right_spans@) == 13);
        assert(spans_value(right_spans@) =~= right_value_seq());
    }
    let (right_size, right_value) = build_bar_part(right_spans);

    let glyph_span = match input_mode {
        InputMode::Insert => BarSpan { text: vec!['i'], color: Some(color_rgb(0xbb, 0xc2, 0xcf)) },
        InputMode::Normal => BarSpan { text: vec!['n'], color: Some(color_rgb(0xec, 0x5f, 0x67)) },
        InputMode::Visual => BarSpan { text: vec!['v'], color: Some(color_rgb(0x98, 0xbe, 0x65)) },
    };
    let count_exec = row_buffer.get_char_count();
    let digits = ansi::format_usize(count_exec);
    let mut name_chars: Vec<char> = Vec::new();
    name_chars.extend_from_slice(row_buffer.get_buffer_name().as_slice());

    let mut left_spans: Vec<BarSpan> = Vec::new();
    left_spans.push(glyph_span);
    left_spans.push(BarSpan { text: vec![' '], color: None });
    left_spans.push(BarSpan { text: digits, color: Some(color_rgb(0xbb, 0xc2, 0xcf)) });
    left_spans.push(BarSpan { text: vec![' '], color: None });
    left_spans.push(BarSpan { text: name_chars, color: Some(color_rgb(0xc6, 0x78, 0xdd)) });
    proof {
        reveal_with_fuel(spans_size, 7);
        reveal_with_fuel(spans_value, 7);
        ansi::lemma_dec_of_len(count_exec);
        let ls = left_spans@;
        assert(ls.take(1).drop_last() =~= Seq::<BarSpan>::empty());
        assert(ls.take(2).drop_last() =~= ls.take(1));
        assert(ls.take(3).drop_last() =~= ls.take(2));
        assert(ls.take(4).drop_last() =~= ls.take(3));
        assert(ls.drop_last() =~= ls.take(4));
        assert(spans_size(ls) == left_size_spec(count, name));
        assert(spans_value(ls) =~= left_value_seq(*input_mode, count, name));
    }
    let (left_size, left_value) = build_bar_part(left_spans);

    let reset_seq = ansi::ansi_attr_reset();
    let attribute_len = reset_seq.len();

    let mut bar_value: Vec<char> = Vec::new();
    push_edge_padding(&mut bar_value);
    let mut left_owned = left_value;
    bar_value.append(&mut left_owned);

    let p1 = if size.columns > attribute_len {
        size.columns - attribute_len
    } else {
        0
    };
    let p2 = if p1 > left_size {
        p1 - left_size
    } else {
        0
    };
    let adjusted = if p2 > right_size {
        p2 - right_size
    } else {
        0
    };
    proof {
        assert(attribute_len == 4) by {
            assert(ansi::attr_reset_seq().len() == 4);
        }
        assert(adjusted as int == bar_padding_spec(
            size.columns as int,
            left_size_spec(count, name),
            right_size_spec(),
        ));
    }
    let ghost mid = bar_value@;
    let mut k: usize = 0;
    while k < adjusted
        invariant
            k <= adjusted,
            bar_value@ == mid + spaces(k as int),
        decreases adjusted - k,
    {
        bar_value.push(' ');
        k = k + 1;
        proof {
            assert(bar_value@ =~= mid + spaces(k as int));
        }
    }

    let mut right_owned = right_value;
    bar_value.append(&mut right_owned);
    push_edge_padding(&mut bar_value);

    status_bar.set_value(wrap_colored(bar_value));
    proof {
        assert(status_bar.value_view() =~= status_line_seq(
            *input_mode,
            count,
            name,
            size.columns as int,
        ));
    }
}

} // verus!
