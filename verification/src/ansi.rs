//! ANSI control sequences used when assembling a frame.
//!
//! The fixed terminal commands (cursor visibility, cursor movement, screen
//! and line clearing, attribute changes) are produced by crossterm and taken
//! on trust with exact contracts, each checked against the command's
//! `write_ansi` implementation.  Color sequences are emitted by the library
//! itself: crossterm suppresses all color output when the `NO_COLOR`
//! environment variable is set, so no exact contract could be given to a
//! wrapper around its color printing.

use vstd::prelude::*;

verus! {

/// The escape character that introduces every ANSI control sequence.
pub open spec fn esc_char() -> char {
    '\u{1b}'
}

/// The control sequence introducer, `ESC [`.
pub open spec fn csi_seq() -> Seq<char> {
    seq![esc_char(), '[']
}

/// The character for one decimal digit.
pub open spec fn digit_char(d: int) -> char {
    if d == 0 {
        '0'
    } else if d == 1 {
        '1'
    } else if d == 2 {
        '2'
    } else if d == 3 {
        '3'
    } else if d == 4 {
        '4'
    } else if d == 5 {
        '5'
    } else if d == 6 {
        '6'
    } else if d == 7 {
        '7'
    } else if d == 8 {
        '8'
    } else {
        '9'
    }
}

/// The decimal rendering of a non-negative integer, most significant
/// digit first, with no leading zeros (`0` itself is one digit).
pub open spec fn dec_of(n: int) -> Seq<char>
    decreases n,
{
    if n < 10 {
        seq![digit_char(n)]
    } else {
        dec_of(n / 10).push(digit_char(n % 10))
    }
}

fn digit_to_char(d: usize) -> (c: char)
    requires
        d < 10,
    ensures
        c == digit_char(d as int),
{
    if d == 0 {
        '0'
    } else if d == 1 {
        '1'
    } else if d == 2 {
        '2'
    } else if d == 3 {
        '3'
    } else if d == 4 {
        '4'
    } else if d == 5 {
        '5'
    } else if d == 6 {
        '6'
    } else if d == 7 {
        '7'
    } else if d == 8 {
        '8'
    } else {
        '9'
    }
}

/// Renders a number in decimal, as the status line shows it.
pub fn format_usize(n: usize) -> (r: Vec<char>)
    ensures
        r@ == dec_of(n as int),
    decreases n,
{
    if n < 10 {
        let mut v: Vec<char> = Vec::new();
        v.push(digit_to_char(n));
        proof {
            assert(v@ =~= dec_of(n as int));
        }
        v
    } else {
        let mut v = format_usize(n / 10);
        v.push(digit_to_char(n % 10));
        proof {
            assert(v@ =~= dec_of(n as int));
        }
        v
    }
}

/// `ESC [ ? 2 5 l`: make the cursor invisible.
pub open spec fn hide_cursor_seq() -> Seq<char> {
    csi_seq() + seq!['?', '2', '5', 'l']
}

/// `ESC [ ? 2 5 h`: make the cursor visible.
pub open spec fn show_cursor_seq() -> Seq<char> {
    csi_seq() + seq!['?', '2', '5', 'h']
}

/// `ESC [ 2 J`: clear the whole screen.
pub open spec fn clear_all_seq() -> Seq<char> {
    csi_seq() + seq!['2', 'J']
}

/// `ESC [ K`: clear from the cursor to the end of the line.
pub open spec fn clear_until_newline_seq() -> Seq<char> {
    csi_seq() + seq!['K']
}

/// `ESC [ {row+1} ; {column+1} H`: move the cursor to a cell, both
/// coordinates decimal and one-based.
pub open spec fn move_to_seq(column: int, row: int) -> Seq<char> {
    csi_seq() + dec_of(row + 1) + seq![';'] + dec_of(column + 1) + seq!['H']
}

/// `ESC [ 7 m`: swap foreground and background (reverse video).
pub open spec fn attr_reverse_seq() -> Seq<char> {
    csi_seq() + seq!['7', 'm']
}

/// `ESC [ 0 m`: reset every attribute and color.
pub open spec fn attr_reset_seq() -> Seq<char> {
    csi_seq() + seq!['0', 'm']
}

/// Powers of ten, for bounding decimal lengths.
pub open spec fn pow10(k: int) -> int
    decreases k,
{
    if k <= 0 {
        1
    } else {
        10 * pow10(k - 1)
    }
}

proof fn lemma_dec_of_len_pow(n: int, k: int)
    requires
        0 <= n < pow10(k),
        1 <= k,
    ensures
        1 <= dec_of(n).len() <= k,
    decreases k,
{
    if n >= 10 {
        assert(pow10(k) == 10 * pow10(k - 1));
        assert(k >= 2) by {
            if k == 1 {
                assert(pow10(1) == 10);
            }
        }
        lemma_dec_of_len_pow(n / 10, k - 1);
    }
}

/// A machine-sized number renders to at most twenty digits.
pub proof fn lemma_dec_of_len(n: usize)
    ensures
        1 <= dec_of(n as int).len() <= 20,
{
    reveal_with_fuel(pow10, 21);
    assert((usize::MAX as int) < pow10(20));
    lemma_dec_of_len_pow(n as int, 20);
}

/// `ESC [ 3 8 ; 2 ; r ; g ; b m`: set the foreground to an RGB color.
pub open spec fn fg_color_seq(r: u8, g: u8, b: u8) -> Seq<char> {
    csi_seq() + seq!['3', '8', ';', '2', ';'] + dec_of(r as int) + seq![';'] + dec_of(g as int)
        + seq![';'] + dec_of(b as int) + seq!['m']
}

/// `ESC [ 3 9 m`: restore the default foreground color.
pub open spec fn fg_reset_seq() -> Seq<char> {
    csi_seq() + seq!['3', '9', 'm']
}

/// `ESC [ 4 8 ; 2 ; r ; g ; b m`: set the background to an RGB color.
pub open spec fn bg_color_seq(r: u8, g: u8, b: u8) -> Seq<char> {
    csi_seq() + seq!['4', '8', ';', '2', ';'] + dec_of(r as int) + seq![';'] + dec_of(g as int)
        + seq![';'] + dec_of(b as int) + seq!['m']
}

/// `ESC [ 4 9 m`: restore the default background color.
pub open spec fn bg_reset_seq() -> Seq<char> {
    csi_seq() + seq!['4', '9', 'm']
}

/// Emits the set-foreground sequence for an RGB color.
pub fn ansi_fg_color(r: u8, g: u8, b: u8) -> (v: Vec<char>)
    ensures
        v@ == fg_color_seq(r, g, b),
{
    let mut v: Vec<char> = Vec::new();
    v.push('\u{1b}');
    v.push('[');
    v.push('3');
    v.push('8');
    v.push(';');
    v.push('2');
    v.push(';');
    let mut rd = format_usize(r as usize);
    v.append(&mut rd);
    v.push(';');
    let mut gd = format_usize(g as usize);
    v.append(&mut gd);
    v.push(';');
    let mut bd = format_usize(b as usize);
    v.append(&mut bd);
    v.push('m');
    proof {
        assert(v@ =~= fg_color_seq(r, g, b));
    }
    v
}

/// Emits the restore-foreground sequence.
pub fn ansi_fg_reset() -> (v: Vec<char>)
    ensures
        v@ == fg_reset_seq(),
{
    let mut v: Vec<char> = Vec::new();
    v.push('\u{1b}');
    v.push('[');
    v.push('3');
    v.push('9');
    v.push('m');
    proof {
        assert(v@ =~= fg_reset_seq());
    }
    v
}

/// Emits the set-background sequence for an RGB color.
pub fn ansi_bg_color(r: u8, g: u8, b: u8) -> (v: Vec<char>)
    ensures
        v@ == bg_color_seq(r, g, b),
{
    let mut v: Vec<char> = Vec::new();
    v.push('\u{1b}');
    v.push('[');
    v.push('4');
    v.push('8');
    v.push(';');
    v.push('2');
    v.push(';');
    let mut rd = format_usize(r as usize);
    v.append(&mut rd);
    v.push(';');
    let mut gd = format_usize(g as usize);
    v.append(&mut gd);
    v.push(';');
    let mut bd = format_usize(b as usize);
    v.append(&mut bd);
    v.push('m');
    proof {
        assert(v@ =~= bg_color_seq(r, g, b));
    }
    v
}

/// Emits the restore-background sequence.
pub fn ansi_bg_reset() -> (v: Vec<char>)
    ensures
        v@ == bg_reset_seq(),
{
    let mut v: Vec<char> = Vec::new();
    v.push('\u{1b}');
    v.push('[');
    v.push('4');
    v.push('9');
    v.push('m');
    proof {
        assert(v@ =~= bg_reset_seq());
    }
    v
}

/// Relies on crossterm's `cursor::Hide` command, whose `write_ansi`
/// writes exactly `"\x1b[?25l"`.
#[verifier::external_body]
pub(crate) fn ansi_hide_cursor() -> (r: Vec<char>)
    ensures
        r@ == hide_cursor_seq(),
{
    let mut s = String::new();
    let _ = crossterm::Command::write_ansi(&crossterm::cursor::Hide, &mut s);
    s.chars().collect()
}

/// Relies on crossterm's `cursor::Show` command, whose `write_ansi`
/// writes exactly `"\x1b[?25h"`.
#[verifier::external_body]
pub(crate) fn ansi_show_cursor() -> (r: Vec<char>)
    ensures
        r@ == show_cursor_seq(),
{
    let mut s = String::new();
    let _ = crossterm::Command::write_ansi(&crossterm::cursor::Show, &mut s);
    s.chars().collect()
}

/// Relies on crossterm's `terminal::Clear(ClearType::All)` command, whose
/// `write_ansi` writes exactly `"\x1b[2J"`.
#[verifier::external_body]
pub(crate) fn ansi_clear_all() -> (r: Vec<char>)
    ensures
        r@ == clear_all_seq(),
{
    let mut s = String::new();
    let _ = crossterm::Command::write_ansi(
        &crossterm::terminal::Clear(crossterm::terminal::ClearType::All),
        &mut s,
    );
    s.chars().collect()
}

/// Relies on crossterm's `terminal::Clear(ClearType::UntilNewLine)` command,
/// whose `write_ansi` writes exactly `"\x1b[K"`.
#[verifier::external_body]
pub(crate) fn ansi_clear_until_newline() -> (r: Vec<char>)
    ensures
        r@ == clear_until_newline_seq(),
{
    let mut s = String::new();
    let _ = crossterm::Command::write_ansi(
        &crossterm::terminal::Clear(crossterm::terminal::ClearType::UntilNewLine),
        &mut s,
    );
    s.chars().collect()
}

/// Relies on crossterm's `cursor::MoveTo(column, row)` command, whose
/// `write_ansi` writes `"\x1b[{row+1};{column+1}H"` with both numbers in
/// decimal; the bounds keep its one-based coordinates from overflowing `u16`.
#[verifier::external_body]
pub(crate) fn ansi_move_to(column: u16, row: u16) -> (r: Vec<char>)
    requires
        column < 65535,
        row < 65535,
    ensures
        r@ == move_to_seq(column as int, row as int),
{
    let mut s = String::new();
    let _ = crossterm::Command::write_ansi(&crossterm::cursor::MoveTo(column, row), &mut s);
    s.chars().collect()
}

/// Relies on crossterm's `Attribute::Reverse`, whose `Display` goes through
/// `SetAttribute` and writes exactly `"\x1b[7m"` (SGR parameter 7).
#[verifier::external_body]
pub(crate) fn ansi_attr_reverse() -> (r: Vec<char>)
    ensures
        r@ == attr_reverse_seq(),
{
    let mut s = String::new();
    let _ = crossterm::Command::write_ansi(
        &crossterm::style::SetAttribute(crossterm::style::Attribute::Reverse),
        &mut s,
    );
    s.chars().collect()
}

/// Relies on crossterm's `Attribute::Reset`, whose `Display` goes through
/// `SetAttribute` and writes exactly `"\x1b[0m"` (SGR parameter 0).
#[verifier::external_body]
pub(crate) fn ansi_attr_reset() -> (r: Vec<char>)
    ensures
        r@ == attr_reset_seq(),
{
    let mut s = String::new();
    let _ = crossterm::Command::write_ansi(
        &crossterm::style::SetAttribute(crossterm::style::Attribute::Reset),
        &mut s,
    );
    s.chars().collect()
}

} // verus!
