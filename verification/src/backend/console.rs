//! Terminal commands. Every function appends the commands that produce its
//! effect to an output stream, which a terminal backend then performs.

use vstd::prelude::*;
use crate::style::{Color, TextStyle};

verus! {

/// One terminal command.
#[derive(Debug, Clone, Copy, PartialEq, Eq, Structural)]
pub enum TermOp {
    /// Print a character at the cursor.
    Print(char),
    /// Show the terminal cursor.
    ShowCursor,
    /// Hide the terminal cursor.
    HideCursor,
    /// Move the cursor up by the given number of rows.
    Up(u16),
    /// Move the cursor down by the given number of rows.
    Down(u16),
    /// Move the cursor left by the given number of columns.
    Left(u16),
    /// Move the cursor right by the given number of columns.
    Right(u16),
    /// Reset all attributes and colors.
    Reset,
    /// Set the foreground color.
    Fg(Color),
    /// Set the background color.
    Bg(Color),
    Bold,
    NoBold,
    Blink,
    NoBlink,
    Invert,
    NoInvert,
    Italic,
    NoItalic,
    Underline,
    NoUnderline,
}

/// Every character of `s` as a print command.
pub open spec fn chars_ops(s: Seq<char>) -> Seq<TermOp>
    decreases s.len(),
{
    if s.len() == 0 {
        seq![]
    } else {
        chars_ops(s.drop_last()).push(TermOp::Print(s.last()))
    }
}

/// `flag` is set in `ts`.
pub open spec fn has_flag(ts: TextStyle, flag: u8) -> bool {
    ts.view_bits() & flag == flag
}

/// `on` when `flag` is set in `ts`, else `off`.
pub open spec fn flag_switch(ts: TextStyle, flag: u8, on: TermOp, off: TermOp) -> TermOp {
    if has_flag(ts, flag) { on } else { off }
}

/// `op` when `flag` is set in `ts`, else nothing.
pub open spec fn flag_only(ts: TextStyle, flag: u8, op: TermOp) -> Seq<TermOp> {
    if has_flag(ts, flag) { seq![op] } else { seq![] }
}

/// The commands that set exactly the attributes of `ts`.
pub open spec fn set_text_style_ops(ts: TextStyle) -> Seq<TermOp> {
    seq![
        flag_switch(ts, 1, TermOp::Bold, TermOp::NoBold),
        flag_switch(ts, 2, TermOp::Blink, TermOp::NoBlink),
        flag_switch(ts, 4, TermOp::Invert, TermOp::NoInvert),
        flag_switch(ts, 8, TermOp::Italic, TermOp::NoItalic),
        flag_switch(ts, 16, TermOp::Underline, TermOp::NoUnderline),
    ]
}

/// The commands that turn on the attributes of `ts`.
pub open spec fn add_text_style_ops(ts: TextStyle) -> Seq<TermOp> {
    flag_only(ts, 1, TermOp::Bold) + flag_only(ts, 2, TermOp::Blink) + flag_only(ts, 4, TermOp::Invert)
        + flag_only(ts, 8, TermOp::Italic) + flag_only(ts, 16, TermOp::Underline)
}

/// The commands that turn off the attributes of `ts`.
pub open spec fn subtract_text_style_ops(ts: TextStyle) -> Seq<TermOp> {
    flag_only(ts, 1, TermOp::NoBold) + flag_only(ts, 2, TermOp::NoBlink) + flag_only(ts, 4, TermOp::NoInvert)
        + flag_only(ts, 8, TermOp::NoItalic) + flag_only(ts, 16, TermOp::NoUnderline)
}

/// The commands that move the cursor by `y` rows and `x` columns; a zero
/// movement emits nothing.
pub open spec fn move_cursor_ops(y: int, x: int) -> Seq<TermOp> {
    (if y == 0 {
        seq![]
    } else if y < 0 {
        seq![TermOp::Up((-y) as u16)]
    } else {
        seq![TermOp::Down(y as u16)]
    }) + (if x == 0 {
        seq![]
    } else if x < 0 {
        seq![TermOp::Left((-x) as u16)]
    } else {
        seq![TermOp::Right(x as u16)]
    })
}

/// Inverting colors alone is switched on and off by one command each.
pub proof fn lemma_invert_ops()
    ensures
        add_text_style_ops(TextStyle::invert_spec()) == seq![TermOp::Invert],
        subtract_text_style_ops(TextStyle::invert_spec()) == seq![TermOp::NoInvert],
{
    TextStyle::lemma_invert();
    let b = TextStyle::invert_spec().view_bits();
    assert(b & 1 != 1 && b & 2 != 2 && b & 4 == 4 && b & 8 != 8 && b & 16 != 16) by (bit_vector)
        requires b == 4u8;
    assert(add_text_style_ops(TextStyle::invert_spec()) =~= seq![TermOp::Invert]);
    assert(subtract_text_style_ops(TextStyle::invert_spec()) =~= seq![TermOp::NoInvert]);
}

/// Prints `c`.
pub fn write_char(out: &mut Vec<TermOp>, c: char)
    ensures
        final(out)@ == old(out)@.push(TermOp::Print(c)),
{
    out.push(TermOp::Print(c));
}

/// Prints `s`.
pub fn write_str(out: &mut Vec<TermOp>, s: &str)
    ensures
        final(out)@ == old(out)@ + chars_ops(s@),
{
    let n = s.unicode_len();
    proof {
        assert(s@.take(0).len() == 0);
        assert(out@ =~= old(out)@ + chars_ops(s@.take(0)));
    }
    let mut i: usize = 0;
    while i < n
        invariant
            n == s@.len(),
            i <= n,
            out@ == old(out)@ + chars_ops(s@.take(i as int)),
        decreases n - i,
    {
        let c = s.get_char(i);
        out.push(TermOp::Print(c));
        proof {
            assert(s@.take(i + 1).drop_last() =~= s@.take(i as int));
            assert(out@ =~= old(out)@ + chars_ops(s@.take(i + 1)));
        }
        i += 1;
    }
    proof {
        assert(s@.take(n as int) =~= s@);
    }
}

/// Shows the cursor.
pub fn show_cursor(out: &mut Vec<TermOp>)
    ensures
        final(out)@ == old(out)@.push(TermOp::ShowCursor),
{
    out.push(TermOp::ShowCursor);
}

/// Hides the cursor.
pub fn hide_cursor(out: &mut Vec<TermOp>)
    ensures
        final(out)@ == old(out)@.push(TermOp::HideCursor),
{
    out.push(TermOp::HideCursor);
}

/// Moves the cursor by `y` rows and `x` columns (negative: up / left).
/// A zero movement emits nothing, as the terminal would move by one.
pub fn move_cursor(out: &mut Vec<TermOp>, y: isize, x: isize)
    requires
        y > isize::MIN,
        x > isize::MIN,
    ensures
        final(out)@ == old(out)@ + move_cursor_ops(y as int, x as int),
{
    let ghost o = out@;
    if y != 0 {
        if y < 0 {
            out.push(TermOp::Up((-y) as u16));
        } else {
            out.push(TermOp::Down(y as u16));
        }
    }
    let ghost mid = out@;
    if x != 0 {
        if x < 0 {
            out.push(TermOp::Left((-x) as u16));
        } else {
            out.push(TermOp::Right(x as u16));
        }
    }
    proof {
        assert(out@ =~= o + move_cursor_ops(y as int, x as int));
    }
}

/// Resets all attributes and colors.
pub fn reset(out: &mut Vec<TermOp>)
    ensures
        final(out)@ == old(out)@.push(TermOp::Reset),
{
    out.push(TermOp::Reset);
}

/// Sets the foreground color.
pub fn set_fg_color(out: &mut Vec<TermOp>, color: Color)
    ensures
        final(out)@ == old(out)@.push(TermOp::Fg(color)),
{
    out.push(TermOp::Fg(color));
}

/// Sets the background color.
pub fn set_bg_color(out: &mut Vec<TermOp>, color: Color)
    ensures
        final(out)@ == old(out)@.push(TermOp::Bg(color)),
{
    out.push(TermOp::Bg(color));
}

/// Sets exactly the attributes of `ts`: each attribute is turned on or off.
pub fn set_text_style(out: &mut Vec<TermOp>, ts: TextStyle)
    ensures
        final(out)@ == old(out)@ + set_text_style_ops(ts),
{
    out.push(if ts.contains(TextStyle::bold()) { TermOp::Bold } else { TermOp::NoBold });
    out.push(if ts.contains(TextStyle::blink()) { TermOp::Blink } else { TermOp::NoBlink });
    out.push(if ts.contains(TextStyle::invert()) { TermOp::Invert } else { TermOp::NoInvert });
    out.push(if ts.contains(TextStyle::italic()) { TermOp::Italic } else { TermOp::NoItalic });
    out.push(if ts.contains(TextStyle::underline()) { TermOp::Underline } else { TermOp::NoUnderline });
    proof {
        assert(out@ =~= old(out)@ + set_text_style_ops(ts));
    }
}

/// Turns on the attributes of `ts`, leaving the others as they are.
pub fn add_text_style(out: &mut Vec<TermOp>, ts: TextStyle)
    ensures
        final(out)@ == old(out)@ + add_text_style_ops(ts),
{
    let ghost o = out@;
    if ts.contains(TextStyle::bold()) {
        out.push(TermOp::Bold);
    }
    if ts.contains(TextStyle::blink()) {
        out.push(TermOp::Blink);
    }
    if ts.contains(TextStyle::invert()) {
        out.push(TermOp::Invert);
    }
    if ts.contains(TextStyle::italic()) {
        out.push(TermOp::Italic);
    }
    if ts.contains(TextStyle::underline()) {
        out.push(TermOp::Underline);
    }
    proof {
        assert(out@ =~= o + add_text_style_ops(ts));
    }
}

/// Turns off the attributes of `ts`, leaving the others as they are.
///
/// Terminals do not undo every attribute this way (notably bold); a full
/// reset, which also resets the colors, is the only sure way.
pub fn subtract_text_style(out: &mut Vec<TermOp>, ts: TextStyle)
    ensures
        final(out)@ == old(out)@ + subtract_text_style_ops(ts),
{
    let ghost o = out@;
    if ts.contains(TextStyle::bold()) {
        out.push(TermOp::NoBold);
    }
    if ts.contains(TextStyle::blink()) {
        out.push(TermOp::NoBlink);
    }
    if ts.contains(TextStyle::invert()) {
        out.push(TermOp::NoInvert);
    }
    if ts.contains(TextStyle::italic()) {
        out.push(TermOp::NoItalic);
    }
    if ts.contains(TextStyle::underline()) {
        out.push(TermOp::NoUnderline);
    }
    proof {
        assert(out@ =~= o + subtract_text_style_ops(ts));
    }
}

} // verus!
