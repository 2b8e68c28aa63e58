//! Small arithmetic helpers shared by the layout and painting code.

use vstd::prelude::*;

verus! {

/// The smaller of `a` and `b` (`a` when they are equal).
pub open spec fn spec_min(a: int, b: int) -> int {
    if a <= b { a } else { b }
}

/// The larger of `a` and `b` (`b` when they are equal).
pub open spec fn spec_max(a: int, b: int) -> int {
    if a <= b { b } else { a }
}

/// The smaller of two `u16` values.
pub fn min(a: u16, b: u16) -> (r: u16)
    ensures
        r == spec_min(a as int, b as int),
{
    if a <= b { a } else { b }
}

/// The larger of two `u16` values.
pub fn max(a: u16, b: u16) -> (r: u16)
    ensures
        r == spec_max(a as int, b as int),
{
    if a <= b { b } else { a }
}

/// The smaller of two `usize` values.
pub fn min_usize(a: usize, b: usize) -> (r: usize)
    ensures
        r == spec_min(a as int, b as int),
{
    if a <= b { a } else { b }
}

/// The number of cells of a `width` x `height` area; it always fits in a
/// `usize`.
pub fn cell_count(width: u16, height: u16) -> (r: usize)
    ensures
        r == width * height,
{
    assert(width * height <= 0xffff * 0xffff) by (nonlinear_arith)
        requires width <= 0xffff, height <= 0xffff;
    width as usize * height as usize
}

/// Index of the cell `[x, y]` in a flat buffer whose rows of `width` cells
/// are stored one after another.
pub open spec fn spec_offset(x: int, y: int, width: int) -> int {
    y * width + x
}

/// Computes the index of `[x, y]` in a row-major buffer of rows of `width`.
pub fn offset(x: usize, y: usize, width: usize) -> (r: usize)
    requires
        y * width + x <= usize::MAX,
    ensures
        r == spec_offset(x as int, y as int, width as int),
{
    proof {
        vstd::arithmetic::mul::lemma_mul_is_commutative(y as int, width as int);
    }
    y * width + x
}

/// Cells of distinct positions inside a row of `width` never share an index,
/// and every such index is below `width * height`.
pub proof fn lemma_offset_bounds(x: int, y: int, width: int, height: int)
    requires
        0 <= x < width,
        0 <= y < height,
    ensures
        0 <= spec_offset(x, y, width) < width * height,
{
    assert(y * width + x < width * height) by (nonlinear_arith)
        requires 0 <= x < width, 0 <= y < height;
    assert(0 <= y * width) by (nonlinear_arith)
        requires 0 <= y, 0 <= width;
}

/// Two in-row positions with the same offset are the same position.
pub proof fn lemma_offset_injective(x1: int, y1: int, x2: int, y2: int, width: int)
    requires
        0 <= x1 < width,
        0 <= x2 < width,
        0 <= y1,
        0 <= y2,
        spec_offset(x1, y1, width) == spec_offset(x2, y2, width),
    ensures
        x1 == x2,
        y1 == y2,
{
    if y1 < y2 {
        assert(y1 * width + width <= y2 * width) by (nonlinear_arith)
            requires y1 < y2, 0 <= width;
    } else if y2 < y1 {
        assert(y2 * width + width <= y1 * width) by (nonlinear_arith)
            requires y2 < y1, 0 <= width;
    }
}

/// The digit character of `d < 10`.
pub open spec fn digit(d: nat) -> char {
    ('0' as u32 + d) as char
}

/// The decimal representation of `n`, without leading zeros.
pub open spec fn decimal(n: nat) -> Seq<char>
    decreases n,
{
    if n < 10 {
        seq![digit(n)]
    } else {
        decimal(n / 10).push(digit(n % 10))
    }
}

/// Appends the digit `d < 10` to `s`.
fn push_digit(s: &mut String, d: u16)
    requires
        d < 10,
    ensures
        final(s)@ == old(s)@.push(digit(d as nat)),
{
    let digits = "0123456789";
    proof {
        reveal_strlit("0123456789");
    }
    let one = digits.substring_char(d as usize, d as usize + 1);
    proof {
        assert(digits@ == seq!['0', '1', '2', '3', '4', '5', '6', '7', '8', '9']);
        assert(digits@[d as int] == digit(d as nat));
        assert(one@ =~= seq![digit(d as nat)]);
    }
    s.append(one);
}

/// Appends `n` in decimal, without leading zeros, to `s`.
pub fn push_decimal(s: &mut String, n: u16)
    ensures
        final(s)@ == old(s)@ + decimal(n as nat),
    decreases n,
{
    if n >= 10 {
        push_decimal(s, n / 10);
        push_digit(s, n % 10);
        proof {
            assert(decimal(n as nat) == decimal((n / 10) as nat).push(digit((n % 10) as nat)));
        }
    } else {
        push_digit(s, n);
    }
    proof {
        assert(final(s)@ =~= old(s)@ + decimal(n as nat));
    }
}

} // verus!
