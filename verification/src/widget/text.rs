//! Text widgets: single lines, wrapped lines and chains of styled strings.

use vstd::prelude::*;
use vstd::utf8::encode_utf8;
use crate::layout::{Area, Pos, Proportional, Proportions, Range, spec_overlaps, spec_intersection, lemma_intersection_inside};
use crate::render::{Draw, Render, Screen, spec_print, print_target, print_coords_fit};
use crate::style::{AsStyledStr, StyledStr, Style, ascii_prefix};
use crate::util::{min_usize, spec_min};

verus! {

/// The length in bytes of the UTF-8 encoding of `s`, as `str::len` reports
/// it.
pub open spec fn byte_len(s: Seq<char>) -> int {
    encode_utf8(s).len() as usize as int
}

/// A single [`StyledStr`] displayed on one line.
///
/// Does not wrap.
pub struct Line<T: AsStyledStr>(pub T);

impl<T: AsStyledStr, R: Render> Draw<R> for Line<T> {
    open spec fn can_draw(&self, view: Area, area: Area) -> bool {
        &&& area.fits()
        &&& print_target(view, Pos { x: 0, y: 0 }, area) matches Some((x0, y0, avail))
            ==> ascii_prefix(self.0.text_view(), avail)
    }

    open spec fn drawn(&self, before: Screen, after: Screen, area: Area) -> bool {
        after == spec_print(before, Pos { x: 0, y: 0 }, self.0.text_view(), self.0.style_view(), area)
    }

    fn draw(&self, buf: &mut R, area: Area) {
        buf.print(Pos { x: 0, y: 0 }, self.0.as_styled_str(), area);
    }
}

impl<T: AsStyledStr> Proportional for Line<T> {
    open spec fn props(&self) -> Proportions {
        Proportions { height: Range::fixed_spec(1), width: Range::fixed_spec(byte_len(self.0.text_view()) as u16) }
    }

    open spec fn has_props(&self) -> bool {
        true
    }

    fn proportions(&self) -> (r: Proportions) {
        let s = self.0.as_styled_str();
        let n = s.content.len();
        proof {
            assert(n == byte_len(self.0.text_view()));
        }
        let w: u16 = #[verifier::truncate] (n as u16);
        Proportions { height: Range::fixed(1), width: Range::fixed(w) }
    }
}

/// What drawing the links `i..` of a chain does, starting `offset` columns
/// into `area`: each link is printed after the previous ones, until the
/// links run out or reach the right edge of `area`.
pub open spec fn spec_chain<T: AsStyledStr>(s: Screen, links: Seq<T>, area: Area, i: int, offset: int) -> Screen
    decreases links.len() - i,
{
    if i < 0 || i >= links.len() {
        s
    } else {
        let l = links[i];
        let s1 = spec_print(s, Pos { x: offset as u16, y: 0 }, l.text_view(), l.style_view(), area);
        let off = offset + byte_len(l.text_view());
        if off >= area.width { s1 } else { spec_chain(s1, links, area, i + 1, off) }
    }
}

/// Drawing the links `i..` of a chain from `offset` cannot fail.
pub open spec fn chain_ok<T: AsStyledStr>(view: Area, links: Seq<T>, area: Area, i: int, offset: int) -> bool
    decreases links.len() - i,
{
    if i < 0 || i >= links.len() {
        true
    } else {
        let l = links[i];
        let off = offset + byte_len(l.text_view());
        &&& print_coords_fit(view, Pos { x: offset as u16, y: 0 }, area)
        &&& (print_target(view, Pos { x: offset as u16, y: 0 }, area) matches Some((x0, y0, avail))
            ==> ascii_prefix(l.text_view(), avail))
        &&& off <= usize::MAX
        &&& (off >= area.width || chain_ok(view, links, area, i + 1, off))
    }
}

/// The total length in bytes of the first `n` links.
pub open spec fn total_bytes<T: AsStyledStr>(links: Seq<T>, n: int) -> int
    decreases n,
{
    if n <= 0 || n > links.len() {
        0
    } else {
        total_bytes(links, n - 1) + byte_len(links[n - 1].text_view())
    }
}

/// Multiple [`StyledStr`]s chained on one line.
///
/// Does not wrap.
pub struct Chain<'a, T: AsStyledStr>(pub &'a [T]);

impl<'a, T: AsStyledStr, R: Render> Draw<R> for Chain<'a, T> {
    open spec fn can_draw(&self, view: Area, area: Area) -> bool {
        area.fits() && chain_ok(view, self.0@, area, 0, 0)
    }

    open spec fn drawn(&self, before: Screen, after: Screen, area: Area) -> bool {
        after == spec_chain(before, self.0@, area, 0, 0)
    }

    fn draw(&self, buf: &mut R, area: Area) {
        let ghost s0 = buf.screen();
        let ghost links = self.0@;
        let n = self.0.len();
        let mut offset: usize = 0;
        let mut i: usize = 0;
        while i < n
            invariant_except_break
                i <= n,
                offset < area.width || (i == 0 && offset == 0),
                chain_ok(s0.area, links, area, i as int, offset as int),
                spec_chain(s0, links, area, 0, 0) == spec_chain(buf.screen(), links, area, i as int, offset as int),
            invariant
                n == links.len(),
                links == self.0@,
                buf.valid(),
                buf.screen().area == s0.area,
                area.fits(),
            ensures
                spec_chain(s0, links, area, 0, 0) == buf.screen(),
            decreases n - i,
        {
            let link = self.0[i].as_styled_str();
            buf.print(Pos { x: offset as u16, y: 0 }, link, area);
            offset = offset + link.content.len();
            if offset >= area.width as usize {
                break;
            }
            i += 1;
        }
    }
}

impl<'a, T: AsStyledStr> Proportional for Chain<'a, T> {
    open spec fn props(&self) -> Proportions {
        Proportions {
            width: Range::fixed_spec(spec_min(total_bytes(self.0@, self.0@.len() as int), u16::MAX as int) as u16),
            height: Range::fixed_spec(1),
        }
    }

    open spec fn has_props(&self) -> bool {
        forall|k: int| 0 <= k <= self.0@.len() ==> total_bytes(self.0@, k) <= usize::MAX
    }

    fn proportions(&self) -> (r: Proportions) {
        let n = self.0.len();
        let mut len: usize = 0;
        let mut i: usize = 0;
        while i < n
            invariant
                n == self.0@.len(),
                i <= n,
                self.has_props(),
                len == total_bytes(self.0@, i as int),
            decreases n - i,
        {
            let l = self.0[i].as_styled_str().content.len();
            proof {
                assert(total_bytes(self.0@, i + 1) == total_bytes(self.0@, i as int) + byte_len(self.0@[i as int].text_view()));
                assert(total_bytes(self.0@, i + 1) <= usize::MAX);
            }
            len = len + l;
            i += 1;
        }
        let len = min_usize(len, u16::MAX as usize) as u16;
        Proportions { width: Range::fixed(len), height: Range::fixed(1) }
    }
}

/// `a / b` rounded up.
pub open spec fn spec_div_ceil(a: int, b: int) -> int {
    a / b + if a % b == 0 { 0int } else { 1int }
}

/// The text is ASCII.
pub open spec fn is_ascii_text(t: Seq<char>) -> bool {
    ascii_prefix(t, t.len() as int)
}

/// What printing the first `n` rows of wrapped `text` into `area` does: row
/// `y` shows the text from character `y * width` on.
pub open spec fn wrap_rows(s: Screen, text: Seq<char>, style: Style, area: Area, n: int) -> Screen
    decreases n,
{
    if n <= 0 {
        s
    } else {
        spec_print(
            wrap_rows(s, text, style, area, n - 1),
            Pos { x: 0, y: (n - 1) as u16 },
            text.skip((n - 1) * area.width),
            style,
            area,
        )
    }
}

/// What drawing wrapped `text` into `area` does: as many rows as the text
/// needs, at most the height of `area`.
pub open spec fn spec_wrap_line(s: Screen, text: Seq<char>, style: Style, area: Area) -> Screen {
    if area.width == 0 || area.height == 0 {
        s
    } else {
        wrap_rows(s, text, style, area, spec_min(area.height as int, spec_div_ceil(text.len() as int, area.width as int)))
    }
}

/// A row that starts before the end of the text starts inside it.
proof fn lemma_row_start(y: int, len: int, w: int)
    requires
        0 <= y,
        0 <= len,
        0 < w,
        y < spec_div_ceil(len, w),
    ensures
        y * w < len,
{
    assert(len == (len / w) * w + len % w) by (nonlinear_arith)
        requires 0 < w;
    if len % w == 0 {
        assert(y <= len / w - 1);
        assert(y * w <= (len / w - 1) * w) by (nonlinear_arith)
            requires y <= len / w - 1, 0 < w;
        assert((len / w - 1) * w == (len / w) * w - w) by (nonlinear_arith);
    } else {
        assert(y <= len / w);
        assert(y * w <= (len / w) * w) by (nonlinear_arith)
            requires y <= len / w, 0 < w;
        assert(0 <= len % w);
    }
}

/// A wrapping [`StyledStr`].
///
/// Due to wrapping, the proportions do not have a fixed value and are `1..`
/// on both axes.
pub struct WrapLine<T: AsStyledStr>(pub T);

impl<T: AsStyledStr, R: Render> Draw<R> for WrapLine<T> {
    open spec fn can_draw(&self, view: Area, area: Area) -> bool {
        area.fits() && is_ascii_text(self.0.text_view())
    }

    open spec fn drawn(&self, before: Screen, after: Screen, area: Area) -> bool {
        after == spec_wrap_line(before, self.0.text_view(), self.0.style_view(), area)
    }

    fn draw(&self, buf: &mut R, area: Area) {
        if area.is_collapsed() {
            return;
        }
        let ghost s0 = buf.screen();
        let s = self.0.as_styled_str();
        let len = s.content.unicode_len();
        let w = area.width as usize;
        let ceil = if len % w == 0 {
            len / w
        } else {
            proof {
                assert(w >= 2);
                assert(len / w < usize::MAX) by (nonlinear_arith)
                    requires w >= 2, len <= usize::MAX;
            }
            len / w + 1
        };
        let vert_size = min_usize(area.height as usize, ceil);
        proof {
            buf.lemma_origin();
        }
        let mut y: usize = 0;
        while y < vert_size
            invariant
                buf.valid(),
                buf.screen().area == s0.area,
                s0.area.x == 0 && s0.area.y == 0,
                area.fits(),
                w == area.width,
                w > 0,
                len == s.content@.len(),
                s.content@ == self.0.text_view(),
                s.style == self.0.style_view(),
                is_ascii_text(s.content@),
                vert_size == spec_min(area.height as int, spec_div_ceil(len as int, w as int)),
                y <= vert_size,
                buf.screen() == wrap_rows(s0, s.content@, s.style, area, y as int),
            decreases vert_size - y,
        {
            proof {
                lemma_row_start(y as int, len as int, w as int);
            }
            let offset = y * w;
            let slice = s.slice_chars(offset, len);
            proof {
                assert(slice.content@ =~= s.content@.skip(y * w));
                assert(ascii_prefix(slice.content@, slice.content@.len() as int));
            }
            buf.print(Pos { x: 0, y: y as u16 }, slice, area);
            y += 1;
        }
    }
}

impl<T: AsStyledStr> Proportional for WrapLine<T> {
    open spec fn props(&self) -> Proportions {
        Proportions { height: Range::from_spec(1), width: Range::from_spec(1) }
    }

    open spec fn has_props(&self) -> bool {
        true
    }

    fn proportions(&self) -> (r: Proportions) {
        Proportions { height: Range::from(1), width: Range::from(1) }
    }
}

/// What drawing the links of a wrapping chain does from character `k` of
/// link `i`, with the next character going to `[x, y]` of `area`: each
/// link is printed piece by piece, a piece ending at the link's end or at
/// the right edge, after which printing continues on the next row; drawing
/// stops when the links run out or the bottom row is full.
pub open spec fn spec_wrap_chain<T: AsStyledStr>(
    s: Screen,
    links: Seq<T>,
    area: Area,
    i: int,
    k: int,
    x: int,
    y: int,
) -> Screen
    decreases links.len() - i, (if 0 <= i < links.len() { links[i].text_view().len() - k } else { 0 }),
{
    if i < 0 || i >= links.len() {
        s
    } else {
        let text = links[i].text_view();
        if k < 0 || k >= text.len() {
            spec_wrap_chain(s, links, area, i + 1, 0, x, y)
        } else {
            let available = area.width - x;
            let n = spec_min(available, text.len() - k);
            if n <= 0 {
                s
            } else {
                let s1 = spec_print(
                    s,
                    Pos { x: x as u16, y: y as u16 },
                    text.subrange(k, k + n),
                    links[i].style_view(),
                    area,
                );
                if n == available {
                    if y + 1 == area.height {
                        s1
                    } else {
                        spec_wrap_chain(s1, links, area, i, k + n, 0, y + 1)
                    }
                } else {
                    spec_wrap_chain(s1, links, area, i, k + n, x + n, y)
                }
            }
        }
    }
}

/// Multiple [`StyledStr`]s chained and wrapped at the right edge.
///
/// Due to wrapping, the proportions do not have a fixed value and are `1..`
/// on both axes.
pub struct WrapChain<'a, T: AsStyledStr>(pub &'a [T]);

impl<'a, T: AsStyledStr, R: Render> Draw<R> for WrapChain<'a, T> {
    open spec fn can_draw(&self, view: Area, area: Area) -> bool {
        &&& area.fits()
        &&& forall|j: int| 0 <= j < self.0@.len() ==> is_ascii_text(#[trigger] self.0@[j].text_view())
    }

    open spec fn drawn(&self, before: Screen, after: Screen, area: Area) -> bool {
        if area.width == 0 || area.height == 0 {
            after == before
        } else {
            after == spec_wrap_chain(before, self.0@, area, 0, 0, 0, 0)
        }
    }

    fn draw(&self, buf: &mut R, area: Area) {
        if area.is_collapsed() {
            return;
        }
        let ghost s0 = buf.screen();
        let ghost links = self.0@;
        proof {
            buf.lemma_origin();
        }
        let n = self.0.len();
        let mut i: usize = 0;
        let mut k: usize = 0;
        let mut x: u16 = 0;
        let mut y: u16 = 0;
        while i < n
            invariant_except_break
                i <= n,
                x < area.width,
                y < area.height,
                spec_wrap_chain(s0, links, area, 0, 0, 0, 0)
                    == spec_wrap_chain(buf.screen(), links, area, i as int, k as int, x as int, y as int),
                i < n ==> k <= links[i as int].text_view().len(),
            invariant
                n == links.len(),
                links == self.0@,
                buf.valid(),
                buf.screen().area == s0.area,
                s0.area.x == 0 && s0.area.y == 0,
                area.fits(),
                area.width > 0 && area.height > 0,
                forall|j: int| 0 <= j < links.len() ==> is_ascii_text(#[trigger] links[j].text_view()),
            ensures
                spec_wrap_chain(s0, links, area, 0, 0, 0, 0) == buf.screen(),
            decreases n - i, (if i < n { links[i as int].text_view().len() - k } else { 0 }),
        {
            let link = self.0[i].as_styled_str();
            let len = link.content.unicode_len();
            if k >= len {
                i += 1;
                k = 0;
            } else {
                let available = area.width - x;
                let print_len = min_usize(available as usize, len - k);
                let part = link.slice_chars(k, k + print_len);
                proof {
                    assert(is_ascii_text(links[i as int].text_view()));
                    assert(ascii_prefix(part.content@, part.content@.len() as int));
                }
                buf.print(Pos { x, y }, part, area);
                k += print_len;
                if print_len == available as usize {
                    x = 0;
                    y += 1;
                    if y == area.height {
                        break;
                    }
                } else {
                    x += print_len as u16;
                }
            }
        }
    }
}

impl<'a, T: AsStyledStr> Proportional for WrapChain<'a, T> {
    open spec fn props(&self) -> Proportions {
        Proportions { width: Range::from_spec(1), height: Range::from_spec(1) }
    }

    open spec fn has_props(&self) -> bool {
        true
    }

    fn proportions(&self) -> (r: Proportions) {
        Proportions { width: Range::from(1), height: Range::from(1) }
    }
}

} // verus!
