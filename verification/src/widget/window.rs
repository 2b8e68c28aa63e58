//! A window: a body of cells that can be printed to, optionally framed by a
//! border that the content is shifted inside of.

use vstd::prelude::*;
use crate::layout::{Area, Justify};
use crate::style::{AsStyledStr, Style, StyledChar, StyledStr, spec_default_style};
use crate::util::{offset, spec_offset, lemma_offset_bounds, min_usize, spec_min};
use crate::widget::inner::{InnerWidgetBody, nul};

verus! {

/// The characters of a window's border.
#[derive(Debug, Clone, Copy)]
pub struct Theme {
    pub top_bar: StyledChar,
    pub right_bar: StyledChar,
    pub bottom_bar: StyledChar,
    pub left_bar: StyledChar,
    pub topleft_corner: StyledChar,
    pub topright_corner: StyledChar,
    pub bottomright_corner: StyledChar,
    pub bottomleft_corner: StyledChar,
}

/// An empty character with the default style.
pub open spec fn empty_cell() -> StyledChar {
    StyledChar { content: nul(), style: spec_default_style() }
}

/// The theme of a new window: every part empty.
pub open spec fn empty_theme() -> Theme {
    let c = empty_cell();
    Theme {
        top_bar: c,
        right_bar: c,
        bottom_bar: c,
        left_bar: c,
        topleft_corner: c,
        topright_corner: c,
        bottomright_corner: c,
        bottomleft_corner: c,
    }
}

/// The part of the border that drawing it with `t` leaves on the cell
/// `[i, j]` of a `w` x `h` body: the sides are drawn top, bottom, left,
/// right, then the corners, each over the ones before.
pub open spec fn border_char(w: int, h: int, t: Theme, i: int, j: int) -> Option<StyledChar> {
    if w < 1 || h < 1 {
        None
    } else if i == 0 && j == h - 1 {
        Some(t.bottomleft_corner)
    } else if i == w - 1 && j == h - 1 {
        Some(t.bottomright_corner)
    } else if i == w - 1 && j == 0 {
        Some(t.topright_corner)
    } else if i == 0 && j == 0 {
        Some(t.topleft_corner)
    } else if i == w - 1 {
        Some(t.right_bar)
    } else if i == 0 {
        Some(t.left_bar)
    } else if j == h - 1 {
        Some(t.bottom_bar)
    } else if j == 0 {
        Some(t.top_bar)
    } else {
        None
    }
}

/// The cell `[i, j]` of a `w` x `h` body lies where a border is cleared.
pub open spec fn on_border(w: int, h: int, i: int, j: int) -> bool {
    w >= 1 && h >= 1 && (i == 0 || i == w - 1 || j == 0 || j == h - 1)
}

/// `b1` is `b0` with the border drawn by `t`.
pub open spec fn border_drawn(b0: InnerWidgetBody, b1: InnerWidgetBody, t: Theme) -> bool {
    &&& b1.wf()
    &&& b0.same_frame(&b1)
    &&& forall|i: int, j: int| #[trigger] b1.inside(i, j) ==> {
        let bc = border_char(b0.width as int, b0.height as int, t, i, j);
        &&& b1.char_at(i, j) == (if bc is Some { bc.unwrap().content } else { b0.char_at(i, j) })
        &&& b1.style_at(i, j) == (if bc is Some { bc.unwrap().style } else { b0.style_at(i, j) })
    }
}

/// `b1` is `b0` with the border cleared.
pub open spec fn border_cleared(b0: InnerWidgetBody, b1: InnerWidgetBody) -> bool {
    &&& b1.wf()
    &&& b0.same_frame(&b1)
    &&& forall|i: int, j: int| #[trigger] b1.inside(i, j) ==> {
        let hit = on_border(b0.width as int, b0.height as int, i, j);
        &&& b1.char_at(i, j) == (if hit { nul() } else { b0.char_at(i, j) })
        &&& b1.style_at(i, j) == (if hit { spec_default_style() } else { b0.style_at(i, j) })
    }
}

/// The cell that shifting the content one step down and right in place
/// copies to `[i, j]`: cells are copied row by row from the one up-left of
/// them, which has been copied already, so every cell not in the top row or
/// the left column ends up with the cell where the diagonal through it
/// leaves the top row or the left column.
pub open spec fn shifted_in(i: int, j: int) -> (int, int) {
    if i >= 1 && j >= 1 {
        let m = spec_min(i, j);
        (i - m, j - m)
    } else {
        (i, j)
    }
}

/// The cell that shifting the content one step up and left copies to
/// `[i, j]` of a `w` x `h` body.
pub open spec fn shifted_out(w: int, h: int, i: int, j: int) -> (int, int) {
    if i < w - 1 && j < h - 1 { (i + 1, j + 1) } else { (i, j) }
}

/// `b1` is `b0` with every cell replaced by the one `map` names.
pub open spec fn moved(b0: InnerWidgetBody, b1: InnerWidgetBody, map: spec_fn(int, int) -> (int, int)) -> bool {
    &&& b1.wf()
    &&& b0.same_frame(&b1)
    &&& forall|i: int, j: int| #[trigger] b1.inside(i, j) ==> {
        &&& b1.char_at(i, j) == b0.char_at(map(i, j).0, map(i, j).1)
        &&& b1.style_at(i, j) == b0.style_at(map(i, j).0, map(i, j).1)
    }
}

/// `b1` is `b0` after printing `text` at `[x, y]` of the content area of
/// `cw` x `ch` cells, which starts `off` cells in: the text is cut at the
/// content's right edge, and nothing is printed outside the content.
pub open spec fn window_printed(
    b0: InnerWidgetBody,
    b1: InnerWidgetBody,
    off: int,
    cw: int,
    ch: int,
    x: int,
    y: int,
    text: Seq<char>,
    style: Style,
) -> bool {
    &&& b1.wf()
    &&& b0.same_frame(&b1)
    &&& forall|i: int, j: int| #[trigger] b1.inside(i, j) ==> {
        let n = spec_min(text.len() as int, cw - x);
        let hit = x < cw && y < ch && j == y + off && x + off <= i < x + off + n;
        &&& b1.char_at(i, j) == (if hit { text[i - x - off] } else { b0.char_at(i, j) })
        &&& b1.style_at(i, j) == (if hit { style } else { b0.style_at(i, j) })
    }
}

/// `b1` is `b0` after the border was taken off: the border's cells are
/// emptied, then the content is shifted up and left.
pub open spec fn border_removed(b0: InnerWidgetBody, b1: InnerWidgetBody) -> bool {
    &&& b1.wf()
    &&& b0.same_frame(&b1)
    &&& forall|i: int, j: int| #[trigger] b1.inside(i, j) ==> {
        let src = shifted_out(b0.width as int, b0.height as int, i, j);
        let hit = on_border(b0.width as int, b0.height as int, src.0, src.1);
        &&& b1.char_at(i, j) == (if hit { nul() } else { b0.char_at(src.0, src.1) })
        &&& b1.style_at(i, j) == (if hit { spec_default_style() } else { b0.style_at(src.0, src.1) })
    }
}

/// `b1` is `b0` after a border was put on with `t`: the content is shifted
/// down and right, then the border is drawn.
pub open spec fn border_added(b0: InnerWidgetBody, b1: InnerWidgetBody, t: Theme) -> bool {
    &&& b1.wf()
    &&& b0.same_frame(&b1)
    &&& forall|i: int, j: int| #[trigger] b1.inside(i, j) ==> {
        let bc = border_char(b0.width as int, b0.height as int, t, i, j);
        let src = shifted_in(i, j);
        &&& b1.char_at(i, j) == (if bc is Some { bc.unwrap().content } else { b0.char_at(src.0, src.1) })
        &&& b1.style_at(i, j) == (if bc is Some { bc.unwrap().style } else { b0.style_at(src.0, src.1) })
    }
}

/// Terminal-like window.
pub struct Window {
    inner: InnerWidgetBody,
    has_border: bool,
    theme: Theme,
}

impl Window {
    /// The window's cells.
    pub closed spec fn body(&self) -> InnerWidgetBody {
        self.inner
    }

    /// The window has a border.
    pub closed spec fn bordered(&self) -> bool {
        self.has_border
    }

    /// The border's characters.
    pub closed spec fn theme_of(&self) -> Theme {
        self.theme
    }

    /// How far the content starts in from the body's edges.
    pub open spec fn off(&self) -> int {
        if self.bordered() { 1 } else { 0 }
    }

    /// The width of the content.
    pub open spec fn cw(&self) -> int {
        self.body().width - 2 * self.off()
    }

    /// The height of the content.
    pub open spec fn ch(&self) -> int {
        self.body().height - 2 * self.off()
    }

    /// The body is consistent and a border has room.
    pub open spec fn wf(&self) -> bool {
        &&& self.body().wf()
        &&& self.bordered() ==> self.body().width >= 2 && self.body().height >= 2
    }

    /// The content area's position is representable.
    pub open spec fn fits(&self) -> bool {
        self.bordered() ==> self.body().start_x < u16::MAX && self.body().start_y < u16::MAX
    }

    /// Creates a window covering `area`, without a border, every cell
    /// empty.
    pub fn new(area: Area) -> (r: Self)
        requires
            area.width * area.height <= u16::MAX,
        ensures
            r.wf(),
            !r.bordered(),
            r.theme_of() == empty_theme(),
            r.body().start_x == area.x && r.body().start_y == area.y,
            r.body().width == area.width && r.body().height == area.height,
            forall|k: int| 0 <= k < r.body().buffer@.len() ==> #[trigger] r.body().buffer@[k] == nul(),
            forall|k: int| 0 <= k < r.body().style_buffer@.len() ==> #[trigger] r.body().style_buffer@[k]
                == spec_default_style(),
    {
        let c = StyledChar { content: '\0', style: Style::default() };
        Window {
            inner: InnerWidgetBody::new(area),
            has_border: false,
            theme: Theme {
                top_bar: c,
                right_bar: c,
                bottom_bar: c,
                left_bar: c,
                topleft_corner: c,
                topright_corner: c,
                bottomright_corner: c,
                bottomleft_corner: c,
            },
        }
    }

    /// The window's cells.
    pub fn inner(&self) -> (r: &InnerWidgetBody)
        ensures
            *r == self.body(),
    {
        &self.inner
    }

    /// The area of the content: the whole window, or the part inside the
    /// border.
    pub fn content_area(&self) -> (r: Area)
        requires
            self.wf(),
            self.fits(),
        ensures
            r.x == self.body().start_x + self.off(),
            r.y == self.body().start_y + self.off(),
            r.width == self.cw(),
            r.height == self.ch(),
    {
        let area = Area { x: self.inner.start_x, y: self.inner.start_y, width: self.inner.width, height: self.inner.height };
        if self.has_border {
            area.inset(1)
        } else {
            area
        }
    }

    /// The width and height of the content.
    fn content_dims(&self) -> (r: (u16, u16))
        requires
            self.wf(),
        ensures
            r.0 == self.cw(),
            r.1 == self.ch(),
    {
        if self.has_border {
            (self.inner.width - 2, self.inner.height - 2)
        } else {
            (self.inner.width, self.inner.height)
        }
    }

    /// Puts `c` at `[x, y]` of the content, when it lies in the content.
    pub fn putc(&mut self, x: u16, y: u16, c: StyledChar)
        requires
            old(self).wf(),
        ensures
            final(self).wf(),
            final(self).bordered() == old(self).bordered(),
            final(self).theme_of() == old(self).theme_of(),
            old(self).body().same_frame(&final(self).body()),
            forall|i: int, j: int| #[trigger] final(self).body().inside(i, j) ==> {
                let hit = x < old(self).cw() && y < old(self).ch() && i == x + old(self).off() && j == y + old(self).off();
                &&& final(self).body().char_at(i, j) == (if hit { c.content } else { old(self).body().char_at(i, j) })
                &&& final(self).body().style_at(i, j) == (if hit { c.style } else { old(self).body().style_at(i, j) })
            },
    {
        let (cw, ch) = self.content_dims();
        if x >= cw || y >= ch {
            return;
        }
        let (x, y) = if self.has_border { (x + 1, y + 1) } else { (x, y) };
        self.inner.putc(x, y, c);
    }

    /// Prints `line` at `[x, y]` of the content, cut at the content's right
    /// edge.
    pub fn print<S: AsStyledStr>(&mut self, x: u16, y: u16, line: S)
        requires
            old(self).wf(),
        ensures
            final(self).wf(),
            final(self).bordered() == old(self).bordered(),
            final(self).theme_of() == old(self).theme_of(),
            window_printed(
                old(self).body(),
                final(self).body(),
                old(self).off(),
                old(self).cw(),
                old(self).ch(),
                x as int,
                y as int,
                line.text_view(),
                line.style_view(),
            ),
    {
        let (cw, ch) = self.content_dims();
        if x >= cw || y >= ch {
            proof {
                assert(window_printed(old(self).body(), self.body(), old(self).off(), old(self).cw(), old(self).ch(),
                    x as int, y as int, line.text_view(), line.style_view()));
            }
            return;
        }
        let line = line.as_styled_str();
        let count = line.content.unicode_len();
        let print_len = min_usize(count, (cw - x) as usize);
        let (x, y) = if self.has_border { (x + 1, y + 1) } else { (x, y) };
        let part = StyledStr { content: line.content.substring_char(0, print_len), style: line.style };
        self.inner.print(x, y, part);
    }

    /// Prints `line` justified by `j` in the content.
    pub fn printj<S: AsStyledStr>(&mut self, line: S, j: Justify)
        requires
            old(self).wf(),
        ensures
            final(self).wf(),
            final(self).bordered() == old(self).bordered(),
            final(self).theme_of() == old(self).theme_of(),
            window_printed(
                old(self).body(),
                final(self).body(),
                old(self).off(),
                old(self).cw(),
                old(self).ch(),
                printj_at(j, line.text_view().len() as int, old(self).cw(), old(self).ch()).0,
                printj_at(j, line.text_view().len() as int, old(self).cw(), old(self).ch()).1,
                line.text_view(),
                line.style_view(),
            ),
    {
        let line = line.as_styled_str();
        let count = line.content.unicode_len();
        let (cw, ch) = self.content_dims();
        let hc: u16 = if count >= cw as usize { 0 } else { (cw as usize - count) as u16 / 2 };
        let r: u16 = if count >= cw as usize { 0 } else { (cw as usize - count) as u16 };
        let vc = ch.saturating_sub(1) / 2;
        let b = ch.saturating_sub(1);
        let (x, y) = match j {
            Justify::Left(row) => (0, row),
            Justify::HCenter(row) => (hc, row),
            Justify::Right(row) => (r, row),
            Justify::Top(col) => (col, 0),
            Justify::VCenter(col) => (col, vc),
            Justify::Bottom(col) => (col, b),
            Justify::TopLeft => (0, 0),
            Justify::TopCenter => (hc, 0),
            Justify::TopRight => (r, 0),
            Justify::CenterLeft => (0, vc),
            Justify::Center => (hc, vc),
            Justify::CenterRight => (r, vc),
            Justify::BottomLeft => (0, b),
            Justify::BottomCenter => (hc, b),
            Justify::BottomRight => (r, b),
        };
        self.print(x, y, line);
    }

    /// Empties row `y` of the content. Nothing happens when `y` is not a
    /// row of the content.
    pub fn clearln(&mut self, y: u16)
        requires
            old(self).wf(),
        ensures
            final(self).wf(),
            final(self).bordered() == old(self).bordered(),
            final(self).theme_of() == old(self).theme_of(),
            old(self).body().same_frame(&final(self).body()),
            forall|i: int, j: int| #[trigger] final(self).body().inside(i, j) ==> {
                let o = old(self).off();
                let hit = y < old(self).ch() && j == y + o && o <= i < o + old(self).cw();
                &&& final(self).body().char_at(i, j) == (if hit { nul() } else { old(self).body().char_at(i, j) })
                &&& final(self).body().style_at(i, j) == (if hit { spec_default_style() } else { old(self).body().style_at(i, j) })
            },
    {
        let (cw, ch) = self.content_dims();
        if y >= ch {
            return;
        }
        let ghost b0 = self.body();
        let c = StyledChar { content: '\0', style: Style::default() };
        let mut x: u16 = 0;
        while x < cw
            invariant
                self.wf(),
                self.bordered() == old(self).bordered(),
                self.theme_of() == old(self).theme_of(),
                b0 == old(self).body(),
                b0.same_frame(&self.body()),
                cw == old(self).cw(),
                ch == old(self).ch(),
                y < ch,
                x <= cw,
                c == empty_cell(),
                forall|i: int, j: int| #[trigger] self.body().inside(i, j) ==> {
                    let o = old(self).off();
                    let hit = y < ch && j == y + o && o <= i < o + x;
                    &&& self.body().char_at(i, j) == (if hit { nul() } else { b0.char_at(i, j) })
                    &&& self.body().style_at(i, j) == (if hit { spec_default_style() } else { b0.style_at(i, j) })
                },
            decreases cw - x,
        {
            let ghost prev = self.body();
            self.putc(x, y, c);
            proof {
                assert forall|i: int, j: int| #[trigger] self.body().inside(i, j) implies {
                    let o = old(self).off();
                    let hit = y < ch && j == y + o && o <= i < o + x + 1;
                    &&& self.body().char_at(i, j) == (if hit { nul() } else { b0.char_at(i, j) })
                    &&& self.body().style_at(i, j) == (if hit { spec_default_style() } else { b0.style_at(i, j) })
                } by {
                    assert(prev.inside(i, j));
                }
            }
            x += 1;
        }
    }
}

impl Window {
    /// Draws the border with the theme.
    fn draw_border(&mut self)
        requires
            old(self).wf(),
        ensures
            final(self).wf(),
            final(self).bordered() == old(self).bordered(),
            final(self).theme_of() == old(self).theme_of(),
            border_drawn(old(self).body(), final(self).body(), old(self).theme_of()),
    {
        let height = self.inner.height;
        let width = self.inner.width;
        let ghost b0 = self.body();
        let ghost t = self.theme;
        if height < 1 || width < 1 {
            return;
        }
        self.inner.hfill(0, 0, self.theme.top_bar, width as usize);
        let ghost b1 = self.body();
        self.inner.hfill(0, height - 1, self.theme.bottom_bar, width as usize);
        let ghost b2 = self.body();
        self.inner.vfill(0, 0, self.theme.left_bar, height as usize);
        let ghost b3 = self.body();
        self.inner.vfill(width - 1, 0, self.theme.right_bar, height as usize);
        let ghost b4 = self.body();
        self.inner.putc(0, 0, self.theme.topleft_corner);
        let ghost b5 = self.body();
        self.inner.putc(width - 1, 0, self.theme.topright_corner);
        let ghost b6 = self.body();
        self.inner.putc(width - 1, height - 1, self.theme.bottomright_corner);
        let ghost b7 = self.body();
        self.inner.putc(0, height - 1, self.theme.bottomleft_corner);
        proof {
            assert forall|i: int, j: int| #[trigger] self.body().inside(i, j) implies {
                let bc = border_char(b0.width as int, b0.height as int, t, i, j);
                &&& self.body().char_at(i, j) == (if bc is Some { bc.unwrap().content } else { b0.char_at(i, j) })
                &&& self.body().style_at(i, j) == (if bc is Some { bc.unwrap().style } else { b0.style_at(i, j) })
            } by {
                assert(b1.inside(i, j));
                assert(b2.inside(i, j));
                assert(b3.inside(i, j));
                assert(b4.inside(i, j));
                assert(b5.inside(i, j));
                assert(b6.inside(i, j));
                assert(b7.inside(i, j));
            }
        }
    }

    /// Clears the border's cells.
    fn clear_border(&mut self)
        requires
            old(self).wf(),
        ensures
            final(self).wf(),
            final(self).bordered() == old(self).bordered(),
            final(self).theme_of() == old(self).theme_of(),
            border_cleared(old(self).body(), final(self).body()),
    {
        let height = self.inner.height;
        let width = self.inner.width;
        let ghost b0 = self.body();
        if height < 1 || width < 1 {
            return;
        }
        let c = StyledChar { content: '\0', style: Style::default() };
        self.inner.hfill(0, 0, c, width as usize);
        let ghost b1 = self.body();
        self.inner.hfill(0, height - 1, c, width as usize);
        let ghost b2 = self.body();
        self.inner.vfill(0, 0, c, height as usize);
        let ghost b3 = self.body();
        self.inner.vfill(width - 1, 0, c, height as usize);
        proof {
            assert forall|i: int, j: int| #[trigger] self.body().inside(i, j) implies {
                let hit = on_border(b0.width as int, b0.height as int, i, j);
                &&& self.body().char_at(i, j) == (if hit { nul() } else { b0.char_at(i, j) })
                &&& self.body().style_at(i, j) == (if hit { spec_default_style() } else { b0.style_at(i, j) })
            } by {
                assert(b1.inside(i, j));
                assert(b2.inside(i, j));
                assert(b3.inside(i, j));
            }
        }
    }

    /// Empties every cell, then draws the border when there is one.
    pub fn clear(&mut self)
        requires
            old(self).wf(),
        ensures
            final(self).wf(),
            final(self).bordered() == old(self).bordered(),
            final(self).theme_of() == old(self).theme_of(),
            old(self).body().same_frame(&final(self).body()),
            forall|i: int, j: int| #[trigger] final(self).body().inside(i, j) ==> {
                let bc = border_char(old(self).body().width as int, old(self).body().height as int, old(self).theme_of(), i, j);
                let c = if old(self).bordered() && bc is Some { bc.unwrap() } else { empty_cell() };
                &&& final(self).body().char_at(i, j) == c.content
                &&& final(self).body().style_at(i, j) == c.style
            },
    {
        self.inner.clear();
        let ghost b1 = self.body();
        proof {
            assert forall|i: int, j: int| #[trigger] b1.inside(i, j) implies
                b1.char_at(i, j) == nul() && b1.style_at(i, j) == spec_default_style() by {
                lemma_offset_bounds(i, j, b1.width as int, b1.height as int);
            }
        }
        if self.has_border {
            self.draw_border();
            proof {
                assert forall|i: int, j: int| #[trigger] self.body().inside(i, j) implies b1.inside(i, j) by {}
            }
        }
    }

    /// Sets the characters of the border and redraws it when there is one.
    pub fn set_theme(
        &mut self,
        top_bar: StyledChar,
        right_bar: StyledChar,
        bottom_bar: StyledChar,
        left_bar: StyledChar,
        topleft_corner: StyledChar,
        topright_corner: StyledChar,
        bottomright_corner: StyledChar,
        bottomleft_corner: StyledChar,
    )
        requires
            old(self).wf(),
        ensures
            final(self).wf(),
            final(self).bordered() == old(self).bordered(),
            final(self).theme_of() == (Theme {
                top_bar,
                right_bar,
                bottom_bar,
                left_bar,
                topleft_corner,
                topright_corner,
                bottomright_corner,
                bottomleft_corner,
            }),
            old(self).bordered() ==> border_drawn(old(self).body(), final(self).body(), final(self).theme_of()),
            !old(self).bordered() ==> final(self).body() == old(self).body(),
    {
        self.theme = Theme {
            top_bar,
            right_bar,
            bottom_bar,
            left_bar,
            topleft_corner,
            topright_corner,
            bottomright_corner,
            bottomleft_corner,
        };
        if self.has_border {
            self.draw_border();
        }
    }

    /// Shifts the content one cell down and right, in place.
    fn shift_content_in(&mut self)
        requires
            old(self).wf(),
        ensures
            final(self).wf(),
            final(self).bordered() == old(self).bordered(),
            final(self).theme_of() == old(self).theme_of(),
            moved(old(self).body(), final(self).body(), |i: int, j: int| shifted_in(i, j)),
    {
        let ghost b0 = self.body();
        let w = self.inner.width;
        let h = self.inner.height;
        let mut y: u16 = 1;
        while y < h
            invariant
                self.wf(),
                self.bordered() == old(self).bordered(),
                self.theme_of() == old(self).theme_of(),
                b0 == old(self).body(),
                b0.same_frame(&self.body()),
                w == b0.width,
                h == b0.height,
                1 <= y,
                y <= h || h == 0,
                forall|i: int, j: int| #[trigger] self.body().inside(i, j) ==> {
                    let src = if j < y { shifted_in(i, j) } else { (i, j) };
                    &&& self.body().char_at(i, j) == b0.char_at(src.0, src.1)
                    &&& self.body().style_at(i, j) == b0.style_at(src.0, src.1)
                },
            decreases h - y,
        {
            let mut x: u16 = 1;
            while x < w
                invariant
                    self.wf(),
                    self.bordered() == old(self).bordered(),
                    self.theme_of() == old(self).theme_of(),
                    b0.same_frame(&self.body()),
                    w == b0.width,
                    h == b0.height,
                    1 <= y < h,
                    1 <= x,
                    x <= w || w == 0,
                    forall|i: int, j: int| #[trigger] self.body().inside(i, j) ==> {
                        let src = if j < y || (j == y && i < x) { shifted_in(i, j) } else { (i, j) };
                        &&& self.body().char_at(i, j) == b0.char_at(src.0, src.1)
                        &&& self.body().style_at(i, j) == b0.style_at(src.0, src.1)
                    },
                decreases w - x,
            {
                let ghost prev = self.body();
                proof {
                    lemma_offset_bounds(x as int, y as int, w as int, h as int);
                    lemma_offset_bounds(x - 1, y - 1, w as int, h as int);
                    assert(w * h <= 0xffff * 0xffff) by (nonlinear_arith)
                        requires 0 <= w <= 0xffff, 0 <= h <= 0xffff;
                    assert(prev.inside(x - 1, y - 1));
                }
                let from = offset(x as usize - 1, y as usize - 1, w as usize);
                let to = offset(x as usize, y as usize, w as usize);
                let c = self.inner.buffer[from];
                let st = self.inner.style_buffer[from];
                self.inner.buffer.set(to, c);
                self.inner.style_buffer.set(to, st);
                proof {
                    assert forall|i: int, j: int| #[trigger] self.body().inside(i, j) implies {
                        let src = if j < y || (j == y && i < x + 1) { shifted_in(i, j) } else { (i, j) };
                        &&& self.body().char_at(i, j) == b0.char_at(src.0, src.1)
                        &&& self.body().style_at(i, j) == b0.style_at(src.0, src.1)
                    } by {
                        assert(prev.inside(i, j));
                        lemma_offset_bounds(i, j, w as int, h as int);
                        if spec_offset(i, j, w as int) == spec_offset(x as int, y as int, w as int) {
                            crate::util::lemma_offset_injective(i, j, x as int, y as int, w as int);
                        }
                    }
                }
                x += 1;
            }
            y += 1;
        }
    }

    /// Shifts the content one cell up and left, in place.
    fn shift_content_out(&mut self)
        requires
            old(self).wf(),
        ensures
            final(self).wf(),
            final(self).bordered() == old(self).bordered(),
            final(self).theme_of() == old(self).theme_of(),
            moved(old(self).body(), final(self).body(), |i: int, j: int| shifted_out(old(self).body().width as int, old(self).body().height as int, i, j)),
    {
        let ghost b0 = self.body();
        let w = self.inner.width;
        let h = self.inner.height;
        let mut y: u16 = 1;
        while y < h
            invariant
                self.wf(),
                self.bordered() == old(self).bordered(),
                self.theme_of() == old(self).theme_of(),
                b0 == old(self).body(),
                b0.same_frame(&self.body()),
                w == b0.width,
                h == b0.height,
                1 <= y,
                y <= h || h == 0,
                forall|i: int, j: int| #[trigger] self.body().inside(i, j) ==> {
                    let src = if j < y - 1 { shifted_out(w as int, h as int, i, j) } else { (i, j) };
                    &&& self.body().char_at(i, j) == b0.char_at(src.0, src.1)
                    &&& self.body().style_at(i, j) == b0.style_at(src.0, src.1)
                },
            decreases h - y,
        {
            let mut x: u16 = 1;
            while x < w
                invariant
                    self.wf(),
                    self.bordered() == old(self).bordered(),
                    self.theme_of() == old(self).theme_of(),
                    b0.same_frame(&self.body()),
                    w == b0.width,
                    h == b0.height,
                    1 <= y < h,
                    1 <= x,
                    x <= w || w == 0,
                    forall|i: int, j: int| #[trigger] self.body().inside(i, j) ==> {
                        let src = if j < y - 1 || (j == y - 1 && i < x - 1) { shifted_out(w as int, h as int, i, j) } else { (i, j) };
                        &&& self.body().char_at(i, j) == b0.char_at(src.0, src.1)
                        &&& self.body().style_at(i, j) == b0.style_at(src.0, src.1)
                    },
                decreases w - x,
            {
                let ghost prev = self.body();
                proof {
                    lemma_offset_bounds(x as int, y as int, w as int, h as int);
                    lemma_offset_bounds(x - 1, y - 1, w as int, h as int);
                    assert(w * h <= 0xffff * 0xffff) by (nonlinear_arith)
                        requires 0 <= w <= 0xffff, 0 <= h <= 0xffff;
                    assert(prev.inside(x as int, y as int));
                }
                let from = offset(x as usize, y as usize, w as usize);
                let to = offset(x as usize - 1, y as usize - 1, w as usize);
                let c = self.inner.buffer[from];
                let st = self.inner.style_buffer[from];
                self.inner.buffer.set(to, c);
                self.inner.style_buffer.set(to, st);
                proof {
                    assert forall|i: int, j: int| #[trigger] self.body().inside(i, j) implies {
                        let src = if j < y - 1 || (j == y - 1 && i < x) { shifted_out(w as int, h as int, i, j) } else { (i, j) };
                        &&& self.body().char_at(i, j) == b0.char_at(src.0, src.1)
                        &&& self.body().style_at(i, j) == b0.style_at(src.0, src.1)
                    } by {
                        assert(prev.inside(i, j));
                        lemma_offset_bounds(i, j, w as int, h as int);
                        if spec_offset(i, j, w as int) == spec_offset(x - 1, y - 1, w as int) {
                            crate::util::lemma_offset_injective(i, j, x - 1, y - 1, w as int);
                        }
                    }
                }
                x += 1;
            }
            proof {
                assert forall|i: int, j: int| #[trigger] self.body().inside(i, j) implies {
                    let src = if j < y { shifted_out(w as int, h as int, i, j) } else { (i, j) };
                    &&& self.body().char_at(i, j) == b0.char_at(src.0, src.1)
                    &&& self.body().style_at(i, j) == b0.style_at(src.0, src.1)
                } by {}
            }
            y += 1;
        }
    }
}

impl Window {
    /// Puts a border on, shifting the content inside it, or takes it off,
    /// shifting the content back. A border cannot be put on a window
    /// narrower or lower than two cells.
    pub fn toggle_border(&mut self) -> (r: Result<(), ()>)
        requires
            old(self).wf(),
        ensures
            final(self).wf(),
            final(self).theme_of() == old(self).theme_of(),
            r is Err <==> !old(self).bordered() && (old(self).body().width < 2 || old(self).body().height < 2),
            r is Err ==> final(self).body() == old(self).body() && final(self).bordered() == old(self).bordered(),
            r is Ok ==> final(self).bordered() == !old(self).bordered(),
            r is Ok && old(self).bordered() ==> border_removed(old(self).body(), final(self).body()),
            r is Ok && !old(self).bordered() ==> border_added(old(self).body(), final(self).body(), old(self).theme_of()),
    {
        if !self.has_border && (self.inner.width < 2 || self.inner.height < 2) {
            return Err(());
        }
        let ghost b0 = self.body();
        if self.has_border {
            self.has_border = false;
            self.clear_border();
            let ghost b1 = self.body();
            self.shift_content_out();
            proof {
                assert forall|i: int, j: int| #[trigger] self.body().inside(i, j) implies {
                    let src = shifted_out(b0.width as int, b0.height as int, i, j);
                    let hit = on_border(b0.width as int, b0.height as int, src.0, src.1);
                    &&& self.body().char_at(i, j) == (if hit { nul() } else { b0.char_at(src.0, src.1) })
                    &&& self.body().style_at(i, j) == (if hit { spec_default_style() } else { b0.style_at(src.0, src.1) })
                } by {
                    let src = shifted_out(b0.width as int, b0.height as int, i, j);
                    assert(b1.inside(src.0, src.1));
                }
            }
        } else {
            self.has_border = true;
            self.shift_content_in();
            let ghost b1 = self.body();
            self.draw_border();
            proof {
                assert forall|i: int, j: int| #[trigger] self.body().inside(i, j) implies {
                    let bc = border_char(b0.width as int, b0.height as int, self.theme_of(), i, j);
                    let src = shifted_in(i, j);
                    &&& self.body().char_at(i, j) == (if bc is Some { bc.unwrap().content } else { b0.char_at(src.0, src.1) })
                    &&& self.body().style_at(i, j) == (if bc is Some { bc.unwrap().style } else { b0.style_at(src.0, src.1) })
                } by {
                    assert(b1.inside(i, j));
                }
            }
        }
        Ok(())
    }
}

/// Where [`Window::printj`] prints `text_len` characters in a content of
/// `cw` x `ch` cells.
pub open spec fn printj_at(j: Justify, text_len: int, cw: int, ch: int) -> (int, int) {
    let hc = if text_len >= cw { 0 } else { (cw - text_len) / 2 };
    let r = if text_len >= cw { 0 } else { cw - text_len };
    let vc = (if ch >= 1 { ch - 1 } else { 0 }) / 2;
    let b = if ch >= 1 { ch - 1 } else { 0 };
    match j {
        Justify::Left(row) => (0, row as int),
        Justify::HCenter(row) => (hc, row as int),
        Justify::Right(row) => (r, row as int),
        Justify::Top(col) => (col as int, 0),
        Justify::VCenter(col) => (col as int, vc),
        Justify::Bottom(col) => (col as int, b),
        Justify::TopLeft => (0, 0),
        Justify::TopCenter => (hc, 0),
        Justify::TopRight => (r, 0),
        Justify::CenterLeft => (0, vc),
        Justify::Center => (hc, vc),
        Justify::CenterRight => (r, vc),
        Justify::BottomLeft => (0, b),
        Justify::BottomCenter => (hc, b),
        Justify::BottomRight => (r, b),
    }
}


/// Where [`Window::printj`] puts a text of `text_len` characters in a
/// content of `cw` x `ch` cells: left-justified text starts at column 0,
/// right-justified text ends at the content's right edge, horizontally
/// centred text leaves a left margin that is the right margin or one less
/// (text as wide as the content or wider starts at column 0); top-justified
/// text is on row 0, bottom-justified text on the last row, vertically
/// centred text leaves as many rows above it as below, or one fewer; an
/// explicit row or column is kept.
pub proof fn law_printj_at_geometry(j: Justify, text_len: int, cw: int, ch: int)
    requires
        0 <= text_len,
        0 <= cw,
        1 <= ch,
    ensures
        (j is Left || j is TopLeft || j is CenterLeft || j is BottomLeft) ==> printj_at(j, text_len, cw, ch).0 == 0,
        (j is Right || j is TopRight || j is CenterRight || j is BottomRight) ==> {
            &&& text_len < cw ==> printj_at(j, text_len, cw, ch).0 + text_len == cw
            &&& text_len >= cw ==> printj_at(j, text_len, cw, ch).0 == 0
        },
        (j is HCenter || j is TopCenter || j is Center || j is BottomCenter) ==> {
            let left = printj_at(j, text_len, cw, ch).0;
            let right = cw - text_len - left;
            &&& text_len < cw ==> 0 <= left <= right <= left + 1
            &&& text_len >= cw ==> left == 0
        },
        (j is Top || j is TopLeft || j is TopCenter || j is TopRight) ==> printj_at(j, text_len, cw, ch).1 == 0,
        (j is Bottom || j is BottomLeft || j is BottomCenter || j is BottomRight)
            ==> printj_at(j, text_len, cw, ch).1 == ch - 1,
        (j is VCenter || j is CenterLeft || j is Center || j is CenterRight) ==> {
            let above = printj_at(j, text_len, cw, ch).1;
            let below = ch - 1 - above;
            0 <= above <= below <= above + 1
        },
        j matches Justify::Left(y) ==> printj_at(j, text_len, cw, ch).1 == y,
        j matches Justify::HCenter(y) ==> printj_at(j, text_len, cw, ch).1 == y,
        j matches Justify::Right(y) ==> printj_at(j, text_len, cw, ch).1 == y,
        j matches Justify::Top(x) ==> printj_at(j, text_len, cw, ch).0 == x,
        j matches Justify::VCenter(x) ==> printj_at(j, text_len, cw, ch).0 == x,
        j matches Justify::Bottom(x) ==> printj_at(j, text_len, cw, ch).0 == x,
{
}

/// Printing into a window's content puts the `k`-th character of the text
/// on the body cell `k` columns right of `[x, y]` shifted in by the border,
/// with the text's style, and leaves every other row of the body alone.
pub proof fn law_window_print_reads_back(
    b0: InnerWidgetBody,
    b1: InnerWidgetBody,
    off: int,
    cw: int,
    ch: int,
    x: int,
    y: int,
    text: Seq<char>,
    style: Style,
    k: int,
    i: int,
    j: int,
)
    requires
        window_printed(b0, b1, off, cw, ch, x, y, text, style),
    ensures
        0 <= x && 0 <= y < ch && 0 <= k < text.len() && x + k < cw && b1.inside(x + off + k, y + off) ==> {
            &&& b1.char_at(x + off + k, y + off) == text[k]
            &&& b1.style_at(x + off + k, y + off) == style
        },
        b1.inside(i, j) && j != y + off ==> b1.char_at(i, j) == b0.char_at(i, j) && b1.style_at(i, j) == b0.style_at(i, j),
{
    if 0 <= x && 0 <= y < ch && 0 <= k < text.len() && x + k < cw && b1.inside(x + off + k, y + off) {
        assert(b1.inside(x + off + k, y + off));
    }
    if b1.inside(i, j) {
        assert(b1.inside(i, j));
    }
}

} // verus!
