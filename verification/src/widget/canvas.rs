//! A buffered canvas that widgets can draw onto and that can itself be
//! drawn.

use vstd::prelude::*;
use crate::buffer::Buffer;
use crate::layout::{Area, Dim, Pos, Proportional, Proportions, Range};
use crate::render::{Cursor, Draw, Render, Screen, cell, overwrite, spec_set_char};
use crate::style::{Style, StyledChar, TextStyle, clean_blank};
use crate::util::min;

verus! {

/// A buffered canvas that allows widgets to draw onto it.
pub struct Canvas {
    buffer: Buffer,
}

/// `src` copied onto the `width` x `height` rectangle at the top-left
/// corner of `area`: each cell takes the source character and merges the
/// source style onto its own.
pub open spec fn spec_blit(s: Screen, src: Screen, area: Area, width: int, height: int) -> Screen {
    blit_rect(s, src, area.x as int, area.y as int, 0, 0, width, height)
}

/// The source cells `[x0, x0 + width) x [y0, y0 + height)` of `src` copied
/// onto `s` shifted by `[ox, oy]`.
pub open spec fn blit_rect(s: Screen, src: Screen, ox: int, oy: int, x0: int, y0: int, width: int, height: int) -> Screen {
    Screen {
        cells: |i: int, j: int|
            if ox + x0 <= i < ox + x0 + width && oy + y0 <= j < oy + y0 + height {
                let c = cell(src, i - ox, j - oy);
                overwrite(cell(s, i, j), c.content, c.style)
            } else {
                cell(s, i, j)
            },
        ..s
    }
}

impl Canvas {
    /// The canvas's buffer.
    pub closed spec fn buffer_of(&self) -> Buffer {
        self.buffer
    }

    /// Allocates a new `Canvas` with the size of `dimensions`: every cell a
    /// space with normal text and colors, the cursor hidden at `[0, 0]`.
    pub fn new(dimensions: Dim) -> (r: Self)
        ensures
            r.buffer_of().valid(),
            r.buffer_of().screen().area == (Area { x: 0, y: 0, width: dimensions.width, height: dimensions.height }),
            r.buffer_of().screen().cursor == (Cursor { x: 0, y: 0, hidden: true }),
            forall|i: int, j: int|
                0 <= i < dimensions.width && 0 <= j < dimensions.height
                    ==> cell(#[trigger] r.buffer_of().screen(), i, j) == clean_blank(),
    {
        let size = crate::util::cell_count(dimensions.width, dimensions.height);
        let blank_style = Style::default().clean();
        let mut chars: Vec<char> = Vec::new();
        let mut styles: Vec<Style> = Vec::new();
        let mut k: usize = 0;
        while k < size
            invariant
                k <= size,
                chars@.len() == k,
                styles@.len() == k,
                forall|m: int| 0 <= m < k ==> chars@[m] == ' ',
                forall|m: int| 0 <= m < k ==> styles@[m] == blank_style,
            decreases size - k,
        {
            chars.push(' ');
            styles.push(blank_style);
            k += 1;
        }
        let buffer = Buffer::new(dimensions.width, dimensions.height, chars, styles, Cursor { x: 0, y: 0, hidden: true });
        proof {
            assert forall|i: int, j: int|
                0 <= i < dimensions.width && 0 <= j < dimensions.height implies
                cell(#[trigger] buffer.screen(), i, j) == clean_blank() by {
                crate::util::lemma_offset_bounds(i, j, dimensions.width as int, dimensions.height as int);
                buffer.lemma_stored(i, j);
            }
        }
        Canvas { buffer }
    }

    /// Exposes the `Render` interface.
    pub fn renderer(&mut self) -> (r: &mut Buffer)
        ensures
            *r == old(self).buffer_of(),
            final(self).buffer_of() == *final(r),
    {
        &mut self.buffer
    }

    /// Exposes the painting interface; the same as [`Canvas::renderer`].
    pub fn painter(&mut self) -> (r: &mut Buffer)
        ensures
            *r == old(self).buffer_of(),
            final(self).buffer_of() == *final(r),
    {
        self.renderer()
    }
}

impl<R: Render> Draw<R> for Canvas {
    open spec fn can_draw(&self, view: Area, area: Area) -> bool {
        let w = if area.width <= self.buffer_of().screen().area.width { area.width } else { self.buffer_of().screen().area.width };
        let h = if area.height <= self.buffer_of().screen().area.height { area.height } else { self.buffer_of().screen().area.height };
        &&& self.buffer_of().valid()
        &&& (w > 0 && h > 0 ==> area.x + w <= view.width && area.y + h <= view.height)
    }

    open spec fn drawn(&self, before: Screen, after: Screen, area: Area) -> bool {
        let src = self.buffer_of().screen();
        let w = if area.width <= src.area.width { area.width } else { src.area.width };
        let h = if area.height <= src.area.height { area.height } else { src.area.height };
        after == spec_blit(before, src, area, w as int, h as int)
    }

    fn draw(&self, buf: &mut R, area: Area) {
        let width = min(area.width, self.buffer.width());
        let height = min(area.height, self.buffer.height());
        let ghost s0 = buf.screen();
        let ghost src = self.buffer.screen();
        proof {
            buf.lemma_origin();
            assert(s0 =~= spec_blit(s0, src, area, width as int, 0));
        }
        let mut y: u16 = 0;
        while y < height
            invariant
                buf.valid(),
                self.buffer.valid(),
                src == self.buffer.screen(),
                y <= height,
                width <= src.area.width,
                height <= src.area.height,
                width > 0 && height > 0 ==> area.x + width <= s0.area.width && area.y + height <= s0.area.height,
                buf.screen().area == s0.area,
                buf.screen() == spec_blit(s0, src, area, width as int, y as int),
            decreases height - y,
        {
            let ghost srow = buf.screen();
            proof {
                assert(srow =~= blit_rect(srow, src, area.x as int, area.y as int, 0, y as int, 0, 1));
            }
            let mut x: u16 = 0;
            while x < width
                invariant
                    buf.valid(),
                    self.buffer.valid(),
                    src == self.buffer.screen(),
                    x <= width,
                    y < height,
                    width <= src.area.width,
                    height <= src.area.height,
                    width > 0 ==> area.x + width <= s0.area.width && area.y + height <= s0.area.height,
                    buf.screen().area == s0.area,
                    srow == spec_blit(s0, src, area, width as int, y as int),
                    buf.screen() == blit_rect(srow, src, area.x as int, area.y as int, 0, y as int, x as int, 1),
                decreases width - x,
            {
                let c = self.buffer.get(x, y);
                let ghost before = buf.screen();
                buf.set_char(Pos { x: x + area.x, y: y + area.y }, c);
                proof {
                    let target = blit_rect(srow, src, area.x as int, area.y as int, 0, y as int, x + 1, 1);
                    assert forall|i: int, j: int| #[trigger] (buf.screen().cells)(i, j) == (target.cells)(i, j) by {
                        if i == x + area.x && j == y + area.y {
                            assert(i - area.x == x && j - area.y == y);
                        }
                    }
                    assert(buf.screen() =~= target);
                }
                x += 1;
            }
            proof {
                let target = spec_blit(s0, src, area, width as int, y + 1);
                assert(buf.screen() =~= target);
            }
            y += 1;
        }
    }
}

impl Proportional for Canvas {
    open spec fn props(&self) -> Proportions {
        Proportions {
            width: Range::fixed_spec(self.buffer_of().screen().area.width),
            height: Range::fixed_spec(self.buffer_of().screen().area.height),
        }
    }

    open spec fn has_props(&self) -> bool {
        true
    }

    fn proportions(&self) -> (r: Proportions) {
        Proportions::fixed(Dim { width: self.buffer.width(), height: self.buffer.height() })
    }
}

} // verus!
