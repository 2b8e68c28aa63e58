//! The contents of a window: a grid of styled cells at a place on the
//! screen, with a cursor. Windows share them, so the writing methods only
//! need the body.

use vstd::prelude::*;
use crate::buffer::as_i16;
use crate::layout::Area;
use crate::style::{AsStyledStr, Style, StyledChar, spec_default_style};
use crate::util::{offset, spec_offset, lemma_offset_bounds, lemma_offset_injective, cell_count, min_usize, spec_min};

verus! {

/// State of the cursor of a window.
#[derive(Debug, Clone, Copy, PartialEq, Eq, Structural)]
pub struct Cursor {
    pub y: u16,
    pub x: u16,
    pub hidden: bool,
}

/// The cells of a window, row by row, and where the window is.
pub struct InnerWidgetBody {
    pub buffer: Vec<char>,
    pub style_buffer: Vec<Style>,
    pub cursor: Cursor,
    pub start_x: u16,
    pub start_y: u16,
    pub width: u16,
    pub height: u16,
    pub z_index: u16,
    pub hidden: bool,
}

/// The empty character that blank cells hold.
pub open spec fn nul() -> char {
    '\0'
}

impl InnerWidgetBody {
    /// Both buffers hold exactly `width * height` cells.
    pub open spec fn wf(&self) -> bool {
        &&& self.buffer@.len() == self.width * self.height
        &&& self.style_buffer@.len() == self.width * self.height
    }

    /// The character of the cell `[x, y]`.
    pub open spec fn char_at(&self, x: int, y: int) -> char {
        self.buffer@[spec_offset(x, y, self.width as int)]
    }

    /// The style of the cell `[x, y]`.
    pub open spec fn style_at(&self, x: int, y: int) -> Style {
        self.style_buffer@[spec_offset(x, y, self.width as int)]
    }

    /// `other` is at the same place, of the same size, with the same cursor
    /// and visibility.
    pub open spec fn same_frame(&self, other: &Self) -> bool {
        &&& other.start_x == self.start_x
        &&& other.start_y == self.start_y
        &&& other.width == self.width
        &&& other.height == self.height
        &&& other.z_index == self.z_index
        &&& other.hidden == self.hidden
        &&& other.cursor == self.cursor
    }

    /// `[x, y]` is a cell of the body.
    pub open spec fn inside(&self, x: int, y: int) -> bool {
        0 <= x < self.width && 0 <= y < self.height
    }

    /// Creates a hidden body covering `area`, every cell empty.
    pub fn new(area: Area) -> (r: Self)
        requires
            area.width * area.height <= u16::MAX,
        ensures
            r.wf(),
            r.start_x == area.x && r.start_y == area.y,
            r.width == area.width && r.height == area.height,
            r.cursor == (Cursor { y: 0, x: 0, hidden: true }),
            r.z_index == 1,
            r.hidden,
            forall|k: int| 0 <= k < r.buffer@.len() ==> #[trigger] r.buffer@[k] == nul(),
            forall|k: int| 0 <= k < r.style_buffer@.len() ==> #[trigger] r.style_buffer@[k] == spec_default_style(),
    {
        let n = cell_count(area.width, area.height);
        InnerWidgetBody {
            buffer: vec!['\0'; n],
            style_buffer: vec![Style::default(); n],
            start_x: area.x,
            start_y: area.y,
            width: area.width,
            height: area.height,
            cursor: Cursor { y: 0, x: 0, hidden: true },
            z_index: 1,
            hidden: true,
        }
    }

    /// Overwrites the cell `[x, y]`.
    fn write_cell(&mut self, x: u16, y: u16, c: char, s: Style)
        requires
            old(self).wf(),
            x < old(self).width,
            y < old(self).height,
        ensures
            final(self).wf(),
            old(self).same_frame(&*final(self)),
            forall|i: int, j: int| #[trigger] final(self).inside(i, j) ==> {
                &&& final(self).char_at(i, j) == (if i == x && j == y { c } else { old(self).char_at(i, j) })
                &&& final(self).style_at(i, j) == (if i == x && j == y { s } else { old(self).style_at(i, j) })
            },
    {
        let ghost w = self.width as int;
        let ghost h = self.height as int;
        proof {
            lemma_offset_bounds(x as int, y as int, w, h);
            assert(w * h <= 0xffff * 0xffff) by (nonlinear_arith)
                requires 0 <= w <= 0xffff, 0 <= h <= 0xffff;
        }
        let k = offset(x as usize, y as usize, self.width as usize);
        self.buffer.set(k, c);
        self.style_buffer.set(k, s);
        proof {
            assert forall|i: int, j: int| #[trigger] self.inside(i, j) implies {
                &&& self.char_at(i, j) == (if i == x && j == y { c } else { old(self).char_at(i, j) })
                &&& self.style_at(i, j) == (if i == x && j == y { s } else { old(self).style_at(i, j) })
            } by {
                lemma_offset_bounds(i, j, w, h);
                if spec_offset(i, j, w) == spec_offset(x as int, y as int, w) {
                    lemma_offset_injective(i, j, x as int, y as int, w);
                }
            }
        }
    }

    /// Prints `text` at `[x, y]`, cut at the right edge. Nothing is printed
    /// when `[x, y]` is not a cell of the body. The cells take the text's
    /// style.
    pub fn print<S: AsStyledStr>(&mut self, x: u16, y: u16, text: S)
        requires
            old(self).wf(),
        ensures
            final(self).wf(),
            old(self).same_frame(&*final(self)),
            forall|i: int, j: int| #[trigger] final(self).inside(i, j) ==> {
                let n = spec_min(text.text_view().len() as int, old(self).width - x);
                let hit = x < old(self).width && y < old(self).height && j == y && x <= i < x + n;
                &&& final(self).char_at(i, j) == (if hit { text.text_view()[i - x] } else { old(self).char_at(i, j) })
                &&& final(self).style_at(i, j) == (if hit { text.style_view() } else { old(self).style_at(i, j) })
            },
    {
        if x >= self.width || y >= self.height {
            return;
        }
        let text = text.as_styled_str();
        let n = min_usize(text.content.unicode_len(), (self.width - x) as usize);
        let ghost o = *self;
        let mut i: usize = 0;
        while i < n
            invariant
                self.wf(),
                o.same_frame(&*self),
                o.wf(),
                i <= n,
                n <= o.width - x,
                n <= text.content@.len(),
                y < o.height,
                forall|a: int, b: int| #[trigger] self.inside(a, b) ==> {
                    let hit = b == y && x <= a < x + i;
                    &&& self.char_at(a, b) == (if hit { text.content@[a - x] } else { o.char_at(a, b) })
                    &&& self.style_at(a, b) == (if hit { text.style } else { o.style_at(a, b) })
                },
            decreases n - i,
        {
            let ch = text.content.get_char(i);
            let ghost prev = *self;
            self.write_cell(x + i as u16, y, ch, text.style);
            proof {
                assert forall|a: int, b: int| #[trigger] self.inside(a, b) implies {
                    let hit = b == y && x <= a < x + i + 1;
                    &&& self.char_at(a, b) == (if hit { text.content@[a - x] } else { o.char_at(a, b) })
                    &&& self.style_at(a, b) == (if hit { text.style } else { o.style_at(a, b) })
                } by {
                    assert(prev.inside(a, b));
                }
            }
            i += 1;
        }
    }

    /// Puts `c` at `[x, y]`, when it is a cell of the body.
    pub fn putc(&mut self, x: u16, y: u16, c: StyledChar)
        requires
            old(self).wf(),
        ensures
            final(self).wf(),
            old(self).same_frame(&*final(self)),
            forall|i: int, j: int| #[trigger] final(self).inside(i, j) ==> {
                let hit = i == x && j == y;
                &&& final(self).char_at(i, j) == (if hit { c.content } else { old(self).char_at(i, j) })
                &&& final(self).style_at(i, j) == (if hit { c.style } else { old(self).style_at(i, j) })
            },
    {
        if x >= self.width || y >= self.height {
            return;
        }
        self.write_cell(x, y, c.content, c.style);
    }

    /// Fills `len` cells of row `y` from column `x` with `c`, cut at the
    /// right edge. Nothing is filled when `[x, y]` is not a cell of the body.
    pub fn hfill(&mut self, x: u16, y: u16, c: StyledChar, len: usize)
        requires
            old(self).wf(),
            x + len <= usize::MAX,
        ensures
            final(self).wf(),
            old(self).same_frame(&*final(self)),
            forall|i: int, j: int| #[trigger] final(self).inside(i, j) ==> {
                let n = spec_min(len as int, old(self).width - x);
                let hit = x < old(self).width && y < old(self).height && j == y && x <= i < x + n;
                &&& final(self).char_at(i, j) == (if hit { c.content } else { old(self).char_at(i, j) })
                &&& final(self).style_at(i, j) == (if hit { c.style } else { old(self).style_at(i, j) })
            },
    {
        if x >= self.width || y >= self.height {
            return;
        }
        let width = self.width as usize;
        let n = if x as usize + len > width { width - x as usize } else { len };
        let ghost o = *self;
        let mut i: usize = 0;
        while i < n
            invariant
                self.wf(),
                o.same_frame(&*self),
                o.wf(),
                i <= n,
                n <= o.width - x,
                n == spec_min(len as int, o.width - x),
                y < o.height,
                forall|a: int, b: int| #[trigger] self.inside(a, b) ==> {
                    let hit = b == y && x <= a < x + i;
                    &&& self.char_at(a, b) == (if hit { c.content } else { o.char_at(a, b) })
                    &&& self.style_at(a, b) == (if hit { c.style } else { o.style_at(a, b) })
                },
            decreases n - i,
        {
            let ghost prev = *self;
            self.write_cell(x + i as u16, y, c.content, c.style);
            proof {
                assert forall|a: int, b: int| #[trigger] self.inside(a, b) implies {
                    let hit = b == y && x <= a < x + i + 1;
                    &&& self.char_at(a, b) == (if hit { c.content } else { o.char_at(a, b) })
                    &&& self.style_at(a, b) == (if hit { c.style } else { o.style_at(a, b) })
                } by {
                    assert(prev.inside(a, b));
                }
            }
            i += 1;
        }
    }

    /// Fills `len` cells of column `x` from row `y` with `c`, cut at the
    /// bottom edge.
    pub fn vfill(&mut self, x: u16, y: u16, c: StyledChar, len: usize)
        requires
            old(self).wf(),
            y + len <= usize::MAX,
        ensures
            final(self).wf(),
            old(self).same_frame(&*final(self)),
            forall|i: int, j: int| #[trigger] final(self).inside(i, j) ==> {
                let n = spec_min(len as int, old(self).height - y);
                let hit = x < old(self).width && y < old(self).height && i == x && y <= j < y + n;
                &&& final(self).char_at(i, j) == (if hit { c.content } else { old(self).char_at(i, j) })
                &&& final(self).style_at(i, j) == (if hit { c.style } else { old(self).style_at(i, j) })
            },
    {
        if x >= self.width || y >= self.height {
            return;
        }
        let height = self.height as usize;
        let n = if y as usize + len > height { height - y as usize } else { len };
        let ghost o = *self;
        let mut i: usize = 0;
        while i < n
            invariant
                self.wf(),
                o.same_frame(&*self),
                o.wf(),
                i <= n,
                n <= o.height - y,
                n == spec_min(len as int, o.height - y),
                x < o.width,
                forall|a: int, b: int| #[trigger] self.inside(a, b) ==> {
                    let hit = a == x && y <= b < y + i;
                    &&& self.char_at(a, b) == (if hit { c.content } else { o.char_at(a, b) })
                    &&& self.style_at(a, b) == (if hit { c.style } else { o.style_at(a, b) })
                },
            decreases n - i,
        {
            let ghost prev = *self;
            self.write_cell(x, y + i as u16, c.content, c.style);
            proof {
                assert forall|a: int, b: int| #[trigger] self.inside(a, b) implies {
                    let hit = a == x && y <= b < y + i + 1;
                    &&& self.char_at(a, b) == (if hit { c.content } else { o.char_at(a, b) })
                    &&& self.style_at(a, b) == (if hit { c.style } else { o.style_at(a, b) })
                } by {
                    assert(prev.inside(a, b));
                }
            }
            i += 1;
        }
    }

    /// The styled character stored at the index of `[x, y]`.
    pub fn peekc(&self, x: u16, y: u16) -> (r: StyledChar)
        requires
            self.wf(),
            spec_offset(x as int, y as int, self.width as int) < self.buffer@.len(),
        ensures
            r.content == self.buffer@[spec_offset(x as int, y as int, self.width as int)],
            r.style == self.style_buffer@[spec_offset(x as int, y as int, self.width as int)],
    {
        let _n = self.buffer.len();
        let k = offset(x as usize, y as usize, self.width as usize);
        StyledChar { content: self.buffer[k], style: self.style_buffer[k] }
    }

    /// Empties every cell.
    pub fn clear(&mut self)
        requires
            old(self).wf(),
        ensures
            final(self).wf(),
            old(self).same_frame(&*final(self)),
            forall|k: int| 0 <= k < final(self).buffer@.len() ==> #[trigger] final(self).buffer@[k] == nul(),
            forall|k: int| 0 <= k < final(self).style_buffer@.len() ==> #[trigger] final(self).style_buffer@[k]
                == spec_default_style(),
    {
        let ghost o = *self;
        let n = self.buffer.len();
        let mut k: usize = 0;
        while k < n
            invariant
                self.wf(),
                o.same_frame(&*self),
                n == self.buffer@.len(),
                k <= n,
                forall|m: int| 0 <= m < k ==> #[trigger] self.buffer@[m] == nul(),
            decreases n - k,
        {
            self.buffer.set(k, '\0');
            k += 1;
        }
        let sn = self.style_buffer.len();
        let mut k: usize = 0;
        while k < sn
            invariant
                self.wf(),
                o.same_frame(&*self),
                n == self.buffer@.len(),
                sn == self.style_buffer@.len(),
                k <= sn,
                forall|m: int| 0 <= m < n ==> #[trigger] self.buffer@[m] == nul(),
                forall|m: int| 0 <= m < k ==> #[trigger] self.style_buffer@[m] == spec_default_style(),
            decreases sn - k,
        {
            self.style_buffer.set(k, Style::default());
            k += 1;
        }
    }

    /// Shows the cursor.
    pub fn show_cursor(&mut self)
        ensures
            *final(self) == (InnerWidgetBody { cursor: Cursor { hidden: false, ..old(self).cursor }, ..*old(self) }),
    {
        self.cursor.hidden = false;
    }

    /// Hides the cursor.
    pub fn hide_cursor(&mut self)
        ensures
            *final(self) == (InnerWidgetBody { cursor: Cursor { hidden: true, ..old(self).cursor }, ..*old(self) }),
    {
        self.cursor.hidden = true;
    }

    /// Moves the cursor to `[x, y]` when it is a cell of the body.
    pub fn move_cursor(&mut self, x: u16, y: u16)
        ensures
            *final(self) == (if x < old(self).width && y < old(self).height {
                InnerWidgetBody { cursor: Cursor { x, y, ..old(self).cursor }, ..*old(self) }
            } else {
                *old(self)
            }),
    {
        if x >= self.width || y >= self.height {
            return;
        }
        self.cursor.x = x;
        self.cursor.y = y;
    }

    /// Moves the cursor by `steps` columns along its row; nothing happens
    /// when it would leave the row.
    pub fn advance_cursor(&mut self, steps: i16)
        requires
            steps > i16::MIN,
            steps >= 0 ==> steps + old(self).cursor.x <= u16::MAX,
            crate::buffer::spec_advance(old(self).cursor.x as int, old(self).width as int, steps as int) is Some
                ==> i16::MIN <= as_i16(old(self).cursor.x) + steps <= i16::MAX,
        ensures
            *final(self) == (match crate::buffer::spec_advance(
                old(self).cursor.x as int,
                old(self).width as int,
                steps as int,
            ) {
                None => *old(self),
                Some(nx) => InnerWidgetBody { cursor: Cursor { x: nx as u16, ..old(self).cursor }, ..*old(self) },
            }),
    {
        let x = self.cursor.x;
        if steps < 0 {
            let back = (-steps) as u16;
            if back > x {
                return;
            }
            self.cursor.x = x - back;
        } else {
            if steps as u16 + x >= self.width {
                return;
            }
            self.cursor.x = x + steps as u16;
        }
    }

    /// Resizes the body to `width` x `height` cells. The stored cells are
    /// kept in order as far as they fit; new cells are empty.
    pub fn resize(&mut self, width: u16, height: u16)
        ensures
            final(self).wf(),
            final(self).width == width,
            final(self).height == height,
            final(self).start_x == old(self).start_x,
            final(self).start_y == old(self).start_y,
            final(self).z_index == old(self).z_index,
            final(self).hidden == old(self).hidden,
            final(self).cursor == old(self).cursor,
            forall|k: int| 0 <= k < width * height ==> #[trigger] final(self).buffer@[k] == (if k < old(self).buffer@.len() {
                old(self).buffer@[k]
            } else {
                nul()
            }),
            forall|k: int| 0 <= k < width * height ==> #[trigger] final(self).style_buffer@[k] == (if k
                < old(self).style_buffer@.len() {
                old(self).style_buffer@[k]
            } else {
                spec_default_style()
            }),
    {
        let n = cell_count(width, height);
        self.width = width;
        self.height = height;
        self.buffer.resize(n, '\0');
        self.style_buffer.resize(n, Style::default());
        proof {
            let ob = old(self).buffer@;
            let os = old(self).style_buffer@;
            if n > ob.len() {
                assert forall|k: int| 0 <= k < ob.len() implies #[trigger] self.buffer@[k] == ob[k] by {
                    assert(self.buffer@.subrange(0, ob.len() as int)[k] == self.buffer@[k]);
                }
            }
            if n > os.len() {
                assert forall|k: int| 0 <= k < os.len() implies #[trigger] self.style_buffer@[k] == os[k] by {
                    assert(self.style_buffer@.subrange(0, os.len() as int)[k] == self.style_buffer@[k]);
                }
            }
        }
    }
}

} // verus!
