//! Rendering: the [`Render`] interface that widgets paint through, its
//! cell-level model, and the [`Draw`] trait of drawable widgets.

use vstd::prelude::*;
use crate::layout::{Area, Pos, Dim, Justify, spec_overlaps, spec_intersection, lemma_intersection_inside};
use crate::style::{Style, StyledChar, StyledStr, AsStyledStr, spec_merge, spec_default_style, ascii_prefix};
use crate::util::{min_usize, spec_min};

verus! {

/// State of the cursor.
#[derive(Debug, Clone, Copy, PartialEq, Eq, Structural)]
pub struct Cursor {
    pub x: u16,
    pub y: u16,
    pub hidden: bool,
}

/// What a renderer shows: its paint area, the styled character of every
/// cell, and the cursor; and how many characters and styles its storage
/// holds, which drawing does not change.
#[verifier::ext_equal]
pub ghost struct Screen {
    pub area: Area,
    pub cells: spec_fn(int, int) -> StyledChar,
    pub cursor: Cursor,
    pub storage: (nat, nat),
}

/// The cell `[x, y]` of `s`.
pub open spec fn cell(s: Screen, x: int, y: int) -> StyledChar {
    (s.cells)(x, y)
}

/// A blank cell.
pub open spec fn blank() -> StyledChar {
    StyledChar { content: ' ', style: spec_default_style() }
}

/// `c` written over the cell `old`: the character is replaced and the style
/// is merged onto the old one.
pub open spec fn overwrite(old: StyledChar, content: char, style: Style) -> StyledChar {
    StyledChar { content, style: spec_merge(old.style, style) }
}

/// `c` written at `[x, y]`.
pub open spec fn spec_set_char(s: Screen, x: int, y: int, c: StyledChar) -> Screen {
    Screen {
        cells: |i: int, j: int|
            if i == x && j == y { overwrite(cell(s, i, j), c.content, c.style) } else { cell(s, i, j) },
        ..s
    }
}

/// `text` written on row `y` from column `x0`, each character styled with
/// `style` merged onto its cell.
pub open spec fn spec_put_row(s: Screen, x0: int, y: int, text: Seq<char>, style: Style) -> Screen {
    Screen {
        cells: |i: int, j: int|
            if j == y && x0 <= i < x0 + text.len() {
                overwrite(cell(s, i, j), text[i - x0], style)
            } else {
                cell(s, i, j)
            },
        ..s
    }
}

/// Every cell of `r` overwritten with `c`.
pub open spec fn spec_fill_rect(s: Screen, r: Area, c: StyledChar) -> Screen {
    Screen {
        cells: |i: int, j: int|
            if r.has(i, j) { overwrite(cell(s, i, j), c.content, c.style) } else { cell(s, i, j) },
        ..s
    }
}

/// Every cell of the paint area blank and the cursor hidden at `[0, 0]`.
pub open spec fn spec_clear(s: Screen) -> Screen {
    Screen {
        cells: |i: int, j: int| if s.area.has(i, j) { blank() } else { cell(s, i, j) },
        cursor: Cursor { x: 0, y: 0, hidden: true },
        ..s
    }
}

/// The cursor shown or hidden.
pub open spec fn spec_cursor_hidden(s: Screen, hidden: bool) -> Screen {
    Screen { cursor: Cursor { hidden, ..s.cursor }, ..s }
}

/// The cursor moved to `pos` when `pos` is inside the paint dimensions.
pub open spec fn spec_move_cursor(s: Screen, pos: Pos) -> Screen {
    if pos.x >= s.area.width || pos.y >= s.area.height {
        s
    } else {
        Screen { cursor: Cursor { x: pos.x, y: pos.y, hidden: s.cursor.hidden }, ..s }
    }
}

/// `c` filled over `area` clipped to the paint area.
pub open spec fn spec_fill(s: Screen, c: StyledChar, area: Area) -> Screen {
    if !spec_overlaps(s.area, area) {
        s
    } else {
        spec_fill_rect(s, spec_intersection(s.area, area), c)
    }
}

/// A horizontal line of `c` from `pos`, `len` long, cut at the right edge.
pub open spec fn spec_hfill(s: Screen, pos: Pos, c: StyledChar, len: int) -> Screen {
    if pos.x >= s.area.width || pos.y >= s.area.height {
        s
    } else {
        let n = spec_min(s.area.width - pos.x, len);
        spec_fill_rect(s, Area { x: pos.x, y: pos.y, width: n as u16, height: 1 }, c)
    }
}

/// A vertical line of `c` from `pos`, `len` long, cut at the bottom edge.
pub open spec fn spec_vfill(s: Screen, pos: Pos, c: StyledChar, len: int) -> Screen {
    if pos.x >= s.area.width || pos.y >= s.area.height {
        s
    } else {
        let n = spec_min(s.area.height - pos.y, len);
        spec_fill_rect(s, Area { x: pos.x, y: pos.y, width: 1, height: n as u16 }, c)
    }
}

/// `text` printed at `pos`, cut at the right edge of the paint area.
pub open spec fn spec_print_abs(s: Screen, pos: Pos, text: Seq<char>, style: Style) -> Screen {
    if pos.x >= s.area.width || pos.y >= s.area.height {
        s
    } else {
        let n = spec_min(text.len() as int, s.area.width - pos.x);
        spec_put_row(s, pos.x as int, pos.y as int, text.take(n), style)
    }
}

/// `c` put at `pos` when it is inside the paint dimensions.
pub open spec fn spec_putc_abs(s: Screen, pos: Pos, c: StyledChar) -> Screen {
    if pos.x >= s.area.width || pos.y >= s.area.height {
        s
    } else {
        spec_set_char(s, pos.x as int, pos.y as int, c)
    }
}

/// Where printing at `pos` relative to `area` starts and how many cells are
/// available to its right, or `None` when nothing is printed.
pub open spec fn print_target(view: Area, pos: Pos, area: Area) -> Option<(int, int, int)> {
    if !spec_overlaps(view, area) {
        None
    } else {
        let a = spec_intersection(view, area);
        let ax = a.x + pos.x;
        let ay = a.y + pos.y;
        if ax >= a.x + a.width || ay >= a.y + a.height {
            None
        } else {
            Some((ax, ay, a.x + a.width - ax))
        }
    }
}

/// The coordinates that printing at `pos` relative to `area` adds up are
/// representable.
pub open spec fn print_coords_fit(view: Area, pos: Pos, area: Area) -> bool {
    spec_overlaps(view, area) ==> {
        let a = spec_intersection(view, area);
        a.x + pos.x <= u16::MAX && a.y + pos.y <= u16::MAX
    }
}

/// `text` printed at `pos` relative to `area` (clipped to the paint area).
pub open spec fn spec_print(s: Screen, pos: Pos, text: Seq<char>, style: Style, area: Area) -> Screen {
    match print_target(s.area, pos, area) {
        None => s,
        Some((x0, y0, avail)) => spec_put_row(s, x0, y0, text.take(spec_min(text.len() as int, avail)), style),
    }
}

/// `c` put at `pos` relative to `area` (clipped to the paint area).
pub open spec fn spec_putc(s: Screen, pos: Pos, c: StyledChar, area: Area) -> Screen {
    if !spec_overlaps(s.area, area) {
        s
    } else {
        let a = spec_intersection(s.area, area);
        if pos.x >= a.width || pos.y >= a.height {
            s
        } else {
            spec_set_char(s, a.x + pos.x, a.y + pos.y, c)
        }
    }
}

/// Position, relative to an area of `width` x `height`, where text of
/// `text_width` justified by `j` starts.
pub open spec fn spec_jpos(j: Justify, width: int, height: int, text_width: int) -> (int, int) {
    let hc = (width - text_width) / 2;
    let r = width - text_width;
    let vc = (if height >= 1 { height - 1 } else { 0 }) / 2;
    let b = if height >= 1 { height - 1 } else { 0 };
    match j {
        Justify::Left(y) => (0, y as int),
        Justify::HCenter(y) => (hc, y as int),
        Justify::Right(y) => (r, y as int),
        Justify::Top(x) => (x as int, 0),
        Justify::VCenter(x) => (x as int, vc),
        Justify::Bottom(x) => (x as int, b),
        Justify::TopLeft => (0, 0),
        Justify::TopCenter => (hc, 0),
        Justify::TopRight => (r, 0),
        Justify::CenterLeft => (0, vc),
        Justify::Center => (hc, vc),
        Justify::CenterRight => (r, vc),
        Justify::BottomLeft => (0, b),
        Justify::BottomCenter => (hc, b),
        Justify::BottomRight => (r, b),
    }
}

/// The area that justified printing into `area` works in, when it prints
/// anything.
pub open spec fn justify_area(view: Area, area: Area) -> Option<Area> {
    if !spec_overlaps(view, area) {
        None
    } else {
        let a = spec_intersection(view, area);
        if a.width == 0 || a.height == 0 { None } else { Some(a) }
    }
}

/// `text` justified by `j` in `area` (clipped to the paint area).
pub open spec fn spec_jprint(s: Screen, text: Seq<char>, style: Style, j: Justify, area: Area) -> Screen {
    match justify_area(s.area, area) {
        None => s,
        Some(a) => {
            let tw = spec_min(text.len() as int, a.width as int);
            let p = spec_jpos(j, a.width as int, a.height as int, tw);
            spec_print(s, Pos { x: p.0 as u16, y: p.1 as u16 }, text.take(tw), style, a)
        },
    }
}

/// The justified start of `text` in `area` has representable coordinates.
pub open spec fn jprint_fits(view: Area, text_len: int, j: Justify, area: Area) -> bool {
    justify_area(view, area) matches Some(a) ==> {
        let p = spec_jpos(j, a.width as int, a.height as int, spec_min(text_len, a.width as int));
        a.x + p.0 <= u16::MAX && a.y + p.1 <= u16::MAX
    }
}

/// `c` justified by `j` in `area` (clipped to the paint area).
pub open spec fn spec_jputc(s: Screen, c: StyledChar, j: Justify, area: Area) -> Screen {
    match justify_area(s.area, area) {
        None => s,
        Some(a) => {
            let p = spec_jpos(j, a.width as int, a.height as int, 1);
            spec_putc(s, Pos { x: p.0 as u16, y: p.1 as u16 }, c, a)
        },
    }
}

/// Render - the basic mechanism for drawing widgets.
///
/// Types can implement this trait in order to render [`Draw`]ables. The
/// paint area of a renderer starts at `[0, 0]`.
pub trait Render: Sized {
    /// What the renderer shows.
    spec fn screen(&self) -> Screen;

    /// The renderer's own consistency.
    spec fn valid(&self) -> bool;

    /// The paint area of a valid renderer starts at `[0, 0]`.
    proof fn lemma_origin(&self)
        requires
            self.valid(),
        ensures
            self.screen().area.x == 0,
            self.screen().area.y == 0,
    ;

    /// Get the paint area.
    fn area(&self) -> (r: Area)
        requires
            self.valid(),
        ensures
            r == self.screen().area,
            r.x == 0,
            r.y == 0,
    ;

    /// Set a `StyledStr`; the text is ASCII and fits in the row.
    fn set_str(&mut self, pos: Pos, text: StyledStr)
        requires
            old(self).valid(),
            ascii_prefix(text.content@, text.content@.len() as int),
            pos.y < old(self).screen().area.height,
            pos.x + text.content@.len() <= old(self).screen().area.width,
        ensures
            final(self).valid(),
            final(self).screen().area == old(self).screen().area,
            final(self).screen() == spec_put_row(old(self).screen(), pos.x as int, pos.y as int, text.content@, text.style),
    ;

    /// Set a `StyledChar` inside the paint area.
    fn set_char(&mut self, pos: Pos, c: StyledChar)
        requires
            old(self).valid(),
            pos.x < old(self).screen().area.width,
            pos.y < old(self).screen().area.height,
        ensures
            final(self).valid(),
            final(self).screen().area == old(self).screen().area,
            final(self).screen() == spec_set_char(old(self).screen(), pos.x as int, pos.y as int, c),
    ;

    /// Clear the buffer.
    fn clear(&mut self)
        requires
            old(self).valid(),
        ensures
            final(self).valid(),
            final(self).screen().area == old(self).screen().area,
            final(self).screen() == spec_clear(old(self).screen()),
    ;

    /// Show the cursor.
    fn show_cursor(&mut self)
        requires
            old(self).valid(),
        ensures
            final(self).valid(),
            final(self).screen().area == old(self).screen().area,
            final(self).screen() == spec_cursor_hidden(old(self).screen(), false),
    ;

    /// Hide the cursor.
    fn hide_cursor(&mut self)
        requires
            old(self).valid(),
        ensures
            final(self).valid(),
            final(self).screen().area == old(self).screen().area,
            final(self).screen() == spec_cursor_hidden(old(self).screen(), true),
    ;

    /// Move the cursor (ignored when `pos` is outside the paint area).
    fn move_cursor(&mut self, pos: Pos)
        requires
            old(self).valid(),
        ensures
            final(self).valid(),
            final(self).screen().area == old(self).screen().area,
            final(self).screen() == spec_move_cursor(old(self).screen(), pos),
    ;

    /// Get the dimensions of the paint area.
    fn dimensions(&self) -> (r: Dim)
        requires
            self.valid(),
        ensures
            r == (Dim { width: self.screen().area.width, height: self.screen().area.height }),
    {
        self.area().dimensions()
    }

    /// Fill a horizontal line with `c`, of length `len` and starting at
    /// `pos`, cut at the right edge.
    fn hfill(&mut self, pos: Pos, c: StyledChar, len: usize)
        requires
            old(self).valid(),
        ensures
            final(self).valid(),
            final(self).screen().area == old(self).screen().area,
            final(self).screen() == spec_hfill(old(self).screen(), pos, c, len as int),
    {
        let dim = self.dimensions();
        if pos.x >= dim.width || pos.y >= dim.height {
            return;
        }
        let fill_len = min_usize((dim.width - pos.x) as usize, len);
        let ghost s0 = self.screen();
        proof {
            assert(s0 =~= spec_fill_rect(s0, Area { x: pos.x, y: pos.y, width: 0, height: 1 }, c));
        }
        let mut i: usize = 0;
        while i < fill_len
            invariant
                self.valid(),
                i <= fill_len,
                fill_len <= dim.width - pos.x,
                fill_len <= len,
                dim.width == s0.area.width,
                dim.height == s0.area.height,
                pos.y < dim.height,
                self.screen() == spec_fill_rect(s0, Area { x: pos.x, y: pos.y, width: i as u16, height: 1 }, c),
            decreases fill_len - i,
        {
            self.set_char(pos.add_x(i as u16), c);
            proof {
                assert(self.screen() =~= spec_fill_rect(s0, Area { x: pos.x, y: pos.y, width: (i + 1) as u16, height: 1 }, c));
            }
            i += 1;
        }
    }

    /// Fill a vertical line with `c`, of length `len` and starting at `pos`,
    /// cut at the bottom edge.
    fn vfill(&mut self, pos: Pos, c: StyledChar, len: usize)
        requires
            old(self).valid(),
        ensures
            final(self).valid(),
            final(self).screen().area == old(self).screen().area,
            final(self).screen() == spec_vfill(old(self).screen(), pos, c, len as int),
    {
        let dim = self.dimensions();
        if pos.x >= dim.width || pos.y >= dim.height {
            return;
        }
        let fill_len = min_usize((dim.height - pos.y) as usize, len);
        let ghost s0 = self.screen();
        proof {
            assert(s0 =~= spec_fill_rect(s0, Area { x: pos.x, y: pos.y, width: 1, height: 0 }, c));
        }
        let mut i: usize = 0;
        while i < fill_len
            invariant
                self.valid(),
                i <= fill_len,
                fill_len <= dim.height - pos.y,
                fill_len <= len,
                dim.width == s0.area.width,
                dim.height == s0.area.height,
                pos.x < dim.width,
                self.screen() == spec_fill_rect(s0, Area { x: pos.x, y: pos.y, width: 1, height: i as u16 }, c),
            decreases fill_len - i,
        {
            self.set_char(pos.add_y(i as u16), c);
            proof {
                assert(self.screen() =~= spec_fill_rect(s0, Area { x: pos.x, y: pos.y, width: 1, height: (i + 1) as u16 }, c));
            }
            i += 1;
        }
    }

    /// Fill an area with `c` (clipped to the paint area).
    fn fill(&mut self, c: StyledChar, area: Area)
        requires
            old(self).valid(),
            area.fits(),
        ensures
            final(self).valid(),
            final(self).screen().area == old(self).screen().area,
            final(self).screen() == spec_fill(old(self).screen(), c, area),
    {
        let view = self.area();
        if !view.overlaps(area) {
            return;
        }
        let a = view.intersection(area);
        let ghost s0 = self.screen();
        proof {
            lemma_intersection_inside(view, area);
            assert(s0 =~= spec_fill_rect(s0, Area { height: 0, ..a }, c));
        }
        if a.is_collapsed() {
            proof {
                assert(s0 =~= spec_fill_rect(s0, a, c));
            }
            return;
        }
        let mut y: u16 = 0;
        while y < a.height
            invariant
                self.valid(),
                y <= a.height,
                view == s0.area,
                view.x == 0,
                view.y == 0,
                a.x + a.width <= view.width,
                a.y + a.height <= view.height,
                self.screen() == spec_fill_rect(s0, Area { height: y, ..a }, c),
            decreases a.height - y,
        {
            let ghost srow = self.screen();
            proof {
                assert(srow =~= spec_fill_rect(srow, Area { y: (a.y + y) as u16, width: 0, height: 1, ..a }, c));
            }
            let mut x: u16 = 0;
            while x < a.width
                invariant
                    self.valid(),
                    x <= a.width,
                    y < a.height,
                    view == s0.area,
                    srow.area == s0.area,
                    a.x + a.width <= view.width,
                    a.y + a.height <= view.height,
                    self.screen() == spec_fill_rect(srow, Area { y: (a.y + y) as u16, width: x, height: 1, ..a }, c),
                decreases a.width - x,
            {
                self.set_char(Pos { x: a.x + x, y: a.y + y }, c);
                proof {
                    assert(self.screen() =~= spec_fill_rect(srow, Area { y: (a.y + y) as u16, width: (x + 1) as u16, height: 1, ..a }, c));
                }
                x += 1;
            }
            proof {
                assert(self.screen() =~= spec_fill_rect(s0, Area { height: (y + 1) as u16, ..a }, c));
            }
            y += 1;
        }
    }

    /// Bounds-checked absolute printing, cut at the right edge.
    fn print_abs<S: AsStyledStr>(&mut self, pos: Pos, text: S)
        requires
            old(self).valid(),
            pos.x < old(self).screen().area.width && pos.y < old(self).screen().area.height
                ==> ascii_prefix(text.text_view(), old(self).screen().area.width - pos.x),
        ensures
            final(self).valid(),
            final(self).screen().area == old(self).screen().area,
            final(self).screen() == spec_print_abs(old(self).screen(), pos, text.text_view(), text.style_view()),
    {
        let area = self.area();
        if pos.x >= area.width || pos.y >= area.height {
            return;
        }
        let text = text.as_styled_str();
        let print_width = min_usize(text.content.unicode_len(), (area.width - pos.x) as usize);
        let part = text.slice_chars(0, print_width);
        proof {
            assert(ascii_prefix(part.content@, part.content@.len() as int));
        }
        self.set_str(pos, part);
    }

    /// Bounds-checked absolute printing of a styled character.
    fn putc_abs(&mut self, pos: Pos, c: StyledChar)
        requires
            old(self).valid(),
        ensures
            final(self).valid(),
            final(self).screen().area == old(self).screen().area,
            final(self).screen() == spec_putc_abs(old(self).screen(), pos, c),
    {
        let area = self.area();
        if pos.x >= area.width || pos.y >= area.height {
            return;
        }
        self.set_char(pos, c);
    }

    /// Bounds-checked print, relative to `area`.
    fn print<S: AsStyledStr>(&mut self, pos: Pos, text: S, area: Area)
        requires
            old(self).valid(),
            area.fits(),
            print_coords_fit(old(self).screen().area, pos, area),
            print_target(old(self).screen().area, pos, area) matches Some((x0, y0, avail))
                ==> ascii_prefix(text.text_view(), avail),
        ensures
            final(self).valid(),
            final(self).screen().area == old(self).screen().area,
            final(self).screen() == spec_print(old(self).screen(), pos, text.text_view(), text.style_view(), area),
    {
        let view = self.area();
        if !view.overlaps(area) {
            return;
        }
        let area = view.intersection(area);
        proof {
            lemma_intersection_inside(view, area);
        }
        let abs_x = area.x + pos.x;
        let abs_y = area.y + pos.y;
        if abs_x >= area.x + area.width || abs_y >= area.y + area.height {
            return;
        }
        let text = text.as_styled_str();
        let right_max = area.x as usize + area.width as usize;
        let print_width = min_usize(text.content.unicode_len(), right_max - abs_x as usize);
        let part = text.slice_chars(0, print_width);
        proof {
            assert(ascii_prefix(part.content@, part.content@.len() as int));
        }
        self.set_str(Pos { x: abs_x, y: abs_y }, part);
    }

    /// Bounds-checked print of a styled character, relative to `area`.
    fn putc(&mut self, pos: Pos, c: StyledChar, area: Area)
        requires
            old(self).valid(),
            area.fits(),
        ensures
            final(self).valid(),
            final(self).screen().area == old(self).screen().area,
            final(self).screen() == spec_putc(old(self).screen(), pos, c, area),
    {
        let view = self.area();
        if !view.overlaps(area) {
            return;
        }
        let area = view.intersection(area);
        proof {
            lemma_intersection_inside(view, area);
        }
        if pos.x >= area.width || pos.y >= area.height {
            return;
        }
        self.set_char(pos.add(area.top_left()), c);
    }

    /// Print justified in an area.
    fn jprint<S: AsStyledStr>(&mut self, text: S, j: Justify, area: Area)
        requires
            old(self).valid(),
            area.fits(),
            jprint_fits(old(self).screen().area, text.text_view().len() as int, j, area),
            justify_area(old(self).screen().area, area) matches Some(a)
                ==> ascii_prefix(text.text_view(), a.width as int),
        ensures
            final(self).valid(),
            final(self).screen().area == old(self).screen().area,
            final(self).screen() == spec_jprint(old(self).screen(), text.text_view(), text.style_view(), j, area),
    {
        let view = self.area();
        if !view.overlaps(area) {
            return;
        }
        let area = view.intersection(area);
        proof {
            lemma_intersection_inside(view, area);
        }
        if area.is_collapsed() {
            return;
        }
        let text = text.as_styled_str();
        let text_width = min_usize(text.content.unicode_len(), area.width as usize);
        let hc = (area.width as usize - text_width) as u16 / 2;
        let r = (area.width as usize - text_width) as u16;
        let vc = area.height.saturating_sub(1) / 2;
        let b = area.height.saturating_sub(1);
        let pos = match j {
            Justify::Left(y) => Pos { x: 0, y },
            Justify::HCenter(y) => Pos { x: hc, y },
            Justify::Right(y) => Pos { x: r, y },
            Justify::Top(x) => Pos { x, y: 0 },
            Justify::VCenter(x) => Pos { x, y: vc },
            Justify::Bottom(x) => Pos { x, y: b },
            Justify::TopLeft => Pos { x: 0, y: 0 },
            Justify::TopCenter => Pos { x: hc, y: 0 },
            Justify::TopRight => Pos { x: r, y: 0 },
            Justify::CenterLeft => Pos { x: 0, y: vc },
            Justify::Center => Pos { x: hc, y: vc },
            Justify::CenterRight => Pos { x: r, y: vc },
            Justify::BottomLeft => Pos { x: 0, y: b },
            Justify::BottomCenter => Pos { x: hc, y: b },
            Justify::BottomRight => Pos { x: r, y: b },
        };
        proof {
            let p = spec_jpos(j, area.width as int, area.height as int, text_width as int);
            assert(pos.x == p.0 && pos.y == p.1);
        }
        let part = text.slice_chars(0, text_width);
        self.print(pos, part, area);
    }

    /// Put a character justified in an area.
    fn jputc(&mut self, c: StyledChar, j: Justify, area: Area)
        requires
            old(self).valid(),
            area.fits(),
        ensures
            final(self).valid(),
            final(self).screen().area == old(self).screen().area,
            final(self).screen() == spec_jputc(old(self).screen(), c, j, area),
    {
        let view = self.area();
        if !view.overlaps(area) {
            return;
        }
        let area = view.intersection(area);
        proof {
            lemma_intersection_inside(view, area);
        }
        if area.is_collapsed() {
            return;
        }
        let hc = area.width.saturating_sub(1) / 2;
        let r = area.width.saturating_sub(1);
        let vc = area.height.saturating_sub(1) / 2;
        let b = area.height.saturating_sub(1);
        let pos = match j {
            Justify::Left(y) => Pos { x: 0, y },
            Justify::HCenter(y) => Pos { x: hc, y },
            Justify::Right(y) => Pos { x: r, y },
            Justify::Top(x) => Pos { x, y: 0 },
            Justify::VCenter(x) => Pos { x, y: vc },
            Justify::Bottom(x) => Pos { x, y: b },
            Justify::TopLeft => Pos { x: 0, y: 0 },
            Justify::TopCenter => Pos { x: hc, y: 0 },
            Justify::TopRight => Pos { x: r, y: 0 },
            Justify::CenterLeft => Pos { x: 0, y: vc },
            Justify::Center => Pos { x: hc, y: vc },
            Justify::CenterRight => Pos { x: r, y: vc },
            Justify::BottomLeft => Pos { x: 0, y: b },
            Justify::BottomCenter => Pos { x: hc, y: b },
            Justify::BottomRight => Pos { x: r, y: b },
        };
        proof {
            let p = spec_jpos(j, area.width as int, area.height as int, 1);
            assert(pos.x == p.0 && pos.y == p.1);
        }
        self.putc(pos, c, area);
    }
}

/// The type can be drawn with a [`Render`]er.
pub trait Draw<R: Render> {
    /// Drawing into `area` on a renderer whose paint area is `view` cannot
    /// fail.
    spec fn can_draw(&self, view: Area, area: Area) -> bool;

    /// Drawing into `area` turns the screen `before` into `after`.
    spec fn drawn(&self, before: Screen, after: Screen, area: Area) -> bool;

    /// Draws the widget onto `buf`.
    fn draw(&self, buf: &mut R, area: Area)
        requires
            old(buf).valid(),
            self.can_draw(old(buf).screen().area, area),
        ensures
            final(buf).valid(),
            final(buf).screen().area == old(buf).screen().area,
            self.drawn(old(buf).screen(), final(buf).screen(), area),
    ;
}

/// Reading a cell gives back what was written into it; every other cell
/// keeps its content.
pub proof fn law_set_char_read(s: Screen, x: int, y: int, c: StyledChar, i: int, j: int)
    ensures
        cell(spec_set_char(s, x, y, c), x, y).content == c.content,
        cell(spec_set_char(s, x, y, c), x, y).style == spec_merge(cell(s, x, y).style, c.style),
        i != x || j != y ==> cell(spec_set_char(s, x, y, c), i, j) == cell(s, i, j),
        spec_set_char(s, x, y, c).area == s.area,
        spec_set_char(s, x, y, c).cursor == s.cursor,
{
}

/// After clearing, every cell of the paint area is blank and the cursor is
/// hidden at the origin; nothing else changes.
pub proof fn law_clear_blank(s: Screen, i: int, j: int)
    ensures
        s.area.has(i, j) ==> cell(spec_clear(s), i, j) == blank(),
        !s.area.has(i, j) ==> cell(spec_clear(s), i, j) == cell(s, i, j),
        spec_clear(s).cursor == (Cursor { x: 0, y: 0, hidden: true }),
        spec_clear(s).area == s.area,
{
}

/// No cell lies in two areas that do not overlap.
proof fn lemma_disjoint(a: Area, b: Area, i: int, j: int)
    requires
        !spec_overlaps(a, b),
    ensures
        !(a.has(i, j) && b.has(i, j)),
{
}

/// Filling an area overwrites exactly the cells that lie both in the paint
/// area and in the given area.
pub proof fn law_fill_exact(s: Screen, c: StyledChar, area: Area, i: int, j: int)
    requires
        s.area.fits(),
        area.fits(),
    ensures
        cell(spec_fill(s, c, area), i, j) == (if s.area.has(i, j) && area.has(i, j) {
            overwrite(cell(s, i, j), c.content, c.style)
        } else {
            cell(s, i, j)
        }),
        spec_fill(s, c, area).area == s.area,
        spec_fill(s, c, area).cursor == s.cursor,
{
    if spec_overlaps(s.area, area) {
        crate::layout::law_intersection_has(s.area, area, i, j);
    } else {
        lemma_disjoint(s.area, area, i, j);
    }
}

/// Printing relative to an area only changes cells that lie both in the
/// paint area and in the given area.
pub proof fn law_print_clipped(s: Screen, pos: Pos, text: Seq<char>, style: Style, area: Area, i: int, j: int)
    requires
        s.area.fits(),
        area.fits(),
        !(s.area.has(i, j) && area.has(i, j)),
    ensures
        cell(spec_print(s, pos, text, style, area), i, j) == cell(s, i, j),
        spec_print(s, pos, text, style, area).area == s.area,
        spec_print(s, pos, text, style, area).cursor == s.cursor,
{
    if spec_overlaps(s.area, area) {
        crate::layout::law_intersection_has(s.area, area, i, j);
    }
}

/// The characters that printing relative to an area puts down can be read
/// back, one after the other, from where printing starts.
pub proof fn law_print_reads_back(s: Screen, pos: Pos, text: Seq<char>, style: Style, area: Area, k: int)
    requires
        print_target(s.area, pos, area) matches Some((x0, y0, avail)) && 0 <= k < text.len() && k < avail,
    ensures
        cell(
            spec_print(s, pos, text, style, area),
            print_target(s.area, pos, area).unwrap().0 + k,
            print_target(s.area, pos, area).unwrap().1,
        ).content == text[k],
{
}

/// Putting a character relative to an area only changes a cell that lies
/// both in the paint area and in the given area.
pub proof fn law_putc_clipped(s: Screen, pos: Pos, c: StyledChar, area: Area, i: int, j: int)
    requires
        s.area.fits(),
        area.fits(),
        !(s.area.has(i, j) && area.has(i, j)),
    ensures
        cell(spec_putc(s, pos, c, area), i, j) == cell(s, i, j),
{
    if spec_overlaps(s.area, area) {
        crate::layout::law_intersection_has(s.area, area, i, j);
    }
}

/// Where justification puts a text of `text_width` cells in a `width` x
/// `height` area: left-justified text starts at the left edge,
/// right-justified text ends at the right edge, horizontally centred text
/// leaves a left margin that is the right margin or one less; top-justified
/// text is on the first row, bottom-justified text on the last, vertically
/// centred text leaves as many rows above it as below, or one fewer; an
/// explicit row or column is kept.
pub proof fn law_jpos_geometry(j: Justify, width: int, height: int, text_width: int)
    requires
        0 <= text_width <= width,
        1 <= height,
    ensures
        (j is Left || j is TopLeft || j is CenterLeft || j is BottomLeft) ==> spec_jpos(j, width, height, text_width).0 == 0,
        (j is Right || j is TopRight || j is CenterRight || j is BottomRight)
            ==> spec_jpos(j, width, height, text_width).0 + text_width == width,
        (j is HCenter || j is TopCenter || j is Center || j is BottomCenter) ==> {
            let left = spec_jpos(j, width, height, text_width).0;
            let right = width - text_width - left;
            0 <= left <= right <= left + 1
        },
        (j is Top || j is TopLeft || j is TopCenter || j is TopRight) ==> spec_jpos(j, width, height, text_width).1 == 0,
        (j is Bottom || j is BottomLeft || j is BottomCenter || j is BottomRight)
            ==> spec_jpos(j, width, height, text_width).1 == height - 1,
        (j is VCenter || j is CenterLeft || j is Center || j is CenterRight) ==> {
            let above = spec_jpos(j, width, height, text_width).1;
            let below = height - 1 - above;
            0 <= above <= below <= above + 1
        },
        j matches Justify::Left(y) ==> spec_jpos(j, width, height, text_width).1 == y,
        j matches Justify::HCenter(y) ==> spec_jpos(j, width, height, text_width).1 == y,
        j matches Justify::Right(y) ==> spec_jpos(j, width, height, text_width).1 == y,
        j matches Justify::Top(x) ==> spec_jpos(j, width, height, text_width).0 == x,
        j matches Justify::VCenter(x) ==> spec_jpos(j, width, height, text_width).0 == x,
        j matches Justify::Bottom(x) ==> spec_jpos(j, width, height, text_width).0 == x,
{
}

/// Justified printing puts the text down from the justified position in
/// the area clipped to the paint area, cut to that area's width.
pub proof fn law_jprint_reads_back(s: Screen, text: Seq<char>, style: Style, j: Justify, area: Area, k: int)
    requires
        s.area.fits(),
        area.fits(),
        justify_area(s.area, area) matches Some(a) && {
            let tw = spec_min(text.len() as int, a.width as int);
            let p = spec_jpos(j, a.width as int, a.height as int, tw);
            &&& 0 <= k < tw
            &&& 0 <= p.0 && p.0 + k < a.width
            &&& 0 <= p.1 < a.height
        },
    ensures
        ({
            let a = justify_area(s.area, area).unwrap();
            let tw = spec_min(text.len() as int, a.width as int);
            let p = spec_jpos(j, a.width as int, a.height as int, tw);
            cell(spec_jprint(s, text, style, j, area), a.x + p.0 + k, a.y + p.1).content == text[k]
        }),
{
    let a = justify_area(s.area, area).unwrap();
    lemma_intersection_inside(s.area, area);
    let tw = spec_min(text.len() as int, a.width as int);
    let p = spec_jpos(j, a.width as int, a.height as int, tw);
    let pos = Pos { x: p.0 as u16, y: p.1 as u16 };
    law_print_reads_back(s, pos, text.take(tw), style, a, k);
}

/// A justified character lands on the justified position in the area
/// clipped to the paint area.
pub proof fn law_jputc_reads_back(s: Screen, c: StyledChar, j: Justify, area: Area)
    requires
        s.area.fits(),
        area.fits(),
        justify_area(s.area, area) matches Some(a) && {
            let p = spec_jpos(j, a.width as int, a.height as int, 1);
            &&& 0 <= p.0 < a.width
            &&& 0 <= p.1 < a.height
        },
    ensures
        ({
            let a = justify_area(s.area, area).unwrap();
            let p = spec_jpos(j, a.width as int, a.height as int, 1);
            cell(spec_jputc(s, c, j, area), a.x + p.0, a.y + p.1).content == c.content
        }),
{
    lemma_intersection_inside(s.area, area);
}

/// Justified printing only changes cells that lie both in the paint area
/// and in the given area.
pub proof fn law_jprint_clipped(s: Screen, text: Seq<char>, style: Style, j: Justify, area: Area, i: int, k: int)
    requires
        s.area.fits(),
        area.fits(),
        !(s.area.has(i, k) && area.has(i, k)),
    ensures
        cell(spec_jprint(s, text, style, j, area), i, k) == cell(s, i, k),
{
    if let Some(a) = justify_area(s.area, area) {
        lemma_intersection_inside(s.area, area);
        crate::layout::law_intersection_has(s.area, area, i, k);
        let tw = spec_min(text.len() as int, a.width as int);
        let p = spec_jpos(j, a.width as int, a.height as int, tw);
        law_print_clipped(s, Pos { x: p.0 as u16, y: p.1 as u16 }, text.take(tw), style, a, i, k);
    }
}

} // verus!
