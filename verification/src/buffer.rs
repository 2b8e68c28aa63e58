//! A cell buffer that widgets render into.

use vstd::prelude::*;
use crate::layout::{Area, Justify, Pos, spec_overlaps, spec_intersection, lemma_intersection_inside};
use crate::style::{Style, StyledChar, StyledStr, AsStyledStr, spec_merge, spec_default_style, ascii_prefix};
use crate::render::{Render, Screen, Cursor, cell, blank, spec_set_char, spec_put_row, spec_clear, spec_cursor_hidden, spec_move_cursor};
use crate::render::spec_jpos;
use crate::util::{offset, spec_offset, lemma_offset_bounds, lemma_offset_injective, min_usize, spec_min};

verus! {

/// Versatile container-agnostic buffer that can be used for painting
/// widgets: `width` x `height` cells stored row by row.
#[derive(Debug)]
pub struct Buffer {
    width: u16,
    height: u16,
    chars: Vec<char>,
    styles: Vec<Style>,
    cursor: Cursor,
}

impl Buffer {
    /// The stored cell `[x, y]`.
    pub closed spec fn stored(self, x: int, y: int) -> StyledChar {
        let k = spec_offset(x, y, self.width as int);
        StyledChar { content: self.chars@[k], style: self.styles@[k] }
    }

    /// The character storage.
    pub closed spec fn chars_view(self) -> Seq<char> {
        self.chars@
    }

    /// The style storage.
    pub closed spec fn styles_view(self) -> Seq<Style> {
        self.styles@
    }

    /// The storage sizes of the screen are those of the character and style
    /// stores, which a valid buffer has room for all its cells in.
    pub proof fn lemma_storage(self)
        ensures
            self.screen().storage == (self.chars_view().len(), self.styles_view().len()),
            self.valid() ==> self.chars_view().len() >= self.screen().area.width * self.screen().area.height,
            self.valid() ==> self.styles_view().len() >= self.screen().area.width * self.screen().area.height,
    {
    }

    /// A cell inside the area is the stored one.
    pub proof fn lemma_stored(self, x: int, y: int)
        requires
            0 <= x < self.screen().area.width,
            0 <= y < self.screen().area.height,
        ensures
            cell(self.screen(), x, y) == (StyledChar {
                content: self.chars_view()[spec_offset(x, y, self.screen().area.width as int)],
                style: self.styles_view()[spec_offset(x, y, self.screen().area.width as int)],
            }),
    {
    }

    /// Creates a new `Buffer` over the given storage, which holds at least
    /// `width * height` cells, with the given cursor.
    pub fn new(width: u16, height: u16, chars: Vec<char>, styles: Vec<Style>, cursor: Cursor) -> (r: Self)
        requires
            chars@.len() >= width * height,
            styles@.len() >= width * height,
        ensures
            r.valid(),
            r.screen().area == (Area { x: 0, y: 0, width, height }),
            r.screen().cursor == cursor,
            r.chars_view() == chars@,
            r.styles_view() == styles@,
    {
        Buffer { width, height, chars, styles, cursor }
    }

    /// Gives the storage back.
    pub fn into_parts(self) -> (r: (Vec<char>, Vec<Style>, Cursor))
        ensures
            r.0@ == self.chars_view(),
            r.1@ == self.styles_view(),
            r.2 == self.screen().cursor,
    {
        (self.chars, self.styles, self.cursor)
    }

    /// The width in cells.
    pub fn width(&self) -> (r: u16)
        ensures
            r == self.screen().area.width,
    {
        self.width
    }

    /// The height in cells.
    pub fn height(&self) -> (r: u16)
        ensures
            r == self.screen().area.height,
    {
        self.height
    }

    /// The cursor.
    pub fn cursor(&self) -> (r: Cursor)
        ensures
            r == self.screen().cursor,
    {
        self.cursor
    }

    /// Reads the cell `[x, y]`.
    pub fn get(&self, x: u16, y: u16) -> (r: StyledChar)
        requires
            self.valid(),
            x < self.screen().area.width,
            y < self.screen().area.height,
        ensures
            r == cell(self.screen(), x as int, y as int),
    {
        let _len = self.chars.len();
        proof {
            lemma_offset_bounds(x as int, y as int, self.width as int, self.height as int);
        }
        let k = offset(x as usize, y as usize, self.width as usize);
        StyledChar { content: self.chars[k], style: self.styles[k] }
    }

    /// Overwrites the cell `[x, y]`, merging `style` onto its style.
    fn write_cell(&mut self, x: u16, y: u16, content: char, style: Style)
        requires
            old(self).valid(),
            x < old(self).width,
            y < old(self).height,
        ensures
            final(self).valid(),
            final(self).screen() == spec_set_char(old(self).screen(), x as int, y as int, StyledChar { content, style }),
    {
        let ghost s0 = self.screen();
        let _len = self.chars.len();
        proof {
            lemma_offset_bounds(x as int, y as int, self.width as int, self.height as int);
        }
        let k = offset(x as usize, y as usize, self.width as usize);
        self.chars.set(k, content);
        let merged = self.styles[k].merge(style);
        self.styles.set(k, merged);
        proof {
            let w = self.width as int;
            let h = self.height as int;
            let target = spec_set_char(s0, x as int, y as int, StyledChar { content, style });
            assert forall|i: int, j: int| #[trigger] (self.screen().cells)(i, j) == (target.cells)(i, j) by {
                if 0 <= i < w && 0 <= j < h && !(i == x && j == y) {
                    lemma_offset_bounds(i, j, w, h);
                    if spec_offset(i, j, w) == spec_offset(x as int, y as int, w) {
                        lemma_offset_injective(i, j, x as int, y as int, w);
                    }
                }
            }
            assert(self.screen() =~= spec_set_char(s0, x as int, y as int, StyledChar { content, style }));
        }
    }
}

/// The clipped area that printing within `area` uses, and how many cells
/// are left from column `x` to its right edge, when `[x, y]` lies in it.
pub open spec fn printa_target(view: Area, x: int, y: int, area: Area) -> Option<int> {
    if !spec_overlaps(area, view) {
        None
    } else {
        let a = spec_intersection(view, area);
        if a.width == 0 || a.height == 0 || !a.has(x, y) { None } else { Some(a.x + a.width - x) }
    }
}

/// `text` printed at the absolute position `[x, y]`, cut at the right edge of
/// `area` clipped to the paint area; nothing when `[x, y]` is outside.
pub open spec fn spec_printa(s: Screen, x: int, y: int, text: Seq<char>, style: Style, area: Area) -> Screen {
    match printa_target(s.area, x, y, area) {
        None => s,
        Some(avail) => spec_put_row(s, x, y, text.take(spec_min(text.len() as int, avail)), style),
    }
}

/// The justifications whose position depends on the width of the text.
pub open spec fn jpos_uses_width(j: Justify) -> bool {
    match j {
        Justify::HCenter(_) | Justify::Right(_) | Justify::TopCenter | Justify::TopRight | Justify::Center
        | Justify::CenterRight | Justify::BottomCenter | Justify::BottomRight => true,
        _ => false,
    }
}

/// Where [`Buffer::printj`] prints, absolutely, in the clipped area `a`,
/// for a text of `text_len` characters.
pub open spec fn printj_pos(j: Justify, a: Area, text_len: int) -> (int, int) {
    let p = spec_jpos(j, a.width as int, a.height as int, text_len);
    (a.x + p.0, a.y + p.1)
}

/// `text` justified by `j` in `area` clipped to the paint area: it is cut
/// to the area's width and printed from the justified position, cut at the
/// right edge of the paint area.
pub open spec fn spec_printj(s: Screen, text: Seq<char>, style: Style, j: Justify, area: Area) -> Screen {
    if !spec_overlaps(s.area, area) {
        s
    } else {
        let a = spec_intersection(s.area, area);
        if a.width == 0 || a.height == 0 {
            s
        } else {
            let p = printj_pos(j, a, text.len() as int);
            spec_printa(s, p.0, p.1, text.take(spec_min(text.len() as int, a.width as int)), style, s.area)
        }
    }
}

/// The cursor column after advancing by `steps`, or `None` when it would
/// leave the row.
pub open spec fn spec_advance(x: int, width: int, steps: int) -> Option<int> {
    if steps < 0 {
        if -steps > x { None } else { Some(x + steps) }
    } else if steps + x >= width {
        None
    } else {
        Some(x + steps)
    }
}

/// `x` read as a signed 16-bit number.
pub open spec fn as_i16(x: u16) -> int {
    if x < 0x8000 { x as int } else { x - 0x10000 }
}

impl Buffer {
    /// Prints `text` at the absolute position `[x, y]`, within `area`
    /// clipped to the paint area: nothing happens when `[x, y]` is outside
    /// it, and the text is cut at its right edge.
    pub fn printa<S: AsStyledStr>(&mut self, x: u16, y: u16, text: S, area: Area)
        requires
            old(self).valid(),
            area.fits(),
            printa_target(old(self).screen().area, x as int, y as int, area) matches Some(avail)
                ==> ascii_prefix(text.text_view(), avail),
        ensures
            final(self).valid(),
            final(self).screen().area == old(self).screen().area,
            final(self).screen() == spec_printa(old(self).screen(), x as int, y as int, text.text_view(), text.style_view(), area),
    {
        let view = self.area();
        if !area.overlaps(view) {
            return;
        }
        proof {
            crate::layout::law_overlaps_symmetric(area, view);
        }
        let a = view.intersection(area);
        proof {
            lemma_intersection_inside(view, area);
        }
        if a.is_collapsed() {
            return;
        }
        if !a.contains_pos(Pos { x, y }) {
            return;
        }
        let text = text.as_styled_str();
        let right_end = a.x as usize + a.width as usize;
        let print_width = min_usize(text.content.unicode_len(), right_end - x as usize);
        let part = text.slice_chars(0, print_width);
        proof {
            assert(ascii_prefix(part.content@, part.content@.len() as int));
        }
        self.set_str(Pos { x, y }, part);
    }

    /// Prints `text` at the absolute position `[x, y]`, cut at the right
    /// edge of the paint area.
    pub fn print_at<S: AsStyledStr>(&mut self, x: u16, y: u16, text: S)
        requires
            old(self).valid(),
            printa_target(old(self).screen().area, x as int, y as int, old(self).screen().area) matches Some(avail)
                ==> ascii_prefix(text.text_view(), avail),
        ensures
            final(self).valid(),
            final(self).screen().area == old(self).screen().area,
            final(self).screen() == spec_printa(old(self).screen(), x as int, y as int, text.text_view(), text.style_view(), old(self).screen().area),
    {
        let view = self.area();
        self.printa(x, y, text, view);
    }

    /// Prints `text` justified by `j` in `area` (clipped to the paint
    /// area). The text is cut to the area's width; where the justification
    /// depends on the text's width, the text must fit in the area.
    pub fn printj<S: AsStyledStr>(&mut self, text: S, j: Justify, area: Area)
        requires
            old(self).valid(),
            area.fits(),
            spec_overlaps(old(self).screen().area, area) ==> {
                let a = spec_intersection(old(self).screen().area, area);
                let p = printj_pos(j, a, text.text_view().len() as int);
                a.width > 0 && a.height > 0 ==> {
                    &&& jpos_uses_width(j) ==> text.text_view().len() <= a.width
                    &&& p.0 <= u16::MAX
                    &&& p.1 <= u16::MAX
                    &&& ascii_prefix(text.text_view(), a.width as int)
                }
            },
        ensures
            final(self).valid(),
            final(self).screen().area == old(self).screen().area,
            final(self).screen() == spec_printj(old(self).screen(), text.text_view(), text.style_view(), j, area),
    {
        let view = self.area();
        if !view.overlaps(area) {
            return;
        }
        let a = view.intersection(area);
        proof {
            lemma_intersection_inside(view, area);
        }
        if a.is_collapsed() {
            return;
        }
        let text = text.as_styled_str();
        let text_width = text.content.unicode_len();
        let shown = min_usize(text_width, a.width as usize);
        let part = text.slice_chars(0, shown);
        let uses = match j {
            Justify::HCenter(_) | Justify::Right(_) | Justify::TopCenter | Justify::TopRight | Justify::Center
            | Justify::CenterRight | Justify::BottomCenter | Justify::BottomRight => true,
            _ => false,
        };
        let room: u16 = if uses { (a.width as usize - text_width) as u16 } else { 0 };
        let hc = room / 2;
        let vc = a.height.saturating_sub(1) / 2;
        let b = a.height.saturating_sub(1);
        let rel = match j {
            Justify::Left(y) => Pos { x: 0, y },
            Justify::HCenter(y) => Pos { x: hc, y },
            Justify::Right(y) => Pos { x: room, y },
            Justify::Top(x) => Pos { x, y: 0 },
            Justify::VCenter(x) => Pos { x, y: vc },
            Justify::Bottom(x) => Pos { x, y: b },
            Justify::TopLeft => Pos { x: 0, y: 0 },
            Justify::TopCenter => Pos { x: hc, y: 0 },
            Justify::TopRight => Pos { x: room, y: 0 },
            Justify::CenterLeft => Pos { x: 0, y: vc },
            Justify::Center => Pos { x: hc, y: vc },
            Justify::CenterRight => Pos { x: room, y: vc },
            Justify::BottomLeft => Pos { x: 0, y: b },
            Justify::BottomCenter => Pos { x: hc, y: b },
            Justify::BottomRight => Pos { x: room, y: b },
        };
        proof {
            let p = spec_jpos(j, a.width as int, a.height as int, text_width as int);
            assert(rel.x == p.0 && rel.y == p.1);
        }
        self.print_at(a.x + rel.x, a.y + rel.y, part);
    }

    /// Moves the cursor by `steps` columns along its row; nothing happens
    /// when it would leave the row.
    pub fn advance_cursor(&mut self, steps: i16)
        requires
            old(self).valid(),
            steps > i16::MIN,
            steps >= 0 ==> steps + old(self).screen().cursor.x <= u16::MAX,
            spec_advance(old(self).screen().cursor.x as int, old(self).screen().area.width as int, steps as int) is Some
                ==> i16::MIN <= as_i16(old(self).screen().cursor.x) + steps <= i16::MAX,
        ensures
            final(self).valid(),
            final(self).screen().area == old(self).screen().area,
            final(self).screen() == (match spec_advance(
                old(self).screen().cursor.x as int,
                old(self).screen().area.width as int,
                steps as int,
            ) {
                None => old(self).screen(),
                Some(nx) => Screen { cursor: Cursor { x: nx as u16, ..old(self).screen().cursor }, ..old(self).screen() },
            }),
    {
        let x = self.cursor.x;
        if steps < 0 {
            let back = (-steps) as u16;
            if back > x {
                return;
            }
            self.cursor.x = x - back;
        } else {
            if steps as u16 + x >= self.width {
                return;
            }
            self.cursor.x = x + steps as u16;
        }
        proof {
            assert(self.screen() =~= Screen { cursor: Cursor { x: self.cursor.x, ..old(self).screen().cursor }, ..old(self).screen() });
        }
    }
}

impl Render for Buffer {
    closed spec fn screen(&self) -> Screen {
        Screen {
            area: Area { x: 0, y: 0, width: self.width, height: self.height },
            cells: |i: int, j: int|
                if 0 <= i < self.width && 0 <= j < self.height { self.stored(i, j) } else { blank() },
            cursor: self.cursor,
            storage: (self.chars@.len(), self.styles@.len()),
        }
    }

    closed spec fn valid(&self) -> bool {
        &&& self.chars@.len() >= self.width * self.height
        &&& self.styles@.len() >= self.width * self.height
    }

    proof fn lemma_origin(&self) {
    }

    fn area(&self) -> (r: Area) {
        Area { x: 0, y: 0, width: self.width, height: self.height }
    }

    fn set_str(&mut self, pos: Pos, text: StyledStr) {
        let ghost s0 = self.screen();
        let n = text.content.unicode_len();
        proof {
            assert(s0 =~= spec_put_row(s0, pos.x as int, pos.y as int, text.content@.take(0), text.style));
        }
        let mut i: usize = 0;
        while i < n
            invariant
                self.valid(),
                i <= n,
                n == text.content@.len(),
                pos.x + n <= self.width,
                pos.y < self.height,
                s0.area == self.screen().area,
                self.screen() == spec_put_row(s0, pos.x as int, pos.y as int, text.content@.take(i as int), text.style),
            decreases n - i,
        {
            let ch = text.content.get_char(i);
            self.write_cell(pos.x + i as u16, pos.y, ch, text.style);
            proof {
                assert(self.screen() =~= spec_put_row(s0, pos.x as int, pos.y as int, text.content@.take(i + 1), text.style));
            }
            i += 1;
        }
        proof {
            assert(text.content@.take(n as int) =~= text.content@);
        }
    }

    fn set_char(&mut self, pos: Pos, c: StyledChar) {
        self.write_cell(pos.x, pos.y, c.content, c.style);
        proof {
            assert(StyledChar { content: c.content, style: c.style } == c);
        }
    }

    fn clear(&mut self)
        ensures
            final(self).chars_view().len() == old(self).chars_view().len(),
            final(self).styles_view().len() == old(self).styles_view().len(),
    {
        let ghost s0 = self.screen();
        let ghost slen0 = self.styles@.len();
        let len = self.chars.len();
        let mut k: usize = 0;
        while k < len
            invariant
                self.valid(),
                len == self.chars@.len(),
                slen0 == self.styles@.len(),
                k <= len,
                self.width == s0.area.width,
                self.height == s0.area.height,
                forall|m: int| 0 <= m < k ==> self.chars@[m] == ' ',
            decreases len - k,
        {
            self.chars.set(k, ' ');
            k += 1;
        }
        let slen = self.styles.len();
        let mut k: usize = 0;
        while k < slen
            invariant
                self.valid(),
                slen == self.styles@.len(),
                len == self.chars@.len(),
                k <= slen,
                self.width == s0.area.width,
                self.height == s0.area.height,
                forall|m: int| 0 <= m < len ==> self.chars@[m] == ' ',
                forall|m: int| 0 <= m < k ==> self.styles@[m] == spec_default_style(),
            decreases slen - k,
        {
            self.styles.set(k, Style::default());
            k += 1;
        }
        self.cursor = Cursor { x: 0, y: 0, hidden: true };
        proof {
            let w = self.width as int;
            let h = self.height as int;
            let target = spec_clear(s0);
            assert forall|i: int, j: int| #[trigger] (self.screen().cells)(i, j) == (target.cells)(i, j) by {
                if 0 <= i < w && 0 <= j < h {
                    lemma_offset_bounds(i, j, w, h);
                }
            }
            assert(self.screen() =~= spec_clear(s0));
        }
    }

    fn show_cursor(&mut self) {
        self.cursor.hidden = false;
        proof {
            assert(self.screen() =~= spec_cursor_hidden(old(self).screen(), false));
        }
    }

    fn hide_cursor(&mut self) {
        self.cursor.hidden = true;
        proof {
            assert(self.screen() =~= spec_cursor_hidden(old(self).screen(), true));
        }
    }

    fn move_cursor(&mut self, pos: Pos) {
        if pos.x >= self.width || pos.y >= self.height {
            return;
        }
        self.cursor.x = pos.x;
        self.cursor.y = pos.y;
        proof {
            assert(self.screen() =~= spec_move_cursor(old(self).screen(), pos));
        }
    }
}

} // verus!
