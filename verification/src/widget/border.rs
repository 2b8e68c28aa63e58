//! A border around a widget.

use vstd::prelude::*;
use crate::layout::{Area, Dim, Pos, Proportional, Proportions, Range, spec_add_hi, spec_range_add};
use crate::render::{Draw, Render, Screen, spec_hfill, spec_vfill, spec_putc_abs};
use crate::style::{Style, StyledChar, spec_default_style};

verus! {

/// Configuration options for theming [`Border`].
#[derive(Debug, Clone, Copy)]
pub struct Theme {
    pub top_left: StyledChar,
    pub top_right: StyledChar,
    pub bottom_right: StyledChar,
    pub bottom_left: StyledChar,
    pub top: StyledChar,
    pub right: StyledChar,
    pub bottom: StyledChar,
    pub left: StyledChar,
}

/// The default theme: every part is `'#'` with the default style.
pub open spec fn default_theme() -> Theme {
    let c = StyledChar { content: '#', style: spec_default_style() };
    Theme { top_left: c, top_right: c, bottom_right: c, bottom_left: c, top: c, right: c, bottom: c, left: c }
}

impl Theme {
    /// The default theme.
    pub fn default() -> (r: Self)
        ensures
            r == default_theme(),
    {
        let c = StyledChar { content: '#', style: Style::default() };
        Theme { top_left: c, top_right: c, bottom_right: c, bottom_left: c, top: c, right: c, bottom: c, left: c }
    }
}

impl Default for Theme {
    fn default() -> (r: Self)
        ensures
            r == default_theme(),
    {
        Theme::default()
    }
}

/// Adds a border around the contained widget.
#[derive(Debug, Clone)]
pub struct Border<T> {
    pub theme: Theme,
    pub inner: T,
}

/// The border drawn around `area`: the four sides, then the four corners.
pub open spec fn spec_border_frame(s: Screen, theme: Theme, area: Area) -> Screen {
    let tl = Pos { x: area.x, y: area.y };
    let tr = Pos { x: (area.x + area.width - 1) as u16, y: area.y };
    let bl = Pos { x: area.x, y: (area.y + area.height - 1) as u16 };
    let br = Pos { x: (area.x + area.width - 1) as u16, y: (area.y + area.height - 1) as u16 };
    let s1 = spec_hfill(s, tl, theme.top, area.width as int);
    let s2 = spec_hfill(s1, bl, theme.bottom, area.width as int);
    let s3 = spec_vfill(s2, tl, theme.left, area.height as int);
    let s4 = spec_vfill(s3, tr, theme.right, area.height as int);
    let s5 = spec_putc_abs(s4, tl, theme.top_left);
    let s6 = spec_putc_abs(s5, tr, theme.top_right);
    let s7 = spec_putc_abs(s6, bl, theme.bottom_left);
    spec_putc_abs(s7, br, theme.bottom_right)
}

/// The area inside a border around `area`: one cell in from each side, or
/// an empty area at `[x + 1, y + 1]` when `area` is too small.
pub open spec fn spec_border_inner(area: Area) -> Area {
    if area.width >= 2 && area.height >= 2 {
        Area {
            x: (area.x + 1) as u16,
            y: (area.y + 1) as u16,
            width: (area.width - 2) as u16,
            height: (area.height - 2) as u16,
        }
    } else {
        Area { x: (area.x + 1) as u16, y: (area.y + 1) as u16, width: 0, height: 0 }
    }
}

/// The area inside a border around `area`.
pub fn border_inner(area: Area) -> (r: Area)
    requires
        area.width > 0,
        area.height > 0,
        area.fits(),
    ensures
        r == spec_border_inner(area),
{
    if area.width >= 2 && area.height >= 2 {
        area.inset(1)
    } else {
        Area { x: area.x + 1, y: area.y + 1, width: 0, height: 0 }
    }
}

impl<T> Border<T> {
    /// Wraps `inner` in a `Border` with the default theme.
    pub fn new(inner: T) -> (r: Self)
        ensures
            r.inner == inner,
            r.theme == default_theme(),
    {
        Border { inner, theme: Theme::default() }
    }

    /// Adjusts the theme of the `Border`.
    pub fn theme(self, theme: Theme) -> (r: Self)
        ensures
            r.inner == self.inner,
            r.theme == theme,
    {
        Border { theme, inner: self.inner }
    }
}

impl<T: Draw<R>, R: Render> Draw<R> for Border<T> {
    open spec fn can_draw(&self, view: Area, area: Area) -> bool {
        area.width == 0 || area.height == 0 || (area.fits() && self.inner.can_draw(view, spec_border_inner(area)))
    }

    open spec fn drawn(&self, before: Screen, after: Screen, area: Area) -> bool {
        if area.width == 0 || area.height == 0 {
            after == before
        } else {
            self.inner.drawn(spec_border_frame(before, self.theme, area), after, spec_border_inner(area))
        }
    }

    fn draw(&self, buf: &mut R, area: Area) {
        if area.is_collapsed() {
            return;
        }
        let top_left = area.top_left();
        let top_right = area.top_right().sub_x(1);
        let bottom_left = area.bottom_left().sub_y(1);
        let bottom_right = area.bottom_right().sub(Pos { x: 1, y: 1 });

        buf.hfill(top_left, self.theme.top, area.width as usize);
        buf.hfill(bottom_left, self.theme.bottom, area.width as usize);
        buf.vfill(top_left, self.theme.left, area.height as usize);
        buf.vfill(top_right, self.theme.right, area.height as usize);

        buf.putc_abs(top_left, self.theme.top_left);
        buf.putc_abs(top_right, self.theme.top_right);
        buf.putc_abs(bottom_left, self.theme.bottom_left);
        buf.putc_abs(bottom_right, self.theme.bottom_right);

        let inner_area = border_inner(area);
        self.inner.draw(buf, inner_area);
    }
}

/// The proportions `p` grown by `w` columns and `h` rows stay representable.
pub open spec fn can_grow(p: Proportions, w: int, h: int) -> bool {
    &&& p.width.lo() + w <= u16::MAX
    &&& (p.width.hi() matches Some(m) ==> m + w <= u16::MAX)
    &&& p.height.lo() + h <= u16::MAX
    &&& (p.height.hi() matches Some(m) ==> m + h <= u16::MAX)
}

impl<T: Proportional> Proportional for Border<T> {
    open spec fn props(&self) -> Proportions {
        Proportions {
            width: spec_range_add(self.inner.props().width, Range::fixed_spec(2)),
            height: spec_range_add(self.inner.props().height, Range::fixed_spec(2)),
        }
    }

    open spec fn has_props(&self) -> bool {
        self.inner.has_props() && can_grow(self.inner.props(), 2, 2)
    }

    fn proportions(&self) -> (r: Proportions) {
        let p = self.inner.proportions();
        proof {
            Range::lemma_named_ranges(2);
        }
        p.add(Proportions::fixed(Dim { width: 2, height: 2 }))
    }
}

} // verus!
