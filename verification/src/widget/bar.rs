//! Horizontal and vertical bars.

use vstd::prelude::*;
use crate::layout::{Area, Pos, Proportional, Proportions, Range};
use crate::render::{Draw, Render, Screen, spec_hfill, spec_vfill, spec_putc_abs};
use crate::style::{Style, StyledChar, spec_default_style};

verus! {

/// Configuration options for theming [`HorizBar`] and [`VertBar`].
#[derive(Debug, Clone, Copy)]
pub struct Theme {
    pub beg: StyledChar,
    pub end: StyledChar,
    pub body: StyledChar,
}

/// The default theme: every part is `'\0'` with the default style.
pub open spec fn default_theme() -> Theme {
    let c = StyledChar { content: '\0', style: spec_default_style() };
    Theme { beg: c, end: c, body: c }
}

impl Theme {
    /// The default theme.
    pub fn default() -> (r: Self)
        ensures
            r == default_theme(),
    {
        let c = StyledChar { content: '\0', style: Style::default() };
        Theme { beg: c, end: c, body: c }
    }
}

impl Default for Theme {
    fn default() -> (r: Self)
        ensures
            r == default_theme(),
    {
        Theme::default()
    }
}

/// Draws a horizontal bar starting at the top-left corner of the paint area
/// and spanning the full width of the paint area.
#[derive(Debug, Clone)]
pub struct HorizBar {
    pub theme: Theme,
}

/// What drawing a horizontal bar with `theme` into `area` does: the top row
/// is filled with the body, then the first and last cells get the ends.
pub open spec fn spec_horiz_bar(s: Screen, theme: Theme, area: Area) -> Screen {
    if area.width == 0 || area.height == 0 {
        s
    } else {
        let tl = Pos { x: area.x, y: area.y };
        let s1 = spec_hfill(s, tl, theme.body, area.width as int);
        let s2 = spec_putc_abs(s1, tl, theme.beg);
        spec_putc_abs(s2, Pos { x: (area.x + area.width - 1) as u16, y: area.y }, theme.end)
    }
}

/// What drawing a vertical bar with `theme` into `area` does: the left
/// column is filled with the body, then the first and last cells get the ends.
pub open spec fn spec_vert_bar(s: Screen, theme: Theme, area: Area) -> Screen {
    if area.width == 0 || area.height == 0 {
        s
    } else {
        let tl = Pos { x: area.x, y: area.y };
        let s1 = spec_vfill(s, tl, theme.body, area.height as int);
        let s2 = spec_putc_abs(s1, tl, theme.beg);
        spec_putc_abs(s2, Pos { x: area.x, y: (area.y + area.height - 1) as u16 }, theme.end)
    }
}

impl HorizBar {
    /// Creates a new `HorizBar`.
    pub fn new() -> (r: Self)
        ensures
            r.theme == default_theme(),
    {
        HorizBar { theme: Theme::default() }
    }

    /// Adjusts the theme of the `HorizBar`.
    pub fn theme(self, theme: Theme) -> (r: Self)
        ensures
            r.theme == theme,
    {
        HorizBar { theme }
    }
}

impl Default for HorizBar {
    fn default() -> (r: Self)
        ensures
            r.theme == default_theme(),
    {
        HorizBar::new()
    }
}

impl<R: Render> Draw<R> for HorizBar {
    open spec fn can_draw(&self, view: Area, area: Area) -> bool {
        area.width == 0 || area.height == 0 || area.x + area.width <= u16::MAX
    }

    open spec fn drawn(&self, before: Screen, after: Screen, area: Area) -> bool {
        after == spec_horiz_bar(before, self.theme, area)
    }

    fn draw(&self, buf: &mut R, area: Area) {
        if area.is_collapsed() {
            return;
        }
        let top_left = area.top_left();
        buf.hfill(top_left, self.theme.body, area.width as usize);
        buf.putc_abs(top_left, self.theme.beg);
        buf.putc_abs(area.top_right().sub_x(1), self.theme.end);
    }
}

impl Proportional for HorizBar {
    open spec fn props(&self) -> Proportions {
        Proportions { width: Range::flexible_spec(), height: Range::fixed_spec(1) }
    }

    open spec fn has_props(&self) -> bool {
        true
    }

    fn proportions(&self) -> (r: Proportions) {
        Proportions { width: Range::flexible(), height: Range::fixed(1) }
    }
}

/// Draws a vertical bar starting at the top-left corner of the render area
/// and spanning the full height of the render area.
#[derive(Debug, Clone)]
pub struct VertBar {
    pub theme: Theme,
}

impl VertBar {
    /// Creates a new `VertBar`.
    pub fn new() -> (r: Self)
        ensures
            r.theme == default_theme(),
    {
        VertBar { theme: Theme::default() }
    }

    /// Adjusts the theme of the `VertBar`.
    pub fn theme(self, theme: Theme) -> (r: Self)
        ensures
            r.theme == theme,
    {
        VertBar { theme }
    }
}

impl Default for VertBar {
    fn default() -> (r: Self)
        ensures
            r.theme == default_theme(),
    {
        VertBar::new()
    }
}

impl<R: Render> Draw<R> for VertBar {
    open spec fn can_draw(&self, view: Area, area: Area) -> bool {
        area.width == 0 || area.height == 0 || area.y + area.height <= u16::MAX
    }

    open spec fn drawn(&self, before: Screen, after: Screen, area: Area) -> bool {
        after == spec_vert_bar(before, self.theme, area)
    }

    fn draw(&self, buf: &mut R, area: Area) {
        if area.is_collapsed() {
            return;
        }
        let top_left = area.top_left();
        buf.vfill(top_left, self.theme.body, area.height as usize);
        buf.putc_abs(top_left, self.theme.beg);
        buf.putc_abs(area.bottom_left().sub_y(1), self.theme.end);
    }
}

impl Proportional for VertBar {
    open spec fn props(&self) -> Proportions {
        Proportions { width: Range::fixed_spec(1), height: Range::flexible_spec() }
    }

    open spec fn has_props(&self) -> bool {
        true
    }

    fn proportions(&self) -> (r: Proportions) {
        Proportions { width: Range::fixed(1), height: Range::flexible() }
    }
}

} // verus!
