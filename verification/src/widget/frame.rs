//! A frame drawn around a widget.

use vstd::prelude::*;
use crate::layout::{Area, Pos};
use crate::render::{Draw, Render, Screen};
use crate::style::{Style, StyledChar, spec_default_style};
use crate::widget::Void;
use crate::widget::border::{self, border_inner, spec_border_frame, spec_border_inner};

verus! {

/// Configuration options for theming [`Frame`].
#[derive(Debug, Clone, Copy)]
pub struct Theme {
    pub top_left: StyledChar,
    pub top_right: StyledChar,
    pub bottom_right: StyledChar,
    pub bottom_left: StyledChar,
    pub top: StyledChar,
    pub right: StyledChar,
    pub bottom: StyledChar,
    pub left: StyledChar,
}

/// The default theme: every part is `'#'` with the default style.
pub open spec fn default_theme() -> Theme {
    let c = StyledChar { content: '#', style: spec_default_style() };
    Theme { top_left: c, top_right: c, bottom_right: c, bottom_left: c, top: c, right: c, bottom: c, left: c }
}

/// The same parts, as a border theme.
pub open spec fn border_theme(t: Theme) -> border::Theme {
    border::Theme {
        top_left: t.top_left,
        top_right: t.top_right,
        bottom_right: t.bottom_right,
        bottom_left: t.bottom_left,
        top: t.top,
        right: t.right,
        bottom: t.bottom,
        left: t.left,
    }
}

impl Theme {
    /// The default theme.
    pub fn default() -> (r: Self)
        ensures
            r == default_theme(),
    {
        let c = StyledChar { content: '#', style: Style::default() };
        Theme { top_left: c, top_right: c, bottom_right: c, bottom_left: c, top: c, right: c, bottom: c, left: c }
    }
}

impl Default for Theme {
    fn default() -> (r: Self)
        ensures
            r == default_theme(),
    {
        Theme::default()
    }
}

/// Adds a frame around the contained widget.
#[derive(Debug, Clone)]
pub struct Frame<T = Void> {
    pub theme: Theme,
    pub inner: T,
}

impl<T> Frame<T> {
    /// Creates a new `Frame` containing `inner`, with the default theme.
    pub fn new(inner: T) -> (r: Self)
        ensures
            r.inner == inner,
            r.theme == default_theme(),
    {
        Frame { inner, theme: Theme::default() }
    }

    /// Adjusts the theme of the `Frame`.
    pub fn theme(self, theme: Theme) -> (r: Self)
        ensures
            r.inner == self.inner,
            r.theme == theme,
    {
        Frame { theme, inner: self.inner }
    }
}

impl<T: Draw<R>, R: Render> Draw<R> for Frame<T> {
    open spec fn can_draw(&self, view: Area, area: Area) -> bool {
        area.width == 0 || area.height == 0 || (area.fits() && self.inner.can_draw(view, spec_border_inner(area)))
    }

    /// The sides, then the corners, then the contained widget inside.
    open spec fn drawn(&self, before: Screen, after: Screen, area: Area) -> bool {
        if area.width == 0 || area.height == 0 {
            after == before
        } else {
            self.inner.drawn(spec_border_frame(before, border_theme(self.theme), area), after, spec_border_inner(area))
        }
    }

    fn draw(&self, buf: &mut R, area: Area) {
        if area.is_collapsed() {
            return;
        }
        let top_left = area.top_left();
        let top_right = area.top_right().sub_x(1);
        let bottom_left = area.bottom_left().sub_y(1);
        let bottom_right = area.bottom_right().sub(Pos { x: 1, y: 1 });

        buf.hfill(top_left, self.theme.top, area.width as usize);
        buf.hfill(bottom_left, self.theme.bottom, area.width as usize);
        buf.vfill(top_left, self.theme.left, area.height as usize);
        buf.vfill(top_right, self.theme.right, area.height as usize);

        buf.putc_abs(top_left, self.theme.top_left);
        buf.putc_abs(top_right, self.theme.top_right);
        buf.putc_abs(bottom_left, self.theme.bottom_left);
        buf.putc_abs(bottom_right, self.theme.bottom_right);

        let inner_area = border_inner(area);
        self.inner.draw(buf, inner_area);
    }
}

} // verus!
