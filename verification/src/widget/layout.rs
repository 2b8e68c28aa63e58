//! Layout widgets: sizing, alignment, padding and fallbacks.

use vstd::prelude::*;
use crate::layout::{
    Alignment, Area, Dim, Pos, Proportional, Proportions, Range, align_fits, spec_align_pos,
    spec_fit_into, spec_range_add,
};
use crate::render::{Draw, Render, Screen};
use crate::widget::Void;
use crate::widget::border::can_grow;

verus! {

/// The dimensions that fitting `d` into `p` yields, whether or not every
/// minimum is met.
pub open spec fn spec_fit_dim(d: Dim, p: Proportions) -> Dim {
    match spec_fit_into(d, p) {
        Ok(x) => x,
        Err(x) => x,
    }
}

/// The dimensions `d` fitted into `p` (the best attempt when they do not fit).
pub fn fit_dim(d: Dim, p: Proportions) -> (r: Dim)
    ensures
        r == spec_fit_dim(d, p),
{
    match d.fit_into(p) {
        Ok(x) => x,
        Err(x) => x,
    }
}

/// Renders the wrapped widget in the smallest area possible.
#[derive(Debug, Clone)]
pub struct Min<T: Proportional>(pub T);

/// The collapsed proportions of `p`.
pub open spec fn spec_collapse(p: Proportions) -> Proportions {
    Proportions {
        width: Range::fixed_spec(p.width.lo()),
        height: Range::fixed_spec(p.height.lo()),
    }
}

/// The expanded proportions of `p`.
pub open spec fn spec_expand(p: Proportions) -> Proportions {
    Proportions {
        width: Range::from_spec(p.width.lo()),
        height: Range::from_spec(p.height.lo()),
    }
}

/// The area a [`Min`] gives its widget of proportions `p` in `area`.
pub open spec fn spec_min_area(p: Proportions, area: Area) -> Area {
    let d = spec_fit_dim(Dim { width: area.width, height: area.height }, spec_collapse(p));
    Area { x: area.x, y: area.y, width: d.width, height: d.height }
}

impl<T: Proportional> Proportional for Min<T> {
    open spec fn props(&self) -> Proportions {
        spec_collapse(self.0.props())
    }

    open spec fn has_props(&self) -> bool {
        self.0.has_props()
    }

    fn proportions(&self) -> (r: Proportions) {
        let r = self.0.proportions().collapse();
        proof {
            Range::lemma_named_ranges(r.width.lo());
            Range::lemma_view_eq(r.width, Range::fixed_spec(r.width.lo()));
            Range::lemma_named_ranges(r.height.lo());
            Range::lemma_view_eq(r.height, Range::fixed_spec(r.height.lo()));
        }
        r
    }
}

impl<T: Draw<R> + Proportional, R: Render> Draw<R> for Min<T> {
    open spec fn can_draw(&self, view: Area, area: Area) -> bool {
        self.0.has_props() && self.0.can_draw(view, spec_min_area(self.0.props(), area))
    }

    open spec fn drawn(&self, before: Screen, after: Screen, area: Area) -> bool {
        self.0.drawn(before, after, spec_min_area(self.0.props(), area))
    }

    fn draw(&self, buf: &mut R, area: Area) {
        let dim = fit_dim(area.dimensions(), self.proportions());
        self.0.draw(buf, Area::from_parts(area.top_left(), dim));
    }
}

/// Align the contained widget based on `alignment`.
#[derive(Debug, Clone)]
pub struct Align<T: Proportional> {
    pub inner: T,
    pub alignment: Alignment,
}

/// The area an aligned widget of proportions `p` gets in `area`: as large
/// as `p` allows within `area`, placed by `alignment`.
pub open spec fn spec_aligned_area(p: Proportions, area: Area, alignment: Alignment) -> Area {
    let d = spec_fit_dim(Dim { width: area.width, height: area.height }, p);
    let pos = spec_align_pos(d.width as int, d.height as int, area, alignment);
    Area { x: pos.0 as u16, y: pos.1 as u16, width: d.width, height: d.height }
}

/// Draws `inner` aligned by `alignment` in `area`.
fn draw_aligned<T: Draw<R> + Proportional, R: Render>(inner: &T, buf: &mut R, area: Area, alignment: Alignment)
    requires
        old(buf).valid(),
        inner.has_props(),
        align_fits(area, alignment),
        inner.can_draw(old(buf).screen().area, spec_aligned_area(inner.props(), area, alignment)),
    ensures
        final(buf).valid(),
        final(buf).screen().area == old(buf).screen().area,
        inner.drawn(old(buf).screen(), final(buf).screen(), spec_aligned_area(inner.props(), area, alignment)),
{
    let dim = fit_dim(area.dimensions(), inner.proportions());
    let inner_area = Area::from_parts(Pos { x: 0, y: 0 }, dim).align_to(area, alignment);
    inner.draw(buf, inner_area);
}

impl<T: Proportional> Align<T> {
    /// Align to [`Alignment::TopLeft`].
    pub fn top_left(inner: T) -> (r: Self)
        ensures
            r.inner == inner,
            r.alignment == Alignment::TopLeft,
    {
        Align { inner, alignment: Alignment::TopLeft }
    }

    /// Align to [`Alignment::TopCenter`].
    pub fn top_center(inner: T) -> (r: Self)
        ensures
            r.inner == inner,
            r.alignment == Alignment::TopCenter,
    {
        Align { inner, alignment: Alignment::TopCenter }
    }

    /// Align to [`Alignment::TopRight`].
    pub fn top_right(inner: T) -> (r: Self)
        ensures
            r.inner == inner,
            r.alignment == Alignment::TopRight,
    {
        Align { inner, alignment: Alignment::TopRight }
    }

    /// Align to [`Alignment::CenterLeft`].
    pub fn center_left(inner: T) -> (r: Self)
        ensures
            r.inner == inner,
            r.alignment == Alignment::CenterLeft,
    {
        Align { inner, alignment: Alignment::CenterLeft }
    }

    /// Align to [`Alignment::Center`].
    pub fn center(inner: T) -> (r: Self)
        ensures
            r.inner == inner,
            r.alignment == Alignment::Center,
    {
        Align { inner, alignment: Alignment::Center }
    }

    /// Align to [`Alignment::CenterRight`].
    pub fn center_right(inner: T) -> (r: Self)
        ensures
            r.inner == inner,
            r.alignment == Alignment::CenterRight,
    {
        Align { inner, alignment: Alignment::CenterRight }
    }

    /// Align to [`Alignment::BottomLeft`].
    pub fn bottom_left(inner: T) -> (r: Self)
        ensures
            r.inner == inner,
            r.alignment == Alignment::BottomLeft,
    {
        Align { inner, alignment: Alignment::BottomLeft }
    }

    /// Align to [`Alignment::BottomCenter`].
    pub fn bottom_center(inner: T) -> (r: Self)
        ensures
            r.inner == inner,
            r.alignment == Alignment::BottomCenter,
    {
        Align { inner, alignment: Alignment::BottomCenter }
    }

    /// Align to [`Alignment::BottomRight`].
    pub fn bottom_right(inner: T) -> (r: Self)
        ensures
            r.inner == inner,
            r.alignment == Alignment::BottomRight,
    {
        Align { inner, alignment: Alignment::BottomRight }
    }
}

impl<T: Draw<R> + Proportional, R: Render> Draw<R> for Align<T> {
    open spec fn can_draw(&self, view: Area, area: Area) -> bool {
        &&& self.inner.has_props()
        &&& align_fits(area, self.alignment)
        &&& self.inner.can_draw(view, spec_aligned_area(self.inner.props(), area, self.alignment))
    }

    open spec fn drawn(&self, before: Screen, after: Screen, area: Area) -> bool {
        self.inner.drawn(before, after, spec_aligned_area(self.inner.props(), area, self.alignment))
    }

    fn draw(&self, buf: &mut R, area: Area) {
        draw_aligned(&self.inner, buf, area, self.alignment);
    }
}

/// The proportions `p` with the upper ends made flexible.
fn expanded(p: Proportions) -> (r: Proportions)
    ensures
        r == spec_expand(p),
{
    let r = p.expand();
    proof {
        Range::lemma_named_ranges(r.width.lo());
        Range::lemma_view_eq(r.width, Range::from_spec(r.width.lo()));
        Range::lemma_named_ranges(r.height.lo());
        Range::lemma_view_eq(r.height, Range::from_spec(r.height.lo()));
    }
    r
}

impl<T: Proportional> Proportional for Align<T> {
    open spec fn props(&self) -> Proportions {
        spec_expand(self.inner.props())
    }

    open spec fn has_props(&self) -> bool {
        self.inner.has_props()
    }

    fn proportions(&self) -> (r: Proportions) {
        expanded(self.inner.proportions())
    }
}

/// Align the contained widget to [`Alignment::TopLeft`].
#[derive(Debug, Clone)]
pub struct TopLeft<T: Proportional>(pub T);

impl<T: Draw<R> + Proportional, R: Render> Draw<R> for TopLeft<T> {
    open spec fn can_draw(&self, view: Area, area: Area) -> bool {
        &&& self.0.has_props()
        &&& align_fits(area, Alignment::TopLeft)
        &&& self.0.can_draw(view, spec_aligned_area(self.0.props(), area, Alignment::TopLeft))
    }

    open spec fn drawn(&self, before: Screen, after: Screen, area: Area) -> bool {
        self.0.drawn(before, after, spec_aligned_area(self.0.props(), area, Alignment::TopLeft))
    }

    fn draw(&self, buf: &mut R, area: Area) {
        draw_aligned(&self.0, buf, area, Alignment::TopLeft);
    }
}

impl<T: Proportional> Proportional for TopLeft<T> {
    open spec fn props(&self) -> Proportions {
        spec_expand(self.0.props())
    }

    open spec fn has_props(&self) -> bool {
        self.0.has_props()
    }

    fn proportions(&self) -> (r: Proportions) {
        expanded(self.0.proportions())
    }
}

/// Align the contained widget to [`Alignment::TopCenter`].
#[derive(Debug, Clone)]
pub struct TopCenter<T: Proportional>(pub T);

impl<T: Draw<R> + Proportional, R: Render> Draw<R> for TopCenter<T> {
    open spec fn can_draw(&self, view: Area, area: Area) -> bool {
        &&& self.0.has_props()
        &&& align_fits(area, Alignment::TopCenter)
        &&& self.0.can_draw(view, spec_aligned_area(self.0.props(), area, Alignment::TopCenter))
    }

    open spec fn drawn(&self, before: Screen, after: Screen, area: Area) -> bool {
        self.0.drawn(before, after, spec_aligned_area(self.0.props(), area, Alignment::TopCenter))
    }

    fn draw(&self, buf: &mut R, area: Area) {
        draw_aligned(&self.0, buf, area, Alignment::TopCenter);
    }
}

impl<T: Proportional> Proportional for TopCenter<T> {
    open spec fn props(&self) -> Proportions {
        spec_expand(self.0.props())
    }

    open spec fn has_props(&self) -> bool {
        self.0.has_props()
    }

    fn proportions(&self) -> (r: Proportions) {
        expanded(self.0.proportions())
    }
}

/// Align the contained widget to [`Alignment::TopRight`].
#[derive(Debug, Clone)]
pub struct TopRight<T: Proportional>(pub T);

impl<T: Draw<R> + Proportional, R: Render> Draw<R> for TopRight<T> {
    open spec fn can_draw(&self, view: Area, area: Area) -> bool {
        &&& self.0.has_props()
        &&& align_fits(area, Alignment::TopRight)
        &&& self.0.can_draw(view, spec_aligned_area(self.0.props(), area, Alignment::TopRight))
    }

    open spec fn drawn(&self, before: Screen, after: Screen, area: Area) -> bool {
        self.0.drawn(before, after, spec_aligned_area(self.0.props(), area, Alignment::TopRight))
    }

    fn draw(&self, buf: &mut R, area: Area) {
        draw_aligned(&self.0, buf, area, Alignment::TopRight);
    }
}

impl<T: Proportional> Proportional for TopRight<T> {
    open spec fn props(&self) -> Proportions {
        spec_expand(self.0.props())
    }

    open spec fn has_props(&self) -> bool {
        self.0.has_props()
    }

    fn proportions(&self) -> (r: Proportions) {
        expanded(self.0.proportions())
    }
}

/// Align the contained widget to [`Alignment::CenterLeft`].
#[derive(Debug, Clone)]
pub struct CenterLeft<T: Proportional>(pub T);

impl<T: Draw<R> + Proportional, R: Render> Draw<R> for CenterLeft<T> {
    open spec fn can_draw(&self, view: Area, area: Area) -> bool {
        &&& self.0.has_props()
        &&& align_fits(area, Alignment::CenterLeft)
        &&& self.0.can_draw(view, spec_aligned_area(self.0.props(), area, Alignment::CenterLeft))
    }

    open spec fn drawn(&self, before: Screen, after: Screen, area: Area) -> bool {
        self.0.drawn(before, after, spec_aligned_area(self.0.props(), area, Alignment::CenterLeft))
    }

    fn draw(&self, buf: &mut R, area: Area) {
        draw_aligned(&self.0, buf, area, Alignment::CenterLeft);
    }
}

impl<T: Proportional> Proportional for CenterLeft<T> {
    open spec fn props(&self) -> Proportions {
        spec_expand(self.0.props())
    }

    open spec fn has_props(&self) -> bool {
        self.0.has_props()
    }

    fn proportions(&self) -> (r: Proportions) {
        expanded(self.0.proportions())
    }
}

/// Align the contained widget to [`Alignment::Center`].
#[derive(Debug, Clone)]
pub struct Center<T: Proportional>(pub T);

impl<T: Draw<R> + Proportional, R: Render> Draw<R> for Center<T> {
    open spec fn can_draw(&self, view: Area, area: Area) -> bool {
        &&& self.0.has_props()
        &&& align_fits(area, Alignment::Center)
        &&& self.0.can_draw(view, spec_aligned_area(self.0.props(), area, Alignment::Center))
    }

    open spec fn drawn(&self, before: Screen, after: Screen, area: Area) -> bool {
        self.0.drawn(before, after, spec_aligned_area(self.0.props(), area, Alignment::Center))
    }

    fn draw(&self, buf: &mut R, area: Area) {
        draw_aligned(&self.0, buf, area, Alignment::Center);
    }
}

impl<T: Proportional> Proportional for Center<T> {
    open spec fn props(&self) -> Proportions {
        spec_expand(self.0.props())
    }

    open spec fn has_props(&self) -> bool {
        self.0.has_props()
    }

    fn proportions(&self) -> (r: Proportions) {
        expanded(self.0.proportions())
    }
}

/// Align the contained widget to [`Alignment::CenterRight`].
#[derive(Debug, Clone)]
pub struct CenterRight<T: Proportional>(pub T);

impl<T: Draw<R> + Proportional, R: Render> Draw<R> for CenterRight<T> {
    open spec fn can_draw(&self, view: Area, area: Area) -> bool {
        &&& self.0.has_props()
        &&& align_fits(area, Alignment::CenterRight)
        &&& self.0.can_draw(view, spec_aligned_area(self.0.props(), area, Alignment::CenterRight))
    }

    open spec fn drawn(&self, before: Screen, after: Screen, area: Area) -> bool {
        self.0.drawn(before, after, spec_aligned_area(self.0.props(), area, Alignment::CenterRight))
    }

    fn draw(&self, buf: &mut R, area: Area) {
        draw_aligned(&self.0, buf, area, Alignment::CenterRight);
    }
}

impl<T: Proportional> Proportional for CenterRight<T> {
    open spec fn props(&self) -> Proportions {
        spec_expand(self.0.props())
    }

    open spec fn has_props(&self) -> bool {
        self.0.has_props()
    }

    fn proportions(&self) -> (r: Proportions) {
        expanded(self.0.proportions())
    }
}

/// Align the contained widget to [`Alignment::BottomLeft`].
#[derive(Debug, Clone)]
pub struct BottomLeft<T: Proportional>(pub T);

impl<T: Draw<R> + Proportional, R: Render> Draw<R> for BottomLeft<T> {
    open spec fn can_draw(&self, view: Area, area: Area) -> bool {
        &&& self.0.has_props()
        &&& align_fits(area, Alignment::BottomLeft)
        &&& self.0.can_draw(view, spec_aligned_area(self.0.props(), area, Alignment::BottomLeft))
    }

    open spec fn drawn(&self, before: Screen, after: Screen, area: Area) -> bool {
        self.0.drawn(before, after, spec_aligned_area(self.0.props(), area, Alignment::BottomLeft))
    }

    fn draw(&self, buf: &mut R, area: Area) {
        draw_aligned(&self.0, buf, area, Alignment::BottomLeft);
    }
}

impl<T: Proportional> Proportional for BottomLeft<T> {
    open spec fn props(&self) -> Proportions {
        spec_expand(self.0.props())
    }

    open spec fn has_props(&self) -> bool {
        self.0.has_props()
    }

    fn proportions(&self) -> (r: Proportions) {
        expanded(self.0.proportions())
    }
}

/// Align the contained widget to [`Alignment::BottomCenter`].
#[derive(Debug, Clone)]
pub struct BottomCenter<T: Proportional>(pub T);

impl<T: Draw<R> + Proportional, R: Render> Draw<R> for BottomCenter<T> {
    open spec fn can_draw(&self, view: Area, area: Area) -> bool {
        &&& self.0.has_props()
        &&& align_fits(area, Alignment::BottomCenter)
        &&& self.0.can_draw(view, spec_aligned_area(self.0.props(), area, Alignment::BottomCenter))
    }

    open spec fn drawn(&self, before: Screen, after: Screen, area: Area) -> bool {
        self.0.drawn(before, after, spec_aligned_area(self.0.props(), area, Alignment::BottomCenter))
    }

    fn draw(&self, buf: &mut R, area: Area) {
        draw_aligned(&self.0, buf, area, Alignment::BottomCenter);
    }
}

impl<T: Proportional> Proportional for BottomCenter<T> {
    open spec fn props(&self) -> Proportions {
        spec_expand(self.0.props())
    }

    open spec fn has_props(&self) -> bool {
        self.0.has_props()
    }

    fn proportions(&self) -> (r: Proportions) {
        expanded(self.0.proportions())
    }
}

/// Align the contained widget to [`Alignment::BottomRight`].
#[derive(Debug, Clone)]
pub struct BottomRight<T: Proportional>(pub T);

impl<T: Draw<R> + Proportional, R: Render> Draw<R> for BottomRight<T> {
    open spec fn can_draw(&self, view: Area, area: Area) -> bool {
        &&& self.0.has_props()
        &&& align_fits(area, Alignment::BottomRight)
        &&& self.0.can_draw(view, spec_aligned_area(self.0.props(), area, Alignment::BottomRight))
    }

    open spec fn drawn(&self, before: Screen, after: Screen, area: Area) -> bool {
        self.0.drawn(before, after, spec_aligned_area(self.0.props(), area, Alignment::BottomRight))
    }

    fn draw(&self, buf: &mut R, area: Area) {
        draw_aligned(&self.0, buf, area, Alignment::BottomRight);
    }
}

impl<T: Proportional> Proportional for BottomRight<T> {
    open spec fn props(&self) -> Proportions {
        spec_expand(self.0.props())
    }

    open spec fn has_props(&self) -> bool {
        self.0.has_props()
    }

    fn proportions(&self) -> (r: Proportions) {
        expanded(self.0.proportions())
    }
}

/// Adds padding to the contained widget.
#[derive(Debug, Clone)]
pub struct Pad<T> {
    pub inner: T,
    pub top: u16,
    pub right: u16,
    pub bottom: u16,
    pub left: u16,
}

impl<T> Pad<T> {
    /// Creates `Pad<T>` with zero padding on all sides.
    pub fn new(inner: T) -> (r: Self)
        ensures
            r.inner == inner,
            r.top == 0 && r.right == 0 && r.bottom == 0 && r.left == 0,
    {
        Pad { inner, top: 0, right: 0, bottom: 0, left: 0 }
    }

    /// Adjusts the *top* padding.
    pub fn top(self, val: u16) -> (r: Self)
        ensures
            r == (Pad { top: val, ..self }),
    {
        Pad { top: val, ..self }
    }

    /// Adjusts the *right* padding.
    pub fn right(self, val: u16) -> (r: Self)
        ensures
            r == (Pad { right: val, ..self }),
    {
        Pad { right: val, ..self }
    }

    /// Adjusts the *bottom* padding.
    pub fn bottom(self, val: u16) -> (r: Self)
        ensures
            r == (Pad { bottom: val, ..self }),
    {
        Pad { bottom: val, ..self }
    }

    /// Adjusts the *left* padding.
    pub fn left(self, val: u16) -> (r: Self)
        ensures
            r == (Pad { left: val, ..self }),
    {
        Pad { left: val, ..self }
    }
}

/// The area inside `area` padded by `top`, `right`, `bottom` and `left`, or
/// `None` when no cell is left.
pub open spec fn spec_pad_area(area: Area, top: int, right: int, bottom: int, left: int) -> Option<Area> {
    let hp = left + right;
    let vp = top + bottom;
    if area.width - hp <= 0 || area.height - vp <= 0 {
        None
    } else {
        Some(Area {
            x: (area.x + left) as u16,
            y: (area.y + top) as u16,
            width: (area.width - hp) as u16,
            height: (area.height - vp) as u16,
        })
    }
}

impl<T: Draw<R>, R: Render> Draw<R> for Pad<T> {
    open spec fn can_draw(&self, view: Area, area: Area) -> bool {
        &&& self.left + self.right <= u16::MAX
        &&& self.top + self.bottom <= u16::MAX
        &&& (spec_pad_area(area, self.top as int, self.right as int, self.bottom as int, self.left as int)
            matches Some(a) ==> {
            &&& area.x + self.left <= u16::MAX
            &&& area.y + self.top <= u16::MAX
            &&& self.inner.can_draw(view, a)
        })
    }

    open spec fn drawn(&self, before: Screen, after: Screen, area: Area) -> bool {
        match spec_pad_area(area, self.top as int, self.right as int, self.bottom as int, self.left as int) {
            None => after == before,
            Some(a) => self.inner.drawn(before, after, a),
        }
    }

    fn draw(&self, buf: &mut R, area: Area) {
        let horiz_pad = self.left + self.right;
        let vert_pad = self.top + self.bottom;

        if area.width.saturating_sub(horiz_pad) == 0 || area.height.saturating_sub(vert_pad) == 0 {
            return;
        }

        let area = Area {
            x: area.x + self.left,
            y: area.y + self.top,
            width: area.width - horiz_pad,
            height: area.height - vert_pad,
        };
        self.inner.draw(buf, area);
    }
}

impl<T: Proportional> Proportional for Pad<T> {
    open spec fn props(&self) -> Proportions {
        Proportions {
            width: spec_range_add(self.inner.props().width, Range::fixed_spec((self.left + self.right) as u16)),
            height: spec_range_add(self.inner.props().height, Range::fixed_spec((self.top + self.bottom) as u16)),
        }
    }

    open spec fn has_props(&self) -> bool {
        &&& self.inner.has_props()
        &&& self.left + self.right <= u16::MAX
        &&& self.top + self.bottom <= u16::MAX
        &&& can_grow(self.inner.props(), self.left + self.right, self.top + self.bottom)
    }

    fn proportions(&self) -> (r: Proportions) {
        let inner_prop = self.inner.proportions();
        let hp = self.left + self.right;
        let vp = self.top + self.bottom;
        proof {
            Range::lemma_named_ranges(hp);
            Range::lemma_named_ranges(vp);
        }
        let w = inner_prop.width.add(Range::fixed(hp));
        let h = inner_prop.height.add(Range::fixed(vp));
        Proportions { width: w, height: h }
    }
}

/// Container with its own proportions.
#[derive(Debug, Clone)]
pub struct Container<T> {
    pub inner: T,
    pub proportions: Proportions,
}

impl Container<Void> {
    /// Creates a `Container` containing nothing.
    pub fn empty() -> (r: Self)
        ensures
            r.proportions == (Proportions { width: Range::flexible_spec(), height: Range::flexible_spec() }),
    {
        Container { inner: Void, proportions: Proportions::flexible() }
    }
}

impl<T> Container<T> {
    /// Wraps `inner` in a `Container` with fully flexible proportions.
    pub fn new(inner: T) -> (r: Self)
        ensures
            r.inner == inner,
            r.proportions == (Proportions { width: Range::flexible_spec(), height: Range::flexible_spec() }),
    {
        Container { inner, proportions: Proportions::flexible() }
    }

    /// Adjusts the proportions of the `Container`.
    pub fn size(self, proportions: Proportions) -> (r: Self)
        ensures
            r.inner == self.inner,
            r.proportions == proportions,
    {
        Container { inner: self.inner, proportions }
    }
}

impl<T: Draw<R>, R: Render> Draw<R> for Container<T> {
    open spec fn can_draw(&self, view: Area, area: Area) -> bool {
        self.inner.can_draw(view, area)
    }

    open spec fn drawn(&self, before: Screen, after: Screen, area: Area) -> bool {
        self.inner.drawn(before, after, area)
    }

    fn draw(&self, buf: &mut R, area: Area) {
        self.inner.draw(buf, area);
    }
}

impl<T> Proportional for Container<T> {
    open spec fn props(&self) -> Proportions {
        self.proportions
    }

    open spec fn has_props(&self) -> bool {
        true
    }

    fn proportions(&self) -> (r: Proportions) {
        self.proportions
    }
}

/// In case of insufficient dimensions, renders `fallback` instead of `inner`.
#[derive(Debug, Clone)]
pub struct Fallback<T: Proportional, F> {
    pub inner: T,
    pub fallback: F,
}

/// `area` meets the minimums of `p`.
pub open spec fn area_satisfies(area: Area, p: Proportions) -> bool {
    area.width >= p.width.lo() && area.height >= p.height.lo()
}

impl<T: Proportional + Draw<R>, F: Draw<R>, R: Render> Draw<R> for Fallback<T, F> {
    open spec fn can_draw(&self, view: Area, area: Area) -> bool {
        &&& self.inner.has_props()
        &&& if area_satisfies(area, self.inner.props()) {
            self.inner.can_draw(view, area)
        } else {
            self.fallback.can_draw(view, area)
        }
    }

    open spec fn drawn(&self, before: Screen, after: Screen, area: Area) -> bool {
        if area_satisfies(area, self.inner.props()) {
            self.inner.drawn(before, after, area)
        } else {
            self.fallback.drawn(before, after, area)
        }
    }

    fn draw(&self, buf: &mut R, area: Area) {
        if area.dimensions().satisfies(self.inner.proportions()) {
            self.inner.draw(buf, area);
        } else {
            self.fallback.draw(buf, area);
        }
    }
}

impl<T: Proportional, F> Proportional for Fallback<T, F> {
    open spec fn props(&self) -> Proportions {
        self.inner.props()
    }

    open spec fn has_props(&self) -> bool {
        self.inner.has_props()
    }

    fn proportions(&self) -> (r: Proportions) {
        self.inner.proportions()
    }
}

} // verus!
