//! Lists of widgets, rendered in equally-sized cells.
//!
//! These widgets have fully flexible proportions, as they ignore their
//! items' proportions. The area is split equally among the items; the last
//! item also gets the remainder.

use vstd::prelude::*;
use crate::layout::{Area, Proportional, Proportions, Range};
use crate::render::{Draw, Render, Screen};

verus! {

/// The cell of item `i` of `n` when `area` is split into rows.
pub open spec fn col_cell(area: Area, n: int, i: int) -> Area {
    let w = area.height as int / n;
    Area {
        x: area.x,
        y: (area.y + i * w) as u16,
        width: area.width,
        height: (if i < n - 1 { w } else { area.height - i * w }) as u16,
    }
}

/// The cell of item `i` of `n` when `area` is split into columns.
pub open spec fn row_cell(area: Area, n: int, i: int) -> Area {
    let w = area.width as int / n;
    Area {
        x: (area.x + i * w) as u16,
        y: area.y,
        width: (if i < n - 1 { w } else { area.width - i * w }) as u16,
        height: area.height,
    }
}

/// The cell of item `i` of `n` in `area`, split into rows when `vertical`.
pub open spec fn cell_of(area: Area, n: int, i: int, vertical: bool) -> Area {
    if vertical { col_cell(area, n, i) } else { row_cell(area, n, i) }
}

/// The first `i` items, drawn one after another into their cells, turn
/// `before` into `cur`.
pub open spec fn drawn_upto<R: Render>(
    items: Seq<&dyn Draw<R>>,
    before: Screen,
    cur: Screen,
    area: Area,
    vertical: bool,
    i: int,
) -> bool
    decreases i,
{
    if i <= 0 {
        cur == before
    } else {
        exists|mid: Screen|
            #[trigger] items[i - 1].drawn(mid, cur, cell_of(area, items.len() as int, i - 1, vertical))
                && drawn_upto(items, before, mid, area, vertical, i - 1)
    }
}

/// Every item can be drawn into its cell, and the cells' positions are
/// representable.
pub open spec fn split_ok<R: Render>(items: Seq<&dyn Draw<R>>, view: Area, area: Area, vertical: bool) -> bool {
    let n = items.len() as int;
    &&& (if vertical {
        area.y + (n - 1) * (area.height as int / n) <= u16::MAX
    } else {
        area.x + (n - 1) * (area.width as int / n) <= u16::MAX
    })
    &&& forall|i: int| 0 <= i < n ==> (#[trigger] items[i]).can_draw(view, cell_of(area, n, i, vertical))
}

/// The cells of `n` items in a length of `total` start `i * (total / n)`
/// in and leave room for the next cell.
proof fn lemma_cell_step(i: int, n: int, total: int)
    requires
        0 <= i < n - 1,
        0 <= total,
    ensures
        (i + 1) * (total / n) == i * (total / n) + total / n,
        (i + 1) * (total / n) <= (n - 1) * (total / n),
        i * (total / n) + total / n <= total,
        0 <= i * (total / n),
{
    assert((i + 1) * (total / n) == i * (total / n) + total / n) by (nonlinear_arith);
    assert((i + 1) * (total / n) <= (n - 1) * (total / n)) by (nonlinear_arith)
        requires i + 1 <= n - 1, 0 <= total / n;
    assert((n - 1) * (total / n) + total / n == n * (total / n)) by (nonlinear_arith);
    assert(n * (total / n) <= total) by (nonlinear_arith)
        requires 0 < n, 0 <= total;
    assert(0 <= i * (total / n)) by (nonlinear_arith)
        requires 0 <= i, 0 <= total / n;
}

/// The cells of a column split tile the area top to bottom: the first
/// starts at the top, each ends where the next starts, the last ends at the
/// bottom, and all span the area's full width.
pub proof fn law_col_cells_tile(area: Area, n: int, i: int)
    requires
        n >= 1,
        0 <= i < n,
        area.y + area.height <= u16::MAX,
    ensures
        col_cell(area, n, 0).y == area.y,
        col_cell(area, n, i).x == area.x,
        col_cell(area, n, i).width == area.width,
        i < n - 1 ==> col_cell(area, n, i).y + col_cell(area, n, i).height == col_cell(area, n, i + 1).y,
        col_cell(area, n, n - 1).y + col_cell(area, n, n - 1).height == area.y + area.height,
{
    lemma_tiles(area.y as int, area.height as int, n, i);
}

/// The cells of a row split tile the area left to right: the first starts
/// at the left edge, each ends where the next starts, the last ends at the
/// right edge, and all span the area's full height.
pub proof fn law_row_cells_tile(area: Area, n: int, i: int)
    requires
        n >= 1,
        0 <= i < n,
        area.x + area.width <= u16::MAX,
    ensures
        row_cell(area, n, 0).x == area.x,
        row_cell(area, n, i).y == area.y,
        row_cell(area, n, i).height == area.height,
        i < n - 1 ==> row_cell(area, n, i).x + row_cell(area, n, i).width == row_cell(area, n, i + 1).x,
        row_cell(area, n, n - 1).x + row_cell(area, n, n - 1).width == area.x + area.width,
{
    lemma_tiles(area.x as int, area.width as int, n, i);
}

/// The arithmetic of splitting `total` cells from `start` into `n` parts of
/// `total / n`, the last one taking the remainder.
proof fn lemma_tiles(start: int, total: int, n: int, i: int)
    requires
        n >= 1,
        0 <= i < n,
        0 <= total,
        0 <= start,
        start + total <= u16::MAX,
    ensures
        0 <= i * (total / n) <= total,
        0 <= (n - 1) * (total / n) <= total,
        i < n - 1 ==> i * (total / n) + total / n == (i + 1) * (total / n),
        i < n - 1 ==> (i + 1) * (total / n) <= total,
{
    assert(0 <= total / n);
    assert(n * (total / n) <= total) by (nonlinear_arith)
        requires 0 < n, 0 <= total;
    assert(0 <= i * (total / n) <= n * (total / n)) by (nonlinear_arith)
        requires 0 <= i < n, 0 <= total / n;
    assert(0 <= (n - 1) * (total / n) <= n * (total / n)) by (nonlinear_arith)
        requires 1 <= n, 0 <= total / n;
    assert((i + 1) * (total / n) == i * (total / n) + total / n) by (nonlinear_arith);
    assert((i + 1) * (total / n) <= n * (total / n)) by (nonlinear_arith)
        requires 0 <= i < n, 0 <= total / n;
}

/// Vertical split of widgets.
///
/// The paint area is split equally among the items, top to bottom.
#[verifier::reject_recursive_types(R)]
pub struct Col<'a, R: Render>(pub &'a [&'a dyn Draw<R>]);

impl<'a, R: Render> Draw<R> for Col<'a, R> {
    open spec fn can_draw(&self, view: Area, area: Area) -> bool {
        area.width == 0 || area.height == 0 || self.0@.len() == 0 || split_ok(self.0@, view, area, true)
    }

    open spec fn drawn(&self, before: Screen, after: Screen, area: Area) -> bool {
        if area.width == 0 || area.height == 0 || self.0@.len() == 0 {
            after == before
        } else {
            drawn_upto(self.0@, before, after, area, true, self.0@.len() as int)
        }
    }

    fn draw(&self, buf: &mut R, area: Area) {
        if area.is_collapsed() || self.0.len() == 0 {
            return;
        }
        let ghost s0 = buf.screen();
        let ghost items = self.0@;
        let n = self.0.len();
        let window = (area.height as usize / n) as u16;
        let mut remaining = area;
        let last_idx = n - 1;
        let mut i: usize = 0;
        while i < last_idx
            invariant
                n == items.len(),
                items == self.0@,
                n > 0,
                last_idx == n - 1,
                i <= last_idx,
                window == area.height as int / n as int,
                split_ok(items, s0.area, area, true),
                buf.valid(),
                buf.screen().area == s0.area,
                remaining == (Area {
                    x: area.x,
                    y: (area.y + i * window) as u16,
                    width: area.width,
                    height: (area.height - i * window) as u16,
                }),
                0 <= i * window <= area.height,
                drawn_upto(items, s0, buf.screen(), area, true, i as int),
            decreases last_idx - i,
        {
            proof {
                lemma_cell_step(i as int, n as int, area.height as int);
            }
            let (cur_area, rest) = remaining.split_horiz_at(window);
            remaining = rest;
            let ghost mid = buf.screen();
            proof {
                assert(cur_area == col_cell(area, n as int, i as int));
                assert(items[i as int].can_draw(s0.area, col_cell(area, n as int, i as int)));
            }
            self.0[i].draw(buf, cur_area);
            proof {
                let ii = i + 1;
                let cell = cell_of(area, items.len() as int, ii - 1, true);
                assert(cell == col_cell(area, n as int, i as int));
                assert(items[ii - 1].drawn(mid, buf.screen(), cell));
                assert(drawn_upto(items, s0, mid, area, true, ii - 1));
                assert(drawn_upto(items, s0, buf.screen(), area, true, ii));
            }
            i += 1;
        }
        proof {
            assert(remaining == col_cell(area, n as int, last_idx as int));
            assert(items[last_idx as int].can_draw(s0.area, col_cell(area, n as int, last_idx as int)));
        }
        let ghost mid = buf.screen();
        self.0[last_idx].draw(buf, remaining);
        proof {
            let ii = n as int;
            let cell = cell_of(area, items.len() as int, ii - 1, true);
            assert(cell == col_cell(area, n as int, last_idx as int));
            assert(items[ii - 1].drawn(mid, buf.screen(), cell));
            assert(drawn_upto(items, s0, mid, area, true, ii - 1));
            assert(drawn_upto(items, s0, buf.screen(), area, true, ii));
        }
    }
}

impl<'a, R: Render> Proportional for Col<'a, R> {
    open spec fn props(&self) -> Proportions {
        Proportions { width: Range::flexible_spec(), height: Range::flexible_spec() }
    }

    open spec fn has_props(&self) -> bool {
        true
    }

    fn proportions(&self) -> (r: Proportions) {
        Proportions::flexible()
    }
}

/// Horizontal split of widgets.
///
/// The paint area is split equally among the items, left to right.
#[verifier::reject_recursive_types(R)]
pub struct Row<'a, R: Render>(pub &'a [&'a dyn Draw<R>]);

impl<'a, R: Render> Draw<R> for Row<'a, R> {
    open spec fn can_draw(&self, view: Area, area: Area) -> bool {
        area.width == 0 || area.height == 0 || self.0@.len() == 0 || split_ok(self.0@, view, area, false)
    }

    open spec fn drawn(&self, before: Screen, after: Screen, area: Area) -> bool {
        if area.width == 0 || area.height == 0 || self.0@.len() == 0 {
            after == before
        } else {
            drawn_upto(self.0@, before, after, area, false, self.0@.len() as int)
        }
    }

    fn draw(&self, buf: &mut R, area: Area) {
        if area.is_collapsed() || self.0.len() == 0 {
            return;
        }
        let ghost s0 = buf.screen();
        let ghost items = self.0@;
        let n = self.0.len();
        let window = (area.width as usize / n) as u16;
        let mut remaining = area;
        let last_idx = n - 1;
        let mut i: usize = 0;
        while i < last_idx
            invariant
                n == items.len(),
                items == self.0@,
                n > 0,
                last_idx == n - 1,
                i <= last_idx,
                window == area.width as int / n as int,
                split_ok(items, s0.area, area, false),
                buf.valid(),
                buf.screen().area == s0.area,
                remaining == (Area {
                    x: (area.x + i * window) as u16,
                    y: area.y,
                    width: (area.width - i * window) as u16,
                    height: area.height,
                }),
                0 <= i * window <= area.width,
                drawn_upto(items, s0, buf.screen(), area, false, i as int),
            decreases last_idx - i,
        {
            proof {
                lemma_cell_step(i as int, n as int, area.width as int);
            }
            let (cur_area, rest) = remaining.split_vert_at(window);
            remaining = rest;
            let ghost mid = buf.screen();
            proof {
                assert(cur_area == row_cell(area, n as int, i as int));
                assert(items[i as int].can_draw(s0.area, row_cell(area, n as int, i as int)));
            }
            self.0[i].draw(buf, cur_area);
            proof {
                let ii = i + 1;
                let cell = cell_of(area, items.len() as int, ii - 1, false);
                assert(cell == row_cell(area, n as int, i as int));
                assert(items[ii - 1].drawn(mid, buf.screen(), cell));
                assert(drawn_upto(items, s0, mid, area, false, ii - 1));
                assert(drawn_upto(items, s0, buf.screen(), area, false, ii));
            }
            i += 1;
        }
        proof {
            assert(remaining == row_cell(area, n as int, last_idx as int));
            assert(items[last_idx as int].can_draw(s0.area, row_cell(area, n as int, last_idx as int)));
        }
        let ghost mid = buf.screen();
        self.0[last_idx].draw(buf, remaining);
        proof {
            let ii = n as int;
            let cell = cell_of(area, items.len() as int, ii - 1, false);
            assert(cell == row_cell(area, n as int, last_idx as int));
            assert(items[ii - 1].drawn(mid, buf.screen(), cell));
            assert(drawn_upto(items, s0, mid, area, false, ii - 1));
            assert(drawn_upto(items, s0, buf.screen(), area, false, ii));
        }
    }
}

impl<'a, R: Render> Proportional for Row<'a, R> {
    open spec fn props(&self) -> Proportions {
        Proportions { width: Range::flexible_spec(), height: Range::flexible_spec() }
    }

    open spec fn has_props(&self) -> bool {
        true
    }

    fn proportions(&self) -> (r: Proportions) {
        Proportions::flexible()
    }
}

} // verus!
