//! Flexbox-like containers.
//!
//! Each contained item gets its minimum proportion requirements (if
//! possible); the rest of the paint area is distributed among the flexible
//! items. In case the minimum requirements cannot be met, the items are drawn
//! sequentially until there is no space left; the last item gets whatever
//! remains.

use vstd::prelude::*;
use crate::layout::{
    Area, Proportional, Proportions, Range, spec_range_add, spec_range_join, spec_add_hi, lemma_range_join_bounds,
    lemma_range_add_bounds,
};
use crate::render::{Draw, Render, Screen};
use crate::util::{min, spec_min};
use crate::layout::sat_sub;

verus! {

/// Items that can be drawn in a flex container.
pub trait FlexItem<R: Render>: Draw<R> + Proportional {}

impl<R: Render, T: Draw<R> + Proportional> FlexItem<R> for T {}

/// How much a dimension of range `r` can grow beyond its minimum in `max`
/// cells.
pub open spec fn spec_calc_grow(r: Range, max: u16) -> int {
    let top = match r.hi() {
        Some(v) => spec_min(v as int, max as int),
        None => max as int,
    };
    sat_sub(top, r.lo() as int)
}

/// How much a dimension of range `range` can grow beyond its minimum in
/// `max` cells.
pub fn calc_grow(range: Range, max: u16) -> (r: u16)
    ensures
        r == spec_calc_grow(range, max),
{
    let top = match range.max() {
        Some(v) => min(v, max),
        None => max,
    };
    top.saturating_sub(range.min())
}

/// The range of the laid-out dimension of `p`.
pub open spec fn main_range(p: Proportions, vertical: bool) -> Range {
    if vertical { p.height } else { p.width }
}

/// The sum of the minimums of the first `n` items along the laid-out
/// dimension.
pub open spec fn min_sum<R: Render>(items: Seq<&dyn FlexItem<R>>, n: int, vertical: bool) -> int
    decreases n,
{
    if n <= 0 || n > items.len() {
        0
    } else {
        min_sum(items, n - 1, vertical) + main_range(items[n - 1].props(), vertical).lo()
    }
}

/// The sum of the growth potentials of the first `n` items in `len` cells.
pub open spec fn basis_sum<R: Render>(items: Seq<&dyn FlexItem<R>>, n: int, len: u16, vertical: bool) -> int
    decreases n,
{
    if n <= 0 || n > items.len() {
        0
    } else {
        basis_sum(items, n - 1, len, vertical) + spec_calc_grow(main_range(items[n - 1].props(), vertical), len)
    }
}

/// Every item's proportions can be computed.
pub open spec fn all_props<R: Render>(items: Seq<&dyn FlexItem<R>>) -> bool {
    forall|i: int| 0 <= i < items.len() ==> (#[trigger] items[i]).has_props()
}

/// The minimums of the first `i` items sum to no more than those of the
/// first `j`, and so do their growth potentials.
proof fn lemma_sums_monotone<R: Render>(items: Seq<&dyn FlexItem<R>>, len: u16, vertical: bool, i: int, j: int)
    requires
        0 <= i <= j <= items.len(),
    ensures
        min_sum(items, i, vertical) <= min_sum(items, j, vertical),
        basis_sum(items, i, len, vertical) <= basis_sum(items, j, len, vertical),
    decreases j - i,
{
    if i < j {
        lemma_sums_monotone(items, len, vertical, i, j - 1);
    }
}

/// The sums of minimums and growth potentials, along the laid-out dimension
/// of `len` cells: what the growth of the flexible items is scaled by.
/// `None` when a sum does not fit in a `usize`.
pub fn flex_totals<R: Render>(items: &[&dyn FlexItem<R>], len: u16, vertical: bool) -> (r: Option<(usize, usize)>)
    requires
        all_props(items@),
    ensures
        match r {
            Some(t) => t.0 == min_sum(items@, items@.len() as int, vertical)
                && t.1 == basis_sum(items@, items@.len() as int, len, vertical),
            None => min_sum(items@, items@.len() as int, vertical) > usize::MAX
                || basis_sum(items@, items@.len() as int, len, vertical) > usize::MAX,
        },
{
    let n = items.len();
    let mut min_total: usize = 0;
    let mut basis: usize = 0;
    let mut i: usize = 0;
    while i < n
        invariant
            n == items@.len(),
            i <= n,
            all_props(items@),
            min_total == min_sum(items@, i as int, vertical),
            basis == basis_sum(items@, i as int, len, vertical),
        decreases n - i,
    {
        let p = items[i].proportions();
        let r = if vertical { p.height } else { p.width };
        let m = r.min();
        let g = calc_grow(r, len);
        proof {
            lemma_sums_monotone(items@, len, vertical, i + 1, n as int);
        }
        match min_total.checked_add(m as usize) {
            Some(t) => min_total = t,
            None => return None,
        }
        match basis.checked_add(g as usize) {
            Some(t) => basis = t,
            None => return None,
        }
        i += 1;
    }
    Some((min_total, basis))
}

/// The size along the laid-out dimension that item `i` gets, with the
/// first `i` items having used `used` of `total` cells.
pub open spec fn item_size<R: Render>(items: Seq<&dyn FlexItem<R>>, growth: Seq<u16>, total: int, used: int, i: int, vertical: bool) -> int {
    if i < items.len() - 1 {
        spec_min(main_range(items[i].props(), vertical).lo() + growth[i], total - used)
    } else {
        total - used
    }
}

/// The cells used by the first `i` items.
pub open spec fn used_before<R: Render>(items: Seq<&dyn FlexItem<R>>, growth: Seq<u16>, total: int, i: int, vertical: bool) -> int
    decreases i,
{
    if i <= 0 {
        0
    } else {
        let u = used_before(items, growth, total, i - 1, vertical);
        u + item_size(items, growth, total, u, i - 1, vertical)
    }
}

/// The area item `i` is drawn in.
#[verifier::opaque]
pub open spec fn flex_cell<R: Render>(items: Seq<&dyn FlexItem<R>>, growth: Seq<u16>, area: Area, i: int, vertical: bool) -> Area {
    let total = if vertical { area.height as int } else { area.width as int };
    let u = used_before(items, growth, total, i, vertical);
    let size = item_size(items, growth, total, u, i, vertical);
    if vertical {
        Area { x: area.x, y: (area.y + u) as u16, width: area.width, height: size as u16 }
    } else {
        Area { x: (area.x + u) as u16, y: area.y, width: size as u16, height: area.height }
    }
}

/// The first `i` items, drawn one after another into their areas, turn
/// `before` into `cur`.
pub open spec fn flex_drawn_upto<R: Render>(
    items: Seq<&dyn FlexItem<R>>,
    growth: Seq<u16>,
    before: Screen,
    cur: Screen,
    area: Area,
    vertical: bool,
    i: int,
) -> bool
    decreases i,
{
    if i <= 0 {
        cur == before
    } else {
        exists|mid: Screen|
            #[trigger] items[i - 1].drawn(mid, cur, flex_cell(items, growth, area, i - 1, vertical))
                && flex_drawn_upto(items, growth, before, mid, area, vertical, i - 1)
    }
}

/// The growth of each item is at most its growth potential, and every item
/// can be drawn in its area.
pub open spec fn flex_ok<R: Render>(items: Seq<&dyn FlexItem<R>>, growth: Seq<u16>, view: Area, area: Area, vertical: bool) -> bool {
    let total = if vertical { area.height } else { area.width };
    &&& area.fits()
    &&& growth.len() == items.len()
    &&& all_props(items)
    &&& forall|i: int| 0 <= i < items.len() ==> #[trigger] growth[i] <= spec_calc_grow(main_range(items[i].props(), vertical), total)
    &&& forall|i: int| 0 <= i < items.len() ==> (#[trigger] items[i]).can_draw(view, flex_cell(items, growth, area, i, vertical))
}

/// The cells used so far stay within the total.
proof fn lemma_used_step<R: Render>(items: Seq<&dyn FlexItem<R>>, growth: Seq<u16>, total: int, i: int, vertical: bool)
    requires
        0 <= i,
        0 <= total,
        0 <= used_before(items, growth, total, i, vertical) <= total,
    ensures
        used_before(items, growth, total, i + 1, vertical) == used_before(items, growth, total, i, vertical)
            + item_size(items, growth, total, used_before(items, growth, total, i, vertical), i, vertical),
{
}

/// The area of item `i`, which is not the last, and the cells used after
/// it.
fn flex_item_area<R: Render>(items: &[&dyn FlexItem<R>], growth: &Vec<u16>, area: Area, vertical: bool, i: usize, used: u16) -> (r: (Area, u16))
    requires
        items@.len() > 0,
        i < items@.len() - 1,
        area.fits(),
        growth@.len() == items@.len(),
        all_props(items@),
        growth@[i as int] <= spec_calc_grow(main_range(items@[i as int].props(), vertical), if vertical { area.height } else { area.width }),
        used == used_before(items@, growth@, (if vertical { area.height } else { area.width }) as int, i as int, vertical),
        used <= (if vertical { area.height } else { area.width }),
    ensures
        r.0 == flex_cell(items@, growth@, area, i as int, vertical),
        r.1 == used_before(items@, growth@, (if vertical { area.height } else { area.width }) as int, i + 1, vertical),
        r.1 <= (if vertical { area.height } else { area.width }),
{
    proof {
        reveal(flex_cell);
    }
    let total = if vertical { area.height } else { area.width };
    let p = items[i].proportions();
    let r = if vertical { p.height } else { p.width };
    let m = r.min();
    proof {
        lemma_used_step(items@, growth@, total as int, i as int, vertical);
    }
    let size = min(m + growth[i], total - used);
    let cell = if vertical {
        Area { x: area.x, y: area.y + used, width: area.width, height: size }
    } else {
        Area { x: area.x + used, y: area.y, width: size, height: area.height }
    };
    (cell, used + size)
}

/// The area of the last item.
fn flex_last_area<R: Render>(items: &[&dyn FlexItem<R>], growth: &Vec<u16>, area: Area, vertical: bool, used: u16) -> (r: Area)
    requires
        items@.len() > 0,
        used == used_before(items@, growth@, (if vertical { area.height } else { area.width }) as int, items@.len() - 1, vertical),
        used <= (if vertical { area.height } else { area.width }),
        area.fits(),
    ensures
        r == flex_cell(items@, growth@, area, items@.len() - 1, vertical),
{
    proof {
        reveal(flex_cell);
    }
    if vertical {
        Area { x: area.x, y: area.y + used, width: area.width, height: area.height - used }
    } else {
        Area { x: area.x + used, y: area.y, width: area.width - used, height: area.height }
    }
}

/// Draws the items of a flex container, item `i` growing by `growth[i]`
/// beyond its minimum along the laid-out dimension as far as space allows,
/// and the last item taking the rest.
fn draw_flex<R: Render>(items: &[&dyn FlexItem<R>], growth: &Vec<u16>, buf: &mut R, area: Area, vertical: bool)
    requires
        old(buf).valid(),
        items@.len() > 0,
        area.width > 0 && area.height > 0,
        flex_ok(items@, growth@, old(buf).screen().area, area, vertical),
    ensures
        final(buf).valid(),
        final(buf).screen().area == old(buf).screen().area,
        flex_drawn_upto(items@, growth@, old(buf).screen(), final(buf).screen(), area, vertical, items@.len() as int),
{
    let ghost s0 = buf.screen();
    let ghost its = items@;
    let ghost g = growth@;
    let n = items.len();
    let total = if vertical { area.height } else { area.width };
    let mut used: u16 = 0;
    let mut i: usize = 0;
    while i < n - 1
        invariant
            n == its.len(),
            its == items@,
            g == growth@,
            n > 0,
            i <= n - 1,
            total == (if vertical { area.height } else { area.width }),
            flex_ok(its, g, s0.area, area, vertical),
            used == used_before(its, g, total as int, i as int, vertical),
            used <= total,
            buf.valid(),
            buf.screen().area == s0.area,
            flex_drawn_upto(its, g, s0, buf.screen(), area, vertical, i as int),
        decreases n - 1 - i,
    {
        proof {
            assert(growth@[i as int] <= spec_calc_grow(main_range(its[i as int].props(), vertical), total));
        }
        let (cell, next_used) = flex_item_area(items, growth, area, vertical, i, used);
        let ghost mid = buf.screen();
        proof {
            assert(cell == flex_cell(its, g, area, i as int, vertical));
        }
        items[i].draw(buf, cell);
        proof {
            let ii = i + 1;
            assert(its[ii - 1].drawn(mid, buf.screen(), flex_cell(its, g, area, ii - 1, vertical)));
            assert(flex_drawn_upto(its, g, s0, mid, area, vertical, ii - 1));
            assert(flex_drawn_upto(its, g, s0, buf.screen(), area, vertical, ii));
        }
        used = next_used;
        i += 1;
    }
    let cell = flex_last_area(items, growth, area, vertical, used);
    let ghost mid = buf.screen();
    items[n - 1].draw(buf, cell);
    proof {
        let ii = n as int;
        assert(its[ii - 1].drawn(mid, buf.screen(), flex_cell(its, g, area, ii - 1, vertical)));
        assert(flex_drawn_upto(its, g, s0, mid, area, vertical, ii - 1));
        assert(flex_drawn_upto(its, g, s0, buf.screen(), area, vertical, ii));
    }
}

/// The proportions of the first `n` items of a flex container, starting
/// from `0..=0` in both dimensions: a column adds up the widths and joins
/// the heights; a row joins the widths and adds up the heights.
pub open spec fn flex_props<R: Render>(items: Seq<&dyn FlexItem<R>>, n: int, vertical: bool) -> Proportions
    decreases n,
{
    if n <= 0 || n > items.len() {
        Proportions { width: Range::fixed_spec(0), height: Range::fixed_spec(0) }
    } else {
        let acc = flex_props(items, n - 1, vertical);
        let p = items[n - 1].props();
        if vertical {
            Proportions { width: spec_range_add(acc.width, p.width), height: spec_range_join(acc.height, p.height) }
        } else {
            Proportions { width: spec_range_join(acc.width, p.width), height: spec_range_add(acc.height, p.height) }
        }
    }
}

/// The range that is added up when item `k - 1` is combined with the ones
/// before it.
pub open spec fn added_range(p: Proportions, vertical: bool) -> Range {
    if vertical { p.width } else { p.height }
}

/// Adding item `k - 1` to the proportions of the items before it does not
/// overflow.
pub open spec fn flex_step_fits<R: Render>(items: Seq<&dyn FlexItem<R>>, k: int, vertical: bool) -> bool {
    let acc = added_range(flex_props(items, k - 1, vertical), vertical);
    let p = added_range(items[k - 1].props(), vertical);
    &&& acc.lo() + p.lo() <= u16::MAX
    &&& spec_add_hi(acc.hi(), p.hi()) matches Some(m) ==> m <= u16::MAX
}

/// Every item's proportions can be computed and adding them up does not
/// overflow.
pub open spec fn flex_props_ok<R: Render>(items: Seq<&dyn FlexItem<R>>, vertical: bool) -> bool {
    &&& all_props(items)
    &&& forall|k: int| 1 <= k <= items.len() ==> #[trigger] flex_step_fits(items, k, vertical)
}

/// Combines the proportions of all items, as [`flex_props`] says.
fn fold_flex_props<R: Render>(items: &[&dyn FlexItem<R>], vertical: bool) -> (r: Proportions)
    requires
        flex_props_ok(items@, vertical),
    ensures
        r == flex_props(items@, items@.len() as int, vertical),
{
    let n = items.len();
    let mut acc = Proportions::zero();
    let mut i: usize = 0;
    while i < n
        invariant
            n == items@.len(),
            i <= n,
            flex_props_ok(items@, vertical),
            acc == flex_props(items@, i as int, vertical),
        decreases n - i,
    {
        let p = items[i].proportions();
        proof {
            assert(flex_step_fits(items@, i + 1, vertical));
        }
        if vertical {
            acc = Proportions { width: acc.width.add(p.width), height: acc.height.join(p.height) };
        } else {
            acc = Proportions { width: acc.width.join(p.width), height: acc.height.add(p.height) };
        }
        i += 1;
    }
    acc
}

/// The cells used by the first `i` items stay within the total.
proof fn lemma_used_bounded<R: Render>(items: Seq<&dyn FlexItem<R>>, growth: Seq<u16>, total: int, i: int, vertical: bool)
    requires
        0 <= i <= items.len(),
        0 <= total,
    ensures
        0 <= used_before(items, growth, total, i, vertical) <= total,
    decreases i,
{
    if i > 0 {
        lemma_used_bounded(items, growth, total, i - 1, vertical);
    }
}

/// The growth of the first `k` items.
pub open spec fn growth_sum(growth: Seq<u16>, k: int) -> int
    decreases k,
{
    if k <= 0 || k > growth.len() {
        0
    } else {
        growth_sum(growth, k - 1) + growth[k - 1]
    }
}

/// Whenever the minimums fit in `total` cells, the growth of all items but
/// the last fits in what the minimums leave.
pub open spec fn growth_fits<R: Render>(items: Seq<&dyn FlexItem<R>>, growth: Seq<u16>, total: int, vertical: bool) -> bool {
    min_sum(items, items.len() as int, vertical) <= total
        ==> growth_sum(growth, items.len() - 1) <= total - min_sum(items, items.len() as int, vertical)
}

/// The size of `a` along the laid-out dimension.
pub open spec fn main_len(a: Area, vertical: bool) -> int {
    if vertical { a.height as int } else { a.width as int }
}

/// The growth of the first `i` items sums to no more than that of the
/// first `j`.
proof fn lemma_growth_monotone(growth: Seq<u16>, i: int, j: int)
    requires
        0 <= i <= j <= growth.len(),
    ensures
        growth_sum(growth, i) <= growth_sum(growth, j),
    decreases j - i,
{
    if i < j {
        lemma_growth_monotone(growth, i, j - 1);
    }
}

/// When the minimums and the growth fit, every item before the last gets
/// its minimum and its growth in full, so the first `i` of them use exactly
/// the sum of both.
proof fn lemma_used_exact<R: Render>(items: Seq<&dyn FlexItem<R>>, growth: Seq<u16>, total: int, i: int, vertical: bool)
    requires
        0 <= i <= items.len() - 1,
        growth.len() == items.len(),
        min_sum(items, items.len() as int, vertical) <= total,
        growth_fits(items, growth, total, vertical),
    ensures
        used_before(items, growth, total, i, vertical) == min_sum(items, i, vertical) + growth_sum(growth, i),
    decreases i,
{
    if i > 0 {
        lemma_used_exact(items, growth, total, i - 1, vertical);
        lemma_sums_monotone(items, 0, vertical, i, items.len() as int);
        lemma_growth_monotone(growth, i, items.len() - 1);
    }
}

/// When the minimums of the items fit in the area and the growth of all
/// but the last fits in what the minimums leave, every item's cell is at
/// least its minimum along the laid-out dimension.
pub proof fn law_flex_minimums<R: Render>(items: Seq<&dyn FlexItem<R>>, growth: Seq<u16>, area: Area, vertical: bool, i: int)
    requires
        0 <= i < items.len(),
        growth.len() == items.len(),
        min_sum(items, items.len() as int, vertical) <= main_len(area, vertical),
        growth_fits(items, growth, main_len(area, vertical), vertical),
    ensures
        main_len(flex_cell(items, growth, area, i, vertical), vertical) >= main_range(items[i].props(), vertical).lo(),
{
    reveal(flex_cell);
    let n = items.len() as int;
    let total = main_len(area, vertical);
    lemma_used_bounded(items, growth, total, i, vertical);
    lemma_used_exact(items, growth, total, i, vertical);
    if i < n - 1 {
        lemma_sums_monotone(items, 0, vertical, i + 1, n);
        lemma_growth_monotone(growth, i + 1, n - 1);
    }
}

/// The cells of a flex container tile its area along the laid-out
/// dimension: the first starts at the area's start, each ends where the
/// next starts, the last ends at the area's end, and all span the area
/// across.
pub proof fn law_flex_cells_tile<R: Render>(items: Seq<&dyn FlexItem<R>>, growth: Seq<u16>, area: Area, vertical: bool, i: int)
    requires
        items.len() >= 1,
        0 <= i < items.len(),
        area.fits(),
    ensures
        vertical ==> {
            &&& flex_cell(items, growth, area, 0, true).y == area.y
            &&& flex_cell(items, growth, area, i, true).x == area.x
            &&& flex_cell(items, growth, area, i, true).width == area.width
            &&& i < items.len() - 1 ==> flex_cell(items, growth, area, i, true).y
                + flex_cell(items, growth, area, i, true).height == flex_cell(items, growth, area, i + 1, true).y
            &&& flex_cell(items, growth, area, items.len() - 1, true).y
                + flex_cell(items, growth, area, items.len() - 1, true).height == area.y + area.height
        },
        !vertical ==> {
            &&& flex_cell(items, growth, area, 0, false).x == area.x
            &&& flex_cell(items, growth, area, i, false).y == area.y
            &&& flex_cell(items, growth, area, i, false).height == area.height
            &&& i < items.len() - 1 ==> flex_cell(items, growth, area, i, false).x
                + flex_cell(items, growth, area, i, false).width == flex_cell(items, growth, area, i + 1, false).x
            &&& flex_cell(items, growth, area, items.len() - 1, false).x
                + flex_cell(items, growth, area, items.len() - 1, false).width == area.x + area.width
        },
{
    reveal(flex_cell);
    let n = items.len() as int;
    let total = if vertical { area.height as int } else { area.width as int };
    lemma_used_bounded(items, growth, total, i, vertical);
    lemma_used_bounded(items, growth, total, i + 1, vertical);
    lemma_used_bounded(items, growth, total, n - 1, vertical);
    lemma_used_bounded(items, growth, total, 0, vertical);
}

/// The sum of the maximums of the first `n` items along a dimension (an
/// item without a maximum counts as 0).
pub open spec fn max_sum<R: Render>(items: Seq<&dyn FlexItem<R>>, n: int, vertical: bool) -> int
    decreases n,
{
    if n <= 0 || n > items.len() {
        0
    } else {
        max_sum(items, n - 1, vertical) + match main_range(items[n - 1].props(), vertical).hi() {
            Some(m) => m as int,
            None => 0,
        }
    }
}

/// The combined proportions of the first `n` items: along the laid-out
/// dimension the ranges are joined (largest minimum, largest maximum, none
/// when an item has none), across it they are added up.
proof fn lemma_flex_props_prefix<R: Render>(items: Seq<&dyn FlexItem<R>>, n: int, vertical: bool)
    requires
        flex_props_ok(items, vertical),
        0 <= n <= items.len(),
    ensures
        ({
            let jr = main_range(flex_props(items, n, vertical), vertical);
            &&& forall|k: int| 0 <= k < n ==> (#[trigger] main_range(items[k].props(), vertical)).lo() <= jr.lo()
            &&& n == 0 ==> jr.lo() == 0 && jr.hi() == Some(0u16)
            &&& n > 0 ==> exists|k: int| 0 <= k < n && jr.lo() == (#[trigger] main_range(items[k].props(), vertical)).lo()
            &&& jr.hi() is None <==> exists|k: int| 0 <= k < n && (#[trigger] main_range(items[k].props(), vertical)).hi() is None
            &&& jr.hi() is Some ==> forall|k: int| 0 <= k < n ==> {
                &&& (#[trigger] main_range(items[k].props(), vertical)).hi() is Some
                &&& main_range(items[k].props(), vertical).hi().unwrap() <= jr.hi().unwrap()
            }
            &&& jr.hi() is Some && n > 0 ==> exists|k: int|
                0 <= k < n && (#[trigger] main_range(items[k].props(), vertical)).hi() == jr.hi()
        }),
        ({
            let ar = added_range(flex_props(items, n, vertical), vertical);
            &&& ar.lo() == min_sum(items, n, !vertical)
            &&& n == 0 ==> ar.hi() == Some(0u16)
            &&& ar.hi() is None <==> exists|k: int| 0 <= k < n && (#[trigger] added_range(items[k].props(), vertical)).hi() is None
            &&& ar.hi() is Some ==> ar.hi().unwrap() == max_sum(items, n, !vertical)
        }),
    decreases n,
{
    if n == 0 {
        Range::lemma_named_ranges(0);
    } else {
        lemma_flex_props_prefix(items, n - 1, vertical);
        let acc = flex_props(items, n - 1, vertical);
        let p = items[n - 1].props();
        assert(flex_step_fits(items, n, vertical));
        let ja = main_range(acc, vertical);
        let jp = main_range(p, vertical);
        let aa = added_range(acc, vertical);
        let ap = added_range(p, vertical);
        lemma_range_join_bounds(ja, jp);
        lemma_range_add_bounds(aa, ap);
        let jr = main_range(flex_props(items, n, vertical), vertical);
        let ar = added_range(flex_props(items, n, vertical), vertical);
        assert(jr == spec_range_join(ja, jp));
        assert(ar == spec_range_add(aa, ap));
        assert(main_range(items[n - 1].props(), vertical) == jp);
        assert forall|k: int| 0 <= k < n implies (#[trigger] main_range(items[k].props(), vertical)).lo() <= jr.lo() by {
            if k < n - 1 {
                assert(main_range(items[k].props(), vertical).lo() <= ja.lo());
            }
        }
        if n - 1 == 0 || jp.lo() >= ja.lo() {
            assert(jr.lo() == main_range(items[n - 1].props(), vertical).lo());
        } else {
            let k0 = choose|k: int| 0 <= k < n - 1 && ja.lo() == (#[trigger] main_range(items[k].props(), vertical)).lo();
            assert(jr.lo() == main_range(items[k0].props(), vertical).lo());
        }
        if jr.hi() is None {
            if jp.hi() is None {
                assert(main_range(items[n - 1].props(), vertical).hi() is None);
            } else {
                assert(ja.hi() is None);
                let k0 = choose|k: int| 0 <= k < n - 1 && (#[trigger] main_range(items[k].props(), vertical)).hi() is None;
                assert(main_range(items[k0].props(), vertical).hi() is None);
            }
        } else {
            assert forall|k: int| 0 <= k < n implies {
                &&& (#[trigger] main_range(items[k].props(), vertical)).hi() is Some
                &&& main_range(items[k].props(), vertical).hi().unwrap() <= jr.hi().unwrap()
            } by {
                if k < n - 1 {
                    assert(main_range(items[k].props(), vertical).hi() is Some);
                }
            }
            if n - 1 == 0 || jp.hi().unwrap() >= ja.hi().unwrap() {
                assert(main_range(items[n - 1].props(), vertical).hi() == jr.hi());
            } else {
                let k0 = choose|k: int| 0 <= k < n - 1 && (#[trigger] main_range(items[k].props(), vertical)).hi() == ja.hi();
                assert(main_range(items[k0].props(), vertical).hi() == jr.hi());
            }
        }
        if ar.hi() is None {
            if ap.hi() is None {
                assert(added_range(items[n - 1].props(), vertical).hi() is None);
            } else {
                let k0 = choose|k: int| 0 <= k < n - 1 && (#[trigger] added_range(items[k].props(), vertical)).hi() is None;
                assert(added_range(items[k0].props(), vertical).hi() is None);
            }
        } else {
            assert forall|k: int| 0 <= k < n implies !((#[trigger] added_range(items[k].props(), vertical)).hi() is None) by {
                if k < n - 1 {
                    assert(!(added_range(items[k].props(), vertical).hi() is None));
                }
            }
        }
    }
}

/// Vertical flex container: the items are laid out top to bottom.
#[verifier::reject_recursive_types(R)]
pub struct FlexCol<'a, R: Render>(pub &'a [&'a dyn FlexItem<R>]);

/// Horizontal flex container: the items are laid out left to right.
#[verifier::reject_recursive_types(R)]
pub struct FlexRow<'a, R: Render>(pub &'a [&'a dyn FlexItem<R>]);

impl<'a, R: Render> FlexCol<'a, R> {
    /// The sums of the items' minimum heights and of their growth
    /// potentials in `height` rows; `None` when a sum overflows.
    pub fn totals(&self, height: u16) -> (r: Option<(usize, usize)>)
        requires
            all_props(self.0@),
        ensures
            match r {
                Some(t) => t.0 == min_sum(self.0@, self.0@.len() as int, true)
                    && t.1 == basis_sum(self.0@, self.0@.len() as int, height, true),
                None => min_sum(self.0@, self.0@.len() as int, true) > usize::MAX
                    || basis_sum(self.0@, self.0@.len() as int, height, true) > usize::MAX,
            },
    {
        flex_totals(self.0, height, true)
    }

    /// Draws the items top to bottom, item `i` growing by `growth[i]` rows
    /// beyond its minimum height as far as space allows, the last item
    /// taking the rest. Nothing is drawn into a collapsed area or when there
    /// are no items. When the minimum heights fit, the growth of all items
    /// but the last must fit in the rows they leave, and every item then
    /// gets at least its minimum height.
    pub fn draw_grown(&self, buf: &mut R, area: Area, growth: &Vec<u16>)
        requires
            old(buf).valid(),
            area.width == 0 || area.height == 0 || self.0@.len() == 0
                || (flex_ok(self.0@, growth@, old(buf).screen().area, area, true)
                    && growth_fits(self.0@, growth@, area.height as int, true)),
        ensures
            final(buf).valid(),
            final(buf).screen().area == old(buf).screen().area,
            if area.width == 0 || area.height == 0 || self.0@.len() == 0 {
                final(buf).screen() == old(buf).screen()
            } else {
                &&& flex_drawn_upto(self.0@, growth@, old(buf).screen(), final(buf).screen(), area, true, self.0@.len() as int)
                &&& min_sum(self.0@, self.0@.len() as int, true) <= area.height ==> forall|i: int|
                    0 <= i < self.0@.len() ==> #[trigger] main_len(flex_cell(self.0@, growth@, area, i, true), true)
                        >= main_range(self.0@[i].props(), true).lo()
            },
    {
        if area.is_collapsed() || self.0.len() == 0 {
            return;
        }
        draw_flex(self.0, growth, buf, area, true);
        proof {
            if min_sum(self.0@, self.0@.len() as int, true) <= area.height {
                assert forall|i: int| 0 <= i < self.0@.len() implies #[trigger] main_len(flex_cell(self.0@, growth@, area, i, true), true)
                    >= main_range(self.0@[i].props(), true).lo() by {
                    law_flex_minimums(self.0@, growth@, area, true, i);
                }
            }
        }
    }
}

impl<'a, R: Render> FlexRow<'a, R> {
    /// The sums of the items' minimum widths and of their growth potentials
    /// in `width` columns; `None` when a sum overflows.
    pub fn totals(&self, width: u16) -> (r: Option<(usize, usize)>)
        requires
            all_props(self.0@),
        ensures
            match r {
                Some(t) => t.0 == min_sum(self.0@, self.0@.len() as int, false)
                    && t.1 == basis_sum(self.0@, self.0@.len() as int, width, false),
                None => min_sum(self.0@, self.0@.len() as int, false) > usize::MAX
                    || basis_sum(self.0@, self.0@.len() as int, width, false) > usize::MAX,
            },
    {
        flex_totals(self.0, width, false)
    }

    /// Draws the items left to right, item `i` growing by `growth[i]`
    /// columns beyond its minimum width as far as space allows, the last
    /// item taking the rest. Nothing is drawn into a collapsed area or when
    /// there are no items. When the minimum widths fit, the growth of all
    /// items but the last must fit in the columns they leave, and every item
    /// then gets at least its minimum width.
    pub fn draw_grown(&self, buf: &mut R, area: Area, growth: &Vec<u16>)
        requires
            old(buf).valid(),
            area.width == 0 || area.height == 0 || self.0@.len() == 0
                || (flex_ok(self.0@, growth@, old(buf).screen().area, area, false)
                    && growth_fits(self.0@, growth@, area.width as int, false)),
        ensures
            final(buf).valid(),
            final(buf).screen().area == old(buf).screen().area,
            if area.width == 0 || area.height == 0 || self.0@.len() == 0 {
                final(buf).screen() == old(buf).screen()
            } else {
                &&& flex_drawn_upto(self.0@, growth@, old(buf).screen(), final(buf).screen(), area, false, self.0@.len() as int)
                &&& min_sum(self.0@, self.0@.len() as int, false) <= area.width ==> forall|i: int|
                    0 <= i < self.0@.len() ==> #[trigger] main_len(flex_cell(self.0@, growth@, area, i, false), false)
                        >= main_range(self.0@[i].props(), false).lo()
            },
    {
        if area.is_collapsed() || self.0.len() == 0 {
            return;
        }
        draw_flex(self.0, growth, buf, area, false);
        proof {
            if min_sum(self.0@, self.0@.len() as int, false) <= area.width {
                assert forall|i: int| 0 <= i < self.0@.len() implies #[trigger] main_len(flex_cell(self.0@, growth@, area, i, false), false)
                    >= main_range(self.0@[i].props(), false).lo() by {
                    law_flex_minimums(self.0@, growth@, area, false, i);
                }
            }
        }
    }
}

impl<'a, R: Render> Proportional for FlexCol<'a, R> {
    /// The widths of the items added up and their heights joined.
    open spec fn props(&self) -> Proportions {
        flex_props(self.0@, self.0@.len() as int, true)
    }

    open spec fn has_props(&self) -> bool {
        flex_props_ok(self.0@, true)
    }

    fn proportions(&self) -> (r: Proportions) {
        fold_flex_props(self.0, true)
    }
}

impl<'a, R: Render> Proportional for FlexRow<'a, R> {
    /// The widths of the items joined and their heights added up.
    open spec fn props(&self) -> Proportions {
        flex_props(self.0@, self.0@.len() as int, false)
    }

    open spec fn has_props(&self) -> bool {
        flex_props_ok(self.0@, false)
    }

    fn proportions(&self) -> (r: Proportions) {
        fold_flex_props(self.0, false)
    }
}


/// The proportions of a FlexCol: its height range is the join of the items'
/// height ranges (the largest minimum, and the largest maximum, none when an
/// item has none), and its width range is the sum of the items' width
/// ranges (the sum of the minimums, and the sum of the maximums, none when
/// an item has none).
pub proof fn law_flex_col_proportions<'a, R: Render>(c: FlexCol<'a, R>, i: int)
    requires
        c.has_props(),
        0 <= i < c.0@.len(),
    ensures
        c.props().height.lo() >= c.0@[i].props().height.lo(),
        exists|k: int| 0 <= k < c.0@.len() && c.props().height.lo() == (#[trigger] c.0@[k].props()).height.lo(),
        c.props().height.hi() is None <==> exists|k: int|
            0 <= k < c.0@.len() && (#[trigger] c.0@[k].props()).height.hi() is None,
        c.props().height.hi() is Some ==> {
            &&& c.0@[i].props().height.hi() is Some
            &&& c.0@[i].props().height.hi().unwrap() <= c.props().height.hi().unwrap()
            &&& exists|k: int| 0 <= k < c.0@.len() && (#[trigger] c.0@[k].props()).height.hi() == c.props().height.hi()
        },
        c.props().width.lo() == min_sum(c.0@, c.0@.len() as int, false),
        c.props().width.hi() is None <==> exists|k: int|
            0 <= k < c.0@.len() && (#[trigger] c.0@[k].props()).width.hi() is None,
        c.props().width.hi() is Some ==> c.props().width.hi().unwrap() == max_sum(c.0@, c.0@.len() as int, false),
{
    let items = c.0@;
    let n = items.len() as int;
    lemma_flex_props_prefix(items, n, true);
    assert(main_range(items[i].props(), true) == items[i].props().height);
    let k0 = choose|k: int| 0 <= k < n && main_range(flex_props(items, n, true), true).lo()
        == (#[trigger] main_range(items[k].props(), true)).lo();
    assert(c.0@[k0].props().height.lo() == c.props().height.lo());
    if c.props().height.hi() is None {
        let k1 = choose|k: int| 0 <= k < n && (#[trigger] main_range(items[k].props(), true)).hi() is None;
        assert(c.0@[k1].props().height.hi() is None);
    } else {
        let k1 = choose|k: int| 0 <= k < n && (#[trigger] main_range(items[k].props(), true)).hi()
            == main_range(flex_props(items, n, true), true).hi();
        assert(c.0@[k1].props().height.hi() == c.props().height.hi());
    }
    if c.props().width.hi() is None {
        let k1 = choose|k: int| 0 <= k < n && (#[trigger] added_range(items[k].props(), true)).hi() is None;
        assert(c.0@[k1].props().width.hi() is None);
    }
    assert forall|k: int| 0 <= k < n && (#[trigger] c.0@[k].props()).height.hi() is None
        implies c.props().height.hi() is None by {
        assert(main_range(items[k].props(), true).hi() is None);
    }
    assert forall|k: int| 0 <= k < n && (#[trigger] c.0@[k].props()).width.hi() is None
        implies c.props().width.hi() is None by {
        assert(added_range(items[k].props(), true).hi() is None);
    }
}

/// The proportions of a FlexRow: its width range is the join of the items'
/// width ranges (the largest minimum, and the largest maximum, none when an
/// item has none), and its height range is the sum of the items' height
/// ranges (the sum of the minimums, and the sum of the maximums, none when
/// an item has none).
pub proof fn law_flex_row_proportions<'a, R: Render>(c: FlexRow<'a, R>, i: int)
    requires
        c.has_props(),
        0 <= i < c.0@.len(),
    ensures
        c.props().width.lo() >= c.0@[i].props().width.lo(),
        exists|k: int| 0 <= k < c.0@.len() && c.props().width.lo() == (#[trigger] c.0@[k].props()).width.lo(),
        c.props().width.hi() is None <==> exists|k: int|
            0 <= k < c.0@.len() && (#[trigger] c.0@[k].props()).width.hi() is None,
        c.props().width.hi() is Some ==> {
            &&& c.0@[i].props().width.hi() is Some
            &&& c.0@[i].props().width.hi().unwrap() <= c.props().width.hi().unwrap()
            &&& exists|k: int| 0 <= k < c.0@.len() && (#[trigger] c.0@[k].props()).width.hi() == c.props().width.hi()
        },
        c.props().height.lo() == min_sum(c.0@, c.0@.len() as int, true),
        c.props().height.hi() is None <==> exists|k: int|
            0 <= k < c.0@.len() && (#[trigger] c.0@[k].props()).height.hi() is None,
        c.props().height.hi() is Some ==> c.props().height.hi().unwrap() == max_sum(c.0@, c.0@.len() as int, true),
{
    let items = c.0@;
    let n = items.len() as int;
    lemma_flex_props_prefix(items, n, false);
    assert(main_range(items[i].props(), false) == items[i].props().width);
    let k0 = choose|k: int| 0 <= k < n && main_range(flex_props(items, n, false), false).lo()
        == (#[trigger] main_range(items[k].props(), false)).lo();
    assert(c.0@[k0].props().width.lo() == c.props().width.lo());
    if c.props().width.hi() is None {
        let k1 = choose|k: int| 0 <= k < n && (#[trigger] main_range(items[k].props(), false)).hi() is None;
        assert(c.0@[k1].props().width.hi() is None);
    } else {
        let k1 = choose|k: int| 0 <= k < n && (#[trigger] main_range(items[k].props(), false)).hi()
            == main_range(flex_props(items, n, false), false).hi();
        assert(c.0@[k1].props().width.hi() == c.props().width.hi());
    }
    if c.props().height.hi() is None {
        let k1 = choose|k: int| 0 <= k < n && (#[trigger] added_range(items[k].props(), false)).hi() is None;
        assert(c.0@[k1].props().height.hi() is None);
    }
    assert forall|k: int| 0 <= k < n && (#[trigger] c.0@[k].props()).width.hi() is None
        implies c.props().width.hi() is None by {
        assert(main_range(items[k].props(), false).hi() is None);
    }
    assert forall|k: int| 0 <= k < n && (#[trigger] c.0@[k].props()).height.hi() is None
        implies c.props().height.hi() is None by {
        assert(added_range(items[k].props(), false).hi() is None);
    }
}

} // verus!
