//! Positions, dimensions, size ranges, proportions and rectangular areas.

use vstd::prelude::*;
use vstd::std_specs::convert::FromSpecImpl;
use crate::util::{min, max, spec_min, spec_max, decimal, push_decimal};

verus! {

/// Position coordinates.
#[derive(Debug, Copy, Clone, Default, PartialEq, Eq, Structural, Hash)]
pub struct Pos {
    pub x: u16,
    pub y: u16,
}

/// Saturating `u16` addition over integers.
pub open spec fn sat_add(a: int, b: int) -> int {
    if a + b > u16::MAX { u16::MAX as int } else { a + b }
}

/// Saturating `u16` subtraction over integers.
pub open spec fn sat_sub(a: int, b: int) -> int {
    if a - b < 0 { 0 } else { a - b }
}

impl Pos {
    /// Performs a saturating addition.
    pub fn saturating_add(self, rhs: Self) -> (r: Self)
        ensures
            r.x == sat_add(self.x as int, rhs.x as int),
            r.y == sat_add(self.y as int, rhs.y as int),
    {
        Pos { x: self.x.saturating_add(rhs.x), y: self.y.saturating_add(rhs.y) }
    }

    /// Performs a saturating subtraction.
    pub fn saturating_sub(self, rhs: Self) -> (r: Self)
        ensures
            r.x == sat_sub(self.x as int, rhs.x as int),
            r.y == sat_sub(self.y as int, rhs.y as int),
    {
        Pos { x: self.x.saturating_sub(rhs.x), y: self.y.saturating_sub(rhs.y) }
    }

    /// Adds `x` to `self.x`.
    pub fn add_x(self, x: u16) -> (r: Self)
        requires
            self.x + x <= u16::MAX,
        ensures
            r == (Pos { x: (self.x + x) as u16, y: self.y }),
    {
        Pos { x: self.x + x, y: self.y }
    }

    /// Adds `y` to `self.y`.
    pub fn add_y(self, y: u16) -> (r: Self)
        requires
            self.y + y <= u16::MAX,
        ensures
            r == (Pos { x: self.x, y: (self.y + y) as u16 }),
    {
        Pos { x: self.x, y: self.y + y }
    }

    /// Subtracts `x` from `self.x`.
    pub fn sub_x(self, x: u16) -> (r: Self)
        requires
            x <= self.x,
        ensures
            r == (Pos { x: (self.x - x) as u16, y: self.y }),
    {
        Pos { x: self.x - x, y: self.y }
    }

    /// Subtracts `y` from `self.y`.
    pub fn sub_y(self, y: u16) -> (r: Self)
        requires
            y <= self.y,
        ensures
            r == (Pos { x: self.x, y: (self.y - y) as u16 }),
    {
        Pos { x: self.x, y: self.y - y }
    }

    /// Component-wise addition.
    pub fn add(self, rhs: Self) -> (r: Self)
        requires
            self.x + rhs.x <= u16::MAX,
            self.y + rhs.y <= u16::MAX,
        ensures
            r == (Pos { x: (self.x + rhs.x) as u16, y: (self.y + rhs.y) as u16 }),
    {
        Pos { x: self.x + rhs.x, y: self.y + rhs.y }
    }

    /// Component-wise subtraction.
    pub fn sub(self, rhs: Self) -> (r: Self)
        requires
            rhs.x <= self.x,
            rhs.y <= self.y,
        ensures
            r == (Pos { x: (self.x - rhs.x) as u16, y: (self.y - rhs.y) as u16 }),
    {
        Pos { x: self.x - rhs.x, y: self.y - rhs.y }
    }
}

/// Area dimensions.
#[derive(Debug, Copy, Clone, Default, PartialEq, Eq, Structural, Hash)]
pub struct Dim {
    pub width: u16,
    pub height: u16,
}

/// Each dimension of `d` meets the minimum of `p`.
pub open spec fn spec_satisfies(d: Dim, p: Proportions) -> bool {
    d.width >= p.width.lo() && d.height >= p.height.lo()
}

/// What fitting `available` cells into `range` yields: `None` when the
/// minimum is not met, else the largest size the range allows.
pub open spec fn spec_fit_range(available: int, range: Range) -> Option<u16> {
    if available < range.lo() {
        None
    } else {
        match range.hi() {
            Some(m) => Some(spec_min(available, m as int) as u16),
            None => Some(available as u16),
        }
    }
}

impl Dim {
    /// Checks if either of the dimensions is `0`.
    pub fn is_collapsed(self) -> (r: bool)
        ensures
            r == (self.width == 0 || self.height == 0),
    {
        self.width == 0 || self.height == 0
    }

    /// Checks if the dimensions can fit into `proportions`.
    pub fn satisfies(self, proportions: Proportions) -> (r: bool)
        ensures
            r == spec_satisfies(self, proportions),
            r == (self.width >= proportions.width.lo() && self.height >= proportions.height.lo()),
    {
        self.width >= proportions.width.min() && self.height >= proportions.height.min()
    }

    /// Try to fit the dimensions into the [`Proportions`].
    ///
    /// Always yields the largest dimensions the proportions allow; when a
    /// dimension cannot meet its minimum, `Err` carries the best attempt, in
    /// which such a dimension keeps its available size.
    pub fn fit_into(self, p: Proportions) -> (r: Result<Dim, Dim>)
        ensures
            r == spec_fit_into(self, p),
    {
        let width = Self::fit_range(self.width, p.width);
        let height = Self::fit_range(self.height, p.height);

        match (width, height) {
            (Some(width), Some(height)) => Ok(Dim { width, height }),
            (Some(width), None) => Err(Dim { width, height: self.height }),
            (None, Some(height)) => Err(Dim { width: self.width, height }),
            (None, None) => Err(self),
        }
    }

    fn fit_range(available: u16, range: Range) -> (r: Option<u16>)
        ensures
            r == spec_fit_range(available as int, range),
    {
        if available < range.min() {
            return None;
        }
        let provision = if let Some(m) = range.max() {
            min(available, m)
        } else {
            available
        };
        Some(provision)
    }
}

/// The result of [`Dim::fit_into`].
pub open spec fn spec_fit_into(d: Dim, p: Proportions) -> Result<Dim, Dim> {
    let w = spec_fit_range(d.width as int, p.width);
    let h = spec_fit_range(d.height as int, p.height);
    if w is Some && h is Some {
        Ok(Dim { width: w.unwrap(), height: h.unwrap() })
    } else {
        Err(Dim {
            width: if w is Some { w.unwrap() } else { d.width },
            height: if h is Some { h.unwrap() } else { d.height },
        })
    }
}

/// Inclusive range of sizes.
///
/// The **inclusive** range that a single dimension of a widget can have; a
/// missing maximum means the dimension can grow without bound. The maximum,
/// when present, is never below the minimum.
#[derive(Debug, Copy, Clone, PartialEq, Eq, Structural, Hash)]
pub struct Range {
    min: u16,
    max: Option<u16>,
}

/// The sum of two optional upper bounds (unbounded when either is).
pub open spec fn spec_add_hi(a: Option<u16>, b: Option<u16>) -> Option<int> {
    if a is Some && b is Some { Some(a.unwrap() + b.unwrap()) } else { None }
}

impl Range {
    #[verifier::type_invariant]
    spec fn inv(self) -> bool {
        self.max is Some ==> self.min <= self.max.unwrap()
    }

    /// The lower bound.
    pub closed spec fn lo(self) -> u16 {
        self.min
    }

    /// The upper bound (`None` when unbounded).
    pub closed spec fn hi(self) -> Option<u16> {
        self.max
    }

    /// `size` lies in the range.
    pub open spec fn allows(self, size: int) -> bool {
        self.lo() <= size && (self.hi() is Some ==> size <= self.hi().unwrap())
    }

    /// Holds of every range: the upper bound is not below the lower bound.
    pub open spec fn well_formed(self) -> bool {
        self.hi() is Some ==> self.lo() <= self.hi().unwrap()
    }

    /// Creates a new range `min..=max`.
    ///
    /// If `max` is less than `min`, it is ignored and the range is
    /// `min..=min`.
    pub fn new(min: u16, max: u16) -> (r: Self)
        ensures
            r.lo() == min,
            r.hi() == Some(spec_max(min as int, max as int) as u16),
    {
        Range { min, max: Some(crate::util::max(min, max)) }
    }

    /// Creates a new range `min..=max`; the caller guarantees `min <= max`.
    pub fn new_unchecked(min: u16, max: u16) -> (r: Self)
        requires
            min <= max,
        ensures
            r.lo() == min,
            r.hi() == Some(max),
    {
        Range { min, max: Some(max) }
    }

    /// Creates a range from its parts; the caller guarantees that the upper
    /// bound, if any, is not below `min`.
    pub fn from_raw_parts(min: u16, max: Option<u16>) -> (r: Self)
        requires
            max is Some ==> min <= max.unwrap(),
        ensures
            r.lo() == min,
            r.hi() == max,
    {
        Range { min, max }
    }

    /// Creates a fixed range (`size..=size`).
    pub fn fixed(size: u16) -> (r: Self)
        ensures
            r.lo() == size,
            r.hi() == Some(size),
            r == Self::fixed_spec(size),
    {
        Range { min: size, max: Some(size) }
    }

    /// Creates a flexible range starting at `size` (`size..`).
    pub fn from(size: u16) -> (r: Self)
        ensures
            r.lo() == size,
            r.hi() == None::<u16>,
            r == Self::from_spec(size),
    {
        Range { min: size, max: None }
    }

    /// Creates a range ending at `size` (`0..=size`).
    pub fn to(size: u16) -> (r: Self)
        ensures
            r.lo() == 0,
            r.hi() == Some(size),
    {
        Range { min: 0, max: Some(size) }
    }

    /// Creates a fully flexible range (`0..`).
    pub fn flexible() -> (r: Self)
        ensures
            r.lo() == 0,
            r.hi() == None::<u16>,
            r == Self::flexible_spec(),
    {
        Range { min: 0, max: None }
    }

    /// The low bound.
    pub fn min(self) -> (r: u16)
        ensures
            r == self.lo(),
            self.well_formed(),
    {
        proof { use_type_invariant(&self); }
        self.min
    }

    /// The upper bound.
    pub fn max(self) -> (r: Option<u16>)
        ensures
            r == self.hi(),
            self.well_formed(),
    {
        proof { use_type_invariant(&self); }
        self.max
    }

    /// Collapse the maximum to be equal to the minimum.
    pub fn collapse(self) -> (r: Self)
        ensures
            r == spec_range_collapse(self),
            r.lo() == self.lo(),
            r.hi() == Some(self.lo()),
    {
        Range { min: self.min, max: Some(self.min) }
    }

    /// Make the upper end flexible.
    pub fn expand(self) -> (r: Self)
        ensures
            r == spec_range_expand(self),
            r.lo() == self.lo(),
            r.hi() == None::<u16>,
    {
        Range { min: self.min, max: None }
    }

    /// Add the minimum requirements and maximum growth potential: the
    /// result of placing two ranges next to each other.
    pub fn add(self, other: Self) -> (r: Self)
        requires
            self.lo() + other.lo() <= u16::MAX,
            spec_add_hi(self.hi(), other.hi()) matches Some(m) ==> m <= u16::MAX,
        ensures
            r == spec_range_add(self, other),
            r.lo() == self.lo() + other.lo(),
            r.hi() is Some <==> spec_add_hi(self.hi(), other.hi()) is Some,
            r.hi() is Some ==> r.hi().unwrap() == spec_add_hi(self.hi(), other.hi()).unwrap(),
    {
        proof {
            use_type_invariant(&self);
            use_type_invariant(&other);
        }
        Range {
            min: self.min + other.min,
            max: if let (Some(a), Some(b)) = (self.max, other.max) { Some(a + b) } else { None },
        }
    }

    /// Joins the ranges: the resulting minimum and maximum are the higher
    /// ones (a missing maximum wins).
    pub fn join(self, other: Self) -> (r: Self)
        ensures
            r == spec_range_join(self, other),
            r.lo() == spec_max(self.lo() as int, other.lo() as int),
            r.hi() == (if self.hi() is Some && other.hi() is Some {
                Some(spec_max(self.hi().unwrap() as int, other.hi().unwrap() as int) as u16)
            } else {
                None
            }),
    {
        proof {
            use_type_invariant(&self);
            use_type_invariant(&other);
        }
        Range {
            min: max(self.min, other.min),
            max: if let (Some(a), Some(b)) = (self.max, other.max) { Some(max(a, b)) } else { None },
        }
    }
}

/// How a range is written: `{min}..` or `{min}..={max}`.
pub open spec fn range_text(r: Range) -> Seq<char> {
    decimal(r.lo() as nat) + seq!['.', '.'] + (match r.hi() {
        Some(m) => seq!['='] + decimal(m as nat),
        None => Seq::<char>::empty(),
    })
}

impl Range {
    /// The range written as `{min}..` or `{min}..={max}`, as its `Debug`
    /// output reads.
    pub fn debug_string(&self) -> (r: String)
        ensures
            r@ == range_text(*self),
    {
        let dots = "..";
        let eq = "=";
        proof {
            reveal_strlit("..");
            reveal_strlit("=");
        }
        let mut s = String::new();
        push_decimal(&mut s, self.min);
        s.append(dots);
        if let Some(m) = self.max {
            s.append(eq);
            push_decimal(&mut s, m);
        }
        proof {
            assert(s@ =~= range_text(*self));
        }
        s
    }
}

/// `r` has the bounds of `a` and `b` joined: the higher minimum, and the
/// higher maximum where both have one.
pub open spec fn joined_bounds(r: Range, a: Range, b: Range) -> bool {
    &&& r.lo() == spec_max(a.lo() as int, b.lo() as int)
    &&& r.hi() == (if a.hi() is Some && b.hi() is Some {
        Some(spec_max(a.hi().unwrap() as int, b.hi().unwrap() as int) as u16)
    } else {
        None
    })
}

/// `r` has the bounds of `a` and `b` added up: the sum of the minimums, and
/// the sum of the maximums where both have one.
pub open spec fn added_bounds(r: Range, a: Range, b: Range) -> bool {
    &&& r.lo() == a.lo() + b.lo()
    &&& r.hi() == (if a.hi() is Some && b.hi() is Some {
        Some((a.hi().unwrap() + b.hi().unwrap()) as u16)
    } else {
        None
    })
}

/// The bounds of a joined range.
pub proof fn lemma_range_join_bounds(a: Range, b: Range)
    ensures
        joined_bounds(spec_range_join(a, b), a, b),
{
}

/// The bounds of an added range, when the sums fit.
pub proof fn lemma_range_add_bounds(a: Range, b: Range)
    requires
        a.lo() + b.lo() <= u16::MAX,
        spec_add_hi(a.hi(), b.hi()) matches Some(m) ==> m <= u16::MAX,
    ensures
        added_bounds(spec_range_add(a, b), a, b),
{
}

/// The range that [`Range::collapse`] yields.
pub closed spec fn spec_range_collapse(a: Range) -> Range {
    Range { min: a.min, max: Some(a.min) }
}

/// The range that [`Range::expand`] yields.
pub closed spec fn spec_range_expand(a: Range) -> Range {
    Range { min: a.min, max: None }
}

/// The range that [`Range::add`] yields.
pub closed spec fn spec_range_add(a: Range, b: Range) -> Range {
    Range {
        min: (a.min + b.min) as u16,
        max: if a.max is Some && b.max is Some { Some((a.max.unwrap() + b.max.unwrap()) as u16) } else { None },
    }
}

/// The range that [`Range::join`] yields.
pub closed spec fn spec_range_join(a: Range, b: Range) -> Range {
    Range {
        min: spec_max(a.min as int, b.min as int) as u16,
        max: if a.max is Some && b.max is Some {
            Some(spec_max(a.max.unwrap() as int, b.max.unwrap() as int) as u16)
        } else {
            None
        },
    }
}

impl Range {
    /// `0..`
    pub closed spec fn flexible_spec() -> Range {
        Range { min: 0, max: None }
    }

    /// `size..=size`
    pub closed spec fn fixed_spec(size: u16) -> Range {
        Range { min: size, max: Some(size) }
    }

    /// `size..`
    pub closed spec fn from_spec(size: u16) -> Range {
        Range { min: size, max: None }
    }

    /// The bounds of the named ranges.
    pub proof fn lemma_named_ranges(size: u16)
        ensures
            Self::flexible_spec().lo() == 0,
            Self::flexible_spec().hi() == None::<u16>,
            Self::fixed_spec(size).lo() == size,
            Self::fixed_spec(size).hi() == Some(size),
            Self::from_spec(size).lo() == size,
            Self::from_spec(size).hi() == None::<u16>,
    {
    }

    /// Two ranges with the same bounds are equal.
    pub proof fn lemma_view_eq(a: Range, b: Range)
        requires
            a.lo() == b.lo(),
            a.hi() == b.hi(),
        ensures
            a == b,
    {
    }
}

impl Default for Range {
    fn default() -> (r: Self)
        ensures
            r.lo() == 0,
            r.hi() == None::<u16>,
    {
        Range { min: 0, max: None }
    }
}


/// Proportions of widgets that can be laid out in space.
#[derive(Debug, Copy, Clone, Default, PartialEq, Eq, Structural, Hash)]
pub struct Proportions {
    pub width: Range,
    pub height: Range,
}

impl From<Dim> for Proportions {
    fn from(dim: Dim) -> (r: Self)
        ensures
            r == (Proportions { width: Range::fixed_spec(dim.width), height: Range::fixed_spec(dim.height) }),
    {
        Proportions { width: Range::fixed(dim.width), height: Range::fixed(dim.height) }
    }
}

impl FromSpecImpl<Dim> for Proportions {
    open spec fn obeys_from_spec() -> bool {
        true
    }

    open spec fn from_spec(v: Dim) -> Proportions {
        Proportions { width: Range::fixed_spec(v.width), height: Range::fixed_spec(v.height) }
    }
}

impl Proportions {
    /// Both dimensions have the range `0..=0`.
    pub fn zero() -> (r: Self)
        ensures
            r == (Proportions { width: Range::fixed_spec(0), height: Range::fixed_spec(0) }),
            r.width.lo() == 0 && r.width.hi() == Some(0u16),
            r.height.lo() == 0 && r.height.hi() == Some(0u16),
    {
        Proportions { width: Range::fixed(0), height: Range::fixed(0) }
    }

    /// Creates fixed proportions from [`Dim`].
    pub fn fixed(dim: Dim) -> (r: Self)
        ensures
            r == (Proportions { width: Range::fixed_spec(dim.width), height: Range::fixed_spec(dim.height) }),
            r.width.lo() == dim.width && r.width.hi() == Some(dim.width),
            r.height.lo() == dim.height && r.height.hi() == Some(dim.height),
    {
        Proportions { width: Range::fixed(dim.width), height: Range::fixed(dim.height) }
    }

    /// Creates fully flexible proportions: both dimensions are `0..`.
    pub fn flexible() -> (r: Self)
        ensures
            r == (Proportions { width: Range::flexible_spec(), height: Range::flexible_spec() }),
            r.width.lo() == 0 && r.width.hi() == None::<u16>,
            r.height.lo() == 0 && r.height.hi() == None::<u16>,
    {
        Proportions { width: Range::flexible(), height: Range::flexible() }
    }

    /// Collapses all dimensions to minimum fixed values.
    pub fn collapse(self) -> (r: Self)
        ensures
            r.width == spec_range_collapse(self.width),
            r.height == spec_range_collapse(self.height),
            r.width.lo() == self.width.lo() && r.width.hi() == Some(self.width.lo()),
            r.height.lo() == self.height.lo() && r.height.hi() == Some(self.height.lo()),
    {
        Proportions { width: self.width.collapse(), height: self.height.collapse() }
    }

    /// Makes the upper ends of all dimensions flexible: the result can
    /// contain the previous proportions but can also grow flexibly.
    pub fn expand(self) -> (r: Self)
        ensures
            r.width == spec_range_expand(self.width),
            r.height == spec_range_expand(self.height),
            r.width.lo() == self.width.lo() && r.width.hi() == None::<u16>,
            r.height.lo() == self.height.lo() && r.height.hi() == None::<u16>,
    {
        Proportions { width: self.width.expand(), height: self.height.expand() }
    }

    /// Adds the range requirements for both directions.
    pub fn add(self, other: Self) -> (r: Self)
        requires
            self.width.lo() + other.width.lo() <= u16::MAX,
            spec_add_hi(self.width.hi(), other.width.hi()) matches Some(m) ==> m <= u16::MAX,
            self.height.lo() + other.height.lo() <= u16::MAX,
            spec_add_hi(self.height.hi(), other.height.hi()) matches Some(m) ==> m <= u16::MAX,
        ensures
            r.width == spec_range_add(self.width, other.width),
            r.height == spec_range_add(self.height, other.height),
            added_bounds(r.width, self.width, other.width),
            added_bounds(r.height, self.height, other.height),
    {
        let w = self.width.add(other.width);
        let h = self.height.add(other.height);
        proof {
            Range::lemma_view_eq(w, spec_range_add(self.width, other.width));
            Range::lemma_view_eq(h, spec_range_add(self.height, other.height));
        }
        Proportions { width: w, height: h }
    }

    /// Joins the range requirements for both directions.
    pub fn join(self, other: Self) -> (r: Self)
        ensures
            r.width == spec_range_join(self.width, other.width),
            r.height == spec_range_join(self.height, other.height),
            joined_bounds(r.width, self.width, other.width),
            joined_bounds(r.height, self.height, other.height),
    {
        let w = self.width.join(other.width);
        let h = self.height.join(other.height);
        proof {
            Range::lemma_view_eq(w, spec_range_join(self.width, other.width));
            Range::lemma_view_eq(h, spec_range_join(self.height, other.height));
        }
        Proportions { width: w, height: h }
    }
}

/// Objects that have proportions.
///
/// Types can implement this trait to define their layout requirements.
pub trait Proportional {
    /// The proportions.
    spec fn props(&self) -> Proportions;

    /// Computing the proportions cannot fail.
    spec fn has_props(&self) -> bool;

    /// Computes the proportions.
    fn proportions(&self) -> (r: Proportions)
        requires
            self.has_props(),
        ensures
            r == self.props(),
    ;
}

/// Rectangular area.
#[derive(Debug, Copy, Clone, Default, PartialEq, Eq, Structural, Hash)]
pub struct Area {
    pub x: u16,
    pub y: u16,
    pub width: u16,
    pub height: u16,
}

/// Alignment of an item within a rectangle.
#[derive(Debug, Copy, Clone, PartialEq, Eq, Structural, Hash)]
pub enum Alignment {
    TopLeft,
    TopCenter,
    TopRight,
    CenterLeft,
    Center,
    CenterRight,
    BottomLeft,
    BottomCenter,
    BottomRight,
}

impl Default for Alignment {
    fn default() -> (r: Self)
        ensures
            r == Alignment::TopLeft,
    {
        Alignment::TopLeft
    }
}

/// Alignment of a string of items within a rectangle.
#[derive(Debug, Copy, Clone, PartialEq, Eq, Structural, Hash)]
pub enum Justify {
    HCenter(u16),
    VCenter(u16),
    Left(u16),
    Right(u16),
    Top(u16),
    Bottom(u16),
    TopLeft,
    TopCenter,
    TopRight,
    CenterLeft,
    Center,
    CenterRight,
    BottomLeft,
    BottomCenter,
    BottomRight,
}

impl Default for Justify {
    fn default() -> (r: Self)
        ensures
            r == Justify::TopLeft,
    {
        Justify::TopLeft
    }
}

/// The anchor points that aligning to `anchor` by `alignment` uses are
/// representable.
pub open spec fn align_fits(anchor: Area, alignment: Alignment) -> bool {
    let hx = anchor.x + anchor.width / 2 <= u16::MAX;
    let fx = anchor.x + anchor.width <= u16::MAX;
    let hy = anchor.y + anchor.height / 2 <= u16::MAX;
    let fy = anchor.y + anchor.height <= u16::MAX;
    match alignment {
        Alignment::TopLeft => true,
        Alignment::TopCenter => hx && hy,
        Alignment::TopRight => fx,
        Alignment::CenterLeft => hy,
        Alignment::Center => hx && hy,
        Alignment::CenterRight => fx && hy,
        Alignment::BottomLeft => fy,
        Alignment::BottomCenter => hx && fy,
        Alignment::BottomRight => fx && fy,
    }
}

/// The top-left corner that aligning an item of `width` x `height` to
/// `anchor` yields.
pub open spec fn spec_align_pos(width: int, height: int, anchor: Area, alignment: Alignment) -> (int, int) {
    let ax = anchor.x as int;
    let ay = anchor.y as int;
    let aw = anchor.width as int;
    let ah = anchor.height as int;
    match alignment {
        Alignment::TopLeft => (ax, ay),
        Alignment::TopCenter => (sat_sub(ax + aw / 2, width / 2), ay),
        Alignment::TopRight => (sat_sub(ax + aw, width), ay),
        Alignment::CenterLeft => (ax, sat_sub(ay + ah / 2, height / 2)),
        Alignment::Center => (sat_sub(ax + aw / 2, width / 2), sat_sub(ay + ah / 2, height / 2)),
        Alignment::CenterRight => (sat_sub(ax + aw, width), sat_sub(ay + ah / 2, height / 2)),
        Alignment::BottomLeft => (ax, sat_sub(ay + ah, height)),
        Alignment::BottomCenter => (sat_sub(ax + aw / 2, width / 2), sat_sub(ay + ah, height)),
        Alignment::BottomRight => (sat_sub(ax + aw, width), sat_sub(ay + ah, height)),
    }
}

impl Area {
    /// The right and bottom edges of the area are representable in `u16`.
    pub open spec fn fits(self) -> bool {
        self.x + self.width <= u16::MAX && self.y + self.height <= u16::MAX
    }

    /// The position `[px, py]` lies in the area.
    pub open spec fn has(self, px: int, py: int) -> bool {
        self.x <= px < self.x + self.width && self.y <= py < self.y + self.height
    }

    /// Creates `Area` from the position of the top-left corner and its
    /// dimensions.
    pub fn from_parts(pos: Pos, dimensions: Dim) -> (r: Self)
        ensures
            r == (Area { x: pos.x, y: pos.y, width: dimensions.width, height: dimensions.height }),
    {
        Area { x: pos.x, y: pos.y, width: dimensions.width, height: dimensions.height }
    }

    /// Gets the position of the top-left corner and the dimensions.
    pub fn parts(self) -> (r: (Pos, Dim))
        ensures
            r.0 == (Pos { x: self.x, y: self.y }),
            r.1 == (Dim { width: self.width, height: self.height }),
    {
        (Pos { x: self.x, y: self.y }, Dim { width: self.width, height: self.height })
    }

    /// Aligns `self` to `anchor`: the dimensions are kept and the position
    /// is chosen by `alignment` (clamped at 0).
    pub fn align_to(&self, anchor: Self, alignment: Alignment) -> (r: Self)
        requires
            align_fits(anchor, alignment),
        ensures
            r.width == self.width,
            r.height == self.height,
            (r.x as int, r.y as int) == spec_align_pos(self.width as int, self.height as int, anchor, alignment),
    {
        let top_left = match alignment {
            Alignment::TopLeft => anchor.top_left(),
            Alignment::TopCenter => Pos { x: anchor.center().x.saturating_sub(self.width / 2), y: anchor.y },
            Alignment::TopRight => Pos { x: anchor.top_right().x.saturating_sub(self.width), y: anchor.y },
            Alignment::CenterLeft => Pos { x: anchor.x, y: anchor.center_left().y.saturating_sub(self.height / 2) },
            Alignment::Center => anchor.center().saturating_sub(Pos { x: self.width / 2, y: self.height / 2 }),
            Alignment::CenterRight => anchor.center_right().saturating_sub(Pos { x: self.width, y: self.height / 2 }),
            Alignment::BottomLeft => Pos { x: anchor.x, y: anchor.bottom_left().y.saturating_sub(self.height) },
            Alignment::BottomCenter => anchor.bottom_center().saturating_sub(Pos { x: self.width / 2, y: self.height }),
            Alignment::BottomRight => anchor.bottom_right().saturating_sub(Pos { x: self.width, y: self.height }),
        };
        Area { x: top_left.x, y: top_left.y, width: self.width, height: self.height }
    }

    /// Checks if areas overlap.
    pub fn overlaps(&self, other: Self) -> (r: bool)
        requires
            self.fits(),
            other.fits(),
        ensures
            r == spec_overlaps(*self, other),
    {
        let other_l = other.x;
        let other_r = other.x + other.width;
        let other_t = other.y;
        let other_b = other.y + other.height;

        let self_l = self.x;
        let self_r = self.x + self.width;
        let self_t = self.y;
        let self_b = self.y + self.height;

        let x_overlaps = other_l < self_r && other_r > self_l;
        let y_overlaps = other_t < self_b && other_b > self_t;

        x_overlaps && y_overlaps
    }

    /// Checks if `pos` falls within the area.
    pub fn contains_pos(&self, pos: Pos) -> (r: bool)
        requires
            self.fits(),
        ensures
            r == self.has(pos.x as int, pos.y as int),
    {
        pos.x >= self.x && pos.x < self.x + self.width && pos.y >= self.y && pos.y < self.y + self.height
    }

    /// Checks if either of the dimensions is `0`.
    pub fn is_collapsed(&self) -> (r: bool)
        ensures
            r == (self.width == 0 || self.height == 0),
    {
        self.width == 0 || self.height == 0
    }

    /// Computes the intersection of `self` and `other`, which must overlap.
    pub fn intersection(&self, other: Self) -> (r: Self)
        requires
            self.fits(),
            other.fits(),
            spec_overlaps(*self, other),
        ensures
            r == spec_intersection(*self, other),
            r.fits(),
    {
        let left_x = max(self.x, other.x);
        let right_x = min(self.x + self.width, other.x + other.width);
        let top_y = max(self.y, other.y);
        let bottom_y = min(self.y + self.height, other.y + other.height);

        Area { x: left_x, y: top_y, width: right_x - left_x, height: bottom_y - top_y }
    }

    /// Shrinks the area from each side by `count`.
    pub fn inset(&self, count: u16) -> (r: Self)
        requires
            self.x + count <= u16::MAX,
            self.y + count <= u16::MAX,
            2 * count <= self.width,
            2 * count <= self.height,
        ensures
            r == (Area {
                x: (self.x + count) as u16,
                y: (self.y + count) as u16,
                width: (self.width - 2 * count) as u16,
                height: (self.height - 2 * count) as u16,
            }),
    {
        Area { x: self.x + count, y: self.y + count, width: self.width - count * 2, height: self.height - count * 2 }
    }

    /// Splits the area horizontally at `y` relative to the start of the area.
    pub fn split_horiz_at(&self, y: u16) -> (r: (Self, Self))
        requires
            y <= self.height,
            self.y + y <= u16::MAX,
        ensures
            r == spec_split_horiz(*self, y as int),
            r.0 == (Area { x: self.x, y: self.y, width: self.width, height: y }),
            r.1 == (Area { x: self.x, y: (self.y + y) as u16, width: self.width, height: (self.height - y) as u16 }),
    {
        (
            Area { x: self.x, y: self.y, width: self.width, height: y },
            Area { x: self.x, y: self.y + y, width: self.width, height: self.height - y },
        )
    }

    /// Splits the area vertically at `x` relative to the start of the area.
    pub fn split_vert_at(&self, x: u16) -> (r: (Self, Self))
        requires
            x <= self.width,
            self.x + x <= u16::MAX,
        ensures
            r == spec_split_vert(*self, x as int),
            r.0 == (Area { x: self.x, y: self.y, width: x, height: self.height }),
            r.1 == (Area { x: (self.x + x) as u16, y: self.y, width: (self.width - x) as u16, height: self.height }),
    {
        (
            Area { x: self.x, y: self.y, width: x, height: self.height },
            Area { x: self.x + x, y: self.y, width: self.width - x, height: self.height },
        )
    }

    /// Splits the area horizontally at the absolute row `y`.
    pub fn split_horiz_at_abs(&self, y: u16) -> (r: (Self, Self))
        requires
            self.y <= y,
            y <= self.y + self.height,
        ensures
            r == spec_split_horiz(*self, y - self.y),
            r.0 == (Area { x: self.x, y: self.y, width: self.width, height: (y - self.y) as u16 }),
            r.1 == (Area { x: self.x, y: y, width: self.width, height: (self.height - (y - self.y)) as u16 }),
    {
        let first_height = y - self.y;
        (
            Area { x: self.x, y: self.y, width: self.width, height: first_height },
            Area { x: self.x, y, width: self.width, height: self.height - first_height },
        )
    }

    /// Splits the area vertically at the absolute column `x`.
    pub fn split_vert_at_abs(&self, x: u16) -> (r: (Self, Self))
        requires
            self.x <= x,
            x <= self.x + self.width,
        ensures
            r == spec_split_vert(*self, x - self.x),
            r.0 == (Area { x: self.x, y: self.y, width: (x - self.x) as u16, height: self.height }),
            r.1 == (Area { x: x, y: self.y, width: (self.width - (x - self.x)) as u16, height: self.height }),
    {
        let first_width = x - self.x;
        (
            Area { x: self.x, y: self.y, width: first_width, height: self.height },
            Area { x, y: self.y, width: self.width - first_width, height: self.height },
        )
    }

    /// Dimensions of the area.
    pub fn dimensions(&self) -> (r: Dim)
        ensures
            r == (Dim { width: self.width, height: self.height }),
    {
        Dim { width: self.width, height: self.height }
    }

    /// Position of the top left corner.
    pub fn top_left(&self) -> (r: Pos)
        ensures
            r == (Pos { x: self.x, y: self.y }),
    {
        Pos { x: self.x, y: self.y }
    }

    /// Position of the midpoint of the top side.
    pub fn top_center(&self) -> (r: Pos)
        requires
            self.x + self.width / 2 <= u16::MAX,
        ensures
            r == (Pos { x: (self.x + self.width / 2) as u16, y: self.y }),
    {
        Pos { x: self.x + self.width / 2, y: self.y }
    }

    /// Position of the top right corner (the x coordinate is exclusive).
    pub fn top_right(&self) -> (r: Pos)
        requires
            self.x + self.width <= u16::MAX,
        ensures
            r == (Pos { x: (self.x + self.width) as u16, y: self.y }),
    {
        Pos { x: self.x + self.width, y: self.y }
    }

    /// Position of the midpoint of the left side.
    pub fn center_left(&self) -> (r: Pos)
        requires
            self.y + self.height / 2 <= u16::MAX,
        ensures
            r == (Pos { x: self.x, y: (self.y + self.height / 2) as u16 }),
    {
        Pos { x: self.x, y: self.y + self.height / 2 }
    }

    /// Position of the center.
    pub fn center(&self) -> (r: Pos)
        requires
            self.x + self.width / 2 <= u16::MAX,
            self.y + self.height / 2 <= u16::MAX,
        ensures
            r == (Pos { x: (self.x + self.width / 2) as u16, y: (self.y + self.height / 2) as u16 }),
    {
        Pos { x: self.x + self.width / 2, y: self.y + self.height / 2 }
    }

    /// Position of the midpoint of the right side (the x coordinate is
    /// exclusive).
    pub fn center_right(&self) -> (r: Pos)
        requires
            self.x + self.width <= u16::MAX,
            self.y + self.height / 2 <= u16::MAX,
        ensures
            r == (Pos { x: (self.x + self.width) as u16, y: (self.y + self.height / 2) as u16 }),
    {
        Pos { x: self.x + self.width, y: self.y + self.height / 2 }
    }

    /// Position of the bottom left corner (the y coordinate is exclusive).
    pub fn bottom_left(&self) -> (r: Pos)
        requires
            self.y + self.height <= u16::MAX,
        ensures
            r == (Pos { x: self.x, y: (self.y + self.height) as u16 }),
    {
        Pos { x: self.x, y: self.y + self.height }
    }

    /// Position of the midpoint of the bottom side (the y coordinate is
    /// exclusive).
    pub fn bottom_center(&self) -> (r: Pos)
        requires
            self.x + self.width / 2 <= u16::MAX,
            self.y + self.height <= u16::MAX,
        ensures
            r == (Pos { x: (self.x + self.width / 2) as u16, y: (self.y + self.height) as u16 }),
    {
        Pos { x: self.x + self.width / 2, y: self.y + self.height }
    }

    /// Position of the bottom right corner (both coordinates are exclusive).
    pub fn bottom_right(&self) -> (r: Pos)
        requires
            self.x + self.width <= u16::MAX,
            self.y + self.height <= u16::MAX,
        ensures
            r == (Pos { x: (self.x + self.width) as u16, y: (self.y + self.height) as u16 }),
    {
        Pos { x: self.x + self.width, y: self.y + self.height }
    }
}

/// The rows `0..y` of `a` (relative to its top) and the rows below.
pub open spec fn spec_split_horiz(a: Area, y: int) -> (Area, Area) {
    (
        Area { x: a.x, y: a.y, width: a.width, height: y as u16 },
        Area { x: a.x, y: (a.y + y) as u16, width: a.width, height: (a.height - y) as u16 },
    )
}

/// The columns `0..x` of `a` (relative to its left edge) and the columns to
/// their right.
pub open spec fn spec_split_vert(a: Area, x: int) -> (Area, Area) {
    (
        Area { x: a.x, y: a.y, width: x as u16, height: a.height },
        Area { x: (a.x + x) as u16, y: a.y, width: (a.width - x) as u16, height: a.height },
    )
}

/// The two areas share at least one column range and one row range.
pub open spec fn spec_overlaps(a: Area, b: Area) -> bool {
    &&& b.x < a.x + a.width
    &&& b.x + b.width > a.x
    &&& b.y < a.y + a.height
    &&& b.y + b.height > a.y
}

/// The intersection of two overlapping areas.
pub open spec fn spec_intersection(a: Area, b: Area) -> Area {
    let l = spec_max(a.x as int, b.x as int);
    let r = spec_min(a.x + a.width, b.x + b.width);
    let t = spec_max(a.y as int, b.y as int);
    let bo = spec_min(a.y + a.height, b.y + b.height);
    Area { x: l as u16, y: t as u16, width: (r - l) as u16, height: (bo - t) as u16 }
}

/// The intersection of overlapping areas is an area inside both,
/// and when it is not collapsed, intersecting it with `a` again changes
/// nothing.
pub proof fn lemma_intersection_inside(a: Area, b: Area)
    requires
        a.fits(),
        b.fits(),
        spec_overlaps(a, b),
    ensures
        spec_intersection(a, b).fits(),
        a.x <= spec_intersection(a, b).x,
        b.x <= spec_intersection(a, b).x,
        a.y <= spec_intersection(a, b).y,
        b.y <= spec_intersection(a, b).y,
        spec_intersection(a, b).x + spec_intersection(a, b).width <= a.x + a.width,
        spec_intersection(a, b).x + spec_intersection(a, b).width <= b.x + b.width,
        spec_intersection(a, b).y + spec_intersection(a, b).height <= a.y + a.height,
        spec_intersection(a, b).y + spec_intersection(a, b).height <= b.y + b.height,
        spec_intersection(a, b).width > 0 && spec_intersection(a, b).height > 0 ==> {
            &&& spec_overlaps(a, spec_intersection(a, b))
            &&& spec_intersection(a, spec_intersection(a, b)) == spec_intersection(a, b)
        },
{
    let l = spec_max(a.x as int, b.x as int);
    let r = spec_min(a.x + a.width, b.x + b.width);
    let t = spec_max(a.y as int, b.y as int);
    let bo = spec_min(a.y + a.height, b.y + b.height);
    assert(0 <= r - l <= u16::MAX);
    assert(0 <= bo - t <= u16::MAX);
    assert(spec_intersection(a, b).width == r - l);
    assert(spec_intersection(a, b).height == bo - t);
}


/// Placing two ranges next to each other does not depend on their order.
pub proof fn law_range_add_commutative(a: Range, b: Range)
    ensures
        spec_range_add(a, b) == spec_range_add(b, a),
{
}

/// Placing ranges next to each other does not depend on how they are
/// grouped.
pub proof fn law_range_add_associative(a: Range, b: Range, c: Range)
    requires
        a.lo() + b.lo() + c.lo() <= u16::MAX,
        a.hi() is Some && b.hi() is Some && c.hi() is Some ==> a.hi().unwrap() + b.hi().unwrap()
            + c.hi().unwrap() <= u16::MAX,
    ensures
        spec_range_add(spec_range_add(a, b), c) == spec_range_add(a, spec_range_add(b, c)),
{
}

/// Two sizes that two ranges allow add up to a size that the sum of the
/// ranges allows.
pub proof fn law_range_add_allows(a: Range, b: Range, s: int, t: int)
    requires
        a.lo() + b.lo() <= u16::MAX,
        spec_add_hi(a.hi(), b.hi()) matches Some(m) ==> m <= u16::MAX,
        a.allows(s),
        b.allows(t),
    ensures
        spec_range_add(a, b).allows(s + t),
{
}

/// Joining ranges does not depend on their order.
pub proof fn law_range_join_commutative(a: Range, b: Range)
    ensures
        spec_range_join(a, b) == spec_range_join(b, a),
{
}

/// Joining ranges does not depend on how they are grouped.
pub proof fn law_range_join_associative(a: Range, b: Range, c: Range)
    ensures
        spec_range_join(spec_range_join(a, b), c) == spec_range_join(a, spec_range_join(b, c)),
{
}

/// Joining a range with itself gives it back.
pub proof fn law_range_join_idempotent(a: Range)
    ensures
        spec_range_join(a, a) == a,
{
}

/// A size that both ranges allow is allowed by their join.
pub proof fn law_range_join_allows(a: Range, b: Range, s: int)
    requires
        a.allows(s),
        b.allows(s),
    ensures
        spec_range_join(a, b).allows(s),
{
}

/// An expanded range keeps its minimum and allows every size the range
/// allowed, and any larger one.
pub proof fn law_range_expand_contains(a: Range, s: int)
    requires
        a.lo() <= s,
    ensures
        spec_range_expand(a).lo() == a.lo(),
        spec_range_expand(a).allows(s),
{
}

/// A collapsed range allows its minimum and nothing else.
pub proof fn law_range_collapse_fixed(a: Range, s: int)
    ensures
        spec_range_collapse(a).allows(s) <==> s == a.lo(),
{
}

/// Fitting succeeds exactly on the dimensions that satisfy the proportions.
pub proof fn law_fit_into_ok_iff_satisfies(d: Dim, p: Proportions)
    ensures
        spec_fit_into(d, p) is Ok <==> spec_satisfies(d, p),
{
}

/// A successful fit is the largest size, in each direction, that the
/// proportions allow and that is available.
pub proof fn law_fit_into_largest(d: Dim, p: Proportions, w: int, h: int)
    requires
        p.width.well_formed(),
        p.height.well_formed(),
        spec_fit_into(d, p) is Ok,
    ensures
        p.width.allows(spec_fit_into(d, p)->Ok_0.width as int),
        p.height.allows(spec_fit_into(d, p)->Ok_0.height as int),
        spec_fit_into(d, p)->Ok_0.width <= d.width,
        spec_fit_into(d, p)->Ok_0.height <= d.height,
        p.width.allows(w) && w <= d.width ==> w <= spec_fit_into(d, p)->Ok_0.width,
        p.height.allows(h) && h <= d.height ==> h <= spec_fit_into(d, p)->Ok_0.height,
{
}

/// The size that a fit gives, whether it succeeded or not.
pub open spec fn fitted(r: Result<Dim, Dim>) -> Dim {
    match r {
        Ok(d) => d,
        Err(d) => d,
    }
}

/// Fitting treats each direction on its own, also when it fails: a
/// direction whose available size meets its minimum gets the largest size
/// its range allows and that is available; one that misses its minimum
/// keeps its available size.
pub proof fn law_fit_into_each_direction(d: Dim, p: Proportions, w: int, h: int)
    requires
        p.width.well_formed(),
        p.height.well_formed(),
    ensures
        d.width >= p.width.lo() ==> {
            &&& p.width.allows(fitted(spec_fit_into(d, p)).width as int)
            &&& fitted(spec_fit_into(d, p)).width <= d.width
            &&& (p.width.allows(w) && w <= d.width ==> w <= fitted(spec_fit_into(d, p)).width)
        },
        d.width < p.width.lo() ==> fitted(spec_fit_into(d, p)).width == d.width,
        d.height >= p.height.lo() ==> {
            &&& p.height.allows(fitted(spec_fit_into(d, p)).height as int)
            &&& fitted(spec_fit_into(d, p)).height <= d.height
            &&& (p.height.allows(h) && h <= d.height ==> h <= fitted(spec_fit_into(d, p)).height)
        },
        d.height < p.height.lo() ==> fitted(spec_fit_into(d, p)).height == d.height,
{
}

/// Overlapping is symmetric.
pub proof fn law_overlaps_symmetric(a: Area, b: Area)
    ensures
        spec_overlaps(a, b) == spec_overlaps(b, a),
{
}

/// The intersection does not depend on the order of the areas.
pub proof fn law_intersection_commutative(a: Area, b: Area)
    ensures
        spec_intersection(a, b) == spec_intersection(b, a),
{
}

/// A position lies in the intersection of overlapping areas exactly when
/// it lies in both.
pub proof fn law_intersection_has(a: Area, b: Area, px: int, py: int)
    requires
        a.fits(),
        b.fits(),
        spec_overlaps(a, b),
    ensures
        spec_intersection(a, b).has(px, py) <==> a.has(px, py) && b.has(px, py),
{
    lemma_intersection_inside(a, b);
}

/// Splitting an area horizontally divides its cells between the two
/// parts: every cell lies in exactly one of them.
pub proof fn law_split_horiz_partition(a: Area, y: int, px: int, py: int)
    requires
        0 <= y <= a.height,
        a.y + y <= u16::MAX,
    ensures
        spec_split_horiz(a, y).0.height + spec_split_horiz(a, y).1.height == a.height,
        a.has(px, py) <==> spec_split_horiz(a, y).0.has(px, py) || spec_split_horiz(a, y).1.has(px, py),
        !(spec_split_horiz(a, y).0.has(px, py) && spec_split_horiz(a, y).1.has(px, py)),
{
}

/// Splitting an area vertically divides its cells between the two parts:
/// every cell lies in exactly one of them.
pub proof fn law_split_vert_partition(a: Area, x: int, px: int, py: int)
    requires
        0 <= x <= a.width,
        a.x + x <= u16::MAX,
    ensures
        spec_split_vert(a, x).0.width + spec_split_vert(a, x).1.width == a.width,
        a.has(px, py) <==> spec_split_vert(a, x).0.has(px, py) || spec_split_vert(a, x).1.has(px, py),
        !(spec_split_vert(a, x).0.has(px, py) && spec_split_vert(a, x).1.has(px, py)),
{
}

/// An item no larger than the anchor is aligned to a place inside it.
pub proof fn law_align_inside(width: int, height: int, anchor: Area, alignment: Alignment)
    requires
        align_fits(anchor, alignment),
        0 <= width <= anchor.width,
        0 <= height <= anchor.height,
    ensures
        anchor.x <= spec_align_pos(width, height, anchor, alignment).0,
        spec_align_pos(width, height, anchor, alignment).0 + width <= anchor.x + anchor.width,
        anchor.y <= spec_align_pos(width, height, anchor, alignment).1,
        spec_align_pos(width, height, anchor, alignment).1 + height <= anchor.y + anchor.height,
{
}

} // verus!
