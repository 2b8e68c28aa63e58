//! A widget that fills its area.

use vstd::prelude::*;
use crate::layout::{Area, Proportional, Proportions, Range};
use crate::render::{Draw, Render, Screen, spec_fill};
use crate::style::StyledChar;

verus! {

/// Fills the space with a [`StyledChar`].
#[derive(Debug, Clone)]
pub struct Filler(pub StyledChar);

impl<R: Render> Draw<R> for Filler {
    open spec fn can_draw(&self, view: Area, area: Area) -> bool {
        area.fits()
    }

    open spec fn drawn(&self, before: Screen, after: Screen, area: Area) -> bool {
        after == spec_fill(before, self.0, area)
    }

    fn draw(&self, buf: &mut R, area: Area) {
        buf.fill(self.0, area);
    }
}

impl Proportional for Filler {
    open spec fn props(&self) -> Proportions {
        Proportions { width: Range::flexible_spec(), height: Range::flexible_spec() }
    }

    open spec fn has_props(&self) -> bool {
        true
    }

    fn proportions(&self) -> (r: Proportions) {
        Proportions::flexible()
    }
}

} // verus!
