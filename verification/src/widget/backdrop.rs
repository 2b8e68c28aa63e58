//! Two widgets drawn on top of each other.

use vstd::prelude::*;
use crate::layout::{Area, Proportional, Proportions, spec_range_join};
use crate::render::{Draw, Render, Screen};

verus! {

/// Allows two widgets to be drawn in the same area, on top of each other.
///
/// First, `bg` is drawn and then `fg` is drawn in the same area.
#[derive(Debug, Clone)]
pub struct Backdrop<F, B> {
    pub fg: F,
    pub bg: B,
}

impl<F: Draw<R>, B: Draw<R>, R: Render> Draw<R> for Backdrop<F, B> {
    open spec fn can_draw(&self, view: Area, area: Area) -> bool {
        self.bg.can_draw(view, area) && self.fg.can_draw(view, area)
    }

    open spec fn drawn(&self, before: Screen, after: Screen, area: Area) -> bool {
        exists|mid: Screen| #[trigger] self.bg.drawn(before, mid, area) && self.fg.drawn(mid, after, area)
    }

    fn draw(&self, buf: &mut R, area: Area) {
        let ghost s0 = buf.screen();
        self.bg.draw(buf, area);
        let ghost mid = buf.screen();
        self.fg.draw(buf, area);
        proof {
            assert(self.bg.drawn(s0, mid, area) && self.fg.drawn(mid, buf.screen(), area));
        }
    }
}

impl<F: Proportional, B: Proportional> Proportional for Backdrop<F, B> {
    open spec fn props(&self) -> Proportions {
        Proportions {
            width: spec_range_join(self.fg.props().width, self.bg.props().width),
            height: spec_range_join(self.fg.props().height, self.bg.props().height),
        }
    }

    open spec fn has_props(&self) -> bool {
        self.fg.has_props() && self.bg.has_props()
    }

    fn proportions(&self) -> (r: Proportions) {
        self.fg.proportions().join(self.bg.proportions())
    }
}

} // verus!
