//! Styled text borrowed from a `&str`.

use vstd::prelude::*;
use vstd::std_specs::convert::FromSpecImpl;
use crate::style::{Style, spec_default_style};

verus! {

/// `&str` with attached `Style`.
#[derive(PartialEq, Eq)]
pub struct StyledText<'s> {
    pub content: &'s str,
    pub style: Style,
}

impl<'s> From<&'s str> for StyledText<'s> {
    fn from(s: &'s str) -> (r: Self)
        ensures
            r.content@ == s@,
            r.style == spec_default_style(),
    {
        StyledText { content: s, style: Style::default() }
    }
}

impl<'s> FromSpecImpl<&'s str> for StyledText<'s> {
    open spec fn obeys_from_spec() -> bool {
        true
    }

    open spec fn from_spec(v: &'s str) -> StyledText<'s> {
        StyledText { content: v, style: spec_default_style() }
    }
}

} // verus!
