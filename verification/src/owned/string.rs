//! Owned version of [`StyledStr`].

use vstd::prelude::*;
use vstd::std_specs::convert::FromSpecImpl;
use crate::style::{AsStyledStr, Style, StyledStr};

verus! {

/// Owned version of [`StyledStr`].
#[derive(Debug, Clone, PartialEq, Eq)]
pub struct StyledString {
    pub content: String,
    pub style: Style,
}

impl AsStyledStr for StyledString {
    open spec fn text_view(&self) -> Seq<char> {
        self.content@
    }

    open spec fn style_view(&self) -> Style {
        self.style
    }

    fn as_styled_str(&self) -> (r: StyledStr<'_>) {
        StyledStr { content: self.content.as_str(), style: self.style }
    }
}

impl<'s> From<StyledStr<'s>> for StyledString {
    fn from(t: StyledStr<'s>) -> (r: Self)
        ensures
            r.content@ == t.content@,
            r.style == t.style,
    {
        StyledString { content: String::from_str(t.content), style: t.style }
    }
}

impl<'s> FromSpecImpl<StyledStr<'s>> for StyledString {
    /// A `String` has no spec-level constructor, so the conversion is only
    /// described by `from`'s own contract.
    open spec fn obeys_from_spec() -> bool {
        false
    }

    open spec fn from_spec(v: StyledStr<'s>) -> StyledString {
        choose|r: StyledString| r.content@ == v.content@ && r.style == v.style
    }
}

impl<'s> StyledStr<'s> {
    /// Converts to `StyledString`.
    pub fn to_owned(&self) -> (r: StyledString)
        ensures
            r.content@ == self.content@,
            r.style == self.style,
    {
        StyledString::from(*self)
    }
}

impl<'s> From<&'s StyledString> for StyledStr<'s> {
    fn from(s: &'s StyledString) -> (r: Self)
        ensures
            r.content@ == s.content@,
            r.style == s.style,
    {
        StyledStr { content: s.content.as_str(), style: s.style }
    }
}

impl<'s> FromSpecImpl<&'s StyledString> for StyledStr<'s> {
    /// The borrowed text has no spec-level constructor, so the conversion is
    /// only described by `from`'s own contract.
    open spec fn obeys_from_spec() -> bool {
        false
    }

    open spec fn from_spec(v: &'s StyledString) -> StyledStr<'s> {
        choose|r: StyledStr<'s>| r.content@ == v.content@ && r.style == v.style
    }
}

} // verus!
