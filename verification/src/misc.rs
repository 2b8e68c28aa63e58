//! Slicing text by character positions.

use vstd::prelude::*;
use std::ops::{Range, RangeFrom, RangeTo};

verus! {

/// `std::ops::RangeFrom`, whose public field `start` the slicing reads.
#[verifier::external_type_specification]
#[verifier::reject_recursive_types(Idx)]
pub struct ExRangeFrom<Idx>(RangeFrom<Idx>);

/// `std::ops::RangeTo`, whose public field `end` the slicing reads.
#[verifier::external_type_specification]
#[verifier::reject_recursive_types(Idx)]
pub struct ExRangeTo<Idx>(RangeTo<Idx>);

/// Slicing by character positions rather than byte positions.
pub trait SliceByChars<Idx> {
    /// The characters that slicing at `index` selects, when it can.
    spec fn sliced(&self, index: Idx) -> Option<Seq<char>>;

    /// The characters selected by `index`; they must exist.
    fn slice_by_chars(&self, index: Idx) -> (r: &str)
        requires
            self.sliced(index) is Some,
        ensures
            r@ == self.sliced(index).unwrap(),
    ;
}

impl SliceByChars<Range<usize>> for str {
    /// The characters `start..end`, which exist when `start <= end` and
    /// `end` is within the text.
    open spec fn sliced(&self, index: Range<usize>) -> Option<Seq<char>> {
        if index.start <= index.end <= self@.len() {
            Some(self@.subrange(index.start as int, index.end as int))
        } else {
            None
        }
    }

    fn slice_by_chars(&self, index: Range<usize>) -> (r: &str) {
        self.substring_char(index.start, index.end)
    }
}

impl SliceByChars<RangeFrom<usize>> for str {
    /// The characters from `start` on, which exist when `start` is within
    /// the text.
    open spec fn sliced(&self, index: RangeFrom<usize>) -> Option<Seq<char>> {
        if index.start <= self@.len() {
            Some(self@.subrange(index.start as int, self@.len() as int))
        } else {
            None
        }
    }

    fn slice_by_chars(&self, index: RangeFrom<usize>) -> (r: &str) {
        let len = self.unicode_len();
        self.substring_char(index.start, len)
    }
}

impl SliceByChars<RangeTo<usize>> for str {
    /// The characters before `end`, which exist when `end` is within the
    /// text.
    open spec fn sliced(&self, index: RangeTo<usize>) -> Option<Seq<char>> {
        if index.end <= self@.len() {
            Some(self@.subrange(0, index.end as int))
        } else {
            None
        }
    }

    fn slice_by_chars(&self, index: RangeTo<usize>) -> (r: &str) {
        self.substring_char(0, index.end)
    }
}

} // verus!
