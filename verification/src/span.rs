//! Source locations.

use vstd::prelude::*;

verus! {

/// A half-open range of byte offsets into a source text.
#[derive(Clone, Copy, Debug, PartialEq, Eq, Structural, Hash)]
pub struct Span {
    pub start: u32,
    pub end: u32,
}

impl Span {
    /// The range from `start` up to, but not including, `end`.
    pub fn new(start: u32, end: u32) -> (span: Span)
        ensures
            span == (Span { start, end }),
    {
        Span { start, end }
    }
}

} // verus!
