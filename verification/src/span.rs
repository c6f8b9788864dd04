//! Source spans: half-open offset ranges into one file's source text.

use vstd::prelude::*;

verus! {

/// A region of source text, as a half-open range of offsets.
#[derive(Clone, Copy, Debug, PartialEq, Eq, Structural)]
pub struct Span {
    pub start: u32,
    pub end: u32,
}

impl Span {
    pub fn new(start: u32, end: u32) -> (s: Span)
        ensures
            s.start == start,
            s.end == end,
    {
        Span { start, end }
    }

    /// Whether `other` lies entirely inside this span.
    pub fn covers(&self, other: &Span) -> (b: bool)
        ensures
            b == (self.start <= other.start && other.end <= self.end),
    {
        self.start <= other.start && other.end <= self.end
    }
}

} // verus!
