//! Byte ranges of the source text.

use vstd::prelude::*;

verus! {

/// The bytes of the source from offset `lo` up to, not including, `hi`.
#[derive(Clone, Copy, Debug, PartialEq, Eq, Hash, Structural)]
pub struct Span {
    pub lo: u32,
    pub hi: u32,
}

impl Span {
    /// The span between two offsets, whichever of them comes first.
    pub open spec fn between(a: u32, b: u32) -> Span {
        if a <= b {
            Span { lo: a, hi: b }
        } else {
            Span { lo: b, hi: a }
        }
    }

    /// The empty span at offset `at`.
    pub open spec fn empty_at(at: u32) -> Span {
        Span { lo: at, hi: at }
    }

    /// Builds the span between `lo` and `hi`, swapping them if they are out
    /// of order.
    pub fn new(lo: u32, hi: u32) -> (s: Span)
        ensures
            s == Span::between(lo, hi),
            s.lo <= s.hi,
    {
        if lo <= hi {
            Span { lo, hi }
        } else {
            Span { lo: hi, hi: lo }
        }
    }
}

} // verus!
