//! The inclusive block-number range that one run covers.

use vstd::prelude::*;

verus! {

/// An inclusive range of block numbers, `start <= end`.
#[derive(Clone, Copy, Debug, PartialEq, Eq, Structural)]
pub struct BlockRange {
    pub start: u64,
    pub end: u64,
}

impl BlockRange {
    /// The range is well formed: the bounds are ordered.
    pub open spec fn wf(self) -> bool {
        self.start <= self.end
    }

    /// Number of block numbers the range covers, as a mathematical integer.
    pub open spec fn size(self) -> int {
        self.end - self.start + 1
    }

    /// Builds the range, rejecting a pair with `start > end`.
    pub fn new(start: u64, end: u64) -> (r: Option<BlockRange>)
        ensures
            start <= end <==> r is Some,
            r is Some ==> r->Some_0 == (BlockRange { start, end }) && r->Some_0.wf(),
    {
        if start <= end {
            Some(BlockRange { start, end })
        } else {
            None
        }
    }
}

} // verus!
