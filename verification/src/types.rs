//! Small types that several parts of the journal share: directions and
//! version counters.

use vstd::prelude::*;

verus! {

/// The direction in which the slideshow moves from one mnemon to another.
#[derive(Clone, Copy, Debug, PartialEq, Eq, Structural)]
pub enum Direction {
    /// To the next mnemon of the display order.
    Forward,
    /// To the mnemon before.
    Backward,
}

impl Default for Direction {
    fn default() -> (d: Self)
        ensures
            d == Direction::Forward,
    {
        Direction::Forward
    }
}

/// The version that follows `v`. Versions are only ever compared for
/// equality, so after the largest one they start again at 0.
pub open spec fn next_version(v: u64) -> u64 {
    if v == u64::MAX {
        0
    } else {
        (v + 1) as u64
    }
}

/// The version that follows `v`.
pub fn bump(v: u64) -> (r: u64)
    ensures
        r == next_version(v),
        r != v,
{
    if v == u64::MAX {
        0
    } else {
        v + 1
    }
}

} // verus!
