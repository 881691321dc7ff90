//! Storage tiers and the free-space snapshot the placement policy reads.

use vstd::prelude::*;

verus! {

/// Number of tiers the engine exposes.
pub const TIER_COUNT: usize = 3;

/// A storage tier, ordered by descending speed.
#[derive(Clone, Copy, Debug, PartialEq, Eq, Structural)]
pub enum TierIndex {
    Fastest,
    Fast,
    Slow,
}

impl TierIndex {
    /// Position of the tier in a free-space snapshot: 0 is the fastest.
    pub open spec fn index(self) -> int {
        match self {
            TierIndex::Fastest => 0,
            TierIndex::Fast => 1,
            TierIndex::Slow => 2,
        }
    }

    /// The tier at position `i`, for `0 <= i < 3`.
    pub open spec fn at(i: int) -> TierIndex {
        if i <= 0 {
            TierIndex::Fastest
        } else if i == 1 {
            TierIndex::Fast
        } else {
            TierIndex::Slow
        }
    }

    /// Position of the tier in a free-space snapshot.
    pub fn as_usize(self) -> (i: usize)
        ensures
            i == self.index(),
    {
        match self {
            TierIndex::Fastest => 0,
            TierIndex::Fast => 1,
            TierIndex::Slow => 2,
        }
    }

    /// The tier numbered `i`, if there is one.
    pub fn from_index(i: usize) -> (tier: Option<TierIndex>)
        ensures
            i < TIER_COUNT ==> tier == Some(TierIndex::at(i as int)),
            i >= TIER_COUNT ==> tier is None,
    {
        if i == 0 {
            Some(TierIndex::Fastest)
        } else if i == 1 {
            Some(TierIndex::Fast)
        } else if i == 2 {
            Some(TierIndex::Slow)
        } else {
            None
        }
    }
}

/// Free and total capacity of one tier, both in the same unit.
#[derive(Clone, Copy, Debug, PartialEq, Eq, Structural)]
pub struct TierSpace {
    pub free: u64,
    pub total: u64,
}

impl TierSpace {
    /// A tier never has more free space than capacity.
    pub open spec fn wf(self) -> bool {
        self.free <= self.total
    }

    /// Builds a snapshot entry, refusing one that claims more free space
    /// than the tier holds.
    pub fn new(free: u64, total: u64) -> (space: Option<TierSpace>)
        ensures
            free <= total ==> space == Some(TierSpace { free, total }),
            free > total ==> space is None,
    {
        if free <= total {
            Some(TierSpace { free, total })
        } else {
            None
        }
    }
}

/// Whether every tier of a snapshot is well-formed.
pub open spec fn view_wf(view: Seq<TierSpace>) -> bool {
    &&& view.len() == TIER_COUNT
    &&& forall|t: int| 0 <= t < view.len() ==> (#[trigger] view[t]).wf()
}

} // verus!
