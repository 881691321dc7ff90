//! The tier placement policy.
//!
//! An object asks for a desired tier. The policy accepts the first tier, at
//! or below the desired one in speed, that still has room for the object;
//! it never moves an object to a faster tier than it asked for.

use vstd::prelude::*;
use crate::tier::{view_wf, TierIndex, TierSpace, TIER_COUNT};

verus! {

/// Share of a tier's capacity that has to stay free after a placement
/// under the headroom variant, in percent.
pub const HEADROOM_PERCENT: u64 = 20;

/// Which test a tier has to pass to accept an object.
#[derive(Clone, Copy, Debug, PartialEq, Eq, Structural)]
pub enum PlacementVariant {
    /// What stays free after the object must exceed the headroom.
    Headroom,
    /// The tier must have more free space than the object needs.
    SimpleFit,
}

/// No tier at or below the desired one accepts the object.
#[derive(Clone, Copy, Debug, PartialEq, Eq, Structural)]
pub struct PlacementExhausted;

/// Whether a tier with `space` accepts an object of `size`.
///
/// The headroom test is `free - size > 0.20 * total`, a strict bound over
/// the rationals, written here without fractions. An object larger than
/// the free space is never accepted.
pub open spec fn accepts(variant: PlacementVariant, space: TierSpace, size: u64) -> bool {
    match variant {
        PlacementVariant::Headroom => 100 * (space.free - size) > HEADROOM_PERCENT * space.total,
        PlacementVariant::SimpleFit => space.free > size,
    }
}

/// The tier the policy picks: the first accepting tier from `desired`
/// towards the slowest, or `None` when there is none.
pub open spec fn chosen_tier(
    variant: PlacementVariant,
    desired: TierIndex,
    size: u64,
    view: Seq<TierSpace>,
) -> Option<TierIndex> {
    if desired.index() <= 0 && accepts(variant, view[0], size) {
        Some(TierIndex::Fastest)
    } else if desired.index() <= 1 && accepts(variant, view[1], size) {
        Some(TierIndex::Fast)
    } else if accepts(variant, view[2], size) {
        Some(TierIndex::Slow)
    } else {
        None
    }
}

/// The free-space snapshot after `size` has been reserved on `tier`.
pub open spec fn reserved_view(view: Seq<TierSpace>, tier: TierIndex, size: u64) -> Seq<TierSpace> {
    view.update(
        tier.index(),
        TierSpace {
            free: (view[tier.index()].free - size) as u64,
            total: view[tier.index()].total,
        },
    )
}

/// Tests one tier.
pub fn tier_accepts(variant: PlacementVariant, space: TierSpace, size: u64) -> (ok: bool)
    ensures
        ok == accepts(variant, space, size),
{
    match variant {
        PlacementVariant::Headroom => {
            if space.free < size {
                return false;
            }
            let left: u128 = (space.free - size) as u128;
            let total: u128 = space.total as u128;
            let percent: u128 = HEADROOM_PERCENT as u128;
            assert(percent * total == 20 * total) by (nonlinear_arith)
                requires
                    percent == 20,
            ;
            100 * left > percent * total
        },
        PlacementVariant::SimpleFit => space.free > size,
    }
}

/// Picks the tier for an object of `size` that would like to live on
/// `desired`, or reports that every candidate tier is too full.
pub fn place(
    variant: PlacementVariant,
    desired: TierIndex,
    size: u64,
    view: &[TierSpace; 3],
) -> (placed: Result<TierIndex, PlacementExhausted>)
    ensures
        placed is Ok <==> chosen_tier(variant, desired, size, view@) is Some,
        placed matches Ok(tier) ==> chosen_tier(variant, desired, size, view@) == Some(tier),
{
    let mut t: usize = desired.as_usize();
    while t < TIER_COUNT
        invariant
            desired.index() <= t <= TIER_COUNT,
            forall|u: int| desired.index() <= u < t ==> !accepts(variant, #[trigger] view@[u], size),
        decreases TIER_COUNT - t,
    {
        if tier_accepts(variant, view[t], size) {
            return Ok(TierIndex::from_index(t).unwrap());
        }
        t += 1;
    }
    Err(PlacementExhausted)
}

/// The headroom policy on a live snapshot.
pub fn pref(desired: TierIndex, size: u64, view: &[TierSpace; 3]) -> (placed: Result<
    TierIndex,
    PlacementExhausted,
>)
    ensures
        placed is Ok <==> chosen_tier(PlacementVariant::Headroom, desired, size, view@) is Some,
        placed matches Ok(tier) ==> chosen_tier(PlacementVariant::Headroom, desired, size, view@)
            == Some(tier),
{
    place(PlacementVariant::Headroom, desired, size, view)
}

/// Places an object against a reserved view and books its size on the
/// chosen tier, so that later placements see the space as taken.
pub fn place_reserved(
    variant: PlacementVariant,
    desired: TierIndex,
    size: u64,
    view: &mut [TierSpace; 3],
) -> (placed: Result<TierIndex, PlacementExhausted>)
    ensures
        placed is Ok <==> chosen_tier(variant, desired, size, old(view)@) is Some,
        placed matches Ok(tier) ==> {
            &&& chosen_tier(variant, desired, size, old(view)@) == Some(tier)
            &&& final(view)@ == reserved_view(old(view)@, tier, size)
        },
        placed is Err ==> final(view)@ == old(view)@,
{
    match place(variant, desired, size, view) {
        Ok(tier) => {
            let t = tier.as_usize();
            let space = view[t];
            view[t] = TierSpace { free: space.free - size, total: space.total };
            Ok(tier)
        },
        Err(e) => Err(e),
    }
}

/// The policy never moves an object to a faster tier than it asked for.
pub proof fn lemma_placement_monotonic(
    variant: PlacementVariant,
    desired: TierIndex,
    size: u64,
    view: Seq<TierSpace>,
)
    ensures
        chosen_tier(variant, desired, size, view) matches Some(tier) ==> tier.index()
            >= desired.index(),
{
}

/// The policy is a function of the desired tier, the size and the
/// snapshot: equal inputs give equal placements.
pub proof fn lemma_placement_deterministic(
    variant: PlacementVariant,
    desired1: TierIndex,
    size1: u64,
    view1: Seq<TierSpace>,
    desired2: TierIndex,
    size2: u64,
    view2: Seq<TierSpace>,
)
    requires
        desired1 == desired2,
        size1 == size2,
        view1 =~= view2,
    ensures
        chosen_tier(variant, desired1, size1, view1) == chosen_tier(
            variant,
            desired2,
            size2,
            view2,
        ),
{
}

/// The chosen tier passes the variant's test: under the headroom variant
/// what stays free after the object exceeds 20 percent of the tier's
/// capacity, under simple fit the tier has more free space than the
/// object takes.
pub proof fn lemma_chosen_tier_accepts(
    variant: PlacementVariant,
    desired: TierIndex,
    size: u64,
    view: Seq<TierSpace>,
)
    ensures
        chosen_tier(variant, desired, size, view) matches Some(tier) ==> accepts(
            variant,
            view[tier.index()],
            size,
        ),
        variant == PlacementVariant::Headroom ==> (chosen_tier(variant, desired, size, view)
            matches Some(tier) ==> 100 * (view[tier.index()].free - size) > 20
            * view[tier.index()].total),
        variant == PlacementVariant::SimpleFit ==> (chosen_tier(variant, desired, size, view)
            matches Some(tier) ==> view[tier.index()].free > size),
{
}

/// The policy fails exactly when no tier from the desired one down to the
/// slowest accepts the object, and it skips no accepting tier on the way.
pub proof fn lemma_placement_first_fit(
    variant: PlacementVariant,
    desired: TierIndex,
    size: u64,
    view: Seq<TierSpace>,
)
    ensures
        chosen_tier(variant, desired, size, view) is None <==> (forall|t: int|
            desired.index() <= t < 3 ==> !accepts(variant, #[trigger] view[t], size)),
        chosen_tier(variant, desired, size, view) matches Some(tier) ==> (forall|t: int|
            desired.index() <= t < tier.index() ==> !accepts(variant, #[trigger] view[t], size)),
{
    if chosen_tier(variant, desired, size, view) is None {
        assert forall|t: int| desired.index() <= t < 3 implies !accepts(
            variant,
            #[trigger] view[t],
            size,
        ) by {
            assert(t == 0 || t == 1 || t == 2);
        }
    }
}

/// Booking an accepted object keeps a well-formed snapshot well-formed,
/// lowers the chosen tier's free space by the object's size and touches
/// nothing else.
pub proof fn lemma_reservation(
    variant: PlacementVariant,
    desired: TierIndex,
    size: u64,
    view: Seq<TierSpace>,
)
    requires
        view_wf(view),
    ensures
        chosen_tier(variant, desired, size, view) matches Some(tier) ==> {
            let after = reserved_view(view, tier, size);
            &&& view_wf(after)
            &&& after[tier.index()].free == view[tier.index()].free - size
            &&& after[tier.index()].total == view[tier.index()].total
            &&& forall|t: int| 0 <= t < 3 && t != tier.index() ==> after[t] == view[t]
        },
{
}

} // verus!
