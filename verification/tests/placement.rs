use tiered_workloads::placement::{
    place, place_reserved, pref, tier_accepts, PlacementExhausted, PlacementVariant,
};
use tiered_workloads::tier::{TierIndex, TierSpace, TIER_COUNT};

const TIERS: [TierIndex; 3] = [TierIndex::Fastest, TierIndex::Fast, TierIndex::Slow];

fn space(free: u64, total: u64) -> TierSpace {
    TierSpace { free, total }
}

#[test]
fn headroom_falls_through_to_the_next_tier() {
    let view = [space(100, 1000), space(900, 1000), space(900, 1000)];
    assert_eq!(pref(TierIndex::Fastest, 10, &view), Ok(TierIndex::Fast));
}

#[test]
fn headroom_exhausted_when_every_tier_is_too_full() {
    let view = [space(100, 1000), space(100, 1000), space(100, 1000)];
    assert_eq!(pref(TierIndex::Fastest, 1000, &view), Err(PlacementExhausted));
}

#[test]
fn simple_fit_accepts_the_desired_tier_and_books_it() {
    let mut view = [space(10, 1000), space(10, 1000), space(100, 1000)];
    let placed = place_reserved(PlacementVariant::SimpleFit, TierIndex::Slow, 50, &mut view);
    assert_eq!(placed, Ok(TierIndex::Slow));
    assert_eq!(view[0].free, 10);
    assert_eq!(view[1].free, 10);
    assert_eq!(view[2].free, 50);
    assert_eq!(view[2].total, 1000);
}

#[test]
fn simple_fit_on_a_live_view_leaves_it_alone() {
    let view = [space(10, 1000), space(10, 1000), space(100, 1000)];
    assert_eq!(place(PlacementVariant::SimpleFit, TierIndex::Slow, 50, &view), Ok(TierIndex::Slow));
    assert_eq!(view[2].free, 100);
}

#[test]
fn headroom_is_a_strict_bound() {
    // 300 - 99 = 201 exceeds a fifth of 1000; 300 - 100 = 200 does not.
    assert!(tier_accepts(PlacementVariant::Headroom, space(300, 1000), 99));
    assert!(!tier_accepts(PlacementVariant::Headroom, space(300, 1000), 100));
    assert!(!tier_accepts(PlacementVariant::Headroom, space(300, 1000), 101));
}

#[test]
fn headroom_does_not_round_the_fifth() {
    // A fifth of 1004 is 200.8 and a fifth of 1005 is 201.
    assert!(tier_accepts(PlacementVariant::Headroom, space(301, 1004), 100));
    assert!(!tier_accepts(PlacementVariant::Headroom, space(301, 1005), 100));
    assert!(tier_accepts(PlacementVariant::Headroom, space(302, 1005), 100));
}

#[test]
fn headroom_rejects_an_object_larger_than_the_free_space() {
    assert!(!tier_accepts(PlacementVariant::Headroom, space(100, 1000), 101));
    assert!(!tier_accepts(PlacementVariant::Headroom, space(0, 0), 0));
    assert!(!tier_accepts(PlacementVariant::Headroom, space(u64::MAX, u64::MAX), u64::MAX));
    assert!(tier_accepts(PlacementVariant::Headroom, space(u64::MAX, u64::MAX), 0));
}

#[test]
fn simple_fit_is_a_strict_bound() {
    assert!(tier_accepts(PlacementVariant::SimpleFit, space(51, 1000), 50));
    assert!(!tier_accepts(PlacementVariant::SimpleFit, space(50, 1000), 50));
    assert!(!tier_accepts(PlacementVariant::SimpleFit, space(0, 1000), 0));
}

#[test]
fn placement_never_moves_to_a_faster_tier() {
    let frees = [0u64, 150, 250, 1000];
    for variant in [PlacementVariant::Headroom, PlacementVariant::SimpleFit] {
        for f0 in frees {
            for f1 in frees {
                for f2 in frees {
                    let view = [space(f0, 1000), space(f1, 1000), space(f2, 1000)];
                    for desired in TIERS {
                        for size in [0u64, 40, 200, 999] {
                            if let Ok(tier) = place(variant, desired, size, &view) {
                                assert!(tier.as_usize() >= desired.as_usize());
                                assert!(tier_accepts(variant, view[tier.as_usize()], size));
                                for skipped in desired.as_usize()..tier.as_usize() {
                                    assert!(!tier_accepts(variant, view[skipped], size));
                                }
                            } else {
                                for t in desired.as_usize()..TIER_COUNT {
                                    assert!(!tier_accepts(variant, view[t], size));
                                }
                            }
                        }
                    }
                }
            }
        }
    }
}

#[test]
fn placement_is_deterministic() {
    let view = [space(210, 1000), space(500, 1000), space(900, 1000)];
    for desired in TIERS {
        let first = pref(desired, 10, &view);
        for _ in 0..10 {
            assert_eq!(pref(desired, 10, &view), first);
        }
    }
    assert_eq!(pref(TierIndex::Fastest, 10, &view), Ok(TierIndex::Fast));
    assert_eq!(pref(TierIndex::Fastest, 9, &view), Ok(TierIndex::Fastest));
}

#[test]
fn placement_ignores_faster_tiers_than_desired() {
    let view = [space(1000, 1000), space(0, 1000), space(0, 1000)];
    assert_eq!(pref(TierIndex::Fastest, 1, &view), Ok(TierIndex::Fastest));
    assert_eq!(pref(TierIndex::Fast, 1, &view), Err(PlacementExhausted));
    assert_eq!(pref(TierIndex::Slow, 1, &view), Err(PlacementExhausted));
}

#[test]
fn exhausted_reservation_leaves_the_view_unchanged() {
    let mut view = [space(10, 1000), space(20, 1000), space(30, 1000)];
    let placed = place_reserved(PlacementVariant::SimpleFit, TierIndex::Fastest, 30, &mut view);
    assert_eq!(placed, Err(PlacementExhausted));
    assert_eq!(view, [space(10, 1000), space(20, 1000), space(30, 1000)]);
}

#[test]
fn reservations_add_up() {
    let mut view = [space(100, 1000), space(100, 1000), space(100, 1000)];
    let mut placed = Vec::new();
    for _ in 0..7 {
        placed.push(place_reserved(PlacementVariant::SimpleFit, TierIndex::Fastest, 40, &mut view));
    }
    assert_eq!(
        placed,
        vec![
            Ok(TierIndex::Fastest),
            Ok(TierIndex::Fastest),
            Ok(TierIndex::Fast),
            Ok(TierIndex::Fast),
            Ok(TierIndex::Slow),
            Ok(TierIndex::Slow),
            Err(PlacementExhausted),
        ]
    );
    assert_eq!(view, [space(20, 1000), space(20, 1000), space(20, 1000)]);
}

#[test]
fn headroom_reservation_books_the_chosen_tier() {
    let mut view = [space(100, 1000), space(900, 1000), space(900, 1000)];
    let placed = place_reserved(PlacementVariant::Headroom, TierIndex::Fastest, 10, &mut view);
    assert_eq!(placed, Ok(TierIndex::Fast));
    assert_eq!(view, [space(100, 1000), space(890, 1000), space(900, 1000)]);
}

#[test]
fn tier_indices_round_trip() {
    for (i, tier) in TIERS.iter().enumerate() {
        assert_eq!(tier.as_usize(), i);
        assert_eq!(TierIndex::from_index(i), Some(*tier));
    }
    assert_eq!(TierIndex::from_index(3), None);
    assert_eq!(TierIndex::from_index(usize::MAX), None);
}

#[test]
fn tier_space_refuses_more_free_than_total() {
    assert_eq!(TierSpace::new(5, 10), Some(space(5, 10)));
    assert_eq!(TierSpace::new(10, 10), Some(space(10, 10)));
    assert_eq!(TierSpace::new(11, 10), None);
}
