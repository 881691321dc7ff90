//! The checkpoint workload: generations of large objects written to the
//! fastest tier, with a durability barrier after each generation.
//!
//! The driver never hints at migration; moving older generations to
//! slower tiers is the engine's business.

use vstd::prelude::*;
use crate::action::{Action, ActionView, ObjectWrite, ObjectWriteView, SyncPoint};
use crate::keys::{checkpoint_key, checkpoint_key_spec, lemma_checkpoint_keys_distinct};
use crate::tier::TierIndex;

verus! {

/// Objects per generation.
pub const N_OBJECTS: usize = 5;

/// Size of each object of a generation, in MiB.
pub const OBJECT_SIZE_MIB: [u64; 5] = [256, 256, 1, 384, 128];

/// Generations per run.
pub const N_GENERATIONS: usize = 20;

/// Bytes per MiB.
pub const MIB: u64 = 1024 * 1024;

/// Steps a generation takes: one per object and the barrier.
pub open spec fn steps_per_generation() -> nat {
    (N_OBJECTS + 1) as nat
}

/// Step at which the closing barrier stands.
pub open spec fn closing_step() -> nat {
    N_GENERATIONS as nat * steps_per_generation()
}

/// The write of object `object` of generation `generation`.
pub open spec fn checkpoint_write(generation: nat, object: nat) -> ObjectWriteView {
    ObjectWriteView {
        key: checkpoint_key_spec(generation, object),
        create_tier: TierIndex::Fastest,
        cursor_tier: TierIndex::Fastest,
        size: (OBJECT_SIZE_MIB[object as int] * MIB) as u64,
    }
}

/// The action at step `step` of a run, counted from zero.
///
/// Each generation writes its objects in slot order and then syncs; after
/// the last generation one more sync closes the run.
pub open spec fn checkpoint_action(step: nat) -> ActionView {
    if step < closing_step() {
        let generation = step / steps_per_generation();
        let slot = step % steps_per_generation();
        if slot < N_OBJECTS {
            ActionView::Write(checkpoint_write(generation, slot))
        } else {
            ActionView::Sync(SyncPoint::Barrier)
        }
    } else if step == closing_step() {
        ActionView::Sync(SyncPoint::Barrier)
    } else {
        ActionView::Finished
    }
}

/// No two writes of a run share a key.
pub proof fn lemma_checkpoint_keys_unique(step1: nat, step2: nat)
    requires
        step1 != step2,
        checkpoint_action(step1) is Write,
        checkpoint_action(step2) is Write,
    ensures
        checkpoint_action(step1)->Write_0.key != checkpoint_action(step2)->Write_0.key,
{
    assert(steps_per_generation() == 6);
    let (g1, o1) = (step1 / 6, step1 % 6);
    let (g2, o2) = (step2 / 6, step2 % 6);
    assert(g1 != g2 || o1 != o2);
    lemma_checkpoint_keys_distinct(g1, o1, g2, o2);
}

/// The checkpoint driver: a position in the fixed sequence of actions.
pub struct CheckpointDriver {
    step: u64,
}

impl CheckpointDriver {
    /// Number of actions handed out so far, up to and including the
    /// first `Finished`.
    pub closed spec fn position(self) -> nat {
        self.step as nat
    }

    /// A driver at the start of a run.
    pub fn new() -> (driver: CheckpointDriver)
        ensures
            driver.position() == 0,
    {
        CheckpointDriver { step: 0 }
    }

    /// Hands out the next action and moves on. Once the run is over every
    /// further call answers `Finished`.
    pub fn step(&mut self) -> (action: Action)
        ensures
            action@ == checkpoint_action(old(self).position()),
            final(self).position() == if old(self).position() <= closing_step() {
                old(self).position() + 1
            } else {
                old(self).position()
            },
    {
        let per_generation: u64 = N_OBJECTS as u64 + 1;
        let closing: u64 = N_GENERATIONS as u64 * per_generation;
        let step = self.step;
        if step > closing {
            return Action::Finished;
        }
        self.step = step + 1;
        if step == closing {
            return Action::Sync(SyncPoint::Barrier);
        }
        let generation = step / per_generation;
        let slot = (step % per_generation) as usize;
        if slot < N_OBJECTS {
            Action::Write(
                ObjectWrite {
                    key: checkpoint_key(generation, slot as u64),
                    create_tier: TierIndex::Fastest,
                    cursor_tier: TierIndex::Fastest,
                    size: OBJECT_SIZE_MIB[slot] * MIB,
                },
            )
        } else {
            Action::Sync(SyncPoint::Barrier)
        }
    }
}

} // verus!
