//! The scientific-evaluation workload: one large object written once,
//! then read at a fixed set of random positions, over and over, until the
//! allotted time is up.
//!
//! Replaying the same positions keeps the working set bounded however
//! long the run lasts.

use vstd::prelude::*;
use rand_xoshiro::Xoshiro256Plus;
use crate::action::{Action, ActionView, ObjectWrite, ObjectWriteView, ReadRequest, ReadRequestView, SyncPoint};
use crate::keys::{research_key, research_key_spec};
use crate::rng::next_u64;
use crate::tier::TierIndex;

verus! {

/// Size of the object: 10 GiB.
pub const OBJECT_SIZE: u64 = 10 * 1024 * 1024 * 1024;

/// Upper bound on the length of a read: 12 MiB.
pub const FETCH_SIZE: u64 = 12 * 1024 * 1024;

/// Number of read positions sampled per run.
pub const N_POSITIONS: usize = 256;

/// Where a read starts and how many bytes it asks for.
#[derive(Clone, Copy, Debug, PartialEq, Eq, Structural)]
pub struct Position {
    pub start: u64,
    pub length: u64,
}

impl Position {
    /// The read starts inside the object, asks for no more than a fetch
    /// and does not run past the object's end.
    pub open spec fn wf(self) -> bool {
        &&& self.start < OBJECT_SIZE
        &&& self.length <= FETCH_SIZE
        &&& self.length <= OBJECT_SIZE - self.start
    }

    /// The position two raw random numbers stand for: the first, reduced
    /// below the object's last byte, is the start; the second, reduced
    /// below the fetch size and cut off at the object's end, the length.
    pub open spec fn from_raw(raw_start: u64, raw_length: u64) -> Position {
        let start = (raw_start % ((OBJECT_SIZE - 1) as u64)) as u64;
        let fetch = (raw_length % FETCH_SIZE) as u64;
        Position {
            start,
            length: if fetch <= OBJECT_SIZE - start {
                fetch
            } else {
                (OBJECT_SIZE - start) as u64
            },
        }
    }

    /// Turns two raw random numbers into a position.
    pub fn new(raw_start: u64, raw_length: u64) -> (position: Position)
        ensures
            position == Position::from_raw(raw_start, raw_length),
            position.wf(),
    {
        let start = raw_start % (OBJECT_SIZE - 1);
        let fetch = raw_length % FETCH_SIZE;
        let room = OBJECT_SIZE - start;
        Position { start, length: if fetch <= room { fetch } else { room } }
    }
}

/// Whether some pair of raw numbers stands for `position`.
pub open spec fn drawn_position(position: Position) -> bool {
    exists|raw_start: u64, raw_length: u64|
        position == #[trigger] Position::from_raw(raw_start, raw_length)
}

/// Whether `positions` is a full set of positions, each made from two raw
/// numbers.
pub open spec fn sampled(positions: Seq<Position>) -> bool {
    &&& positions.len() == N_POSITIONS
    &&& forall|i: int| 0 <= i < positions.len() ==> drawn_position(#[trigger] positions[i])
}

/// The position of read `n` of a run, counted from zero: the positions
/// are replayed in order, again and again.
pub open spec fn replay(positions: Seq<Position>, n: nat) -> Position {
    positions[(n % N_POSITIONS as nat) as int]
}

/// A read and the one a full cycle later target the same position.
pub proof fn lemma_replay_is_cyclic(positions: Seq<Position>, n: nat)
    ensures
        replay(positions, n + N_POSITIONS as nat) == replay(positions, n),
{
    assert((n + 256) % 256 == n % 256);
}

/// Every position of a sampled set is well-formed, and so is every read
/// replayed from it.
pub proof fn lemma_sampled_positions_wf(positions: Seq<Position>, n: nat)
    requires
        sampled(positions),
    ensures
        forall|i: int| 0 <= i < positions.len() ==> (#[trigger] positions[i]).wf(),
        replay(positions, n).wf(),
{
    assert forall|i: int| 0 <= i < positions.len() implies (#[trigger] positions[i]).wf() by {
        let (raw_start, raw_length) = choose|raw_start: u64, raw_length: u64|
            positions[i] == #[trigger] Position::from_raw(raw_start, raw_length);
        assert(Position::from_raw(raw_start, raw_length).wf());
    }
    assert(0 <= n % 256 < 256);
}

/// Draws the read positions of a run: for each, a start and then a
/// length.
pub fn sample_positions(rng: &mut Xoshiro256Plus) -> (positions: Vec<Position>)
    ensures
        sampled(positions@),
{
    let mut positions: Vec<Position> = Vec::new();
    while positions.len() < N_POSITIONS
        invariant
            positions@.len() <= N_POSITIONS,
            forall|i: int| 0 <= i < positions@.len() ==> drawn_position(#[trigger] positions@[i]),
        decreases N_POSITIONS - positions@.len(),
    {
        let raw_start = next_u64(rng);
        let raw_length = next_u64(rng);
        let position = Position::new(raw_start, raw_length);
        assert(drawn_position(position));
        positions.push(position);
    }
    positions
}

/// Where a run stands.
#[derive(Clone, Copy, Debug, PartialEq, Eq, Structural)]
pub enum EvaluationStage {
    /// The object is to be written.
    Write,
    /// The write is to be made durable.
    Sync,
    /// The read positions are to be drawn and the object reopened.
    Sample,
    /// Reads until the time is up.
    Reading,
    Finished,
}

/// What the caller can know of a driver.
pub ghost struct EvaluationState {
    pub stage: EvaluationStage,
    /// The read positions; empty until they are drawn.
    pub positions: Seq<Position>,
    /// Reads handed out so far.
    pub reads: nat,
}

/// The one write of a run: the whole object, pinned to the fast tier on
/// create and on the write cursor.
pub open spec fn research_write() -> ObjectWriteView {
    ObjectWriteView {
        key: research_key_spec(),
        create_tier: TierIndex::Fast,
        cursor_tier: TierIndex::Fast,
        size: OBJECT_SIZE,
    }
}

/// The read at `position` of the object.
pub open spec fn research_read(position: Position) -> ReadRequestView {
    ReadRequestView { key: research_key_spec(), offset: position.start, length: position.length }
}

/// The state a step leaves and the action it hands out.
///
/// `elapsed` is the time since the object was reopened, in seconds, and
/// `drawn` the positions a step in the `Sample` stage draws. The first
/// read always happens; after each read the run ends if `runtime` seconds
/// have passed.
pub open spec fn transition(
    runtime: u64,
    state: EvaluationState,
    elapsed: u64,
    drawn: Seq<Position>,
) -> (EvaluationState, ActionView) {
    match state.stage {
        EvaluationStage::Write => (
            EvaluationState {
                stage: EvaluationStage::Sync,
                positions: state.positions,
                reads: state.reads,
            },
            ActionView::Write(research_write()),
        ),
        EvaluationStage::Sync => (
            EvaluationState {
                stage: EvaluationStage::Sample,
                positions: state.positions,
                reads: state.reads,
            },
            ActionView::Sync(SyncPoint::Barrier),
        ),
        EvaluationStage::Sample => (
            EvaluationState { stage: EvaluationStage::Reading, positions: drawn, reads: 0 },
            ActionView::Reopen(research_key_spec()),
        ),
        EvaluationStage::Reading => if state.reads > 0 && elapsed >= runtime {
            (
                EvaluationState {
                    stage: EvaluationStage::Finished,
                    positions: state.positions,
                    reads: state.reads,
                },
                ActionView::Finished,
            )
        } else {
            (
                EvaluationState {
                    stage: EvaluationStage::Reading,
                    positions: state.positions,
                    reads: state.reads + 1,
                },
                ActionView::Read(research_read(replay(state.positions, state.reads))),
            )
        },
        EvaluationStage::Finished => (state, ActionView::Finished),
    }
}

/// The scientific-evaluation driver.
pub struct EvaluationDriver {
    runtime: u64,
    stage: EvaluationStage,
    positions: Vec<Position>,
    /// Index of the next position to read.
    cursor: usize,
    /// Whether a read has been handed out.
    started: bool,
    reads: Ghost<nat>,
}

impl View for EvaluationDriver {
    type V = EvaluationState;

    closed spec fn view(&self) -> EvaluationState {
        EvaluationState { stage: self.stage, positions: self.positions@, reads: self.reads@ }
    }
}

impl EvaluationDriver {
    /// Seconds the read stage is to last.
    pub closed spec fn runtime(self) -> u64 {
        self.runtime
    }

    /// Once reading, the driver holds a full set of positions and knows
    /// which comes next.
    pub closed spec fn wf(self) -> bool {
        (self.stage == EvaluationStage::Reading || self.stage == EvaluationStage::Finished) ==> {
            &&& sampled(self.positions@)
            &&& self.cursor == self.reads@ % (N_POSITIONS as nat)
            &&& self.started == (self.reads@ > 0)
        }
    }

    /// A driver at the start of a run that reads for `runtime` seconds.
    pub fn new(runtime: u64) -> (driver: EvaluationDriver)
        ensures
            driver.wf(),
            driver.runtime() == runtime,
            driver@ == (EvaluationState {
                stage: EvaluationStage::Write,
                positions: Seq::empty(),
                reads: 0,
            }),
    {
        EvaluationDriver {
            runtime,
            stage: EvaluationStage::Write,
            positions: Vec::new(),
            cursor: 0,
            started: false,
            reads: Ghost(0),
        }
    }

    /// The stage the run is in.
    pub fn stage(&self) -> (stage: EvaluationStage)
        ensures
            stage == self@.stage,
    {
        self.stage
    }

    /// Takes one step. `drawn` is used in the `Sample` stage only.
    pub fn apply(&mut self, elapsed: u64, drawn: Vec<Position>) -> (action: Action)
        requires
            old(self).wf(),
            old(self)@.stage == EvaluationStage::Sample ==> sampled(drawn@),
        ensures
            final(self).wf(),
            final(self).runtime() == old(self).runtime(),
            (final(self)@, action@) == transition(
                old(self).runtime(),
                old(self)@,
                elapsed,
                drawn@,
            ),
    {
        match self.stage {
            EvaluationStage::Write => {
                self.stage = EvaluationStage::Sync;
                Action::Write(
                    ObjectWrite {
                        key: research_key(),
                        create_tier: TierIndex::Fast,
                        cursor_tier: TierIndex::Fast,
                        size: OBJECT_SIZE,
                    },
                )
            },
            EvaluationStage::Sync => {
                self.stage = EvaluationStage::Sample;
                Action::Sync(SyncPoint::Barrier)
            },
            EvaluationStage::Sample => {
                self.positions = drawn;
                self.cursor = 0;
                self.started = false;
                self.reads = Ghost(0);
                self.stage = EvaluationStage::Reading;
                Action::Reopen(research_key())
            },
            EvaluationStage::Reading => {
                if self.started && elapsed >= self.runtime {
                    self.stage = EvaluationStage::Finished;
                    return Action::Finished;
                }
                let position = self.positions[self.cursor];
                self.cursor = (self.cursor + 1) % N_POSITIONS;
                self.started = true;
                self.reads = Ghost(self.reads@ + 1);
                Action::Read(
                    ReadRequest {
                        key: research_key(),
                        offset: position.start,
                        length: position.length,
                    },
                )
            },
            EvaluationStage::Finished => Action::Finished,
        }
    }

    /// Takes one step, drawing the read positions when their turn comes.
    /// `elapsed` is the time since the object was reopened, in seconds.
    pub fn step(&mut self, rng: &mut Xoshiro256Plus, elapsed: u64) -> (action: Action)
        requires
            old(self).wf(),
        ensures
            final(self).wf(),
            final(self).runtime() == old(self).runtime(),
            exists|drawn: Seq<Position>|
                (old(self)@.stage == EvaluationStage::Sample ==> sampled(drawn)) && (
                final(self)@,
                action@,
                ) == #[trigger] transition(old(self).runtime(), old(self)@, elapsed, drawn),
    {
        let drawn = match self.stage {
            EvaluationStage::Sample => sample_positions(rng),
            _ => Vec::new(),
        };
        self.apply(elapsed, drawn)
    }
}

} // verus!
