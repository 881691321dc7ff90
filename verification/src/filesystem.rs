//! The mixed-filesystem workload: a population of objects spread over
//! three access-frequency groups, then rounds of reads that favour the
//! often-read group.
//!
//! Every object asks for a tier drawn at random and is placed by the
//! placement policy, so hot and cold objects alike start on arbitrary
//! tiers and the engine has to reorganise them.

use vstd::prelude::*;
use rand_xoshiro::Xoshiro256Plus;
use crate::action::{Action, ActionView, ObjectWrite, ObjectWriteView, ReadRequest, ReadRequestView, SyncPoint};
use crate::keys::{counter_key, counter_key_spec, lemma_counter_keys_distinct};
use crate::placement::{chosen_tier, place, place_reserved, reserved_view, PlacementExhausted, PlacementVariant};
use crate::population::{lemma_group_bounds, lemma_group_fill_step, Population, GROUP_COUNT};
use crate::rng::{gen_range_u64, gen_range_u8, gen_ratio, sample_slice};
use crate::tier::{TierIndex, TierSpace};

verus! {

/// Rounds of reads per run.
pub const RUNS: u64 = 10_000;

/// Length of every read: the whole 2 GiB buffer, whatever the object's
/// size. The engine returns what it has.
pub const READ_BUFFER_BYTES: u64 = 2 * 1024 * 1024 * 1024;

/// Chance of a read per round and group (barely, seldom, often), in
/// percent, for runs that place against the live view.
pub const READ_PERCENT_LIVE: [u32; 3] = [1, 20, 90];

/// Chance of a read per round and group, in percent, for runs that place
/// against a reserved view.
pub const READ_PERCENT_RESERVED: [u32; 3] = [1, 10, 60];

/// Which free-space view placements are made against.
#[derive(Clone, Copy, Debug, PartialEq, Eq, Structural)]
pub enum SpaceSource {
    /// The snapshot the caller takes from the engine before each step.
    Live,
    /// A private copy of the first snapshot, lowered by every object
    /// placed. It ignores what the engine reports later.
    Reserved,
}

/// The shape of a run.
#[derive(Clone, Copy, Debug, PartialEq, Eq)]
pub struct FilesystemConfig {
    pub population: Population,
    pub placement: PlacementVariant,
    pub space: SpaceSource,
    /// Whether a barrier follows every single object write.
    pub sync_each_write: bool,
    /// Chance of a read per round for each group, in percent.
    pub read_percent: [u32; 3],
}

impl FilesystemConfig {
    /// No chance exceeds certainty.
    pub open spec fn wf(self) -> bool {
        forall|group: int| 0 <= group < 3 ==> #[trigger] self.read_percent[group] <= 100
    }

    /// The reference size table, placed with headroom against the live
    /// view.
    pub fn reference_sizes() -> (config: FilesystemConfig)
        ensures
            config.wf(),
            config == (FilesystemConfig {
                population: Population::ReferenceSizes,
                placement: PlacementVariant::Headroom,
                space: SpaceSource::Live,
                sync_each_write: false,
                read_percent: READ_PERCENT_LIVE,
            }),
    {
        FilesystemConfig {
            population: Population::ReferenceSizes,
            placement: PlacementVariant::Headroom,
            space: SpaceSource::Live,
            sync_each_write: false,
            read_percent: READ_PERCENT_LIVE,
        }
    }

    /// The coarse size classes, placed with headroom against the live
    /// view.
    pub fn size_classes_live(sync_each_write: bool) -> (config: FilesystemConfig)
        ensures
            config.wf(),
            config == (FilesystemConfig {
                population: Population::SizeClasses,
                placement: PlacementVariant::Headroom,
                space: SpaceSource::Live,
                sync_each_write,
                read_percent: READ_PERCENT_LIVE,
            }),
    {
        FilesystemConfig {
            population: Population::SizeClasses,
            placement: PlacementVariant::Headroom,
            space: SpaceSource::Live,
            sync_each_write,
            read_percent: READ_PERCENT_LIVE,
        }
    }

    /// The coarse size classes, placed by simple fit against a reserved
    /// view.
    pub fn size_classes_reserved(sync_each_write: bool) -> (config: FilesystemConfig)
        ensures
            config.wf(),
            config == (FilesystemConfig {
                population: Population::SizeClasses,
                placement: PlacementVariant::SimpleFit,
                space: SpaceSource::Reserved,
                sync_each_write,
                read_percent: READ_PERCENT_RESERVED,
            }),
    {
        FilesystemConfig {
            population: Population::SizeClasses,
            placement: PlacementVariant::SimpleFit,
            space: SpaceSource::Reserved,
            sync_each_write,
            read_percent: READ_PERCENT_RESERVED,
        }
    }
}

/// Where a run stands.
#[derive(Clone, Copy, Debug, PartialEq, Eq, Structural)]
pub enum Stage {
    /// Creating objects; once all exist, the population barrier.
    Populate,
    /// The barrier owed after the object just written.
    WriteSync,
    /// Rounds of reads.
    Reading,
    Finished,
}

/// The random outcomes a step may consume. A step reads only those its
/// stage calls for.
#[derive(Clone, Copy, Debug, PartialEq, Eq)]
pub struct Draws {
    /// Size of the object to create.
    pub size: u64,
    /// Tier the object would like to live on.
    pub desired: TierIndex,
    /// Whether the group at turn is read in this round.
    pub hit: bool,
    /// Number of the object to read, as in its key.
    pub pick: u64,
}

/// What the caller can know of a driver.
pub ghost struct DriverState {
    pub stage: Stage,
    /// Objects created so far.
    pub written: nat,
    /// Steps of the read stage taken so far.
    pub read_position: nat,
    /// The reserved view; unused while placing against the live view.
    pub reserved: Seq<TierSpace>,
}

/// Steps per round of reads: the announcement and one turn per group.
pub open spec fn steps_per_round() -> nat {
    (GROUP_COUNT + 1) as nat
}

/// Steps of the whole read stage.
pub open spec fn read_steps() -> nat {
    RUNS as nat * steps_per_round()
}

/// The view a placement is made against.
pub open spec fn placement_view(
    config: FilesystemConfig,
    state: DriverState,
    live: Seq<TierSpace>,
) -> Seq<TierSpace> {
    match config.space {
        SpaceSource::Live => live,
        SpaceSource::Reserved => state.reserved,
    }
}

/// Which draws a step may meet: a size of the class of the object at
/// turn; a hit that is certain at 100 percent and impossible at 0; a pick
/// among the objects of the group at turn.
pub open spec fn admissible(config: FilesystemConfig, state: DriverState, draws: Draws) -> bool {
    let population = config.population;
    match state.stage {
        Stage::Populate => state.written < population.total() ==> {
            let class = population.slot_of(state.written) % population.classes();
            population.size_low(class) <= draws.size < population.size_high(class)
        },
        Stage::Reading => state.read_position < read_steps() && state.read_position
            % steps_per_round() != 0 ==> {
            let group = (state.read_position % steps_per_round() - 1) as nat;
            &&& config.read_percent[group as int] == 0 ==> !draws.hit
            &&& config.read_percent[group as int] == 100 ==> draws.hit
            &&& draws.hit ==> population.group_start(group) < draws.pick <= population.group_end(
                group,
            )
        },
        _ => true,
    }
}

/// Creating the next object: it is placed for the drawn size and desired
/// tier, named by its number, and pinned to the chosen tier on create and
/// on the write cursor. A reserved view books the object. When no tier
/// accepts it the run fails and nothing changes.
pub open spec fn populate(
    config: FilesystemConfig,
    state: DriverState,
    live: Seq<TierSpace>,
    draws: Draws,
) -> (DriverState, Result<ActionView, PlacementExhausted>) {
    let view = placement_view(config, state, live);
    match chosen_tier(config.placement, draws.desired, draws.size, view) {
        None => (state, Err(PlacementExhausted)),
        Some(tier) => (
            DriverState {
                stage: if config.sync_each_write {
                    Stage::WriteSync
                } else {
                    Stage::Populate
                },
                written: state.written + 1,
                read_position: state.read_position,
                reserved: match config.space {
                    SpaceSource::Live => state.reserved,
                    SpaceSource::Reserved => reserved_view(state.reserved, tier, draws.size),
                },
            },
            Ok(
                ActionView::Write(
                    ObjectWriteView {
                        key: counter_key_spec(state.written + 1),
                        create_tier: tier,
                        cursor_tier: tier,
                        size: draws.size,
                    },
                ),
            ),
        ),
    }
}

/// One step of the read stage. A round opens with its announcement; then
/// each group has its turn and is either read, at offset zero and for the
/// whole buffer, or left alone.
pub open spec fn read_turn(config: FilesystemConfig, state: DriverState, draws: Draws) -> (
    DriverState,
    Result<ActionView, PlacementExhausted>,
) {
    let round = state.read_position / steps_per_round();
    let turn = state.read_position % steps_per_round();
    let next = DriverState {
        stage: state.stage,
        written: state.written,
        read_position: state.read_position + 1,
        reserved: state.reserved,
    };
    if turn == 0 {
        (next, Ok(ActionView::Round(round as u64)))
    } else if draws.hit {
        (
            next,
            Ok(
                ActionView::Read(
                    ReadRequestView {
                        key: counter_key_spec(draws.pick as nat),
                        offset: 0,
                        length: READ_BUFFER_BYTES,
                    },
                ),
            ),
        )
    } else {
        (next, Ok(ActionView::Idle))
    }
}

/// The state a step leaves and the action it hands out.
///
/// Objects are created one per step, each followed by its own barrier
/// where the run asks for that. When the population is complete one
/// barrier closes it and the reads begin. After the last round the run is
/// finished and stays so.
pub open spec fn transition(
    config: FilesystemConfig,
    state: DriverState,
    live: Seq<TierSpace>,
    draws: Draws,
) -> (DriverState, Result<ActionView, PlacementExhausted>) {
    match state.stage {
        Stage::Populate => if state.written < config.population.total() {
            populate(config, state, live, draws)
        } else {
            (
                DriverState {
                    stage: Stage::Reading,
                    written: state.written,
                    read_position: state.read_position,
                    reserved: state.reserved,
                },
                Ok(ActionView::Sync(SyncPoint::Barrier)),
            )
        },
        Stage::WriteSync => (
            DriverState {
                stage: Stage::Populate,
                written: state.written,
                read_position: state.read_position,
                reserved: state.reserved,
            },
            Ok(ActionView::Sync(SyncPoint::AfterWrite)),
        ),
        Stage::Reading => if state.read_position < read_steps() {
            read_turn(config, state, draws)
        } else {
            (
                DriverState {
                    stage: Stage::Finished,
                    written: state.written,
                    read_position: state.read_position,
                    reserved: state.reserved,
                },
                Ok(ActionView::Finished),
            )
        },
        Stage::Finished => (state, Ok(ActionView::Finished)),
    }
}

/// A step's result with the action replaced by its view.
pub open spec fn outcome(result: Result<Action, PlacementExhausted>) -> Result<
    ActionView,
    PlacementExhausted,
> {
    match result {
        Ok(action) => Ok(action@),
        Err(e) => Err(e),
    }
}

/// No two objects of a run share a key: objects created at different
/// counts of objects written are named differently, whatever was drawn
/// for them.
pub proof fn lemma_population_keys_unique(
    config: FilesystemConfig,
    state1: DriverState,
    live1: Seq<TierSpace>,
    draws1: Draws,
    state2: DriverState,
    live2: Seq<TierSpace>,
    draws2: Draws,
)
    requires
        state1.written != state2.written,
        populate(config, state1, live1, draws1).1 matches Ok(ActionView::Write(_)),
        populate(config, state2, live2, draws2).1 matches Ok(ActionView::Write(_)),
    ensures
        populate(config, state1, live1, draws1).1->Ok_0->Write_0.key != populate(
            config,
            state2,
            live2,
            draws2,
        ).1->Ok_0->Write_0.key,
{
    lemma_counter_keys_distinct(state1.written + 1, state2.written + 1);
}

/// A read names an object of the group at turn, and so one that the
/// population created.
pub proof fn lemma_reads_target_created_objects(
    config: FilesystemConfig,
    state: DriverState,
    draws: Draws,
)
    requires
        state.stage == Stage::Reading,
        state.read_position < read_steps(),
        admissible(config, state, draws),
        read_turn(config, state, draws).1 matches Ok(ActionView::Read(_)),
    ensures
        read_turn(config, state, draws).1->Ok_0->Read_0.key == counter_key_spec(draws.pick as nat),
        1 <= draws.pick <= config.population.total(),
{
    lemma_group_bounds(config.population);
    let group = (state.read_position % steps_per_round() - 1) as nat;
    assert(group == 0 || group == 1 || group == 2);
}

/// The mixed-filesystem driver.
pub struct FilesystemDriver {
    config: FilesystemConfig,
    stage: Stage,
    written: u64,
    read_position: u64,
    /// Numbers of the objects created so far, by group.
    groups: Vec<Vec<u64>>,
    reserved: [TierSpace; 3],
}

impl View for FilesystemDriver {
    type V = DriverState;

    closed spec fn view(&self) -> DriverState {
        DriverState {
            stage: self.stage,
            written: self.written as nat,
            read_position: self.read_position as nat,
            reserved: self.reserved@,
        }
    }
}

impl FilesystemDriver {
    /// The shape of the run, fixed when the driver is made.
    pub closed spec fn config(self) -> FilesystemConfig {
        self.config
    }

    /// The driver's books agree: each group lists, in order, the numbers
    /// of its objects created so far, and reads begin only once the
    /// population is complete.
    pub closed spec fn wf(self) -> bool {
        let population = self.config.population;
        &&& self.config.wf()
        &&& self.written <= population.total()
        &&& self.read_position <= read_steps()
        &&& (self.stage == Stage::Reading || self.stage == Stage::Finished) ==> self.written
            == population.total()
        &&& self.groups@.len() == GROUP_COUNT
        &&& forall|group: int|
            0 <= group < GROUP_COUNT ==> (#[trigger] self.groups@[group])@.len()
                == population.group_fill(group as nat, self.written as nat)
        &&& forall|group: int, i: int|
            0 <= group < GROUP_COUNT && 0 <= i < self.groups@[group]@.len()
                ==> #[trigger] self.groups@[group]@[i] == population.group_start(group as nat) + i
                + 1
    }

    /// A driver at the start of a run. `live` is the engine's free space
    /// at that moment; a reserved view starts from it.
    pub fn new(config: FilesystemConfig, live: &[TierSpace; 3]) -> (driver: FilesystemDriver)
        requires
            config.wf(),
        ensures
            driver.wf(),
            driver.config() == config,
            driver@ == (DriverState {
                stage: Stage::Populate,
                written: 0,
                read_position: 0,
                reserved: live@,
            }),
    {
        let mut groups: Vec<Vec<u64>> = Vec::new();
        groups.push(Vec::new());
        groups.push(Vec::new());
        groups.push(Vec::new());
        proof {
            lemma_group_bounds(config.population);
        }
        FilesystemDriver {
            config,
            stage: Stage::Populate,
            written: 0,
            read_position: 0,
            groups,
            reserved: *live,
        }
    }

    /// The stage the run is in.
    pub fn stage(&self) -> (stage: Stage)
        ensures
            stage == self@.stage,
    {
        self.stage
    }

    /// Number of objects created so far.
    pub fn written(&self) -> (written: u64)
        ensures
            written == self@.written,
    {
        self.written
    }

    /// Takes one step with the given draws.
    pub fn apply(&mut self, live: &[TierSpace; 3], draws: Draws) -> (result: Result<
        Action,
        PlacementExhausted,
    >)
        requires
            old(self).wf(),
            admissible(old(self).config(), old(self)@, draws),
        ensures
            final(self).wf(),
            final(self).config() == old(self).config(),
            (final(self)@, outcome(result)) == transition(
                old(self).config(),
                old(self)@,
                live@,
                draws,
            ),
    {
        match self.stage {
            Stage::Populate => self.apply_populate(live, draws),
            Stage::WriteSync => {
                self.stage = Stage::Populate;
                Ok(Action::Sync(SyncPoint::AfterWrite))
            },
            Stage::Reading => Ok(self.apply_read(draws)),
            Stage::Finished => Ok(Action::Finished),
        }
    }

    fn apply_populate(&mut self, live: &[TierSpace; 3], draws: Draws) -> (result: Result<
        Action,
        PlacementExhausted,
    >)
        requires
            old(self).wf(),
            old(self)@.stage == Stage::Populate,
        ensures
            final(self).wf(),
            final(self).config() == old(self).config(),
            (final(self)@, outcome(result)) == transition(
                old(self).config(),
                old(self)@,
                live@,
                draws,
            ),
    {
        let config = self.config;
        let slot = match config.population.find_slot(self.written) {
            Some(slot) => slot,
            None => {
                self.stage = Stage::Reading;
                return Ok(Action::Sync(SyncPoint::Barrier));
            },
        };
        let placed = match config.space {
            SpaceSource::Live => place(config.placement, draws.desired, draws.size, live),
            SpaceSource::Reserved => place_reserved(
                config.placement,
                draws.desired,
                draws.size,
                &mut self.reserved,
            ),
        };
        let tier = match placed {
            Ok(tier) => tier,
            Err(e) => {
                return Err(e);
            },
        };
        let number = self.record_object(slot);
        Ok(
            Action::Write(
                ObjectWrite {
                    key: counter_key(number),
                    create_tier: tier,
                    cursor_tier: tier,
                    size: draws.size,
                },
            ),
        )
    }

    /// Books the next object, which belongs to `slot`, and returns its
    /// number.
    fn record_object(&mut self, slot: usize) -> (number: u64)
        requires
            old(self).wf(),
            old(self).stage == Stage::Populate,
            old(self).config.population.in_slot(old(self).written as nat, slot as nat),
        ensures
            final(self).wf(),
            final(self).config == old(self).config,
            final(self).reserved == old(self).reserved,
            final(self).read_position == old(self).read_position,
            number == old(self).written + 1,
            final(self).written == number,
            final(self).stage == if old(self).config.sync_each_write {
                Stage::WriteSync
            } else {
                Stage::Populate
            },
    {
        let population = self.config.population;
        let group = slot / population.class_count();
        proof {
            lemma_group_bounds(population);
            lemma_group_fill_step(population, self.written as nat, slot as nat);
        }
        let ghost before = self.groups@;
        let ghost n = self.written as nat;
        let number = self.written + 1;
        self.groups[group].push(number);
        self.written = number;
        if self.config.sync_each_write {
            self.stage = Stage::WriteSync;
        }
        proof {
            let after = self.groups@;
            assert forall|g: int| 0 <= g < GROUP_COUNT implies (#[trigger] after[g])@.len()
                == population.group_fill(g as nat, (n + 1) as nat) by {
                assert(population.group_fill(g as nat, n + 1) == population.group_fill(g as nat, n)
                    + if g == group {
                    1nat
                } else {
                    0nat
                });
                if g == group {
                    assert(after[g]@ == before[g]@.push(number));
                } else {
                    assert(after[g] == before[g]);
                }
            }
            assert forall|g: int, i: int|
                0 <= g < GROUP_COUNT && 0 <= i < after[g]@.len() implies #[trigger] after[g]@[i]
                == population.group_start(g as nat) + i + 1 by {
                if g == group {
                    assert(after[g]@ == before[g]@.push(number));
                    if i < before[g]@.len() {
                        assert(after[g]@[i] == before[g]@[i]);
                    }
                } else {
                    assert(after[g] == before[g]);
                    assert(after[g]@[i] == before[g]@[i]);
                }
            }
        }
        number
    }

    fn apply_read(&mut self, draws: Draws) -> (action: Action)
        requires
            old(self).wf(),
            old(self)@.stage == Stage::Reading,
        ensures
            final(self).wf(),
            final(self).config() == old(self).config(),
            (final(self)@, Ok::<ActionView, PlacementExhausted>(action@)) == transition(
                old(self).config(),
                old(self)@,
                Seq::empty(),
                draws,
            ),
    {
        let per_round: u64 = GROUP_COUNT as u64 + 1;
        if self.read_position >= RUNS * per_round {
            self.stage = Stage::Finished;
            return Action::Finished;
        }
        let round = self.read_position / per_round;
        let turn = self.read_position % per_round;
        self.read_position = self.read_position + 1;
        if turn == 0 {
            Action::Round(round)
        } else if draws.hit {
            Action::Read(
                ReadRequest { key: counter_key(draws.pick), offset: 0, length: READ_BUFFER_BYTES },
            )
        } else {
            Action::Idle
        }
    }

    /// Takes one step, drawing what the stage calls for: the size of an
    /// object whose class leaves it open, the tier an object would like,
    /// whether a group is read this round, and which of its objects.
    ///
    /// The generator of the run decides sizes, tiers and hits; the object
    /// to read comes from a source of the thread's own.
    pub fn step(&mut self, rng: &mut Xoshiro256Plus, live: &[TierSpace; 3]) -> (result: Result<
        Action,
        PlacementExhausted,
    >)
        requires
            old(self).wf(),
        ensures
            final(self).wf(),
            final(self).config() == old(self).config(),
            exists|draws: Draws|
                admissible(old(self).config(), old(self)@, draws) && (final(self)@, outcome(result))
                    == #[trigger] transition(old(self).config(), old(self)@, live@, draws),
    {
        let mut draws = Draws { size: 0, desired: TierIndex::Fastest, hit: false, pick: 0 };
        let population = self.config.population;
        let per_round: u64 = GROUP_COUNT as u64 + 1;
        match self.stage {
            Stage::Populate => {
                if let Some(slot) = population.find_slot(self.written) {
                    let class = slot % population.class_count();
                    let (low, high) = population.size_range(class);
                    draws.size = match population {
                        Population::ReferenceSizes => low,
                        Population::SizeClasses => gen_range_u64(rng, low, high),
                    };
                    let tier = gen_range_u8(rng, 0, GROUP_COUNT as u8);
                    draws.desired = TierIndex::from_index(tier as usize).unwrap();
                }
            },
            Stage::Reading => {
                if self.read_position < RUNS * per_round && self.read_position % per_round != 0 {
                    let group = (self.read_position % per_round - 1) as usize;
                    proof {
                        lemma_group_bounds(population);
                    }
                    draws.hit = gen_ratio(rng, self.config.read_percent[group], 100);
                    if draws.hit {
                        draws.pick = *sample_slice(self.groups[group].as_slice());
                    }
                }
            },
            _ => {},
        }
        self.apply(live, draws)
    }
}

} // verus!
