//! The object populations of the mixed-filesystem workload.
//!
//! A population is a table of slots. A slot pairs an access-frequency
//! group (barely, seldom, often read) with a size class and says how many
//! objects of that class the group holds. Objects are created slot by
//! slot, so the objects of a group are numbered consecutively.

use vstd::prelude::*;

verus! {

/// Access-frequency groups per run.
pub const GROUP_COUNT: usize = 3;

/// Object sizes of the reference size table, in bytes (decimal units).
pub const REFERENCE_SIZES: [u64; 5] = [
    64 * 1000,
    256 * 1000,
    1 * 1000 * 1000,
    4 * 1000 * 1000,
    1 * 1000 * 1000 * 1000,
];

/// Objects per group and size of the reference size table.
pub const REFERENCE_COUNTS: [[u64; 5]; 3] = [
    [1022, 256, 1364, 1364, 24],
    [164, 40, 220, 220, 4],
    [12, 4, 16, 16, 2],
];

/// Group sizes of the coarse population.
pub const AMOUNT: [u64; 3] = [2000, 300, 20];

/// Share of small, medium and large objects within each group of the
/// coarse population, in percent.
pub const DISTRIBUTION_PERCENT: [u64; 3] = [90, 9, 1];

/// Objects per group and size class of the coarse population: each
/// group's `AMOUNT` split by `DISTRIBUTION_PERCENT`, rounded down.
pub const COARSE_COUNTS: [[u64; 3]; 3] = [[1800, 180, 20], [270, 27, 3], [18, 1, 0]];

/// Bounds of the coarse size classes, in bytes: each class holds the
/// sizes from its low bound up to, but not including, its high bound.
pub const SMALL_LOW: u64 = 1 * 1024;

pub const SMALL_HIGH: u64 = 256 * 1024;

pub const MEDIUM_LOW: u64 = 1 * 1024 * 1024;

pub const MEDIUM_HIGH: u64 = 200 * 1024 * 1024;

pub const LARGE_LOW: u64 = 200 * 1024 * 1024;

pub const LARGE_HIGH: u64 = 2 * 1024 * 1024 * 1024;

/// A coarse size class.
#[derive(Clone, Copy, Debug, PartialEq, Eq, Structural)]
pub enum SizeClass {
    Small,
    Medium,
    Large,
}

impl SizeClass {
    /// Smallest size of the class, in bytes.
    pub open spec fn low(self) -> u64 {
        match self {
            SizeClass::Small => SMALL_LOW,
            SizeClass::Medium => MEDIUM_LOW,
            SizeClass::Large => LARGE_LOW,
        }
    }

    /// First size above the class, in bytes.
    pub open spec fn high(self) -> u64 {
        match self {
            SizeClass::Small => SMALL_HIGH,
            SizeClass::Medium => MEDIUM_HIGH,
            SizeClass::Large => LARGE_HIGH,
        }
    }

    /// The class numbered `i`: small, medium, large.
    pub open spec fn at(i: int) -> SizeClass {
        if i <= 0 {
            SizeClass::Small
        } else if i == 1 {
            SizeClass::Medium
        } else {
            SizeClass::Large
        }
    }

    /// The class numbered `i`, counting past the last as large.
    pub fn from_index(i: usize) -> (class: SizeClass)
        ensures
            class == SizeClass::at(i as int),
    {
        if i == 0 {
            SizeClass::Small
        } else if i == 1 {
            SizeClass::Medium
        } else {
            SizeClass::Large
        }
    }

    /// The half-open range `[low, high)` of sizes in the class.
    pub fn bounds(self) -> (range: (u64, u64))
        ensures
            range.0 == self.low(),
            range.1 == self.high(),
            range.0 < range.1,
    {
        match self {
            SizeClass::Small => (SMALL_LOW, SMALL_HIGH),
            SizeClass::Medium => (MEDIUM_LOW, MEDIUM_HIGH),
            SizeClass::Large => (LARGE_LOW, LARGE_HIGH),
        }
    }
}

/// Which objects a run creates.
#[derive(Clone, Copy, Debug, PartialEq, Eq, Structural)]
pub enum Population {
    /// Five fixed sizes with a count for each group and size.
    ReferenceSizes,
    /// Three size classes; each group holds a fixed share of each class
    /// and every object's size is drawn from its class.
    SizeClasses,
}

impl Population {
    /// Number of size classes.
    pub open spec fn classes(self) -> nat {
        match self {
            Population::ReferenceSizes => 5,
            Population::SizeClasses => 3,
        }
    }

    /// Number of slots: one per group and class.
    pub open spec fn slots(self) -> nat {
        GROUP_COUNT as nat * self.classes()
    }

    /// Objects in `slot`.
    pub open spec fn slot_count(self, slot: nat) -> nat {
        match self {
            Population::ReferenceSizes => REFERENCE_COUNTS[slot as int / 5][slot as int % 5] as nat,
            Population::SizeClasses => COARSE_COUNTS[slot as int / 3][slot as int % 3] as nat,
        }
    }

    /// Smallest size an object of `class` may have.
    pub open spec fn size_low(self, class: nat) -> u64 {
        match self {
            Population::ReferenceSizes => REFERENCE_SIZES[class as int],
            Population::SizeClasses => SizeClass::at(class as int).low(),
        }
    }

    /// First size above those an object of `class` may have. The
    /// reference sizes are exact: the range holds one size.
    pub open spec fn size_high(self, class: nat) -> u64 {
        match self {
            Population::ReferenceSizes => (REFERENCE_SIZES[class as int] + 1) as u64,
            Population::SizeClasses => SizeClass::at(class as int).high(),
        }
    }

    /// Objects in the slots before `slot`.
    pub open spec fn slot_start(self, slot: nat) -> nat
        decreases slot,
    {
        if slot == 0 {
            0
        } else {
            self.slot_start((slot - 1) as nat) + self.slot_count((slot - 1) as nat)
        }
    }

    /// Objects of the whole population.
    pub open spec fn total(self) -> nat {
        self.slot_start(self.slots())
    }

    /// Whether the object numbered `n`, counting from zero in creation
    /// order, belongs to `slot`.
    pub open spec fn in_slot(self, n: nat, slot: nat) -> bool {
        &&& slot < self.slots()
        &&& self.slot_start(slot) <= n < self.slot_start(slot) + self.slot_count(slot)
    }

    /// The slot of object `n`, for `n` below the total.
    pub open spec fn slot_of(self, n: nat) -> nat {
        choose|slot: nat| self.in_slot(n, slot)
    }

    /// Objects created before the first object of `group`.
    pub open spec fn group_start(self, group: nat) -> nat {
        self.slot_start(group * self.classes())
    }

    /// Objects created up to and including the last object of `group`.
    pub open spec fn group_end(self, group: nat) -> nat {
        self.slot_start((group + 1) * self.classes())
    }

    /// Objects of `group` among the first `written` objects of a run.
    pub open spec fn group_fill(self, group: nat, written: nat) -> nat {
        if written <= self.group_start(group) {
            0
        } else if written >= self.group_end(group) {
            (self.group_end(group) - self.group_start(group)) as nat
        } else {
            (written - self.group_start(group)) as nat
        }
    }

    /// Number of size classes.
    pub fn class_count(self) -> (classes: usize)
        ensures
            classes == self.classes(),
    {
        match self {
            Population::ReferenceSizes => 5,
            Population::SizeClasses => 3,
        }
    }

    /// Number of objects in `slot`.
    pub fn objects_in_slot(self, slot: usize) -> (count: u64)
        requires
            slot < self.slots(),
        ensures
            count == self.slot_count(slot as nat),
    {
        match self {
            Population::ReferenceSizes => REFERENCE_COUNTS[slot / 5][slot % 5],
            Population::SizeClasses => COARSE_COUNTS[slot / 3][slot % 3],
        }
    }

    /// The half-open range of sizes of `class`.
    pub fn size_range(self, class: usize) -> (range: (u64, u64))
        requires
            class < self.classes(),
        ensures
            range.0 == self.size_low(class as nat),
            range.1 == self.size_high(class as nat),
            range.0 < range.1,
    {
        match self {
            Population::ReferenceSizes => (REFERENCE_SIZES[class], REFERENCE_SIZES[class] + 1),
            Population::SizeClasses => SizeClass::from_index(class).bounds(),
        }
    }

    /// Finds the slot of object `n`, or `None` when the population has no
    /// such object.
    pub fn find_slot(self, n: u64) -> (found: Option<usize>)
        ensures
            found is Some <==> n < self.total(),
            found matches Some(slot) ==> self.in_slot(n as nat, slot as nat) && slot as nat
                == self.slot_of(n as nat),
    {
        let slots: usize = GROUP_COUNT * self.class_count();
        let mut slot: usize = 0;
        let mut start: u64 = 0;
        while slot < slots
            invariant
                slots == self.slots(),
                slot <= slots,
                start == self.slot_start(slot as nat),
                start <= n,
            decreases slots - slot,
        {
            let count = self.objects_in_slot(slot);
            if n - start < count {
                proof {
                    lemma_slot_unique(self, n as nat, slot as nat, self.slot_of(n as nat));
                    lemma_slot_start_monotonic(self, slot as nat, self.slots());
                }
                return Some(slot);
            }
            start = start + count;
            slot = slot + 1;
        }
        None
    }
}

/// The coarse counts are the group sizes split by the distribution: a
/// group's share of a class is its amount times the class's percentage,
/// rounded down.
pub proof fn lemma_coarse_counts_follow_distribution(group: int, class: int)
    requires
        0 <= group < 3,
        0 <= class < 3,
    ensures
        COARSE_COUNTS[group][class] == AMOUNT[group] * DISTRIBUTION_PERCENT[class] / 100,
{
    let amount = AMOUNT[group] as int;
    let percent = DISTRIBUTION_PERCENT[class] as int;
    assert(amount == 2000 || amount == 300 || amount == 20);
    assert(percent == 90 || percent == 9 || percent == 1);
    assert(COARSE_COUNTS[group][class] == amount * percent / 100) by (nonlinear_arith)
        requires
            (amount == 2000 && percent == 90 ==> COARSE_COUNTS[group][class] == 1800),
            (amount == 2000 && percent == 9 ==> COARSE_COUNTS[group][class] == 180),
            (amount == 2000 && percent == 1 ==> COARSE_COUNTS[group][class] == 20),
            (amount == 300 && percent == 90 ==> COARSE_COUNTS[group][class] == 270),
            (amount == 300 && percent == 9 ==> COARSE_COUNTS[group][class] == 27),
            (amount == 300 && percent == 1 ==> COARSE_COUNTS[group][class] == 3),
            (amount == 20 && percent == 90 ==> COARSE_COUNTS[group][class] == 18),
            (amount == 20 && percent == 9 ==> COARSE_COUNTS[group][class] == 1),
            (amount == 20 && percent == 1 ==> COARSE_COUNTS[group][class] == 0),
            amount == 2000 || amount == 300 || amount == 20,
            percent == 90 || percent == 9 || percent == 1,
    ;
}

/// Slots start in creation order: a later slot never starts before an
/// earlier one ends.
pub proof fn lemma_slot_start_monotonic(population: Population, a: nat, b: nat)
    requires
        a <= b,
    ensures
        population.slot_start(a) <= population.slot_start(b),
        a < b ==> population.slot_start(a) + population.slot_count(a) <= population.slot_start(b),
    decreases b,
{
    if a < b {
        lemma_slot_start_monotonic(population, a, (b - 1) as nat);
    }
}

/// An object belongs to one slot only.
pub proof fn lemma_slot_unique(population: Population, n: nat, slot1: nat, slot2: nat)
    requires
        population.in_slot(n, slot1),
    ensures
        population.in_slot(n, slot2) ==> slot1 == slot2,
        population.slot_of(n) == slot1,
{
    assert forall|other: nat| population.in_slot(n, other) implies other == slot1 by {
        if other < slot1 {
            lemma_slot_start_monotonic(population, other, slot1);
        } else if slot1 < other {
            lemma_slot_start_monotonic(population, slot1, other);
        }
    }
}

/// Where the groups begin and end: the first holds 4030 objects of the
/// reference table (2000 of the coarse population), the second 648 (300),
/// the third 50 (19, its share of large objects rounding down to none).
pub proof fn lemma_group_bounds(population: Population)
    ensures
        population.group_start(0) == 0,
        population == Population::ReferenceSizes ==> {
            &&& population.group_end(0) == 4030
            &&& population.group_end(1) == 4678
            &&& population.group_end(2) == 4728
        },
        population == Population::SizeClasses ==> {
            &&& population.group_end(0) == 2000
            &&& population.group_end(1) == 2300
            &&& population.group_end(2) == 2319
        },
        population.group_start(1) == population.group_end(0),
        population.group_start(2) == population.group_end(1),
        population.total() == population.group_end(2),
{
    reveal_with_fuel(Population::slot_start, 16);
}

/// The object numbered `n` lies within the group of its slot.
pub proof fn lemma_slot_within_group(population: Population, n: nat, slot: nat)
    requires
        population.in_slot(n, slot),
    ensures
        slot / population.classes() < GROUP_COUNT,
        population.group_start(slot / population.classes()) <= n < population.group_end(
            slot / population.classes(),
        ),
{
    let classes = population.classes();
    let group = slot / classes;
    assert(classes == 5 || classes == 3);
    assert(group * classes <= slot < (group + 1) * classes && group < 3) by {
        if classes == 5 {
            assert(group == slot / 5);
        } else {
            assert(group == slot / 3);
        }
    }
    lemma_slot_start_monotonic(population, group * classes, slot);
    lemma_slot_start_monotonic(population, slot, (group + 1) * classes);
}

/// Creating object `n` adds one object to the group of its slot, as that
/// group's next in order, and none to the other groups.
pub proof fn lemma_group_fill_step(population: Population, n: nat, slot: nat)
    requires
        population.in_slot(n, slot),
    ensures
        slot / population.classes() < GROUP_COUNT,
        population.group_fill(slot / population.classes(), n) == n - population.group_start(
            slot / population.classes(),
        ),
        forall|group: nat|
            group < GROUP_COUNT ==> #[trigger] population.group_fill(group, n + 1)
                == population.group_fill(group, n) + if group == slot / population.classes() {
                1nat
            } else {
                0nat
            },
{
    lemma_slot_within_group(population, n, slot);
    lemma_group_bounds(population);
}

} // verus!
