//! What a driver asks its caller to do with the engine.
//!
//! The drivers never touch the engine themselves. Each `step` returns one
//! `Action`; the caller performs it and then asks for the next one. Any
//! engine failure ends the run: a driver is never told about it.

use vstd::prelude::*;
use crate::tier::TierIndex;

verus! {

/// Where in a run a durability barrier stands.
#[derive(Clone, Copy, Debug, PartialEq, Eq, Structural)]
pub enum SyncPoint {
    /// Right after one object has been written.
    AfterWrite,
    /// After a whole batch of objects: a generation, or the population.
    Barrier,
}

impl SyncPoint {
    /// What a caller reports when the engine fails this barrier.
    pub fn failure_message(self) -> (message: &'static str)
        ensures
            self == SyncPoint::Barrier ==> message@ == "Failed to sync database"@,
            self == SyncPoint::AfterWrite ==> message@
                == "Could not write object to disk completely. Check policy or benchmark disk utilization."@,
    {
        match self {
            SyncPoint::Barrier => "Failed to sync database",
            SyncPoint::AfterWrite =>
                "Could not write object to disk completely. Check policy or benchmark disk utilization.",
        }
    }
}

/// One object to create and fill in a single sequential pass.
#[derive(Clone, Debug, PartialEq, Eq)]
pub struct ObjectWrite {
    pub key: Vec<u8>,
    /// Tier preference the object is created under.
    pub create_tier: TierIndex,
    /// Tier preference of the cursor that writes it.
    pub cursor_tier: TierIndex,
    /// Number of random bytes to write.
    pub size: u64,
}

/// One read of `length` bytes at `offset` of the object `key`.
#[derive(Clone, Debug, PartialEq, Eq)]
pub struct ReadRequest {
    pub key: Vec<u8>,
    pub offset: u64,
    pub length: u64,
}

/// The next thing to do.
#[derive(Clone, Debug, PartialEq, Eq)]
pub enum Action {
    /// Create the object and fill it with random bytes.
    Write(ObjectWrite),
    /// Flush everything written so far to stable storage.
    Sync(SyncPoint),
    /// Open the existing object `key` and keep it for the reads to come.
    Reopen(Vec<u8>),
    /// A new round of reads begins; rounds are counted from zero.
    Round(u64),
    /// Read from an object.
    Read(ReadRequest),
    /// Nothing to do at this step.
    Idle,
    /// The run is over.
    Finished,
}

pub ghost struct ObjectWriteView {
    pub key: Seq<u8>,
    pub create_tier: TierIndex,
    pub cursor_tier: TierIndex,
    pub size: u64,
}

pub ghost struct ReadRequestView {
    pub key: Seq<u8>,
    pub offset: u64,
    pub length: u64,
}

pub ghost enum ActionView {
    Write(ObjectWriteView),
    Sync(SyncPoint),
    Reopen(Seq<u8>),
    Round(u64),
    Read(ReadRequestView),
    Idle,
    Finished,
}

impl View for ObjectWrite {
    type V = ObjectWriteView;

    open spec fn view(&self) -> ObjectWriteView {
        ObjectWriteView {
            key: self.key@,
            create_tier: self.create_tier,
            cursor_tier: self.cursor_tier,
            size: self.size,
        }
    }
}

impl View for ReadRequest {
    type V = ReadRequestView;

    open spec fn view(&self) -> ReadRequestView {
        ReadRequestView { key: self.key@, offset: self.offset, length: self.length }
    }
}

impl View for Action {
    type V = ActionView;

    open spec fn view(&self) -> ActionView {
        match self {
            Action::Write(write) => ActionView::Write(write@),
            Action::Sync(point) => ActionView::Sync(*point),
            Action::Reopen(key) => ActionView::Reopen(key@),
            Action::Round(round) => ActionView::Round(*round),
            Action::Read(read) => ActionView::Read(read@),
            Action::Idle => ActionView::Idle,
            Action::Finished => ActionView::Finished,
        }
    }
}

} // verus!
