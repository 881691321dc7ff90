//! Synthetic workloads for a three-tier object store.
//!
//! The crate holds the decisions of three workload drivers (checkpoint
//! cycling, mixed file-size population with biased reads, and a
//! write-once-then-random-read evaluation), the tier placement policy they
//! share, and the chunked random byte producer that fills every object.
//! Talking to the storage engine is left to the caller: each driver is a
//! state machine that hands out the next action to perform.

pub mod tier;
pub mod placement;
pub mod rng;
pub mod random_bytes;
pub mod keys;
pub mod action;
pub mod checkpoints;
pub mod population;
pub mod filesystem;
pub mod scientific_evaluation;
