//! Synthetic gossip traffic of a slot-based proof-of-stake network.
//!
//! The crate decides, from a slot number and a handful of network-wide
//! constants, which validators send which kind of message on which subnet,
//! and keeps the queue from which a caller drains those messages tick by
//! tick. Everything here is integer arithmetic on plain values; clocks,
//! timers and transport live with the caller.
use vstd::prelude::*;

pub mod arith;
pub mod builder;
pub mod counting;
pub mod generator;
pub mod laws;
pub mod messages;
pub mod params;
pub mod sizes;
pub mod slot_generator;
pub mod validators;

verus! {

/// Number of epochs over which the membership of the sync committee is fixed.
pub const EPOCHS_PER_SYNC_COMMITTEE_PERIOD: u64 = 256;

} // verus!
