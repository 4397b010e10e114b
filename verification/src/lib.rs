//! Concurrent simulation-data pipeline for a time-evolving 2D lattice of
//! orientation values: a lock-guarded shared configuration, a background
//! worker that generates one frame per cadence tick, an unbounded channel
//! carrying the frames to the UI thread, and a consumer that drains and
//! applies them in order.

pub mod algorithm;
pub mod algorithm_processor;
pub mod application;
pub mod channel;
pub mod consumer;
pub mod controls;

use vstd::prelude::*;

verus! {

/// Largest number of lattice cells a configuration may hold, so that a
/// frame of 8-byte cells always fits in an allocation.
pub const MAX_CELLS: usize = 0x0100_0000;

} // verus!
