//! Block time; time is measured by number of blocks.

use vstd::prelude::*;

verus! {

/// Target block time, in seconds.
pub const BLOCK_TIME: u64 = 6;

/// Blocks per minute.
pub const MINUTES: u64 = 60 / BLOCK_TIME;

/// Blocks per hour.
pub const HOURS: u64 = MINUTES * 60;

/// Blocks per day.
pub const DAYS: u64 = HOURS * 24;

} // verus!
