//! Block time; time is measured by number of blocks.

use vstd::prelude::*;

use crate::primitives::{BlockNumber, Moment};

verus! {

/// Target block time, in seconds.
pub const BLOCK_TIME: Moment = 6;

/// Blocks per minute.
pub const MINUTES: BlockNumber = 60 / (BLOCK_TIME as u32);

/// Blocks per hour.
pub const HOURS: BlockNumber = MINUTES * 60;

/// Blocks per day.
pub const DAYS: BlockNumber = HOURS * 24;

} // verus!
