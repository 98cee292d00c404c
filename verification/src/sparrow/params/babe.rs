//! BABE block production parameters.

use vstd::prelude::*;

use crate::primitives::BlockNumber;
use crate::sparrow::time::{BLOCK_TIME, DAYS};

verus! {

/// The average expected block time that we are targeting, in milliseconds.
pub const SLOT_DURATION: u64 = BLOCK_TIME * 1000;

/// 1 in 4 blocks (on average, not counting collisions) will be primary BABE
/// blocks.
pub const PRIMARY_PROBABILITY: (u64, u64) = (1, 4);

/// Length of an epoch, in blocks. It cannot be changed after the chain has
/// started: doing so would stop block production.
pub const EPOCH_DURATION_IN_BLOCKS: BlockNumber = 1 * DAYS;

} // verus!
