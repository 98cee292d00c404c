//! Plain types shared by the runtimes.

use vstd::prelude::*;

verus! {

/// An index to a block.
pub type BlockNumber = u32;

/// Balance of an account.
pub type Balance = u128;

/// Index of a transaction in the chain.
pub type Index = u32;

/// A timestamp or duration, in seconds or milliseconds as the name says.
pub type Moment = u64;

/// Block execution weight, in picoseconds of reference hardware.
pub type Weight = u64;

/// One second of execution time, in weight units.
pub const WEIGHT_PER_SECOND: Weight = 1_000_000_000_000;

} // verus!
