//! Runtime parameters: block time, weights and fees.

use vstd::prelude::*;

use crate::per_thing::{parts_from_percent, PartsPerBillion};
use crate::primitives::{Balance, Weight, WEIGHT_PER_SECOND};
use crate::template::{currency, time};

verus! {

/// The average expected block time that we are targeting, in milliseconds.
/// Blocks are produced at a minimum duration of one slot; the timestamp
/// pallet picks it up, and Aura takes its slot duration from there.
pub const SLOT_DURATION: u64 = time::BLOCK_TIME * 1000;

/// Share of the block weight, in percent, assumed to be consumed by
/// `on_initialize` handlers; it limits the weight of a single extrinsic.
pub const AVERAGE_ON_INITIALIZE_PERCENT: u32 = 10;

/// Share of the block, in percent, that `Normal` extrinsics may fill; the
/// rest is left to `Operational` extrinsics.
pub const NORMAL_DISPATCH_PERCENT: u32 = 75;

/// The `on_initialize` share of the block weight as a ratio.
pub fn average_on_initialize_ratio() -> (r: PartsPerBillion)
    ensures
        r.wf(),
        r.parts() == parts_from_percent(AVERAGE_ON_INITIALIZE_PERCENT),
{
    PartsPerBillion::from_percent(AVERAGE_ON_INITIALIZE_PERCENT)
}

/// The `Normal` dispatch share of the block as a ratio.
pub fn normal_dispatch_ratio() -> (r: PartsPerBillion)
    ensures
        r.wf(),
        r.parts() == parts_from_percent(NORMAL_DISPATCH_PERCENT),
{
    PartsPerBillion::from_percent(NORMAL_DISPATCH_PERCENT)
}

/// Two seconds of compute with a six second average block time.
pub const MAXIMUM_BLOCK_WEIGHT: Weight = 2 * WEIGHT_PER_SECOND;

/// The chain's SS58 address prefix; 42 is the generic Substrate prefix.
pub const SS58_BASE_PREFIX: u8 = 42;

/// Minimum balance that keeps an account alive; below it the account is
/// reaped and its remaining funds are burned.
pub const EXISTENTIAL_DEPOSIT: Balance = 1 * currency::CENT;

/// Cost per byte of a transaction.
pub const TRANSACTION_BYTE_FEE: Balance = 1 * currency::MILL;

/// `Normal` extrinsics may always use at least the share of the block that
/// `on_initialize` handlers are assumed to take.
pub proof fn lemma_normal_dispatch_covers_initialize()
    ensures
        parts_from_percent(NORMAL_DISPATCH_PERCENT) >= parts_from_percent(
            AVERAGE_ON_INITIALIZE_PERCENT,
        ),
{
}

} // verus!
