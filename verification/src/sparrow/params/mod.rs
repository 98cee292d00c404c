//! Runtime parameters: weights, deposits and fees.

pub mod babe;

use vstd::prelude::*;

use crate::per_thing::{parts_from_percent, PartsPerBillion};
use crate::primitives::{Balance, Weight, WEIGHT_PER_SECOND};
use crate::sparrow::currency;

verus! {

/// Share of the block weight, in percent, assumed to be consumed by
/// `on_initialize` handlers; it limits the weight of a single extrinsic.
pub const AVERAGE_ON_INITIALIZE_PERCENT: u32 = 10;

/// Share of the block, in percent, that `Normal` extrinsics may fill; the
/// rest is left to `Operational` extrinsics.
pub const NORMAL_DISPATCH_PERCENT: u32 = 75;

/// The `on_initialize` share of the block weight as a ratio.
pub fn average_on_initialize_ratio() -> (r: PartsPerBillion)
    ensures
        r.wf(),
        r.parts() == parts_from_percent(AVERAGE_ON_INITIALIZE_PERCENT),
{
    PartsPerBillion::from_percent(AVERAGE_ON_INITIALIZE_PERCENT)
}

/// The `Normal` dispatch share of the block as a ratio.
pub fn normal_dispatch_ratio() -> (r: PartsPerBillion)
    ensures
        r.wf(),
        r.parts() == parts_from_percent(NORMAL_DISPATCH_PERCENT),
{
    PartsPerBillion::from_percent(NORMAL_DISPATCH_PERCENT)
}

/// Two seconds of compute with a six second average block time.
pub const MAXIMUM_BLOCK_WEIGHT: Weight = 2 * WEIGHT_PER_SECOND;

/// The chain's SS58 address prefix; 42 is the generic Substrate prefix.
pub const SS58_BASE_PREFIX: u8 = 42;

/// Minimum balance that keeps an account alive; below it the account is
/// reaped and its remaining funds are burned.
pub const EXISTENTIAL_DEPOSIT: Balance = 1 * currency::CENT;

/// Cost per byte of a transaction.
pub const TRANSACTION_BYTE_FEE: Balance = 1 * currency::MILL;

/// Cost per stored key.
pub const ITEM_FEE: Balance = currency::CENT;

/// Cost per stored byte.
pub const STORAGE_BYTE_FEE: Balance = ITEM_FEE / 10;

/// The deposit owed for `items` stored keys holding `bytes` bytes.
pub open spec fn deposit_amount(items: nat, bytes: nat) -> nat {
    items * (ITEM_FEE as nat) + bytes * (STORAGE_BYTE_FEE as nat)
}

/// The deposit owed for `items` stored keys holding `bytes` bytes.
pub fn deposit(items: u32, bytes: u32) -> (d: Balance)
    ensures
        d == deposit_amount(items as nat, bytes as nat),
{
    (items as Balance) * ITEM_FEE + (bytes as Balance) * STORAGE_BYTE_FEE
}

/// `Normal` extrinsics may always use at least the share of the block that
/// `on_initialize` handlers are assumed to take.
pub proof fn lemma_normal_dispatch_covers_initialize()
    ensures
        parts_from_percent(NORMAL_DISPATCH_PERCENT) >= parts_from_percent(
            AVERAGE_ON_INITIALIZE_PERCENT,
        ),
{
}

/// Deposits add up: storing two batches costs the sum of their deposits.
pub proof fn lemma_deposit_additive(items1: nat, bytes1: nat, items2: nat, bytes2: nat)
    ensures
        deposit_amount(items1 + items2, bytes1 + bytes2) == deposit_amount(items1, bytes1)
            + deposit_amount(items2, bytes2),
{
    assert((items1 + items2) * 1000000 == items1 * 1000000 + items2 * 1000000) by (nonlinear_arith);
    assert((bytes1 + bytes2) * 100000 == bytes1 * 100000 + bytes2 * 100000) by (nonlinear_arith);
}

/// Storing more keys or more bytes never costs less.
pub proof fn lemma_deposit_monotone(items1: nat, bytes1: nat, items2: nat, bytes2: nat)
    requires
        items1 <= items2,
        bytes1 <= bytes2,
    ensures
        deposit_amount(items1, bytes1) <= deposit_amount(items2, bytes2),
{
    assert(items1 * 1000000 <= items2 * 1000000) by (nonlinear_arith)
        requires items1 <= items2;
    assert(bytes1 * 100000 <= bytes2 * 100000) by (nonlinear_arith)
        requires bytes1 <= bytes2;
}

} // verus!
