use duality::per_thing::PartsPerBillion;
use duality::primitives::WEIGHT_PER_SECOND;
use duality::sparrow;
use duality::template;

#[test]
fn sparrow_currency_units() {
    assert_eq!(sparrow::currency::COIN, 100_000_000);
    assert_eq!(sparrow::currency::CENT, 1_000_000);
    assert_eq!(sparrow::currency::MILL, 10_000);
    assert_eq!(sparrow::currency::MILL * 100 * 100, sparrow::currency::COIN);
}

#[test]
fn sparrow_time_in_blocks() {
    assert_eq!(sparrow::time::BLOCK_TIME, 6);
    assert_eq!(sparrow::time::MINUTES, 10);
    assert_eq!(sparrow::time::HOURS, 600);
    assert_eq!(sparrow::time::DAYS, 14_400);
    assert_eq!(sparrow::time::DAYS as u64 * sparrow::time::BLOCK_TIME, 24 * 60 * 60);
}

#[test]
fn sparrow_babe_params() {
    assert_eq!(sparrow::params::babe::SLOT_DURATION, 6000);
    assert_eq!(sparrow::params::babe::PRIMARY_PROBABILITY, (1, 4));
    assert_eq!(sparrow::params::babe::EPOCH_DURATION_IN_BLOCKS, 14_400);
}

#[test]
fn sparrow_fees() {
    assert_eq!(sparrow::params::EXISTENTIAL_DEPOSIT, 1_000_000);
    assert_eq!(sparrow::params::TRANSACTION_BYTE_FEE, 10_000);
    assert_eq!(sparrow::params::ITEM_FEE, 1_000_000);
    assert_eq!(sparrow::params::STORAGE_BYTE_FEE, 100_000);
    assert_eq!(sparrow::params::SS58_BASE_PREFIX, 42);
    assert_eq!(sparrow::params::MAXIMUM_BLOCK_WEIGHT, 2_000_000_000_000);
    assert_eq!(sparrow::params::MAXIMUM_BLOCK_WEIGHT, 2 * WEIGHT_PER_SECOND);
}

#[test]
fn sparrow_deposit_values() {
    assert_eq!(sparrow::params::deposit(0, 0), 0);
    assert_eq!(sparrow::params::deposit(1, 0), 1_000_000);
    assert_eq!(sparrow::params::deposit(0, 1), 100_000);
    assert_eq!(sparrow::params::deposit(2, 10), 3_000_000);
    assert_eq!(
        sparrow::params::deposit(u32::MAX, u32::MAX),
        (u32::MAX as u128) * 1_000_000 + (u32::MAX as u128) * 100_000
    );
}

#[test]
fn sparrow_deposit_adds_up() {
    let a = sparrow::params::deposit(3, 40);
    let b = sparrow::params::deposit(5, 60);
    assert_eq!(sparrow::params::deposit(8, 100), a + b);
}

#[test]
fn sparrow_dispatch_ratios() {
    let avg = sparrow::params::average_on_initialize_ratio();
    let normal = sparrow::params::normal_dispatch_ratio();
    assert_eq!(avg.deconstruct(), 100_000_000);
    assert_eq!(normal.deconstruct(), 750_000_000);
    assert!(normal.deconstruct() >= avg.deconstruct());
}

#[test]
fn template_constants() {
    assert_eq!(template::currency::COIN, 100_000_000);
    assert_eq!(template::currency::CENT, 1_000_000);
    assert_eq!(template::currency::MILL, 10_000);
    assert_eq!(template::time::BLOCK_TIME, 6);
    assert_eq!(template::time::MINUTES, 10);
    assert_eq!(template::time::HOURS, 600);
    assert_eq!(template::time::DAYS, 14_400);
    assert_eq!(template::params::SLOT_DURATION, 6000);
    assert_eq!(template::params::SS58_BASE_PREFIX, 42);
    assert_eq!(template::params::EXISTENTIAL_DEPOSIT, 1_000_000);
    assert_eq!(template::params::TRANSACTION_BYTE_FEE, 10_000);
    assert_eq!(template::params::MAXIMUM_BLOCK_WEIGHT, 2_000_000_000_000);
}

#[test]
fn template_dispatch_ratios() {
    let avg = template::params::average_on_initialize_ratio();
    let normal = template::params::normal_dispatch_ratio();
    assert_eq!(avg.deconstruct(), 100_000_000);
    assert_eq!(normal.deconstruct(), 750_000_000);
    assert!(normal.deconstruct() >= avg.deconstruct());
}

#[test]
fn ratio_from_percent() {
    assert_eq!(PartsPerBillion::from_percent(0).deconstruct(), 0);
    assert_eq!(PartsPerBillion::from_percent(1).deconstruct(), 10_000_000);
    assert_eq!(PartsPerBillion::from_percent(33).deconstruct(), 330_000_000);
    assert_eq!(PartsPerBillion::from_percent(100).deconstruct(), 1_000_000_000);
}

#[test]
fn ratio_from_percent_saturates() {
    assert_eq!(PartsPerBillion::from_percent(101).deconstruct(), 1_000_000_000);
    assert_eq!(PartsPerBillion::from_percent(u32::MAX).deconstruct(), 1_000_000_000);
}
