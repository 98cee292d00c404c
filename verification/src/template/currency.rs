//! Units of the native token.

use vstd::prelude::*;

use crate::primitives::Balance;

verus! {

/// One whole coin.
pub const COIN: Balance = 100000000;

/// A hundredth of a coin.
pub const CENT: Balance = COIN / 100;

/// A hundredth of a cent.
pub const MILL: Balance = CENT / 100;

} // verus!
