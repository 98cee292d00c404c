//! Ratios in parts per billion, as the runtime's weight limits are written.

use vstd::prelude::*;

verus! {

/// One whole, in parts per billion.
pub const BILLION: u32 = 1_000_000_000;

/// The number of parts per billion that `percent` percent stands for,
/// saturating at one whole.
pub open spec fn parts_from_percent(percent: u32) -> nat {
    if percent > 100 {
        1_000_000_000
    } else {
        (percent * 10_000_000) as nat
    }
}

/// Calls `sp_arithmetic::Perbill::from_percent` and takes the parts back out
/// with `Perbill::deconstruct`. The source of `from_percent` clamps its
/// argument to 100 and multiplies by `1_000_000_000 / 100`; `deconstruct`
/// returns the stored parts unchanged.
#[verifier::external_body]
fn perbill_parts_from_percent(percent: u32) -> (parts: u32)
    ensures
        parts == parts_from_percent(percent),
{
    sp_arithmetic::Perbill::from_percent(percent).deconstruct()
}

/// A fraction in the range [0, 1] held as parts per billion.
#[derive(Clone, Copy, Debug, PartialEq, Eq)]
pub struct PartsPerBillion {
    parts: u32,
}

impl PartsPerBillion {
    /// The parts this ratio holds.
    pub closed spec fn parts(self) -> nat {
        self.parts as nat
    }

    /// A ratio never exceeds one whole.
    pub closed spec fn wf(self) -> bool {
        self.parts <= BILLION
    }

    /// Builds the ratio for `percent` percent; percentages above 100 saturate.
    pub fn from_percent(percent: u32) -> (r: PartsPerBillion)
        ensures
            r.wf(),
            r.parts() == parts_from_percent(percent),
    {
        PartsPerBillion { parts: perbill_parts_from_percent(percent) }
    }

    /// The parts per billion of this ratio.
    pub fn deconstruct(&self) -> (parts: u32)
        ensures
            parts == self.parts(),
    {
        self.parts
    }
}

} // verus!
