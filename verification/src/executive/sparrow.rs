//! Native executor instance of the Sparrow runtime (BABE block production, GRANDPA finality).

use vstd::prelude::*;

verus! {

/// Our native executor instance: it dispatches runtime calls to the
/// natively compiled runtime.
pub struct ExecutorDispatch;

} // verus!
