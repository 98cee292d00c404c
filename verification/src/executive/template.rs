//! Native executor instance of the template runtime (Aura block production, GRANDPA finality).

use vstd::prelude::*;

verus! {

/// Our native executor instance: it dispatches runtime calls to the
/// natively compiled runtime.
pub struct ExecutorDispatch;

} // verus!
