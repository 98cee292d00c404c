//! Native executor instance of the template runtime as the node service wires it.

use vstd::prelude::*;

verus! {

/// Our native executor instance: it dispatches runtime calls to the
/// natively compiled runtime.
pub struct ExecutorDispatch;

} // verus!
