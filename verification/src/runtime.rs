//! The runtimes a node binary can carry natively.

use vstd::prelude::*;

verus! {

/// A runtime that can be compiled into the node.
#[derive(Clone, Copy, Debug, PartialEq, Eq, Structural)]
pub enum RuntimeKind {
    Sparrow,
    Template,
}

/// The runtime the node serves natively, given which runtimes were built in:
/// Sparrow takes precedence over the template runtime.
pub open spec fn spec_built_runtime(sparrow: bool, template: bool) -> Option<RuntimeKind> {
    if sparrow {
        Some(RuntimeKind::Sparrow)
    } else if template {
        Some(RuntimeKind::Template)
    } else {
        None
    }
}

/// The runtime the node serves natively, given which runtimes were built in.
pub fn built_runtime(sparrow: bool, template: bool) -> (r: Option<RuntimeKind>)
    ensures
        r == spec_built_runtime(sparrow, template),
{
    if sparrow {
        Some(RuntimeKind::Sparrow)
    } else if template {
        Some(RuntimeKind::Template)
    } else {
        None
    }
}

} // verus!
