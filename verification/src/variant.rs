//! Telling chain specifications apart by their identifier.

use vstd::prelude::*;

use crate::text::{ends_with, has_suffix};

verus! {

/// Identifiers of template networks end with this word.
pub open spec fn template_marker() -> Seq<char> {
    "template"@
}

/// Can be asked of a chain specification to learn which network it is for.
pub trait IdentifyVariant {
    /// The identifier of the chain specification.
    spec fn chain_id(&self) -> Seq<char>;

    /// Returns `true` if this is a configuration for a template network.
    fn is_template(&self) -> (r: bool)
        ensures
            r == has_suffix(self.chain_id(), template_marker()),
    ;
}

impl IdentifyVariant for str {
    open spec fn chain_id(&self) -> Seq<char> {
        self@
    }

    fn is_template(&self) -> (r: bool) {
        ends_with(self, "template")
    }
}

impl IdentifyVariant for String {
    open spec fn chain_id(&self) -> Seq<char> {
        self@
    }

    fn is_template(&self) -> (r: bool) {
        ends_with(self.as_str(), "template")
    }
}

} // verus!
