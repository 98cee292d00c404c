//! What the node's command line tells about itself.

use vstd::prelude::*;

verus! {

/// The implementation's name.
pub fn impl_name() -> (r: String)
    ensures
        r@ == "Substrate Node"@,
{
    String::from_str("Substrate Node")
}

/// Where to ask for support.
pub fn support_url() -> (r: String)
    ensures
        r@ == "support.anonymous.an"@,
{
    String::from_str("support.anonymous.an")
}

/// The first year of the copyright notice.
pub fn copyright_start_year() -> (r: i32)
    ensures
        r == 2017,
{
    2017
}

} // verus!
