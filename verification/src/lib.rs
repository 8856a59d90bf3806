//! A gain plugin's verified core: the checks behind its CLAP entry point, and the
//! arithmetic helper that the package exports.
use vstd::prelude::*;

pub mod factory;

verus! {

/// Sums two integers.
pub fn add(left: u64, right: u64) -> (sum: u64)
    requires
        left + right <= u64::MAX,
    ensures
        sum == left + right,
{
    left + right
}

} // verus!
