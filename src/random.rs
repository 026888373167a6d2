//! Uniform random draws.

use vstd::prelude::*;

use crate::units::FRAC_ONE;

verus! {

/// Relies on rand::random_range: a value drawn uniformly from the half-open
/// range `0..n`; it panics only on an empty range.
#[verifier::external_body]
fn random_below(n: u32) -> (r: u32)
    requires
        n > 0,
    ensures
        r < n,
{
    rand::random_range(0..n)
}

/// A fraction drawn uniformly from `[0, 1)`, in parts per million.
pub fn random_fraction() -> (r: u32)
    ensures
        r < FRAC_ONE,
{
    random_below(FRAC_ONE)
}

} // verus!
