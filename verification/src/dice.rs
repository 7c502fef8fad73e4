//! Random draws from the world's `fastrand` generator.

use vstd::prelude::*;

verus! {

/// The world's random number generator (`fastrand::Rng`), carried opaquely.
#[verifier::external_type_specification]
#[verifier::external_body]
pub struct ExRng(fastrand::Rng);

/// `fastrand::Rng::u32` on the range `0..100`: a value of the range (the
/// crate panics only on an empty range). Which value comes out is chance
/// and is not stated.
#[verifier::external_body]
pub(crate) fn roll_percent(rng: &mut fastrand::Rng) -> (r: u32)
    ensures
        r < 100,
{
    rng.u32(0..100)
}

/// `fastrand::Rng::u16` on the full range `..`: any `u16` (nothing about
/// the value is stated; every `u16` is possible).
#[verifier::external_body]
pub(crate) fn roll_u16(rng: &mut fastrand::Rng) -> (r: u16) {
    rng.u16(..)
}

} // verus!
