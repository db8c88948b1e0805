//! Random draws the game makes (thread-local generator of `rand`).
use rand::Rng;
use vstd::prelude::*;

verus! {

/// A fair coin from `rand::Rng::random::<bool>` on the thread-local generator.
/// Nothing is promised about which side comes up.
#[verifier::external_body]
pub(crate) fn random_bool() -> (r: bool) {
    rand::rng().random::<bool>()
}

/// A uniform index in `0..n` from `rand::Rng::random_range` on the
/// thread-local generator; `random_range` panics on an empty range, hence
/// `n > 0`.  The result is below `n`; which index comes up is not promised.
#[verifier::external_body]
pub(crate) fn random_index(n: usize) -> (r: usize)
    requires
        n > 0,
    ensures
        r < n,
{
    rand::rng().random_range(0..n)
}

} // verus!
