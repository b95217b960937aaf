//! The one source of randomness.

use vstd::prelude::*;

verus! {

/// Draws a boolean with `rand::random::<bool>()`, which asks the calling
/// thread's generator for the next value of the standard distribution.
///
/// Nothing is claimed of the result: either value may come back, and two
/// calls need not agree. The generator is seeded from the operating system
/// on a thread's first draw, and `rand` panics if that seeding fails.
#[verifier::external_body]
pub(crate) fn coin_flip() -> (coin: bool) {
    rand::random::<bool>()
}

} // verus!
