use vstd::prelude::*;
use rand::Rng;

verus! {

/// Draws a byte below `limit` from the thread-local generator of the
/// `rand` crate, by `rand::Rng::gen_range(0, limit)` on
/// `rand::thread_rng()`.
///
/// Trusted, not proved: the byte lies in the half-open range `0 .. limit`,
/// as `gen_range` documents. Nothing is said of which byte it is.
/// `gen_range` panics on an empty range, which `limit > 0` rules out.
/// `thread_rng` panics where the operating system has no entropy to seed
/// the generator from; no condition on `limit` can rule that out.
#[verifier::external_body]
pub(crate) fn random_below(limit: u8) -> (random: u8)
    requires
        limit > 0,
    ensures
        random < limit,
{
    rand::thread_rng().gen_range(0u8, limit)
}

} // verus!
