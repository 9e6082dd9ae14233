//! The one source of randomness.

use vstd::prelude::*;
use rand::Rng;

verus! {

/// Draws a byte from `low` to `high`, both included.
///
/// Calls `rand::rng()` for the thread-local generator of the `rand` crate and
/// `Rng::random_range` on it with the inclusive range `low..=high`. Trusted,
/// not proved: the result lies in the range asked for. Nothing is claimed
/// about which byte comes out; two calls may differ.
///
/// `random_range` panics on an empty range, which `low <= high` rules out.
/// What is left are the two places where the generator asks the operating
/// system for entropy and panics if it gets none: when a thread first uses
/// the generator, and whenever the generator reseeds itself after it has
/// handed out its quota of bytes. No precondition can exclude either.
#[verifier::external_body]
pub(crate) fn random_byte_in(low: u8, high: u8) -> (byte: u8)
    requires
        low <= high,
    ensures
        low <= byte <= high,
{
    rand::rng().random_range(low..=high)
}

} // verus!
