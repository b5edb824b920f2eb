//! The one place where the library draws randomness.

use vstd::prelude::*;

verus! {

/// Relies on `rand::random_range`: for a non-empty integer range `0..n` it
/// returns a value drawn uniformly from that range, so the result is always
/// below `n`. The empty range, on which it would panic, is ruled out by the
/// precondition. Nothing more is assumed: which index comes back is chance.
#[verifier::external_body]
pub(crate) fn random_index_below(n: usize) -> (r: usize)
    requires
        n >= 1,
    ensures
        r < n,
{
    rand::random_range(0..n)
}

} // verus!
