//! The library's single source of randomness, taken on trust from `rand`.

use rand::RngExt;
use vstd::prelude::*;

verus! {

/// Relies on `rand`'s `RngExt::random_range` on the thread-local generator:
/// sampling a half-open integer range yields a value within that range. The
/// call panics on an empty range, which the precondition rules out.
#[verifier::external_body]
pub(crate) fn random_range_u16(lo: u16, hi: u16) -> (r: u16)
    requires
        lo < hi,
    ensures
        lo <= r < hi,
{
    rand::rng().random_range(lo..hi)
}

} // verus!
