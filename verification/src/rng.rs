//! Trusted wrappers around the `rand` crate.  Nothing is assumed about the
//! distribution of a draw, only the range that the documentation promises.

use vstd::prelude::*;

verus! {

/// Relies on rand::random_range over `lo..hi` at `u64`: the draw lies in the
/// half-open range.  The range must be non-empty, or the call panics.
#[verifier::external_body]
pub fn random_u64_range(lo: u64, hi: u64) -> (r: u64)
    requires
        lo < hi,
    ensures
        lo <= r < hi,
{
    rand::random_range(lo..hi)
}

/// Relies on rand::random_range over `lo..hi` at `i64`: the draw lies in the
/// half-open range.  The range must be non-empty, or the call panics.
#[verifier::external_body]
pub fn random_i64_range(lo: i64, hi: i64) -> (r: i64)
    requires
        lo < hi,
    ensures
        lo <= r < hi,
{
    rand::random_range(lo..hi)
}

/// Relies on rand::random at `u64`: an arbitrary draw, with nothing promised
/// of its value.
#[verifier::external_body]
pub fn random_u64() -> u64 {
    rand::random()
}

} // verus!
