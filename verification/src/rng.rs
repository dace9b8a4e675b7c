//! The one randomness primitive the simulation draws on, and safe
//! range helpers built on it.

use vstd::prelude::*;

verus! {

/// Relies on `rand::random_range` over `0..n`: the sampled value lies
/// in the half-open range.  Nothing more is assumed of the draw; with
/// `n >= 1` the range is non-empty, so the call cannot panic.
#[verifier::external_body]
fn random_below(n: u64) -> (r: u64)
    requires
        n >= 1,
    ensures
        r < n,
{
    rand::random_range(0..n)
}

/// A random value in `[lo, hi)`.
pub fn random_in_range(lo: i64, hi: i64) -> (r: i64)
    requires
        lo < hi,
        hi - lo <= 1_000_000_000_000_000_000,
    ensures
        lo <= r < hi,
{
    let span: u64 = (hi - lo) as u64;
    let off: u64 = random_below(span);
    lo + (off as i64)
}

/// A random index below `n`.
pub fn random_index(n: usize) -> (r: usize)
    requires
        n >= 1,
    ensures
        r < n,
{
    let off: u64 = random_below(n as u64);
    off as usize
}

} // verus!
