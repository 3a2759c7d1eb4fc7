//! The one random source of the crate: uniform integer draws.

use vstd::prelude::*;

verus! {

/// Relies on rand::Rng::gen_range over an i64 half-open range (rand 0.8):
/// it returns a uniform sample in [lo, hi) and panics only on an empty
/// range, which the precondition rules out. Nothing more than the bounds
/// can be promised of a random draw.
#[verifier::external_body]
pub fn rand_in_range(lo: i64, hi: i64) -> (r: i64)
    requires
        lo < hi,
    ensures
        lo <= r < hi,
{
    rand::Rng::gen_range(&mut rand::thread_rng(), lo..hi)
}

} // verus!
