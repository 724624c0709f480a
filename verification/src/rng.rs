//! Injected randomness.
//!
//! The engine consumes one capability: a source of uniformly distributed
//! integers in a caller-specified inclusive range. The thread-local generator
//! of the `rand` crate supplies it, behind trusted wrappers; no contract here
//! assumes more of a random result than its bounds.

use vstd::prelude::*;

verus! {

/// `rand::rngs::ThreadRng`, the handle to the thread-local generator, as an
/// opaque type the engine threads through its entry points.
#[verifier::external_type_specification]
#[verifier::external_body]
pub struct ExThreadRng(rand::rngs::ThreadRng);

/// Relies on `rand::RngExt::random_range` over `lo..=hi`: the result lies in
/// the inclusive range, which is non-empty by the precondition (the call
/// panics on an empty range). Nothing else holds of a random draw.
#[verifier::external_body]
pub fn draw_in_range(rng: &mut rand::rngs::ThreadRng, lo: u64, hi: u64) -> (r: u64)
    requires
        lo <= hi,
    ensures
        lo <= r <= hi,
{
    rand::RngExt::random_range(rng, lo..=hi)
}

} // verus!
