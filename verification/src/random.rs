//! The crate's only window onto the `rand` crate.
//!
//! The growth engine draws every random value through the wrappers below, so
//! everything proved about the engine holds for every value these draws could
//! return.  Nothing is assumed about which value comes back, only the range
//! that `rand` documents for a non-empty `gen_range` request.

use vstd::prelude::*;

verus! {

/// The seedable generator that drives a whole generation run.
#[verifier::external_type_specification]
#[verifier::external_body]
pub struct ExStdRng(rand::rngs::StdRng);

/// Relies on `rand::Rng::gen::<i32>`: any `i32` may come back, and nothing
/// more is assumed of it.
#[verifier::external_body]
pub fn gen_i32(rng: &mut rand::rngs::StdRng) -> i32 {
    rand::Rng::gen::<i32>(rng)
}

/// Relies on `rand::Rng::gen_range` over a half-open range, which samples
/// uniformly from `low..high` and panics only when the range is empty.
#[verifier::external_body]
pub fn gen_range(rng: &mut rand::rngs::StdRng, low: i32, high: i32) -> (n: i32)
    requires
        low < high,
    ensures
        low <= n < high,
{
    rand::Rng::gen_range(rng, low..high)
}

/// Relies on `rand::Rng::gen_range` over an inclusive range, which samples
/// uniformly from `low..=high` and panics only when the range is empty.
#[verifier::external_body]
pub fn gen_range_inclusive(rng: &mut rand::rngs::StdRng, low: i32, high: i32) -> (n: i32)
    requires
        low <= high,
    ensures
        low <= n <= high,
{
    rand::Rng::gen_range(rng, low..=high)
}

} // verus!
