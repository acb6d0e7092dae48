//! Trusted boundary around the `rand` crate.
//!
//! The engine draws two kinds of random values: an index selecting a cell and
//! a code point inside a sampling window.  Both come from a caller-supplied
//! [`rand::rngs::StdRng`], so that a seeded generator yields a reproducible
//! run.  Nothing is assumed about which value a draw returns beyond the range
//! it was asked for.

use vstd::prelude::*;
use rand::Rng;

verus! {

/// Declares `rand::rngs::StdRng` so that the engine's signatures can carry
/// the caller-supplied random source; the value is opaque here.
#[verifier::external_type_specification]
#[verifier::external_body]
pub struct ExStdRng(rand::rngs::StdRng);

/// Relies on `rand::Rng::gen_range` over `low..=high`: it panics only on an
/// empty range and returns a value of the range it was given.
#[verifier::external_body]
pub(crate) fn draw_in_range(rng: &mut rand::rngs::StdRng, low: u32, high: u32) -> (r: u32)
    requires
        low <= high,
    ensures
        low <= r <= high,
{
    rng.gen_range(low..=high)
}

/// Relies on `rand::Rng::gen_range` over `0..len`: it panics only on an empty
/// range and returns a value of the range it was given.
#[verifier::external_body]
pub(crate) fn draw_index(rng: &mut rand::rngs::StdRng, len: usize) -> (r: usize)
    requires
        len > 0,
    ensures
        r < len,
{
    rng.gen_range(0..len)
}

} // verus!
