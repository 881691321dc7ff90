//! The calls into the random number crates.
//!
//! Nothing in this module is proved: each function below states what the
//! crate it calls documents, and the rest of the library is verified
//! against these statements. None of them says which value is drawn, so
//! every caller is verified for all outcomes.

use vstd::prelude::*;
use rand::{Rng, RngCore};
use rand_xoshiro::Xoshiro256Plus;

verus! {

/// The generator every driver owns. Its state is opaque to the proofs.
#[verifier::external_type_specification]
#[verifier::external_body]
pub struct ExXoshiro256Plus(rand_xoshiro::Xoshiro256Plus);

/// `RngCore::next_u64`: the next 64 random bits. Any value may come back.
#[verifier::external_body]
pub(crate) fn next_u64(rng: &mut Xoshiro256Plus) -> (bits: u64) {
    rng.next_u64()
}

/// `Rng::gen_range` on a half-open range of `u8`: a value of the range.
/// The call panics on an empty range, which `requires` leaves out.
#[verifier::external_body]
pub(crate) fn gen_range_u8(rng: &mut Xoshiro256Plus, low: u8, high: u8) -> (drawn: u8)
    requires
        low < high,
    ensures
        low <= drawn < high,
{
    rng.gen_range(low..high)
}

/// `Rng::gen_range` on a half-open range of `u64`: a value of the range.
/// The call panics on an empty range, which `requires` leaves out.
#[verifier::external_body]
pub(crate) fn gen_range_u64(rng: &mut Xoshiro256Plus, low: u64, high: u64) -> (drawn: u64)
    requires
        low < high,
    ensures
        low <= drawn < high,
{
    rng.gen_range(low..high)
}

/// `Rng::gen_ratio`: `true` with probability `numerator / denominator`.
/// It is documented to be always `true` when the two are equal and always
/// `false` when the numerator is zero, and to panic on a zero denominator
/// or a numerator above it.
#[verifier::external_body]
pub(crate) fn gen_ratio(rng: &mut Xoshiro256Plus, numerator: u32, denominator: u32) -> (hit: bool)
    requires
        0 < denominator,
        numerator <= denominator,
    ensures
        numerator == denominator ==> hit,
        numerator == 0 ==> !hit,
{
    rng.gen_ratio(numerator, denominator)
}

/// `RngCore::fill_bytes`: overwrites every byte of `dest` with random
/// data. The length stays; nothing is said of the contents.
#[verifier::external_body]
pub(crate) fn fill_bytes(rng: &mut Xoshiro256Plus, dest: &mut Vec<u8>)
    ensures
        final(dest)@.len() == old(dest)@.len(),
{
    rng.fill_bytes(dest.as_mut_slice())
}

/// `distributions::Slice` sampled once with `thread_rng`: a reference to
/// one of the items, drawn uniformly. Building the distribution fails on
/// an empty slice, which `requires` leaves out.
#[verifier::external_body]
pub(crate) fn sample_slice<'a, T>(items: &'a [T]) -> (picked: &'a T)
    requires
        items@.len() > 0,
    ensures
        items@.contains(*picked),
{
    rand::thread_rng().sample(rand::distributions::Slice::new(items).unwrap())
}

} // verus!
