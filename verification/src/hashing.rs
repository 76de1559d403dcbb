//! Trusted boundary around the XXH64 streaming hasher.
//!
//! The accumulator `xxhash_rust::xxh64::Xxh64` is opaque to the verifier.
//! Its state is modelled by two names: the seed it was created with
//! (`seed_of`) and the sequence of bytes absorbed so far (`absorbed_of`).
//! The digest of a seed and a byte sequence is named `xxh64_of`; the
//! accumulator's state, and hence its digest, depends on these alone.

use vstd::prelude::*;
use xxhash_rust::xxh64::Xxh64;

verus! {

#[verifier::external_type_specification]
#[verifier::external_body]
pub struct ExXxh64(Xxh64);

/// The seed the accumulator was created with.
pub uninterp spec fn seed_of(h: Xxh64) -> u64;

/// The bytes absorbed by the accumulator since its creation, in order.
pub uninterp spec fn absorbed_of(h: Xxh64) -> Seq<u8>;

/// The XXH64 digest of a byte sequence under a seed.
pub uninterp spec fn xxh64_of(seed: u64, data: Seq<u8>) -> u64;

/// Relies on `Xxh64::new`: a fresh accumulator for `seed` with nothing
/// absorbed yet.
#[verifier::external_body]
pub(crate) fn hasher_new(seed: u64) -> (h: Xxh64)
    ensures
        seed_of(h) == seed,
        absorbed_of(h) == Seq::<u8>::empty(),
{
    Xxh64::new(seed)
}

/// Relies on `Xxh64::update`: absorbs `bytes` after everything absorbed
/// before, keeping the seed.
#[verifier::external_body]
pub(crate) fn hasher_update(h: &mut Xxh64, bytes: &[u8])
    ensures
        seed_of(*final(h)) == seed_of(*old(h)),
        absorbed_of(*final(h)) == absorbed_of(*old(h)) + bytes@,
{
    h.update(bytes)
}

/// Relies on `Xxh64::digest`: the XXH64 value of the absorbed bytes under
/// the accumulator's seed; it does not change the accumulator.
#[verifier::external_body]
pub(crate) fn hasher_digest(h: &Xxh64) -> (d: u64)
    ensures
        d == xxh64_of(seed_of(*h), absorbed_of(*h)),
{
    h.digest()
}

/// The digest of `data` under `seed` from a single whole-buffer absorption:
/// one fresh accumulator, one `update` over all of `data`, one `digest`.
pub fn oneshot_digest(seed: u64, data: &[u8]) -> (d: u64)
    ensures
        d == xxh64_of(seed, data@),
{
    let mut h = hasher_new(seed);
    hasher_update(&mut h, data);
    let d = hasher_digest(&h);
    proof {
        assert(absorbed_of(h) =~= data@);
    }
    d
}

} // verus!
