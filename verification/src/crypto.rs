//! Signature verification and hashing, consumed as opaque primitives.
//!
//! These operations are stateless and independent of the capability slot.
//! The primitives themselves come from outside crates; each digest is a pure
//! function of its input alone, named here by an uninterpreted spec function
//! so that callers' contracts can speak about it exactly.

use vstd::prelude::*;
use vstd::array::ArrayAdditionalExecFns;
use blake2::Digest;
use ed25519_dalek::Verifier;
use crate::decode::u64_le_bytes;
use crate::decode::u64_to_le_bytes;

verus! {

/// Whether `sig` is a valid ed25519 signature by `pubkey` over `msg`.
pub uninterp spec fn ed25519_valid(sig: Seq<u8>, msg: Seq<u8>, pubkey: Seq<u8>) -> bool;

/// Verify an ed25519 signature.
///
/// Relies on `ed25519_dalek::VerifyingKey::from_bytes` (which rejects byte
/// strings that are no curve point; such a key signs nothing) and
/// `ed25519_dalek::Verifier::verify`: the outcome is a deterministic function
/// of the signature, message and public key alone.
#[verifier::external_body]
pub fn ed25519_verify(sig: &[u8; 64], msg: &[u8], pubkey: &[u8; 32]) -> (r: bool)
    ensures
        r == ed25519_valid(sig@, msg@, pubkey@),
{
    match ed25519_dalek::VerifyingKey::from_bytes(pubkey) {
        Ok(vk) => {
            let s = ed25519_dalek::Signature::from_bytes(sig);
            vk.verify(msg, &s).is_ok()
        },
        Err(_) => false,
    }
}

/// The 32-byte BLAKE2b-256 digest of `data`.
pub uninterp spec fn blake2_256_of(data: Seq<u8>) -> Seq<u8>;

/// Conduct a BLAKE2b-256 hash of the given data.
///
/// Relies on `blake2::Blake2b256` (through the `blake2::Digest` interface):
/// the 32-byte digest is a function of the input bytes alone.
#[verifier::external_body]
pub fn blake2_256(data: &[u8]) -> (r: [u8; 32])
    ensures
        r@ == blake2_256_of(data@),
{
    let digest = blake2::Blake2b256::digest(data);
    let mut out = [0u8; 32];
    out.copy_from_slice(digest.as_slice());
    out
}

/// The 64-bit XXH64 digest of `data` under `seed`.
pub uninterp spec fn xxhash64_of(seed: u64, data: Seq<u8>) -> u64;

/// Relies on `twox_hash::XxHash64::oneshot`: the 64-bit digest is a function
/// of the seed and the input bytes alone.
#[verifier::external_body]
fn xxhash64(seed: u64, data: &[u8]) -> (r: u64)
    ensures
        r == xxhash64_of(seed, data@),
{
    twox_hash::XxHash64::oneshot(seed, data)
}

/// The 16-byte XXH64-based digest of `data`: the XXH64 digests under seeds 0
/// and 1, little-endian, concatenated.
pub open spec fn twox_128_of(data: Seq<u8>) -> Seq<u8> {
    u64_le_bytes(xxhash64_of(0, data)) + u64_le_bytes(xxhash64_of(1, data))
}

/// The 32-byte XXH64-based digest of `data`: the XXH64 digests under seeds
/// 0 through 3, little-endian, concatenated.
pub open spec fn twox_256_of(data: Seq<u8>) -> Seq<u8> {
    u64_le_bytes(xxhash64_of(0, data)) + u64_le_bytes(xxhash64_of(1, data)) + u64_le_bytes(
        xxhash64_of(2, data),
    ) + u64_le_bytes(xxhash64_of(3, data))
}

/// Conduct a 128-bit XXH64-based hash of the given data.
pub fn twox_128(data: &[u8]) -> (r: [u8; 16])
    ensures
        r@ == twox_128_of(data@),
{
    let h0 = u64_to_le_bytes(xxhash64(0, data));
    let h1 = u64_to_le_bytes(xxhash64(1, data));
    let mut out: [u8; 16] = vstd::array::array_fill_for_copy_types(0u8);
    let mut i: usize = 0;
    while i < 8
        invariant
            0 <= i <= 8,
            h0@.len() == 8 && h1@.len() == 8,
            forall|j: int| 0 <= j < i ==> out@[j] == h0@[j],
            forall|j: int| 0 <= j < i ==> out@[8 + j] == h1@[j],
        decreases 8 - i,
    {
        out[i] = h0[i];
        out[8 + i] = h1[i];
        i += 1;
    }
    proof {
        assert(out@ =~= h0@ + h1@);
    }
    out
}

/// Conduct a 256-bit XXH64-based hash of the given data.
pub fn twox_256(data: &[u8]) -> (r: [u8; 32])
    ensures
        r@ == twox_256_of(data@),
{
    let h0 = u64_to_le_bytes(xxhash64(0, data));
    let h1 = u64_to_le_bytes(xxhash64(1, data));
    let h2 = u64_to_le_bytes(xxhash64(2, data));
    let h3 = u64_to_le_bytes(xxhash64(3, data));
    let mut out: [u8; 32] = vstd::array::array_fill_for_copy_types(0u8);
    let mut i: usize = 0;
    while i < 8
        invariant
            0 <= i <= 8,
            h0@.len() == 8 && h1@.len() == 8 && h2@.len() == 8 && h3@.len() == 8,
            forall|j: int| 0 <= j < i ==> out@[j] == h0@[j],
            forall|j: int| 0 <= j < i ==> out@[8 + j] == h1@[j],
            forall|j: int| 0 <= j < i ==> out@[16 + j] == h2@[j],
            forall|j: int| 0 <= j < i ==> out@[24 + j] == h3@[j],
        decreases 8 - i,
    {
        out[i] = h0[i];
        out[8 + i] = h1[i];
        out[16 + i] = h2[i];
        out[24 + i] = h3[i];
        i += 1;
    }
    proof {
        assert(out@ =~= h0@ + h1@ + h2@ + h3@);
    }
    out
}

} // verus!
