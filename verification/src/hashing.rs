//! Content hashing for copy-time fingerprints and verification.
//!
//! The daemon fingerprints file contents with BLAKE3, a cryptographic hash
//! with a 32-byte output.  The digest is named by the uninterpreted function
//! `blake3_of`: the library states *which* bytes were hashed and that equal
//! byte sequences give equal digests, not what the digest's bits are.
//!
//! An incremental `blake3::Hasher` is modelled by `hasher_input`, the sequence
//! of bytes fed to it so far: feeding a file chunk by chunk and finalizing
//! yields the digest of the whole file, so the copy engine can fingerprint
//! files during the copy itself.

use vstd::prelude::*;

verus! {

/// The BLAKE3 digest of a byte sequence: 32 bytes, a function of the input
/// bytes alone.
pub uninterp spec fn blake3_of(bytes: Seq<u8>) -> Seq<u8>;

#[verifier::external_type_specification]
#[verifier::external_body]
pub struct ExHasher(blake3::Hasher);

/// The bytes fed to an incremental hasher so far, oldest first.
pub uninterp spec fn hasher_input(h: blake3::Hasher) -> Seq<u8>;

/// Relies on blake3::Hasher::new: a fresh hasher over no input.
#[verifier::external_body]
pub fn hasher_new() -> (h: blake3::Hasher)
    ensures
        hasher_input(h) == Seq::<u8>::empty(),
{
    blake3::Hasher::new()
}

/// Relies on blake3::Hasher::update: appends `chunk` to the hashed input.
#[verifier::external_body]
pub fn hasher_update(h: &mut blake3::Hasher, chunk: &[u8])
    ensures
        hasher_input(*final(h)) == hasher_input(*old(h)) + chunk@,
{
    h.update(chunk);
}

/// Relies on blake3::Hasher::finalize and blake3::Hash::as_bytes: the digest
/// of exactly the bytes fed so far, documented idempotent and deterministic.
#[verifier::external_body]
pub fn hasher_finalize(h: &blake3::Hasher) -> (r: [u8; 32])
    ensures
        r@ == blake3_of(hasher_input(*h)),
{
    *h.finalize().as_bytes()
}

/// One-shot BLAKE3 digest of `bytes`.
pub fn hash_bytes(bytes: &[u8]) -> (r: [u8; 32])
    ensures
        r@ == blake3_of(bytes@),
{
    let mut h = hasher_new();
    hasher_update(&mut h, bytes);
    let r = hasher_finalize(&h);
    proof {
        assert(hasher_input(h) =~= bytes@);
    }
    r
}

/// Byte-wise equality of two 32-byte digests.
pub fn digest_eq(a: &[u8; 32], b: &[u8; 32]) -> (r: bool)
    ensures
        r == (a@ =~= b@),
{
    let mut i: usize = 0;
    while i < 32
        invariant
            i <= 32,
            forall|j: int| 0 <= j < i ==> a@[j] == b@[j],
        decreases 32 - i,
    {
        if a[i] != b[i] {
            return false;
        }
        i += 1;
    }
    true
}

} // verus!
