//! Digests and key derivation.
//!
//! SHA-256 and HKDF-SHA256 are computed by the `sha2` and `hkdf` crates. Their
//! results are named here, and the rest of the library reasons about those
//! names.

use vstd::prelude::*;

verus! {

/// The SHA-256 digest of `data`.
pub uninterp spec fn sha256(data: Seq<u8>) -> Seq<u8>;

/// The 32-byte output of HKDF-SHA256 (extract, then expand) for the given
/// salt, input key material and info.
pub uninterp spec fn hkdf_sha256(salt: Seq<u8>, ikm: Seq<u8>, info: Seq<u8>) -> Seq<u8>;

/// Trusted: `sha2::Sha256::digest(data)`, the one-shot form of the `Digest`
/// trait (a fresh hasher, one `update` with `data`, then `finalize`). The
/// contract gives the 32 bytes it returns the name [`sha256`].
#[verifier::external_body]
pub(crate) fn sha256_digest(data: &[u8]) -> (digest: [u8; 32])
    ensures
        digest@ == sha256(data@),
{
    <sha2::Sha256 as sha2::Digest>::digest(data).into()
}

/// Trusted: `hkdf::Hkdf::<Sha256>::new(Some(salt), ikm)` followed by
/// `expand(info, okm)` on a 32-byte buffer. `expand` refuses only an output
/// longer than 255 digest lengths, which 32 bytes never is, so the contract
/// claims `Ok`; the bytes written get the name [`hkdf_sha256`].
#[verifier::external_body]
pub(crate) fn hkdf_sha256_expand(salt: &[u8; 32], ikm: &[u8; 32], info: &[u8]) -> (okm: Result<
    [u8; 32],
    hkdf::InvalidLength,
>)
    ensures
        okm is Ok,
        okm matches Ok(key) ==> key@ == hkdf_sha256(salt@, ikm@, info@),
{
    let mut key = [0u8; 32];
    match hkdf::Hkdf::<sha2::Sha256>::new(Some(salt), ikm).expand(info, &mut key) {
        Ok(()) => Ok(key),
        Err(e) => Err(e),
    }
}

/// The error `hkdf` reports for an output length it cannot produce.
#[verifier::external_type_specification]
#[verifier::external_body]
pub struct ExInvalidLength(hkdf::InvalidLength);

/// Compares two 32-byte strings without leaving early at the first
/// difference.
pub fn constant_time_eq(a: &[u8; 32], b: &[u8; 32]) -> (same: bool)
    ensures
        same == (a@ == b@),
{
    let mut diff: u8 = 0;
    let mut i: usize = 0;
    while i < 32
        invariant
            i <= 32,
            (diff == 0) == (forall|j: int| 0 <= j < i ==> a@[j] == b@[j]),
        decreases 32 - i,
    {
        let x: u8 = a[i];
        let y: u8 = b[i];
        let d: u8 = diff;
        assert(((d | (x ^ y)) == 0) == (d == 0 && x == y)) by (bit_vector);
        diff = diff | (x ^ y);
        i = i + 1;
    }
    proof {
        if diff == 0 {
            assert(a@ =~= b@);
        }
    }
    diff == 0
}

} // verus!
