//! SHA-256 digests and the byte encodings that feed them.
//!
//! Everything in this file is trusted: the contracts below describe code
//! that lives outside the library and are not checked by the verifier.
use vstd::prelude::*;
use vstd::bytes::spec_u64_to_le_bytes;

verus! {

/// The SHA-256 digest of several byte strings hashed one after another, as
/// `solana_sha256_hasher::hashv` computes it.
pub uninterp spec fn sha256_of_parts(parts: Seq<Seq<u8>>) -> Seq<u8>;

/// The SHA-256 digest of one byte string, as `solana_sha256_hasher::hash`
/// computes it.
pub uninterp spec fn sha256_of(data: Seq<u8>) -> Seq<u8>;

/// The byte strings that a list of slices stands for.
pub open spec fn parts_view(parts: Seq<&[u8]>) -> Seq<Seq<u8>> {
    Seq::new(parts.len(), |i: int| parts[i]@)
}

/// Calls `solana_sha256_hasher::hashv` and copies the 32 bytes out of the
/// `Hash` it returns. Claimed without proof: the digest depends on nothing
/// but the contents of the parts, in their order.
#[verifier::external_body]
pub(crate) fn sha256v(parts: &[&[u8]]) -> (digest: [u8; 32])
    ensures
        digest@ == sha256_of_parts(parts_view(parts@)),
{
    solana_sha256_hasher::hashv(parts).to_bytes()
}

/// Calls `solana_sha256_hasher::hash` and copies the 32 bytes out of the
/// `Hash` it returns. Claimed without proof: the digest depends on nothing
/// but the bytes given.
#[verifier::external_body]
pub(crate) fn sha256(data: &[u8]) -> (digest: [u8; 32])
    ensures
        digest@ == sha256_of(data@),
{
    solana_sha256_hasher::hash(data).to_bytes()
}

/// Calls `u64::to_le_bytes`. Claimed without proof: the eight bytes are the
/// number's little-endian encoding, least significant byte first.
#[verifier::external_body]
pub(crate) fn u64_le_bytes(x: u64) -> (bytes: [u8; 8])
    ensures
        bytes@ == spec_u64_to_le_bytes(x),
{
    x.to_le_bytes()
}

/// Calls `i64::to_le_bytes`. Claimed without proof: the eight bytes are the
/// little-endian encoding of the number's two's complement bit pattern.
#[verifier::external_body]
pub(crate) fn i64_le_bytes(x: i64) -> (bytes: [u8; 8])
    ensures
        bytes@ == spec_u64_to_le_bytes(x as u64),
{
    x.to_le_bytes()
}

} // verus!
