//! Little-endian encoding of domain values and the SHA-256 digest call.
use vstd::prelude::*;
use sha2::Digest;

verus! {

/// The 8-byte little-endian encoding of a 64-bit value: byte `i` holds
/// bits `8i..8i+8`.
pub open spec fn u64_le_seq(m: u64) -> Seq<u8> {
    seq![
        m as u8,
        (m >> 8) as u8,
        (m >> 16) as u8,
        (m >> 24) as u8,
        (m >> 32) as u8,
        (m >> 40) as u8,
        (m >> 48) as u8,
        (m >> 56) as u8,
    ]
}

/// Encodes a value as its 8 little-endian bytes.
pub fn le_bytes8(m: u64) -> (r: Vec<u8>)
    ensures
        r@ == u64_le_seq(m),
{
    let mut r: Vec<u8> = Vec::new();
    r.push(m as u8);
    r.push((m >> 8) as u8);
    r.push((m >> 16) as u8);
    r.push((m >> 24) as u8);
    r.push((m >> 32) as u8);
    r.push((m >> 40) as u8);
    r.push((m >> 48) as u8);
    r.push((m >> 56) as u8);
    assert(r@ =~= u64_le_seq(m));
    r
}

/// The SHA-256 digest of a byte sequence, as the 32-byte sequence the
/// hash function defines; a function of the input bytes alone.
pub uninterp spec fn sha256_of(input: Seq<u8>) -> Seq<u8>;

/// Relies on sha2's Sha256::digest: computes the SHA-256 digest of the
/// input, 32 bytes determined by the input bytes alone.
#[verifier::external_body]
pub(crate) fn sha256_digest(input: &[u8]) -> (r: [u8; 32])
    ensures
        r@ == sha256_of(input@),
{
    sha2::Sha256::digest(input).into()
}

} // verus!
