//! The reduction function: maps a 32-byte digest back into the 38-bit
//! domain, parameterized by a rotation amount in [0, 255].
use vstd::prelude::*;
use crate::MAX_DOMAIN;

verus! {

broadcast use vstd::array::group_array_axioms;

/// One byte of the whole-byte right rotation: output position `j` takes
/// the input byte at position `(j + 32 - byte_shift) mod 32`.
pub open spec fn rot_bytes_spec(d: Seq<u8>, byte_shift: int) -> Seq<u8> {
    Seq::new(32, |j: int| d[(j + 32 - byte_shift) % 32])
}

/// One byte of the bit-level right rotation: the low `bit_shift` bits of
/// the previous byte (circularly) become the high bits of this one.
/// `bit_shift = 0` leaves the byte unchanged.
pub open spec fn rot_bits_byte(cur: u8, prev: u8, bit_shift: u8) -> u8 {
    if bit_shift == 0 {
        cur
    } else {
        (cur >> bit_shift) | (prev << ((8 - bit_shift) as u8))
    }
}

/// Bit-level right rotation of the whole 32-byte buffer, wrapping
/// circularly (byte 0 borrows bits from byte 31).
pub open spec fn rot_bits_spec(d: Seq<u8>, bit_shift: u8) -> Seq<u8> {
    Seq::new(32, |j: int| rot_bits_byte(d[j], d[(j + 31) % 32], bit_shift))
}

/// Little-endian read of the low 38 bits of the first 6 bytes: bytes 0-3
/// in full, the low 6 bits of byte 4; the high 2 bits of byte 4 and all
/// of byte 5 are discarded.
pub open spec fn low38_spec(b: Seq<u8>) -> u64 {
    (b[0] as int
        + b[1] as int * 0x100
        + b[2] as int * 0x10000
        + b[3] as int * 0x1000000
        + (b[4] as int % 64) * 0x100000000) as u64
}

/// The full reduction: rotate the digest right by `rotation` bits
/// (whole bytes first, then the remaining bits), then read the low
/// 38 bits little-endian.
pub open spec fn reduce_spec(d: Seq<u8>, rotation: u8) -> u64 {
    low38_spec(rot_bits_spec(rot_bytes_spec(d, rotation as int / 8), rotation % 8))
}

/// The reduction always lands inside the 38-bit domain, whatever the
/// digest and rotation.
pub proof fn lemma_reduce_spec_bounded(d: Seq<u8>, rotation: u8)
    ensures
        reduce_spec(d, rotation) <= MAX_DOMAIN,
{
    let b = rot_bits_spec(rot_bytes_spec(d, rotation as int / 8), rotation % 8);
    assert(b[0] as int <= 255);
    assert(b[1] as int * 0x100 <= 255 * 0x100);
    assert(b[2] as int * 0x10000 <= 255 * 0x10000);
    assert(b[3] as int * 0x1000000 <= 255 * 0x1000000);
    assert((b[4] as int % 64) * 0x100000000 <= 63 * 0x100000000);
}

/// A rotation that is a multiple of 8 rotates whole bytes only: the
/// bit-level pass is the identity, so the reduction equals a byte-only
/// rotation followed by the low-38-bit read.
pub proof fn lemma_whole_byte_rotation(d: Seq<u8>, rotation: u8)
    requires
        rotation % 8 == 0,
    ensures
        reduce_spec(d, rotation) == low38_spec(rot_bytes_spec(d, rotation as int / 8)),
{
    let r = rot_bytes_spec(d, rotation as int / 8);
    assert(rot_bits_spec(r, 0) =~= r);
}

/// Rotation 0 is the identity rotation: the reduction is a straight
/// low-38-bit read of the digest's first 6 bytes.
pub proof fn lemma_rotation_zero(d: Seq<u8>)
    requires
        d.len() == 32,
    ensures
        reduce_spec(d, 0) == low38_spec(d),
{
    assert(rot_bytes_spec(d, 0) =~= d);
    assert(rot_bits_spec(d, 0) =~= d);
}

/// Maps a 256-bit digest to a domain value by a circular right rotation
/// of `rotation` bits followed by extraction of the low 38 bits, exactly
/// as `reduce_spec` states. Pure: equal inputs give the equal output.
pub fn reduction_function(password: &[u8; 32], rotation: u8) -> (r: u64)
    ensures
        r == reduce_spec(password@, rotation),
        r <= MAX_DOMAIN,
{
    let byte_shift: usize = (rotation / 8) as usize;
    let bit_shift: u8 = rotation % 8;

    // Whole-byte circular right rotation.
    let mut tmp1: Vec<u8> = Vec::new();
    let ghost r1 = rot_bytes_spec(password@, byte_shift as int);
    for j in 0..32usize
        invariant
            byte_shift == rotation as int / 8,
            byte_shift < 32,
            r1 == rot_bytes_spec(password@, byte_shift as int),
            tmp1@.len() == j,
            forall|k: int| 0 <= k < j ==> tmp1@[k] == r1[k],
    {
        tmp1.push(password[(j + 32 - byte_shift) % 32]);
    }
    assert(tmp1@ =~= r1);

    // Bit-level circular right rotation.
    let mut tmp2: Vec<u8> = Vec::new();
    let ghost r2 = rot_bits_spec(r1, bit_shift);
    for j in 0..32usize
        invariant
            tmp1@ == r1,
            tmp1@.len() == 32,
            bit_shift < 8,
            r2 == rot_bits_spec(r1, bit_shift),
            tmp2@.len() == j,
            forall|k: int| 0 <= k < j ==> tmp2@[k] == r2[k],
    {
        let cur = tmp1[j];
        let prev = tmp1[(j + 31) % 32];
        let b: u8 = if bit_shift == 0 {
            cur
        } else {
            (cur >> bit_shift) | (prev << (8 - bit_shift))
        };
        assert(b == rot_bits_byte(r1[j as int], r1[(j + 31) % 32], bit_shift));
        tmp2.push(b);
    }
    assert(tmp2@ =~= r2);

    // Little-endian read of the low 38 bits of the first 6 bytes.
    let value38: u64 = tmp2[0] as u64
        + tmp2[1] as u64 * 0x100
        + tmp2[2] as u64 * 0x10000
        + tmp2[3] as u64 * 0x1000000
        + (tmp2[4] as u64 % 64) * 0x100000000;
    proof {
        lemma_reduce_spec_bounded(password@, rotation);
    }
    value38
}

} // verus!
