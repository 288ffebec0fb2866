use hellman_tmto::MAX_DOMAIN;
use hellman_tmto::reduce::reduction_function;

fn sample_digest() -> [u8; 32] {
    let mut d = [0u8; 32];
    for i in 0..32 {
        d[i] = i as u8;
    }
    d
}

/// Reference implementation of the byte-only rotation followed by the
/// low-38-bit little-endian read, for rotations that are multiples of 8.
fn byte_only_reduction(digest: &[u8; 32], byte_shift: usize) -> u64 {
    let mut rotated = [0u8; 32];
    for j in 0..32 {
        rotated[j] = digest[(j + 32 - byte_shift) % 32];
    }
    low38(&rotated)
}

/// Little-endian read of the low 38 bits of the first 6 bytes.
fn low38(buf: &[u8; 32]) -> u64 {
    let mut value: u64 = 0;
    let mut factor: u64 = 1;
    for i in 0..4 {
        value += (buf[i] as u64) * factor;
        factor *= 256;
    }
    value + (buf[4] as u64 % 64) * factor
}

#[test]
fn reduce_known_values() {
    let d = sample_digest();
    assert_eq!(reduction_function(&d, 0), 17230332160);
    assert_eq!(reduction_function(&d, 1), 8615166080);
    assert_eq!(reduction_function(&d, 7), 25837043774);
    assert_eq!(reduction_function(&d, 8), 12918521887);
    assert_eq!(reduction_function(&d, 13), 68853758192);
    assert_eq!(reduction_function(&d, 16), 8606719774);
    assert_eq!(reduction_function(&d, 255), 34460664320);
}

#[test]
fn reduce_is_pure_and_bounded() {
    let d = sample_digest();
    for rotation in 0..=255u8 {
        let a = reduction_function(&d, rotation);
        let b = reduction_function(&d, rotation);
        assert_eq!(a, b);
        assert!(a <= MAX_DOMAIN);
    }
    let all_high = [0xffu8; 32];
    for rotation in 0..=255u8 {
        assert!(reduction_function(&all_high, rotation) <= MAX_DOMAIN);
    }
    assert_eq!(reduction_function(&all_high, 0), MAX_DOMAIN);
}

#[test]
fn reduce_rotation_zero_reads_low_38_bits() {
    let d = sample_digest();
    assert_eq!(reduction_function(&d, 0), low38(&d));
    let all_high = [0xffu8; 32];
    assert_eq!(reduction_function(&all_high, 0), low38(&all_high));
}

#[test]
fn reduce_whole_byte_rotations_match_byte_only_rotation() {
    let d = sample_digest();
    for byte_shift in 0..32usize {
        let rotation = (byte_shift * 8) as u8;
        assert_eq!(
            reduction_function(&d, rotation),
            byte_only_reduction(&d, byte_shift)
        );
    }
}
