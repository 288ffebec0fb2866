use hellman_tmto::MAX_DOMAIN;
use hellman_tmto::chain::{build_chain, build_table, chain_step};
use hellman_tmto::reduce::reduction_function;
use sha2::{Digest, Sha256};

#[test]
fn chain_step_hashes_then_reduces() {
    // One step must equal SHA-256 of the little-endian 8-byte encoding,
    // fed through the reduction function.
    for &(m, rotation) in &[(0u64, 1u8), (5, 1), (123456789, 13), (MAX_DOMAIN, 255)] {
        let digest: [u8; 32] = Sha256::digest(m.to_le_bytes()).into();
        assert_eq!(chain_step(m, rotation), reduction_function(&digest, rotation));
    }
    assert_eq!(chain_step(123456789, 13), 104138223752);
}

#[test]
fn build_chain_known_value() {
    assert_eq!(build_chain(5, 1, 4), 126618974914);
}

#[test]
fn build_chain_applies_step_exactly_columns_times() {
    let start = 42u64;
    let rotation = 3u8;
    let mut m = start;
    for columns in 0..6u64 {
        // m holds `columns` applications of the step by now.
        assert_eq!(build_chain(start, rotation, columns), m);
        m = chain_step(m, rotation);
    }
}

#[test]
fn build_chain_is_deterministic() {
    let a = build_chain(777, 9, 25);
    let b = build_chain(777, 9, 25);
    assert_eq!(a, b);
    assert!(a <= MAX_DOMAIN);
}

#[test]
fn build_table_keeps_start_order() {
    let entries = vec![3u64, 1, 4, 1, 5, 9];
    let pairs = build_table(&entries, 2, 3);
    assert_eq!(pairs.len(), entries.len());
    for (i, &(start, end)) in pairs.iter().enumerate() {
        assert_eq!(start, entries[i]);
        assert_eq!(end, build_chain(entries[i], 2, 3));
        assert!(end <= MAX_DOMAIN);
    }
}
