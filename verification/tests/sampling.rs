use hellman_tmto::MAX_DOMAIN;
use hellman_tmto::sample::generate;

#[test]
fn generate_returns_exact_count_distinct_and_bounded() {
    for n in [0u64, 1, 2, 5, 50, 500] {
        let values = generate(n);
        assert_eq!(values.len() as u64, n);
        for &v in &values {
            assert!(v <= MAX_DOMAIN);
        }
        for i in 0..values.len() {
            for j in (i + 1)..values.len() {
                assert_ne!(values[i], values[j]);
            }
        }
    }
}

#[test]
fn generate_draws_fresh_sets() {
    // Entropy-seeded: two runs of a 20-value sample over a 2^38 domain
    // cannot realistically coincide.
    let a = generate(20);
    let b = generate(20);
    assert_ne!(a, b);
}
