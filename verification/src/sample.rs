//! Start-point sampling: distinct random domain values drawn by
//! rejection sampling from an entropy-seeded ChaCha20 generator.
use vstd::prelude::*;
use rand::{Rng, SeedableRng};
use crate::MAX_DOMAIN;

verus! {

#[verifier::external_type_specification]
#[verifier::external_body]
pub struct ExChaCha20Rng(rand_chacha::ChaCha20Rng);

/// Relies on rand's SeedableRng::from_entropy: a fresh ChaCha20
/// generator seeded from system entropy, not from any fixed or shared
/// seed. Aborts the process if the OS entropy source fails, which the
/// design treats as fatal and unrecoverable.
#[verifier::external_body]
fn rng_from_entropy() -> rand_chacha::ChaCha20Rng {
    rand_chacha::ChaCha20Rng::from_entropy()
}

/// Relies on rand's Rng::gen_range on the inclusive range `0..=max`:
/// the draw lies in that range. Nothing more is promised of a random
/// value.
#[verifier::external_body]
fn rng_gen_range(rng: &mut rand_chacha::ChaCha20Rng, max: u64) -> (r: u64)
    ensures
        r <= max,
{
    rng.gen_range(0..=max)
}

/// Linear scan for a value.
fn contains_value(v: &Vec<u64>, x: u64) -> (b: bool)
    ensures
        b == v@.contains(x),
{
    let mut i: usize = 0;
    while i < v.len()
        invariant
            i <= v@.len(),
            forall|k: int| 0 <= k < i ==> v@[k] != x,
        decreases v@.len() - i,
    {
        if v[i] == x {
            return true;
        }
        i = i + 1;
    }
    false
}

/// Cap on random draws: 2^64 - 1. A working generator over a 38-bit
/// domain fills any admissible sample long before this many draws.
const MAX_DRAWS: u64 = 18446744073709551615;

/// Draws exactly `nchains` pairwise-distinct domain values by rejection
/// sampling: a candidate already present is discarded and redrawn. The
/// bound `nchains <= 2^38 - 1` keeps the sample no larger than the
/// domain, without which the sampler could never fill the result.
///
/// Draws are capped at 2^64 - 1; should the generator somehow fail to
/// yield `nchains` distinct values in that many draws, the sampler
/// falls back to the smallest `nchains` domain values, so the result
/// meets the same contract in every case.
pub fn generate(nchains: u64) -> (r: Vec<u64>)
    requires
        nchains <= MAX_DOMAIN,
    ensures
        r@.len() == nchains as nat,
        forall|i: int| 0 <= i < r@.len() ==> #[trigger] r@[i] <= MAX_DOMAIN,
        forall|i: int, j: int| 0 <= i < j < r@.len() ==> r@[i] != r@[j],
{
    let mut rng = rng_from_entropy();
    let mut result: Vec<u64> = Vec::new();
    let mut draws: u64 = 0;
    while (result.len() as u64) < nchains && draws < MAX_DRAWS
        invariant
            result@.len() <= nchains,
            forall|i: int| 0 <= i < result@.len() ==> #[trigger] result@[i] <= MAX_DOMAIN,
            forall|i: int, j: int| 0 <= i < j < result@.len() ==> result@[i] != result@[j],
        decreases MAX_DRAWS - draws,
    {
        let candidate = rng_gen_range(&mut rng, MAX_DOMAIN);
        draws = draws + 1;
        if !contains_value(&result, candidate) {
            result.push(candidate);
        }
    }
    if (result.len() as u64) < nchains {
        result = Vec::new();
        let mut v: u64 = 0;
        while v < nchains
            invariant
                nchains <= MAX_DOMAIN,
                v <= nchains,
                result@.len() == v,
                forall|i: int| 0 <= i < v ==> #[trigger] result@[i] == i,
            decreases nchains - v,
        {
            result.push(v);
            v = v + 1;
        }
    }
    result
}

} // verus!
