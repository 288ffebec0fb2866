//! Chain construction: alternate SHA-256 hashing and reduction a fixed
//! number of times from a start point to an end point.
use vstd::prelude::*;
use crate::MAX_DOMAIN;
use crate::hashing::{le_bytes8, sha256_digest, sha256_of, u64_le_seq};
use crate::reduce::{reduce_spec, reduction_function};

verus! {

/// One chain step: hash the little-endian encoding of the current
/// value, then reduce the digest with the table's rotation.
pub open spec fn step_spec(m: u64, rotation: u8) -> u64 {
    reduce_spec(sha256_of(u64_le_seq(m)), rotation)
}

/// The value reached after exactly `columns` hash-then-reduce steps
/// from `start`.
pub open spec fn chain_spec(start: u64, rotation: u8, columns: nat) -> u64
    decreases columns,
{
    if columns == 0 {
        start
    } else {
        step_spec(chain_spec(start, rotation, (columns - 1) as nat), rotation)
    }
}

/// One more column applies exactly one more hash-then-reduce step: a
/// chain of `columns + 1` steps is one step taken from the end of a
/// chain of `columns` steps.
pub proof fn lemma_chain_extends(start: u64, rotation: u8, columns: nat)
    ensures
        chain_spec(start, rotation, columns + 1) == step_spec(
            chain_spec(start, rotation, columns),
            rotation,
        ),
{
}

/// Performs one hash-then-reduce step.
pub fn chain_step(m: u64, rotation: u8) -> (r: u64)
    ensures
        r == step_spec(m, rotation),
        r <= MAX_DOMAIN,
{
    let bytes = le_bytes8(m);
    let digest = sha256_digest(bytes.as_slice());
    reduction_function(&digest, rotation)
}

/// Builds one chain: applies the hash-then-reduce step exactly
/// `columns` times from `start` and returns the end point.
/// Deterministic: the result is pinned to `chain_spec`, a function of
/// `(start, rotation, columns)` alone.
pub fn build_chain(start: u64, rotation: u8, columns: u64) -> (r: u64)
    requires
        start <= MAX_DOMAIN,
    ensures
        r == chain_spec(start, rotation, columns as nat),
        r <= MAX_DOMAIN,
{
    let mut m = start;
    let mut i: u64 = 0;
    while i < columns
        invariant
            i <= columns,
            m == chain_spec(start, rotation, i as nat),
            m <= MAX_DOMAIN,
        decreases columns - i,
    {
        m = chain_step(m, rotation);
        i = i + 1;
    }
    m
}

/// The (start, end) pairs of one table: entry `i` pairs the `i`-th
/// start point with the end of its length-`columns` chain.
pub open spec fn pairs_spec(entries: Seq<u64>, rotation: u8, columns: u64) -> Seq<(u64, u64)> {
    Seq::new(entries.len(), |i: int| (entries[i], chain_spec(entries[i], rotation, columns as nat)))
}

/// Builds every chain of one table, in the order of the shared
/// start-point list.
pub fn build_table(entries: &Vec<u64>, rotation: u8, ncolumns: u64) -> (r: Vec<(u64, u64)>)
    requires
        forall|i: int| 0 <= i < entries@.len() ==> entries@[i] <= MAX_DOMAIN,
    ensures
        r@ == pairs_spec(entries@, rotation, ncolumns),
        forall|i: int| 0 <= i < r@.len() ==> #[trigger] r@[i].1 <= MAX_DOMAIN,
{
    let mut r: Vec<(u64, u64)> = Vec::new();
    let ghost p = pairs_spec(entries@, rotation, ncolumns);
    let n = entries.len();
    let mut i: usize = 0;
    while i < n
        invariant
            n == entries@.len(),
            i <= n,
            forall|k: int| 0 <= k < entries@.len() ==> entries@[k] <= MAX_DOMAIN,
            p == pairs_spec(entries@, rotation, ncolumns),
            r@.len() == i,
            forall|k: int| 0 <= k < i ==> r@[k] == p[k],
            forall|k: int| 0 <= k < i ==> #[trigger] r@[k].1 <= MAX_DOMAIN,
        decreases n - i,
    {
        let start = entries[i];
        let end = build_chain(start, rotation, ncolumns);
        r.push((start, end));
        i = i + 1;
    }
    assert(r@ =~= p);
    r
}

} // verus!
