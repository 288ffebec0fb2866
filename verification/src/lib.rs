//! Hellman time-memory trade-off table generation over a 38-bit domain.
//!
//! The library samples distinct random start points, reduces SHA-256
//! digests back into the domain with a rotation-parameterized reduction
//! function, builds fixed-length hash-then-reduce chains, and renders
//! each table's header and (start, end) rows as text.
use vstd::prelude::*;

pub mod chain;
pub mod hashing;
pub mod reduce;
pub mod sample;
pub mod table;

verus! {

/// Largest value of the 38-bit password domain: 2^38 - 1.
pub const MAX_DOMAIN: u64 = 274877906943;

} // verus!
