//! Account identifiers: opaque fixed-width (256-bit) identifiers with
//! well-defined equality, used as map keys throughout the ledger.

use vstd::prelude::*;

verus! {

/// A 256-bit account identifier, stored as two 128-bit halves.
#[derive(Clone, Copy, Debug, PartialEq, Eq, Structural, Hash)]
pub struct ActorId {
    pub hi: u128,
    pub lo: u128,
}

impl ActorId {
    /// Builds an identifier from its two 128-bit halves.
    pub fn from_parts(hi: u128, lo: u128) -> (r: ActorId)
        ensures
            r.hi == hi,
            r.lo == lo,
    {
        ActorId { hi, lo }
    }

    /// Builds a small identifier, convenient for tests and examples.
    pub fn from_u64(v: u64) -> (r: ActorId)
        ensures
            r.hi == 0,
            r.lo == v as u128,
    {
        ActorId { hi: 0, lo: v as u128 }
    }
}

} // verus!
