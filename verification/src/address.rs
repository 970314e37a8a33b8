//! 32-byte account identities, held as two 128-bit halves.
//!
//! The engine never interprets an identity; it only compares them for
//! equality, for the lexicographic mint order, and against the null (all
//! zero) identity.

use vstd::prelude::*;

verus! {

/// A 32-byte identity: `hi` holds the first 16 bytes (big-endian), `lo` the
/// last 16, so lexicographic byte order is numeric order on `(hi, lo)`.
#[derive(Clone, Copy, Debug, PartialEq, Eq, Structural)]
pub struct Address {
    pub hi: u128,
    pub lo: u128,
}

impl Address {
    /// The all-zero identity, used as "absent".
    pub open spec fn is_null(self) -> bool {
        self.hi == 0 && self.lo == 0
    }

    /// Lexicographic order on the 32 bytes.
    pub open spec fn lt_spec(self, other: Address) -> bool {
        self.hi < other.hi || (self.hi == other.hi && self.lo < other.lo)
    }

    pub fn null() -> (r: Address)
        ensures
            r.is_null(),
            r == (Address { hi: 0, lo: 0 }),
    {
        Address { hi: 0, lo: 0 }
    }

    pub fn new(hi: u128, lo: u128) -> (r: Address)
        ensures
            r.hi == hi,
            r.lo == lo,
    {
        Address { hi, lo }
    }

    /// Strictly before `other` in byte order.
    pub fn lt(&self, other: &Address) -> (r: bool)
        ensures
            r == self.lt_spec(*other),
    {
        self.hi < other.hi || (self.hi == other.hi && self.lo < other.lo)
    }

    /// Whether this is the null identity.
    pub fn is_none(&self) -> (r: bool)
        ensures
            r == self.is_null(),
    {
        self.hi == 0 && self.lo == 0
    }
}

} // verus!
