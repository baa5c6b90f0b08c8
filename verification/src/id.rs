//! Compact opaque identifiers for time-bounded protocol resources (timers,
//! ports, notes).
//!
//! The wire format reserves the all-bits-set `u32` as a "no id" sentinel. To
//! make that sentinel unrepresentable, the stored value is biased by one: a
//! raw wire value `r` is kept as `r + 1`, which is possible for every raw
//! value except the maximum one, and the maximum is rejected at construction.

use vstd::prelude::*;

verus! {

/// An opaque identifier handle, interchangeable with the raw wire integer it
/// wraps, but statically distinct from the reserved "no id" sentinel.
///
/// Identifiers are pure values: copyable, ordered and compared by their
/// underlying integer.
#[derive(Copy, Clone, Debug, Hash, PartialEq, Eq, Structural, PartialOrd, Ord)]
pub struct ClapId {
    biased: u32,
}

impl ClapId {
    /// The raw wire value this identifier stands for.
    pub closed spec fn raw(self) -> u32 {
        (self.biased - 1) as u32
    }

    #[verifier::type_invariant]
    spec fn inv(self) -> bool {
        self.biased >= 1
    }

    /// Constructs an identifier from a raw wire value. The only rejected
    /// input is `u32::MAX`, the reserved sentinel: biasing it by one would
    /// leave the representable range.
    pub fn new(raw: u32) -> (r: Option<ClapId>)
        ensures
            r is Some <==> raw != u32::MAX,
            r matches Some(id) ==> id.raw() == raw,
    {
        if raw == u32::MAX {
            None
        } else {
            Some(ClapId { biased: raw + 1 })
        }
    }

    /// Recovers the raw wire value, losslessly, for every constructed
    /// identifier.
    pub fn get(self) -> (r: u32)
        ensures
            r == self.raw(),
    {
        proof {
            use_type_invariant(self);
        }
        self.biased - 1
    }
}

} // verus!
