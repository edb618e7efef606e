//! The address capability: the contract any fixed-width address-like value
//! must satisfy to take part in confinement.

use vstd::prelude::*;

verus! {

/// Capability contract for an address-like value: lossless extraction of the
/// underlying bits, a recognizable reserved invalid pattern, and
/// reconstruction from raw bits.
///
/// Confinement is expressed purely as bit manipulation over the raw bits, so
/// every operation here is stated in terms of `value_spec`.
pub trait Address: Sized + Copy {
    /// The raw bits of this address.
    spec fn value_spec(&self) -> usize;

    /// Whether this address is the reserved invalid pattern (by convention,
    /// the all-zero pattern) that must never be treated as a live guarded
    /// address.
    spec fn is_invalid_spec(&self) -> bool;

    /// Lossless extraction of the underlying bits.
    fn as_value(&self) -> (v: usize)
        ensures
            v == self.value_spec(),
    ;

    /// True exactly for the reserved invalid pattern.
    fn is_invalid(&self) -> (r: bool)
        ensures
            r == self.is_invalid_spec(),
    ;

    /// Reconstructs an address from raw bits; the caller is responsible for
    /// having validated those bits. Round-trip identity: for every raw value
    /// `v`, `from_value_unchecked(v).as_value() == v`.
    fn from_value_unchecked(value: usize) -> (a: Self)
        ensures
            a.value_spec() == value,
    ;

    /// Clears the bits selected by `align` from this address.
    fn align_down(&self, align: usize) -> (a: Self)
        ensures
            a.value_spec() == (self.value_spec() & !align),
    {
        Self::from_value_unchecked(self.as_value() & !align)
    }
}

/// A plain machine address: raw bits, with the all-zero pattern reserved as
/// the invalid sentinel.
#[derive(Clone, Copy, Debug, PartialEq, Eq, Structural)]
pub struct RawAddr(pub usize);

impl Address for RawAddr {
    open spec fn value_spec(&self) -> usize {
        self.0
    }

    open spec fn is_invalid_spec(&self) -> bool {
        self.0 == 0
    }

    fn as_value(&self) -> usize {
        self.0
    }

    fn is_invalid(&self) -> bool {
        self.0 == 0
    }

    fn from_value_unchecked(value: usize) -> Self {
        RawAddr(value)
    }
}

} // verus!
