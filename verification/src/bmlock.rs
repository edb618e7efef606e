//! Bit Mask Lock: an earlier name of the bitmask confinement policy, kept as
//! its own type with the same `(mask, base)` semantics.

use vstd::prelude::*;
use core::marker::PhantomData;
use crate::addr::Address;
use crate::vlock::VLock;

verus! {

/// Bit Mask Lock: seals by keeping only the offset bits inside `mask` and
/// stamping `base` onto every other bit; unseals by demanding that every bit
/// outside `mask` equal `base` exactly.
///
/// Class invariant: `base & mask == 0`, forced by the constructor.
pub struct BMLock<A: Address> {
    mask: usize,
    base: usize,
    _addr: PhantomData<A>,
}

impl<A: Address> BMLock<A> {
    /// The confinement mask: bits of an address that are free ("offset").
    pub closed spec fn mask_spec(&self) -> usize {
        self.mask
    }

    /// The base pattern stamped onto all bits outside the mask.
    pub closed spec fn base_spec(&self) -> usize {
        self.base
    }

    /// Creates the policy from `(mask, base)`, storing `(mask, base & !mask)`
    /// so that the policy's own sealed output always unseals.
    pub fn new(mask: usize, base: usize) -> (r: Self)
        ensures
            r.mask_spec() == mask,
            r.base_spec() == (base & !mask),
            r.wf(),
    {
        proof {
            assert((base & !mask) & mask == 0) by (bit_vector);
        }
        BMLock { mask, base: base & !mask, _addr: PhantomData }
    }
}

impl<A: Address> VLock<A> for BMLock<A> {
    /// The base pattern occupies only bits outside the mask.
    open spec fn wf(&self) -> bool {
        self.base_spec() & self.mask_spec() == 0
    }

    open spec fn seal_spec(&self, v: usize) -> usize {
        (v & self.mask_spec()) | self.base_spec()
    }

    open spec fn unseal_spec(&self, v: usize) -> Option<usize> {
        if v & !self.mask_spec() == self.base_spec() {
            Some(v & self.mask_spec())
        } else {
            None
        }
    }

    proof fn lemma_seal_recoverable(&self, v: usize) {
        let m = self.mask_spec();
        let b = self.base_spec();
        assert(((v & m) | b) & !m == b) by (bit_vector)
            requires
                b & m == 0,
        ;
        assert((((v & m) | b) & m) & m == ((v & m) | b) & m) by (bit_vector);
        assert(((((v & m) | b) & m) | b) == ((v & m) | b)) by (bit_vector)
            requires
                b & m == 0,
        ;
    }

    fn seal(&self, addr: A) -> A {
        let raw = addr.as_value();
        let confined = (raw & self.mask) | self.base;
        A::from_value_unchecked(confined)
    }

    fn unseal(&self, addr: A) -> Option<A> {
        let val = addr.as_value();
        if (val & !self.mask) == self.base {
            Some(A::from_value_unchecked(val & self.mask))
        } else {
            None
        }
    }
}

/// Law: for a well-formed Bit Mask Lock and any raw address `v`, unsealing a
/// sealed address succeeds, and the recovered offset is exactly `v & mask`.
pub proof fn lemma_bmlock_seal_then_unseal<A: Address>(lock: BMLock<A>, v: usize)
    requires
        lock.wf(),
    ensures
        lock.unseal_spec(lock.seal_spec(v)) is Some,
        lock.unseal_spec(lock.seal_spec(v))->0 == v & lock.mask_spec(),
{
    let m = lock.mask_spec();
    let b = lock.base_spec();
    assert(((v & m) | b) & !m == b) by (bit_vector)
        requires
            b & m == 0,
    ;
    assert(((v & m) | b) & m == v & m) by (bit_vector)
        requires
            b & m == 0,
    ;
}

/// Law: a Bit Mask Lock rejects every address whose bits outside the mask do
/// not equal the base pattern exactly.
pub proof fn lemma_bmlock_unseal_rejects_foreign<A: Address>(lock: BMLock<A>, v: usize)
    requires
        v & !lock.mask_spec() != lock.base_spec(),
    ensures
        lock.unseal_spec(v) is None,
{
}

/// Law: sealing is idempotent for a well-formed Bit Mask Lock.
pub proof fn lemma_bmlock_seal_idempotent<A: Address>(lock: BMLock<A>, v: usize)
    requires
        lock.wf(),
    ensures
        lock.seal_spec(lock.seal_spec(v)) == lock.seal_spec(v),
{
    let m = lock.mask_spec();
    let b = lock.base_spec();
    assert((((v & m) | b) & m) | b == (v & m) | b) by (bit_vector)
        requires
            b & m == 0,
    ;
}

} // verus!
