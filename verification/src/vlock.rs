//! Vault locking through software-fault-isolation techniques: the confinement
//! policy contract, the concrete bitmask policy, and the vault guard.

use vstd::prelude::*;
use core::marker::PhantomData;
use crate::addr::Address;

verus! {

/// Confinement policy contract: `seal` forces an address into the confined
/// region and never fails; `unseal` verifies the confinement tag and recovers
/// the trusted offset, or returns nothing on an address this policy never
/// produced (or one that was tampered with).
///
/// Both operations are pure functions of the policy's immutable state and the
/// address bits, so they are specified entirely through `seal_spec` and
/// `unseal_spec` over raw values.
pub trait VLock<A: Address>: Sized {
    /// Well-formedness of the policy's own state.
    spec fn wf(&self) -> bool;

    /// What sealing does to raw address bits.
    spec fn seal_spec(&self, v: usize) -> usize;

    /// What unsealing does to raw address bits: the recovered offset, or
    /// nothing when the confinement tag does not verify.
    spec fn unseal_spec(&self, v: usize) -> Option<usize>;

    /// Confinement law every policy must satisfy: for a well-formed policy,
    /// unsealing a sealed address always succeeds, and re-sealing the
    /// recovered offset reproduces the sealed address. Sealing is recoverable,
    /// though lossy: the bits the original held outside the confined region
    /// are discarded by design.
    proof fn lemma_seal_recoverable(&self, v: usize)
        requires
            self.wf(),
        ensures
            self.unseal_spec(self.seal_spec(v)) is Some,
            self.seal_spec(self.unseal_spec(self.seal_spec(v))->0) == self.seal_spec(v),
    ;

    /// Seals `addr` into the confined region. Unconditional: it always
    /// produces some address, by construction.
    fn seal(&self, addr: A) -> (r: A)
        ensures
            r.value_spec() == self.seal_spec(addr.value_spec()),
    ;

    /// Verifies the confinement tag of `addr` and recovers the trusted
    /// offset; the only fallible policy operation, and the caller's response
    /// to `None` must be fail-closed.
    fn unseal(&self, addr: A) -> (r: Option<A>)
        ensures
            r is Some <==> self.unseal_spec(addr.value_spec()) is Some,
            r is Some ==> r->0.value_spec() == self.unseal_spec(addr.value_spec())->0,
    ;
}

/// The bitmask confinement policy: a `(mask, base)` pair that seals by
/// keeping only the offset bits inside `mask` and stamping the fixed `base`
/// pattern onto every other bit, and unseals by demanding that every bit
/// outside `mask` equal `base` exactly.
///
/// Class invariant: `base & mask == 0` — the base pattern occupies only bits
/// outside the mask, forced by the constructor.
///
/// Edge cases: `mask` all-ones is the identity policy (no confinement, base
/// forced to zero); `mask == 0` confines every address to exactly `base`, and
/// the recovered offset is then always the all-zero pattern.
pub struct BitMaskLock<A: Address> {
    mask: usize,
    base: usize,
    _addr: PhantomData<A>,
}

impl<A: Address> Clone for BitMaskLock<A> {
    fn clone(&self) -> (r: Self)
        ensures
            r == *self,
    {
        *self
    }
}

impl<A: Address> Copy for BitMaskLock<A> {}

impl<A: Address> BitMaskLock<A> {
    /// The confinement mask: bits of an address that are free ("offset").
    pub closed spec fn mask_spec(&self) -> usize {
        self.mask
    }

    /// The base pattern stamped onto all bits outside the mask.
    pub closed spec fn base_spec(&self) -> usize {
        self.base
    }

    /// Creates a bitmask policy from `(mask, base)`, storing
    /// `(mask, base & !mask)`: the base argument's bits inside the mask region
    /// are irrelevant, so a misconfigured caller cannot produce a policy whose
    /// own sealed output would fail to unseal.
    pub fn new(mask: usize, base: usize) -> (r: Self)
        ensures
            r.mask_spec() == mask,
            r.base_spec() == (base & !mask),
            r.wf(),
    {
        proof {
            assert((base & !mask) & mask == 0) by (bit_vector);
        }
        BitMaskLock { mask, base: base & !mask, _addr: PhantomData }
    }
}

impl<A: Address> VLock<A> for BitMaskLock<A> {
    /// The base pattern occupies only bits outside the mask.
    open spec fn wf(&self) -> bool {
        self.base_spec() & self.mask_spec() == 0
    }

    open spec fn seal_spec(&self, v: usize) -> usize {
        (v & self.mask_spec()) | self.base_spec()
    }

    open spec fn unseal_spec(&self, v: usize) -> Option<usize> {
        if v & !self.mask_spec() == self.base_spec() {
            Some(v & self.mask_spec())
        } else {
            None
        }
    }

    proof fn lemma_seal_recoverable(&self, v: usize) {
        let m = self.mask_spec();
        let b = self.base_spec();
        assert(((v & m) | b) & !m == b) by (bit_vector)
            requires
                b & m == 0,
        ;
        assert((((v & m) | b) & m) & m == ((v & m) | b) & m) by (bit_vector);
        assert(((((v & m) | b) & m) | b) == ((v & m) | b)) by (bit_vector)
            requires
                b & m == 0,
        ;
    }

    fn seal(&self, addr: A) -> A {
        let raw = addr.as_value();
        let confined = (raw & self.mask) | self.base;
        A::from_value_unchecked(confined)
    }

    fn unseal(&self, addr: A) -> Option<A> {
        let val = addr.as_value();
        if (val & !self.mask) == self.base {
            Some(A::from_value_unchecked(val & self.mask))
        } else {
            None
        }
    }
}

/// Law: for a well-formed bitmask policy and any raw address `v`, unsealing a
/// sealed address succeeds, and the recovered offset is exactly `v & mask`.
pub proof fn lemma_bitmask_seal_then_unseal<A: Address>(lock: BitMaskLock<A>, v: usize)
    requires
        lock.wf(),
    ensures
        lock.unseal_spec(lock.seal_spec(v)) is Some,
        lock.unseal_spec(lock.seal_spec(v))->0 == v & lock.mask_spec(),
{
    let m = lock.mask_spec();
    let b = lock.base_spec();
    assert(((v & m) | b) & !m == b) by (bit_vector)
        requires
            b & m == 0,
    ;
    assert(((v & m) | b) & m == v & m) by (bit_vector)
        requires
            b & m == 0,
    ;
}

/// Law: a bitmask policy rejects every address whose bits outside the mask do
/// not equal the base pattern exactly — a single flipped tag bit is an
/// integrity failure.
pub proof fn lemma_bitmask_unseal_rejects_foreign<A: Address>(lock: BitMaskLock<A>, v: usize)
    requires
        v & !lock.mask_spec() != lock.base_spec(),
    ensures
        lock.unseal_spec(v) is None,
{
}

/// Law: sealing is idempotent for a well-formed bitmask policy — sealing an
/// already-sealed address is a no-op on its confinement tag.
pub proof fn lemma_bitmask_seal_idempotent<A: Address>(lock: BitMaskLock<A>, v: usize)
    requires
        lock.wf(),
    ensures
        lock.seal_spec(lock.seal_spec(v)) == lock.seal_spec(v),
{
    let m = lock.mask_spec();
    let b = lock.base_spec();
    assert((((v & m) | b) & m) | b == (v & m) | b) by (bit_vector)
        requires
            b & m == 0,
    ;
}

/// The vault: couples one address, one confinement policy instance, and a
/// compile-time-only access-mode tag, and mediates access to the value of
/// type `T` reachable through that address by re-verifying the seal on every
/// access — never caching a prior check, because the address memory may be
/// corrupted or replaced between accesses.
///
/// The vault does not own the guarded value; it is a guarded view over
/// whatever memory the address designates.
pub struct Vault<A, S, T, M> where A: Address, S: VLock<A> {
    addr: A,
    lock: S,
    _data: PhantomData<T>,
    _mode: PhantomData<M>,
}

impl<A, S, T, M> Vault<A, S, T, M> where A: Address, S: VLock<A> {
    /// The address held by this vault.
    pub closed spec fn addr_spec(&self) -> A {
        self.addr
    }

    /// The policy instance held by this vault.
    pub closed spec fn lock_spec(&self) -> S {
        self.lock
    }

    /// The sole constructor: couples `addr` with the locking strategy `lock`,
    /// refusing the reserved invalid address pattern and accepting every
    /// other address. Callers must treat `None` as "refuse to proceed".
    pub fn new(addr: A, lock: S) -> (r: Option<Self>)
        ensures
            r is Some <==> !addr.is_invalid_spec(),
            r is Some ==> r->0.addr_spec() == addr && r->0.lock_spec() == lock,
    {
        if addr.is_invalid() {
            None
        } else {
            Some(Vault { addr, lock, _data: PhantomData, _mode: PhantomData })
        }
    }

    /// The sealed form of the held address: what may be handed back to an
    /// untrusted source or stored. Pure; no failure mode.
    pub fn secure(&self) -> (r: A)
        ensures
            r.value_spec() == self.lock_spec().seal_spec(self.addr_spec().value_spec()),
    {
        self.lock.seal(self.addr)
    }

    /// The guarded access decision, computed afresh on every call: re-unseals
    /// the held address and returns the trusted unsealed address on success,
    /// or nothing when the confinement tag fails to verify. A failure here is
    /// an integrity violation, and a caller that dereferences through this
    /// vault must abort rather than continue.
    pub fn try_access(&self) -> (r: Option<A>)
        ensures
            r is Some <==> self.lock_spec().unseal_spec(self.addr_spec().value_spec()) is Some,
            r is Some ==> r->0.value_spec()
                == self.lock_spec().unseal_spec(self.addr_spec().value_spec())->0,
    {
        self.lock.unseal(self.addr)
    }
}

} // verus!
