use alkahest::addr::{Address, RawAddr};
use alkahest::bmlock::BMLock;
use alkahest::vlock::{BitMaskLock, VLock, Vault};

#[test]
fn address_round_trip() {
    assert_eq!(RawAddr::from_value_unchecked(0).as_value(), 0);
    assert_eq!(RawAddr::from_value_unchecked(1).as_value(), 1);
    assert_eq!(RawAddr::from_value_unchecked(0x10FF).as_value(), 0x10FF);
    assert_eq!(
        RawAddr::from_value_unchecked(usize::MAX).as_value(),
        usize::MAX
    );
}

#[test]
fn address_invalid_is_zero_only() {
    assert!(RawAddr(0).is_invalid());
    assert!(!RawAddr(1).is_invalid());
    assert!(!RawAddr(usize::MAX).is_invalid());
}

#[test]
fn address_align_down() {
    let a = RawAddr(0b1111);
    assert_eq!(a.align_down(0b11).as_value(), 0b1100);
    assert_eq!(a.align_down(0).as_value(), 0b1111);
}

#[test]
fn bitmask_confinement_logic() {
    let mask = 0x00FF;
    let base = 0x1000;
    let lock = BitMaskLock::<RawAddr>::new(mask, base);

    let unsafe_addr = RawAddr(0x99FF);
    let sealed = lock.seal(unsafe_addr);

    assert_eq!(sealed.as_value(), 0x10FF);
}

#[test]
fn unseal_accepts_sealed_form() {
    let lock = BitMaskLock::<RawAddr>::new(0x00FF, 0x1000);
    let recovered = lock.unseal(RawAddr(0x10FF));
    assert_eq!(recovered.map(|a| a.as_value()), Some(0x00FF));
}

#[test]
fn unseal_rejects_corrupted_tag() {
    let lock = BitMaskLock::<RawAddr>::new(0x00FF, 0x1000);
    assert!(lock.unseal(RawAddr(0x30FF)).is_none());
}

#[test]
fn seal_then_unseal_recovers_offset() {
    let lock = BitMaskLock::<RawAddr>::new(0x0FFF, 0xA000);
    for raw in [0usize, 1, 0x0ABC, 0x1ABC, 0xFFFF, usize::MAX] {
        let sealed = lock.seal(RawAddr(raw));
        let recovered = lock.unseal(sealed);
        assert_eq!(recovered.map(|a| a.as_value()), Some(raw & 0x0FFF));
    }
}

#[test]
fn seal_is_idempotent() {
    let lock = BitMaskLock::<RawAddr>::new(0x00FF, 0x1000);
    for raw in [0usize, 0x99FF, 0x1234, usize::MAX] {
        let once = lock.seal(RawAddr(raw));
        let twice = lock.seal(once);
        assert_eq!(twice.as_value(), once.as_value());
    }
}

#[test]
fn constructor_discards_base_bits_inside_mask() {
    // base 0x10AB overlaps the mask; the stored base must be 0x1000, which is
    // what sealing the all-zero offset exposes.
    let lock = BitMaskLock::<RawAddr>::new(0x00FF, 0x10AB);
    assert_eq!(lock.seal(RawAddr(0)).as_value(), 0x1000);
    // The policy's own sealed output always unseals.
    assert!(lock.unseal(lock.seal(RawAddr(0x77))).is_some());
}

#[test]
fn identity_policy_confines_nothing() {
    // mask all-ones: no confinement, base forced to zero, seal is the
    // identity and unseal accepts anything unchanged.
    let lock = BitMaskLock::<RawAddr>::new(usize::MAX, 0);
    let p = 0xDEAD_BEEF_usize;
    assert_eq!(lock.seal(RawAddr(p)).as_value(), p);
    assert_eq!(lock.unseal(RawAddr(p)).map(|a| a.as_value()), Some(p));
}

#[test]
fn zero_mask_confines_totally() {
    // mask zero: every address seals to exactly base; unseal accepts only
    // base itself, and the recovered offset is the all-zero pattern.
    let lock = BitMaskLock::<RawAddr>::new(0, 0x4000);
    assert_eq!(lock.seal(RawAddr(0x1234)).as_value(), 0x4000);
    assert_eq!(lock.unseal(RawAddr(0x4000)).map(|a| a.as_value()), Some(0));
    assert!(lock.unseal(RawAddr(0x4001)).is_none());
}

#[test]
fn bmlock_matches_bitmask_policy() {
    let lock = BMLock::<RawAddr>::new(0x00FF, 0x1000);
    assert_eq!(lock.seal(RawAddr(0x99FF)).as_value(), 0x10FF);
    assert_eq!(lock.unseal(RawAddr(0x10FF)).map(|a| a.as_value()), Some(0x00FF));
    assert!(lock.unseal(RawAddr(0x30FF)).is_none());
    // The constructor forces the base pattern outside the mask.
    let overlapping = BMLock::<RawAddr>::new(0x00FF, 0x10AB);
    assert_eq!(overlapping.seal(RawAddr(0)).as_value(), 0x1000);
}

#[test]
fn vault_refuses_invalid_address() {
    let lock = BitMaskLock::<RawAddr>::new(0x00FF, 0x1000);
    let vault: Option<Vault<RawAddr, _, u32, ()>> = Vault::new(RawAddr(0), lock);
    assert!(vault.is_none());
}

#[test]
fn vault_accepts_every_other_address() {
    let lock = BitMaskLock::<RawAddr>::new(0x00FF, 0x1000);
    for raw in [1usize, 0x42, 0x10FF, usize::MAX] {
        let vault: Option<Vault<RawAddr, _, u32, ()>> = Vault::new(RawAddr(raw), lock);
        assert!(vault.is_some());
    }
}

#[test]
fn vault_integrity_check() {
    let mask = 0x00FF;
    let base = 0x2000;
    let lock = BitMaskLock::<RawAddr>::new(mask, base);

    let secret_addr = 0x0042_usize;

    let vault: Vault<RawAddr, _, u32, ()> = Vault::new(RawAddr(secret_addr), lock).unwrap();

    let secured_addr = vault.secure();
    assert_eq!(secured_addr.as_value(), 0x2042);
    assert!(lock.unseal(secured_addr).is_some());

    let corrupted_addr = RawAddr(0x3000 | (secret_addr & mask));
    let corrupt_lock = BitMaskLock::<RawAddr>::new(mask, base);

    assert!(corrupt_lock.unseal(corrupted_addr).is_none());
}

#[test]
fn vault_access_verifies_seal_each_time() {
    let lock = BitMaskLock::<RawAddr>::new(0x00FF, 0x1000);
    // An address whose confinement tag is intact: access succeeds and yields
    // the trusted offset.
    let good: Vault<RawAddr, _, u64, ()> = Vault::new(RawAddr(0x10FF), lock).unwrap();
    assert_eq!(good.try_access().map(|a| a.as_value()), Some(0x00FF));
    // An address whose tag bits were never stamped by this policy: access is
    // refused, fail-closed.
    let bad: Vault<RawAddr, _, u64, ()> = Vault::new(RawAddr(0x1234), BitMaskLock::<RawAddr>::new(0x000F, 0x7000)).unwrap();
    assert!(bad.try_access().is_none());
}

#[test]
fn vault_identity_policy_access_returns_address_unchanged() {
    // With the identity policy, the trusted offset recovered on access is the
    // whole original address, unchanged.
    let lock = BitMaskLock::<RawAddr>::new(usize::MAX, 0);
    let p = 0x5AFE_usize;
    let vault: Vault<RawAddr, _, u64, ()> = Vault::new(RawAddr(p), lock).unwrap();
    assert_eq!(vault.try_access().map(|a| a.as_value()), Some(p));
    assert_eq!(vault.secure().as_value(), p);
}
