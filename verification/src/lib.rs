//! Software-fault-isolation address confinement: a bitmask policy that seals
//! an arbitrary address into a restricted region and unseals it only after
//! verifying its confinement tag, plus a vault guard that mediates access to
//! a value reachable only through such a sealed address.

pub mod addr;
pub mod bmlock;
pub mod engine;
pub mod session;
pub mod token;
pub mod vlock;
