//! A small library for bringing up a WiFi-capable device: a credential
//! store that persists a (network name, secret) pair in a key-value
//! partition with compiled-in defaults as a fallback, and a connection
//! controller that drives a network interface through configure, start
//! and connect with a bounded polling retry budget.
//!
//! The persistent partition and the radio are modelled as plain data
//! ([`store::NvStore`], [`radio::SimRadio`]), so every decision the
//! firmware makes is a verified function of those values; the hardware
//! glue that fills them in lives outside this crate.
use vstd::prelude::*;

pub mod controller;
pub mod credentials;
pub mod radio;
pub mod store;

verus! {

/// The failure kinds of the boot sequence.
#[derive(Clone, Copy, PartialEq, Eq, Debug, Structural)]
pub enum WifiError {
    /// The persistent partition is unavailable or rejected a write.
    StorageFault,
    /// A stored or default credential exceeds its field bound; values are
    /// never silently truncated.
    CredentialTooLong,
    /// The interface rejected a configure, start or connect call; these
    /// are fatal and never retried.
    RadioConfigFault,
    /// The polling budget was exhausted without reaching the connected
    /// state; carries the number of polls made.
    ConnectionTimeout(u32),
}

} // verus!
