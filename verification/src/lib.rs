//! A verified relay selector: the decision engine that, given a catalog of
//! VPN relays and a user's connection preferences, chooses a concrete tunnel
//! endpoint (and optionally an entry relay for multihop, a bridge, and/or an
//! obfuscator sidecar) for each connection attempt.

pub mod builder;
pub mod constraint;
pub mod detailer;
pub mod helpers;
pub mod intersection_laws;
pub mod matcher;
pub mod location;
pub mod relay_constraints;
pub mod net;
pub mod relay_list;
pub mod selector;

use vstd::prelude::*;

verus! {

/// Errors returned by the relay selector.
#[derive(Clone, Copy, Debug, PartialEq, Eq, Structural)]
pub enum Error {
    /// The filter pipeline produced an empty set, or endpoint detailing failed.
    NoRelay,
    /// A bridge was requested but cannot be honored (UDP transport).
    NoBridge,
}

} // verus!
