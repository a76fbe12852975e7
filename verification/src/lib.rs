//! A rendezvous/signaling relay core: tracks which peers are reachable over
//! an overlay transport, accepts relay requests, and turns each request into
//! an ordered delivery event for the target peer's connection handler.

use vstd::prelude::*;

pub mod behavior;
pub mod bridge;
pub mod codec;
pub mod directory;
pub mod handler;
pub mod identity;
pub mod laws;
pub mod queue;

verus! {

/// Errors the relay core can report to its callers.
///
/// `PeerNotConnected` and `MissingTarget` are relay-level: they are returned
/// synchronously to the caller. `ProtocolDecodeError` is connection-level:
/// it closes only the affected connection.
#[derive(Clone, Copy, Debug, PartialEq, Eq, Structural)]
pub enum SignalError {
    /// The relay target has no live connection.
    PeerNotConnected,
    /// A client envelope named no target peer.
    MissingTarget,
    /// Inbound bytes on an established connection were malformed.
    ProtocolDecodeError,
}

} // verus!
