//! Plain-value identifiers for peers and overlay connections.
//!
//! A peer identity is an opaque, globally unique, comparable identifier;
//! a connection identifier distinguishes simultaneous sessions with the
//! same peer. Both are carried here as integers so that contracts can
//! compare them directly.

use vstd::prelude::*;

verus! {

/// An opaque, globally unique identifier for a peer. Immutable once
/// assigned to a connection.
#[derive(Clone, Copy, Debug, PartialEq, Eq, Hash, Structural)]
pub struct PeerIdentity {
    pub id: u64,
}

/// Distinguishes multiple simultaneous overlay sessions with one peer.
#[derive(Clone, Copy, Debug, PartialEq, Eq, Hash, Structural)]
pub struct ConnectionId {
    pub id: u64,
}

/// Which side opened the overlay connection.
#[derive(Clone, Copy, Debug, PartialEq, Eq, Structural)]
pub enum Direction {
    Inbound,
    Outbound,
}

impl PeerIdentity {
    pub fn new(id: u64) -> (p: PeerIdentity)
        ensures
            p.id == id,
    {
        PeerIdentity { id }
    }
}

impl ConnectionId {
    pub fn new(id: u64) -> (c: ConnectionId)
        ensures
            c.id == id,
    {
        ConnectionId { id }
    }
}

} // verus!
