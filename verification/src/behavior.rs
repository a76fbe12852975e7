//! The relay controller: the coordinating state machine of the signaling
//! relay.
//!
//! It owns the identity directory and the event queue, reacts to the
//! overlay layer's connection lifecycle callbacks, accepts relay requests,
//! and drives delivery by turning each accepted request into exactly one
//! `Deliver` event addressed to one live connection of the target peer.
//! It never initiates connection creation or teardown itself.

use vstd::prelude::*;
use crate::SignalError;
use crate::directory::{
    IdentityDirectory, Registration, count_in, dir_wf, last_conn_of, reachable_in, reg_in,
};
use crate::handler::{SendState, SignalingHandler};
use crate::identity::{ConnectionId, Direction, PeerIdentity};
use crate::queue::{EventQueue, PendingEvent};

verus! {

/// An event the relay surfaces upward, for the bridge adapter to forward
/// to the external clients of the receiving peer.
#[derive(Clone, Debug, PartialEq, Eq)]
pub enum SignalingEvent {
    /// A signaling payload arrived from a remote peer.
    SignalReceived {
        /// The peer that sent the payload.
        peer: PeerIdentity,
        /// The opaque payload itself.
        signal: Vec<u8>,
        /// The peer the payload was relayed to, where the receiving
        /// connection knows it.
        target: Option<PeerIdentity>,
    },
}

/// A notification the controller hands to one connection handler.
#[derive(Clone, Debug, PartialEq, Eq)]
pub enum SignalingHandlerIn {
    /// Carry `signal` to the remote side, naming `peer` as its sender.
    SendSignal { peer: PeerIdentity, signal: Vec<u8> },
}

/// The relay controller: tracks reachable peers and queues delivery and
/// lifecycle events in the order they arise.
#[derive(Debug)]
pub struct SignalingBehavior {
    connected_peers: IdentityDirectory,
    events: EventQueue,
}

impl SignalingBehavior {
    /// The registrations of the identity directory, in establishment order.
    pub closed spec fn regs(&self) -> Seq<Registration> {
        self.connected_peers@
    }

    /// The queued events, in enqueue order.
    pub closed spec fn pending(&self) -> Seq<PendingEvent> {
        self.events@
    }

    /// The controller's invariant: no connection is registered twice.
    pub open spec fn wf(&self) -> bool {
        dir_wf(self.regs())
    }

    /// A fresh controller: no peer is reachable and no event is queued.
    pub fn new() -> (b: SignalingBehavior)
        ensures
            b.regs() =~= Seq::<Registration>::empty(),
            b.pending() =~= Seq::<PendingEvent>::empty(),
            b.wf(),
    {
        SignalingBehavior { connected_peers: IdentityDirectory::new(), events: EventQueue::new() }
    }

    /// Reacts to the overlay layer establishing a connection: registers it
    /// in the identity directory, queues an `Established` event for
    /// observers, and hands back the connection's handler. Never fails.
    pub fn on_connection_established(
        &mut self,
        peer: PeerIdentity,
        connection: ConnectionId,
        direction: Direction,
    ) -> (h: SignalingHandler)
        ensures
            final(self).regs() == if reg_in(old(self).regs(), peer, connection) {
                old(self).regs()
            } else {
                old(self).regs().push(Registration { peer, connection })
            },
            final(self).pending() == old(self).pending().push(
                PendingEvent::Established { peer, connection, direction },
            ),
            old(self).wf() ==> final(self).wf(),
            reachable_in(final(self).regs(), peer),
            h.peer == peer && h.connection == connection && h.send_state == SendState::Idle && !h.closed,
    {
        self.connected_peers.register(peer, connection);
        self.events.enqueue(PendingEvent::Established { peer, connection, direction });
        proof {
            if reg_in(old(self).regs(), peer, connection) {
                let i = choose|i: int|
                    0 <= i < old(self).regs().len()
                        && crate::directory::reg_matches(old(self).regs()[i], peer, connection);
                assert(self.regs()[i].peer == peer);
            } else {
                assert(self.regs().last().peer == peer);
            }
        }
        SignalingHandler::new(peer, connection)
    }

    /// The overlay layer accepted an inbound connection from `peer`.
    pub fn handle_established_inbound_connection(
        &mut self,
        connection: ConnectionId,
        peer: PeerIdentity,
    ) -> (h: SignalingHandler)
        ensures
            final(self).regs() == if reg_in(old(self).regs(), peer, connection) {
                old(self).regs()
            } else {
                old(self).regs().push(Registration { peer, connection })
            },
            final(self).pending() == old(self).pending().push(
                PendingEvent::Established { peer, connection, direction: Direction::Inbound },
            ),
            old(self).wf() ==> final(self).wf(),
            reachable_in(final(self).regs(), peer),
            h.peer == peer && h.connection == connection && h.send_state == SendState::Idle && !h.closed,
    {
        self.on_connection_established(peer, connection, Direction::Inbound)
    }

    /// The overlay layer established an outbound connection to `peer`.
    pub fn handle_established_outbound_connection(
        &mut self,
        connection: ConnectionId,
        peer: PeerIdentity,
    ) -> (h: SignalingHandler)
        ensures
            final(self).regs() == if reg_in(old(self).regs(), peer, connection) {
                old(self).regs()
            } else {
                old(self).regs().push(Registration { peer, connection })
            },
            final(self).pending() == old(self).pending().push(
                PendingEvent::Established { peer, connection, direction: Direction::Outbound },
            ),
            old(self).wf() ==> final(self).wf(),
            reachable_in(final(self).regs(), peer),
            h.peer == peer && h.connection == connection && h.send_state == SendState::Idle && !h.closed,
    {
        self.on_connection_established(peer, connection, Direction::Outbound)
    }

    /// Reacts to the overlay layer closing a connection: unregisters it
    /// (idempotently — an unknown connection is a no-op on the directory)
    /// and queues a `Closed` event.
    pub fn on_connection_closed(&mut self, peer: PeerIdentity, connection: ConnectionId)
        ensures
            !reg_in(old(self).regs(), peer, connection) ==> final(self).regs()
                == old(self).regs(),
            reg_in(old(self).regs(), peer, connection) ==> exists|i: int|
                0 <= i < old(self).regs().len()
                    && crate::directory::reg_matches(#[trigger] old(self).regs()[i], peer, connection)
                    && final(self).regs() == old(self).regs().remove(i),
            final(self).pending() == old(self).pending().push(
                PendingEvent::Closed { peer, connection },
            ),
            old(self).wf() ==> final(self).wf(),
    {
        self.connected_peers.unregister(peer, connection);
        self.events.enqueue(PendingEvent::Closed { peer, connection });
    }

    /// Relays a signaling payload from `from` to `to`.
    ///
    /// Fails with `PeerNotConnected`, queueing nothing, iff `to` has no
    /// live connection. Otherwise queues exactly one `Deliver` event
    /// addressed to the most recently established live connection of `to`
    /// (the documented tie-break when several connections exist), and no
    /// other event.
    pub fn relay_signal(&mut self, from: PeerIdentity, to: PeerIdentity, signal: Vec<u8>) -> (r:
        Result<(), SignalError>)
        ensures
            final(self).regs() == old(self).regs(),
            r is Ok <==> reachable_in(old(self).regs(), to),
            !reachable_in(old(self).regs(), to) ==> r == Err::<(), SignalError>(
                SignalError::PeerNotConnected,
            ) && final(self).pending() == old(self).pending(),
            reachable_in(old(self).regs(), to) ==> final(self).pending()
                == old(self).pending().push(
                PendingEvent::Deliver {
                    target: to,
                    connection: last_conn_of(old(self).regs(), to),
                    sender: from,
                    payload: signal,
                },
            ) && reg_in(old(self).regs(), to, last_conn_of(old(self).regs(), to)),
            old(self).wf() ==> final(self).wf(),
    {
        match self.connected_peers.most_recent_connection_for(to) {
            Some(connection) => {
                self.events.enqueue(
                    PendingEvent::Deliver { target: to, connection, sender: from, payload: signal },
                );
                Ok(())
            },
            None => Err(SignalError::PeerNotConnected),
        }
    }

    /// Non-blocking single-step dequeue: hands out the earliest queued
    /// event, or nothing if the queue is empty. The sole consumer of the
    /// event queue, so events leave in exactly enqueue order.
    pub fn poll(&mut self) -> (r: Option<PendingEvent>)
        ensures
            final(self).regs() == old(self).regs(),
            old(self).pending().len() == 0 ==> r is None && final(self).pending()
                == old(self).pending(),
            old(self).pending().len() > 0 ==> r == Some(old(self).pending()[0])
                && final(self).pending() == old(self).pending().drop_first(),
            old(self).wf() ==> final(self).wf(),
    {
        self.events.try_dequeue()
    }

    /// True iff `peer` has at least one live connection.
    pub fn is_reachable(&self, peer: PeerIdentity) -> (r: bool)
        ensures
            r == reachable_in(self.regs(), peer),
    {
        self.connected_peers.is_reachable(peer)
    }

    /// How many live connections `peer` currently has.
    pub fn connection_count_for(&self, peer: PeerIdentity) -> (r: usize)
        ensures
            r == count_in(self.regs(), peer),
    {
        self.connected_peers.connection_count_for(peer)
    }

    /// How many events are waiting to be dispatched.
    pub fn pending_len(&self) -> (n: usize)
        ensures
            n == self.pending().len(),
    {
        self.events.len()
    }
}

} // verus!
