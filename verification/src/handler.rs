//! The per-connection handler: carries payloads to and from the remote
//! peer over one live overlay connection.
//!
//! Each handler cycles `Idle -> Sending -> Idle` on an outbound delivery;
//! receiving is independent of sending because a connection is
//! bidirectional. A transmission failure is reported upward as a `Closed`
//! event rather than silently dropped, and malformed inbound bytes close
//! only this connection.

use vstd::prelude::*;
use crate::SignalError;
use crate::behavior::{SignalingEvent, SignalingHandlerIn};
use crate::codec::{decode_frame, decoded_payload, decoded_sender, encode_frame,
    encode_frame_spec, frame_wf};
use crate::identity::{ConnectionId, PeerIdentity};
use crate::queue::PendingEvent;

verus! {

/// The protocol identifier both ends of an overlay connection must agree
/// on before relay traffic is accepted on it.
pub const SIGNALING_PROTOCOL: &'static str = "/libp2p/webrtc-signaling/1.0.0";

/// Where the outbound half of a connection stands.
#[derive(Clone, Copy, Debug, PartialEq, Eq, Structural)]
pub enum SendState {
    /// No delivery in flight.
    Idle,
    /// A frame has been produced and handed to the transport; its outcome
    /// has not been reported yet.
    Sending,
}

/// One instance per live overlay connection: serializes outbound
/// deliveries into frames and decodes inbound frames into signaling
/// events.
#[derive(Clone, Debug)]
pub struct SignalingHandler {
    /// The remote peer this connection belongs to.
    pub peer: PeerIdentity,
    /// The overlay connection this handler serves.
    pub connection: ConnectionId,
    /// The outbound delivery cycle.
    pub send_state: SendState,
    /// True once the connection died or decoded garbage; a closed handler
    /// accepts no further traffic.
    pub closed: bool,
}

impl SignalingHandler {
    /// A handler for a freshly established connection: idle and open.
    pub fn new(peer: PeerIdentity, connection: ConnectionId) -> (h: SignalingHandler)
        ensures
            h.peer == peer,
            h.connection == connection,
            h.send_state == SendState::Idle,
            !h.closed,
    {
        SignalingHandler { peer, connection, send_state: SendState::Idle, closed: false }
    }

    /// The protocol this connection speaks.
    pub fn listen_protocol(&self) -> (r: &'static str)
        ensures
            r@ == SIGNALING_PROTOCOL@,
    {
        SIGNALING_PROTOCOL
    }

    /// A signaling connection is kept alive for as long as it is live in
    /// the identity directory; the handler itself never times it out.
    pub fn connection_keep_alive(&self) -> (r: bool)
        ensures
            r == !self.closed,
    {
        !self.closed
    }

    /// Accepts a delivery notification from the controller: serializes the
    /// sender identity and the payload into the frame to transmit, and
    /// enters the sending half-cycle until the transport reports back.
    pub fn on_behaviour_event(&mut self, event: SignalingHandlerIn) -> (frame: Vec<u8>)
        requires
            old(self).send_state == SendState::Idle,
            !old(self).closed,
        ensures
            final(self).send_state == SendState::Sending,
            final(self).peer == old(self).peer,
            final(self).connection == old(self).connection,
            final(self).closed == old(self).closed,
            (event matches SignalingHandlerIn::SendSignal { peer, signal } ==> frame@
                == encode_frame_spec(peer.id, signal@)),
    {
        self.send_state = SendState::Sending;
        match event {
            SignalingHandlerIn::SendSignal { peer, signal } => encode_frame(peer, &signal),
        }
    }

    /// The transport reports how the frame fared. Success completes the
    /// cycle back to idle; failure (the connection was already dead) also
    /// closes the handler and hands back the `Closed` event the controller
    /// must see instead of a silent drop.
    pub fn complete_send(&mut self, delivered: bool) -> (r: Option<PendingEvent>)
        requires
            old(self).send_state == SendState::Sending,
        ensures
            final(self).send_state == SendState::Idle,
            final(self).peer == old(self).peer,
            final(self).connection == old(self).connection,
            delivered ==> r is None && final(self).closed == old(self).closed,
            !delivered ==> final(self).closed && r == Some(
                PendingEvent::Closed { peer: old(self).peer, connection: old(self).connection },
            ),
    {
        self.send_state = SendState::Idle;
        if delivered {
            None
        } else {
            self.closed = true;
            Some(PendingEvent::Closed { peer: self.peer, connection: self.connection })
        }
    }

    /// Decodes inbound bytes from the remote peer into the signaling event
    /// to report upward. Malformed bytes fail with `ProtocolDecodeError`
    /// and close only this connection; receiving is independent of any
    /// outbound delivery in flight.
    pub fn on_inbound_bytes(&mut self, bytes: &Vec<u8>) -> (r: Result<SignalingEvent, SignalError>)
        requires
            !old(self).closed,
        ensures
            final(self).peer == old(self).peer,
            final(self).connection == old(self).connection,
            final(self).send_state == old(self).send_state,
            r is Ok <==> frame_wf(bytes@),
            (r matches Ok(ev) ==> ev matches SignalingEvent::SignalReceived {
                peer,
                signal,
                target,
            } && peer.id == decoded_sender(bytes@) && signal@ == decoded_payload(bytes@) && target
                == Some(old(self).peer) && !final(self).closed),
            r is Err ==> r == Err::<SignalingEvent, SignalError>(SignalError::ProtocolDecodeError)
                && final(self).closed,
    {
        match decode_frame(bytes) {
            Ok((sender, payload)) => {
                proof {
                    assert(payload@ == decoded_payload(bytes@));
                }
                Ok(SignalingEvent::SignalReceived {
                    peer: sender,
                    signal: payload,
                    target: Some(self.peer),
                })
            },
            Err(_) => {
                self.closed = true;
                Err(SignalError::ProtocolDecodeError)
            },
        }
    }
}

} // verus!
