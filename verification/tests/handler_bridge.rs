//! Connection handler cycles and the bridge adapter's envelope handling.

use tp_bootstrap_server::behavior::{SignalingBehavior, SignalingEvent, SignalingHandlerIn};
use tp_bootstrap_server::bridge::{handle_envelope, SignalEnvelope};
use tp_bootstrap_server::handler::{SendState, SignalingHandler, SIGNALING_PROTOCOL};
use tp_bootstrap_server::identity::{ConnectionId, Direction, PeerIdentity};
use tp_bootstrap_server::queue::PendingEvent;
use tp_bootstrap_server::SignalError;

#[test]
fn relayed_envelope_reaches_the_remote_handler_exactly_once() {
    // peer A and peer B each establish one overlay connection; the bridge
    // relays an envelope from A to B; B's handler sees one delivery with
    // sender A and the exact payload.
    let a = PeerIdentity::new(1);
    let b = PeerIdentity::new(2);
    let ca = ConnectionId::new(10);
    let cb = ConnectionId::new(11);
    let mut ctl = SignalingBehavior::new();
    let _ha = ctl.on_connection_established(a, ca, Direction::Inbound);
    let mut hb = ctl.on_connection_established(b, cb, Direction::Inbound);
    let envelope = SignalEnvelope { from: a, to: Some(b), signal: b"offer-sdp-1".to_vec() };
    assert_eq!(handle_envelope(&mut ctl, envelope), Ok(()));

    // dispatch loop: drain in order, hand deliveries to the one handler named
    let mut deliveries = Vec::new();
    while let Some(event) = ctl.poll() {
        if let PendingEvent::Deliver { target, connection, sender, payload } = event {
            assert_eq!(target, b);
            assert_eq!(connection, cb);
            deliveries.push((sender, payload));
        }
    }
    assert_eq!(deliveries.len(), 1);
    let (sender, payload) = deliveries.pop().unwrap();
    assert_eq!(sender, a);
    assert_eq!(payload, b"offer-sdp-1".to_vec());

    // B's handler serializes the delivery; the remote side decodes it back
    let frame = hb.on_behaviour_event(SignalingHandlerIn::SendSignal { peer: sender, signal: payload });
    assert_eq!(hb.send_state, SendState::Sending);
    assert_eq!(hb.complete_send(true), None);
    assert_eq!(hb.send_state, SendState::Idle);

    let mut remote = SignalingHandler::new(a, ca);
    match remote.on_inbound_bytes(&frame) {
        Ok(SignalingEvent::SignalReceived { peer, signal, target }) => {
            assert_eq!(peer, a);
            assert_eq!(signal, b"offer-sdp-1".to_vec());
            assert_eq!(target, Some(a));
        }
        Err(e) => panic!("decoding a fresh frame failed: {:?}", e),
    }
}

#[test]
fn envelope_to_never_connected_peer_surfaces_a_failure() {
    let a = PeerIdentity::new(1);
    let c = PeerIdentity::new(3);
    let ca = ConnectionId::new(10);
    let mut ctl = SignalingBehavior::new();
    ctl.on_connection_established(a, ca, Direction::Inbound);
    let before = ctl.pending_len();
    let envelope = SignalEnvelope { from: a, to: Some(c), signal: b"offer".to_vec() };
    let r = handle_envelope(&mut ctl, envelope);
    assert_eq!(r, Err(SignalError::PeerNotConnected));
    assert_eq!(ctl.pending_len(), before);
    // the originating client gets a failure notification, not silence
    assert_eq!(r.unwrap_err().describe(), "peer not connected");
}

#[test]
fn envelope_without_target_is_rejected() {
    let a = PeerIdentity::new(1);
    let mut ctl = SignalingBehavior::new();
    let before = ctl.pending_len();
    let envelope = SignalEnvelope { from: a, to: None, signal: b"offer".to_vec() };
    let r = handle_envelope(&mut ctl, envelope);
    assert_eq!(r, Err(SignalError::MissingTarget));
    assert_eq!(ctl.pending_len(), before);
    assert_eq!(r.unwrap_err().describe(), "missing target peer");
}

#[test]
fn failed_transmission_reports_a_closed_event() {
    let b = PeerIdentity::new(2);
    let cb = ConnectionId::new(11);
    let mut h = SignalingHandler::new(b, cb);
    let _frame = h.on_behaviour_event(SignalingHandlerIn::SendSignal {
        peer: PeerIdentity::new(1),
        signal: b"x".to_vec(),
    });
    let reported = h.complete_send(false);
    assert_eq!(reported, Some(PendingEvent::Closed { peer: b, connection: cb }));
    assert!(h.closed);
    assert!(!h.connection_keep_alive());
}

#[test]
fn malformed_inbound_bytes_close_only_this_connection() {
    let a = PeerIdentity::new(1);
    let mut h = SignalingHandler::new(a, ConnectionId::new(10));
    let r = h.on_inbound_bytes(&b"garbage".to_vec());
    assert_eq!(r, Err(SignalError::ProtocolDecodeError));
    assert!(h.closed);
    assert_eq!(
        SignalError::ProtocolDecodeError.describe(),
        "malformed signaling frame"
    );
    // another connection's handler is untouched
    let other = SignalingHandler::new(a, ConnectionId::new(12));
    assert!(other.connection_keep_alive());
}

#[test]
fn handlers_agree_on_the_protocol_identifier() {
    let h = SignalingHandler::new(PeerIdentity::new(1), ConnectionId::new(10));
    assert_eq!(h.listen_protocol(), SIGNALING_PROTOCOL);
    assert!(SIGNALING_PROTOCOL.contains("webrtc-signaling"));
}
