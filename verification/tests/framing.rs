//! Wire framing: exact frame bytes, round trips, and decode failures.

use tp_bootstrap_server::codec::{decode_frame, encode_frame, u64_from_be_bytes, u64_to_be_bytes};
use tp_bootstrap_server::identity::PeerIdentity;
use tp_bootstrap_server::SignalError;

#[test]
fn u64_round_trips_through_bytes() {
    for x in [0u64, 1, 255, 256, 0x0102030405060708, u64::MAX] {
        let bytes = u64_to_be_bytes(x);
        assert_eq!(bytes.len(), 8);
        assert_eq!(u64_from_be_bytes(&bytes, 0), x);
    }
}

#[test]
fn u64_bytes_are_big_endian() {
    assert_eq!(
        u64_to_be_bytes(0x0102030405060708),
        vec![1, 2, 3, 4, 5, 6, 7, 8]
    );
    assert_eq!(u64_to_be_bytes(1), vec![0, 0, 0, 0, 0, 0, 0, 1]);
}

#[test]
fn frame_has_exact_expected_bytes() {
    let frame = encode_frame(PeerIdentity::new(5), &b"hi".to_vec());
    let mut expected = vec![0, 0, 0, 0, 0, 0, 0, 5]; // sender
    expected.extend_from_slice(&[0, 0, 0, 0, 0, 0, 0, 2]); // payload length
    expected.extend_from_slice(b"hi");
    assert_eq!(frame, expected);
}

#[test]
fn frame_round_trips() {
    let sender = PeerIdentity::new(0xdead_beef_0000_0001);
    let payload = b"offer-sdp-1".to_vec();
    let frame = encode_frame(sender, &payload);
    let (got_sender, got_payload) = decode_frame(&frame).expect("a fresh frame must decode");
    assert_eq!(got_sender, sender);
    assert_eq!(got_payload, payload);
}

#[test]
fn empty_payload_round_trips() {
    let sender = PeerIdentity::new(7);
    let frame = encode_frame(sender, &Vec::new());
    assert_eq!(frame.len(), 16);
    let (got_sender, got_payload) = decode_frame(&frame).expect("an empty frame must decode");
    assert_eq!(got_sender, sender);
    assert!(got_payload.is_empty());
}

#[test]
fn short_bytes_fail_to_decode() {
    assert_eq!(
        decode_frame(&b"too short".to_vec()),
        Err(SignalError::ProtocolDecodeError)
    );
    assert_eq!(decode_frame(&Vec::new()), Err(SignalError::ProtocolDecodeError));
}

#[test]
fn wrong_length_prefix_fails_to_decode() {
    let mut frame = encode_frame(PeerIdentity::new(5), &b"hi".to_vec());
    // truncate the payload: the length prefix no longer matches
    frame.pop();
    assert_eq!(decode_frame(&frame), Err(SignalError::ProtocolDecodeError));
    // and one with a stated length larger than what follows
    let mut frame2 = encode_frame(PeerIdentity::new(5), &b"hi".to_vec());
    frame2[15] = 200;
    assert_eq!(decode_frame(&frame2), Err(SignalError::ProtocolDecodeError));
}
