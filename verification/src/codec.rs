//! Wire framing for relayed payloads on an overlay connection.
//!
//! A frame is a length-prefixed envelope of the sender identity and the
//! opaque payload: eight big-endian bytes of sender identifier, eight
//! big-endian bytes of payload length, then the payload itself. Decoding
//! rejects any byte sequence whose length prefix does not match exactly.

use vstd::prelude::*;
use crate::SignalError;
use crate::identity::PeerIdentity;

verus! {

/// Byte `i` (0 = least significant) of `x`.
pub open spec fn byte_of(x: u64, i: int) -> u8 {
    (x >> (8 * i) as u64) as u8
}

/// The eight bytes of `x`, most significant first.
pub open spec fn u64_be_spec(x: u64) -> Seq<u8> {
    seq![
        byte_of(x, 7),
        byte_of(x, 6),
        byte_of(x, 5),
        byte_of(x, 4),
        byte_of(x, 3),
        byte_of(x, 2),
        byte_of(x, 1),
        byte_of(x, 0),
    ]
}

/// The value whose big-endian bytes are `s`.
pub open spec fn combine_be(s: Seq<u8>) -> u64
    recommends
        s.len() == 8,
{
    ((s[0] as u64) << 56u64) | ((s[1] as u64) << 48u64) | ((s[2] as u64) << 40u64) | ((
    s[3] as u64) << 32u64) | ((s[4] as u64) << 24u64) | ((s[5] as u64) << 16u64) | ((
    s[6] as u64) << 8u64) | (s[7] as u64)
}

/// Splitting a value into bytes and recombining them gives the value back.
pub proof fn lemma_u64_round_trip(x: u64)
    ensures
        combine_be(u64_be_spec(x)) == x,
{
    assert((((x >> 56u64) as u8 as u64) << 56u64) | (((x >> 48u64) as u8 as u64) << 48u64) | (((x
        >> 40u64) as u8 as u64) << 40u64) | (((x >> 32u64) as u8 as u64) << 32u64) | (((x
        >> 24u64) as u8 as u64) << 24u64) | (((x >> 16u64) as u8 as u64) << 16u64) | (((x
        >> 8u64) as u8 as u64) << 8u64) | ((x >> 0u64) as u8 as u64) == x) by (bit_vector);
}

/// The framed form of payload `payload` sent by `sender_id`.
pub open spec fn encode_frame_spec(sender_id: u64, payload: Seq<u8>) -> Seq<u8> {
    u64_be_spec(sender_id) + u64_be_spec(payload.len() as u64) + payload
}

/// True iff `bytes` is a well-formed frame: long enough for both prefixes,
/// with a length prefix that matches the payload exactly.
pub open spec fn frame_wf(bytes: Seq<u8>) -> bool {
    bytes.len() >= 16 && combine_be(bytes.subrange(8, 16)) == bytes.len() - 16
}

/// The sender identifier a well-formed frame carries.
pub open spec fn decoded_sender(bytes: Seq<u8>) -> u64 {
    combine_be(bytes.subrange(0, 8))
}

/// The payload a well-formed frame carries.
pub open spec fn decoded_payload(bytes: Seq<u8>) -> Seq<u8> {
    bytes.subrange(16, bytes.len() as int)
}

/// Writes the eight bytes of `x`, most significant first.
pub fn u64_to_be_bytes(x: u64) -> (r: Vec<u8>)
    ensures
        r@ == u64_be_spec(x),
{
    let mut r: Vec<u8> = Vec::new();
    r.push(#[verifier::truncate] ((x >> 56u64) as u8));
    r.push(#[verifier::truncate] ((x >> 48u64) as u8));
    r.push(#[verifier::truncate] ((x >> 40u64) as u8));
    r.push(#[verifier::truncate] ((x >> 32u64) as u8));
    r.push(#[verifier::truncate] ((x >> 24u64) as u8));
    r.push(#[verifier::truncate] ((x >> 16u64) as u8));
    r.push(#[verifier::truncate] ((x >> 8u64) as u8));
    r.push(#[verifier::truncate] (x as u8));
    proof {
        assert(x == x >> 0u64) by (bit_vector);
        assert(r@ =~= u64_be_spec(x));
    }
    r
}

/// Reads the eight bytes starting at `start`, most significant first.
pub fn u64_from_be_bytes(v: &Vec<u8>, start: usize) -> (r: u64)
    requires
        start + 8 <= v@.len(),
    ensures
        r == combine_be(v@.subrange(start as int, start + 8)),
{
    let n = v.len();
    assert(start + 8 <= n);
    let r = ((v[start] as u64) << 56u64) | ((v[start + 1] as u64) << 48u64) | ((v[start
        + 2] as u64) << 40u64) | ((v[start + 3] as u64) << 32u64) | ((v[start + 4] as u64)
        << 24u64) | ((v[start + 5] as u64) << 16u64) | ((v[start + 6] as u64) << 8u64) | (v[start
        + 7] as u64);
    proof {
        let s = v@.subrange(start as int, start + 8);
        assert(s[0] == v@[start as int]);
        assert(s[1] == v@[start + 1]);
        assert(s[2] == v@[start + 2]);
        assert(s[3] == v@[start + 3]);
        assert(s[4] == v@[start + 4]);
        assert(s[5] == v@[start + 5]);
        assert(s[6] == v@[start + 6]);
        assert(s[7] == v@[start + 7]);
    }
    r
}

/// Frames `payload` as sent by `sender`: sender identifier, payload
/// length, payload, each prefix in eight big-endian bytes.
pub fn encode_frame(sender: PeerIdentity, payload: &Vec<u8>) -> (r: Vec<u8>)
    ensures
        r@ == encode_frame_spec(sender.id, payload@),
{
    let mut r = u64_to_be_bytes(sender.id);
    let mut len_bytes = u64_to_be_bytes(payload.len() as u64);
    r.append(&mut len_bytes);
    r.extend_from_slice(payload.as_slice());
    proof {
        assert(r@ =~= encode_frame_spec(sender.id, payload@));
    }
    r
}

/// Decodes a frame back into its sender identity and payload. Fails with
/// `ProtocolDecodeError` iff `bytes` is not a well-formed frame.
pub fn decode_frame(bytes: &Vec<u8>) -> (r: Result<(PeerIdentity, Vec<u8>), SignalError>)
    ensures
        r is Ok <==> frame_wf(bytes@),
        r is Ok ==> r->Ok_0.0.id == decoded_sender(bytes@) && r->Ok_0.1@ == decoded_payload(
            bytes@,
        ),
        r is Err ==> r == Err::<(PeerIdentity, Vec<u8>), SignalError>(
            SignalError::ProtocolDecodeError,
        ),
{
    let n = bytes.len();
    if n < 16 {
        return Err(SignalError::ProtocolDecodeError);
    }
    let sender_id = u64_from_be_bytes(bytes, 0);
    let stated_len = u64_from_be_bytes(bytes, 8);
    if stated_len != (n - 16) as u64 {
        return Err(SignalError::ProtocolDecodeError);
    }
    let mut payload: Vec<u8> = Vec::new();
    let mut i: usize = 16;
    while i < n
        invariant
            16 <= i <= n,
            n == bytes@.len(),
            payload@ == bytes@.subrange(16, i as int),
        decreases n - i,
    {
        payload.push(bytes[i]);
        proof {
            assert(payload@ =~= bytes@.subrange(16, i + 1));
        }
        i = i + 1;
    }
    Ok((PeerIdentity { id: sender_id }, payload))
}

/// Round trip: decoding what `encode_frame_spec` framed gives back exactly
/// the sender and the payload, for every payload a machine can hold.
pub proof fn lemma_frame_round_trip(sender_id: u64, payload: Seq<u8>)
    requires
        payload.len() <= u64::MAX,
    ensures
        frame_wf(encode_frame_spec(sender_id, payload)),
        decoded_sender(encode_frame_spec(sender_id, payload)) == sender_id,
        decoded_payload(encode_frame_spec(sender_id, payload)) == payload,
{
    let e = encode_frame_spec(sender_id, payload);
    assert(e.len() == 16 + payload.len());
    assert(e.subrange(0, 8) =~= u64_be_spec(sender_id));
    assert(e.subrange(8, 16) =~= u64_be_spec(payload.len() as u64));
    lemma_u64_round_trip(sender_id);
    lemma_u64_round_trip(payload.len() as u64);
    assert(e.subrange(16, e.len() as int) =~= payload);
}

} // verus!
