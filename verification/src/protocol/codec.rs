//! Wire framing: `[u32 big-endian payload length][payload]`.
//!
//! The payload is the MessagePack encoding of a [`Message`], produced and read
//! by `rmp_serde` outside this library. The library validates the message,
//! frames the payload, and checks and strips the frame header.

use vstd::prelude::*;

use crate::protocol::error::ProtocolError;
use crate::protocol::messages::Message;
use crate::protocol::validate::{
    message_is_valid, validate_message, validation_result_matches, MAX_FRAME_BYTES,
};
use crate::text::owned;

verus! {

/// The big-endian value of the first four bytes of `b`.
pub open spec fn be_u32_value(b: Seq<u8>) -> nat
    recommends
        b.len() >= 4,
{
    (b[0] as nat) * 16777216 + (b[1] as nat) * 65536 + (b[2] as nat) * 256 + (b[3] as nat)
}

/// The four big-endian bytes of `n` (for `n < 2^32`).
pub open spec fn be_u32_bytes(n: nat) -> Seq<u8> {
    seq![
        ((n / 16777216) % 256) as u8,
        ((n / 65536) % 256) as u8,
        ((n / 256) % 256) as u8,
        (n % 256) as u8,
    ]
}

/// The frame that carries `payload`: its length as four big-endian bytes, then
/// the payload itself.
pub open spec fn framed(payload: Seq<u8>) -> Seq<u8> {
    be_u32_bytes(payload.len()) + payload
}

/// The error reporting a frame or payload of `size` bytes over [`MAX_FRAME_BYTES`].
pub open spec fn frame_too_large(size: nat) -> ProtocolError {
    ProtocolError::FrameTooLarge { size: size as usize, max: MAX_FRAME_BYTES }
}

/// A complete frame: a header, a declared length within [`MAX_FRAME_BYTES`], and
/// exactly that many payload bytes after the header.
pub open spec fn frame_is_complete(f: Seq<u8>) -> bool {
    &&& f.len() >= 4
    &&& be_u32_value(f) <= MAX_FRAME_BYTES
    &&& f.len() == 4 + be_u32_value(f)
}

proof fn lemma_be_bytes_of_u32(v: u32)
    ensures
        be_u32_bytes(v as nat) == seq![
            ((v >> 24u32) & 0xffu32) as u8,
            ((v >> 16u32) & 0xffu32) as u8,
            ((v >> 8u32) & 0xffu32) as u8,
            (v & 0xffu32) as u8,
        ],
        be_u32_value(be_u32_bytes(v as nat)) == v as nat,
{
    assert(((v >> 24u32) & 0xffu32) == (v / 16777216) % 256) by (bit_vector);
    assert(((v >> 16u32) & 0xffu32) == (v / 65536) % 256) by (bit_vector);
    assert(((v >> 8u32) & 0xffu32) == (v / 256) % 256) by (bit_vector);
    assert((v & 0xffu32) == v % 256) by (bit_vector);
    assert(((v / 16777216) % 256) * 16777216 + ((v / 65536) % 256) * 65536 + ((v / 256) % 256)
        * 256 + v % 256 == v) by (bit_vector);
    assert(be_u32_bytes(v as nat) =~= seq![
        ((v >> 24u32) & 0xffu32) as u8,
        ((v >> 16u32) & 0xffu32) as u8,
        ((v >> 8u32) & 0xffu32) as u8,
        (v & 0xffu32) as u8,
    ]);
}

/// The big-endian packing of four bytes into a `u32`.
spec fn pack_be(b0: u8, b1: u8, b2: u8, b3: u8) -> u32 {
    ((b0 as u32) << 24u32) | ((b1 as u32) << 16u32) | ((b2 as u32) << 8u32) | (b3 as u32)
}

proof fn lemma_pack_be(b0: u8, b1: u8, b2: u8, b3: u8)
    ensures
        pack_be(b0, b1, b2, b3) as nat == (b0 as nat) * 16777216 + (b1 as nat) * 65536 + (
        b2 as nat) * 256 + (b3 as nat),
        ((pack_be(b0, b1, b2, b3) >> 24u32) & 0xffu32) as u8 == b0,
        ((pack_be(b0, b1, b2, b3) >> 16u32) & 0xffu32) as u8 == b1,
        ((pack_be(b0, b1, b2, b3) >> 8u32) & 0xffu32) as u8 == b2,
        (pack_be(b0, b1, b2, b3) & 0xffu32) as u8 == b3,
{
    assert(((((b0 as u32) << 24u32) | ((b1 as u32) << 16u32) | ((b2 as u32) << 8u32) | (
    b3 as u32)) as nat) == (b0 as nat) * 16777216 + (b1 as nat) * 65536 + (b2 as nat) * 256 + (
    b3 as nat)) by (bit_vector);
    assert(((((((b0 as u32) << 24u32) | ((b1 as u32) << 16u32) | ((b2 as u32) << 8u32) | (
    b3 as u32))) >> 24u32) & 0xffu32) as u8 == b0) by (bit_vector);
    assert(((((((b0 as u32) << 24u32) | ((b1 as u32) << 16u32) | ((b2 as u32) << 8u32) | (
    b3 as u32))) >> 16u32) & 0xffu32) as u8 == b1) by (bit_vector);
    assert(((((((b0 as u32) << 24u32) | ((b1 as u32) << 16u32) | ((b2 as u32) << 8u32) | (
    b3 as u32))) >> 8u32) & 0xffu32) as u8 == b2) by (bit_vector);
    assert((((((b0 as u32) << 24u32) | ((b1 as u32) << 16u32) | ((b2 as u32) << 8u32) | (
    b3 as u32))) & 0xffu32) as u8 == b3) by (bit_vector);
}

proof fn lemma_be_value_bytes(b0: u8, b1: u8, b2: u8, b3: u8)
    ensures
        be_u32_bytes(be_u32_value(seq![b0, b1, b2, b3])) == seq![b0, b1, b2, b3],
        be_u32_value(seq![b0, b1, b2, b3]) < 0x1_0000_0000,
{
    let v = pack_be(b0, b1, b2, b3);
    lemma_pack_be(b0, b1, b2, b3);
    lemma_be_bytes_of_u32(v);
    assert(be_u32_value(seq![b0, b1, b2, b3]) == v as nat);
    assert(be_u32_bytes(v as nat) =~= seq![b0, b1, b2, b3]);
}

/// Reads the declared length of a header.
fn read_be_u32(b: &[u8]) -> (r: u32)
    requires
        b@.len() >= 4,
    ensures
        r as nat == be_u32_value(b@),
{
    let (b0, b1, b2, b3) = (b[0], b[1], b[2], b[3]);
    proof {
        lemma_pack_be(b0, b1, b2, b3);
    }
    ((b0 as u32) << 24u32) | ((b1 as u32) << 16u32) | ((b2 as u32) << 8u32) | (b3 as u32)
}

/// Reads the declared payload length without consuming the payload (for
/// streaming readers).
pub fn peek_payload_len(header: &[u8]) -> (r: Result<usize, ProtocolError>)
    ensures
        header@.len() < 4 <==> r == Err::<usize, ProtocolError>(ProtocolError::TruncatedFrame),
        header@.len() >= 4 && be_u32_value(header@) > MAX_FRAME_BYTES ==> (r == Err::<
            usize,
            ProtocolError,
        >(frame_too_large(be_u32_value(header@)))),
        header@.len() >= 4 && be_u32_value(header@) <= MAX_FRAME_BYTES ==> (r == Ok::<
            usize,
            ProtocolError,
        >(be_u32_value(header@) as usize)),
{
    if header.len() < 4 {
        return Err(ProtocolError::TruncatedFrame);
    }
    let len = read_be_u32(header) as usize;
    if len > MAX_FRAME_BYTES {
        return Err(ProtocolError::FrameTooLarge { size: len, max: MAX_FRAME_BYTES });
    }
    Ok(len)
}

/// Frames an already serialized payload.
pub fn frame_payload(payload: &[u8]) -> (r: Result<Vec<u8>, ProtocolError>)
    ensures
        payload@.len() <= MAX_FRAME_BYTES <==> r is Ok,
        r matches Ok(f) ==> f@ == framed(payload@),
        r matches Err(e) ==> e == frame_too_large(payload@.len()),
{
    let len = payload.len();
    if len > MAX_FRAME_BYTES {
        return Err(ProtocolError::FrameTooLarge { size: len, max: MAX_FRAME_BYTES });
    }
    let v = len as u32;
    let mut out: Vec<u8> = Vec::with_capacity(4 + len);
    out.push(((v >> 24u32) & 0xffu32) as u8);
    out.push(((v >> 16u32) & 0xffu32) as u8);
    out.push(((v >> 8u32) & 0xffu32) as u8);
    out.push((v & 0xffu32) as u8);
    let mut i: usize = 0;
    while i < len
        invariant
            len == payload@.len(),
            i <= len,
            out@.len() == 4 + i,
            out@.subrange(0, 4) == seq![
                ((v >> 24u32) & 0xffu32) as u8,
                ((v >> 16u32) & 0xffu32) as u8,
                ((v >> 8u32) & 0xffu32) as u8,
                (v & 0xffu32) as u8,
            ],
            forall|j: int| 0 <= j < i ==> out@[4 + j] == payload@[j],
        decreases len - i,
    {
        out.push(payload[i]);
        i = i + 1;
    }
    proof {
        lemma_be_bytes_of_u32(v);
        assert(out@ =~= framed(payload@));
    }
    Ok(out)
}

/// Validates `message`, then frames `payload`, its MessagePack encoding.
pub fn encode_message(message: &Message, payload: &[u8]) -> (r: Result<Vec<u8>, ProtocolError>)
    ensures
        message_is_valid(*message) && payload@.len() <= MAX_FRAME_BYTES <==> r is Ok,
        r matches Ok(f) ==> f@ == framed(payload@),
        !message_is_valid(*message) ==> (r matches Err(e) && validation_result_matches(
            *message,
            Err(e),
        )),
        message_is_valid(*message) && payload@.len() > MAX_FRAME_BYTES ==> (r matches Err(e)
            && e == frame_too_large(payload@.len())),
{
    match validate_message(message) {
        Ok(()) => frame_payload(payload),
        Err(e) => Err(e),
    }
}

/// Checks a complete length-prefixed frame and returns its payload.
pub fn decode_frame(frame: &[u8]) -> (r: Result<Vec<u8>, ProtocolError>)
    ensures
        frame_is_complete(frame@) <==> r is Ok,
        r matches Ok(p) ==> p@ == frame@.subrange(4, frame@.len() as int),
        frame@.len() < 4 ==> (r matches Err(e) && e == ProtocolError::TruncatedFrame),
        frame@.len() >= 4 && be_u32_value(frame@) > MAX_FRAME_BYTES ==> (r matches Err(e) && e
            == frame_too_large(be_u32_value(frame@))),
        frame@.len() >= 4 && be_u32_value(frame@) <= MAX_FRAME_BYTES && frame@.len() < 4
            + be_u32_value(frame@) ==> (r matches Err(e) && e == ProtocolError::TruncatedFrame),
        frame@.len() >= 4 && be_u32_value(frame@) <= MAX_FRAME_BYTES && frame@.len() > 4
            + be_u32_value(frame@) ==> (r matches Err(e) && e is Validation),
{
    if frame.len() < 4 {
        return Err(ProtocolError::TruncatedFrame);
    }
    let len = read_be_u32(frame) as usize;
    if len > MAX_FRAME_BYTES {
        return Err(ProtocolError::FrameTooLarge { size: len, max: MAX_FRAME_BYTES });
    }
    if frame.len() < 4 + len {
        return Err(ProtocolError::TruncatedFrame);
    }
    if frame.len() != 4 + len {
        return Err(ProtocolError::Validation(owned("frame contains trailing bytes")));
    }
    let mut out: Vec<u8> = Vec::with_capacity(len);
    let mut i: usize = 4;
    while i < frame.len()
        invariant
            4 <= i <= frame@.len(),
            out@ == frame@.subrange(4, i as int),
        decreases frame@.len() - i,
    {
        out.push(frame[i]);
        i = i + 1;
        assert(out@ =~= frame@.subrange(4, i as int));
    }
    Ok(out)
}

/// Framing round trip: a payload within the limit is framed into a complete
/// frame whose payload is the one it was made from, and its header declares its length.
pub proof fn lemma_framed_round_trip(payload: Seq<u8>)
    requires
        payload.len() <= MAX_FRAME_BYTES,
    ensures
        frame_is_complete(framed(payload)),
        framed(payload).subrange(4, framed(payload).len() as int) == payload,
        be_u32_value(framed(payload)) == payload.len(),
{
    let v = payload.len() as u32;
    lemma_be_bytes_of_u32(v);
    let f = framed(payload);
    assert(f.subrange(0, 4) =~= be_u32_bytes(payload.len()));
    assert(be_u32_value(f) == be_u32_value(be_u32_bytes(payload.len())));
    assert(f.subrange(4, f.len() as int) =~= payload);
}

/// Every complete frame is the framing of its own payload.
pub proof fn lemma_complete_frame_is_framed(f: Seq<u8>)
    requires
        frame_is_complete(f),
    ensures
        framed(f.subrange(4, f.len() as int)) == f,
{
    let p = f.subrange(4, f.len() as int);
    lemma_be_value_bytes(f[0], f[1], f[2], f[3]);
    assert(seq![f[0], f[1], f[2], f[3]] =~= f.subrange(0, 4));
    assert(be_u32_value(seq![f[0], f[1], f[2], f[3]]) == be_u32_value(f));
    assert(p.len() == be_u32_value(f));
    assert(framed(p) =~= f);
}

} // verus!
