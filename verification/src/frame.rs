//! The length-prefixed wire format used on the stream-transport side: a
//! 4-byte big-endian length header followed by exactly that many payload
//! bytes. Encoding delimits one whole message per frame; empty payloads are
//! never framed.

use vstd::prelude::*;

verus! {

/// The four big-endian bytes of a 32-bit length.
pub open spec fn u32_be(x: u32) -> Seq<u8> {
    seq![(x >> 24) as u8, (x >> 16) as u8, (x >> 8) as u8, x as u8]
}

/// The 32-bit value read back from four big-endian bytes.
pub open spec fn u32_from_be(b: Seq<u8>) -> u32
    recommends
        b.len() == 4,
{
    (((b[0] as u32) << 24) | ((b[1] as u32) << 16) | ((b[2] as u32) << 8) | (b[3] as u32)) as u32
}

/// The wire bytes of one whole frame: header, then payload.
pub open spec fn frame_bytes(payload: Seq<u8>) -> Seq<u8>
    recommends
        payload.len() <= u32::MAX,
{
    u32_be(payload.len() as u32) + payload
}

/// What decoding a candidate frame yields: the payload, exactly when the
/// wire bytes hold a 4-byte header whose value equals the length of the
/// remaining bytes.
pub open spec fn spec_decode(w: Seq<u8>) -> Option<Seq<u8>> {
    if w.len() >= 4 && w.len() - 4 == u32_from_be(w.take(4)) as int {
        Some(w.skip(4))
    } else {
        None
    }
}

proof fn lemma_u32_be_round_trip(x: u32)
    ensures
        u32_from_be(u32_be(x)) == x,
{
    let b = u32_be(x);
    assert(b[0] == (x >> 24) as u8 && b[1] == (x >> 16) as u8 && b[2] == (x >> 8) as u8 && b[3]
        == x as u8);
    assert((((((x >> 24) as u8) as u32) << 24) | ((((x >> 16) as u8) as u32) << 16) | ((((x
        >> 8) as u8) as u32) << 8) | ((x as u8) as u32)) as u32 == x) by (bit_vector);
}

/// The four big-endian header bytes for a payload length.
pub fn be_header(len: u32) -> (r: Vec<u8>)
    ensures
        r@ == u32_be(len),
{
    let mut r: Vec<u8> = Vec::new();
    proof {
        assert((len >> 24) < 256 && (len >> 16) < 0x1000000 && (len >> 8) < 0x1000000000000)
            by (bit_vector);
    }
    r.push(#[verifier::truncate] ((len >> 24) as u8));
    r.push(#[verifier::truncate] ((len >> 16) as u8));
    r.push(#[verifier::truncate] ((len >> 8) as u8));
    r.push(#[verifier::truncate] (len as u8));
    proof {
        assert(r@ =~= u32_be(len));
    }
    r
}

/// Encode one outbound message as a frame: the header and the payload, to be
/// written as two consecutive writes. An empty payload is dropped and never
/// framed.
pub fn encode_frame(payload: Vec<u8>) -> (r: Option<(Vec<u8>, Vec<u8>)>)
    requires
        payload@.len() <= u32::MAX,
    ensures
        (payload@.len() == 0) <==> (r is None),
        r is Some ==> r->Some_0.0@ == u32_be(payload@.len() as u32) && r->Some_0.1@ == payload@,
        r is Some ==> r->Some_0.0@ + r->Some_0.1@ == frame_bytes(payload@),
{
    if payload.len() == 0 {
        None
    } else {
        let header = be_header(payload.len() as u32);
        Some((header, payload))
    }
}

/// Decode one whole frame back into its payload; yields the payload exactly
/// when the input is the frame of that payload.
pub fn decode_frame(wire: &Vec<u8>) -> (r: Option<Vec<u8>>)
    ensures
        match r {
            Some(p) => spec_decode(wire@) == Some(p@),
            None => spec_decode(wire@) is None,
        },
{
    if wire.len() < 4 {
        return None;
    }
    let len: u32 = ((wire[0] as u32) << 24) | ((wire[1] as u32) << 16) | ((wire[2] as u32) << 8) | (
    wire[3] as u32);
    proof {
        assert(wire@.take(4)[0] == wire@[0] && wire@.take(4)[1] == wire@[1] && wire@.take(4)[2]
            == wire@[2] && wire@.take(4)[3] == wire@[3]);
    }
    if wire.len() - 4 != len as usize {
        return None;
    }
    let mut payload: Vec<u8> = Vec::new();
    let mut i: usize = 4;
    while i < wire.len()
        invariant
            4 <= i <= wire@.len(),
            payload@ == wire@.subrange(4, i as int),
        decreases wire@.len() - i,
    {
        payload.push(wire[i]);
        i += 1;
        proof {
            assert(payload@ =~= wire@.subrange(4, i as int));
        }
    }
    proof {
        assert(payload@ =~= wire@.skip(4));
    }
    Some(payload)
}

/// Law: framing round-trips. For every non-empty payload that fits the
/// 32-bit header, the frame starts with the big-endian header of the
/// payload's length, and decoding the frame's wire bytes yields exactly the
/// payload.
pub proof fn lemma_frame_round_trip(payload: Seq<u8>)
    requires
        0 < payload.len() <= u32::MAX,
    ensures
        frame_bytes(payload).len() == payload.len() + 4,
        frame_bytes(payload).take(4) == u32_be(payload.len() as u32),
        spec_decode(frame_bytes(payload)) == Some(payload),
{
    let w = frame_bytes(payload);
    assert(w.take(4) =~= u32_be(payload.len() as u32));
    lemma_u32_be_round_trip(payload.len() as u32);
    assert(w.skip(4) =~= payload);
}

} // verus!
