//! Link protocol layer: sentinel-delimited, CRC-protected, byte-stuffed
//! frames.
//!
//! A frame on the wire is `0x55 | stuffed(payload || crc16_le(payload)) | 0x00`.
//! The sync byte 0x55 announces a transmission, the stuffed body holds no
//! zero byte, and the trailing zero delimits the frame. On receive, bytes up
//! to the next zero form a frame; an optional leading 0x55 is stripped (some
//! devices omit it on reply), the body is unstuffed, and the trailing CRC-16
//! is checked against the payload.

use vstd::prelude::*;
use crate::cobs::{
    cobs_decode,
    cobs_decode_spec,
    cobs_encode,
    cobs_encode_spec,
    lemma_cobs_encode_len,
    lemma_cobs_encode_nonzero,
    lemma_cobs_round_trip,
};
use crate::crc::{compute_crc16, crc16};
use crate::error::Error;

verus! {

/// The sync byte that opens every transmitted frame.
pub open spec fn syn_byte() -> u8 {
    0x55
}

/// The ways a received frame can be rejected.
#[derive(Clone, Copy, Debug, PartialEq, Eq, Structural)]
pub enum LplError {
    /// Fewer than two bytes remain after unstuffing: no room for the CRC.
    ShortFrame,
    /// The body is not a valid stuffed body.
    CobsError,
    /// The transported CRC-16 does not match the payload.
    CrcMismatch,
}

/// A 16-bit little-endian value assembled from two bytes.
pub open spec fn le16(lo: u8, hi: u8) -> u16 {
    (lo as u16) | ((hi as u16) << 8)
}

/// The payload followed by its CRC-16 in little-endian order: what gets
/// stuffed into the frame body.
pub open spec fn lpl_frame_body(p: Seq<u8>) -> Seq<u8> {
    p.push((crc16(p) & 0xFF) as u8).push(((crc16(p) >> 8) & 0xFF) as u8)
}

/// The complete wire form of a payload.
pub open spec fn lpl_encode_spec(p: Seq<u8>) -> Seq<u8> {
    seq![syn_byte()] + cobs_encode_spec(lpl_frame_body(p)) + seq![0u8]
}

/// A delimited frame with an optional leading sync byte removed.
pub open spec fn strip_syn(f: Seq<u8>) -> Seq<u8> {
    if f.len() > 0 && f[0] == syn_byte() {
        f.skip(1)
    } else {
        f
    }
}

/// Decoding of a delimited frame `f` (the bytes before the zero delimiter):
/// strip the optional sync byte, unstuff, split off the trailing CRC-16 and
/// check it.
pub open spec fn lpl_decode_spec(f: Seq<u8>) -> Result<Seq<u8>, LplError> {
    let b = strip_syn(f);
    match cobs_decode_spec(b) {
        Option::None => Err(LplError::CobsError),
        Option::Some(d) => if d.len() < 2 {
            Err(LplError::ShortFrame)
        } else {
            let p = d.take(d.len() - 2);
            if le16(d[d.len() - 2], d[d.len() - 1]) == crc16(p) {
                Ok(p)
            } else {
                Err(LplError::CrcMismatch)
            }
        },
    }
}

/// Encode a payload into its complete wire frame.
///
/// The result starts with the sync byte, ends with the zero delimiter, and
/// holds no other zero byte, so the delimiter is unambiguous.
pub fn encode_frame(payload: &[u8]) -> (out: Vec<u8>)
    requires
        payload@.len() <= 1017,
    ensures
        out@ == lpl_encode_spec(payload@),
        out@.len() >= 3,
        out@.len() <= payload@.len() + 5 + (payload@.len() + 2) / 254,
        out@[0] == syn_byte(),
        out@[out@.len() - 1] == 0u8,
        forall|i: int| 0 <= i < out@.len() - 1 ==> out@[i] != 0,
{
    let crc = compute_crc16(payload);
    let mut body: Vec<u8> = Vec::with_capacity(payload.len() + 2);
    body.extend_from_slice(payload);
    body.push((crc & 0xFF) as u8);
    body.push(((crc >> 8) & 0xFF) as u8);
    proof {
        assert(body@ =~= lpl_frame_body(payload@));
        lemma_cobs_encode_nonzero(body@);
        lemma_cobs_encode_len(body@);
    }
    let stuffed = cobs_encode(body.as_slice());
    let mut out: Vec<u8> = Vec::with_capacity(stuffed.len() + 2);
    out.push(0x55);
    out.extend_from_slice(stuffed.as_slice());
    out.push(0);
    proof {
        assert(out@ =~= lpl_encode_spec(payload@));
        assert forall|i: int| 0 <= i < out@.len() - 1 implies out@[i] != 0 by {
            if i > 0 {
                assert(out@[i] == cobs_encode_spec(body@)[i - 1]);
            }
        }
    }
    out
}

/// Decode a delimited frame (without its zero delimiter) into its payload.
pub fn decode_frame(frame: &[u8]) -> (r: Result<Vec<u8>, LplError>)
    ensures
        match r {
            Ok(p) => lpl_decode_spec(frame@) == Result::<Seq<u8>, LplError>::Ok(p@),
            Err(e) => lpl_decode_spec(frame@) == Result::<Seq<u8>, LplError>::Err(e),
        },
{
    let body: &[u8] = if frame.len() > 0 && frame[0] == 0x55 {
        vstd::slice::slice_subrange(frame, 1, frame.len())
    } else {
        frame
    };
    proof {
        assert(body@ =~= strip_syn(frame@));
    }
    match cobs_decode(body) {
        Option::None => Err(LplError::CobsError),
        Option::Some(mut d) => {
            if d.len() < 2 {
                return Err(LplError::ShortFrame);
            }
            let ghost d0 = d@;
            let hi = d.pop().unwrap();
            let lo = d.pop().unwrap();
            proof {
                assert(d@ =~= d0.take(d0.len() - 2));
                assert(hi == d0[d0.len() - 1]);
                assert(lo == d0[d0.len() - 2]);
            }
            let received = (lo as u16) | ((hi as u16) << 8);
            let computed = compute_crc16(d.as_slice());
            if received == computed {
                Ok(d)
            } else {
                Err(LplError::CrcMismatch)
            }
        },
    }
}

/// Round trip of the link layer: for any payload of at most 1017 bytes, the
/// wire frame ends in its only zero byte, and decoding the delimited frame
/// yields the payload again.
pub proof fn lemma_frame_round_trip(p: Seq<u8>)
    requires
        p.len() <= 1017,
    ensures
        lpl_encode_spec(p).len() >= 3,
        lpl_encode_spec(p)[0] == syn_byte(),
        lpl_encode_spec(p)[lpl_encode_spec(p).len() - 1] == 0u8,
        forall|i: int| 0 <= i < lpl_encode_spec(p).len() - 1 ==> lpl_encode_spec(p)[i] != 0,
        lpl_decode_spec(lpl_encode_spec(p).take(lpl_encode_spec(p).len() - 1)) == Result::<
            Seq<u8>,
            LplError,
        >::Ok(p),
{
    let body = lpl_frame_body(p);
    lemma_cobs_encode_len(body);
    lemma_cobs_encode_nonzero(body);
    lemma_cobs_round_trip(body);
    let e = cobs_encode_spec(body);
    let w = lpl_encode_spec(p);
    assert forall|i: int| 0 <= i < w.len() - 1 implies w[i] != 0 by {
        if i > 0 {
            assert(w[i] == e[i - 1]);
        }
    }
    let f = w.take(w.len() - 1);
    assert(f =~= seq![syn_byte()] + e);
    assert(f.skip(1) =~= e);
    assert(strip_syn(f) == e);
    assert(cobs_decode_spec(e) == Some(body));
    assert(body.len() == p.len() + 2);
    assert(body.take(body.len() - 2) =~= p);
    let c = crc16(p);
    assert(le16((c & 0xFF) as u8, ((c >> 8) & 0xFF) as u8) == c) by (bit_vector);
    assert(body[body.len() - 2] == (c & 0xFF) as u8);
    assert(body[body.len() - 1] == ((c >> 8) & 0xFF) as u8);
}

/// The CRC guard: a well-stuffed frame whose transported CRC-16 disagrees
/// with its payload — as after a corruption of the CRC field, or any
/// corruption that leaves the pair inconsistent — is always rejected as a
/// CRC mismatch, never accepted.
pub proof fn lemma_wrong_crc_rejected(p: Seq<u8>, c: u16)
    requires
        c != crc16(p),
    ensures
        ({
            let body = p.push((c & 0xFF) as u8).push(((c >> 8) & 0xFF) as u8);
            lpl_decode_spec(seq![syn_byte()] + cobs_encode_spec(body)) == Result::<
                Seq<u8>,
                LplError,
            >::Err(LplError::CrcMismatch)
        }),
{
    let body = p.push((c & 0xFF) as u8).push(((c >> 8) & 0xFF) as u8);
    lemma_cobs_encode_len(body);
    lemma_cobs_round_trip(body);
    let e = cobs_encode_spec(body);
    let f = seq![syn_byte()] + e;
    assert(f.skip(1) =~= e);
    assert(strip_syn(f) == e);
    assert(cobs_decode_spec(e) == Some(body));
    assert(body.len() == p.len() + 2);
    assert(body.take(body.len() - 2) =~= p);
    assert(le16((c & 0xFF) as u8, ((c >> 8) & 0xFF) as u8) == c) by (bit_vector);
    assert(body[body.len() - 2] == (c & 0xFF) as u8);
    assert(body[body.len() - 1] == ((c >> 8) & 0xFF) as u8);
}

/// Index of the first zero byte of `s`, or -1 when there is none.
pub open spec fn first_zero(s: Seq<u8>) -> int
    decreases s.len(),
{
    if s.len() == 0 {
        -1
    } else if s[0] == 0 {
        0
    } else {
        let r = first_zero(s.skip(1));
        if r < 0 {
            -1
        } else {
            r + 1
        }
    }
}

/// A zero at `d` behind a zero-free prefix is the first zero.
pub proof fn lemma_first_zero_at(s: Seq<u8>, d: int)
    requires
        0 <= d < s.len(),
        s[d] == 0,
        forall|i: int| 0 <= i < d ==> s[i] != 0,
    ensures
        first_zero(s) == d,
    decreases s.len(),
{
    if d == 0 {
    } else {
        assert(s[0] != 0);
        assert(s.skip(1)[d - 1] == s[d]);
        assert forall|i: int| 0 <= i < d - 1 implies s.skip(1)[i] != 0 by {
            assert(s.skip(1)[i] == s[i + 1]);
        }
        lemma_first_zero_at(s.skip(1), d - 1);
    }
}

/// A sequence without zero bytes has no first zero.
pub proof fn lemma_first_zero_none(s: Seq<u8>)
    requires
        forall|i: int| 0 <= i < s.len() ==> s[i] != 0,
    ensures
        first_zero(s) == -1,
    decreases s.len(),
{
    if s.len() == 0 {
    } else {
        assert forall|i: int| 0 <= i < s.len() - 1 implies s.skip(1)[i] != 0 by {
            assert(s.skip(1)[i] == s[i + 1]);
        }
        lemma_first_zero_none(s.skip(1));
    }
}

/// The receive buffer of the link layer.
///
/// Reads from the transport may end anywhere, so the buffer carries a
/// partial frame across reads; a complete frame is recognised by its zero
/// delimiter.
pub struct LplReceiver {
    buf: Vec<u8>,
}

impl LplReceiver {
    /// The bytes received and not yet consumed, oldest first.
    pub closed spec fn contents(self) -> Seq<u8> {
        self.buf@
    }

    pub fn new() -> (r: LplReceiver)
        ensures
            r.contents() == Seq::<u8>::empty(),
    {
        LplReceiver { buf: Vec::new() }
    }

    /// Append one read's worth of transport bytes.
    pub fn push_bytes(&mut self, chunk: &[u8])
        ensures
            final(self).contents() == old(self).contents() + chunk@,
    {
        self.buf.extend_from_slice(chunk);
    }

    /// Remove and return the next delimited frame, without its delimiter,
    /// when one complete frame is buffered.
    pub fn take_frame(&mut self) -> (r: Option<Vec<u8>>)
        ensures
            match r {
                Some(f) => {
                    &&& first_zero(old(self).contents()) >= 0
                    &&& f@ == old(self).contents().take(first_zero(old(self).contents()))
                    &&& final(self).contents() == old(self).contents().skip(
                        first_zero(old(self).contents()) + 1,
                    )
                },
                None => {
                    &&& first_zero(old(self).contents()) == -1
                    &&& final(self).contents() == old(self).contents()
                },
            },
    {
        let n = self.buf.len();
        let mut d: usize = 0;
        while d < n && self.buf[d] != 0
            invariant
                0 <= d <= n,
                n == self.buf@.len(),
                self == old(self),
                forall|i: int| 0 <= i < d ==> self.buf@[i] != 0,
            decreases n - d,
        {
            d = d + 1;
        }
        if d == n {
            proof {
                lemma_first_zero_none(self.buf@);
            }
            return None;
        }
        proof {
            lemma_first_zero_at(self.buf@, d as int);
        }
        let frame = vstd::slice::slice_to_vec(vstd::slice::slice_subrange(
            self.buf.as_slice(),
            0,
            d,
        ));
        let rest = vstd::slice::slice_to_vec(vstd::slice::slice_subrange(
            self.buf.as_slice(),
            d + 1,
            n,
        ));
        proof {
            assert(frame@ =~= old(self).contents().take(d as int));
            assert(rest@ =~= old(self).contents().skip(d as int + 1));
        }
        self.buf = rest;
        Some(frame)
    }
}

/// A decoded link-layer message as the surrounding stack passes it around:
/// whether the sync byte was present, the raw body, and the transported
/// CRC-16.
#[derive(Debug, Clone, PartialEq, Eq)]
pub struct LplMessage {
    pub syn: bool,
    pub payload: Vec<u8>,
    pub crc: u16,
}

impl LplMessage {
    pub fn new(payload: Vec<u8>, crc: u16) -> (r: LplMessage)
        ensures
            r.syn == false,
            r.payload@ == payload@,
            r.crc == crc,
    {
        LplMessage { syn: false, payload, crc }
    }

    /// Split raw frame bytes into sync flag, body and trailing CRC-16.
    ///
    /// The first byte is consumed as the (possible) sync byte and the last
    /// two as the little-endian CRC; fewer than three bytes leave no body at
    /// all and are rejected.
    pub fn from_bytes(data: &[u8]) -> (r: Result<LplMessage, Error>)
        ensures
            match r {
                Ok(m) => {
                    &&& data@.len() >= 3
                    &&& m.syn == (data@[0] == syn_byte())
                    &&& m.payload@ == data@.subrange(1, data@.len() - 2)
                    &&& m.crc == le16(data@[data@.len() - 2], data@[data@.len() - 1])
                },
                Err(e) => {
                    &&& data@.len() < 3
                    &&& e is Protocol
                },
            },
    {
        if data.len() < 3 {
            return Err(Error::Protocol(String::from_str("message too short")));
        }
        let syn = data[0] == 0x55;
        let payload = vstd::slice::slice_to_vec(vstd::slice::slice_subrange(
            data,
            1,
            data.len() - 2,
        ));
        let lo = data[data.len() - 2];
        let hi = data[data.len() - 1];
        let crc = (lo as u16) | ((hi as u16) << 8);
        Ok(LplMessage { syn, payload, crc })
    }

    /// The raw bytes of the message: optional sync byte, body, CRC-16 in
    /// little-endian order.
    pub fn to_bytes(&self) -> (r: Vec<u8>)
        ensures
            r@ == (if self.syn {
                seq![syn_byte()]
            } else {
                Seq::<u8>::empty()
            }) + self.payload@ + seq![(self.crc & 0xFF) as u8, ((self.crc >> 8) & 0xFF) as u8],
    {
        let mut buf: Vec<u8> = Vec::new();
        if self.syn {
            buf.push(0x55);
        }
        buf.extend_from_slice(self.payload.as_slice());
        buf.push((self.crc & 0xFF) as u8);
        buf.push(((self.crc >> 8) & 0xFF) as u8);
        proof {
            assert(buf@ =~= (if self.syn {
                seq![syn_byte()]
            } else {
                Seq::<u8>::empty()
            }) + self.payload@ + seq![(self.crc & 0xFF) as u8, ((self.crc >> 8) & 0xFF) as u8]);
        }
        buf
    }
}

} // verus!
