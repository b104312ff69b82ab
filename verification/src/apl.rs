//! Application protocol layer: block-numbered request/response packets and
//! the per-session bookkeeping.
//!
//! Every packet starts with a header byte whose three high bits carry the
//! packet type and whose five low bits carry a session id, and all multi-byte
//! integers are little-endian. Data, Ack and Error packets carry a 16-bit
//! block number next; a request instead carries block size, timeout,
//! command, offset and length, 14 bytes in all.

use vstd::prelude::*;
use crate::error::Error;

verus! {

/// The six packet types of the application layer.
#[derive(Clone, Copy, Debug, PartialEq, Eq, Structural)]
pub enum AplRequestType {
    Null,
    ReadRequest,
    WriteRequest,
    Data,
    Ack,
    Error,
}

/// The wire code of a packet type, carried in the three high bits of the
/// header byte.
pub open spec fn type_code(t: AplRequestType) -> u8 {
    match t {
        AplRequestType::Null => 0,
        AplRequestType::ReadRequest => 1,
        AplRequestType::WriteRequest => 2,
        AplRequestType::Data => 3,
        AplRequestType::Ack => 4,
        AplRequestType::Error => 5,
    }
}

/// The header byte: three high bits of packet type, five low bits of
/// session id.
pub open spec fn header_byte(t: AplRequestType, id: u8) -> u8 {
    (type_code(t) << 5) | (id & 0x1F)
}

/// A 16-bit value in little-endian byte order.
pub open spec fn le16_bytes(v: u16) -> Seq<u8> {
    seq![(v & 0xFF) as u8, ((v >> 8) & 0xFF) as u8]
}

/// A 32-bit value assembled from four bytes in little-endian order.
pub open spec fn le32(b0: u8, b1: u8, b2: u8, b3: u8) -> u32 {
    (b0 as u32) | ((b1 as u32) << 8) | ((b2 as u32) << 16) | ((b3 as u32) << 24)
}

/// A 32-bit value in little-endian byte order.
pub open spec fn le32_bytes(v: u32) -> Seq<u8> {
    seq![
        (v & 0xFF) as u8,
        ((v >> 8) & 0xFF) as u8,
        ((v >> 16) & 0xFF) as u8,
        ((v >> 24) & 0xFF) as u8,
    ]
}

impl AplRequestType {
    /// The packet type for a wire code; codes above five are rejected as
    /// invalid packets.
    pub fn try_from_u8(value: u8) -> (r: Result<AplRequestType, Error>)
        ensures
            match r {
                Ok(t) => value <= 5 && type_code(t) == value,
                Err(e) => value > 5 && e == Error::InvalidPacket(value),
            },
    {
        match value {
            0u8 => Ok(AplRequestType::Null),
            1u8 => Ok(AplRequestType::ReadRequest),
            2u8 => Ok(AplRequestType::WriteRequest),
            3u8 => Ok(AplRequestType::Data),
            4u8 => Ok(AplRequestType::Ack),
            5u8 => Ok(AplRequestType::Error),
            _ => Err(Error::InvalidPacket(value)),
        }
    }

    /// The wire code of this packet type.
    pub fn code(&self) -> (r: u8)
        ensures
            r == type_code(*self),
    {
        match self {
            AplRequestType::Null => 0,
            AplRequestType::ReadRequest => 1,
            AplRequestType::WriteRequest => 2,
            AplRequestType::Data => 3,
            AplRequestType::Ack => 4,
            AplRequestType::Error => 5,
        }
    }
}

fn push_u16_le(out: &mut Vec<u8>, v: u16)
    ensures
        final(out)@ == old(out)@ + le16_bytes(v),
{
    out.push((v & 0xFF) as u8);
    out.push(((v >> 8) & 0xFF) as u8);
    proof {
        assert(out@ =~= old(out)@ + le16_bytes(v));
    }
}

fn push_u32_le(out: &mut Vec<u8>, v: u32)
    ensures
        final(out)@ == old(out)@ + le32_bytes(v),
{
    out.push((v & 0xFF) as u8);
    out.push(((v >> 8) & 0xFF) as u8);
    out.push(((v >> 16) & 0xFF) as u8);
    out.push(((v >> 24) & 0xFF) as u8);
    proof {
        assert(out@ =~= old(out)@ + le32_bytes(v));
    }
}

fn read_u16_le(lo: u8, hi: u8) -> (r: u16)
    ensures
        r == crate::lpl::le16(lo, hi),
        le16_bytes(r) == seq![lo, hi],
{
    let r = (lo as u16) | ((hi as u16) << 8);
    proof {
        let rr = r;
        assert(rr == (lo as u16) | ((hi as u16) << 8) ==> (rr & 0xFF) as u8 == lo && ((rr >> 8)
            & 0xFF) as u8 == hi) by (bit_vector);
        assert(le16_bytes(r) =~= seq![lo, hi]);
    }
    r
}

/// Whether the serialized packet `p` carries type-code `code` and block
/// number `block` in its header.
pub open spec fn packet_matches(p: Seq<u8>, code: u8, block: u16) -> bool {
    p.len() >= 3 && p[0] >> 5 == code && crate::lpl::le16(p[1], p[2]) == block
}

/// Reassembling the two little-endian bytes of a 16-bit value gives the
/// value back.
pub proof fn lemma_le16_bytes_inverse(v: u16)
    ensures
        crate::lpl::le16(le16_bytes(v)[0], le16_bytes(v)[1]) == v,
{
    assert((((v & 0xFF) as u8) as u16) | (((((v >> 8) & 0xFF) as u8) as u16) << 8) == v)
        by (bit_vector);
}

/// The header byte of an application-layer packet: three high bits of type,
/// five low bits of id.
#[derive(Clone, Copy, Debug, PartialEq, Eq, Structural)]
pub struct AplHeader {
    pub type_id: u8,
}

/// A Data packet: header, block number, then the carried bytes.
#[derive(Debug, Clone, PartialEq, Eq)]
pub struct AplDataPacket {
    pub header: AplHeader,
    pub block_number: u16,
    pub data: Vec<u8>,
}

/// An Ack packet: header and the acknowledged block number.
#[derive(Clone, Copy, Debug, PartialEq, Eq, Structural)]
pub struct AplAckPacket {
    pub header: AplHeader,
    pub block_number: u16,
}

/// An Error packet: header, block number, error code, then the message
/// bytes.
#[derive(Debug, Clone, PartialEq, Eq)]
pub struct AplErrorPacket {
    pub header: AplHeader,
    pub block_number: u16,
    pub error_code: u8,
    pub error_message: Vec<u8>,
}

/// A request packet: header, block size, timeout, command, offset and
/// length — 14 bytes, with no block number.
#[derive(Clone, Copy, Debug, PartialEq, Eq, Structural)]
pub struct AplRequestPacket {
    pub header: AplHeader,
    pub block_size: u16,
    pub timeout: u16,
    pub command: u8,
    pub offset: u32,
    pub length: u32,
}

impl AplDataPacket {
    pub fn to_bytes(&self) -> (r: Vec<u8>)
        ensures
            r@ == seq![self.header.type_id] + le16_bytes(self.block_number) + self.data@,
    {
        let mut buf: Vec<u8> = Vec::new();
        buf.push(self.header.type_id);
        push_u16_le(&mut buf, self.block_number);
        buf.extend_from_slice(self.data.as_slice());
        proof {
            assert(buf@ =~= seq![self.header.type_id] + le16_bytes(self.block_number)
                + self.data@);
        }
        buf
    }

    pub fn from_bytes(bytes: &[u8]) -> (r: Result<AplDataPacket, Error>)
        ensures
            match r {
                Ok(p) => {
                    &&& bytes@.len() >= 3
                    &&& p.header.type_id == bytes@[0]
                    &&& le16_bytes(p.block_number) == seq![bytes@[1], bytes@[2]]
                    &&& p.data@ == bytes@.skip(3)
                },
                Err(e) => bytes@.len() < 3 && e is Protocol,
            },
    {
        if bytes.len() < 3 {
            return Err(Error::Protocol(String::from_str("packet too short")));
        }
        let block_number = read_u16_le(bytes[1], bytes[2]);
        let data = vstd::slice::slice_to_vec(vstd::slice::slice_subrange(bytes, 3, bytes.len()));
        proof {
            assert(data@ =~= bytes@.skip(3));
        }
        Ok(AplDataPacket { header: AplHeader { type_id: bytes[0] }, block_number, data })
    }
}

impl AplAckPacket {
    pub fn to_bytes(&self) -> (r: Vec<u8>)
        ensures
            r@ == seq![self.header.type_id] + le16_bytes(self.block_number),
    {
        let mut buf: Vec<u8> = Vec::new();
        buf.push(self.header.type_id);
        push_u16_le(&mut buf, self.block_number);
        proof {
            assert(buf@ =~= seq![self.header.type_id] + le16_bytes(self.block_number));
        }
        buf
    }

    pub fn from_bytes(bytes: &[u8]) -> (r: Result<AplAckPacket, Error>)
        ensures
            match r {
                Ok(p) => {
                    &&& bytes@.len() >= 3
                    &&& p.header.type_id == bytes@[0]
                    &&& le16_bytes(p.block_number) == seq![bytes@[1], bytes@[2]]
                },
                Err(e) => bytes@.len() < 3 && e is Protocol,
            },
    {
        if bytes.len() < 3 {
            return Err(Error::Protocol(String::from_str("packet too short")));
        }
        let block_number = read_u16_le(bytes[1], bytes[2]);
        Ok(AplAckPacket { header: AplHeader { type_id: bytes[0] }, block_number })
    }
}

impl AplErrorPacket {
    pub fn to_bytes(&self) -> (r: Vec<u8>)
        ensures
            r@ == seq![self.header.type_id] + le16_bytes(self.block_number) + seq![self.error_code]
                + self.error_message@,
    {
        let mut buf: Vec<u8> = Vec::new();
        buf.push(self.header.type_id);
        push_u16_le(&mut buf, self.block_number);
        buf.push(self.error_code);
        buf.extend_from_slice(self.error_message.as_slice());
        proof {
            assert(buf@ =~= seq![self.header.type_id] + le16_bytes(self.block_number)
                + seq![self.error_code] + self.error_message@);
        }
        buf
    }

    pub fn from_bytes(bytes: &[u8]) -> (r: Result<AplErrorPacket, Error>)
        ensures
            match r {
                Ok(p) => {
                    &&& bytes@.len() >= 4
                    &&& p.header.type_id == bytes@[0]
                    &&& le16_bytes(p.block_number) == seq![bytes@[1], bytes@[2]]
                    &&& p.error_code == bytes@[3]
                    &&& p.error_message@ == bytes@.skip(4)
                },
                Err(e) => bytes@.len() < 4 && e is Protocol,
            },
    {
        if bytes.len() < 4 {
            return Err(Error::Protocol(String::from_str("packet too short")));
        }
        let block_number = read_u16_le(bytes[1], bytes[2]);
        let error_message = vstd::slice::slice_to_vec(vstd::slice::slice_subrange(
            bytes,
            4,
            bytes.len(),
        ));
        proof {
            assert(error_message@ =~= bytes@.skip(4));
        }
        Ok(AplErrorPacket {
            header: AplHeader { type_id: bytes[0] },
            block_number,
            error_code: bytes[3],
            error_message,
        })
    }
}

/// The serialized form of a request packet.
pub open spec fn request_packet_bytes(p: AplRequestPacket) -> Seq<u8> {
    seq![p.header.type_id] + le16_bytes(p.block_size) + le16_bytes(p.timeout) + seq![p.command]
        + le32_bytes(p.offset) + le32_bytes(p.length)
}

impl AplRequestPacket {
    pub fn to_bytes(&self) -> (r: Vec<u8>)
        ensures
            r@ == request_packet_bytes(*self),
            r@.len() == 14,
    {
        let mut buf: Vec<u8> = Vec::new();
        buf.push(self.header.type_id);
        push_u16_le(&mut buf, self.block_size);
        push_u16_le(&mut buf, self.timeout);
        buf.push(self.command);
        push_u32_le(&mut buf, self.offset);
        push_u32_le(&mut buf, self.length);
        proof {
            assert(buf@ =~= request_packet_bytes(*self));
        }
        buf
    }

    pub fn from_bytes(bytes: &[u8]) -> (r: Result<AplRequestPacket, Error>)
        ensures
            match r {
                Ok(p) => {
                    &&& bytes@.len() >= 14
                    &&& p.header.type_id == bytes@[0]
                    &&& le16_bytes(p.block_size) == seq![bytes@[1], bytes@[2]]
                    &&& le16_bytes(p.timeout) == seq![bytes@[3], bytes@[4]]
                    &&& p.command == bytes@[5]
                    &&& le32_bytes(p.offset) == seq![bytes@[6], bytes@[7], bytes@[8], bytes@[9]]
                    &&& le32_bytes(p.length) == seq![
                        bytes@[10],
                        bytes@[11],
                        bytes@[12],
                        bytes@[13],
                    ]
                },
                Err(e) => bytes@.len() < 14 && e is Protocol,
            },
    {
        if bytes.len() < 14 {
            return Err(Error::Protocol(String::from_str("packet too short")));
        }
        let block_size = read_u16_le(bytes[1], bytes[2]);
        let timeout = read_u16_le(bytes[3], bytes[4]);
        let offset = read_u32_le(bytes[6], bytes[7], bytes[8], bytes[9]);
        let length = read_u32_le(bytes[10], bytes[11], bytes[12], bytes[13]);
        Ok(AplRequestPacket {
            header: AplHeader { type_id: bytes[0] },
            block_size,
            timeout,
            command: bytes[5],
            offset,
            length,
        })
    }
}

fn read_u32_le(b0: u8, b1: u8, b2: u8, b3: u8) -> (r: u32)
    ensures
        le32_bytes(r) == seq![b0, b1, b2, b3],
{
    let r = (b0 as u32) | ((b1 as u32) << 8) | ((b2 as u32) << 16) | ((b3 as u32) << 24);
    proof {
        let rr = r;
        assert(rr == (b0 as u32) | ((b1 as u32) << 8) | ((b2 as u32) << 16) | ((b3 as u32) << 24)
            ==> (rr & 0xFF) as u8 == b0 && ((rr >> 8) & 0xFF) as u8 == b1 && ((rr >> 16)
            & 0xFF) as u8 == b2 && ((rr >> 24) & 0xFF) as u8 == b3) by (bit_vector);
        assert(le32_bytes(r) =~= seq![b0, b1, b2, b3]);
    }
    r
}

/// A decoded application-layer message: type, block number and the carried
/// bytes.
#[derive(Debug, Clone, PartialEq, Eq)]
pub struct AplMessage {
    pub packet_type: AplRequestType,
    pub block_number: u16,
    pub data: Vec<u8>,
}

/// The serialized form of a message: header byte with session id zero,
/// block number, then the carried bytes.
pub open spec fn message_bytes(m: AplMessage) -> Seq<u8> {
    seq![header_byte(m.packet_type, 0)] + le16_bytes(m.block_number) + m.data@
}

impl AplMessage {
    pub fn new(packet_type: AplRequestType, block_number: u16, data: Vec<u8>) -> (r: AplMessage)
        ensures
            r.packet_type == packet_type,
            r.block_number == block_number,
            r.data == data,
    {
        AplMessage { packet_type, block_number, data }
    }

    /// Parse a message from a decoded frame payload. The packet type sits in
    /// the three high bits of the first byte; types above five are invalid.
    pub fn from_bytes(data: &[u8]) -> (r: Result<AplMessage, Error>)
        ensures
            match r {
                Ok(m) => {
                    &&& data@.len() >= 3
                    &&& type_code(m.packet_type) == data@[0] >> 5
                    &&& le16_bytes(m.block_number) == seq![data@[1], data@[2]]
                    &&& m.data@ == data@.skip(3)
                },
                Err(e) => {
                    &&& data@.len() >= 3 ==> e == Error::InvalidPacket((data@[0] >> 5) as u8)
                        && data@[0] >> 5 > 5
                    &&& data@.len() < 3 ==> e is Protocol
                },
            },
    {
        if data.len() < 3 {
            return Err(Error::Protocol(String::from_str("message too short")));
        }
        let packet_type = match AplRequestType::try_from_u8(data[0] >> 5) {
            Ok(t) => t,
            Err(e) => {
                return Err(e);
            },
        };
        let block_number = read_u16_le(data[1], data[2]);
        let body = vstd::slice::slice_to_vec(vstd::slice::slice_subrange(data, 3, data.len()));
        proof {
            assert(body@ =~= data@.skip(3));
        }
        Ok(AplMessage { packet_type, block_number, data: body })
    }

    /// Serialize the message with session id zero.
    pub fn to_bytes(&self) -> (r: Vec<u8>)
        ensures
            r@ == message_bytes(*self),
    {
        let mut buf: Vec<u8> = Vec::new();
        buf.push(self.packet_type.code() << 5);
        push_u16_le(&mut buf, self.block_number);
        buf.extend_from_slice(self.data.as_slice());
        proof {
            assert(type_code(self.packet_type) <= 5);
            assert(header_byte(self.packet_type, 0) == type_code(self.packet_type) << 5)
                by (bit_vector);
            assert(buf@ =~= message_bytes(*self));
        }
        buf
    }
}

/// What the session does with one incoming message.
#[derive(Debug, Clone, PartialEq, Eq)]
pub enum AplOutcome {
    /// A Data packet with the expected block number: the acknowledgement to
    /// send back and the carried payload for the layer above.
    DataAccepted { ack: AplMessage, payload: Vec<u8> },
    /// An Ack with the expected block number.
    AckAccepted,
    /// A retryable server-side error: the caller re-sends the last request.
    Retry { code: u8, message: Vec<u8> },
}

/// The per-session state: the next expected block number and the retry
/// budget.
#[derive(Clone, Copy, Debug, PartialEq, Eq, Structural)]
pub struct AplStream {
    pub block_number: u16,
    pub retries: usize,
    pub max_retries: usize,
    pub max_reconnects: usize,
}

/// The session state after one successful Data or Ack exchange: the counter
/// advances by exactly one and the retry counter resets.
pub open spec fn apl_on_ack(s: AplStream) -> AplStream {
    AplStream { block_number: (s.block_number + 1) as u16, retries: 0, ..s }
}

/// The session state after `n` successful exchanges.
pub open spec fn apl_after_acks(s: AplStream, n: nat) -> AplStream
    decreases n,
{
    if n == 0 {
        s
    } else {
        apl_on_ack(apl_after_acks(s, (n - 1) as nat))
    }
}

/// After `n` successful exchanges the counter is the starting counter plus
/// `n`, as long as it does not overflow.
pub proof fn lemma_after_acks_count(s: AplStream, n: nat)
    requires
        s.block_number + n <= u16::MAX,
    ensures
        apl_after_acks(s, n).block_number == s.block_number + n,
    decreases n,
{
    if n > 0 {
        lemma_after_acks_count(s, (n - 1) as nat);
    }
}

/// Block-number monotonicity: across `n` successful exchanges the counter
/// observed after each exchange is the previous counter plus one, so after
/// all of them it is the starting counter plus `n`.
pub proof fn lemma_block_number_monotonic(s: AplStream, n: nat)
    requires
        s.block_number + n <= u16::MAX,
    ensures
        apl_after_acks(s, n).block_number == s.block_number + n,
        forall|k: nat|
            k < n ==> (#[trigger] apl_after_acks(s, (k + 1) as nat)).block_number == apl_after_acks(
                s,
                k,
            ).block_number + 1,
{
    lemma_after_acks_count(s, n);
    assert forall|k: nat| k < n implies (#[trigger] apl_after_acks(
        s,
        (k + 1) as nat,
    )).block_number == apl_after_acks(s, k).block_number + 1 by {
        lemma_after_acks_count(s, k);
        lemma_after_acks_count(s, (k + 1) as nat);
    }
}

impl AplStream {
    /// A fresh session: block number zero, no retries used, the fixed
    /// budgets of three retries and three reconnects.
    pub fn new() -> (r: AplStream)
        ensures
            r.block_number == 0,
            r.retries == 0,
            r.max_retries == 3,
            r.max_reconnects == 3,
    {
        AplStream { block_number: 0, retries: 0, max_retries: 3, max_reconnects: 3 }
    }

    /// Serialize a request packet, ready for link-layer framing. Wide
    /// arguments are truncated to their wire width.
    pub fn create_request(
        &mut self,
        request_type: AplRequestType,
        block_size: usize,
        timeout: usize,
        command: u8,
        offset: usize,
        size: usize,
    ) -> (r: Vec<u8>)
        ensures
            *final(self) == *old(self),
            r@ == request_packet_bytes(
                AplRequestPacket {
                    header: AplHeader { type_id: header_byte(request_type, 0) },
                    block_size: block_size as u16,
                    timeout: timeout as u16,
                    command,
                    offset: offset as u32,
                    length: size as u32,
                },
            ),
            r@.len() == 14,
    {
        let packet = AplRequestPacket {
            header: AplHeader { type_id: self.header_for(request_type) },
            block_size: #[verifier::truncate] (block_size as u16),
            timeout: #[verifier::truncate] (timeout as u16),
            command,
            offset: #[verifier::truncate] (offset as u32),
            length: #[verifier::truncate] (size as u32),
        };
        packet.to_bytes()
    }

    fn header_for(&self, t: AplRequestType) -> (r: u8)
        ensures
            r == header_byte(t, 0),
    {
        let r = t.code() << 5;
        proof {
            assert(type_code(t) <= 5);
            assert(header_byte(t, 0) == type_code(t) << 5) by (bit_vector);
        }
        r
    }

    /// Dispatch one incoming message.
    ///
    /// A Data or Ack packet must carry the expected block number; on a match
    /// the counter advances by one and the retry counter resets. A Data
    /// packet additionally yields the acknowledgement to send and the
    /// carried payload. An Error packet consumes one retry, or fails the
    /// session once the budget of `max_retries` is spent. Any other type is
    /// unsupported.
    pub fn process_message(&mut self, msg: AplMessage) -> (r: Result<AplOutcome, Error>)
        requires
            old(self).block_number < u16::MAX,
        ensures
            match r {
                Ok(AplOutcome::DataAccepted { ack, payload }) => {
                    &&& msg.packet_type is Data
                    &&& msg.block_number == old(self).block_number
                    &&& *final(self) == apl_on_ack(*old(self))
                    &&& ack.packet_type is Ack
                    &&& ack.block_number == old(self).block_number
                    &&& ack.data@ == Seq::<u8>::empty()
                    &&& payload == msg.data
                },
                Ok(AplOutcome::AckAccepted) => {
                    &&& msg.packet_type is Ack
                    &&& msg.block_number == old(self).block_number
                    &&& *final(self) == apl_on_ack(*old(self))
                },
                Ok(AplOutcome::Retry { code, message }) => {
                    &&& msg.packet_type is Error
                    &&& old(self).retries < old(self).max_retries
                    &&& *final(self) == AplStream { retries: (old(self).retries + 1) as usize, ..*old(self) }
                    &&& code == (if msg.data@.len() >= 1 {
                        msg.data@[0]
                    } else {
                        0u8
                    })
                    &&& message@ == (if msg.data@.len() >= 1 {
                        msg.data@.skip(1)
                    } else {
                        Seq::<u8>::empty()
                    })
                },
                Err(e) => {
                    &&& *final(self) == *old(self)
                    &&& (msg.packet_type is Data || msg.packet_type is Ack) ==> (e is Protocol
                        && msg.block_number != old(self).block_number)
                    &&& msg.packet_type is Error ==> (e is Protocol && old(self).retries >= old(
                        self,
                    ).max_retries)
                    &&& (msg.packet_type is Null || msg.packet_type is ReadRequest
                        || msg.packet_type is WriteRequest) ==> e is Protocol
                },
            },
    {
        match msg.packet_type {
            AplRequestType::Data => {
                if msg.block_number != self.block_number {
                    return Err(Error::Protocol(String::from_str("invalid block number")));
                }
                let ack = AplMessage {
                    packet_type: AplRequestType::Ack,
                    block_number: self.block_number,
                    data: Vec::new(),
                };
                self.block_number = self.block_number + 1;
                self.retries = 0;
                Ok(AplOutcome::DataAccepted { ack, payload: msg.data })
            },
            AplRequestType::Ack => {
                if msg.block_number != self.block_number {
                    return Err(Error::Protocol(String::from_str("invalid ack block number")));
                }
                self.block_number = self.block_number + 1;
                self.retries = 0;
                Ok(AplOutcome::AckAccepted)
            },
            AplRequestType::Error => {
                if self.retries >= self.max_retries {
                    return Err(Error::Protocol(String::from_str("max retries exceeded")));
                }
                self.retries = self.retries + 1;
                let code: u8 = if msg.data.len() >= 1 {
                    msg.data[0]
                } else {
                    0
                };
                let message: Vec<u8> = if msg.data.len() >= 1 {
                    vstd::slice::slice_to_vec(vstd::slice::slice_subrange(
                        msg.data.as_slice(),
                        1,
                        msg.data.len(),
                    ))
                } else {
                    Vec::new()
                };
                proof {
                    if msg.data@.len() >= 1 {
                        assert(message@ =~= msg.data@.skip(1));
                    } else {
                        assert(message@ =~= Seq::<u8>::empty());
                    }
                }
                Ok(AplOutcome::Retry { code, message })
            },
            _ => Err(Error::Protocol(String::from_str("unsupported message type"))),
        }
    }

    /// A transport timeout on an outstanding request: counted against the
    /// same retry budget as a server-side error.
    pub fn register_timeout(&mut self) -> (r: Result<(), Error>)
        ensures
            match r {
                Ok(()) => {
                    &&& old(self).retries < old(self).max_retries
                    &&& *final(self) == AplStream { retries: (old(self).retries + 1) as usize, ..*old(self) }
                },
                Err(e) => {
                    &&& *final(self) == *old(self)
                    &&& old(self).retries >= old(self).max_retries
                    &&& e == Error::Timeout
                },
            },
    {
        if self.retries >= self.max_retries {
            return Err(Error::Timeout);
        }
        self.retries = self.retries + 1;
        Ok(())
    }
}

} // verus!
