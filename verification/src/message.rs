//! Wire framing of requests and responses.
//!
//! A frame is a fixed header of twelve bytes followed by the payload. The
//! header holds the 64-bit request identifier and a 32-bit word (the opcode of
//! a request, the status of a response), both little-endian and packed without
//! padding. The payload has no length prefix of its own: it is whatever
//! follows the header.

use crate::error::Error;
use vstd::prelude::*;
use vstd::slice::slice_subrange;

verus! {

/// Number of bytes of a request header on the wire.
pub const REQ_HEADER_SIZE: usize = 12;

/// Number of bytes of a response header on the wire.
pub const RESP_HEADER_SIZE: usize = 12;

/// The eight bytes of `x`, least significant first.
pub open spec fn spec_u64_le(x: u64) -> Seq<u8> {
    seq![
        (x & 0xff) as u8,
        ((x >> 8) & 0xff) as u8,
        ((x >> 16) & 0xff) as u8,
        ((x >> 24) & 0xff) as u8,
        ((x >> 32) & 0xff) as u8,
        ((x >> 40) & 0xff) as u8,
        ((x >> 48) & 0xff) as u8,
        ((x >> 56) & 0xff) as u8,
    ]
}

/// The four bytes of `x`, least significant first.
pub open spec fn spec_u32_le(x: u32) -> Seq<u8> {
    seq![
        (x & 0xff) as u8,
        ((x >> 8) & 0xff) as u8,
        ((x >> 16) & 0xff) as u8,
        ((x >> 24) & 0xff) as u8,
    ]
}

/// The number whose little-endian form is the first eight bytes of `s`.
pub open spec fn spec_u64_from_le(s: Seq<u8>) -> u64
    recommends
        s.len() >= 8,
{
    (s[0] as u64) | (s[1] as u64) << 8 | (s[2] as u64) << 16 | (s[3] as u64) << 24
        | (s[4] as u64) << 32 | (s[5] as u64) << 40 | (s[6] as u64) << 48 | (s[7] as u64) << 56
}

/// The number whose little-endian form is the first four bytes of `s`.
pub open spec fn spec_u32_from_le(s: Seq<u8>) -> u32
    recommends
        s.len() >= 4,
{
    (s[0] as u32) | (s[1] as u32) << 8 | (s[2] as u32) << 16 | (s[3] as u32) << 24
}

/// The little-endian bytes of a 64-bit number are its digits to the base
/// 256, the lowest first.
pub proof fn lemma_u64_le_digits(x: u64)
    ensures
        spec_u64_le(x).len() == 8,
        spec_u64_le(x)[0] == x % 0x100,
        spec_u64_le(x)[1] == (x / 0x100) % 0x100,
        spec_u64_le(x)[2] == (x / 0x1_0000) % 0x100,
        spec_u64_le(x)[3] == (x / 0x100_0000) % 0x100,
        spec_u64_le(x)[4] == (x / 0x1_0000_0000) % 0x100,
        spec_u64_le(x)[5] == (x / 0x100_0000_0000) % 0x100,
        spec_u64_le(x)[6] == (x / 0x1_0000_0000_0000) % 0x100,
        spec_u64_le(x)[7] == (x / 0x100_0000_0000_0000) % 0x100,
{
    assert((x & 0xff) as u8 == x % 0x100 && ((x >> 8) & 0xff) as u8 == (x / 0x100) % 0x100 && ((x
        >> 16) & 0xff) as u8 == (x / 0x1_0000) % 0x100 && ((x >> 24) & 0xff) as u8 == (x
        / 0x100_0000) % 0x100 && ((x >> 32) & 0xff) as u8 == (x / 0x1_0000_0000) % 0x100 && ((x
        >> 40) & 0xff) as u8 == (x / 0x100_0000_0000) % 0x100 && ((x >> 48) & 0xff) as u8 == (x
        / 0x1_0000_0000_0000) % 0x100 && ((x >> 56) & 0xff) as u8 == (x / 0x100_0000_0000_0000)
        % 0x100) by (bit_vector);
}

/// The little-endian bytes of a 32-bit number are its digits to the base
/// 256, the lowest first.
pub proof fn lemma_u32_le_digits(x: u32)
    ensures
        spec_u32_le(x).len() == 4,
        spec_u32_le(x)[0] == x % 0x100,
        spec_u32_le(x)[1] == (x / 0x100) % 0x100,
        spec_u32_le(x)[2] == (x / 0x1_0000) % 0x100,
        spec_u32_le(x)[3] == (x / 0x100_0000) % 0x100,
{
    assert((x & 0xff) as u8 == x % 0x100 && ((x >> 8) & 0xff) as u8 == (x / 0x100) % 0x100 && ((x
        >> 16) & 0xff) as u8 == (x / 0x1_0000) % 0x100 && ((x >> 24) & 0xff) as u8 == (x
        / 0x100_0000) % 0x100) by (bit_vector);
}

/// Reading back the little-endian bytes of a 64-bit number gives the number.
pub proof fn lemma_u64_le_round_trip(x: u64)
    ensures
        spec_u64_le(x).len() == 8,
        spec_u64_from_le(spec_u64_le(x)) == x,
{
    assert(((x & 0xff) as u8 as u64) | (((x >> 8) & 0xff) as u8 as u64) << 8 | (((x >> 16)
        & 0xff) as u8 as u64) << 16 | (((x >> 24) & 0xff) as u8 as u64) << 24 | (((x >> 32)
        & 0xff) as u8 as u64) << 32 | (((x >> 40) & 0xff) as u8 as u64) << 40 | (((x >> 48)
        & 0xff) as u8 as u64) << 48 | (((x >> 56) & 0xff) as u8 as u64) << 56 == x)
        by (bit_vector);
}

/// Reading back the little-endian bytes of a 32-bit number gives the number.
pub proof fn lemma_u32_le_round_trip(x: u32)
    ensures
        spec_u32_le(x).len() == 4,
        spec_u32_from_le(spec_u32_le(x)) == x,
{
    assert(((x & 0xff) as u8 as u32) | (((x >> 8) & 0xff) as u8 as u32) << 8 | (((x >> 16)
        & 0xff) as u8 as u32) << 16 | (((x >> 24) & 0xff) as u8 as u32) << 24 == x)
        by (bit_vector);
}

/// Eight bytes are the little-endian form of the number they spell.
pub proof fn lemma_u64_le_bytes_round_trip(s: Seq<u8>)
    requires
        s.len() == 8,
    ensures
        spec_u64_le(spec_u64_from_le(s)) == s,
{
    let (b0, b1, b2, b3, b4, b5, b6, b7) = (s[0], s[1], s[2], s[3], s[4], s[5], s[6], s[7]);
    let x = spec_u64_from_le(s);
    assert(x == (b0 as u64) | (b1 as u64) << 8 | (b2 as u64) << 16 | (b3 as u64) << 24 | (b4 as u64)
        << 32 | (b5 as u64) << 40 | (b6 as u64) << 48 | (b7 as u64) << 56);
    assert((x & 0xff) as u8 == b0 && ((x >> 8) & 0xff) as u8 == b1 && ((x >> 16) & 0xff) as u8
        == b2 && ((x >> 24) & 0xff) as u8 == b3 && ((x >> 32) & 0xff) as u8 == b4 && ((x >> 40)
        & 0xff) as u8 == b5 && ((x >> 48) & 0xff) as u8 == b6 && ((x >> 56) & 0xff) as u8 == b7)
        by (bit_vector)
        requires
            x == (b0 as u64) | (b1 as u64) << 8 | (b2 as u64) << 16 | (b3 as u64) << 24 | (
            b4 as u64) << 32 | (b5 as u64) << 40 | (b6 as u64) << 48 | (b7 as u64) << 56,
    ;
    assert(spec_u64_le(x) =~= s);
}

/// Four bytes are the little-endian form of the number they spell.
pub proof fn lemma_u32_le_bytes_round_trip(s: Seq<u8>)
    requires
        s.len() == 4,
    ensures
        spec_u32_le(spec_u32_from_le(s)) == s,
{
    let (b0, b1, b2, b3) = (s[0], s[1], s[2], s[3]);
    let x = spec_u32_from_le(s);
    assert(x == (b0 as u32) | (b1 as u32) << 8 | (b2 as u32) << 16 | (b3 as u32) << 24);
    assert((x & 0xff) as u8 == b0 && ((x >> 8) & 0xff) as u8 == b1 && ((x >> 16) & 0xff) as u8
        == b2 && ((x >> 24) & 0xff) as u8 == b3) by (bit_vector)
        requires
            x == (b0 as u32) | (b1 as u32) << 8 | (b2 as u32) << 16 | (b3 as u32) << 24,
    ;
    assert(spec_u32_le(x) =~= s);
}

/// Header of a request frame.
#[derive(Clone, Copy, Debug, PartialEq, Eq, Structural)]
pub struct ReqHeader {
    /// Identifier that the response will carry back.
    pub id: u64,
    /// Opcode of the operation that is asked for.
    pub op: u32,
}

/// Header of a response frame.
#[derive(Clone, Copy, Debug, PartialEq, Eq, Structural)]
pub struct RespHeader {
    /// Identifier of the request that is answered.
    pub id: u64,
    /// Status of the response.
    pub status: u32,
}

/// The bytes of a frame: identifier, then opcode or status, then payload.
pub open spec fn spec_frame(id: u64, word: u32, payload: Seq<u8>) -> Seq<u8> {
    spec_u64_le(id) + spec_u32_le(word) + payload
}

/// Appends the eight bytes of `x`, least significant first.
fn push_u64_le(buffer: &mut Vec<u8>, x: u64)
    ensures
        final(buffer)@ == old(buffer)@ + spec_u64_le(x),
{
    let b0 = (x & 0xff) as u8;
    let b1 = ((x >> 8) & 0xff) as u8;
    let b2 = ((x >> 16) & 0xff) as u8;
    let b3 = ((x >> 24) & 0xff) as u8;
    let b4 = ((x >> 32) & 0xff) as u8;
    let b5 = ((x >> 40) & 0xff) as u8;
    let b6 = ((x >> 48) & 0xff) as u8;
    let b7 = ((x >> 56) & 0xff) as u8;
    buffer.push(b0);
    buffer.push(b1);
    buffer.push(b2);
    buffer.push(b3);
    buffer.push(b4);
    buffer.push(b5);
    buffer.push(b6);
    buffer.push(b7);
    assert(buffer@ =~= old(buffer)@ + spec_u64_le(x));
}

/// Appends the four bytes of `x`, least significant first.
fn push_u32_le(buffer: &mut Vec<u8>, x: u32)
    ensures
        final(buffer)@ == old(buffer)@ + spec_u32_le(x),
{
    let b0 = (x & 0xff) as u8;
    let b1 = ((x >> 8) & 0xff) as u8;
    let b2 = ((x >> 16) & 0xff) as u8;
    let b3 = ((x >> 24) & 0xff) as u8;
    buffer.push(b0);
    buffer.push(b1);
    buffer.push(b2);
    buffer.push(b3);
    assert(buffer@ =~= old(buffer)@ + spec_u32_le(x));
}

/// Reads a 64-bit number from the first eight bytes of `src`.
fn read_u64_le(src: &[u8]) -> (x: u64)
    requires
        src@.len() >= 8,
    ensures
        x == spec_u64_from_le(src@),
{
    (src[0] as u64) | (src[1] as u64) << 8 | (src[2] as u64) << 16 | (src[3] as u64) << 24 | (
    src[4] as u64) << 32 | (src[5] as u64) << 40 | (src[6] as u64) << 48 | (src[7] as u64) << 56
}

/// Reads a 32-bit number from the first four bytes of `src`.
fn read_u32_le(src: &[u8]) -> (x: u32)
    requires
        src@.len() >= 4,
    ensures
        x == spec_u32_from_le(src@),
{
    (src[0] as u32) | (src[1] as u32) << 8 | (src[2] as u32) << 16 | (src[3] as u32) << 24
}

/// The payload of an outgoing request, tagged by the kind of exchange.
pub enum Message<'data> {
    /// A request that expects a response.
    Request(&'data [u8]),
    /// A notification that expects none.
    Post(&'data [u8]),
}

impl<'data> Message<'data> {
    /// The payload bytes, whatever the tag.
    pub open spec fn spec_data(&self) -> &'data [u8] {
        match self {
            Message::Request(data) => data,
            Message::Post(data) => data,
        }
    }

    /// The payload bytes, whatever the tag.
    pub fn data(&self) -> (data: &'data [u8])
        ensures
            data == self.spec_data(),
    {
        match self {
            Message::Request(data) => data,
            Message::Post(data) => data,
        }
    }
}

/// Encodes a request frame: the header followed by the payload, verbatim.
pub fn to_ws_msg(msg: (ReqHeader, Message<'_>)) -> (frame: Vec<u8>)
    ensures
        frame@ == spec_frame(msg.0.id, msg.0.op, msg.1.spec_data()@),
{
    let (header, message) = msg;
    let data = message.data();
    let mut buffer: Vec<u8> = Vec::new();
    push_u64_le(&mut buffer, header.id);
    push_u32_le(&mut buffer, header.op);
    buffer.extend_from_slice(data);
    assert(buffer@ =~= spec_frame(header.id, header.op, data@));
    buffer
}

/// What a frame decodes to: the identifier, the opcode or status, and the
/// payload. A frame shorter than a header decodes to nothing.
pub open spec fn spec_decode(frame: Seq<u8>) -> Option<(u64, u32, Seq<u8>)> {
    if frame.len() < 12 {
        None
    } else {
        Some(
            (
                spec_u64_from_le(frame.subrange(0, 8)),
                spec_u32_from_le(frame.subrange(8, 12)),
                frame.subrange(12, frame.len() as int),
            ),
        )
    }
}

/// A request frame taken apart. The payload borrows from the frame.
#[derive(Debug)]
pub struct ReqMessage<'data> {
    /// Identifier that the response must carry back.
    pub id: u64,
    /// Opcode of the operation that is asked for.
    pub op: u32,
    /// Payload: everything after the header.
    pub data: &'data [u8],
}

impl<'data> ReqMessage<'data> {
    /// Whether this message is what `frame` decodes to.
    pub open spec fn decodes(&self, frame: Seq<u8>) -> bool {
        spec_decode(frame) == Some((self.id, self.op, self.data@))
    }

    /// Decodes a request frame. The only failure is a frame shorter than the
    /// header, which gives [`Error::FrameTooSmall`].
    pub fn try_from(src: &'data [u8]) -> (ret: Result<Self, Error>)
        ensures
            match ret {
                Ok(message) => message.decodes(src@),
                Err(e) => e == Error::FrameTooSmall && src@.len() < REQ_HEADER_SIZE,
            },
    {
        if src.len() < REQ_HEADER_SIZE {
            return Err(Error::FrameTooSmall);
        }
        let id = read_u64_le(slice_subrange(src, 0, 8));
        let op = read_u32_le(slice_subrange(src, 8, 12));
        let data = slice_subrange(src, REQ_HEADER_SIZE, src.len());
        Ok(ReqMessage { id, op, data })
    }
}

/// A response frame taken apart, or the parts of one to be encoded. The
/// payload borrows from its source.
#[derive(Debug)]
pub struct RespMessage<'data> {
    /// Identifier of the request that is answered.
    pub id: u64,
    /// Status of the response.
    pub status: u32,
    /// Payload: everything after the header.
    pub data: &'data [u8],
}

impl<'data> RespMessage<'data> {
    /// Whether this message is what `frame` decodes to.
    pub open spec fn decodes(&self, frame: Seq<u8>) -> bool {
        spec_decode(frame) == Some((self.id, self.status, self.data@))
    }

    /// A response with the given parts.
    pub fn new(id: u64, status: u32, data: &'data [u8]) -> (message: RespMessage<'data>)
        ensures
            message.id == id,
            message.status == status,
            message.data == data,
    {
        RespMessage { id, status, data }
    }

    /// Encodes the response frame: the header followed by the payload,
    /// verbatim. Encoding never fails.
    pub fn try_to_vec(&self) -> (ret: Result<Vec<u8>, Error>)
        ensures
            ret is Ok,
            ret->Ok_0@ == spec_frame(self.id, self.status, self.data@),
    {
        let mut buffer: Vec<u8> = Vec::new();
        push_u64_le(&mut buffer, self.id);
        push_u32_le(&mut buffer, self.status);
        buffer.extend_from_slice(self.data);
        assert(buffer@ =~= spec_frame(self.id, self.status, self.data@));
        Ok(buffer)
    }

    /// Decodes a response frame. The only failure is a frame shorter than the
    /// header, which gives [`Error::FrameTooSmall`].
    pub fn try_from(src: &'data [u8]) -> (ret: Result<Self, Error>)
        ensures
            match ret {
                Ok(message) => message.decodes(src@),
                Err(e) => e == Error::FrameTooSmall && src@.len() < RESP_HEADER_SIZE,
            },
    {
        if src.len() < RESP_HEADER_SIZE {
            return Err(Error::FrameTooSmall);
        }
        let id = read_u64_le(slice_subrange(src, 0, 8));
        let status = read_u32_le(slice_subrange(src, 8, 12));
        let data = slice_subrange(src, RESP_HEADER_SIZE, src.len());
        Ok(RespMessage { id, status, data })
    }
}

/// A frame is never shorter than a header, and its length is that of the
/// header plus that of the payload.
pub proof fn lemma_frame_len(id: u64, word: u32, payload: Seq<u8>)
    ensures
        spec_frame(id, word, payload).len() == 12 + payload.len(),
{
}

/// Decoding an encoded frame gives back the identifier, the opcode or status
/// and the payload, for every payload, the empty one included.
pub proof fn lemma_decode_encode(id: u64, word: u32, payload: Seq<u8>)
    ensures
        spec_decode(spec_frame(id, word, payload)) == Some((id, word, payload)),
{
    let frame = spec_frame(id, word, payload);
    lemma_u64_le_round_trip(id);
    lemma_u32_le_round_trip(word);
    assert(frame.subrange(0, 8) =~= spec_u64_le(id));
    assert(frame.subrange(8, 12) =~= spec_u32_le(word));
    assert(frame.subrange(12, frame.len() as int) =~= payload);
}

/// Encoding what a frame decodes to gives back the frame: no two frames
/// decode to the same parts.
pub proof fn lemma_encode_decode(frame: Seq<u8>)
    requires
        frame.len() >= 12,
    ensures
        spec_decode(frame) matches Some((id, word, payload)) && spec_frame(id, word, payload)
            == frame,
{
    lemma_u64_le_bytes_round_trip(frame.subrange(0, 8));
    lemma_u32_le_bytes_round_trip(frame.subrange(8, 12));
    let (id, word, payload) = spec_decode(frame)->Some_0;
    assert(spec_frame(id, word, payload) =~= frame);
}

} // verus!
