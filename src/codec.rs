//! Frames of the IPC protocol: a little-endian `u32` opcode, a little-endian
//! `u32` payload length, then exactly that many bytes of UTF-8 JSON.

use vstd::prelude::*;
use vstd::utf8::*;
use crate::json::{is_json, json_valid};

verus! {

broadcast use {encode_utf8_valid_utf8, encode_utf8_decode_utf8};

/// Tags every frame and decides how its payload is read.
#[derive(Clone, Copy, Debug, PartialEq, Eq, Structural)]
pub enum OpCode {
    Handshake,
    Frame,
    Close,
    Ping,
    Pong,
}

/// The number that stands for an opcode on the wire.
pub open spec fn opcode_number(op: OpCode) -> u32 {
    match op {
        OpCode::Handshake => 0,
        OpCode::Frame => 1,
        OpCode::Close => 2,
        OpCode::Ping => 3,
        OpCode::Pong => 4,
    }
}

/// The opcode that a wire number stands for, if any.
pub open spec fn opcode_of_number(n: u32) -> Option<OpCode> {
    if n == 0 {
        Some(OpCode::Handshake)
    } else if n == 1 {
        Some(OpCode::Frame)
    } else if n == 2 {
        Some(OpCode::Close)
    } else if n == 3 {
        Some(OpCode::Ping)
    } else if n == 4 {
        Some(OpCode::Pong)
    } else {
        None
    }
}

impl OpCode {
    /// The wire number of this opcode.
    pub fn number(self) -> (r: u32)
        ensures
            r == opcode_number(self),
    {
        match self {
            OpCode::Handshake => 0,
            OpCode::Frame => 1,
            OpCode::Close => 2,
            OpCode::Ping => 3,
            OpCode::Pong => 4,
        }
    }

    /// The opcode for a wire number, or `None` for an unknown number.
    pub fn from_number(n: u32) -> (r: Option<OpCode>)
        ensures
            r == opcode_of_number(n),
    {
        if n == 0 {
            Some(OpCode::Handshake)
        } else if n == 1 {
            Some(OpCode::Frame)
        } else if n == 2 {
            Some(OpCode::Close)
        } else if n == 3 {
            Some(OpCode::Ping)
        } else if n == 4 {
            Some(OpCode::Pong)
        } else {
            None
        }
    }
}

/// One protocol message: an opcode and its JSON payload text.
#[derive(Clone, Debug, PartialEq, Eq)]
pub struct Message {
    pub opcode: OpCode,
    pub payload: String,
}

/// Why a byte stream did not yield a message.
#[derive(Clone, Copy, Debug, PartialEq, Eq, Structural)]
pub enum FrameError {
    /// Fewer bytes than one whole frame: nothing is consumed.
    Incomplete,
    /// A whole frame with an unknown opcode, or a payload that is not UTF-8
    /// JSON: the frame, of the given number of bytes, is to be dropped.
    Malformed(usize),
    /// The payload is longer than a `u32` length field can state.
    TooLarge,
}

/// Bytes of the frame header field, least significant first.
pub open spec fn le_bytes(v: u32) -> Seq<u8> {
    seq![(v & 0xff) as u8, ((v >> 8u32) & 0xff) as u8, ((v >> 16u32) & 0xff) as u8, ((v >> 24u32) & 0xff) as u8]
}

/// The `u32` that four little-endian bytes hold.
pub open spec fn le_value(b0: u8, b1: u8, b2: u8, b3: u8) -> u32 {
    (b0 as u32) | ((b1 as u32) << 8u32) | ((b2 as u32) << 16u32) | ((b3 as u32) << 24u32)
}

/// The `u32` at position `at` of a byte sequence.
pub open spec fn le_at(b: Seq<u8>, at: int) -> u32 {
    le_value(b[at], b[at + 1], b[at + 2], b[at + 3])
}

/// The wire form of a message with opcode `op` and payload text `payload`.
pub open spec fn frame_bytes(op: OpCode, payload: Seq<char>) -> Seq<u8> {
    le_bytes(opcode_number(op)) + le_bytes(encode_utf8(payload).len() as u32) + encode_utf8(payload)
}

/// What decoding the front of the byte sequence `b` gives: the opcode, the
/// payload text and the number of bytes that the frame takes.
pub open spec fn decoded(b: Seq<u8>) -> Result<(OpCode, Seq<char>, int), FrameError> {
    if b.len() < 8 {
        Err(FrameError::Incomplete)
    } else {
        let n = le_at(b, 4) as int;
        if b.len() < 8 + n {
            Err(FrameError::Incomplete)
        } else {
            let body = b.subrange(8, 8 + n);
            match opcode_of_number(le_at(b, 0)) {
                None => Err(FrameError::Malformed((8 + n) as usize)),
                Some(op) => if valid_utf8(body) && json_valid(decode_utf8(body)) {
                    Ok((op, decode_utf8(body), 8 + n))
                } else {
                    Err(FrameError::Malformed((8 + n) as usize))
                },
            }
        }
    }
}

proof fn lemma_le_round_trip(v: u32)
    ensures
        le_value(le_bytes(v)[0], le_bytes(v)[1], le_bytes(v)[2], le_bytes(v)[3]) == v,
{
    let b0 = (v & 0xff) as u8;
    let b1 = ((v >> 8u32) & 0xff) as u8;
    let b2 = ((v >> 16u32) & 0xff) as u8;
    let b3 = ((v >> 24u32) & 0xff) as u8;
    assert(le_value(b0, b1, b2, b3) == v) by (bit_vector)
        requires
            b0 == (v & 0xff) as u8,
            b1 == ((v >> 8u32) & 0xff) as u8,
            b2 == ((v >> 16u32) & 0xff) as u8,
            b3 == ((v >> 24u32) & 0xff) as u8,
    ;
}

/// Encoding a message and decoding the bytes gives the same message back,
/// whatever bytes follow the frame in the stream, for every opcode and every
/// JSON payload whose length fits the length field.
pub proof fn lemma_round_trip(op: OpCode, payload: Seq<char>, rest: Seq<u8>)
    requires
        json_valid(payload),
        encode_utf8(payload).len() <= u32::MAX,
    ensures
        decoded(frame_bytes(op, payload) + rest) == Ok::<(OpCode, Seq<char>, int), FrameError>(
            (op, payload, 8 + encode_utf8(payload).len() as int),
        ),
{
    let body = encode_utf8(payload);
    let n = body.len() as u32;
    let b = frame_bytes(op, payload) + rest;
    lemma_le_round_trip(opcode_number(op));
    lemma_le_round_trip(n);
    assert(b.subrange(8, 8 + body.len() as int) =~= body);
    assert(le_at(b, 0) == opcode_number(op));
    assert(le_at(b, 4) == n);
}

impl Message {
    /// A message with the given opcode and payload text.
    pub fn new(opcode: OpCode, payload: String) -> (r: Message)
        ensures
            r.opcode == opcode,
            r.payload@ == payload@,
    {
        Message { opcode, payload }
    }

    /// The wire form of this message; `TooLarge` exactly when the payload
    /// has more UTF-8 bytes than a `u32` can count.
    pub fn encode(&self) -> (r: Result<Vec<u8>, FrameError>)
        ensures
            encode_utf8(self.payload@).len() <= u32::MAX ==> r is Ok && r->Ok_0@ == frame_bytes(
                self.opcode,
                self.payload@,
            ),
            encode_utf8(self.payload@).len() > u32::MAX ==> r == Err::<Vec<u8>, FrameError>(
                FrameError::TooLarge,
            ),
    {
        let body = self.payload.as_str().as_bytes();
        if body.len() > 0xffff_ffffusize {
            return Err(FrameError::TooLarge);
        }
        let n = body.len() as u32;
        let op = self.opcode.number();
        let mut out: Vec<u8> = Vec::new();
        push_le(&mut out, op);
        push_le(&mut out, n);
        let mut i: usize = 0;
        while i < body.len()
            invariant
                0 <= i <= body@.len(),
                out@ == le_bytes(op) + le_bytes(n) + body@.subrange(0, i as int),
            decreases body@.len() - i,
        {
            out.push(body[i]);
            i = i + 1;
            assert(body@.subrange(0, i as int) =~= body@.subrange(0, i - 1) + seq![body@[i - 1]]);
        }
        assert(body@.subrange(0, i as int) =~= body@);
        Ok(out)
    }

    /// Reads one frame from the front of `bytes`. On success, the message and
    /// the number of bytes the frame took; an incomplete frame consumes nothing.
    pub fn decode(bytes: &[u8]) -> (r: Result<(Message, usize), FrameError>)
        ensures
            match r {
                Ok((m, used)) => decoded(bytes@) == Ok::<(OpCode, Seq<char>, int), FrameError>(
                    (m.opcode, m.payload@, used as int),
                ),
                Err(e) => decoded(bytes@) == Err::<(OpCode, Seq<char>, int), FrameError>(e),
            },
    {
        if bytes.len() < 8 {
            return Err(FrameError::Incomplete);
        }
        let code = read_le(bytes, 0);
        let n = read_le(bytes, 4);
        if bytes.len() - 8 < n as usize {
            return Err(FrameError::Incomplete);
        }
        let used: usize = 8 + n as usize;
        let body = vstd::slice::slice_subrange(bytes, 8, used);
        let op = match OpCode::from_number(code) {
            Some(op) => op,
            None => return Err(FrameError::Malformed(used)),
        };
        match utf8_text(body) {
            Some(text) => {
                if is_json(text.as_str()) {
                    Ok((Message { opcode: op, payload: text }, used))
                } else {
                    Err(FrameError::Malformed(used))
                }
            },
            None => Err(FrameError::Malformed(used)),
        }
    }
}

fn push_le(out: &mut Vec<u8>, v: u32)
    ensures
        final(out)@ == old(out)@ + le_bytes(v),
{
    out.push((v & 0xff) as u8);
    out.push(((v >> 8u32) & 0xff) as u8);
    out.push(((v >> 16u32) & 0xff) as u8);
    out.push(((v >> 24u32) & 0xff) as u8);
    assert(final(out)@ =~= old(out)@ + le_bytes(v));
}

fn read_le(b: &[u8], at: usize) -> (r: u32)
    requires
        at + 4 <= b@.len(),
    ensures
        r == le_at(b@, at as int),
{
    (b[at] as u32) | ((b[at + 1] as u32) << 8u32) | ((b[at + 2] as u32) << 16u32) | ((b[at + 3] as u32) << 24u32)
}

/// Relies on `std::str::from_utf8`: it accepts exactly the valid UTF-8 byte
/// sequences, and then yields the characters they encode.
#[verifier::external_body]
fn utf8_text(b: &[u8]) -> (r: Option<String>)
    ensures
        r is Some <==> valid_utf8(b@),
        r is Some ==> r->Some_0@ == decode_utf8(b@),
{
    std::str::from_utf8(b).ok().map(|s| s.to_string())
}

} // verus!
