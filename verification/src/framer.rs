//! The message framer: a growable byte buffer fed from the stream's read
//! half, from whose front complete protocol messages are parsed. The buffer
//! itself and the partial decode are the outside crates' work, held to the
//! contracts stated here; the framing decisions around them are verified.

use vstd::prelude::*;
use crate::codec::{encodable, Message, MsgView, wire_bytes};
use crate::types::HSError;

verus! {

#[verifier::external_type_specification]
#[verifier::external_body]
pub struct ExBytesMut(bytes::BytesMut);

/// The bytes a frame buffer currently holds, oldest first.
pub uninterp spec fn buf_bytes(b: bytes::BytesMut) -> Seq<u8>;

/// Relies on `bytes::BytesMut::with_capacity`: a new buffer is empty.
#[verifier::external_body]
fn buffer_with_capacity(capacity: usize) -> (b: bytes::BytesMut)
    ensures
        buf_bytes(b) == Seq::<u8>::empty(),
{
    bytes::BytesMut::with_capacity(capacity)
}

/// Relies on `bytes::BytesMut::extend_from_slice`: appends the chunk at the
/// back of the buffer.
#[verifier::external_body]
fn buffer_extend(b: &mut bytes::BytesMut, chunk: &Vec<u8>)
    ensures
        buf_bytes(*final(b)) == buf_bytes(*old(b)) + chunk@,
{
    b.extend_from_slice(chunk)
}

/// Relies on `bytes::Buf::advance` on `BytesMut`: drops the first `n` bytes.
/// It panics past the remaining length, which the requires leaves out.
#[verifier::external_body]
fn buffer_advance(b: &mut bytes::BytesMut, n: usize)
    requires
        n <= buf_bytes(*old(b)).len(),
    ensures
        buf_bytes(*final(b)) == buf_bytes(*old(b)).skip(n as int),
{
    bytes::Buf::advance(b, n)
}

/// Relies on `bytes::BytesMut::len`.
#[verifier::external_body]
fn buffer_len(b: &bytes::BytesMut) -> (n: usize)
    ensures
        n == buf_bytes(*b).len(),
{
    b.len()
}

/// The length of the complete frame the reference codec parses at the front
/// of these bytes: a function of the bytes alone, fixed by the frame's own
/// header.
pub uninterp spec fn frame_len(s: Seq<u8>) -> int;

/// Relies on `bitcoin::consensus::deserialize_partial::<RawNetworkMessage>`:
/// it parses one complete message from the front of the buffer and reports
/// how many bytes it took, or fails when the buffer cannot yet hold one (any
/// failure is treated as "insufficient data", as more bytes may complete the
/// frame). The count it reports is a function of the buffer's bytes alone,
/// named `frame_len`, and a parsed frame keeps its length under any
/// continuation, since its header states the frame's full length. It parses
/// back, whole, exactly the encoding that `wire_bytes` names for every
/// encodable message (the decoder reads a frame through a 4,000,000-byte
/// bound, which the bound on encodable user-agents stays far below), and it
/// fails on every strict prefix of one.
#[verifier::external_body]
fn decode_from_wire(b: &bytes::BytesMut) -> (r: Option<(Message, usize)>)
    ensures
        r matches Some(p) ==> 0 < p.1 && p.1 <= buf_bytes(*b).len(),
        r matches Some(p) ==> p.1 == frame_len(buf_bytes(*b)),
        r matches Some(p) ==> forall|rest: Seq<u8>| frame_len(#[trigger] (buf_bytes(*b).take(p.1 as int) + rest)) == p.1,
        r is None ==> forall|mv: MsgView, rest: Seq<u8>| encodable(mv) ==> buf_bytes(*b) != #[trigger] (wire_bytes(mv) + rest),
        r matches Some(p) ==> forall|mv: MsgView, rest: Seq<u8>| encodable(mv) && buf_bytes(*b) == #[trigger] (wire_bytes(mv) + rest) ==> p.0@ == mv && p.1 == wire_bytes(mv).len(),
        r is Some ==> forall|mv: MsgView| encodable(mv) && buf_bytes(*b).len() < #[trigger] wire_bytes(mv).len() ==> buf_bytes(*b) != wire_bytes(mv).take(buf_bytes(*b).len() as int),
{
    match bitcoin::consensus::deserialize_partial::<bitcoin::p2p::message::RawNetworkMessage>(b) {
        Ok((raw, n)) => {
            let m = match raw.payload() {
                bitcoin::p2p::message::NetworkMessage::Verack => Message::Verack,
                bitcoin::p2p::message::NetworkMessage::Version(v) => Message::Version {
                    version: v.version, user_agent: v.user_agent.clone(), timestamp: v.timestamp },
                _ => Message::Other { command: raw.cmd().to_string() },
            };
            Some((m, n))
        }
        Err(_) => None,
    }
}

/// How a run of the framer ends when the stream closes.
#[derive(Clone, Copy, PartialEq, Eq, Structural, Debug)]
pub enum FrameEnd {
    /// The stream closed on an empty buffer: no more messages, not an error.
    CleanEof,
    /// The stream closed with a partial frame buffered: the frame can never
    /// be completed.
    ResetMidFrame,
}

/// The byte buffer the framer owns. Bytes are appended as the stream hands
/// them over and consumed from the front once a complete message parsed.
pub struct FrameBuffer {
    buf: bytes::BytesMut,
}

impl FrameBuffer {
    /// The bytes buffered and not yet consumed, oldest first.
    pub closed spec fn bytes(&self) -> Seq<u8> {
        buf_bytes(self.buf)
    }

    pub fn new() -> (fb: FrameBuffer)
        ensures
            fb.bytes() == Seq::<u8>::empty(),
    {
        // A complete handshake is a few hundred bytes: one generous
        // allocation avoids churn, without bearing on correctness.
        FrameBuffer { buf: buffer_with_capacity(1024) }
    }

    pub fn len(&self) -> (n: usize)
        ensures
            n == self.bytes().len(),
    {
        buffer_len(&self.buf)
    }

    pub fn is_empty(&self) -> (b: bool)
        ensures
            b == (self.bytes().len() == 0),
    {
        buffer_len(&self.buf) == 0
    }

    /// Append one chunk the stream handed over.
    pub fn push_bytes(&mut self, chunk: &Vec<u8>)
        ensures
            final(self).bytes() == old(self).bytes() + chunk@,
    {
        buffer_extend(&mut self.buf, chunk);
    }

    /// Try to parse one complete message from the front of the buffer and
    /// consume its bytes. Whatever parses, exactly the frame at the front is
    /// consumed (`frame_len` many bytes) and what follows it stays untouched,
    /// so a stream is never thrown out of step by a frame outside the
    /// handshake. On a buffer that holds the encoding of a handshake message,
    /// possibly followed by more bytes, that message comes back; on a strict
    /// prefix of one, nothing comes back and nothing is consumed.
    pub fn try_next(&mut self) -> (r: Option<Message>)
        ensures
            r is None ==> final(self).bytes() == old(self).bytes(),
            r is Some ==> 0 < frame_len(old(self).bytes()),
            r is Some ==> frame_len(old(self).bytes()) <= old(self).bytes().len(),
            r is Some ==> final(self).bytes()
                == old(self).bytes().skip(frame_len(old(self).bytes())),
            forall|mv: MsgView, rest: Seq<u8>|
                encodable(mv) && old(self).bytes() == #[trigger] (wire_bytes(mv) + rest)
                    ==> (r matches Some(m) && m@ == mv && final(self).bytes() == rest),
            forall|mv: MsgView|
                encodable(mv) && old(self).bytes().len() < #[trigger] wire_bytes(mv).len()
                    && old(self).bytes() == wire_bytes(mv).take(old(self).bytes().len() as int)
                    ==> r is None,
    {
        let ghost pre = self.bytes();
        match decode_from_wire(&self.buf) {
            Some((m, n)) => {
                buffer_advance(&mut self.buf, n);
                proof {
                    assert forall|mv: MsgView, rest: Seq<u8>|
                        encodable(mv) && pre == #[trigger] (wire_bytes(mv) + rest)
                            implies m@ == mv && self.bytes() == rest by {
                        assert((wire_bytes(mv) + rest).skip(wire_bytes(mv).len() as int) =~= rest);
                    }
                    assert(0 < n as int <= pre.len() && self.bytes() == pre.skip(n as int));
                }
                Some(m)
            }
            None => None,
        }
    }

    /// The framer's verdict when a read returns zero bytes: the stream is
    /// done. A buffered partial frame then can never be completed.
    pub fn end_kind(&self) -> (r: FrameEnd)
        ensures
            r is CleanEof <==> self.bytes().len() == 0,
    {
        if buffer_len(&self.buf) == 0 {
            FrameEnd::CleanEof
        } else {
            FrameEnd::ResetMidFrame
        }
    }
}

/// Round-trip law: a handshake message encoded to its wire bytes and fed to a
/// fresh framer is decoded back equal, with no byte of the buffer left over.
pub fn wire_round_trip(m: &Message) -> (r: (Option<Message>, usize))
    requires
        encodable(m@),
    ensures
        r.0 matches Some(back) && back@ == m@,
        r.1 == 0,
{
    let bytes = crate::codec::encode_message(m);
    let mut fb = FrameBuffer::new();
    fb.push_bytes(&bytes);
    proof {
        assert(fb.bytes() =~= wire_bytes(m@) + Seq::<u8>::empty());
    }
    let back = fb.try_next();
    (back, fb.len())
}

/// Partial-frame law: feeding a fresh framer only the first half of a
/// handshake message's wire bytes yields nothing, and nothing is consumed;
/// appending the remaining bytes then yields the message whole, with the
/// buffer fully consumed.
pub fn feed_in_halves(m: &Message) -> (r: (Option<Message>, Option<Message>, usize))
    requires
        encodable(m@),
    ensures
        r.0 is None,
        r.1 matches Some(back) && back@ == m@,
        r.2 == 0,
{
    let bytes = crate::codec::encode_message(m);
    let half = bytes.len() / 2;
    let mut front: Vec<u8> = Vec::new();
    let mut i: usize = 0;
    while i < half
        invariant
            i <= half <= bytes@.len(),
            front@ == bytes@.take(i as int),
        decreases half - i,
    {
        front.push(bytes[i]);
        i = i + 1;
        proof {
            assert(front@ =~= bytes@.take(i as int));
        }
    }
    let mut tail: Vec<u8> = Vec::new();
    let mut j: usize = half;
    while j < bytes.len()
        invariant
            half <= j <= bytes@.len(),
            tail@ == bytes@.subrange(half as int, j as int),
        decreases bytes@.len() - j,
    {
        tail.push(bytes[j]);
        j = j + 1;
        proof {
            assert(tail@ =~= bytes@.subrange(half as int, j as int));
        }
    }
    let mut fb = FrameBuffer::new();
    fb.push_bytes(&front);
    proof {
        assert(fb.bytes() =~= wire_bytes(m@).take(half as int));
    }
    let first = fb.try_next();
    fb.push_bytes(&tail);
    proof {
        assert(fb.bytes() =~= wire_bytes(m@) + Seq::<u8>::empty());
    }
    let second = fb.try_next();
    (first, second, fb.len())
}

/// What a closed stream means for the reading pipeline's outcome: a clean end
/// of stream is no error; a frame cut short is the connection-reset failure.
pub fn end_outcome(end: FrameEnd) -> (r: Result<(), HSError>)
    ensures
        end is CleanEof ==> r is Ok,
        end is ResetMidFrame ==> (r matches Err(e) && e@ == "connection reset by peer"@),
{
    match end {
        FrameEnd::CleanEof => Ok(()),
        FrameEnd::ResetMidFrame => Err(HSError::connection_reset()),
    }
}

} // verus!
