//! Length-prefixed framing for a byte stream that keeps no message boundaries.
//!
//! A frame is the length of an encoded message in four bytes, most
//! significant first, followed by that many bytes. A stream is a run of
//! frames. A reader takes the length first and then exactly that many bytes;
//! where the stream ends inside a frame it reports the stream as closed and
//! hands out nothing of that frame.

use crate::message::{MessageView, ProtocolMessage};
use crate::protocol::{
    decode_message, deserialize_message, lemma_decode_of_encoding, message_encoding,
};
use crate::wire::{
    be_bytes, be_value, holds_at, lemma_be_bytes_of_value, lemma_be_value_of_bytes,
    lemma_holds_at_split, lemma_u32_has_four_digits, read_digits_be, write_digits_be, write_raw,
    WireError,
};
use vstd::prelude::*;

verus! {

/// The number of bytes of a frame's length prefix.
pub const FRAME_HEADER_LEN: usize = 4;

/// True if a payload is short enough for its length to be written in four bytes.
pub open spec fn framable(payload: Seq<u8>) -> bool {
    payload.len() <= u32::MAX
}

/// A payload behind its length.
pub open spec fn frame_encoding(payload: Seq<u8>) -> Seq<u8> {
    be_bytes(payload.len() as int, 4) + payload
}

/// The payload length that a four-byte header announces.
pub open spec fn header_length(header: Seq<u8>) -> int {
    be_value(header)
}

/// The payload of the frame that stands at `pos` and the position behind the
/// frame, or nothing where the bytes end before the frame does.
pub open spec fn parse_frame(s: Seq<u8>, pos: int) -> Option<(Seq<u8>, int)> {
    if pos + 4 > s.len() {
        None
    } else {
        let len = header_length(s.subrange(pos, pos + 4));
        if pos + 4 + len > s.len() {
            None
        } else {
            Some((s.subrange(pos + 4, pos + 4 + len), pos + 4 + len))
        }
    }
}

/// How the reading of a stream ended.
#[derive(Debug, Clone, Copy, PartialEq, Eq, Structural)]
pub enum StreamEnd {
    /// The stream ended between two frames.
    Clean,
    /// The stream ended inside a frame.
    Closed,
    /// A frame was complete but did not hold a message.
    Malformed(WireError),
}

/// True if a message can be sent in one frame. Every message whose encoding
/// is no longer than `u32::MAX` bytes can.
pub open spec fn sendable(m: MessageView) -> bool {
    m.encodable() && framable(message_encoding(m))
}

/// The frame that carries a message.
pub open spec fn message_frame(m: MessageView) -> Seq<u8> {
    frame_encoding(message_encoding(m))
}

/// The frames of a run of messages, one behind the other.
pub open spec fn stream_encoding(msgs: Seq<MessageView>) -> Seq<u8>
    decreases msgs.len(),
{
    if msgs.len() == 0 {
        Seq::empty()
    } else {
        message_frame(msgs[0]) + stream_encoding(msgs.drop_first())
    }
}

/// The messages that a receiver gets out of the bytes from `pos` on, in
/// order, and how its reading ends. (A frame is at least four bytes long, so
/// the position behind a frame is always behind the position of the frame;
/// the test for it only shows that the reading comes to an end.)
pub open spec fn parse_stream(s: Seq<u8>, pos: int) -> (Seq<MessageView>, StreamEnd)
    decreases s.len() - pos,
{
    if pos >= s.len() || pos < 0 {
        (Seq::empty(), StreamEnd::Clean)
    } else {
        match parse_frame(s, pos) {
            None => (Seq::empty(), StreamEnd::Closed),
            Some((payload, next)) => match decode_message(payload) {
                Err(e) => (Seq::empty(), StreamEnd::Malformed(e)),
                Ok(m) => if next > pos {
                    let rest = parse_stream(s, next);
                    (seq![m] + rest.0, rest.1)
                } else {
                    (seq![m], StreamEnd::Clean)
                },
            },
        }
    }
}

/// The length that a header announces fits a `u32`.
proof fn lemma_header_length_bounds(header: Seq<u8>)
    requires
        header.len() == 4,
    ensures
        0 <= header_length(header) <= u32::MAX,
{
    lemma_be_bytes_of_value(header);
    reveal_with_fuel(crate::wire::drop_digits, 5);
}

/// A frame is four bytes longer than its payload.
proof fn lemma_frame_encoding_len(payload: Seq<u8>)
    ensures
        frame_encoding(payload).len() == 4 + payload.len(),
        be_bytes(payload.len() as int, 4).len() == 4,
{
    crate::wire::lemma_le_bytes_len(payload.len() as int, 4);
}

/// Where a frame stands, the reader finds its payload and stops behind it.
proof fn lemma_parse_frame_of_encoding(s: Seq<u8>, pos: int, payload: Seq<u8>)
    requires
        framable(payload),
        holds_at(s, pos, frame_encoding(payload)),
    ensures
        parse_frame(s, pos) == Some((payload, pos + 4 + payload.len())),
{
    let header = be_bytes(payload.len() as int, 4);
    lemma_frame_encoding_len(payload);
    lemma_holds_at_split(s, pos, header, payload);
    lemma_u32_has_four_digits(payload.len() as int);
    lemma_be_value_of_bytes(payload.len() as int, 4);
}

/// Where a frame is cut short by the end of the bytes, the reader finds no frame.
proof fn lemma_parse_frame_of_cut(s: Seq<u8>, pos: int, payload: Seq<u8>, cut: int)
    requires
        framable(payload),
        0 <= cut < frame_encoding(payload).len(),
        holds_at(s, pos, frame_encoding(payload).take(cut)),
        pos + cut == s.len(),
    ensures
        parse_frame(s, pos) is None,
{
    let header = be_bytes(payload.len() as int, 4);
    lemma_frame_encoding_len(payload);
    if cut >= 4 {
        let whole = frame_encoding(payload);
        assert(s.subrange(pos, pos + 4) =~= s.subrange(pos, pos + cut).subrange(0, 4));
        assert(whole.take(cut).subrange(0, 4) =~= header);
        lemma_u32_has_four_digits(payload.len() as int);
        lemma_be_value_of_bytes(payload.len() as int, 4);
    }
}

/// One step of reading a stream: a frame that holds a message, then the rest.
proof fn lemma_parse_stream_step(
    s: Seq<u8>,
    pos: int,
    payload: Seq<u8>,
    next: int,
    m: MessageView,
)
    requires
        0 <= pos < s.len(),
        next > pos,
        parse_frame(s, pos) == Some((payload, next)),
        decode_message(payload) == Ok::<MessageView, WireError>(m),
    ensures
        parse_stream(s, pos) == (seq![m] + parse_stream(s, next).0, parse_stream(s, next).1),
{
}

/// A run of frames followed by `tail` is read as its messages, followed by
/// what is read of `tail`.
proof fn lemma_parse_stream_of_encoding(
    s: Seq<u8>,
    pos: int,
    msgs: Seq<MessageView>,
    tail: Seq<u8>,
)
    requires
        forall|i: int| 0 <= i < msgs.len() ==> sendable(#[trigger] msgs[i]),
        holds_at(s, pos, stream_encoding(msgs) + tail),
        pos + (stream_encoding(msgs) + tail).len() == s.len(),
    ensures
        parse_stream(s, pos) == (
            msgs + parse_stream(s, pos + stream_encoding(msgs).len()).0,
            parse_stream(s, pos + stream_encoding(msgs).len()).1,
        ),
    decreases msgs.len(),
{
    if msgs.len() == 0 {
        assert(msgs + parse_stream(s, pos).0 =~= parse_stream(s, pos).0);
    } else {
        let first = msgs[0];
        let others = msgs.drop_first();
        let frame = message_frame(first);
        let payload = message_encoding(first);
        assert(sendable(first));
        lemma_frame_encoding_len(payload);
        assert(stream_encoding(msgs) + tail =~= frame + (stream_encoding(others) + tail));
        lemma_holds_at_split(s, pos, frame, stream_encoding(others) + tail);
        lemma_parse_frame_of_encoding(s, pos, payload);
        lemma_decode_of_encoding(first, Seq::empty());
        let next = pos + 4 + payload.len();
        lemma_parse_stream_step(s, pos, payload, next, first);
        assert forall|i: int| 0 <= i < others.len() implies sendable(#[trigger] others[i]) by {
            assert(others[i] == msgs[i + 1]);
        }
        lemma_parse_stream_of_encoding(s, next, others, tail);
        let rest = parse_stream(s, next + stream_encoding(others).len());
        assert(seq![first] + (others + rest.0) =~= msgs + rest.0);
    }
}

/// Framing: the frames of any run of messages, written back to back, are
/// read as the same messages in the same order, and the reading ends between
/// two frames.
pub proof fn lemma_stream_round_trip(msgs: Seq<MessageView>)
    requires
        forall|i: int| 0 <= i < msgs.len() ==> sendable(#[trigger] msgs[i]),
    ensures
        parse_stream(stream_encoding(msgs), 0) == (msgs, StreamEnd::Clean),
{
    let s = stream_encoding(msgs);
    let tail = Seq::<u8>::empty();
    assert(s + tail =~= s);
    assert(s.subrange(0, s.len() as int) =~= s);
    lemma_parse_stream_of_encoding(s, 0, msgs, tail);
    assert(msgs + Seq::<MessageView>::empty() =~= msgs);
}

/// Framing: a stream whose last frame is cut short is read as the messages
/// before that frame, and the reading ends with the stream reported closed.
/// Nothing of the cut frame is handed out.
pub proof fn lemma_truncated_stream(msgs: Seq<MessageView>, last: MessageView, cut: int)
    requires
        forall|i: int| 0 <= i < msgs.len() ==> sendable(#[trigger] msgs[i]),
        sendable(last),
        0 < cut < message_frame(last).len(),
    ensures
        parse_stream(stream_encoding(msgs) + message_frame(last).take(cut), 0) == (
            msgs,
            StreamEnd::Closed,
        ),
{
    let tail = message_frame(last).take(cut);
    let s = stream_encoding(msgs) + tail;
    assert(s.subrange(0, s.len() as int) =~= s);
    lemma_parse_stream_of_encoding(s, 0, msgs, tail);
    let pos = stream_encoding(msgs).len() as int;
    assert(s.subrange(pos, pos + cut) =~= tail);
    lemma_parse_frame_of_cut(s, pos, message_encoding(last), cut);
    assert(msgs + Seq::<MessageView>::empty() =~= msgs);
}

// ---------------------------------------------------------------------------
// Writing and reading frames
// ---------------------------------------------------------------------------

/// Puts the length prefix in front of a payload. There is no frame for a
/// payload of more than `u32::MAX` bytes.
pub fn frame_payload(payload: &[u8]) -> (frame: Option<Vec<u8>>)
    ensures
        match frame {
            Some(bytes) => framable(payload@) && bytes@ == frame_encoding(payload@),
            None => !framable(payload@),
        },
{
    if payload.len() > 0xFFFF_FFFF {
        return None;
    }
    let mut out: Vec<u8> = Vec::new();
    write_digits_be(&mut out, payload.len() as u128, 4);
    write_raw(&mut out, payload);
    proof {
        assert(out@ =~= frame_encoding(payload@));
    }
    Some(out)
}

/// The payload length that a header announces.
pub fn read_frame_length(header: &[u8]) -> (len: u32)
    requires
        header@.len() == 4,
    ensures
        len == header_length(header@),
{
    proof {
        lemma_header_length_bounds(header@);
        assert(header@.subrange(0, 4) =~= header@);
    }
    read_digits_be(header, 0, 4) as u32
}

/// What a receiver finds at one position of a stream that has ended.
#[derive(Debug, Clone, PartialEq, Eq)]
pub enum FrameRead {
    /// A message, and the position behind its frame.
    Message(ProtocolMessage, usize),
    /// The stream ended here, between two frames.
    End,
    /// The stream ended inside the frame that starts here.
    Closed,
    /// The frame that starts here is complete but holds no message.
    Malformed(WireError),
}

/// Reads the frame that stands at `pos` of a stream that has ended. A
/// position at or behind the end of the stream is the end of the stream.
pub fn read_frame(stream: &[u8], pos: usize) -> (res: FrameRead)
    ensures
        match res {
            FrameRead::Message(m, next) => {
                &&& pos < stream@.len()
                &&& parse_frame(stream@, pos as int) matches Some((payload, after))
                &&& after == next
                &&& pos + 4 <= next <= stream@.len()
                &&& decode_message(payload) == Ok::<MessageView, WireError>(m@)
            },
            FrameRead::End => pos >= stream@.len(),
            FrameRead::Closed => pos < stream@.len() && parse_frame(stream@, pos as int) is None,
            FrameRead::Malformed(e) => {
                &&& pos < stream@.len()
                &&& parse_frame(stream@, pos as int) matches Some((payload, _))
                &&& decode_message(payload) == Err::<MessageView, WireError>(e)
            },
        },
{
    let total = stream.len();
    if pos >= total {
        return FrameRead::End;
    }
    if total - pos < 4 {
        return FrameRead::Closed;
    }
    let header = vstd::slice::slice_subrange(stream, pos, pos + 4);
    let len = read_frame_length(header) as usize;
    if len > total - pos - 4 {
        return FrameRead::Closed;
    }
    let start = pos + 4;
    let payload = vstd::slice::slice_subrange(stream, start, start + len);
    match deserialize_message(payload) {
        Ok(m) => FrameRead::Message(m, start + len),
        Err(e) => FrameRead::Malformed(e),
    }
}

/// The values of a run of messages.
pub open spec fn message_views(msgs: Seq<ProtocolMessage>) -> Seq<MessageView> {
    msgs.map_values(|m: ProtocolMessage| m@)
}

/// Reads a whole stream that has ended: the messages of its frames, in
/// order, and how the reading ended.
pub fn read_stream(stream: &[u8]) -> (res: (Vec<ProtocolMessage>, StreamEnd))
    ensures
        (message_views(res.0@), res.1) == parse_stream(stream@, 0),
{
    let mut out: Vec<ProtocolMessage> = Vec::new();
    let mut pos: usize = 0;
    let mut end = StreamEnd::Clean;
    let mut done = false;
    proof {
        assert(message_views(out@) + parse_stream(stream@, 0).0 =~= parse_stream(stream@, 0).0);
    }
    while !done
        invariant
            pos <= stream@.len(),
            !done ==> parse_stream(stream@, 0) == (
                message_views(out@) + parse_stream(stream@, pos as int).0,
                parse_stream(stream@, pos as int).1,
            ),
            done ==> parse_stream(stream@, 0) == (message_views(out@), end),
        decreases stream@.len() - pos + (if done { 0int } else { 1int }),
    {
        let ghost before = out@;
        match read_frame(stream, pos) {
            FrameRead::Message(m, next) => {
                let ghost value = m@;
                out.push(m);
                proof {
                    let rest = parse_stream(stream@, next as int);
                    assert(message_views(out@) =~= message_views(before).push(value));
                    assert(message_views(before) + (seq![value] + rest.0) =~= message_views(out@)
                        + rest.0);
                }
                pos = next;
            },
            FrameRead::End => {
                proof {
                    assert(message_views(out@) + Seq::<MessageView>::empty() =~= message_views(
                        out@,
                    ));
                }
                end = StreamEnd::Clean;
                done = true;
            },
            FrameRead::Closed => {
                proof {
                    assert(message_views(out@) + Seq::<MessageView>::empty() =~= message_views(
                        out@,
                    ));
                }
                end = StreamEnd::Closed;
                done = true;
            },
            FrameRead::Malformed(e) => {
                proof {
                    assert(message_views(out@) + Seq::<MessageView>::empty() =~= message_views(
                        out@,
                    ));
                }
                end = StreamEnd::Malformed(e);
                done = true;
            },
        }
    }
    (out, end)
}

} // verus!
