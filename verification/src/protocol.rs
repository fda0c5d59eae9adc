//! The binary codec of [`ProtocolMessage`].
//!
//! A message is written as the index of its variant in four bytes, followed by
//! its fields in declaration order. Integers are little-endian and of fixed
//! width, a boolean is one byte, text and byte strings carry their length in
//! eight bytes, an optional field starts with a marker byte, and a session
//! identifier is a byte string of its sixteen bytes. The codec knows nothing of
//! framing: it works on whole messages in memory. Bytes behind a complete
//! message are not looked at.

use crate::message::{MessageView, ProtocolMessage};
use crate::models::{
    AuthToken, AuthTokenView, FrameFormat, InputEvent, KeyCode, MouseButton, Platform, SessionId,
};
use crate::wire::{
    cut_at, lemma_cut_at_split, lemma_parse_bool_of_cut, lemma_parse_bytes_of_cut,
    lemma_parse_i32_of_cut, lemma_parse_optional_text_of_cut, lemma_parse_text_of_cut,
    lemma_parse_u32_of_cut, lemma_parse_u64_of_cut,
    be_bytes, be_value, bool_encoding, bytes_encoding, holds_at, i32_encoding,
    lemma_be_value_of_bytes, lemma_holds_at_split, lemma_holds_at_whole, lemma_le_bytes_len,
    lemma_parse_bool_of_encoding, lemma_parse_bytes_of_encoding, lemma_parse_i32_of_encoding,
    lemma_parse_optional_text_of_encoding, lemma_parse_text_of_encoding,
    lemma_be_bytes_of_value, lemma_holds_at_join, lemma_parse_bool_sound,
    lemma_parse_bytes_sound, lemma_parse_i32_sound, lemma_parse_optional_text_sound,
    lemma_parse_text_sound, lemma_parse_u32_of_encoding, lemma_parse_u32_sound,
    lemma_parse_u64_of_encoding, lemma_parse_u64_sound, lemma_sixteen_digits_fit_u128,
    lemma_u128_has_sixteen_digits,
    optional_text_encoding, parse_bool, parse_bytes, parse_i32, parse_optional_text, parse_text,
    parse_u32, parse_u64, read_agrees, read_bool, read_bytes, read_digits_be, read_i32,
    read_optional_text, read_text, read_u32, read_u64, text_encodable, text_encoding,
    u32_encoding, u64_encoding, write_bool, write_bytes, write_digits_be, write_i32,
    write_optional_text, write_text, write_u32, write_u64, WireError,
};
use vstd::prelude::*;

verus! {

// ---------------------------------------------------------------------------
// Enumerations
// ---------------------------------------------------------------------------

/// The index that stands for a platform.
pub open spec fn platform_index(p: Platform) -> u32 {
    match p {
        Platform::Windows => 0,
        Platform::Linux => 1,
        Platform::MacOS => 2,
        Platform::Android => 3,
        Platform::IOS => 4,
    }
}

/// The platform that an index stands for.
pub open spec fn platform_at(index: u32) -> Option<Platform> {
    if index == 0 {
        Some(Platform::Windows)
    } else if index == 1 {
        Some(Platform::Linux)
    } else if index == 2 {
        Some(Platform::MacOS)
    } else if index == 3 {
        Some(Platform::Android)
    } else if index == 4 {
        Some(Platform::IOS)
    } else {
        None
    }
}

/// The index that stands for a frame format.
pub open spec fn format_index(f: FrameFormat) -> u32 {
    match f {
        FrameFormat::Raw => 0,
        FrameFormat::Jpeg => 1,
        FrameFormat::H264 => 2,
        FrameFormat::VP8 => 3,
        FrameFormat::AV1 => 4,
    }
}

/// The frame format that an index stands for.
pub open spec fn format_at(index: u32) -> Option<FrameFormat> {
    if index == 0 {
        Some(FrameFormat::Raw)
    } else if index == 1 {
        Some(FrameFormat::Jpeg)
    } else if index == 2 {
        Some(FrameFormat::H264)
    } else if index == 3 {
        Some(FrameFormat::VP8)
    } else if index == 4 {
        Some(FrameFormat::AV1)
    } else {
        None
    }
}

/// The index that stands for a mouse button.
pub open spec fn button_index(b: MouseButton) -> u32 {
    match b {
        MouseButton::Left => 0,
        MouseButton::Right => 1,
        MouseButton::Middle => 2,
        MouseButton::X1 => 3,
        MouseButton::X2 => 4,
    }
}

/// The mouse button that an index stands for.
pub open spec fn button_at(index: u32) -> Option<MouseButton> {
    if index == 0 {
        Some(MouseButton::Left)
    } else if index == 1 {
        Some(MouseButton::Right)
    } else if index == 2 {
        Some(MouseButton::Middle)
    } else if index == 3 {
        Some(MouseButton::X1)
    } else if index == 4 {
        Some(MouseButton::X2)
    } else {
        None
    }
}

/// The platform that stands at `pos`, and the position behind it.
pub open spec fn parse_platform(s: Seq<u8>, pos: int) -> Result<(Platform, int), WireError> {
    match parse_u32(s, pos) {
        Err(e) => Err(e),
        Ok((index, next)) => match platform_at(index) {
            Some(p) => Ok((p, next)),
            None => Err(WireError::InvalidTag),
        },
    }
}

/// The frame format that stands at `pos`, and the position behind it.
pub open spec fn parse_format(s: Seq<u8>, pos: int) -> Result<(FrameFormat, int), WireError> {
    match parse_u32(s, pos) {
        Err(e) => Err(e),
        Ok((index, next)) => match format_at(index) {
            Some(f) => Ok((f, next)),
            None => Err(WireError::InvalidTag),
        },
    }
}

/// The mouse button that stands at `pos`, and the position behind it.
pub open spec fn parse_button(s: Seq<u8>, pos: int) -> Result<(MouseButton, int), WireError> {
    match parse_u32(s, pos) {
        Err(e) => Err(e),
        Ok((index, next)) => match button_at(index) {
            Some(b) => Ok((b, next)),
            None => Err(WireError::InvalidTag),
        },
    }
}

// ---------------------------------------------------------------------------
// Session identifiers
// ---------------------------------------------------------------------------

/// A session identifier as a byte string of its sixteen bytes, most
/// significant first.
pub open spec fn session_id_encoding(id: SessionId) -> Seq<u8> {
    bytes_encoding(be_bytes(id.0 as int, 16))
}

/// The session identifier that stands at `pos`, and the position behind
/// it. Its byte string has to be sixteen bytes long.
pub open spec fn parse_session_id(s: Seq<u8>, pos: int) -> Result<(SessionId, int), WireError> {
    match parse_bytes(s, pos) {
        Err(e) => Err(e),
        Ok((raw, next)) => if raw.len() == 16 {
            Ok((SessionId(be_value(raw) as u128), next))
        } else {
            Err(WireError::InvalidLength)
        },
    }
}

/// An optional session identifier: a zero byte for none, a one byte and
/// the identifier otherwise.
pub open spec fn optional_session_id_encoding(id: Option<SessionId>) -> Seq<u8> {
    match id {
        None => seq![0u8],
        Some(id) => seq![1u8] + session_id_encoding(id),
    }
}

/// The optional session identifier that stands at `pos`, and the position
/// behind it.
pub open spec fn parse_optional_session_id(s: Seq<u8>, pos: int) -> Result<
    (Option<SessionId>, int),
    WireError,
> {
    if pos + 1 > s.len() {
        Err(WireError::Truncated)
    } else if s[pos] == 0 {
        Ok((None, pos + 1))
    } else if s[pos] == 1 {
        match parse_session_id(s, pos + 1) {
            Err(e) => Err(e),
            Ok((id, next)) => Ok((Some(id), next)),
        }
    } else {
        Err(WireError::InvalidTag)
    }
}

// ---------------------------------------------------------------------------
// Input events
// ---------------------------------------------------------------------------

/// An input event as the index of its variant, then its fields.
pub open spec fn input_event_encoding(event: InputEvent) -> Seq<u8> {
    match event {
        InputEvent::MouseMove { x, y } => u32_encoding(0) + i32_encoding(x) + i32_encoding(y),
        InputEvent::MouseButton { button, pressed } => u32_encoding(1) + u32_encoding(
            button_index(button),
        ) + bool_encoding(pressed),
        InputEvent::MouseScroll { delta_x, delta_y } => u32_encoding(2) + i32_encoding(delta_x)
            + i32_encoding(delta_y),
        InputEvent::KeyPress { key, pressed } => u32_encoding(3) + u32_encoding(key.0)
            + bool_encoding(pressed),
    }
}

/// The two `i32` that stand at `pos`, and the position behind them.
pub open spec fn parse_two_i32(s: Seq<u8>, pos: int) -> Result<((i32, i32), int), WireError> {
    match parse_i32(s, pos) {
        Err(e) => Err(e),
        Ok((a, at1)) => match parse_i32(s, at1) {
            Err(e) => Err(e),
            Ok((b, at2)) => Ok(((a, b), at2)),
        },
    }
}

/// The input event that stands at `pos`, and the position behind it.
pub open spec fn parse_input_event(s: Seq<u8>, pos: int) -> Result<(InputEvent, int), WireError> {
    match parse_u32(s, pos) {
        Err(e) => Err(e),
        Ok((index, at0)) => if index == 0 {
            match parse_two_i32(s, at0) {
                Err(e) => Err(e),
                Ok(((x, y), next)) => Ok((InputEvent::MouseMove { x, y }, next)),
            }
        } else if index == 1 {
            match parse_button(s, at0) {
                Err(e) => Err(e),
                Ok((button, at1)) => match parse_bool(s, at1) {
                    Err(e) => Err(e),
                    Ok((pressed, next)) => Ok((InputEvent::MouseButton { button, pressed }, next)),
                },
            }
        } else if index == 2 {
            match parse_two_i32(s, at0) {
                Err(e) => Err(e),
                Ok(((delta_x, delta_y), next)) => Ok(
                    (InputEvent::MouseScroll { delta_x, delta_y }, next),
                ),
            }
        } else if index == 3 {
            match parse_u32(s, at0) {
                Err(e) => Err(e),
                Ok((code, at1)) => match parse_bool(s, at1) {
                    Err(e) => Err(e),
                    Ok((pressed, next)) => Ok(
                        (InputEvent::KeyPress { key: KeyCode(code), pressed }, next),
                    ),
                },
            }
        } else {
            Err(WireError::InvalidTag)
        },
    }
}

// ---------------------------------------------------------------------------
// Messages
// ---------------------------------------------------------------------------

/// The index that stands for a message's variant.
pub open spec fn message_index(m: MessageView) -> u32 {
    match m {
        MessageView::Hello { .. } => 0,
        MessageView::Auth { .. } => 1,
        MessageView::AuthResponse { .. } => 2,
        MessageView::SessionRequest { .. } => 3,
        MessageView::SessionCreated { .. } => 4,
        MessageView::SessionEnd { .. } => 5,
        MessageView::ScreenFrame { .. } => 6,
        MessageView::InputEvent { .. } => 7,
        MessageView::Heartbeat { .. } => 8,
        MessageView::Error { .. } => 9,
        MessageView::Disconnect => 10,
    }
}

/// The fields of a message, in declaration order.
pub open spec fn message_body_encoding(m: MessageView) -> Seq<u8> {
    match m {
        MessageView::Hello { version, device_id, platform } => u32_encoding(version)
            + text_encoding(device_id) + u32_encoding(platform_index(platform)),
        MessageView::Auth { token } => text_encoding(token.token) + text_encoding(
            token.device_id,
        ),
        MessageView::AuthResponse { success, session_id, error } => bool_encoding(success)
            + optional_session_id_encoding(session_id) + optional_text_encoding(error),
        MessageView::SessionRequest { target_device } => text_encoding(target_device),
        MessageView::SessionCreated { session_id, endpoint } => session_id_encoding(session_id)
            + text_encoding(endpoint),
        MessageView::SessionEnd { session_id, reason } => session_id_encoding(session_id)
            + text_encoding(reason),
        MessageView::ScreenFrame {
            sequence,
            timestamp,
            data,
            width,
            height,
            format,
        } => u64_encoding(sequence) + u64_encoding(timestamp) + bytes_encoding(data)
            + u32_encoding(width) + u32_encoding(height) + u32_encoding(format_index(format)),
        MessageView::InputEvent { timestamp, event } => u64_encoding(timestamp)
            + input_event_encoding(event),
        MessageView::Heartbeat { timestamp } => u64_encoding(timestamp),
        MessageView::Error { code, message } => u32_encoding(code) + text_encoding(message),
        MessageView::Disconnect => Seq::empty(),
    }
}

/// The bytes that stand for a message.
pub open spec fn message_encoding(m: MessageView) -> Seq<u8> {
    u32_encoding(message_index(m)) + message_body_encoding(m)
}

/// The fields of a `Hello` that stand at `pos`.
pub open spec fn parse_hello(s: Seq<u8>, pos: int) -> Result<(MessageView, int), WireError> {
    match parse_u32(s, pos) {
        Err(e) => Err(e),
        Ok((version, at1)) => match parse_text(s, at1) {
            Err(e) => Err(e),
            Ok((device_id, at2)) => match parse_platform(s, at2) {
                Err(e) => Err(e),
                Ok((platform, next)) => Ok(
                    (MessageView::Hello { version, device_id, platform }, next),
                ),
            },
        },
    }
}

/// The fields of an `Auth` that stand at `pos`.
pub open spec fn parse_auth(s: Seq<u8>, pos: int) -> Result<(MessageView, int), WireError> {
    match parse_text(s, pos) {
        Err(e) => Err(e),
        Ok((token, at1)) => match parse_text(s, at1) {
            Err(e) => Err(e),
            Ok((device_id, next)) => Ok(
                (MessageView::Auth { token: AuthTokenView { token, device_id } }, next),
            ),
        },
    }
}

/// The fields of an `AuthResponse` that stand at `pos`.
pub open spec fn parse_auth_response(s: Seq<u8>, pos: int) -> Result<
    (MessageView, int),
    WireError,
> {
    match parse_bool(s, pos) {
        Err(e) => Err(e),
        Ok((success, at1)) => match parse_optional_session_id(s, at1) {
            Err(e) => Err(e),
            Ok((session_id, at2)) => match parse_optional_text(s, at2) {
                Err(e) => Err(e),
                Ok((error, next)) => Ok(
                    (MessageView::AuthResponse { success, session_id, error }, next),
                ),
            },
        },
    }
}

/// The fields of a `SessionRequest` that stand at `pos`.
pub open spec fn parse_session_request(s: Seq<u8>, pos: int) -> Result<
    (MessageView, int),
    WireError,
> {
    match parse_text(s, pos) {
        Err(e) => Err(e),
        Ok((target_device, next)) => Ok((MessageView::SessionRequest { target_device }, next)),
    }
}

/// The fields of a `SessionCreated` that stand at `pos`.
pub open spec fn parse_session_created(s: Seq<u8>, pos: int) -> Result<
    (MessageView, int),
    WireError,
> {
    match parse_session_id(s, pos) {
        Err(e) => Err(e),
        Ok((session_id, at1)) => match parse_text(s, at1) {
            Err(e) => Err(e),
            Ok((endpoint, next)) => Ok(
                (MessageView::SessionCreated { session_id, endpoint }, next),
            ),
        },
    }
}

/// The fields of a `SessionEnd` that stand at `pos`.
pub open spec fn parse_session_end(s: Seq<u8>, pos: int) -> Result<(MessageView, int), WireError> {
    match parse_session_id(s, pos) {
        Err(e) => Err(e),
        Ok((session_id, at1)) => match parse_text(s, at1) {
            Err(e) => Err(e),
            Ok((reason, next)) => Ok((MessageView::SessionEnd { session_id, reason }, next)),
        },
    }
}

/// The sequence number and the time of a `ScreenFrame` that stand at `pos`.
pub open spec fn parse_frame_header(s: Seq<u8>, pos: int) -> Result<((u64, u64), int), WireError> {
    match parse_u64(s, pos) {
        Err(e) => Err(e),
        Ok((sequence, at1)) => match parse_u64(s, at1) {
            Err(e) => Err(e),
            Ok((timestamp, next)) => Ok(((sequence, timestamp), next)),
        },
    }
}

/// The size and the format of a `ScreenFrame` that stand at `pos`.
pub open spec fn parse_frame_shape(s: Seq<u8>, pos: int) -> Result<
    ((u32, u32, FrameFormat), int),
    WireError,
> {
    match parse_u32(s, pos) {
        Err(e) => Err(e),
        Ok((width, at1)) => match parse_u32(s, at1) {
            Err(e) => Err(e),
            Ok((height, at2)) => match parse_format(s, at2) {
                Err(e) => Err(e),
                Ok((format, next)) => Ok(((width, height, format), next)),
            },
        },
    }
}

/// The fields of a `ScreenFrame` that stand at `pos`.
pub open spec fn parse_screen_frame(s: Seq<u8>, pos: int) -> Result<
    (MessageView, int),
    WireError,
> {
    match parse_frame_header(s, pos) {
        Err(e) => Err(e),
        Ok(((sequence, timestamp), at1)) => match parse_bytes(s, at1) {
            Err(e) => Err(e),
            Ok((data, at2)) => match parse_frame_shape(s, at2) {
                Err(e) => Err(e),
                Ok(((width, height, format), next)) => Ok(
                    (
                        MessageView::ScreenFrame {
                            sequence,
                            timestamp,
                            data,
                            width,
                            height,
                            format,
                        },
                        next,
                    ),
                ),
            },
        },
    }
}

/// The fields of an `InputEvent` message that stand at `pos`.
pub open spec fn parse_input_message(s: Seq<u8>, pos: int) -> Result<
    (MessageView, int),
    WireError,
> {
    match parse_u64(s, pos) {
        Err(e) => Err(e),
        Ok((timestamp, at1)) => match parse_input_event(s, at1) {
            Err(e) => Err(e),
            Ok((event, next)) => Ok((MessageView::InputEvent { timestamp, event }, next)),
        },
    }
}

/// The fields of a `Heartbeat` that stand at `pos`.
pub open spec fn parse_heartbeat(s: Seq<u8>, pos: int) -> Result<(MessageView, int), WireError> {
    match parse_u64(s, pos) {
        Err(e) => Err(e),
        Ok((timestamp, next)) => Ok((MessageView::Heartbeat { timestamp }, next)),
    }
}

/// The fields of an `Error` that stand at `pos`.
pub open spec fn parse_error_message(s: Seq<u8>, pos: int) -> Result<
    (MessageView, int),
    WireError,
> {
    match parse_u32(s, pos) {
        Err(e) => Err(e),
        Ok((code, at1)) => match parse_text(s, at1) {
            Err(e) => Err(e),
            Ok((message, next)) => Ok((MessageView::Error { code, message }, next)),
        },
    }
}

/// The fields of the variant with the given index, read from `pos` on.
pub open spec fn parse_message_body(index: u32, s: Seq<u8>, pos: int) -> Result<
    (MessageView, int),
    WireError,
> {
    if index == 0 {
        parse_hello(s, pos)
    } else if index == 1 {
        parse_auth(s, pos)
    } else if index == 2 {
        parse_auth_response(s, pos)
    } else if index == 3 {
        parse_session_request(s, pos)
    } else if index == 4 {
        parse_session_created(s, pos)
    } else if index == 5 {
        parse_session_end(s, pos)
    } else if index == 6 {
        parse_screen_frame(s, pos)
    } else if index == 7 {
        parse_input_message(s, pos)
    } else if index == 8 {
        parse_heartbeat(s, pos)
    } else if index == 9 {
        parse_error_message(s, pos)
    } else if index == 10 {
        Ok((MessageView::Disconnect, pos))
    } else {
        Err(WireError::InvalidTag)
    }
}

/// The message that stands at `pos`, and the position behind it.
pub open spec fn parse_message(s: Seq<u8>, pos: int) -> Result<(MessageView, int), WireError> {
    match parse_u32(s, pos) {
        Err(e) => Err(e),
        Ok((index, at0)) => parse_message_body(index, s, at0),
    }
}

/// The message that a byte sequence begins with.
#[verifier::opaque]
pub open spec fn decode_message(s: Seq<u8>) -> Result<MessageView, WireError> {
    match parse_message(s, 0) {
        Err(e) => Err(e),
        Ok((m, _)) => Ok(m),
    }
}

// ---------------------------------------------------------------------------
// What the parsers make of an encoding
// ---------------------------------------------------------------------------

/// Where the encoding of a platform stands, the parser reads that platform.
proof fn lemma_parse_platform_of_encoding(s: Seq<u8>, pos: int, p: Platform)
    requires
        holds_at(s, pos, u32_encoding(platform_index(p))),
    ensures
        parse_platform(s, pos) == Ok::<(Platform, int), WireError>((p, pos + 4)),
{
    lemma_parse_u32_of_encoding(s, pos, platform_index(p));
}

/// Where the encoding of a frame format stands, the parser reads that
/// format.
proof fn lemma_parse_format_of_encoding(s: Seq<u8>, pos: int, f: FrameFormat)
    requires
        holds_at(s, pos, u32_encoding(format_index(f))),
    ensures
        parse_format(s, pos) == Ok::<(FrameFormat, int), WireError>((f, pos + 4)),
{
    lemma_parse_u32_of_encoding(s, pos, format_index(f));
}

/// A session identifier takes twenty-four bytes.
proof fn lemma_session_id_encoding_len(id: SessionId)
    ensures
        session_id_encoding(id).len() == 24,
{
    lemma_u128_has_sixteen_digits(id.0 as int);
    lemma_be_value_of_bytes(id.0 as int, 16);
    lemma_le_bytes_len(16, 8);
}

/// Where the encoding of a session identifier stands, the parser reads
/// that identifier.
proof fn lemma_parse_session_id_of_encoding(s: Seq<u8>, pos: int, id: SessionId)
    requires
        holds_at(s, pos, session_id_encoding(id)),
    ensures
        parse_session_id(s, pos) == Ok::<(SessionId, int), WireError>((id, pos + 24)),
{
    lemma_u128_has_sixteen_digits(id.0 as int);
    lemma_be_value_of_bytes(id.0 as int, 16);
    lemma_parse_bytes_of_encoding(s, pos, be_bytes(id.0 as int, 16));
}

/// Where the encoding of an optional session identifier stands, the parser
/// reads that optional identifier.
proof fn lemma_parse_optional_session_id_of_encoding(
    s: Seq<u8>,
    pos: int,
    id: Option<SessionId>,
)
    requires
        holds_at(s, pos, optional_session_id_encoding(id)),
    ensures
        parse_optional_session_id(s, pos) == Ok::<(Option<SessionId>, int), WireError>(
            (id, pos + optional_session_id_encoding(id).len()),
        ),
{
    let enc = optional_session_id_encoding(id);
    assert(s.subrange(pos, pos + enc.len())[0] == enc[0]);
    match id {
        None => {},
        Some(some_id) => {
            lemma_session_id_encoding_len(some_id);
            lemma_holds_at_split(s, pos, seq![1u8], session_id_encoding(some_id));
            lemma_parse_session_id_of_encoding(s, pos + 1, some_id);
        },
    }
}

/// Where the encodings of two `i32` stand, the parser reads the two.
proof fn lemma_parse_two_i32_of_encoding(s: Seq<u8>, pos: int, a: i32, b: i32)
    requires
        holds_at(s, pos, i32_encoding(a) + i32_encoding(b)),
    ensures
        parse_two_i32(s, pos) == Ok::<((i32, i32), int), WireError>(((a, b), pos + 8)),
        (i32_encoding(a) + i32_encoding(b)).len() == 8,
{
    lemma_le_bytes_len(crate::wire::i32_bits(a) as int, 4);
    lemma_le_bytes_len(crate::wire::i32_bits(b) as int, 4);
    lemma_holds_at_split(s, pos, i32_encoding(a), i32_encoding(b));
    lemma_parse_i32_of_encoding(s, pos, a);
    lemma_parse_i32_of_encoding(s, pos + 4, b);
}

/// Where the encodings of a `u32` and a boolean stand, the parsers read
/// the two.
proof fn lemma_parse_u32_bool_of_encoding(s: Seq<u8>, pos: int, v: u32, b: bool)
    requires
        holds_at(s, pos, u32_encoding(v) + bool_encoding(b)),
    ensures
        parse_u32(s, pos) == Ok::<(u32, int), WireError>((v, pos + 4)),
        parse_bool(s, pos + 4) == Ok::<(bool, int), WireError>((b, pos + 5)),
        (u32_encoding(v) + bool_encoding(b)).len() == 5,
{
    lemma_le_bytes_len(v as int, 4);
    lemma_holds_at_split(s, pos, u32_encoding(v), bool_encoding(b));
    lemma_parse_u32_of_encoding(s, pos, v);
    lemma_parse_bool_of_encoding(s, pos + 4, b);
}

/// The number of bytes that an input event takes.
proof fn lemma_input_event_encoding_len(event: InputEvent)
    ensures
        input_event_encoding(event).len() == match event {
            InputEvent::MouseMove { .. } => 12int,
            InputEvent::MouseButton { .. } => 9int,
            InputEvent::MouseScroll { .. } => 12int,
            InputEvent::KeyPress { .. } => 9int,
        },
{
    match event {
        InputEvent::MouseMove { x, y } => {
            lemma_le_bytes_len(0, 4);
            lemma_le_bytes_len(crate::wire::i32_bits(x) as int, 4);
            lemma_le_bytes_len(crate::wire::i32_bits(y) as int, 4);
        },
        InputEvent::MouseButton { button, pressed } => {
            lemma_le_bytes_len(1, 4);
            lemma_le_bytes_len(button_index(button) as int, 4);
        },
        InputEvent::MouseScroll { delta_x, delta_y } => {
            lemma_le_bytes_len(2, 4);
            lemma_le_bytes_len(crate::wire::i32_bits(delta_x) as int, 4);
            lemma_le_bytes_len(crate::wire::i32_bits(delta_y) as int, 4);
        },
        InputEvent::KeyPress { key, pressed } => {
            lemma_le_bytes_len(3, 4);
            lemma_le_bytes_len(key.0 as int, 4);
        },
    }
}

/// Where the encoding of an input event stands, the parser reads that
/// event.
proof fn lemma_parse_input_event_of_encoding(s: Seq<u8>, pos: int, event: InputEvent)
    requires
        holds_at(s, pos, input_event_encoding(event)),
    ensures
        parse_input_event(s, pos) == Ok::<(InputEvent, int), WireError>(
            (event, pos + input_event_encoding(event).len()),
        ),
{
    lemma_input_event_encoding_len(event);
    match event {
        InputEvent::MouseMove { x, y } => {
            let tag = u32_encoding(0);
            let rest = i32_encoding(x) + i32_encoding(y);
            lemma_le_bytes_len(0, 4);
            assert(input_event_encoding(event) =~= tag + rest);
            lemma_holds_at_split(s, pos, tag, rest);
            lemma_parse_u32_of_encoding(s, pos, 0);
            lemma_parse_two_i32_of_encoding(s, pos + 4, x, y);
        },
        InputEvent::MouseButton { button, pressed } => {
            let tag = u32_encoding(1);
            let rest = u32_encoding(button_index(button)) + bool_encoding(pressed);
            lemma_le_bytes_len(1, 4);
            assert(input_event_encoding(event) =~= tag + rest);
            lemma_holds_at_split(s, pos, tag, rest);
            lemma_parse_u32_of_encoding(s, pos, 1);
            lemma_parse_u32_bool_of_encoding(s, pos + 4, button_index(button), pressed);
        },
        InputEvent::MouseScroll { delta_x, delta_y } => {
            let tag = u32_encoding(2);
            let rest = i32_encoding(delta_x) + i32_encoding(delta_y);
            lemma_le_bytes_len(2, 4);
            assert(input_event_encoding(event) =~= tag + rest);
            lemma_holds_at_split(s, pos, tag, rest);
            lemma_parse_u32_of_encoding(s, pos, 2);
            lemma_parse_two_i32_of_encoding(s, pos + 4, delta_x, delta_y);
        },
        InputEvent::KeyPress { key, pressed } => {
            let tag = u32_encoding(3);
            let rest = u32_encoding(key.0) + bool_encoding(pressed);
            lemma_le_bytes_len(3, 4);
            assert(input_event_encoding(event) =~= tag + rest);
            lemma_holds_at_split(s, pos, tag, rest);
            lemma_parse_u32_of_encoding(s, pos, 3);
            lemma_parse_u32_bool_of_encoding(s, pos + 4, key.0, pressed);
        },
    }
}

/// Where the encodings of two texts stand, the parser reads the two.
proof fn lemma_parse_text_pair_of_encoding(s: Seq<u8>, pos: int, a: Seq<char>, b: Seq<char>)
    requires
        text_encodable(a),
        text_encodable(b),
        holds_at(s, pos, text_encoding(a) + text_encoding(b)),
    ensures
        parse_text(s, pos) == Ok::<(Seq<char>, int), WireError>(
            (a, pos + text_encoding(a).len()),
        ),
        parse_text(s, pos + text_encoding(a).len()) == Ok::<(Seq<char>, int), WireError>(
            (b, pos + (text_encoding(a) + text_encoding(b)).len()),
        ),
{
    lemma_holds_at_split(s, pos, text_encoding(a), text_encoding(b));
    lemma_parse_text_of_encoding(s, pos, a);
    lemma_parse_text_of_encoding(s, pos + text_encoding(a).len(), b);
}

/// Where the encodings of a session identifier and a text stand, the
/// parsers read the two.
proof fn lemma_parse_session_id_text_of_encoding(
    s: Seq<u8>,
    pos: int,
    id: SessionId,
    t: Seq<char>,
)
    requires
        text_encodable(t),
        holds_at(s, pos, session_id_encoding(id) + text_encoding(t)),
    ensures
        parse_session_id(s, pos) == Ok::<(SessionId, int), WireError>((id, pos + 24)),
        parse_text(s, pos + 24) == Ok::<(Seq<char>, int), WireError>(
            (t, pos + (session_id_encoding(id) + text_encoding(t)).len()),
        ),
{
    lemma_session_id_encoding_len(id);
    lemma_holds_at_split(s, pos, session_id_encoding(id), text_encoding(t));
    lemma_parse_session_id_of_encoding(s, pos, id);
    lemma_parse_text_of_encoding(s, pos + 24, t);
}

/// Where the fields of a `Hello` stand, the parser reads that message.
proof fn lemma_parse_hello_of_encoding(s: Seq<u8>, pos: int, m: MessageView)
    requires
        m is Hello,
        m.encodable(),
        holds_at(s, pos, message_body_encoding(m)),
    ensures
        parse_hello(s, pos) == Ok::<(MessageView, int), WireError>(
            (m, pos + message_body_encoding(m).len()),
        ),
{
    let a = u32_encoding(m->version);
    let b = text_encoding(m->device_id);
    let c = u32_encoding(platform_index(m->platform));
    lemma_le_bytes_len(m->version as int, 4);
    lemma_le_bytes_len(platform_index(m->platform) as int, 4);
    lemma_holds_at_split(s, pos, a + b, c);
    lemma_holds_at_split(s, pos, a, b);
    lemma_parse_u32_of_encoding(s, pos, m->version);
    lemma_parse_text_of_encoding(s, pos + 4, m->device_id);
    lemma_parse_platform_of_encoding(s, pos + 4 + b.len(), m->platform);
}

/// Where the fields of an `AuthResponse` stand, the parser reads that
/// message.
proof fn lemma_parse_auth_response_of_encoding(s: Seq<u8>, pos: int, m: MessageView)
    requires
        m is AuthResponse,
        m.encodable(),
        holds_at(s, pos, message_body_encoding(m)),
    ensures
        parse_auth_response(s, pos) == Ok::<(MessageView, int), WireError>(
            (m, pos + message_body_encoding(m).len()),
        ),
{
    let a = bool_encoding(m->success);
    let b = optional_session_id_encoding(m->AuthResponse_session_id);
    let c = optional_text_encoding(m->error);
    lemma_holds_at_split(s, pos, a + b, c);
    lemma_holds_at_split(s, pos, a, b);
    lemma_parse_bool_of_encoding(s, pos, m->success);
    lemma_parse_optional_session_id_of_encoding(s, pos + 1, m->AuthResponse_session_id);
    lemma_parse_optional_text_of_encoding(s, pos + 1 + b.len(), m->error);
}

/// Where the fields of a `ScreenFrame` stand, the parser reads that
/// message.
proof fn lemma_parse_screen_frame_of_encoding(s: Seq<u8>, pos: int, m: MessageView)
    requires
        m is ScreenFrame,
        m.encodable(),
        holds_at(s, pos, message_body_encoding(m)),
    ensures
        parse_screen_frame(s, pos) == Ok::<(MessageView, int), WireError>(
            (m, pos + message_body_encoding(m).len()),
        ),
{
    let a = u64_encoding(m->sequence);
    let b = u64_encoding(m->ScreenFrame_timestamp);
    let c = bytes_encoding(m->data);
    let d = u32_encoding(m->width);
    let e = u32_encoding(m->height);
    let f = u32_encoding(format_index(m->format));
    lemma_le_bytes_len(m->sequence as int, 8);
    lemma_le_bytes_len(m->ScreenFrame_timestamp as int, 8);
    lemma_le_bytes_len(m->data.len() as int, 8);
    lemma_le_bytes_len(m->width as int, 4);
    lemma_le_bytes_len(m->height as int, 4);
    lemma_le_bytes_len(format_index(m->format) as int, 4);
    lemma_holds_at_split(s, pos, a + b + c + d + e, f);
    lemma_holds_at_split(s, pos, a + b + c + d, e);
    lemma_holds_at_split(s, pos, a + b + c, d);
    lemma_holds_at_split(s, pos, a + b, c);
    lemma_holds_at_split(s, pos, a, b);
    lemma_parse_u64_of_encoding(s, pos, m->sequence);
    lemma_parse_u64_of_encoding(s, pos + 8, m->ScreenFrame_timestamp);
    lemma_parse_bytes_of_encoding(s, pos + 16, m->data);
    let at2 = pos + 16 + c.len();
    lemma_parse_u32_of_encoding(s, at2, m->width);
    lemma_parse_u32_of_encoding(s, at2 + 4, m->height);
    lemma_parse_format_of_encoding(s, at2 + 8, m->format);
}

/// The fields of an encodable message are read back as they were written.
proof fn lemma_parse_body_of_encoding(s: Seq<u8>, pos: int, m: MessageView)
    requires
        m.encodable(),
        holds_at(s, pos, message_body_encoding(m)),
    ensures
        parse_message_body(message_index(m), s, pos) == Ok::<(MessageView, int), WireError>(
            (m, pos + message_body_encoding(m).len()),
        ),
{
    match m {
        MessageView::Hello { .. } => {
            lemma_parse_hello_of_encoding(s, pos, m);
        },
        MessageView::Auth { token } => {
            lemma_parse_text_pair_of_encoding(s, pos, token.token, token.device_id);
        },
        MessageView::AuthResponse { .. } => {
            lemma_parse_auth_response_of_encoding(s, pos, m);
        },
        MessageView::SessionRequest { target_device } => {
            lemma_parse_text_of_encoding(s, pos, target_device);
        },
        MessageView::SessionCreated { session_id, endpoint } => {
            lemma_parse_session_id_text_of_encoding(s, pos, session_id, endpoint);
        },
        MessageView::SessionEnd { session_id, reason } => {
            lemma_parse_session_id_text_of_encoding(s, pos, session_id, reason);
        },
        MessageView::ScreenFrame { .. } => {
            lemma_parse_screen_frame_of_encoding(s, pos, m);
        },
        MessageView::InputEvent { timestamp, event } => {
            lemma_le_bytes_len(timestamp as int, 8);
            lemma_holds_at_split(s, pos, u64_encoding(timestamp), input_event_encoding(event));
            lemma_parse_u64_of_encoding(s, pos, timestamp);
            lemma_parse_input_event_of_encoding(s, pos + 8, event);
        },
        MessageView::Heartbeat { timestamp } => {
            lemma_le_bytes_len(timestamp as int, 8);
            lemma_parse_u64_of_encoding(s, pos, timestamp);
        },
        MessageView::Error { code, message } => {
            lemma_le_bytes_len(code as int, 4);
            lemma_holds_at_split(s, pos, u32_encoding(code), text_encoding(message));
            lemma_parse_u32_of_encoding(s, pos, code);
            lemma_parse_text_of_encoding(s, pos + 4, message);
        },
        MessageView::Disconnect => {},
    }
}

/// Wherever the encoding of an encodable message stands, the parser reads
/// that message and stops right behind it.
pub proof fn lemma_parse_message_of_encoding(s: Seq<u8>, pos: int, m: MessageView)
    requires
        m.encodable(),
        holds_at(s, pos, message_encoding(m)),
    ensures
        parse_message(s, pos) == Ok::<(MessageView, int), WireError>(
            (m, pos + message_encoding(m).len()),
        ),
{
    lemma_le_bytes_len(message_index(m) as int, 4);
    lemma_holds_at_split(s, pos, u32_encoding(message_index(m)), message_body_encoding(m));
    lemma_parse_u32_of_encoding(s, pos, message_index(m));
    lemma_parse_body_of_encoding(s, pos + 4, m);
}

/// Round trip: decoding the encoding of a message gives the message back.
/// Bytes that follow the encoding do not change that.
pub proof fn lemma_decode_of_encoding(m: MessageView, rest: Seq<u8>)
    requires
        m.encodable(),
    ensures
        decode_message(message_encoding(m) + rest) == Ok::<MessageView, WireError>(m),
        decode_message(message_encoding(m)) == Ok::<MessageView, WireError>(m),
{
    reveal(decode_message);
    let enc = message_encoding(m);
    lemma_holds_at_whole(enc);
    lemma_parse_message_of_encoding(enc, 0, m);
    assert((enc + rest).subrange(0, enc.len() as int) =~= enc);
    lemma_parse_message_of_encoding(enc + rest, 0, m);
}

// ---------------------------------------------------------------------------
// Writing messages
// ---------------------------------------------------------------------------

fn platform_code(p: Platform) -> (index: u32)
    ensures
        index == platform_index(p),
{
    match p {
        Platform::Windows => 0,
        Platform::Linux => 1,
        Platform::MacOS => 2,
        Platform::Android => 3,
        Platform::IOS => 4,
    }
}

fn format_code(f: FrameFormat) -> (index: u32)
    ensures
        index == format_index(f),
{
    match f {
        FrameFormat::Raw => 0,
        FrameFormat::Jpeg => 1,
        FrameFormat::H264 => 2,
        FrameFormat::VP8 => 3,
        FrameFormat::AV1 => 4,
    }
}

fn button_code(b: MouseButton) -> (index: u32)
    ensures
        index == button_index(b),
{
    match b {
        MouseButton::Left => 0,
        MouseButton::Right => 1,
        MouseButton::Middle => 2,
        MouseButton::X1 => 3,
        MouseButton::X2 => 4,
    }
}

fn write_session_id(out: &mut Vec<u8>, id: SessionId)
    ensures
        final(out)@ == old(out)@ + session_id_encoding(id),
{
    let ghost before = out@;
    write_u64(out, 16);
    write_digits_be(out, id.0, 16);
    proof {
        lemma_le_bytes_len(id.0 as int, 16);
        assert(out@ =~= before + session_id_encoding(id));
    }
}

fn write_optional_session_id(out: &mut Vec<u8>, id: Option<SessionId>)
    ensures
        final(out)@ == old(out)@ + optional_session_id_encoding(id),
{
    let ghost before = out@;
    match id {
        None => {
            out.push(0u8);
            proof {
                assert(out@ =~= before + seq![0u8]);
            }
        },
        Some(some_id) => {
            out.push(1u8);
            write_session_id(out, some_id);
            proof {
                assert(out@ =~= before + (seq![1u8] + session_id_encoding(some_id)));
            }
        },
    }
}

fn write_input_event(out: &mut Vec<u8>, event: InputEvent)
    ensures
        final(out)@ == old(out)@ + input_event_encoding(event),
{
    let ghost before = out@;
    match event {
        InputEvent::MouseMove { x, y } => {
            write_u32(out, 0);
            write_i32(out, x);
            write_i32(out, y);
        },
        InputEvent::MouseButton { button, pressed } => {
            write_u32(out, 1);
            write_u32(out, button_code(button));
            write_bool(out, pressed);
        },
        InputEvent::MouseScroll { delta_x, delta_y } => {
            write_u32(out, 2);
            write_i32(out, delta_x);
            write_i32(out, delta_y);
        },
        InputEvent::KeyPress { key, pressed } => {
            write_u32(out, 3);
            write_u32(out, key.0);
            write_bool(out, pressed);
        },
    }
    proof {
        assert(out@ =~= before + input_event_encoding(event));
    }
}

fn message_code(msg: &ProtocolMessage) -> (index: u32)
    ensures
        index == message_index(msg@),
{
    match msg {
        ProtocolMessage::Hello { .. } => 0,
        ProtocolMessage::Auth { .. } => 1,
        ProtocolMessage::AuthResponse { .. } => 2,
        ProtocolMessage::SessionRequest { .. } => 3,
        ProtocolMessage::SessionCreated { .. } => 4,
        ProtocolMessage::SessionEnd { .. } => 5,
        ProtocolMessage::ScreenFrame { .. } => 6,
        ProtocolMessage::InputEvent { .. } => 7,
        ProtocolMessage::Heartbeat { .. } => 8,
        ProtocolMessage::Error { .. } => 9,
        ProtocolMessage::Disconnect => 10,
    }
}

fn write_message_body(out: &mut Vec<u8>, msg: &ProtocolMessage)
    ensures
        final(out)@ == old(out)@ + message_body_encoding(msg@),
        msg@.encodable(),
{
    let ghost before = out@;
    match msg {
        ProtocolMessage::Hello { version, device_id, platform } => {
            write_u32(out, *version);
            write_text(out, device_id.as_str());
            write_u32(out, platform_code(*platform));
        },
        ProtocolMessage::Auth { token } => {
            write_text(out, token.token.as_str());
            write_text(out, token.device_id.as_str());
        },
        ProtocolMessage::AuthResponse { success, session_id, error } => {
            write_bool(out, *success);
            write_optional_session_id(out, *session_id);
            write_optional_text(out, error);
        },
        ProtocolMessage::SessionRequest { target_device } => {
            write_text(out, target_device.as_str());
        },
        ProtocolMessage::SessionCreated { session_id, endpoint } => {
            write_session_id(out, *session_id);
            write_text(out, endpoint.as_str());
        },
        ProtocolMessage::SessionEnd { session_id, reason } => {
            write_session_id(out, *session_id);
            write_text(out, reason.as_str());
        },
        ProtocolMessage::ScreenFrame { sequence, timestamp, data, width, height, format } => {
            write_u64(out, *sequence);
            write_u64(out, *timestamp);
            write_bytes(out, data.as_slice());
            write_u32(out, *width);
            write_u32(out, *height);
            write_u32(out, format_code(*format));
        },
        ProtocolMessage::InputEvent { timestamp, event } => {
            write_u64(out, *timestamp);
            write_input_event(out, *event);
        },
        ProtocolMessage::Heartbeat { timestamp } => {
            write_u64(out, *timestamp);
        },
        ProtocolMessage::Error { code, message } => {
            write_u32(out, *code);
            write_text(out, message.as_str());
        },
        ProtocolMessage::Disconnect => {},
    }
    proof {
        assert(out@ =~= before + message_body_encoding(msg@));
    }
}

/// Encodes a message. Every message has an encoding, and decoding it gives
/// the message back.
pub fn serialize_message(msg: &ProtocolMessage) -> (bytes: Vec<u8>)
    ensures
        bytes@ == message_encoding(msg@),
        msg@.encodable(),
        decode_message(bytes@) == Ok::<MessageView, WireError>(msg@),
{
    let mut out: Vec<u8> = Vec::new();
    write_u32(&mut out, message_code(msg));
    write_message_body(&mut out, msg);
    proof {
        assert(out@ =~= message_encoding(msg@));
        lemma_decode_of_encoding(msg@, Seq::empty());
    }
    out
}

// ---------------------------------------------------------------------------
// Reading messages
// ---------------------------------------------------------------------------

fn read_platform(data: &[u8], pos: usize) -> (res: Result<(Platform, usize), WireError>)
    requires
        pos <= data@.len(),
    ensures
        read_agrees(res, parse_platform(data@, pos as int)),
        res matches Ok((_, next)) ==> pos <= next <= data@.len(),
{
    let (index, next) = read_u32(data, pos)?;
    if index == 0 {
        Ok((Platform::Windows, next))
    } else if index == 1 {
        Ok((Platform::Linux, next))
    } else if index == 2 {
        Ok((Platform::MacOS, next))
    } else if index == 3 {
        Ok((Platform::Android, next))
    } else if index == 4 {
        Ok((Platform::IOS, next))
    } else {
        Err(WireError::InvalidTag)
    }
}

fn read_format(data: &[u8], pos: usize) -> (res: Result<(FrameFormat, usize), WireError>)
    requires
        pos <= data@.len(),
    ensures
        read_agrees(res, parse_format(data@, pos as int)),
        res matches Ok((_, next)) ==> pos <= next <= data@.len(),
{
    let (index, next) = read_u32(data, pos)?;
    if index == 0 {
        Ok((FrameFormat::Raw, next))
    } else if index == 1 {
        Ok((FrameFormat::Jpeg, next))
    } else if index == 2 {
        Ok((FrameFormat::H264, next))
    } else if index == 3 {
        Ok((FrameFormat::VP8, next))
    } else if index == 4 {
        Ok((FrameFormat::AV1, next))
    } else {
        Err(WireError::InvalidTag)
    }
}

fn read_button(data: &[u8], pos: usize) -> (res: Result<(MouseButton, usize), WireError>)
    requires
        pos <= data@.len(),
    ensures
        read_agrees(res, parse_button(data@, pos as int)),
        res matches Ok((_, next)) ==> pos <= next <= data@.len(),
{
    let (index, next) = read_u32(data, pos)?;
    if index == 0 {
        Ok((MouseButton::Left, next))
    } else if index == 1 {
        Ok((MouseButton::Right, next))
    } else if index == 2 {
        Ok((MouseButton::Middle, next))
    } else if index == 3 {
        Ok((MouseButton::X1, next))
    } else if index == 4 {
        Ok((MouseButton::X2, next))
    } else {
        Err(WireError::InvalidTag)
    }
}

fn read_session_id(data: &[u8], pos: usize) -> (res: Result<(SessionId, usize), WireError>)
    requires
        pos <= data@.len(),
    ensures
        read_agrees(res, parse_session_id(data@, pos as int)),
        res matches Ok((_, next)) ==> pos <= next <= data@.len(),
{
    let (len, start) = read_u64(data, pos)?;
    if len > (data.len() - start) as u64 {
        return Err(WireError::Truncated);
    }
    if len != 16 {
        return Err(WireError::InvalidLength);
    }
    let bits = read_digits_be(data, start, 16);
    Ok((SessionId(bits), start + 16))
}

fn read_optional_session_id(data: &[u8], pos: usize) -> (res: Result<
    (Option<SessionId>, usize),
    WireError,
>)
    requires
        pos <= data@.len(),
    ensures
        read_agrees(res, parse_optional_session_id(data@, pos as int)),
        res matches Ok((_, next)) ==> pos <= next <= data@.len(),
{
    if data.len() - pos < 1 {
        return Err(WireError::Truncated);
    }
    let marker = data[pos];
    if marker == 0 {
        Ok((None, pos + 1))
    } else if marker == 1 {
        let (id, next) = read_session_id(data, pos + 1)?;
        Ok((Some(id), next))
    } else {
        Err(WireError::InvalidTag)
    }
}

fn read_input_event(data: &[u8], pos: usize) -> (res: Result<(InputEvent, usize), WireError>)
    requires
        pos <= data@.len(),
    ensures
        read_agrees(res, parse_input_event(data@, pos as int)),
        res matches Ok((_, next)) ==> pos <= next <= data@.len(),
{
    let (index, at0) = read_u32(data, pos)?;
    if index == 0 {
        let (x, at1) = read_i32(data, at0)?;
        let (y, next) = read_i32(data, at1)?;
        Ok((InputEvent::MouseMove { x, y }, next))
    } else if index == 1 {
        let (button, at1) = read_button(data, at0)?;
        let (pressed, next) = read_bool(data, at1)?;
        Ok((InputEvent::MouseButton { button, pressed }, next))
    } else if index == 2 {
        let (delta_x, at1) = read_i32(data, at0)?;
        let (delta_y, next) = read_i32(data, at1)?;
        Ok((InputEvent::MouseScroll { delta_x, delta_y }, next))
    } else if index == 3 {
        let (code, at1) = read_u32(data, at0)?;
        let (pressed, next) = read_bool(data, at1)?;
        Ok((InputEvent::KeyPress { key: KeyCode(code), pressed }, next))
    } else {
        Err(WireError::InvalidTag)
    }
}

/// True if what a message reader returned is what the parser says of the
/// same bytes.
pub open spec fn message_read_agrees(
    res: Result<(ProtocolMessage, usize), WireError>,
    parsed: Result<(MessageView, int), WireError>,
    len: int,
) -> bool {
    match res {
        Ok((m, next)) => parsed == Ok::<(MessageView, int), WireError>((m@, next as int)) && next
            <= len,
        Err(e) => parsed == Err::<(MessageView, int), WireError>(e),
    }
}

fn read_hello(data: &[u8], pos: usize) -> (res: Result<(ProtocolMessage, usize), WireError>)
    requires
        pos <= data@.len(),
    ensures
        message_read_agrees(res, parse_hello(data@, pos as int), data@.len() as int),
{
    let (version, at1) = read_u32(data, pos)?;
    let (device_id, at2) = read_text(data, at1)?;
    let (platform, next) = read_platform(data, at2)?;
    Ok((ProtocolMessage::Hello { version, device_id, platform }, next))
}

fn read_auth(data: &[u8], pos: usize) -> (res: Result<(ProtocolMessage, usize), WireError>)
    requires
        pos <= data@.len(),
    ensures
        message_read_agrees(res, parse_auth(data@, pos as int), data@.len() as int),
{
    let (token, at1) = read_text(data, pos)?;
    let (device_id, next) = read_text(data, at1)?;
    Ok((ProtocolMessage::Auth { token: AuthToken { token, device_id } }, next))
}

fn read_auth_response(data: &[u8], pos: usize) -> (res: Result<
    (ProtocolMessage, usize),
    WireError,
>)
    requires
        pos <= data@.len(),
    ensures
        message_read_agrees(res, parse_auth_response(data@, pos as int), data@.len() as int),
{
    let (success, at1) = read_bool(data, pos)?;
    let (session_id, at2) = read_optional_session_id(data, at1)?;
    let (error, next) = read_optional_text(data, at2)?;
    Ok((ProtocolMessage::AuthResponse { success, session_id, error }, next))
}

fn read_session_request(data: &[u8], pos: usize) -> (res: Result<
    (ProtocolMessage, usize),
    WireError,
>)
    requires
        pos <= data@.len(),
    ensures
        message_read_agrees(res, parse_session_request(data@, pos as int), data@.len() as int),
{
    let (target_device, next) = read_text(data, pos)?;
    Ok((ProtocolMessage::SessionRequest { target_device }, next))
}

fn read_session_created(data: &[u8], pos: usize) -> (res: Result<
    (ProtocolMessage, usize),
    WireError,
>)
    requires
        pos <= data@.len(),
    ensures
        message_read_agrees(res, parse_session_created(data@, pos as int), data@.len() as int),
{
    let (session_id, at1) = read_session_id(data, pos)?;
    let (endpoint, next) = read_text(data, at1)?;
    Ok((ProtocolMessage::SessionCreated { session_id, endpoint }, next))
}

fn read_session_end(data: &[u8], pos: usize) -> (res: Result<(ProtocolMessage, usize), WireError>)
    requires
        pos <= data@.len(),
    ensures
        message_read_agrees(res, parse_session_end(data@, pos as int), data@.len() as int),
{
    let (session_id, at1) = read_session_id(data, pos)?;
    let (reason, next) = read_text(data, at1)?;
    Ok((ProtocolMessage::SessionEnd { session_id, reason }, next))
}

fn read_screen_frame(data: &[u8], pos: usize) -> (res: Result<
    (ProtocolMessage, usize),
    WireError,
>)
    requires
        pos <= data@.len(),
    ensures
        message_read_agrees(res, parse_screen_frame(data@, pos as int), data@.len() as int),
{
    let (sequence, at1) = read_u64(data, pos)?;
    let (timestamp, at2) = read_u64(data, at1)?;
    let (bytes, at3) = read_bytes(data, at2)?;
    let (width, at4) = read_u32(data, at3)?;
    let (height, at5) = read_u32(data, at4)?;
    let (format, next) = read_format(data, at5)?;
    Ok(
        (
            ProtocolMessage::ScreenFrame {
                sequence,
                timestamp,
                data: bytes,
                width,
                height,
                format,
            },
            next,
        ),
    )
}

fn read_input_message(data: &[u8], pos: usize) -> (res: Result<
    (ProtocolMessage, usize),
    WireError,
>)
    requires
        pos <= data@.len(),
    ensures
        message_read_agrees(res, parse_input_message(data@, pos as int), data@.len() as int),
{
    let (timestamp, at1) = read_u64(data, pos)?;
    let (event, next) = read_input_event(data, at1)?;
    Ok((ProtocolMessage::InputEvent { timestamp, event }, next))
}

fn read_heartbeat(data: &[u8], pos: usize) -> (res: Result<(ProtocolMessage, usize), WireError>)
    requires
        pos <= data@.len(),
    ensures
        message_read_agrees(res, parse_heartbeat(data@, pos as int), data@.len() as int),
{
    let (timestamp, next) = read_u64(data, pos)?;
    Ok((ProtocolMessage::Heartbeat { timestamp }, next))
}

fn read_error_message(data: &[u8], pos: usize) -> (res: Result<
    (ProtocolMessage, usize),
    WireError,
>)
    requires
        pos <= data@.len(),
    ensures
        message_read_agrees(res, parse_error_message(data@, pos as int), data@.len() as int),
{
    let (code, at1) = read_u32(data, pos)?;
    let (message, next) = read_text(data, at1)?;
    Ok((ProtocolMessage::Error { code, message }, next))
}

/// Reads the message that stands at `pos`.
fn read_message(data: &[u8], pos: usize) -> (res: Result<(ProtocolMessage, usize), WireError>)
    requires
        pos <= data@.len(),
    ensures
        message_read_agrees(res, parse_message(data@, pos as int), data@.len() as int),
{
    let (index, at0) = read_u32(data, pos)?;
    if index == 0 {
        read_hello(data, at0)
    } else if index == 1 {
        read_auth(data, at0)
    } else if index == 2 {
        read_auth_response(data, at0)
    } else if index == 3 {
        read_session_request(data, at0)
    } else if index == 4 {
        read_session_created(data, at0)
    } else if index == 5 {
        read_session_end(data, at0)
    } else if index == 6 {
        read_screen_frame(data, at0)
    } else if index == 7 {
        read_input_message(data, at0)
    } else if index == 8 {
        read_heartbeat(data, at0)
    } else if index == 9 {
        read_error_message(data, at0)
    } else if index == 10 {
        Ok((ProtocolMessage::Disconnect, at0))
    } else {
        Err(WireError::InvalidTag)
    }
}

/// Decodes the message that `data` begins with. It fails, saying why, where
/// the bytes are cut short or hold an index or a text that no message has.
pub fn deserialize_message(data: &[u8]) -> (res: Result<ProtocolMessage, WireError>)
    ensures
        match res {
            Ok(m) => decode_message(data@) == Ok::<MessageView, WireError>(m@),
            Err(e) => decode_message(data@) == Err::<MessageView, WireError>(e),
        },
{
    proof {
        reveal(decode_message);
    }
    match read_message(data, 0) {
        Ok((m, _)) => Ok(m),
        Err(e) => Err(e),
    }
}

// ---------------------------------------------------------------------------
// What stands where the parsers succeed
// ---------------------------------------------------------------------------

/// Where a platform is parsed, its encoding stands.
proof fn lemma_parse_platform_sound(s: Seq<u8>, pos: int)
    requires
        0 <= pos,
        parse_platform(s, pos) is Ok,
    ensures
        parse_platform(s, pos)->Ok_0.1 == pos + 4,
        holds_at(s, pos, u32_encoding(platform_index(parse_platform(s, pos)->Ok_0.0))),
{
    lemma_parse_u32_sound(s, pos);
}

/// Where a frame format is parsed, its encoding stands.
proof fn lemma_parse_format_sound(s: Seq<u8>, pos: int)
    requires
        0 <= pos,
        parse_format(s, pos) is Ok,
    ensures
        parse_format(s, pos)->Ok_0.1 == pos + 4,
        holds_at(s, pos, u32_encoding(format_index(parse_format(s, pos)->Ok_0.0))),
{
    lemma_parse_u32_sound(s, pos);
}

/// Where a mouse button is parsed, its encoding stands.
proof fn lemma_parse_button_sound(s: Seq<u8>, pos: int)
    requires
        0 <= pos,
        parse_button(s, pos) is Ok,
    ensures
        parse_button(s, pos)->Ok_0.1 == pos + 4,
        holds_at(s, pos, u32_encoding(button_index(parse_button(s, pos)->Ok_0.0))),
{
    lemma_parse_u32_sound(s, pos);
}

/// Where a session identifier is parsed, its encoding stands.
proof fn lemma_parse_session_id_sound(s: Seq<u8>, pos: int)
    requires
        0 <= pos,
        parse_session_id(s, pos) is Ok,
    ensures
        parse_session_id(s, pos)->Ok_0.1 == pos + 24,
        holds_at(s, pos, session_id_encoding(parse_session_id(s, pos)->Ok_0.0)),
{
    lemma_parse_bytes_sound(s, pos);
    let raw = parse_bytes(s, pos)->Ok_0.0;
    lemma_sixteen_digits_fit_u128(raw);
    lemma_be_bytes_of_value(raw);
    lemma_le_bytes_len(16, 8);
}

/// Where an optional session identifier is parsed, its encoding stands.
proof fn lemma_parse_optional_session_id_sound(s: Seq<u8>, pos: int)
    requires
        0 <= pos,
        parse_optional_session_id(s, pos) is Ok,
    ensures
        parse_optional_session_id(s, pos)->Ok_0.1 == pos + optional_session_id_encoding(
            parse_optional_session_id(s, pos)->Ok_0.0,
        ).len(),
        holds_at(
            s,
            pos,
            optional_session_id_encoding(parse_optional_session_id(s, pos)->Ok_0.0),
        ),
{
    if s[pos] == 0 {
        assert(s.subrange(pos, pos + 1) =~= seq![0u8]);
    } else {
        lemma_parse_session_id_sound(s, pos + 1);
        let id = parse_session_id(s, pos + 1)->Ok_0.0;
        lemma_session_id_encoding_len(id);
        assert(s.subrange(pos, pos + 1) =~= seq![1u8]);
        lemma_holds_at_join(s, pos, seq![1u8], session_id_encoding(id));
    }
}

/// Where an input event is parsed, its encoding stands.
proof fn lemma_parse_input_event_sound(s: Seq<u8>, pos: int)
    requires
        0 <= pos,
        parse_input_event(s, pos) is Ok,
    ensures
        parse_input_event(s, pos)->Ok_0.1 == pos + input_event_encoding(
            parse_input_event(s, pos)->Ok_0.0,
        ).len(),
        holds_at(s, pos, input_event_encoding(parse_input_event(s, pos)->Ok_0.0)),
{
    lemma_parse_u32_sound(s, pos);
    let index = parse_u32(s, pos)->Ok_0.0;
    let event = parse_input_event(s, pos)->Ok_0.0;
    lemma_input_event_encoding_len(event);
    lemma_le_bytes_len(index as int, 4);
    if index == 0 || index == 2 {
        lemma_parse_i32_sound(s, pos + 4);
        lemma_parse_i32_sound(s, pos + 8);
        let a = parse_i32(s, pos + 4)->Ok_0.0;
        let b = parse_i32(s, pos + 8)->Ok_0.0;
        lemma_le_bytes_len(crate::wire::i32_bits(a) as int, 4);
        lemma_holds_at_join(s, pos, u32_encoding(index), i32_encoding(a));
        lemma_holds_at_join(s, pos, u32_encoding(index) + i32_encoding(a), i32_encoding(b));
    } else if index == 1 {
        lemma_parse_button_sound(s, pos + 4);
        lemma_parse_bool_sound(s, pos + 8);
        let button = parse_button(s, pos + 4)->Ok_0.0;
        let pressed = parse_bool(s, pos + 8)->Ok_0.0;
        let code = u32_encoding(button_index(button));
        lemma_le_bytes_len(button_index(button) as int, 4);
        lemma_holds_at_join(s, pos, u32_encoding(index), code);
        lemma_holds_at_join(s, pos, u32_encoding(index) + code, bool_encoding(pressed));
    } else {
        lemma_parse_u32_sound(s, pos + 4);
        lemma_parse_bool_sound(s, pos + 8);
        let code = parse_u32(s, pos + 4)->Ok_0.0;
        let pressed = parse_bool(s, pos + 8)->Ok_0.0;
        lemma_le_bytes_len(code as int, 4);
        lemma_holds_at_join(s, pos, u32_encoding(index), u32_encoding(code));
        lemma_holds_at_join(
            s,
            pos,
            u32_encoding(index) + u32_encoding(code),
            bool_encoding(pressed),
        );
    }
}

/// Where the fields of a `Hello` are parsed, their encoding stands.
proof fn lemma_parse_hello_sound(s: Seq<u8>, pos: int)
    requires
        0 <= pos,
        parse_hello(s, pos) is Ok,
    ensures
        parse_hello(s, pos)->Ok_0.0 is Hello,
        parse_hello(s, pos)->Ok_0.0.encodable(),
        parse_hello(s, pos)->Ok_0.1 == pos + message_body_encoding(
            parse_hello(s, pos)->Ok_0.0,
        ).len(),
        holds_at(s, pos, message_body_encoding(parse_hello(s, pos)->Ok_0.0)),
{
    lemma_parse_u32_sound(s, pos);
    let version = parse_u32(s, pos)->Ok_0.0;
    lemma_le_bytes_len(version as int, 4);
    lemma_parse_text_sound(s, pos + 4);
    let device_id = parse_text(s, pos + 4)->Ok_0.0;
    let at2 = parse_text(s, pos + 4)->Ok_0.1;
    lemma_parse_platform_sound(s, at2);
    let platform = parse_platform(s, at2)->Ok_0.0;
    lemma_le_bytes_len(platform_index(platform) as int, 4);
    lemma_holds_at_join(s, pos, u32_encoding(version), text_encoding(device_id));
    lemma_holds_at_join(
        s,
        pos,
        u32_encoding(version) + text_encoding(device_id),
        u32_encoding(platform_index(platform)),
    );
}

/// Where the fields of an `Auth` are parsed, their encoding stands.
proof fn lemma_parse_auth_sound(s: Seq<u8>, pos: int)
    requires
        0 <= pos,
        parse_auth(s, pos) is Ok,
    ensures
        parse_auth(s, pos)->Ok_0.0 is Auth,
        parse_auth(s, pos)->Ok_0.0.encodable(),
        parse_auth(s, pos)->Ok_0.1 == pos + message_body_encoding(
            parse_auth(s, pos)->Ok_0.0,
        ).len(),
        holds_at(s, pos, message_body_encoding(parse_auth(s, pos)->Ok_0.0)),
{
    lemma_parse_text_sound(s, pos);
    let token = parse_text(s, pos)->Ok_0.0;
    let at1 = parse_text(s, pos)->Ok_0.1;
    lemma_parse_text_sound(s, at1);
    let device_id = parse_text(s, at1)->Ok_0.0;
    lemma_holds_at_join(s, pos, text_encoding(token), text_encoding(device_id));
}

/// Where the fields of an `AuthResponse` are parsed, their encoding
/// stands.
proof fn lemma_parse_auth_response_sound(s: Seq<u8>, pos: int)
    requires
        0 <= pos,
        parse_auth_response(s, pos) is Ok,
    ensures
        parse_auth_response(s, pos)->Ok_0.0 is AuthResponse,
        parse_auth_response(s, pos)->Ok_0.0.encodable(),
        parse_auth_response(s, pos)->Ok_0.1 == pos + message_body_encoding(
            parse_auth_response(s, pos)->Ok_0.0,
        ).len(),
        holds_at(s, pos, message_body_encoding(parse_auth_response(s, pos)->Ok_0.0)),
{
    lemma_parse_bool_sound(s, pos);
    let success = parse_bool(s, pos)->Ok_0.0;
    lemma_parse_optional_session_id_sound(s, pos + 1);
    let session_id = parse_optional_session_id(s, pos + 1)->Ok_0.0;
    let at2 = parse_optional_session_id(s, pos + 1)->Ok_0.1;
    lemma_parse_optional_text_sound(s, at2);
    let error = parse_optional_text(s, at2)->Ok_0.0;
    lemma_holds_at_join(s, pos, bool_encoding(success), optional_session_id_encoding(session_id));
    lemma_holds_at_join(
        s,
        pos,
        bool_encoding(success) + optional_session_id_encoding(session_id),
        optional_text_encoding(error),
    );
}

/// Where a session identifier and a text are parsed one behind the
/// other, their encodings stand.
proof fn lemma_parse_session_id_text_sound(s: Seq<u8>, pos: int)
    requires
        0 <= pos,
        parse_session_id(s, pos) is Ok,
        parse_text(s, pos + 24) is Ok,
    ensures
        text_encodable(parse_text(s, pos + 24)->Ok_0.0),
        parse_text(s, pos + 24)->Ok_0.1 == pos + (session_id_encoding(
            parse_session_id(s, pos)->Ok_0.0,
        ) + text_encoding(parse_text(s, pos + 24)->Ok_0.0)).len(),
        holds_at(
            s,
            pos,
            session_id_encoding(parse_session_id(s, pos)->Ok_0.0) + text_encoding(
                parse_text(s, pos + 24)->Ok_0.0,
            ),
        ),
{
    lemma_parse_session_id_sound(s, pos);
    let id = parse_session_id(s, pos)->Ok_0.0;
    lemma_session_id_encoding_len(id);
    lemma_parse_text_sound(s, pos + 24);
    let text = parse_text(s, pos + 24)->Ok_0.0;
    lemma_holds_at_join(s, pos, session_id_encoding(id), text_encoding(text));
}

/// Where the fields of a `ScreenFrame` are parsed, their encoding stands.
proof fn lemma_parse_screen_frame_sound(s: Seq<u8>, pos: int)
    requires
        0 <= pos,
        parse_screen_frame(s, pos) is Ok,
    ensures
        parse_screen_frame(s, pos)->Ok_0.0 is ScreenFrame,
        parse_screen_frame(s, pos)->Ok_0.0.encodable(),
        parse_screen_frame(s, pos)->Ok_0.1 == pos + message_body_encoding(
            parse_screen_frame(s, pos)->Ok_0.0,
        ).len(),
        holds_at(s, pos, message_body_encoding(parse_screen_frame(s, pos)->Ok_0.0)),
{
    lemma_parse_u64_sound(s, pos);
    lemma_parse_u64_sound(s, pos + 8);
    let sequence = parse_u64(s, pos)->Ok_0.0;
    let timestamp = parse_u64(s, pos + 8)->Ok_0.0;
    lemma_le_bytes_len(sequence as int, 8);
    lemma_le_bytes_len(timestamp as int, 8);
    lemma_parse_bytes_sound(s, pos + 16);
    let data = parse_bytes(s, pos + 16)->Ok_0.0;
    let at3 = parse_bytes(s, pos + 16)->Ok_0.1;
    lemma_parse_u32_sound(s, at3);
    lemma_parse_u32_sound(s, at3 + 4);
    lemma_parse_format_sound(s, at3 + 8);
    let width = parse_u32(s, at3)->Ok_0.0;
    let height = parse_u32(s, at3 + 4)->Ok_0.0;
    let format = parse_format(s, at3 + 8)->Ok_0.0;
    lemma_le_bytes_len(width as int, 4);
    lemma_le_bytes_len(height as int, 4);
    lemma_le_bytes_len(format_index(format) as int, 4);
    let a = u64_encoding(sequence);
    let b = u64_encoding(timestamp);
    let c = bytes_encoding(data);
    let d = u32_encoding(width);
    let e = u32_encoding(height);
    let f = u32_encoding(format_index(format));
    lemma_holds_at_join(s, pos, a, b);
    lemma_holds_at_join(s, pos, a + b, c);
    lemma_holds_at_join(s, pos, a + b + c, d);
    lemma_holds_at_join(s, pos, a + b + c + d, e);
    lemma_holds_at_join(s, pos, a + b + c + d + e, f);
}

/// Where the fields of a message are parsed, the encoding of those fields
/// stands, and the message is encodable.
proof fn lemma_parse_body_sound(index: u32, s: Seq<u8>, pos: int)
    requires
        0 <= pos <= s.len(),
        parse_message_body(index, s, pos) is Ok,
    ensures
        message_index(parse_message_body(index, s, pos)->Ok_0.0) == index,
        parse_message_body(index, s, pos)->Ok_0.0.encodable(),
        parse_message_body(index, s, pos)->Ok_0.1 == pos + message_body_encoding(
            parse_message_body(index, s, pos)->Ok_0.0,
        ).len(),
        holds_at(s, pos, message_body_encoding(parse_message_body(index, s, pos)->Ok_0.0)),
{
    if index == 0 {
        lemma_parse_hello_sound(s, pos);
    } else if index == 1 {
        lemma_parse_auth_sound(s, pos);
    } else if index == 2 {
        lemma_parse_auth_response_sound(s, pos);
    } else if index == 3 {
        lemma_parse_text_sound(s, pos);
    } else if index == 4 {
        lemma_parse_session_id_sound(s, pos);
        lemma_parse_session_id_text_sound(s, pos);
    } else if index == 5 {
        lemma_parse_session_id_sound(s, pos);
        lemma_parse_session_id_text_sound(s, pos);
    } else if index == 6 {
        lemma_parse_screen_frame_sound(s, pos);
    } else if index == 7 {
        lemma_parse_u64_sound(s, pos);
        let timestamp = parse_u64(s, pos)->Ok_0.0;
        lemma_le_bytes_len(timestamp as int, 8);
        lemma_parse_input_event_sound(s, pos + 8);
        let event = parse_input_event(s, pos + 8)->Ok_0.0;
        lemma_holds_at_join(s, pos, u64_encoding(timestamp), input_event_encoding(event));
    } else if index == 8 {
        lemma_parse_u64_sound(s, pos);
        lemma_le_bytes_len(parse_u64(s, pos)->Ok_0.0 as int, 8);
    } else if index == 9 {
        lemma_parse_u32_sound(s, pos);
        let code = parse_u32(s, pos)->Ok_0.0;
        lemma_le_bytes_len(code as int, 4);
        lemma_parse_text_sound(s, pos + 4);
        let message = parse_text(s, pos + 4)->Ok_0.0;
        lemma_holds_at_join(s, pos, u32_encoding(code), text_encoding(message));
    } else {
        assert(s.subrange(pos, pos) =~= Seq::<u8>::empty());
    }
}

/// Where a message is parsed, its encoding stands: the parser accepts
/// nothing but encodings, and reads each as the message that it encodes.
pub proof fn lemma_parse_message_sound(s: Seq<u8>, pos: int)
    requires
        0 <= pos,
        parse_message(s, pos) is Ok,
    ensures
        parse_message(s, pos)->Ok_0.0.encodable(),
        parse_message(s, pos)->Ok_0.1 == pos + message_encoding(
            parse_message(s, pos)->Ok_0.0,
        ).len(),
        holds_at(s, pos, message_encoding(parse_message(s, pos)->Ok_0.0)),
{
    lemma_parse_u32_sound(s, pos);
    let index = parse_u32(s, pos)->Ok_0.0;
    lemma_le_bytes_len(index as int, 4);
    lemma_parse_body_sound(index, s, pos + 4);
    let m = parse_message_body(index, s, pos + 4)->Ok_0.0;
    lemma_holds_at_join(s, pos, u32_encoding(index), message_body_encoding(m));
}

/// Decoding is the inverse of encoding, and of nothing else: a byte
/// sequence decodes to a message exactly if it begins with the encoding of
/// that message.
pub proof fn lemma_decode_inverts_encode(s: Seq<u8>, m: MessageView)
    ensures
        decode_message(s) == Ok::<MessageView, WireError>(m) <==> m.encodable()
            && message_encoding(m).is_prefix_of(s),
{
    reveal(decode_message);
    if decode_message(s) == Ok::<MessageView, WireError>(m) {
        lemma_parse_message_sound(s, 0);
        let enc = message_encoding(m);
        assert(enc =~= s.subrange(0, enc.len() as int));
    }
    if m.encodable() && message_encoding(m).is_prefix_of(s) {
        let enc = message_encoding(m);
        assert(s.subrange(0, enc.len() as int) =~= enc);
        lemma_parse_message_of_encoding(s, 0, m);
    }
}

// ---------------------------------------------------------------------------
// What the parsers make of an encoding that is cut short
// ---------------------------------------------------------------------------

/// Where the encoding of a session identifier is cut short, the parser says so.
proof fn lemma_parse_session_id_of_cut(s: Seq<u8>, pos: int, id: SessionId)
    requires
        cut_at(s, pos, session_id_encoding(id)),
    ensures
        parse_session_id(s, pos) == Err::<(SessionId, int), WireError>(WireError::Truncated),
{
    lemma_u128_has_sixteen_digits(id.0 as int);
    lemma_be_value_of_bytes(id.0 as int, 16);
    lemma_parse_bytes_of_cut(s, pos, be_bytes(id.0 as int, 16));
}

/// Where the encoding of an optional session identifier is cut short, the
/// parser says so.
proof fn lemma_parse_optional_session_id_of_cut(s: Seq<u8>, pos: int, id: Option<SessionId>)
    requires
        cut_at(s, pos, optional_session_id_encoding(id)),
    ensures
        parse_optional_session_id(s, pos) == Err::<(Option<SessionId>, int), WireError>(
            WireError::Truncated,
        ),
{
    match id {
        None => {},
        Some(some_id) => {
            lemma_cut_at_split(s, pos, seq![1u8], session_id_encoding(some_id));
            if !cut_at(s, pos, seq![1u8]) {
                assert(s.subrange(pos, pos + 1)[0] == 1u8);
                lemma_parse_session_id_of_cut(s, pos + 1, some_id);
            }
        },
    }
}

/// Where the encodings of two `i32` are cut short, the parser says so.
proof fn lemma_parse_two_i32_of_cut(s: Seq<u8>, pos: int, a: i32, b: i32)
    requires
        cut_at(s, pos, i32_encoding(a) + i32_encoding(b)),
    ensures
        parse_two_i32(s, pos) == Err::<((i32, i32), int), WireError>(WireError::Truncated),
{
    lemma_le_bytes_len(crate::wire::i32_bits(a) as int, 4);
    lemma_cut_at_split(s, pos, i32_encoding(a), i32_encoding(b));
    if cut_at(s, pos, i32_encoding(a)) {
        lemma_parse_i32_of_cut(s, pos, a);
    } else {
        lemma_parse_i32_of_encoding(s, pos, a);
        lemma_parse_i32_of_cut(s, pos + 4, b);
    }
}

/// Where the encodings of a `u32` and a boolean are cut short, one of the two
/// parsers says so.
proof fn lemma_parse_u32_bool_of_cut(s: Seq<u8>, pos: int, v: u32, b: bool)
    requires
        cut_at(s, pos, u32_encoding(v) + bool_encoding(b)),
    ensures
        parse_u32(s, pos) == Err::<(u32, int), WireError>(WireError::Truncated) || (parse_u32(
            s,
            pos,
        ) == Ok::<(u32, int), WireError>((v, pos + 4)) && parse_bool(s, pos + 4) == Err::<
            (bool, int),
            WireError,
        >(WireError::Truncated)),
{
    lemma_le_bytes_len(v as int, 4);
    lemma_cut_at_split(s, pos, u32_encoding(v), bool_encoding(b));
    if cut_at(s, pos, u32_encoding(v)) {
        lemma_parse_u32_of_cut(s, pos, v);
    } else {
        lemma_parse_u32_of_encoding(s, pos, v);
        lemma_parse_bool_of_cut(s, pos + 4, b);
    }
}

/// Where the encoding of an input event is cut short, the parser says so.
proof fn lemma_parse_input_event_of_cut(s: Seq<u8>, pos: int, event: InputEvent)
    requires
        cut_at(s, pos, input_event_encoding(event)),
    ensures
        parse_input_event(s, pos) == Err::<(InputEvent, int), WireError>(WireError::Truncated),
{
    match event {
        InputEvent::MouseMove { x, y } => {
            let tag = u32_encoding(0);
            let rest = i32_encoding(x) + i32_encoding(y);
            lemma_le_bytes_len(0, 4);
            assert(input_event_encoding(event) =~= tag + rest);
            lemma_cut_at_split(s, pos, tag, rest);
            if cut_at(s, pos, tag) {
                lemma_parse_u32_of_cut(s, pos, 0);
            } else {
                lemma_parse_u32_of_encoding(s, pos, 0);
                lemma_parse_two_i32_of_cut(s, pos + 4, x, y);
            }
        },
        InputEvent::MouseButton { button, pressed } => {
            let tag = u32_encoding(1);
            let rest = u32_encoding(button_index(button)) + bool_encoding(pressed);
            lemma_le_bytes_len(1, 4);
            assert(input_event_encoding(event) =~= tag + rest);
            lemma_cut_at_split(s, pos, tag, rest);
            if cut_at(s, pos, tag) {
                lemma_parse_u32_of_cut(s, pos, 1);
            } else {
                lemma_parse_u32_of_encoding(s, pos, 1);
                lemma_parse_u32_bool_of_cut(s, pos + 4, button_index(button), pressed);
            }
        },
        InputEvent::MouseScroll { delta_x, delta_y } => {
            let tag = u32_encoding(2);
            let rest = i32_encoding(delta_x) + i32_encoding(delta_y);
            lemma_le_bytes_len(2, 4);
            assert(input_event_encoding(event) =~= tag + rest);
            lemma_cut_at_split(s, pos, tag, rest);
            if cut_at(s, pos, tag) {
                lemma_parse_u32_of_cut(s, pos, 2);
            } else {
                lemma_parse_u32_of_encoding(s, pos, 2);
                lemma_parse_two_i32_of_cut(s, pos + 4, delta_x, delta_y);
            }
        },
        InputEvent::KeyPress { key, pressed } => {
            let tag = u32_encoding(3);
            let rest = u32_encoding(key.0) + bool_encoding(pressed);
            lemma_le_bytes_len(3, 4);
            assert(input_event_encoding(event) =~= tag + rest);
            lemma_cut_at_split(s, pos, tag, rest);
            if cut_at(s, pos, tag) {
                lemma_parse_u32_of_cut(s, pos, 3);
            } else {
                lemma_parse_u32_of_encoding(s, pos, 3);
                lemma_parse_u32_bool_of_cut(s, pos + 4, key.0, pressed);
            }
        },
    }
}

/// Where the encodings of two texts are cut short, one of the two parsers
/// says so.
proof fn lemma_parse_text_pair_of_cut(s: Seq<u8>, pos: int, a: Seq<char>, b: Seq<char>)
    requires
        text_encodable(a),
        text_encodable(b),
        cut_at(s, pos, text_encoding(a) + text_encoding(b)),
    ensures
        parse_text(s, pos) == Err::<(Seq<char>, int), WireError>(WireError::Truncated) || (
        parse_text(s, pos) == Ok::<(Seq<char>, int), WireError>(
            (a, pos + text_encoding(a).len()),
        ) && parse_text(s, pos + text_encoding(a).len()) == Err::<(Seq<char>, int), WireError>(
            WireError::Truncated,
        )),
{
    lemma_cut_at_split(s, pos, text_encoding(a), text_encoding(b));
    if cut_at(s, pos, text_encoding(a)) {
        lemma_parse_text_of_cut(s, pos, a);
    } else {
        lemma_parse_text_of_encoding(s, pos, a);
        lemma_parse_text_of_cut(s, pos + text_encoding(a).len(), b);
    }
}

/// Where the encodings of a session identifier and a text are cut short, one
/// of the two parsers says so.
proof fn lemma_parse_session_id_text_of_cut(s: Seq<u8>, pos: int, id: SessionId, t: Seq<char>)
    requires
        text_encodable(t),
        cut_at(s, pos, session_id_encoding(id) + text_encoding(t)),
    ensures
        parse_session_id(s, pos) == Err::<(SessionId, int), WireError>(WireError::Truncated) || (
        parse_session_id(s, pos) == Ok::<(SessionId, int), WireError>((id, pos + 24))
            && parse_text(s, pos + 24) == Err::<(Seq<char>, int), WireError>(
            WireError::Truncated,
        )),
{
    lemma_session_id_encoding_len(id);
    lemma_cut_at_split(s, pos, session_id_encoding(id), text_encoding(t));
    if cut_at(s, pos, session_id_encoding(id)) {
        lemma_parse_session_id_of_cut(s, pos, id);
    } else {
        lemma_parse_session_id_of_encoding(s, pos, id);
        lemma_parse_text_of_cut(s, pos + 24, t);
    }
}

/// Where the fields of a `Hello` are cut short, the parser says so.
proof fn lemma_parse_hello_of_cut(s: Seq<u8>, pos: int, m: MessageView)
    requires
        m is Hello,
        m.encodable(),
        cut_at(s, pos, message_body_encoding(m)),
    ensures
        parse_hello(s, pos) == Err::<(MessageView, int), WireError>(WireError::Truncated),
{
    let a = u32_encoding(m->version);
    let b = text_encoding(m->device_id);
    let c = u32_encoding(platform_index(m->platform));
    lemma_le_bytes_len(m->version as int, 4);
    lemma_cut_at_split(s, pos, a + b, c);
    if cut_at(s, pos, a + b) {
        lemma_cut_at_split(s, pos, a, b);
        if cut_at(s, pos, a) {
            lemma_parse_u32_of_cut(s, pos, m->version);
        } else {
            lemma_parse_u32_of_encoding(s, pos, m->version);
            lemma_parse_text_of_cut(s, pos + 4, m->device_id);
        }
    } else {
        lemma_holds_at_split(s, pos, a, b);
        lemma_parse_u32_of_encoding(s, pos, m->version);
        lemma_parse_text_of_encoding(s, pos + 4, m->device_id);
        lemma_parse_u32_of_cut(s, pos + 4 + b.len(), platform_index(m->platform));
    }
}

/// Where the fields of an `AuthResponse` are cut short, the parser says so.
proof fn lemma_parse_auth_response_of_cut(s: Seq<u8>, pos: int, m: MessageView)
    requires
        m is AuthResponse,
        m.encodable(),
        cut_at(s, pos, message_body_encoding(m)),
    ensures
        parse_auth_response(s, pos) == Err::<(MessageView, int), WireError>(WireError::Truncated),
{
    let a = bool_encoding(m->success);
    let b = optional_session_id_encoding(m->AuthResponse_session_id);
    let c = optional_text_encoding(m->error);
    lemma_cut_at_split(s, pos, a + b, c);
    if cut_at(s, pos, a + b) {
        lemma_cut_at_split(s, pos, a, b);
        if cut_at(s, pos, a) {
            lemma_parse_bool_of_cut(s, pos, m->success);
        } else {
            lemma_parse_bool_of_encoding(s, pos, m->success);
            lemma_parse_optional_session_id_of_cut(s, pos + 1, m->AuthResponse_session_id);
        }
    } else {
        lemma_holds_at_split(s, pos, a, b);
        lemma_parse_bool_of_encoding(s, pos, m->success);
        lemma_parse_optional_session_id_of_encoding(s, pos + 1, m->AuthResponse_session_id);
        lemma_parse_optional_text_of_cut(s, pos + 1 + b.len(), m->error);
    }
}

/// Where the fields of a `ScreenFrame` are cut short, the parser says so.
proof fn lemma_parse_screen_frame_of_cut(s: Seq<u8>, pos: int, m: MessageView)
    requires
        m is ScreenFrame,
        m.encodable(),
        cut_at(s, pos, message_body_encoding(m)),
    ensures
        parse_screen_frame(s, pos) == Err::<(MessageView, int), WireError>(WireError::Truncated),
{
    let a = u64_encoding(m->sequence);
    let b = u64_encoding(m->ScreenFrame_timestamp);
    let c = bytes_encoding(m->data);
    let d = u32_encoding(m->width);
    let e = u32_encoding(m->height);
    let f = u32_encoding(format_index(m->format));
    lemma_le_bytes_len(m->sequence as int, 8);
    lemma_le_bytes_len(m->ScreenFrame_timestamp as int, 8);
    lemma_le_bytes_len(m->data.len() as int, 8);
    lemma_le_bytes_len(m->width as int, 4);
    lemma_le_bytes_len(m->height as int, 4);
    let at3 = pos + 16 + c.len();
    lemma_cut_at_split(s, pos, a + b + c + d + e, f);
    if cut_at(s, pos, a + b + c + d + e) {
        lemma_cut_at_split(s, pos, a + b + c + d, e);
        if cut_at(s, pos, a + b + c + d) {
            lemma_cut_at_split(s, pos, a + b + c, d);
            if cut_at(s, pos, a + b + c) {
                lemma_cut_at_split(s, pos, a + b, c);
                if cut_at(s, pos, a + b) {
                    lemma_cut_at_split(s, pos, a, b);
                    if cut_at(s, pos, a) {
                        lemma_parse_u64_of_cut(s, pos, m->sequence);
                    } else {
                        lemma_parse_u64_of_encoding(s, pos, m->sequence);
                        lemma_parse_u64_of_cut(s, pos + 8, m->ScreenFrame_timestamp);
                    }
                } else {
                    lemma_holds_at_split(s, pos, a, b);
                    lemma_parse_u64_of_encoding(s, pos, m->sequence);
                    lemma_parse_u64_of_encoding(s, pos + 8, m->ScreenFrame_timestamp);
                    lemma_parse_bytes_of_cut(s, pos + 16, m->data);
                }
            } else {
                lemma_holds_at_split(s, pos, a + b, c);
                lemma_holds_at_split(s, pos, a, b);
                lemma_parse_u64_of_encoding(s, pos, m->sequence);
                lemma_parse_u64_of_encoding(s, pos + 8, m->ScreenFrame_timestamp);
                lemma_parse_bytes_of_encoding(s, pos + 16, m->data);
                lemma_parse_u32_of_cut(s, at3, m->width);
            }
        } else {
            lemma_holds_at_split(s, pos, a + b + c, d);
            lemma_holds_at_split(s, pos, a + b, c);
            lemma_holds_at_split(s, pos, a, b);
            lemma_parse_u64_of_encoding(s, pos, m->sequence);
            lemma_parse_u64_of_encoding(s, pos + 8, m->ScreenFrame_timestamp);
            lemma_parse_bytes_of_encoding(s, pos + 16, m->data);
            lemma_parse_u32_of_encoding(s, at3, m->width);
            lemma_parse_u32_of_cut(s, at3 + 4, m->height);
        }
    } else {
        lemma_holds_at_split(s, pos, a + b + c + d, e);
        lemma_holds_at_split(s, pos, a + b + c, d);
        lemma_holds_at_split(s, pos, a + b, c);
        lemma_holds_at_split(s, pos, a, b);
        lemma_parse_u64_of_encoding(s, pos, m->sequence);
        lemma_parse_u64_of_encoding(s, pos + 8, m->ScreenFrame_timestamp);
        lemma_parse_bytes_of_encoding(s, pos + 16, m->data);
        lemma_parse_u32_of_encoding(s, at3, m->width);
        lemma_parse_u32_of_encoding(s, at3 + 4, m->height);
        lemma_parse_u32_of_cut(s, at3 + 8, format_index(m->format));
    }
}

/// Where the fields of a message are cut short, the parser says so.
proof fn lemma_parse_body_of_cut(s: Seq<u8>, pos: int, m: MessageView)
    requires
        m.encodable(),
        cut_at(s, pos, message_body_encoding(m)),
    ensures
        parse_message_body(message_index(m), s, pos) == Err::<(MessageView, int), WireError>(
            WireError::Truncated,
        ),
{
    match m {
        MessageView::Hello { .. } => {
            lemma_parse_hello_of_cut(s, pos, m);
        },
        MessageView::Auth { token } => {
            lemma_parse_text_pair_of_cut(s, pos, token.token, token.device_id);
        },
        MessageView::AuthResponse { .. } => {
            lemma_parse_auth_response_of_cut(s, pos, m);
        },
        MessageView::SessionRequest { target_device } => {
            lemma_parse_text_of_cut(s, pos, target_device);
        },
        MessageView::SessionCreated { session_id, endpoint } => {
            lemma_parse_session_id_text_of_cut(s, pos, session_id, endpoint);
        },
        MessageView::SessionEnd { session_id, reason } => {
            lemma_parse_session_id_text_of_cut(s, pos, session_id, reason);
        },
        MessageView::ScreenFrame { .. } => {
            lemma_parse_screen_frame_of_cut(s, pos, m);
        },
        MessageView::InputEvent { timestamp, event } => {
            lemma_le_bytes_len(timestamp as int, 8);
            lemma_cut_at_split(s, pos, u64_encoding(timestamp), input_event_encoding(event));
            if cut_at(s, pos, u64_encoding(timestamp)) {
                lemma_parse_u64_of_cut(s, pos, timestamp);
            } else {
                lemma_parse_u64_of_encoding(s, pos, timestamp);
                lemma_parse_input_event_of_cut(s, pos + 8, event);
            }
        },
        MessageView::Heartbeat { timestamp } => {
            lemma_parse_u64_of_cut(s, pos, timestamp);
        },
        MessageView::Error { code, message } => {
            lemma_le_bytes_len(code as int, 4);
            lemma_cut_at_split(s, pos, u32_encoding(code), text_encoding(message));
            if cut_at(s, pos, u32_encoding(code)) {
                lemma_parse_u32_of_cut(s, pos, code);
            } else {
                lemma_parse_u32_of_encoding(s, pos, code);
                lemma_parse_text_of_cut(s, pos + 4, message);
            }
        },
        MessageView::Disconnect => {},
    }
}

/// Truncation: the encoding of a message, cut short anywhere, does not
/// decode: the decoder reports that the input ends before the message does.
pub proof fn lemma_decode_of_truncated(m: MessageView, cut: int)
    requires
        m.encodable(),
        0 <= cut < message_encoding(m).len(),
    ensures
        decode_message(message_encoding(m).take(cut)) == Err::<MessageView, WireError>(
            WireError::Truncated,
        ),
{
    reveal(decode_message);
    let s = message_encoding(m).take(cut);
    let tag = u32_encoding(message_index(m));
    lemma_le_bytes_len(message_index(m) as int, 4);
    assert(s.subrange(0, s.len() as int) =~= message_encoding(m).take(s.len() - 0));
    lemma_cut_at_split(s, 0, tag, message_body_encoding(m));
    if cut_at(s, 0, tag) {
        lemma_parse_u32_of_cut(s, 0, message_index(m));
    } else {
        lemma_parse_u32_of_encoding(s, 0, message_index(m));
        lemma_parse_body_of_cut(s, 4, m);
    }
}

/// Unknown variants: bytes that begin with a variant index above that of
/// `Disconnect` do not decode, whatever follows: the decoder reports an
/// invalid tag.
pub proof fn lemma_decode_of_unknown_index(index: u32, rest: Seq<u8>)
    requires
        index > 10,
    ensures
        decode_message(u32_encoding(index) + rest) == Err::<MessageView, WireError>(
            WireError::InvalidTag,
        ),
{
    reveal(decode_message);
    let tag = u32_encoding(index);
    lemma_le_bytes_len(index as int, 4);
    assert((tag + rest).subrange(0, 4) =~= tag);
    lemma_parse_u32_of_encoding(tag + rest, 0, index);
}

} // verus!
