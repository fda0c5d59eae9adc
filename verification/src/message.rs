//! The messages that two peers exchange, whatever transport carries them.

use crate::models::{AuthToken, AuthTokenView, FrameFormat, InputEvent, Platform, SessionId};
use crate::wire::{bytes_encodable, text_encodable};
use vstd::prelude::*;

verus! {

/// One unit of the application protocol.
#[derive(Debug, Clone, PartialEq, Eq)]
pub enum ProtocolMessage {
    Hello { version: u32, device_id: String, platform: Platform },
    Auth { token: AuthToken },
    AuthResponse { success: bool, session_id: Option<SessionId>, error: Option<String> },
    SessionRequest { target_device: String },
    SessionCreated { session_id: SessionId, endpoint: String },
    SessionEnd { session_id: SessionId, reason: String },
    ScreenFrame {
        sequence: u64,
        timestamp: u64,
        data: Vec<u8>,
        width: u32,
        height: u32,
        format: FrameFormat,
    },
    InputEvent { timestamp: u64, event: InputEvent },
    Heartbeat { timestamp: u64 },
    Error { code: u32, message: String },
    Disconnect,
}

/// The mathematical value of a [`ProtocolMessage`].
pub enum MessageView {
    Hello { version: u32, device_id: Seq<char>, platform: Platform },
    Auth { token: AuthTokenView },
    AuthResponse { success: bool, session_id: Option<SessionId>, error: Option<Seq<char>> },
    SessionRequest { target_device: Seq<char> },
    SessionCreated { session_id: SessionId, endpoint: Seq<char> },
    SessionEnd { session_id: SessionId, reason: Seq<char> },
    ScreenFrame {
        sequence: u64,
        timestamp: u64,
        data: Seq<u8>,
        width: u32,
        height: u32,
        format: FrameFormat,
    },
    InputEvent { timestamp: u64, event: InputEvent },
    Heartbeat { timestamp: u64 },
    Error { code: u32, message: Seq<char> },
    Disconnect,
}

/// The text of an optional string.
pub open spec fn optional_text(text: Option<String>) -> Option<Seq<char>> {
    match text {
        Some(t) => Some(t@),
        None => None,
    }
}

impl View for ProtocolMessage {
    type V = MessageView;

    open spec fn view(&self) -> MessageView {
        match *self {
            ProtocolMessage::Hello { version, device_id, platform } => MessageView::Hello {
                version,
                device_id: device_id@,
                platform,
            },
            ProtocolMessage::Auth { token } => MessageView::Auth { token: token@ },
            ProtocolMessage::AuthResponse {
                success,
                session_id,
                error,
            } => MessageView::AuthResponse { success, session_id, error: optional_text(error) },
            ProtocolMessage::SessionRequest { target_device } => MessageView::SessionRequest {
                target_device: target_device@,
            },
            ProtocolMessage::SessionCreated {
                session_id,
                endpoint,
            } => MessageView::SessionCreated { session_id, endpoint: endpoint@ },
            ProtocolMessage::SessionEnd { session_id, reason } => MessageView::SessionEnd {
                session_id,
                reason: reason@,
            },
            ProtocolMessage::ScreenFrame {
                sequence,
                timestamp,
                data,
                width,
                height,
                format,
            } => MessageView::ScreenFrame {
                sequence,
                timestamp,
                data: data@,
                width,
                height,
                format,
            },
            ProtocolMessage::InputEvent { timestamp, event } => MessageView::InputEvent {
                timestamp,
                event,
            },
            ProtocolMessage::Heartbeat { timestamp } => MessageView::Heartbeat { timestamp },
            ProtocolMessage::Error { code, message } => MessageView::Error {
                code,
                message: message@,
            },
            ProtocolMessage::Disconnect => MessageView::Disconnect,
        }
    }
}

/// The protocol version that a peer announces in its greeting.
pub const PROTOCOL_VERSION: u32 = 1;

/// The greeting that opens a connection to the relay: the protocol version,
/// the device's identifier and its platform.
pub fn hello(device_id: String, platform: Platform) -> (message: ProtocolMessage)
    ensures
        message@ == (MessageView::Hello {
            version: PROTOCOL_VERSION,
            device_id: device_id@,
            platform,
        }),
{
    ProtocolMessage::Hello { version: PROTOCOL_VERSION, device_id, platform }
}

impl MessageView {
    /// True if every text and byte field is short enough for its length
    /// prefix. The view of every [`ProtocolMessage`] is.
    pub open spec fn encodable(self) -> bool {
        match self {
            MessageView::Hello { device_id, .. } => text_encodable(device_id),
            MessageView::Auth { token } => text_encodable(token.token) && text_encodable(
                token.device_id,
            ),
            MessageView::AuthResponse { error, .. } => error matches Some(t) ==> text_encodable(t),
            MessageView::SessionRequest { target_device } => text_encodable(target_device),
            MessageView::SessionCreated { endpoint, .. } => text_encodable(endpoint),
            MessageView::SessionEnd { reason, .. } => text_encodable(reason),
            MessageView::ScreenFrame { data, .. } => bytes_encodable(data),
            MessageView::InputEvent { .. } => true,
            MessageView::Heartbeat { .. } => true,
            MessageView::Error { message, .. } => text_encodable(message),
            MessageView::Disconnect => true,
        }
    }
}

} // verus!
