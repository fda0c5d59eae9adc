//! The relay transport: framed messages on one bidirectional stream of an
//! established connection.
//!
//! [`QuicTransport`] holds the decisions of the transport and none of its
//! I/O. Each operation says what has to be done on the connection next: open
//! the stream, write these bytes, read that many bytes, finish and close. The
//! caller does it and reports a failure back. A transport is open until it is
//! closed or a read or write fails; once closed it stays closed, and every
//! later operation fails. There is no reconnect.

use crate::error::TransportError;
use crate::framing::{
    frame_payload, header_length, message_frame, read_frame_length, sendable,
};
use crate::message::{MessageView, ProtocolMessage};
use crate::protocol::{decode_message, deserialize_message, serialize_message};
use crate::wire::WireError;
use vstd::prelude::*;

verus! {

/// The application-protocol identifier that both ends of a relay connection
/// must advertise.
pub fn alpn_protocol() -> (name: String)
    ensures
        name@ == "rdp/1"@,
{
    "rdp/1".to_owned()
}

/// The state of a relay transport.
#[derive(Debug, Clone, Copy, PartialEq, Eq, Structural)]
pub struct QuicTransport {
    stream_open: bool,
    closed: bool,
}

/// What a send asks of the connection.
#[derive(Debug, Clone, PartialEq, Eq)]
pub struct SendPlan {
    /// True if the bidirectional stream has to be opened first.
    pub open_stream: bool,
    /// The bytes to write to the stream, all of them.
    pub frame: Vec<u8>,
}

/// What a receive asks of the connection first.
#[derive(Debug, Clone, Copy, PartialEq, Eq, Structural)]
pub struct ReadPlan {
    /// True if the bidirectional stream has to be opened first.
    pub open_stream: bool,
    /// The number of bytes to read from the stream, exactly.
    pub header_len: usize,
}

/// What a close asks of the connection.
#[derive(Debug, Clone, PartialEq, Eq)]
pub struct ClosePlan {
    /// True if the outbound half of the stream has to be finished first.
    pub finish_stream: bool,
    /// The application code to close the connection with.
    pub code: u32,
    /// The reason to close the connection with.
    pub reason: String,
}

/// How an exact read of the stream can fail.
#[derive(Debug, Clone, PartialEq, Eq)]
pub enum ReadFailure {
    /// The stream ended before the bytes that were asked for.
    FinishedEarly,
    /// The stream or the connection failed; the text says how.
    ReadError(String),
}

impl QuicTransport {
    /// True if the bidirectional stream has been opened.
    pub closed spec fn has_stream(&self) -> bool {
        self.stream_open
    }

    /// True until the transport is closed.
    pub closed spec fn is_open(&self) -> bool {
        !self.closed
    }

    /// A transport for a connection that has just been established: open,
    /// with no stream yet.
    pub fn new() -> (transport: QuicTransport)
        ensures
            transport.is_open(),
            !transport.has_stream(),
    {
        QuicTransport { stream_open: false, closed: false }
    }

    /// True until the transport is closed.
    pub fn is_connected(&self) -> (connected: bool)
        ensures
            connected == self.is_open(),
    {
        !self.closed
    }

    /// Says whether the stream has to be opened now, and counts it as open
    /// from here on. The stream is opened on the first use and never again.
    pub fn ensure_stream(&mut self) -> (open_now: bool)
        ensures
            open_now == !old(self).has_stream(),
            final(self).has_stream(),
            final(self).is_open() == old(self).is_open(),
    {
        let open_now = !self.stream_open;
        self.stream_open = true;
        open_now
    }

    /// Plans the sending of a message: the frame that carries it, behind the
    /// opening of the stream on first use. A closed transport sends nothing,
    /// and a message whose encoding is too long for a frame is refused; in
    /// both cases the transport is left as it was.
    pub fn send(&mut self, message: &ProtocolMessage) -> (res: Result<SendPlan, TransportError>)
        ensures
            match res {
                Ok(plan) => {
                    &&& old(self).is_open()
                    &&& sendable(message@)
                    &&& plan.frame@ == message_frame(message@)
                    &&& plan.open_stream == !old(self).has_stream()
                    &&& final(self).has_stream()
                    &&& final(self).is_open()
                },
                Err(TransportError::Closed) => !old(self).is_open() && *final(self) == *old(self),
                Err(TransportError::ProtocolError(text)) => {
                    &&& old(self).is_open()
                    &&& !sendable(message@)
                    &&& *final(self) == *old(self)
                    &&& text@ == "message too large for a frame"@
                },
                Err(_) => false,
            },
    {
        if self.closed {
            return Err(TransportError::Closed);
        }
        let payload = serialize_message(message);
        match frame_payload(payload.as_slice()) {
            None => Err(TransportError::ProtocolError("message too large for a frame".to_owned())),
            Some(frame) => {
                let open_stream = self.ensure_stream();
                Ok(SendPlan { open_stream, frame })
            },
        }
    }

    /// The stream could not be opened: the transport is closed from here on,
    /// and the error carries the reason.
    pub fn open_failed(&mut self, reason: String) -> (err: TransportError)
        ensures
            err matches TransportError::ConnectionFailed(text) && text@ == reason@,
            !final(self).is_open(),
            !final(self).has_stream(),
    {
        self.stream_open = false;
        self.closed = true;
        TransportError::ConnectionFailed(reason)
    }

    /// A write to the stream failed: the transport is closed from here on.
    pub fn send_failed(&mut self) -> (err: TransportError)
        ensures
            err is Closed,
            !final(self).is_open(),
            final(self).has_stream() == old(self).has_stream(),
    {
        self.closed = true;
        TransportError::Closed
    }

    /// Plans the receiving of a message: read the length prefix, behind the
    /// opening of the stream on first use. A closed transport receives nothing.
    pub fn receive(&mut self) -> (res: Result<ReadPlan, TransportError>)
        ensures
            match res {
                Ok(plan) => {
                    &&& old(self).is_open()
                    &&& plan.open_stream == !old(self).has_stream()
                    &&& plan.header_len == 4
                    &&& final(self).has_stream()
                    &&& final(self).is_open()
                },
                Err(e) => e is Closed && !old(self).is_open() && *final(self) == *old(self),
            },
    {
        if self.closed {
            return Err(TransportError::Closed);
        }
        let open_stream = self.ensure_stream();
        Ok(ReadPlan { open_stream, header_len: 4 })
    }

    /// The number of payload bytes to read behind a length prefix, exactly.
    pub fn payload_len(header: &[u8]) -> (len: Option<usize>)
        ensures
            match len {
                Some(n) => header@.len() == 4 && n == header_length(header@),
                None => header@.len() != 4,
            },
    {
        if header.len() != 4 {
            return None;
        }
        Some(read_frame_length(header) as usize)
    }

    /// Decodes the payload of a frame. A payload that holds no message gives
    /// a serialization error whose text says why.
    pub fn decode_payload(payload: &[u8]) -> (res: Result<ProtocolMessage, TransportError>)
        ensures
            match res {
                Ok(m) => decode_message(payload@) == Ok::<MessageView, WireError>(m@),
                Err(TransportError::SerializationError(text)) => exists|e: WireError|
                    decode_message(payload@) == Err::<MessageView, WireError>(e) && text@
                        == e.text(),
                Err(_) => false,
            },
    {
        match deserialize_message(payload) {
            Ok(m) => Ok(m),
            Err(e) => Err(TransportError::SerializationError(e.describe())),
        }
    }

    /// A read from the stream failed: the transport is closed from here on.
    /// A stream that ended early reads as closed, any other failure as an
    /// I/O error with the same text.
    pub fn read_failed(&mut self, failure: ReadFailure) -> (err: TransportError)
        ensures
            !final(self).is_open(),
            final(self).has_stream() == old(self).has_stream(),
            match failure {
                ReadFailure::FinishedEarly => err is Closed,
                ReadFailure::ReadError(text) => err matches TransportError::IoError(t) && t@
                    == text@,
            },
    {
        self.closed = true;
        match failure {
            ReadFailure::FinishedEarly => TransportError::Closed,
            ReadFailure::ReadError(text) => TransportError::IoError(text),
        }
    }

    /// The outbound half of the stream could not be finished while closing:
    /// the error carries the reason. The transport stays closed.
    pub fn finish_failed(&self, reason: String) -> (err: TransportError)
        ensures
            err matches TransportError::IoError(text) && text@ == reason@,
    {
        TransportError::IoError(reason)
    }

    /// Closes the transport: finish the outbound half of the stream if there
    /// is one, then close the connection with code 0.
    pub fn close(&mut self) -> (plan: ClosePlan)
        ensures
            !final(self).is_open(),
            !final(self).has_stream(),
            plan.finish_stream == old(self).has_stream(),
            plan.code == 0,
            plan.reason@ == "closing"@,
    {
        let finish_stream = self.stream_open;
        self.stream_open = false;
        self.closed = true;
        ClosePlan { finish_stream, code: 0, reason: "closing".to_owned() }
    }
}

} // verus!
