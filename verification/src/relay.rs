//! The relay server's handling of one connection.
//!
//! A connection opens with `Hello`, which registers the device as an agent.
//! From then on a `Heartbeat` is echoed back unchanged, `Disconnect` ends the
//! connection, and every other message is passed over. A connection whose
//! first message is not `Hello` is dropped. A failed receive or a failed send
//! ends the connection.

use crate::message::{MessageView, ProtocolMessage};
use vstd::prelude::*;

verus! {

/// What the server does with a message of a registered connection.
#[derive(Debug, Clone, PartialEq, Eq)]
pub enum MessageOutcome {
    /// Send this message back.
    Reply(ProtocolMessage),
    /// Nothing.
    Ignore,
    /// End the connection.
    Disconnect,
}

/// The mathematical value of a [`MessageOutcome`].
pub enum MessageOutcomeView {
    Reply(MessageView),
    Ignore,
    Disconnect,
}

impl View for MessageOutcome {
    type V = MessageOutcomeView;

    open spec fn view(&self) -> MessageOutcomeView {
        match *self {
            MessageOutcome::Reply(m) => MessageOutcomeView::Reply(m@),
            MessageOutcome::Ignore => MessageOutcomeView::Ignore,
            MessageOutcome::Disconnect => MessageOutcomeView::Disconnect,
        }
    }
}

/// What the server does with a message of a registered connection: a
/// heartbeat is echoed with its timestamp, `Disconnect` ends the connection,
/// anything else is passed over.
pub open spec fn outcome_of(message: MessageView) -> MessageOutcomeView {
    match message {
        MessageView::Heartbeat { timestamp } => MessageOutcomeView::Reply(
            MessageView::Heartbeat { timestamp },
        ),
        MessageView::Disconnect => MessageOutcomeView::Disconnect,
        _ => MessageOutcomeView::Ignore,
    }
}

/// Says what to do with a message of a registered connection.
pub fn handle_message(message: &ProtocolMessage) -> (outcome: MessageOutcome)
    ensures
        outcome@ == outcome_of(message@),
{
    match message {
        ProtocolMessage::Heartbeat { timestamp } => MessageOutcome::Reply(
            ProtocolMessage::Heartbeat { timestamp: *timestamp },
        ),
        ProtocolMessage::Disconnect => MessageOutcome::Disconnect,
        _ => MessageOutcome::Ignore,
    }
}

/// Where a connection to the relay server stands.
#[derive(Debug, Clone, Copy, PartialEq, Eq, Structural)]
pub enum ConnectionPhase {
    /// Waiting for the first message, which has to be `Hello`.
    AwaitingHello,
    /// The device is registered; messages are handled.
    Registered,
    /// The connection has ended.
    Closed,
}

/// What the caller reports of a connection.
#[derive(Debug, Clone, PartialEq, Eq)]
pub enum ConnectionEvent {
    /// The transport delivered a message.
    Received(ProtocolMessage),
    /// The transport failed to deliver.
    ReceiveFailed,
    /// The reply that was asked for could not be sent.
    SendFailed,
}

/// The mathematical value of a [`ConnectionEvent`].
pub enum ConnectionEventView {
    Received(MessageView),
    ReceiveFailed,
    SendFailed,
}

impl View for ConnectionEvent {
    type V = ConnectionEventView;

    open spec fn view(&self) -> ConnectionEventView {
        match *self {
            ConnectionEvent::Received(m) => ConnectionEventView::Received(m@),
            ConnectionEvent::ReceiveFailed => ConnectionEventView::ReceiveFailed,
            ConnectionEvent::SendFailed => ConnectionEventView::SendFailed,
        }
    }
}

/// What the handler asks the caller to do.
#[derive(Debug, Clone, PartialEq, Eq)]
pub enum ConnectionAction {
    /// Register the device as an agent, under a peer identifier equal to its
    /// device identifier, then pull the next message.
    RegisterAgent { device_id: String },
    /// Send this message, then pull the next message.
    Send(ProtocolMessage),
    /// Pull the next message.
    Receive,
    /// The connection has ended.
    Close,
}

/// The mathematical value of a [`ConnectionAction`].
pub enum ConnectionActionView {
    RegisterAgent { device_id: Seq<char> },
    Send(MessageView),
    Receive,
    Close,
}

impl View for ConnectionAction {
    type V = ConnectionActionView;

    open spec fn view(&self) -> ConnectionActionView {
        match *self {
            ConnectionAction::RegisterAgent { device_id } => ConnectionActionView::RegisterAgent {
                device_id: device_id@,
            },
            ConnectionAction::Send(m) => ConnectionActionView::Send(m@),
            ConnectionAction::Receive => ConnectionActionView::Receive,
            ConnectionAction::Close => ConnectionActionView::Close,
        }
    }
}

/// The state of one connection to the relay server.
#[derive(Debug, Clone, Copy, PartialEq, Eq, Structural)]
pub struct RelayConnection {
    pub phase: ConnectionPhase,
}

impl RelayConnection {
    /// The connection in a given phase.
    pub open spec fn at(phase: ConnectionPhase) -> RelayConnection {
        RelayConnection { phase }
    }

    /// The connection after an event, and what is asked for.
    pub open spec fn next(self, event: ConnectionEventView) -> (
        RelayConnection,
        ConnectionActionView,
    ) {
        match self.phase {
            ConnectionPhase::Closed => (self, ConnectionActionView::Close),
            ConnectionPhase::AwaitingHello => match event {
                ConnectionEventView::Received(MessageView::Hello { device_id, .. }) => (
                    RelayConnection::at(ConnectionPhase::Registered),
                    ConnectionActionView::RegisterAgent { device_id },
                ),
                _ => (RelayConnection::at(ConnectionPhase::Closed), ConnectionActionView::Close),
            },
            ConnectionPhase::Registered => match event {
                ConnectionEventView::Received(message) => match outcome_of(message) {
                    MessageOutcomeView::Reply(reply) => (self, ConnectionActionView::Send(reply)),
                    MessageOutcomeView::Ignore => (self, ConnectionActionView::Receive),
                    MessageOutcomeView::Disconnect => (
                        RelayConnection::at(ConnectionPhase::Closed),
                        ConnectionActionView::Close,
                    ),
                },
                _ => (RelayConnection::at(ConnectionPhase::Closed), ConnectionActionView::Close),
            },
        }
    }

    /// A connection that has just been accepted.
    pub fn new() -> (connection: RelayConnection)
        ensures
            connection == RelayConnection::at(ConnectionPhase::AwaitingHello),
    {
        RelayConnection { phase: ConnectionPhase::AwaitingHello }
    }

    /// True until the connection has ended.
    pub fn is_open(&self) -> (open: bool)
        ensures
            open == (self.phase != ConnectionPhase::Closed),
    {
        match self.phase {
            ConnectionPhase::Closed => false,
            _ => true,
        }
    }

    /// Takes one event of the connection and says what to do next.
    pub fn handle_connection(&mut self, event: ConnectionEvent) -> (action: ConnectionAction)
        ensures
            (*final(self), action@) == old(self).next(event@),
    {
        match self.phase {
            ConnectionPhase::Closed => ConnectionAction::Close,
            ConnectionPhase::AwaitingHello => match event {
                ConnectionEvent::Received(
                    ProtocolMessage::Hello { version, device_id, platform },
                ) => {
                    self.phase = ConnectionPhase::Registered;
                    ConnectionAction::RegisterAgent { device_id }
                },
                _ => {
                    self.phase = ConnectionPhase::Closed;
                    ConnectionAction::Close
                },
            },
            ConnectionPhase::Registered => match event {
                ConnectionEvent::Received(message) => match handle_message(&message) {
                    MessageOutcome::Reply(reply) => ConnectionAction::Send(reply),
                    MessageOutcome::Ignore => ConnectionAction::Receive,
                    MessageOutcome::Disconnect => {
                        self.phase = ConnectionPhase::Closed;
                        ConnectionAction::Close
                    },
                },
                _ => {
                    self.phase = ConnectionPhase::Closed;
                    ConnectionAction::Close
                },
            },
        }
    }
}

/// The relay handshake: after `Hello` the device is registered under its
/// identifier and the connection stays open; a heartbeat that follows is sent
/// back with the same timestamp, and the connection still stays open.
pub proof fn lemma_hello_then_heartbeat(
    version: u32,
    device_id: Seq<char>,
    platform: crate::models::Platform,
    timestamp: u64,
)
    ensures
        ({
            let hello = RelayConnection::at(ConnectionPhase::AwaitingHello).next(
                ConnectionEventView::Received(MessageView::Hello { version, device_id, platform }),
            );
            let beat = hello.0.next(
                ConnectionEventView::Received(MessageView::Heartbeat { timestamp }),
            );
            &&& hello == (
                RelayConnection::at(ConnectionPhase::Registered),
                ConnectionActionView::RegisterAgent { device_id },
            )
            &&& beat == (
                RelayConnection::at(ConnectionPhase::Registered),
                ConnectionActionView::Send(MessageView::Heartbeat { timestamp }),
            )
        }),
{
}

} // verus!
