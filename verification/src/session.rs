//! The viewer's side of a session.
//!
//! A receive loop pulls messages from the transport. The data of every
//! `ScreenFrame` message goes to the decoder; the decoded frame is stamped
//! with the sequence number and the time from the message, which the decoder
//! does not know, and is queued for the consumer. A frame that cannot be
//! decoded is dropped. The loop ends when the transport fails. The consumer
//! pulls frames at its own pace, oldest first; the queue has no bound.

use crate::clock::current_timestamp;
use crate::error::CodecError;
use crate::message::{MessageView, ProtocolMessage};
use crate::models::{
    is_random_uuid, InputEvent, ScreenFrame, ScreenFrameView, SessionId,
};
use vstd::prelude::*;

verus! {

/// What the receive loop does with a message.
#[derive(Debug, Clone, PartialEq, Eq)]
pub enum ReceiveAction {
    /// Decode these bytes, then report the result with this stamp.
    Decode { data: Vec<u8>, sequence: u64, timestamp: u64 },
    /// Nothing: pull the next message.
    Continue,
    /// Stop: the loop has ended.
    Stop,
}

/// The mathematical value of a [`ReceiveAction`].
pub enum ReceiveActionView {
    Decode { data: Seq<u8>, sequence: u64, timestamp: u64 },
    Continue,
    Stop,
}

impl View for ReceiveAction {
    type V = ReceiveActionView;

    open spec fn view(&self) -> ReceiveActionView {
        match *self {
            ReceiveAction::Decode { data, sequence, timestamp } => ReceiveActionView::Decode {
                data: data@,
                sequence,
                timestamp,
            },
            ReceiveAction::Continue => ReceiveActionView::Continue,
            ReceiveAction::Stop => ReceiveActionView::Stop,
        }
    }
}

/// What the receive loop does with a message while it runs: the data of a
/// frame message is decoded, every other message is passed over.
pub open spec fn receive_action_of(message: MessageView) -> ReceiveActionView {
    match message {
        MessageView::ScreenFrame { sequence, timestamp, data, .. } => ReceiveActionView::Decode {
            data,
            sequence,
            timestamp,
        },
        _ => ReceiveActionView::Continue,
    }
}

/// A decoded frame with the stamp of the message that carried it.
pub open spec fn stamped(frame: ScreenFrameView, sequence: u64, timestamp: u64) -> ScreenFrameView {
    ScreenFrameView { sequence, timestamp, ..frame }
}

/// What the consumer finds when it asks for the next frame.
#[derive(Debug, Clone, PartialEq, Eq)]
pub enum FramePoll {
    /// The oldest frame that was waiting.
    Frame(ScreenFrame),
    /// No frame waits, but the receive loop still runs.
    Pending,
    /// No frame waits and none will come: the receive loop has ended.
    Ended,
}

/// The values of a run of frames.
pub open spec fn frame_views(frames: Seq<ScreenFrame>) -> Seq<ScreenFrameView> {
    frames.map_values(|f: ScreenFrame| f@)
}

/// What a disconnect asks for, in this order.
#[derive(Debug, Clone, PartialEq, Eq)]
pub struct DisconnectPlan {
    /// The message to send first.
    pub farewell: ProtocolMessage,
    /// True: close the transport afterwards.
    pub close_transport: bool,
}

/// The viewer's session.
pub struct RemoteSession {
    session_id: Option<SessionId>,
    frames: Vec<ScreenFrame>,
    receiving: bool,
}

impl RemoteSession {
    /// The identifier of the session, once one was requested.
    pub closed spec fn id(&self) -> Option<SessionId> {
        self.session_id
    }

    /// The decoded frames that wait for the consumer, oldest first.
    pub closed spec fn queued(&self) -> Seq<ScreenFrameView> {
        frame_views(self.frames@)
    }

    /// True while the receive loop runs.
    pub closed spec fn is_receiving(&self) -> bool {
        self.receiving
    }

    /// A session without an identifier and without frames, whose receive
    /// loop runs.
    pub fn new() -> (session: RemoteSession)
        ensures
            session.id() is None,
            session.queued() == Seq::<ScreenFrameView>::empty(),
            session.is_receiving(),
    {
        let session = RemoteSession { session_id: None, frames: Vec::new(), receiving: true };
        proof {
            assert(session.queued() =~= Seq::<ScreenFrameView>::empty());
        }
        session
    }

    /// The identifier of the session, once one was requested.
    pub fn session_id(&self) -> (id: Option<SessionId>)
        ensures
            id == self.id(),
    {
        self.session_id
    }

    /// Requests a session with an agent under a given identifier: the
    /// request to send, with the identifier taken for the session. The
    /// relay's confirmation is not waited for.
    pub fn connect_as(&mut self, agent_device_id: String, id: SessionId) -> (request:
        ProtocolMessage)
        ensures
            request@ == (MessageView::SessionRequest { target_device: agent_device_id@ }),
            final(self).id() == Some(id),
            final(self).queued() == old(self).queued(),
            final(self).is_receiving() == old(self).is_receiving(),
    {
        self.session_id = Some(id);
        ProtocolMessage::SessionRequest { target_device: agent_device_id }
    }

    /// Requests a session with an agent: the request to send, and the fresh
    /// random identifier that the session goes by from here on.
    pub fn connect(&mut self, agent_device_id: String) -> (res: (ProtocolMessage, SessionId))
        ensures
            res.0@ == (MessageView::SessionRequest { target_device: agent_device_id@ }),
            is_random_uuid(res.1.0),
            final(self).id() == Some(res.1),
            final(self).queued() == old(self).queued(),
            final(self).is_receiving() == old(self).is_receiving(),
    {
        let id = SessionId::new();
        let request = self.connect_as(agent_device_id, id);
        (request, id)
    }

    /// Takes a message from the transport and says what to do with it.
    pub fn on_message(&self, message: ProtocolMessage) -> (action: ReceiveAction)
        ensures
            action@ == if self.is_receiving() {
                receive_action_of(message@)
            } else {
                ReceiveActionView::Stop
            },
    {
        if !self.receiving {
            return ReceiveAction::Stop;
        }
        match message {
            ProtocolMessage::ScreenFrame {
                sequence,
                timestamp,
                data,
                width,
                height,
                format,
            } => ReceiveAction::Decode { data, sequence, timestamp },
            _ => ReceiveAction::Continue,
        }
    }

    /// Takes what the decoder made of a frame message. A decoded frame is
    /// stamped and queued; a failure is passed over.
    pub fn on_decoded(
        &mut self,
        decoded: Result<ScreenFrame, CodecError>,
        sequence: u64,
        timestamp: u64,
    )
        ensures
            final(self).id() == old(self).id(),
            final(self).is_receiving() == old(self).is_receiving(),
            final(self).queued() == match decoded {
                Ok(frame) => if old(self).is_receiving() {
                    old(self).queued().push(stamped(frame@, sequence, timestamp))
                } else {
                    old(self).queued()
                },
                Err(_) => old(self).queued(),
            },
    {
        if !self.receiving {
            return ;
        }
        match decoded {
            Ok(frame) => {
                let ghost before = self.frames@;
                let ghost value = frame@;
                let mut frame = frame;
                frame.sequence = sequence;
                frame.timestamp = timestamp;
                self.frames.push(frame);
                proof {
                    assert(frame_views(self.frames@) =~= frame_views(before).push(
                        stamped(value, sequence, timestamp),
                    ));
                }
            },
            Err(_) => {},
        }
    }

    /// The transport failed, or the consumer is gone: the receive loop ends.
    /// Frames that wait stay for the consumer.
    pub fn stop_receiving(&mut self)
        ensures
            !final(self).is_receiving(),
            final(self).id() == old(self).id(),
            final(self).queued() == old(self).queued(),
    {
        self.receiving = false;
    }

    /// Takes the oldest frame that waits. Once the receive loop has ended
    /// and the queue is empty, there is none and none will come.
    pub fn receive_frame(&mut self) -> (poll: FramePoll)
        ensures
            final(self).id() == old(self).id(),
            final(self).is_receiving() == old(self).is_receiving(),
            match poll {
                FramePoll::Frame(frame) => {
                    &&& old(self).queued().len() > 0
                    &&& frame@ == old(self).queued()[0]
                    &&& final(self).queued() == old(self).queued().drop_first()
                },
                FramePoll::Pending => {
                    &&& old(self).queued().len() == 0
                    &&& old(self).is_receiving()
                    &&& final(self).queued() == old(self).queued()
                },
                FramePoll::Ended => {
                    &&& old(self).queued().len() == 0
                    &&& !old(self).is_receiving()
                    &&& final(self).queued() == old(self).queued()
                },
            },
    {
        if self.frames.len() == 0 {
            if self.receiving {
                return FramePoll::Pending;
            } else {
                return FramePoll::Ended;
            }
        }
        let ghost before = self.frames@;
        let frame = self.frames.remove(0);
        proof {
            assert(frame_views(self.frames@) =~= frame_views(before).drop_first());
        }
        FramePoll::Frame(frame)
    }

    /// The message that carries an input event sent at `timestamp`.
    pub fn input_message(event: InputEvent, timestamp: u64) -> (message: ProtocolMessage)
        ensures
            message@ == (MessageView::InputEvent { timestamp, event }),
    {
        ProtocolMessage::InputEvent { timestamp, event }
    }

    /// The message that carries an input event, stamped with the current time.
    pub fn send_input(&self, event: InputEvent) -> (message: ProtocolMessage)
        ensures
            message@ is InputEvent,
            message@->event == event,
    {
        RemoteSession::input_message(event, current_timestamp())
    }

    /// Ends the session: send `Disconnect`, then close the transport. The
    /// receive loop ends with it.
    pub fn disconnect(&mut self) -> (plan: DisconnectPlan)
        ensures
            plan.farewell@ == MessageView::Disconnect,
            plan.close_transport,
            !final(self).is_receiving(),
            final(self).id() == old(self).id(),
            final(self).queued() == old(self).queued(),
    {
        self.receiving = false;
        DisconnectPlan { farewell: ProtocolMessage::Disconnect, close_transport: true }
    }
}

} // verus!
