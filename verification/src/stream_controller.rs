//! The host's streaming loop as a state machine.
//!
//! On every tick the host captures one frame, encodes it, wraps the encoded
//! bytes in a `ScreenFrame` message and sends it. The controller decides what
//! comes next; the caller waits for the tick, runs the capture, the encoder
//! and the transport, and reports how each went. A failed capture or a failed
//! encoding costs the tick and nothing else. A failed send ends the loop.

use crate::message::{MessageView, ProtocolMessage};
use crate::models::{FrameFormat, ScreenFrame, ScreenFrameView};
use vstd::prelude::*;

verus! {

/// The streaming loop's settings.
#[derive(Debug, Clone, Copy, PartialEq, Eq, Structural)]
pub struct StreamConfig {
    pub max_fps: u8,
    pub drop_frames_on_slow_client: bool,
    pub frame_buffer_size: usize,
}

impl Default for StreamConfig {
    fn default() -> (config: StreamConfig)
        ensures
            config == (StreamConfig {
                max_fps: 30,
                drop_frames_on_slow_client: true,
                frame_buffer_size: 2,
            }),
    {
        StreamConfig { max_fps: 30, drop_frames_on_slow_client: true, frame_buffer_size: 2 }
    }
}

/// Milliseconds between two ticks at `max_fps` frames per second.
pub open spec fn frame_interval_millis(max_fps: u8) -> int {
    1000int / (max_fps as int)
}

/// What a captured frame tells of itself before it is encoded.
#[derive(Debug, Clone, Copy, PartialEq, Eq, Structural)]
pub struct FrameMeta {
    pub timestamp: u64,
    pub width: u32,
    pub height: u32,
    pub format: FrameFormat,
}

/// Where the controller stands within a tick.
#[derive(Debug, Clone, Copy, PartialEq, Eq, Structural)]
pub enum StreamPhase {
    /// Waiting for the next tick.
    Idle,
    /// A capture was asked for.
    Capturing,
    /// The frame with this description is being encoded.
    Encoding(FrameMeta),
    /// A frame message was handed out and is being sent.
    Sending,
    /// The loop has ended.
    Stopped,
}

/// What the caller reports to the controller.
#[derive(Debug, Clone, PartialEq, Eq)]
pub enum StreamEvent {
    Tick,
    Captured(ScreenFrame),
    CaptureFailed,
    Encoded(Vec<u8>),
    EncodeFailed,
    Sent,
    SendFailed,
}

/// The mathematical value of a [`StreamEvent`].
pub enum StreamEventView {
    Tick,
    Captured(ScreenFrameView),
    CaptureFailed,
    Encoded(Seq<u8>),
    EncodeFailed,
    Sent,
    SendFailed,
}

impl View for StreamEvent {
    type V = StreamEventView;

    open spec fn view(&self) -> StreamEventView {
        match *self {
            StreamEvent::Tick => StreamEventView::Tick,
            StreamEvent::Captured(frame) => StreamEventView::Captured(frame@),
            StreamEvent::CaptureFailed => StreamEventView::CaptureFailed,
            StreamEvent::Encoded(bytes) => StreamEventView::Encoded(bytes@),
            StreamEvent::EncodeFailed => StreamEventView::EncodeFailed,
            StreamEvent::Sent => StreamEventView::Sent,
            StreamEvent::SendFailed => StreamEventView::SendFailed,
        }
    }
}

/// What the controller asks the caller to do next.
#[derive(Debug, Clone, PartialEq, Eq)]
pub enum StreamAction {
    /// Capture one frame.
    Capture,
    /// Encode this frame.
    Encode(ScreenFrame),
    /// Send this message.
    Send(ProtocolMessage),
    /// Wait for the next tick.
    Wait,
    /// Stop: the loop has ended.
    Stop,
}

/// The mathematical value of a [`StreamAction`].
pub enum StreamActionView {
    Capture,
    Encode(ScreenFrameView),
    Send(MessageView),
    Wait,
    Stop,
}

impl View for StreamAction {
    type V = StreamActionView;

    open spec fn view(&self) -> StreamActionView {
        match *self {
            StreamAction::Capture => StreamActionView::Capture,
            StreamAction::Encode(frame) => StreamActionView::Encode(frame@),
            StreamAction::Send(message) => StreamActionView::Send(message@),
            StreamAction::Wait => StreamActionView::Wait,
            StreamAction::Stop => StreamActionView::Stop,
        }
    }
}

impl StreamActionView {
    /// True if the action hands out a frame message with this sequence number.
    pub open spec fn sends_sequence(self, sequence: u64) -> bool {
        self matches StreamActionView::Send(MessageView::ScreenFrame { sequence: s, .. }) && s
            == sequence
    }
}

/// The streaming loop's state: its settings, the sequence number of the next
/// frame message, and the phase within the tick.
#[derive(Debug, Clone, Copy, PartialEq, Eq, Structural)]
pub struct StreamController {
    pub config: StreamConfig,
    pub sequence: u64,
    pub phase: StreamPhase,
}

impl StreamController {
    /// The frame message for encoded bytes: it carries the controller's
    /// sequence number and what the frame said of itself before encoding.
    pub open spec fn frame_message(self, meta: FrameMeta, data: Seq<u8>) -> MessageView {
        MessageView::ScreenFrame {
            sequence: self.sequence,
            timestamp: meta.timestamp,
            data,
            width: meta.width,
            height: meta.height,
            format: meta.format,
        }
    }

    /// The controller with another phase.
    pub open spec fn at(self, phase: StreamPhase) -> StreamController {
        StreamController { phase, ..self }
    }

    /// The controller after an event, and what it asks for.
    ///
    /// An event that does not answer what was asked for last changes nothing.
    /// When the last sequence number has been used the loop stops rather
    /// than use a number again.
    pub open spec fn next(self, event: StreamEventView) -> (StreamController, StreamActionView) {
        match (self.phase, event) {
            (StreamPhase::Stopped, _) => (self, StreamActionView::Stop),
            (StreamPhase::Idle, StreamEventView::Tick) => (
                self.at(StreamPhase::Capturing),
                StreamActionView::Capture,
            ),
            (StreamPhase::Capturing, StreamEventView::Captured(frame)) => (
                self.at(
                    StreamPhase::Encoding(
                        FrameMeta {
                            timestamp: frame.timestamp,
                            width: frame.width,
                            height: frame.height,
                            format: frame.format,
                        },
                    ),
                ),
                StreamActionView::Encode(frame),
            ),
            (StreamPhase::Capturing, StreamEventView::CaptureFailed) => (
                self.at(StreamPhase::Idle),
                StreamActionView::Wait,
            ),
            (StreamPhase::Encoding(meta), StreamEventView::Encoded(data)) => (
                self.at(StreamPhase::Sending),
                StreamActionView::Send(self.frame_message(meta, data)),
            ),
            (StreamPhase::Encoding(_), StreamEventView::EncodeFailed) => (
                self.at(StreamPhase::Idle),
                StreamActionView::Wait,
            ),
            (StreamPhase::Sending, StreamEventView::Sent) => if self.sequence < u64::MAX {
                (
                    StreamController {
                        sequence: (self.sequence + 1) as u64,
                        phase: StreamPhase::Idle,
                        ..self
                    },
                    StreamActionView::Wait,
                )
            } else {
                (self.at(StreamPhase::Stopped), StreamActionView::Stop)
            },
            (StreamPhase::Sending, StreamEventView::SendFailed) => (
                self.at(StreamPhase::Stopped),
                StreamActionView::Stop,
            ),
            _ => (self, StreamActionView::Wait),
        }
    }

    /// The controller after a run of events, and what it asked for after each.
    pub open spec fn run(self, events: Seq<StreamEventView>) -> (
        StreamController,
        Seq<StreamActionView>,
    )
        decreases events.len(),
    {
        if events.len() == 0 {
            (self, Seq::empty())
        } else {
            let before = self.run(events.drop_last());
            let step = before.0.next(events.last());
            (step.0, before.1.push(step.1))
        }
    }

    /// A controller that waits for its first tick, with sequence number 0.
    pub fn new(config: StreamConfig) -> (controller: StreamController)
        ensures
            controller == (StreamController { config, sequence: 0, phase: StreamPhase::Idle }),
    {
        StreamController { config, sequence: 0, phase: StreamPhase::Idle }
    }

    /// The time between two ticks, in milliseconds: 1000 divided by the
    /// configured maximum rate, rounded down.
    pub fn frame_interval(&self) -> (millis: u64)
        requires
            self.config.max_fps > 0,
        ensures
            millis == frame_interval_millis(self.config.max_fps),
    {
        1000u64 / (self.config.max_fps as u64)
    }

    /// True once the loop has ended.
    pub fn is_stopped(&self) -> (stopped: bool)
        ensures
            stopped == (self.phase == StreamPhase::Stopped),
    {
        match self.phase {
            StreamPhase::Stopped => true,
            _ => false,
        }
    }

    /// Takes one event and says what to do next.
    pub fn step(&mut self, event: StreamEvent) -> (action: StreamAction)
        ensures
            (*final(self), action@) == old(self).next(event@),
    {
        match self.phase {
            StreamPhase::Stopped => StreamAction::Stop,
            StreamPhase::Idle => match event {
                StreamEvent::Tick => {
                    self.phase = StreamPhase::Capturing;
                    StreamAction::Capture
                },
                _ => StreamAction::Wait,
            },
            StreamPhase::Capturing => match event {
                StreamEvent::Captured(frame) => {
                    self.phase = StreamPhase::Encoding(
                        FrameMeta {
                            timestamp: frame.timestamp,
                            width: frame.width,
                            height: frame.height,
                            format: frame.format,
                        },
                    );
                    StreamAction::Encode(frame)
                },
                StreamEvent::CaptureFailed => {
                    self.phase = StreamPhase::Idle;
                    StreamAction::Wait
                },
                _ => StreamAction::Wait,
            },
            StreamPhase::Encoding(meta) => match event {
                StreamEvent::Encoded(data) => {
                    self.phase = StreamPhase::Sending;
                    StreamAction::Send(
                        ProtocolMessage::ScreenFrame {
                            sequence: self.sequence,
                            timestamp: meta.timestamp,
                            data,
                            width: meta.width,
                            height: meta.height,
                            format: meta.format,
                        },
                    )
                },
                StreamEvent::EncodeFailed => {
                    self.phase = StreamPhase::Idle;
                    StreamAction::Wait
                },
                _ => StreamAction::Wait,
            },
            StreamPhase::Sending => match event {
                StreamEvent::Sent => {
                    if self.sequence < u64::MAX {
                        self.sequence = self.sequence + 1;
                        self.phase = StreamPhase::Idle;
                        StreamAction::Wait
                    } else {
                        self.phase = StreamPhase::Stopped;
                        StreamAction::Stop
                    }
                },
                StreamEvent::SendFailed => {
                    self.phase = StreamPhase::Stopped;
                    StreamAction::Stop
                },
                _ => StreamAction::Wait,
            },
        }
    }
}

// ---------------------------------------------------------------------------
// What holds of every run
// ---------------------------------------------------------------------------

/// True if no frame message among `actions` has a sequence number that the
/// controller `c` could still hand out: each is below `c.sequence`, or equal
/// to it while that message is being sent or the loop has ended.
pub open spec fn sequences_used(c: StreamController, actions: Seq<StreamActionView>) -> bool {
    forall|i: int, q: u64|
        0 <= i < actions.len() && #[trigger] actions[i].sends_sequence(q) ==> q < c.sequence || (q
            == c.sequence && (c.phase == StreamPhase::Sending || c.phase
            == StreamPhase::Stopped))
}

/// True if the sequence numbers of the frame messages among `actions` increase.
pub open spec fn sequences_increase(actions: Seq<StreamActionView>) -> bool {
    forall|i: int, j: int, p: u64, q: u64|
        0 <= i < j < actions.len() && #[trigger] actions[i].sends_sequence(p)
            && #[trigger] actions[j].sends_sequence(q) ==> p < q
}

/// What holds after every run of a controller: the sequence numbers handed
/// out so far increase, and none of them can be handed out again.
proof fn lemma_run_invariant(start: StreamController, events: Seq<StreamEventView>)
    ensures
        sequences_increase(start.run(events).1),
        sequences_used(start.run(events).0, start.run(events).1),
        start.run(events).1.len() == events.len(),
        start.run(events).0.sequence >= start.sequence,
        forall|i: int, q: u64|
            0 <= i < events.len() && #[trigger] start.run(events).1[i].sends_sequence(q) ==> q
                >= start.sequence,
    decreases events.len(),
{
    if events.len() > 0 {
        let before = start.run(events.drop_last());
        lemma_run_invariant(start, events.drop_last());
        let step = before.0.next(events.last());
        let actions = before.1.push(step.1);
        assert(start.run(events) == (step.0, actions));
        assert forall|i: int, q: u64|
            0 <= i < actions.len() && #[trigger] actions[i].sends_sequence(q) implies q
            < step.0.sequence || (q == step.0.sequence && (step.0.phase == StreamPhase::Sending
            || step.0.phase == StreamPhase::Stopped)) by {
            if i < before.1.len() {
                assert(actions[i] == before.1[i]);
                assert(before.1[i].sends_sequence(q));
            }
        }
        assert forall|i: int, j: int, p: u64, q: u64|
            0 <= i < j < actions.len() && #[trigger] actions[i].sends_sequence(p)
                && #[trigger] actions[j].sends_sequence(q) implies p < q by {
            assert(actions[i] == before.1[i]);
            assert(before.1[i].sends_sequence(p));
            if j < before.1.len() {
                assert(actions[j] == before.1[j]);
                assert(before.1[j].sends_sequence(q));
            }
        }
        assert forall|i: int, q: u64|
            0 <= i < events.len() && #[trigger] actions[i].sends_sequence(q) implies q
            >= start.sequence by {
            if i < before.1.len() {
                assert(actions[i] == before.1[i]);
                assert(before.1[i].sends_sequence(q));
            }
        }
    }
}

/// Sequence monotonicity: whatever is reported to a controller, in whatever
/// order and from whatever state, the frame messages that it hands out carry
/// increasing sequence numbers, none below the number that it started with.
/// No number is handed out twice, so a tick that was dropped is not sent
/// again under its number.
pub proof fn lemma_sequence_monotonic(start: StreamController, events: Seq<StreamEventView>)
    ensures
        sequences_increase(start.run(events).1),
        forall|i: int, q: u64|
            0 <= i < start.run(events).1.len() && #[trigger] start.run(events).1[i].sends_sequence(
                q,
            ) ==> q >= start.sequence,
{
    lemma_run_invariant(start, events);
}

/// Drop on failure: a failed capture and a failed encoding end the tick and
/// not the loop. The controller waits for the next tick with the same
/// sequence number and hands out nothing.
pub proof fn lemma_failed_tick_is_skipped(c: StreamController, meta: FrameMeta)
    ensures
        c.at(StreamPhase::Capturing).next(StreamEventView::CaptureFailed) == (
            c.at(StreamPhase::Idle),
            StreamActionView::Wait,
        ),
        c.at(StreamPhase::Encoding(meta)).next(StreamEventView::EncodeFailed) == (
            c.at(StreamPhase::Idle),
            StreamActionView::Wait,
        ),
        c.at(StreamPhase::Idle).next(StreamEventView::Tick) == (
            c.at(StreamPhase::Capturing),
            StreamActionView::Capture,
        ),
{
}

/// Only a send can end the loop: a controller that has not stopped stops on
/// an event only if it was sending and the event is the failure of the send,
/// or the success of the send with the last sequence number.
pub proof fn lemma_only_send_stops(c: StreamController, event: StreamEventView)
    requires
        c.phase != StreamPhase::Stopped,
        c.next(event).0.phase == StreamPhase::Stopped,
    ensures
        c.phase == StreamPhase::Sending,
        event is SendFailed || (event is Sent && c.sequence == u64::MAX),
{
}

/// Drop on failure: a failed send ends the loop.
pub proof fn lemma_failed_send_stops(c: StreamController)
    requires
        c.phase == StreamPhase::Sending,
    ensures
        c.next(StreamEventView::SendFailed) == (
            c.at(StreamPhase::Stopped),
            StreamActionView::Stop,
        ),
{
}

/// Once the loop has ended nothing more is sent: whatever is reported to a
/// stopped controller, it stays stopped and only ever answers `Stop`.
pub proof fn lemma_stopped_sends_nothing(c: StreamController, events: Seq<StreamEventView>)
    requires
        c.phase == StreamPhase::Stopped,
    ensures
        c.run(events).0 == c,
        c.run(events).1.len() == events.len(),
        forall|i: int|
            0 <= i < events.len() ==> #[trigger] c.run(events).1[i] == StreamActionView::Stop,
    decreases events.len(),
{
    if events.len() > 0 {
        lemma_stopped_sends_nothing(c, events.drop_last());
    }
}

} // verus!
