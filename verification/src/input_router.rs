//! The host's input loop as a state machine.
//!
//! The host pulls messages from the transport. An input event is handed to
//! the injection backend; a failed injection is passed over and never ends
//! the loop. `Disconnect` ends the loop, and so does a failed receive. Every
//! other message is ignored.

use crate::message::{MessageView, ProtocolMessage};
use crate::models::InputEvent;
use vstd::prelude::*;

verus! {

/// What is to be done with a message that came in.
#[derive(Debug, Clone, Copy, PartialEq, Eq, Structural)]
pub enum InputRoute {
    /// Inject this event.
    Inject(InputEvent),
    /// Pass the message over.
    Ignore,
    /// Stop the loop.
    Stop,
}

/// What is to be done with a message: an input event is injected,
/// `Disconnect` stops the loop, anything else is ignored.
pub open spec fn route_of(message: MessageView) -> InputRoute {
    match message {
        MessageView::InputEvent { event, .. } => InputRoute::Inject(event),
        MessageView::Disconnect => InputRoute::Stop,
        _ => InputRoute::Ignore,
    }
}

/// Says what is to be done with a message.
pub fn route_message(message: &ProtocolMessage) -> (route: InputRoute)
    ensures
        route == route_of(message@),
{
    match message {
        ProtocolMessage::InputEvent { timestamp, event } => InputRoute::Inject(*event),
        ProtocolMessage::Disconnect => InputRoute::Stop,
        _ => InputRoute::Ignore,
    }
}

/// What the caller reports to the router.
#[derive(Debug, Clone, PartialEq, Eq)]
pub enum RouterEvent {
    /// The transport delivered a message.
    Received(ProtocolMessage),
    /// The transport failed to deliver.
    ReceiveFailed,
    /// The injection that was asked for was done.
    Injected,
    /// The injection that was asked for failed.
    InjectFailed,
}

/// The mathematical value of a [`RouterEvent`].
pub enum RouterEventView {
    Received(MessageView),
    ReceiveFailed,
    Injected,
    InjectFailed,
}

impl View for RouterEvent {
    type V = RouterEventView;

    open spec fn view(&self) -> RouterEventView {
        match *self {
            RouterEvent::Received(m) => RouterEventView::Received(m@),
            RouterEvent::ReceiveFailed => RouterEventView::ReceiveFailed,
            RouterEvent::Injected => RouterEventView::Injected,
            RouterEvent::InjectFailed => RouterEventView::InjectFailed,
        }
    }
}

/// What the router asks the caller to do next.
#[derive(Debug, Clone, Copy, PartialEq, Eq, Structural)]
pub enum RouterAction {
    /// Pull the next message from the transport.
    Receive,
    /// Inject this event, then report how it went.
    Inject(InputEvent),
    /// Stop: the loop has ended.
    Stop,
}

/// The input loop's state.
#[derive(Debug, Clone, Copy, PartialEq, Eq, Structural)]
pub struct InputRouter {
    pub running: bool,
}

impl InputRouter {
    /// The router after an event, and what it asks for.
    pub open spec fn next(self, event: RouterEventView) -> (InputRouter, RouterAction) {
        if !self.running {
            (self, RouterAction::Stop)
        } else {
            match event {
                RouterEventView::Received(message) => match route_of(message) {
                    InputRoute::Inject(input) => (self, RouterAction::Inject(input)),
                    InputRoute::Stop => (InputRouter { running: false }, RouterAction::Stop),
                    InputRoute::Ignore => (self, RouterAction::Receive),
                },
                RouterEventView::ReceiveFailed => (
                    InputRouter { running: false },
                    RouterAction::Stop,
                ),
                RouterEventView::Injected => (self, RouterAction::Receive),
                RouterEventView::InjectFailed => (self, RouterAction::Receive),
            }
        }
    }

    /// The router after a run of events, and what it asked for after each.
    pub open spec fn run(self, events: Seq<RouterEventView>) -> (InputRouter, Seq<RouterAction>)
        decreases events.len(),
    {
        if events.len() == 0 {
            (self, Seq::empty())
        } else {
            let before = self.run(events.drop_last());
            let step = before.0.next(events.last());
            (step.0, before.1.push(step.1))
        }
    }

    /// A router that is running. The first thing to do is to receive.
    pub fn new() -> (router: InputRouter)
        ensures
            router.running,
    {
        InputRouter { running: true }
    }

    /// Takes one event and says what to do next.
    pub fn step(&mut self, event: RouterEvent) -> (action: RouterAction)
        ensures
            (*final(self), action) == old(self).next(event@),
    {
        if !self.running {
            return RouterAction::Stop;
        }
        match event {
            RouterEvent::Received(message) => match route_message(&message) {
                InputRoute::Inject(input) => RouterAction::Inject(input),
                InputRoute::Stop => {
                    self.running = false;
                    RouterAction::Stop
                },
                InputRoute::Ignore => RouterAction::Receive,
            },
            RouterEvent::ReceiveFailed => {
                self.running = false;
                RouterAction::Stop
            },
            RouterEvent::Injected => RouterAction::Receive,
            RouterEvent::InjectFailed => RouterAction::Receive,
        }
    }
}

/// A running router stops on an event only if the event is a failed receive
/// or the arrival of `Disconnect`. Above all, no failed injection stops it.
pub proof fn lemma_router_stops_only_on_disconnect(router: InputRouter, event: RouterEventView)
    requires
        router.running,
    ensures
        !router.next(event).0.running <==> (event is ReceiveFailed || event
            == RouterEventView::Received(MessageView::Disconnect)),
        router.next(RouterEventView::InjectFailed) == (router, RouterAction::Receive),
{
}

/// Every input event that arrives at a running router is handed on for
/// injection, unchanged, whatever came before it other than a stop.
pub proof fn lemma_router_forwards_input(router: InputRouter, timestamp: u64, input: InputEvent)
    requires
        router.running,
    ensures
        router.next(
            RouterEventView::Received(MessageView::InputEvent { timestamp, event: input }),
        ) == (router, RouterAction::Inject(input)),
{
}

/// A router that has stopped stays stopped and only ever answers `Stop`.
pub proof fn lemma_router_stays_stopped(router: InputRouter, events: Seq<RouterEventView>)
    requires
        !router.running,
    ensures
        router.run(events).0 == router,
        router.run(events).1.len() == events.len(),
        forall|i: int|
            0 <= i < events.len() ==> #[trigger] router.run(events).1[i] == RouterAction::Stop,
    decreases events.len(),
{
    if events.len() > 0 {
        lemma_router_stays_stopped(router, events.drop_last());
    }
}

} // verus!
