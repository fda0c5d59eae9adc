//! The peer-to-peer transport and the negotiation that has to complete before
//! it exists.
//!
//! Two peers agree on a direct connection by exchanging session descriptions
//! and network-path candidates through the signaling channel. [`Negotiation`]
//! is that exchange as a state machine, one for each role. It is driven by
//! what comes in from signaling and by what the local peer connection
//! reports, and answers with what to do on the peer connection and what to
//! send. It ends in `Ready`, when the data channel is open, or in `Failed`,
//! when the connection or the signaling channel is lost or time runs out; it
//! never waits without a way out. Only a negotiation that is `Ready` yields a
//! [`WebRTCTransport`].

use crate::error::TransportError;
use crate::message::{MessageView, ProtocolMessage};
use crate::protocol::{decode_message, deserialize_message, message_encoding, serialize_message};
use crate::signaling::{text_of, CandidateView, IceCandidate, SignalMessage, SignalView};
use crate::text::join;
use crate::wire::WireError;
use vstd::prelude::*;

verus! {

/// The part that a peer plays in a negotiation.
#[derive(Debug, Clone, Copy, PartialEq, Eq, Structural)]
pub enum Role {
    /// The peer that offers.
    Initiator,
    /// The peer that answers.
    Responder,
}

/// Where one side of a negotiation stands.
#[derive(Debug, Clone, Copy, PartialEq, Eq, Structural)]
pub enum NegotiationPhase {
    /// Waiting for the directory service to confirm the registration.
    Registering,
    /// The responder waits for an offer.
    AwaitingOffer,
    /// The initiator makes its offer and waits for the answer.
    AwaitingAnswer,
    /// The remote description is known; the data channel is not open yet.
    Negotiating,
    /// The data channel is open.
    Ready,
    /// The negotiation was given up.
    Failed,
}

/// The kind of a session description.
#[derive(Debug, Clone, Copy, PartialEq, Eq, Structural)]
pub enum DescriptionKind {
    Offer,
    Answer,
}

/// Why a negotiation was given up.
#[derive(Debug, Clone, Copy, PartialEq, Eq, Structural)]
pub enum AbortReason {
    /// The peer connection failed for good.
    ConnectionFailed,
    /// The signaling channel ended.
    SignalingClosed,
    /// The negotiation took too long, or was cancelled.
    TimedOut,
}

/// What drives a negotiation.
#[derive(Debug, Clone, PartialEq, Eq)]
pub enum NegotiationEvent {
    /// A message came in from signaling.
    Signal(SignalMessage),
    /// The peer connection made the offer that was asked for.
    OfferCreated(String),
    /// The peer connection made the answer that was asked for.
    AnswerCreated(String),
    /// The peer connection found a network-path candidate.
    LocalCandidate(IceCandidate),
    /// The data channel is open.
    ChannelOpen,
    /// The peer connection failed for good.
    ConnectionFailed,
    /// The signaling channel ended.
    SignalingClosed,
    /// The time allowed for the negotiation is over, or it was cancelled.
    TimedOut,
}

/// The mathematical value of a [`NegotiationEvent`].
pub enum NegotiationEventView {
    Signal(SignalView),
    OfferCreated(Seq<char>),
    AnswerCreated(Seq<char>),
    LocalCandidate(CandidateView),
    ChannelOpen,
    ConnectionFailed,
    SignalingClosed,
    TimedOut,
}

impl View for NegotiationEvent {
    type V = NegotiationEventView;

    open spec fn view(&self) -> NegotiationEventView {
        match *self {
            NegotiationEvent::Signal(m) => NegotiationEventView::Signal(m@),
            NegotiationEvent::OfferCreated(sdp) => NegotiationEventView::OfferCreated(sdp@),
            NegotiationEvent::AnswerCreated(sdp) => NegotiationEventView::AnswerCreated(sdp@),
            NegotiationEvent::LocalCandidate(c) => NegotiationEventView::LocalCandidate(c@),
            NegotiationEvent::ChannelOpen => NegotiationEventView::ChannelOpen,
            NegotiationEvent::ConnectionFailed => NegotiationEventView::ConnectionFailed,
            NegotiationEvent::SignalingClosed => NegotiationEventView::SignalingClosed,
            NegotiationEvent::TimedOut => NegotiationEventView::TimedOut,
        }
    }
}

/// What a negotiation asks for.
#[derive(Debug, Clone, PartialEq, Eq)]
pub enum NegotiationAction {
    /// Send this message through signaling.
    SendSignal(SignalMessage),
    /// Have the peer connection make an offer.
    CreateOffer,
    /// Have the peer connection make an answer.
    CreateAnswer,
    /// Set this description as the local one.
    SetLocalDescription(DescriptionKind, String),
    /// Set this description as the remote one.
    SetRemoteDescription(DescriptionKind, String),
    /// Hand this candidate of the remote peer to the peer connection.
    AddIceCandidate(IceCandidate),
    /// The negotiation is complete: the transport can be built.
    Complete,
    /// The negotiation is given up: tear everything down.
    Abort(AbortReason),
}

/// The mathematical value of a [`NegotiationAction`].
pub enum NegotiationActionView {
    SendSignal(SignalView),
    CreateOffer,
    CreateAnswer,
    SetLocalDescription(DescriptionKind, Seq<char>),
    SetRemoteDescription(DescriptionKind, Seq<char>),
    AddIceCandidate(CandidateView),
    Complete,
    Abort(AbortReason),
}

impl View for NegotiationAction {
    type V = NegotiationActionView;

    open spec fn view(&self) -> NegotiationActionView {
        match *self {
            NegotiationAction::SendSignal(m) => NegotiationActionView::SendSignal(m@),
            NegotiationAction::CreateOffer => NegotiationActionView::CreateOffer,
            NegotiationAction::CreateAnswer => NegotiationActionView::CreateAnswer,
            NegotiationAction::SetLocalDescription(
                kind,
                sdp,
            ) => NegotiationActionView::SetLocalDescription(kind, sdp@),
            NegotiationAction::SetRemoteDescription(
                kind,
                sdp,
            ) => NegotiationActionView::SetRemoteDescription(kind, sdp@),
            NegotiationAction::AddIceCandidate(c) => NegotiationActionView::AddIceCandidate(c@),
            NegotiationAction::Complete => NegotiationActionView::Complete,
            NegotiationAction::Abort(reason) => NegotiationActionView::Abort(reason),
        }
    }
}

/// The values of a run of actions.
pub open spec fn action_views(actions: Seq<NegotiationAction>) -> Seq<NegotiationActionView> {
    actions.map_values(|a: NegotiationAction| a@)
}

/// The values of a run of candidates.
pub open spec fn candidate_views(candidates: Seq<IceCandidate>) -> Seq<CandidateView> {
    candidates.map_values(|c: IceCandidate| c@)
}

/// The state of one peer's side of a negotiation.
pub struct Negotiation {
    role: Role,
    phase: NegotiationPhase,
    local_peer: String,
    remote_peer: Option<String>,
    local_description: Option<String>,
    remote_description: Option<String>,
    local_candidates: Vec<IceCandidate>,
    remote_candidates: Vec<IceCandidate>,
}

/// The mathematical value of a [`Negotiation`].
pub struct NegotiationView {
    pub role: Role,
    pub phase: NegotiationPhase,
    pub local_peer: Seq<char>,
    pub remote_peer: Option<Seq<char>>,
    pub local_description: Option<Seq<char>>,
    pub remote_description: Option<Seq<char>>,
    /// The candidates that were found here and sent to the remote peer.
    pub local_candidates: Seq<CandidateView>,
    /// The candidates of the remote peer that were handed to the peer connection.
    pub remote_candidates: Seq<CandidateView>,
}

impl View for Negotiation {
    type V = NegotiationView;

    closed spec fn view(&self) -> NegotiationView {
        NegotiationView {
            role: self.role,
            phase: self.phase,
            local_peer: self.local_peer@,
            remote_peer: text_of(self.remote_peer),
            local_description: text_of(self.local_description),
            remote_description: text_of(self.remote_description),
            local_candidates: candidate_views(self.local_candidates@),
            remote_candidates: candidate_views(self.remote_candidates@),
        }
    }
}

impl NegotiationView {
    /// The initiator's side before anything has happened.
    pub open spec fn caller(local_peer: Seq<char>, remote_peer: Seq<char>) -> NegotiationView {
        NegotiationView {
            role: Role::Initiator,
            phase: NegotiationPhase::Registering,
            local_peer,
            remote_peer: Some(remote_peer),
            local_description: None,
            remote_description: None,
            local_candidates: Seq::empty(),
            remote_candidates: Seq::empty(),
        }
    }

    /// The responder's side before anything has happened.
    pub open spec fn callee(local_peer: Seq<char>) -> NegotiationView {
        NegotiationView {
            role: Role::Responder,
            phase: NegotiationPhase::Registering,
            local_peer,
            remote_peer: None,
            local_description: None,
            remote_description: None,
            local_candidates: Seq::empty(),
            remote_candidates: Seq::empty(),
        }
    }

    /// The side in another phase.
    pub open spec fn at(self, phase: NegotiationPhase) -> NegotiationView {
        NegotiationView { phase, ..self }
    }

    /// True once the negotiation has ended, well or badly.
    pub open spec fn is_over(self) -> bool {
        self.phase == NegotiationPhase::Ready || self.phase == NegotiationPhase::Failed
    }

    /// True while candidates of the remote peer are handed on: for the
    /// initiator from the moment it starts on its offer, for the responder
    /// once it has the offer.
    pub open spec fn takes_candidates(self) -> bool {
        match self.role {
            Role::Initiator => self.phase == NegotiationPhase::AwaitingAnswer || self.phase
                == NegotiationPhase::Negotiating || self.phase == NegotiationPhase::Ready,
            Role::Responder => self.phase == NegotiationPhase::Negotiating || self.phase
                == NegotiationPhase::Ready,
        }
    }

    /// True while candidates found here are sent on: as soon as there is a
    /// remote peer to send them to and the registration is confirmed.
    pub open spec fn sends_candidates(self) -> bool {
        self.remote_peer is Some && (self.phase == NegotiationPhase::AwaitingAnswer || self.phase
            == NegotiationPhase::Negotiating || self.phase == NegotiationPhase::Ready)
    }

    /// The side after the loss of the connection or of signaling, or after
    /// the time has run out. A negotiation that is over is not touched.
    pub open spec fn give_up(self, reason: AbortReason) -> (
        NegotiationView,
        Seq<NegotiationActionView>,
    ) {
        if self.is_over() {
            (self, Seq::empty())
        } else {
            (self.at(NegotiationPhase::Failed), seq![NegotiationActionView::Abort(reason)])
        }
    }

    /// The side after a message from signaling.
    pub open spec fn on_signal(self, signal: SignalView) -> (
        NegotiationView,
        Seq<NegotiationActionView>,
    ) {
        match signal {
            SignalView::Registered { .. } => if self.phase == NegotiationPhase::Registering {
                match self.role {
                    Role::Initiator => (
                        self.at(NegotiationPhase::AwaitingAnswer),
                        seq![NegotiationActionView::CreateOffer],
                    ),
                    Role::Responder => (self.at(NegotiationPhase::AwaitingOffer), Seq::empty()),
                }
            } else {
                (self, Seq::empty())
            },
            SignalView::Offer { peer_id, sdp } => if self.role == Role::Responder && self.phase
                == NegotiationPhase::AwaitingOffer {
                (
                    NegotiationView {
                        phase: NegotiationPhase::Negotiating,
                        remote_peer: Some(peer_id),
                        remote_description: Some(sdp),
                        ..self
                    },
                    seq![
                        NegotiationActionView::SetRemoteDescription(DescriptionKind::Offer, sdp),
                        NegotiationActionView::CreateAnswer,
                    ],
                )
            } else {
                (self, Seq::empty())
            },
            SignalView::Answer { peer_id, sdp } => if self.role == Role::Initiator && self.phase
                == NegotiationPhase::AwaitingAnswer && self.local_description is Some {
                (
                    NegotiationView {
                        phase: NegotiationPhase::Negotiating,
                        remote_description: Some(sdp),
                        ..self
                    },
                    seq![NegotiationActionView::SetRemoteDescription(DescriptionKind::Answer, sdp)],
                )
            } else {
                (self, Seq::empty())
            },
            SignalView::IceCandidate { peer_id, candidate } => if self.takes_candidates() {
                (
                    NegotiationView {
                        remote_candidates: self.remote_candidates.push(candidate),
                        ..self
                    },
                    seq![NegotiationActionView::AddIceCandidate(candidate)],
                )
            } else {
                (self, Seq::empty())
            },
            SignalView::Register { .. } => (self, Seq::empty()),
            SignalView::Error { .. } => (self, Seq::empty()),
        }
    }

    /// The side after an event, and what it asks for, in order.
    ///
    /// An event that the side does not wait for changes nothing and asks for
    /// nothing. A failed negotiation takes no event.
    pub open spec fn next(self, event: NegotiationEventView) -> (
        NegotiationView,
        Seq<NegotiationActionView>,
    ) {
        if self.phase == NegotiationPhase::Failed {
            (self, Seq::empty())
        } else {
            match event {
                NegotiationEventView::Signal(signal) => self.on_signal(signal),
                NegotiationEventView::OfferCreated(sdp) => if self.role == Role::Initiator
                    && self.phase == NegotiationPhase::AwaitingAnswer && self.local_description
                    is None && self.remote_peer is Some {
                    (
                        NegotiationView { local_description: Some(sdp), ..self },
                        seq![
                            NegotiationActionView::SetLocalDescription(DescriptionKind::Offer, sdp),
                            NegotiationActionView::SendSignal(
                                SignalView::Offer { peer_id: self.remote_peer->0, sdp },
                            ),
                        ],
                    )
                } else {
                    (self, Seq::empty())
                },
                NegotiationEventView::AnswerCreated(sdp) => if self.role == Role::Responder
                    && self.phase == NegotiationPhase::Negotiating && self.local_description
                    is None && self.remote_peer is Some {
                    (
                        NegotiationView { local_description: Some(sdp), ..self },
                        seq![
                            NegotiationActionView::SetLocalDescription(
                                DescriptionKind::Answer,
                                sdp,
                            ),
                            NegotiationActionView::SendSignal(
                                SignalView::Answer { peer_id: self.remote_peer->0, sdp },
                            ),
                        ],
                    )
                } else {
                    (self, Seq::empty())
                },
                NegotiationEventView::LocalCandidate(candidate) => if self.sends_candidates() {
                    (
                        NegotiationView {
                            local_candidates: self.local_candidates.push(candidate),
                            ..self
                        },
                        seq![
                            NegotiationActionView::SendSignal(
                                SignalView::IceCandidate {
                                    peer_id: self.remote_peer->0,
                                    candidate,
                                },
                            ),
                        ],
                    )
                } else {
                    (self, Seq::empty())
                },
                NegotiationEventView::ChannelOpen => if self.phase == NegotiationPhase::Negotiating
                    && self.local_description is Some && self.remote_description is Some {
                    (self.at(NegotiationPhase::Ready), seq![NegotiationActionView::Complete])
                } else {
                    (self, Seq::empty())
                },
                NegotiationEventView::ConnectionFailed => self.give_up(
                    AbortReason::ConnectionFailed,
                ),
                NegotiationEventView::SignalingClosed => self.give_up(AbortReason::SignalingClosed),
                NegotiationEventView::TimedOut => self.give_up(AbortReason::TimedOut),
            }
        }
    }
}

/// A message as the remote peer gets it from the directory service: the same
/// message, with the sender's name in the place of the receiver's.
pub open spec fn relayed(sender: Seq<char>, signal: SignalView) -> SignalView {
    match signal {
        SignalView::Offer { peer_id, sdp } => SignalView::Offer { peer_id: sender, sdp },
        SignalView::Answer { peer_id, sdp } => SignalView::Answer { peer_id: sender, sdp },
        SignalView::IceCandidate { peer_id, candidate } => SignalView::IceCandidate {
            peer_id: sender,
            candidate,
        },
        other => other,
    }
}

impl Negotiation {
    /// The part that this side plays.
    pub fn role(&self) -> (role: Role)
        ensures
            role == self@.role,
    {
        self.role
    }

    /// Where this side stands.
    pub fn phase(&self) -> (phase: NegotiationPhase)
        ensures
            phase == self@.phase,
    {
        self.phase
    }

    /// True once the data channel is open.
    pub fn is_ready(&self) -> (ready: bool)
        ensures
            ready == (self@.phase == NegotiationPhase::Ready),
    {
        match self.phase {
            NegotiationPhase::Ready => true,
            _ => false,
        }
    }

    /// True once the negotiation was given up.
    pub fn has_failed(&self) -> (failed: bool)
        ensures
            failed == (self@.phase == NegotiationPhase::Failed),
    {
        match self.phase {
            NegotiationPhase::Failed => true,
            _ => false,
        }
    }

    /// The name of the remote peer, once it is known.
    pub fn remote_peer(&self) -> (peer: Option<String>)
        ensures
            text_of(peer) == self@.remote_peer,
    {
        crate::signaling::copy_text(&self.remote_peer)
    }

    fn takes_candidates(&self) -> (yes: bool)
        ensures
            yes == self@.takes_candidates(),
    {
        match self.role {
            Role::Initiator => match self.phase {
                NegotiationPhase::AwaitingAnswer => true,
                NegotiationPhase::Negotiating => true,
                NegotiationPhase::Ready => true,
                _ => false,
            },
            Role::Responder => match self.phase {
                NegotiationPhase::Negotiating => true,
                NegotiationPhase::Ready => true,
                _ => false,
            },
        }
    }

    fn sends_candidates(&self) -> (yes: bool)
        ensures
            yes == self@.sends_candidates(),
    {
        self.remote_peer.is_some() && match self.phase {
            NegotiationPhase::AwaitingAnswer => true,
            NegotiationPhase::Negotiating => true,
            NegotiationPhase::Ready => true,
            _ => false,
        }
    }

    fn give_up(&mut self, reason: AbortReason) -> (actions: Vec<NegotiationAction>)
        ensures
            (final(self)@, action_views(actions@)) == old(self)@.give_up(reason),
    {
        let mut actions: Vec<NegotiationAction> = Vec::new();
        match self.phase {
            NegotiationPhase::Ready => {},
            NegotiationPhase::Failed => {},
            _ => {
                self.phase = NegotiationPhase::Failed;
                actions.push(NegotiationAction::Abort(reason));
            },
        }
        proof {
            assert(action_views(actions@) =~= old(self)@.give_up(reason).1);
        }
        actions
    }

    fn on_signal(&mut self, signal: SignalMessage) -> (actions: Vec<NegotiationAction>)
        ensures
            (final(self)@, action_views(actions@)) == old(self)@.on_signal(signal@),
    {
        let mut actions: Vec<NegotiationAction> = Vec::new();
        match signal {
            SignalMessage::Registered { peer_id } => {
                match self.phase {
                    NegotiationPhase::Registering => match self.role {
                        Role::Initiator => {
                            self.phase = NegotiationPhase::AwaitingAnswer;
                            actions.push(NegotiationAction::CreateOffer);
                        },
                        Role::Responder => {
                            self.phase = NegotiationPhase::AwaitingOffer;
                        },
                    },
                    _ => {},
                }
            },
            SignalMessage::Offer { peer_id, sdp } => {
                let waiting = match (self.role, self.phase) {
                    (Role::Responder, NegotiationPhase::AwaitingOffer) => true,
                    _ => false,
                };
                if waiting {
                    self.phase = NegotiationPhase::Negotiating;
                    self.remote_peer = Some(peer_id);
                    self.remote_description = Some(sdp.clone());
                    actions.push(
                        NegotiationAction::SetRemoteDescription(DescriptionKind::Offer, sdp),
                    );
                    actions.push(NegotiationAction::CreateAnswer);
                }
            },
            SignalMessage::Answer { peer_id, sdp } => {
                let waiting = match (self.role, self.phase) {
                    (Role::Initiator, NegotiationPhase::AwaitingAnswer) => true,
                    _ => false,
                };
                if waiting && self.local_description.is_some() {
                    self.phase = NegotiationPhase::Negotiating;
                    self.remote_description = Some(sdp.clone());
                    actions.push(
                        NegotiationAction::SetRemoteDescription(DescriptionKind::Answer, sdp),
                    );
                }
            },
            SignalMessage::IceCandidate { peer_id, candidate, sdp_mid, sdp_mline_index } => {
                if self.takes_candidates() {
                    let found = IceCandidate { candidate, sdp_mid, sdp_mline_index };
                    let ghost before = self.remote_candidates@;
                    self.remote_candidates.push(found.duplicate());
                    proof {
                        assert(candidate_views(self.remote_candidates@) =~= candidate_views(
                            before,
                        ).push(found@));
                    }
                    actions.push(NegotiationAction::AddIceCandidate(found));
                }
            },
            SignalMessage::Register { peer_id } => {},
            SignalMessage::Error { message } => {},
        }
        proof {
            assert(action_views(actions@) =~= old(self)@.on_signal(signal@).1);
        }
        actions
    }

    /// Takes one event and says what to do, in order.
    pub fn step(&mut self, event: NegotiationEvent) -> (actions: Vec<NegotiationAction>)
        ensures
            (final(self)@, action_views(actions@)) == old(self)@.next(event@),
    {
        if self.has_failed() {
            let actions: Vec<NegotiationAction> = Vec::new();
            proof {
                assert(action_views(actions@) =~= Seq::<NegotiationActionView>::empty());
            }
            return actions;
        }
        match event {
            NegotiationEvent::Signal(signal) => self.on_signal(signal),
            NegotiationEvent::ConnectionFailed => self.give_up(AbortReason::ConnectionFailed),
            NegotiationEvent::SignalingClosed => self.give_up(AbortReason::SignalingClosed),
            NegotiationEvent::TimedOut => self.give_up(AbortReason::TimedOut),
            NegotiationEvent::OfferCreated(sdp) => {
                let mut actions: Vec<NegotiationAction> = Vec::new();
                let waiting = match (self.role, self.phase) {
                    (Role::Initiator, NegotiationPhase::AwaitingAnswer) => true,
                    _ => false,
                };
                if waiting && self.local_description.is_none() {
                    let target = crate::signaling::copy_text(&self.remote_peer);
                    match target {
                        Some(peer_id) => {
                            self.local_description = Some(sdp.clone());
                            actions.push(
                                NegotiationAction::SetLocalDescription(
                                    DescriptionKind::Offer,
                                    sdp.clone(),
                                ),
                            );
                            actions.push(
                                NegotiationAction::SendSignal(
                                    SignalMessage::Offer { peer_id, sdp },
                                ),
                            );
                        },
                        None => {},
                    }
                }
                proof {
                    assert(action_views(actions@) =~= old(self)@.next(event@).1);
                }
                actions
            },
            NegotiationEvent::AnswerCreated(sdp) => {
                let mut actions: Vec<NegotiationAction> = Vec::new();
                let waiting = match (self.role, self.phase) {
                    (Role::Responder, NegotiationPhase::Negotiating) => true,
                    _ => false,
                };
                if waiting && self.local_description.is_none() {
                    let target = crate::signaling::copy_text(&self.remote_peer);
                    match target {
                        Some(peer_id) => {
                            self.local_description = Some(sdp.clone());
                            actions.push(
                                NegotiationAction::SetLocalDescription(
                                    DescriptionKind::Answer,
                                    sdp.clone(),
                                ),
                            );
                            actions.push(
                                NegotiationAction::SendSignal(
                                    SignalMessage::Answer { peer_id, sdp },
                                ),
                            );
                        },
                        None => {},
                    }
                }
                proof {
                    assert(action_views(actions@) =~= old(self)@.next(event@).1);
                }
                actions
            },
            NegotiationEvent::LocalCandidate(found) => {
                let mut actions: Vec<NegotiationAction> = Vec::new();
                if self.sends_candidates() {
                    let target = crate::signaling::copy_text(&self.remote_peer);
                    match target {
                        Some(peer_id) => {
                            let ghost before = self.local_candidates@;
                            self.local_candidates.push(found.duplicate());
                            proof {
                                assert(candidate_views(self.local_candidates@) =~= candidate_views(
                                    before,
                                ).push(found@));
                            }
                            actions.push(
                                NegotiationAction::SendSignal(
                                    SignalMessage::IceCandidate {
                                        peer_id,
                                        candidate: found.candidate,
                                        sdp_mid: found.sdp_mid,
                                        sdp_mline_index: found.sdp_mline_index,
                                    },
                                ),
                            );
                        },
                        None => {},
                    }
                }
                proof {
                    assert(action_views(actions@) =~= old(self)@.next(event@).1);
                }
                actions
            },
            NegotiationEvent::ChannelOpen => {
                let mut actions: Vec<NegotiationAction> = Vec::new();
                let negotiating = match self.phase {
                    NegotiationPhase::Negotiating => true,
                    _ => false,
                };
                if negotiating && self.local_description.is_some()
                    && self.remote_description.is_some() {
                    self.phase = NegotiationPhase::Ready;
                    actions.push(NegotiationAction::Complete);
                }
                proof {
                    assert(action_views(actions@) =~= old(self)@.next(event@).1);
                }
                actions
            },
        }
    }

    /// The transport of a negotiation that is complete. A negotiation that
    /// is not yields no transport, not even a partial one.
    pub fn finish(self) -> (res: Result<WebRTCTransport, TransportError>)
        ensures
            match res {
                Ok(transport) => {
                    &&& self@.phase == NegotiationPhase::Ready
                    &&& transport.is_open()
                    &&& Some(transport.remote_peer()) == self@.remote_peer
                },
                Err(e) => e is ConnectionFailed && (self@.phase != NegotiationPhase::Ready
                    || self@.remote_peer is None),
            },
            self@.well_formed() && self@.phase == NegotiationPhase::Ready ==> res is Ok,
    {
        match self.phase {
            NegotiationPhase::Ready => match self.remote_peer {
                Some(remote_peer_id) => Ok(WebRTCTransport { remote_peer_id, closed: false }),
                None => Err(TransportError::ConnectionFailed("remote peer unknown".to_owned())),
            },
            _ => Err(TransportError::ConnectionFailed("negotiation is not complete".to_owned())),
        }
    }
}

/// The seconds that a negotiation may take before it is given up.
pub const NEGOTIATION_TIMEOUT_SECS: u64 = 30;

/// The number of payloads that may wait between the data channel and the
/// transport's receive.
pub const PAYLOAD_QUEUE_LEN: usize = 64;

/// The servers that tell a peer under which address it is seen from outside.
pub fn stun_servers() -> (servers: Vec<String>)
    ensures
        servers@.len() == 2,
        servers@[0]@ == "stun:stun.l.google.com:19302"@,
        servers@[1]@ == "stun:stun1.l.google.com:19302"@,
{
    let mut servers: Vec<String> = Vec::new();
    servers.push("stun:stun.l.google.com:19302".to_owned());
    servers.push("stun:stun1.l.google.com:19302".to_owned());
    servers
}

/// The name of the data channel that carries the messages.
pub fn data_channel_label() -> (label: String)
    ensures
        label@ == "remote-desktop"@,
{
    "remote-desktop".to_owned()
}

/// The direct transport between two peers. Messages travel as whole payloads
/// on a data channel that keeps their boundaries, so there is no framing.
pub struct WebRTCTransport {
    remote_peer_id: String,
    closed: bool,
}

impl WebRTCTransport {
    /// True until the transport is closed.
    pub closed spec fn is_open(&self) -> bool {
        !self.closed
    }

    /// The name of the peer at the other end.
    pub closed spec fn remote_peer(&self) -> Seq<char> {
        self.remote_peer_id@
    }

    /// Starts the initiator's side of the negotiation with `remote_peer_id`.
    pub fn new_as_caller(local_peer_id: &str, remote_peer_id: &str) -> (negotiation: Negotiation)
        ensures
            negotiation@ == NegotiationView::caller(local_peer_id@, remote_peer_id@),
    {
        let negotiation = Negotiation {
            role: Role::Initiator,
            phase: NegotiationPhase::Registering,
            local_peer: local_peer_id.to_owned(),
            remote_peer: Some(remote_peer_id.to_owned()),
            local_description: None,
            remote_description: None,
            local_candidates: Vec::new(),
            remote_candidates: Vec::new(),
        };
        proof {
            assert(negotiation@.local_candidates =~= Seq::<CandidateView>::empty());
            assert(negotiation@.remote_candidates =~= Seq::<CandidateView>::empty());
        }
        negotiation
    }

    /// Starts the responder's side of a negotiation.
    pub fn new_as_callee(local_peer_id: &str) -> (negotiation: Negotiation)
        ensures
            negotiation@ == NegotiationView::callee(local_peer_id@),
    {
        let negotiation = Negotiation {
            role: Role::Responder,
            phase: NegotiationPhase::Registering,
            local_peer: local_peer_id.to_owned(),
            remote_peer: None,
            local_description: None,
            remote_description: None,
            local_candidates: Vec::new(),
            remote_candidates: Vec::new(),
        };
        proof {
            assert(negotiation@.local_candidates =~= Seq::<CandidateView>::empty());
            assert(negotiation@.remote_candidates =~= Seq::<CandidateView>::empty());
        }
        negotiation
    }

    /// True while the data channel's connection is up. `connected` is what
    /// the peer connection says of its state.
    pub fn is_connected(&self, connected: bool) -> (up: bool)
        ensures
            up == (self.is_open() && connected),
    {
        !self.closed && connected
    }

    /// The payload that carries a message on the data channel.
    pub fn send(&self, message: &ProtocolMessage) -> (res: Result<Vec<u8>, TransportError>)
        ensures
            match res {
                Ok(payload) => self.is_open() && payload@ == message_encoding(message@)
                    && decode_message(payload@) == Ok::<MessageView, WireError>(message@),
                Err(e) => !self.is_open() && e is Closed,
            },
    {
        if self.closed {
            return Err(TransportError::Closed);
        }
        Ok(serialize_message(message))
    }

    /// The message that a payload from the data channel carries. `None`
    /// stands for the end of the channel.
    pub fn receive(&self, payload: Option<&[u8]>) -> (res: Result<
        ProtocolMessage,
        TransportError,
    >)
        ensures
            match res {
                Ok(m) => {
                    &&& self.is_open()
                    &&& payload matches Some(bytes)
                    &&& decode_message(bytes@) == Ok::<MessageView, WireError>(m@)
                },
                Err(TransportError::Closed) => !self.is_open() || payload is None,
                Err(TransportError::SerializationError(text)) => {
                    &&& self.is_open()
                    &&& payload matches Some(bytes)
                    &&& exists|e: WireError|
                        decode_message(bytes@) == Err::<MessageView, WireError>(e) && text@
                            == "Deserialize error: "@ + e.text()
                },
                Err(_) => false,
            },
    {
        if self.closed {
            return Err(TransportError::Closed);
        }
        match payload {
            None => Err(TransportError::Closed),
            Some(bytes) => match deserialize_message(bytes) {
                Ok(m) => Ok(m),
                Err(e) => Err(
                    TransportError::SerializationError(
                        join("Deserialize error: ", e.describe().as_str()),
                    ),
                ),
            },
        }
    }

    /// The data channel refused a payload: the error carries the reason.
    pub fn send_failed(&self, reason: &str) -> (err: TransportError)
        ensures
            err matches TransportError::ProtocolError(text) && text@ == "Send error: "@ + reason@,
    {
        TransportError::ProtocolError(join("Send error: ", reason))
    }

    /// The peer connection could not be closed: the error carries the reason.
    pub fn close_failed(&self, reason: &str) -> (err: TransportError)
        ensures
            err matches TransportError::ProtocolError(text) && text@ == "Close error: "@
                + reason@,
    {
        TransportError::ProtocolError(join("Close error: ", reason))
    }

    /// Closes the transport. It stays closed.
    pub fn close(&mut self)
        ensures
            !final(self).is_open(),
            final(self).remote_peer() == old(self).remote_peer(),
    {
        self.closed = true;
    }
}

// ---------------------------------------------------------------------------
// What holds of every negotiation
// ---------------------------------------------------------------------------

impl NegotiationView {
    /// What holds of each side of a negotiation at every time. The initiator
    /// knows its peer from the start. Before a side has a remote description
    /// it is not past waiting for one; once it negotiates it has one and
    /// knows its peer; once it is ready it has both descriptions.
    pub open spec fn well_formed(self) -> bool {
        &&& self.role == Role::Initiator ==> self.remote_peer is Some && self.phase
            != NegotiationPhase::AwaitingOffer
        &&& self.role == Role::Responder ==> self.phase != NegotiationPhase::AwaitingAnswer
        &&& (self.phase == NegotiationPhase::Registering || self.phase
            == NegotiationPhase::AwaitingOffer) ==> self.local_description is None
            && self.remote_description is None
        &&& self.phase == NegotiationPhase::AwaitingAnswer ==> self.remote_description is None
        &&& self.phase == NegotiationPhase::Negotiating ==> self.remote_description is Some
            && self.remote_peer is Some && (self.role == Role::Initiator
            ==> self.local_description is Some)
        &&& self.phase == NegotiationPhase::Ready ==> self.local_description is Some
            && self.remote_description is Some && self.remote_peer is Some
    }
}

/// Both starting states are well formed, and no event changes that: a side
/// is ready only with both descriptions set and its peer known.
pub proof fn lemma_negotiation_stays_well_formed(
    n: NegotiationView,
    event: NegotiationEventView,
    local_peer: Seq<char>,
    remote_peer: Seq<char>,
)
    ensures
        NegotiationView::caller(local_peer, remote_peer).well_formed(),
        NegotiationView::callee(local_peer).well_formed(),
        n.well_formed() ==> n.next(event).0.well_formed(),
        n.next(event).0.role == n.role,
        n.next(event).0.local_peer == n.local_peer,
{
}

/// Only the opening of the data channel makes a side ready.
pub proof fn lemma_only_open_channel_makes_ready(n: NegotiationView, event: NegotiationEventView)
    requires
        n.phase != NegotiationPhase::Ready,
        n.next(event).0.phase == NegotiationPhase::Ready,
    ensures
        event is ChannelOpen,
        n.phase == NegotiationPhase::Negotiating,
        n.local_description is Some,
        n.remote_description is Some,
{
}

/// Negotiation symmetry: an initiator `a` and a responder `b` that exchange
/// their offer and answer through a relay both end up `Ready`, each with the
/// other's description as its remote one, and the responder knows who called.
/// What one of them then sends on the data channel, the other decodes to the
/// same message.
pub proof fn lemma_negotiation_completes(
    a: Seq<char>,
    b: Seq<char>,
    offer: Seq<char>,
    answer: Seq<char>,
    message: MessageView,
) -> (ends: (NegotiationView, NegotiationView))
    requires
        message.encodable(),
    ensures
        ends.0.phase == NegotiationPhase::Ready,
        ends.1.phase == NegotiationPhase::Ready,
        ends.0.local_description == Some(offer),
        ends.1.remote_description == Some(offer),
        ends.1.local_description == Some(answer),
        ends.0.remote_description == Some(answer),
        ends.0.remote_peer == Some(b),
        ends.1.remote_peer == Some(a),
        ends == negotiation_run(a, b, offer, answer),
        decode_message(message_encoding(message)) == Ok::<MessageView, WireError>(message),
{
    crate::protocol::lemma_decode_of_encoding(message, Seq::empty());
    negotiation_run(a, b, offer, answer)
}

/// The two sides of a negotiation between initiator `a` and responder `b`
/// after this exchange: both register; the initiator makes `offer` and sends
/// it; the relay hands it to the responder, which makes `answer` and sends
/// it; the relay hands that to the initiator; the data channel opens.
pub open spec fn negotiation_run(
    a: Seq<char>,
    b: Seq<char>,
    offer: Seq<char>,
    answer: Seq<char>,
) -> (NegotiationView, NegotiationView) {
    let caller = NegotiationView::caller(a, b).next(
        NegotiationEventView::Signal(SignalView::Registered { peer_id: a }),
    ).0;
    let callee = NegotiationView::callee(b).next(
        NegotiationEventView::Signal(SignalView::Registered { peer_id: b }),
    ).0;
    let offered = caller.next(NegotiationEventView::OfferCreated(offer));
    let got_offer = callee.next(
        NegotiationEventView::Signal(relayed(a, offered.1[1]->SendSignal_0)),
    );
    let answered = got_offer.0.next(NegotiationEventView::AnswerCreated(answer));
    let got_answer = offered.0.next(
        NegotiationEventView::Signal(relayed(b, answered.1[1]->SendSignal_0)),
    );
    (
        got_answer.0.next(NegotiationEventView::ChannelOpen).0,
        answered.0.next(NegotiationEventView::ChannelOpen).0,
    )
}

/// Candidates cross: a candidate that one side finds is sent to its remote
/// peer, and the other side hands what the relay brings to its peer
/// connection, unchanged. Neither changes where the two sides stand.
pub proof fn lemma_candidates_cross(
    finder: NegotiationView,
    taker: NegotiationView,
    candidate: CandidateView,
)
    requires
        finder.sends_candidates(),
        taker.takes_candidates(),
        taker.phase != NegotiationPhase::Failed,
        finder.phase != NegotiationPhase::Failed,
    ensures
        finder.next(NegotiationEventView::LocalCandidate(candidate)) == (
            NegotiationView { local_candidates: finder.local_candidates.push(candidate), ..finder },
            seq![
                NegotiationActionView::SendSignal(
                    SignalView::IceCandidate { peer_id: finder.remote_peer->0, candidate },
                ),
            ],
        ),
        taker.next(
            NegotiationEventView::Signal(
                relayed(
                    finder.local_peer,
                    SignalView::IceCandidate { peer_id: finder.remote_peer->0, candidate },
                ),
            ),
        ) == (
            NegotiationView { remote_candidates: taker.remote_candidates.push(candidate), ..taker },
            seq![NegotiationActionView::AddIceCandidate(candidate)],
        ),
{
}

/// No hang: whenever the connection fails for good, the signaling channel
/// ends or the time runs out, a negotiation that is not over fails at once
/// and asks for everything to be torn down.
pub proof fn lemma_negotiation_can_be_cancelled(n: NegotiationView, reason: AbortReason)
    requires
        !n.is_over(),
    ensures
        n.next(
            match reason {
                AbortReason::ConnectionFailed => NegotiationEventView::ConnectionFailed,
                AbortReason::SignalingClosed => NegotiationEventView::SignalingClosed,
                AbortReason::TimedOut => NegotiationEventView::TimedOut,
            },
        ) == (n.at(NegotiationPhase::Failed), seq![NegotiationActionView::Abort(reason)]),
{
}

/// A negotiation that has failed stays failed and asks for nothing more; one
/// that is ready stays ready.
pub proof fn lemma_negotiation_ends_once(n: NegotiationView, event: NegotiationEventView)
    requires
        n.is_over(),
    ensures
        n.next(event).0.phase == n.phase,
        n.phase == NegotiationPhase::Failed ==> n.next(event) == (
            n,
            Seq::<NegotiationActionView>::empty(),
        ),
{
}

} // verus!
