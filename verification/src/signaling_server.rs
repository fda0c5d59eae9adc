//! The directory service's handling of one peer's channel.
//!
//! A peer registers under a name. Its offer is kept under that name for
//! peers that join late. An answer or a candidate goes on to the peer that
//! it names, with the sender's name in the place of the receiver's. When the
//! channel ends, what the directory holds of the peer is removed. The
//! directory itself is the caller's: what is decided here is what is done
//! with it.

use crate::signaling::{SignalMessage, SignalView};
use crate::text::join;
use crate::webrtc::relayed;
use vstd::prelude::*;

verus! {

/// What the directory service does for a peer.
#[derive(Debug, Clone, PartialEq, Eq)]
pub enum DirectoryAction {
    /// Enter the peer into the directory under this name.
    RegisterPeer { peer_id: String },
    /// Keep this offer under this name.
    StoreOffer { peer_id: String, sdp: String },
    /// Send this message back on the peer's own channel.
    Reply(SignalMessage),
    /// Hand this message to the peer of this name, if the directory has it.
    Forward { to: String, message: SignalMessage },
    /// Remove the peer of this name from the directory.
    RemovePeer { peer_id: String },
    /// Remove the offer kept under this name.
    RemoveOffer { peer_id: String },
}

/// The mathematical value of a [`DirectoryAction`].
pub enum DirectoryActionView {
    RegisterPeer { peer_id: Seq<char> },
    StoreOffer { peer_id: Seq<char>, sdp: Seq<char> },
    Reply(SignalView),
    Forward { to: Seq<char>, message: SignalView },
    RemovePeer { peer_id: Seq<char> },
    RemoveOffer { peer_id: Seq<char> },
}

impl View for DirectoryAction {
    type V = DirectoryActionView;

    open spec fn view(&self) -> DirectoryActionView {
        match *self {
            DirectoryAction::RegisterPeer { peer_id } => DirectoryActionView::RegisterPeer {
                peer_id: peer_id@,
            },
            DirectoryAction::StoreOffer { peer_id, sdp } => DirectoryActionView::StoreOffer {
                peer_id: peer_id@,
                sdp: sdp@,
            },
            DirectoryAction::Reply(m) => DirectoryActionView::Reply(m@),
            DirectoryAction::Forward { to, message } => DirectoryActionView::Forward {
                to: to@,
                message: message@,
            },
            DirectoryAction::RemovePeer { peer_id } => DirectoryActionView::RemovePeer {
                peer_id: peer_id@,
            },
            DirectoryAction::RemoveOffer { peer_id } => DirectoryActionView::RemoveOffer {
                peer_id: peer_id@,
            },
        }
    }
}

/// The values of a run of actions.
pub open spec fn directory_views(actions: Seq<DirectoryAction>) -> Seq<DirectoryActionView> {
    actions.map_values(|a: DirectoryAction| a@)
}

/// The name that a channel's messages are sent on under: the name that the
/// peer registered, or the empty name before it has registered.
pub open spec fn sender_name(registered: Option<Seq<char>>) -> Seq<char> {
    match registered {
        Some(name) => name,
        None => Seq::empty(),
    }
}

/// What is done with a signaling message of a peer, and the name that the
/// peer is registered under afterwards.
pub open spec fn signal_outcome(registered: Option<Seq<char>>, signal: SignalView) -> (
    Option<Seq<char>>,
    Seq<DirectoryActionView>,
) {
    match signal {
        SignalView::Register { peer_id } => (
            Some(peer_id),
            seq![
                DirectoryActionView::RegisterPeer { peer_id },
                DirectoryActionView::Reply(SignalView::Registered { peer_id }),
            ],
        ),
        SignalView::Offer { peer_id, sdp } => (
            registered,
            seq![DirectoryActionView::StoreOffer { peer_id, sdp }],
        ),
        SignalView::Answer { peer_id, .. } => (
            registered,
            seq![
                DirectoryActionView::Forward {
                    to: peer_id,
                    message: relayed(sender_name(registered), signal),
                },
            ],
        ),
        SignalView::IceCandidate { peer_id, .. } => (
            registered,
            seq![
                DirectoryActionView::Forward {
                    to: peer_id,
                    message: relayed(sender_name(registered), signal),
                },
            ],
        ),
        _ => (registered, Seq::empty()),
    }
}

/// What is done when a peer's channel ends: what the directory holds under
/// the peer's name is removed. A peer that never registered leaves nothing.
pub open spec fn disconnect_outcome(registered: Option<Seq<char>>) -> Seq<DirectoryActionView> {
    match registered {
        Some(peer_id) => seq![
            DirectoryActionView::RemovePeer { peer_id },
            DirectoryActionView::RemoveOffer { peer_id },
        ],
        None => Seq::empty(),
    }
}

/// One peer's channel to the directory service.
pub struct PeerChannel {
    peer_id: Option<String>,
}

impl PeerChannel {
    /// The name that the peer registered under, if it has.
    pub closed spec fn registered(&self) -> Option<Seq<char>> {
        crate::signaling::text_of(self.peer_id)
    }

    /// The channel of a peer that has not registered yet.
    pub fn new() -> (channel: PeerChannel)
        ensures
            channel.registered() is None,
    {
        PeerChannel { peer_id: None }
    }

    fn own_name(&self) -> (name: String)
        ensures
            name@ == sender_name(self.registered()),
    {
        match &self.peer_id {
            Some(name) => name.clone(),
            None => String::new(),
        }
    }

    /// Takes a signaling message of the peer and says what to do with it.
    pub fn handle_signal(&mut self, signal: SignalMessage) -> (actions: Vec<DirectoryAction>)
        ensures
            (final(self).registered(), directory_views(actions@)) == signal_outcome(
                old(self).registered(),
                signal@,
            ),
    {
        let mut actions: Vec<DirectoryAction> = Vec::new();
        match signal {
            SignalMessage::Register { peer_id } => {
                self.peer_id = Some(peer_id.clone());
                actions.push(DirectoryAction::RegisterPeer { peer_id: peer_id.clone() });
                actions.push(DirectoryAction::Reply(SignalMessage::Registered { peer_id }));
            },
            SignalMessage::Offer { peer_id, sdp } => {
                actions.push(DirectoryAction::StoreOffer { peer_id, sdp });
            },
            SignalMessage::Answer { peer_id, sdp } => {
                let message = SignalMessage::Answer { peer_id: self.own_name(), sdp };
                actions.push(DirectoryAction::Forward { to: peer_id, message });
            },
            SignalMessage::IceCandidate { peer_id, candidate, sdp_mid, sdp_mline_index } => {
                let message = SignalMessage::IceCandidate {
                    peer_id: self.own_name(),
                    candidate,
                    sdp_mid,
                    sdp_mline_index,
                };
                actions.push(DirectoryAction::Forward { to: peer_id, message });
            },
            SignalMessage::Registered { peer_id } => {},
            SignalMessage::Error { message } => {},
        }
        proof {
            assert(directory_views(actions@) =~= signal_outcome(
                old(self).registered(),
                signal@,
            ).1);
        }
        actions
    }

    /// The reply to a text that holds no signaling message: an error that
    /// quotes why the text could not be read.
    pub fn invalid_message(reason: &str) -> (reply: SignalMessage)
        ensures
            reply@ == (SignalView::Error { message: "Invalid message: "@ + reason@ }),
    {
        SignalMessage::Error { message: join("Invalid message: ", reason) }
    }

    /// The peer's channel has ended: says what to remove from the directory.
    pub fn handle_disconnect(&mut self) -> (actions: Vec<DirectoryAction>)
        ensures
            final(self).registered() is None,
            directory_views(actions@) == disconnect_outcome(old(self).registered()),
    {
        let mut actions: Vec<DirectoryAction> = Vec::new();
        match self.peer_id.take() {
            Some(peer_id) => {
                actions.push(DirectoryAction::RemovePeer { peer_id: peer_id.clone() });
                actions.push(DirectoryAction::RemoveOffer { peer_id });
            },
            None => {},
        }
        proof {
            assert(directory_views(actions@) =~= disconnect_outcome(old(self).registered()));
        }
        actions
    }
}

} // verus!
