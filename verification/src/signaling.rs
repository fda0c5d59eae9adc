//! The signaling protocol: the messages that a peer exchanges with the
//! directory service to set up a direct connection, and the client's queues.
//!
//! The client does no protocol logic beyond registration and relaying. What
//! it is asked to send is queued and goes out in that order; what comes in is
//! queued for the caller to pull, in the order in which it came.

use crate::error::TransportError;
use crate::text::join;
use vstd::prelude::*;

verus! {

/// What the `url` crate makes of a text: the URL in the form in which the
/// crate writes it, or the reason why the text is no absolute URL.
pub uninterp spec fn url_parsing(text: Seq<char>) -> Result<Seq<char>, Seq<char>>;

/// The value of what the parsing of a URL returned.
pub open spec fn parsing_result(res: Result<String, String>) -> Result<Seq<char>, Seq<char>> {
    match res {
        Ok(url) => Ok(url@),
        Err(why) => Err(why@),
    }
}

/// `url::Url::parse`, then `Url::as_str`, or `to_string` on the error: the
/// URL that a text holds, written out again, or the text of the parser's
/// refusal. Both depend on the text alone.
#[verifier::external_body]
fn parse_url(text: &str) -> (res: Result<String, String>)
    ensures
        parsing_result(res) == url_parsing(text@),
{
    match url::Url::parse(text) {
        Ok(url) => Ok(url.as_str().to_owned()),
        Err(e) => Err(e.to_string()),
    }
}

/// The address of the directory service's channel, as it is written before
/// it is checked: the service's address with `/ws` behind it.
pub open spec fn channel_address(signaling_url: Seq<char>) -> Seq<char> {
    signaling_url + "/ws"@
}

/// What the parsing of the channel's address means to a caller: the address
/// to connect to, or a failed connection with the parser's reason.
pub fn endpoint_from(parsed: Result<String, String>) -> (res: Result<String, TransportError>)
    ensures
        match parsed {
            Ok(url) => res matches Ok(address) && address@ == url@,
            Err(why) => res matches Err(TransportError::ConnectionFailed(text)) && text@ == why@,
        },
{
    match parsed {
        Ok(url) => Ok(url),
        Err(why) => Err(TransportError::ConnectionFailed(why)),
    }
}

/// A message of the signaling protocol. In an outbound `Offer`, `Answer` or
/// `IceCandidate` the `peer_id` names the peer that the message is for; in an
/// inbound one it names the peer that the message is from.
#[derive(Debug, Clone, PartialEq, Eq)]
pub enum SignalMessage {
    Register { peer_id: String },
    Offer { peer_id: String, sdp: String },
    Answer { peer_id: String, sdp: String },
    IceCandidate {
        peer_id: String,
        candidate: String,
        sdp_mid: Option<String>,
        sdp_mline_index: Option<u16>,
    },
    Registered { peer_id: String },
    Error { message: String },
}

/// One network-path candidate.
pub struct CandidateView {
    pub candidate: Seq<char>,
    pub sdp_mid: Option<Seq<char>>,
    pub sdp_mline_index: Option<u16>,
}

/// The mathematical value of a [`SignalMessage`].
pub enum SignalView {
    Register { peer_id: Seq<char> },
    Offer { peer_id: Seq<char>, sdp: Seq<char> },
    Answer { peer_id: Seq<char>, sdp: Seq<char> },
    IceCandidate { peer_id: Seq<char>, candidate: CandidateView },
    Registered { peer_id: Seq<char> },
    Error { message: Seq<char> },
}

/// The text of an optional string.
pub open spec fn text_of(text: Option<String>) -> Option<Seq<char>> {
    match text {
        Some(t) => Some(t@),
        None => None,
    }
}

impl View for SignalMessage {
    type V = SignalView;

    open spec fn view(&self) -> SignalView {
        match *self {
            SignalMessage::Register { peer_id } => SignalView::Register { peer_id: peer_id@ },
            SignalMessage::Offer { peer_id, sdp } => SignalView::Offer {
                peer_id: peer_id@,
                sdp: sdp@,
            },
            SignalMessage::Answer { peer_id, sdp } => SignalView::Answer {
                peer_id: peer_id@,
                sdp: sdp@,
            },
            SignalMessage::IceCandidate {
                peer_id,
                candidate,
                sdp_mid,
                sdp_mline_index,
            } => SignalView::IceCandidate {
                peer_id: peer_id@,
                candidate: CandidateView {
                    candidate: candidate@,
                    sdp_mid: text_of(sdp_mid),
                    sdp_mline_index,
                },
            },
            SignalMessage::Registered { peer_id } => SignalView::Registered { peer_id: peer_id@ },
            SignalMessage::Error { message } => SignalView::Error { message: message@ },
        }
    }
}

/// A network-path candidate as the peer connection reports and takes it.
#[derive(Debug, Clone, PartialEq, Eq)]
pub struct IceCandidate {
    pub candidate: String,
    pub sdp_mid: Option<String>,
    pub sdp_mline_index: Option<u16>,
}

impl View for IceCandidate {
    type V = CandidateView;

    open spec fn view(&self) -> CandidateView {
        CandidateView {
            candidate: self.candidate@,
            sdp_mid: text_of(self.sdp_mid),
            sdp_mline_index: self.sdp_mline_index,
        }
    }
}

/// A copy of an optional string.
pub fn copy_text(text: &Option<String>) -> (copy: Option<String>)
    ensures
        text_of(copy) == text_of(*text),
{
    match text {
        Some(t) => Some(t.clone()),
        None => None,
    }
}

impl IceCandidate {
    /// A copy of the candidate.
    pub fn duplicate(&self) -> (copy: IceCandidate)
        ensures
            copy@ == self@,
    {
        IceCandidate {
            candidate: self.candidate.clone(),
            sdp_mid: copy_text(&self.sdp_mid),
            sdp_mline_index: self.sdp_mline_index,
        }
    }
}

/// The values of a run of signaling messages.
pub open spec fn signal_views(msgs: Seq<SignalMessage>) -> Seq<SignalView> {
    msgs.map_values(|m: SignalMessage| m@)
}

/// What the socket of the signaling channel reports.
#[derive(Debug, Clone, PartialEq, Eq)]
pub enum SocketEvent {
    /// A text frame that holds a signaling message.
    Signal(SignalMessage),
    /// A text frame that holds no signaling message.
    Unreadable,
    /// A frame of another kind: binary, ping or pong.
    Other,
    /// The peer closed the channel, or the channel ended.
    Closed,
    /// The channel failed.
    Failed,
}

/// The signaling client: who it is, what waits to go out and what has come in.
pub struct SignalingClient {
    peer_id: String,
    outgoing: Vec<SignalMessage>,
    incoming: Vec<SignalMessage>,
    open: bool,
}

impl SignalingClient {
    /// The identifier under which the client registered.
    pub closed spec fn id(&self) -> Seq<char> {
        self.peer_id@
    }

    /// The messages that wait to be written to the channel, oldest first.
    pub closed spec fn outgoing(&self) -> Seq<SignalView> {
        signal_views(self.outgoing@)
    }

    /// The messages that wait to be pulled by the caller, oldest first.
    pub closed spec fn incoming(&self) -> Seq<SignalView> {
        signal_views(self.incoming@)
    }

    /// True until the channel has closed or failed.
    pub closed spec fn is_open(&self) -> bool {
        self.open
    }

    /// The address to connect to for a directory service at `signaling_url`:
    /// the service's address with `/ws` behind it, where that is a URL. Where
    /// it is none the connection fails before it is tried.
    pub fn endpoint(signaling_url: &str) -> (res: Result<String, TransportError>)
        ensures
            match url_parsing(channel_address(signaling_url@)) {
                Ok(url) => res matches Ok(address) && address@ == url,
                Err(why) => res matches Err(TransportError::ConnectionFailed(text)) && text@
                    == why,
            },
    {
        let address = join(signaling_url, "/ws");
        endpoint_from(parse_url(address.as_str()))
    }

    /// A client for a channel that has just been connected. The registration
    /// is the first message to go out.
    pub fn connect(peer_id: &str) -> (client: SignalingClient)
        ensures
            client.id() == peer_id@,
            client.outgoing() == seq![SignalView::Register { peer_id: peer_id@ }],
            client.incoming() == Seq::<SignalView>::empty(),
            client.is_open(),
    {
        let mut outgoing: Vec<SignalMessage> = Vec::new();
        outgoing.push(SignalMessage::Register { peer_id: peer_id.to_owned() });
        let client = SignalingClient {
            peer_id: peer_id.to_owned(),
            outgoing,
            incoming: Vec::new(),
            open: true,
        };
        proof {
            assert(client.outgoing() =~= seq![SignalView::Register { peer_id: peer_id@ }]);
            assert(client.incoming() =~= Seq::<SignalView>::empty());
        }
        client
    }

    /// The name under which the client registered.
    pub fn peer_id(&self) -> (id: &str)
        ensures
            id@ == self.id(),
    {
        self.peer_id.as_str()
    }

    /// Queues a message behind those that wait to go out.
    pub fn send(&mut self, message: SignalMessage)
        ensures
            final(self).outgoing() == old(self).outgoing().push(message@),
            final(self).incoming() == old(self).incoming(),
            final(self).id() == old(self).id(),
            final(self).is_open() == old(self).is_open(),
    {
        let ghost before = self.outgoing@;
        self.outgoing.push(message);
        proof {
            assert(signal_views(self.outgoing@) =~= signal_views(before).push(message@));
        }
    }

    /// Queues a session description offer for `target_peer`.
    pub fn send_offer(&mut self, target_peer: &str, sdp: &str)
        ensures
            final(self).outgoing() == old(self).outgoing().push(
                SignalView::Offer { peer_id: target_peer@, sdp: sdp@ },
            ),
            final(self).incoming() == old(self).incoming(),
            final(self).id() == old(self).id(),
            final(self).is_open() == old(self).is_open(),
    {
        self.send(SignalMessage::Offer { peer_id: target_peer.to_owned(), sdp: sdp.to_owned() })
    }

    /// Queues a session description answer for `target_peer`.
    pub fn send_answer(&mut self, target_peer: &str, sdp: &str)
        ensures
            final(self).outgoing() == old(self).outgoing().push(
                SignalView::Answer { peer_id: target_peer@, sdp: sdp@ },
            ),
            final(self).incoming() == old(self).incoming(),
            final(self).id() == old(self).id(),
            final(self).is_open() == old(self).is_open(),
    {
        self.send(SignalMessage::Answer { peer_id: target_peer.to_owned(), sdp: sdp.to_owned() })
    }

    /// Queues a network-path candidate for `target_peer`.
    pub fn send_ice_candidate(
        &mut self,
        target_peer: &str,
        candidate: &str,
        sdp_mid: Option<String>,
        sdp_mline_index: Option<u16>,
    )
        ensures
            final(self).outgoing() == old(self).outgoing().push(
                SignalView::IceCandidate {
                    peer_id: target_peer@,
                    candidate: CandidateView {
                        candidate: candidate@,
                        sdp_mid: text_of(sdp_mid),
                        sdp_mline_index,
                    },
                },
            ),
            final(self).incoming() == old(self).incoming(),
            final(self).id() == old(self).id(),
            final(self).is_open() == old(self).is_open(),
    {
        self.send(
            SignalMessage::IceCandidate {
                peer_id: target_peer.to_owned(),
                candidate: candidate.to_owned(),
                sdp_mid,
                sdp_mline_index,
            },
        )
    }

    /// Takes the oldest message that waits to go out, for the channel to write.
    pub fn next_outgoing(&mut self) -> (message: Option<SignalMessage>)
        ensures
            final(self).incoming() == old(self).incoming(),
            final(self).id() == old(self).id(),
            final(self).is_open() == old(self).is_open(),
            match message {
                Some(m) => old(self).outgoing().len() > 0 && m@ == old(self).outgoing()[0]
                    && final(self).outgoing() == old(self).outgoing().drop_first(),
                None => {
                    &&& old(self).outgoing().len() == 0
                    &&& final(self).outgoing() == old(self).outgoing()
                },
            },
    {
        if self.outgoing.len() == 0 {
            return None;
        }
        let ghost before = self.outgoing@;
        let message = self.outgoing.remove(0);
        proof {
            assert(signal_views(self.outgoing@) =~= signal_views(before).drop_first());
        }
        Some(message)
    }

    /// Takes what the channel reported. A signaling message is queued for
    /// the caller; a close or a failure ends the client; anything else is
    /// passed over. Returns whether the channel is to be read further.
    pub fn on_socket_event(&mut self, event: SocketEvent) -> (keep_reading: bool)
        ensures
            final(self).outgoing() == old(self).outgoing(),
            final(self).id() == old(self).id(),
            keep_reading == final(self).is_open(),
            final(self).is_open() == (old(self).is_open() && !(event is Closed) && !(event
                is Failed)),
            final(self).incoming() == if old(self).is_open() && event is Signal {
                old(self).incoming().push(event->Signal_0@)
            } else {
                old(self).incoming()
            },
    {
        if !self.open {
            return false;
        }
        match event {
            SocketEvent::Signal(message) => {
                let ghost before = self.incoming@;
                let ghost value = message@;
                self.incoming.push(message);
                proof {
                    assert(signal_views(self.incoming@) =~= signal_views(before).push(value));
                }
                true
            },
            SocketEvent::Unreadable => true,
            SocketEvent::Other => true,
            SocketEvent::Closed => {
                self.open = false;
                false
            },
            SocketEvent::Failed => {
                self.open = false;
                false
            },
        }
    }

    /// Takes the oldest message that has come in, if there is one.
    pub fn recv(&mut self) -> (message: Option<SignalMessage>)
        ensures
            final(self).outgoing() == old(self).outgoing(),
            final(self).id() == old(self).id(),
            final(self).is_open() == old(self).is_open(),
            match message {
                Some(m) => old(self).incoming().len() > 0 && m@ == old(self).incoming()[0]
                    && final(self).incoming() == old(self).incoming().drop_first(),
                None => {
                    &&& old(self).incoming().len() == 0
                    &&& final(self).incoming() == old(self).incoming()
                },
            },
    {
        if self.incoming.len() == 0 {
            return None;
        }
        let ghost before = self.incoming@;
        let message = self.incoming.remove(0);
        proof {
            assert(signal_views(self.incoming@) =~= signal_views(before).drop_first());
        }
        Some(message)
    }
}

} // verus!
