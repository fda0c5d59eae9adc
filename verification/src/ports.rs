//! The collaborators of the core, each behind a trait: screen capture, input
//! injection, the image codec, the transport, authentication and the session
//! store.

use crate::error::{
    AuthError, CaptureError, CodecError, InjectionError, RepositoryError, TransportError,
};
use crate::message::ProtocolMessage;
use crate::models::{
    AuthToken, AuthTokenView, CodecType, DisplayInfo, EncoderConfig, InputEvent, PeerId,
    ScreenFrame, Session, SessionId, SessionStatus, SessionView,
};
use vstd::prelude::*;

verus! {

/// Produces raw frames of a display.
pub trait ScreenCapture {
    /// Captures one frame.
    fn capture(&mut self) -> Result<ScreenFrame, CaptureError>;

    /// The displays that can be captured.
    fn get_displays(&self) -> Result<Vec<DisplayInfo>, CaptureError>;

    /// Chooses the display to capture.
    fn set_target_display(&mut self, display_id: u32) -> Result<(), CaptureError>;
}

/// A record of input events, oldest first: what [`InputInjector::injected`]
/// gives. An implementation outside verified code names the type so.
pub type EventRecord = Seq<InputEvent>;

/// The sessions of a store by their identifiers: what
/// [`SessionRepository::sessions`] gives. An implementation outside verified
/// code names the type so.
pub type StoredSessions = Map<SessionId, SessionView>;

/// Feeds input events to the operating system.
///
/// The clause below says what an injection does to the record of the events
/// that the system has taken: an implementation has to meet it, and what is
/// proved of a batch holds of those that do.
pub trait InputInjector {
    /// The events that the system has taken so far, oldest first.
    spec fn injected(&self) -> Seq<InputEvent>;

    /// Injects one event. Where the system takes it, it is the youngest of
    /// the events taken; where the system refuses it, nothing was taken.
    fn inject(&mut self, event: InputEvent) -> (res: Result<(), InjectionError>)
        ensures
            final(self).injected() == if res is Ok {
                old(self).injected().push(event)
            } else {
                old(self).injected()
            },
    ;
}

/// Injects events one after the other and stops at the first that fails.
/// Returns the number of events that were injected, and the failure if
/// there was one. The events that were injected are the first so many of
/// the batch, in its order.
pub fn inject_batch<I: InputInjector>(injector: &mut I, events: &Vec<InputEvent>) -> (res: (
    usize,
    Result<(), InjectionError>,
))
    ensures
        res.0 <= events@.len(),
        res.1 is Ok <==> res.0 == events@.len(),
        final(injector).injected() == old(injector).injected() + events@.take(res.0 as int),
{
    let mut done: usize = 0;
    proof {
        assert(injector.injected() + events@.take(0) =~= injector.injected());
    }
    while done < events.len()
        invariant
            done <= events@.len(),
            injector.injected() == old(injector).injected() + events@.take(done as int),
        decreases events@.len() - done,
    {
        let ghost before = injector.injected();
        match injector.inject(events[done]) {
            Ok(()) => {
                proof {
                    assert(events@.take(done + 1) =~= events@.take(done as int).push(
                        events@[done as int],
                    ));
                    assert(before.push(events@[done as int]) =~= old(injector).injected()
                        + events@.take(done + 1));
                }
                done = done + 1;
            },
            Err(e) => {
                return (done, Err(e));
            },
        }
    }
    (done, Ok(()))
}

/// Turns raw frames into encoded bytes.
pub trait Encoder {
    /// Encodes one frame.
    fn encode(&mut self, frame: &ScreenFrame) -> Result<Vec<u8>, CodecError>;

    /// The encoder's settings.
    fn config(&self) -> EncoderConfig;

    /// Replaces the encoder's settings.
    fn set_config(&mut self, config: EncoderConfig) -> Result<(), CodecError>;
}

/// Turns encoded bytes back into frames. The decoder knows neither the
/// sequence number nor the capture time of a frame: it leaves both at 0.
pub trait Decoder {
    /// Decodes one frame.
    fn decode(&mut self, data: &[u8]) -> Result<ScreenFrame, CodecError>;

    /// The codec that the decoder handles.
    fn codec_type(&self) -> CodecType;
}

/// Carries messages to and from one peer. A transport is open or closed;
/// once closed it stays closed and every operation fails.
pub trait Transport {
    /// Sends one message to the peer.
    fn send(&mut self, message: ProtocolMessage) -> Result<(), TransportError>;

    /// Takes the next message from the peer.
    fn receive(&mut self) -> Result<ProtocolMessage, TransportError>;

    /// Closes the transport for good.
    fn close(&mut self) -> Result<(), TransportError>;

    /// True while the transport is open.
    fn is_connected(&self) -> bool;
}

/// The peer that a token stands for, if any: what
/// [`Authenticator::peer_of`] gives. An implementation outside verified code
/// names the type so.
pub type TokenPeer = Option<Seq<char>>;

/// Checks credentials.
///
/// Whether a token is accepted is the authenticator's to decide. The clause
/// below says that a token that is accepted stands for the peer returned: an
/// implementation has to meet it.
pub trait Authenticator {
    /// The peer that a token stands for, where it stands for one.
    spec fn peer_of(&self, token: AuthTokenView) -> Option<Seq<char>>;

    /// Checks a token and returns the peer that it stands for.
    fn authenticate(&self, token: &AuthToken) -> (res: Result<PeerId, AuthError>)
        ensures
            res matches Ok(peer) ==> self.peer_of(token@) == Some(peer@),
    ;

    /// A new token for a device.
    fn generate_token(&self, device_id: &str) -> Result<AuthToken, AuthError>;

    /// Makes a token invalid.
    fn revoke_token(&self, token: &AuthToken) -> Result<(), AuthError>;
}

/// True if `list` holds the active sessions of `store` and nothing else:
/// every session of the list is stored under its identifier and has the
/// status `Active`, none stands in the list twice, and every stored session
/// whose status is `Active` stands in the list.
pub open spec fn lists_active(store: Map<SessionId, SessionView>, list: Seq<Session>) -> bool {
    &&& forall|i: int|
        0 <= i < list.len() ==> {
            &&& store.contains_key(#[trigger] list[i].id)
            &&& store[list[i].id] == list[i]@
            &&& list[i].status == SessionStatus::Active
        }
    &&& forall|i: int, j: int|
        0 <= i < j < list.len() ==> (#[trigger] list[i]).id != (#[trigger] list[j]).id
    &&& forall|id: SessionId|
        #[trigger] store.contains_key(id) && store[id].status == SessionStatus::Active
            ==> exists|i: int| 0 <= i < list.len() && (#[trigger] list[i])@ == store[id]
}

/// Stores sessions by identifier.
///
/// Every operation may fail with an error of the store's own. The clauses
/// below say what an operation that succeeds has done: an implementation has
/// to meet them, and what is proved of the session manager holds of those
/// that do.
pub trait SessionRepository {
    /// The sessions that the store holds.
    spec fn sessions(&self) -> Map<SessionId, SessionView>;

    /// Stores a new session.
    fn create(&mut self, session: Session) -> (res: Result<(), RepositoryError>)
        ensures
            res is Ok ==> final(self).sessions() == old(self).sessions().insert(
                session.id,
                session@,
            ),
    ;

    /// Looks a session up.
    fn find_by_id(&self, id: SessionId) -> (res: Result<Option<Session>, RepositoryError>)
        ensures
            match res {
                Ok(Some(session)) => self.sessions().contains_key(id) && self.sessions()[id]
                    == session@,
                Ok(None) => !self.sessions().contains_key(id),
                Err(_) => true,
            },
    ;

    /// Replaces a stored session by a new value.
    fn update(&mut self, session: Session) -> (res: Result<(), RepositoryError>)
        ensures
            res is Ok ==> final(self).sessions() == old(self).sessions().insert(
                session.id,
                session@,
            ),
    ;

    /// Removes a session.
    fn delete(&mut self, id: SessionId) -> (res: Result<(), RepositoryError>)
        ensures
            res is Ok ==> final(self).sessions() == old(self).sessions().remove(id),
    ;

    /// The sessions that are active: the stored sessions whose status is
    /// `Active`, each once, in an order of the store's choosing.
    fn list_active(&self) -> (res: Result<Vec<Session>, RepositoryError>)
        ensures
            res matches Ok(list) ==> lists_active(self.sessions(), list@),
    ;
}

} // verus!
