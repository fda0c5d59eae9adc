use remote_desktop::error::{ApplicationError, AuthError, CodecError, DomainError, RepositoryError};
use remote_desktop::framing::{read_frame, FrameRead};
use remote_desktop::message::ProtocolMessage;
use remote_desktop::models::{
    AuthToken, AuthTokenView, FrameFormat, InputEvent, PeerId, ScreenFrame, Session, SessionId,
    SessionStatus,
};
use remote_desktop::ports::{Authenticator, SessionRepository, StoredSessions, TokenPeer};
use remote_desktop::quic::QuicTransport;
use remote_desktop::relay::{
    handle_message, ConnectionAction, ConnectionEvent, ConnectionPhase, MessageOutcome,
    RelayConnection,
};
use remote_desktop::server_state::ServerState;
use remote_desktop::session::{FramePoll, ReceiveAction, RemoteSession};
use remote_desktop::session_manager::{
    authenticated, found_session, listed, new_session, stored, SessionManager,
};

struct MemoryStore {
    sessions: Vec<Session>,
    fail: bool,
}

impl MemoryStore {
    fn new() -> Self {
        MemoryStore { sessions: Vec::new(), fail: false }
    }
}

impl SessionRepository for MemoryStore {
    fn sessions(&self) -> StoredSessions {
        unreachable!("only proofs speak of the stored sessions")
    }

    fn create(&mut self, session: Session) -> Result<(), RepositoryError> {
        if self.fail {
            return Err(RepositoryError::DatabaseError("down".to_string()));
        }
        self.sessions.retain(|s| s.id != session.id);
        self.sessions.push(session);
        Ok(())
    }

    fn find_by_id(&self, id: SessionId) -> Result<Option<Session>, RepositoryError> {
        if self.fail {
            return Err(RepositoryError::DatabaseError("down".to_string()));
        }
        Ok(self.sessions.iter().find(|s| s.id == id).cloned())
    }

    fn update(&mut self, session: Session) -> Result<(), RepositoryError> {
        self.create(session)
    }

    fn delete(&mut self, id: SessionId) -> Result<(), RepositoryError> {
        if self.fail {
            return Err(RepositoryError::DatabaseError("down".to_string()));
        }
        self.sessions.retain(|s| s.id != id);
        Ok(())
    }

    fn list_active(&self) -> Result<Vec<Session>, RepositoryError> {
        if self.fail {
            return Err(RepositoryError::DatabaseError("down".to_string()));
        }
        Ok(self
            .sessions
            .iter()
            .filter(|s| s.status == SessionStatus::Active)
            .cloned()
            .collect())
    }
}

struct TokenTable;

impl Authenticator for TokenTable {
    fn peer_of(&self, _token: AuthTokenView) -> TokenPeer {
        unreachable!("only proofs speak of the peer of a token")
    }

    fn authenticate(&self, token: &AuthToken) -> Result<PeerId, AuthError> {
        if token.token == "valid" {
            Ok(PeerId::new(format!("peer-of-{}", token.device_id)))
        } else if token.token == "old" {
            Err(AuthError::TokenExpired)
        } else {
            Err(AuthError::InvalidToken)
        }
    }

    fn generate_token(&self, device_id: &str) -> Result<AuthToken, AuthError> {
        Ok(AuthToken::new("valid".to_string(), device_id.to_string()))
    }

    fn revoke_token(&self, _token: &AuthToken) -> Result<(), AuthError> {
        Ok(())
    }
}

fn manager() -> SessionManager<MemoryStore, TokenTable> {
    SessionManager::new(MemoryStore::new(), TokenTable)
}

fn valid_token() -> AuthToken {
    AuthToken::new("valid".to_string(), "laptop".to_string())
}

#[test]
fn created_session_is_pending_and_found_by_id() {
    let mut m = manager();
    let session = m.create_session(&valid_token(), PeerId::new("agent-1".to_string())).unwrap();
    assert_eq!(session.status, SessionStatus::Pending);
    assert_eq!(session.client, PeerId::new("peer-of-laptop".to_string()));
    assert_eq!(session.agent, PeerId::new("agent-1".to_string()));
    assert!(session.created_at > 1_600_000_000_000);
    assert_eq!(m.get_session(session.id), Ok(session));
}

#[test]
fn ended_session_is_not_found() {
    let mut m = manager();
    let kept = m.create_session(&valid_token(), PeerId::new("agent-0".to_string())).unwrap();
    let session = m.create_session(&valid_token(), PeerId::new("agent-1".to_string())).unwrap();
    assert_eq!(m.end_session(session.id), Ok(()));
    assert_eq!(
        m.get_session(session.id),
        Err(ApplicationError::Domain(DomainError::SessionNotFound(session.id)))
    );
    assert_eq!(m.get_session(kept.id), Ok(kept));
    assert_eq!(
        m.end_session(session.id),
        Err(ApplicationError::Domain(DomainError::SessionNotFound(session.id)))
    );
}

#[test]
fn refused_token_stores_nothing() {
    let mut m = manager();
    let bad = AuthToken::new("nope".to_string(), "laptop".to_string());
    assert_eq!(
        m.create_session(&bad, PeerId::new("agent".to_string())),
        Err(ApplicationError::Auth(AuthError::InvalidToken))
    );
    let old = AuthToken::new("old".to_string(), "laptop".to_string());
    assert_eq!(
        m.create_session(&old, PeerId::new("agent".to_string())),
        Err(ApplicationError::Auth(AuthError::TokenExpired))
    );
    assert!(m.repository.sessions.is_empty());
}

#[test]
fn store_failures_come_out_as_repository_errors() {
    let mut m = manager();
    let session = m.create_session(&valid_token(), PeerId::new("agent".to_string())).unwrap();
    m.repository.fail = true;
    let down = ApplicationError::Repository(RepositoryError::DatabaseError("down".to_string()));
    assert_eq!(m.get_session(session.id), Err(down.clone()));
    assert_eq!(m.update_status(session.id, SessionStatus::Active), Err(down.clone()));
    assert_eq!(m.end_session(session.id), Err(down.clone()));
    assert_eq!(m.create_session(&valid_token(), PeerId::new("agent".to_string())), Err(down));
}

#[test]
fn any_status_may_follow_any_other() {
    let mut m = manager();
    let session = m.create_session(&valid_token(), PeerId::new("agent".to_string())).unwrap();
    for status in [
        SessionStatus::Closed,
        SessionStatus::Active,
        SessionStatus::Paused,
        SessionStatus::Pending,
        SessionStatus::Active,
    ] {
        assert_eq!(m.update_status(session.id, status), Ok(()));
        assert_eq!(m.get_session(session.id).unwrap().status, status);
    }
    assert_eq!(m.list_active_sessions().unwrap().len(), 1);
    assert_eq!(
        m.update_status(SessionId(1), SessionStatus::Active),
        Err(ApplicationError::Domain(DomainError::SessionNotFound(SessionId(1))))
    );
}

#[test]
fn session_ids_are_random_version_four() {
    let mut m = manager();
    let a = m.create_session(&valid_token(), PeerId::new("agent".to_string())).unwrap();
    let b = m.create_session(&valid_token(), PeerId::new("agent".to_string())).unwrap();
    assert_ne!(a.id, b.id);
    for id in [a.id, b.id] {
        assert_eq!((id.0 >> 76) & 0xf, 4);
        assert_eq!((id.0 >> 62) & 0x3, 2);
    }
}

#[test]
fn open_session_stores_what_it_is_given() {
    let mut m = manager();
    let session = m
        .open_session(
            SessionId(77),
            PeerId::new("client".to_string()),
            PeerId::new("agent".to_string()),
            1234,
        )
        .unwrap();
    assert_eq!(
        session,
        Session {
            id: SessionId(77),
            client: PeerId::new("client".to_string()),
            agent: PeerId::new("agent".to_string()),
            created_at: 1234,
            status: SessionStatus::Pending,
        }
    );
    assert_eq!(m.get_session(SessionId(77)), Ok(session));
}

#[test]
fn new_session_is_pending() {
    let s = new_session(
        SessionId(9),
        PeerId::new("c".to_string()),
        PeerId::new("a".to_string()),
        123,
    );
    assert_eq!(
        s,
        Session {
            id: SessionId(9),
            client: PeerId::new("c".to_string()),
            agent: PeerId::new("a".to_string()),
            created_at: 123,
            status: SessionStatus::Pending,
        }
    );
    assert_eq!(s.duplicate(), s);
}

#[test]
fn outcomes_of_the_collaborators_are_told_apart() {
    assert_eq!(
        authenticated(Ok(PeerId::new("p".to_string()))),
        Ok(PeerId::new("p".to_string()))
    );
    assert_eq!(
        authenticated(Err(AuthError::TokenExpired)),
        Err(ApplicationError::Auth(AuthError::TokenExpired))
    );
    assert_eq!(stored(5u8, Ok(())), Ok(5u8));
    assert_eq!(
        stored(5u8, Err(RepositoryError::ConstraintViolation("dup".to_string()))),
        Err(ApplicationError::Repository(RepositoryError::ConstraintViolation("dup".to_string())))
    );
}

#[test]
fn lookups_are_told_apart() {
    let s = new_session(
        SessionId(9),
        PeerId::new("c".to_string()),
        PeerId::new("a".to_string()),
        1,
    );
    assert_eq!(found_session(SessionId(9), Ok(Some(s.clone()))), Ok(s));
    assert_eq!(
        found_session(SessionId(9), Ok(None)),
        Err(ApplicationError::Domain(DomainError::SessionNotFound(SessionId(9))))
    );
    assert_eq!(
        found_session(SessionId(9), Err(RepositoryError::NotFound)),
        Err(ApplicationError::Repository(RepositoryError::NotFound))
    );
}

#[test]
fn relay_handshake_registers_and_echoes_the_heartbeat() {
    let mut state = ServerState::new();
    let mut connection = RelayConnection::new();
    let hello = ProtocolMessage::Hello {
        version: 1,
        device_id: "dev-A".to_string(),
        platform: remote_desktop::models::Platform::Linux,
    };
    match connection.handle_connection(ConnectionEvent::Received(hello)) {
        ConnectionAction::RegisterAgent { device_id } => {
            assert_eq!(device_id, "dev-A");
            state.register_agent(device_id.clone(), PeerId::new(device_id));
        }
        other => panic!("expected a registration, got {:?}", other),
    }
    assert!(connection.is_open());
    assert_eq!(connection.phase, ConnectionPhase::Registered);
    assert_eq!(state.get_agent("dev-A"), Some(PeerId::new("dev-A".to_string())));

    let beat = ProtocolMessage::Heartbeat { timestamp: 1000 };
    assert_eq!(
        connection.handle_connection(ConnectionEvent::Received(beat.clone())),
        ConnectionAction::Send(beat)
    );
    assert!(connection.is_open());
}

#[test]
fn relay_handshake_over_the_wire() {
    // The client writes Hello and a heartbeat to its stream.
    let mut client = QuicTransport::new();
    let hello = ProtocolMessage::Hello {
        version: 1,
        device_id: "dev-A".to_string(),
        platform: remote_desktop::models::Platform::Linux,
    };
    let mut upstream = client.send(&hello).unwrap().frame;
    upstream.extend_from_slice(
        &client.send(&ProtocolMessage::Heartbeat { timestamp: 1000 }).unwrap().frame,
    );

    // The server reads the stream frame by frame and answers on its own.
    let mut server = QuicTransport::new();
    let mut state = ServerState::new();
    let mut connection = RelayConnection::new();
    let mut downstream = Vec::new();
    let mut pos = 0;
    loop {
        let message = match read_frame(&upstream, pos) {
            FrameRead::Message(message, next) => {
                pos = next;
                message
            }
            FrameRead::End => break,
            other => panic!("the stream broke: {:?}", other),
        };
        match connection.handle_connection(ConnectionEvent::Received(message)) {
            ConnectionAction::RegisterAgent { device_id } => {
                state.register_agent(device_id.clone(), PeerId::new(device_id));
            }
            ConnectionAction::Send(reply) => {
                downstream.extend_from_slice(&server.send(&reply).unwrap().frame);
            }
            ConnectionAction::Receive => {}
            ConnectionAction::Close => panic!("the server closed the connection"),
        }
    }
    assert!(connection.is_open());
    assert!(server.is_connected());
    assert_eq!(state.get_agent("dev-A"), Some(PeerId::new("dev-A".to_string())));

    // The client reads the echo.
    let len = QuicTransport::payload_len(&downstream[..4]).unwrap();
    assert_eq!(downstream.len(), 4 + len);
    assert_eq!(
        QuicTransport::decode_payload(&downstream[4..]),
        Ok(ProtocolMessage::Heartbeat { timestamp: 1000 })
    );
}

#[test]
fn relay_drops_a_connection_that_does_not_say_hello() {
    let mut connection = RelayConnection::new();
    assert_eq!(
        connection
            .handle_connection(ConnectionEvent::Received(ProtocolMessage::Heartbeat { timestamp: 1 })),
        ConnectionAction::Close
    );
    assert!(!connection.is_open());
    let mut failed = RelayConnection::new();
    assert_eq!(failed.handle_connection(ConnectionEvent::ReceiveFailed), ConnectionAction::Close);
    assert!(!failed.is_open());
}

#[test]
fn relay_handles_messages_after_hello() {
    let mut connection = RelayConnection::new();
    connection.handle_connection(ConnectionEvent::Received(ProtocolMessage::Hello {
        version: 1,
        device_id: "d".to_string(),
        platform: remote_desktop::models::Platform::Windows,
    }));
    assert_eq!(
        connection.handle_connection(ConnectionEvent::Received(ProtocolMessage::SessionRequest {
            target_device: "x".to_string()
        })),
        ConnectionAction::Receive
    );
    assert_eq!(
        connection.handle_connection(ConnectionEvent::Received(ProtocolMessage::Error {
            code: 1,
            message: "m".to_string()
        })),
        ConnectionAction::Receive
    );
    assert!(connection.is_open());
    assert_eq!(
        connection.handle_connection(ConnectionEvent::Received(ProtocolMessage::Disconnect)),
        ConnectionAction::Close
    );
    assert!(!connection.is_open());
    assert_eq!(
        connection
            .handle_connection(ConnectionEvent::Received(ProtocolMessage::Heartbeat { timestamp: 1 })),
        ConnectionAction::Close
    );
}

#[test]
fn relay_ends_on_failed_send_or_receive() {
    for event in [ConnectionEvent::SendFailed, ConnectionEvent::ReceiveFailed] {
        let mut connection = RelayConnection::new();
        connection.handle_connection(ConnectionEvent::Received(ProtocolMessage::Hello {
            version: 1,
            device_id: "d".to_string(),
            platform: remote_desktop::models::Platform::Windows,
        }));
        assert_eq!(connection.handle_connection(event), ConnectionAction::Close);
        assert!(!connection.is_open());
    }
}

#[test]
fn heartbeat_is_echoed_unchanged() {
    assert_eq!(
        handle_message(&ProtocolMessage::Heartbeat { timestamp: 1000 }),
        MessageOutcome::Reply(ProtocolMessage::Heartbeat { timestamp: 1000 })
    );
    assert_eq!(handle_message(&ProtocolMessage::Disconnect), MessageOutcome::Disconnect);
    assert_eq!(
        handle_message(&ProtocolMessage::Auth {
            token: AuthToken::new("t".to_string(), "d".to_string())
        }),
        MessageOutcome::Ignore
    );
}

#[test]
fn server_state_keeps_agents_and_sessions() {
    let mut state = ServerState::default();
    assert_eq!(state.get_agent("dev-A"), None);
    state.register_agent("dev-A".to_string(), PeerId::new("peer-1".to_string()));
    state.register_agent("dev-B".to_string(), PeerId::new("peer-2".to_string()));
    state.register_agent("dev-A".to_string(), PeerId::new("peer-3".to_string()));
    assert_eq!(state.get_agent("dev-A"), Some(PeerId::new("peer-3".to_string())));
    assert_eq!(state.get_agent("dev-B"), Some(PeerId::new("peer-2".to_string())));
    assert_eq!(state.get_agent("dev-C"), None);

    let s = new_session(
        SessionId(42),
        PeerId::new("c".to_string()),
        PeerId::new("a".to_string()),
        5,
    );
    assert_eq!(state.get_session(SessionId(42)), None);
    state.add_session(s.clone());
    assert_eq!(state.get_session(SessionId(42)), Some(s));
    assert_eq!(state.get_session(SessionId(43)), None);
}

fn decoded_frame() -> ScreenFrame {
    ScreenFrame {
        sequence: 0,
        timestamp: 0,
        data: vec![1, 2, 3, 4],
        width: 1,
        height: 1,
        format: FrameFormat::Raw,
    }
}

#[test]
fn viewer_stamps_and_queues_decoded_frames() {
    let mut session = RemoteSession::new();
    assert_eq!(session.session_id(), None);
    assert_eq!(session.receive_frame(), FramePoll::Pending);
    let message = ProtocolMessage::ScreenFrame {
        sequence: 12,
        timestamp: 3400,
        data: vec![9, 9],
        width: 640,
        height: 480,
        format: FrameFormat::Jpeg,
    };
    assert_eq!(
        session.on_message(message),
        ReceiveAction::Decode { data: vec![9, 9], sequence: 12, timestamp: 3400 }
    );
    session.on_decoded(Ok(decoded_frame()), 12, 3400);
    session.on_decoded(Err(CodecError::DecodingFailed("bad".to_string())), 13, 3500);
    session.on_decoded(Ok(decoded_frame()), 14, 3600);
    let mut first = decoded_frame();
    first.sequence = 12;
    first.timestamp = 3400;
    let mut second = decoded_frame();
    second.sequence = 14;
    second.timestamp = 3600;
    assert_eq!(session.receive_frame(), FramePoll::Frame(first));
    session.stop_receiving();
    assert_eq!(session.receive_frame(), FramePoll::Frame(second));
    assert_eq!(session.receive_frame(), FramePoll::Ended);
    session.on_decoded(Ok(decoded_frame()), 15, 3700);
    assert_eq!(session.receive_frame(), FramePoll::Ended);
    assert_eq!(
        session.on_message(ProtocolMessage::Heartbeat { timestamp: 1 }),
        ReceiveAction::Stop
    );
}

#[test]
fn viewer_passes_other_messages_over() {
    let session = RemoteSession::new();
    assert_eq!(
        session.on_message(ProtocolMessage::Heartbeat { timestamp: 1 }),
        ReceiveAction::Continue
    );
    assert_eq!(session.on_message(ProtocolMessage::Disconnect), ReceiveAction::Continue);
}

#[test]
fn viewer_requests_a_session_and_takes_an_id() {
    let mut session = RemoteSession::new();
    let (request, id) = session.connect("agent-9".to_string());
    assert_eq!(request, ProtocolMessage::SessionRequest { target_device: "agent-9".to_string() });
    assert_eq!(session.session_id(), Some(id));
    assert_eq!((id.0 >> 76) & 0xf, 4);
    let request = session.connect_as("agent-10".to_string(), SessionId(5));
    assert_eq!(request, ProtocolMessage::SessionRequest { target_device: "agent-10".to_string() });
    assert_eq!(session.session_id(), Some(SessionId(5)));
}

#[test]
fn viewer_wraps_input_and_disconnects() {
    let mut session = RemoteSession::new();
    let event = InputEvent::MouseMove { x: 3, y: 4 };
    assert_eq!(
        RemoteSession::input_message(event, 77),
        ProtocolMessage::InputEvent { timestamp: 77, event }
    );
    match session.send_input(event) {
        ProtocolMessage::InputEvent { timestamp, event: sent } => {
            assert_eq!(sent, event);
            assert!(timestamp > 1_600_000_000_000);
        }
        other => panic!("expected an input event, got {:?}", other),
    }
    let plan = session.disconnect();
    assert_eq!(plan.farewell, ProtocolMessage::Disconnect);
    assert!(plan.close_transport);
    assert_eq!(session.receive_frame(), FramePoll::Ended);
}

#[test]
fn active_sessions_are_listed_and_no_others() {
    let mut m = manager();
    assert_eq!(m.list_active_sessions(), Ok(Vec::new()));
    let first = m.create_session(&valid_token(), PeerId::new("agent-1".to_string())).unwrap();
    let second = m.create_session(&valid_token(), PeerId::new("agent-2".to_string())).unwrap();
    let third = m.create_session(&valid_token(), PeerId::new("agent-3".to_string())).unwrap();
    assert_eq!(m.list_active_sessions(), Ok(Vec::new()));
    assert_eq!(m.update_status(first.id, SessionStatus::Active), Ok(()));
    assert_eq!(m.update_status(second.id, SessionStatus::Paused), Ok(()));
    assert_eq!(m.update_status(third.id, SessionStatus::Active), Ok(()));
    let mut active = m.list_active_sessions().unwrap();
    active.sort_by_key(|s| s.agent.to_text());
    assert_eq!(active.len(), 2);
    assert_eq!(active[0].id, first.id);
    assert_eq!(active[0].status, SessionStatus::Active);
    assert_eq!(active[0], m.get_session(first.id).unwrap());
    assert_eq!(active[1].id, third.id);
    assert_eq!(active[1], m.get_session(third.id).unwrap());
    assert_eq!(m.end_session(first.id), Ok(()));
    let left = m.list_active_sessions().unwrap();
    assert_eq!(left.len(), 1);
    assert_eq!(left[0].id, third.id);
    m.repository.fail = true;
    assert_eq!(
        m.list_active_sessions(),
        Err(ApplicationError::Repository(RepositoryError::DatabaseError("down".to_string())))
    );
}

#[test]
fn listings_are_told_apart() {
    let session = new_session(
        SessionId(7),
        PeerId::new("client".to_string()),
        PeerId::new("agent".to_string()),
        5,
    );
    assert_eq!(listed(Ok(vec![session.clone()])), Ok(vec![session]));
    assert_eq!(listed(Ok(Vec::new())), Ok(Vec::new()));
    assert_eq!(
        listed(Err(RepositoryError::NotFound)),
        Err(ApplicationError::Repository(RepositoryError::NotFound))
    );
}
