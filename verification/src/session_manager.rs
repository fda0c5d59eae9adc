//! The relay's bookkeeping of negotiated sessions.
//!
//! The manager authenticates the client, builds a pending session and keeps
//! it in the session store; it looks sessions up, changes their status and
//! ends them. No order of status changes is enforced: a caller may set any
//! status on any stored session, also on a closed one.

use crate::clock::now_millis;
use crate::error::{ApplicationError, AuthError, DomainError, RepositoryError};
use crate::models::{
    is_random_uuid, AuthToken, PeerId, Session, SessionId, SessionStatus, SessionView,
};
use crate::ports::{lists_active, Authenticator, SessionRepository};
use vstd::prelude::*;

verus! {

/// The session that is created for a client and an agent at a given time.
pub open spec fn pending_session(
    id: SessionId,
    client: Seq<char>,
    agent: Seq<char>,
    created_at: i64,
) -> SessionView {
    SessionView { id, client, agent, created_at, status: SessionStatus::Pending }
}

/// The store after a session was put into it.
pub open spec fn after_create(
    store: Map<SessionId, SessionView>,
    session: SessionView,
) -> Map<SessionId, SessionView> {
    store.insert(session.id, session)
}

/// What a lookup finds in the store.
pub open spec fn lookup(store: Map<SessionId, SessionView>, id: SessionId) -> Option<SessionView> {
    if store.contains_key(id) {
        Some(store[id])
    } else {
        None
    }
}

/// The store after the session found under `id` was given another status.
/// The session goes back under the identifier that it carries.
pub open spec fn after_update(
    store: Map<SessionId, SessionView>,
    id: SessionId,
    status: SessionStatus,
) -> Map<SessionId, SessionView> {
    store.insert(store[id].id, SessionView { status, ..store[id] })
}

/// The store after the session found under `id` was closed and removed.
pub open spec fn after_end(store: Map<SessionId, SessionView>, id: SessionId) -> Map<
    SessionId,
    SessionView,
> {
    after_update(store, id, SessionStatus::Closed).remove(id)
}

/// Builds the pending session for a client and an agent.
pub fn new_session(id: SessionId, client: PeerId, agent: PeerId, created_at: i64) -> (session:
    Session)
    ensures
        session@ == pending_session(id, client@, agent@, created_at),
{
    Session { id, client, agent, created_at, status: SessionStatus::Pending }
}

/// What a lookup in the store means to a caller: the session, or that there
/// is none under this identifier, or that the store failed.
pub fn found_session(id: SessionId, found: Result<Option<Session>, RepositoryError>) -> (res:
    Result<Session, ApplicationError>)
    ensures
        match found {
            Ok(Some(session)) => res matches Ok(s) && s == session,
            Ok(None) => res matches Err(ApplicationError::Domain(DomainError::SessionNotFound(i)))
                && i == id,
            Err(e) => res matches Err(ApplicationError::Repository(r)) && r == e,
        },
{
    match found {
        Ok(Some(session)) => Ok(session),
        Ok(None) => Err(ApplicationError::Domain(DomainError::SessionNotFound(id))),
        Err(e) => Err(ApplicationError::Repository(e)),
    }
}

/// What an authentication means to a caller: the peer, or the refusal.
pub fn authenticated(result: Result<PeerId, AuthError>) -> (res: Result<PeerId, ApplicationError>)
    ensures
        match result {
            Ok(peer) => res matches Ok(p) && p == peer,
            Err(e) => res matches Err(ApplicationError::Auth(a)) && a == e,
        },
{
    match result {
        Ok(peer) => Ok(peer),
        Err(e) => Err(ApplicationError::Auth(e)),
    }
}

/// What a change of the store means to a caller: `value` if the store did
/// what it was asked, the store's failure otherwise.
pub fn stored<T>(value: T, result: Result<(), RepositoryError>) -> (res: Result<
    T,
    ApplicationError,
>)
    ensures
        match result {
            Ok(()) => res matches Ok(v) && v == value,
            Err(e) => res matches Err(ApplicationError::Repository(r)) && r == e,
        },
{
    match result {
        Ok(()) => Ok(value),
        Err(e) => Err(ApplicationError::Repository(e)),
    }
}

/// What a listing of the store means to a caller: the list as the store
/// gave it, or the store's failure.
pub fn listed(result: Result<Vec<Session>, RepositoryError>) -> (res: Result<
    Vec<Session>,
    ApplicationError,
>)
    ensures
        match result {
            Ok(list) => res matches Ok(l) && l == list,
            Err(e) => res matches Err(ApplicationError::Repository(r)) && r == e,
        },
{
    match result {
        Ok(list) => Ok(list),
        Err(e) => Err(ApplicationError::Repository(e)),
    }
}

/// Session lifecycle bookkeeping over a session store and an authenticator.
pub struct SessionManager<R: SessionRepository, A: Authenticator> {
    pub repository: R,
    pub authenticator: A,
}

impl<R: SessionRepository, A: Authenticator> SessionManager<R, A> {
    /// The sessions that the store holds.
    pub open spec fn sessions(&self) -> Map<SessionId, SessionView> {
        self.repository.sessions()
    }

    /// A manager over a session store and an authenticator.
    pub fn new(repository: R, authenticator: A) -> (manager: SessionManager<R, A>)
        ensures
            manager.repository == repository,
            manager.authenticator == authenticator,
    {
        SessionManager { repository, authenticator }
    }

    /// Stores the pending session for an authenticated client and an agent,
    /// under the given identifier and creation time, and returns it. If the
    /// store fails, its error is returned.
    pub fn open_session(
        &mut self,
        id: SessionId,
        client: PeerId,
        agent_id: PeerId,
        created_at: i64,
    ) -> (res: Result<Session, ApplicationError>)
        ensures
            match res {
                Ok(session) => {
                    &&& session@ == pending_session(id, client@, agent_id@, created_at)
                    &&& final(self).sessions() == after_create(old(self).sessions(), session@)
                    &&& lookup(final(self).sessions(), id) == Some(session@)
                },
                Err(ApplicationError::Repository(_)) => true,
                Err(_) => false,
            },
            final(self).authenticator == old(self).authenticator,
    {
        let session = new_session(id, client, agent_id, created_at);
        let created = self.repository.create(session.duplicate());
        stored(session, created)
    }

    /// Creates a session between the client that `client_token` stands for
    /// and the agent `agent_id`.
    ///
    /// The token goes to the authenticator. If it is refused, nothing is
    /// stored and the refusal is returned. Otherwise a pending session with a
    /// fresh random identifier, the peer that the token stands for as its
    /// client, the agent and the current time is put into the store and
    /// returned; if the store fails, its error is returned.
    pub fn create_session(&mut self, client_token: &AuthToken, agent_id: PeerId) -> (res: Result<
        Session,
        ApplicationError,
    >)
        ensures
            final(self).authenticator == old(self).authenticator,
            match res {
                Ok(session) => {
                    &&& old(self).authenticator.peer_of(client_token@) == Some(session@.client)
                    &&& session@ == pending_session(
                        session.id,
                        session@.client,
                        agent_id@,
                        session.created_at,
                    )
                    &&& is_random_uuid(session.id.0)
                    &&& final(self).sessions() == after_create(old(self).sessions(), session@)
                    &&& lookup(final(self).sessions(), session.id) == Some(session@)
                },
                Err(ApplicationError::Auth(_)) => final(self).sessions() == old(self).sessions(),
                Err(ApplicationError::Repository(_)) => true,
                Err(_) => false,
            },
    {
        let client = match authenticated(self.authenticator.authenticate(client_token)) {
            Ok(peer) => peer,
            Err(e) => {
                return Err(e);
            },
        };
        self.open_session(SessionId::new(), client, agent_id, now_millis())
    }

    /// The session stored under `id`. Where there is none the error is
    /// `SessionNotFound` with that identifier; where the store fails, its
    /// error.
    pub fn get_session(&self, id: SessionId) -> (res: Result<Session, ApplicationError>)
        ensures
            match res {
                Ok(session) => lookup(self.sessions(), id) == Some(session@),
                Err(ApplicationError::Domain(DomainError::SessionNotFound(i))) => i == id
                    && lookup(self.sessions(), id) is None,
                Err(ApplicationError::Repository(_)) => true,
                Err(_) => false,
            },
    {
        found_session(id, self.repository.find_by_id(id))
    }

    /// Gives the session stored under `id` another status. Any status may
    /// follow any other.
    pub fn update_status(&mut self, id: SessionId, status: SessionStatus) -> (res: Result<
        (),
        ApplicationError,
    >)
        ensures
            final(self).authenticator == old(self).authenticator,
            match res {
                Ok(()) => old(self).sessions().contains_key(id) && final(self).sessions()
                    == after_update(old(self).sessions(), id, status),
                Err(ApplicationError::Domain(DomainError::SessionNotFound(i))) => i == id
                    && !old(self).sessions().contains_key(id) && final(self).sessions() == old(
                    self,
                ).sessions(),
                Err(ApplicationError::Repository(_)) => true,
                Err(_) => false,
            },
    {
        let mut session = match self.get_session(id) {
            Ok(session) => session,
            Err(e) => {
                return Err(e);
            },
        };
        session.status = status;
        let updated = self.repository.update(session);
        stored((), updated)
    }

    /// Ends the session stored under `id`: it is closed, then removed.
    pub fn end_session(&mut self, id: SessionId) -> (res: Result<(), ApplicationError>)
        ensures
            final(self).authenticator == old(self).authenticator,
            match res {
                Ok(()) => old(self).sessions().contains_key(id) && final(self).sessions()
                    == after_end(old(self).sessions(), id) && lookup(final(self).sessions(), id)
                    is None,
                Err(ApplicationError::Domain(DomainError::SessionNotFound(i))) => i == id
                    && !old(self).sessions().contains_key(id) && final(self).sessions() == old(
                    self,
                ).sessions(),
                Err(ApplicationError::Repository(_)) => true,
                Err(_) => false,
            },
    {
        match self.update_status(id, SessionStatus::Closed) {
            Ok(()) => {},
            Err(e) => {
                return Err(e);
            },
        }
        let deleted = self.repository.delete(id);
        stored((), deleted)
    }

    /// The active sessions, as the store lists them: the stored sessions
    /// whose status is `Active`, each once. If the store fails, its error is
    /// returned.
    pub fn list_active_sessions(&self) -> (res: Result<Vec<Session>, ApplicationError>)
        ensures
            match res {
                Ok(list) => lists_active(self.sessions(), list@),
                Err(ApplicationError::Repository(_)) => true,
                Err(_) => false,
            },
    {
        listed(self.repository.list_active())
    }
}

/// Session lifecycle: a session that was created is pending and is found
/// under its identifier; once it was ended, nothing is found under that
/// identifier, whatever else the store holds.
pub proof fn lemma_session_lifecycle(
    store: Map<SessionId, SessionView>,
    id: SessionId,
    client: Seq<char>,
    agent: Seq<char>,
    created_at: i64,
)
    ensures
        ({
            let session = pending_session(id, client, agent, created_at);
            let created = after_create(store, session);
            &&& lookup(created, id) == Some(session)
            &&& session.status == SessionStatus::Pending
            &&& lookup(after_end(created, id), id) is None
            &&& forall|other: SessionId|
                other != id ==> lookup(after_end(created, id), other) == lookup(store, other)
        }),
{
    let session = pending_session(id, client, agent, created_at);
    let created = after_create(store, session);
    assert forall|other: SessionId| other != id implies lookup(after_end(created, id), other)
        == lookup(store, other) by {}
}

} // verus!
