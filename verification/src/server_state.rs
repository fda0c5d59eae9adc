//! The relay server's two registries: the agents that have said hello, by
//! device identifier, and the sessions, by session identifier.
//!
//! Both are kept in `dashmap` maps. A change goes through `&mut self`, so
//! that what a registry holds is known between two changes.

use crate::models::{PeerId, Session, SessionId, SessionView};
use dashmap::DashMap;
use vstd::prelude::*;

verus! {

/// `dashmap::DashMap`, as an opaque type.
#[verifier::external_type_specification]
#[verifier::external_body]
#[verifier::reject_recursive_types(K)]
#[verifier::reject_recursive_types(V)]
#[verifier::reject_recursive_types(S)]
pub struct ExDashMap<K, V, S>(DashMap<K, V, S>);

/// What a map of agents holds: the peer identifier of each registered
/// device, by device identifier.
pub uninterp spec fn agent_entries(map: DashMap<String, String>) -> Map<Seq<char>, Seq<char>>;

/// What a map of sessions holds: each session, by the 128 bits of the
/// identifier that it was stored under.
pub uninterp spec fn session_entries(map: DashMap<u128, Session>) -> Map<u128, SessionView>;

/// No agents.
pub open spec fn no_agents() -> Map<Seq<char>, Seq<char>> {
    Map::empty()
}

/// No sessions.
pub open spec fn no_sessions() -> Map<u128, SessionView> {
    Map::empty()
}

/// `DashMap::new`: a map of agents that holds nothing.
#[verifier::external_body]
fn new_agent_map() -> (fresh: DashMap<String, String>)
    ensures
        agent_entries(fresh) == no_agents(),
{
    DashMap::new()
}

/// `DashMap::insert` on a map of agents: afterwards the key stands for the
/// value, whatever it stood for before, and every other key for what it
/// stood for.
#[verifier::external_body]
fn insert_agent(map: &mut DashMap<String, String>, key: String, value: String)
    ensures
        agent_entries(*final(map)) == agent_entries(*old(map)).insert(key@, value@),
{
    map.insert(key, value);
}

/// `DashMap::get` on a map of agents: a copy of what the key stands for, or
/// nothing where the map does not hold the key.
#[verifier::external_body]
fn get_agent_entry(map: &DashMap<String, String>, key: &str) -> (value: Option<String>)
    ensures
        match value {
            Some(v) => agent_entries(*map).contains_key(key@) && agent_entries(*map)[key@] == v@,
            None => !agent_entries(*map).contains_key(key@),
        },
{
    match map.get(key) {
        Some(entry) => Some(entry.value().clone()),
        None => None,
    }
}

/// `DashMap::new`: a map of sessions that holds nothing.
#[verifier::external_body]
fn new_session_map() -> (fresh: DashMap<u128, Session>)
    ensures
        session_entries(fresh) == no_sessions(),
{
    DashMap::new()
}

/// `DashMap::insert` on a map of sessions: afterwards the key stands for the
/// session, whatever it stood for before, and every other key for what it
/// stood for.
#[verifier::external_body]
fn insert_session(map: &mut DashMap<u128, Session>, key: u128, session: Session)
    ensures
        session_entries(*final(map)) == session_entries(*old(map)).insert(key, session@),
{
    map.insert(key, session);
}

/// `DashMap::get` on a map of sessions: a copy of the session that the key
/// stands for, or nothing where the map does not hold the key.
#[verifier::external_body]
fn get_session_entry(map: &DashMap<u128, Session>, key: u128) -> (session: Option<Session>)
    ensures
        match session {
            Some(s) => session_entries(*map).contains_key(key) && session_entries(*map)[key]
                == s@,
            None => !session_entries(*map).contains_key(key),
        },
{
    match map.get(&key) {
        Some(entry) => Some(entry.value().duplicate()),
        None => None,
    }
}

/// The relay server's registries.
pub struct ServerState {
    agents: DashMap<String, String>,
    sessions: DashMap<u128, Session>,
}

impl ServerState {
    /// The registered agents: peer identifier by device identifier.
    pub closed spec fn agents(&self) -> Map<Seq<char>, Seq<char>> {
        agent_entries(self.agents)
    }

    /// The sessions, by the 128 bits of their identifier.
    pub closed spec fn sessions(&self) -> Map<u128, SessionView> {
        session_entries(self.sessions)
    }

    /// Registries that hold nothing.
    pub fn new() -> (state: ServerState)
        ensures
            state.agents() == no_agents(),
            state.sessions() == no_sessions(),
    {
        ServerState { agents: new_agent_map(), sessions: new_session_map() }
    }

    /// Registers an agent. A device that registers again replaces its
    /// earlier registration.
    pub fn register_agent(&mut self, device_id: String, peer_id: PeerId)
        ensures
            final(self).agents() == old(self).agents().insert(device_id@, peer_id@),
            final(self).sessions() == old(self).sessions(),
    {
        insert_agent(&mut self.agents, device_id, peer_id.0);
    }

    /// The peer identifier of a registered device.
    pub fn get_agent(&self, device_id: &str) -> (peer: Option<PeerId>)
        ensures
            match peer {
                Some(p) => self.agents().contains_key(device_id@) && self.agents()[device_id@]
                    == p@,
                None => !self.agents().contains_key(device_id@),
            },
    {
        match get_agent_entry(&self.agents, device_id) {
            Some(id) => Some(PeerId::new(id)),
            None => None,
        }
    }

    /// Stores a session under its identifier. A session with the same
    /// identifier is replaced.
    pub fn add_session(&mut self, session: Session)
        ensures
            final(self).sessions() == old(self).sessions().insert(session.id.0, session@),
            final(self).agents() == old(self).agents(),
    {
        let key = session.id.0;
        insert_session(&mut self.sessions, key, session);
    }

    /// The session stored under an identifier.
    pub fn get_session(&self, session_id: SessionId) -> (session: Option<Session>)
        ensures
            match session {
                Some(s) => self.sessions().contains_key(session_id.0) && self.sessions()[
                    session_id.0
                ] == s@,
                None => !self.sessions().contains_key(session_id.0),
            },
    {
        get_session_entry(&self.sessions, session_id.0)
    }
}

impl Default for ServerState {
    fn default() -> (state: ServerState)
        ensures
            state.agents() == no_agents(),
            state.sessions() == no_sessions(),
    {
        ServerState::new()
    }
}

} // verus!
