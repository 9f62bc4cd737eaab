use vstd::prelude::*;

use super::element::{is_uuid_text, new_uuid_string, ElementRef, ElementStore};
use crate::id_map::IdMap;

verus! {

/// Session timeouts configuration
#[derive(Debug, Clone, Copy, PartialEq, Eq, Structural)]
pub struct Timeouts {
    /// Implicit wait timeout in milliseconds
    pub implicit_ms: u64,
    /// Page load timeout in milliseconds
    pub page_load_ms: u64,
    /// Script execution timeout in milliseconds
    pub script_ms: u64,
}

/// The timeouts a new session starts with.
pub open spec fn default_timeouts() -> Timeouts {
    Timeouts { implicit_ms: 0, page_load_ms: 300_000, script_ms: 30_000 }
}

impl Default for Timeouts {
    fn default() -> (t: Self)
        ensures
            t == default_timeouts(),
    {
        Self { implicit_ms: 0, page_load_ms: 300_000, script_ms: 30_000 }
    }
}

/// Represents a WebDriver session
#[derive(Debug)]
pub struct Session {
    /// Unique session identifier
    pub id: String,
    /// Session timeouts
    pub timeouts: Timeouts,
    /// Element reference storage
    pub elements: ElementStore,
    /// Current window handle
    pub current_window: String,
}

/// A session as it is when created for `initial_window`: default timeouts, no stored
/// elements, element index 0, and a UUID for its ID.
pub open spec fn is_fresh_session(s: Session, initial_window: Seq<char>) -> bool {
    &&& is_uuid_text(s.id@)
    &&& s.timeouts == default_timeouts()
    &&& s.elements.refs() == Map::<Seq<char>, ElementRef>::empty()
    &&& s.elements.next_index() == 0
    &&& s.current_window@ == initial_window
}

impl Session {
    pub fn new(initial_window: String) -> (s: Self)
        ensures
            is_fresh_session(s, initial_window@),
    {
        Self::with_id(new_uuid_string(), initial_window)
    }

    /// A new session with the given ID.
    pub fn with_id(id: String, initial_window: String) -> (s: Self)
        ensures
            s.id == id,
            s.timeouts == default_timeouts(),
            s.elements.refs() == Map::<Seq<char>, ElementRef>::empty(),
            s.elements.next_index() == 0,
            s.current_window == initial_window,
    {
        Self {
            id,
            timeouts: Timeouts::default(),
            elements: ElementStore::new(),
            current_window: initial_window,
        }
    }
}

/// Manages WebDriver sessions
#[derive(Debug)]
pub struct SessionManager {
    sessions: IdMap<Session>,
}

impl SessionManager {
    /// The open sessions, by session ID.
    pub closed spec fn sessions(&self) -> Map<Seq<char>, Session> {
        self.sessions@
    }

    pub fn new() -> (m: Self)
        ensures
            m.sessions() == Map::<Seq<char>, Session>::empty(),
    {
        Self { sessions: IdMap::new() }
    }

    /// Create a new session
    pub fn create(&mut self, initial_window: String) -> (s: &Session)
        ensures
            is_fresh_session(*s, initial_window@),
            final(self).sessions() == old(self).sessions().insert(s.id@, *s),
    {
        let session = Session::new(initial_window);
        self.insert_session(session)
    }

    /// Adds a session under its own ID and returns it.
    pub fn insert_session(&mut self, session: Session) -> (s: &Session)
        ensures
            *s == session,
            final(self).sessions() == old(self).sessions().insert(session.id@, session),
    {
        let id = session.id.clone();
        self.sessions.insert(id.clone(), session);
        let r = self.sessions.get(id.as_str());
        r.unwrap()
    }

    /// Get a session by ID
    pub fn get(&self, id: &str) -> (r: Option<&Session>)
        ensures
            match r {
                Some(s) => self.sessions().contains_key(id@) && *s == self.sessions()[id@],
                None => !self.sessions().contains_key(id@),
            },
    {
        self.sessions.get(id)
    }

    /// Get a mutable session by ID
    pub fn get_mut(&mut self, id: &str) -> (r: Option<&mut Session>)
        ensures
            match r {
                Some(s) => old(self).sessions().contains_key(id@) && *s == old(self).sessions()[id@]
                    && final(self).sessions() == old(self).sessions().insert(id@, *final(s)),
                None => !old(self).sessions().contains_key(id@) && final(self).sessions() == old(
                    self,
                ).sessions(),
            },
    {
        self.sessions.get_mut(id)
    }

    /// Delete a session
    pub fn delete(&mut self, id: &str) -> (deleted: bool)
        ensures
            deleted == old(self).sessions().contains_key(id@),
            final(self).sessions() == old(self).sessions().remove(id@),
    {
        self.sessions.remove(id)
    }
}

/// One call on a session manager, as a history records it: a `create` (or
/// `insert_session`) with the session it added, a `delete` of an ID, or a change made
/// through `get_mut` to the session under an ID, with the session as left after it.
pub enum SessionCall {
    Create(Session),
    Delete(Seq<char>),
    Change(Seq<char>, Session),
}

/// What one call does to a session manager, by the call's contract.
pub open spec fn session_step(before: SessionManager, after: SessionManager, call: SessionCall) -> bool {
    match call {
        SessionCall::Create(s) => after.sessions() == before.sessions().insert(s.id@, s),
        SessionCall::Delete(id) => after.sessions() == before.sessions().remove(id),
        SessionCall::Change(id, s) => before.sessions().contains_key(id) && after.sessions()
            == before.sessions().insert(id, s),
    }
}

/// `states` are the successive states of one session manager and `calls` the calls
/// between them.
pub open spec fn is_session_history(states: Seq<SessionManager>, calls: Seq<SessionCall>) -> bool {
    &&& states.len() == calls.len() + 1
    &&& forall|i: int|
        0 <= i < calls.len() ==> #[trigger] session_step(states[i], states[i + 1], calls[i])
}

/// The session under `id` after the calls: the one the latest `create` of that ID added,
/// as changed since through `get_mut`, unless a `delete` of that ID came after it.
pub open spec fn live_session(calls: Seq<SessionCall>, id: Seq<char>) -> Option<Session>
    decreases calls.len(),
{
    if calls.len() == 0 {
        None
    } else {
        match calls.last() {
            SessionCall::Create(s) => if s.id@ == id {
                Some(s)
            } else {
                live_session(calls.drop_last(), id)
            },
            SessionCall::Delete(k) => if k == id {
                None
            } else {
                live_session(calls.drop_last(), id)
            },
            SessionCall::Change(k, s) => if k == id {
                Some(s)
            } else {
                live_session(calls.drop_last(), id)
            },
        }
    }
}

/// Over any history of calls on a session manager made by `new`, `get` finds a session
/// under an ID exactly when a `create` added one under that ID and no `delete` of it came
/// since; what it finds is that session, as last changed through `get_mut`. A session
/// that was never changed keeps the ID it is found under.
pub proof fn lemma_session_history(states: Seq<SessionManager>, calls: Seq<SessionCall>)
    requires
        is_session_history(states, calls),
        states[0].sessions() == Map::<Seq<char>, Session>::empty(),
    ensures
        forall|id: Seq<char>|
            #[trigger] states.last().sessions().contains_key(id) == live_session(calls, id) is Some,
        forall|id: Seq<char>|
            #[trigger] states.last().sessions().contains_key(id) ==> states.last().sessions()[id]
                == live_session(calls, id)->Some_0,
        forall|id: Seq<char>|
            (forall|i: int| 0 <= i < calls.len() ==> !(#[trigger] calls[i] is Change))
                && #[trigger] states.last().sessions().contains_key(id)
                ==> states.last().sessions()[id].id@ == id,
    decreases calls.len(),
{
    if calls.len() > 0 {
        let n = calls.len() - 1;
        let prev = states.take(n + 1);
        let pc = calls.take(n);
        assert forall|i: int| 0 <= i < pc.len() implies #[trigger] session_step(
            prev[i],
            prev[i + 1],
            pc[i],
        ) by {
            assert(session_step(states[i], states[i + 1], calls[i]));
        }
        assert(prev[0] == states[0]);
        assert(pc =~= calls.drop_last());
        lemma_session_history(prev, pc);
        assert(prev.last() == states[n]);
        assert(session_step(states[n], states[n + 1], calls[n]));
        if forall|i: int| 0 <= i < calls.len() ==> !(#[trigger] calls[i] is Change) {
            assert forall|i: int| 0 <= i < pc.len() implies !(#[trigger] pc[i] is Change) by {
                assert(pc[i] == calls[i]);
            }
        }
    }
}

/// A session that `create` opens is found under its ID, and every other session stays as
/// it was.
pub proof fn lemma_created_session_found(before: SessionManager, after: SessionManager, s: Session)
    requires
        after.sessions() == before.sessions().insert(s.id@, s),
    ensures
        after.sessions().contains_key(s.id@),
        after.sessions()[s.id@] == s,
        forall|k: Seq<char>|
            k != s.id@ ==> (#[trigger] after.sessions().contains_key(k) == before.sessions().contains_key(k))
                && (before.sessions().contains_key(k) ==> after.sessions()[k] == before.sessions()[k]),
{
}

/// A session that `delete` closes is no longer found, and deleting it again reports that
/// there was nothing to delete.
pub proof fn lemma_deleted_session_gone(before: SessionManager, after: SessionManager, id: Seq<char>)
    requires
        after.sessions() == before.sessions().remove(id),
    ensures
        !after.sessions().contains_key(id),
        after.sessions().remove(id) == after.sessions(),
{
    assert(after.sessions().remove(id) =~= after.sessions());
}

} // verus!
