//! The registry of remote-control sessions and the session commands.
//!
//! A session is created active, can be ended, and is never removed or
//! reactivated. The registry is an explicitly owned value: whoever shares
//! it between callers guards it as a whole, and every operation here takes
//! it for the whole of its work.

use vstd::prelude::*;
use vstd::string::StringExecFns;
use crate::error::{CommandError, CommandErrorView};
use crate::host::{random_uuid, utc_now_rfc3339};
use crate::text::str_eq;

verus! {

/// A pairing between an admin and a client that authorizes the exchange of
/// remote-control commands.
#[derive(Debug, PartialEq, Eq)]
pub struct RemoteSession {
    pub id: String,
    pub active: bool,
    pub client_id: String,
    pub admin_id: String,
    pub started_at: String,
}

/// The mathematical content of a [`RemoteSession`].
pub struct SessionView {
    pub id: Seq<char>,
    pub active: bool,
    pub client_id: Seq<char>,
    pub admin_id: Seq<char>,
    pub started_at: Seq<char>,
}

impl View for RemoteSession {
    type V = SessionView;

    open spec fn view(&self) -> SessionView {
        SessionView {
            id: self.id@,
            active: self.active,
            client_id: self.client_id@,
            admin_id: self.admin_id@,
            started_at: self.started_at@,
        }
    }
}

impl Clone for RemoteSession {
    fn clone(&self) -> (copy: RemoteSession)
        ensures
            copy@ == self@,
    {
        RemoteSession {
            id: self.id.clone(),
            active: self.active,
            client_id: self.client_id.clone(),
            admin_id: self.admin_id.clone(),
            started_at: self.started_at.clone(),
        }
    }
}

/// Why a registry operation did nothing.
#[derive(Clone, Copy, Debug, PartialEq, Eq, Structural)]
pub enum RegistryError {
    /// No session has the given identifier.
    NotFound,
    /// A session with the given identifier is registered already.
    DuplicateId,
}

/// What a registry holds: the sessions by their identifiers.
pub type Sessions = Map<Seq<char>, SessionView>;

/// The session that a creation registers: active, with the given fields.
pub open spec fn fresh_session(
    id: Seq<char>,
    client_id: Seq<char>,
    admin_id: Seq<char>,
    started_at: Seq<char>,
) -> SessionView {
    SessionView { id, active: true, client_id, admin_id, started_at }
}

/// The session `session` once it has been ended.
pub open spec fn ended(session: SessionView) -> SessionView {
    SessionView { active: false, ..session }
}

/// The sessions after `session` was registered under its identifier.
pub open spec fn registered(sessions: Sessions, session: SessionView) -> Sessions {
    sessions.insert(session.id, session)
}

/// The sessions after a request to end `id`: that session is inactive,
/// whatever it was before, and an unknown identifier changes nothing.
pub open spec fn after_end(sessions: Sessions, id: Seq<char>) -> Sessions {
    if sessions.contains_key(id) {
        sessions.insert(id, ended(sessions[id]))
    } else {
        sessions
    }
}

/// The lifecycle rule between an earlier and a later state of a registry:
/// every session of the earlier state is still there, with the same
/// identifier, parties and start time, and is active only if it was active
/// before.
pub open spec fn lifecycle_kept(before: Sessions, after: Sessions) -> bool {
    forall|id: Seq<char>| #[trigger]
        before.contains_key(id) ==> {
            &&& after.contains_key(id)
            &&& after[id].id == before[id].id
            &&& after[id].client_id == before[id].client_id
            &&& after[id].admin_id == before[id].admin_id
            &&& after[id].started_at == before[id].started_at
            &&& after[id].active ==> before[id].active
        }
}

/// The store of all sessions ever created, ended ones included.
pub struct SessionRegistry {
    sessions: Vec<RemoteSession>,
}

impl View for SessionRegistry {
    type V = Sessions;

    closed spec fn view(&self) -> Sessions {
        Map::new(
            |id: Seq<char>| exists|i: int| self.holds(i, id),
            |id: Seq<char>| self.sessions@[choose|i: int| self.holds(i, id)]@,
        )
    }
}

impl SessionRegistry {
    /// No two sessions share an identifier.
    #[verifier::type_invariant]
    closed spec fn distinct_ids(self) -> bool {
        forall|i: int, j: int|
            0 <= i < j < self.sessions@.len() ==> self.sessions@[i].id@ != self.sessions@[j].id@
    }

    /// Whether the session at position `i` has the identifier `id`.
    closed spec fn holds(self, i: int, id: Seq<char>) -> bool {
        0 <= i < self.sessions@.len() && self.sessions@[i].id@ == id
    }

    /// The session at a position is the one registered under its identifier.
    proof fn lemma_at(self, i: int)
        requires
            self.distinct_ids(),
            0 <= i < self.sessions@.len(),
        ensures
            self@.contains_key(self.sessions@[i].id@),
            self@[self.sessions@[i].id@] == self.sessions@[i]@,
    {
        let id = self.sessions@[i].id@;
        assert(self.holds(i, id));
        let k = choose|k: int| self.holds(k, id);
        assert(self.holds(k, id));
        assert(k == i);
    }

    /// Every session is registered under its own identifier.
    pub proof fn lemma_keyed_by_id(self)
        ensures
            forall|id: Seq<char>| #[trigger] self@.contains_key(id) ==> self@[id].id == id,
    {
        assert forall|id: Seq<char>| #[trigger] self@.contains_key(id) implies self@[id].id
            == id by {
            let k = choose|k: int| self.holds(k, id);
            assert(self.holds(k, id));
        }
    }

    /// An empty registry.
    pub fn new() -> (registry: SessionRegistry)
        ensures
            registry@ == Map::<Seq<char>, SessionView>::empty(),
    {
        let registry = SessionRegistry { sessions: Vec::new() };
        assert(registry@ =~= Map::<Seq<char>, SessionView>::empty());
        registry
    }

    /// The position of the session with the identifier `id`.
    fn position(&self, id: &str) -> (found: Option<usize>)
        ensures
            match found {
                Some(i) => self.holds(i as int, id@),
                None => !self@.contains_key(id@),
            },
    {
        let mut i: usize = 0;
        while i < self.sessions.len()
            invariant
                i <= self.sessions@.len(),
                forall|j: int| 0 <= j < i ==> !self.holds(j, id@),
            decreases self.sessions@.len() - i,
        {
            if str_eq(self.sessions[i].id.as_str(), id) {
                return Some(i);
            }
            i += 1;
        }
        None
    }

    /// Registers a new active session under the identifier `id`, unless
    /// that identifier is taken.
    pub fn register(
        &mut self,
        id: String,
        client_id: String,
        admin_id: String,
        started_at: String,
    ) -> (outcome: Result<RemoteSession, RegistryError>)
        ensures
            lifecycle_kept(old(self)@, final(self)@),
            match outcome {
                Ok(session) => {
                    &&& !old(self)@.contains_key(id@)
                    &&& session@ == fresh_session(id@, client_id@, admin_id@, started_at@)
                    &&& final(self)@ == registered(old(self)@, session@)
                },
                Err(error) => {
                    &&& old(self)@.contains_key(id@)
                    &&& error == RegistryError::DuplicateId
                    &&& final(self)@ == old(self)@
                },
            },
    {
        proof {
            use_type_invariant(&*self);
        }
        if self.position(id.as_str()).is_some() {
            return Err(RegistryError::DuplicateId);
        }
        let session = RemoteSession { id, active: true, client_id, admin_id, started_at };
        let copy = session.clone();
        let ghost before = *self;
        let mut sessions: Vec<RemoteSession> = Vec::new();
        core::mem::swap(&mut self.sessions, &mut sessions);
        sessions.push(session);
        assert forall|i: int, j: int| 0 <= i < j < sessions@.len() implies sessions@[i].id@
            != sessions@[j].id@ by {
            if j == before.sessions@.len() {
                assert(!before.holds(i, id@));
            }
        }
        self.sessions = sessions;
        proof {
            let after = *self;
            let n = before.sessions@.len() as int;
            assert forall|key: Seq<char>| #[trigger] after@.contains_key(key) <==> (key == id@
                || before@.contains_key(key)) by {
                if after@.contains_key(key) {
                    let k = choose|k: int| after.holds(k, key);
                    if k < n {
                        assert(before.holds(k, key));
                    }
                }
                if before@.contains_key(key) {
                    let k = choose|k: int| before.holds(k, key);
                    assert(after.holds(k, key));
                }
                if key == id@ {
                    assert(after.holds(n, key));
                }
            }
            assert forall|key: Seq<char>| #[trigger] before@.contains_key(key) implies after@[key]
                == before@[key] by {
                let k = choose|k: int| before.holds(k, key);
                before.lemma_at(k);
                after.lemma_at(k);
            }
            after.lemma_at(n);
            assert(after@ =~= registered(before@, copy@));
        }
        Ok(copy)
    }

    /// Creates a session between `client_id` and `admin_id`: active, under a
    /// freshly generated identifier, started now.
    ///
    /// The identifier is random. Should it ever repeat one that is
    /// registered, nothing is overwritten: the creation fails and the
    /// registry stays as it was. On an empty registry a creation cannot
    /// fail.
    pub fn create(&mut self, client_id: String, admin_id: String) -> (outcome: Result<
        RemoteSession,
        RegistryError,
    >)
        ensures
            lifecycle_kept(old(self)@, final(self)@),
            match outcome {
                Ok(session) => {
                    &&& !old(self)@.contains_key(session@.id)
                    &&& session@.active
                    &&& session@.client_id == client_id@
                    &&& session@.admin_id == admin_id@
                    &&& final(self)@ == registered(old(self)@, session@)
                },
                Err(error) => {
                    &&& error == RegistryError::DuplicateId
                    &&& final(self)@ == old(self)@
                    &&& exists|id: Seq<char>| old(self)@.contains_key(id)
                },
            },
    {
        let id = random_uuid();
        let started_at = utc_now_rfc3339();
        self.register(id, client_id, admin_id, started_at)
    }

    /// Ends the session `id`. Ending a session that has ended already
    /// succeeds and changes nothing.
    pub fn end(&mut self, id: &str) -> (outcome: Result<(), RegistryError>)
        ensures
            final(self)@ == after_end(old(self)@, id@),
            lifecycle_kept(old(self)@, final(self)@),
            outcome == (if old(self)@.contains_key(id@) {
                Ok::<(), RegistryError>(())
            } else {
                Err::<(), RegistryError>(RegistryError::NotFound)
            }),
    {
        proof {
            use_type_invariant(&*self);
        }
        let i = match self.position(id) {
            Some(i) => i,
            None => {
                return Err(RegistryError::NotFound);
            },
        };
        let ghost before = *self;
        let mut sessions: Vec<RemoteSession> = Vec::new();
        core::mem::swap(&mut self.sessions, &mut sessions);
        sessions[i].active = false;
        assert forall|a: int, b: int| 0 <= a < b < sessions@.len() implies sessions@[a].id@
            != sessions@[b].id@ by {
            assert(sessions@[a].id@ == before.sessions@[a].id@);
            assert(sessions@[b].id@ == before.sessions@[b].id@);
        }
        self.sessions = sessions;
        proof {
            let after = *self;
            assert forall|key: Seq<char>| #[trigger] after@.contains_key(key) <==> before@.contains_key(key) by {
                if after@.contains_key(key) {
                    let k = choose|k: int| after.holds(k, key);
                    assert(before.holds(k, key));
                }
                if before@.contains_key(key) {
                    let k = choose|k: int| before.holds(k, key);
                    assert(after.holds(k, key));
                }
            }
            assert forall|key: Seq<char>| #[trigger] before@.contains_key(key) implies after@[key]
                == (if key == id@ {
                ended(before@[key])
            } else {
                before@[key]
            }) by {
                let k = choose|k: int| before.holds(k, key);
                before.lemma_at(k);
                after.lemma_at(k);
                before.lemma_at(i as int);
            }
            assert(after@ =~= after_end(before@, id@));
        }
        Ok(())
    }

    /// A copy of the current record of the session `id`.
    pub fn status(&self, id: &str) -> (outcome: Result<RemoteSession, RegistryError>)
        ensures
            match outcome {
                Ok(session) => self@.contains_key(id@) && session@ == self@[id@],
                Err(error) => !self@.contains_key(id@) && error == RegistryError::NotFound,
            },
    {
        proof {
            use_type_invariant(self);
        }
        match self.position(id) {
            Some(i) => {
                proof {
                    self.lemma_at(i as int);
                }
                Ok(self.sessions[i].clone())
            },
            None => Err(RegistryError::NotFound),
        }
    }

    /// The number of sessions ever created in this registry.
    pub fn len(&self) -> (count: usize)
        ensures
            self@.dom().finite(),
            count == self@.len(),
    {
        proof {
            use_type_invariant(self);
            let ids = self.sessions@.map_values(|session: RemoteSession| session.id@);
            assert(ids.no_duplicates());
            assert(self@.dom() =~= ids.to_set()) by {
                assert forall|key: Seq<char>| self@.dom().contains(key) <==> ids.to_set().contains(
                    key,
                ) by {
                    if self@.dom().contains(key) {
                        let k = choose|k: int| self.holds(k, key);
                        assert(ids[k] == key);
                    }
                    if ids.to_set().contains(key) {
                        let k = choose|k: int| 0 <= k < ids.len() && ids[k] == key;
                        assert(self.holds(k, key));
                    }
                }
            }
            vstd::seq_lib::seq_to_set_is_finite(ids);
            ids.unique_seq_to_set();
        }
        self.sessions.len()
    }
}

/// Ending a session twice is ending it once: after the first request the
/// session is still registered, so the second succeeds too, and the session
/// is inactive after either.
pub proof fn law_end_is_idempotent(sessions: Sessions, id: Seq<char>)
    requires
        sessions.contains_key(id),
    ensures
        after_end(sessions, id).contains_key(id),
        !after_end(sessions, id)[id].active,
        after_end(after_end(sessions, id), id) == after_end(sessions, id),
{
    assert(after_end(after_end(sessions, id), id) =~= after_end(sessions, id));
}

/// A request to end an identifier that was never registered changes
/// nothing, and does not register it.
pub proof fn law_end_of_unknown_changes_nothing(sessions: Sessions, id: Seq<char>)
    requires
        !sessions.contains_key(id),
    ensures
        after_end(sessions, id) == sessions,
        !after_end(sessions, id).contains_key(id),
{
}

/// A session that was just registered is found under its identifier,
/// exactly as it was registered.
pub proof fn law_registered_is_found(sessions: Sessions, session: SessionView)
    ensures
        registered(sessions, session).contains_key(session.id),
        registered(sessions, session)[session.id] == session,
{
}

/// Ending a session keeps the lifecycle rule.
pub proof fn law_end_keeps_lifecycle(sessions: Sessions, id: Seq<char>)
    ensures
        lifecycle_kept(sessions, after_end(sessions, id)),
{
}

/// Registering a session under an identifier that is not taken keeps the
/// lifecycle rule.
pub proof fn law_register_keeps_lifecycle(sessions: Sessions, session: SessionView)
    requires
        !sessions.contains_key(session.id),
    ensures
        lifecycle_kept(sessions, registered(sessions, session)),
{
}

/// Every registration under an identifier that is not taken adds exactly
/// one session, and ending a session adds and removes none: the size of a
/// registry is the number of registrations that succeeded.
pub proof fn law_size_counts_registrations(sessions: Sessions, session: SessionView, id: Seq<char>)
    requires
        sessions.dom().finite(),
        !sessions.contains_key(session.id),
    ensures
        registered(sessions, session).dom().finite(),
        registered(sessions, session).len() == sessions.len() + 1,
        after_end(sessions, id).dom().finite(),
        after_end(sessions, id).len() == sessions.len(),
{
    assert(after_end(sessions, id).dom() =~= sessions.dom());
}

/// The lifecycle rule holds between a state and itself.
pub proof fn law_lifecycle_is_reflexive(sessions: Sessions)
    ensures
        lifecycle_kept(sessions, sessions),
{
}

/// The lifecycle rule carries over any number of steps: once a session is
/// inactive it is inactive in every later state, whatever was done between.
pub proof fn law_lifecycle_is_transitive(first: Sessions, second: Sessions, third: Sessions)
    requires
        lifecycle_kept(first, second),
        lifecycle_kept(second, third),
    ensures
        lifecycle_kept(first, third),
{
    assert forall|id: Seq<char>| #[trigger] first.contains_key(id) implies {
        &&& third.contains_key(id)
        &&& third[id].id == first[id].id
        &&& third[id].client_id == first[id].client_id
        &&& third[id].admin_id == first[id].admin_id
        &&& third[id].started_at == first[id].started_at
        &&& third[id].active ==> first[id].active
    } by {
        assert(second.contains_key(id));
    }
}

/// What the caller is told after a session was ended.
pub open spec fn session_ended_message() -> Seq<char> {
    "Sesión terminada"@
}

/// The error that the caller of a session command is given for a registry
/// error.
pub open spec fn reported(error: RegistryError) -> CommandErrorView {
    match error {
        RegistryError::NotFound => CommandErrorView::NotFound,
        RegistryError::DuplicateId => CommandErrorView::DuplicateSession,
    }
}

/// Turns a registry error into the error that the caller is given.
pub fn report(error: RegistryError) -> (reported: CommandError)
    ensures
        reported@ == self::reported(error),
{
    match error {
        RegistryError::NotFound => CommandError::NotFound,
        RegistryError::DuplicateId => CommandError::DuplicateSession,
    }
}

/// The session-create command: [`SessionRegistry::create`], with its error
/// as the caller is given it.
pub fn create_remote_session(
    registry: &mut SessionRegistry,
    client_id: String,
    admin_id: String,
) -> (outcome: Result<RemoteSession, CommandError>)
    ensures
        lifecycle_kept(old(registry)@, final(registry)@),
        match outcome {
            Ok(session) => {
                &&& !old(registry)@.contains_key(session@.id)
                &&& session@.active
                &&& session@.client_id == client_id@
                &&& session@.admin_id == admin_id@
                &&& final(registry)@ == registered(old(registry)@, session@)
            },
            Err(error) => {
                &&& error@ == CommandErrorView::DuplicateSession
                &&& final(registry)@ == old(registry)@
                &&& exists|id: Seq<char>| old(registry)@.contains_key(id)
            },
        },
{
    match registry.create(client_id, admin_id) {
        Ok(session) => Ok(session),
        Err(error) => Err(report(error)),
    }
}

/// The session-end command: [`SessionRegistry::end`], with a confirmation
/// or the error as the caller is given it.
pub fn end_remote_session(registry: &mut SessionRegistry, session_id: &str) -> (outcome: Result<
    String,
    CommandError,
>)
    ensures
        final(registry)@ == after_end(old(registry)@, session_id@),
        lifecycle_kept(old(registry)@, final(registry)@),
        match outcome {
            Ok(message) => old(registry)@.contains_key(session_id@) && message@
                == session_ended_message(),
            Err(error) => !old(registry)@.contains_key(session_id@) && error@
                == CommandErrorView::NotFound,
        },
{
    match registry.end(session_id) {
        Ok(()) => Ok(String::from_str("Sesión terminada")),
        Err(error) => Err(report(error)),
    }
}

/// The session-status command: [`SessionRegistry::status`], with its error
/// as the caller is given it.
pub fn get_session_status(registry: &SessionRegistry, session_id: &str) -> (outcome: Result<
    RemoteSession,
    CommandError,
>)
    ensures
        match outcome {
            Ok(session) => registry@.contains_key(session_id@) && session@ == registry@[session_id@],
            Err(error) => !registry@.contains_key(session_id@) && error@
                == CommandErrorView::NotFound,
        },
{
    match registry.status(session_id) {
        Ok(session) => Ok(session),
        Err(error) => Err(report(error)),
    }
}

} // verus!
