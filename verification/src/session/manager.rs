//! The sessions that are served, and which connection each of them is attached to.

use crate::ids::Uuid;
use crate::text::str_eq;
use std::collections::HashMap;
use vstd::prelude::*;

verus! {

/// Where a session stands in its life.
#[derive(Debug, Clone, Copy, PartialEq, Eq, Structural)]
pub enum SessionState {
    Created,
    Attached,
    Detached,
    Expired,
    Terminated,
}

/// A session.
#[derive(Debug, Clone)]
pub struct Session {
    pub session_id: Uuid,
    pub owner_user_id: String,
    pub quic_addr: String,
    pub cert_fingerprint: String,
    pub state: SessionState,
    pub attached_conn_id: Option<Uuid>,
    pub attach_epoch: u64,
    pub active_client_id: Option<Uuid>,
}

/// Why an operation on a session is refused.
#[derive(Debug, Clone, Copy, PartialEq, Eq, Structural)]
pub enum SessionError {
    NotFound,
    AttachDenied,
    InvalidState,
    PermissionDenied,
}

impl SessionError {
    /// What the error says.
    pub open spec fn text(self) -> Seq<char> {
        match self {
            SessionError::NotFound => "session not found"@,
            SessionError::AttachDenied => "attach denied"@,
            SessionError::InvalidState => "session not attachable"@,
            SessionError::PermissionDenied => "permission denied"@,
        }
    }

    /// What the error says.
    pub fn message(self) -> (m: String)
        ensures
            m@ == self.text(),
    {
        match self {
            SessionError::NotFound => "session not found".to_owned(),
            SessionError::AttachDenied => "attach denied".to_owned(),
            SessionError::InvalidState => "session not attachable".to_owned(),
            SessionError::PermissionDenied => "permission denied".to_owned(),
        }
    }
}

/// How a connection came to be attached: under which epoch, and in place of which connection.
#[derive(Debug, Clone, Copy, PartialEq, Eq, Structural)]
pub struct Attachment {
    pub epoch: u64,
    pub replaced: Option<Uuid>,
}

/// The sessions that are served.
#[derive(Debug)]
pub struct SessionManager {
    sessions: HashMap<u128, Session>,
}

/// A session, with its texts as sequences of characters.
#[verifier::ext_equal]
pub struct SessionView {
    pub session_id: Uuid,
    pub owner: Seq<char>,
    pub quic_addr: Seq<char>,
    pub cert_fingerprint: Seq<char>,
    pub state: SessionState,
    pub attached_conn_id: Option<Uuid>,
    pub attach_epoch: u64,
    pub active_client_id: Option<Uuid>,
}

impl View for Session {
    type V = SessionView;

    open spec fn view(&self) -> SessionView {
        SessionView {
            session_id: self.session_id,
            owner: self.owner_user_id@,
            quic_addr: self.quic_addr@,
            cert_fingerprint: self.cert_fingerprint@,
            state: self.state,
            attached_conn_id: self.attached_conn_id,
            attach_epoch: self.attach_epoch,
            active_client_id: self.active_client_id,
        }
    }
}

impl View for SessionManager {
    type V = Map<Uuid, SessionView>;

    closed spec fn view(&self) -> Map<Uuid, SessionView> {
        Map::new(
            |id: Uuid| self.sessions@.contains_key(id.value),
            |id: Uuid| self.sessions@[id.value]@,
        )
    }
}

/// A state that a session never leaves.
pub open spec fn is_final(state: SessionState) -> bool {
    state == SessionState::Expired || state == SessionState::Terminated
}

/// A new session.
pub open spec fn created(
    session_id: Uuid,
    owner: Seq<char>,
    quic_addr: Seq<char>,
    cert_fingerprint: Seq<char>,
) -> SessionView {
    SessionView {
        session_id,
        owner,
        quic_addr,
        cert_fingerprint,
        state: SessionState::Created,
        attached_conn_id: None,
        attach_epoch: 0,
        active_client_id: None,
    }
}

/// The epoch after `epoch`; the last one is its own successor.
pub open spec fn next_epoch(epoch: u64) -> u64 {
    if epoch < u64::MAX {
        (epoch + 1) as u64
    } else {
        epoch
    }
}

/// The session with the connection attached under a new epoch.
pub open spec fn attached(session: SessionView, conn_id: Uuid, client_id: Option<Uuid>) -> SessionView {
    SessionView {
        state: SessionState::Attached,
        attached_conn_id: Some(conn_id),
        attach_epoch: next_epoch(session.attach_epoch),
        active_client_id: client_id,
        ..session
    }
}

/// The session with no connection attached: detached, unless its life was over.
pub open spec fn released(session: SessionView) -> SessionView {
    SessionView {
        state: if is_final(session.state) {
            session.state
        } else {
            SessionState::Detached
        },
        attached_conn_id: None,
        active_client_id: None,
        ..session
    }
}

/// The session at the end of its life.
pub open spec fn ended(session: SessionView, state: SessionState) -> SessionView {
    SessionView { state, attached_conn_id: None, active_client_id: None, ..session }
}

/// The answer to an attempt to attach to a session that nobody else may be attached to.
pub open spec fn attach_outcome(sessions: Map<Uuid, SessionView>, session_id: Uuid) -> Result<
    u64,
    SessionError,
> {
    if !sessions.contains_key(session_id) {
        Err(SessionError::NotFound)
    } else if is_final(sessions[session_id].state) {
        Err(SessionError::InvalidState)
    } else if sessions[session_id].attached_conn_id is Some {
        Err(SessionError::AttachDenied)
    } else {
        Ok(next_epoch(sessions[session_id].attach_epoch))
    }
}

/// The sessions after such an attempt.
pub open spec fn after_attach(
    sessions: Map<Uuid, SessionView>,
    session_id: Uuid,
    conn_id: Uuid,
    client_id: Option<Uuid>,
) -> Map<Uuid, SessionView> {
    if attach_outcome(sessions, session_id) is Ok {
        sessions.insert(session_id, attached(sessions[session_id], conn_id, client_id))
    } else {
        sessions
    }
}

/// Whether the client that is attached to the session is this one, known by its identifier.
pub open spec fn is_active_client(session: SessionView, client_id: Option<Uuid>) -> bool {
    &&& client_id is Some
    &&& session.state == SessionState::Attached
    &&& session.active_client_id == client_id
}

/// Whether the client that is attached to the session is known to be another one.
pub open spec fn is_other_client(session: SessionView, client_id: Option<Uuid>) -> bool {
    &&& client_id is Some
    &&& session.active_client_id is Some
    &&& session.active_client_id != client_id
}

/// The answer to an attempt of a returning client to attach. The client that is attached already
/// takes its own place.
pub open spec fn return_outcome(
    sessions: Map<Uuid, SessionView>,
    session_id: Uuid,
    client_id: Option<Uuid>,
) -> Result<Attachment, SessionError> {
    if !sessions.contains_key(session_id) {
        Err(SessionError::NotFound)
    } else if is_active_client(sessions[session_id], client_id) {
        Ok(
            Attachment {
                epoch: next_epoch(sessions[session_id].attach_epoch),
                replaced: sessions[session_id].attached_conn_id,
            },
        )
    } else if is_other_client(sessions[session_id], client_id) {
        Err(SessionError::AttachDenied)
    } else {
        match attach_outcome(sessions, session_id) {
            Ok(epoch) => Ok(Attachment { epoch, replaced: None }),
            Err(e) => Err(e),
        }
    }
}

/// The sessions after such an attempt.
pub open spec fn after_return(
    sessions: Map<Uuid, SessionView>,
    session_id: Uuid,
    conn_id: Uuid,
    client_id: Option<Uuid>,
) -> Map<Uuid, SessionView> {
    if return_outcome(sessions, session_id, client_id) is Ok {
        sessions.insert(session_id, attached(sessions[session_id], conn_id, client_id))
    } else {
        sessions
    }
}

/// The answer to a connection that wants to detach.
pub open spec fn detach_outcome(
    sessions: Map<Uuid, SessionView>,
    session_id: Uuid,
    conn_id: Uuid,
) -> Result<(), SessionError> {
    if !sessions.contains_key(session_id) {
        Err(SessionError::NotFound)
    } else if sessions[session_id].attached_conn_id != Some(conn_id) {
        Err(SessionError::AttachDenied)
    } else {
        Ok(())
    }
}

/// The sessions after a connection wanted to detach.
pub open spec fn after_detach(
    sessions: Map<Uuid, SessionView>,
    session_id: Uuid,
    conn_id: Uuid,
) -> Map<Uuid, SessionView> {
    if detach_outcome(sessions, session_id, conn_id) is Ok {
        sessions.insert(session_id, released(sessions[session_id]))
    } else {
        sessions
    }
}

/// Whether the connection is the one that was attached to the session under this epoch.
pub open spec fn is_owner(
    sessions: Map<Uuid, SessionView>,
    session_id: Uuid,
    conn_id: Uuid,
    epoch: u64,
) -> bool {
    &&& sessions.contains_key(session_id)
    &&& sessions[session_id].attached_conn_id == Some(conn_id)
    &&& sessions[session_id].attach_epoch == epoch
}

/// The sessions after the end of a connection that was attached under this epoch.
pub open spec fn after_stale_cleanup(
    sessions: Map<Uuid, SessionView>,
    session_id: Uuid,
    conn_id: Uuid,
    epoch: u64,
) -> Map<Uuid, SessionView> {
    if is_owner(sessions, session_id, conn_id, epoch) {
        sessions.insert(session_id, released(sessions[session_id]))
    } else {
        sessions
    }
}

/// The sessions after one of them was ended.
pub open spec fn after_end(
    sessions: Map<Uuid, SessionView>,
    session_id: Uuid,
    state: SessionState,
) -> Map<Uuid, SessionView> {
    if sessions.contains_key(session_id) {
        sessions.insert(session_id, ended(sessions[session_id], state))
    } else {
        sessions
    }
}

/// The answer to an operation that only needs the session to exist.
pub open spec fn end_outcome(sessions: Map<Uuid, SessionView>, session_id: Uuid) -> Result<
    (),
    SessionError,
> {
    if sessions.contains_key(session_id) {
        Ok(())
    } else {
        Err(SessionError::NotFound)
    }
}

impl Default for SessionManager {
    fn default() -> (manager: SessionManager)
        ensures
            manager@ == Map::<Uuid, SessionView>::empty(),
    {
        broadcast use vstd::std_specs::hash::group_hash_axioms;

        let manager = SessionManager { sessions: HashMap::new() };
        assert(manager@ =~= Map::<Uuid, SessionView>::empty());
        manager
    }
}

impl SessionManager {
    /// Creates a session under a random identifier.
    pub fn create_session(
        &mut self,
        owner_user_id: String,
        quic_addr: String,
        cert_fingerprint: String,
    ) -> (session_id: Uuid)
        ensures
            crate::ids::is_random_uuid(session_id.value),
            final(self)@ == old(self)@.insert(
                session_id,
                created(session_id, owner_user_id@, quic_addr@, cert_fingerprint@),
            ),
    {
        let session_id = Uuid::new_v4();
        self.create_session_with_id(session_id, owner_user_id, quic_addr, cert_fingerprint);
        session_id
    }

    /// Creates a session, in place of any with the same identifier.
    pub fn create_session_with_id(
        &mut self,
        session_id: Uuid,
        owner_user_id: String,
        quic_addr: String,
        cert_fingerprint: String,
    )
        ensures
            final(self)@ == old(self)@.insert(
                session_id,
                created(session_id, owner_user_id@, quic_addr@, cert_fingerprint@),
            ),
    {
        self.put(
            session_id,
            Session {
                session_id,
                owner_user_id,
                quic_addr,
                cert_fingerprint,
                state: SessionState::Created,
                attached_conn_id: None,
                attach_epoch: 0,
                active_client_id: None,
            },
        );
    }

    /// The session with this identifier.
    pub fn session(&self, session_id: Uuid) -> (found: Option<&Session>)
        ensures
            match found {
                Some(s) => self@.contains_key(session_id) && s@ == self@[session_id],
                None => !self@.contains_key(session_id),
            },
    {
        broadcast use vstd::std_specs::hash::group_hash_axioms;

        self.sessions.get(&session_id.value)
    }

    /// Whether the user owns the session.
    pub fn assert_owner(&self, session_id: Uuid, user_id: &str) -> (outcome: Result<
        (),
        SessionError,
    >)
        ensures
            outcome == if !self@.contains_key(session_id) {
                Err::<(), SessionError>(SessionError::NotFound)
            } else if self@[session_id].owner == user_id@ {
                Ok::<(), SessionError>(())
            } else {
                Err::<(), SessionError>(SessionError::PermissionDenied)
            },
    {
        match self.session(session_id) {
            Some(session) => if str_eq(session.owner_user_id.as_str(), user_id) {
                Ok(())
            } else {
                Err(SessionError::PermissionDenied)
            },
            None => Err(SessionError::NotFound),
        }
    }

    /// Attaches a connection to a session that no connection is attached to, and returns the epoch
    /// of the attachment.
    pub fn attach_exclusive(&mut self, session_id: Uuid, conn_id: Uuid) -> (outcome: Result<
        u64,
        SessionError,
    >)
        ensures
            outcome == attach_outcome(old(self)@, session_id),
            final(self)@ == after_attach(old(self)@, session_id, conn_id, None),
    {
        self.attach_client(session_id, conn_id, None)
    }

    /// Attaches a connection as `attach_exclusive` does, and keeps which client it belongs to.
    pub fn attach_client(
        &mut self,
        session_id: Uuid,
        conn_id: Uuid,
        client_id: Option<Uuid>,
    ) -> (outcome: Result<u64, SessionError>)
        ensures
            outcome == attach_outcome(old(self)@, session_id),
            final(self)@ == after_attach(old(self)@, session_id, conn_id, client_id),
    {
        let attachable = match self.session(session_id) {
            Some(session) => match session.state {
                SessionState::Expired | SessionState::Terminated => Err(SessionError::InvalidState),
                _ => if session.attached_conn_id.is_some() {
                    Err(SessionError::AttachDenied)
                } else {
                    Ok(())
                },
            },
            None => Err(SessionError::NotFound),
        };
        match attachable {
            Ok(()) => Ok(self.give_to(session_id, conn_id, client_id)),
            Err(e) => Err(e),
        }
    }

    /// Attaches a connection of a client that returns. The client that is attached under the same
    /// identifier is replaced; one under another identifier is not.
    pub fn attach_returning(
        &mut self,
        session_id: Uuid,
        conn_id: Uuid,
        client_id: Option<Uuid>,
    ) -> (outcome: Result<Attachment, SessionError>)
        ensures
            outcome == return_outcome(old(self)@, session_id, client_id),
            final(self)@ == after_return(old(self)@, session_id, conn_id, client_id),
    {
        let (replaced, same, other) = match self.session(session_id) {
            Some(session) => {
                let active = session.active_client_id;
                let (same, other) = match (client_id, active) {
                    (Some(incoming), Some(current)) => (
                        incoming == current && session.state == SessionState::Attached,
                        incoming != current,
                    ),
                    _ => (false, false),
                };
                (session.attached_conn_id, same, other)
            },
            None => {
                return Err(SessionError::NotFound);
            },
        };
        if same {
            let epoch = self.give_to(session_id, conn_id, client_id);
            return Ok(Attachment { epoch, replaced });
        }
        if other {
            return Err(SessionError::AttachDenied);
        }
        match self.attach_client(session_id, conn_id, client_id) {
            Ok(epoch) => Ok(Attachment { epoch, replaced: None }),
            Err(e) => Err(e),
        }
    }

    /// Detaches the connection that is attached.
    pub fn detach(&mut self, session_id: Uuid, conn_id: Uuid) -> (outcome: Result<(), SessionError>)
        ensures
            outcome == detach_outcome(old(self)@, session_id, conn_id),
            final(self)@ == after_detach(old(self)@, session_id, conn_id),
    {
        let owned = match self.session(session_id) {
            Some(session) => match session.attached_conn_id {
                Some(current) => current == conn_id,
                None => false,
            },
            None => {
                return Err(SessionError::NotFound);
            },
        };
        if !owned {
            return Err(SessionError::AttachDenied);
        }
        self.release(session_id);
        Ok(())
    }

    /// Detaches a connection that has ended, unless the session has passed to another one since
    /// the given epoch. Tells whether it did.
    pub fn conditional_stale_cleanup(&mut self, session_id: Uuid, conn_id: Uuid, epoch: u64) -> (cleaned:
        bool)
        ensures
            cleaned == is_owner(old(self)@, session_id, conn_id, epoch),
            final(self)@ == after_stale_cleanup(old(self)@, session_id, conn_id, epoch),
    {
        let owned = match self.session(session_id) {
            Some(session) => match session.attached_conn_id {
                Some(current) => current == conn_id && session.attach_epoch == epoch,
                None => false,
            },
            None => false,
        };
        if owned {
            self.release(session_id);
        }
        owned
    }

    /// Ends the session for good.
    pub fn terminate(&mut self, session_id: Uuid) -> (outcome: Result<(), SessionError>)
        ensures
            outcome == end_outcome(old(self)@, session_id),
            final(self)@ == after_end(old(self)@, session_id, SessionState::Terminated),
    {
        self.end(session_id, SessionState::Terminated)
    }

    /// Ends the session because it was left alone for too long.
    pub fn expire(&mut self, session_id: Uuid) -> (outcome: Result<(), SessionError>)
        ensures
            outcome == end_outcome(old(self)@, session_id),
            final(self)@ == after_end(old(self)@, session_id, SessionState::Expired),
    {
        self.end(session_id, SessionState::Expired)
    }

    /// Puts a session under its identifier.
    fn put(&mut self, session_id: Uuid, session: Session)
        ensures
            final(self)@ == old(self)@.insert(session_id, session@),
    {
        broadcast use vstd::std_specs::hash::group_hash_axioms;

        self.sessions.insert(session_id.value, session);
        assert(self@ =~= old(self)@.insert(session_id, session@));
    }

    /// Takes a session out, to be put back changed.
    fn take(&mut self, session_id: Uuid) -> (session: Option<Session>)
        ensures
            match session {
                Some(s) => old(self)@.contains_key(session_id) && s@ == old(self)@[session_id],
                None => !old(self)@.contains_key(session_id),
            },
            final(self)@ == old(self)@.remove(session_id),
    {
        broadcast use vstd::std_specs::hash::group_hash_axioms;

        let session = self.sessions.remove(&session_id.value);
        assert(self@ =~= old(self)@.remove(session_id));
        session
    }

    /// Attaches a connection to a session that exists, whoever is attached to it.
    fn give_to(&mut self, session_id: Uuid, conn_id: Uuid, client_id: Option<Uuid>) -> (epoch: u64)
        requires
            old(self)@.contains_key(session_id),
        ensures
            epoch == next_epoch(old(self)@[session_id].attach_epoch),
            final(self)@ == old(self)@.insert(
                session_id,
                attached(old(self)@[session_id], conn_id, client_id),
            ),
    {
        match self.take(session_id) {
            Some(mut session) => {
                let epoch = session.attach_epoch.saturating_add(1);
                session.attach_epoch = epoch;
                session.attached_conn_id = Some(conn_id);
                session.active_client_id = client_id;
                session.state = SessionState::Attached;
                self.put(session_id, session);
                assert(self@ =~= old(self)@.insert(
                    session_id,
                    attached(old(self)@[session_id], conn_id, client_id),
                ));
                epoch
            },
            None => 0,
        }
    }

    /// Clears who is attached to a session.
    fn release(&mut self, session_id: Uuid)
        requires
            old(self)@.contains_key(session_id),
        ensures
            final(self)@ == old(self)@.insert(session_id, released(old(self)@[session_id])),
    {
        if let Some(mut session) = self.take(session_id) {
            session.attached_conn_id = None;
            session.active_client_id = None;
            if session.state != SessionState::Terminated && session.state != SessionState::Expired {
                session.state = SessionState::Detached;
            }
            self.put(session_id, session);
            assert(self@ =~= old(self)@.insert(session_id, released(old(self)@[session_id])));
        }
    }

    /// Ends a session in a final state.
    fn end(&mut self, session_id: Uuid, state: SessionState) -> (outcome: Result<(), SessionError>)
        ensures
            outcome == end_outcome(old(self)@, session_id),
            final(self)@ == after_end(old(self)@, session_id, state),
    {
        match self.take(session_id) {
            Some(mut session) => {
                session.state = state;
                session.attached_conn_id = None;
                session.active_client_id = None;
                self.put(session_id, session);
                assert(self@ =~= old(self)@.insert(session_id, ended(old(self)@[session_id], state)));
                Ok(())
            },
            None => {
                assert(self@ =~= old(self)@);
                Err(SessionError::NotFound)
            },
        }
    }
}

/// Each error says why the session is refused.
pub proof fn law_errors_say_what_happened()
    ensures
        SessionError::NotFound.text() == "session not found"@,
        SessionError::AttachDenied.text() == "attach denied"@,
        SessionError::InvalidState.text() == "session not attachable"@,
        SessionError::PermissionDenied.text() == "permission denied"@,
{
}

} // verus!
