//! What the server keeps of its session.

#[allow(unused_imports)]
use crate::digest::is_token_text;
use crate::ids::Uuid;
use crate::runtime::BootstrapOutput;
use crate::server::args::NewArgs;
use crate::session::manager::{SessionManager, SessionState};
#[allow(unused_imports)]
use crate::session::manager::{
    after_end, after_stale_cleanup, created, is_final, is_owner, SessionView,
};
#[allow(unused_imports)]
use crate::time::NANOS_PER_SECOND;
use crate::time::{Duration, Timestamp};
use crate::token::service::TokenService;
#[allow(unused_imports)]
use crate::token::service::{after_cleanup, issues, TokenType, TokenView};
use vstd::prelude::*;
use vstd::slice::slice_subrange;

verus! {

/// How many seconds pass between two sweeps of the tokens.
pub const TOKEN_SWEEP_SECONDS: u64 = 60;

/// How many seconds a token is kept after it was used up or has expired.
pub const TOKEN_RETENTION_SECONDS: u64 = 300;

/// What the server keeps of its session.
#[derive(Debug)]
pub struct ServerState {
    pub session_id: Uuid,
    pub owner_user: String,
    pub owner_uid: u32,
    pub quic_addr: String,
    pub cert_fingerprint: String,
    pub session_timeout: Duration,
    pub initial_attach_timeout: Duration,
    pub auth_token_ttl: Duration,
    pub resume_token_ttl: Duration,
    pub replay_cap: usize,
    pub sessions: SessionManager,
    pub tokens: TokenService,
    pub replay: Vec<u8>,
    pub created_at: Timestamp,
    pub detached_at: Option<Timestamp>,
    pub pty_exited: bool,
}

/// Why a connection is cleaned up.
#[derive(Debug, Clone, Copy, PartialEq, Eq, Structural)]
pub enum CleanupReason {
    ConnectionEnd,
    ExplicitDetach,
}

/// Why the server stops.
#[derive(Debug, Clone, Copy, PartialEq, Eq, Structural)]
pub enum StopReason {
    DetachedTimeout,
    InitialAttachTimeout,
    SessionTerminated,
    SessionExpired,
}

/// The state of the server, with its texts and collections as sequences and maps.
#[verifier::ext_equal]
pub struct ServerView {
    pub session_id: Uuid,
    pub owner: Seq<char>,
    pub owner_uid: u32,
    pub quic_addr: Seq<char>,
    pub cert_fingerprint: Seq<char>,
    pub session_timeout: Duration,
    pub initial_attach_timeout: Duration,
    pub auth_token_ttl: Duration,
    pub resume_token_ttl: Duration,
    pub replay_cap: usize,
    pub sessions: Map<Uuid, SessionView>,
    pub tokens: Seq<TokenView>,
    pub replay: Seq<u8>,
    pub created_at: Timestamp,
    pub detached_at: Option<Timestamp>,
    pub pty_exited: bool,
}

impl View for ServerState {
    type V = ServerView;

    open spec fn view(&self) -> ServerView {
        ServerView {
            session_id: self.session_id,
            owner: self.owner_user@,
            owner_uid: self.owner_uid,
            quic_addr: self.quic_addr@,
            cert_fingerprint: self.cert_fingerprint@,
            session_timeout: self.session_timeout,
            initial_attach_timeout: self.initial_attach_timeout,
            auth_token_ttl: self.auth_token_ttl,
            resume_token_ttl: self.resume_token_ttl,
            replay_cap: self.replay_cap,
            sessions: self.sessions@,
            tokens: self.tokens@,
            replay: self.replay@,
            created_at: self.created_at,
            detached_at: self.detached_at,
            pty_exited: self.pty_exited,
        }
    }
}

/// Whether this is the state of a server that has just started.
pub open spec fn is_initial(
    server: ServerView,
    session_id: Uuid,
    owner: Seq<char>,
    owner_uid: u32,
    quic_addr: Seq<char>,
    cert_fingerprint: Seq<char>,
    args: NewArgs,
) -> bool {
    &&& server.session_id == session_id
    &&& server.owner == owner
    &&& server.owner_uid == owner_uid
    &&& server.quic_addr == quic_addr
    &&& server.cert_fingerprint == cert_fingerprint
    &&& server.session_timeout.nanos() == args.session_timeout * NANOS_PER_SECOND
    &&& server.initial_attach_timeout.nanos() == args.initial_attach_timeout * NANOS_PER_SECOND
    &&& server.auth_token_ttl.nanos() == args.auth_token_ttl * NANOS_PER_SECOND
    &&& server.auth_token_ttl.secs() == args.auth_token_ttl
    &&& server.resume_token_ttl.nanos() == args.resume_token_ttl * NANOS_PER_SECOND
    &&& server.resume_token_ttl.secs() == args.resume_token_ttl
    &&& server.session_timeout.secs() == args.session_timeout
    &&& server.replay_cap == args.replay_buffer_bytes
    &&& server.sessions == Map::<Uuid, SessionView>::empty().insert(
        session_id,
        created(session_id, owner, quic_addr, cert_fingerprint),
    )
    &&& server.tokens == Seq::<TokenView>::empty()
    &&& server.replay == Seq::<u8>::empty()
    &&& server.detached_at is None
    &&& !server.pty_exited
}

/// The last `cap` bytes of `bytes`, or all of them if there are fewer.
pub open spec fn tail(bytes: Seq<u8>, cap: nat) -> Seq<u8> {
    if bytes.len() > cap {
        bytes.skip(bytes.len() - cap)
    } else {
        bytes
    }
}

/// The session of the server.
pub open spec fn own_session(server: ServerView) -> SessionView {
    server.sessions[server.session_id]
}

/// The server with its session ended.
pub open spec fn with_session_ended(server: ServerView, state: SessionState) -> ServerView {
    ServerView { sessions: after_end(server.sessions, server.session_id, state), ..server }
}

/// Whether a limit is set and has passed since `start`. A limit of zero is none.
pub open spec fn limit_passed(start: Timestamp, now: Timestamp, limit: Duration) -> bool {
    &&& limit.nanos() > 0
    &&& start.nanos <= now.nanos
    &&& now.nanos - start.nanos >= limit.nanos()
}

/// Whether the session was left detached for too long.
pub open spec fn detached_too_long(server: ServerView, now: Timestamp) -> bool {
    server.detached_at matches Some(since) && limit_passed(since, now, server.session_timeout)
}

/// Whether nobody has attached to the session since it was created, for too long.
pub open spec fn unattended_too_long(server: ServerView, now: Timestamp) -> bool {
    &&& server.sessions.contains_key(server.session_id)
    &&& own_session(server).state == SessionState::Created
    &&& limit_passed(server.created_at, now, server.initial_attach_timeout)
}

/// Whether the life of the session is over.
pub open spec fn is_over(server: ServerView) -> bool {
    server.sessions.contains_key(server.session_id) && is_final(own_session(server).state)
}

/// The server after a connection that was attached has ended.
pub open spec fn after_connection(
    server: ServerView,
    conn_id: Uuid,
    epoch: u64,
    reason: CleanupReason,
    now: Timestamp,
) -> ServerView {
    if reason == CleanupReason::ConnectionEnd && server.pty_exited {
        ServerView {
            detached_at: None,
            ..with_session_ended(server, SessionState::Terminated)
        }
    } else if is_owner(server.sessions, server.session_id, conn_id, epoch) {
        ServerView {
            sessions: after_stale_cleanup(server.sessions, server.session_id, conn_id, epoch),
            detached_at: Some(now),
            ..server
        }
    } else {
        server
    }
}

/// Why the server stops, if it does.
pub open spec fn stop_reason(server: ServerView, now: Timestamp) -> Option<StopReason> {
    if detached_too_long(server, now) && server.sessions.contains_key(server.session_id) {
        Some(StopReason::DetachedTimeout)
    } else if unattended_too_long(server, now) {
        Some(StopReason::InitialAttachTimeout)
    } else if is_over(server) {
        if own_session(server).state == SessionState::Terminated {
            Some(StopReason::SessionTerminated)
        } else {
            Some(StopReason::SessionExpired)
        }
    } else {
        None
    }
}

/// The server after it was asked whether it stops.
pub open spec fn after_stop_check(server: ServerView, now: Timestamp) -> ServerView {
    if detached_too_long(server, now) || unattended_too_long(server, now) {
        with_session_ended(server, SessionState::Expired)
    } else {
        server
    }
}

impl StopReason {
    /// The name of the reason in the log.
    pub open spec fn text(self) -> Seq<char> {
        match self {
            StopReason::DetachedTimeout => "session_expired"@,
            StopReason::InitialAttachTimeout => "initial_attach_timeout"@,
            StopReason::SessionTerminated => "session_terminated"@,
            StopReason::SessionExpired => "session_expired"@,
        }
    }

    /// The name of the reason in the log.
    pub fn name(self) -> (n: String)
        ensures
            n@ == self.text(),
    {
        match self {
            StopReason::DetachedTimeout => "session_expired".to_owned(),
            StopReason::InitialAttachTimeout => "initial_attach_timeout".to_owned(),
            StopReason::SessionTerminated => "session_terminated".to_owned(),
            StopReason::SessionExpired => "session_expired".to_owned(),
        }
    }
}

impl ServerState {
    /// The state of a server that starts now.
    pub fn new(
        session_id: Uuid,
        owner_user: String,
        owner_uid: u32,
        quic_addr: String,
        cert_fingerprint: String,
        cfg: &NewArgs,
    ) -> (state: ServerState)
        ensures
            is_initial(
                state@,
                session_id,
                owner_user@,
                owner_uid,
                quic_addr@,
                cert_fingerprint@,
                *cfg,
            ),
    {
        ServerState::new_at(
            session_id,
            owner_user,
            owner_uid,
            quic_addr,
            cert_fingerprint,
            cfg,
            Timestamp::now(),
        )
    }

    /// The state of a server that starts at a given time.
    pub fn new_at(
        session_id: Uuid,
        owner_user: String,
        owner_uid: u32,
        quic_addr: String,
        cert_fingerprint: String,
        cfg: &NewArgs,
        created_at: Timestamp,
    ) -> (state: ServerState)
        ensures
            is_initial(
                state@,
                session_id,
                owner_user@,
                owner_uid,
                quic_addr@,
                cert_fingerprint@,
                *cfg,
            ),
            state@.created_at == created_at,
    {
        let mut sessions = SessionManager::default();
        sessions.create_session_with_id(
            session_id,
            owner_user.clone(),
            quic_addr.clone(),
            cert_fingerprint.clone(),
        );
        ServerState {
            session_id,
            owner_user,
            owner_uid,
            quic_addr,
            cert_fingerprint,
            session_timeout: Duration::from_secs(cfg.session_timeout),
            initial_attach_timeout: Duration::from_secs(cfg.initial_attach_timeout),
            auth_token_ttl: Duration::from_secs(cfg.auth_token_ttl),
            resume_token_ttl: Duration::from_secs(cfg.resume_token_ttl),
            replay_cap: cfg.replay_buffer_bytes,
            sessions,
            tokens: TokenService::default(),
            replay: Vec::new(),
            created_at,
            detached_at: None,
            pty_exited: false,
        }
    }

    /// Issues a token that authenticates one connection of the owner.
    pub fn issue_auth_token(&mut self) -> (raw: String)
        ensures
            is_token_text(raw@),
            issues(
                old(self)@.tokens,
                final(self)@.tokens,
                raw@,
                TokenType::Auth,
                old(self)@.session_id,
                old(self)@.owner,
                old(self)@.auth_token_ttl,
            ),
            final(self)@ == (ServerView { tokens: final(self)@.tokens, ..old(self)@ }),
    {
        self.tokens.issue_auth_token(
            self.session_id,
            self.owner_user.as_str(),
            self.auth_token_ttl,
        )
    }

    /// Issues a token with which the owner can resume the session.
    pub fn issue_resume_token(&mut self) -> (raw: String)
        ensures
            is_token_text(raw@),
            issues(
                old(self)@.tokens,
                final(self)@.tokens,
                raw@,
                TokenType::Resume,
                old(self)@.session_id,
                old(self)@.owner,
                old(self)@.resume_token_ttl,
            ),
            final(self)@ == (ServerView { tokens: final(self)@.tokens, ..old(self)@ }),
    {
        self.tokens.issue_resume_token(
            self.session_id,
            self.owner_user.as_str(),
            self.resume_token_ttl,
        )
    }

    /// Issues a token and tells what a client needs to use it.
    pub fn bootstrap_output(&mut self) -> (output: BootstrapOutput)
        ensures
            bootstraps(old(self)@, final(self)@, output),
    {
        let auth_token = self.issue_auth_token();
        BootstrapOutput {
            session_id: self.session_id,
            auth_token,
            auth_token_expires_in_seconds: self.auth_token_ttl.as_secs(),
            quic_addr: self.quic_addr.clone(),
            cert_fingerprint: self.cert_fingerprint.clone(),
        }
    }

    /// Keeps output of the terminal for clients that resume the session later, as far as the cap
    /// allows.
    pub fn append_replay(&mut self, chunk: &[u8])
        ensures
            final(self)@ == (ServerView {
                replay: tail(old(self)@.replay + chunk@, old(self)@.replay_cap as nat),
                ..old(self)@
            }),
    {
        self.replay.extend_from_slice(chunk);
        let ghost all = self.replay@;
        assert(all =~= old(self)@.replay + chunk@);
        if self.replay.len() > self.replay_cap {
            let overflow: usize = self.replay.len() - self.replay_cap;
            let mut kept: Vec<u8> = Vec::new();
            kept.extend_from_slice(
                slice_subrange(self.replay.as_slice(), overflow, self.replay.len()),
            );
            assert(kept@ =~= all.skip(overflow as int));
            self.replay = kept;
        }
    }

    /// The output to send to a client before anything new: what is kept, if it resumes.
    pub fn replay_for(&self, resume: bool) -> (bytes: Vec<u8>)
        ensures
            bytes@ == if resume {
                self@.replay
            } else {
                Seq::<u8>::empty()
            },
    {
        let mut bytes: Vec<u8> = Vec::new();
        if resume {
            bytes.extend_from_slice(self.replay.as_slice());
        }
        assert(bytes@ =~= if resume {
            self@.replay
        } else {
            Seq::<u8>::empty()
        });
        bytes
    }

    /// Ends the session if it was left detached for too long, and tells whether it did.
    pub fn expire_if_detached_timeout(&mut self, now: Timestamp) -> (expired: bool)
        ensures
            expired == (detached_too_long(old(self)@, now) && old(self)@.sessions.contains_key(
                old(self)@.session_id,
            )),
            final(self)@ == if detached_too_long(old(self)@, now) {
                with_session_ended(old(self)@, SessionState::Expired)
            } else {
                old(self)@
            },
    {
        let passed = match self.detached_at {
            Some(since) => has_passed(since, now, self.session_timeout),
            None => false,
        };
        if passed {
            self.sessions.expire(self.session_id).is_ok()
        } else {
            false
        }
    }

    /// Ends the session if nobody attached to it in time, and tells whether it did.
    pub fn expire_if_initial_attach_timeout(&mut self, now: Timestamp) -> (expired: bool)
        ensures
            expired == unattended_too_long(old(self)@, now),
            final(self)@ == if unattended_too_long(old(self)@, now) {
                with_session_ended(old(self)@, SessionState::Expired)
            } else {
                old(self)@
            },
    {
        let waiting = match self.sessions.session(self.session_id) {
            Some(session) => session.state == SessionState::Created,
            None => false,
        };
        if waiting && has_passed(self.created_at, now, self.initial_attach_timeout) {
            self.sessions.expire(self.session_id).is_ok()
        } else {
            false
        }
    }

    /// Decides whether to go on serving, ending the session where its time is up.
    pub fn check_stop(&mut self, now: Timestamp) -> (reason: Option<StopReason>)
        ensures
            reason == stop_reason(old(self)@, now),
            final(self)@ == after_stop_check(old(self)@, now),
    {
        if self.expire_if_detached_timeout(now) {
            return Some(StopReason::DetachedTimeout);
        }
        if self.expire_if_initial_attach_timeout(now) {
            return Some(StopReason::InitialAttachTimeout);
        }
        match self.sessions.session(self.session_id) {
            Some(session) => match session.state {
                SessionState::Terminated => Some(StopReason::SessionTerminated),
                SessionState::Expired => Some(StopReason::SessionExpired),
                _ => None,
            },
            None => None,
        }
    }
}

/// Whether this hands out a new token of the server's session.
pub open spec fn bootstraps(before: ServerView, after: ServerView, output: BootstrapOutput) -> bool {
    &&& output.session_id == before.session_id
    &&& is_token_text(output.auth_token@)
    &&& output.auth_token_expires_in_seconds == before.auth_token_ttl.secs()
    &&& output.quic_addr@ == before.quic_addr
    &&& output.cert_fingerprint@ == before.cert_fingerprint
    &&& issues(
        before.tokens,
        after.tokens,
        output.auth_token@,
        TokenType::Auth,
        before.session_id,
        before.owner,
        before.auth_token_ttl,
    )
    &&& after == (ServerView { tokens: after.tokens, ..before })
}

/// Whether a limit is set and has passed since `start`.
fn has_passed(start: Timestamp, now: Timestamp, limit: Duration) -> (yes: bool)
    ensures
        yes == limit_passed(start, now, limit),
{
    limit.as_nanos() > 0 && now.elapsed_at_least(start, limit)
}

/// Whether the life of the session is over, so that there is nothing left to serve.
pub fn should_server_stop(st: &ServerState) -> (yes: bool)
    ensures
        yes == is_over(st@),
{
    match st.sessions.session(st.session_id) {
        Some(session) => session.state == SessionState::Terminated || session.state
            == SessionState::Expired,
        None => false,
    }
}

/// Drops the records of tokens that have expired.
pub fn sweep_tokens(st: &mut ServerState, now: Timestamp, retention: Duration)
    ensures
        final(st)@ == (ServerView {
            tokens: after_cleanup(old(st)@.tokens, now, retention),
            ..old(st)@
        }),
{
    st.tokens.cleanup_expired(now, retention);
}

/// Releases the session after a connection that was attached has ended, or ends the session if its
/// shell is gone.
pub fn finalize_connection_cleanup(
    st: &mut ServerState,
    conn_id: Uuid,
    epoch: u64,
    reason: CleanupReason,
)
    ensures
        exists|now: Timestamp|
            final(st)@ == #[trigger] after_connection(old(st)@, conn_id, epoch, reason, now),
{
    let now = Timestamp::now();
    finalize_connection_cleanup_at(st, conn_id, epoch, reason, now);
    assert(st@ == after_connection(old(st)@, conn_id, epoch, reason, now));
}

/// Does what `finalize_connection_cleanup` does, at a given time.
pub fn finalize_connection_cleanup_at(
    st: &mut ServerState,
    conn_id: Uuid,
    epoch: u64,
    reason: CleanupReason,
    now: Timestamp,
)
    ensures
        final(st)@ == after_connection(old(st)@, conn_id, epoch, reason, now),
{
    let session_id = st.session_id;
    if reason == CleanupReason::ExplicitDetach {
        if st.sessions.conditional_stale_cleanup(session_id, conn_id, epoch) {
            st.detached_at = Some(now);
        }
        return ;
    }
    if st.pty_exited {
        let _ = st.sessions.terminate(session_id);
        st.detached_at = None;
        return ;
    }
    if st.sessions.conditional_stale_cleanup(session_id, conn_id, epoch) {
        st.detached_at = Some(now);
    }
}

/// Each reason to stop has its name in the log.
pub proof fn law_reasons_have_names()
    ensures
        StopReason::DetachedTimeout.text() == "session_expired"@,
        StopReason::InitialAttachTimeout.text() == "initial_attach_timeout"@,
        StopReason::SessionTerminated.text() == "session_terminated"@,
        StopReason::SessionExpired.text() == "session_expired"@,
{
}

} // verus!
