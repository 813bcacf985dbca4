//! Sessions and tokens together: starting a session and renewing its token.

#[allow(unused_imports)]
use crate::digest::is_token_text;
use crate::ids::Uuid;
use crate::session::manager::{SessionError, SessionManager};
#[allow(unused_imports)]
use crate::session::manager::{created, SessionState, SessionView};
use crate::time::Duration;
use crate::token::service::{TokenError, TokenService};
#[allow(unused_imports)]
use crate::token::service::{issues, TokenType, TokenView};
use vstd::prelude::*;

verus! {

/// How a runtime is set up.
#[derive(Debug, Clone)]
pub struct RuntimeConfig {
    pub auth_token_ttl: Duration,
    pub bind_addr: String,
}

impl Default for RuntimeConfig {
    fn default() -> (config: RuntimeConfig)
        ensures
            config.auth_token_ttl.secs() == 60,
            config.auth_token_ttl.nanos() == 60_000_000_000nat,
            config.bind_addr@ == "127.0.0.1:30000"@,
    {
        RuntimeConfig {
            auth_token_ttl: Duration::from_secs(60),
            bind_addr: "127.0.0.1:30000".to_owned(),
        }
    }
}

/// What a client needs to reach a session.
#[derive(Debug)]
pub struct BootstrapOutput {
    pub session_id: Uuid,
    pub auth_token: String,
    pub auth_token_expires_in_seconds: u64,
    pub quic_addr: String,
    pub cert_fingerprint: String,
}

/// Why a request to the runtime is refused.
#[derive(Debug, Clone, Copy, PartialEq, Eq, Structural)]
pub enum RuntimeError {
    Session(SessionError),
    Token(TokenError),
}

impl RuntimeError {
    /// What the error says.
    pub open spec fn text(self) -> Seq<char> {
        match self {
            RuntimeError::Session(e) => e.text(),
            RuntimeError::Token(e) => e.text(),
        }
    }

    /// What the error says.
    pub fn message(self) -> (m: String)
        ensures
            m@ == self.text(),
    {
        match self {
            RuntimeError::Session(e) => e.message(),
            RuntimeError::Token(e) => e.message(),
        }
    }
}

/// Sessions, their tokens, and how they are set up.
#[derive(Debug)]
pub struct NeoshdRuntime {
    pub sessions: SessionManager,
    pub tokens: TokenService,
    pub config: RuntimeConfig,
}

/// Whether this hands out a new token of a session to the user.
pub open spec fn hands_out(
    output: BootstrapOutput,
    session: SessionView,
    session_id: Uuid,
    user_id: Seq<char>,
    ttl: Duration,
    before: Seq<TokenView>,
    after: Seq<TokenView>,
) -> bool {
    &&& output.session_id == session_id
    &&& is_token_text(output.auth_token@)
    &&& issues(before, after, output.auth_token@, TokenType::Auth, session_id, user_id, ttl)
    &&& output.auth_token_expires_in_seconds == ttl.secs()
    &&& output.quic_addr@ == session.quic_addr
    &&& output.cert_fingerprint@ == session.cert_fingerprint
}

/// The sessions and tokens of a runtime, and how it is set up.
#[verifier::ext_equal]
pub struct RuntimeView {
    pub sessions: Map<Uuid, SessionView>,
    pub tokens: Seq<TokenView>,
    pub auth_token_ttl: Duration,
    pub bind_addr: Seq<char>,
}

impl View for NeoshdRuntime {
    type V = RuntimeView;

    open spec fn view(&self) -> RuntimeView {
        RuntimeView {
            sessions: self.sessions@,
            tokens: self.tokens@,
            auth_token_ttl: self.config.auth_token_ttl,
            bind_addr: self.config.bind_addr@,
        }
    }
}

/// What the start of a session does: there is one more session, and its owner is handed a token.
pub open spec fn started(
    before: RuntimeView,
    user_id: Seq<char>,
    output: BootstrapOutput,
    after: RuntimeView,
) -> bool {
    let session = created(
        output.session_id,
        user_id,
        before.bind_addr,
        "sha256:local-dev-fingerprint"@,
    );
    &&& after == (RuntimeView {
        sessions: before.sessions.insert(output.session_id, session),
        tokens: after.tokens,
        ..before
    })
    &&& hands_out(
        output,
        session,
        output.session_id,
        user_id,
        before.auth_token_ttl,
        before.tokens,
        after.tokens,
    )
}

/// What a request for a new token does: the owner of a session is handed one more token, and anyone
/// else is refused. No session changes.
pub open spec fn renewed(
    before: RuntimeView,
    session_id: Uuid,
    user_id: Seq<char>,
    outcome: Result<BootstrapOutput, RuntimeError>,
    after: RuntimeView,
) -> bool {
    &&& after == (RuntimeView { tokens: after.tokens, ..before })
    &&& if !before.sessions.contains_key(session_id) {
        &&& outcome == Err::<BootstrapOutput, RuntimeError>(
            RuntimeError::Session(SessionError::NotFound),
        )
        &&& after.tokens == before.tokens
    } else if before.sessions[session_id].owner != user_id {
        &&& outcome == Err::<BootstrapOutput, RuntimeError>(
            RuntimeError::Session(SessionError::PermissionDenied),
        )
        &&& after.tokens == before.tokens
    } else {
        &&& outcome matches Ok(output)
        &&& hands_out(
            output,
            before.sessions[session_id],
            session_id,
            user_id,
            before.auth_token_ttl,
            before.tokens,
            after.tokens,
        )
    }
}

/// The user who started a session is always handed a new token for it, with the same session, the
/// same address and the same fingerprint as before, and no session is created or changed by that.
pub proof fn law_owner_renews(
    before: RuntimeView,
    user_id: Seq<char>,
    first: BootstrapOutput,
    between: RuntimeView,
    outcome: Result<BootstrapOutput, RuntimeError>,
    after: RuntimeView,
)
    requires
        started(before, user_id, first, between),
        renewed(between, first.session_id, user_id, outcome, after),
    ensures
        outcome matches Ok(second) && {
            &&& second.session_id == first.session_id
            &&& second.quic_addr@ == first.quic_addr@
            &&& second.cert_fingerprint@ == first.cert_fingerprint@
            &&& second.auth_token_expires_in_seconds == first.auth_token_expires_in_seconds
            &&& issues(
                between.tokens,
                after.tokens,
                second.auth_token@,
                TokenType::Auth,
                first.session_id,
                user_id,
                before.auth_token_ttl,
            )
        },
        after.sessions == between.sessions,
{
}

/// Nobody but the user who started a session is handed a token for it: anyone else is refused, and
/// no token is issued.
pub proof fn law_others_cannot_renew(
    before: RuntimeView,
    user_id: Seq<char>,
    first: BootstrapOutput,
    between: RuntimeView,
    other: Seq<char>,
    outcome: Result<BootstrapOutput, RuntimeError>,
    after: RuntimeView,
)
    requires
        started(before, user_id, first, between),
        renewed(between, first.session_id, other, outcome, after),
        other != user_id,
    ensures
        outcome == Err::<BootstrapOutput, RuntimeError>(
            RuntimeError::Session(SessionError::PermissionDenied),
        ),
        after == between,
{
}

impl Default for NeoshdRuntime {
    fn default() -> (runtime: NeoshdRuntime)
        ensures
            runtime.sessions@ == Map::<Uuid, SessionView>::empty(),
            runtime.tokens@ == Seq::<TokenView>::empty(),
            runtime.config.auth_token_ttl.nanos() == 60_000_000_000nat,
            runtime.config.bind_addr@ == "127.0.0.1:30000"@,
    {
        NeoshdRuntime::with_config(RuntimeConfig::default())
    }
}

impl NeoshdRuntime {
    /// A runtime without sessions.
    pub fn with_config(config: RuntimeConfig) -> (runtime: NeoshdRuntime)
        ensures
            runtime.sessions@ == Map::<Uuid, SessionView>::empty(),
            runtime.tokens@ == Seq::<TokenView>::empty(),
            runtime.config == config,
    {
        NeoshdRuntime {
            sessions: SessionManager::default(),
            tokens: TokenService::default(),
            config,
        }
    }

    /// Starts a session for a user.
    pub fn new_session(&mut self, user_id: &str) -> (output: BootstrapOutput)
        ensures
            crate::ids::is_random_uuid(output.session_id.value),
            started(old(self)@, user_id@, output, final(self)@),
    {
        let addr = self.config.bind_addr.clone();
        let fingerprint = "sha256:local-dev-fingerprint".to_owned();
        let session_id = self.sessions.create_session(
            user_id.to_owned(),
            addr.clone(),
            fingerprint.clone(),
        );
        let auth_token = self.tokens.issue_auth_token(
            session_id,
            user_id,
            self.config.auth_token_ttl,
        );
        BootstrapOutput {
            session_id,
            auth_token,
            auth_token_expires_in_seconds: self.config.auth_token_ttl.as_secs(),
            quic_addr: addr,
            cert_fingerprint: fingerprint,
        }
    }

    /// Issues a new token for a session to its owner. Nothing changes where it is refused.
    pub fn renew_auth(&mut self, session_id: Uuid, user_id: &str) -> (outcome: Result<
        BootstrapOutput,
        RuntimeError,
    >)
        ensures
            renewed(old(self)@, session_id, user_id@, outcome, final(self)@),
    {
        match self.sessions.assert_owner(session_id, user_id) {
            Ok(()) => self.issue_bootstrap_for_session(session_id, user_id),
            Err(e) => Err(RuntimeError::Session(e)),
        }
    }

    /// Issues a new token for a session, whoever owns it.
    fn issue_bootstrap_for_session(&mut self, session_id: Uuid, user_id: &str) -> (outcome: Result<
        BootstrapOutput,
        RuntimeError,
    >)
        ensures
            final(self).config == old(self).config,
            final(self).sessions@ == old(self).sessions@,
            match outcome {
                Ok(output) => {
                    &&& old(self).sessions@.contains_key(session_id)
                    &&& hands_out(
                        output,
                        old(self).sessions@[session_id],
                        session_id,
                        user_id@,
                        old(self).config.auth_token_ttl,
                        old(self).tokens@,
                        final(self).tokens@,
                    )
                },
                Err(e) => {
                    &&& !old(self).sessions@.contains_key(session_id)
                    &&& e == RuntimeError::Session(SessionError::NotFound)
                    &&& final(self).tokens@.drop_last() == old(self).tokens@
                },
            },
    {
        let auth_token = self.tokens.issue_auth_token(
            session_id,
            user_id,
            self.config.auth_token_ttl,
        );
        match self.sessions.session(session_id) {
            Some(session) => Ok(
                BootstrapOutput {
                    session_id,
                    auth_token,
                    auth_token_expires_in_seconds: self.config.auth_token_ttl.as_secs(),
                    quic_addr: session.quic_addr.clone(),
                    cert_fingerprint: session.cert_fingerprint.clone(),
                },
            ),
            None => Err(RuntimeError::Session(SessionError::NotFound)),
        }
    }
}

/// The user who starts a session owns it: it is a new one that nobody is attached to, at the address
/// of the runtime, and the user is handed its identifier and a token that authenticates for it as
/// long as is said. Every other session, and every token that was there, stays as it was.
pub proof fn law_starting_a_session(
    before: RuntimeView,
    user_id: Seq<char>,
    output: BootstrapOutput,
    after: RuntimeView,
    other: Uuid,
)
    requires
        started(before, user_id, output, after),
    ensures
        after.sessions.contains_key(output.session_id),
        after.sessions[output.session_id].owner == user_id,
        after.sessions[output.session_id].quic_addr == before.bind_addr,
        after.sessions[output.session_id].state == SessionState::Created,
        after.sessions[output.session_id].attached_conn_id is None,
        output.quic_addr@ == before.bind_addr,
        output.cert_fingerprint@ == after.sessions[output.session_id].cert_fingerprint,
        output.auth_token_expires_in_seconds == before.auth_token_ttl.nanos() / 1_000_000_000,
        other != output.session_id ==> (after.sessions.contains_key(other)
            <==> before.sessions.contains_key(other)) && after.sessions[other]
            == before.sessions[other],
        after.tokens.len() == before.tokens.len() + 1,
        forall|i: int|
            0 <= i < before.tokens.len() ==> after.tokens[i] == #[trigger] before.tokens[i],
        after.tokens.last().token_type == TokenType::Auth,
        after.tokens.last().session_id == output.session_id,
        after.tokens.last().user == user_id,
        after.tokens.last().expires_at.nanos == after.tokens.last().created_at.nanos
            + before.auth_token_ttl.nanos(),
{
    assert forall|i: int| 0 <= i < before.tokens.len() implies after.tokens[i]
        == #[trigger] before.tokens[i] by {
        assert(after.tokens.drop_last()[i] == after.tokens[i]);
    }
}

/// A new token is handed out for a session that exists, to its owner, and to nobody else; nothing
/// is handed out for a session that does not exist.
pub proof fn law_who_is_handed_a_token(
    before: RuntimeView,
    session_id: Uuid,
    user_id: Seq<char>,
    outcome: Result<BootstrapOutput, RuntimeError>,
    after: RuntimeView,
)
    requires
        renewed(before, session_id, user_id, outcome, after),
    ensures
        ({
            let known = before.sessions.contains_key(session_id);
            let mine = before.sessions[session_id].owner == user_id;
            &&& outcome is Ok <==> known && mine
            &&& !known ==> outcome == Err::<BootstrapOutput, RuntimeError>(
                RuntimeError::Session(SessionError::NotFound),
            )
            &&& known && !mine ==> outcome == Err::<BootstrapOutput, RuntimeError>(
                RuntimeError::Session(SessionError::PermissionDenied),
            )
            &&& outcome is Err ==> after == before
            &&& outcome matches Ok(output) ==> {
                &&& output.session_id == session_id
                &&& output.quic_addr@ == before.sessions[session_id].quic_addr
                &&& output.cert_fingerprint@ == before.sessions[session_id].cert_fingerprint
                &&& after.tokens.len() == before.tokens.len() + 1
                &&& after.tokens.last().token_type == TokenType::Auth
                &&& after.tokens.last().session_id == session_id
                &&& after.tokens.last().user == user_id
            }
            &&& after.sessions == before.sessions
        }),
{
}

} // verus!
