//! The control messages of one connection, and what each of them does to the server.

#[allow(unused_imports)]
use crate::digest::is_token_text;
use crate::ids::Uuid;
#[allow(unused_imports)]
use crate::protocol::dispatcher::{advance, allowed};
use crate::protocol::dispatcher::{ConnectionState, Dispatcher};
#[allow(unused_imports)]
use crate::protocol::messages::wire_name;
use crate::protocol::messages::MessageKind;
use crate::server::error::{
    map_session_error, map_token_auth_error, map_token_resume_error, NeoshdError,
};
#[allow(unused_imports)]
use crate::server::error::{resume_error, session_error};
use crate::server::state::{finalize_connection_cleanup_at, CleanupReason, ServerState};
#[allow(unused_imports)]
use crate::server::state::{after_connection, ServerView};
use crate::session::manager::{SessionError, SessionState};
#[allow(unused_imports)]
use crate::session::manager::{
    after_attach, after_detach, after_end, after_return, attach_outcome, detach_outcome,
    end_outcome, return_outcome,
};
use crate::text::{concat, str_eq};
#[allow(unused_imports)]
use crate::text::texts;
use crate::time::Timestamp;
use crate::token::service::TokenError;
#[allow(unused_imports)]
use crate::token::service::{after_auth, auth_outcome, issues, resume_outcome, TokenType};
use vstd::prelude::*;
use vstd::string::StringExecFns;

verus! {

/// What an `AUTH` message carries.
#[derive(Debug)]
pub struct AuthRequest {
    pub token: String,
    pub client_id: Option<Uuid>,
}

/// What an `ATTACH` message carries.
#[derive(Debug)]
pub struct AttachRequest {
    pub session_id: Uuid,
}

/// What a `RESUME` message carries.
#[derive(Debug)]
pub struct ResumeRequest {
    pub session_id: Uuid,
    pub resume_token: String,
    pub client_id: Option<Uuid>,
}

/// What a `RESIZE` message carries.
#[derive(Debug)]
pub struct ResizeRequest {
    pub rows: u16,
    pub cols: u16,
}

/// A control message. Where what it carries could not be read, the reason stands in its place.
#[derive(Debug)]
pub enum Request {
    Unknown,
    Hello { capabilities: Vec<String> },
    Auth(Result<AuthRequest, String>),
    Attach(Result<AttachRequest, String>),
    Resume(Result<ResumeRequest, String>),
    Resize(Result<ResizeRequest, String>),
    Detach,
    Close,
    Ping { nonce: serde_json::Value },
    Pong,
    Error,
}

/// A message that answers a request and leaves everything else to the client.
#[derive(Debug)]
pub enum Reply {
    HelloAck { capabilities: Vec<String>, session_timeout_seconds: u64 },
    AuthOk { session_id: Uuid, resume_token: String, resume_token_expires_in_seconds: u64 },
    Pong { nonce: serde_json::Value },
}

/// Why a request is refused.
#[derive(Debug)]
pub enum Refusal {
    UnknownMessage,
    OutOfOrder,
    BadPayload { kind: MessageKind, why: String },
    AttachBeforeAuth,
    ResumeBeforeAuth,
    AuthToken(TokenError),
    WrongSession,
    ResumeToken(TokenError),
    Session(SessionError),
}

/// What to do after a request.
#[derive(Debug)]
pub enum Step {
    /// Send the reply and go on.
    Reply(Reply),
    /// Start the terminal if there is none, send `ATTACH_OK`, open the data streams and go on.
    Attached { session_id: Uuid },
    /// Close the connection that was replaced, start the terminal if there is none, send
    /// `RESUME_OK`, open the data streams beginning with the replay, and go on.
    Resumed { session_id: Uuid, replay_bytes: usize, replaced: Option<Uuid> },
    /// Resize the terminal if there is one, and go on.
    Resize { rows: u16, cols: u16 },
    /// Go on.
    Ignore,
    /// Send the error and end the connection.
    Refuse(Refusal),
    /// End the connection; the session stays.
    Detached,
    /// End the connection; the session has ended.
    Closed,
    /// Drop the connection as it is.
    Fail(SessionError),
}

/// One connection.
#[derive(Debug)]
pub struct Connection {
    conn_id: Uuid,
    dispatcher: Dispatcher,
    attached_epoch: Option<u64>,
    authed: bool,
    negotiated: bool,
    client_id: Option<Uuid>,
    cleanup_reason: CleanupReason,
}

/// What is known of a connection: whether it has authenticated, whether client identifiers were
/// negotiated, which client it authenticated as, and under which epoch it was attached.
#[verifier::ext_equal]
pub struct ConnView {
    pub conn_id: Uuid,
    pub state: ConnectionState,
    pub attached_epoch: Option<u64>,
    pub authed: bool,
    pub negotiated: bool,
    pub client_id: Option<Uuid>,
    pub cleanup_reason: CleanupReason,
}

impl View for Connection {
    type V = ConnView;

    closed spec fn view(&self) -> ConnView {
        ConnView {
            conn_id: self.conn_id,
            state: self.dispatcher@,
            attached_epoch: self.attached_epoch,
            authed: self.authed,
            negotiated: self.negotiated,
            client_id: self.client_id,
            cleanup_reason: self.cleanup_reason,
        }
    }
}

/// A connection that has just been opened.
pub open spec fn opened(conn_id: Uuid) -> ConnView {
    ConnView {
        conn_id,
        state: ConnectionState::AwaitHello,
        attached_epoch: None,
        authed: false,
        negotiated: false,
        client_id: None,
        cleanup_reason: CleanupReason::ConnectionEnd,
    }
}

/// The kind of a request, if it is a message of a known kind.
pub open spec fn request_kind(request: Request) -> Option<MessageKind> {
    match request {
        Request::Unknown => None,
        Request::Hello { .. } => Some(MessageKind::Hello),
        Request::Auth(_) => Some(MessageKind::Auth),
        Request::Attach(_) => Some(MessageKind::Attach),
        Request::Resume(_) => Some(MessageKind::Resume),
        Request::Resize(_) => Some(MessageKind::Resize),
        Request::Detach => Some(MessageKind::Detach),
        Request::Close => Some(MessageKind::Close),
        Request::Ping { .. } => Some(MessageKind::Ping),
        Request::Pong => Some(MessageKind::Pong),
        Request::Error => Some(MessageKind::Error),
    }
}

/// What the server is capable of, with or without client identifiers.
pub open spec fn server_capabilities(client_ids: bool) -> Seq<Seq<char>> {
    if client_ids {
        seq!["stdin-bytes"@, "resume-v1"@, "client-id-v1"@]
    } else {
        seq!["stdin-bytes"@, "resume-v1"@]
    }
}

/// Whether a client is capable of client identifiers.
pub open spec fn offers_client_id(capabilities: Seq<Seq<char>>) -> bool {
    capabilities.contains("client-id-v1"@)
}

/// Whether a refusal says that what the message carries could not be read, and why.
pub open spec fn refuses_payload(step: Step, kind: MessageKind, why: Seq<char>) -> bool {
    step matches Step::Refuse(Refusal::BadPayload { kind: k, why: w }) && k == kind && w@ == why
}

/// The client identifier that counts on a connection: none unless it was negotiated.
pub open spec fn effective_client(negotiated: bool, client_id: Option<Uuid>) -> Option<Uuid> {
    if negotiated {
        client_id
    } else {
        None
    }
}

/// What `HELLO` does.
pub open spec fn hello_handled(
    moved: ConnView,
    server: ServerView,
    capabilities: Seq<Seq<char>>,
    step: Step,
    conn2: ConnView,
    server2: ServerView,
) -> bool {
    let negotiated = offers_client_id(capabilities);
    &&& step matches Step::Reply(Reply::HelloAck { capabilities: ours, session_timeout_seconds })
    &&& texts(ours@) == server_capabilities(negotiated)
    &&& session_timeout_seconds == server.session_timeout.secs()
    &&& conn2 == (ConnView { negotiated, ..moved })
    &&& server2 == server
}

/// What `AUTH` does: a token that is accepted is spent, and a token to resume with is issued.
pub open spec fn auth_handled(
    moved: ConnView,
    server: ServerView,
    request: AuthRequest,
    now: Timestamp,
    step: Step,
    conn2: ConnView,
    server2: ServerView,
) -> bool {
    match auth_outcome(server.tokens, request.token@, server.session_id, server.owner, now) {
        Err(e) => {
            &&& step == Step::Refuse(Refusal::AuthToken(e))
            &&& conn2 == moved
            &&& server2 == server
        },
        Ok(()) => {
            &&& step matches Step::Reply(
                Reply::AuthOk { session_id, resume_token, resume_token_expires_in_seconds },
            )
            &&& session_id == server.session_id
            &&& is_token_text(resume_token@)
            &&& resume_token_expires_in_seconds == server.resume_token_ttl.secs()
            &&& conn2 == (ConnView {
                authed: true,
                client_id: effective_client(moved.negotiated, request.client_id),
                ..moved
            })
            &&& issues(
                after_auth(
                    server.tokens,
                    request.token@,
                    server.session_id,
                    server.owner,
                    now,
                ),
                server2.tokens,
                resume_token@,
                TokenType::Resume,
                server.session_id,
                server.owner,
                server.resume_token_ttl,
            )
            &&& server2 == (ServerView { tokens: server2.tokens, ..server })
        },
    }
}

/// What `ATTACH` does.
pub open spec fn attach_handled(
    moved: ConnView,
    server: ServerView,
    request: AttachRequest,
    step: Step,
    conn2: ConnView,
    server2: ServerView,
) -> bool {
    if request.session_id != server.session_id {
        &&& step == Step::Refuse(Refusal::WrongSession)
        &&& conn2 == moved
        &&& server2 == server
    } else {
        match attach_outcome(server.sessions, server.session_id) {
            Err(e) => {
                &&& step == Step::Refuse(Refusal::Session(e))
                &&& conn2 == moved
                &&& server2 == server
            },
            Ok(epoch) => {
                &&& step == (Step::Attached { session_id: request.session_id })
                &&& conn2 == (ConnView { attached_epoch: Some(epoch), ..moved })
                &&& server2 == (ServerView {
                    sessions: after_attach(
                        server.sessions,
                        server.session_id,
                        moved.conn_id,
                        moved.client_id,
                    ),
                    detached_at: None,
                    ..server
                })
            },
        }
    }
}

/// What `RESUME` does.
pub open spec fn resume_handled(
    moved: ConnView,
    server: ServerView,
    request: ResumeRequest,
    now: Timestamp,
    step: Step,
    conn2: ConnView,
    server2: ServerView,
) -> bool {
    let client = effective_client(moved.negotiated, request.client_id);
    if request.session_id != server.session_id {
        &&& step == Step::Refuse(Refusal::WrongSession)
        &&& conn2 == moved
        &&& server2 == server
    } else {
        match resume_outcome(
            server.tokens,
            request.resume_token@,
            server.session_id,
            server.owner,
            now,
        ) {
            Err(e) => {
                &&& step == Step::Refuse(Refusal::ResumeToken(e))
                &&& conn2 == moved
                &&& server2 == server
            },
            Ok(()) => match return_outcome(server.sessions, server.session_id, client) {
                Err(e) => {
                    &&& step == Step::Refuse(Refusal::Session(e))
                    &&& conn2 == moved
                    &&& server2 == server
                },
                Ok(attachment) => {
                    &&& step == (Step::Resumed {
                        session_id: request.session_id,
                        replay_bytes: server.replay.len() as usize,
                        replaced: attachment.replaced,
                    })
                    &&& server.replay.len() <= usize::MAX
                    &&& conn2 == (ConnView { attached_epoch: Some(attachment.epoch), ..moved })
                    &&& server2 == (ServerView {
                        sessions: after_return(
                            server.sessions,
                            server.session_id,
                            moved.conn_id,
                            client,
                        ),
                        detached_at: None,
                        ..server
                    })
                },
            },
        }
    }
}

/// What `DETACH` does.
pub open spec fn detach_handled(
    moved: ConnView,
    server: ServerView,
    now: Timestamp,
    step: Step,
    conn2: ConnView,
    server2: ServerView,
) -> bool {
    match detach_outcome(server.sessions, server.session_id, moved.conn_id) {
        Err(e) => step == Step::Fail(e) && conn2 == moved && server2 == server,
        Ok(()) => {
            &&& step is Detached
            &&& conn2 == (ConnView { cleanup_reason: CleanupReason::ExplicitDetach, ..moved })
            &&& server2 == (ServerView {
                sessions: after_detach(server.sessions, server.session_id, moved.conn_id),
                detached_at: Some(now),
                ..server
            })
        },
    }
}

/// What `CLOSE` does.
pub open spec fn close_handled(
    moved: ConnView,
    server: ServerView,
    step: Step,
    conn2: ConnView,
    server2: ServerView,
) -> bool {
    &&& conn2 == moved
    &&& match end_outcome(server.sessions, server.session_id) {
        Err(e) => step == Step::Fail(e) && server2 == server,
        Ok(()) => {
            &&& step is Closed
            &&& server2 == (ServerView {
                sessions: after_end(
                    server.sessions,
                    server.session_id,
                    SessionState::Terminated,
                ),
                ..server
            })
        },
    }
}

/// What a request that may be sent now does, once the connection has moved on to the next state.
pub open spec fn accepted(
    moved: ConnView,
    server: ServerView,
    request: Request,
    now: Timestamp,
    step: Step,
    conn2: ConnView,
    server2: ServerView,
) -> bool {
    let unchanged = conn2 == moved && server2 == server;
    match request {
        Request::Unknown => false,
        Request::Hello { capabilities } => hello_handled(
            moved,
            server,
            texts(capabilities@),
            step,
            conn2,
            server2,
        ),
        Request::Auth(Err(why)) => refuses_payload(step, MessageKind::Auth, why@) && unchanged,
        Request::Auth(Ok(r)) => auth_handled(moved, server, r, now, step, conn2, server2),
        Request::Attach(read) => if !moved.authed {
            step == Step::Refuse(Refusal::AttachBeforeAuth) && unchanged
        } else {
            match read {
                Err(why) => refuses_payload(step, MessageKind::Attach, why@) && unchanged,
                Ok(r) => attach_handled(moved, server, r, step, conn2, server2),
            }
        },
        Request::Resume(read) => if !moved.authed {
            step == Step::Refuse(Refusal::ResumeBeforeAuth) && unchanged
        } else {
            match read {
                Err(why) => refuses_payload(step, MessageKind::Resume, why@) && unchanged,
                Ok(r) => resume_handled(moved, server, r, now, step, conn2, server2),
            }
        },
        Request::Resize(Err(why)) => refuses_payload(step, MessageKind::Resize, why@) && unchanged,
        Request::Resize(Ok(r)) => step == (Step::Resize { rows: r.rows, cols: r.cols })
            && unchanged,
        Request::Detach => detach_handled(moved, server, now, step, conn2, server2),
        Request::Close => close_handled(moved, server, step, conn2, server2),
        Request::Ping { nonce } => step == Step::Reply(Reply::Pong { nonce }) && unchanged,
        Request::Pong | Request::Error => step is Ignore && unchanged,
    }
}

/// What a request does to a connection and to the server.
pub open spec fn handled(
    conn: ConnView,
    server: ServerView,
    request: Request,
    now: Timestamp,
    step: Step,
    conn2: ConnView,
    server2: ServerView,
) -> bool {
    match request_kind(request) {
        None => {
            &&& step == Step::Refuse(Refusal::UnknownMessage)
            &&& conn2 == conn
            &&& server2 == server
        },
        Some(kind) => if !allowed(conn.state, kind) {
            &&& step == Step::Refuse(Refusal::OutOfOrder)
            &&& conn2 == conn
            &&& server2 == server
        } else {
            accepted(
                ConnView { state: advance(conn.state, kind), ..conn },
                server,
                request,
                now,
                step,
                conn2,
                server2,
            )
        },
    }
}

impl Refusal {
    /// The error that is sent.
    pub open spec fn sends(self, e: NeoshdError) -> bool {
        match self {
            Refusal::UnknownMessage => e matches NeoshdError::Protocol(m) && m@
                == "unknown control message"@,
            Refusal::OutOfOrder => e matches NeoshdError::Protocol(m) && m@
                == "out-of-order control message"@,
            Refusal::BadPayload { kind, why } => e matches NeoshdError::Protocol(m) && m@ == "bad "@
                + wire_name(kind) + " payload: "@ + why@,
            Refusal::AttachBeforeAuth => e matches NeoshdError::Protocol(m) && m@
                == "ATTACH before AUTH"@,
            Refusal::ResumeBeforeAuth => e matches NeoshdError::Protocol(m) && m@
                == "RESUME before AUTH"@,
            Refusal::AuthToken(_) => e is AuthFailed,
            Refusal::WrongSession => e is SessionNotFound,
            Refusal::ResumeToken(t) => e == resume_error(t),
            Refusal::Session(s) => e == session_error(s),
        }
    }

    /// The error that is sent.
    pub fn error(&self) -> (e: NeoshdError)
        ensures
            self.sends(e),
    {
        match self {
            Refusal::UnknownMessage => NeoshdError::Protocol("unknown control message".to_owned()),
            Refusal::OutOfOrder => NeoshdError::Protocol("out-of-order control message".to_owned()),
            Refusal::BadPayload { kind, why } => {
                let mut m = concat("bad ", kind_name(*kind));
                m.append(" payload: ");
                m.append(why.as_str());
                NeoshdError::Protocol(m)
            },
            Refusal::AttachBeforeAuth => NeoshdError::Protocol("ATTACH before AUTH".to_owned()),
            Refusal::ResumeBeforeAuth => NeoshdError::Protocol("RESUME before AUTH".to_owned()),
            Refusal::AuthToken(e) => map_token_auth_error(*e),
            Refusal::WrongSession => NeoshdError::SessionNotFound,
            Refusal::ResumeToken(e) => map_token_resume_error(*e),
            Refusal::Session(e) => map_session_error(*e),
        }
    }

    /// Why a session could not be resumed, as the log names it.
    pub open spec fn resume_failure(self) -> Option<Seq<char>> {
        match self {
            Refusal::WrongSession => Some("session_not_found"@),
            Refusal::ResumeToken(TokenError::NotFound) => Some("resume_token_not_found"@),
            Refusal::ResumeToken(TokenError::Expired) => Some("resume_token_expired"@),
            Refusal::ResumeToken(TokenError::Revoked) => Some("resume_token_revoked"@),
            Refusal::ResumeToken(TokenError::Consumed) => Some("resume_token_consumed"@),
            Refusal::ResumeToken(TokenError::BindingMismatch) => Some(
                "resume_token_binding_mismatch"@,
            ),
            Refusal::ResumeToken(TokenError::TypeMismatch) => Some("resume_token_type_mismatch"@),
            Refusal::Session(_) => Some("attach_denied"@),
            _ => None,
        }
    }

    /// Why a session could not be resumed, as the log names it.
    pub fn resume_failure_reason(&self) -> (reason: Option<&'static str>)
        ensures
            match reason {
                Some(r) => self.resume_failure() == Some(r@),
                None => self.resume_failure() is None,
            },
    {
        match self {
            Refusal::WrongSession => Some("session_not_found"),
            Refusal::ResumeToken(e) => Some(
                match e {
                    TokenError::NotFound => "resume_token_not_found",
                    TokenError::Expired => "resume_token_expired",
                    TokenError::Revoked => "resume_token_revoked",
                    TokenError::Consumed => "resume_token_consumed",
                    TokenError::BindingMismatch => "resume_token_binding_mismatch",
                    TokenError::TypeMismatch => "resume_token_type_mismatch",
                },
            ),
            Refusal::Session(_) => Some("attach_denied"),
            _ => None,
        }
    }
}

impl Refusal {
    /// What the log says of a session that could not be resumed: the text of the error underneath.
    pub open spec fn resume_failure_text(self) -> Option<Seq<char>> {
        match self {
            Refusal::WrongSession => Some(NeoshdError::SessionNotFound.text()),
            Refusal::ResumeToken(e) => Some(e.text()),
            Refusal::Session(e) => Some(e.text()),
            _ => None,
        }
    }

    /// What the log says of a session that could not be resumed.
    pub fn resume_failure_detail(&self) -> (detail: Option<String>)
        ensures
            match detail {
                Some(d) => self.resume_failure_text() == Some(d@),
                None => self.resume_failure_text() is None,
            },
            detail is Some <==> self.resume_failure() is Some,
    {
        match self {
            Refusal::WrongSession => Some(NeoshdError::SessionNotFound.message()),
            Refusal::ResumeToken(e) => Some(e.message()),
            Refusal::Session(e) => Some(e.message()),
            _ => None,
        }
    }
}

/// The `type` that a message of this kind carries.
fn kind_name(kind: MessageKind) -> (name: &'static str)
    ensures
        name@ == wire_name(kind),
{
    match kind {
        MessageKind::Hello => "HELLO",
        MessageKind::Auth => "AUTH",
        MessageKind::Attach => "ATTACH",
        MessageKind::Resume => "RESUME",
        MessageKind::Resize => "RESIZE",
        MessageKind::Detach => "DETACH",
        MessageKind::Close => "CLOSE",
        MessageKind::Ping => "PING",
        MessageKind::Pong => "PONG",
        MessageKind::Error => "ERROR",
    }
}

impl Request {
    /// The kind of the request.
    pub fn kind(&self) -> (kind: Option<MessageKind>)
        ensures
            kind == request_kind(*self),
    {
        match self {
            Request::Unknown => None,
            Request::Hello { .. } => Some(MessageKind::Hello),
            Request::Auth(_) => Some(MessageKind::Auth),
            Request::Attach(_) => Some(MessageKind::Attach),
            Request::Resume(_) => Some(MessageKind::Resume),
            Request::Resize(_) => Some(MessageKind::Resize),
            Request::Detach => Some(MessageKind::Detach),
            Request::Close => Some(MessageKind::Close),
            Request::Ping { .. } => Some(MessageKind::Ping),
            Request::Pong => Some(MessageKind::Pong),
            Request::Error => Some(MessageKind::Error),
        }
    }
}

/// Whether a client is capable of client identifiers.
pub fn negotiate_client_id(capabilities: &Vec<String>) -> (yes: bool)
    ensures
        yes == offers_client_id(texts(capabilities@)),
{
    let mut i: usize = 0;
    while i < capabilities.len()
        invariant
            i <= capabilities@.len(),
            forall|k: int| 0 <= k < i ==> texts(capabilities@)[k] != "client-id-v1"@,
        decreases capabilities@.len() - i,
    {
        assert(texts(capabilities@)[i as int] == capabilities@[i as int]@);
        if str_eq(capabilities[i].as_str(), "client-id-v1") {
            assert(texts(capabilities@).contains("client-id-v1"@));
            return true;
        }
        i += 1;
    }
    assert(!texts(capabilities@).contains("client-id-v1"@));
    false
}

/// What the server is capable of.
pub fn advertised_capabilities(client_ids: bool) -> (list: Vec<String>)
    ensures
        texts(list@) == server_capabilities(client_ids),
{
    let mut list: Vec<String> = Vec::new();
    list.push("stdin-bytes".to_owned());
    list.push("resume-v1".to_owned());
    if client_ids {
        list.push("client-id-v1".to_owned());
    }
    assert(texts(list@) =~= server_capabilities(client_ids));
    list
}

impl Connection {
    /// A connection that has just been opened.
    pub fn new(conn_id: Uuid) -> (conn: Connection)
        ensures
            conn@ == opened(conn_id),
    {
        Connection {
            conn_id,
            dispatcher: Dispatcher::default(),
            attached_epoch: None,
            authed: false,
            negotiated: false,
            client_id: None,
            cleanup_reason: CleanupReason::ConnectionEnd,
        }
    }

    /// The identifier of the connection.
    pub fn conn_id(&self) -> (id: Uuid)
        ensures
            id == self@.conn_id,
    {
        self.conn_id
    }

    /// Whether client identifiers were negotiated.
    pub fn negotiated(&self) -> (yes: bool)
        ensures
            yes == self@.negotiated,
    {
        self.negotiated
    }

    /// Handles a request, and tells what to do next.
    pub fn handle(&mut self, st: &mut ServerState, request: Request, now: Timestamp) -> (step: Step)
        ensures
            handled(old(self)@, old(st)@, request, now, step, final(self)@, final(st)@),
    {
        let kind = match request.kind() {
            Some(kind) => kind,
            None => {
                return Step::Refuse(Refusal::UnknownMessage);
            },
        };
        if self.dispatcher.on_message(kind).is_err() {
            return Step::Refuse(Refusal::OutOfOrder);
        }
        match request {
            Request::Unknown => Step::Ignore,
            Request::Hello { capabilities } => {
                self.negotiated = negotiate_client_id(&capabilities);
                Step::Reply(
                    Reply::HelloAck {
                        capabilities: advertised_capabilities(self.negotiated),
                        session_timeout_seconds: st.session_timeout.as_secs(),
                    },
                )
            },
            Request::Auth(read) => match read {
                Ok(auth) => self.authenticate(st, auth, now),
                Err(why) => bad_payload(MessageKind::Auth, why),
            },
            Request::Attach(read) => if !self.authed {
                Step::Refuse(Refusal::AttachBeforeAuth)
            } else {
                match read {
                    Ok(attach) => self.attach(st, attach),
                    Err(why) => bad_payload(MessageKind::Attach, why),
                }
            },
            Request::Resume(read) => if !self.authed {
                Step::Refuse(Refusal::ResumeBeforeAuth)
            } else {
                match read {
                    Ok(resume) => self.resume(st, resume, now),
                    Err(why) => bad_payload(MessageKind::Resume, why),
                }
            },
            Request::Resize(read) => match read {
                Ok(size) => Step::Resize { rows: size.rows, cols: size.cols },
                Err(why) => bad_payload(MessageKind::Resize, why),
            },
            Request::Detach => match st.sessions.detach(st.session_id, self.conn_id) {
                Ok(()) => {
                    st.detached_at = Some(now);
                    self.cleanup_reason = CleanupReason::ExplicitDetach;
                    Step::Detached
                },
                Err(e) => Step::Fail(e),
            },
            Request::Close => match st.sessions.terminate(st.session_id) {
                Ok(()) => Step::Closed,
                Err(e) => Step::Fail(e),
            },
            Request::Ping { nonce } => Step::Reply(Reply::Pong { nonce }),
            Request::Pong | Request::Error => Step::Ignore,
        }
    }

    /// Handles `AUTH`.
    fn authenticate(&mut self, st: &mut ServerState, request: AuthRequest, now: Timestamp) -> (step:
        Step)
        ensures
            auth_handled(old(self)@, old(st)@, request, now, step, final(self)@, final(st)@),
    {
        let accepted = st.tokens.validate_and_consume_auth(
            request.token.as_str(),
            st.session_id,
            st.owner_user.as_str(),
            now,
        );
        match accepted {
            Err(e) => Step::Refuse(Refusal::AuthToken(e)),
            Ok(()) => {
                let resume_token = st.issue_resume_token();
                self.authed = true;
                self.client_id = if self.negotiated {
                    request.client_id
                } else {
                    None
                };
                Step::Reply(
                    Reply::AuthOk {
                        session_id: st.session_id,
                        resume_token,
                        resume_token_expires_in_seconds: st.resume_token_ttl.as_secs(),
                    },
                )
            },
        }
    }

    /// Handles `ATTACH` on a connection that has authenticated.
    fn attach(&mut self, st: &mut ServerState, request: AttachRequest) -> (step: Step)
        ensures
            attach_handled(old(self)@, old(st)@, request, step, final(self)@, final(st)@),
    {
        if request.session_id != st.session_id {
            return Step::Refuse(Refusal::WrongSession);
        }
        match st.sessions.attach_client(st.session_id, self.conn_id, self.client_id) {
            Err(e) => Step::Refuse(Refusal::Session(e)),
            Ok(epoch) => {
                st.detached_at = None;
                self.attached_epoch = Some(epoch);
                Step::Attached { session_id: request.session_id }
            },
        }
    }

    /// Handles `RESUME` on a connection that has authenticated.
    fn resume(&mut self, st: &mut ServerState, request: ResumeRequest, now: Timestamp) -> (step:
        Step)
        ensures
            resume_handled(old(self)@, old(st)@, request, now, step, final(self)@, final(st)@),
    {
        if request.session_id != st.session_id {
            return Step::Refuse(Refusal::WrongSession);
        }
        let accepted = st.tokens.validate_resume(
            request.resume_token.as_str(),
            st.session_id,
            st.owner_user.as_str(),
            now,
        );
        if let Err(e) = accepted {
            return Step::Refuse(Refusal::ResumeToken(e));
        }
        let client = if self.negotiated {
            request.client_id
        } else {
            None
        };
        match st.sessions.attach_returning(st.session_id, self.conn_id, client) {
            Err(e) => Step::Refuse(Refusal::Session(e)),
            Ok(attachment) => {
                st.detached_at = None;
                self.attached_epoch = Some(attachment.epoch);
                Step::Resumed {
                    session_id: request.session_id,
                    replay_bytes: st.replay.len(),
                    replaced: attachment.replaced,
                }
            },
        }
    }

    /// Cleans up after the connection, if it ever was attached.
    pub fn finish(&self, st: &mut ServerState, now: Timestamp)
        ensures
            final(st)@ == finished(self@, old(st)@, now),
    {
        if let Some(epoch) = self.attached_epoch {
            finalize_connection_cleanup_at(st, self.conn_id, epoch, self.cleanup_reason, now);
        }
    }
}

/// The server after a connection was cleaned up.
pub open spec fn finished(conn: ConnView, server: ServerView, now: Timestamp) -> ServerView {
    match conn.attached_epoch {
        Some(epoch) => after_connection(server, conn.conn_id, epoch, conn.cleanup_reason, now),
        None => server,
    }
}

/// The refusal of a message whose payload cannot be read.
fn bad_payload(kind: MessageKind, why: String) -> (step: Step)
    ensures
        refuses_payload(step, kind, why@),
{
    Step::Refuse(Refusal::BadPayload { kind, why })
}

} // verus!
