//! What can go wrong on the server, and what clients are told of it.

use crate::protocol::messages::ErrorMessage;
use crate::session::manager::SessionError;
use crate::text::concat;
use crate::token::service::TokenError;
use vstd::prelude::*;

verus! {

/// What went wrong on the server.
#[derive(Debug)]
pub enum NeoshdError {
    Config(String),
    Io(String),
    Quinn(String),
    Protocol(String),
    AuthFailed,
    SessionNotFound,
    SessionExpired,
    AttachDenied,
    Internal(String),
}

impl NeoshdError {
    /// What the error says.
    pub open spec fn text(self) -> Seq<char> {
        match self {
            NeoshdError::Config(m) => "config error: "@ + m@,
            NeoshdError::Io(m) => "io error: "@ + m@,
            NeoshdError::Quinn(m) => "quic error: "@ + m@,
            NeoshdError::Protocol(m) => "protocol error: "@ + m@,
            NeoshdError::AuthFailed => "auth failed"@,
            NeoshdError::SessionNotFound => "session not found"@,
            NeoshdError::SessionExpired => "session expired"@,
            NeoshdError::AttachDenied => "attach denied"@,
            NeoshdError::Internal(m) => "internal error: "@ + m@,
        }
    }

    /// What the error says.
    pub fn message(&self) -> (m: String)
        ensures
            m@ == self.text(),
    {
        match self {
            NeoshdError::Config(m) => concat("config error: ", m.as_str()),
            NeoshdError::Io(m) => concat("io error: ", m.as_str()),
            NeoshdError::Quinn(m) => concat("quic error: ", m.as_str()),
            NeoshdError::Protocol(m) => concat("protocol error: ", m.as_str()),
            NeoshdError::AuthFailed => "auth failed".to_owned(),
            NeoshdError::SessionNotFound => "session not found".to_owned(),
            NeoshdError::SessionExpired => "session expired".to_owned(),
            NeoshdError::AttachDenied => "attach denied".to_owned(),
            NeoshdError::Internal(m) => concat("internal error: ", m.as_str()),
        }
    }

    /// The code that clients see.
    pub open spec fn code(self) -> Seq<char> {
        match self {
            NeoshdError::AuthFailed => "AUTH_FAILED"@,
            NeoshdError::SessionNotFound => "SESSION_NOT_FOUND"@,
            NeoshdError::SessionExpired => "SESSION_EXPIRED"@,
            NeoshdError::AttachDenied => "ATTACH_DENIED"@,
            NeoshdError::Protocol(_) => "PROTOCOL_ERROR"@,
            _ => "INTERNAL_ERROR"@,
        }
    }

    /// Whether the client's request was in order, so that it may try again.
    pub open spec fn is_internal(self) -> bool {
        self is Config || self is Io || self is Quinn || self is Internal
    }
}

/// The `ERROR` message for an error.
pub fn error_frame_for(err: &NeoshdError) -> (frame: ErrorMessage)
    ensures
        frame.msg_type@ == "ERROR"@,
        frame.code@ == err.code(),
        frame.message@ == err.text(),
        frame.retryable == err.is_internal(),
{
    let (code, retryable) = match err {
        NeoshdError::AuthFailed => ("AUTH_FAILED", false),
        NeoshdError::SessionNotFound => ("SESSION_NOT_FOUND", false),
        NeoshdError::SessionExpired => ("SESSION_EXPIRED", false),
        NeoshdError::AttachDenied => ("ATTACH_DENIED", false),
        NeoshdError::Protocol(_) => ("PROTOCOL_ERROR", false),
        NeoshdError::Internal(_) | NeoshdError::Io(_) | NeoshdError::Quinn(_)
        | NeoshdError::Config(_) => ("INTERNAL_ERROR", true),
    };
    ErrorMessage { msg_type: "ERROR", code, message: err.message(), retryable }
}

/// What a client is told when its `AUTH` token is refused: never why.
pub fn map_token_auth_error(err: TokenError) -> (e: NeoshdError)
    ensures
        e == NeoshdError::AuthFailed,
{
    match err {
        TokenError::BindingMismatch | TokenError::Consumed | TokenError::Expired
        | TokenError::NotFound | TokenError::Revoked | TokenError::TypeMismatch => {
            NeoshdError::AuthFailed
        },
    }
}

/// What a client is told when its `RESUME` token is refused.
pub open spec fn resume_error(err: TokenError) -> NeoshdError {
    match err {
        TokenError::Expired | TokenError::Revoked => NeoshdError::SessionExpired,
        _ => NeoshdError::AuthFailed,
    }
}

/// What a client is told when its `RESUME` token is refused.
pub fn map_token_resume_error(err: TokenError) -> (e: NeoshdError)
    ensures
        e == resume_error(err),
{
    match err {
        TokenError::Expired | TokenError::Revoked => NeoshdError::SessionExpired,
        TokenError::BindingMismatch | TokenError::Consumed | TokenError::NotFound
        | TokenError::TypeMismatch => NeoshdError::AuthFailed,
    }
}

/// What a client is told when its session refuses an operation.
pub open spec fn session_error(err: SessionError) -> NeoshdError {
    match err {
        SessionError::NotFound => NeoshdError::SessionNotFound,
        SessionError::AttachDenied => NeoshdError::AttachDenied,
        SessionError::InvalidState => NeoshdError::SessionExpired,
        SessionError::PermissionDenied => NeoshdError::AuthFailed,
    }
}

/// What a client is told when its session refuses an operation.
pub fn map_session_error(err: SessionError) -> (e: NeoshdError)
    ensures
        e == session_error(err),
{
    match err {
        SessionError::NotFound => NeoshdError::SessionNotFound,
        SessionError::AttachDenied => NeoshdError::AttachDenied,
        SessionError::InvalidState => NeoshdError::SessionExpired,
        SessionError::PermissionDenied => NeoshdError::AuthFailed,
    }
}

/// A client may try again exactly if the code is `INTERNAL_ERROR`.
pub proof fn law_retryable_is_internal(err: NeoshdError)
    ensures
        err.is_internal() <==> err.code() == "INTERNAL_ERROR"@,
{
    reveal_strlit("INTERNAL_ERROR");
    reveal_strlit("AUTH_FAILED");
    reveal_strlit("SESSION_NOT_FOUND");
    reveal_strlit("SESSION_EXPIRED");
    reveal_strlit("ATTACH_DENIED");
    reveal_strlit("PROTOCOL_ERROR");
    assert("INTERNAL_ERROR"@[0] == 'I');
    assert("AUTH_FAILED"@[0] == 'A' && "ATTACH_DENIED"@[0] == 'A');
    assert("SESSION_NOT_FOUND"@[0] == 'S' && "SESSION_EXPIRED"@[0] == 'S');
    assert("PROTOCOL_ERROR"@[0] == 'P');
}

/// What clients learn of a refusal. Of a token that does not let them in they learn nothing but
/// that, unless it was good to resume with once; of a session they learn whether it is unknown,
/// taken or over. None of these is worth trying again.
pub proof fn law_what_clients_are_told(token: TokenError, session: SessionError)
    ensures
        resume_error(token) is SessionExpired <==> token == TokenError::Expired || token
            == TokenError::Revoked,
        resume_error(token) is AuthFailed <==> token != TokenError::Expired && token
            != TokenError::Revoked,
        session_error(session) is SessionNotFound <==> session == SessionError::NotFound,
        session_error(session) is AttachDenied <==> session == SessionError::AttachDenied,
        session_error(session) is SessionExpired <==> session == SessionError::InvalidState,
        session_error(session) is AuthFailed <==> session == SessionError::PermissionDenied,
        !resume_error(token).is_internal(),
        !session_error(session).is_internal(),
        NeoshdError::AuthFailed.code() == "AUTH_FAILED"@,
        NeoshdError::SessionNotFound.code() == "SESSION_NOT_FOUND"@,
        NeoshdError::SessionExpired.code() == "SESSION_EXPIRED"@,
        NeoshdError::AttachDenied.code() == "ATTACH_DENIED"@,
{
}

/// An error that carries a message says it whole, behind the part of the server that it comes from,
/// and only what went wrong inside the server has the code `INTERNAL_ERROR`.
pub proof fn law_messages_are_told_whole(m: String)
    ensures
        NeoshdError::Config(m).text() == "config error: "@ + m@,
        NeoshdError::Io(m).text() == "io error: "@ + m@,
        NeoshdError::Quinn(m).text() == "quic error: "@ + m@,
        NeoshdError::Protocol(m).text() == "protocol error: "@ + m@,
        NeoshdError::Internal(m).text() == "internal error: "@ + m@,
        NeoshdError::Protocol(m).code() == "PROTOCOL_ERROR"@,
        NeoshdError::Config(m).code() == "INTERNAL_ERROR"@,
        NeoshdError::Io(m).code() == "INTERNAL_ERROR"@,
        NeoshdError::Quinn(m).code() == "INTERNAL_ERROR"@,
        NeoshdError::Internal(m).code() == "INTERNAL_ERROR"@,
        !NeoshdError::Protocol(m).is_internal(),
{
}

} // verus!
