//! What each message of a client does, and what follows from it for the next ones.

#[allow(unused_imports)]
use crate::ids::Uuid;
#[allow(unused_imports)]
use crate::protocol::dispatcher::ConnectionState;
#[allow(unused_imports)]
use crate::protocol::messages::MessageKind;
#[allow(unused_imports)]
use crate::server::connection::{
    finished, handled, opened, AttachRequest, AuthRequest, ConnView, Refusal, Reply, Request,
    ResizeRequest, ResumeRequest, Step,
};
#[allow(unused_imports)]
use crate::server::error::NeoshdError;
#[allow(unused_imports)]
use crate::server::laws::is_sound;
#[allow(unused_imports)]
use crate::server::state::{CleanupReason, ServerView};
#[allow(unused_imports)]
use crate::session::laws::{all_consistent, is_consistent};
#[allow(unused_imports)]
use crate::session::manager::{SessionError, SessionState};
#[allow(unused_imports)]
use crate::text::texts;
#[allow(unused_imports)]
use crate::time::Timestamp;
#[allow(unused_imports)]
use crate::token::service::{auth_outcome, resume_outcome, TokenError, TokenType};
use vstd::prelude::*;

verus! {

/// `HELLO` is answered with what the server is capable of, and client identifiers count on the
/// connection exactly if the client is capable of them too, whatever else it is capable of.
pub proof fn law_hello_negotiates(
    conn: ConnView,
    server: ServerView,
    capabilities: Vec<String>,
    now: Timestamp,
    step: Step,
    conn2: ConnView,
    server2: ServerView,
)
    requires
        conn.state == ConnectionState::AwaitHello,
        handled(conn, server, Request::Hello { capabilities }, now, step, conn2, server2),
    ensures
        ({
            let offered = exists|i: int|
                0 <= i < capabilities@.len() && (#[trigger] capabilities@[i])@ == "client-id-v1"@;
            &&& conn2.negotiated <==> offered
            &&& step matches Step::Reply(
                Reply::HelloAck { capabilities: ours, session_timeout_seconds },
            )
            &&& session_timeout_seconds == server.session_timeout.nanos() / 1_000_000_000
            &&& ours@.len() == if offered {
                3int
            } else {
                2int
            }
            &&& ours@[0]@ == "stdin-bytes"@
            &&& ours@[1]@ == "resume-v1"@
            &&& offered ==> ours@[2]@ == "client-id-v1"@
        }),
        conn2.state == ConnectionState::AwaitAuth,
        !conn.authed ==> !conn2.authed,
        conn2.attached_epoch == conn.attached_epoch,
        conn2.client_id == conn.client_id,
        server2 == server,
{
    let all = texts(capabilities@);
    if all.contains("client-id-v1"@) {
        let i = choose|i: int| 0 <= i < all.len() && all[i] == "client-id-v1"@;
        assert(capabilities@[i]@ == "client-id-v1"@);
    }
    assert forall|i: int|
        0 <= i < capabilities@.len() && (#[trigger] capabilities@[i])@
            == "client-id-v1"@ implies all.contains("client-id-v1"@) by {
        assert(all[i] == "client-id-v1"@);
    }
    let ours = step->Reply_0->HelloAck_capabilities@;
    assert(texts(ours).len() == ours.len());
    assert(texts(ours)[0] == ours[0]@);
    assert(texts(ours)[1] == ours[1]@);
    if all.contains("client-id-v1"@) {
        assert(texts(ours)[2] == ours[2]@);
    }
}

/// `AUTH` with a token that is good lets the client go on, under the identifier that it gives if
/// identifiers were negotiated and under none otherwise; it is handed a token to resume with that
/// lasts as long as is said. With any other token nothing happens but that the client is refused,
/// and it is not told why.
pub proof fn law_auth_admits(
    conn: ConnView,
    server: ServerView,
    request: AuthRequest,
    now: Timestamp,
    step: Step,
    conn2: ConnView,
    server2: ServerView,
    told: NeoshdError,
)
    requires
        conn.state == ConnectionState::AwaitAuth,
        handled(conn, server, Request::Auth(Ok(request)), now, step, conn2, server2),
        step matches Step::Refuse(refusal) ==> refusal.sends(told),
    ensures
        ({
            let good = auth_outcome(
                server.tokens,
                request.token@,
                server.session_id,
                server.owner,
                now,
            ) is Ok;
            &&& good ==> {
                &&& conn2.authed
                &&& conn2.client_id == if conn.negotiated {
                    request.client_id
                } else {
                    None
                }
                &&& step matches Step::Reply(
                    Reply::AuthOk { session_id, resume_token, resume_token_expires_in_seconds },
                )
                &&& session_id == server.session_id
                &&& resume_token_expires_in_seconds == server.resume_token_ttl.nanos()
                    / 1_000_000_000
                &&& server2.tokens.len() == server.tokens.len() + 1
                &&& server2.tokens.last().token_type == TokenType::Resume
                &&& server2.tokens.last().session_id == server.session_id
                &&& server2.tokens.last().user == server.owner
                &&& server2.tokens.last().expires_at.nanos
                    == server2.tokens.last().created_at.nanos + server.resume_token_ttl.nanos()
            }
            &&& !good ==> {
                &&& step is Refuse
                &&& told is AuthFailed
                &&& conn2.authed == conn.authed
                &&& server2 == server
            }
        }),
        conn2.state == ConnectionState::AwaitAttachOrResume,
        conn2.negotiated == conn.negotiated,
        conn2.attached_epoch == conn.attached_epoch,
        server2.sessions == server.sessions,
        server2.replay == server.replay,
        server2.detached_at == server.detached_at,
{
}

/// `ATTACH` gives an authenticated client the session, if it names it and nobody has it and it is
/// not over; the session then belongs to the connection and to the client that it authenticated
/// as. Otherwise the client is told why not, and nothing changes.
pub proof fn law_attach_gives_the_session(
    conn: ConnView,
    server: ServerView,
    request: AttachRequest,
    now: Timestamp,
    step: Step,
    conn2: ConnView,
    server2: ServerView,
    told: NeoshdError,
)
    requires
        is_sound(server),
        conn.state == ConnectionState::AwaitAttachOrResume,
        handled(conn, server, Request::Attach(Ok(request)), now, step, conn2, server2),
        step matches Step::Refuse(refusal) ==> refusal.sends(told),
    ensures
        ({
            let session = server.sessions[server.session_id];
            let after = server2.sessions[server.session_id];
            let named = request.session_id == server.session_id;
            let over = session.state == SessionState::Expired || session.state
                == SessionState::Terminated;
            let free = session.attached_conn_id is None;
            &&& step is Attached <==> conn.authed && named && free && !over
            &&& step is Attached ==> {
                &&& step == (Step::Attached { session_id: server.session_id })
                &&& after.state == SessionState::Attached
                &&& after.attached_conn_id == Some(conn.conn_id)
                &&& after.active_client_id == conn.client_id
                &&& conn2.attached_epoch == Some(after.attach_epoch)
                &&& session.attach_epoch < u64::MAX ==> after.attach_epoch == session.attach_epoch
                    + 1
                &&& server2.detached_at is None
            }
            &&& step !is Attached ==> step is Refuse && server2 == server && conn2.attached_epoch
                == conn.attached_epoch
            &&& !conn.authed ==> told is Protocol
            &&& conn.authed && !named ==> told is SessionNotFound
            &&& conn.authed && named && over ==> told is SessionExpired
            &&& conn.authed && named && !over && !free ==> told is AttachDenied
        }),
        server2.tokens == server.tokens,
        server2.replay == server.replay,
        conn2.cleanup_reason == conn.cleanup_reason,
{
    assert(is_consistent(server.sessions[server.session_id]));
}

/// `RESUME` gives an authenticated client the session, if it names it and presents a token that is
/// good to resume with, and if nobody has the session or the client itself has it under the same
/// identifier; the connection that had it is then replaced. The session belongs to the new
/// connection and to that client, and what was kept of the output is kept and replayed. Otherwise
/// the client is told why not, and nothing changes.
pub proof fn law_resume_gives_the_session(
    conn: ConnView,
    server: ServerView,
    request: ResumeRequest,
    now: Timestamp,
    step: Step,
    conn2: ConnView,
    server2: ServerView,
    told: NeoshdError,
)
    requires
        is_sound(server),
        conn.state == ConnectionState::AwaitAttachOrResume,
        handled(conn, server, Request::Resume(Ok(request)), now, step, conn2, server2),
        step matches Step::Refuse(refusal) ==> refusal.sends(told),
    ensures
        ({
            let session = server.sessions[server.session_id];
            let after = server2.sessions[server.session_id];
            let named = request.session_id == server.session_id;
            let token = resume_outcome(
                server.tokens,
                request.resume_token@,
                server.session_id,
                server.owner,
                now,
            );
            let over = session.state == SessionState::Expired || session.state
                == SessionState::Terminated;
            let free = session.attached_conn_id is None;
            let same = conn.negotiated && request.client_id is Some && session.active_client_id
                == request.client_id;
            &&& step is Resumed <==> conn.authed && named && token is Ok && !over && (free || same)
            &&& step is Resumed ==> {
                &&& step->Resumed_session_id == server.session_id
                &&& step->replay_bytes == server.replay.len()
                &&& step->replaced == session.attached_conn_id
                &&& after.state == SessionState::Attached
                &&& after.attached_conn_id == Some(conn.conn_id)
                &&& after.active_client_id == if conn.negotiated {
                    request.client_id
                } else {
                    None
                }
                &&& conn2.attached_epoch == Some(after.attach_epoch)
                &&& session.attach_epoch < u64::MAX ==> after.attach_epoch == session.attach_epoch
                    + 1
                &&& server2.detached_at is None
            }
            &&& step !is Resumed ==> step is Refuse && server2 == server && conn2.attached_epoch
                == conn.attached_epoch
            &&& !conn.authed ==> told is Protocol
            &&& conn.authed && !named ==> told is SessionNotFound
            &&& conn.authed && named && (token == Err::<(), TokenError>(TokenError::Expired)
                || token == Err::<(), TokenError>(TokenError::Revoked)) ==> told is SessionExpired
            &&& conn.authed && named && token is Err && token != Err::<(), TokenError>(
                TokenError::Expired,
            ) && token != Err::<(), TokenError>(TokenError::Revoked) ==> told is AuthFailed
            &&& conn.authed && named && token is Ok && over ==> told is SessionExpired
            &&& conn.authed && named && token is Ok && !over && !free && !same ==> told
                is AttachDenied
        }),
        server2.tokens == server.tokens,
        server2.replay == server.replay,
        conn2.cleanup_reason == conn.cleanup_reason,
{
    assert(is_consistent(server.sessions[server.session_id]));
}

/// `DETACH` lets go of a session that the connection has: nobody has it from then on, and its time
/// runs from then on. The end of the connection afterwards takes nothing more, whoever has the
/// session by then.
pub proof fn law_detach_lets_go(
    conn: ConnView,
    server: ServerView,
    now: Timestamp,
    step: Step,
    conn2: ConnView,
    server2: ServerView,
    later: Timestamp,
)
    requires
        is_sound(server),
        conn.state == ConnectionState::Attached,
        handled(conn, server, Request::Detach, now, step, conn2, server2),
    ensures
        ({
            let session = server.sessions[server.session_id];
            let after = server2.sessions[server.session_id];
            let mine = session.attached_conn_id == Some(conn.conn_id);
            &&& step is Detached <==> mine
            &&& mine ==> {
                &&& after.state == SessionState::Detached
                &&& after.attached_conn_id is None
                &&& after.active_client_id is None
                &&& after.attach_epoch == session.attach_epoch
                &&& server2.detached_at == Some(now)
                &&& conn2.cleanup_reason == CleanupReason::ExplicitDetach
                &&& finished(conn2, server2, later) == server2
            }
            &&& !mine ==> step is Fail && server2 == server && conn2 == conn
        }),
        server2.tokens == server.tokens,
        server2.replay == server.replay,
        server2.pty_exited == server.pty_exited,
{
    assert(is_consistent(server.sessions[server.session_id]));
}

/// `CLOSE` ends the session for good, whoever has it.
pub proof fn law_close_ends_the_session(
    conn: ConnView,
    server: ServerView,
    now: Timestamp,
    step: Step,
    conn2: ConnView,
    server2: ServerView,
)
    requires
        is_sound(server),
        conn.state == ConnectionState::Attached || conn.state
            == ConnectionState::AwaitAttachOrResume,
        handled(conn, server, Request::Close, now, step, conn2, server2),
    ensures
        step is Closed,
        conn2.state == ConnectionState::Closed,
        server2.sessions[server.session_id].state == SessionState::Terminated,
        server2.sessions[server.session_id].attached_conn_id is None,
        server2.sessions[server.session_id].active_client_id is None,
        server2.tokens == server.tokens,
        server2.replay == server.replay,
{
}

/// `PING` is answered with the nonce that it carries, in every state but the last, and `RESIZE`
/// hands on the size that it carries; neither changes anything.
pub proof fn law_ping_and_resize_hand_on(
    conn: ConnView,
    server: ServerView,
    nonce: serde_json::Value,
    size: ResizeRequest,
    now: Timestamp,
    step: Step,
    conn2: ConnView,
    server2: ServerView,
)
    ensures
        conn.state != ConnectionState::Closed && handled(
            conn,
            server,
            Request::Ping { nonce },
            now,
            step,
            conn2,
            server2,
        ) ==> step == Step::Reply(Reply::Pong { nonce }) && conn2 == conn && server2 == server,
        conn.state == ConnectionState::Attached && handled(
            conn,
            server,
            Request::Resize(Ok(size)),
            now,
            step,
            conn2,
            server2,
        ) ==> step == (Step::Resize { rows: size.rows, cols: size.cols }) && conn2 == conn
            && server2 == server,
{
}

/// A message whose payload could not be read is refused with its name and the reason, word for
/// word, and changes nothing on the server.
pub proof fn law_unreadable_payloads_are_refused(
    conn: ConnView,
    server: ServerView,
    why: String,
    now: Timestamp,
    step: Step,
    conn2: ConnView,
    server2: ServerView,
    told: NeoshdError,
)
    requires
        step matches Step::Refuse(refusal) && refusal.sends(told),
    ensures
        conn.state == ConnectionState::AwaitAuth && handled(
            conn,
            server,
            Request::Auth(Err(why)),
            now,
            step,
            conn2,
            server2,
        ) ==> server2 == server && told is Protocol && told->Protocol_0@ == "bad "@ + "AUTH"@
            + " payload: "@ + why@,
        conn.state == ConnectionState::AwaitAttachOrResume && conn.authed && handled(
            conn,
            server,
            Request::Attach(Err(why)),
            now,
            step,
            conn2,
            server2,
        ) ==> server2 == server && told is Protocol && told->Protocol_0@ == "bad "@ + "ATTACH"@
            + " payload: "@ + why@,
        conn.state == ConnectionState::AwaitAttachOrResume && conn.authed && handled(
            conn,
            server,
            Request::Resume(Err(why)),
            now,
            step,
            conn2,
            server2,
        ) ==> server2 == server && told is Protocol && told->Protocol_0@ == "bad "@ + "RESUME"@
            + " payload: "@ + why@,
        conn.state == ConnectionState::Attached && handled(
            conn,
            server,
            Request::Resize(Err(why)),
            now,
            step,
            conn2,
            server2,
        ) ==> server2 == server && told is Protocol && told->Protocol_0@ == "bad "@ + "RESIZE"@
            + " payload: "@ + why@,
{
}

/// A connection that has just been opened has said nothing yet: it has not authenticated, has no
/// client and no session, and its end takes nothing from the server.
pub proof fn law_new_connection_has_nothing(conn_id: Uuid, server: ServerView, now: Timestamp)
    ensures
        opened(conn_id).conn_id == conn_id,
        opened(conn_id).state == ConnectionState::AwaitHello,
        !opened(conn_id).authed,
        !opened(conn_id).negotiated,
        opened(conn_id).client_id is None,
        opened(conn_id).attached_epoch is None,
        opened(conn_id).cleanup_reason == CleanupReason::ConnectionEnd,
        finished(opened(conn_id), server, now) == server,
{
}

/// A refusal to resume is named in the log by what was wrong: the session, the token and how, or
/// that somebody else has the session.
pub proof fn law_resume_failures_are_named(refusal: Refusal)
    ensures
        refusal is WrongSession ==> refusal.resume_failure() == Some("session_not_found"@)
            && refusal.resume_failure_text() == Some("session not found"@),
        refusal is Session ==> refusal.resume_failure() == Some("attach_denied"@),
        refusal == Refusal::ResumeToken(TokenError::NotFound) ==> refusal.resume_failure() == Some(
            "resume_token_not_found"@,
        ) && refusal.resume_failure_text() == Some("token not found"@),
        refusal == Refusal::ResumeToken(TokenError::Expired) ==> refusal.resume_failure() == Some(
            "resume_token_expired"@,
        ) && refusal.resume_failure_text() == Some("token expired"@),
        refusal == Refusal::ResumeToken(TokenError::Revoked) ==> refusal.resume_failure() == Some(
            "resume_token_revoked"@,
        ) && refusal.resume_failure_text() == Some("token revoked"@),
        refusal == Refusal::ResumeToken(TokenError::Consumed) ==> refusal.resume_failure() == Some(
            "resume_token_consumed"@,
        ) && refusal.resume_failure_text() == Some("token consumed"@),
        refusal == Refusal::ResumeToken(TokenError::BindingMismatch) ==> refusal.resume_failure()
            == Some("resume_token_binding_mismatch"@) && refusal.resume_failure_text() == Some(
            "token/session/user mismatch"@,
        ),
        refusal == Refusal::ResumeToken(TokenError::TypeMismatch) ==> refusal.resume_failure()
            == Some("resume_token_type_mismatch"@) && refusal.resume_failure_text() == Some(
            "token type mismatch"@,
        ),
        refusal.resume_failure() is Some <==> refusal is WrongSession || refusal is ResumeToken
            || refusal is Session,
{
}

/// What only servers send is refused from a client, in every state, and so is what is no message at
/// all; nothing changes by it.
pub proof fn law_servers_messages_are_refused(
    conn: ConnView,
    server: ServerView,
    request: Request,
    now: Timestamp,
    step: Step,
    conn2: ConnView,
    server2: ServerView,
    told: NeoshdError,
)
    requires
        request is Pong || request is Error || request is Unknown,
        handled(conn, server, request, now, step, conn2, server2),
        step matches Step::Refuse(refusal) ==> refusal.sends(told),
    ensures
        step is Refuse,
        told matches NeoshdError::Protocol(m) && m@ == if request is Unknown {
            "unknown control message"@
        } else {
            "out-of-order control message"@
        },
        conn2 == conn,
        server2 == server,
{
}

} // verus!
