//! What the operations promise to whoever calls them: each law here speaks of a call, of what went
//! into it and of what came out of it.

#[allow(unused_imports)]
use crate::client::answers::ServerFrame;
#[allow(unused_imports)]
use crate::client::bootstrap::{
    is_told, is_told_in, parse_bootstrap_payload, payload_error, BootstrapError, BootstrapPayload,
    PayloadView,
};
#[allow(unused_imports)]
use crate::client::cache::{
    decode_entry, encode_entry, is_file_of, is_recalled, CacheError, SessionCacheEntry,
};
#[allow(unused_imports)]
use crate::client::command::{
    build_remote_command_with, is_word, law_bootstrap_line_reaches_the_file, leads_to,
    optional_text, remote_option, BootstrapMode,
};
#[allow(unused_imports)]
use crate::client::detach::{
    answer_detach, are_no_sockets, discover_active_socket, is_socket, DetachAnswer,
};
#[allow(unused_imports)]
use crate::client::control::{carries, decode_control_json, encode_control_json, ControlError};
#[allow(unused_imports)]
use crate::client::error::CliError;
#[allow(unused_imports)]
use crate::client::identity::{choose_client_id, read_client_id, Identity};
#[allow(unused_imports)]
use crate::client::quic_client::{verify_peer_fingerprint, QuicClientError};
#[allow(unused_imports)]
use crate::client::retry::{
    check_entry, check_renewal, resume_target, BootstrapTries, Next, RetryPlan,
};
#[allow(unused_imports)]
use crate::client::session::{
    answered, ClientMessage, Handshake, HandshakeStep, SessionMode, KEEPALIVE_SECONDS,
};
#[allow(unused_imports)]
use crate::client::state::ClientState;
#[allow(unused_imports)]
use crate::client::stdin::{
    end_of_input, law_held_back_comes_first, law_input_arrives, law_plain_input_arrives_unchanged,
    normalize_stdin_byte, process_stdin_chunk_for_detach, with_pending,
};
#[allow(unused_imports)]
use crate::digest::{hex, sha256};
#[allow(unused_imports)]
use crate::ffi::{
    build_auth, build_resume, check_recv_stdout, check_send_stdin, control_length, deliver,
    Outcome, TextArgument,
};
#[allow(unused_imports)]
use crate::fields::record_of;
#[allow(unused_imports)]
use crate::ids::{uuid_parse, uuid_text, Uuid};
#[allow(unused_imports)]
use crate::json::{
    has_other_items, is_flat, json_as_str, json_bytes, json_item, json_parse, json_str, lists,
};
#[allow(unused_imports)]
use crate::protocol::framing::{
    decode_frame, encode_frame, law_frames_carry_their_length, FramingError,
};
#[allow(unused_imports)]
use crate::runtime::{BootstrapOutput, NeoshdRuntime};
#[allow(unused_imports)]
use crate::server::args::{choose_bind, resolve_login_shell, BindChoice, PortScan};
#[allow(unused_imports)]
use crate::server::connection::{finished, handled, Connection, Request, Step};
#[allow(unused_imports)]
use crate::server::error::NeoshdError;
#[allow(unused_imports)]
use crate::server::ipc::{control_payload_length, renew_auth, RenewRefusal, RenewRequest};
#[allow(unused_imports)]
use crate::server::laws::is_sound;
#[allow(unused_imports)]
use crate::server::state::{
    finalize_connection_cleanup_at, CleanupReason, ServerState, StopReason,
    TOKEN_RETENTION_SECONDS, TOKEN_SWEEP_SECONDS,
};
#[allow(unused_imports)]
use crate::server::tls::{new_certificate, TlsMaterial};
#[allow(unused_imports)]
use crate::server::wire::hello_capabilities;
#[allow(unused_imports)]
use crate::session::laws::{all_consistent, is_consistent};
#[allow(unused_imports)]
use crate::session::manager::{Attachment, SessionError, SessionManager, SessionState};
#[allow(unused_imports)]
use crate::shell::quoted;
#[allow(unused_imports)]
use crate::terminal::pty::{optional, terminal_kind};
#[allow(unused_imports)]
use crate::text::{is_space, law_trimming_takes_the_ends, texts, trimmed};
#[allow(unused_imports)]
use crate::time::{Duration, Timestamp};
#[allow(unused_imports)]
use crate::token::service::{TokenError, TokenService, TokenType, TokenView};
#[allow(unused_imports)]
use crate::transport::quic::MAX_CONTROL_FRAME;
use vstd::prelude::*;
#[allow(unused_imports)]
use vstd::utf8::encode_utf8;

verus! {

/// A client that returns and is let in is remembered: the session belongs to its connection and to
/// its identifier from then on. Every other session stays as it was, and so does everything if the
/// client is not let in.
pub proof fn law_returning_is_remembered(
    manager: &mut SessionManager,
    session_id: Uuid,
    conn_id: Uuid,
    client_id: Option<Uuid>,
    outcome: Result<Attachment, SessionError>,
    other: Uuid,
)
    requires
        call_ensures(
            SessionManager::attach_returning,
            (manager, session_id, conn_id, client_id),
            outcome,
        ),
    ensures
        outcome matches Ok(attachment) ==> {
            &&& final(manager)@.contains_key(session_id)
            &&& final(manager)@[session_id].state == SessionState::Attached
            &&& final(manager)@[session_id].attached_conn_id == Some(conn_id)
            &&& final(manager)@[session_id].active_client_id == client_id
            &&& final(manager)@[session_id].attach_epoch == attachment.epoch
            &&& final(manager)@[session_id].owner == old(manager)@[session_id].owner
        },
        outcome is Err ==> final(manager)@ == old(manager)@,
        other != session_id ==> {
            &&& final(manager)@.contains_key(other) <==> old(manager)@.contains_key(other)
            &&& final(manager)@[other] == old(manager)@[other]
        },
{
}

/// A client that returned on one connection is let in again on another one, at once and as often as
/// it likes, and takes the place of the connection before.
pub proof fn law_returning_twice(
    before: &mut SessionManager,
    between: &mut SessionManager,
    session_id: Uuid,
    client: Uuid,
    first: Uuid,
    second: Uuid,
    once: Result<Attachment, SessionError>,
    twice: Result<Attachment, SessionError>,
)
    requires
        call_ensures(
            SessionManager::attach_returning,
            (before, session_id, first, Some(client)),
            once,
        ),
        call_ensures(
            SessionManager::attach_returning,
            (between, session_id, second, Some(client)),
            twice,
        ),
        old(between)@ == final(before)@,
        once is Ok,
    ensures
        twice matches Ok(attachment) && attachment.replaced == Some(first),
        final(between)@[session_id].attached_conn_id == Some(second),
        final(between)@[session_id].active_client_id == Some(client),
        once->Ok_0.epoch < u64::MAX ==> twice->Ok_0.epoch == once->Ok_0.epoch + 1,
{
}

/// Attaching succeeds exactly if the session is known, not over, and nobody has it; whoever attaches
/// has it from then on, under a new epoch.
pub proof fn law_attaching(
    manager: &mut SessionManager,
    session_id: Uuid,
    conn_id: Uuid,
    client_id: Option<Uuid>,
    outcome: Result<u64, SessionError>,
)
    requires
        call_ensures(
            SessionManager::attach_client,
            (manager, session_id, conn_id, client_id),
            outcome,
        ),
    ensures
        outcome is Ok <==> {
            &&& old(manager)@.contains_key(session_id)
            &&& old(manager)@[session_id].state != SessionState::Expired
            &&& old(manager)@[session_id].state != SessionState::Terminated
            &&& old(manager)@[session_id].attached_conn_id is None
        },
        outcome matches Ok(epoch) ==> {
            &&& final(manager)@[session_id].state == SessionState::Attached
            &&& final(manager)@[session_id].attached_conn_id == Some(conn_id)
            &&& final(manager)@[session_id].active_client_id == client_id
            &&& final(manager)@[session_id].attach_epoch == epoch
            &&& old(manager)@[session_id].attach_epoch < u64::MAX ==> epoch
                == old(manager)@[session_id].attach_epoch + 1
        },
        outcome is Err ==> final(manager)@ == old(manager)@,
{
}

/// A connection that attaches without an identifier leaves none behind.
pub proof fn law_attaching_without_a_client(
    manager: &mut SessionManager,
    session_id: Uuid,
    conn_id: Uuid,
    outcome: Result<u64, SessionError>,
)
    requires
        call_ensures(
            SessionManager::attach_exclusive,
            (manager, session_id, conn_id),
            outcome,
        ),
    ensures
        outcome is Ok <==> {
            &&& old(manager)@.contains_key(session_id)
            &&& old(manager)@[session_id].state != SessionState::Expired
            &&& old(manager)@[session_id].state != SessionState::Terminated
            &&& old(manager)@[session_id].attached_conn_id is None
        },
        outcome is Ok ==> {
            &&& final(manager)@[session_id].attached_conn_id == Some(conn_id)
            &&& final(manager)@[session_id].active_client_id is None
        },
        outcome is Err ==> final(manager)@ == old(manager)@,
{
}

/// A connection can detach exactly if it has the session, and nobody has it afterwards.
pub proof fn law_detaching(
    manager: &mut SessionManager,
    session_id: Uuid,
    conn_id: Uuid,
    outcome: Result<(), SessionError>,
)
    requires
        all_consistent(old(manager)@),
        call_ensures(SessionManager::detach, (manager, session_id, conn_id), outcome),
    ensures
        outcome is Ok <==> {
            &&& old(manager)@.contains_key(session_id)
            &&& old(manager)@[session_id].attached_conn_id == Some(conn_id)
        },
        outcome is Ok ==> {
            &&& final(manager)@[session_id].state == SessionState::Detached
            &&& final(manager)@[session_id].attached_conn_id is None
            &&& final(manager)@[session_id].active_client_id is None
            &&& final(manager)@[session_id].attach_epoch == old(manager)@[session_id].attach_epoch
        },
        outcome is Err ==> final(manager)@ == old(manager)@,
{
    if old(manager)@.contains_key(session_id) {
        assert(is_consistent(old(manager)@[session_id]));
    }
}

/// Cleaning up after a connection lets go of the session exactly if the connection still has it,
/// under the epoch under which it attached; it changes nothing otherwise.
pub proof fn law_cleaning_up(
    manager: &mut SessionManager,
    session_id: Uuid,
    conn_id: Uuid,
    epoch: u64,
    cleaned: bool,
)
    requires
        all_consistent(old(manager)@),
        call_ensures(
            SessionManager::conditional_stale_cleanup,
            (manager, session_id, conn_id, epoch),
            cleaned,
        ),
    ensures
        cleaned <==> {
            &&& old(manager)@.contains_key(session_id)
            &&& old(manager)@[session_id].attached_conn_id == Some(conn_id)
            &&& old(manager)@[session_id].attach_epoch == epoch
        },
        cleaned ==> {
            &&& final(manager)@[session_id].state == SessionState::Detached
            &&& final(manager)@[session_id].attached_conn_id is None
        },
        !cleaned ==> final(manager)@ == old(manager)@,
{
    if old(manager)@.contains_key(session_id) {
        assert(is_consistent(old(manager)@[session_id]));
    }
}

/// A session that is terminated or that expires is over and nobody has it; only an unknown one
/// cannot be ended.
pub proof fn law_ending(
    terminated: &mut SessionManager,
    expired: &mut SessionManager,
    session_id: Uuid,
    first: Result<(), SessionError>,
    second: Result<(), SessionError>,
)
    requires
        call_ensures(SessionManager::terminate, (terminated, session_id), first),
        call_ensures(SessionManager::expire, (expired, session_id), second),
    ensures
        first is Ok <==> old(terminated)@.contains_key(session_id),
        first is Ok ==> {
            &&& final(terminated)@[session_id].state == SessionState::Terminated
            &&& final(terminated)@[session_id].attached_conn_id is None
        },
        second is Ok <==> old(expired)@.contains_key(session_id),
        second is Ok ==> {
            &&& final(expired)@[session_id].state == SessionState::Expired
            &&& final(expired)@[session_id].attached_conn_id is None
        },
{
}

/// A session is owned by the user who created it and by nobody else.
pub proof fn law_owning(
    manager: SessionManager,
    session_id: Uuid,
    user_id: &str,
    outcome: Result<(), SessionError>,
)
    requires
        call_ensures(SessionManager::assert_owner, (&manager, session_id, user_id), outcome),
    ensures
        outcome is Ok <==> manager@.contains_key(session_id) && manager@[session_id].owner
            == user_id@,
        outcome == Err::<(), SessionError>(SessionError::NotFound) <==> !manager@.contains_key(
            session_id,
        ),
{
}

/// A connection that is lost while the shell runs lets go of the session if it has it: nobody has it
/// from then on, its time runs from then on, and nothing else changes. A connection that does not
/// have it any more takes nothing.
pub proof fn law_losing_a_connection(
    server: &mut ServerState,
    conn_id: Uuid,
    epoch: u64,
    reason: CleanupReason,
    now: Timestamp,
)
    requires
        is_sound(old(server)@),
        !old(server)@.pty_exited || reason == CleanupReason::ExplicitDetach,
        call_ensures(
            finalize_connection_cleanup_at,
            (server, conn_id, epoch, reason, now),
            (),
        ),
    ensures
        ({
            let before = old(server)@.sessions[old(server)@.session_id];
            let after = final(server)@.sessions[old(server)@.session_id];
            let mine = before.attached_conn_id == Some(conn_id) && before.attach_epoch == epoch;
            &&& mine ==> {
                &&& after.state == SessionState::Detached
                &&& after.attached_conn_id is None
                &&& after.active_client_id is None
                &&& after.attach_epoch == before.attach_epoch
                &&& final(server)@.detached_at == Some(now)
            }
            &&& !mine ==> final(server)@ == old(server)@
        }),
        final(server)@.session_id == old(server)@.session_id,
        final(server)@.replay == old(server)@.replay,
        final(server)@.tokens == old(server)@.tokens,
        final(server)@.session_timeout == old(server)@.session_timeout,
        final(server)@.pty_exited == old(server)@.pty_exited,
{
    assert(is_consistent(old(server)@.sessions[old(server)@.session_id]));
}

/// A connection that ends after the shell is gone ends the session, whoever has it.
pub proof fn law_losing_the_shell(
    server: &mut ServerState,
    conn_id: Uuid,
    epoch: u64,
    now: Timestamp,
)
    requires
        old(server)@.sessions.contains_key(old(server)@.session_id),
        old(server)@.pty_exited,
        call_ensures(
            finalize_connection_cleanup_at,
            (server, conn_id, epoch, CleanupReason::ConnectionEnd, now),
            (),
        ),
    ensures
        final(server)@.sessions[old(server)@.session_id].state == SessionState::Terminated,
        final(server)@.sessions[old(server)@.session_id].attached_conn_id is None,
        final(server)@.detached_at is None,
        final(server)@.replay == old(server)@.replay,
{
}

/// Output that is kept is kept from its end: whatever the cap, the bytes that are kept are the last
/// ones of what was kept before and of what was printed now, as many as the cap allows and in their
/// order. Nothing else changes.
pub proof fn law_keeping_output(server: &mut ServerState, chunk: &[u8])
    requires
        call_ensures(ServerState::append_replay, (server, chunk), ()),
    ensures
        ({
            let all = old(server)@.replay + chunk@;
            let kept = final(server)@.replay;
            &&& kept.len() == if all.len() < old(server)@.replay_cap {
                all.len() as int
            } else {
                old(server)@.replay_cap as int
            }
            &&& forall|i: int|
                0 <= i < kept.len() ==> (#[trigger] kept[i]) == all[all.len() - kept.len() + i]
        }),
        final(server)@.replay_cap == old(server)@.replay_cap,
        final(server)@.sessions == old(server)@.sessions,
        final(server)@.tokens == old(server)@.tokens,
        final(server)@.detached_at == old(server)@.detached_at,
{
}

/// A client that resumes is sent all the output that was kept, in order and nothing else; one that
/// attaches is sent none of it.
pub proof fn law_replaying_output(server: ServerState, resume: bool, bytes: Vec<u8>)
    requires
        call_ensures(ServerState::replay_for, (&server, resume), bytes),
    ensures
        resume ==> bytes@ == server@.replay,
        !resume ==> bytes@.len() == 0,
{
}

/// A server asked whether it stops says so exactly if a limit has passed or the session is over.
pub proof fn law_stopping(server: &mut ServerState, now: Timestamp, reason: Option<StopReason>)
    requires
        old(server)@.sessions.contains_key(old(server)@.session_id),
        call_ensures(ServerState::check_stop, (server, now), reason),
    ensures
        ({
            let s = old(server)@;
            let session = s.sessions[s.session_id];
            let left = s.session_timeout.nanos() > 0 && (s.detached_at matches Some(t) && t.nanos
                <= now.nanos && t.nanos + s.session_timeout.nanos() <= now.nanos);
            let ignored = s.initial_attach_timeout.nanos() > 0 && session.state
                == SessionState::Created && s.created_at.nanos <= now.nanos && s.created_at.nanos
                + s.initial_attach_timeout.nanos() <= now.nanos;
            let over = session.state == SessionState::Expired || session.state
                == SessionState::Terminated;
            &&& reason is Some <==> left || ignored || over
            &&& left ==> reason == Some(StopReason::DetachedTimeout)
            &&& !left && ignored ==> reason == Some(StopReason::InitialAttachTimeout)
            &&& !left && !ignored ==> final(server)@ == s
            &&& left || ignored ==> final(server)@.sessions[s.session_id].state
                == SessionState::Expired
            &&& final(server)@.replay == s.replay && final(server)@.tokens == s.tokens
        }),
{
}

/// What a request does to a connection and to the server is what each kind of request is said to do;
/// and what the end of a connection does is what is said of that.
pub proof fn law_serving(
    conn: &mut Connection,
    server: &mut ServerState,
    request: Request,
    now: Timestamp,
    step: Step,
    ended: Connection,
    left: &mut ServerState,
    later: Timestamp,
)
    requires
        call_ensures(Connection::handle, (conn, server, request, now), step),
        call_ensures(Connection::finish, (&ended, left, later), ()),
    ensures
        handled(old(conn)@, old(server)@, request, now, step, final(conn)@, final(server)@),
        final(left)@ == finished(ended@, old(left)@, later),
{
}

/// A token authenticates once: whoever presents it a second time is refused, whenever that is.
pub proof fn law_authenticating_twice(
    before: &mut TokenService,
    between: &mut TokenService,
    raw_token: &str,
    session_id: Uuid,
    user_id: &str,
    now: Timestamp,
    later: Timestamp,
    first: Result<(), TokenError>,
    second: Result<(), TokenError>,
)
    requires
        call_ensures(
            TokenService::validate_and_consume_auth,
            (before, raw_token, session_id, user_id, now),
            first,
        ),
        call_ensures(
            TokenService::validate_and_consume_auth,
            (between, raw_token, session_id, user_id, later),
            second,
        ),
        old(between)@ == final(before)@,
        first is Ok,
    ensures
        second is Err,
{
    crate::token::laws::law_auth_token_single_use(
        old(before)@,
        raw_token@,
        session_id,
        user_id@,
        now,
        session_id,
        user_id@,
        later,
    );
}

/// A token that a session was resumed with can be presented again: presenting it changes nothing.
pub proof fn law_resuming_spends_nothing(
    tokens: &mut TokenService,
    raw_token: &str,
    session_id: Uuid,
    user_id: &str,
    now: Timestamp,
    outcome: Result<(), TokenError>,
)
    requires
        call_ensures(
            TokenService::validate_resume,
            (tokens, raw_token, session_id, user_id, now),
            outcome,
        ),
    ensures
        final(tokens)@ == old(tokens)@,
        outcome is Ok ==> exists|i: int|
            0 <= i < old(tokens)@.len() && {
                &&& (#[trigger] old(tokens)@[i]).hash == sha256(encode_utf8(raw_token@))
                &&& old(tokens)@[i].token_type == TokenType::Resume
                &&& old(tokens)@[i].session_id == session_id
                &&& old(tokens)@[i].user == user_id@
                &&& now.nanos < old(tokens)@[i].expires_at.nanos
                &&& old(tokens)@[i].revoked_at is None
            },
{
    crate::token::laws::lemma_found(old(tokens)@, raw_token@);
    if outcome is Ok {
        let i = crate::token::service::position(old(tokens)@, raw_token@)->0;
        assert(old(tokens)@[i].hash == sha256(encode_utf8(raw_token@)));
    }
}

/// A byte is sent as it is, except that `^H` is sent as `DEL`.
pub proof fn law_sending_a_byte(b: u8, out: u8)
    requires
        call_ensures(normalize_stdin_byte, (b,), out),
    ensures
        b != 0x08 ==> out == b,
        b == 0x08 ==> out == 0x7f,
{
}

/// What was typed without `^H` and without the hotkey is sent byte for byte, together with the
/// Ctrl-a that was held back before it and the one that is held back behind it.
pub proof fn law_sending_input(
    chunk: &[u8],
    held: bool,
    result: (bool, Vec<u8>, bool),
    rest: Vec<u8>,
)
    requires
        call_ensures(process_stdin_chunk_for_detach, (chunk, held), result),
        call_ensures(end_of_input, (result.2,), rest),
        forall|i: int| 0 <= i < chunk@.len() ==> #[trigger] chunk@[i] != 0x08,
        forall|i: int|
            0 <= i < chunk@.len() - 1 && #[trigger] chunk@[i] == 0x01 ==> chunk@[i + 1] != 0x64
                && chunk@[i + 1] != 0x44,
        held && chunk@.len() > 0 ==> chunk@[0] != 0x64 && chunk@[0] != 0x44,
    ensures
        !result.0,
        result.1@ + rest@ == (if held {
            seq![0x01u8]
        } else {
            Seq::<u8>::empty()
        }) + chunk@,
{
    let input = with_pending(held, chunk@);
    let lead = if held {
        seq![0x01u8]
    } else {
        Seq::<u8>::empty()
    };
    law_held_back_comes_first(held, chunk@);
    assert(input =~= lead + chunk@);
    assert forall|i: int| 0 <= i < input.len() implies #[trigger] input[i] != 0x08 by {
        if i >= lead.len() {
            assert(input[i] == chunk@[i - lead.len()]);
        }
    }
    assert forall|i: int| 0 <= i < input.len() - 1 && #[trigger] input[i] == 0x01 implies input[i
        + 1] != 0x64 && input[i + 1] != 0x44 by {
        if i >= lead.len() {
            assert(input[i] == chunk@[i - lead.len()]);
            assert(input[i + 1] == chunk@[i + 1 - lead.len()]);
        } else {
            assert(input[i + 1] == chunk@[0]);
        }
    }
    law_plain_input_arrives_unchanged(input, result.0, result.1@, result.2);
}

/// Whatever is typed, the client detaches exactly if Ctrl-a is followed by a `d` of either case, and
/// a Ctrl-a that was held back before counts as typed first; what was typed before that is sent, byte
/// by byte, with `DEL` for `^H`.
pub proof fn law_detaching_by_hotkey(
    chunk: &[u8],
    held: bool,
    result: (bool, Vec<u8>, bool),
    input: Seq<u8>,
)
    requires
        call_ensures(process_stdin_chunk_for_detach, (chunk, held), result),
        held ==> input == seq![0x01u8] + chunk@,
        !held ==> input == chunk@,
    ensures
        result.0 <==> exists|i: int|
            0 <= i < input.len() - 1 && #[trigger] input[i] == 0x01 && (input[i + 1] == 0x64
                || input[i + 1] == 0x44),
        result.1@.len() <= input.len(),
        forall|i: int|
            0 <= i < result.1@.len() ==> (#[trigger] result.1@[i]) == if input[i] == 0x08 {
                0x7f
            } else {
                input[i]
            },
        !result.0 ==> input.len() - result.1@.len() == if result.2 {
            1int
        } else {
            0int
        },
{
    law_held_back_comes_first(held, chunk@);
    assert(with_pending(held, chunk@) =~= input);
    law_input_arrives(input, result.0, result.1@, result.2);
}

/// The command that starts a session runs the server with exactly three redirections, whichever
/// server it is, wherever it starts and whatever it runs: what it prints goes to the file that the
/// command waits for, what it complains of to the log file if one is given and nowhere otherwise,
/// and it reads nothing.
pub proof fn law_starting_a_session_remotely(
    neoshd_path: &str,
    log_file: Option<&str>,
    working_directory: Option<&str>,
    command: Option<&str>,
    text: String,
) -> (redirections: Seq<Seq<char>>)
    requires
        call_ensures(
            build_remote_command_with,
            (BootstrapMode::New, neoshd_path, log_file, working_directory, command),
            text,
        ),
    ensures
        redirections.len() == 3,
        forall|i: int| 0 <= i < 3 ==> is_word(#[trigger] redirections[i]),
        leads_to(redirections, 3, 1) == Some("\"$bootstrap_file\""@),
        leads_to(redirections, 3, 2) == Some(
            if log_file is Some {
                "\"$log_file\""@
            } else {
                "/dev/null"@
            },
        ),
        leads_to(redirections, 3, 0) == Some("/dev/null"@),
        text@ == "sh -lc 'set -eu; bootstrap_file=\"$(mktemp -t neosh-bootstrap.XXXXXX)\"; "@ + (
        match log_file {
            Some(path) => "log_file="@ + quoted(path@) + "; "@,
            None => Seq::empty(),
        }) + "nohup "@ + quoted(neoshd_path@) + " new --user \"$USER\""@ + remote_option(
            " --working-directory "@,
            optional_text(working_directory),
        ) + remote_option(" --command "@, optional_text(command)) + seq![' '] + redirections[0]
            + seq![' '] + redirections[1] + seq![' '] + redirections[2]
            + " & for i in $(seq 1 200); do if [ -s \"$bootstrap_file\" ]; then head -n 1 \"$bootstrap_file\"; rm -f \"$bootstrap_file\"; exit 0; fi; sleep 0.05; done; echo \"bootstrap timeout\" >&2; rm -f \"$bootstrap_file\"; exit 1'"@,
{
    law_bootstrap_line_reaches_the_file(
        neoshd_path@,
        optional_text(log_file),
        optional_text(working_directory),
        optional_text(command),
    )
}

/// A session can be resumed until its token expires and not from then on.
pub proof fn law_resuming_in_time(
    entry: SessionCacheEntry,
    now: u64,
    outcome: Result<(), CliError>,
)
    requires
        call_ensures(check_entry, (&entry, now), outcome),
    ensures
        outcome is Ok <==> now < entry@.resume_token_expires_at,
        outcome matches Err(e) ==> e is Cache,
{
}

/// A session is resumed on the host that is given, and on the one that is remembered where none is
/// given; there must be one.
pub proof fn law_resuming_where(
    given: Option<String>,
    entry: SessionCacheEntry,
    target: Result<String, CliError>,
)
    requires
        call_ensures(resume_target, (given, &entry), target),
    ensures
        given matches Some(host) ==> (target is Ok <==> host@.len() > 0) && (target is Ok
            ==> target->Ok_0@ == host@),
        given is None ==> (target is Ok <==> entry@.ssh_target.len() > 0) && (target is Ok
            ==> target->Ok_0@ == entry@.ssh_target),
        target matches Err(e) ==> e is Cache,
{
}

/// A renewed token is taken exactly if it is for the session that was asked for and its server shows
/// the certificate that is remembered. If its address is new it is remembered in place of the old
/// one, as of now, and nothing else of what is remembered changes.
pub proof fn law_renewing(
    session_id: Uuid,
    payload: BootstrapPayload,
    entry: SessionCacheEntry,
    now: u64,
    outcome: Result<Option<SessionCacheEntry>, CliError>,
)
    requires
        call_ensures(check_renewal, (session_id, &payload, &entry, now), outcome),
    ensures
        outcome is Ok <==> payload@.session_id == session_id && payload@.cert_fingerprint
            == entry@.cert_fingerprint,
        outcome matches Err(e) ==> e is Protocol,
        outcome matches Ok(update) ==> {
            &&& update is Some <==> payload@.quic_addr != entry@.quic_addr
            &&& update matches Some(updated) ==> {
                &&& updated@.quic_addr == payload@.quic_addr
                &&& updated@.updated_at == now
                &&& updated@.session_id == entry@.session_id
                &&& updated@.ssh_target == entry@.ssh_target
                &&& updated@.resume_token == entry@.resume_token
                &&& updated@.resume_token_expires_at == entry@.resume_token_expires_at
                &&& updated@.cert_fingerprint == entry@.cert_fingerprint
            }
        },
{
}

/// The first failure to bootstrap is forgiven, and the next one is not.
pub proof fn law_failing_twice(
    before: &mut BootstrapTries,
    between: &mut BootstrapTries,
    first: String,
    second: String,
    once: Option<CliError>,
    twice: Option<CliError>,
)
    requires
        !old(before).failed(),
        call_ensures(BootstrapTries::on_failure, (before, first), once),
        call_ensures(BootstrapTries::on_failure, (between, second), twice),
        old(between).failed() == final(before).failed(),
    ensures
        once is None,
        twice matches Some(e) && e is Bootstrap && e->Bootstrap_0@ == second@,
{
}

/// A server is accepted exactly if the digest of the first certificate that it shows is the one that
/// is expected.
pub proof fn law_pinning(
    chain: Vec<Vec<u8>>,
    expected: &str,
    outcome: Result<(), QuicClientError>,
)
    requires
        call_ensures(verify_peer_fingerprint, (Some(&chain), expected), outcome),
    ensures
        outcome is Ok <==> chain@.len() > 0 && "sha256:"@ + hex(sha256(chain@[0]@)) == expected@,
        chain@.len() == 0 ==> outcome matches Err(QuicClientError::MissingPeerCertificate),
        chain@.len() > 0 && outcome is Err ==> outcome matches Err(
            QuicClientError::FingerprintMismatch,
        ),
{
}

/// A server that shows no certificate is not accepted.
pub proof fn law_pinning_nothing(expected: &str, outcome: Result<(), QuicClientError>)
    requires
        call_ensures(verify_peer_fingerprint, (None, expected), outcome),
    ensures
        outcome matches Err(QuicClientError::MissingPeerCertificate),
{
}

/// A request to detach is granted exactly if it comes from the owner, is a document of the type
/// `DETACH`, and names the session.
pub proof fn law_granting_detachment(
    peer_is_owner: bool,
    body: &[u8],
    session_id: Uuid,
    answer: DetachAnswer,
)
    requires
        call_ensures(answer_detach, (peer_is_owner, Some(body), session_id), answer),
    ensures
        answer.detach <==> peer_is_owner && json_parse(body@) is Ok && json_str(
            json_parse(body@)->Ok_0,
            "type"@,
        ) == Some("DETACH"@) && json_str(json_parse(body@)->Ok_0, "session_id"@) == Some(
            uuid_text(session_id.value),
        ),
        answer.detach ==> answer.text@ == "{\"ok\":true}"@,
{
}

/// The socket that is found is the first one among the files; and one is found if there is one.
pub proof fn law_finding_a_socket(paths: Vec<String>, found: Result<usize, CliError>)
    requires
        call_ensures(discover_active_socket, (&paths,), found),
    ensures
        found is Ok <==> exists|i: int|
            0 <= i < paths@.len() && #[trigger] is_socket(paths@[i]@),
        found matches Ok(at) ==> at < paths@.len() && is_socket(paths@[at as int]@) && forall|
            i: int,
        |
            0 <= i < at ==> !is_socket(#[trigger] paths@[i]@),
        found matches Err(e) ==> e is Io,
{
    match found {
        Ok(at) => {
            assert(is_socket(paths@[at as int]@));
        },
        Err(_) => {
            assert(are_no_sockets(paths@));
            assert forall|i: int| 0 <= i < paths@.len() implies !#[trigger] is_socket(
                paths@[i]@,
            ) by {
                assert(!is_socket(paths@[i]@));
            }
        },
    }
}

/// The server binds every address for `any`, the address at which the client reached it for `ssh`,
/// and otherwise the address or host that is given.
pub proof fn law_binding(
    bind_server: &str,
    ssh_connection: Option<&str>,
    choice: BindChoice,
)
    requires
        call_ensures(choose_bind, (bind_server, ssh_connection), choice),
    ensures
        bind_server@ == "any"@ ==> choice is Unspecified,
        bind_server@ == "ssh"@ ==> match crate::server::args::ssh_server_field(
            match ssh_connection {
                Some(raw) => Some(raw@),
                None => None,
            },
        ) {
            Some(field) => choice is AddressOrLoopback && choice->AddressOrLoopback_0@ == field,
            None => choice is Loopback,
        },
        bind_server@ != "any"@ && bind_server@ != "ssh"@ ==> choice is AddressOrHost
            && choice->AddressOrHost_0@ == bind_server@,
{
    reveal_strlit("ssh");
    reveal_strlit("any");
    assert("ssh"@[0] == 's' && "any"@[0] == 'a');
}

/// The shell is the one that is set, as it is set, unless nothing but white space is; then it is
/// `sh`.
pub proof fn law_choosing_a_shell(shell: &str, name: String, unset: String)
    requires
        call_ensures(resolve_login_shell, (Some(shell),), name),
        call_ensures(resolve_login_shell, (None::<&str>,), unset),
    ensures
        (exists|i: int| 0 <= i < shell@.len() && !is_space(#[trigger] shell@[i])) ==> name@
            == shell@,
        (forall|i: int| 0 <= i < shell@.len() ==> is_space(#[trigger] shell@[i])) ==> name@
            == "sh"@,
        unset@ == "sh"@,
{
    let (a, b) = law_trimming_takes_the_ends(shell@);
    if exists|i: int| 0 <= i < shell@.len() && !is_space(#[trigger] shell@[i]) {
        let i = choose|i: int| 0 <= i < shell@.len() && !is_space(#[trigger] shell@[i]);
        assert(a <= i < b);
    } else if a < b {
        assert(is_space(shell@[a]));
    }
}

/// The kind of terminal is the one that is set, and one that most programs know otherwise; an option
/// is set exactly if its value is not empty.
pub proof fn law_choosing_a_terminal(
    term: Option<&str>,
    kind: String,
    value: &str,
    set: Option<&str>,
)
    requires
        call_ensures(terminal_kind, (term,), kind),
        call_ensures(optional, (value,), set),
    ensures
        term matches Some(t) ==> kind@ == t@,
        term is None ==> kind@ == "xterm-256color"@,
        set is Some <==> value@.len() > 0,
        set matches Some(v) ==> v@ == value@,
{
}

/// A new token is handed out over the local socket exactly if the request comes from the account of
/// the owner, for the session of the server, in the name of the owner; and a request that is
/// refused changes nothing.
pub proof fn law_renewing_over_the_socket(
    server: &mut ServerState,
    peer_uid: u32,
    request: RenewRequest,
    outcome: Result<BootstrapOutput, RenewRefusal>,
)
    requires
        call_ensures(renew_auth, (server, peer_uid, Ok(request)), outcome),
    ensures
        outcome is Ok <==> {
            &&& peer_uid == old(server)@.owner_uid
            &&& request.session_id == old(server)@.session_id
            &&& request.user@ == old(server)@.owner
        },
        outcome is Err ==> final(server)@ == old(server)@,
        outcome matches Ok(output) ==> {
            &&& output.session_id == old(server)@.session_id
            &&& output.quic_addr@ == old(server)@.quic_addr
            &&& output.cert_fingerprint@ == old(server)@.cert_fingerprint
            &&& final(server)@.tokens.len() == old(server)@.tokens.len() + 1
            &&& final(server)@.tokens.last().token_type == TokenType::Auth
            &&& final(server)@.tokens.last().session_id == old(server)@.session_id
            &&& final(server)@.tokens.last().user == old(server)@.owner
            &&& final(server)@.sessions == old(server)@.sessions
        },
{
}

/// Payloads of up to 65536 bytes are read and longer ones are not, on the server and on the client
/// alike; the length is the number that the four bytes write, most significant first.
pub proof fn law_limiting_frames(
    prefix: [u8; 4],
    server: Result<usize, NeoshdError>,
    client: Result<usize, String>,
)
    requires
        call_ensures(control_payload_length, (&prefix,), server),
        call_ensures(control_length, (&prefix,), client),
    ensures
        ({
            let n = prefix@[0] * 16777216 + prefix@[1] * 65536 + prefix@[2] * 256 + prefix@[3];
            &&& server is Ok <==> n <= 65536
            &&& client is Ok <==> n <= 65536
            &&& server matches Ok(len) ==> len == n
            &&& client matches Ok(len) ==> len == n
            &&& server matches Err(e) ==> e is Protocol
        }),
{
}

/// What is put in a frame is taken out of it again, byte for byte, whatever it is, if it is within
/// the limit.
pub proof fn law_framing(
    payload: &[u8],
    out: Vec<u8>,
    buf: &[u8],
    max_payload_len: usize,
    read: Result<&[u8], FramingError>,
)
    requires
        payload@.len() < 0x1_0000_0000,
        call_ensures(encode_frame, (payload,), out),
        buf@ == out@,
        call_ensures(decode_frame, (buf, max_payload_len), read),
    ensures
        out@.len() == payload@.len() + 4,
        forall|i: int| 0 <= i < payload@.len() ==> out@[i + 4] == #[trigger] payload@[i],
        payload@.len() <= max_payload_len ==> read is Ok && read->Ok_0@ == payload@,
        payload@.len() > max_payload_len ==> read == Err::<&[u8], FramingError>(
            FramingError::TooLarge,
        ),
{
    law_frames_carry_their_length(payload@);
    if payload@.len() <= max_payload_len {
        crate::protocol::framing::law_frame_round_trip(payload@, max_payload_len as nat);
    } else {
        crate::protocol::framing::law_oversized_refused(payload@, max_payload_len as nat);
    }
}

/// A certificate that is made is shown as it was made, with its key and with its own fingerprint.
pub proof fn law_showing_a_new_certificate(
    made: (Vec<u8>, Vec<u8>),
    outcome: Result<TlsMaterial, NeoshdError>,
)
    requires
        call_ensures(new_certificate, (Ok(made),), outcome),
    ensures
        outcome matches Ok(shown) && shown.cert_der == made.0 && shown.key_der == made.1
            && shown.cert_fingerprint@ == "sha256:"@ + hex(sha256(made.0@)),
{
}

/// The arguments of a call that sends or receives are refused exactly if a place to write to is
/// missing, there is nothing to write from or into, or the stream is not open; only the last of
/// these can be mended by waiting.
pub proof fn law_checking_arguments(
    no_written: bool,
    no_data: bool,
    len: usize,
    stdin_open: bool,
    send: Option<Outcome>,
    no_out: bool,
    capacity: usize,
    no_buffer: bool,
    stdout_open: bool,
    receive: Option<Outcome>,
)
    requires
        call_ensures(check_send_stdin, (no_written, no_data, len, stdin_open), send),
        call_ensures(check_recv_stdout, (no_out, capacity, no_buffer, stdout_open), receive),
    ensures
        send is None <==> !no_written && (len == 0 || !no_data) && stdin_open,
        send matches Some(o) ==> o.error is Some && o.code == if no_written || (no_data && len
            > 0) {
            -1i32
        } else {
            -3i32
        },
        receive is None <==> !no_out && capacity > 0 && !no_buffer && stdout_open,
        receive matches Some(o) ==> o.error is Some && o.code == if no_out || capacity == 0
            || no_buffer {
            -1i32
        } else {
            -3i32
        },
{
}

/// A message is delivered whole or not at all.
pub proof fn law_delivering(
    len: usize,
    buffer_is_null: bool,
    capacity: usize,
    delivery: (Outcome, usize),
)
    requires
        call_ensures(deliver, (len, buffer_is_null, capacity), delivery),
    ensures
        delivery.0.code == 0 <==> len <= capacity && (len == 0 || !buffer_is_null),
        delivery.0.code == 0 ==> delivery.1 == len,
        delivery.0.code != 0 ==> delivery.1 == 0,
{
}

/// A client that was not let in tries once more after a tenth of a second, and then gives up.
pub proof fn law_connecting_again(
    before: &mut RetryPlan,
    between: &mut RetryPlan,
    interactive: bool,
    once: Next,
    twice: Next,
)
    requires
        old(before).attempts() == 0,
        call_ensures(
            RetryPlan::after_connect,
            (before, &Err::<(), CliError>(CliError::AuthFailed), interactive),
            once,
        ),
        call_ensures(
            RetryPlan::after_connect,
            (between, &Err::<(), CliError>(CliError::AuthFailed), interactive),
            twice,
        ),
        old(between).attempts() == final(before).attempts(),
    ensures
        once matches Next::Retry { delay } && delay.nanos() == 100_000_000,
        twice is Fail,
{
    crate::client::retry::law_waits_double(0);
}

/// What a client remembers of a session it reads back as it was, all of it.
pub proof fn law_remembering(
    entry: SessionCacheEntry,
    written: Result<Vec<u8>, CacheError>,
    data: &[u8],
    read: Result<SessionCacheEntry, CacheError>,
)
    requires
        call_ensures(encode_entry, (&entry,), written),
        written is Ok && data@ == written->Ok_0@,
        call_ensures(decode_entry, (data,), read),
    ensures
        read matches Ok(recalled) && recalled@ == entry@,
{
    assert(is_file_of(data@, entry@));
    assert(is_recalled(read, entry@));
}

/// What a server prints for a client is understood by the client as it was meant, if it is in order.
pub proof fn law_telling_the_client(
    output: BootstrapOutput,
    printed: Result<String, String>,
    raw: &str,
    read: Result<BootstrapPayload, BootstrapError>,
    payload: PayloadView,
)
    requires
        call_ensures(BootstrapOutput::line, (&output,), printed),
        printed is Ok && raw@ == printed->Ok_0@,
        call_ensures(parse_bootstrap_payload, (raw,), read),
        payload.session_id == output.session_id,
        payload.auth_token == output.auth_token@,
        payload.auth_token_expires_in_seconds == output.auth_token_expires_in_seconds,
        payload.quic_addr == output.quic_addr@,
        payload.cert_fingerprint == output.cert_fingerprint@,
        payload_error(payload) is None,
    ensures
        read matches Ok(told) && told@ == payload,
{
    assert(is_told_in(raw@, payload));
    assert(is_told(read, payload));
}

/// A message whose members are plain is read as it was sent.
pub proof fn law_exchanging_messages(
    sent: serde_json::Value,
    written: Result<Vec<u8>, ControlError>,
    frame: &[u8],
    max_size: usize,
    read: Result<serde_json::Value, ControlError>,
)
    requires
        is_flat(sent),
        call_ensures(encode_control_json, (&sent,), written),
        written is Ok && frame@ == written->Ok_0@,
        json_bytes(sent).len() <= max_size,
        json_bytes(sent).len() < 0x1_0000_0000,
        call_ensures(decode_control_json, (frame, max_size), read),
    ensures
        read matches Ok(received) && received == sent,
{
    assert(carries(frame@, sent, max_size as nat));
}

/// Lengths of time are what they are made from, and time passes by them.
pub proof fn law_measuring_time(
    n: u64,
    seconds: Duration,
    millis: Duration,
    whole: u64,
    earlier: Timestamp,
    now: Timestamp,
    limit: Duration,
    within: bool,
    elapsed: bool,
)
    requires
        call_ensures(Duration::from_secs, (n,), seconds),
        call_ensures(Duration::from_millis, (n,), millis),
        call_ensures(Duration::as_secs, (&seconds,), whole),
        call_ensures(Timestamp::within, (&now, earlier, limit), within),
        call_ensures(Timestamp::elapsed_at_least, (&now, earlier, limit), elapsed),
    ensures
        seconds.nanos() == n * 1_000_000_000,
        millis.nanos() == n * 1_000_000,
        whole == n,
        within <==> earlier.nanos <= now.nanos <= earlier.nanos + limit.nanos(),
        elapsed <==> earlier.nanos <= now.nanos && earlier.nanos + limit.nanos() <= now.nanos,
{
}

/// A token that is issued is one more token: for its purpose, its session and its user, unused, and
/// good for as long as its lifetime says since it was issued. The tokens before it stay.
pub proof fn law_issuing(
    auth: &mut TokenService,
    resume: &mut TokenService,
    session_id: Uuid,
    user_id: &str,
    ttl: Duration,
    first: String,
    second: String,
    i: int,
)
    requires
        call_ensures(TokenService::issue_auth_token, (auth, session_id, user_id, ttl), first),
        call_ensures(
            TokenService::issue_resume_token,
            (resume, session_id, user_id, ttl),
            second,
        ),
    ensures
        ({
            let a = final(auth)@.last();
            let r = final(resume)@.last();
            &&& final(auth)@.len() == old(auth)@.len() + 1
            &&& final(resume)@.len() == old(resume)@.len() + 1
            &&& a.hash == sha256(encode_utf8(first@))
            &&& r.hash == sha256(encode_utf8(second@))
            &&& a.token_type == TokenType::Auth
            &&& r.token_type == TokenType::Resume
            &&& a.session_id == session_id && r.session_id == session_id
            &&& a.user == user_id@ && r.user == user_id@
            &&& a.expires_at.nanos == a.created_at.nanos + ttl.nanos()
            &&& r.expires_at.nanos == r.created_at.nanos + ttl.nanos()
            &&& a.consumed_at is None && a.revoked_at is None
            &&& r.consumed_at is None && r.revoked_at is None
            &&& first@.len() == 43 && second@.len() == 43
        }),
        0 <= i < old(auth)@.len() ==> final(auth)@[i] == old(auth)@[i],
        0 <= i < old(resume)@.len() ==> final(resume)@[i] == old(resume)@[i],
{
    crate::digest::law_token_length(first@);
    crate::digest::law_token_length(second@);
    if 0 <= i < old(auth)@.len() {
        assert(final(auth)@.drop_last()[i] == final(auth)@[i]);
    }
    if 0 <= i < old(resume)@.len() {
        assert(final(resume)@.drop_last()[i] == final(resume)@[i]);
    }
}

/// A token that is revoked is good for nothing any more; only an unknown one cannot be revoked.
pub proof fn law_revoking(
    before: &mut TokenService,
    between: &mut TokenService,
    raw_token: &str,
    session_id: Uuid,
    user_id: &str,
    now: Timestamp,
    later: Timestamp,
    revoked: Result<(), TokenError>,
    resumed: Result<(), TokenError>,
)
    requires
        call_ensures(TokenService::revoke_token, (before, raw_token, now), revoked),
        call_ensures(
            TokenService::validate_resume,
            (between, raw_token, session_id, user_id, later),
            resumed,
        ),
        old(between)@ == final(before)@,
    ensures
        resumed is Err,
        revoked is Ok <==> exists|i: int|
            0 <= i < old(before)@.len() && (#[trigger] old(before)@[i]).hash == sha256(
                encode_utf8(raw_token@),
            ),
{
    crate::token::laws::lemma_found(old(before)@, raw_token@);
    if revoked is Ok {
        crate::token::laws::law_revoked_is_refused(
            old(before)@,
            raw_token@,
            now,
            session_id,
            user_id@,
            later,
        );
        let i = crate::token::service::position(old(before)@, raw_token@)->0;
        assert(old(before)@[i].hash == sha256(encode_utf8(raw_token@)));
    } else {
        assert forall|i: int|
            0 <= i < old(before)@.len() implies (#[trigger] old(before)@[i]).hash != sha256(
            encode_utf8(raw_token@),
        ) by {
            if old(before)@[i].hash == sha256(encode_utf8(raw_token@)) {
                crate::token::laws::lemma_present(old(before)@, raw_token@, i);
            }
        }
        crate::token::laws::law_unknown_tokens_are_refused(
            old(before)@,
            raw_token@,
            session_id,
            user_id@,
            later,
        );
    }
}

/// Records are forgotten exactly once they have expired and the retention has passed since they were
/// used or revoked.
pub proof fn law_forgetting_tokens(
    tokens: &mut TokenService,
    now: Timestamp,
    retention: Duration,
    record: TokenView,
)
    requires
        call_ensures(TokenService::cleanup_expired, (tokens, now, retention), ()),
        old(tokens)@.contains(record),
    ensures
        final(tokens)@.contains(record) <==> {
            ||| now.nanos < record.expires_at.nanos
            ||| record.revoked_at matches Some(t) && t.nanos <= now.nanos <= t.nanos
                + retention.nanos()
            ||| record.consumed_at matches Some(t) && t.nanos <= now.nanos <= t.nanos
                + retention.nanos()
        },
{
    crate::token::laws::law_how_long_records_are_kept(old(tokens)@, record, now, retention);
}

/// After a port the next one is tried at the same address, and after the last one the first one at
/// the next address.
pub proof fn law_scanning(
    before: &mut PortScan,
    between: &mut PortScan,
    first: Option<(usize, u16)>,
    second: Option<(usize, u16)>,
)
    requires
        call_ensures(PortScan::next, (before,), first),
        call_ensures(PortScan::next, (between,), second),
        old(between).upcoming() == final(before).upcoming(),
        old(between).ports() == final(before).ports(),
        old(between).hosts() == final(before).hosts(),
        first is Some,
    ensures
        ({
            let (host, port) = first->0;
            let (start, end) = old(before).ports();
            &&& port < end ==> second == Some((host, (port + 1) as u16))
            &&& port == end && host + 1 < old(before).hosts() ==> second is Some && (second->0).0
                == host + 1 && (second->0).1 == start
            &&& port == end && host + 1 >= old(before).hosts() ==> second is None
        }),
{
}

/// A client whose file holds an identifier is known by it, with white space around it or not.
pub proof fn law_being_known(contents: &str, id: Uuid, fresh: Uuid, identity: Identity)
    requires
        call_ensures(choose_client_id, (Some(contents), fresh), identity),
        trimmed(contents@) == uuid_text(id.value),
    ensures
        identity.client_id == id,
        !identity.is_new,
{
}

/// A user who starts a session is handed a token for it, and for nobody else.
pub proof fn law_starting(
    runtime: &mut NeoshdRuntime,
    user_id: &str,
    output: BootstrapOutput,
)
    requires
        call_ensures(NeoshdRuntime::new_session, (runtime, user_id), output),
    ensures
        final(runtime)@.sessions.contains_key(output.session_id),
        final(runtime)@.sessions[output.session_id].owner == user_id@,
        final(runtime)@.sessions[output.session_id].state == SessionState::Created,
        final(runtime)@.tokens.len() == old(runtime)@.tokens.len() + 1,
        final(runtime)@.tokens.last().session_id == output.session_id,
        final(runtime)@.tokens.last().user == user_id@,
        final(runtime)@.tokens.last().token_type == TokenType::Auth,
        final(runtime)@.tokens.last().hash == sha256(encode_utf8(output.auth_token@)),
{
}

/// A message from the server does to a client what its state says of it.
pub proof fn law_following_the_server(
    client: &mut Handshake,
    frame: ServerFrame,
    now: u64,
    step: HandshakeStep,
)
    requires
        call_ensures(Handshake::on_frame, (client, frame, now), step),
    ensures
        answered(old(client)@, frame@, now, step, final(client)@),
{
}

/// A client is heard: the capabilities that its greeting lists are those that it is taken to have,
/// all of them and in their order.
pub proof fn law_hearing_a_greeting(
    payload: &[u8],
    heard: Vec<String>,
    fields: Seq<Option<Seq<u8>>>,
    raw: Seq<u8>,
    list: serde_json::Value,
    sent: Seq<Seq<char>>,
)
    requires
        call_ensures(hello_capabilities, (payload,), heard),
        record_of(payload@, seq!["capabilities"@]) == Ok::<Seq<Option<Seq<u8>>>, Seq<char>>(fields),
        fields[0] == Some(raw),
        json_parse(raw) == Ok::<serde_json::Value, Seq<char>>(list),
        lists(list, sent),
    ensures
        texts(heard@) == sent,
{
    let got = texts(heard@);
    if has_other_items(list) {
        let at = choose|at: nat|
            (#[trigger] json_item(list, at)) is Some && json_as_str(json_item(list, at)->0) is None;
        assert(json_item(list, at) is Some);
    }
    assert(lists(list, got));
    assert(json_item(list, got.len()) is None);
    assert(json_item(list, sent.len()) is None);
    assert forall|i: int| 0 <= i < got.len() implies got[i] == sent[i] by {
        assert(json_item(list, i as nat) is Some);
    }
    assert(got =~= sent);
}

/// A client begins exactly if the first certificate that the server shows is the expected one. It
/// greets the server with everything that it is capable of, and keeps what it was given for later.
pub proof fn law_beginning(
    chain: Vec<Vec<u8>>,
    mode: SessionMode,
    auth_token: String,
    target: String,
    quic_addr: String,
    cert_fingerprint: String,
    client_id: Uuid,
    begun: Result<(Handshake, ClientMessage), QuicClientError>,
)
    requires
        call_ensures(
            Handshake::begin,
            (
                Some(&chain),
                mode,
                auth_token,
                target,
                quic_addr,
                cert_fingerprint,
                client_id,
            ),
            begun,
        ),
    ensures
        begun is Ok <==> chain@.len() > 0 && "sha256:"@ + hex(sha256(chain@[0]@))
            == cert_fingerprint@,
        begun matches Ok(pair) ==> {
            &&& pair.0@.state == ClientState::Connected
            &&& pair.0@.mode == mode@
            &&& pair.0@.auth_token == auth_token@
            &&& pair.0@.target == target@
            &&& pair.0@.quic_addr == quic_addr@
            &&& pair.0@.cert_fingerprint == cert_fingerprint@
            &&& pair.0@.client_id == client_id
            &&& pair.1 matches ClientMessage::Hello { capabilities }
            &&& texts(capabilities@) == seq!["stdin-bytes"@, "resume-v1"@, "client-id-v1"@]
        },
{
}

/// The messages that the C interface builds carry what it was given, without white space around it.
pub proof fn law_building_messages(
    token: String,
    session: String,
    client_id: Uuid,
    auth: Result<ClientMessage, String>,
    resume: Result<ClientMessage, String>,
)
    requires
        call_ensures(build_auth, (TextArgument::Text(token), client_id), auth),
        call_ensures(
            build_resume,
            (TextArgument::Text(session), TextArgument::Text(token), client_id),
            resume,
        ),
    ensures
        auth is Ok <==> trimmed(token@).len() > 0,
        auth matches Ok(message) ==> message matches ClientMessage::Auth {
            token: sent,
            client_id: id,
        } && sent@ == trimmed(token@) && id == client_id,
        resume is Ok <==> trimmed(token@).len() > 0 && trimmed(session@).len() > 0 && uuid_parse(
            trimmed(session@),
        ) is Ok,
        resume matches Ok(message) ==> message matches ClientMessage::Resume {
            session_id,
            resume_token: sent,
            client_id: id,
        } && uuid_parse(trimmed(session@)) == Ok::<u128, Seq<char>>(session_id.value) && sent@
            == trimmed(token@) && id == client_id,
{
}

/// A stranger cannot detach a session, whatever it sends, nor can the owner without sending
/// anything; neither learns anything of the session.
pub proof fn law_refusing_detachment(
    body: Option<&[u8]>,
    session_id: Uuid,
    other: Uuid,
    answer: DetachAnswer,
    same: DetachAnswer,
    silent: DetachAnswer,
)
    requires
        call_ensures(answer_detach, (false, body, session_id), answer),
        call_ensures(answer_detach, (false, body, other), same),
        call_ensures(answer_detach, (true, None, session_id), silent),
    ensures
        !answer.detach,
        answer.text@ == same.text@,
        answer.text@ == "{\"ok\":false,\"error\":\"peer uid mismatch\"}"@,
        !silent.detach,
{
}

/// A client identifier counts exactly if it is one.
pub proof fn law_reading_an_identifier(text: &str, read: Option<Uuid>, none: Option<Uuid>)
    requires
        call_ensures(read_client_id, (Some(text),), read),
        call_ensures(read_client_id, (None::<&str>,), none),
    ensures
        read is Some <==> uuid_parse(text@) is Ok,
        read matches Some(id) ==> uuid_parse(text@) == Ok::<u128, Seq<char>>(id.value),
        none is None,
{
}

/// How often things happen and how large they may be: the client speaks up every 15 seconds, the
/// server looks for tokens to forget every 60 and remembers those that were used for 300, and a
/// control message has 65536 bytes at most.
pub proof fn law_periods_and_limits()
    ensures
        KEEPALIVE_SECONDS == 15,
        TOKEN_SWEEP_SECONDS == 60,
        TOKEN_RETENTION_SECONDS == 300,
        MAX_CONTROL_FRAME == 65536,
{
}

} // verus!
