//! What holds of the server over several requests.

#[allow(unused_imports)]
use crate::client::bootstrap::{is_host_port, is_told_in, payload_error, PayloadView};
#[allow(unused_imports)]
use crate::digest::{is_fingerprint, law_token_length};
#[allow(unused_imports)]
use crate::document::is_line_of;
#[allow(unused_imports)]
use crate::ids::Uuid;
#[allow(unused_imports)]
use crate::protocol::dispatcher::{allowed, ConnectionState};
#[allow(unused_imports)]
use crate::runtime::BootstrapOutput;
#[allow(unused_imports)]
use crate::server::args::{address_text, NewArgs};
#[allow(unused_imports)]
use crate::server::connection::{
    finished, handled, opened, request_kind, AttachRequest, AuthRequest, ConnView, Reply, Request,
    ResumeRequest, Step,
};
#[allow(unused_imports)]
use crate::server::error::NeoshdError;
#[allow(unused_imports)]
use crate::server::state::{
    after_stop_check, bootstraps, is_initial, is_over, own_session, stop_reason, tail,
    CleanupReason, ServerView, StopReason,
};
#[allow(unused_imports)]
use crate::session::laws::{all_consistent, is_consistent};
#[allow(unused_imports)]
use crate::session::manager::{is_owner, SessionState};
#[allow(unused_imports)]
use crate::text::{
    decimal, first_match, is_digit, last_char, lemma_decimal_round_trip, lemma_port_round_trip,
};
#[allow(unused_imports)]
use crate::time::{Timestamp, NANOS_PER_SECOND};
#[allow(unused_imports)]
use crate::token::laws::{
    law_fresh_token_is_accepted, law_spent_stays_spent, lemma_found, lemma_update_keeps_position,
    spent,
};
#[allow(unused_imports)]
use crate::token::service::{
    after_auth, auth_outcome, position, resume_outcome, TokenType, TokenView,
};
use vstd::prelude::*;

verus! {

/// Whether the server serves its session, its sessions are consistent, and the session counts as
/// detached only while nobody is attached to it.
pub open spec fn is_sound(server: ServerView) -> bool {
    &&& server.sessions.contains_key(server.session_id)
    &&& all_consistent(server.sessions)
    &&& server.detached_at is Some ==> own_session(server).state != SessionState::Attached
}

/// Whether a connection that is past `AUTH` has authenticated, and was attached only if it is past
/// `ATTACH` or `RESUME`.
pub open spec fn is_orderly(conn: ConnView) -> bool {
    &&& conn.state == ConnectionState::AwaitAttachOrResume || conn.state
        == ConnectionState::Attached ==> conn.authed
    &&& conn.attached_epoch is Some ==> conn.authed && (conn.state == ConnectionState::Attached
        || conn.state == ConnectionState::Closed)
}

/// Whether a connection goes on after a step.
pub open spec fn goes_on(step: Step) -> bool {
    step is Reply || step is Attached || step is Resumed || step is Resize || step is Ignore
}

/// A server that has just started is sound.
pub proof fn law_server_starts_sound(
    server: ServerView,
    session_id: Uuid,
    owner: Seq<char>,
    owner_uid: u32,
    quic_addr: Seq<char>,
    cert_fingerprint: Seq<char>,
    args: NewArgs,
)
    requires
        is_initial(server, session_id, owner, owner_uid, quic_addr, cert_fingerprint, args),
    ensures
        is_sound(server),
{
}

/// Whatever a connection sends, and however it ends, a sound server stays sound.
pub proof fn law_server_stays_sound(
    conn: ConnView,
    server: ServerView,
    request: Request,
    now: Timestamp,
    step: Step,
    conn2: ConnView,
    server2: ServerView,
)
    requires
        is_sound(server),
        handled(conn, server, request, now, step, conn2, server2),
    ensures
        is_sound(server2),
        server2.session_id == server.session_id,
        is_sound(finished(conn, server, now)),
        is_sound(after_stop_check(server, now)),
{
    lemma_sessions_stay_consistent(server, server2);
    lemma_sessions_stay_consistent(server, finished(conn, server, now));
    lemma_sessions_stay_consistent(server, after_stop_check(server, now));
}

/// Where only the session of the server may have changed, and it is consistent, all are.
proof fn lemma_sessions_stay_consistent(server: ServerView, server2: ServerView)
    requires
        is_sound(server),
    ensures
        server2.session_id == server.session_id && server2.sessions.contains_key(server.session_id)
            && is_consistent(own_session(server2)) && server2.sessions == server.sessions.insert(
            server.session_id,
            own_session(server2),
        ) ==> all_consistent(server2.sessions),
        is_consistent(own_session(server)),
{
    assert(is_consistent(own_session(server)));
}

/// A new connection is orderly, and stays so as long as it goes on.
pub proof fn law_connection_stays_orderly(
    conn: ConnView,
    server: ServerView,
    request: Request,
    now: Timestamp,
    step: Step,
    conn2: ConnView,
    server2: ServerView,
)
    requires
        is_orderly(conn),
        handled(conn, server, request, now, step, conn2, server2),
    ensures
        is_orderly(opened(conn.conn_id)),
        goes_on(step) ==> is_orderly(conn2),
        conn2.conn_id == conn.conn_id,
{
}

/// Nobody is attached to the session who has not authenticated: a connection that is attached had
/// its `AUTH` accepted before.
pub proof fn law_attachment_needs_authentication(
    conn: ConnView,
    server: ServerView,
    request: Request,
    now: Timestamp,
    step: Step,
    conn2: ConnView,
    server2: ServerView,
)
    requires
        handled(conn, server, request, now, step, conn2, server2),
    ensures
        step is Attached || step is Resumed ==> conn.authed,
        conn2.attached_epoch != conn.attached_epoch ==> conn.authed,
        conn.authed ==> conn2.authed,
{
}

/// A connection authenticates with a token that is accepted then and never again.
pub proof fn law_authentication_spends_a_token(
    conn: ConnView,
    server: ServerView,
    request: Request,
    now: Timestamp,
    step: Step,
    conn2: ConnView,
    server2: ServerView,
    later: Timestamp,
)
    requires
        !conn.authed,
        handled(conn, server, request, now, step, conn2, server2),
        conn2.authed,
    ensures
        request matches Request::Auth(Ok(auth)) && {
            &&& auth_outcome(
                server.tokens,
                auth.token@,
                server.session_id,
                server.owner,
                now,
            ) is Ok
            &&& spent(server2.tokens, auth.token@)
            &&& auth_outcome(
                server2.tokens,
                auth.token@,
                server.session_id,
                server.owner,
                later,
            ) is Err
        },
{
    let token = request->Auth_0->Ok_0.token@;
    let tokens = after_auth(server.tokens, token, server.session_id, server.owner, now);
    let i = position(server.tokens, token)->0;
    lemma_found(server.tokens, token);
    lemma_update_keeps_position(
        server.tokens,
        i,
        TokenView { consumed_at: Some(now), ..server.tokens[i] },
        token,
    );
    assert(spent(tokens, token));
    law_spent_stays_spent(
        tokens,
        token,
        token,
        server.session_id,
        server.owner,
        now,
        server2.tokens.last(),
    );
    assert(server2.tokens =~= tokens.push(server2.tokens.last()));
}

/// A request that is refused changes nothing on the server.
pub proof fn law_refusal_changes_nothing(
    conn: ConnView,
    server: ServerView,
    request: Request,
    now: Timestamp,
    step: Step,
    conn2: ConnView,
    server2: ServerView,
)
    requires
        handled(conn, server, request, now, step, conn2, server2),
    ensures
        step is Refuse ==> server2 == server,
        step is Fail ==> server2 == server,
        step is Resize || step is Ignore ==> server2 == server,
{
}

/// While somebody is attached, the session does not expire, however long that lasts.
pub proof fn law_attached_session_never_expires(server: ServerView, now: Timestamp)
    requires
        is_sound(server),
        own_session(server).state == SessionState::Attached,
    ensures
        stop_reason(server, now) is None,
        after_stop_check(server, now) == server,
{
}

/// Once somebody has attached, the limit for the first attachment never ends the session again.
pub proof fn law_initial_limit_applies_once(server: ServerView, now: Timestamp)
    requires
        server.sessions.contains_key(server.session_id),
        own_session(server).state != SessionState::Created,
    ensures
        stop_reason(server, now) != Some(StopReason::InitialAttachTimeout),
{
}

/// Limits of zero never end a session.
pub proof fn law_zero_limits_are_off(server: ServerView, now: Timestamp)
    requires
        server.session_timeout.nanos() == 0,
        server.initial_attach_timeout.nanos() == 0,
        !is_over(server),
    ensures
        stop_reason(server, now) is None,
        after_stop_check(server, now) == server,
{
}

/// A server that stops has its session over.
pub proof fn law_stopping_ends_the_session(server: ServerView, now: Timestamp)
    requires
        is_sound(server),
        stop_reason(server, now) is Some,
    ensures
        is_over(after_stop_check(server, now)),
{
}

/// After `DETACH` the session can be resumed: a connection that has authenticated and presents a
/// token that is good gets the session and the output that was kept.
pub proof fn law_detached_session_can_be_resumed(
    conn: ConnView,
    server: ServerView,
    now: Timestamp,
    step: Step,
    conn2: ConnView,
    server2: ServerView,
    next: ConnView,
    resume: ResumeRequest,
    later: Timestamp,
    next_step: Step,
    next2: ConnView,
    server3: ServerView,
)
    requires
        is_sound(server),
        handled(conn, server, Request::Detach, now, step, conn2, server2),
        step is Detached,
        next.state == ConnectionState::AwaitAttachOrResume,
        next.authed,
        resume.session_id == server.session_id,
        resume_outcome(
            server2.tokens,
            resume.resume_token@,
            server.session_id,
            server.owner,
            later,
        ) is Ok,
        handled(next, server2, Request::Resume(Ok(resume)), later, next_step, next2, server3),
    ensures
        next_step is Resumed,
        next_step->replay_bytes == server.replay.len(),
        own_session(server3).attached_conn_id == Some(next.conn_id),
        own_session(server3).state == SessionState::Attached,
{
    assert(is_consistent(own_session(server)));
}

/// After `CLOSE` the session is over: no connection can attach to it or resume it any more.
pub proof fn law_closed_session_cannot_be_resumed(
    conn: ConnView,
    server: ServerView,
    now: Timestamp,
    step: Step,
    conn2: ConnView,
    server2: ServerView,
    next: ConnView,
    request: Request,
    later: Timestamp,
    next_step: Step,
    next2: ConnView,
    server3: ServerView,
)
    requires
        is_sound(server),
        handled(conn, server, Request::Close, now, step, conn2, server2),
        step is Closed,
        handled(next, server2, request, later, next_step, next2, server3),
    ensures
        is_over(server2),
        stop_reason(server2, later) is Some,
        next_step !is Attached,
        next_step !is Resumed,
{
    assert(is_consistent(own_session(server)));
}

/// A client that resumes while it is still attached replaces its old connection at once, and
/// neither a late `DETACH` of the old connection nor its end takes the session away again, unless
/// the shell is gone.
pub proof fn law_takeover_leaves_old_connection_powerless(
    old_conn: ConnView,
    next: ConnView,
    server: ServerView,
    resume: ResumeRequest,
    client: Uuid,
    now: Timestamp,
    step: Step,
    next2: ConnView,
    server2: ServerView,
    later: Timestamp,
    late_step: Step,
    old_conn2: ConnView,
    server3: ServerView,
)
    requires
        is_sound(server),
        !server.pty_exited,
        old_conn.attached_epoch is Some,
        is_owner(
            server.sessions,
            server.session_id,
            old_conn.conn_id,
            old_conn.attached_epoch->0,
        ),
        own_session(server).active_client_id == Some(client),
        next.negotiated,
        next.authed,
        next.state == ConnectionState::AwaitAttachOrResume,
        next.conn_id != old_conn.conn_id,
        resume.session_id == server.session_id,
        resume.client_id == Some(client),
        resume_outcome(server.tokens, resume.resume_token@, server.session_id, server.owner, now)
            is Ok,
        handled(next, server, Request::Resume(Ok(resume)), now, step, next2, server2),
        old_conn.state == ConnectionState::Attached,
        handled(old_conn, server2, Request::Detach, later, late_step, old_conn2, server3),
    ensures
        step is Resumed,
        step->replaced == Some(old_conn.conn_id),
        own_session(server2).attached_conn_id == Some(next.conn_id),
        own_session(server2).state == SessionState::Attached,
        late_step is Fail,
        server3 == server2,
        finished(old_conn, server2, later) == server2,
{
    assert(is_consistent(own_session(server)));
}

/// Without negotiation, client identifiers are ignored: a session that somebody is attached to is
/// refused to everybody else.
pub proof fn law_no_takeover_without_negotiation(
    conn: ConnView,
    server: ServerView,
    resume: ResumeRequest,
    now: Timestamp,
    step: Step,
    conn2: ConnView,
    server2: ServerView,
)
    requires
        is_sound(server),
        !conn.negotiated,
        own_session(server).state == SessionState::Attached,
        handled(conn, server, Request::Resume(Ok(resume)), now, step, conn2, server2),
    ensures
        step is Refuse,
        server2 == server,
{
    assert(is_consistent(own_session(server)));
}

/// Whether two states belong to the same server: it serves the same session of the same owner at
/// the same address under the same certificate.
pub open spec fn serves_same(a: ServerView, b: ServerView) -> bool {
    &&& a.session_id == b.session_id
    &&& a.owner == b.owner
    &&& a.owner_uid == b.owner_uid
    &&& a.quic_addr == b.quic_addr
    &&& a.cert_fingerprint == b.cert_fingerprint
}

/// Nothing that happens to a server changes which session it serves, for whom, where, and under
/// which certificate.
pub proof fn law_service_is_stable(
    conn: ConnView,
    server: ServerView,
    request: Request,
    now: Timestamp,
    step: Step,
    conn2: ConnView,
    server2: ServerView,
    renewed: ServerView,
    output: BootstrapOutput,
)
    requires
        handled(conn, server, request, now, step, conn2, server2),
        bootstraps(server, renewed, output),
    ensures
        serves_same(server, server2),
        serves_same(server, finished(conn, server, now)),
        serves_same(server, after_stop_check(server, now)),
        serves_same(server, renewed),
{
}

/// A token that is renewed comes with the session, the address and the fingerprint that were
/// handed out with the first one.
pub proof fn law_renewal_reflects_bootstrap(
    before: ServerView,
    first: ServerView,
    output: BootstrapOutput,
    later: ServerView,
    renewed: ServerView,
    again: BootstrapOutput,
)
    requires
        bootstraps(before, first, output),
        serves_same(first, later),
        bootstraps(later, renewed, again),
    ensures
        again.session_id == output.session_id,
        again.quic_addr@ == output.quic_addr@,
        again.cert_fingerprint@ == output.cert_fingerprint@,
{
}

/// A token that is spent is refused whoever presents it, and the client is told `AUTH_FAILED`.
pub proof fn law_spent_token_fails_authentication(
    conn: ConnView,
    server: ServerView,
    auth: AuthRequest,
    now: Timestamp,
    step: Step,
    conn2: ConnView,
    server2: ServerView,
    error: NeoshdError,
)
    requires
        conn.state == ConnectionState::AwaitAuth,
        spent(server.tokens, auth.token@),
        handled(conn, server, Request::Auth(Ok(auth)), now, step, conn2, server2),
        step matches Step::Refuse(refusal) ==> refusal.sends(error),
    ensures
        step is Refuse,
        error.code() == "AUTH_FAILED"@,
        conn2.authed == conn.authed,
        server2 == server,
{
}

/// A message of no known kind, or of a kind that is not expected now, changes nothing, and the
/// client is told `PROTOCOL_ERROR`.
pub proof fn law_disorder_is_a_protocol_error(
    conn: ConnView,
    server: ServerView,
    request: Request,
    now: Timestamp,
    step: Step,
    conn2: ConnView,
    server2: ServerView,
    error: NeoshdError,
)
    requires
        match request_kind(request) {
            Some(kind) => !allowed(conn.state, kind),
            None => true,
        },
        handled(conn, server, request, now, step, conn2, server2),
        step matches Step::Refuse(refusal) ==> refusal.sends(error),
    ensures
        step is Refuse,
        error.code() == "PROTOCOL_ERROR"@,
        conn2 == conn,
        server2 == server,
{
}

/// A connection that has authenticated gets the session if nobody is attached to it and its life
/// is not over.
pub proof fn law_authenticated_client_can_attach(
    conn: ConnView,
    server: ServerView,
    attach: AttachRequest,
    now: Timestamp,
    step: Step,
    conn2: ConnView,
    server2: ServerView,
)
    requires
        is_sound(server),
        conn.state == ConnectionState::AwaitAttachOrResume,
        conn.authed,
        own_session(server).state == SessionState::Created || own_session(server).state
            == SessionState::Detached,
        attach.session_id == server.session_id,
        handled(conn, server, Request::Attach(Ok(attach)), now, step, conn2, server2),
    ensures
        step == (Step::Attached { session_id: server.session_id }),
        own_session(server2).attached_conn_id == Some(conn.conn_id),
        own_session(server2).state == SessionState::Attached,
        server2.detached_at is None,
{
    assert(is_consistent(own_session(server)));
}

/// A session that was detached waits for as long as its limit says, and no longer.
pub proof fn law_detached_session_waits(
    conn: ConnView,
    server: ServerView,
    now: Timestamp,
    step: Step,
    conn2: ConnView,
    server2: ServerView,
    later: Timestamp,
)
    requires
        is_sound(server),
        handled(conn, server, Request::Detach, now, step, conn2, server2),
        step is Detached,
        now.nanos <= later.nanos,
    ensures
        server.session_timeout.nanos() == 0 || later.nanos - now.nanos
            < server.session_timeout.nanos() ==> stop_reason(server2, later) is None,
        0 < server.session_timeout.nanos() <= later.nanos - now.nanos ==> stop_reason(
            server2,
            later,
        ) == Some(StopReason::DetachedTimeout),
{
    assert(is_consistent(own_session(server)));
}

/// A server that has just started waits for its first client for as long as its limit says, and no
/// longer.
pub proof fn law_new_session_waits(
    server: ServerView,
    session_id: Uuid,
    owner: Seq<char>,
    owner_uid: u32,
    quic_addr: Seq<char>,
    cert_fingerprint: Seq<char>,
    args: NewArgs,
    now: Timestamp,
)
    requires
        is_initial(server, session_id, owner, owner_uid, quic_addr, cert_fingerprint, args),
        server.created_at.nanos <= now.nanos,
    ensures
        ({
            let limit = args.initial_attach_timeout * NANOS_PER_SECOND;
            let waited = now.nanos - server.created_at.nanos;
            &&& limit == 0 || waited < limit ==> stop_reason(server, now) is None
            &&& 0 < limit <= waited ==> stop_reason(server, now) == Some(
                StopReason::InitialAttachTimeout,
            )
        }),
{
}

/// Cleaning up after a connection that closed the session does not touch the session any more.
pub proof fn law_close_survives_cleanup(
    conn: ConnView,
    server: ServerView,
    now: Timestamp,
    step: Step,
    conn2: ConnView,
    server2: ServerView,
    later: Timestamp,
)
    requires
        handled(conn, server, Request::Close, now, step, conn2, server2),
        step is Closed,
    ensures
        own_session(server2).state == SessionState::Terminated,
        finished(conn2, server2, later).sessions == server2.sessions,
{
    assert(finished(conn2, server2, later).sessions =~= server2.sessions);
}

/// The pieces of output one after the other.
pub open spec fn concatenated(chunks: Seq<Seq<u8>>) -> Seq<u8>
    decreases chunks.len(),
{
    if chunks.len() == 0 {
        Seq::empty()
    } else {
        concatenated(chunks.drop_last()) + chunks.last()
    }
}

/// What is kept for replay after pieces of output were appended one by one.
pub open spec fn replayed(chunks: Seq<Seq<u8>>, cap: nat) -> Seq<u8>
    decreases chunks.len(),
{
    if chunks.len() == 0 {
        Seq::empty()
    } else {
        tail(replayed(chunks.drop_last(), cap) + chunks.last(), cap)
    }
}

/// What is kept for replay is the end of all output, as much of it as the cap allows, however the
/// output was cut into pieces.
pub proof fn law_replay_is_the_end_of_the_output(chunks: Seq<Seq<u8>>, cap: nat)
    ensures
        replayed(chunks, cap) == tail(concatenated(chunks), cap),
        replayed(chunks, cap).len() <= cap,
    decreases chunks.len(),
{
    if chunks.len() > 0 {
        law_replay_is_the_end_of_the_output(chunks.drop_last(), cap);
        let all = concatenated(chunks.drop_last());
        let last = chunks.last();
        assert(tail(tail(all, cap) + last, cap) =~= tail(all + last, cap));
    }
}

/// Behind a colon and a text without colons, the last colon is that one.
proof fn lemma_last_colon(text: Seq<char>, colon: int, before: int)
    requires
        0 <= colon < before <= text.len(),
        text[colon] == ':',
        forall|i: int| colon < i < text.len() ==> #[trigger] text[i] != ':',
    ensures
        last_char(text, ':', before) == Some(colon),
    decreases before,
{
    if before - 1 > colon {
        assert(text[before - 1] != ':');
        lemma_last_colon(text, colon, before - 1);
    }
}

/// Behind a text without `]`, the first `]:` is the one that follows it.
proof fn lemma_first_bracket(host: Seq<char>, rest: Seq<char>, from: int)
    requires
        !host.contains(']'),
        0 <= from <= host.len(),
    ensures
        first_match(host + seq![']', ':'] + rest, seq![']', ':'], from) == Some(
            host.len() as int,
        ),
    decreases host.len() - from,
{
    let text = host + seq![']', ':'] + rest;
    let here = text.subrange(from, from + 2);
    if from < host.len() {
        assert(text[from] == host[from]);
        assert(host.contains(host[from]));
        assert(here[0] != ']');
        lemma_first_bracket(host, rest, from + 1);
    } else {
        assert(here =~= seq![']', ':']);
    }
}

/// An address that is given to clients is a host and a port to them, whether the host is a name or
/// an IPv4 or IPv6 address.
pub proof fn law_addresses_are_accepted(host: Seq<char>, port: u16)
    requires
        host.len() > 0,
        !host.contains('['),
        !host.contains(']'),
    ensures
        is_host_port(address_text(host, port)),
{
    let digits = decimal(port as nat);
    let text = address_text(host, port);
    let n = host.len() as int;
    lemma_decimal_round_trip(port as nat);
    lemma_port_round_trip(port);
    if host.contains(':') {
        reveal_strlit("[");
        reveal_strlit("]:");
        assert("["@ =~= seq!['[']);
        assert("]:"@ =~= seq![']', ':']);
        assert(text[0] == '[');
        assert(text.skip(1) =~= host + seq![']', ':'] + digits);
        lemma_first_bracket(host, digits, 0);
        assert(text.skip(1).skip(n + 2) =~= digits);
    } else {
        reveal_strlit(":");
        assert(":"@.len() == 1 && ":"@[0] == ':');
        assert(text =~= host.push(':') + digits);
        assert(text[n] == ':');
        assert forall|i: int| n < i < text.len() implies #[trigger] text[i] != ':' by {
            assert(text[i] == digits[i - n - 1]);
            assert(is_digit(digits[i - n - 1]));
        }
        lemma_last_colon(text, n, text.len() as int);
        assert(text.skip(n + 1) =~= digits);
        assert(text[0] == host[0]);
        assert(host.contains(host[0]));
    }
}

/// What the server hands out is accepted by the client, for any life of the token of a second or
/// more, and the line that the server prints of it is the one that the client reads.
pub proof fn law_bootstrap_is_accepted(
    before: ServerView,
    after: ServerView,
    output: BootstrapOutput,
    host: Seq<char>,
    port: u16,
    payload: PayloadView,
)
    requires
        bootstraps(before, after, output),
        before.auth_token_ttl.secs() > 0,
        before.quic_addr == address_text(host, port),
        host.len() > 0,
        !host.contains('['),
        !host.contains(']'),
        is_fingerprint(before.cert_fingerprint),
        payload == (PayloadView {
            session_id: output.session_id,
            auth_token: output.auth_token@,
            auth_token_expires_in_seconds: output.auth_token_expires_in_seconds,
            quic_addr: output.quic_addr@,
            cert_fingerprint: output.cert_fingerprint@,
        }),
    ensures
        payload_error(payload) is None,
        forall|text: Seq<char>| #[trigger]
            is_line_of(text, output.fields()) ==> is_told_in(text, payload),
{
    law_token_length(output.auth_token@);
    law_addresses_are_accepted(host, port);
}

/// A token that the server hands out authenticates a connection of the owner until it expires, and
/// with it the session can be joined.
pub proof fn law_bootstrap_authenticates(
    before: ServerView,
    after: ServerView,
    output: BootstrapOutput,
    conn: ConnView,
    auth: AuthRequest,
    now: Timestamp,
    step: Step,
    conn2: ConnView,
    server2: ServerView,
)
    requires
        bootstraps(before, after, output),
        position(before.tokens, output.auth_token@) is None,
        now.nanos < after.tokens.last().expires_at.nanos,
        conn.state == ConnectionState::AwaitAuth,
        auth.token@ == output.auth_token@,
        handled(conn, after, Request::Auth(Ok(auth)), now, step, conn2, server2),
    ensures
        step matches Step::Reply(Reply::AuthOk { session_id, .. }) && session_id
            == output.session_id,
        conn2.authed,
        conn2.state == ConnectionState::AwaitAttachOrResume,
{
    let record = after.tokens.last();
    law_fresh_token_is_accepted(
        before.tokens,
        record,
        output.auth_token@,
        TokenType::Auth,
        before.session_id,
        before.owner,
        record.created_at,
        before.auth_token_ttl,
        now,
    );
    assert(after.tokens =~= before.tokens.push(record));
}

/// The token that a client is given when it authenticates resumes the session until it expires, on
/// this connection or any other of the owner, unless it is revoked.
pub proof fn law_authenticated_client_can_resume(
    conn: ConnView,
    server: ServerView,
    auth: AuthRequest,
    now: Timestamp,
    step: Step,
    conn2: ConnView,
    server2: ServerView,
    later: Timestamp,
)
    requires
        handled(conn, server, Request::Auth(Ok(auth)), now, step, conn2, server2),
        step matches Step::Reply(Reply::AuthOk { resume_token, .. }) && position(
            server.tokens,
            resume_token@,
        ) is None,
        later.nanos < server2.tokens.last().expires_at.nanos,
    ensures
        resume_outcome(
            server2.tokens,
            step->Reply_0->resume_token@,
            server.session_id,
            server.owner,
            later,
        ) is Ok,
{
    let token = step->Reply_0->resume_token@;
    let spent_tokens = after_auth(
        server.tokens,
        auth.token@,
        server.session_id,
        server.owner,
        now,
    );
    let i = position(server.tokens, auth.token@)->0;
    lemma_found(server.tokens, auth.token@);
    lemma_update_keeps_position(
        server.tokens,
        i,
        TokenView { consumed_at: Some(now), ..server.tokens[i] },
        token,
    );
    let record = server2.tokens.last();
    law_fresh_token_is_accepted(
        spent_tokens,
        record,
        token,
        TokenType::Resume,
        server.session_id,
        server.owner,
        record.created_at,
        server.resume_token_ttl,
        later,
    );
    assert(server2.tokens =~= spent_tokens.push(record));
}

/// What is kept for replay, byte by byte: as many bytes of the output as the cap allows, and those
/// are its last ones, in their order.
pub proof fn law_replay_keeps_the_last_bytes(chunks: Seq<Seq<u8>>, cap: nat)
    ensures
        ({
            let output = concatenated(chunks);
            let kept = replayed(chunks, cap);
            &&& kept.len() == if output.len() < cap {
                output.len()
            } else {
                cap
            }
            &&& forall|i: int|
                0 <= i < kept.len() ==> (#[trigger] kept[i]) == output[output.len() - kept.len()
                    + i]
        }),
{
    law_replay_is_the_end_of_the_output(chunks, cap);
}

/// Whatever is printed last is replayed: a piece of output that fits is kept whole, at the end, and
/// what was kept before it comes before it.
pub proof fn law_latest_output_is_replayed(kept: Seq<u8>, chunk: Seq<u8>, cap: nat)
    requires
        kept.len() <= cap,
    ensures
        ({
            let after = tail(kept + chunk, cap);
            &&& after.len() <= cap
            &&& kept.len() + chunk.len() <= cap ==> after == kept + chunk
            &&& chunk.len() <= cap ==> forall|i: int|
                0 <= i < chunk.len() ==> after[after.len() - chunk.len() + i]
                    == #[trigger] chunk[i]
            &&& chunk.len() >= cap ==> after.len() == cap && forall|i: int|
                0 <= i < cap ==> (#[trigger] after[i]) == chunk[chunk.len() - cap + i]
            &&& chunk.len() <= cap < kept.len() + chunk.len() ==> after.len() == cap && forall|
                i: int,
            |
                0 <= i < cap - chunk.len() ==> (#[trigger] after[i]) == kept[kept.len()
                    + chunk.len() - cap + i]
        }),
{
}

/// A connection that is lost while the shell runs leaves the session to be resumed: nobody is
/// attached to it, it waits for as long as its limit says and no longer, and a connection that has
/// authenticated and presents a token that is good gets it, with the output that was kept.
pub proof fn law_lost_connection_can_be_resumed(
    conn: ConnView,
    server: ServerView,
    now: Timestamp,
    later: Timestamp,
    next: ConnView,
    resume: ResumeRequest,
    next_step: Step,
    next2: ConnView,
    server3: ServerView,
)
    requires
        is_sound(server),
        !server.pty_exited,
        conn.cleanup_reason == CleanupReason::ConnectionEnd,
        conn.attached_epoch is Some,
        server.sessions[server.session_id].attached_conn_id == Some(conn.conn_id),
        server.sessions[server.session_id].attach_epoch == conn.attached_epoch->0,
        now.nanos <= later.nanos,
        next.state == ConnectionState::AwaitAttachOrResume,
        next.authed,
        resume.session_id == server.session_id,
        resume_outcome(
            server.tokens,
            resume.resume_token@,
            server.session_id,
            server.owner,
            later,
        ) is Ok,
        handled(
            next,
            finished(conn, server, now),
            Request::Resume(Ok(resume)),
            later,
            next_step,
            next2,
            server3,
        ),
    ensures
        ({
            let lost = finished(conn, server, now);
            let session = lost.sessions[lost.session_id];
            let limit = server.session_timeout.nanos();
            &&& session.state == SessionState::Detached
            &&& session.attached_conn_id is None
            &&& session.active_client_id is None
            &&& lost.detached_at == Some(now)
            &&& lost.replay == server.replay
            &&& lost.tokens == server.tokens
            &&& lost.pty_exited == server.pty_exited
            &&& limit == 0 || later.nanos - now.nanos < limit ==> stop_reason(lost, later) is None
            &&& 0 < limit <= later.nanos - now.nanos ==> stop_reason(lost, later) == Some(
                StopReason::DetachedTimeout,
            )
        }),
        next_step matches Step::Resumed { session_id, replay_bytes, replaced } && session_id
            == server.session_id && replay_bytes == server.replay.len() && replaced is None,
        server3.sessions[server.session_id].state == SessionState::Attached,
        server3.sessions[server.session_id].attached_conn_id == Some(next.conn_id),
        server3.detached_at is None,
        server3.replay == server.replay,
{
    assert(is_consistent(own_session(server)));
}

/// A connection that ends after its shell is gone ends the session: the server stops, and nobody
/// can attach to the session or resume it.
pub proof fn law_end_of_the_shell_ends_the_session(
    conn: ConnView,
    server: ServerView,
    now: Timestamp,
    later: Timestamp,
    next: ConnView,
    request: Request,
    next_step: Step,
    next2: ConnView,
    server3: ServerView,
)
    requires
        is_sound(server),
        server.pty_exited,
        conn.cleanup_reason == CleanupReason::ConnectionEnd,
        conn.attached_epoch is Some,
        handled(next, finished(conn, server, now), request, later, next_step, next2, server3),
    ensures
        ({
            let over = finished(conn, server, now);
            &&& over.sessions[over.session_id].state == SessionState::Terminated
            &&& over.sessions[over.session_id].attached_conn_id is None
            &&& over.detached_at is None
            &&& stop_reason(over, later) == Some(StopReason::SessionTerminated)
        }),
        next_step !is Attached,
        next_step !is Resumed,
{
    assert(is_consistent(own_session(server)));
}

/// A connection that was never attached, or that does not own the session any more, takes nothing
/// from it when it ends while the shell runs.
pub proof fn law_strangers_take_nothing(conn: ConnView, server: ServerView, now: Timestamp)
    requires
        conn.attached_epoch is None || !server.pty_exited || conn.cleanup_reason
            == CleanupReason::ExplicitDetach,
        conn.attached_epoch is None || server.sessions[server.session_id].attached_conn_id != Some(
            conn.conn_id,
        ) || server.sessions[server.session_id].attach_epoch != conn.attached_epoch->0,
    ensures
        finished(conn, server, now) == server,
{
}

/// When a server stops, and why: when nobody was attached for as long as the limit says since the
/// session was detached, when nobody attached at all for as long as the limit for that says, or
/// when the session is over. A limit of zero is none. Nothing but the session changes, and it
/// changes only by expiring where a limit has passed.
pub proof fn law_when_the_server_stops(server: ServerView, now: Timestamp)
    requires
        server.sessions.contains_key(server.session_id),
    ensures
        ({
            let session = server.sessions[server.session_id];
            let left = server.session_timeout.nanos() > 0 && (server.detached_at matches Some(t)
                && t.nanos <= now.nanos && t.nanos + server.session_timeout.nanos() <= now.nanos);
            let ignored = server.initial_attach_timeout.nanos() > 0 && session.state
                == SessionState::Created && server.created_at.nanos <= now.nanos
                && server.created_at.nanos + server.initial_attach_timeout.nanos() <= now.nanos;
            let after = after_stop_check(server, now);
            &&& stop_reason(server, now) == Some(StopReason::DetachedTimeout) <==> left
            &&& stop_reason(server, now) == Some(StopReason::InitialAttachTimeout) <==> !left
                && ignored
            &&& stop_reason(server, now) == Some(StopReason::SessionTerminated) <==> !left
                && !ignored && session.state == SessionState::Terminated
            &&& stop_reason(server, now) == Some(StopReason::SessionExpired) <==> !left && !ignored
                && session.state == SessionState::Expired
            &&& left || ignored ==> after.sessions[server.session_id].state == SessionState::Expired
                && after.sessions[server.session_id].attached_conn_id is None
            &&& !left && !ignored ==> after == server
            &&& after.tokens == server.tokens && after.replay == server.replay
            &&& after.session_id == server.session_id && after.owner == server.owner
        }),
{
}

/// The settings of a server are what was asked for, in seconds; and it starts with a session of its
/// own to which nobody is attached, without tokens, without output, and with its shell unspoilt.
pub proof fn law_server_starts_as_asked(
    server: ServerView,
    session_id: Uuid,
    owner: Seq<char>,
    owner_uid: u32,
    quic_addr: Seq<char>,
    cert_fingerprint: Seq<char>,
    args: NewArgs,
)
    requires
        is_initial(server, session_id, owner, owner_uid, quic_addr, cert_fingerprint, args),
    ensures
        server.session_timeout.nanos() == args.session_timeout * 1_000_000_000,
        server.initial_attach_timeout.nanos() == args.initial_attach_timeout * 1_000_000_000,
        server.auth_token_ttl.nanos() == args.auth_token_ttl * 1_000_000_000,
        server.resume_token_ttl.nanos() == args.resume_token_ttl * 1_000_000_000,
        server.replay_cap == args.replay_buffer_bytes,
        server.session_id == session_id,
        server.owner == owner,
        server.owner_uid == owner_uid,
        server.sessions.contains_key(session_id),
        server.sessions[session_id].owner == owner,
        server.sessions[session_id].quic_addr == quic_addr,
        server.sessions[session_id].cert_fingerprint == cert_fingerprint,
        server.sessions[session_id].state == SessionState::Created,
        server.sessions[session_id].attached_conn_id is None,
        server.tokens.len() == 0,
        server.replay.len() == 0,
        server.detached_at is None,
        !server.pty_exited,
{
}

/// What is handed out to a client that is to connect: the session and address of the server, and a
/// token that authenticates its owner for as long as is said. Nothing else changes.
pub proof fn law_bootstrap_tells_of_the_server(
    before: ServerView,
    after: ServerView,
    output: BootstrapOutput,
)
    requires
        bootstraps(before, after, output),
    ensures
        output.session_id == before.session_id,
        output.quic_addr@ == before.quic_addr,
        output.cert_fingerprint@ == before.cert_fingerprint,
        output.auth_token_expires_in_seconds == before.auth_token_ttl.nanos() / 1_000_000_000,
        after.tokens.len() == before.tokens.len() + 1,
        after.tokens.last().token_type == TokenType::Auth,
        after.tokens.last().session_id == before.session_id,
        after.tokens.last().user == before.owner,
        after.tokens.last().expires_at.nanos == after.tokens.last().created_at.nanos
            + before.auth_token_ttl.nanos(),
        after.tokens.last().consumed_at is None,
        after.tokens.last().revoked_at is None,
        forall|i: int|
            0 <= i < before.tokens.len() ==> after.tokens[i] == #[trigger] before.tokens[i],
        after.sessions == before.sessions,
        after.replay == before.replay,
        after.detached_at == before.detached_at,
{
    assert forall|i: int| 0 <= i < before.tokens.len() implies after.tokens[i]
        == #[trigger] before.tokens[i] by {
        assert(after.tokens.drop_last()[i] == after.tokens[i]);
    }
}

} // verus!
