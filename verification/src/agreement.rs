//! What the client and the server make of each other's messages. Where a client reads a message of
//! the server, the document that was sent and the one that was read from its frame are told apart.

#[allow(unused_imports)]
use crate::client::answers::{says_auth_ok, says_resume_ok, AuthOkView, ResumeOk};
#[allow(unused_imports)]
use crate::client::bootstrap::{tells, PayloadView};
#[allow(unused_imports)]
use crate::client::detach::asks_to_detach;
#[allow(unused_imports)]
use crate::client::session::{
    answered, client_capabilities, has_type, joins, meaning, remembered, ClientMessage,
    HandshakeStep, HandshakeView, ModeView, Watched,
};
#[allow(unused_imports)]
use crate::client::state::ClientState;
#[allow(unused_imports)]
use crate::client::wire::{
    detach_fields, message_fields, ping_fields, resize_fields, unknown_fields,
};
#[allow(unused_imports)]
use crate::document::{
    distinct_keys, has_fields, is_simple, lemma_field, lemma_simple_fields_are_flat,
};
#[allow(unused_imports)]
use crate::ids::Uuid;
#[allow(unused_imports)]
use crate::json::{is_flat, json_member, lists, reads_alike, spells};
#[allow(unused_imports)]
use crate::protocol::messages::{
    document_kind, law_kind_round_trip, ErrorMessage, MessageKind,
};
#[allow(unused_imports)]
use crate::server::connection::{offers_client_id, Reply};
#[allow(unused_imports)]
use crate::server::error::NeoshdError;
#[allow(unused_imports)]
use crate::server::wire::{
    attach_ok_fields, bootstrap_fields, error_fields, hears, lemma_bootstrap_keys, reply_fields,
    resume_ok_fields,
};
#[allow(unused_imports)]
use crate::text::texts;
use vstd::prelude::*;

verus! {

/// The keys that documents have are different from each other.
proof fn lemma_keys_differ()
    ensures
        "type"@.len() == 4 && "type"@[0] == 't',
        "code"@.len() == 4 && "code"@[0] == 'c',
        "rows"@.len() == 4 && "rows"@[0] == 'r',
        "cols"@.len() == 4 && "cols"@[0] == 'c',
        "nonce"@.len() == 5 && "token"@.len() == 5,
        "method"@.len() == 6,
        "message"@.len() == 7,
        "client_id"@.len() == 9 && "retryable"@.len() == 9 && "quic_addr"@.len() == 9,
        "session_id"@.len() == 10 && "session_id"@[0] == 's',
        "auth_token"@.len() == 10 && "auth_token"@[0] == 'a',
        "attach_mode"@.len() == 11,
        "capabilities"@.len() == 12 && "resume_token"@.len() == 12 && "replay_bytes"@.len() == 12,
        "client_version"@.len() == 14 && "server_version"@.len() == 14,
        "protocol_version"@.len() == 16 && "cert_fingerprint"@.len() == 16,
        "session_timeout_seconds"@.len() == 23,
        "auth_token_expires_in_seconds"@.len() == 29,
        "resume_token_expires_in_seconds"@.len() == 31,
        "raw"@.len() == 3,
{
    reveal_strlit("type");
    reveal_strlit("code");
    reveal_strlit("rows");
    reveal_strlit("cols");
    reveal_strlit("nonce");
    reveal_strlit("token");
    reveal_strlit("method");
    reveal_strlit("message");
    reveal_strlit("client_id");
    reveal_strlit("retryable");
    reveal_strlit("quic_addr");
    reveal_strlit("session_id");
    reveal_strlit("auth_token");
    reveal_strlit("attach_mode");
    reveal_strlit("capabilities");
    reveal_strlit("resume_token");
    reveal_strlit("replay_bytes");
    reveal_strlit("client_version");
    reveal_strlit("server_version");
    reveal_strlit("protocol_version");
    reveal_strlit("cert_fingerprint");
    reveal_strlit("session_timeout_seconds");
    reveal_strlit("auth_token_expires_in_seconds");
    reveal_strlit("resume_token_expires_in_seconds");
    reveal_strlit("raw");
}

/// The kind of message that a client sends.
pub open spec fn kind_of(message: ClientMessage) -> MessageKind {
    match message {
        ClientMessage::Hello { .. } => MessageKind::Hello,
        ClientMessage::Auth { .. } => MessageKind::Auth,
        ClientMessage::Attach { .. } => MessageKind::Attach,
        ClientMessage::Resume { .. } => MessageKind::Resume,
        ClientMessage::Detach => MessageKind::Detach,
        ClientMessage::Close => MessageKind::Close,
    }
}

/// Every message that a client sends is of the kind that the server takes it for, and can always
/// be read.
pub proof fn law_client_messages_are_recognised(value: serde_json::Value, message: ClientMessage)
    requires
        has_fields(value, message_fields(message)),
        message matches ClientMessage::Hello { capabilities } ==> capabilities@.len() > 0,
    ensures
        document_kind(value) == Some(kind_of(message)),
        is_flat(value),
{
    lemma_keys_differ();
    let fields = message_fields(message);
    assert(distinct_keys(fields));
    lemma_field(value, fields, 0);
    law_kind_round_trip(kind_of(message));
    assert forall|i: int| 0 <= i < fields.len() implies is_simple((#[trigger] fields[i]).1) by {}
    lemma_simple_fields_are_flat(value, fields);
}

/// A client that says what it is capable of gets client identifiers negotiated: the server finds
/// the capability in the list that it reads from the message.
pub proof fn law_client_negotiates_identifiers(
    sent: serde_json::Value,
    message: ClientMessage,
    payload: Seq<u8>,
    read: Seq<Seq<char>>,
)
    requires
        message matches ClientMessage::Hello { capabilities } && texts(capabilities@)
            == client_capabilities(),
        has_fields(sent, message_fields(message)),
        spells(payload, sent),
        hears(payload, read),
    ensures
        read == client_capabilities(),
        offers_client_id(read),
{
    lemma_keys_differ();
    let fields = message_fields(message);
    assert(distinct_keys(fields));
    lemma_field(sent, fields, 3);
    assert(lists(json_member(sent, "capabilities"@)->0, client_capabilities()));
    assert(read[2] == "client-id-v1"@);
}

/// A new size of the terminal is recognised, and can always be read.
pub proof fn law_resize_is_recognised(value: serde_json::Value, rows: u16, cols: u16)
    requires
        has_fields(value, resize_fields(rows, cols)),
    ensures
        document_kind(value) == Some(MessageKind::Resize),
        is_flat(value),
{
    lemma_keys_differ();
    assert(distinct_keys(resize_fields(rows, cols)));
    lemma_field(value, resize_fields(rows, cols), 0);
    law_kind_round_trip(MessageKind::Resize);
    lemma_simple_fields_are_flat(value, resize_fields(rows, cols));
}

/// A `PING` is recognised, and can always be read.
pub proof fn law_ping_is_recognised(value: serde_json::Value, nonce: Seq<char>)
    requires
        has_fields(value, ping_fields(nonce)),
    ensures
        document_kind(value) == Some(MessageKind::Ping),
        is_flat(value),
{
    lemma_keys_differ();
    assert(distinct_keys(ping_fields(nonce)));
    lemma_field(value, ping_fields(nonce), 0);
    law_kind_round_trip(MessageKind::Ping);
    lemma_simple_fields_are_flat(value, ping_fields(nonce));
}

/// What stands for a message that makes no sense is an error.
pub proof fn law_unknown_messages_are_errors(value: serde_json::Value, raw: serde_json::Value)
    requires
        has_fields(value, unknown_fields(raw)),
    ensures
        document_kind(value) == Some(MessageKind::Error),
{
    lemma_keys_differ();
    assert(distinct_keys(unknown_fields(raw)));
    lemma_field(value, unknown_fields(raw), 0);
    law_kind_round_trip(MessageKind::Error);
}

/// A request to detach a session is granted by the client that is attached to it.
pub proof fn law_detach_requests_are_granted(value: serde_json::Value, session_id: Uuid)
    requires
        has_fields(value, detach_fields(session_id)),
    ensures
        asks_to_detach(value, session_id),
        is_flat(value),
{
    lemma_keys_differ();
    assert(distinct_keys(detach_fields(session_id)));
    lemma_field(value, detach_fields(session_id), 0);
    lemma_field(value, detach_fields(session_id), 1);
    lemma_simple_fields_are_flat(value, detach_fields(session_id));
}

/// What a server answers of a session tells a client of just that session, and can always be read.
pub proof fn law_bootstrap_documents_tell(value: serde_json::Value, payload: PayloadView)
    requires
        has_fields(
            value,
            bootstrap_fields(
                payload.session_id,
                payload.auth_token,
                payload.auth_token_expires_in_seconds,
                payload.quic_addr,
                payload.cert_fingerprint,
            ),
        ),
    ensures
        tells(value, payload),
        is_flat(value),
{
    let fields = bootstrap_fields(
        payload.session_id,
        payload.auth_token,
        payload.auth_token_expires_in_seconds,
        payload.quic_addr,
        payload.cert_fingerprint,
    );
    lemma_bootstrap_keys(fields);
    lemma_field(value, fields, 0);
    lemma_field(value, fields, 1);
    lemma_field(value, fields, 2);
    lemma_field(value, fields, 3);
    lemma_field(value, fields, 4);
    lemma_simple_fields_are_flat(value, fields);
}

/// The types of the server's messages are those that the client waits for.
proof fn lemma_reply_type(value: serde_json::Value, reply: Reply)
    requires
        has_fields(value, reply_fields(reply)),
    ensures
        match reply {
            Reply::HelloAck { .. } => has_type(value, "HELLO_ACK"@),
            Reply::AuthOk { .. } => has_type(value, "AUTH_OK"@),
            Reply::Pong { .. } => has_type(value, "PONG"@),
        },
{
    lemma_keys_differ();
    assert(distinct_keys(reply_fields(reply)));
    lemma_field(value, reply_fields(reply), 0);
}

/// A client that is greeted by the server sends its token.
pub proof fn law_greeting_is_understood(
    h: HandshakeView,
    reply: Reply,
    sent: serde_json::Value,
    received: serde_json::Value,
    now: u64,
    step: HandshakeStep,
    h2: HandshakeView,
)
    requires
        h.state == ClientState::Connected,
        reply is HelloAck,
        has_fields(sent, reply_fields(reply)),
        reads_alike(sent, received),
        answered(h, received, now, step, h2),
    ensures
        step matches HandshakeStep::Send(ClientMessage::Auth { token, client_id }) && token@
            == h.auth_token && client_id == h.client_id,
{
    lemma_reply_type(sent, reply);
}

/// What the server's `AUTH_OK` says.
pub open spec fn accepted(reply: Reply) -> AuthOkView
    recommends
        reply is AuthOk,
{
    AuthOkView {
        session_id: reply->AuthOk_session_id,
        resume_token: reply->resume_token@,
        resume_token_expires_in_seconds: reply->resume_token_expires_in_seconds,
    }
}

/// A client whose token is accepted remembers the session with the token to resume it that the
/// server has issued, and joins it.
pub proof fn law_acceptance_is_understood(
    h: HandshakeView,
    reply: Reply,
    sent: serde_json::Value,
    received: serde_json::Value,
    now: u64,
    step: HandshakeStep,
    h2: HandshakeView,
)
    requires
        h.state == ClientState::HelloDone,
        has_fields(sent, reply_fields(reply)),
        reply is AuthOk,
        reads_alike(sent, received),
        answered(h, received, now, step, h2),
    ensures
        step matches HandshakeStep::RememberAndSend { entry, message } && {
            &&& entry@.session_id == reply->AuthOk_session_id
            &&& entry@.resume_token == reply->resume_token@
            &&& entry@ == remembered(h, accepted(reply), now)
            &&& joins(message, h, reply->AuthOk_session_id)
        },
{
    lemma_reply_type(sent, reply);
    reveal_strlit("AUTH_OK");
    reveal_strlit("ERROR");
    assert("AUTH_OK"@.len() == 7 && "ERROR"@.len() == 5);
    assert(says_auth_ok(received, accepted(reply))) by {
        lemma_keys_differ();
        let fields = reply_fields(reply);
        assert(distinct_keys(fields));
        lemma_field(sent, fields, 1);
        lemma_field(sent, fields, 2);
        lemma_field(sent, fields, 3);
    }
}

/// A client that has joined its session is ready.
pub proof fn law_joining_is_understood(
    h: HandshakeView,
    session_id: Uuid,
    replay_bytes: usize,
    sent: serde_json::Value,
    received: serde_json::Value,
    now: u64,
    step: HandshakeStep,
    h2: HandshakeView,
)
    requires
        h.state == ClientState::Authenticated,
        match h.mode {
            ModeView::Attach => has_fields(sent, attach_ok_fields(session_id)),
            ModeView::Resume { .. } => has_fields(
                sent,
                resume_ok_fields(session_id, replay_bytes),
            ),
        },
        reads_alike(sent, received),
        answered(h, received, now, step, h2),
    ensures
        step == (HandshakeStep::Ready { session_id: h.session_id }),
        h2.state == ClientState::Attached,
{
    lemma_keys_differ();
    reveal_strlit("RESUME_OK");
    reveal_strlit("ERROR");
    assert("RESUME_OK"@.len() == 9 && "ERROR"@.len() == 5);
    match h.mode {
        ModeView::Attach => {
            assert(distinct_keys(attach_ok_fields(session_id)));
            lemma_field(sent, attach_ok_fields(session_id), 0);
        },
        ModeView::Resume { .. } => {
            assert(distinct_keys(resume_ok_fields(session_id, replay_bytes)));
            lemma_field(sent, resume_ok_fields(session_id, replay_bytes), 0);
            lemma_field(sent, resume_ok_fields(session_id, replay_bytes), 1);
            lemma_field(sent, resume_ok_fields(session_id, replay_bytes), 2);
            assert(says_resume_ok(received, ResumeOk { session_id, replay_bytes }));
        },
    }
}

/// A client learns what the server refused: whether its token was, so that it may try a new one,
/// and whether its session has expired, so that it forgets it.
pub proof fn law_refusals_are_understood(
    h: HandshakeView,
    error: NeoshdError,
    message: ErrorMessage,
    sent: serde_json::Value,
    received: serde_json::Value,
    now: u64,
    step: HandshakeStep,
    h2: HandshakeView,
)
    requires
        message.msg_type@ == "ERROR"@,
        message.code@ == error.code(),
        has_fields(sent, error_fields(message)),
        h.state == ClientState::HelloDone || h.state == ClientState::Authenticated,
        reads_alike(sent, received),
        answered(h, received, now, step, h2),
    ensures
        step is Fail,
        h2.state == ClientState::Closed,
        h.state == ClientState::HelloDone ==> (step->error is AuthFailed
            <==> error is AuthFailed),
        h.state == ClientState::Authenticated ==> match h.mode {
            ModeView::Resume { session_id, .. } => step->forget == if error is SessionExpired {
                Some(session_id)
            } else {
                None
            },
            ModeView::Attach => step->forget is None,
        },
        meaning(received) == Watched::Error,
{
    lemma_keys_differ();
    assert(distinct_keys(error_fields(message)));
    lemma_field(sent, error_fields(message), 0);
    lemma_field(sent, error_fields(message), 1);
    reveal_strlit("ERROR");
    reveal_strlit("CLOSE");
    reveal_strlit("AUTH_OK");
    reveal_strlit("ATTACH_OK");
    assert("ERROR"@[0] == 'E' && "CLOSE"@[0] == 'C' && "ATTACH_OK"@[0] == 'A');
    reveal_strlit("AUTH_FAILED");
    reveal_strlit("SESSION_NOT_FOUND");
    reveal_strlit("SESSION_EXPIRED");
    reveal_strlit("ATTACH_DENIED");
    reveal_strlit("PROTOCOL_ERROR");
    reveal_strlit("INTERNAL_ERROR");
    assert("AUTH_FAILED"@.len() == 11 && "SESSION_NOT_FOUND"@.len() == 17
        && "SESSION_EXPIRED"@.len() == 15 && "ATTACH_DENIED"@.len() == 13
        && "PROTOCOL_ERROR"@.len() == 14 && "INTERNAL_ERROR"@.len() == 14);
}

} // verus!
