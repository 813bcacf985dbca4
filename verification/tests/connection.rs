use neoshd::ids::Uuid;
use neoshd::server::args::NewArgs;
use neoshd::server::connection::{
    AttachRequest, AuthRequest, Connection, Refusal, Reply, Request, ResizeRequest, ResumeRequest,
    Step,
};
use neoshd::server::ipc::{
    accept_renewal, control_payload_length, decode_control_frame, ping_nonce, read_renewal,
    renew_auth, RenewRefusal, RenewRequest,
};
use neoshd::server::state::{ServerState, StopReason};
use neoshd::session::manager::{SessionError, SessionState};
use neoshd::time::{Timestamp, NANOS_PER_SECOND};
use neoshd::token::service::TokenError;

fn args() -> NewArgs {
    NewArgs {
        user: "alice".to_string(),
        port_range: "30000:39999".to_string(),
        bind_server: "ssh".to_string(),
        tls_cert: String::new(),
        tls_key: String::new(),
        working_directory: String::new(),
        command: String::new(),
        session_timeout: 600,
        initial_attach_timeout: 300,
        auth_token_ttl: 60,
        resume_token_ttl: 86400,
        quic_idle_timeout_seconds: 60,
        replay_buffer_bytes: 1_048_576,
    }
}

fn sid() -> Uuid {
    Uuid::from_u128(1)
}

fn server() -> ServerState {
    ServerState::new(
        sid(),
        "alice".to_string(),
        1000,
        "127.0.0.1:30001".to_string(),
        "sha256:test".to_string(),
        &args(),
    )
}

fn hello(ids: bool) -> Request {
    let mut capabilities = vec!["stdin-bytes".to_string(), "resume-v1".to_string()];
    if ids {
        capabilities.push("client-id-v1".to_string());
    }
    Request::Hello { capabilities }
}

/// A connection past `AUTH`, and the token to resume with.
fn authenticated(st: &mut ServerState, n: u128, ids: bool, client: Option<Uuid>) -> (Connection, String) {
    let mut conn = Connection::new(Uuid::from_u128(n));
    let now = Timestamp::now();
    assert!(matches!(
        conn.handle(st, hello(ids), now),
        Step::Reply(Reply::HelloAck { .. })
    ));
    let token = st.issue_auth_token();
    let auth = AuthRequest { token, client_id: client };
    match conn.handle(st, Request::Auth(Ok(auth)), Timestamp::now()) {
        Step::Reply(Reply::AuthOk { session_id, resume_token, resume_token_expires_in_seconds }) => {
            assert_eq!(session_id, sid());
            assert_eq!(resume_token_expires_in_seconds, 86400);
            (conn, resume_token)
        }
        other => panic!("unexpected {other:?}"),
    }
}

fn attach(conn: &mut Connection, st: &mut ServerState) -> Step {
    conn.handle(
        st,
        Request::Attach(Ok(AttachRequest { session_id: sid() })),
        Timestamp::now(),
    )
}

fn resume(conn: &mut Connection, st: &mut ServerState, token: &str, client: Option<Uuid>) -> Step {
    conn.handle(
        st,
        Request::Resume(Ok(ResumeRequest {
            session_id: sid(),
            resume_token: token.to_string(),
            client_id: client,
        })),
        Timestamp::now(),
    )
}

#[test]
fn hello_negotiates_client_identifiers() {
    let mut st = server();
    for ids in [false, true] {
        let mut conn = Connection::new(Uuid::from_u128(9));
        match conn.handle(&mut st, hello(ids), Timestamp::now()) {
            Step::Reply(Reply::HelloAck { capabilities, session_timeout_seconds }) => {
                let mut expected = vec!["stdin-bytes", "resume-v1"];
                if ids {
                    expected.push("client-id-v1");
                }
                assert_eq!(capabilities, expected);
                assert_eq!(session_timeout_seconds, 600);
            }
            other => panic!("unexpected {other:?}"),
        }
        assert_eq!(conn.negotiated(), ids);
    }
}

#[test]
fn full_lifecycle_attach_detach_resume_close() {
    let mut st = server();
    let (mut first, resume_token) = authenticated(&mut st, 10, true, None);
    match attach(&mut first, &mut st) {
        Step::Attached { session_id } => assert_eq!(session_id, sid()),
        other => panic!("unexpected {other:?}"),
    }
    st.append_replay(b"output");
    assert!(matches!(
        first.handle(
            &mut st,
            Request::Resize(Ok(ResizeRequest { rows: 40, cols: 120 })),
            Timestamp::now()
        ),
        Step::Resize { rows: 40, cols: 120 }
    ));
    let now = Timestamp::now();
    assert!(matches!(
        first.handle(&mut st, Request::Detach, now),
        Step::Detached
    ));
    first.finish(&mut st, now);
    assert_eq!(st.detached_at, Some(now));
    assert_eq!(
        st.sessions.session(sid()).unwrap().state,
        SessionState::Detached
    );

    let (mut second, _) = authenticated(&mut st, 11, false, None);
    match resume(&mut second, &mut st, &resume_token, None) {
        Step::Resumed { session_id, replay_bytes, replaced } => {
            assert_eq!(session_id, sid());
            assert_eq!(replay_bytes, 6);
            assert_eq!(replaced, None);
        }
        other => panic!("unexpected {other:?}"),
    }
    assert_eq!(st.detached_at, None);
    assert_eq!(st.check_stop(Timestamp::now()), None);
    assert!(matches!(
        second.handle(&mut st, Request::Close, Timestamp::now()),
        Step::Closed
    ));
    assert_eq!(
        st.check_stop(Timestamp::now()),
        Some(StopReason::SessionTerminated)
    );
    let (mut third, _) = authenticated(&mut st, 12, false, None);
    match resume(&mut third, &mut st, &resume_token, None) {
        Step::Refuse(r) => assert_eq!(r.error().message(), "session expired"),
        other => panic!("unexpected {other:?}"),
    }
}

#[test]
fn messages_out_of_order_are_refused() {
    let mut st = server();
    let mut conn = Connection::new(Uuid::from_u128(10));
    let step = conn.handle(&mut st, Request::Detach, Timestamp::now());
    match step {
        Step::Refuse(r) => {
            assert_eq!(
                r.error().message(),
                "protocol error: out-of-order control message"
            );
            assert!(r.resume_failure_reason().is_none());
        }
        other => panic!("unexpected {other:?}"),
    }
    match conn.handle(&mut st, Request::Unknown, Timestamp::now()) {
        Step::Refuse(r) => {
            assert_eq!(r.error().message(), "protocol error: unknown control message")
        }
        other => panic!("unexpected {other:?}"),
    }
    assert!(matches!(
        conn.handle(&mut st, Request::Pong, Timestamp::now()),
        Step::Refuse(Refusal::OutOfOrder)
    ));
    assert!(matches!(
        conn.handle(&mut st, Request::Error, Timestamp::now()),
        Step::Refuse(Refusal::OutOfOrder)
    ));
    assert_eq!(
        Refusal::AttachBeforeAuth.error().message(),
        "protocol error: ATTACH before AUTH"
    );
    assert_eq!(
        Refusal::ResumeBeforeAuth.error().message(),
        "protocol error: RESUME before AUTH"
    );
}

#[test]
fn unreadable_payloads_are_refused_with_the_reason() {
    let mut st = server();
    let mut conn = Connection::new(Uuid::from_u128(10));
    conn.handle(&mut st, hello(false), Timestamp::now());
    match conn.handle(
        &mut st,
        Request::Auth(Err("missing field `token`".to_string())),
        Timestamp::now(),
    ) {
        Step::Refuse(r) => assert_eq!(
            r.error().message(),
            "protocol error: bad AUTH payload: missing field `token`"
        ),
        other => panic!("unexpected {other:?}"),
    }
    let (mut conn, _) = authenticated(&mut st, 11, false, None);
    match conn.handle(&mut st, Request::Attach(Err("x".to_string())), Timestamp::now()) {
        Step::Refuse(r) => assert_eq!(
            r.error().message(),
            "protocol error: bad ATTACH payload: x"
        ),
        other => panic!("unexpected {other:?}"),
    }
    let (mut conn, _) = authenticated(&mut st, 12, false, None);
    match conn.handle(&mut st, Request::Resume(Err("y".to_string())), Timestamp::now()) {
        Step::Refuse(r) => assert_eq!(
            r.error().message(),
            "protocol error: bad RESUME payload: y"
        ),
        other => panic!("unexpected {other:?}"),
    }
    let (mut conn, _) = authenticated(&mut st, 13, false, None);
    attach(&mut conn, &mut st);
    match conn.handle(&mut st, Request::Resize(Err("z".to_string())), Timestamp::now()) {
        Step::Refuse(r) => assert_eq!(
            r.error().message(),
            "protocol error: bad RESIZE payload: z"
        ),
        other => panic!("unexpected {other:?}"),
    }
}

#[test]
fn a_token_authenticates_one_connection() {
    let mut st = server();
    let token = st.issue_auth_token();
    for n in 0..2u128 {
        let mut conn = Connection::new(Uuid::from_u128(20 + n));
        conn.handle(&mut st, hello(false), Timestamp::now());
        let auth = AuthRequest { token: token.clone(), client_id: None };
        let step = conn.handle(&mut st, Request::Auth(Ok(auth)), Timestamp::now());
        if n == 0 {
            assert!(matches!(step, Step::Reply(Reply::AuthOk { .. })));
        } else {
            match step {
                Step::Refuse(r) => {
                    assert!(matches!(r, Refusal::AuthToken(TokenError::Consumed)));
                    assert_eq!(r.error().message(), "auth failed");
                }
                other => panic!("unexpected {other:?}"),
            }
        }
    }
}

#[test]
fn the_session_must_be_the_one_served() {
    let mut st = server();
    let (mut conn, _) = authenticated(&mut st, 10, false, None);
    let other = Uuid::from_u128(99);
    match conn.handle(
        &mut st,
        Request::Attach(Ok(AttachRequest { session_id: other })),
        Timestamp::now(),
    ) {
        Step::Refuse(r) => assert_eq!(r.error().message(), "session not found"),
        other => panic!("unexpected {other:?}"),
    }
    let (mut conn, token) = authenticated(&mut st, 11, false, None);
    match conn.handle(
        &mut st,
        Request::Resume(Ok(ResumeRequest {
            session_id: other,
            resume_token: token,
            client_id: None,
        })),
        Timestamp::now(),
    ) {
        Step::Refuse(r) => {
            assert_eq!(r.error().message(), "session not found");
            assert_eq!(r.resume_failure_reason(), Some("session_not_found"));
            assert_eq!(r.resume_failure_detail().as_deref(), Some("session not found"));
        }
        other => panic!("unexpected {other:?}"),
    }
}

#[test]
fn resume_failures_have_stable_reasons() {
    let mut st = server();
    let (mut conn, _) = authenticated(&mut st, 10, false, None);
    match resume(&mut conn, &mut st, "nonsense", None) {
        Step::Refuse(r) => {
            assert_eq!(r.error().message(), "auth failed");
            assert_eq!(r.resume_failure_reason(), Some("resume_token_not_found"));
            assert_eq!(r.resume_failure_detail(), Some(TokenError::NotFound.message()));
        }
        other => panic!("unexpected {other:?}"),
    }
    let reasons = [
        (TokenError::Expired, "resume_token_expired"),
        (TokenError::Revoked, "resume_token_revoked"),
        (TokenError::Consumed, "resume_token_consumed"),
        (TokenError::BindingMismatch, "resume_token_binding_mismatch"),
        (TokenError::TypeMismatch, "resume_token_type_mismatch"),
    ];
    for (e, reason) in reasons {
        assert_eq!(Refusal::ResumeToken(e).resume_failure_reason(), Some(reason));
        assert_eq!(Refusal::ResumeToken(e).resume_failure_detail(), Some(e.message()));
    }
    assert_eq!(
        Refusal::Session(SessionError::AttachDenied).resume_failure_reason(),
        Some("attach_denied")
    );
    assert_eq!(
        Refusal::Session(SessionError::AttachDenied).resume_failure_detail(),
        Some(SessionError::AttachDenied.message())
    );
    assert_eq!(
        Refusal::ResumeToken(TokenError::Expired).resume_failure_detail().as_deref(),
        Some("token expired")
    );
    assert_eq!(Refusal::OutOfOrder.resume_failure_detail(), None);
}

#[test]
fn a_second_client_is_denied_without_negotiation() {
    let mut st = server();
    let client = Some(Uuid::from_u128(42));
    let (mut first, token) = authenticated(&mut st, 10, false, client);
    attach(&mut first, &mut st);
    assert_eq!(st.sessions.session(sid()).unwrap().active_client_id, None);
    let (mut second, _) = authenticated(&mut st, 11, false, client);
    match resume(&mut second, &mut st, &token, client) {
        Step::Refuse(r) => {
            assert_eq!(r.error().message(), "attach denied");
            assert_eq!(r.resume_failure_reason(), Some("attach_denied"));
        }
        other => panic!("unexpected {other:?}"),
    }
    let (mut third, _) = authenticated(&mut st, 12, false, client);
    assert!(matches!(
        attach(&mut third, &mut st),
        Step::Refuse(Refusal::Session(SessionError::AttachDenied))
    ));
}

#[test]
fn the_same_client_takes_over_where_negotiated() {
    let mut st = server();
    let client = Some(Uuid::from_u128(42));
    let (mut first, token) = authenticated(&mut st, 10, true, client);
    attach(&mut first, &mut st);
    assert_eq!(st.sessions.session(sid()).unwrap().active_client_id, client);
    let (mut second, _) = authenticated(&mut st, 11, true, client);
    match resume(&mut second, &mut st, &token, client) {
        Step::Resumed { replaced, .. } => assert_eq!(replaced, Some(first.conn_id())),
        other => panic!("unexpected {other:?}"),
    }
    assert!(matches!(
        first.handle(&mut st, Request::Detach, Timestamp::now()),
        Step::Fail(SessionError::AttachDenied)
    ));
    first.finish(&mut st, Timestamp::now());
    let session = st.sessions.session(sid()).unwrap();
    assert_eq!(session.attached_conn_id, Some(second.conn_id()));
    assert_eq!(session.state, SessionState::Attached);
    assert_eq!(st.detached_at, None);
}

#[test]
fn another_client_cannot_take_over_where_negotiated() {
    let mut st = server();
    let (mut first, token) = authenticated(&mut st, 10, true, Some(Uuid::from_u128(42)));
    attach(&mut first, &mut st);
    let (mut second, _) = authenticated(&mut st, 11, true, Some(Uuid::from_u128(43)));
    assert!(matches!(
        resume(&mut second, &mut st, &token, Some(Uuid::from_u128(43))),
        Step::Refuse(Refusal::Session(SessionError::AttachDenied))
    ));
    let (mut third, _) = authenticated(&mut st, 12, true, None);
    assert!(matches!(
        resume(&mut third, &mut st, &token, None),
        Step::Refuse(Refusal::Session(SessionError::AttachDenied))
    ));
}

#[test]
fn a_lost_connection_leaves_the_session_detached() {
    let mut st = server();
    let (mut conn, _) = authenticated(&mut st, 10, false, None);
    attach(&mut conn, &mut st);
    let now = Timestamp::now();
    conn.finish(&mut st, now);
    assert_eq!(st.detached_at, Some(now));
    let later = Timestamp { nanos: now.nanos + 600 * NANOS_PER_SECOND as i128 };
    assert_eq!(st.check_stop(later), Some(StopReason::DetachedTimeout));

    let mut st = server();
    let (conn, _) = authenticated(&mut st, 10, false, None);
    conn.finish(&mut st, now);
    assert_eq!(
        st.sessions.session(sid()).unwrap().state,
        SessionState::Created
    );
}

#[test]
fn pings_are_answered_with_their_nonce() {
    let mut st = server();
    let mut conn = Connection::new(Uuid::from_u128(10));
    let nonce = ping_nonce(br#"{"type":"PING","nonce":[1,"a"]}"#);
    match conn.handle(&mut st, Request::Ping { nonce }, Timestamp::now()) {
        Step::Reply(Reply::Pong { nonce }) => assert_eq!(nonce.to_string(), "[1,\"a\"]"),
        other => panic!("unexpected {other:?}"),
    }
    assert_eq!(ping_nonce(br#"{"type":"PING"}"#).to_string(), "\"\"");
    assert_eq!(ping_nonce(b"nothing").to_string(), "\"\"");
}

fn renewal(session: Uuid, user: &str) -> Result<RenewRequest, String> {
    Ok(RenewRequest { session_id: session, user: user.to_string() })
}

#[test]
fn tokens_are_renewed_for_the_owner_only() {
    let mut st = server();
    let output = renew_auth(&mut st, 1000, renewal(sid(), "alice")).unwrap();
    assert_eq!(output.session_id, sid());
    assert_eq!(
        st.tokens
            .validate_and_consume_auth(&output.auth_token, sid(), "alice", Timestamp::now()),
        Ok(())
    );
    let refused = renew_auth(&mut st, 1001, renewal(sid(), "alice")).unwrap_err();
    assert!(matches!(refused, RenewRefusal::PeerMismatch));
    assert_eq!(refused.message(), "permission denied");
    assert_eq!(refused.denial(), Some("peer_uid_mismatch"));
    let refused = renew_auth(&mut st, 1000, renewal(Uuid::from_u128(2), "alice")).unwrap_err();
    assert_eq!(refused.message(), "session_id mismatch");
    assert_eq!(refused.denial(), None);
    let refused = renew_auth(&mut st, 1000, renewal(sid(), "bob")).unwrap_err();
    assert_eq!(refused.message(), "permission denied");
    assert_eq!(refused.denial(), Some("user_mismatch"));
    let refused = renew_auth(&mut st, 1000, Err("eof".to_string())).unwrap_err();
    assert_eq!(refused.message(), "bad request: eof");
}

#[test]
fn renewals_are_read_or_reported() {
    let ok = read_renewal(br#"{"session_id":"x"}"#).unwrap();
    assert_eq!(ok.to_string(), "{\"session_id\":\"x\"}");
    assert_eq!(
        read_renewal(br#"{"error":"permission denied"}"#)
            .unwrap_err()
            .message(),
        "internal error: {\"error\":\"permission denied\"}"
    );
    assert!(read_renewal(b"")
        .unwrap_err()
        .message()
        .starts_with("internal error: invalid IPC response: "));
    let plain: serde_json::Value = serde_json::from_str("7").unwrap();
    assert_eq!(accept_renewal(plain).unwrap().to_string(), "7");
}

#[test]
fn control_frames_are_limited_and_read_back() {
    assert_eq!(control_payload_length(&[0, 1, 0, 0]).unwrap(), 65536);
    assert_eq!(
        control_payload_length(&[0, 1, 0, 1]).unwrap_err().message(),
        "protocol error: control frame too large"
    );
    assert_eq!(decode_control_frame(&[0, 0, 0, 2], b"ab").unwrap(), b"ab");
    assert_eq!(
        decode_control_frame(&[0, 0, 0, 3], b"ab")
            .unwrap_err()
            .message(),
        "protocol error: decode frame failed: frame length mismatch"
    );
}
