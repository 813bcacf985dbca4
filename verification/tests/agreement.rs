use neoshd::client::answers::ServerFrame;
use neoshd::client::bootstrap::{parse_bootstrap_payload, run_ssh_bootstrap, CommandOutput};
use neoshd::client::cache::{decode_entry, encode_entry, SessionCacheEntry};
use neoshd::client::control::{decode_control_json, encode_control_json};
use neoshd::client::detach::is_valid_detach_request;
use neoshd::client::error::CliError;
use neoshd::client::session::{
    classify_frame, ClientMessage, Handshake, HandshakeStep, SessionMode, Watched,
};
use neoshd::client::wire::{detach_document, ping_document, resize_document, unknown_document};
use neoshd::document::{document, document_text, Item};
use neoshd::ids::Uuid;
use neoshd::protocol::messages::{parse_message_kind, ErrorMessage, MessageKind};
use neoshd::runtime::BootstrapOutput;
use neoshd::server::args::NewArgs;
use neoshd::server::connection::{
    AttachRequest, AuthRequest, Connection, Refusal, Reply, Request, Step,
};
use neoshd::server::error::{error_frame_for, NeoshdError};
use neoshd::server::ipc::read_renewal;
use neoshd::server::state::{should_server_stop, ServerState, StopReason};
use neoshd::server::tls::{certificate_name, new_certificate};
use neoshd::server::wire::{
    attach_ok_document, error_document, failure_document, hello_capabilities, renewal_document,
    resume_ok_document,
};
use neoshd::session::manager::SessionState;
use neoshd::time::{ClockReading, Duration, Timestamp, NANOS_PER_SECOND};

const ID: &str = "550e8400-e29b-41d4-a716-446655440000";

fn id() -> Uuid {
    Uuid::parse_str(ID).unwrap()
}

fn at(secs: i128) -> Timestamp {
    Timestamp { nanos: secs * NANOS_PER_SECOND as i128 }
}

fn server_at(created: Timestamp, session_timeout: u64, initial_attach_timeout: u64) -> ServerState {
    let args = NewArgs {
        user: "alice".to_string(),
        port_range: "30000:39999".to_string(),
        bind_server: "ssh".to_string(),
        tls_cert: String::new(),
        tls_key: String::new(),
        working_directory: String::new(),
        command: String::new(),
        session_timeout,
        initial_attach_timeout,
        auth_token_ttl: 60,
        resume_token_ttl: 86400,
        quic_idle_timeout_seconds: 60,
        replay_buffer_bytes: 1024,
    };
    ServerState::new_at(
        id(),
        "alice".to_string(),
        1000,
        "127.0.0.1:30001".to_string(),
        format!("sha256:{}", "ab".repeat(32)),
        &args,
        created,
    )
}

/// A connection past `AUTH`.
fn authenticated(st: &mut ServerState, conn: u128) -> Connection {
    let mut conn = Connection::new(Uuid::from_u128(conn));
    conn.handle(st, Request::Hello { capabilities: Vec::new() }, Timestamp::now());
    let token = st.issue_auth_token();
    let auth = AuthRequest { token, client_id: None };
    let step = conn.handle(st, Request::Auth(Ok(auth)), Timestamp::now());
    assert!(matches!(step, Step::Reply(Reply::AuthOk { .. })));
    conn
}

fn attached(st: &mut ServerState, conn: u128) -> Connection {
    let mut conn = authenticated(st, conn);
    let attach = AttachRequest { session_id: id() };
    let step = conn.handle(st, Request::Attach(Ok(attach)), Timestamp::now());
    assert!(matches!(step, Step::Attached { session_id } if session_id == id()));
    conn
}

fn handshake(mode: SessionMode) -> (Handshake, ClientMessage) {
    Handshake::begin(
        Some(&vec![b"abc".to_vec()]),
        mode,
        "a-token".to_string(),
        "user@example.com".to_string(),
        "127.0.0.1:30001".to_string(),
        "sha256:ba7816bf8f01cfea414140de5dae2223b00361a396177a9cb410ff61f20015ad".to_string(),
        Uuid::from_u128(7),
    )
    .unwrap()
}

fn frame(value: serde_json::Value) -> ServerFrame {
    ServerFrame::read(value)
}

#[test]
fn documents_hold_every_kind_of_field() {
    let value = document(vec![
        ("text", Item::Text("a\"b".to_string())),
        ("number", Item::Number(u64::MAX)),
        ("truth", Item::Truth(true)),
        ("list", Item::List(vec!["x".to_string(), "y".to_string()])),
        ("inner", Item::Document(document(vec![("n", Item::Number(0))]))),
    ]);
    assert_eq!(
        value.to_string(),
        r#"{"inner":{"n":0},"list":["x","y"],"number":18446744073709551615,"text":"a\"b","truth":true}"#
    );
    assert_eq!(document(Vec::new()).to_string(), "{}");
}

#[test]
fn replies_are_written_as_the_protocol_says() {
    let hello = Reply::HelloAck {
        capabilities: vec!["stdin-bytes".to_string(), "resume-v1".to_string()],
        session_timeout_seconds: 600,
    };
    assert_eq!(
        hello.document().to_string(),
        r#"{"capabilities":["stdin-bytes","resume-v1"],"protocol_version":"0.1.0","server_version":"neoshd/0.2.0","session_timeout_seconds":600,"type":"HELLO_ACK"}"#
    );
    let auth = Reply::AuthOk {
        session_id: id(),
        resume_token: "r".to_string(),
        resume_token_expires_in_seconds: 86400,
    };
    assert_eq!(
        auth.document().to_string(),
        format!(
            r#"{{"resume_token":"r","resume_token_expires_in_seconds":86400,"session_id":"{ID}","type":"AUTH_OK"}}"#
        )
    );
    let pong = Reply::Pong { nonce: serde_json::Value::from(5u64) };
    assert_eq!(pong.document().to_string(), r#"{"nonce":5,"type":"PONG"}"#);
    assert_eq!(
        attach_ok_document(id()).to_string(),
        format!(r#"{{"session_id":"{ID}","type":"ATTACH_OK"}}"#)
    );
    assert_eq!(
        resume_ok_document(id(), 12).to_string(),
        format!(r#"{{"replay_bytes":12,"session_id":"{ID}","type":"RESUME_OK"}}"#)
    );
    let error = ErrorMessage {
        msg_type: "ERROR",
        code: "AUTH_FAILED",
        message: "auth failed".to_string(),
        retryable: false,
    };
    assert_eq!(
        error_document(error).to_string(),
        r#"{"code":"AUTH_FAILED","message":"auth failed","retryable":false,"type":"ERROR"}"#
    );
    assert_eq!(failure_document("no").to_string(), r#"{"error":"no"}"#);
    assert_eq!(
        renewal_document(id(), "alice").to_string(),
        format!(r#"{{"session_id":"{ID}","user":"alice"}}"#)
    );
}

#[test]
fn client_messages_are_written_as_the_protocol_says() {
    let (_, hello) = handshake(SessionMode::Attach);
    assert_eq!(
        hello.document().to_string(),
        r#"{"capabilities":["stdin-bytes","resume-v1","client-id-v1"],"client_version":"neosh/0.2.0","protocol_version":"0.1.0","type":"HELLO"}"#
    );
    let auth = ClientMessage::Auth { token: "t".to_string(), client_id: id() };
    assert_eq!(
        auth.document().to_string(),
        format!(r#"{{"client_id":"{ID}","method":"ssh-token","token":"t","type":"AUTH"}}"#)
    );
    let attach = ClientMessage::Attach { session_id: id() };
    assert_eq!(
        attach.document().to_string(),
        format!(r#"{{"attach_mode":"exclusive","session_id":"{ID}","type":"ATTACH"}}"#)
    );
    let resume = ClientMessage::Resume {
        session_id: id(),
        resume_token: "r".to_string(),
        client_id: id(),
    };
    assert_eq!(
        resume.document().to_string(),
        format!(r#"{{"client_id":"{ID}","resume_token":"r","session_id":"{ID}","type":"RESUME"}}"#)
    );
    assert_eq!(ClientMessage::Detach.document().to_string(), r#"{"type":"DETACH"}"#);
    assert_eq!(ClientMessage::Close.document().to_string(), r#"{"type":"CLOSE"}"#);
    assert_eq!(
        resize_document(40, 120).to_string(),
        r#"{"cols":120,"rows":40,"type":"RESIZE"}"#
    );
    assert_eq!(ping_document("17").to_string(), r#"{"nonce":"17","type":"PING"}"#);
    assert_eq!(
        unknown_document(serde_json::Value::from("x")).to_string(),
        r#"{"code":"PROTOCOL_ERROR","message":"unknown control message while attached","raw":"x","type":"ERROR"}"#
    );
}

#[test]
fn client_messages_are_recognised_by_the_server() {
    let (_, hello) = handshake(SessionMode::Attach);
    let kinds = [
        (hello.document(), MessageKind::Hello),
        (
            ClientMessage::Auth { token: "t".to_string(), client_id: id() }.document(),
            MessageKind::Auth,
        ),
        (ClientMessage::Attach { session_id: id() }.document(), MessageKind::Attach),
        (ClientMessage::Detach.document(), MessageKind::Detach),
        (ClientMessage::Close.document(), MessageKind::Close),
        (resize_document(1, 2), MessageKind::Resize),
        (ping_document("n"), MessageKind::Ping),
        (unknown_document(failure_document("x")), MessageKind::Error),
    ];
    for (value, kind) in kinds {
        assert_eq!(parse_message_kind(value.to_string().as_bytes()), Some(kind));
    }
    assert_eq!(
        hello_capabilities(hello.document().to_string().as_bytes()),
        vec!["stdin-bytes", "resume-v1", "client-id-v1"]
    );
}

#[test]
fn capabilities_are_read_where_they_are_a_list_of_texts() {
    assert_eq!(hello_capabilities(br#"{"capabilities":["a","b"]}"#), vec!["a", "b"]);
    assert!(hello_capabilities(br#"{"capabilities":[]}"#).is_empty());
    assert!(hello_capabilities(br#"{"capabilities":["a",1]}"#).is_empty());
    assert!(hello_capabilities(br#"{"capabilities":"a"}"#).is_empty());
    assert!(hello_capabilities(br#"{}"#).is_empty());
    assert!(hello_capabilities(b"no json").is_empty());
}

#[test]
fn flat_messages_come_out_of_their_frames() {
    let sent = resize_document(40, 120);
    let framed = encode_control_json(&sent).unwrap();
    assert_eq!(decode_control_json(&framed, 4096).unwrap(), sent);
    assert!(decode_control_json(&framed, 8).is_err());
}

#[test]
fn what_a_server_prints_is_what_a_client_reads() {
    let output = BootstrapOutput {
        session_id: id(),
        auth_token: "opaque".to_string(),
        auth_token_expires_in_seconds: 60,
        quic_addr: "[::1]:30001".to_string(),
        cert_fingerprint: format!("sha256:{}", "0f".repeat(32)),
    };
    let printed = output.line().unwrap();
    assert_eq!(
        printed,
        format!(
            r#"{{"session_id":"{ID}","auth_token":"opaque","auth_token_expires_in_seconds":60,"quic_addr":"[::1]:30001","cert_fingerprint":"sha256:{}"}}"#,
            "0f".repeat(32)
        )
    );
    let answered = document_text(&output.document());
    assert!(answered.starts_with(r#"{"auth_token":"opaque","#));
    let payload = parse_bootstrap_payload(&printed).unwrap();
    assert_eq!(parse_bootstrap_payload(&answered).unwrap(), payload);
    assert_eq!(payload.session_id, output.session_id);
    assert_eq!(payload.auth_token, output.auth_token);
    assert_eq!(payload.auth_token_expires_in_seconds, 60);
    assert_eq!(payload.quic_addr, output.quic_addr);
    assert_eq!(payload.cert_fingerprint, output.cert_fingerprint);
    let over_ssh = run_ssh_bootstrap(Ok(CommandOutput {
        success: true,
        stdout: format!("{printed}\n").into_bytes(),
        stderr: Vec::new(),
    }));
    assert_eq!(over_ssh.unwrap(), payload);
    assert_eq!(read_renewal(printed.as_bytes()).unwrap(), output.document());
    assert!(read_renewal(failure_document("no").to_string().as_bytes()).is_err());
}

#[test]
fn detach_requests_are_granted() {
    assert!(is_valid_detach_request(&detach_document(id()), id()));
    assert!(!is_valid_detach_request(&detach_document(id()), Uuid::from_u128(1)));
}

#[test]
fn a_client_goes_through_the_handshake_of_the_server() {
    let mut st = server_at(Timestamp::now(), 600, 300);
    let mut conn = Connection::new(Uuid::from_u128(9));
    let (mut client, hello) = handshake(SessionMode::Attach);
    let capabilities = hello_capabilities(hello.document().to_string().as_bytes());
    let ack = match conn.handle(&mut st, Request::Hello { capabilities }, Timestamp::now()) {
        Step::Reply(reply) => reply.document(),
        other => panic!("unexpected {other:?}"),
    };
    assert!(conn.negotiated());
    let step = client.on_frame(frame(ack), 100);
    assert!(matches!(step, HandshakeStep::Send(ClientMessage::Auth { .. })));

    let token = st.issue_auth_token();
    let auth = AuthRequest { token, client_id: None };
    let (reply, issued) = match conn.handle(&mut st, Request::Auth(Ok(auth)), Timestamp::now()) {
        Step::Reply(Reply::AuthOk { session_id, resume_token, resume_token_expires_in_seconds }) => (
            Reply::AuthOk {
                session_id,
                resume_token: resume_token.clone(),
                resume_token_expires_in_seconds,
            },
            resume_token,
        ),
        other => panic!("unexpected {other:?}"),
    };
    match client.on_frame(frame(reply.document()), 100) {
        HandshakeStep::RememberAndSend { entry, message } => {
            assert_eq!(entry.resume_token, issued);
            assert_eq!(entry.resume_token_expires_at, 86500);
            assert!(matches!(message, ClientMessage::Attach { session_id } if session_id == id()));
        }
        other => panic!("unexpected {other:?}"),
    }
    let step = client.on_frame(frame(attach_ok_document(id())), 100);
    assert!(matches!(step, HandshakeStep::Ready { session_id } if session_id == id()));
}

#[test]
fn a_resumed_session_is_ready() {
    let mode = SessionMode::Resume { session_id: id(), resume_token: "r".to_string() };
    let (mut client, _) = handshake(mode);
    let hello = Reply::HelloAck { capabilities: Vec::new(), session_timeout_seconds: 1 };
    client.on_frame(frame(hello.document()), 1);
    let auth = Reply::AuthOk {
        session_id: id(),
        resume_token: "s".to_string(),
        resume_token_expires_in_seconds: 5,
    };
    client.on_frame(frame(auth.document()), 1);
    let resumed = frame(resume_ok_document(id(), 3));
    assert!(matches!(client.on_frame(resumed, 1), HandshakeStep::Ready { .. }));
}

#[test]
fn refusals_of_the_server_are_understood() {
    let refused = |error: NeoshdError| frame(error_document(error_frame_for(&error)));
    let greeted = || {
        let (mut client, _) = handshake(SessionMode::Attach);
        let hello = Reply::HelloAck { capabilities: Vec::new(), session_timeout_seconds: 1 };
        client.on_frame(frame(hello.document()), 1);
        client
    };
    match greeted().on_frame(refused(NeoshdError::AuthFailed), 1) {
        HandshakeStep::Fail { error, .. } => assert!(matches!(error, CliError::AuthFailed)),
        other => panic!("unexpected {other:?}"),
    }
    match greeted().on_frame(refused(NeoshdError::AttachDenied), 1) {
        HandshakeStep::Fail { error, .. } => assert!(matches!(error, CliError::Protocol(_))),
        other => panic!("unexpected {other:?}"),
    }
    let watched = error_document(error_frame_for(&NeoshdError::SessionExpired));
    assert_eq!(classify_frame(&watched), Watched::Error);
}

#[test]
fn a_server_keeps_its_address_and_certificate() {
    let mut st = server_at(Timestamp::now(), 600, 300);
    let first = st.bootstrap_output();
    let mut conn = attached(&mut st, 9);
    conn.handle(&mut st, Request::Detach, Timestamp::now());
    conn.finish(&mut st, Timestamp::now());
    let again = st.bootstrap_output();
    assert_eq!(again.session_id, first.session_id);
    assert_eq!(again.quic_addr, first.quic_addr);
    assert_eq!(again.cert_fingerprint, first.cert_fingerprint);
    assert_ne!(again.auth_token, first.auth_token);
}

#[test]
fn a_spent_token_is_told_to_have_failed() {
    let mut st = server_at(Timestamp::now(), 600, 300);
    let token = st.issue_auth_token();
    for expected in [true, false] {
        let mut conn = Connection::new(Uuid::new_v4());
        conn.handle(&mut st, Request::Hello { capabilities: Vec::new() }, Timestamp::now());
        let auth = AuthRequest { token: token.clone(), client_id: None };
        match conn.handle(&mut st, Request::Auth(Ok(auth)), Timestamp::now()) {
            Step::Reply(Reply::AuthOk { .. }) => assert!(expected),
            Step::Refuse(refusal) => {
                assert!(!expected);
                assert_eq!(error_frame_for(&refusal.error()).code, "AUTH_FAILED");
            }
            other => panic!("unexpected {other:?}"),
        }
    }
}

#[test]
fn disorder_is_told_as_a_protocol_error() {
    let mut st = server_at(Timestamp::now(), 600, 300);
    let mut conn = Connection::new(Uuid::from_u128(9));
    for request in [Request::Unknown, Request::Detach, Request::Close, Request::Pong] {
        match conn.handle(&mut st, request, Timestamp::now()) {
            Step::Refuse(refusal) => {
                assert!(matches!(refusal, Refusal::UnknownMessage | Refusal::OutOfOrder));
                assert_eq!(error_frame_for(&refusal.error()).code, "PROTOCOL_ERROR");
            }
            other => panic!("unexpected {other:?}"),
        }
    }
}

#[test]
fn a_detached_session_waits_as_long_as_it_should() {
    let mut st = server_at(at(0), 600, 300);
    let mut conn = attached(&mut st, 9);
    assert!(matches!(conn.handle(&mut st, Request::Detach, at(1000)), Step::Detached));
    conn.finish(&mut st, at(1000));
    assert_eq!(st.check_stop(at(1599)), None);
    assert_eq!(st.check_stop(at(1600)), Some(StopReason::DetachedTimeout));
    assert!(should_server_stop(&st));
}

#[test]
fn a_new_session_waits_as_long_as_it_should() {
    let mut st = server_at(at(10), 600, 300);
    assert_eq!(st.check_stop(at(309)), None);
    assert_eq!(st.check_stop(at(310)), Some(StopReason::InitialAttachTimeout));
    let mut patient = server_at(at(10), 600, 0);
    assert_eq!(patient.check_stop(at(1_000_000)), None);
}

#[test]
fn a_closed_session_survives_the_cleanup() {
    let mut st = server_at(Timestamp::now(), 600, 300);
    let mut conn = attached(&mut st, 9);
    assert!(matches!(conn.handle(&mut st, Request::Close, Timestamp::now()), Step::Closed));
    conn.finish(&mut st, Timestamp::now());
    assert_eq!(st.sessions.session(id()).unwrap().state, SessionState::Terminated);
    let mut other = authenticated(&mut st, 10);
    let attach = AttachRequest { session_id: id() };
    let step = other.handle(&mut st, Request::Attach(Ok(attach)), Timestamp::now());
    assert!(matches!(step, Step::Refuse(Refusal::Session(_))));
}

#[test]
fn a_certificate_that_was_made_is_shown_with_its_fingerprint() {
    let made = new_certificate(Ok((b"abc".to_vec(), b"key".to_vec()))).unwrap();
    assert_eq!(made.cert_der, b"abc");
    assert_eq!(made.key_der, b"key");
    assert_eq!(
        made.cert_fingerprint,
        "sha256:ba7816bf8f01cfea414140de5dae2223b00361a396177a9cb410ff61f20015ad"
    );
    assert_eq!(certificate_name(), "localhost");
    let failed = new_certificate(Err("no entropy".to_string())).unwrap_err();
    assert_eq!(failed.message(), "internal error: generate cert failed: no entropy");
}

#[test]
fn clock_readings_are_points_in_time() {
    let t = Timestamp::from_reading(ClockReading::Since { secs: 5, nanos: 250_000_000 });
    assert_eq!(t.nanos, 5_250_000_000);
    assert_eq!(t.seconds(), 5);
    assert_eq!(t.millis(), 5250);
    let early = Timestamp::from_reading(ClockReading::Before { secs: 2, nanos: 500_000_000 });
    assert_eq!(early.nanos, -2_500_000_000);
    assert_eq!(early.seconds(), 0);
    assert_eq!(early.millis(), 0);
    let limit = Duration::from_secs(8);
    assert_eq!(early.plus(limit).nanos, 5_500_000_000);
    assert!(t.within(early, limit));
    assert!(!t.elapsed_at_least(early, limit));
    assert!(t.elapsed_at_least(early, Duration::from_secs(7)));
    assert!(!early.within(t, limit));
    let first = Timestamp { nanos: i128::MIN };
    let last = Timestamp { nanos: i128::MAX };
    assert!(!last.within(first, limit));
    assert!(last.elapsed_at_least(first, limit));
    assert!(!first.elapsed_at_least(last, limit));
}

fn cached() -> SessionCacheEntry {
    SessionCacheEntry {
        session_id: id(),
        ssh_target: "user@example.com".to_string(),
        resume_token: "r\"esume".to_string(),
        resume_token_expires_at: 1_700_000_000,
        quic_addr: "127.0.0.1:30001".to_string(),
        cert_fingerprint: "sha256:f".to_string(),
        updated_at: u64::MAX,
    }
}

#[test]
fn remembered_sessions_are_recalled() {
    let data = encode_entry(&cached()).unwrap();
    assert_eq!(decode_entry(&data).unwrap(), cached());
    let text = String::from_utf8(data).unwrap();
    let keys: Vec<&str> = text.lines().filter_map(|l| l.split('"').nth(1)).collect();
    assert_eq!(
        keys,
        vec![
            "session_id",
            "ssh_target",
            "resume_token",
            "resume_token_expires_at",
            "quic_addr",
            "cert_fingerprint",
            "updated_at",
        ]
    );
    assert!(text.starts_with(&format!("{{\n  \"session_id\": \"{ID}\",\n  \"ssh_target\": ")));
    assert!(text.contains("\"resume_token\": \"r\\\"esume\",\n"));
    assert!(!text.ends_with('\n') && text.ends_with("\n}"));
}

#[test]
fn remembered_sessions_may_lack_their_host_only() {
    let text = String::from_utf8(encode_entry(&cached()).unwrap()).unwrap();
    let without = |key: &str| {
        let lines: Vec<&str> = text.lines().filter(|l| !l.contains(&format!("\"{key}\":"))).collect();
        lines.join("\n").replace(",\n}", "\n}")
    };
    let mut anywhere = cached();
    anywhere.ssh_target = String::new();
    assert_eq!(decode_entry(without("ssh_target").as_bytes()).unwrap(), anywhere);
    for key in [
        "session_id",
        "resume_token",
        "resume_token_expires_at",
        "quic_addr",
        "cert_fingerprint",
        "updated_at",
    ] {
        let error = decode_entry(without(key).as_bytes()).unwrap_err();
        assert_eq!(error.message(), format!("json error: missing field `{key}`"));
    }
    let numbered = text.replace("\"user@example.com\"", "5");
    assert!(decode_entry(numbered.as_bytes())
        .unwrap_err()
        .message()
        .starts_with("json error: invalid type: integer `5`, expected a string"));
    let nulled = text.replace("\"user@example.com\"", "null");
    assert!(decode_entry(nulled.as_bytes()).is_err());
    let nobody = text.replace(ID, "nobody");
    assert!(decode_entry(nobody.as_bytes()).is_err());
    assert!(decode_entry(b"{").is_err());
}

#[test]
fn what_nobody_asks_for_is_ignored() {
    let kind = |text: &str| parse_message_kind(text.as_bytes());
    assert_eq!(kind(r#"{"type":"PING","x":1e999}"#), Some(MessageKind::Ping));
    assert_eq!(kind(r#"{"x":"\ud800","type":"PING"}"#), Some(MessageKind::Ping));
    let deep = format!(r#"{{"x":{}{},"type":"PING"}}"#, "[".repeat(500), "]".repeat(500));
    assert_eq!(kind(&deep), Some(MessageKind::Ping));
    assert_eq!(kind(r#"{"x":1,"x":2,"type":"PING"}"#), Some(MessageKind::Ping));
    assert_eq!(kind(" { \n\t\"type\" :\r \"PING\" , \"x\" : null } \n"), Some(MessageKind::Ping));
    assert_eq!(kind(r#"{"\u0074ype":"\u0050ING"}"#), Some(MessageKind::Ping));
    assert_eq!(
        hello_capabilities(br#"{"type":"HELLO","capabilities":["client-id-v1"],"x":1e999}"#),
        vec!["client-id-v1"]
    );
    assert!(hello_capabilities(br#"{"capabilities":["a",5]}"#).is_empty());
    assert!(hello_capabilities(br#"{"capabilities":"a"}"#).is_empty());
    assert!(hello_capabilities(br#"{}"#).is_empty());
    assert!(hello_capabilities(b"{").is_empty());
}

#[test]
fn a_field_is_given_once() {
    let kind = |text: &str| parse_message_kind(text.as_bytes());
    assert_eq!(kind(r#"{"type":"PING","type":"PING"}"#), None);
    assert_eq!(kind(r#"{"type":"PING","\u0074ype":1}"#), None);
    assert_eq!(kind(r#"{"type":5}"#), None);
    assert_eq!(kind(r#"{"type":null}"#), None);
    assert_eq!(kind(r#"{}"#), None);
    assert_eq!(kind(r#" { } "#), None);
    let text = String::from_utf8(encode_entry(&cached()).unwrap()).unwrap();
    let twice = text.replacen("\n}", ",\n  \"updated_at\": 1\n}", 1);
    assert_eq!(
        decode_entry(twice.as_bytes()).unwrap_err().message(),
        "json error: duplicate field `updated_at`"
    );
    let more = text.replacen("\n}", ",\n  \"other\": 1e999\n}", 1);
    assert_eq!(decode_entry(more.as_bytes()).unwrap(), cached());
}

#[test]
fn broken_objects_are_no_messages() {
    for text in [
        "",
        " ",
        "{",
        "{\"type\"",
        "{\"type\":",
        "{\"type\":\"PING\"",
        "{\"type\":\"PING\",",
        "{\"type\":\"PING\",}",
        "{,\"type\":\"PING\"}",
        "{\"type\":\"PING\"}}",
        "{\"type\":\"PING\"} x",
        "{\"type\" \"PING\"}",
        "{\"type\":\"PING\" \"x\":1}",
        "{\"x\":1\"type\":\"PING\"}",
        "{\"x\":01,\"type\":\"PING\"}",
        "{\"x\":tru,\"type\":\"PING\"}",
        "{type:\"PING\"}",
        "{\"\\ud800\":1,\"type\":\"PING\"}",
        "\"PING\"",
        "5",
        "null",
    ] {
        assert_eq!(parse_message_kind(text.as_bytes()), None, "{text}");
    }
}

#[test]
fn records_may_be_arrays() {
    let kind = |text: &str| parse_message_kind(text.as_bytes());
    assert_eq!(kind(r#"["HELLO"]"#), Some(MessageKind::Hello));
    assert_eq!(kind(r#" [ "HELLO" ] "#), Some(MessageKind::Hello));
    for text in ["[]", "[ ]", "[\"HELLO\",1]", "[\"HELLO\",]", "[,\"HELLO\"]", "[\"HELLO\"", "[5]"] {
        assert_eq!(kind(text), None, "{text}");
    }
    let fingerprint = format!("sha256:{}", "0f".repeat(32));
    let payload =
        parse_bootstrap_payload(&format!(r#"["{ID}","t",60,"h:1","{fingerprint}"]"#)).unwrap();
    assert_eq!(payload.session_id, id());
    assert_eq!(payload.auth_token, "t");
    assert_eq!(payload.auth_token_expires_in_seconds, 60);
    assert_eq!(payload.quic_addr, "h:1");
    assert!(parse_bootstrap_payload(&format!(r#"["{ID}","t",60,"h:1"]"#)).is_err());
}

#[test]
fn messages_come_out_as_they_were_put_in() {
    let sent = document(vec![
        ("type", Item::Text("HELLO".to_string())),
        ("capabilities", Item::List(vec!["a\"b".to_string(), "c".to_string()])),
        ("n", Item::Number(u64::MAX)),
        ("b", Item::Truth(true)),
    ]);
    let framed = encode_control_json(&sent).unwrap();
    assert_eq!(decode_control_json(&framed, 4096).unwrap(), sent);
    assert_eq!(parse_message_kind(&framed[4..]), Some(MessageKind::Hello));
    assert_eq!(hello_capabilities(&framed[4..]), vec!["a\"b", "c"]);
}
