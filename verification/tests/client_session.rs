use neoshd::client::answers::{read_auth_ok, read_resume_ok, ServerFrame};
use neoshd::client::control::{encode_control_json, read_message};
use neoshd::client::error::CliError;
use neoshd::client::quic_client::QuicClientError;
use neoshd::client::session::{
    classify_frame, end_session, is_error_code, ClientMessage, ControlSignal, Handshake,
    HandshakeStep, SessionMode, Watched,
};
use neoshd::client::state::ClientState;
use neoshd::ids::Uuid;

fn json(text: &str) -> serde_json::Value {
    serde_json::from_str(text).unwrap()
}

fn frame(text: &str) -> ServerFrame {
    ServerFrame::read(json(text))
}

fn auth_ok_frame() -> ServerFrame {
    frame(
        r#"{"type":"AUTH_OK","session_id":"00000000-0000-0000-0000-000000000001","resume_token":"r","resume_token_expires_in_seconds":100}"#,
    )
}

/// The fingerprint of a server whose certificate is `abc`.
const FINGERPRINT: &str = "sha256:ba7816bf8f01cfea414140de5dae2223b00361a396177a9cb410ff61f20015ad";

fn begin(
    certs: Option<&Vec<Vec<u8>>>,
    mode: SessionMode,
) -> Result<(Handshake, ClientMessage), QuicClientError> {
    Handshake::begin(
        certs,
        mode,
        "auth".to_string(),
        "user@host".to_string(),
        "127.0.0.1:1".to_string(),
        FINGERPRINT.to_string(),
        Uuid::from_u128(42),
    )
}

fn started(mode: SessionMode) -> Handshake {
    let (handshake, hello) = begin(Some(&vec![b"abc".to_vec()]), mode).unwrap();
    match hello {
        ClientMessage::Hello { capabilities } => {
            assert_eq!(capabilities, vec!["stdin-bytes", "resume-v1", "client-id-v1"])
        }
        other => panic!("unexpected {other:?}"),
    }
    handshake
}

fn resuming() -> SessionMode {
    SessionMode::Resume {
        session_id: Uuid::from_u128(7),
        resume_token: "old".to_string(),
    }
}

fn authenticated(mode: SessionMode) -> Handshake {
    let mut h = started(mode);
    match h.on_frame(frame("{\"type\":\"HELLO_ACK\"}"), 0) {
        HandshakeStep::Send(ClientMessage::Auth { token, client_id }) => {
            assert_eq!(token, "auth");
            assert_eq!(client_id, Uuid::from_u128(42));
        }
        other => panic!("unexpected {other:?}"),
    }
    match h.on_frame(auth_ok_frame(), 1000) {
        HandshakeStep::RememberAndSend { entry, .. } => {
            assert_eq!(entry.session_id, Uuid::from_u128(1));
            assert_eq!(entry.ssh_target, "user@host");
            assert_eq!(entry.resume_token, "r");
            assert_eq!(entry.resume_token_expires_at, 1100);
            assert_eq!(entry.quic_addr, "127.0.0.1:1");
            assert_eq!(entry.cert_fingerprint, FINGERPRINT);
            assert_eq!(entry.updated_at, 1000);
        }
        other => panic!("unexpected {other:?}"),
    }
    assert_eq!(h.state(), ClientState::Authenticated);
    h
}

fn failure(step: HandshakeStep) -> (String, Option<Uuid>) {
    match step {
        HandshakeStep::Fail { error, forget } => (error.message(), forget),
        other => panic!("unexpected {other:?}"),
    }
}

#[test]
fn a_client_attaches_step_by_step() {
    let mut h = authenticated(SessionMode::Attach);
    match h.on_frame(frame("{\"type\":\"ATTACH_OK\"}"), 0) {
        HandshakeStep::Ready { session_id } => assert_eq!(session_id, Uuid::from_u128(1)),
        other => panic!("unexpected {other:?}"),
    }
    assert_eq!(h.state(), ClientState::Attached);
}

#[test]
fn a_client_resumes_with_the_cached_token() {
    let mut h = started(resuming());
    h.on_frame(frame("{\"type\":\"HELLO_ACK\"}"), 0);
    match h.on_frame(auth_ok_frame(), 1000) {
        HandshakeStep::RememberAndSend {
            message: ClientMessage::Resume { session_id, resume_token, client_id },
            ..
        } => {
            assert_eq!(session_id, Uuid::from_u128(1));
            assert_eq!(resume_token, "old");
            assert_eq!(client_id, Uuid::from_u128(42));
        }
        other => panic!("unexpected {other:?}"),
    }
    let ok = frame(
        r#"{"type":"RESUME_OK","session_id":"00000000-0000-0000-0000-000000000001","replay_bytes":3}"#,
    );
    assert!(matches!(h.on_frame(ok, 0), HandshakeStep::Ready { .. }));
}

#[test]
fn a_client_that_attaches_says_so() {
    let mut h = started(SessionMode::Attach);
    h.on_frame(frame("{\"type\":\"HELLO_ACK\"}"), 0);
    match h.on_frame(auth_ok_frame(), 1000) {
        HandshakeStep::RememberAndSend { message: ClientMessage::Attach { session_id }, .. } => {
            assert_eq!(session_id, Uuid::from_u128(1))
        }
        other => panic!("unexpected {other:?}"),
    }
}

#[test]
fn unexpected_answers_fail_the_handshake() {
    let mut h = started(SessionMode::Attach);
    assert_eq!(
        failure(h.on_frame(frame("{\"type\":\"X\"}"), 0)),
        (
            "protocol failed: expected HELLO_ACK, got {\"type\":\"X\"}".to_string(),
            None
        )
    );
    assert_eq!(h.state(), ClientState::Closed);

    let greeted = || {
        let mut h = started(SessionMode::Attach);
        h.on_frame(frame("{\"type\":\"HELLO_ACK\"}"), 0);
        h
    };
    assert_eq!(
        failure(greeted().on_frame(frame("{\"code\":\"AUTH_FAILED\",\"type\":\"ERROR\"}"), 0)).0,
        "auth failed"
    );
    assert_eq!(
        failure(greeted().on_frame(frame("{\"code\":\"X\",\"type\":\"ERROR\"}"), 0)).0,
        "protocol failed: AUTH failed: {\"code\":\"X\",\"type\":\"ERROR\"}"
    );
    assert_eq!(
        failure(greeted().on_frame(frame("{}"), 0)).0,
        "protocol failed: expected AUTH_OK, got {}"
    );
    assert_eq!(
        failure(greeted().on_frame(frame("{\"type\":\"AUTH_OK\"}"), 0)).0,
        "protocol failed: bad AUTH_OK: missing field `session_id`"
    );
    assert_eq!(
        failure(authenticated(SessionMode::Attach).on_frame(frame("{}"), 0)).0,
        "protocol failed: expected ATTACH_OK, got {}"
    );
}

#[test]
fn an_expired_session_is_forgotten() {
    let mut h = authenticated(resuming());
    let expired = "{\"code\":\"SESSION_EXPIRED\",\"type\":\"ERROR\"}";
    assert_eq!(
        failure(h.on_frame(frame(expired), 0)),
        (
            format!("protocol failed: RESUME failed: {expired}"),
            Some(Uuid::from_u128(7))
        )
    );
    let mut h = authenticated(resuming());
    let denied = "{\"code\":\"ATTACH_DENIED\",\"type\":\"ERROR\"}";
    assert_eq!(failure(h.on_frame(frame(denied), 0)).1, None);
    let mut h = authenticated(resuming());
    assert_eq!(
        failure(h.on_frame(frame("{}"), 0)).0,
        "protocol failed: bad RESUME_OK: missing field `session_id`"
    );
}

#[test]
fn nothing_is_sent_to_a_server_with_another_certificate() {
    assert!(matches!(
        begin(None, SessionMode::Attach),
        Err(QuicClientError::MissingPeerCertificate)
    ));
    assert!(matches!(
        begin(Some(&vec![]), SessionMode::Attach),
        Err(QuicClientError::MissingPeerCertificate)
    ));
    assert!(matches!(
        begin(Some(&vec![b"def".to_vec(), b"abc".to_vec()]), SessionMode::Attach),
        Err(QuicClientError::FingerprintMismatch)
    ));
    assert!(begin(Some(&vec![b"abc".to_vec(), b"def".to_vec()]), resuming()).is_ok());
}

#[test]
fn parse_auth_ok() {
    let raw = r#"{"session_id":"550e8400-e29b-41d4-a716-446655440000","resume_token":"r","resume_token_expires_in_seconds":60}"#;
    let parsed = read_auth_ok(&json(raw)).unwrap();
    assert_eq!(parsed.resume_token, "r");
}

#[test]
fn faults_of_auth_ok_are_told() {
    let id = "550e8400-e29b-41d4-a716-446655440000";
    let whole = format!(
        r#"{{"session_id":"{id}","resume_token":"r","resume_token_expires_in_seconds":60}}"#
    );
    let read = read_auth_ok(&json(&whole)).unwrap();
    assert_eq!(read.session_id, Uuid::parse_str(id).unwrap());
    assert_eq!(read.resume_token_expires_in_seconds, 60);
    let fault = |from: &str, to: &str| read_auth_ok(&json(&whole.replace(from, to))).unwrap_err();
    assert_eq!(fault("\"r\"", "5"), "invalid type: integer `5`, expected a string");
    assert_eq!(fault("60", "\"x\""), "invalid type: string \"x\", expected u64");
    assert_eq!(fault("60", "-1"), "invalid value: integer `-1`, expected u64");
    assert_eq!(
        fault(&format!("\"{id}\""), "7"),
        "invalid type: integer `7`, expected a formatted UUID string"
    );
    assert!(fault(id, "nobody").starts_with("UUID parsing failed: "));
    assert_eq!(fault("session_id", "session"), "missing field `session_id`");
    assert_eq!(fault("resume_token\"", "token\""), "missing field `resume_token`");
    assert_eq!(
        fault("resume_token_expires_in_seconds", "expires"),
        "missing field `resume_token_expires_in_seconds`"
    );
    // A member that is not what it should be is told before a field that is missing, and the first
    // such member by the order of the keys.
    assert_eq!(
        read_auth_ok(&json(r#"{"session_id":1,"resume_token":2}"#)).unwrap_err(),
        "invalid type: integer `2`, expected a string"
    );
}

#[test]
fn faults_of_resume_ok_are_told() {
    let id = "550e8400-e29b-41d4-a716-446655440000";
    let read =
        read_resume_ok(&json(&format!(r#"{{"session_id":"{id}","replay_bytes":9}}"#))).unwrap();
    assert_eq!(read.session_id, Uuid::parse_str(id).unwrap());
    assert_eq!(read.replay_bytes, 9);
    assert_eq!(
        read_resume_ok(&json(r#"{"session_id":1,"replay_bytes":"9"}"#)).unwrap_err(),
        "invalid type: string \"9\", expected usize"
    );
    assert_eq!(
        read_resume_ok(&json(r#"{"session_id":1,"replay_bytes":9}"#)).unwrap_err(),
        "invalid type: integer `1`, expected a formatted UUID string"
    );
    assert_eq!(
        read_resume_ok(&json(&format!(r#"{{"session_id":"{id}"}}"#))).unwrap_err(),
        "missing field `replay_bytes`"
    );
}

#[test]
fn answers_may_be_arrays() {
    let id = "550e8400-e29b-41d4-a716-446655440000";
    let read = read_resume_ok(&json(&format!(r#"["{id}",9]"#))).unwrap();
    assert_eq!(read.session_id, Uuid::parse_str(id).unwrap());
    assert_eq!(read.replay_bytes, 9);
    let fault = |text: String| read_resume_ok(&json(&text)).unwrap_err();
    assert_eq!(
        fault(format!(r#"["{id}"]"#)),
        "invalid length 1, expected struct ResumeOk with 2 elements"
    );
    assert_eq!(
        fault(format!(r#"["{id}",9,1,1]"#)),
        "invalid length 4, expected fewer elements in array"
    );
    assert_eq!(fault(format!(r#"["{id}","9"]"#)), "invalid type: string \"9\", expected usize");
    let read = read_auth_ok(&json(&format!(r#"["{id}","r",60]"#))).unwrap();
    assert_eq!(read.resume_token, "r");
    assert_eq!(read.resume_token_expires_in_seconds, 60);
    let fault = |text: String| read_auth_ok(&json(&text)).unwrap_err();
    assert_eq!(
        fault(format!(r#"["{id}","r"]"#)),
        "invalid length 2, expected struct AuthOk with 3 elements"
    );
    assert_eq!(
        fault(format!(r#"["{id}","r",60,0]"#)),
        "invalid length 4, expected fewer elements in array"
    );
    let mut h = authenticated(resuming());
    let resumed = frame(&format!(r#"["{id}",9]"#));
    assert!(matches!(h.on_frame(resumed, 0), HandshakeStep::Ready { .. }));
}

#[test]
fn lifetimes_are_those_of_the_answer() {
    assert_eq!(auth_ok_frame().lifetime_seconds(), Some(100));
    assert_eq!(frame("{\"type\":\"AUTH_OK\"}").lifetime_seconds(), None);
}

#[test]
fn messages_are_read_from_their_frames() {
    let sent = json(r#"{"type":"PONG","nonce":"1"}"#);
    let framed = encode_control_json(&sent).unwrap();
    let prefix = [framed[0], framed[1], framed[2], framed[3]];
    assert_eq!(read_message(&prefix, &framed[4..]).unwrap(), sent);
    assert_eq!(
        read_message(&[0, 1, 0, 1], b"").unwrap_err().message(),
        "protocol failed: control frame too large"
    );
    assert_eq!(
        read_message(&prefix, b"{}").unwrap_err().message(),
        "protocol failed: frame length mismatch"
    );
    assert!(read_message(&[0, 0, 0, 1], b"{")
        .unwrap_err()
        .message()
        .starts_with("protocol failed: invalid json: EOF"));
}

#[test]
fn sessions_end_as_they_should() {
    let id = Uuid::from_u128(1);
    let end = end_session(id, ControlSignal::Detach);
    assert!(matches!(end.last_message, Some(ClientMessage::Detach)));
    assert!(!end.forget && end.result.is_ok());
    let end = end_session(id, ControlSignal::Close);
    assert!(end.last_message.is_none() && end.forget && end.result.is_ok());
    let end = end_session(id, ControlSignal::Disconnected);
    assert!(end.last_message.is_none() && !end.forget);
    assert!(matches!(end.result, Err(CliError::Disconnected(got)) if got == id));
    let end = end_session(id, ControlSignal::StreamClosed);
    assert!(matches!(end.last_message, Some(ClientMessage::Close)));
    assert!(end.forget && matches!(end.result, Err(CliError::Closed)));
    let end = end_session(id, ControlSignal::Error(json("{\"a\":1}")));
    assert!(end.last_message.is_none() && !end.forget);
    assert_eq!(
        end.result.unwrap_err().message(),
        "protocol failed: control error: {\"a\":1}"
    );
}

#[test]
fn frames_are_watched_while_attached() {
    assert_eq!(classify_frame(&json("{\"type\":\"CLOSE\"}")), Watched::Close);
    assert_eq!(classify_frame(&json("{\"type\":\"ERROR\"}")), Watched::Error);
    assert_eq!(classify_frame(&json("{\"type\":\"PONG\"}")), Watched::Pong);
    assert_eq!(classify_frame(&json("{\"type\":\"X\"}")), Watched::Unknown);
    assert_eq!(classify_frame(&json("{}")), Watched::Unknown);
    assert!(is_error_code(&json("{\"code\":\"A\"}"), "A"));
    assert!(!is_error_code(&json("{\"code\":\"A\"}"), "B"));
}
