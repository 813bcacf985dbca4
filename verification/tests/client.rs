use neoshd::client::bootstrap::{
    parse_bootstrap_payload, resolveRemoteWorkingDirectory, resolve_remote_working_directory,
    runRemoteCommand, run_remote_command, run_ssh_bootstrap, validate_bootstrap_payload,
    working_directory_command, BootstrapPayload, CommandOutput,
};
use neoshd::client::cache::{now_epoch_seconds, CacheError, SessionCache, SessionCacheEntry};
use neoshd::client::command::{build_remote_command, build_remote_command_with, BootstrapMode};
use neoshd::client::control::{
    decode_control_json, encode_control_json, message_type, ControlError,
};
use neoshd::client::detach::{
    answer_detach, check_detach_reply, discover_active_socket, ipc_socket_path,
    is_valid_detach_request, session_id_from_socket_path,
};
use neoshd::client::error::CliError;
use neoshd::client::identity::{choose_client_id, client_id_path, read_client_id};
use neoshd::client::quic_client::{
    peer_cert_fingerprint, sha256_fingerprint, verify_peer_fingerprint, QuicClientError,
};
use neoshd::client::retry::{
    check_entry, check_renewal, resume_entry_expired, resume_target, validate_renew_payload,
    BootstrapTries, Next, RetryPlan,
};
use neoshd::client::state::{transition, ClientEvent, ClientState, StateError};
use neoshd::client::stdin::{end_of_input, process_stdin_chunk_for_detach};
use neoshd::ids::Uuid;
use neoshd::shell::shell_single_quote;

const FINGERPRINT: &str =
    "sha256:0123456789abcdef0123456789abcdef0123456789abcdef0123456789abcdef";

fn json(text: &str) -> serde_json::Value {
    serde_json::from_str(text).unwrap()
}

fn payload() -> BootstrapPayload {
    BootstrapPayload {
        session_id: Uuid::new_v4(),
        auth_token: "t".into(),
        auth_token_expires_in_seconds: 60,
        quic_addr: "127.0.0.1:30001".into(),
        cert_fingerprint: FINGERPRINT.into(),
    }
}

fn entry() -> SessionCacheEntry {
    SessionCacheEntry {
        session_id: Uuid::from_u128(1),
        ssh_target: "user@example.com".to_string(),
        resume_token: "r".to_string(),
        resume_token_expires_at: 1_700_000_000,
        quic_addr: "127.0.0.1:30001".to_string(),
        cert_fingerprint: FINGERPRINT.to_string(),
        updated_at: 1_700_000_000,
    }
}

#[test]
fn ipc_socket_path_uses_neosh_namespace() {
    let sid = Uuid::new_v4();
    let runtime_dir: Option<&str> = None;
    let text = ipc_socket_path(runtime_dir, sid);
    assert!(text.contains("/neosh/"));
    assert!(text.ends_with(&format!("{}.sock", sid.to_text())));
}

#[test]
fn resume_mode_generates_renew_command() {
    let mode = BootstrapMode::Renew {
        session_id: Uuid::parse_str("550e8400-e29b-41d4-a716-446655440000").unwrap(),
    };
    let cmd = build_remote_command(mode, "neoshd", None);
    assert!(cmd.contains("renew-auth"));
}

#[test]
fn renew_commands_name_the_session() {
    let mode = BootstrapMode::Renew {
        session_id: Uuid::parse_str("550e8400-e29b-41d4-a716-446655440000").unwrap(),
    };
    assert_eq!(
        build_remote_command(mode, "/opt/neoshd", Some("/tmp/ignored")),
        "/opt/neoshd renew-auth --session-id 550e8400-e29b-41d4-a716-446655440000 --user \"$USER\""
    );
}

#[test]
fn custom_neoshd_path_is_used_for_bootstrap_command() {
    let cmd = build_remote_command(BootstrapMode::New, "/opt/neosh/bin/neoshd", None);
    assert!(cmd.contains("/opt/neosh/bin/neoshd"));
    assert!(cmd.contains("nohup"));
}

#[test]
fn shell_single_quote_escapes_single_quote() {
    let v = shell_single_quote("/tmp/a'b");
    assert_eq!(v, "'/tmp/a'\\''b'");
}

#[test]
fn quoting_keeps_other_characters() {
    assert_eq!(shell_single_quote(""), "''");
    assert_eq!(shell_single_quote("a $b \"c\" \\"), "'a $b \"c\" \\'");
    assert_eq!(shell_single_quote("'"), "''\\'''");
}

#[test]
fn bootstrap_command_can_redirect_remote_logs() {
    let cmd = build_remote_command(
        BootstrapMode::New,
        "/opt/neosh/bin/neoshd",
        Some("/tmp/neoshd.log"),
    );
    assert!(cmd.contains("log_file='/tmp/neoshd.log';"));
    assert!(cmd.contains("2>>\"$log_file\""));
}

#[test]
fn bootstrap_command_without_log_file_discards_stderr() {
    let cmd = build_remote_command(BootstrapMode::New, "/opt/neosh/bin/neoshd", None);
    assert!(!cmd.contains("log_file="));
    assert!(cmd.contains("2>/dev/null"));
}

#[test]
fn the_bootstrap_script_waits_for_one_line() {
    assert_eq!(
        build_remote_command(BootstrapMode::New, "neoshd", Some("/tmp/l")),
        "sh -lc 'set -eu; bootstrap_file=\"$(mktemp -t neosh-bootstrap.XXXXXX)\"; \
log_file='/tmp/l'; nohup 'neoshd' new --user \"$USER\" >\"$bootstrap_file\" 2>>\"$log_file\" </dev/null & \
for i in $(seq 1 200); do \
if [ -s \"$bootstrap_file\" ]; then \
head -n 1 \"$bootstrap_file\"; rm -f \"$bootstrap_file\"; exit 0; \
fi; \
sleep 0.05; \
done; \
echo \"bootstrap timeout\" >&2; rm -f \"$bootstrap_file\"; exit 1'"
    );
}

#[test]
fn remote_options_are_passed_on() {
    let cmd = build_remote_command_with(
        BootstrapMode::New,
        "neoshd",
        None,
        Some("/srv/x"),
        Some("echo 'hi'"),
    );
    assert!(cmd.contains(
        "new --user \"$USER\" --working-directory '\\''/srv/x'\\'' --command '\\''echo '\\''\\'\\'''\\''hi'\\''\\'\\'''\\'''\\'' >"
    ));
    assert_eq!(
        build_remote_command_with(BootstrapMode::New, "neoshd", None, None, None),
        build_remote_command(BootstrapMode::New, "neoshd", None)
    );
}

#[test]
fn detect_expired_resume_entry() {
    let now = 1_700_000_100_u64;
    let entry = SessionCacheEntry {
        session_id: Uuid::new_v4(),
        ssh_target: "user@example.com".to_string(),
        resume_token: "r".to_string(),
        resume_token_expires_at: 1_700_000_000,
        quic_addr: "127.0.0.1:30001".to_string(),
        cert_fingerprint:
            "sha256:0123456789abcdef0123456789abcdef0123456789abcdef0123456789abcdef".to_string(),
        updated_at: 1_700_000_000,
    };
    assert!(resume_entry_expired(&entry, now));
}

#[test]
fn renew_payload_session_id_must_match() {
    let expected = Uuid::new_v4();
    let payload = BootstrapPayload {
        session_id: Uuid::new_v4(),
        auth_token: "t".to_string(),
        auth_token_expires_in_seconds: 60,
        quic_addr: "127.0.0.1:30001".to_string(),
        cert_fingerprint:
            "sha256:0123456789abcdef0123456789abcdef0123456789abcdef0123456789abcdef".to_string(),
    };
    assert!(validate_renew_payload(expected, &payload).is_err());
}

#[test]
fn renewals_are_checked_against_the_cache() {
    let cached = entry();
    let mut p = payload();
    p.session_id = cached.session_id;
    assert!(validate_renew_payload(cached.session_id, &p).is_ok());
    assert_eq!(
        check_renewal(cached.session_id, &p, &cached, 5).unwrap(),
        None
    );
    p.quic_addr = "127.0.0.1:30002".to_string();
    let updated = check_renewal(cached.session_id, &p, &cached, 5)
        .unwrap()
        .unwrap();
    let mut expected = cached.clone();
    expected.quic_addr = "127.0.0.1:30002".to_string();
    expected.updated_at = 5;
    assert_eq!(updated, expected);
    p.cert_fingerprint = "sha256:other".to_string();
    assert_eq!(
        check_renewal(cached.session_id, &p, &cached, 5)
            .unwrap_err()
            .message(),
        "protocol failed: cert_fingerprint changed for existing session_id"
    );
    assert_eq!(
        check_renewal(Uuid::from_u128(9), &p, &cached, 5)
            .unwrap_err()
            .message(),
        "protocol failed: renew-auth returned mismatched session_id"
    );
}

#[test]
fn entries_expire_and_name_their_target() {
    let cached = entry();
    assert!(check_entry(&cached, 1_699_999_999).is_ok());
    assert_eq!(
        check_entry(&cached, 1_700_000_000).unwrap_err().message(),
        "cache failed: resume token expired; start a new connect"
    );
    assert_eq!(resume_target(None, &cached).unwrap(), "user@example.com");
    assert_eq!(
        resume_target(Some("other".to_string()), &cached).unwrap(),
        "other"
    );
    let mut blank = entry();
    blank.ssh_target.clear();
    assert_eq!(
        resume_target(None, &blank).unwrap_err().message(),
        "cache failed: missing ssh_target in cache; pass --target explicitly"
    );
}

#[test]
fn detach_request_must_include_matching_session_id() {
    let sid = Uuid::new_v4();
    let ok = json(&format!(
        "{{\"type\":\"DETACH\",\"session_id\":\"{}\"}}",
        sid.to_text()
    ));
    let bad = json(&format!(
        "{{\"type\":\"DETACH\",\"session_id\":\"{}\"}}",
        Uuid::new_v4().to_text()
    ));
    assert!(is_valid_detach_request(&ok, sid));
    assert!(!is_valid_detach_request(&bad, sid));
}

#[test]
fn detach_requests_are_answered() {
    let sid = Uuid::from_u128(1);
    let good = format!(
        "{{\"type\":\"DETACH\",\"session_id\":\"{}\"}}",
        sid.to_text()
    );
    let answer = answer_detach(true, Some(good.as_bytes()), sid);
    assert!(answer.detach);
    assert_eq!(answer.text, "{\"ok\":true}");
    assert!(check_detach_reply(answer.text.as_bytes()).is_ok());
    let cases: [(bool, Option<&[u8]>, &str); 4] = [
        (
            false,
            Some(good.as_bytes()),
            "{\"ok\":false,\"error\":\"peer uid mismatch\"}",
        ),
        (
            true,
            None,
            "{\"ok\":false,\"error\":\"invalid request body\"}",
        ),
        (
            true,
            Some(b"{"),
            "{\"ok\":false,\"error\":\"invalid request json\"}",
        ),
        (
            true,
            Some(b"{\"type\":\"DETACH\"}"),
            "{\"ok\":false,\"error\":\"invalid detach request\"}",
        ),
    ];
    for (owner, body, text) in cases {
        let answer = answer_detach(owner, body, sid);
        assert!(!answer.detach);
        assert_eq!(answer.text, text);
        assert!(check_detach_reply(answer.text.as_bytes()).is_err());
    }
    assert_eq!(
        check_detach_reply(b"{\"ok\":\"true\"}").unwrap_err().message(),
        "protocol failed: detach failed: {\"ok\":\"true\"}"
    );
    assert!(check_detach_reply(b"").is_err());
}

#[test]
fn parse_session_id_from_socket_path() {
    let sid = Uuid::new_v4();
    let path = format!("/tmp/neosh/{}.sock", sid.to_text());
    let parsed = session_id_from_socket_path(&path).unwrap();
    assert_eq!(parsed, sid);
}

#[test]
fn socket_paths_without_a_session_are_refused() {
    assert_eq!(
        session_id_from_socket_path("/").unwrap_err().message(),
        "io failed: invalid session socket name: /"
    );
    assert_eq!(
        session_id_from_socket_path("/tmp/..").unwrap_err().message(),
        "io failed: invalid session socket name: /tmp/.."
    );
    assert!(session_id_from_socket_path("/tmp/neosh/x.sock")
        .unwrap_err()
        .message()
        .starts_with("io failed: invalid session socket id: "));
    let sid = Uuid::from_u128(77);
    let path = ipc_socket_path(Some("/run/user/1"), sid);
    assert_eq!(session_id_from_socket_path(&path).unwrap(), sid);
    let trailing = format!("{path}/./");
    assert_eq!(session_id_from_socket_path(&trailing).unwrap(), sid);
    assert_eq!(session_id_from_socket_path(&sid.to_text()).unwrap(), sid);
}

#[test]
fn the_first_socket_is_discovered() {
    let files: Vec<String> = ["/r/a.txt", "/r/.sock", "/r/b.sock", "/r/c.sock"]
        .iter()
        .map(|s| s.to_string())
        .collect();
    assert_eq!(discover_active_socket(&files).unwrap(), 2);
    assert_eq!(
        discover_active_socket(&files[..2].to_vec())
            .unwrap_err()
            .message(),
        "io failed: no active session socket found"
    );
}

#[test]
fn detach_hotkey_detects_split_chunks() {
    let (detach1, out1, pending1) = process_stdin_chunk_for_detach(&[0x01], false);
    assert!(!detach1);
    assert!(out1.is_empty());
    assert!(pending1);

    let (detach2, out2, pending2) = process_stdin_chunk_for_detach(b"d", pending1);
    assert!(detach2);
    assert!(out2.is_empty());
    assert!(!pending2);
}

#[test]
fn detach_hotkey_falls_back_to_raw_bytes_when_not_matched() {
    let (detach, out, pending) = process_stdin_chunk_for_detach(&[0x01, b'x'], false);
    assert!(!detach);
    assert_eq!(out, vec![0x01, b'x']);
    assert!(!pending);
}

#[test]
fn backspace_ctrl_h_is_normalized_to_del() {
    let (detach, out, pending) = process_stdin_chunk_for_detach(&[0x08], false);
    assert!(!detach);
    assert_eq!(out, vec![0x7f]);
    assert!(!pending);
}

#[test]
fn backspace_del_is_passthrough() {
    let (detach, out, pending) = process_stdin_chunk_for_detach(&[0x7f], false);
    assert!(!detach);
    assert_eq!(out, vec![0x7f]);
    assert!(!pending);
}

#[test]
fn chunks_do_not_change_what_is_sent() {
    let input = [b'a', 0x01, 0x01, b'x', 0x08, 0x01, b'D', b'z'];
    let (detach, out, pending) = process_stdin_chunk_for_detach(&input, false);
    assert!(detach);
    assert!(!pending);
    assert_eq!(out, vec![b'a', 0x01, 0x01, b'x', 0x7f]);
    for cut in 0..input.len() {
        let (d1, mut o1, p1) = process_stdin_chunk_for_detach(&input[..cut], false);
        if d1 {
            assert_eq!(o1, out);
            continue;
        }
        let (d2, o2, p2) = process_stdin_chunk_for_detach(&input[cut..], p1);
        o1.extend(o2);
        assert_eq!((d2, o1, p2), (detach, out.clone(), pending));
    }
}

#[test]
fn parse_valid_bootstrap_payload() {
    let raw = r#"{
          "session_id":"550e8400-e29b-41d4-a716-446655440000",
          "auth_token":"opaque",
          "auth_token_expires_in_seconds":60,
          "quic_addr":"127.0.0.1:30001",
          "cert_fingerprint":"sha256:0123456789abcdef0123456789abcdef0123456789abcdef0123456789abcdef"
        }"#;

    let p = parse_bootstrap_payload(raw).unwrap();
    assert_eq!(p.auth_token, "opaque");
}

#[test]
fn every_field_of_a_bootstrap_payload_is_read_and_needed() {
    let fields = [
        ("session_id", "\"550e8400-e29b-41d4-a716-446655440000\""),
        ("auth_token", "\"opaque\""),
        ("auth_token_expires_in_seconds", "60"),
        ("quic_addr", "\"example.com:1\""),
        ("cert_fingerprint", &format!("\"{FINGERPRINT}\"")),
    ];
    let document = |skip: usize| {
        let members: Vec<String> = fields
            .iter()
            .enumerate()
            .filter(|(i, _)| *i != skip)
            .map(|(_, (k, v))| format!("\"{k}\":{v}"))
            .collect();
        format!("{{{}}}", members.join(","))
    };
    let p = parse_bootstrap_payload(&document(9)).unwrap();
    assert_eq!(p.session_id.value, 0x550e8400e29b41d4a716446655440000);
    assert_eq!(p.auth_token_expires_in_seconds, 60);
    assert_eq!(p.quic_addr, "example.com:1");
    assert_eq!(p.cert_fingerprint, FINGERPRINT);
    for skip in 0..fields.len() {
        assert!(parse_bootstrap_payload(&document(skip))
            .unwrap_err()
            .message()
            .starts_with("invalid bootstrap json: "));
    }
    assert!(parse_bootstrap_payload("").is_err());
    let wrong = document(9).replace("550e8400", "zzz");
    assert!(parse_bootstrap_payload(&wrong).is_err());
    let zero = document(9).replace(":60", ":0");
    assert_eq!(
        parse_bootstrap_payload(&zero).unwrap_err().message(),
        "invalid bootstrap payload: auth_token_expires_in_seconds must be > 0"
    );
}

#[test]
fn reject_invalid_fingerprint() {
    let payload = BootstrapPayload {
        session_id: Uuid::new_v4(),
        auth_token: "t".into(),
        auth_token_expires_in_seconds: 60,
        quic_addr: "127.0.0.1:30001".into(),
        cert_fingerprint: "sha256:xyz".into(),
    };
    assert!(validate_bootstrap_payload(&payload).is_err());
}

#[test]
fn accept_hostname_quic_addr() {
    let payload = BootstrapPayload {
        session_id: Uuid::new_v4(),
        auth_token: "t".into(),
        auth_token_expires_in_seconds: 60,
        quic_addr: "example.com:30001".into(),
        cert_fingerprint:
            "sha256:0123456789abcdef0123456789abcdef0123456789abcdef0123456789abcdef".into(),
    };
    assert!(validate_bootstrap_payload(&payload).is_ok());
}

#[test]
fn payload_checks_name_the_field() {
    let refused = |change: &dyn Fn(&mut BootstrapPayload)| {
        let mut p = payload();
        change(&mut p);
        validate_bootstrap_payload(&p).unwrap_err().message()
    };
    assert_eq!(
        refused(&|p| p.auth_token.clear()),
        "invalid bootstrap payload: auth_token is empty"
    );
    assert_eq!(
        refused(&|p| p.quic_addr = "nohost".into()),
        "invalid bootstrap payload: quic_addr is not host:port"
    );
    assert_eq!(
        refused(&|p| p.cert_fingerprint = "md5:00".into()),
        "invalid bootstrap payload: cert_fingerprint must start with sha256:"
    );
    assert_eq!(
        refused(&|p| p.cert_fingerprint.push('0')),
        "invalid bootstrap payload: cert_fingerprint hex is invalid"
    );
    for (addr, valid) in [
        ("", false),
        (":1", false),
        ("h:", false),
        ("h:65536", false),
        ("h:+80", true),
        ("[::1]:443", true),
        ("[]:443", false),
        ("[::1]443", false),
        ("::1:443", true),
        ("[::1]:443]:80", false),
    ] {
        let mut p = payload();
        p.quic_addr = addr.to_string();
        assert_eq!(validate_bootstrap_payload(&p).is_ok(), valid, "{addr}");
    }
}

fn output(success: bool, stdout: &str, stderr: &str) -> Result<CommandOutput, String> {
    Ok(CommandOutput {
        success,
        stdout: stdout.as_bytes().to_vec(),
        stderr: stderr.as_bytes().to_vec(),
    })
}

#[test]
fn remote_commands_answer_with_trimmed_output() {
    assert_eq!(
        run_remote_command(output(true, " a b \n", "noise")).unwrap(),
        "a b"
    );
    assert_eq!(
        runRemoteCommand(output(false, "x", " no route\n"))
            .unwrap_err()
            .message(),
        "ssh command failed: no route"
    );
    assert_eq!(
        run_remote_command(Err("not found".to_string()))
            .unwrap_err()
            .message(),
        "ssh command failed: not found"
    );
    let broken = Ok(CommandOutput {
        success: true,
        stdout: vec![b'a', 0xff, b'b'],
        stderr: vec![],
    });
    assert_eq!(run_remote_command(broken).unwrap(), "a\u{fffd}b");
    assert_eq!(working_directory_command(), "sh -lc 'pwd'");
    assert_eq!(
        resolve_remote_working_directory(output(true, "/home/a\n", "")).unwrap(),
        "/home/a"
    );
    assert_eq!(
        resolveRemoteWorkingDirectory(output(true, " \n", ""))
            .unwrap_err()
            .message(),
        "ssh command failed: remote working directory is empty"
    );
    assert!(run_ssh_bootstrap(output(false, "", "denied")).is_err());
    assert!(run_ssh_bootstrap(output(true, "{}", "")).is_err());
}

#[test]
fn control_frame_round_trip() {
    let msg = json(r#"{"type":"PING","nonce":"n"}"#);
    let frame = encode_control_json(&msg).unwrap();
    let decoded = decode_control_json(&frame, 4096).unwrap();
    assert_eq!(message_type(&decoded), Some("PING"));
}

#[test]
fn control_frames_that_cannot_be_read() {
    assert_eq!(
        encode_control_json(&json("{\"a\":1}")).unwrap(),
        b"\0\0\0\x07{\"a\":1}"
    );
    assert_eq!(
        decode_control_json(&[0, 0, 0], 16).unwrap_err().message(),
        "protocol error: frame too short"
    );
    assert!(decode_control_json(&[0, 0, 0, 1, b'{'], 16)
        .unwrap_err()
        .message()
        .starts_with("json error: "));
    assert_eq!(message_type(&json("{\"type\":1}")), None);
    assert_eq!(message_type(&json("[]")), None);
    assert_eq!(ControlError::Io("x".to_string()).message(), "io error: x");
}

#[test]
fn fingerprint_format_is_expected() {
    let fp = sha256_fingerprint(b"abc");
    assert!(fp.starts_with("sha256:"));
    assert_eq!(fp.len(), 71);
}

#[test]
fn servers_are_pinned_by_their_first_certificate() {
    let chain = vec![b"abc".to_vec(), b"def".to_vec()];
    let expected = "sha256:ba7816bf8f01cfea414140de5dae2223b00361a396177a9cb410ff61f20015ad";
    assert_eq!(sha256_fingerprint(b"abc"), expected);
    assert_eq!(peer_cert_fingerprint(Some(&chain)).unwrap(), expected);
    assert!(verify_peer_fingerprint(Some(&chain), expected).is_ok());
    assert!(matches!(
        verify_peer_fingerprint(Some(&chain), &sha256_fingerprint(b"def")),
        Err(QuicClientError::FingerprintMismatch)
    ));
    assert!(matches!(
        verify_peer_fingerprint(Some(&vec![]), expected),
        Err(QuicClientError::MissingPeerCertificate)
    ));
    assert!(matches!(
        verify_peer_fingerprint(None, expected),
        Err(QuicClientError::MissingPeerCertificate)
    ));
    assert_eq!(
        QuicClientError::FingerprintMismatch.message(),
        "fingerprint mismatch"
    );
    assert_eq!(
        QuicClientError::MissingPeerCertificate.message(),
        "peer certificate missing"
    );
    assert_eq!(QuicClientError::InvalidAddr.message(), "invalid quic addr");
    assert_eq!(
        QuicClientError::Connect("x".into()).message(),
        "connect error: x"
    );
    assert_eq!(
        QuicClientError::InvalidIdleTimeout("x".into()).message(),
        "invalid idle timeout: x"
    );
}

#[test]
fn valid_new_session_path() {
    let mut s = ClientState::Init;
    s = transition(s, ClientEvent::QuicConnected).unwrap();
    s = transition(s, ClientEvent::HelloAck).unwrap();
    s = transition(s, ClientEvent::AuthOk).unwrap();
    s = transition(s, ClientEvent::AttachOk).unwrap();
    assert_eq!(s, ClientState::Attached);
}

#[test]
fn invalid_transition_rejected() {
    assert_eq!(
        transition(ClientState::Init, ClientEvent::AuthOk),
        Err(StateError::InvalidTransition)
    );
}

#[test]
fn errors_close_the_client_in_every_state() {
    let states = [
        ClientState::Init,
        ClientState::Connected,
        ClientState::HelloDone,
        ClientState::Authenticated,
        ClientState::Attached,
        ClientState::Detached,
        ClientState::Closed,
    ];
    for state in states {
        assert_eq!(transition(state, ClientEvent::Error), Ok(ClientState::Closed));
    }
    assert_eq!(
        transition(ClientState::Attached, ClientEvent::Detached),
        Ok(ClientState::Detached)
    );
    assert_eq!(
        transition(ClientState::Detached, ClientEvent::Closed),
        Ok(ClientState::Closed)
    );
    assert!(transition(ClientState::Closed, ClientEvent::HelloAck).is_err());
    assert_eq!(
        StateError::InvalidTransition.message(),
        "invalid state transition"
    );
}

#[test]
fn cached_sessions_have_their_own_files() {
    let sid = Uuid::parse_str("550e8400-e29b-41d4-a716-446655440000").unwrap();
    let cache = SessionCache::new("/home/a/.cache/neosh/sessions".to_string());
    assert_eq!(cache.root(), "/home/a/.cache/neosh/sessions");
    assert_eq!(
        cache.entry_path(sid),
        "/home/a/.cache/neosh/sessions/550e8400-e29b-41d4-a716-446655440000.json"
    );
    assert_ne!(cache.entry_path(sid), cache.entry_path(Uuid::from_u128(1)));
    assert_eq!(
        SessionCache::default_root(Some("/c"), Some("/home/a")),
        "/c/neosh/sessions"
    );
    assert_eq!(
        SessionCache::default_root(None, Some("/home/a")),
        "/home/a/.cache/neosh/sessions"
    );
    assert_eq!(
        SessionCache::default_root(None, None),
        "./.cache/neosh/sessions"
    );
    assert_eq!(CacheError::Io("x".into()).message(), "io error: x");
    assert_eq!(CacheError::Json("x".into()).message(), "json error: x");
    assert!(now_epoch_seconds() > 1_672_531_200);
}

#[test]
fn client_identifiers_are_kept_or_rotated() {
    let fresh = Uuid::from_u128(5);
    let kept = choose_client_id(Some(" 550e8400-e29b-41d4-a716-446655440000\n"), fresh);
    assert!(!kept.is_new);
    assert_eq!(
        kept.client_id.to_text(),
        "550e8400-e29b-41d4-a716-446655440000"
    );
    for contents in [None, Some(""), Some("broken")] {
        let rotated = choose_client_id(contents, fresh);
        assert!(rotated.is_new);
        assert_eq!(rotated.client_id, fresh);
    }
    assert_eq!(client_id_path(Some("/s"), None), "/s/neosh/client_id");
    assert_eq!(
        client_id_path(None, Some("/home/a")),
        "/home/a/.local/state/neosh/client_id"
    );
    assert_eq!(client_id_path(None, None), "./.local/state/neosh/client_id");
    assert_eq!(read_client_id(Some("broken")), None);
    assert_eq!(read_client_id(None), None);
    assert_eq!(read_client_id(Some(&fresh.to_text())), Some(fresh));
}

#[test]
fn connecting_is_retried_once() {
    let mut plan = RetryPlan::new();
    match plan.after_connect(&Err(CliError::AuthFailed), true) {
        Next::Retry { delay } => assert_eq!(delay.as_nanos(), 100_000_000),
        other => panic!("unexpected {other:?}"),
    }
    assert_eq!(
        plan.after_connect(&Err(CliError::AuthFailed), true),
        Next::Fail
    );
    let id = Uuid::from_u128(3);
    assert_eq!(
        plan.after_connect(&Err(CliError::Disconnected(id)), true),
        Next::Resume { session_id: id }
    );
    assert_eq!(
        plan.after_connect(&Err(CliError::Disconnected(id)), false),
        Next::Fail
    );
    assert_eq!(plan.after_connect(&Ok(()), false), Next::Finish);
    assert_eq!(
        plan.after_connect(&Err(CliError::Closed), false),
        Next::Finish
    );
    assert_eq!(
        plan.after_connect(&Err(CliError::Quic("x".into())), true),
        Next::Fail
    );
}

#[test]
fn resuming_is_retried_twice_with_growing_delays() {
    let mut plan = RetryPlan::new();
    let id = Uuid::from_u128(3);
    match plan.after_resume(&Err(CliError::Disconnected(id)), true) {
        Next::Retry { delay } => assert_eq!(delay.as_nanos(), 100_000_000),
        other => panic!("unexpected {other:?}"),
    }
    match plan.after_resume(&Err(CliError::AuthFailed), false) {
        Next::Retry { delay } => assert_eq!(delay.as_nanos(), 200_000_000),
        other => panic!("unexpected {other:?}"),
    }
    assert_eq!(
        plan.after_resume(&Err(CliError::AuthFailed), true),
        Next::Fail
    );
    let mut plan = RetryPlan::new();
    assert_eq!(
        plan.after_resume(&Err(CliError::Disconnected(id)), false),
        Next::Fail
    );
    assert_eq!(plan.after_resume(&Ok(()), true), Next::Finish);
    assert_eq!(plan.after_resume(&Err(CliError::Closed), true), Next::Finish);
    assert_eq!(
        plan.after_resume(&Err(CliError::Io("x".into())), true),
        Next::Fail
    );
}

#[test]
fn bootstraps_are_tried_twice() {
    let mut tries = BootstrapTries::new();
    assert!(tries.on_failure("first".to_string()).is_none());
    assert_eq!(
        tries.on_failure("second".to_string()).unwrap().message(),
        "bootstrap failed: second"
    );
}

#[test]
fn client_errors_say_what_is_wrong() {
    let id = Uuid::from_u128(1);
    let cases = [
        (CliError::Bootstrap("m".into()), "bootstrap failed: m"),
        (CliError::Quic("m".into()), "quic failed: m"),
        (CliError::Protocol("m".into()), "protocol failed: m"),
        (CliError::Cache("m".into()), "cache failed: m"),
        (CliError::Io("m".into()), "io failed: m"),
        (CliError::AuthFailed, "auth failed"),
        (
            CliError::Disconnected(id),
            "connection lost while attached",
        ),
        (CliError::Closed, "session closed"),
    ];
    for (e, text) in cases {
        assert_eq!(e.message(), text);
    }
}

#[test]
fn a_pending_prefix_is_sent_at_the_end() {
    let (_, out, pending) = process_stdin_chunk_for_detach(&[b'x', 0x01], false);
    assert_eq!(out, b"x");
    assert_eq!(end_of_input(pending), vec![0x01]);
    assert!(end_of_input(false).is_empty());
}
