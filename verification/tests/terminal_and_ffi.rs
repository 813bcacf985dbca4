use neoshd::client::session::ClientMessage;
use neoshd::ffi::{
    build_auth, build_resume, check_recv_stdout, check_send_stdin, control_length, cstr_to_string,
    cstring_lossy, deliver, read_uuid_argument, report_stdout, StdoutRead, TextArgument,
    NEOSH_CLIENT_ERR_BUFFER_TOO_SMALL, NEOSH_CLIENT_ERR_INTERNAL, NEOSH_CLIENT_ERR_INVALID_ARG,
    NEOSH_CLIENT_ERR_NOT_READY, NEOSH_CLIENT_OK,
};
use neoshd::ids::Uuid;
use neoshd::terminal::pty::{optional, shell_arguments, terminal_kind, PtyError, PtyRuntime};

#[test]
fn shells_start_as_interactive_login_shells() {
    assert_eq!(shell_arguments("/bin/sh", None), vec!["-li"]);
    assert_eq!(
        shell_arguments("/bin/a'b", Some("make; ls")),
        vec!["-lc", "make; ls; exec '/bin/a'\\''b' -li"]
    );
    assert_eq!(terminal_kind(Some("screen")), "screen");
    assert_eq!(terminal_kind(None), "xterm-256color");
    assert_eq!(optional(""), None);
    assert_eq!(optional("/srv"), Some("/srv"));
    assert_eq!(PtyRuntime::new(24, 80).unwrap().size(), (24, 80));
}

#[test]
fn terminal_errors_say_what_is_wrong() {
    let cases = [
        (PtyError::Open("m".into()), "open pty failed: m"),
        (PtyError::Spawn("m".into()), "spawn command failed: m"),
        (PtyError::Read("m".into()), "read output failed: m"),
        (PtyError::Write("m".into()), "write input failed: m"),
        (PtyError::Resize("m".into()), "resize failed: m"),
        (PtyError::Wait("m".into()), "wait command failed: m"),
        (PtyError::ReaderTaken, "pty reader already taken"),
    ];
    for (e, text) in cases {
        assert_eq!(e.message(), text);
    }
}

fn text(s: &str) -> TextArgument {
    TextArgument::Text(s.to_string())
}

#[test]
fn text_arguments_are_trimmed_and_checked() {
    assert_eq!(cstr_to_string(text(" a\n"), "x").unwrap(), "a");
    assert_eq!(cstr_to_string(text(" \t"), "x").unwrap_err(), "x is empty");
    assert_eq!(cstr_to_string(TextArgument::Null, "x").unwrap_err(), "x is null");
    assert_eq!(
        cstr_to_string(TextArgument::NotUtf8, "x").unwrap_err(),
        "x is not valid UTF-8"
    );
    assert_eq!(cstring_lossy("a\0b"), b"a?b");
    assert_eq!(cstring_lossy("ä"), "ä".as_bytes());
}

#[test]
fn messages_are_delivered_whole_or_not_at_all() {
    let (outcome, copied) = deliver(3, false, 3);
    assert_eq!((outcome.code, copied), (NEOSH_CLIENT_OK, 3));
    let (outcome, copied) = deliver(0, true, 0);
    assert_eq!((outcome.code, copied), (NEOSH_CLIENT_OK, 0));
    let (outcome, copied) = deliver(12, false, 3);
    assert_eq!((outcome.code, copied), (NEOSH_CLIENT_ERR_BUFFER_TOO_SMALL, 0));
    assert_eq!(outcome.error.unwrap(), "buffer too small, need 12");
    let (outcome, copied) = deliver(1, true, 3);
    assert_eq!((outcome.code, copied), (NEOSH_CLIENT_ERR_INVALID_ARG, 0));
    assert_eq!(outcome.error.unwrap(), "out_buf is null");
}

#[test]
fn control_lengths_are_limited() {
    assert_eq!(control_length(&[0, 0, 1, 0]).unwrap(), 256);
    assert_eq!(
        control_length(&[0, 1, 0, 1]).unwrap_err(),
        "control frame too large: 65537"
    );
}

#[test]
fn calls_check_their_arguments_in_order() {
    let refused = check_send_stdin(true, true, 1, false).unwrap();
    assert_eq!(refused.code, NEOSH_CLIENT_ERR_INVALID_ARG);
    assert_eq!(refused.error.unwrap(), "written_len is null");
    let refused = check_send_stdin(false, true, 1, false).unwrap();
    assert_eq!(refused.error.unwrap(), "data is null");
    let refused = check_send_stdin(false, true, 0, false).unwrap();
    assert_eq!(refused.code, NEOSH_CLIENT_ERR_NOT_READY);
    assert!(check_send_stdin(false, false, 1, true).is_none());

    let refused = check_recv_stdout(true, 0, true, false).unwrap();
    assert_eq!(refused.error.unwrap(), "out_len or eof is null");
    let refused = check_recv_stdout(false, 0, true, false).unwrap();
    assert_eq!(refused.error.unwrap(), "out_cap is zero");
    let refused = check_recv_stdout(false, 1, true, false).unwrap();
    assert_eq!(refused.error.unwrap(), "out_buf is null");
    let refused = check_recv_stdout(false, 1, false, false).unwrap();
    assert_eq!(refused.code, NEOSH_CLIENT_ERR_NOT_READY);
    assert!(check_recv_stdout(false, 1, false, true).is_none());
}

#[test]
fn output_is_reported() {
    let report = report_stdout(StdoutRead::Bytes(5));
    assert_eq!(report.outcome.code, NEOSH_CLIENT_OK);
    assert_eq!(report.written, Some((5, 0)));
    assert_eq!(report_stdout(StdoutRead::End).written, Some((0, 1)));
    let report = report_stdout(StdoutRead::Nothing);
    assert_eq!(report.outcome.code, NEOSH_CLIENT_ERR_NOT_READY);
    assert_eq!(report.written, Some((0, 0)));
    let report = report_stdout(StdoutRead::Failed("reset".to_string()));
    assert_eq!(report.outcome.code, NEOSH_CLIENT_ERR_INTERNAL);
    assert_eq!(report.outcome.error.unwrap(), "read stdout failed: reset");
    assert_eq!(report.written, None);
}

#[test]
fn messages_are_built_from_checked_arguments() {
    let client = Uuid::from_u128(42);
    match build_auth(text(" tok "), client).unwrap() {
        ClientMessage::Auth { token, client_id } => {
            assert_eq!(token, "tok");
            assert_eq!(client_id, client);
        }
        other => panic!("unexpected {other:?}"),
    }
    assert_eq!(
        build_auth(TextArgument::Null, client).unwrap_err(),
        "auth_token is null"
    );
    let session = "550e8400-e29b-41d4-a716-446655440000";
    match build_resume(text(session), text("r"), client).unwrap() {
        ClientMessage::Resume { session_id, resume_token, client_id } => {
            assert_eq!(session_id.to_text(), session);
            assert_eq!(resume_token, "r");
            assert_eq!(client_id, client);
        }
        other => panic!("unexpected {other:?}"),
    }
    assert!(build_resume(text("x"), text("r"), client)
        .unwrap_err()
        .starts_with("session_id is not a valid UUID: "));
    assert_eq!(
        build_resume(text(session), text(""), client).unwrap_err(),
        "resume_token is empty"
    );
    assert_eq!(
        read_uuid_argument(text(session), "client_id").unwrap().to_text(),
        session
    );
}
