use neoshd::protocol::dispatcher::{
    ConnectionState, DispatchError, DispatchOutcome, Dispatcher,
};
use neoshd::protocol::framing::{decode_frame, encode_frame, payload_length, FramingError};
use neoshd::protocol::messages::{parse_message_kind, ControlEnvelope, MessageKind};
use neoshd::transport::quic::QuicSkeletonConfig;

#[test]
fn rejects_auth_before_hello() {
    let mut d = Dispatcher::default();
    assert_eq!(
        d.on_message(MessageKind::Auth),
        Err(DispatchError::ProtocolOrder)
    );
}

#[test]
fn allows_valid_attach_flow() {
    let mut d = Dispatcher::default();

    assert_eq!(
        d.on_message(MessageKind::Hello),
        Ok(DispatchOutcome::Continue)
    );
    assert_eq!(
        d.on_message(MessageKind::Auth),
        Ok(DispatchOutcome::Continue)
    );
    assert_eq!(
        d.on_message(MessageKind::Attach),
        Ok(DispatchOutcome::Continue)
    );
    assert_eq!(d.state(), ConnectionState::Attached);
}

#[test]
fn allows_valid_resume_flow() {
    let mut d = Dispatcher::default();

    assert_eq!(
        d.on_message(MessageKind::Hello),
        Ok(DispatchOutcome::Continue)
    );
    assert_eq!(
        d.on_message(MessageKind::Auth),
        Ok(DispatchOutcome::Continue)
    );
    assert_eq!(
        d.on_message(MessageKind::Resume),
        Ok(DispatchOutcome::Continue)
    );
    assert_eq!(d.state(), ConnectionState::Attached);
}

#[test]
fn resize_only_valid_when_attached() {
    let mut d = Dispatcher::default();
    assert_eq!(
        d.on_message(MessageKind::Resize),
        Err(DispatchError::ProtocolOrder)
    );

    d.on_message(MessageKind::Hello).unwrap();
    d.on_message(MessageKind::Auth).unwrap();
    d.on_message(MessageKind::Attach).unwrap();

    assert_eq!(
        d.on_message(MessageKind::Resize),
        Ok(DispatchOutcome::Continue)
    );
}

#[test]
fn closing_is_final() {
    let mut d = Dispatcher::default();
    d.on_message(MessageKind::Hello).unwrap();
    d.on_message(MessageKind::Auth).unwrap();
    assert_eq!(d.on_message(MessageKind::Close), Ok(DispatchOutcome::Close));
    assert_eq!(d.state(), ConnectionState::Closed);
    for kind in [
        MessageKind::Hello,
        MessageKind::Auth,
        MessageKind::Attach,
        MessageKind::Resume,
        MessageKind::Resize,
        MessageKind::Detach,
        MessageKind::Close,
        MessageKind::Ping,
        MessageKind::Pong,
        MessageKind::Error,
    ] {
        assert_eq!(d.on_message(kind), Err(DispatchError::ProtocolOrder));
    }
    assert_eq!(
        DispatchError::ProtocolOrder.message(),
        "protocol error: out-of-order message"
    );
}

#[test]
fn pings_are_allowed_until_closed() {
    let mut d = Dispatcher::default();
    assert!(d.on_message(MessageKind::Ping).is_ok());
    assert_eq!(d.state(), ConnectionState::AwaitHello);
    d.on_message(MessageKind::Hello).unwrap();
    assert!(d.on_message(MessageKind::Ping).is_ok());
    assert!(d.on_message(MessageKind::Pong).is_err());
    d.on_message(MessageKind::Auth).unwrap();
    assert!(d.on_message(MessageKind::Ping).is_ok());
    d.on_message(MessageKind::Resume).unwrap();
    assert!(d.on_message(MessageKind::Ping).is_ok());
    assert!(d.on_message(MessageKind::Detach).is_ok());
    assert_eq!(d.state(), ConnectionState::Attached);
}

#[test]
fn round_trip_frame_codec() {
    let payload = br#"{"type":"PING","nonce":"n"}"#;
    let frame = encode_frame(payload);
    let decoded = decode_frame(&frame, 1024).unwrap();
    assert_eq!(decoded, payload);
}

#[test]
fn rejects_length_mismatch() {
    let bad = vec![0, 0, 0, 5, b'x'];
    assert_eq!(decode_frame(&bad, 1024), Err(FramingError::LengthMismatch));
}

#[test]
fn rejects_oversized_payload() {
    let mut frame = vec![0, 0, 16, 0];
    frame.extend_from_slice(&[0u8; 16]);
    assert_eq!(decode_frame(&frame, 15), Err(FramingError::TooLarge));
}

#[test]
fn frames_start_with_their_length() {
    assert_eq!(encode_frame(b"abc"), vec![0, 0, 0, 3, b'a', b'b', b'c']);
    let long = vec![7u8; 0x1234];
    let frame = encode_frame(&long);
    assert_eq!(&frame[..4], &[0, 0, 0x12, 0x34]);
    assert_eq!(payload_length(&frame), 0x1234);
    assert_eq!(payload_length(&[0x01, 0x02, 0x03, 0x04]), 0x01020304);
    assert_eq!(decode_frame(&[], 10), Err(FramingError::TooShort));
    assert_eq!(decode_frame(&[0, 0, 0], 10), Err(FramingError::TooShort));
    assert_eq!(decode_frame(&[0, 0, 0, 0], 0), Ok(&b""[..]));
    assert_eq!(FramingError::TooShort.message(), "frame too short");
    assert_eq!(FramingError::LengthMismatch.message(), "frame length mismatch");
    assert_eq!(FramingError::TooLarge.message(), "frame too large");
}

#[test]
fn parses_known_message_type() {
    let payload = br#"{"type":"HELLO"}"#;
    assert_eq!(parse_message_kind(payload), Some(MessageKind::Hello));
}

#[test]
fn rejects_unknown_message_type() {
    let payload = br#"{"type":"FOO"}"#;
    assert_eq!(parse_message_kind(payload), None);
}

#[test]
fn every_kind_is_found_by_its_name() {
    let kinds = [
        ("HELLO", MessageKind::Hello),
        ("AUTH", MessageKind::Auth),
        ("ATTACH", MessageKind::Attach),
        ("RESUME", MessageKind::Resume),
        ("RESIZE", MessageKind::Resize),
        ("DETACH", MessageKind::Detach),
        ("CLOSE", MessageKind::Close),
        ("PING", MessageKind::Ping),
        ("PONG", MessageKind::Pong),
        ("ERROR", MessageKind::Error),
    ];
    for (name, kind) in kinds {
        let payload = format!("{{\"extra\":1,\"type\":\"{name}\"}}");
        assert_eq!(parse_message_kind(payload.as_bytes()), Some(kind));
        let envelope = ControlEnvelope { msg_type: name.to_string() };
        assert_eq!(envelope.kind(), Some(kind));
    }
    assert_eq!(parse_message_kind(b"not json"), None);
    assert_eq!(parse_message_kind(b"{}"), None);
    assert_eq!(parse_message_kind(br#"{"type":1}"#), None);
    assert_eq!(parse_message_kind(br#"{"type":"hello"}"#), None);
}

#[test]
fn default_quic_skeleton_matches_protocol() {
    let cfg = QuicSkeletonConfig::default();
    assert_eq!(cfg.alpn, "neosh/1");
    assert!(cfg.max_control_frame_bytes >= 4096);
}

#[test]
fn control_frames_hold_up_to_64_kib() {
    assert_eq!(QuicSkeletonConfig::default().max_control_frame_bytes, 65536);
}
