use neoshd::ids::Uuid;
use neoshd::runtime::{NeoshdRuntime, RuntimeConfig, RuntimeError};
use neoshd::session::manager::SessionError;
use neoshd::time::{now_epoch_millis, Duration, Timestamp};
use neoshd::token::service::TokenError;

#[test]
fn renew_auth_reuses_existing_session_id() {
    let mut runtime = NeoshdRuntime::with_config(RuntimeConfig::default());
    let created = runtime.new_session("alice");

    let renewed = runtime.renew_auth(created.session_id, "alice").unwrap();
    assert_eq!(renewed.session_id, created.session_id);
    assert_ne!(renewed.auth_token, created.auth_token);
}

#[test]
fn renew_auth_requires_owner_match() {
    let mut runtime = NeoshdRuntime::with_config(RuntimeConfig::default());
    let created = runtime.new_session("alice");

    let err = runtime.renew_auth(created.session_id, "bob").unwrap_err();
    assert!(matches!(
        err,
        RuntimeError::Session(SessionError::PermissionDenied)
    ));
}

#[test]
fn renewal_tells_what_the_start_told() {
    let mut runtime = NeoshdRuntime::default();
    let created = runtime.new_session("alice");
    let renewed = runtime.renew_auth(created.session_id, "alice").unwrap();
    assert_eq!(renewed.quic_addr, created.quic_addr);
    assert_eq!(renewed.cert_fingerprint, created.cert_fingerprint);
    assert_eq!(renewed.auth_token_expires_in_seconds, 60);
    assert!(runtime.renew_auth(created.session_id, "bob").is_err());
    let now = Timestamp::now();
    for token in [&created.auth_token, &renewed.auth_token] {
        let spent = runtime
            .tokens
            .validate_and_consume_auth(token, created.session_id, "alice", now);
        assert_eq!(spent, Ok(()));
    }
}

#[test]
fn bootstrap_tells_the_configured_address() {
    let mut runtime = NeoshdRuntime::default();
    let created = runtime.new_session("alice");
    assert_eq!(created.auth_token_expires_in_seconds, 60);
    assert_eq!(created.quic_addr, "127.0.0.1:30000");
    assert_eq!(created.cert_fingerprint, "sha256:local-dev-fingerprint");
    assert_eq!(
        runtime.tokens.validate_and_consume_auth(
            &created.auth_token,
            created.session_id,
            "alice",
            Timestamp::now()
        ),
        Ok(())
    );
    let err = runtime.renew_auth(Uuid::from_u128(0), "alice").unwrap_err();
    assert_eq!(err, RuntimeError::Session(SessionError::NotFound));
    assert_eq!(err.message(), "session not found");
    assert_eq!(
        RuntimeError::Token(TokenError::Expired).message(),
        "token expired"
    );
}

#[test]
fn durations_and_clock_readings() {
    assert_eq!(Duration::from_secs(60).as_secs(), 60);
    assert_eq!(Duration::from_millis(1500).as_secs(), 1);
    assert_eq!(Duration::from_millis(1500).as_nanos(), 1_500_000_000);
    assert_eq!(
        Duration::from_millis(100).saturating_double().as_nanos(),
        200_000_000
    );
    let longest = Duration::from_secs(u64::MAX);
    assert_eq!(
        longest.saturating_double().as_nanos(),
        18_446_744_073_709_551_615_999_999_999
    );
    let a = Timestamp::now();
    let b = Timestamp::now();
    assert!(a.nanos <= b.nanos);
    // Some time after the start of 2023.
    assert!(now_epoch_millis() > 1_672_531_200_000);
    assert!(neoshd::time::now_epoch_seconds() > 1_672_531_200);
}

#[test]
fn identifiers_have_a_canonical_form() {
    let text = "550e8400-e29b-41d4-a716-446655440000";
    let id = Uuid::parse_str(text).unwrap();
    assert_eq!(id.value, 0x550e8400e29b41d4a716446655440000);
    assert_eq!(id.to_text(), text);
    assert_eq!(
        Uuid::parse_str("550E8400E29B41D4A716446655440000").unwrap(),
        id
    );
    assert!(Uuid::parse_str("not-a-uuid").is_err());
    let random = Uuid::new_v4();
    assert_eq!(Uuid::parse_str(&random.to_text()).unwrap(), random);
    assert_eq!(&random.to_text()[14..15], "4");
    assert_ne!(Uuid::new_v4(), random);
}

#[test]
fn versions_are_those_of_the_protocol() {
    assert_eq!(neoshd::CLIENT_VERSION, "neosh/0.2.0");
    assert_eq!(neoshd::SERVER_VERSION, "neoshd/0.2.0");
    assert_eq!(neoshd::PROTOCOL_VERSION, "0.1.0");
}
