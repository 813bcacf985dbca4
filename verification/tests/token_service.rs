use neoshd::digest::{random_token, token_text};
use neoshd::ids::Uuid;
use neoshd::time::{Duration, Timestamp, NANOS_PER_SECOND};
use neoshd::token::service::{hash_token, TokenError, TokenService, TokenType};

fn seconds_after(t: Timestamp, secs: i128) -> Timestamp {
    Timestamp { nanos: t.nanos + secs * NANOS_PER_SECOND as i128 }
}

#[test]
fn auth_token_is_single_use() {
    let mut service = TokenService::default();
    let sid = Uuid::new_v4();
    let now = Timestamp::now();
    let token = service.issue_auth_token(sid, "alice", Duration::from_secs(60));

    assert!(service
        .validate_and_consume_auth(&token, sid, "alice", now)
        .is_ok());
    assert_eq!(
        service.validate_and_consume_auth(&token, sid, "alice", now),
        Err(TokenError::Consumed)
    );
}

#[test]
fn auth_token_expired_is_rejected() {
    let mut service = TokenService::default();
    let sid = Uuid::new_v4();
    let token = service.issue_auth_token(sid, "alice", Duration::from_secs(1));
    let late = seconds_after(Timestamp::now(), 2);

    assert_eq!(
        service.validate_and_consume_auth(&token, sid, "alice", late),
        Err(TokenError::Expired)
    );
}

#[test]
fn resume_token_multi_use_until_revoked() {
    let mut service = TokenService::default();
    let sid = Uuid::new_v4();
    let now = Timestamp::now();
    let token = service.issue_resume_token(sid, "alice", Duration::from_secs(60));

    assert!(service.validate_resume(&token, sid, "alice", now).is_ok());
    assert!(service.validate_resume(&token, sid, "alice", now).is_ok());

    service.revoke_token(&token, now).unwrap();
    assert_eq!(
        service.validate_resume(&token, sid, "alice", now),
        Err(TokenError::Revoked)
    );
}

#[test]
fn cleanup_keeps_recently_consumed_then_drops_after_retention() {
    let mut service = TokenService::default();
    let sid = Uuid::new_v4();
    let now = Timestamp::now();
    let token = service.issue_auth_token(sid, "alice", Duration::from_secs(1));

    service
        .validate_and_consume_auth(&token, sid, "alice", now)
        .unwrap();

    let after_expire = seconds_after(now, 2);
    service.cleanup_expired(after_expire, Duration::from_secs(10));
    assert_eq!(
        service.validate_and_consume_auth(&token, sid, "alice", after_expire),
        Err(TokenError::Expired)
    );

    let after_retention = seconds_after(now, 20);
    service.cleanup_expired(after_retention, Duration::from_secs(5));
    assert_eq!(
        service.validate_and_consume_auth(&token, sid, "alice", after_retention),
        Err(TokenError::NotFound)
    );
}

#[test]
fn tokens_are_bound_to_their_purpose_session_and_user() {
    let mut service = TokenService::default();
    let sid = Uuid::from_u128(1);
    let now = Timestamp { nanos: 5 * NANOS_PER_SECOND as i128 };
    let ttl = Duration::from_secs(60);
    service.record_token("auth", Uuid::from_u128(7), now, TokenType::Auth, sid, "alice", ttl);
    service.record_token("resume", Uuid::from_u128(8), now, TokenType::Resume, sid, "alice", ttl);

    assert_eq!(
        service.validate_and_consume_auth("resume", sid, "alice", now),
        Err(TokenError::TypeMismatch)
    );
    assert_eq!(
        service.validate_resume("auth", sid, "alice", now),
        Err(TokenError::TypeMismatch)
    );
    assert_eq!(
        service.validate_and_consume_auth("auth", Uuid::from_u128(2), "alice", now),
        Err(TokenError::BindingMismatch)
    );
    assert_eq!(
        service.validate_and_consume_auth("auth", sid, "bob", now),
        Err(TokenError::BindingMismatch)
    );
    assert_eq!(
        service.validate_and_consume_auth("other", sid, "alice", now),
        Err(TokenError::NotFound)
    );
    assert_eq!(
        service.validate_and_consume_auth("auth", sid, "alice", now),
        Ok(())
    );
    assert_eq!(service.validate_resume("resume", sid, "alice", now), Ok(()));
}

#[test]
fn a_token_expires_exactly_at_the_end_of_its_life() {
    let mut service = TokenService::default();
    let sid = Uuid::from_u128(1);
    let now = Timestamp { nanos: 0 };
    service.record_token(
        "t",
        Uuid::from_u128(7),
        now,
        TokenType::Resume,
        sid,
        "alice",
        Duration::from_secs(10),
    );
    let just_before = Timestamp { nanos: 10 * NANOS_PER_SECOND as i128 - 1 };
    let at = Timestamp { nanos: 10 * NANOS_PER_SECOND as i128 };
    assert_eq!(service.validate_resume("t", sid, "alice", just_before), Ok(()));
    assert_eq!(
        service.validate_resume("t", sid, "alice", at),
        Err(TokenError::Expired)
    );
}

#[test]
fn revoking_ends_a_token_and_reports_unknown_ones() {
    let mut service = TokenService::default();
    let sid = Uuid::from_u128(1);
    let now = Timestamp { nanos: 0 };
    service.record_token(
        "a",
        Uuid::from_u128(7),
        now,
        TokenType::Auth,
        sid,
        "alice",
        Duration::from_secs(10),
    );
    assert_eq!(service.revoke_token("b", now), Err(TokenError::NotFound));
    assert_eq!(service.revoke_token("a", now), Ok(()));
    assert_eq!(
        service.validate_and_consume_auth("a", sid, "alice", now),
        Err(TokenError::Revoked)
    );
}

#[test]
fn cleanup_keeps_live_tokens_and_drops_expired_ones() {
    let mut service = TokenService::default();
    let sid = Uuid::from_u128(1);
    let start = Timestamp { nanos: 0 };
    service.record_token(
        "short",
        Uuid::from_u128(7),
        start,
        TokenType::Resume,
        sid,
        "alice",
        Duration::from_secs(1),
    );
    service.record_token(
        "long",
        Uuid::from_u128(8),
        start,
        TokenType::Resume,
        sid,
        "alice",
        Duration::from_secs(100),
    );
    let now = seconds_after(start, 50);
    service.cleanup_expired(now, Duration::from_secs(300));
    assert_eq!(
        service.validate_resume("short", sid, "alice", now),
        Err(TokenError::NotFound)
    );
    assert_eq!(service.validate_resume("long", sid, "alice", now), Ok(()));
    service.cleanup_expired(now, Duration::from_secs(300));
    assert_eq!(service.validate_resume("long", sid, "alice", now), Ok(()));
}

#[test]
fn tokens_are_hashed_with_sha256() {
    let expected: [u8; 32] = [
        0xba, 0x78, 0x16, 0xbf, 0x8f, 0x01, 0xcf, 0xea, 0x41, 0x41, 0x40, 0xde, 0x5d, 0xae, 0x22,
        0x23, 0xb0, 0x03, 0x61, 0xa3, 0x96, 0x17, 0x7a, 0x9c, 0xb4, 0x10, 0xff, 0x61, 0xf2, 0x00,
        0x15, 0xad,
    ];
    assert_eq!(hash_token("abc"), expected);
}

#[test]
fn token_text_is_url_safe_base64_without_padding() {
    let zeros = [0u8; 32];
    assert_eq!(token_text(&zeros), "AAAAAAAAAAAAAAAAAAAAAAAAAAAAAAAAAAAAAAAAAAA");
    let ones = [0xffu8; 32];
    assert_eq!(token_text(&ones), "__________________________________________8");
    let mut first = [0u8; 32];
    first[0] = 0xfb;
    first[1] = 0xef;
    first[2] = 0xbe;
    assert_eq!(token_text(&first), "----AAAAAAAAAAAAAAAAAAAAAAAAAAAAAAAAAAAAAAA");
}

#[test]
fn random_tokens_differ_and_have_the_same_shape() {
    let a = random_token();
    let b = random_token();
    assert_ne!(a, b);
    assert_eq!(a.len(), 43);
    assert!(a
        .chars()
        .all(|c| c.is_ascii_alphanumeric() || c == '-' || c == '_'));
}

#[test]
fn token_errors_say_what_is_wrong() {
    assert_eq!(TokenError::NotFound.message(), "token not found");
    assert_eq!(TokenError::Expired.message(), "token expired");
    assert_eq!(TokenError::Revoked.message(), "token revoked");
    assert_eq!(TokenError::Consumed.message(), "token consumed");
    assert_eq!(
        TokenError::BindingMismatch.message(),
        "token/session/user mismatch"
    );
    assert_eq!(TokenError::TypeMismatch.message(), "token type mismatch");
}
