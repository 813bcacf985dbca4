use neoshd::ids::Uuid;
use neoshd::session::manager::{SessionError, SessionManager, SessionState};

fn build_manager() -> (SessionManager, Uuid) {
    let mut manager = SessionManager::default();
    let session_id = manager.create_session(
        "alice".to_string(),
        "203.0.113.10:30001".to_string(),
        "sha256:abc".to_string(),
    );
    (manager, session_id)
}

#[test]
fn attach_exclusive_only_one_owner() {
    let (mut manager, session_id) = build_manager();
    let c1 = Uuid::new_v4();
    let c2 = Uuid::new_v4();

    assert!(manager.attach_exclusive(session_id, c1).is_ok());
    assert_eq!(
        manager.attach_exclusive(session_id, c2),
        Err(SessionError::AttachDenied)
    );
}

#[test]
fn stale_cleanup_does_not_detach_new_owner() {
    let (mut manager, session_id) = build_manager();
    let c1 = Uuid::new_v4();
    let e1 = manager.attach_exclusive(session_id, c1).unwrap();
    assert!(manager.detach(session_id, c1).is_ok());

    let c2 = Uuid::new_v4();
    let _e2 = manager.attach_exclusive(session_id, c2).unwrap();

    let cleaned = manager.conditional_stale_cleanup(session_id, c1, e1);
    assert!(!cleaned);

    let session = manager.session(session_id).unwrap();
    assert_eq!(session.attached_conn_id, Some(c2));
    assert_eq!(session.state, SessionState::Attached);
}

#[test]
fn stale_cleanup_detaches_current_owner_when_epoch_matches() {
    let (mut manager, session_id) = build_manager();
    let conn = Uuid::new_v4();
    let epoch = manager.attach_exclusive(session_id, conn).unwrap();

    let cleaned = manager.conditional_stale_cleanup(session_id, conn, epoch);
    assert!(cleaned);

    let session = manager.session(session_id).unwrap();
    assert_eq!(session.attached_conn_id, None);
    assert_eq!(session.state, SessionState::Detached);
}

#[test]
fn renew_auth_owner_check() {
    let (manager, session_id) = build_manager();
    assert!(manager.assert_owner(session_id, "alice").is_ok());
    assert_eq!(
        manager.assert_owner(session_id, "bob"),
        Err(SessionError::PermissionDenied)
    );
}

#[test]
fn unknown_sessions_are_reported() {
    let (mut manager, _) = build_manager();
    let other = Uuid::from_u128(1);
    let conn = Uuid::from_u128(2);
    assert!(manager.session(other).is_none());
    assert_eq!(manager.assert_owner(other, "alice"), Err(SessionError::NotFound));
    assert_eq!(manager.attach_exclusive(other, conn), Err(SessionError::NotFound));
    assert_eq!(manager.detach(other, conn), Err(SessionError::NotFound));
    assert_eq!(manager.terminate(other), Err(SessionError::NotFound));
    assert_eq!(manager.expire(other), Err(SessionError::NotFound));
    assert!(!manager.conditional_stale_cleanup(other, conn, 1));
}

#[test]
fn sessions_that_are_over_cannot_be_attached() {
    let (mut manager, session_id) = build_manager();
    let conn = Uuid::from_u128(2);
    manager.terminate(session_id).unwrap();
    assert_eq!(
        manager.attach_exclusive(session_id, conn),
        Err(SessionError::InvalidState)
    );
    assert_eq!(
        manager.attach_returning(session_id, conn, Some(Uuid::from_u128(3))),
        Err(SessionError::InvalidState)
    );
    let (mut manager, session_id) = build_manager();
    manager.expire(session_id).unwrap();
    assert_eq!(
        manager.attach_exclusive(session_id, conn),
        Err(SessionError::InvalidState)
    );
}

#[test]
fn epochs_count_attachments() {
    let (mut manager, session_id) = build_manager();
    for n in 1..4u64 {
        let conn = Uuid::from_u128(n as u128);
        assert_eq!(manager.attach_exclusive(session_id, conn), Ok(n));
        assert_eq!(
            manager.detach(session_id, Uuid::from_u128(99)),
            Err(SessionError::AttachDenied)
        );
        assert_eq!(manager.detach(session_id, conn), Ok(()));
    }
}

#[test]
fn the_same_client_takes_its_own_place() {
    let (mut manager, session_id) = build_manager();
    let client = Uuid::from_u128(42);
    let c1 = Uuid::from_u128(1);
    let c2 = Uuid::from_u128(2);
    let e1 = manager.attach_client(session_id, c1, Some(client)).unwrap();
    let taken = manager
        .attach_returning(session_id, c2, Some(client))
        .unwrap();
    assert_eq!(taken.replaced, Some(c1));
    assert_eq!(taken.epoch, e1 + 1);
    assert!(!manager.conditional_stale_cleanup(session_id, c1, e1));
    let session = manager.session(session_id).unwrap();
    assert_eq!(session.state, SessionState::Attached);
    assert_eq!(session.attached_conn_id, Some(c2));
    assert_eq!(session.active_client_id, Some(client));
}

#[test]
fn another_client_cannot_take_over() {
    let (mut manager, session_id) = build_manager();
    let c1 = Uuid::from_u128(1);
    let c2 = Uuid::from_u128(2);
    manager
        .attach_client(session_id, c1, Some(Uuid::from_u128(42)))
        .unwrap();
    assert_eq!(
        manager.attach_returning(session_id, c2, Some(Uuid::from_u128(43))),
        Err(SessionError::AttachDenied)
    );
    assert_eq!(
        manager.attach_returning(session_id, c2, None),
        Err(SessionError::AttachDenied)
    );
    assert_eq!(
        manager.session(session_id).unwrap().attached_conn_id,
        Some(c1)
    );
}

#[test]
fn a_detached_session_is_open_to_any_client() {
    let (mut manager, session_id) = build_manager();
    let c1 = Uuid::from_u128(1);
    let c2 = Uuid::from_u128(2);
    manager
        .attach_client(session_id, c1, Some(Uuid::from_u128(42)))
        .unwrap();
    manager.detach(session_id, c1).unwrap();
    assert_eq!(manager.session(session_id).unwrap().active_client_id, None);
    let taken = manager
        .attach_returning(session_id, c2, Some(Uuid::from_u128(43)))
        .unwrap();
    assert_eq!(taken.replaced, None);
}

#[test]
fn sessions_do_not_disturb_each_other() {
    let (mut manager, first) = build_manager();
    let second = Uuid::from_u128(5);
    manager.create_session_with_id(
        second,
        "bob".to_string(),
        "127.0.0.1:1".to_string(),
        "sha256:x".to_string(),
    );
    manager.attach_exclusive(first, Uuid::from_u128(1)).unwrap();
    manager.terminate(second).unwrap();
    assert_eq!(manager.session(first).unwrap().state, SessionState::Attached);
    assert_eq!(
        manager.session(second).unwrap().state,
        SessionState::Terminated
    );
    assert_eq!(manager.session(second).unwrap().owner_user_id, "bob");
}

#[test]
fn session_errors_say_what_is_wrong() {
    assert_eq!(SessionError::NotFound.message(), "session not found");
    assert_eq!(SessionError::AttachDenied.message(), "attach denied");
    assert_eq!(SessionError::InvalidState.message(), "session not attachable");
    assert_eq!(SessionError::PermissionDenied.message(), "permission denied");
}
