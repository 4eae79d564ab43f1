use globed_state::registry::PlayerManager;
use globed_state::registry::PlayerSession;
use globed_state::registry::RegistryError;
use globed_state::registry::SessionHandle;
use globed_state::registry::SessionState;

fn state_at(level_id: i32) -> SessionState {
    SessionState { level_id, room_id: 0, last_seen: 0 }
}

#[test]
fn join_leave_join_keeps_count_and_members() {
    let a = 11;
    let b = 22;
    let mut registry = PlayerManager::new();
    assert_eq!(registry.join(a, state_at(1)), Ok(SessionHandle { account_id: a }));
    assert_eq!(registry.join(b, state_at(2)), Ok(SessionHandle { account_id: b }));
    assert_eq!(registry.leave(a), Some(PlayerSession { account_id: a, state: state_at(1) }));
    assert_eq!(registry.join(a, state_at(3)), Ok(SessionHandle { account_id: a }));
    assert_eq!(registry.count(), 2);
    assert!(registry.contains(a));
    assert!(registry.contains(b));
    assert_eq!(registry.get(a), Some(PlayerSession { account_id: a, state: state_at(3) }));
    assert_eq!(registry.join(a, state_at(4)), Err(RegistryError::DuplicateSession));
}

#[test]
fn new_registry_is_empty() {
    let registry = PlayerManager::new();
    assert_eq!(registry.count(), 0);
    assert!(!registry.contains(1));
    assert_eq!(registry.get(1), None);
}

#[test]
fn duplicate_join_fails_and_changes_nothing() {
    let mut registry = PlayerManager::new();
    assert_eq!(registry.join(5, state_at(1)), Ok(SessionHandle { account_id: 5 }));
    assert_eq!(registry.join(5, state_at(2)), Err(RegistryError::DuplicateSession));
    assert_eq!(registry.count(), 1);
    assert_eq!(registry.get(5), Some(PlayerSession { account_id: 5, state: state_at(1) }));
}

#[test]
fn leave_of_absent_account_is_a_no_op() {
    let mut registry = PlayerManager::new();
    registry.join(5, state_at(1)).unwrap();
    assert_eq!(registry.leave(6), None);
    assert_eq!(registry.count(), 1);
    assert_eq!(registry.get(5), Some(PlayerSession { account_id: 5, state: state_at(1) }));
    assert_eq!(registry.leave(5), Some(PlayerSession { account_id: 5, state: state_at(1) }));
    assert_eq!(registry.leave(5), None);
    assert_eq!(registry.count(), 0);
}

#[test]
fn update_replaces_the_state_of_one_session() {
    let mut registry = PlayerManager::new();
    registry.join(5, state_at(1)).unwrap();
    registry.join(-6, state_at(2)).unwrap();
    let r = registry.update(5, |s| SessionState { level_id: s.level_id + 10, room_id: 7, last_seen: 99 });
    assert_eq!(r, Ok(()));
    assert_eq!(
        registry.get(5),
        Some(PlayerSession {
            account_id: 5,
            state: SessionState { level_id: 11, room_id: 7, last_seen: 99 }
        })
    );
    assert_eq!(registry.get(-6), Some(PlayerSession { account_id: -6, state: state_at(2) }));
    assert_eq!(registry.count(), 2);
}

#[test]
fn update_of_unknown_account_fails_without_calling_the_mutator() {
    let mut registry = PlayerManager::new();
    registry.join(5, state_at(1)).unwrap();
    let mut called = false;
    let r = registry.update(6, |s| {
        called = true;
        s
    });
    assert_eq!(r, Err(RegistryError::UnknownSession));
    assert!(!called);
    assert_eq!(registry.count(), 1);
    assert_eq!(registry.get(5), Some(PlayerSession { account_id: 5, state: state_at(1) }));
}

#[test]
fn count_follows_every_join_and_leave() {
    let mut registry = PlayerManager::new();
    let mut expected: u32 = 0;
    for id in 0..50 {
        assert!(registry.join(id, state_at(id)).is_ok());
        expected += 1;
        assert_eq!(registry.count(), expected);
        assert!(registry.join(id, state_at(id)).is_err());
        assert_eq!(registry.count(), expected);
    }
    for id in (0..50).step_by(2) {
        assert!(registry.leave(id).is_some());
        expected -= 1;
        assert_eq!(registry.count(), expected);
        assert!(registry.leave(id).is_none());
        assert_eq!(registry.count(), expected);
    }
    assert_eq!(registry.count(), 25);
    for id in 0..50 {
        assert_eq!(registry.contains(id), id % 2 == 1);
    }
}

#[test]
fn extreme_account_ids_are_ordinary_keys() {
    let mut registry = PlayerManager::new();
    assert!(registry.join(i32::MIN, state_at(1)).is_ok());
    assert!(registry.join(i32::MAX, state_at(2)).is_ok());
    assert!(registry.join(0, state_at(3)).is_ok());
    assert_eq!(registry.count(), 3);
    assert_eq!(registry.get(i32::MIN).unwrap().account_id, i32::MIN);
    assert_eq!(registry.leave(i32::MAX).unwrap().state, state_at(2));
    assert_eq!(registry.count(), 2);
}
