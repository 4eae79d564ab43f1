use globed_state::registry::PlayerSession;
use globed_state::registry::RegistryError;
use globed_state::registry::SessionHandle;
use globed_state::registry::SessionState;
use globed_state::state::ServerState;

fn idle() -> SessionState {
    SessionState { level_id: 0, room_id: 0, last_seen: 0 }
}

#[test]
fn new_server_state_is_empty() {
    let state = ServerState::new();
    assert_eq!(state.count(), 0);
    assert_eq!(state.locked_count(), 0);
    assert_eq!(state.get(1), None);
}

#[test]
fn default_server_state_is_empty() {
    let state = ServerState::default();
    assert_eq!(state.count(), 0);
    assert_eq!(state.locked_count(), 0);
}

#[test]
fn server_state_counts_sessions() {
    let state = ServerState::new();
    assert_eq!(state.join(1, idle()), Ok(SessionHandle { account_id: 1 }));
    assert_eq!(state.count(), 1);
    assert_eq!(state.join(2, idle()), Ok(SessionHandle { account_id: 2 }));
    assert_eq!(state.count(), 2);
    assert_eq!(state.leave(1), Some(PlayerSession { account_id: 1, state: idle() }));
    assert_eq!(state.count(), 1);
    assert_eq!(state.join(1, idle()), Ok(SessionHandle { account_id: 1 }));
    assert_eq!(state.count(), 2);
    assert_eq!(state.get(1), Some(PlayerSession { account_id: 1, state: idle() }));
    assert_eq!(state.get(2), Some(PlayerSession { account_id: 2, state: idle() }));
    assert_eq!(state.get(3), None);
    assert_eq!(state.locked_count(), 2);
}

#[test]
fn server_state_refuses_a_second_session() {
    let state = ServerState::new();
    assert!(state.join(9, idle()).is_ok());
    assert_eq!(state.join(9, idle()), Err(RegistryError::DuplicateSession));
    assert_eq!(state.count(), 1);
}

#[test]
fn server_state_ignores_a_leave_without_session() {
    let state = ServerState::new();
    assert!(state.join(9, idle()).is_ok());
    assert_eq!(state.leave(10), None);
    assert_eq!(state.count(), 1);
    assert_eq!(state.leave(9), Some(PlayerSession { account_id: 9, state: idle() }));
    assert_eq!(state.leave(9), None);
    assert_eq!(state.count(), 0);
}

#[test]
fn server_state_updates_a_session_in_place() {
    let state = ServerState::new();
    assert!(state.join(9, idle()).is_ok());
    assert_eq!(state.update(9, |s| SessionState { level_id: 42, ..s }), Ok(()));
    assert_eq!(state.update(8, |s| s), Err(RegistryError::UnknownSession));
    assert_eq!(state.count(), 1);
    assert_eq!(
        state.get(9),
        Some(PlayerSession { account_id: 9, state: SessionState { level_id: 42, room_id: 0, last_seen: 0 } })
    );
}

#[test]
fn server_state_lets_the_lock_go_after_each_operation() {
    let state = ServerState::new();
    for id in 0..20 {
        assert!(state.join(id, idle()).is_ok());
    }
    for id in 0..10 {
        assert!(state.leave(id).is_some());
    }
    assert_eq!(state.locked_count(), 10);
    assert_eq!(state.count(), 10);
}

#[test]
fn counter_agrees_with_the_registry_after_every_operation() {
    let state = ServerState::new();
    for id in 0..30 {
        let _ = state.join(id % 7, idle());
        assert_eq!(state.count(), state.locked_count());
        let _ = state.leave((id * 3) % 7);
        assert_eq!(state.count(), state.locked_count());
        let _ = state.update(id % 5, |s| SessionState { last_seen: s.last_seen + 1, ..s });
        assert_eq!(state.count(), state.locked_count());
    }
}
