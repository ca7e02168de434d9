use morpheus::state::VersionedState;

#[test]
fn test_new_versioned_state() {
    let state = VersionedState::new(42);
    assert_eq!(*state.get(), 42);
    assert_eq!(state.version(), 0);
    assert_eq!(state.history().len(), 0);
}

#[test]
fn test_snapshot() {
    let state = VersionedState::new(100);
    let snapshot = state.snapshot();

    assert_eq!(snapshot.state, 100);
    assert_eq!(snapshot.version, 0);
    assert!(!snapshot.timestamp.is_empty());
}

#[test]
fn test_update_increments_version() {
    let mut state = VersionedState::new(10);
    assert_eq!(state.version(), 0);

    state.update(20);
    assert_eq!(*state.get(), 20);
    assert_eq!(state.version(), 1);

    state.update(30);
    assert_eq!(*state.get(), 30);
    assert_eq!(state.version(), 2);
}

#[test]
fn test_update_saves_history() {
    let mut state = VersionedState::new(1);

    state.update(2);
    state.update(3);
    state.update(4);

    assert_eq!(state.history().len(), 3);
    assert_eq!(state.history()[0].state, 1);
    assert_eq!(state.history()[1].state, 2);
    assert_eq!(state.history()[2].state, 3);
}

#[test]
fn test_rollback_to_previous_state() {
    let mut state = VersionedState::new(100);
    state.update(200);
    state.update(300);

    assert_eq!(*state.get(), 300);
    assert_eq!(state.version(), 2);

    // Rollback once
    let success = state.rollback();
    assert!(success);
    assert_eq!(*state.get(), 200);
    assert_eq!(state.version(), 1);

    // Rollback again
    let success = state.rollback();
    assert!(success);
    assert_eq!(*state.get(), 100);
    assert_eq!(state.version(), 0);
}

#[test]
fn test_rollback_with_no_history() {
    let mut state = VersionedState::new(42);

    let success = state.rollback();
    assert!(!success);
    assert_eq!(*state.get(), 42);
    assert_eq!(state.version(), 0);
}

#[test]
fn test_restore_to_specific_snapshot() {
    let mut state = VersionedState::new(1);
    state.update(2);
    state.update(3);

    let snapshot_at_2 = state.history()[1].clone();

    state.update(4);
    state.update(5);

    assert_eq!(*state.get(), 5);

    state.restore(snapshot_at_2);
    assert_eq!(*state.get(), 2);
    assert_eq!(state.version(), 1);
}

#[test]
fn test_history_size_limit() {
    let mut state = VersionedState::new(0);

    // Add more than MAX_HISTORY updates
    for i in 1..=60 {
        state.update(i);
    }

    // Should be capped at MAX_HISTORY
    assert_eq!(state.history().len(), 50);

    // Oldest snapshot should be state 10 (we keep snapshots 10-59, which is 50 snapshots)
    assert_eq!(state.history()[0].state, 10);
}

#[test]
fn test_clear_history() {
    let mut state = VersionedState::new(1);
    state.update(2);
    state.update(3);

    assert_eq!(state.history().len(), 2);

    state.clear_history();
    assert_eq!(state.history().len(), 0);

    // Current state should be unchanged
    assert_eq!(*state.get(), 3);
    assert_eq!(state.version(), 2);
}

#[test]
fn test_snapshot_preserves_state() {
    let mut state = VersionedState::new(vec![1, 2, 3]);
    let snapshot1 = state.snapshot();

    state.update(vec![4, 5, 6]);
    let snapshot2 = state.snapshot();

    // Original snapshot should still have original data
    assert_eq!(snapshot1.state, vec![1, 2, 3]);
    assert_eq!(snapshot2.state, vec![4, 5, 6]);
}

#[test]
fn test_update_then_rollback_round_trip() {
    let mut state = VersionedState::new(String::from("before"));
    state.update(String::from("after"));

    let snap = state.history().last().unwrap();
    assert_eq!(snap.state, "before");
    assert_eq!(snap.version, 0);

    let success = state.rollback();
    assert!(success);
    assert_eq!(*state.get(), "before");
    assert_eq!(state.version(), 0);
}

#[test]
fn test_placeholder_clock_format() {
    let stamp = morpheus::state::Utc::now().to_rfc3339();
    assert_eq!(stamp, "2025-01-01T00:00:00Z");
}
