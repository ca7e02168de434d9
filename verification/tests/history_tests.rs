use morpheus::history::VersionHistory;
use serde_json::Value;

fn json(text: &str) -> Value {
    serde_json::from_str(text).expect("test JSON must parse")
}

#[test]
fn test_add_version_assigns_sequential_ids() {
    let mut history = VersionHistory::new();

    let id0 = history.add_version(
        "v1".to_string(),
        "first".to_string(),
        vec![0x00, 0x61, 0x73, 0x6d],
        false,
    );
    let id1 = history.add_version(
        "v2".to_string(),
        "second".to_string(),
        vec![1, 2, 3],
        true,
    );

    assert_eq!(id0, 0);
    assert_eq!(id1, 1);
    assert_eq!(history.get_current().unwrap().id, 1);
    assert_eq!(history.get_current().unwrap().name, "v2");
    assert!(history.get_current().unwrap().ai_generated);
}

#[test]
fn test_get_current_on_empty_history() {
    let history = VersionHistory::new();
    assert!(history.get_current().is_none());
}

#[test]
fn test_rollback_to_invalid_index_is_a_no_op() {
    let mut history = VersionHistory::new();
    history.add_version("v1".to_string(), "first".to_string(), vec![1], false);
    history.update_state(json("{\"count\":3}"));

    let result = history.rollback_to(7);
    assert!(result.is_none());

    // Neither the current entry nor the cached state moved
    assert_eq!(history.get_current().unwrap().id, 0);
    assert_eq!(*history.current_state(), Some(json("{\"count\":3}")));
}

#[test]
fn test_rollback_to_valid_index_restores_snapshot() {
    let mut history = VersionHistory::new();
    history.add_version("v1".to_string(), "first".to_string(), vec![1], false);
    history.update_state(json("{\"count\":5}"));
    history.add_version("v2".to_string(), "second".to_string(), vec![2], false);

    let entry = history.rollback_to(0).expect("index 0 is valid");
    assert_eq!(entry.id, 0);
    assert_eq!(history.get_current().unwrap().id, 0);

    // The cached state is now version 0's snapshot (None), not {"count":5}
    assert_eq!(*history.current_state(), None);
}

#[test]
fn test_rollback_supports_redo_by_absolute_index() {
    let mut history = VersionHistory::new();
    history.add_version("v1".to_string(), "first".to_string(), vec![1], false);
    history.add_version("v2".to_string(), "second".to_string(), vec![2], false);

    history.rollback_to(0).unwrap();
    assert_eq!(history.get_current().unwrap().id, 0);

    // Jumping forward again is allowed
    history.rollback_to(1).unwrap();
    assert_eq!(history.get_current().unwrap().id, 1);
}

#[test]
fn test_update_state_seeds_next_version() {
    let mut history = VersionHistory::new();
    history.update_state(json("{\"ready\":true}"));
    let id = history.add_version("v1".to_string(), "first".to_string(), vec![1], false);

    let entry = history.get_current().unwrap();
    assert_eq!(entry.id, id);
    assert_eq!(entry.state_snapshot, Some(json("{\"ready\":true}")));
}

#[test]
fn test_version_history_end_to_end() {
    let mut history = VersionHistory::new();

    // Version 0: no state yet
    let id0 = history.add_version("v1".to_string(), "initial".to_string(), vec![1], false);
    assert_eq!(id0, 0);
    assert_eq!(history.get_current().unwrap().state_snapshot, None);

    // Live state arrives, then version 1 snapshots it
    history.update_state(json("{\"count\":5}"));
    let id1 = history.add_version("v2".to_string(), "counting".to_string(), vec![2], false);
    assert_eq!(id1, 1);
    assert_eq!(
        history.get_current().unwrap().state_snapshot,
        Some(json("{\"count\":5}"))
    );

    // Roll back to version 0: its snapshot (None) becomes the cached state
    let entry = history.rollback_to(0).expect("index 0 is valid");
    assert_eq!(entry.id, 0);
    assert_eq!(history.get_current().unwrap().id, 0);
    assert_eq!(*history.current_state(), None);

    // A version built after the rollback carries the rolled-back-to state
    let id2 = history.add_version("v3".to_string(), "rebuilt".to_string(), vec![3], true);
    assert_eq!(id2, 2);
    assert_eq!(history.get_current().unwrap().state_snapshot, None);
    assert_eq!(history.get_current().unwrap().id, 2);

    // The listing keeps creation order and marks only the current entry
    let summaries = history.get_history();
    assert_eq!(summaries.len(), 3);
    assert_eq!(summaries[0].id, 0);
    assert_eq!(summaries[1].id, 1);
    assert_eq!(summaries[2].id, 2);
    assert!(!summaries[0].is_current);
    assert!(!summaries[1].is_current);
    assert!(summaries[2].is_current);
    assert_eq!(summaries[0].name, "v1");
    assert_eq!(summaries[1].name, "v2");
    assert_eq!(summaries[2].name, "v3");
    assert!(summaries[2].ai_generated);
}

#[test]
fn test_entries_survive_rollback_untouched() {
    let mut history = VersionHistory::new();
    history.update_state(json("[1,2]"));
    history.add_version("v1".to_string(), "a".to_string(), vec![1], false);
    history.update_state(json("[3]"));
    history.add_version("v2".to_string(), "b".to_string(), vec![2], false);

    history.rollback_to(0).unwrap();

    // Entry 1 still holds the snapshot it was created with
    history.rollback_to(1).unwrap();
    assert_eq!(
        history.get_current().unwrap().state_snapshot,
        Some(json("[3]"))
    );
}
