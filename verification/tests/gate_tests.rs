use morpheus::errors::MorpheusError;
use morpheus::gate::install_build;
use morpheus::history::VersionHistory;
use morpheus::permissions::Permissions;
use morpheus::registry::ComponentRegistry;

#[test]
fn test_successful_build_registers_and_records() {
    let mut registry = ComponentRegistry::new();
    let mut history = VersionHistory::new();

    let artifact = vec![0x00, 0x61, 0x73, 0x6d, 0x01, 0x00, 0x00, 0x00];
    let outcome = install_build(
        &mut registry,
        &mut history,
        Ok(artifact.clone()),
        "v1".to_string(),
        "first build".to_string(),
        Permissions::default(),
        true,
    );

    let (id, vid) = outcome.expect("successful build must install");
    assert_eq!(vid, 0);

    // The component is registered under its content-derived identity
    let component = registry.get(&id).expect("component must be registered");
    assert_eq!(component.id(), id);
    assert_eq!(*component.wasm_bytes(), artifact);
    assert_eq!(registry.metadata(&id).unwrap().id, id);

    // The history recorded the artifact and made the entry current
    let entry = history.get_current().expect("history must have an entry");
    assert_eq!(entry.id, 0);
    assert_eq!(entry.name, "v1");
    assert_eq!(entry.wasm_bytes, artifact);
    assert!(entry.ai_generated);
}

#[test]
fn test_failed_build_changes_nothing() {
    let mut registry = ComponentRegistry::new();
    let mut history = VersionHistory::new();

    // One version is already installed
    install_build(
        &mut registry,
        &mut history,
        Ok(vec![1, 2, 3, 4]),
        "v1".to_string(),
        "good".to_string(),
        Permissions::default(),
        false,
    )
    .unwrap();

    let diagnostics = MorpheusError::CompilationError("mismatched types".to_string());
    let outcome = install_build(
        &mut registry,
        &mut history,
        Err(diagnostics),
        "v2".to_string(),
        "bad".to_string(),
        Permissions::default(),
        true,
    );

    // The failure is surfaced unchanged...
    match outcome {
        Err(MorpheusError::CompilationError(msg)) => assert_eq!(msg, "mismatched types"),
        _ => panic!("Expected CompilationError"),
    }

    // ...and neither registry nor history moved
    assert_eq!(registry.list().len(), 1);
    assert_eq!(history.get_history().len(), 1);
    assert_eq!(history.get_current().unwrap().id, 0);
    assert_eq!(history.get_current().unwrap().name, "v1");
}
