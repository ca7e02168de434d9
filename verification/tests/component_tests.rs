use morpheus::component::{get_timestamp, WasmComponent};
use morpheus::permissions::{
    ApiPermission, NetworkPermissions, Permissions, StoragePermissions,
};
use morpheus::simple_hash;

#[test]
fn test_load_wasm_component() {
    let wasm_bytes = vec![0x00, 0x61, 0x73, 0x6d, 0x01, 0x00, 0x00, 0x00]; // WASM magic + version
    let permissions = Permissions::default();

    let component = WasmComponent::load(&wasm_bytes, permissions).expect("Failed to load component");

    assert_eq!(component.metadata().version, 1);
    assert_eq!(component.wasm_bytes().len(), 8);
}

#[test]
fn test_component_id_generation() {
    let wasm_bytes1 = vec![1, 2, 3, 4];
    let wasm_bytes2 = vec![5, 6, 7, 8];

    let comp1 = WasmComponent::load(&wasm_bytes1, Permissions::default()).unwrap();
    let comp2 = WasmComponent::load(&wasm_bytes2, Permissions::default()).unwrap();

    // Different bytes should produce different IDs
    assert_ne!(comp1.id(), comp2.id());
}

#[test]
fn test_component_id_deterministic() {
    let wasm_bytes = vec![1, 2, 3, 4];

    let comp1 = WasmComponent::load(&wasm_bytes, Permissions::default()).unwrap();
    let comp2 = WasmComponent::load(&wasm_bytes, Permissions::default()).unwrap();

    // Same bytes should produce same ID
    assert_eq!(comp1.id(), comp2.id());
}

#[test]
fn test_component_id_ignores_grant() {
    let wasm_bytes = vec![9, 9, 9, 9];

    let mut open_perms = Permissions::default();
    open_perms.network = NetworkPermissions::Unrestricted;
    open_perms.storage = StoragePermissions::Full;

    let restricted = WasmComponent::load(&wasm_bytes, Permissions::default()).unwrap();
    let unrestricted = WasmComponent::load(&wasm_bytes, open_perms).unwrap();

    // Identity depends on the bytes alone, not on the grant
    assert_eq!(restricted.id(), unrestricted.id());
}

#[test]
fn test_component_permissions() {
    let wasm_bytes = vec![0x00, 0x61, 0x73, 0x6d];
    let mut perms = Permissions::default();
    perms.network = NetworkPermissions::AllowList(vec!["api.example.com".to_string()]);
    perms.storage = StoragePermissions::Full;
    perms.apis.insert(ApiPermission::Geolocation);

    let component = WasmComponent::load(&wasm_bytes, perms).unwrap();

    let component_perms = component.permissions();
    assert!(matches!(
        component_perms.network,
        NetworkPermissions::AllowList(_)
    ));
    assert!(matches!(component_perms.storage, StoragePermissions::Full));
    assert!(component_perms.apis.contains(&ApiPermission::Geolocation));
}

#[test]
fn test_component_metadata() {
    let wasm_bytes = vec![0x00, 0x61, 0x73, 0x6d];
    let component = WasmComponent::load(&wasm_bytes, Permissions::default()).unwrap();

    let metadata = component.metadata();
    assert_eq!(metadata.version, 1);
    assert!(!metadata.ai_generated);
    assert!(metadata.name.starts_with("component-"));
    assert!(!metadata.loaded_at.is_empty());
}

#[test]
fn test_hot_reload() {
    let original_bytes = vec![1, 2, 3, 4];
    let new_bytes = vec![5, 6, 7, 8];

    let mut component = WasmComponent::load(&original_bytes, Permissions::default()).unwrap();

    let original_id = component.id();
    let original_version = component.metadata().version;

    // Reload with new bytes
    component.reload(&new_bytes).expect("Reload failed");

    // ID should remain the same
    assert_eq!(component.id(), original_id);

    // Version should increment
    assert_eq!(component.metadata().version, original_version + 1);

    // Bytes should be updated
    assert_eq!(*component.wasm_bytes(), new_bytes);
}

#[test]
fn test_multiple_reloads() {
    let original_bytes = vec![1, 2, 3, 4];
    let mut component = WasmComponent::load(&original_bytes, Permissions::default()).unwrap();

    assert_eq!(component.metadata().version, 1);

    component.reload(&vec![5, 6, 7, 8]).unwrap();
    assert_eq!(component.metadata().version, 2);

    component.reload(&vec![9, 10, 11, 12]).unwrap();
    assert_eq!(component.metadata().version, 3);

    component.reload(&vec![13, 14, 15, 16]).unwrap();
    assert_eq!(component.metadata().version, 4);
}

#[test]
fn test_simple_hash_consistency() {
    let bytes = vec![1, 2, 3, 4, 5];
    let hash1 = simple_hash(&bytes);
    let hash2 = simple_hash(&bytes);

    // Same input should produce same hash
    assert_eq!(hash1, hash2);
}

#[test]
fn test_simple_hash_different_inputs() {
    let bytes1 = vec![1, 2, 3, 4];
    let bytes2 = vec![5, 6, 7, 8];

    let hash1 = simple_hash(&bytes1);
    let hash2 = simple_hash(&bytes2);

    // Different inputs should (usually) produce different hashes
    assert_ne!(hash1, hash2);
}

#[test]
fn test_simple_hash_empty() {
    let bytes = vec![];
    let hash = simple_hash(&bytes);

    // Empty input should produce a deterministic hash (the FNV-1a offset
    // basis in this case)
    assert_eq!(hash, 0xcbf29ce484222325);
}

#[test]
fn test_simple_hash_truncates_long_input() {
    // The hash covers the full content: inputs that agree on a long prefix
    // but differ in length must not collide by construction
    let bytes1 = vec![1u8; 100];
    let bytes2 = vec![1u8; 64];

    let hash1 = simple_hash(&bytes1);
    let hash2 = simple_hash(&bytes2);

    // Must differ because the bytes past the common prefix also contribute
    assert_ne!(hash1, hash2);
}

#[test]
fn test_get_timestamp_format() {
    let timestamp = get_timestamp();

    // Should start with "timestamp-"
    assert!(timestamp.starts_with("timestamp-"));

    // Should contain a number after the prefix
    let number_part = timestamp.strip_prefix("timestamp-");
    assert!(number_part.is_some());

    // The number should be parseable
    let num = number_part.unwrap().parse::<u64>();
    assert!(num.is_ok());
}

#[test]
fn test_component_stores_wasm_bytes() {
    let wasm_bytes = vec![0x00, 0x61, 0x73, 0x6d, 1, 2, 3, 4, 5];
    let component = WasmComponent::load(&wasm_bytes, Permissions::default()).unwrap();

    // Component should store a copy of the WASM bytes
    assert_eq!(*component.wasm_bytes(), wasm_bytes);
}

#[test]
fn test_reload_preserves_permissions() {
    let original_bytes = vec![1, 2, 3, 4];
    let new_bytes = vec![5, 6, 7, 8];

    let mut perms = Permissions::default();
    perms.network = NetworkPermissions::Unrestricted;

    let mut component = WasmComponent::load(&original_bytes, perms).unwrap();

    component.reload(&new_bytes).unwrap();

    // Permissions should be preserved after reload
    assert!(matches!(
        component.permissions().network,
        NetworkPermissions::Unrestricted
    ));
}

#[test]
fn test_reload_preserves_id() {
    let original_bytes = vec![1, 2, 3, 4];

    let mut component = WasmComponent::load(&original_bytes, Permissions::default()).unwrap();

    let original_id = component.id();

    // Reload multiple times
    for i in 0..5 {
        let bytes = vec![i; 4];
        component.reload(&bytes).unwrap();
        assert_eq!(component.id(), original_id);
    }
}

#[test]
fn test_component_name_contains_id() {
    let wasm_bytes = vec![1, 2, 3, 4];
    let component = WasmComponent::load(&wasm_bytes, Permissions::default()).unwrap();

    let metadata = component.metadata();
    let id_hex = format!("{:016x}", component.id().0);

    // Name should contain the hex representation of the ID
    assert!(metadata.name.contains(&id_hex));
}
