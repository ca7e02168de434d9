use std::collections::HashSet;

use morpheus::permissions::{
    ApiPermission, ApiPermissionSet, NetworkPermissions, Permissions, StoragePermissions,
};

#[test]
fn test_default_permissions_are_restrictive() {
    let perms = Permissions::default();

    // Should have NO permissions by default
    assert!(matches!(perms.network, NetworkPermissions::Denied));
    assert!(matches!(perms.storage, StoragePermissions::Denied));
    assert!(perms.apis.is_empty());
}

#[test]
fn test_network_permissions_variants() {
    let denied = NetworkPermissions::Denied;
    assert!(matches!(denied, NetworkPermissions::Denied));

    let allow_list = NetworkPermissions::AllowList(vec!["api.example.com".to_string()]);
    if let NetworkPermissions::AllowList(domains) = &allow_list {
        assert_eq!(domains.len(), 1);
        assert_eq!(domains[0], "api.example.com");
    } else {
        panic!("Expected AllowList variant");
    }

    let unrestricted = NetworkPermissions::Unrestricted;
    assert!(matches!(unrestricted, NetworkPermissions::Unrestricted));
}

#[test]
fn test_storage_permissions_variants() {
    let none = StoragePermissions::Denied;
    assert!(matches!(none, StoragePermissions::Denied));

    let limited = StoragePermissions::Limited(vec!["user_prefs".to_string()]);
    if let StoragePermissions::Limited(keys) = &limited {
        assert_eq!(keys.len(), 1);
        assert_eq!(keys[0], "user_prefs");
    } else {
        panic!("Expected Limited variant");
    }

    let full = StoragePermissions::Full;
    assert!(matches!(full, StoragePermissions::Full));
}

#[test]
fn test_api_permissions() {
    let mut perms = Permissions::default();

    // Start with no API permissions
    assert!(!perms.apis.contains(&ApiPermission::Geolocation));
    assert!(!perms.apis.contains(&ApiPermission::Camera));

    // Add specific permissions
    perms.apis.insert(ApiPermission::Geolocation);
    perms.apis.insert(ApiPermission::Clipboard);

    assert!(perms.apis.contains(&ApiPermission::Geolocation));
    assert!(perms.apis.contains(&ApiPermission::Clipboard));
    assert!(!perms.apis.contains(&ApiPermission::Camera));
    assert_eq!(perms.apis.len(), 2);
}

#[test]
fn test_api_permission_equality() {
    let geo1 = ApiPermission::Geolocation;
    let geo2 = ApiPermission::Geolocation;
    let cam = ApiPermission::Camera;

    assert_eq!(geo1, geo2);
    assert_ne!(geo1, cam);
}

#[test]
fn test_api_permission_in_hashset() {
    let mut apis = HashSet::new();

    // Insert same permission twice
    apis.insert(ApiPermission::Camera);
    apis.insert(ApiPermission::Camera);

    // Should only have one entry
    assert_eq!(apis.len(), 1);

    apis.insert(ApiPermission::Microphone);
    assert_eq!(apis.len(), 2);
}

#[test]
fn test_api_permission_set_insert_reports_newness() {
    let mut apis = ApiPermissionSet::new();

    assert!(apis.insert(ApiPermission::Camera));
    assert!(!apis.insert(ApiPermission::Camera));
    assert_eq!(apis.len(), 1);
}

#[test]
fn test_restrictive_permissions() {
    // Generated components should start with minimal permissions
    let generated_perms = Permissions::default();

    // Verify they can't do anything dangerous by default
    assert!(matches!(
        generated_perms.network,
        NetworkPermissions::Denied
    ));
    assert!(matches!(
        generated_perms.storage,
        StoragePermissions::Denied
    ));
    assert!(generated_perms.apis.is_empty());
}

#[test]
fn test_permissive_configuration() {
    // Trusted components can be granted more permissions
    let mut trusted_perms = Permissions {
        network: NetworkPermissions::Unrestricted,
        storage: StoragePermissions::Full,
        apis: ApiPermissionSet::new(),
    };

    // Grant all API permissions
    trusted_perms.apis.insert(ApiPermission::Geolocation);
    trusted_perms.apis.insert(ApiPermission::Notifications);
    trusted_perms.apis.insert(ApiPermission::Camera);
    trusted_perms.apis.insert(ApiPermission::Microphone);
    trusted_perms.apis.insert(ApiPermission::Clipboard);
    trusted_perms.apis.insert(ApiPermission::Graphics);

    assert!(matches!(
        trusted_perms.network,
        NetworkPermissions::Unrestricted
    ));
    assert!(matches!(trusted_perms.storage, StoragePermissions::Full));
    assert_eq!(trusted_perms.apis.len(), 6);
}
