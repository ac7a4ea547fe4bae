//! Schema compatibility and the dependency-tree digest.

use zenvo::lockfile::{
    compute_node_modules_hash, dep_tree_hash, parse_pnpm_package_dir, validate_schema_version,
    EnvLock, LockfileInfo, Metadata, SchemaVersionStatus, Toolchain,
};

fn sample_lock(version: &str) -> EnvLock {
    EnvLock {
        metadata: Metadata {
            version: version.to_string(),
            generated_at: "2024-01-01T00:00:00Z".to_string(),
            generated_by: "zenvo@0.1.0".to_string(),
        },
        toolchain: Toolchain {
            node: "20.11.0".to_string(),
            node_version_source: None,
            package_manager: "npm".to_string(),
            package_manager_version: "10.2.4".to_string(),
            corepack_enabled: None,
        },
        environment: None,
        lockfile: Some(LockfileInfo {
            lockfile_type: "package-lock.json".to_string(),
            hash: "sha256:abc".to_string(),
        }),
        caches: None,
        frameworks: None,
    }
}

#[test]
fn test_schema_current() {
    assert_eq!(validate_schema_version("1.0"), SchemaVersionStatus::Current);
    assert!(validate_schema_version("1.0").is_loadable());
}

#[test]
fn test_schema_supported() {
    let status = validate_schema_version("1.5");
    assert_eq!(status, SchemaVersionStatus::Supported { version: "1.5".to_string() });
    assert!(status.is_loadable());
}

#[test]
fn test_schema_too_new() {
    let status = validate_schema_version("2.0");
    assert_eq!(
        status,
        SchemaVersionStatus::TooNew { version: "2.0".to_string(), current: "1.0".to_string() }
    );
    assert!(!status.is_loadable());
}

#[test]
fn test_schema_too_old() {
    let status = validate_schema_version("0.9");
    assert_eq!(
        status,
        SchemaVersionStatus::TooOld { version: "0.9".to_string(), minimum: "1.0".to_string() }
    );
    assert!(!status.is_loadable());
}

#[test]
fn test_schema_invalid() {
    let status = validate_schema_version("not.a.version");
    assert!(!status.is_loadable());
    match status {
        SchemaVersionStatus::Invalid { reason } => {
            assert_eq!(reason, "Invalid schema version format: 'not.a.version' (expected X.Y)");
        }
        other => panic!("expected an invalid outcome, got {:?}", other),
    }
}

#[test]
fn test_validate_schema_gates_loading() {
    assert!(sample_lock("1.0").validate_schema().is_ok());
    assert!(sample_lock("1.3").validate_schema().is_ok());
    let err = sample_lock("2.0").validate_schema().unwrap_err();
    assert!(err.starts_with("env.lock schema version 2.0 is newer"));
    let err = sample_lock("0.5").validate_schema().unwrap_err();
    assert!(err.starts_with("env.lock schema version 0.5 is too old"));
}

#[test]
fn test_dep_tree_hash_exact_value() {
    let tokens = vec!["b@2".to_string(), "a@1".to_string()];
    let h = dep_tree_hash(tokens).unwrap();
    assert_eq!(
        h,
        "sha256:0f39ea14af60849a2d08a529c7f2cba97ee952e58e2c78464bb62c71af904d9d"
    );
}

#[test]
fn test_dep_tree_hash_order_invariant() {
    let one = dep_tree_hash(vec!["b@2".to_string(), "a@1".to_string()]).unwrap();
    let two = dep_tree_hash(vec!["a@1".to_string(), "b@2".to_string()]).unwrap();
    assert_eq!(one, two);
    let again = dep_tree_hash(vec!["a@1".to_string(), "b@2".to_string()]).unwrap();
    assert_eq!(one, again);
}

#[test]
fn test_dep_tree_hash_changes_with_version() {
    let before = dep_tree_hash(vec!["a@1".to_string(), "b@2".to_string()]).unwrap();
    let after = dep_tree_hash(vec!["a@2".to_string(), "b@2".to_string()]).unwrap();
    assert_ne!(before, after);
    assert_eq!(
        after,
        "sha256:fa54656bc27a5aaa5bf4b136ebf7dfc6b90c611c8664d3454f70661b655638b0"
    );
}

#[test]
fn test_dep_tree_hash_empty_is_none() {
    assert!(dep_tree_hash(Vec::new()).is_none());
}

#[test]
fn test_compute_node_modules_hash_dedups_store_entries() {
    let installed = vec![("lodash".to_string(), "4.17.21".to_string())];
    let store = vec![("lodash".to_string(), "4.17.21".to_string())];
    let h = compute_node_modules_hash(&installed, &store).unwrap();
    assert_eq!(
        h,
        "sha256:785c61b2ff1af32efda387112da049faee1094d4b7ffc1a5b03d610a5d3764f8"
    );
}

#[test]
fn test_compute_node_modules_hash_order_invariant() {
    let a = ("react".to_string(), "18.2.0".to_string());
    let b = ("lodash".to_string(), "4.17.21".to_string());
    let s1 = ("@types/node".to_string(), "18.0.0".to_string());
    let s2 = ("dayjs".to_string(), "1.11.0".to_string());
    let one = compute_node_modules_hash(&vec![a.clone(), b.clone()], &vec![s1.clone(), s2.clone()]);
    let two = compute_node_modules_hash(&vec![b, a], &vec![s2, s1]);
    assert!(one.is_some());
    assert_eq!(one, two);
    // An empty enumeration yields no digest either time.
    assert!(compute_node_modules_hash(&Vec::new(), &Vec::new()).is_none());
}

#[test]
fn test_parse_pnpm_package_dir() {
    assert_eq!(
        parse_pnpm_package_dir("lodash@4.17.21"),
        Some(("lodash".to_string(), "4.17.21".to_string()))
    );
    assert_eq!(
        parse_pnpm_package_dir("@types+node@18.0.0"),
        Some(("@types/node".to_string(), "18.0.0".to_string()))
    );
    assert_eq!(parse_pnpm_package_dir(".hidden"), None);
    assert_eq!(parse_pnpm_package_dir("no-marker"), None);
    assert_eq!(parse_pnpm_package_dir("name@notdigit"), None);
}
