//! Configuration defaults, suppression and validation.

use zenvo::checks::CheckSeverity;
use zenvo::config::{ChecksConfig, Policies, SeverityOverride, ZenvoConfig};

#[test]
fn test_default_config() {
    let config = ZenvoConfig::default();
    assert!(config.policies.allow_node_upgrade_minor);
    assert!(!config.policies.allow_node_upgrade_major);
    assert!(config.policies.require_lockfile_frozen);
}

#[test]
fn test_default_policies() {
    let policies = Policies::default();
    assert!(policies.allow_node_upgrade_minor);
    assert!(!policies.allow_node_upgrade_major);
    assert!(policies.require_lockfile_frozen);
    assert!(!policies.enforce_corepack);
    assert!(policies.allowed_package_managers.is_empty());
    assert!(policies.min_node_version.is_none());
    assert!(policies.max_node_version.is_none());
}

fn config_with(disabled: Vec<&str>, overrides: Vec<(&str, SeverityOverride)>) -> ZenvoConfig {
    ZenvoConfig {
        checks: ChecksConfig {
            disabled: disabled.into_iter().map(|s| s.to_string()).collect(),
            severity_overrides: overrides
                .into_iter()
                .map(|(k, v)| (k.to_string(), v))
                .collect(),
            timeout_seconds: None,
        },
        ..ZenvoConfig::default()
    }
}

#[test]
fn test_is_check_disabled_case_insensitive() {
    let config = config_with(vec!["Deprecated_Packages"], vec![]);
    assert!(config.is_check_disabled("deprecated_packages"));
    assert!(config.is_check_disabled("DEPRECATED_PACKAGES"));
    assert!(!config.is_check_disabled("peer_dependencies"));
}

#[test]
fn test_get_severity_override() {
    let config = config_with(vec![], vec![("peer_dependencies", SeverityOverride::Warning)]);
    assert_eq!(
        config.get_severity_override("peer_dependencies"),
        Some(CheckSeverity::Warning)
    );
    assert_eq!(config.get_severity_override("other"), None);
}

#[test]
fn test_get_severity_override_case_insensitive() {
    let config = config_with(vec![], vec![("Engines Compliance", SeverityOverride::Info)]);
    assert_eq!(
        config.get_severity_override("engines compliance"),
        Some(CheckSeverity::Info)
    );
    assert_eq!(
        config.get_severity_override("ENGINES COMPLIANCE"),
        Some(CheckSeverity::Info)
    );
}

#[test]
fn test_validate_version_bounds() {
    let mut config = ZenvoConfig::default();
    config.policies.min_node_version = Some("18.0.0".to_string());
    config.policies.max_node_version = Some("22.0.0".to_string());
    assert!(config.validate().is_ok());

    config.policies.min_node_version = Some("23.0.0".to_string());
    let err = config.validate().unwrap_err();
    assert_eq!(err, "min_node_version (23.0.0) is greater than max_node_version (22.0.0)");

    config.policies.min_node_version = Some("not-a-version".to_string());
    let err = config.validate().unwrap_err();
    assert_eq!(err, "Invalid min_node_version: not-a-version");
}

#[test]
fn test_valid_semver_versions() {
    let config_toml = r#"
[policies]
min_node_version = "18.0.0"
max_node_version = "22.0.0"
"#;

    let parsed: toml::Value = toml::from_str(config_toml).unwrap();

    let min = parsed["policies"]["min_node_version"].as_str().unwrap();
    let max = parsed["policies"]["max_node_version"].as_str().unwrap();

    // Verify they parse as semver
    let min_ver: Result<semver::Version, _> = semver::Version::parse(min);
    let max_ver: Result<semver::Version, _> = semver::Version::parse(max);

    assert!(min_ver.is_ok(), "min_node_version should be valid semver");
    assert!(max_ver.is_ok(), "max_node_version should be valid semver");

    // Verify min <= max
    assert!(min_ver.unwrap() < max_ver.unwrap());
}

#[test]
fn test_invalid_semver_version() {
    let min = "not-a-version";
    let result: Result<semver::Version, _> = semver::Version::parse(min);
    assert!(result.is_err(), "Invalid semver should fail to parse");
}

#[test]
fn test_min_greater_than_max_detected() {
    let config_toml = r#"
[policies]
min_node_version = "22.0.0"
max_node_version = "18.0.0"
"#;

    let parsed: toml::Value = toml::from_str(config_toml).unwrap();

    let min = parsed["policies"]["min_node_version"].as_str().unwrap();
    let max = parsed["policies"]["max_node_version"].as_str().unwrap();

    let min_ver = semver::Version::parse(min).unwrap();
    let max_ver = semver::Version::parse(max).unwrap();

    // This should be detected as invalid
    assert!(min_ver > max_ver, "min > max should be detected as error");
}
