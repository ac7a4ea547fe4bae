//! Range semantics and version ordering.

use zenvo::version::{
    check_semver_constraint, compare_semver, compare_versions, determine_upgrade_type,
    matches_constraint, normalize_node_version, parse_min_version_from_constraint,
    parse_version_lenient, version_satisfies, ParsedVersion,
};

#[test]
fn test_version_satisfies() {
    assert!(version_satisfies("19.1.0", ">=18.0.0"));
    assert!(version_satisfies("18.3.1", ">=18.0 <19.0.0"));
    assert!(!version_satisfies("19.1.0", ">=18.0 <19.0.0"));
    assert!(version_satisfies("18.2.0", "^18.0.0"));
    assert!(!version_satisfies("19.0.0", "^18.0.0"));
    assert!(version_satisfies("1.2.5", "~1.2.3"));
    assert!(!version_satisfies("1.3.0", "~1.2.3"));
}

#[test]
fn test_version_satisfies_or_and_bounds() {
    assert!(version_satisfies("16.20.0", ">=16.0.0 <17.0.0 || >=18.0.0"));
    assert!(version_satisfies("19.0.0", ">=16.0.0 <17.0.0 || >=18.0.0"));
    assert!(!version_satisfies("17.5.0", ">=16.0.0 <17.0.0 || >=18.0.0"));
    assert!(version_satisfies("2.0.0", ">1.9.9"));
    assert!(!version_satisfies("1.9.9", ">1.9.9"));
    assert!(version_satisfies("1.9.9", "<=1.9.9"));
    assert!(!version_satisfies("2.0.0", "<=1.9.9"));
    assert!(version_satisfies("0.3.4", "^0.3.1"));
    assert!(!version_satisfies("0.4.0", "^0.3.1"));
    assert!(version_satisfies("anything", "*"));
}

#[test]
fn test_compare_semver() {
    assert_eq!(compare_semver("1.0.0", "1.0.0"), std::cmp::Ordering::Equal);
    assert_eq!(compare_semver("2.0.0", "1.0.0"), std::cmp::Ordering::Greater);
    assert_eq!(compare_semver("1.0.0", "2.0.0"), std::cmp::Ordering::Less);
    assert_eq!(compare_semver("1.1.0", "1.0.0"), std::cmp::Ordering::Greater);
    assert_eq!(compare_semver("1.0.1", "1.0.0"), std::cmp::Ordering::Greater);
}

#[test]
fn test_compare_semver_prerelease() {
    assert_eq!(compare_semver("1.0.0-rc.1", "1.0.0"), std::cmp::Ordering::Less);
    assert_eq!(compare_semver("1.0.0", "1.0.0-rc.1"), std::cmp::Ordering::Greater);
    assert_eq!(compare_versions("1.2.3", "1.2.10"), std::cmp::Ordering::Less);
}

#[test]
fn test_matches_constraint_tilde() {
    assert!(matches_constraint("1.2.3", "~", "1.2.0"));
    assert!(matches_constraint("1.2.5", "~", "1.2.3"));
    assert!(!matches_constraint("1.3.0", "~", "1.2.3"));
    assert!(!matches_constraint("1.2.2", "~", "1.2.3"));
}

#[test]
fn test_matches_constraint_caret() {
    assert!(matches_constraint("1.2.3", "^", "1.0.0"));
    assert!(matches_constraint("1.5.0", "^", "1.2.3"));
    assert!(!matches_constraint("2.0.0", "^", "1.2.3"));
    assert!(!matches_constraint("1.1.0", "^", "1.2.3"));
}

#[test]
fn test_parsed_version() {
    let v = ParsedVersion::parse("20.11.0").unwrap();
    assert_eq!(v.major, 20);
    assert_eq!(v.minor, 11);
    assert_eq!(v.patch, 0);
    assert!(v.meets_minimum(18, 17));
    assert!(!v.meets_minimum(20, 12));
    let short = ParsedVersion::parse("5.3").unwrap();
    assert_eq!(short.minor, 3);
    assert_eq!(short.patch, 0);
    assert!(ParsedVersion::parse("not-a-version").is_none());
}

#[test]
fn test_parse_min_version_from_constraint() {
    assert_eq!(parse_min_version_from_constraint(">=14.17"), Some((14, 17)));
    assert_eq!(parse_min_version_from_constraint(">=18.17.0"), Some((18, 17)));
    assert_eq!(parse_min_version_from_constraint("^18.17.0"), Some((18, 17)));
    assert_eq!(parse_min_version_from_constraint(">=18.17.0 || >=20.0.0"), Some((18, 17)));
    assert_eq!(parse_min_version_from_constraint("whatever"), None);
}

#[test]
fn test_normalize_node_version() {
    assert_eq!(normalize_node_version("v18.17.0"), ("18.17.0".to_string(), false));
    assert_eq!(normalize_node_version("21.0.0-nightly202306"), ("21.0.0".to_string(), true));
    assert_eq!(normalize_node_version("20.0.0-rc.1"), ("20.0.0".to_string(), true));
    assert_eq!(normalize_node_version("18.17.0+build5"), ("18.17.0".to_string(), true));
    assert_eq!(normalize_node_version(" 16.1.0 "), ("16.1.0".to_string(), false));
}

#[test]
fn test_check_semver_constraint() {
    let v = parse_version_lenient("19.1.0").unwrap();
    assert_eq!(check_semver_constraint(">=18.0.0", &v), Some(true));
    assert_eq!(check_semver_constraint("^18.0.0", &v), Some(false));
    assert_eq!(check_semver_constraint(">=18.0 <19.0.0", &v), Some(false));
    let mid = parse_version_lenient("18.3.1").unwrap();
    assert_eq!(check_semver_constraint(">=18.0 <19.0.0", &mid), Some(true));
    assert_eq!(check_semver_constraint(">=16 <17 || >=18", &v), Some(true));
    assert_eq!(check_semver_constraint("^19.0.0", &v), Some(true));
    assert_eq!(check_semver_constraint("~19.1.0", &v), Some(true));
    assert_eq!(check_semver_constraint("~19.0.0", &v), Some(false));
    assert_eq!(check_semver_constraint("*", &v), Some(true));
    assert_eq!(check_semver_constraint("19.1.0", &v), Some(true));
    assert_eq!(check_semver_constraint("banana", &v), None);
    assert_eq!(check_semver_constraint("16.0.0 || 19.1.0", &v), Some(true));
    assert_eq!(check_semver_constraint("16.0.0 || 17.0.0", &v), Some(false));
}

#[test]
fn test_parse_version_lenient_pads_missing_parts() {
    let v = parse_version_lenient("18").unwrap();
    assert_eq!((v.major, v.minor, v.patch), (18, 0, 0));
    let w = parse_version_lenient("18.3").unwrap();
    assert_eq!((w.major, w.minor, w.patch), (18, 3, 0));
    assert!(parse_version_lenient("not a version").is_none());
}

#[test]
fn test_determine_upgrade_type() {
    assert_eq!(determine_upgrade_type("1.2.3", "1.2.4", "1.2.9"), "patch");
    assert_eq!(determine_upgrade_type("1.2.3", "1.3.0", "1.9.0"), "minor");
    assert_eq!(determine_upgrade_type("1.2.3", "1.2.3", "2.0.0"), "major");
    assert_eq!(determine_upgrade_type("1.2.3", "2.0.0", "1.0.0"), "major");
}
