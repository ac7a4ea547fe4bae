//! The conflict accumulator and the resolution search.

use zenvo::resolve::{find_resolution, parse_npm_conflicts, DependencyConflict, VersionRecord};

#[test]
fn test_parse_npm_conflicts() {
    let output = r#"
npm error ERESOLVE could not resolve
npm error While resolving: @shopify/react-native-skia@1.12.4
npm error Found: react@19.1.0
npm error peer react@">=18.0 <19.0.0" from @shopify/react-native-skia@1.12.4
npm error Could not resolve dependency:
        "#;

    let conflicts = parse_npm_conflicts(output);
    assert_eq!(conflicts.len(), 1);
    // The package that needs updating is "react" (the conflicting dep)
    assert_eq!(conflicts[0].package, "react");
    assert_eq!(conflicts[0].current_version, "19.1.0");
    assert_eq!(conflicts[0].required_range, ">=18.0 <19.0.0");
}

#[test]
fn test_parse_npm_conflicts_scoped_package() {
    let output = r#"
npm error ERESOLVE could not resolve
npm error While resolving: react-native@0.81.5
npm error Found: @types/react@19.0.14
npm error peerOptional @types/react@"^19.1.0" from react-native@0.81.5
npm error Conflicting peer dependency: @types/react@19.2.8
npm error Could not resolve dependency:
        "#;

    let conflicts = parse_npm_conflicts(output);
    assert_eq!(conflicts.len(), 1);
    // The package that needs updating is "@types/react"
    assert_eq!(conflicts[0].package, "@types/react");
    assert_eq!(conflicts[0].current_version, "19.0.14");
    assert_eq!(conflicts[0].required_range, "^19.1.0");
    // The conflicting package is react-native
    assert_eq!(conflicts[0].conflicting_dep, "react-native");
}

#[test]
fn test_parse_npm_conflicts_flushes_unterminated_block() {
    let output = "npm error ERESOLVE could not resolve\n\
                  npm error While resolving: app@1.0.0\n\
                  npm error Found: react@17.0.2\n";
    let conflicts = parse_npm_conflicts(output);
    assert_eq!(conflicts.len(), 1);
    assert_eq!(conflicts[0].package, "react");
    assert_eq!(conflicts[0].current_version, "17.0.2");
    assert_eq!(conflicts[0].conflicting_dep, "app");
}

#[test]
fn test_parse_npm_conflicts_nothing_without_eresolve() {
    let output = "npm warn something unrelated\nFound: react@17.0.2\n";
    let conflicts = parse_npm_conflicts(output);
    assert_eq!(conflicts.len(), 0);
}

#[test]
fn test_parse_npm_conflicts_suggested_version_annotation() {
    let output = "npm error ERESOLVE could not resolve\n\
                  While resolving: react-native@0.81.5\n\
                  Found: @types/react@19.0.14\n\
                  peerOptional @types/react@\"^19.1.0\" from react-native@0.81.5\n\
                  Conflicting peer dependency: @types/react@19.2.8\n\
                  Could not resolve dependency:\n";
    let conflicts = parse_npm_conflicts(output);
    assert_eq!(conflicts.len(), 1);
    assert_eq!(conflicts[0].actual_version, "19.0.14 (suggested: 19.2.8)");
}

fn record(version: &str, has_peers: bool, peer_req: Option<&str>) -> VersionRecord {
    VersionRecord {
        version: version.to_string(),
        has_peers,
        peer_req: peer_req.map(|s| s.to_string()),
    }
}

fn conflict(package: &str, current: &str, dep: &str, range: &str, actual: &str) -> DependencyConflict {
    DependencyConflict {
        package: package.to_string(),
        current_version: current.to_string(),
        conflicting_dep: dep.to_string(),
        required_range: range.to_string(),
        actual_version: actual.to_string(),
    }
}

#[test]
fn test_find_resolution_direct_upgrade() {
    let c = conflict("@types/react", "19.0.14", "react-native", "^19.1.0", "19.0.14");
    let versions = vec![
        record("19.0.14", false, None),
        record("19.2.8", false, None),
        record("19.1.2", false, None),
        record("20.0.0-rc.1", false, None),
    ];
    let res = find_resolution(&c, versions).unwrap();
    assert_eq!(res.package, "@types/react");
    assert_eq!(res.suggested_version, "19.2.8");
    assert_eq!(res.reason, "react-native requires @types/react ^19.1.0");
}

#[test]
fn test_find_resolution_peer_compatible() {
    let c = conflict("some-lib", "2.0.0", "react", "", "19.1.0");
    let versions = vec![
        record("3.0.0", true, Some("^20.0.0")),
        record("2.5.0", true, Some(">=19.0.0")),
        record("2.0.0", true, Some("^18.0.0")),
    ];
    let res = find_resolution(&c, versions).unwrap();
    assert_eq!(res.suggested_version, "2.5.0");
    assert_eq!(res.reason, "v2.5.0 supports react (requires >=19.0.0)");
}

#[test]
fn test_find_resolution_no_peer_requirement_is_compatible() {
    let c = conflict("some-lib", "2.0.0", "react", "", "19.1.0");
    let versions = vec![record("3.0.0", true, None)];
    let res = find_resolution(&c, versions).unwrap();
    assert_eq!(res.suggested_version, "3.0.0");
    assert_eq!(res.reason, "v3.0.0 has no peer requirement for react");
}

#[test]
fn test_find_resolution_never_guesses() {
    let c = conflict("some-lib", "2.0.0", "react", "", "17.0.0");
    let versions = vec![
        record("3.0.0", true, Some("^19.0.0")),
        record("2.0.0", false, None),
    ];
    assert!(find_resolution(&c, versions).is_none());
}
