//! Output shaping: labels, diffs, plan summaries and size formatting.

use zenvo::checks::{CheckResult, CurrentEnvironment};
use zenvo::lockfile::{EnvLock, LockfileInfo, Metadata, Toolchain};
use zenvo::output::{build_diff, build_plan_output, format_size, Issue, OutputFormat};
use zenvo::registry::{filter_by_constraint, get_sorted_versions, sort_upgrades, PackageUpgrade, VersionInfo};
use zenvo::repair::RepairAction;
use zenvo::utils::CommandResult;

#[test]
fn test_output_format_from_str() {
    assert_eq!(OutputFormat::from_str("json"), OutputFormat::Json);
    assert_eq!(OutputFormat::from_str("JSON"), OutputFormat::Json);
    assert_eq!(OutputFormat::from_str("text"), OutputFormat::Text);
    assert_eq!(OutputFormat::from_str("anything"), OutputFormat::Text);
}

#[test]
fn test_issue_from_result() {
    let issue = Issue::from_result(&CheckResult::warning("Peer dependencies", "deps", "conflict"));
    assert_eq!(issue.name, "Peer dependencies");
    assert_eq!(issue.severity, "warning");
    assert_eq!(issue.message, "conflict");
    assert!(issue.suggested_fix.is_none());
}

#[test]
fn test_format_size() {
    assert_eq!(format_size(512), "512 B");
    assert_eq!(format_size(1024), "1.00 KB");
    assert_eq!(format_size(1536), "1.50 KB");
    assert_eq!(format_size(1048576), "1.00 MB");
    assert_eq!(format_size(1572864), "1.50 MB");
    assert_eq!(format_size(1073741824), "1.00 GB");
    assert_eq!(format_size(1610612736), "1.50 GB");
    // A fraction that rounds to a whole unit carries into the whole part.
    assert_eq!(format_size(1073741823), "1024.00 MB");
}

#[test]
fn test_build_diff_flags_drift() {
    let lock = EnvLock {
        metadata: Metadata {
            version: "1.0".to_string(),
            generated_at: "2024-01-01T00:00:00Z".to_string(),
            generated_by: "zenvo@0.1.0".to_string(),
        },
        toolchain: Toolchain {
            node: "20.11.0".to_string(),
            node_version_source: None,
            package_manager: "npm".to_string(),
            package_manager_version: "10.2.4".to_string(),
            corepack_enabled: None,
        },
        environment: None,
        lockfile: Some(LockfileInfo {
            lockfile_type: "package-lock.json".to_string(),
            hash: "sha256:0123456789abcdef".to_string(),
        }),
        caches: None,
        frameworks: None,
    };
    let current = CurrentEnvironment {
        node_version: "18.0.0".to_string(),
        package_manager: "npm".to_string(),
        package_manager_version: "10.2.4".to_string(),
        lockfile_type: Some("package-lock.json".to_string()),
        lockfile_hash: Some("sha256:0123456789abcdef".to_string()),
    };
    let diff = build_diff(&lock, &current);
    assert_eq!(diff.items.len(), 4);
    assert!(diff.has_drift);
    assert!(!diff.items[0].matches);
    assert_eq!(diff.items[3].locked, "sha256:01234");
    assert!(diff.items[3].matches);
}

#[test]
fn test_build_plan_output_counts() {
    let plan = vec![
        RepairAction { description: "a".to_string(), command: "x".to_string(), is_safe: true },
        RepairAction { description: "b".to_string(), command: "y".to_string(), is_safe: false },
        RepairAction { description: "c".to_string(), command: "z".to_string(), is_safe: true },
    ];
    let out = build_plan_output(&plan, 5);
    assert_eq!(out.total_issues, 5);
    assert_eq!(out.safe_actions, 2);
    assert_eq!(out.review_actions, 1);
    assert_eq!(out.actions[1].command, "y");
}

fn vi(v: &str) -> VersionInfo {
    VersionInfo {
        version: v.to_string(),
        published: None,
        is_latest: false,
        is_deprecated: false,
    }
}

#[test]
fn test_get_sorted_versions_newest_first() {
    let sorted = get_sorted_versions(vec![vi("1.2.0"), vi("2.0.0"), vi("1.10.0"), vi("2.0.0-rc.1")]);
    let order: Vec<&str> = sorted.iter().map(|v| v.version.as_str()).collect();
    assert_eq!(order, vec!["2.0.0", "2.0.0-rc.1", "1.10.0", "1.2.0"]);
}

#[test]
fn test_filter_by_constraint() {
    let kept = filter_by_constraint(vec![vi("1.2.0"), vi("2.0.0"), vi("1.9.0")], ">=1.5.0");
    let order: Vec<&str> = kept.iter().map(|v| v.version.as_str()).collect();
    assert_eq!(order, vec!["2.0.0", "1.9.0"]);
    let caret = filter_by_constraint(vec![vi("1.2.0"), vi("2.0.0"), vi("1.9.0")], "^1.2.0");
    let order: Vec<&str> = caret.iter().map(|v| v.version.as_str()).collect();
    assert_eq!(order, vec!["1.2.0", "1.9.0"]);
}

fn upgrade(name: &str, t: &str) -> PackageUpgrade {
    PackageUpgrade {
        name: name.to_string(),
        current: "1.0.0".to_string(),
        wanted: "1.0.1".to_string(),
        latest: "2.0.0".to_string(),
        upgrade_type: t.to_string(),
    }
}

#[test]
fn test_sort_upgrades_by_class() {
    let sorted = sort_upgrades(vec![
        upgrade("a", "major"),
        upgrade("b", "patch"),
        upgrade("c", "minor"),
        upgrade("d", "patch"),
    ]);
    let order: Vec<&str> = sorted.iter().map(|u| u.name.as_str()).collect();
    assert_eq!(order, vec!["b", "d", "c", "a"]);
}

#[test]
fn test_command_result_accessors() {
    let ok = CommandResult::Success { stdout: "out".to_string(), stderr: "err".to_string() };
    assert!(ok.is_success());
    assert_eq!(ok.stdout_string(), Some("out".to_string()));
    assert_eq!(ok.stderr_string(), Some("err".to_string()));
    let timeout = CommandResult::TimedOut;
    assert!(!timeout.is_success());
    assert!(timeout.stdout_string().is_none());
}

#[test]
fn test_server_identity() {
    let server = zenvo::mcp::McpServer::new();
    assert_eq!(server.name, "zenvo-mcp");
    let info = server.server_info();
    assert_eq!(info.name, "zenvo-mcp");
}
