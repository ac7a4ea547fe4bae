//! The check registry over plain facts, and the end-to-end drift story.

use zenvo::checks::dependencies::{DepsFacts, TreeListing};
use zenvo::checks::frameworks::{BuildManifestState, FrameworkFacts, NextCacheFacts};
use zenvo::checks::toolchain::{
    detect_node_version, detect_node_version_manager, resolve_package_manager,
    NodeVersionManager, VersionManagerFacts,
};
use zenvo::checks::{
    apply_config_to_results, detect_workspace_root, run_all_checks, CheckResult, CheckSeverity,
    CurrentEnvironment, Manifest, PackageJsonStatus, ProjectFacts, WorkspaceFileFacts,
    WorkspaceType,
};
use zenvo::config::{ChecksConfig, SeverityOverride, ZenvoConfig};
use zenvo::repair::{generate_repair_plan_with_context, RepairContext};
use zenvo::checks::dependencies::run_checks as deps_run;
use zenvo::lockfile::{EnvLock, Metadata, Toolchain};
use zenvo::utils::CommandResult;

fn ok_probe(stdout: &str) -> CommandResult {
    CommandResult::Success { stdout: stdout.to_string(), stderr: String::new() }
}

fn manifest_with_engines(engines: Option<&str>) -> Manifest {
    Manifest {
        dependencies: Vec::new(),
        dev_dependencies: Vec::new(),
        peer_dependencies: Vec::new(),
        optional_dependencies: Vec::new(),
        engines_node: engines.map(|s| s.to_string()),
        package_manager: Some("npm@10.2.4".to_string()),
        workspaces: Vec::new(),
        has_eslint_config: false,
        has_prettier_config: false,
    }
}

fn facts_for_engines_story() -> ProjectFacts {
    ProjectFacts {
        manifest: PackageJsonStatus::Valid(manifest_with_engines(Some(">=18.17.0"))),
        workspace_files: WorkspaceFileFacts {
            pnpm_workspace_packages: None,
            has_nx_config: false,
            has_turbo_config: false,
            has_lerna_config: false,
        },
        current: CurrentEnvironment {
            node_version: "16.0.0".to_string(),
            package_manager: "npm".to_string(),
            package_manager_version: "10.2.4".to_string(),
            lockfile_type: Some("package-lock.json".to_string()),
            lockfile_hash: Some("sha256:abc".to_string()),
        },
        pm_probe: ok_probe("10.2.4"),
        corepack_probe: ok_probe("0.24.0"),
        lockfiles_present: vec!["package-lock.json".to_string()],
        deps: DepsFacts {
            node_modules_present: false,
            bin_present: false,
            lockfile_versions: None,
            installed_versions: Vec::new(),
            tree: TreeListing::Unavailable,
            source_files: Vec::new(),
        },
        frameworks: FrameworkFacts {
            node_version: Some("16.0.0".to_string()),
            next_engines_node: None,
            typescript_engines_node: None,
            has_tsconfig: false,
            has_eslint_config_file: false,
            has_prettier_config_file: false,
            next_cache: NextCacheFacts {
                next_dir_present: false,
                build_manifest: BuildManifestState::Absent,
                cache_dir_present: false,
            },
            build_caches: Vec::new(),
        },
    }
}

#[test]
fn test_engines_drift_end_to_end() {
    // A manifest requiring a newer runtime than the installed one, no
    // snapshot present: exactly one error finding (engines compliance)
    // and one Safe repair action proposing a runtime switch.
    let facts = facts_for_engines_story();
    let results = run_all_checks(&None, None, &None, &facts);

    let errors: Vec<&CheckResult> =
        results.iter().filter(|r| r.severity == CheckSeverity::Error).collect();
    assert_eq!(errors.len(), 1);
    assert_eq!(errors[0].name, "Engines compliance");
    assert_eq!(
        errors[0].message,
        "Node 16.0.0 does not satisfy engines.node constraint: >=18.17.0"
    );

    let issues: Vec<CheckResult> = results
        .into_iter()
        .filter(|r| r.severity == CheckSeverity::Error || r.severity == CheckSeverity::Warning)
        .collect();
    let context = RepairContext::new("npm");
    let plan = generate_repair_plan_with_context(&issues, &context);
    assert_eq!(plan.len(), 1);
    assert!(plan[0].is_safe);
    assert_eq!(plan[0].description, "Switch Node.js to version 18.17.0");
    assert_eq!(
        plan[0].command,
        "nvm use 18.17.0 (or volta pin node@18.17.0 / fnm use 18.17.0)"
    );
}

#[test]
fn test_unrecognised_constraint_is_advisory() {
    let mut facts = facts_for_engines_story();
    facts.manifest = PackageJsonStatus::Valid(manifest_with_engines(Some("weird-range")));
    let results = run_all_checks(&None, None, &None, &facts);
    let engines: Vec<&CheckResult> =
        results.iter().filter(|r| r.name == "Engines compliance").collect();
    assert_eq!(engines.len(), 1);
    assert_eq!(engines[0].severity, CheckSeverity::Warning);
    assert_eq!(engines[0].message, "Unrecognized constraint format 'weird-range', skipping check");
}

#[test]
fn test_missing_manifest_is_fatal_finding() {
    let mut facts = facts_for_engines_story();
    facts.manifest = PackageJsonStatus::Missing;
    let results = run_all_checks(&None, None, &None, &facts);
    assert_eq!(results[0].name, "package.json exists");
    assert_eq!(results[0].severity, CheckSeverity::Error);
}

#[test]
fn test_config_filter_disables_and_overrides() {
    let results = vec![
        CheckResult::error("Engines compliance", "toolchain", "bad"),
        CheckResult::warning("Peer dependencies", "deps", "conflict"),
    ];
    let config = ZenvoConfig {
        checks: ChecksConfig {
            disabled: vec!["engines compliance".to_string()],
            severity_overrides: vec![("Peer dependencies".to_string(), SeverityOverride::Error)],
            timeout_seconds: None,
        },
        ..ZenvoConfig::default()
    };
    let filtered = apply_config_to_results(results, &config);
    assert_eq!(filtered.len(), 1);
    assert_eq!(filtered[0].name, "Peer dependencies");
    assert_eq!(filtered[0].severity, CheckSeverity::Error);
}

#[test]
fn test_detect_workspace_precedence() {
    let mut m = manifest_with_engines(None);
    m.workspaces = vec!["packages/*".to_string()];
    let files = WorkspaceFileFacts {
        pnpm_workspace_packages: Some(vec!["apps/*".to_string()]),
        has_nx_config: true,
        has_turbo_config: false,
        has_lerna_config: false,
    };
    let w = detect_workspace_root(&PackageJsonStatus::Valid(m), &files).unwrap();
    assert_eq!(w.workspace_type, WorkspaceType::NpmYarn);
    assert_eq!(w.packages, vec!["packages/*".to_string()]);

    let w2 = detect_workspace_root(&PackageJsonStatus::Missing, &files).unwrap();
    assert_eq!(w2.workspace_type, WorkspaceType::Pnpm);

    let no_pnpm = WorkspaceFileFacts {
        pnpm_workspace_packages: None,
        has_nx_config: true,
        has_turbo_config: false,
        has_lerna_config: false,
    };
    let w3 = detect_workspace_root(&PackageJsonStatus::Missing, &no_pnpm).unwrap();
    assert_eq!(w3.workspace_type, WorkspaceType::Nx);
}

#[test]
fn test_detect_node_version_kinds() {
    assert_eq!(detect_node_version(&ok_probe(" v18.17.0\n")), Ok("18.17.0".to_string()));
    assert_eq!(
        detect_node_version(&ok_probe("")),
        Err("node --version returned empty output".to_string())
    );
    assert_eq!(
        detect_node_version(&CommandResult::TimedOut),
        Err("node --version timed out - Node.js may be hanging or unresponsive".to_string())
    );
    let spawn = CommandResult::SpawnError("no such file".to_string());
    assert!(detect_node_version(&spawn).unwrap_err().starts_with("Failed to execute"));
}

#[test]
fn test_resolve_package_manager_order() {
    let manifest_field = Some("pnpm@8.15.1".to_string());
    assert_eq!(
        resolve_package_manager(&manifest_field, false, false),
        ("pnpm".to_string(), Some("8.15.1".to_string()))
    );
    assert_eq!(resolve_package_manager(&None, true, true), ("pnpm".to_string(), None));
    assert_eq!(resolve_package_manager(&None, false, true), ("yarn".to_string(), None));
    assert_eq!(resolve_package_manager(&None, false, false), ("npm".to_string(), None));
}

#[test]
fn test_detect_node_version_manager_order() {
    let facts = VersionManagerFacts {
        volta_home_set: true,
        volta_confirms: true,
        fnm_env_set: true,
        nvm_env_set: true,
        node_path: None,
        node_runs: true,
    };
    assert_eq!(detect_node_version_manager(&facts), NodeVersionManager::Volta);
    let by_path = VersionManagerFacts {
        volta_home_set: false,
        volta_confirms: false,
        fnm_env_set: false,
        nvm_env_set: false,
        node_path: Some("/Users/dev/.NVM/versions/node/v18/bin/node".to_string()),
        node_runs: true,
    };
    assert_eq!(detect_node_version_manager(&by_path), NodeVersionManager::Nvm);
    let plain = VersionManagerFacts {
        volta_home_set: false,
        volta_confirms: false,
        fnm_env_set: false,
        nvm_env_set: false,
        node_path: Some("/usr/local/bin/node".to_string()),
        node_runs: true,
    };
    assert_eq!(detect_node_version_manager(&plain), NodeVersionManager::System);
}

#[test]
fn test_node_version_mismatch_against_snapshot() {
    let lock = EnvLock {
        metadata: Metadata {
            version: "1.0".to_string(),
            generated_at: "2024-01-01T00:00:00Z".to_string(),
            generated_by: "zenvo@0.1.0".to_string(),
        },
        toolchain: Toolchain {
            node: "20.11.0".to_string(),
            node_version_source: None,
            package_manager: "npm".to_string(),
            package_manager_version: "10.2.4".to_string(),
            corepack_enabled: None,
        },
        environment: None,
        lockfile: None,
        caches: None,
        frameworks: None,
    };
    let mut facts = facts_for_engines_story();
    facts.manifest = PackageJsonStatus::Valid(manifest_with_engines(None));
    let results = run_all_checks(&Some(lock), None, &None, &facts);
    let mismatch: Vec<&CheckResult> =
        results.iter().filter(|r| r.name == "Node version match").collect();
    assert_eq!(mismatch.len(), 1);
    assert_eq!(mismatch[0].severity, CheckSeverity::Error);
    assert_eq!(mismatch[0].message, "Expected 20.11.0 but found 16.0.0");
    assert_eq!(
        mismatch[0].suggested_fix.as_deref(),
        Some("nvm use 20.11.0 or volta pin node@20.11.0")
    );
}

#[test]
fn test_phantom_dependency_scan() {
    let m = manifest_with_engines(None);
    let facts = DepsFacts {
        node_modules_present: true,
        bin_present: true,
        lockfile_versions: None,
        installed_versions: Vec::new(),
        tree: TreeListing::Unavailable,
        source_files: vec![
            "import lodash from 'lodash';\nconst fs = require('fs');\nimport('dayjs');\n"
                .to_string(),
        ],
    };
    let results = deps_run(Some(&m), &facts);
    let phantom: Vec<&CheckResult> =
        results.iter().filter(|r| r.name == "Phantom dependencies").collect();
    assert_eq!(phantom.len(), 1);
    assert_eq!(phantom[0].message, "Found phantom dependencies: lodash, dayjs");
}

#[test]
fn test_deprecated_packages_and_mismatch() {
    let mut m = manifest_with_engines(None);
    m.dependencies = vec![
        ("request".to_string(), "^2.88.0".to_string()),
        ("react".to_string(), "^18.2.0".to_string()),
    ];
    let facts = DepsFacts {
        node_modules_present: true,
        bin_present: false,
        lockfile_versions: Some(vec![("react".to_string(), "18.2.0".to_string())]),
        installed_versions: vec![("react".to_string(), "18.1.0".to_string())],
        tree: TreeListing::Parsed(vec!["peer dep missing: react@^18".to_string()]),
        source_files: Vec::new(),
    };
    let results = deps_run(Some(&m), &facts);
    let mismatch = results.iter().find(|r| r.name == "node_modules matches lockfile").unwrap();
    assert_eq!(mismatch.severity, CheckSeverity::Error);
    assert_eq!(
        mismatch.message,
        "Version mismatches: react: expected 18.2.0 but found 18.1.0"
    );
    assert!(results.iter().any(|r| r.name == "Deprecated: request"));
    assert!(results.iter().any(|r| r.name == "Peer dependency conflict"));
}
