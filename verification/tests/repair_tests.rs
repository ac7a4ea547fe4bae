//! The planner's table, its Safe-first ordering, and the executor's
//! tolerant classification.

use zenvo::checks::CheckResult;
use zenvo::repair::{
    classify_repair_output, extract_target_version, generate_repair_plan_with_context,
    get_lockfile_name, is_manual_command, RepairContext,
};

fn ctx_npm() -> RepairContext {
    RepairContext::new("npm")
}

#[test]
fn test_fallback_action_carries_fix_verbatim() {
    let issue = CheckResult::warning("Some unusual check", "deps", "something odd")
        .with_fix("Do the odd thing by hand");
    let plan = generate_repair_plan_with_context(&vec![issue], &ctx_npm());
    assert_eq!(plan.len(), 1);
    assert_eq!(plan[0].description, "Some unusual check");
    assert_eq!(plan[0].command, "Do the odd thing by hand");
    assert!(!plan[0].is_safe);
}

#[test]
fn test_finding_without_entry_or_fix_is_dropped() {
    let issue = CheckResult::warning("Some unusual check", "deps", "something odd");
    let plan = generate_repair_plan_with_context(&vec![issue], &ctx_npm());
    assert!(plan.is_empty());
}

#[test]
fn test_plan_partition_safe_first_order_kept() {
    let issues = vec![
        CheckResult::error("Single lockfile", "lockfile", "two lockfiles"),
        CheckResult::error("Node version match", "toolchain", "Expected 20.11.0 but found 18.0.0"),
        CheckResult::warning("ESLint config", "frameworks", "no config"),
        CheckResult::error("Lockfile hash match", "lockfile", "differs"),
    ];
    let plan = generate_repair_plan_with_context(&issues, &ctx_npm());
    assert_eq!(plan.len(), 4);
    // Safe actions first, in discovery order.
    assert!(plan[0].is_safe);
    assert_eq!(plan[0].description, "Switch Node.js to version 20.11.0");
    assert!(plan[1].is_safe);
    assert_eq!(plan[1].description, "Update env.lock to match current lockfile");
    // Review actions after, in discovery order.
    assert!(!plan[2].is_safe);
    assert_eq!(plan[2].description, "Remove duplicate lockfiles");
    assert!(!plan[3].is_safe);
    assert_eq!(plan[3].description, "Initialize ESLint config");
}

#[test]
fn test_node_switch_uses_detected_manager() {
    let ctx = RepairContext::new("npm")
        .with_node_version_manager(Some("volta".to_string()))
        .with_target_node_version(Some("20.11.0".to_string()));
    assert_eq!(ctx.node_switch_command("20.11.0"), "volta pin node@20.11.0");
    let bare = RepairContext::new("npm");
    assert_eq!(
        bare.node_switch_command("20.11.0"),
        "nvm use 20.11.0 (or volta pin node@20.11.0 / fnm use 20.11.0)"
    );
}

#[test]
fn test_install_commands_by_manager() {
    assert_eq!(RepairContext::new("pnpm").install_command(), "pnpm install --frozen-lockfile");
    assert_eq!(RepairContext::new("yarn").install_command(), "yarn install --frozen-lockfile");
    assert_eq!(RepairContext::new("npm").install_command(), "npm ci");
    assert_eq!(RepairContext::new("npm").install_command_no_frozen(), "npm install");
    assert_eq!(RepairContext::new("pnpm").clear_cache_commands()[0].1, "pnpm store prune");
}

#[test]
fn test_get_lockfile_name() {
    assert_eq!(get_lockfile_name("pnpm"), "pnpm-lock.yaml");
    assert_eq!(get_lockfile_name("yarn"), "yarn.lock");
    assert_eq!(get_lockfile_name("bun"), "bun.lockb");
    assert_eq!(get_lockfile_name("npm"), "package-lock.json");
}

#[test]
fn test_extract_target_version() {
    assert_eq!(
        extract_target_version("Expected 20.11.0 but found 18.0.0"),
        Some("20.11.0".to_string())
    );
    assert_eq!(extract_target_version("nothing here"), None);
}

#[test]
fn test_benign_nonzero_exit_is_success() {
    let stderr = "npm WARN deprecated left-pad@1.3.0\nwarning something minor\n\n";
    assert!(classify_repair_output(false, "ok output", stderr).is_none());
}

#[test]
fn test_error_marker_in_stdout_fails() {
    let stderr = "npm WARN something\n";
    let detail = classify_repair_output(false, "npm ERR! broke", stderr).unwrap();
    assert_eq!(detail, "Command failed: npm WARN something");
}

#[test]
fn test_real_failure_reports_diagnostic_stream() {
    let detail = classify_repair_output(false, "", "fatal: exploded\n").unwrap();
    assert_eq!(detail, "Command failed: fatal: exploded");
}

#[test]
fn test_failure_with_empty_stderr_reports_stdout() {
    let detail = classify_repair_output(false, "ERR! bad thing", "").unwrap();
    assert_eq!(detail, "Command failed: ERR! bad thing");
}

#[test]
fn test_zero_exit_is_success() {
    assert!(classify_repair_output(true, "anything", "even errors here").is_none());
}

#[test]
fn test_is_manual_command() {
    assert!(is_manual_command("Review and remove unused lockfile manually"));
    assert!(is_manual_command("npm is included with Node.js - reinstall Node.js"));
    assert!(!is_manual_command("npm ci"));
}

#[test]
fn test_cache_action_safety_by_manager() {
    let issue = CheckResult::error("Cache corrupted", "deps", "bad cache");
    let plan_npm = generate_repair_plan_with_context(&vec![issue], &ctx_npm());
    assert_eq!(plan_npm.len(), 1);
    assert!(plan_npm[0].is_safe);
    assert_eq!(plan_npm[0].command, "npm cache clean --force");

    let issue = CheckResult::error("Cache corrupted", "deps", "bad cache");
    let plan_bun = generate_repair_plan_with_context(&vec![issue], &RepairContext::new("bun"));
    assert!(!plan_bun[0].is_safe);
}
