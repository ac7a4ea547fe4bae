//! Toolchain checks: runtime and package-manager detection decisions and
//! the live-versus-snapshot comparisons, all over plain probe facts.

use vstd::prelude::*;
use crate::checks::CheckResult;
use crate::checks::CheckSeverity;
use crate::checks::CurrentEnvironment;
use crate::checks::FindingModel;
use crate::checks::finding_model;
use crate::checks::finding_models;
use crate::checks::msg_model;
use crate::checks::pass_model;
use crate::checks::with_fix_model;
use crate::lockfile::EnvLock;
use crate::text;
use crate::utils::CommandResult;
use crate::version;

verus! {

use vstd::string::StrSliceExecFns;
use vstd::string::StringExecFns;

/// The runtime version manager in charge, when one can be told.
#[derive(Debug, Clone, Copy, PartialEq, Eq, Structural)]
pub enum NodeVersionManager {
    Volta,
    Fnm,
    Nvm,
    System,
    Unknown,
}

impl NodeVersionManager {
    /// The manager's short name.
    pub fn label(&self) -> (r: &'static str)
        ensures
            r@ == manager_label_spec(*self),
    {
        match self {
            NodeVersionManager::Volta => "volta",
            NodeVersionManager::Fnm => "fnm",
            NodeVersionManager::Nvm => "nvm",
            NodeVersionManager::System => "system",
            NodeVersionManager::Unknown => "unknown",
        }
    }
}

pub open spec fn manager_label_spec(m: NodeVersionManager) -> Seq<char> {
    match m {
        NodeVersionManager::Volta => "volta"@,
        NodeVersionManager::Fnm => "fnm"@,
        NodeVersionManager::Nvm => "nvm"@,
        NodeVersionManager::System => "system"@,
        NodeVersionManager::Unknown => "unknown"@,
    }
}

/// What the environment shows about version managers, gathered cheapest
/// first: environment variables need no process, the binary path one
/// spawn, the plain runtime probe another.
#[derive(Debug, Clone)]
pub struct VersionManagerFacts {
    /// The volta root variable is set.
    pub volta_home_set: bool,
    /// Asking volta for the runtime's path succeeded.
    pub volta_confirms: bool,
    /// One of the fnm session variables is set.
    pub fnm_env_set: bool,
    /// The nvm directory variable is set.
    pub nvm_env_set: bool,
    /// Where the runtime binary resolves to, when that lookup succeeded.
    pub node_path: Option<String>,
    /// The plain runtime version probe succeeded.
    pub node_runs: bool,
}

/// The detection order: variables before the binary path before the
/// plain probe; nothing conclusive means Unknown.
pub open spec fn detect_manager_spec(f: &VersionManagerFacts) -> NodeVersionManager {
    if f.volta_home_set && f.volta_confirms {
        NodeVersionManager::Volta
    } else if f.fnm_env_set {
        NodeVersionManager::Fnm
    } else if f.nvm_env_set {
        NodeVersionManager::Nvm
    } else {
        let by_path = match f.node_path {
            Some(p) => {
                let lower = text::lower_spec(p@);
                if text::contains_sub(lower, "volta"@) {
                    Some(NodeVersionManager::Volta)
                } else if text::contains_sub(lower, "fnm"@) {
                    Some(NodeVersionManager::Fnm)
                } else if text::contains_sub(lower, "nvm"@) || text::contains_sub(lower, ".nvm"@) {
                    Some(NodeVersionManager::Nvm)
                } else {
                    None
                }
            },
            None => None,
        };
        match by_path {
            Some(m) => m,
            None => if f.node_runs {
                NodeVersionManager::System
            } else {
                NodeVersionManager::Unknown
            },
        }
    }
}

/// Decide which version manager is in charge from the gathered facts.
pub fn detect_node_version_manager(facts: &VersionManagerFacts) -> (r: NodeVersionManager)
    ensures
        r == detect_manager_spec(facts),
{
    if facts.volta_home_set && facts.volta_confirms {
        return NodeVersionManager::Volta;
    }
    if facts.fnm_env_set {
        return NodeVersionManager::Fnm;
    }
    if facts.nvm_env_set {
        return NodeVersionManager::Nvm;
    }
    match &facts.node_path {
        Some(p) => {
            let lower = text::to_lower(p.as_str());
            if text::contains(lower.as_str(), "volta") {
                return NodeVersionManager::Volta;
            }
            if text::contains(lower.as_str(), "fnm") {
                return NodeVersionManager::Fnm;
            }
            if text::contains(lower.as_str(), "nvm") || text::contains(lower.as_str(), ".nvm") {
                return NodeVersionManager::Nvm;
            }
        },
        None => {},
    }
    if facts.node_runs {
        NodeVersionManager::System
    } else {
        NodeVersionManager::Unknown
    }
}

// ---------------------------------------------------------------------------
// Runtime and tool version reading
// ---------------------------------------------------------------------------

/// What a version probe yields: the trimmed output with leading `v`
/// markers dropped on success, a distinct fatal message otherwise.
pub open spec fn node_version_of_probe(probe: &CommandResult) -> Result<Seq<char>, Seq<char>> {
    match probe {
        CommandResult::Success { stdout, .. } => {
            let v = text::strip_prefix_all_spec(text::trim_spec(stdout@), "v"@);
            if v.len() == 0 {
                Err("node --version returned empty output"@)
            } else {
                Ok(v)
            }
        },
        CommandResult::Failed { stderr, .. } => Err(
            "node --version failed: "@ + text::trim_spec(stderr@),
        ),
        CommandResult::TimedOut => Err(
            "node --version timed out - Node.js may be hanging or unresponsive"@,
        ),
        CommandResult::SpawnError(e) => Err(
            "Failed to execute 'node --version'. Is Node.js installed and in PATH? Error: "@ + e@,
        ),
    }
}

/// Read the runtime version out of its probe: failure, timeout and empty
/// output are distinct fatal kinds.
pub fn detect_node_version(probe: &CommandResult) -> (r: Result<String, String>)
    ensures
        match r {
            Ok(v) => node_version_of_probe(probe) == Ok::<Seq<char>, Seq<char>>(v@),
            Err(e) => node_version_of_probe(probe) == Err::<Seq<char>, Seq<char>>(e@),
        },
{
    proof {
        reveal_strlit("v");
    }
    match probe {
        CommandResult::Success { stdout, .. } => {
            let v = text::strip_prefix_all(text::trim(stdout.as_str()), "v");
            if v.unicode_len() == 0 {
                Err(String::from_str("node --version returned empty output"))
            } else {
                Ok(v.to_owned())
            }
        },
        CommandResult::Failed { stderr, .. } => Err(
            String::from_str("node --version failed: ").concat(text::trim(stderr.as_str())),
        ),
        CommandResult::TimedOut => Err(
            String::from_str("node --version timed out - Node.js may be hanging or unresponsive"),
        ),
        CommandResult::SpawnError(e) => Err(
            String::from_str(
                "Failed to execute 'node --version'. Is Node.js installed and in PATH? Error: ",
            ).concat(e.as_str()),
        ),
    }
}

/// The runtime version together with the manager that provides it.
pub fn detect_node_version_with_source(
    probe: &CommandResult,
    manager_facts: &VersionManagerFacts,
) -> (r: Result<(String, NodeVersionManager), String>)
    ensures
        match r {
            Ok(p) => node_version_of_probe(probe) == Ok::<Seq<char>, Seq<char>>(p.0@) && p.1
                == detect_manager_spec(manager_facts),
            Err(e) => node_version_of_probe(probe) == Err::<Seq<char>, Seq<char>>(e@),
        },
{
    let version = match detect_node_version(probe) {
        Ok(v) => v,
        Err(e) => {
            return Err(e);
        },
    };
    let manager = detect_node_version_manager(manager_facts);
    Ok((version, manager))
}

/// What a tool's version probe yields: the trimmed output on success, a
/// message naming the tool otherwise.
pub open spec fn tool_version_of_probe(tool: Seq<char>, probe: &CommandResult) -> Result<
    Seq<char>,
    Seq<char>,
> {
    match probe {
        CommandResult::Success { stdout, .. } => {
            let v = text::trim_spec(stdout@);
            if v.len() == 0 {
                Err(tool + " --version returned empty output"@)
            } else {
                Ok(v)
            }
        },
        CommandResult::Failed { stderr, .. } => Err(
            tool + " --version failed: "@ + text::trim_spec(stderr@),
        ),
        CommandResult::TimedOut => Err(
            tool + " --version timed out - "@ + tool + " may be hanging or unresponsive"@,
        ),
        CommandResult::SpawnError(e) => Err(
            "Failed to execute '"@ + tool + " --version'. Is "@ + tool + " installed? Error: "@
                + e@,
        ),
    }
}

/// Read a tool's version out of its probe.
pub fn get_tool_version(tool: &str, probe: &CommandResult) -> (r: Result<String, String>)
    ensures
        match r {
            Ok(v) => tool_version_of_probe(tool@, probe) == Ok::<Seq<char>, Seq<char>>(v@),
            Err(e) => tool_version_of_probe(tool@, probe) == Err::<Seq<char>, Seq<char>>(e@),
        },
{
    match probe {
        CommandResult::Success { stdout, .. } => {
            let v = text::trim(stdout.as_str());
            if v.unicode_len() == 0 {
                Err(String::from_str(tool).concat(" --version returned empty output"))
            } else {
                Ok(v.to_owned())
            }
        },
        CommandResult::Failed { stderr, .. } => Err(
            String::from_str(tool).concat(" --version failed: ").concat(text::trim(
                stderr.as_str(),
            )),
        ),
        CommandResult::TimedOut => Err(
            String::from_str(tool).concat(" --version timed out - ").concat(tool).concat(
                " may be hanging or unresponsive",
            ),
        ),
        CommandResult::SpawnError(e) => Err(
            String::from_str("Failed to execute '").concat(tool).concat(
                " --version'. Is ",
            ).concat(tool).concat(" installed? Error: ").concat(e.as_str()),
        ),
    }
}

/// The package manager in charge: an explicit manifest `tool@version`
/// field first, then manager-specific lockfile presence, then the
/// default manager.  The version is carried only when the manifest named
/// it; otherwise the caller probes the chosen tool.
pub open spec fn resolve_pm_spec(
    manifest_pm: &Option<String>,
    has_pnpm_lock: bool,
    has_yarn_lock: bool,
) -> (Seq<char>, Option<Seq<char>>) {
    let by_manifest: Option<(Seq<char>, Option<Seq<char>>)> = match manifest_pm {
        Some(s) => match text::find_char_spec(s@, '@') {
            Some(i) => if 0 <= i < s@.len() {
                Some((s@.take(i), Some(s@.skip(i + 1))))
            } else {
                None
            },
            None => None,
        },
        None => None,
    };
    match by_manifest {
        Some(p) => p,
        None => if has_pnpm_lock {
            ("pnpm"@, None)
        } else if has_yarn_lock {
            ("yarn"@, None)
        } else {
            ("npm"@, None)
        },
    }
}

/// Decide the package manager from the manifest field and lockfiles.
pub fn resolve_package_manager(
    manifest_pm: &Option<String>,
    has_pnpm_lock: bool,
    has_yarn_lock: bool,
) -> (r: (String, Option<String>))
    ensures
        r.0@ == resolve_pm_spec(manifest_pm, has_pnpm_lock, has_yarn_lock).0,
        match (r.1, resolve_pm_spec(manifest_pm, has_pnpm_lock, has_yarn_lock).1) {
            (Some(v), Some(sv)) => v@ == sv,
            (None, None) => true,
            _ => false,
        },
{
    match manifest_pm {
        Some(s) => {
            proof {
                text::lemma_find_char_from(s@, '@', 0);
            }
            let slen = s.as_str().unicode_len();
            match text::find_char(s.as_str(), '@') {
                Some(i) => {
                    let name = s.as_str().substring_char(0, i);
                    assert(name@ =~= s@.take(i as int));
                    let ver = s.as_str().substring_char(i + 1, slen);
                    assert(ver@ =~= s@.skip(i + 1));
                    return (name.to_owned(), Some(ver.to_owned()));
                },
                None => {},
            }
        },
        None => {},
    }
    if has_pnpm_lock {
        (String::from_str("pnpm"), None)
    } else if has_yarn_lock {
        (String::from_str("yarn"), None)
    } else {
        (String::from_str("npm"), None)
    }
}

/// Corepack standing: enabled when available and the manifest pins a
/// manager; available-but-unpinned otherwise; unknown when the probe
/// did not succeed.
pub open spec fn corepack_enabled_spec(probe: &CommandResult, manifest_has_pm: bool) -> Option<
    bool,
> {
    match probe {
        CommandResult::Success { .. } => Some(manifest_has_pm),
        _ => None,
    }
}

pub fn detect_corepack_enabled(probe: &CommandResult, manifest_has_pm: bool) -> (r: Option<bool>)
    ensures
        r == corepack_enabled_spec(probe, manifest_has_pm),
{
    match probe {
        CommandResult::Success { .. } => Some(manifest_has_pm),
        _ => None,
    }
}

} // verus!

verus! {

// ---------------------------------------------------------------------------
// The toolchain findings
// ---------------------------------------------------------------------------

/// Whether the runtime was found at all.
pub open spec fn node_accessible_finding(current: &CurrentEnvironment) -> FindingModel {
    if current.node_version@.len() == 0 {
        with_fix_model(
            msg_model(
                "Node.js accessible"@,
                "toolchain"@,
                CheckSeverity::Error,
                "Node.js not found in PATH"@,
            ),
            "Install Node.js or check your PATH"@,
        )
    } else {
        pass_model("Node.js accessible"@, "toolchain"@)
    }
}

/// Whether the package manager answered its version probe.
pub open spec fn pm_accessible_finding(pm: Seq<char>, probe: &CommandResult) -> FindingModel {
    match probe {
        CommandResult::Success { .. } => pass_model(pm + " accessible"@, "toolchain"@),
        CommandResult::Failed { .. } => with_fix_model(
            msg_model(
                pm + " accessible"@,
                "toolchain"@,
                CheckSeverity::Error,
                pm + " command failed"@,
            ),
            "Install "@ + pm + " or check your PATH"@,
        ),
        CommandResult::TimedOut => with_fix_model(
            msg_model(
                pm + " accessible"@,
                "toolchain"@,
                CheckSeverity::Error,
                pm + " command timed out - may be hanging or unresponsive"@,
            ),
            "Check if "@ + pm + " is working correctly"@,
        ),
        CommandResult::SpawnError(_) => with_fix_model(
            msg_model(
                pm + " accessible"@,
                "toolchain"@,
                CheckSeverity::Error,
                pm + " not found in PATH"@,
            ),
            "Install "@ + pm + " or check your PATH"@,
        ),
    }
}

/// Live runtime against the snapshot's.
pub open spec fn node_match_finding(
    current: &CurrentEnvironment,
    lock: &crate::lockfile::Toolchain,
) -> FindingModel {
    if current.node_version@ != lock.node@ {
        with_fix_model(
            msg_model(
                "Node version match"@,
                "toolchain"@,
                CheckSeverity::Error,
                "Expected "@ + lock.node@ + " but found "@ + current.node_version@,
            ),
            "nvm use "@ + lock.node@ + " or volta pin node@"@ + lock.node@,
        )
    } else {
        pass_model("Node version match"@, "toolchain"@)
    }
}

/// Live package manager against the snapshot's.
pub open spec fn pm_match_finding(
    current: &CurrentEnvironment,
    lock: &crate::lockfile::Toolchain,
) -> FindingModel {
    if current.package_manager@ != lock.package_manager@ {
        with_fix_model(
            msg_model(
                "Package manager match"@,
                "toolchain"@,
                CheckSeverity::Error,
                "Expected "@ + lock.package_manager@ + " but found "@ + current.package_manager@,
            ),
            "Use "@ + lock.package_manager@ + " instead"@,
        )
    } else {
        pass_model("Package manager match"@, "toolchain"@)
    }
}

/// Live package-manager version against the snapshot's.
pub open spec fn pm_version_finding(
    current: &CurrentEnvironment,
    lock: &crate::lockfile::Toolchain,
) -> FindingModel {
    if current.package_manager_version@ != lock.package_manager_version@ {
        msg_model(
            "Package manager version"@,
            "toolchain"@,
            CheckSeverity::Warning,
            "Expected "@ + lock.package_manager_version@ + " but found "@
                + current.package_manager_version@,
        )
    } else {
        pass_model("Package manager version"@, "toolchain"@)
    }
}

/// Corepack standing as a finding.
pub open spec fn corepack_finding(probe: &CommandResult, manifest_has_pm: bool) -> FindingModel {
    match probe {
        CommandResult::Success { .. } => if manifest_has_pm {
            pass_model("Corepack enabled"@, "toolchain"@)
        } else {
            with_fix_model(
                msg_model(
                    "Corepack available"@,
                    "toolchain"@,
                    CheckSeverity::Warning,
                    "Corepack is available but packageManager field not set"@,
                ),
                "Add \"packageManager\": \"<pm>@<version>\" to package.json"@,
            )
        },
        CommandResult::TimedOut => msg_model(
            "Corepack available"@,
            "toolchain"@,
            CheckSeverity::Warning,
            "Corepack command timed out - skipping corepack check"@,
        ),
        _ => with_fix_model(
            msg_model(
                "Corepack available"@,
                "toolchain"@,
                CheckSeverity::Warning,
                "Corepack is not available (comes with Node.js 14.19+)"@,
            ),
            "Upgrade to Node.js 14.19+ or run `npm install -g corepack`"@,
        ),
    }
}

/// Manifest runtime-range compliance: satisfied, violated, unparsable
/// version, or unrecognised constraint (an advisory, never a silent pass
/// or a hard error); nothing when the manifest declares no range.
pub open spec fn engines_finding(
    node_version: Seq<char>,
    engines_node: &Option<String>,
) -> Option<FindingModel> {
    match engines_node {
        Some(constraint) => match version::parse_version_lenient_spec(node_version) {
            Some(v) => match version::check_semver_constraint_spec(constraint@, v) {
                Some(true) => Some(pass_model("Engines compliance"@, "toolchain"@)),
                Some(false) => Some(
                    with_fix_model(
                        msg_model(
                            "Engines compliance"@,
                            "toolchain"@,
                            CheckSeverity::Error,
                            "Node "@ + node_version
                                + " does not satisfy engines.node constraint: "@ + constraint@,
                        ),
                        "Install a Node version matching "@ + constraint@,
                    ),
                ),
                None => Some(
                    msg_model(
                        "Engines compliance"@,
                        "toolchain"@,
                        CheckSeverity::Warning,
                        "Unrecognized constraint format '"@ + constraint@ + "', skipping check"@,
                    ),
                ),
            },
            None => Some(
                msg_model(
                    "Engines compliance"@,
                    "toolchain"@,
                    CheckSeverity::Warning,
                    "Cannot parse Node version '"@ + node_version
                        + "' for constraint checking"@,
                ),
            ),
        },
        None => None,
    }
}

/// Check if the package manager is accessible.
pub fn check_package_manager_accessible(pm: &str, probe: &CommandResult) -> (r: CheckResult)
    ensures
        finding_model(&r) =~= pm_accessible_finding(pm@, probe),
{
    let name = String::from_str(pm).concat(" accessible");
    match probe {
        CommandResult::Success { .. } => CheckResult::pass(name.as_str(), "toolchain"),
        CommandResult::Failed { .. } => CheckResult::error(
            name.as_str(),
            "toolchain",
            String::from_str(pm).concat(" command failed").as_str(),
        ).with_fix(
            String::from_str("Install ").concat(pm).concat(" or check your PATH").as_str(),
        ),
        CommandResult::TimedOut => CheckResult::error(
            name.as_str(),
            "toolchain",
            String::from_str(pm).concat(
                " command timed out - may be hanging or unresponsive",
            ).as_str(),
        ).with_fix(
            String::from_str("Check if ").concat(pm).concat(" is working correctly").as_str(),
        ),
        CommandResult::SpawnError(_) => CheckResult::error(
            name.as_str(),
            "toolchain",
            String::from_str(pm).concat(" not found in PATH").as_str(),
        ).with_fix(
            String::from_str("Install ").concat(pm).concat(" or check your PATH").as_str(),
        ),
    }
}

/// Check corepack's standing.
pub fn check_corepack_status(probe: &CommandResult, manifest_has_pm: bool) -> (r: CheckResult)
    ensures
        finding_model(&r) =~= corepack_finding(probe, manifest_has_pm),
{
    match probe {
        CommandResult::Success { .. } => {
            if manifest_has_pm {
                CheckResult::pass("Corepack enabled", "toolchain")
            } else {
                CheckResult::warning(
                    "Corepack available",
                    "toolchain",
                    "Corepack is available but packageManager field not set",
                ).with_fix("Add \"packageManager\": \"<pm>@<version>\" to package.json")
            }
        },
        CommandResult::TimedOut => CheckResult::warning(
            "Corepack available",
            "toolchain",
            "Corepack command timed out - skipping corepack check",
        ),
        _ => CheckResult::warning(
            "Corepack available",
            "toolchain",
            "Corepack is not available (comes with Node.js 14.19+)",
        ).with_fix("Upgrade to Node.js 14.19+ or run `npm install -g corepack`"),
    }
}

/// Check the live runtime against the manifest's engines range.
pub fn check_engines_compliance(
    current: &CurrentEnvironment,
    engines_node: &Option<String>,
) -> (r: Option<CheckResult>)
    ensures
        match r {
            Some(f) => engines_finding(current.node_version@, engines_node) == Some(finding_model(
                &f,
            )),
            None => engines_finding(current.node_version@, engines_node) is None,
        },
{
    let constraint = match engines_node {
        Some(c) => c,
        None => {
            return None;
        },
    };
    let current_version = match version::parse_version_lenient(current.node_version.as_str()) {
        Some(v) => v,
        None => {
            return Some(
                CheckResult::warning(
                    "Engines compliance",
                    "toolchain",
                    String::from_str("Cannot parse Node version '").concat(
                        current.node_version.as_str(),
                    ).concat("' for constraint checking").as_str(),
                ),
            );
        },
    };
    match version::check_semver_constraint(constraint.as_str(), &current_version) {
        Some(true) => Some(CheckResult::pass("Engines compliance", "toolchain")),
        Some(false) => Some(
            CheckResult::error(
                "Engines compliance",
                "toolchain",
                String::from_str("Node ").concat(current.node_version.as_str()).concat(
                    " does not satisfy engines.node constraint: ",
                ).concat(constraint.as_str()).as_str(),
            ).with_fix(
                String::from_str("Install a Node version matching ").concat(
                    constraint.as_str(),
                ).as_str(),
            ),
        ),
        None => Some(
            CheckResult::warning(
                "Engines compliance",
                "toolchain",
                String::from_str("Unrecognized constraint format '").concat(
                    constraint.as_str(),
                ).concat("', skipping check").as_str(),
            ),
        ),
    }
}

/// Every toolchain finding, in order: runtime accessibility, package
/// manager accessibility, the three snapshot comparisons when a snapshot
/// is present, corepack standing, and engines compliance when declared.
pub open spec fn toolchain_checks_spec(
    current: &CurrentEnvironment,
    env_lock: &Option<EnvLock>,
    pm_probe: &CommandResult,
    corepack_probe: &CommandResult,
    manifest_has_pm: bool,
    engines_node: &Option<String>,
) -> Seq<FindingModel> {
    let head = seq![
        node_accessible_finding(current),
        pm_accessible_finding(current.package_manager@, pm_probe),
    ];
    let compared = match env_lock {
        Some(lock) => head + seq![
            node_match_finding(current, &lock.toolchain),
            pm_match_finding(current, &lock.toolchain),
            pm_version_finding(current, &lock.toolchain),
        ],
        None => head,
    };
    let with_corepack = compared + seq![corepack_finding(corepack_probe, manifest_has_pm)];
    match engines_finding(current.node_version@, engines_node) {
        Some(f) => with_corepack + seq![f],
        None => with_corepack,
    }
}

/// Run the toolchain checks over the gathered facts.
pub fn run_checks(
    current: &CurrentEnvironment,
    env_lock: &Option<EnvLock>,
    pm_probe: &CommandResult,
    corepack_probe: &CommandResult,
    manifest_has_pm: bool,
    engines_node: &Option<String>,
) -> (r: Vec<CheckResult>)
    ensures
        finding_models(r@) =~~= toolchain_checks_spec(
            current,
            env_lock,
            pm_probe,
            corepack_probe,
            manifest_has_pm,
            engines_node,
        ),
{
    let mut results: Vec<CheckResult> = Vec::new();
    if current.node_version.as_str().unicode_len() == 0 {
        results.push(
            CheckResult::error("Node.js accessible", "toolchain", "Node.js not found in PATH")
                .with_fix("Install Node.js or check your PATH"),
        );
    } else {
        results.push(CheckResult::pass("Node.js accessible", "toolchain"));
    }
    results.push(check_package_manager_accessible(current.package_manager.as_str(), pm_probe));
    match env_lock {
        Some(lock) => {
            if !text::str_eq(current.node_version.as_str(), lock.toolchain.node.as_str()) {
                results.push(
                    CheckResult::error(
                        "Node version match",
                        "toolchain",
                        String::from_str("Expected ").concat(lock.toolchain.node.as_str()).concat(
                            " but found ",
                        ).concat(current.node_version.as_str()).as_str(),
                    ).with_fix(
                        String::from_str("nvm use ").concat(lock.toolchain.node.as_str()).concat(
                            " or volta pin node@",
                        ).concat(lock.toolchain.node.as_str()).as_str(),
                    ),
                );
            } else {
                results.push(CheckResult::pass("Node version match", "toolchain"));
            }
            if !text::str_eq(
                current.package_manager.as_str(),
                lock.toolchain.package_manager.as_str(),
            ) {
                results.push(
                    CheckResult::error(
                        "Package manager match",
                        "toolchain",
                        String::from_str("Expected ").concat(
                            lock.toolchain.package_manager.as_str(),
                        ).concat(" but found ").concat(current.package_manager.as_str()).as_str(),
                    ).with_fix(
                        String::from_str("Use ").concat(
                            lock.toolchain.package_manager.as_str(),
                        ).concat(" instead").as_str(),
                    ),
                );
            } else {
                results.push(CheckResult::pass("Package manager match", "toolchain"));
            }
            if !text::str_eq(
                current.package_manager_version.as_str(),
                lock.toolchain.package_manager_version.as_str(),
            ) {
                results.push(
                    CheckResult::warning(
                        "Package manager version",
                        "toolchain",
                        String::from_str("Expected ").concat(
                            lock.toolchain.package_manager_version.as_str(),
                        ).concat(" but found ").concat(
                            current.package_manager_version.as_str(),
                        ).as_str(),
                    ),
                );
            } else {
                results.push(CheckResult::pass("Package manager version", "toolchain"));
            }
        },
        None => {},
    }
    results.push(check_corepack_status(corepack_probe, manifest_has_pm));
    match check_engines_compliance(current, engines_node) {
        Some(f) => {
            results.push(f);
        },
        None => {},
    }
    results
}

} // verus!
