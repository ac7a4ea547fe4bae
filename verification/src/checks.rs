//! Findings: severity-classified check results, the manifest model, the
//! workspace detector and the configuration post-filter.

use vstd::prelude::*;
use crate::config::ZenvoConfig;
use crate::lockfile::EnvLock;
use crate::text;

pub mod toolchain;
pub mod lockfile_checks;
pub mod dependencies;
pub mod frameworks;

verus! {

use vstd::string::StrSliceExecFns;
use vstd::string::StringExecFns;

/// The check categories a run may be narrowed to.
#[derive(Debug, Clone, Copy, PartialEq, Eq, Structural)]
pub enum CheckCategory {
    /// Runtime and package-manager versions.
    Toolchain,
    /// Lockfile existence, integrity and sync.
    Lockfile,
    /// Installed tree, peer and phantom dependencies.
    Deps,
    /// Framework pairs, engines and caches.
    Frameworks,
}

/// How severe one finding is.
#[derive(Debug, Clone, Copy, PartialEq, Eq, Structural)]
pub enum CheckSeverity {
    Pass,
    Info,
    Warning,
    Error,
}

/// One check's outcome.  The name is a stable key: suppression, severity
/// overrides and repair-action lookup all go by it.
#[derive(Debug, Clone)]
pub struct CheckResult {
    pub name: String,
    pub category: String,
    pub severity: CheckSeverity,
    pub message: String,
    pub suggested_fix: Option<String>,
}

/// The mathematical model of a finding.
#[verifier::ext_equal]
pub ghost struct FindingModel {
    pub name: Seq<char>,
    pub category: Seq<char>,
    pub severity: CheckSeverity,
    pub message: Seq<char>,
    pub suggested_fix: Option<Seq<char>>,
}

pub open spec fn finding_model(c: &CheckResult) -> FindingModel {
    FindingModel {
        name: c.name@,
        category: c.category@,
        severity: c.severity,
        message: c.message@,
        suggested_fix: match c.suggested_fix {
            Some(f) => Some(f@),
            None => None,
        },
    }
}

/// The models of a list of findings.
pub open spec fn finding_models(s: Seq<CheckResult>) -> Seq<FindingModel> {
    s.map_values(|c: CheckResult| finding_model(&c))
}

/// A passing finding: empty message, no fix.
pub open spec fn pass_model(name: Seq<char>, category: Seq<char>) -> FindingModel {
    FindingModel {
        name: name,
        category: category,
        severity: CheckSeverity::Pass,
        message: Seq::empty(),
        suggested_fix: None,
    }
}

pub open spec fn msg_model(
    name: Seq<char>,
    category: Seq<char>,
    severity: CheckSeverity,
    message: Seq<char>,
) -> FindingModel {
    FindingModel { name, category, severity, message, suggested_fix: None }
}

pub open spec fn with_fix_model(f: FindingModel, fix: Seq<char>) -> FindingModel {
    FindingModel { suggested_fix: Some(fix), ..f }
}

impl CheckResult {
    /// A passing result.
    pub fn pass(name: &str, category: &str) -> (r: Self)
        ensures
            finding_model(&r) =~= pass_model(name@, category@),
    {
        Self {
            name: name.to_owned(),
            category: category.to_owned(),
            severity: CheckSeverity::Pass,
            message: String::new(),
            suggested_fix: None,
        }
    }

    /// An error-severity result.
    pub fn error(name: &str, category: &str, message: &str) -> (r: Self)
        ensures
            finding_model(&r) =~= msg_model(name@, category@, CheckSeverity::Error, message@),
    {
        Self {
            name: name.to_owned(),
            category: category.to_owned(),
            severity: CheckSeverity::Error,
            message: message.to_owned(),
            suggested_fix: None,
        }
    }

    /// A warning-severity result.
    pub fn warning(name: &str, category: &str, message: &str) -> (r: Self)
        ensures
            finding_model(&r) =~= msg_model(name@, category@, CheckSeverity::Warning, message@),
    {
        Self {
            name: name.to_owned(),
            category: category.to_owned(),
            severity: CheckSeverity::Warning,
            message: message.to_owned(),
            suggested_fix: None,
        }
    }

    /// An informational result.
    pub fn info(name: &str, category: &str, message: &str) -> (r: Self)
        ensures
            finding_model(&r) =~= msg_model(name@, category@, CheckSeverity::Info, message@),
    {
        Self {
            name: name.to_owned(),
            category: category.to_owned(),
            severity: CheckSeverity::Info,
            message: message.to_owned(),
            suggested_fix: None,
        }
    }

    /// The same finding carrying a suggested fix.
    pub fn with_fix(self, fix: &str) -> (r: Self)
        ensures
            finding_model(&r) =~= with_fix_model(finding_model(&self), fix@),
    {
        Self { suggested_fix: Some(fix.to_owned()), ..self }
    }
}

// ---------------------------------------------------------------------------
// The live environment and the manifest model
// ---------------------------------------------------------------------------

/// What the probe found in the live environment.
#[derive(Debug, Clone)]
pub struct CurrentEnvironment {
    pub node_version: String,
    pub package_manager: String,
    pub package_manager_version: String,
    pub lockfile_type: Option<String>,
    pub lockfile_hash: Option<String>,
}

/// The structured manifest: the keys the checks read, as plain values.
#[derive(Debug, Clone)]
pub struct Manifest {
    pub dependencies: Vec<(String, String)>,
    pub dev_dependencies: Vec<(String, String)>,
    pub peer_dependencies: Vec<(String, String)>,
    pub optional_dependencies: Vec<(String, String)>,
    pub engines_node: Option<String>,
    pub package_manager: Option<String>,
    pub workspaces: Vec<String>,
    pub has_eslint_config: bool,
    pub has_prettier_config: bool,
}

/// Whether the manifest could be read at all.
#[derive(Debug)]
pub enum PackageJsonStatus {
    /// Present and well-formed.
    Valid(Manifest),
    /// Present but not well-formed; the parse error's text.
    Invalid(String),
    /// Not present.
    Missing,
    /// Present but unreadable; the reason.
    Unreadable(String),
}

/// The first value listed under a name, in dependencies first and then
/// dev dependencies, with one leading `^` or `~` marker dropped.
pub open spec fn lookup_pairs(pairs: Seq<(String, String)>, name: Seq<char>) -> Option<Seq<char>>
    decreases pairs.len(),
{
    if pairs.len() == 0 {
        None
    } else if pairs.first().0@ == name {
        Some(pairs.first().1@)
    } else {
        lookup_pairs(pairs.drop_first(), name)
    }
}

pub open spec fn strip_range_marker(v: Seq<char>) -> Seq<char> {
    text::strip_prefix_all_spec(text::strip_prefix_all_spec(v, "^"@), "~"@)
}

pub open spec fn manifest_version_of(m: &Manifest, name: Seq<char>) -> Option<Seq<char>> {
    match lookup_pairs(m.dependencies@, name) {
        Some(v) => Some(strip_range_marker(v)),
        None => match lookup_pairs(m.dev_dependencies@, name) {
            Some(v) => Some(strip_range_marker(v)),
            None => None,
        },
    }
}

pub fn lookup_pairs_exec(pairs: &Vec<(String, String)>, name: &str) -> (r: Option<String>)
    ensures
        match r {
            Some(v) => lookup_pairs(pairs@, name@) == Some(v@),
            None => lookup_pairs(pairs@, name@) is None,
        },
{
    let n = pairs.len();
    assert(pairs@.skip(0) =~= pairs@);
    for i in 0..n
        invariant
            n == pairs@.len(),
            lookup_pairs(pairs@, name@) == lookup_pairs(pairs@.skip(i as int), name@),
    {
        assert(pairs@.skip(i as int).first() == pairs@[i as int]);
        assert(pairs@.skip(i as int).drop_first() =~= pairs@.skip(i + 1));
        if text::str_eq(pairs[i].0.as_str(), name) {
            return Some(pairs[i].1.clone());
        }
    }
    assert(pairs@.skip(n as int).len() == 0);
    None
}

impl Manifest {
    /// The declared version of a framework package, range markers dropped.
    pub fn version_of(&self, name: &str) -> (r: Option<String>)
        ensures
            match r {
                Some(v) => manifest_version_of(self, name@) == Some(v@),
                None => manifest_version_of(self, name@) is None,
            },
    {
        proof {
            reveal_strlit("^");
            reveal_strlit("~");
        }
        let raw = match lookup_pairs_exec(&self.dependencies, name) {
            Some(v) => v,
            None => match lookup_pairs_exec(&self.dev_dependencies, name) {
                Some(v) => v,
                None => {
                    return None;
                },
            },
        };
        let stripped = text::strip_prefix_all(text::strip_prefix_all(raw.as_str(), "^"), "~");
        Some(stripped.to_owned())
    }
}

} // verus!

verus! {

// ---------------------------------------------------------------------------
// Workspace detection
// ---------------------------------------------------------------------------

/// The monorepo layout kinds the engine recognises.
#[derive(Debug, Clone, PartialEq, Eq, Structural)]
pub enum WorkspaceType {
    NpmYarn,
    Pnpm,
    Nx,
    Turbo,
    Lerna,
}

pub open spec fn workspace_label_spec(t: WorkspaceType) -> Seq<char> {
    match t {
        WorkspaceType::NpmYarn => "npm/yarn workspaces"@,
        WorkspaceType::Pnpm => "pnpm workspaces"@,
        WorkspaceType::Nx => "Nx monorepo"@,
        WorkspaceType::Turbo => "Turborepo"@,
        WorkspaceType::Lerna => "Lerna"@,
    }
}

impl WorkspaceType {
    /// The layout's display name.
    pub fn label(&self) -> (r: &'static str)
        ensures
            r@ == workspace_label_spec(*self),
    {
        match self {
            WorkspaceType::NpmYarn => "npm/yarn workspaces",
            WorkspaceType::Pnpm => "pnpm workspaces",
            WorkspaceType::Nx => "Nx monorepo",
            WorkspaceType::Turbo => "Turborepo",
            WorkspaceType::Lerna => "Lerna",
        }
    }
}

/// A detected workspace layout and its member globs.
#[derive(Debug, Clone)]
pub struct WorkspaceInfo {
    pub workspace_type: WorkspaceType,
    pub packages: Vec<String>,
}

/// Workspace facts the caller gathered from dedicated files.
#[derive(Debug)]
pub struct WorkspaceFileFacts {
    /// Member globs of a dedicated workspace file, when one parsed.
    pub pnpm_workspace_packages: Option<Vec<String>>,
    pub has_nx_config: bool,
    pub has_turbo_config: bool,
    pub has_lerna_config: bool,
}

/// The detection precedence: manifest-embedded members, then the
/// dedicated workspace file, then monorepo tool configuration files.
pub open spec fn workspace_spec(
    manifest: &PackageJsonStatus,
    files: &WorkspaceFileFacts,
) -> Option<(WorkspaceType, Seq<String>)> {
    let by_manifest: Option<(WorkspaceType, Seq<String>)> = match manifest {
        PackageJsonStatus::Valid(m) => if m.workspaces@.len() > 0 {
            Some((WorkspaceType::NpmYarn, m.workspaces@))
        } else {
            None
        },
        _ => None,
    };
    match by_manifest {
        Some(w) => Some(w),
        None => {
            let by_file: Option<(WorkspaceType, Seq<String>)> = match &files
                .pnpm_workspace_packages {
                Some(pkgs) => if pkgs@.len() > 0 {
                    Some((WorkspaceType::Pnpm, pkgs@))
                } else {
                    None
                },
                None => None,
            };
            match by_file {
                Some(w) => Some(w),
                None => if files.has_nx_config {
                    Some((WorkspaceType::Nx, Seq::empty()))
                } else if files.has_turbo_config {
                    Some((WorkspaceType::Turbo, Seq::empty()))
                } else if files.has_lerna_config {
                    Some((WorkspaceType::Lerna, Seq::empty()))
                } else {
                    None
                },
            }
        },
    }
}

/// Detect a workspace or monorepo layout.
pub fn detect_workspace_root(manifest: &PackageJsonStatus, files: &WorkspaceFileFacts) -> (r:
    Option<WorkspaceInfo>)
    ensures
        match r {
            Some(w) => workspace_spec(manifest, files) == Some(
                (w.workspace_type, w.packages@),
            ),
            None => workspace_spec(manifest, files) is None,
        },
{
    match manifest {
        PackageJsonStatus::Valid(m) => {
            if m.workspaces.len() > 0 {
                return Some(
                    WorkspaceInfo {
                        workspace_type: WorkspaceType::NpmYarn,
                        packages: m.workspaces.clone(),
                    },
                );
            }
        },
        _ => {},
    }
    match &files.pnpm_workspace_packages {
        Some(pkgs) => {
            if pkgs.len() > 0 {
                return Some(
                    WorkspaceInfo { workspace_type: WorkspaceType::Pnpm, packages: pkgs.clone() },
                );
            }
        },
        None => {},
    }
    if files.has_nx_config {
        Some(WorkspaceInfo { workspace_type: WorkspaceType::Nx, packages: Vec::new() })
    } else if files.has_turbo_config {
        Some(WorkspaceInfo { workspace_type: WorkspaceType::Turbo, packages: Vec::new() })
    } else if files.has_lerna_config {
        Some(WorkspaceInfo { workspace_type: WorkspaceType::Lerna, packages: Vec::new() })
    } else {
        None
    }
}

} // verus!

verus! {

// ---------------------------------------------------------------------------
// The configuration post-filter and the whole run
// ---------------------------------------------------------------------------

/// Findings after the configuration filter: name-disabled ones dropped
/// (case-insensitively), then name-keyed severity overrides applied.
pub open spec fn apply_config_spec(
    results: Seq<FindingModel>,
    cfg: &ZenvoConfig,
) -> Seq<FindingModel>
    decreases results.len(),
{
    if results.len() == 0 {
        Seq::empty()
    } else {
        let rest = apply_config_spec(results.drop_last(), cfg);
        let f = results.last();
        if crate::config::check_disabled_spec(cfg.checks.disabled@, f.name) {
            rest
        } else {
            let adjusted = match crate::config::severity_override_spec(
                cfg.checks.severity_overrides@,
                f.name,
            ) {
                Some(sev) => FindingModel { severity: sev, ..f },
                None => f,
            };
            rest + seq![adjusted]
        }
    }
}

proof fn lemma_apply_config_take_succ(results: Seq<FindingModel>, cfg: &ZenvoConfig, i: int)
    requires
        0 <= i < results.len(),
    ensures
        apply_config_spec(results.take(i + 1), cfg) == apply_config_spec(results.take(i), cfg) + (
        if crate::config::check_disabled_spec(cfg.checks.disabled@, results[i].name) {
            Seq::<FindingModel>::empty()
        } else {
            seq![
                match crate::config::severity_override_spec(
                    cfg.checks.severity_overrides@,
                    results[i].name,
                ) {
                    Some(sev) => FindingModel { severity: sev, ..results[i] },
                    None => results[i],
                },
            ]
        }),
{
    assert(results.take(i + 1).drop_last() =~= results.take(i));
    assert(results.take(i + 1).last() == results[i]);
    if crate::config::check_disabled_spec(cfg.checks.disabled@, results[i].name) {
        assert(apply_config_spec(results.take(i + 1), cfg) =~~= apply_config_spec(
            results.take(i),
            cfg,
        ) + Seq::<FindingModel>::empty());
    }
}

/// Apply the configuration to a list of findings: drop disabled names,
/// override severities; checks themselves never see the configuration.
pub fn apply_config_to_results(results: Vec<CheckResult>, config: &ZenvoConfig) -> (r: Vec<
    CheckResult,
>)
    ensures
        finding_models(r@) =~~= apply_config_spec(finding_models(results@), config),
{
    let ghost models = finding_models(results@);
    let n = results.len();
    let mut out: Vec<CheckResult> = Vec::new();
    assert(models.take(0) =~= Seq::<FindingModel>::empty());
    assert(finding_models(out@) =~~= apply_config_spec(models.take(0), config));
    for i in 0..n
        invariant
            n == results@.len(),
            models == finding_models(results@),
            n == models.len(),
            finding_models(out@) =~~= apply_config_spec(models.take(i as int), config),
    {
        proof {
            lemma_apply_config_take_succ(models, config, i as int);
            assert(models[i as int] == finding_model(&results@[i as int]));
        }
        let ghost prev = finding_models(out@);
        if !config.is_check_disabled(results[i].name.as_str()) {
            let sev = match config.get_severity_override(results[i].name.as_str()) {
                Some(s) => s,
                None => results[i].severity,
            };
            let f = CheckResult {
                name: results[i].name.clone(),
                category: results[i].category.clone(),
                severity: sev,
                message: results[i].message.clone(),
                suggested_fix: match &results[i].suggested_fix {
                    Some(x) => Some(x.clone()),
                    None => None,
                },
            };
            let ghost fm = finding_model(&f);
            out.push(f);
            assert(finding_models(out@) =~~= prev + seq![fm]);
        }
        assert(finding_models(out@) =~~= apply_config_spec(models.take(i + 1), config));
    }
    assert(models.take(n as int) =~= models);
    out
}

// ---------------------------------------------------------------------------
// Project-level findings and the whole run
// ---------------------------------------------------------------------------

/// The manifest-readability outcome: each unreadable kind is a distinct
/// fatal finding, emitted before anything else runs.
pub open spec fn manifest_finding_spec(manifest: &PackageJsonStatus) -> FindingModel {
    match manifest {
        PackageJsonStatus::Missing => with_fix_model(
            msg_model(
                "package.json exists"@,
                "project"@,
                CheckSeverity::Error,
                "No package.json found in current directory"@,
            ),
            "Run `npm init` or `yarn init` to create package.json"@,
        ),
        PackageJsonStatus::Invalid(err) => with_fix_model(
            msg_model(
                "package.json valid"@,
                "project"@,
                CheckSeverity::Error,
                "package.json is invalid JSON: "@ + err@,
            ),
            "Fix the JSON syntax in package.json"@,
        ),
        PackageJsonStatus::Unreadable(err) => with_fix_model(
            msg_model(
                "package.json readable"@,
                "project"@,
                CheckSeverity::Error,
                "Cannot read package.json: "@ + err@,
            ),
            "Check file permissions: chmod 644 package.json"@,
        ),
        PackageJsonStatus::Valid(_) => pass_model("package.json valid"@, "project"@),
    }
}

/// The workspace advisory, when a layout was detected.
pub open spec fn workspace_finding_spec(
    manifest: &PackageJsonStatus,
    files: &WorkspaceFileFacts,
) -> Seq<FindingModel> {
    match workspace_spec(manifest, files) {
        Some(w) => seq![
            msg_model(
                "Workspace detected"@,
                "project"@,
                CheckSeverity::Info,
                "Running in "@ + workspace_label_spec(w.0) + " context"@ + (if w.1.len() == 0 {
                    Seq::<char>::empty()
                } else {
                    " ("@ + text::dec_spec(w.1.len()) + " packages)"@
                }),
            ),
        ],
        None => Seq::empty(),
    }
}

/// Everything the caller gathered about the project for one run.
#[derive(Debug)]
pub struct ProjectFacts {
    /// The manifest, or why it could not be read.
    pub manifest: PackageJsonStatus,
    /// Workspace facts from dedicated files.
    pub workspace_files: WorkspaceFileFacts,
    /// The live environment.
    pub current: CurrentEnvironment,
    /// The package manager's version probe.
    pub pm_probe: crate::utils::CommandResult,
    /// The corepack version probe.
    pub corepack_probe: crate::utils::CommandResult,
    /// Which managers' lockfiles are present.
    pub lockfiles_present: Vec<String>,
    /// The installed-tree facts.
    pub deps: crate::checks::dependencies::DepsFacts,
    /// The framework facts.
    pub frameworks: crate::checks::frameworks::FrameworkFacts,
}

pub open spec fn facts_engines_node(facts: &ProjectFacts) -> Option<String> {
    match facts.manifest {
        PackageJsonStatus::Valid(m) => m.engines_node,
        _ => None,
    }
}

pub open spec fn facts_manifest_has_pm(facts: &ProjectFacts) -> bool {
    match facts.manifest {
        PackageJsonStatus::Valid(m) => m.package_manager is Some,
        _ => false,
    }
}

/// Every finding of one run, in order: the manifest outcome, the
/// workspace advisory, then the four categories (each unless the run was
/// narrowed to another), with the configuration filter applied last.
pub open spec fn run_all_checks_spec(
    env_lock: &Option<EnvLock>,
    category: Option<CheckCategory>,
    config: &Option<ZenvoConfig>,
    facts: &ProjectFacts,
) -> Seq<FindingModel> {
    let head = seq![manifest_finding_spec(&facts.manifest)] + workspace_finding_spec(
        &facts.manifest,
        &facts.workspace_files,
    );
    let with_toolchain = if category is None || category == Some(CheckCategory::Toolchain) {
        head + crate::checks::toolchain::toolchain_checks_spec(
            &facts.current,
            env_lock,
            &facts.pm_probe,
            &facts.corepack_probe,
            facts_manifest_has_pm(facts),
            &facts_engines_node(facts),
        )
    } else {
        head
    };
    let with_lockfile = if category is None || category == Some(CheckCategory::Lockfile) {
        with_toolchain + crate::checks::lockfile_checks::lockfile_checks_spec(
            &facts.current,
            env_lock,
            facts.lockfiles_present@,
        )
    } else {
        with_toolchain
    };
    let m_ref: Option<&Manifest> = match &facts.manifest {
        PackageJsonStatus::Valid(m) => Some(m),
        _ => None,
    };
    let with_deps = if category is None || category == Some(CheckCategory::Deps) {
        with_lockfile + crate::checks::dependencies::deps_checks_spec(m_ref, &facts.deps)
    } else {
        with_lockfile
    };
    let all = if category is None || category == Some(CheckCategory::Frameworks) {
        with_deps + crate::checks::frameworks::framework_checks_spec(m_ref, &facts.frameworks)
    } else {
        with_deps
    };
    match config {
        Some(cfg) => apply_config_spec(all, cfg),
        None => all,
    }
}

} // verus!

verus! {

/// Run every check over the gathered facts, narrowed to one category
/// when asked, and apply the configuration as a pure post-filter.
#[verifier::rlimit(80)]
pub fn run_all_checks(
    env_lock: &Option<EnvLock>,
    category: Option<CheckCategory>,
    config: &Option<ZenvoConfig>,
    facts: &ProjectFacts,
) -> (r: Vec<CheckResult>)
    ensures
        finding_models(r@) =~~= run_all_checks_spec(env_lock, category, config, facts),
{
    let mut results: Vec<CheckResult> = Vec::new();
    match &facts.manifest {
        PackageJsonStatus::Missing => {
            results.push(
                CheckResult::error(
                    "package.json exists",
                    "project",
                    "No package.json found in current directory",
                ).with_fix("Run `npm init` or `yarn init` to create package.json"),
            );
        },
        PackageJsonStatus::Invalid(err) => {
            results.push(
                CheckResult::error(
                    "package.json valid",
                    "project",
                    String::from_str("package.json is invalid JSON: ").concat(
                        err.as_str(),
                    ).as_str(),
                ).with_fix("Fix the JSON syntax in package.json"),
            );
        },
        PackageJsonStatus::Unreadable(err) => {
            results.push(
                CheckResult::error(
                    "package.json readable",
                    "project",
                    String::from_str("Cannot read package.json: ").concat(err.as_str()).as_str(),
                ).with_fix("Check file permissions: chmod 644 package.json"),
            );
        },
        PackageJsonStatus::Valid(_) => {
            results.push(CheckResult::pass("package.json valid", "project"));
        },
    }
    match detect_workspace_root(&facts.manifest, &facts.workspace_files) {
        Some(workspace) => {
            let suffix: String = if workspace.packages.len() == 0 {
                String::new()
            } else {
                String::from_str(" (").concat(
                    text::u64_to_string(workspace.packages.len() as u64).as_str(),
                ).concat(" packages)")
            };
            let message = String::from_str("Running in ").concat(
                workspace.workspace_type.label(),
            ).concat(" context").concat(suffix.as_str());
            results.push(CheckResult::info("Workspace detected", "project", message.as_str()));
        },
        None => {},
    }
    let ghost head = finding_models(results@);
    assert(head =~~= seq![manifest_finding_spec(&facts.manifest)] + workspace_finding_spec(
        &facts.manifest,
        &facts.workspace_files,
    ));
    let manifest_has_pm: bool = match &facts.manifest {
        PackageJsonStatus::Valid(m) => m.package_manager.is_some(),
        _ => false,
    };
    let engines_node: Option<String> = match &facts.manifest {
        PackageJsonStatus::Valid(m) => match &m.engines_node {
            Some(e) => Some(e.clone()),
            None => None,
        },
        _ => None,
    };
    assert(match (engines_node, facts_engines_node(facts)) {
        (Some(a), Some(b)) => a@ == b@ && a == b,
        (None, None) => true,
        _ => false,
    });
    let run_toolchain = category.is_none() || category == Some(CheckCategory::Toolchain);
    let run_lockfile = category.is_none() || category == Some(CheckCategory::Lockfile);
    let run_deps = category.is_none() || category == Some(CheckCategory::Deps);
    let run_frameworks = category.is_none() || category == Some(CheckCategory::Frameworks);
    if run_toolchain {
        let ghost before = finding_models(results@);
        let mut part = crate::checks::toolchain::run_checks(
            &facts.current,
            env_lock,
            &facts.pm_probe,
            &facts.corepack_probe,
            manifest_has_pm,
            &engines_node,
        );
        let ghost pm = finding_models(part@);
        results.append(&mut part);
        assert(finding_models(results@) =~~= before + pm);
    }
    if run_lockfile {
        let ghost before = finding_models(results@);
        let mut part = crate::checks::lockfile_checks::run_checks(
            &facts.current,
            env_lock,
            &facts.lockfiles_present,
        );
        let ghost pm = finding_models(part@);
        results.append(&mut part);
        assert(finding_models(results@) =~~= before + pm);
    }
    let manifest_opt: Option<&Manifest> = match &facts.manifest {
        PackageJsonStatus::Valid(m) => Some(m),
        _ => None,
    };
    if run_deps {
        let ghost before = finding_models(results@);
        let mut part = crate::checks::dependencies::run_checks(manifest_opt, &facts.deps);
        let ghost pm = finding_models(part@);
        results.append(&mut part);
        assert(finding_models(results@) =~~= before + pm);
    }
    if run_frameworks {
        let ghost before = finding_models(results@);
        let mut part = crate::checks::frameworks::run_checks(manifest_opt, &facts.frameworks);
        let ghost pm = finding_models(part@);
        results.append(&mut part);
        assert(finding_models(results@) =~~= before + pm);
    }
    match config {
        Some(cfg) => apply_config_to_results(results, cfg),
        None => results,
    }
}

} // verus!

verus! {

/// What the live environment's facts compose to: the runtime version
/// from its probe (fatal when undetectable), the package manager from
/// manifest field or lockfiles, its version from the manifest field or
/// its own probe, and the lockfile facts as given.
pub open spec fn current_environment_spec(
    node_probe: &crate::utils::CommandResult,
    manifest_pm: &Option<String>,
    has_pnpm_lock: bool,
    has_yarn_lock: bool,
    pm_version_probe: &crate::utils::CommandResult,
    lockfile_type: &Option<String>,
    lockfile_hash: &Option<String>,
) -> Result<(Seq<char>, Seq<char>, Seq<char>), Seq<char>> {
    match crate::checks::toolchain::node_version_of_probe(node_probe) {
        Ok(node_version) => {
            let pm = crate::checks::toolchain::resolve_pm_spec(
                manifest_pm,
                has_pnpm_lock,
                has_yarn_lock,
            );
            match pm.1 {
                Some(v) => Ok((node_version, pm.0, v)),
                None => match crate::checks::toolchain::tool_version_of_probe(
                    pm.0,
                    pm_version_probe,
                ) {
                    Ok(v) => Ok((node_version, pm.0, v)),
                    Err(e) => Err(e),
                },
            }
        },
        Err(e) => Err(e),
    }
}

/// Compose the live environment from its probes.
pub fn detect_current_environment(
    node_probe: &crate::utils::CommandResult,
    manifest_pm: &Option<String>,
    has_pnpm_lock: bool,
    has_yarn_lock: bool,
    pm_version_probe: &crate::utils::CommandResult,
    lockfile_type: Option<String>,
    lockfile_hash: Option<String>,
) -> (r: Result<CurrentEnvironment, String>)
    ensures
        match r {
            Ok(env) => current_environment_spec(
                node_probe,
                manifest_pm,
                has_pnpm_lock,
                has_yarn_lock,
                pm_version_probe,
                &lockfile_type,
                &lockfile_hash,
            ) == Ok::<(Seq<char>, Seq<char>, Seq<char>), Seq<char>>(
                (env.node_version@, env.package_manager@, env.package_manager_version@),
            ) && env.lockfile_type == lockfile_type && env.lockfile_hash == lockfile_hash,
            Err(e) => current_environment_spec(
                node_probe,
                manifest_pm,
                has_pnpm_lock,
                has_yarn_lock,
                pm_version_probe,
                &lockfile_type,
                &lockfile_hash,
            ) == Err::<(Seq<char>, Seq<char>, Seq<char>), Seq<char>>(e@),
        },
{
    let node_version = match crate::checks::toolchain::detect_node_version(node_probe) {
        Ok(v) => v,
        Err(e) => {
            return Err(e);
        },
    };
    let (pm, pm_declared) = crate::checks::toolchain::resolve_package_manager(
        manifest_pm,
        has_pnpm_lock,
        has_yarn_lock,
    );
    let pm_version = match pm_declared {
        Some(v) => v,
        None => match crate::checks::toolchain::get_tool_version(pm.as_str(), pm_version_probe) {
            Ok(v) => v,
            Err(e) => {
                return Err(e);
            },
        },
    };
    Ok(
        CurrentEnvironment {
            node_version,
            package_manager: pm,
            package_manager_version: pm_version,
            lockfile_type,
            lockfile_hash,
        },
    )
}

} // verus!
