//! Framework checks: cross-package version pairs, minimum-runtime
//! constraints read from installed packages' own engine declarations, and
//! expected config and cache artifacts.

use vstd::prelude::*;
use crate::checks::CheckResult;
use crate::checks::CheckSeverity;
use crate::checks::FindingModel;
use crate::checks::Manifest;
use crate::checks::finding_model;
use crate::checks::finding_models;
use crate::checks::manifest_version_of;
use crate::checks::msg_model;
use crate::checks::pass_model;
use crate::checks::with_fix_model;
use crate::text;
use crate::version;

verus! {

use vstd::string::StrSliceExecFns;
use vstd::string::StringExecFns;

/// What the caller gathered about frameworks and their artifacts.
#[derive(Debug)]
pub struct FrameworkFacts {
    /// The live runtime version, when it could be read.
    pub node_version: Option<String>,
    /// The engines constraint declared by the installed next package.
    pub next_engines_node: Option<String>,
    /// The engines constraint declared by the installed typescript
    /// package.
    pub typescript_engines_node: Option<String>,
    /// A compiler configuration file exists.
    pub has_tsconfig: bool,
    /// A linter configuration file exists.
    pub has_eslint_config_file: bool,
    /// A formatter configuration file exists.
    pub has_prettier_config_file: bool,
    /// The framework build cache's state.
    pub next_cache: NextCacheFacts,
    /// The existing build-cache directories and their entry counts
    /// (nothing when a directory could not be read).
    pub build_caches: Vec<CacheDirFacts>,
}

/// The framework build cache's observed state.
#[derive(Debug, Clone)]
pub struct NextCacheFacts {
    pub next_dir_present: bool,
    pub build_manifest: BuildManifestState,
    pub cache_dir_present: bool,
}

/// The state of the build manifest inside the framework cache.
#[derive(Debug, Clone, Copy, PartialEq, Eq, Structural)]
pub enum BuildManifestState {
    Absent,
    Valid,
    Corrupted,
    Unreadable,
}

/// One existing build-cache directory.
#[derive(Debug, Clone)]
pub struct CacheDirFacts {
    pub path: String,
    pub label: String,
    pub entry_count: Option<u64>,
}

// ---------------------------------------------------------------------------
// Package/runtime compatibility from installed engine declarations
// ---------------------------------------------------------------------------

/// The outcome on one installed package's own runtime requirement:
/// compatible when no constraint is declared or none can be read,
/// else the plain minimum test.
pub open spec fn package_node_compat_spec(
    package_name: Seq<char>,
    package_version: Seq<char>,
    node_version: Seq<char>,
    check_name: Seq<char>,
    engines_node: &Option<String>,
) -> FindingModel {
    match engines_node {
        Some(engines) => match version::min_version_of_constraint_spec(engines@) {
            Some(mm) => if version::node_meets_minimum_spec(node_version, mm.0, mm.1) {
                pass_model(check_name, "frameworks"@)
            } else {
                with_fix_model(
                    msg_model(
                        check_name,
                        "frameworks"@,
                        CheckSeverity::Error,
                        package_name + " "@ + package_version + " requires Node.js "@ + engines@
                            + ", but found "@ + node_version,
                    ),
                    "Upgrade Node.js to version "@ + text::dec_spec(mm.0 as nat) + "."@
                        + text::dec_spec(mm.1 as nat) + "+"@,
                )
            },
            None => pass_model(check_name, "frameworks"@),
        },
        None => pass_model(check_name, "frameworks"@),
    }
}

/// Check one package's installed engine constraint against the runtime.
pub fn check_package_node_compatibility(
    package_name: &str,
    package_version: &str,
    node_version: &str,
    check_name: &str,
    engines_node: &Option<String>,
) -> (r: CheckResult)
    ensures
        finding_model(&r) =~= package_node_compat_spec(
            package_name@,
            package_version@,
            node_version@,
            check_name@,
            engines_node,
        ),
{
    let engines = match engines_node {
        Some(e) => e,
        None => {
            return CheckResult::pass(check_name, "frameworks");
        },
    };
    let (min_major, min_minor) = match version::parse_min_version_from_constraint(
        engines.as_str(),
    ) {
        Some(v) => v,
        None => {
            return CheckResult::pass(check_name, "frameworks");
        },
    };
    if version::check_node_version_meets_minimum(node_version, min_major, min_minor) {
        CheckResult::pass(check_name, "frameworks")
    } else {
        CheckResult::error(
            check_name,
            "frameworks",
            String::from_str(package_name).concat(" ").concat(package_version).concat(
                " requires Node.js ",
            ).concat(engines.as_str()).concat(", but found ").concat(node_version).as_str(),
        ).with_fix(
            String::from_str("Upgrade Node.js to version ").concat(
                text::u64_to_string(min_major as u64).as_str(),
            ).concat(".").concat(text::u64_to_string(min_minor as u64).as_str()).concat(
                "+",
            ).as_str(),
        )
    }
}

// ---------------------------------------------------------------------------
// Cache artifact findings
// ---------------------------------------------------------------------------

/// The framework cache outcome: a valid, corrupted or unreadable build
/// record, or an incomplete cache; nothing when no cache exists yet.
pub open spec fn next_cache_findings_spec(nc: &NextCacheFacts) -> Seq<FindingModel> {
    if !nc.next_dir_present {
        Seq::empty()
    } else {
        match nc.build_manifest {
            BuildManifestState::Valid => seq![pass_model("Next.js cache valid"@, "frameworks"@)],
            BuildManifestState::Corrupted => seq![
                with_fix_model(
                    msg_model(
                        "Next.js cache corrupted"@,
                        "frameworks"@,
                        CheckSeverity::Warning,
                        "the build record is corrupted"@,
                    ),
                    "Run `rm -rf .next && npm run build` to rebuild"@,
                ),
            ],
            BuildManifestState::Unreadable => seq![
                with_fix_model(
                    msg_model(
                        "Next.js cache unreadable"@,
                        "frameworks"@,
                        CheckSeverity::Warning,
                        "Cannot read the build record"@,
                    ),
                    "Run `rm -rf .next && npm run build` to rebuild"@,
                ),
            ],
            BuildManifestState::Absent => if nc.cache_dir_present {
                seq![
                    with_fix_model(
                        msg_model(
                            "Next.js cache incomplete"@,
                            "frameworks"@,
                            CheckSeverity::Warning,
                            ".next cache exists but no build manifest found"@,
                        ),
                        "Run `npm run build` to complete the build"@,
                    ),
                ]
            } else {
                Seq::empty()
            },
        }
    }
}

/// Check the framework cache's integrity.
pub fn check_nextjs_cache(nc: &NextCacheFacts, results: &mut Vec<CheckResult>)
    ensures
        finding_models(final(results)@) =~~= finding_models(old(results)@)
            + next_cache_findings_spec(nc),
{
    let ghost before = finding_models(results@);
    if !nc.next_dir_present {
        assert(finding_models(results@) =~~= before + Seq::<FindingModel>::empty());
        return ;
    }
    match nc.build_manifest {
        BuildManifestState::Valid => {
            let f = CheckResult::pass("Next.js cache valid", "frameworks");
            let ghost fm = finding_model(&f);
            results.push(f);
            assert(finding_models(results@) =~~= before + seq![fm]);
        },
        BuildManifestState::Corrupted => {
            let f = CheckResult::warning(
                "Next.js cache corrupted",
                "frameworks",
                "the build record is corrupted",
            ).with_fix("Run `rm -rf .next && npm run build` to rebuild");
            let ghost fm = finding_model(&f);
            results.push(f);
            assert(finding_models(results@) =~~= before + seq![fm]);
        },
        BuildManifestState::Unreadable => {
            let f = CheckResult::warning(
                "Next.js cache unreadable",
                "frameworks",
                "Cannot read the build record",
            ).with_fix("Run `rm -rf .next && npm run build` to rebuild");
            let ghost fm = finding_model(&f);
            results.push(f);
            assert(finding_models(results@) =~~= before + seq![fm]);
        },
        BuildManifestState::Absent => {
            if nc.cache_dir_present {
                let f = CheckResult::warning(
                    "Next.js cache incomplete",
                    "frameworks",
                    ".next cache exists but no build manifest found",
                ).with_fix("Run `npm run build` to complete the build");
                let ghost fm = finding_model(&f);
                results.push(f);
                assert(finding_models(results@) =~~= before + seq![fm]);
            } else {
                assert(finding_models(results@) =~~= before + Seq::<FindingModel>::empty());
            }
        },
    }
}

/// One existing build-cache directory's outcome: empty and unreadable
/// caches degrade to advisories, a populated one passes.
pub open spec fn cache_dir_finding(c: &CacheDirFacts) -> FindingModel {
    match c.entry_count {
        Some(count) => if count == 0 {
            with_fix_model(
                msg_model(
                    c.label@ + " empty"@,
                    "frameworks"@,
                    CheckSeverity::Warning,
                    c.path@ + " directory exists but is empty"@,
                ),
                "Remove empty "@ + c.path@ + " or rebuild"@,
            )
        } else {
            pass_model(c.label@ + " exists"@, "frameworks"@)
        },
        None => with_fix_model(
            msg_model(
                c.label@ + " unreadable"@,
                "frameworks"@,
                CheckSeverity::Warning,
                "Cannot read "@ + c.path@ + " directory"@,
            ),
            "Check permissions on "@ + c.path@,
        ),
    }
}

pub open spec fn build_cache_findings_spec(caches: Seq<CacheDirFacts>) -> Seq<FindingModel>
    decreases caches.len(),
{
    if caches.len() == 0 {
        Seq::empty()
    } else {
        build_cache_findings_spec(caches.drop_last()) + seq![cache_dir_finding(&caches.last())]
    }
}

/// Check the integrity of the existing build caches.
pub fn check_build_cache_integrity(caches: &Vec<CacheDirFacts>, results: &mut Vec<CheckResult>)
    ensures
        finding_models(final(results)@) =~~= finding_models(old(results)@)
            + build_cache_findings_spec(caches@),
{
    let n = caches.len();
    let ghost before = finding_models(results@);
    assert(caches@.take(0) =~= Seq::<CacheDirFacts>::empty());
    assert(finding_models(results@) =~~= before + build_cache_findings_spec(caches@.take(0)));
    for i in 0..n
        invariant
            n == caches@.len(),
            finding_models(results@) =~~= finding_models(old(results)@)
                + build_cache_findings_spec(caches@.take(i as int)),
    {
        proof {
            assert(caches@.take(i + 1).drop_last() =~= caches@.take(i as int));
            assert(caches@.take(i + 1).last() == caches@[i as int]);
        }
        let ghost prev = finding_models(results@);
        let f: CheckResult = match &caches[i].entry_count {
            Some(count) => {
                if *count == 0 {
                    CheckResult::warning(
                        String::from_str(caches[i].label.as_str()).concat(" empty").as_str(),
                        "frameworks",
                        String::from_str(caches[i].path.as_str()).concat(
                            " directory exists but is empty",
                        ).as_str(),
                    ).with_fix(
                        String::from_str("Remove empty ").concat(caches[i].path.as_str()).concat(
                            " or rebuild",
                        ).as_str(),
                    )
                } else {
                    CheckResult::pass(
                        String::from_str(caches[i].label.as_str()).concat(" exists").as_str(),
                        "frameworks",
                    )
                }
            },
            None => CheckResult::warning(
                String::from_str(caches[i].label.as_str()).concat(" unreadable").as_str(),
                "frameworks",
                String::from_str("Cannot read ").concat(caches[i].path.as_str()).concat(
                    " directory",
                ).as_str(),
            ).with_fix(
                String::from_str("Check permissions on ").concat(caches[i].path.as_str()).as_str(),
            ),
        };
        let ghost fm = finding_model(&f);
        assert(fm =~= cache_dir_finding(&caches@[i as int]));
        results.push(f);
        assert(finding_models(results@) =~~= prev + seq![fm]);
    }
    assert(caches@.take(n as int) =~= caches@);
}

} // verus!

verus! {

// ---------------------------------------------------------------------------
// The assembled framework run
// ---------------------------------------------------------------------------

/// The pair check: both framework halves must share a major version.
pub open spec fn react_pair_findings(m: &Manifest) -> Seq<FindingModel> {
    match (manifest_version_of(m, "react"@), manifest_version_of(m, "react-dom"@)) {
        (Some(react), Some(react_dom)) => {
            if version::before_char_spec(react, '.') != version::before_char_spec(
                react_dom,
                '.',
            ) {
                seq![
                    with_fix_model(
                        msg_model(
                            "React/ReactDOM match"@,
                            "frameworks"@,
                            CheckSeverity::Error,
                            "react@"@ + react + " and react-dom@"@ + react_dom
                                + " major versions don't match"@,
                        ),
                        "Ensure react and react-dom have the same major version"@,
                    ),
                ]
            } else {
                seq![pass_model("React/ReactDOM match"@, "frameworks"@)]
            }
        },
        _ => Seq::empty(),
    }
}

/// The runtime-compatibility findings for one framework package, when the
/// manifest declares it.
pub open spec fn next_findings(m: &Manifest, facts: &FrameworkFacts) -> Seq<FindingModel> {
    match manifest_version_of(m, "next"@) {
        Some(nv) => {
            let compat: Seq<FindingModel> = match facts.node_version {
                Some(nodev) => seq![
                    package_node_compat_spec(
                        "next"@,
                        nv,
                        nodev@,
                        "Next.js/Node compatibility"@,
                        &facts.next_engines_node,
                    ),
                ],
                None => seq![
                    msg_model(
                        "Next.js/Node compatibility"@,
                        "frameworks"@,
                        CheckSeverity::Warning,
                        "Could not detect Node.js version to verify Next.js compatibility"@,
                    ),
                ],
            };
            compat + next_cache_findings_spec(&facts.next_cache)
        },
        None => Seq::empty(),
    }
}

pub open spec fn typescript_findings(m: &Manifest, facts: &FrameworkFacts) -> Seq<FindingModel> {
    match manifest_version_of(m, "typescript"@) {
        Some(tv) => {
            let config: Seq<FindingModel> = if !facts.has_tsconfig {
                seq![
                    with_fix_model(
                        msg_model(
                            "TypeScript config"@,
                            "frameworks"@,
                            CheckSeverity::Warning,
                            "TypeScript is installed but tsconfig.json not found"@,
                        ),
                        "Run `npx tsc --init` to create tsconfig.json"@,
                    ),
                ]
            } else {
                seq![pass_model("TypeScript config"@, "frameworks"@)]
            };
            match facts.node_version {
                Some(nodev) => config + seq![
                    package_node_compat_spec(
                        "typescript"@,
                        tv,
                        nodev@,
                        "TypeScript/Node compatibility"@,
                        &facts.typescript_engines_node,
                    ),
                ],
                None => config,
            }
        },
        None => Seq::empty(),
    }
}

pub open spec fn eslint_findings(m: &Manifest, facts: &FrameworkFacts) -> Seq<FindingModel> {
    match manifest_version_of(m, "eslint"@) {
        Some(_) => if !facts.has_eslint_config_file && !m.has_eslint_config {
            seq![
                with_fix_model(
                    msg_model(
                        "ESLint config"@,
                        "frameworks"@,
                        CheckSeverity::Warning,
                        "ESLint is installed but no config found"@,
                    ),
                    "Run `npx eslint --init` to create config"@,
                ),
            ]
        } else {
            seq![pass_model("ESLint config"@, "frameworks"@)]
        },
        None => Seq::empty(),
    }
}

pub open spec fn prettier_findings(m: &Manifest, facts: &FrameworkFacts) -> Seq<FindingModel> {
    match manifest_version_of(m, "prettier"@) {
        Some(_) => if !facts.has_prettier_config_file && !m.has_prettier_config {
            seq![
                with_fix_model(
                    msg_model(
                        "Prettier config"@,
                        "frameworks"@,
                        CheckSeverity::Warning,
                        "Prettier is installed but no config found"@,
                    ),
                    "Create a .prettierrc file with your formatting preferences"@,
                ),
            ]
        } else {
            seq![pass_model("Prettier config"@, "frameworks"@)]
        },
        None => Seq::empty(),
    }
}

/// Every framework finding, in order: the version pair, the framework
/// runtime compatibilities and cache, the compiler and linter and
/// formatter configs, the build caches; nothing without a readable
/// manifest.
pub open spec fn framework_checks_spec(
    m: Option<&Manifest>,
    facts: &FrameworkFacts,
) -> Seq<FindingModel> {
    match m {
        Some(mm) => react_pair_findings(mm) + next_findings(mm, facts) + typescript_findings(
            mm,
            facts,
        ) + eslint_findings(mm, facts) + prettier_findings(mm, facts) + build_cache_findings_spec(
            facts.build_caches@,
        ),
        None => Seq::empty(),
    }
}

fn push_react_pair(m: &Manifest, results: &mut Vec<CheckResult>)
    ensures
        finding_models(final(results)@) =~~= finding_models(old(results)@) + react_pair_findings(
            m,
        ),
{
    let ghost before = finding_models(results@);
    match (m.version_of("react"), m.version_of("react-dom")) {
        (Some(react), Some(react_dom)) => {
            let react_major = version::before_char(react.as_str(), '.');
            let dom_major = version::before_char(react_dom.as_str(), '.');
            let f: CheckResult = if !text::str_eq(react_major, dom_major) {
                CheckResult::error(
                    "React/ReactDOM match",
                    "frameworks",
                    String::from_str("react@").concat(react.as_str()).concat(
                        " and react-dom@",
                    ).concat(react_dom.as_str()).concat(" major versions don't match").as_str(),
                ).with_fix("Ensure react and react-dom have the same major version")
            } else {
                CheckResult::pass("React/ReactDOM match", "frameworks")
            };
            let ghost fm = finding_model(&f);
            results.push(f);
            assert(finding_models(results@) =~~= before + seq![fm]);
        },
        _ => {
            assert(finding_models(results@) =~~= before + Seq::<FindingModel>::empty());
        },
    }
}

fn push_next(m: &Manifest, facts: &FrameworkFacts, results: &mut Vec<CheckResult>)
    ensures
        finding_models(final(results)@) =~~= finding_models(old(results)@) + next_findings(
            m,
            facts,
        ),
{
    let ghost before = finding_models(results@);
    match m.version_of("next") {
        Some(next_version) => {
            let f: CheckResult = match &facts.node_version {
                Some(nodev) => check_package_node_compatibility(
                    "next",
                    next_version.as_str(),
                    nodev.as_str(),
                    "Next.js/Node compatibility",
                    &facts.next_engines_node,
                ),
                None => CheckResult::warning(
                    "Next.js/Node compatibility",
                    "frameworks",
                    "Could not detect Node.js version to verify Next.js compatibility",
                ),
            };
            let ghost fm = finding_model(&f);
            results.push(f);
            assert(finding_models(results@) =~~= before + seq![fm]);
            check_nextjs_cache(&facts.next_cache, results);
        },
        None => {
            assert(finding_models(results@) =~~= before + Seq::<FindingModel>::empty());
        },
    }
}

fn push_typescript(m: &Manifest, facts: &FrameworkFacts, results: &mut Vec<CheckResult>)
    ensures
        finding_models(final(results)@) =~~= finding_models(old(results)@) + typescript_findings(
            m,
            facts,
        ),
{
    let ghost before = finding_models(results@);
    match m.version_of("typescript") {
        Some(ts_version) => {
            let f: CheckResult = if !facts.has_tsconfig {
                CheckResult::warning(
                    "TypeScript config",
                    "frameworks",
                    "TypeScript is installed but tsconfig.json not found",
                ).with_fix("Run `npx tsc --init` to create tsconfig.json")
            } else {
                CheckResult::pass("TypeScript config", "frameworks")
            };
            let ghost fm = finding_model(&f);
            results.push(f);
            assert(finding_models(results@) =~~= before + seq![fm]);
            match &facts.node_version {
                Some(nodev) => {
                    let g = check_package_node_compatibility(
                        "typescript",
                        ts_version.as_str(),
                        nodev.as_str(),
                        "TypeScript/Node compatibility",
                        &facts.typescript_engines_node,
                    );
                    let ghost gm = finding_model(&g);
                    results.push(g);
                    assert(finding_models(results@) =~~= before + seq![fm] + seq![gm]);
                    assert(finding_models(results@) =~~= before + typescript_findings(m, facts));
                },
                None => {},
            }
        },
        None => {
            assert(finding_models(results@) =~~= before + Seq::<FindingModel>::empty());
        },
    }
}

fn push_eslint(m: &Manifest, facts: &FrameworkFacts, results: &mut Vec<CheckResult>)
    ensures
        finding_models(final(results)@) =~~= finding_models(old(results)@) + eslint_findings(
            m,
            facts,
        ),
{
    let ghost before = finding_models(results@);
    match m.version_of("eslint") {
        Some(_) => {
            let f: CheckResult = if !facts.has_eslint_config_file && !m.has_eslint_config {
                CheckResult::warning(
                    "ESLint config",
                    "frameworks",
                    "ESLint is installed but no config found",
                ).with_fix("Run `npx eslint --init` to create config")
            } else {
                CheckResult::pass("ESLint config", "frameworks")
            };
            let ghost fm = finding_model(&f);
            results.push(f);
            assert(finding_models(results@) =~~= before + seq![fm]);
        },
        None => {
            assert(finding_models(results@) =~~= before + Seq::<FindingModel>::empty());
        },
    }
}

fn push_prettier(m: &Manifest, facts: &FrameworkFacts, results: &mut Vec<CheckResult>)
    ensures
        finding_models(final(results)@) =~~= finding_models(old(results)@) + prettier_findings(
            m,
            facts,
        ),
{
    let ghost before = finding_models(results@);
    match m.version_of("prettier") {
        Some(_) => {
            let f: CheckResult = if !facts.has_prettier_config_file && !m.has_prettier_config {
                CheckResult::warning(
                    "Prettier config",
                    "frameworks",
                    "Prettier is installed but no config found",
                ).with_fix("Create a .prettierrc file with your formatting preferences")
            } else {
                CheckResult::pass("Prettier config", "frameworks")
            };
            let ghost fm = finding_model(&f);
            results.push(f);
            assert(finding_models(results@) =~~= before + seq![fm]);
        },
        None => {
            assert(finding_models(results@) =~~= before + Seq::<FindingModel>::empty());
        },
    }
}

/// Run the framework checks over the gathered facts.
pub fn run_checks(m: Option<&Manifest>, facts: &FrameworkFacts) -> (r: Vec<CheckResult>)
    ensures
        finding_models(r@) =~~= framework_checks_spec(m, facts),
{
    let mut results: Vec<CheckResult> = Vec::new();
    let mm = match m {
        Some(mm) => mm,
        None => {
            return results;
        },
    };
    push_react_pair(mm, &mut results);
    push_next(mm, facts, &mut results);
    push_typescript(mm, facts, &mut results);
    push_eslint(mm, facts, &mut results);
    push_prettier(mm, facts, &mut results);
    check_build_cache_integrity(&facts.build_caches, &mut results);
    results
}

} // verus!
