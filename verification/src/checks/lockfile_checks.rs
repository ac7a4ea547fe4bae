//! Lockfile checks: presence, content-hash match against the snapshot,
//! and the multiple-lockfile conflict.

use vstd::prelude::*;
use crate::checks::CheckResult;
use crate::checks::CheckSeverity;
use crate::checks::CurrentEnvironment;
use crate::checks::FindingModel;
use crate::checks::finding_models;
use crate::checks::msg_model;
use crate::checks::pass_model;
use crate::checks::with_fix_model;
use crate::lockfile::EnvLock;
use crate::text;

verus! {

use vstd::string::StrSliceExecFns;
use vstd::string::StringExecFns;

/// Whether the project has a lockfile at all.
pub open spec fn lockfile_presence_finding(current: &CurrentEnvironment) -> FindingModel {
    match current.lockfile_type {
        Some(_) => pass_model("Lockfile exists"@, "lockfile"@),
        None => with_fix_model(
            msg_model(
                "Lockfile exists"@,
                "lockfile"@,
                CheckSeverity::Error,
                "No lockfile found"@,
            ),
            "Generate one with your package manager's install command"@,
        ),
    }
}

/// The live lockfile hash against the snapshot's, when both are known.
pub open spec fn lockfile_hash_finding(
    current: &CurrentEnvironment,
    env_lock: &Option<EnvLock>,
) -> Option<FindingModel> {
    match env_lock {
        Some(lock) => match lock.lockfile {
            Some(info) => match current.lockfile_hash {
                Some(hash) => if hash@ == info.hash@ {
                    Some(pass_model("Lockfile hash match"@, "lockfile"@))
                } else {
                    Some(
                        with_fix_model(
                            msg_model(
                                "Lockfile hash match"@,
                                "lockfile"@,
                                CheckSeverity::Error,
                                "Lockfile content differs from the snapshot"@,
                            ),
                            "Run `zenvo lock` to update env.lock, or reinstall to restore the recorded lockfile"@,
                        ),
                    )
                },
                None => None,
            },
            None => None,
        },
        None => None,
    }
}

/// More than one manager's lockfile at once is a conflict needing manual
/// review; one or none is fine.
pub open spec fn single_lockfile_finding(lockfiles_present: Seq<String>) -> FindingModel {
    if lockfiles_present.len() > 1 {
        with_fix_model(
            msg_model(
                "Single lockfile"@,
                "lockfile"@,
                CheckSeverity::Warning,
                "Multiple lockfiles found: "@ + text::join_spec(
                    lockfiles_present.map_values(|t: String| t@),
                    ", "@,
                ),
            ),
            "Review and remove unused lockfile manually"@,
        )
    } else {
        pass_model("Single lockfile"@, "lockfile"@)
    }
}

/// Every lockfile finding, in order: presence, hash match when a snapshot
/// records one, the multiple-lockfile conflict.
pub open spec fn lockfile_checks_spec(
    current: &CurrentEnvironment,
    env_lock: &Option<EnvLock>,
    lockfiles_present: Seq<String>,
) -> Seq<FindingModel> {
    let head = seq![lockfile_presence_finding(current)];
    let hashed = match lockfile_hash_finding(current, env_lock) {
        Some(f) => head + seq![f],
        None => head,
    };
    hashed + seq![single_lockfile_finding(lockfiles_present)]
}

/// Run the lockfile checks over the gathered facts.
pub fn run_checks(
    current: &CurrentEnvironment,
    env_lock: &Option<EnvLock>,
    lockfiles_present: &Vec<String>,
) -> (r: Vec<CheckResult>)
    ensures
        finding_models(r@) =~~= lockfile_checks_spec(current, env_lock, lockfiles_present@),
{
    let mut results: Vec<CheckResult> = Vec::new();
    match &current.lockfile_type {
        Some(_) => {
            results.push(CheckResult::pass("Lockfile exists", "lockfile"));
        },
        None => {
            results.push(
                CheckResult::error("Lockfile exists", "lockfile", "No lockfile found").with_fix(
                    "Generate one with your package manager's install command",
                ),
            );
        },
    }
    match env_lock {
        Some(lock) => {
            match &lock.lockfile {
                Some(info) => {
                    match &current.lockfile_hash {
                        Some(hash) => {
                            if text::str_eq(hash.as_str(), info.hash.as_str()) {
                                results.push(CheckResult::pass("Lockfile hash match", "lockfile"));
                            } else {
                                results.push(
                                    CheckResult::error(
                                        "Lockfile hash match",
                                        "lockfile",
                                        "Lockfile content differs from the snapshot",
                                    ).with_fix(
                                        "Run `zenvo lock` to update env.lock, or reinstall to restore the recorded lockfile",
                                    ),
                                );
                            }
                        },
                        None => {},
                    }
                },
                None => {},
            }
        },
        None => {},
    }
    if lockfiles_present.len() > 1 {
        let joined = text::join_strings(lockfiles_present, ", ");
        results.push(
            CheckResult::warning(
                "Single lockfile",
                "lockfile",
                String::from_str("Multiple lockfiles found: ").concat(joined.as_str()).as_str(),
            ).with_fix("Review and remove unused lockfile manually"),
        );
    } else {
        results.push(CheckResult::pass("Single lockfile", "lockfile"));
    }
    results
}

} // verus!
