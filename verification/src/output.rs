//! Output shapes shared by every command: severity labels, environment
//! and diff summaries, plan summaries, and size formatting.

use vstd::prelude::*;
use crate::checks::CheckResult;
use crate::checks::CheckSeverity;
use crate::checks::CurrentEnvironment;
use crate::lockfile::EnvLock;
use crate::repair::RepairAction;
use crate::text;

verus! {

use vstd::string::StrSliceExecFns;
use vstd::string::StringExecFns;

/// How a command renders its result.
#[derive(Debug, Clone, Copy, PartialEq, Eq, Structural)]
pub enum OutputFormat {
    Text,
    Json,
}

impl Default for OutputFormat {
    fn default() -> (r: Self)
        ensures
            r == OutputFormat::Text,
    {
        OutputFormat::Text
    }
}

impl OutputFormat {
    /// `json` (in any ASCII case) selects machine output; all else text.
    pub fn from_str(s: &str) -> (r: Self)
        ensures
            r == (if text::eq_ignore_case_spec(s@, "json"@) {
                OutputFormat::Json
            } else {
                OutputFormat::Text
            }),
    {
        if text::eq_ignore_case(s, "json") {
            OutputFormat::Json
        } else {
            OutputFormat::Text
        }
    }
}

/// A finding's severity as its lower-case label.
pub open spec fn severity_label_spec(s: CheckSeverity) -> Seq<char> {
    match s {
        CheckSeverity::Pass => "pass"@,
        CheckSeverity::Info => "info"@,
        CheckSeverity::Warning => "warning"@,
        CheckSeverity::Error => "error"@,
    }
}

/// One finding shaped for machine output.
#[derive(Debug, Clone)]
pub struct Issue {
    pub name: String,
    pub category: String,
    pub severity: String,
    pub message: String,
    pub suggested_fix: Option<String>,
}

impl Issue {
    /// Shape one finding for machine output.
    pub fn from_result(result: &CheckResult) -> (r: Issue)
        ensures
            r.name@ == result.name@,
            r.category@ == result.category@,
            r.severity@ == severity_label_spec(result.severity),
            r.message@ == result.message@,
            match (r.suggested_fix, result.suggested_fix) {
                (Some(a), Some(b)) => a@ == b@,
                (None, None) => true,
                _ => false,
            },
    {
        let severity: String = match result.severity {
            CheckSeverity::Pass => String::from_str("pass"),
            CheckSeverity::Info => String::from_str("info"),
            CheckSeverity::Warning => String::from_str("warning"),
            CheckSeverity::Error => String::from_str("error"),
        };
        Issue {
            name: result.name.clone(),
            category: result.category.clone(),
            severity,
            message: result.message.clone(),
            suggested_fix: match &result.suggested_fix {
                Some(f) => Some(f.clone()),
                None => None,
            },
        }
    }
}

/// The live environment shaped for machine output.
#[derive(Debug, Clone)]
pub struct EnvironmentStatus {
    pub node_version: String,
    pub package_manager: String,
    pub package_manager_version: String,
    pub lockfile_type: Option<String>,
    pub lockfile_hash: Option<String>,
    pub has_env_lock: Option<bool>,
}

impl EnvironmentStatus {
    /// Shape the live environment for machine output.
    pub fn from_environment(env: &CurrentEnvironment) -> (r: EnvironmentStatus)
        ensures
            r.node_version@ == env.node_version@,
            r.package_manager@ == env.package_manager@,
            r.package_manager_version@ == env.package_manager_version@,
            r.lockfile_type == env.lockfile_type,
            r.lockfile_hash == env.lockfile_hash,
            r.has_env_lock is None,
    {
        EnvironmentStatus {
            node_version: env.node_version.clone(),
            package_manager: env.package_manager.clone(),
            package_manager_version: env.package_manager_version.clone(),
            lockfile_type: match &env.lockfile_type {
                Some(t) => Some(t.clone()),
                None => None,
            },
            lockfile_hash: match &env.lockfile_hash {
                Some(h) => Some(h.clone()),
                None => None,
            },
            has_env_lock: None,
        }
    }

    /// The same status, with whether a snapshot exists recorded.
    pub fn with_env_lock(self, has_lock: bool) -> (r: Self)
        ensures
            r.has_env_lock == Some(has_lock),
            r.node_version == self.node_version,
            r.package_manager == self.package_manager,
            r.package_manager_version == self.package_manager_version,
            r.lockfile_type == self.lockfile_type,
            r.lockfile_hash == self.lockfile_hash,
    {
        Self { has_env_lock: Some(has_lock), ..self }
    }
}

// ---------------------------------------------------------------------------
// Diff
// ---------------------------------------------------------------------------

/// One compared field of the snapshot diff.
#[derive(Debug, Clone)]
pub struct DiffItem {
    pub field: String,
    pub locked: String,
    pub current: String,
    pub matches: bool,
}

/// The whole snapshot diff.
#[derive(Debug, Clone)]
pub struct DiffOutput {
    pub items: Vec<DiffItem>,
    pub has_drift: bool,
}

#[verifier::ext_equal]
pub ghost struct DiffItemModel {
    pub field: Seq<char>,
    pub locked: Seq<char>,
    pub current: Seq<char>,
    pub matches: bool,
}

pub open spec fn diff_item_model(d: &DiffItem) -> DiffItemModel {
    DiffItemModel {
        field: d.field@,
        locked: d.locked@,
        current: d.current@,
        matches: d.matches,
    }
}

pub open spec fn diff_item_models(s: Seq<DiffItem>) -> Seq<DiffItemModel> {
    s.map_values(|d: DiffItem| diff_item_model(&d))
}

/// The first characters of a hash, as the diff abbreviates it.
pub open spec fn hash_abbrev_spec(h: Seq<char>) -> Seq<char> {
    if h.len() <= 12 {
        h
    } else {
        h.take(12)
    }
}

/// The diff rows: runtime, manager and manager version always, the
/// abbreviated lockfile hash when the snapshot records one.
pub open spec fn diff_items_spec(locked: &EnvLock, current: &CurrentEnvironment) -> Seq<
    DiffItemModel,
> {
    let head = seq![
        DiffItemModel {
            field: "Node.js"@,
            locked: locked.toolchain.node@,
            current: current.node_version@,
            matches: locked.toolchain.node@ == current.node_version@,
        },
        DiffItemModel {
            field: "Package Manager"@,
            locked: locked.toolchain.package_manager@,
            current: current.package_manager@,
            matches: locked.toolchain.package_manager@ == current.package_manager@,
        },
        DiffItemModel {
            field: "PM Version"@,
            locked: locked.toolchain.package_manager_version@,
            current: current.package_manager_version@,
            matches: locked.toolchain.package_manager_version@
                == current.package_manager_version@,
        },
    ];
    match locked.lockfile {
        Some(info) => {
            let cur_hash = match current.lockfile_hash {
                Some(h) => h@,
                None => "N/A"@,
            };
            head + seq![
                DiffItemModel {
                    field: "Lockfile Hash"@,
                    locked: hash_abbrev_spec(info.hash@),
                    current: hash_abbrev_spec(cur_hash),
                    matches: cur_hash == info.hash@,
                },
            ]
        },
        None => head,
    }
}

pub open spec fn any_drift(items: Seq<DiffItemModel>) -> bool {
    exists|i: int| 0 <= i < items.len() && !(#[trigger] items[i]).matches
}

fn hash_abbrev(h: &str) -> (r: String)
    ensures
        r@ == hash_abbrev_spec(h@),
{
    let len = h.unicode_len();
    if len <= 12 {
        h.to_owned()
    } else {
        let head = h.substring_char(0, 12);
        assert(head@ =~= h@.take(12));
        head.to_owned()
    }
}

/// Build the snapshot diff: each compared field with both values and
/// whether they match; drift is any row that does not.
pub fn build_diff(locked: &EnvLock, current: &CurrentEnvironment) -> (r: DiffOutput)
    ensures
        diff_item_models(r.items@) =~~= diff_items_spec(locked, current),
        r.has_drift == any_drift(diff_items_spec(locked, current)),
{
    let mut items: Vec<DiffItem> = Vec::new();
    let node_match = text::str_eq(current.node_version.as_str(), locked.toolchain.node.as_str());
    items.push(
        DiffItem {
            field: String::from_str("Node.js"),
            locked: locked.toolchain.node.clone(),
            current: current.node_version.clone(),
            matches: node_match,
        },
    );
    let pm_match = text::str_eq(
        current.package_manager.as_str(),
        locked.toolchain.package_manager.as_str(),
    );
    items.push(
        DiffItem {
            field: String::from_str("Package Manager"),
            locked: locked.toolchain.package_manager.clone(),
            current: current.package_manager.clone(),
            matches: pm_match,
        },
    );
    let pmv_match = text::str_eq(
        current.package_manager_version.as_str(),
        locked.toolchain.package_manager_version.as_str(),
    );
    items.push(
        DiffItem {
            field: String::from_str("PM Version"),
            locked: locked.toolchain.package_manager_version.clone(),
            current: current.package_manager_version.clone(),
            matches: pmv_match,
        },
    );
    match &locked.lockfile {
        Some(info) => {
            let cur_hash: String = match &current.lockfile_hash {
                Some(h) => h.clone(),
                None => String::from_str("N/A"),
            };
            let hash_match = text::str_eq(cur_hash.as_str(), info.hash.as_str());
            items.push(
                DiffItem {
                    field: String::from_str("Lockfile Hash"),
                    locked: hash_abbrev(info.hash.as_str()),
                    current: hash_abbrev(cur_hash.as_str()),
                    matches: hash_match,
                },
            );
        },
        None => {},
    }
    let ghost models = diff_items_spec(locked, current);
    assert(diff_item_models(items@) =~~= models);
    let n = items.len();
    let mut has_drift: bool = false;
    for i in 0..n
        invariant
            n == items@.len(),
            n == models.len(),
            diff_item_models(items@) =~~= models,
            has_drift == exists|j: int| 0 <= j < i && !(#[trigger] models[j]).matches,
    {
        assert(diff_item_model(&items@[i as int]) == models[i as int]);
        if !items[i].matches {
            has_drift = true;
        }
    }
    DiffOutput { items, has_drift }
}

// ---------------------------------------------------------------------------
// Plan and clean summaries
// ---------------------------------------------------------------------------

/// One action shaped for machine output.
#[derive(Debug, Clone)]
pub struct RepairActionJson {
    pub description: String,
    pub command: String,
    pub is_safe: bool,
}

/// A whole plan shaped for machine output, with its counts.
#[derive(Debug, Clone)]
pub struct RepairPlanOutput {
    pub actions: Vec<RepairActionJson>,
    pub total_issues: usize,
    pub safe_actions: usize,
    pub review_actions: usize,
}

pub open spec fn safe_count(actions: Seq<RepairAction>) -> int
    decreases actions.len(),
{
    if actions.len() == 0 {
        0
    } else {
        safe_count(actions.drop_last()) + if actions.last().is_safe {
            1int
        } else {
            0int
        }
    }
}

/// Shape a plan for machine output: each action copied, Safe and review
/// actions counted.
pub fn build_plan_output(plan: &Vec<RepairAction>, total_issues: usize) -> (r: RepairPlanOutput)
    ensures
        r.actions@.len() == plan@.len(),
        forall|i: int|
            0 <= i < plan@.len() ==> (#[trigger] r.actions@[i]).description@ == plan@[i].description@
                && r.actions@[i].command@ == plan@[i].command@ && r.actions@[i].is_safe
                == plan@[i].is_safe,
        r.total_issues == total_issues,
        r.safe_actions == safe_count(plan@),
        r.review_actions + r.safe_actions == plan@.len(),
{
    let n = plan.len();
    let mut actions: Vec<RepairActionJson> = Vec::new();
    let mut safe: usize = 0;
    proof {
        assert(plan@.take(0) =~= Seq::<RepairAction>::empty());
    }
    for i in 0..n
        invariant
            n == plan@.len(),
            actions@.len() == i,
            forall|j: int|
                0 <= j < i ==> (#[trigger] actions@[j]).description@ == plan@[j].description@
                    && actions@[j].command@ == plan@[j].command@ && actions@[j].is_safe
                    == plan@[j].is_safe,
            safe == safe_count(plan@.take(i as int)),
            safe <= i,
    {
        proof {
            assert(plan@.take(i + 1).drop_last() =~= plan@.take(i as int));
            assert(plan@.take(i + 1).last() == plan@[i as int]);
        }
        actions.push(
            RepairActionJson {
                description: plan[i].description.clone(),
                command: plan[i].command.clone(),
                is_safe: plan[i].is_safe,
            },
        );
        if plan[i].is_safe {
            safe = safe + 1;
        }
    }
    proof {
        assert(plan@.take(n as int) =~= plan@);
    }
    RepairPlanOutput {
        actions,
        total_issues,
        safe_actions: safe,
        review_actions: n - safe,
    }
}

/// One cleanable directory shaped for machine output.
#[derive(Debug, Clone)]
pub struct CleanTarget {
    pub path: String,
    pub size_bytes: u64,
    pub size_formatted: String,
    pub exists: bool,
}

/// A whole clean run shaped for machine output.
#[derive(Debug, Clone)]
pub struct CleanOutput {
    pub targets: Vec<CleanTarget>,
    pub total_size_bytes: u64,
    pub total_size_formatted: String,
    pub dry_run: bool,
}

/// Two decimal digits, zero-padded.
pub open spec fn two_digits_spec(f: nat) -> Seq<char> {
    if f < 10 {
        "0"@ + text::dec_spec(f)
    } else {
        text::dec_spec(f)
    }
}

/// A byte count written with its largest binary unit and two decimals
/// (rounded half up, carrying into the whole part), plain bytes below
/// one kibibyte.
pub open spec fn format_size_spec(bytes: u64) -> Seq<char> {
    let kb: int = 1024;
    let mb: int = 1048576;
    let gb: int = 1073741824;
    if bytes >= gb {
        scaled_spec(bytes as int, gb) + " GB"@
    } else if bytes >= mb {
        scaled_spec(bytes as int, mb) + " MB"@
    } else if bytes >= kb {
        scaled_spec(bytes as int, kb) + " KB"@
    } else {
        text::dec_spec(bytes as nat) + " B"@
    }
}

/// `bytes / unit` with two rounded decimals.
pub open spec fn scaled_spec(bytes: int, unit: int) -> Seq<char> {
    let whole = bytes / unit;
    let frac = ((bytes % unit) * 100 + unit / 2) / unit;
    if frac == 100 {
        text::dec_spec((whole + 1) as nat) + ".00"@
    } else {
        text::dec_spec(whole as nat) + "."@ + two_digits_spec(frac as nat)
    }
}

fn two_digits(f: u64) -> (r: String)
    requires
        f < 100,
    ensures
        r@ == two_digits_spec(f as nat),
{
    if f < 10 {
        String::from_str("0").concat(text::u64_to_string(f).as_str())
    } else {
        text::u64_to_string(f)
    }
}

fn scaled(bytes: u64, unit: u64) -> (r: String)
    requires
        1024 <= unit <= 1073741824,
    ensures
        r@ == scaled_spec(bytes as int, unit as int),
{
    let whole = bytes / unit;
    let frac = ((bytes % unit) * 100 + unit / 2) / unit;
    assert(frac <= 100) by (nonlinear_arith)
        requires
            frac as int == (((bytes as int) % (unit as int)) * 100 + (unit as int) / 2) / (
            unit as int),
            (unit as int) >= 1024,
            ((bytes as int) % (unit as int)) < (unit as int),
    {}
    assert(whole <= u64::MAX / 1024) by (nonlinear_arith)
        requires
            whole as int == (bytes as int) / (unit as int),
            (unit as int) >= 1024,
            bytes <= u64::MAX,
    {}
    if frac == 100 {
        text::u64_to_string(whole + 1).concat(".00")
    } else {
        text::u64_to_string(whole).concat(".").concat(two_digits(frac).as_str())
    }
}

/// Write a byte count with its binary unit, two decimals kept.
pub fn format_size(bytes: u64) -> (r: String)
    ensures
        r@ == format_size_spec(bytes),
{
    let gb: u64 = 1073741824;
    let mb: u64 = 1048576;
    let kb: u64 = 1024;
    if bytes >= gb {
        scaled(bytes, gb).concat(" GB")
    } else if bytes >= mb {
        scaled(bytes, mb).concat(" MB")
    } else if bytes >= kb {
        scaled(bytes, kb).concat(" KB")
    } else {
        text::u64_to_string(bytes).concat(" B")
    }
}

} // verus!
