//! Engine configuration: policies, check suppression and severity
//! overrides, framework toggles.  Applied as a pure post-filter over
//! findings; checks never see it.

use vstd::prelude::*;
use crate::checks::CheckSeverity;
use crate::text;
use crate::version;

verus! {

/// Default configuration file name.
pub const CONFIG_FILE: &'static str = ".env.doctor.toml";

/// Policy settings controlling engine behaviour.
#[derive(Debug, Clone)]
pub struct Policies {
    pub allow_node_upgrade_minor: bool,
    pub allow_node_upgrade_major: bool,
    pub require_lockfile_frozen: bool,
    pub enforce_corepack: bool,
    pub allowed_package_managers: Vec<String>,
    pub min_node_version: Option<String>,
    pub max_node_version: Option<String>,
}

impl Default for Policies {
    /// Minor runtime upgrades allowed, major ones not; lockfile frozen.
    fn default() -> (r: Self)
        ensures
            r.allow_node_upgrade_minor == true,
            r.allow_node_upgrade_major == false,
            r.require_lockfile_frozen == true,
            r.enforce_corepack == false,
            r.allowed_package_managers@.len() == 0,
            r.min_node_version is None,
            r.max_node_version is None,
    {
        Policies {
            allow_node_upgrade_minor: true,
            allow_node_upgrade_major: false,
            require_lockfile_frozen: true,
            enforce_corepack: false,
            allowed_package_managers: Vec::new(),
            min_node_version: None,
            max_node_version: None,
        }
    }
}

/// A configured severity override value.
#[derive(Debug, Clone, Copy, PartialEq, Eq, Structural)]
pub enum SeverityOverride {
    Pass,
    Info,
    Warning,
    Error,
}

pub open spec fn override_severity(o: SeverityOverride) -> CheckSeverity {
    match o {
        SeverityOverride::Pass => CheckSeverity::Pass,
        SeverityOverride::Info => CheckSeverity::Info,
        SeverityOverride::Warning => CheckSeverity::Warning,
        SeverityOverride::Error => CheckSeverity::Error,
    }
}

impl SeverityOverride {
    /// The severity this override assigns.
    pub fn as_severity(&self) -> (r: CheckSeverity)
        ensures
            r == override_severity(*self),
    {
        match self {
            SeverityOverride::Pass => CheckSeverity::Pass,
            SeverityOverride::Info => CheckSeverity::Info,
            SeverityOverride::Warning => CheckSeverity::Warning,
            SeverityOverride::Error => CheckSeverity::Error,
        }
    }
}

/// Check configuration: suppressed names and per-name severity overrides.
#[derive(Debug, Clone)]
pub struct ChecksConfig {
    pub disabled: Vec<String>,
    pub severity_overrides: Vec<(String, SeverityOverride)>,
    pub timeout_seconds: Option<u64>,
}

impl Default for ChecksConfig {
    fn default() -> (r: Self)
        ensures
            r.disabled@.len() == 0,
            r.severity_overrides@.len() == 0,
            r.timeout_seconds is None,
    {
        ChecksConfig { disabled: Vec::new(), severity_overrides: Vec::new(), timeout_seconds: None }
    }
}

#[derive(Debug, Clone)]
pub struct NextjsConfig {
    pub required_version: Option<String>,
    pub check_cache_integrity: bool,
}

impl Default for NextjsConfig {
    fn default() -> (r: Self)
        ensures
            r.required_version is None,
            r.check_cache_integrity == true,
    {
        NextjsConfig { required_version: None, check_cache_integrity: true }
    }
}

#[derive(Debug, Clone)]
pub struct ReactConfig {
    pub enforce_version_match: bool,
}

impl Default for ReactConfig {
    fn default() -> (r: Self)
        ensures
            r.enforce_version_match == true,
    {
        ReactConfig { enforce_version_match: true }
    }
}

#[derive(Debug, Clone)]
pub struct TypeScriptConfig {
    pub require_tsconfig: bool,
    pub enforce_strict: bool,
}

impl Default for TypeScriptConfig {
    fn default() -> (r: Self)
        ensures
            r.require_tsconfig == true,
            r.enforce_strict == false,
    {
        TypeScriptConfig { require_tsconfig: true, enforce_strict: false }
    }
}

/// Framework-specific settings.
#[derive(Debug, Clone)]
pub struct FrameworksConfig {
    pub nextjs: NextjsConfig,
    pub react: ReactConfig,
    pub typescript: TypeScriptConfig,
}

impl Default for FrameworksConfig {
    fn default() -> (r: Self)
        ensures
            r.nextjs.required_version is None,
            r.nextjs.check_cache_integrity == true,
            r.react.enforce_version_match == true,
            r.typescript.require_tsconfig == true,
            r.typescript.enforce_strict == false,
    {
        FrameworksConfig {
            nextjs: NextjsConfig::default(),
            react: ReactConfig::default(),
            typescript: TypeScriptConfig::default(),
        }
    }
}

/// Documented boolean defaults.
pub fn default_true() -> (r: bool)
    ensures
        r == true,
{
    true
}

/// What the configuration command was asked to do.
#[derive(Debug, Clone, PartialEq, Eq, Structural)]
pub enum ConfigAction {
    /// Write a fresh default configuration file.
    Init { force: bool },
    /// Check the existing configuration file.
    Validate,
}

/// The engine's configuration.
#[derive(Debug, Clone)]
pub struct ZenvoConfig {
    pub policies: Policies,
    pub checks: ChecksConfig,
    pub frameworks: FrameworksConfig,
}

impl Default for ZenvoConfig {
    fn default() -> (r: Self)
        ensures
            r.policies.allow_node_upgrade_minor == true,
            r.policies.allow_node_upgrade_major == false,
            r.policies.require_lockfile_frozen == true,
            r.policies.enforce_corepack == false,
            r.policies.allowed_package_managers@.len() == 0,
            r.policies.min_node_version is None,
            r.policies.max_node_version is None,
            r.checks.disabled@.len() == 0,
            r.checks.severity_overrides@.len() == 0,
            r.checks.timeout_seconds is None,
            r.frameworks.nextjs.required_version is None,
            r.frameworks.nextjs.check_cache_integrity == true,
            r.frameworks.react.enforce_version_match == true,
            r.frameworks.typescript.require_tsconfig == true,
            r.frameworks.typescript.enforce_strict == false,
    {
        ZenvoConfig {
            policies: Policies::default(),
            checks: ChecksConfig::default(),
            frameworks: FrameworksConfig::default(),
        }
    }
}

/// A name is suppressed when some disabled entry equals it, ASCII case
/// ignored.
pub open spec fn check_disabled_spec(disabled: Seq<String>, name: Seq<char>) -> bool {
    exists|i: int|
        0 <= i < disabled.len() && text::eq_ignore_case_spec(#[trigger] disabled[i]@, name)
}

/// The first override whose key equals this name, ASCII case ignored.
pub open spec fn severity_override_spec(
    overrides: Seq<(String, SeverityOverride)>,
    name: Seq<char>,
) -> Option<CheckSeverity>
    decreases overrides.len(),
{
    if overrides.len() == 0 {
        None
    } else if text::eq_ignore_case_spec(overrides.first().0@, name) {
        Some(override_severity(overrides.first().1))
    } else {
        severity_override_spec(overrides.drop_first(), name)
    }
}

impl ZenvoConfig {
    /// Is this check's name suppressed (case-insensitively)?
    pub fn is_check_disabled(&self, check_name: &str) -> (r: bool)
        ensures
            r == check_disabled_spec(self.checks.disabled@, check_name@),
    {
        let n = self.checks.disabled.len();
        for i in 0..n
            invariant
                n == self.checks.disabled@.len(),
                forall|j: int|
                    0 <= j < i ==> !text::eq_ignore_case_spec(
                        #[trigger] self.checks.disabled@[j]@,
                        check_name@,
                    ),
        {
            if text::eq_ignore_case(self.checks.disabled[i].as_str(), check_name) {
                return true;
            }
        }
        false
    }

    /// The configured severity for this name, if any.
    pub fn get_severity_override(&self, check_name: &str) -> (r: Option<CheckSeverity>)
        ensures
            r == severity_override_spec(self.checks.severity_overrides@, check_name@),
    {
        let n = self.checks.severity_overrides.len();
        assert(self.checks.severity_overrides@.skip(0) =~= self.checks.severity_overrides@);
        for i in 0..n
            invariant
                n == self.checks.severity_overrides@.len(),
                severity_override_spec(self.checks.severity_overrides@, check_name@)
                    == severity_override_spec(
                    self.checks.severity_overrides@.skip(i as int),
                    check_name@,
                ),
        {
            assert(self.checks.severity_overrides@.skip(i as int).first()
                == self.checks.severity_overrides@[i as int]);
            assert(self.checks.severity_overrides@.skip(i as int).drop_first()
                =~= self.checks.severity_overrides@.skip(i + 1));
            if text::eq_ignore_case(self.checks.severity_overrides[i].0.as_str(), check_name) {
                return Some(self.checks.severity_overrides[i].1.as_severity());
            }
        }
        assert(self.checks.severity_overrides@.skip(n as int).len() == 0);
        None
    }

    /// Reject a configuration whose runtime bounds do not parse as strict
    /// versions or stand in the wrong order.
    pub fn validate(&self) -> (r: Result<(), String>)
        ensures
            match (self.policies.min_node_version, self.policies.max_node_version) {
                (Some(mn), Some(mx)) => r is Ok <==> (version::semver_parse_model(mn@) is Some
                    && version::semver_parse_model(mx@) is Some && !version::sv_lt(
                    version::semver_parse_model(mx@)->0,
                    version::semver_parse_model(mn@)->0,
                )),
                _ => r is Ok,
            },
    {
        match (&self.policies.min_node_version, &self.policies.max_node_version) {
            (Some(mn), Some(mx)) => {
                let min_ver = match version::semver_parse(mn.as_str()) {
                    Some(v) => v,
                    None => {
                        let msg = String::from_str("Invalid min_node_version: ").concat(
                            mn.as_str(),
                        );
                        return Err(msg);
                    },
                };
                let max_ver = match version::semver_parse(mx.as_str()) {
                    Some(v) => v,
                    None => {
                        let msg = String::from_str("Invalid max_node_version: ").concat(
                            mx.as_str(),
                        );
                        return Err(msg);
                    },
                };
                if version::sv_lt_exec(&max_ver, &min_ver) {
                    let msg = String::from_str("min_node_version (").concat(mn.as_str()).concat(
                        ") is greater than max_node_version (",
                    ).concat(mx.as_str()).concat(")");
                    return Err(msg);
                }
                Ok(())
            },
            _ => Ok(()),
        }
    }
}

} // verus!
