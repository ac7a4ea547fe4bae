//! The repair planner: findings become concrete, safety-classified shell
//! actions, Safe ones first; and the executor's tolerant classification
//! of a finished command.

use vstd::prelude::*;
use crate::checks::CheckResult;
use crate::checks::FindingModel;
use crate::checks::finding_model;
use crate::text;

verus! {

use vstd::string::StrSliceExecFns;
use vstd::string::StringExecFns;

/// One concrete remediation: what to run and whether it may run
/// unattended.
#[derive(Debug, Clone)]
pub struct RepairAction {
    pub description: String,
    pub command: String,
    pub is_safe: bool,
}

/// The mathematical model of an action.
#[verifier::ext_equal]
pub ghost struct ActionModel {
    pub description: Seq<char>,
    pub command: Seq<char>,
    pub is_safe: bool,
}

pub open spec fn action_model(a: &RepairAction) -> ActionModel {
    ActionModel { description: a.description@, command: a.command@, is_safe: a.is_safe }
}

pub open spec fn action_models(s: Seq<RepairAction>) -> Seq<ActionModel> {
    s.map_values(|a: RepairAction| action_model(&a))
}

/// What the planner consults when a finding's fix depends on the
/// project: the package manager, and the runtime's version manager and
/// pinned version when known.
#[derive(Debug, Clone)]
pub struct RepairContext {
    pub package_manager: String,
    pub node_version_manager: Option<String>,
    pub target_node_version: Option<String>,
}

/// The mathematical model of a repair context.
#[verifier::ext_equal]
pub ghost struct CtxModel {
    pub package_manager: Seq<char>,
    pub node_version_manager: Option<Seq<char>>,
    pub target_node_version: Option<Seq<char>>,
}

pub open spec fn ctx_model(c: &RepairContext) -> CtxModel {
    CtxModel {
        package_manager: c.package_manager@,
        node_version_manager: match c.node_version_manager {
            Some(m) => Some(m@),
            None => None,
        },
        target_node_version: match c.target_node_version {
            Some(v) => Some(v@),
            None => None,
        },
    }
}

impl Default for RepairContext {
    fn default() -> (r: Self)
        ensures
            ctx_model(&r) =~= (CtxModel {
                package_manager: Seq::empty(),
                node_version_manager: None,
                target_node_version: None,
            }),
    {
        RepairContext {
            package_manager: String::new(),
            node_version_manager: None,
            target_node_version: None,
        }
    }
}

/// The frozen install command of a package manager.
pub open spec fn install_command_spec(pm: Seq<char>) -> Seq<char> {
    if pm =~= "pnpm"@ {
        "pnpm install --frozen-lockfile"@
    } else if pm =~= "yarn"@ {
        "yarn install --frozen-lockfile"@
    } else if pm =~= "bun"@ {
        "bun install --frozen-lockfile"@
    } else {
        "npm ci"@
    }
}

/// The lockfile-writing install command of a package manager.
pub open spec fn install_no_frozen_spec(pm: Seq<char>) -> Seq<char> {
    if pm =~= "pnpm"@ {
        "pnpm install"@
    } else if pm =~= "yarn"@ {
        "yarn install"@
    } else if pm =~= "bun"@ {
        "bun install"@
    } else {
        "npm install"@
    }
}

/// The runtime-switch command: through the detected version manager, or
/// a multi-alternative suggestion when none is detected.
pub open spec fn node_switch_spec(ctx: CtxModel, version: Seq<char>) -> Seq<char> {
    match ctx.node_version_manager {
        Some(m) => if m =~= "volta"@ {
            "volta pin node@"@ + version
        } else if m =~= "fnm"@ {
            "fnm use "@ + version
        } else if m =~= "nvm"@ {
            "nvm use "@ + version
        } else {
            node_switch_fallback_spec(version)
        },
        None => node_switch_fallback_spec(version),
    }
}

pub open spec fn node_switch_fallback_spec(version: Seq<char>) -> Seq<char> {
    "nvm use "@ + version + " (or volta pin node@"@ + version + " / fnm use "@ + version + ")"@
}

/// The cache-clearing action of a package manager: description, command,
/// and whether it may run unattended (a manual cleanup may not).
pub open spec fn clear_cache_spec(pm: Seq<char>) -> (Seq<char>, Seq<char>, bool) {
    if pm =~= "pnpm"@ {
        ("Clear pnpm cache"@, "pnpm store prune"@, true)
    } else if pm =~= "yarn"@ {
        ("Clear yarn cache"@, "yarn cache clean"@, true)
    } else if pm =~= "bun"@ {
        ("Clear bun cache (manual)"@, "rm -rf ~/.bun/install/cache"@, false)
    } else {
        ("Clear npm cache"@, "npm cache clean --force"@, true)
    }
}

/// The lockfile a package manager writes.
pub open spec fn lockfile_name_spec(pm: Seq<char>) -> Seq<char> {
    if pm =~= "pnpm"@ {
        "pnpm-lock.yaml"@
    } else if pm =~= "yarn"@ {
        "yarn.lock"@
    } else if pm =~= "bun"@ {
        "bun.lockb"@
    } else {
        "package-lock.json"@
    }
}

/// Get the lockfile name for a package manager.
pub fn get_lockfile_name(package_manager: &str) -> (r: &'static str)
    ensures
        r@ == lockfile_name_spec(package_manager@),
{
    if text::str_eq(package_manager, "pnpm") {
        "pnpm-lock.yaml"
    } else if text::str_eq(package_manager, "yarn") {
        "yarn.lock"
    } else if text::str_eq(package_manager, "bun") {
        "bun.lockb"
    } else {
        "package-lock.json"
    }
}

impl RepairContext {
    /// A context for this package manager, nothing else known.
    pub fn new(package_manager: &str) -> (r: Self)
        ensures
            ctx_model(&r) =~= (CtxModel {
                package_manager: package_manager@,
                node_version_manager: None,
                target_node_version: None,
            }),
    {
        Self {
            package_manager: package_manager.to_owned(),
            node_version_manager: None,
            target_node_version: None,
        }
    }

    /// The same context with the runtime version manager recorded.
    pub fn with_node_version_manager(self, manager: Option<String>) -> (r: Self)
        ensures
            r.package_manager == self.package_manager,
            r.node_version_manager == manager,
            r.target_node_version == self.target_node_version,
    {
        Self { node_version_manager: manager, ..self }
    }

    /// The same context with the snapshot's runtime version recorded.
    pub fn with_target_node_version(self, version: Option<String>) -> (r: Self)
        ensures
            r.package_manager == self.package_manager,
            r.node_version_manager == self.node_version_manager,
            r.target_node_version == version,
    {
        Self { target_node_version: version, ..self }
    }

    /// The frozen install command for this package manager.
    pub fn install_command(&self) -> (r: &'static str)
        ensures
            r@ == install_command_spec(self.package_manager@),
    {
        if text::str_eq(self.package_manager.as_str(), "pnpm") {
            "pnpm install --frozen-lockfile"
        } else if text::str_eq(self.package_manager.as_str(), "yarn") {
            "yarn install --frozen-lockfile"
        } else if text::str_eq(self.package_manager.as_str(), "bun") {
            "bun install --frozen-lockfile"
        } else {
            "npm ci"
        }
    }

    /// The lockfile-writing install command for this package manager.
    pub fn install_command_no_frozen(&self) -> (r: &'static str)
        ensures
            r@ == install_no_frozen_spec(self.package_manager@),
    {
        if text::str_eq(self.package_manager.as_str(), "pnpm") {
            "pnpm install"
        } else if text::str_eq(self.package_manager.as_str(), "yarn") {
            "yarn install"
        } else if text::str_eq(self.package_manager.as_str(), "bun") {
            "bun install"
        } else {
            "npm install"
        }
    }

    /// The command that switches the runtime to `version`.
    pub fn node_switch_command(&self, version: &str) -> (r: String)
        ensures
            r@ == node_switch_spec(ctx_model(self), version@),
    {
        match &self.node_version_manager {
            Some(m) => {
                if text::str_eq(m.as_str(), "volta") {
                    String::from_str("volta pin node@").concat(version)
                } else if text::str_eq(m.as_str(), "fnm") {
                    String::from_str("fnm use ").concat(version)
                } else if text::str_eq(m.as_str(), "nvm") {
                    String::from_str("nvm use ").concat(version)
                } else {
                    node_switch_fallback(version)
                }
            },
            None => node_switch_fallback(version),
        }
    }

    /// The cache-clearing commands for this package manager.
    pub fn clear_cache_commands(&self) -> (r: Vec<(&'static str, &'static str)>)
        ensures
            r@.len() == 1,
            r@[0].0@ == clear_cache_spec(self.package_manager@).0,
            r@[0].1@ == clear_cache_spec(self.package_manager@).1,
    {
        let mut out: Vec<(&'static str, &'static str)> = Vec::new();
        if text::str_eq(self.package_manager.as_str(), "pnpm") {
            out.push(("Clear pnpm cache", "pnpm store prune"));
        } else if text::str_eq(self.package_manager.as_str(), "yarn") {
            out.push(("Clear yarn cache", "yarn cache clean"));
        } else if text::str_eq(self.package_manager.as_str(), "bun") {
            out.push(("Clear bun cache (manual)", "rm -rf ~/.bun/install/cache"));
        } else {
            out.push(("Clear npm cache", "npm cache clean --force"));
        }
        out
    }
}

fn node_switch_fallback(version: &str) -> (r: String)
    ensures
        r@ == node_switch_fallback_spec(version@),
{
    String::from_str("nvm use ").concat(version).concat(" (or volta pin node@").concat(
        version,
    ).concat(" / fnm use ").concat(version).concat(")")
}

} // verus!

verus! {

// ---------------------------------------------------------------------------
// The finding-name → action table
// ---------------------------------------------------------------------------

/// The target version named by a mismatch message of the form
/// `Expected X but found Y`.
pub open spec fn extract_target_version_spec(message: Seq<char>) -> Option<Seq<char>> {
    if text::starts_with_spec(message, "Expected "@) {
        let parts = text::split_ws_spec(message);
        if parts.len() >= 2 {
            Some(parts[1])
        } else {
            None
        }
    } else {
        None
    }
}

/// Extract the target version from a message like `Expected 20.11.0 but
/// found 18.0.0`.
pub fn extract_target_version(message: &str) -> (r: Option<String>)
    ensures
        match r {
            Some(v) => extract_target_version_spec(message@) == Some(v@),
            None => extract_target_version_spec(message@) is None,
        },
{
    if text::starts_with(message, "Expected ") {
        let parts = text::split_ws(message);
        let ghost pv = text::split_ws_spec(message@);
        assert(text::views_of(parts@) =~~= pv);
        if parts.len() >= 2 {
            assert(parts@[1]@ == pv[1]);
            Some(parts[1].to_owned())
        } else {
            None
        }
    } else {
        None
    }
}

/// The version named after `constraint: ` in an engines-compliance
/// message, its comparison operators dropped.
pub open spec fn extract_constraint_version_spec(message: Seq<char>) -> Option<Seq<char>> {
    match text::find_sub_spec(message, "constraint: "@) {
        Some(i) => if 0 <= i && i + "constraint: "@.len() <= message.len() {
            let tail = text::trim_spec(message.skip(i + "constraint: "@.len()));
            let v = text::trim_spec(
                text::strip_prefix_all_spec(
                    text::strip_prefix_all_spec(
                        text::strip_prefix_all_spec(
                            text::strip_prefix_all_spec(
                                text::strip_prefix_all_spec(
                                    text::strip_prefix_all_spec(tail, ">="@),
                                    ">"@,
                                ),
                                "<="@,
                            ),
                            "<"@,
                        ),
                        "^"@,
                    ),
                    "~"@,
                ),
            );
            if v.len() > 0 {
                Some(v)
            } else {
                None
            }
        } else {
            None
        },
        None => None,
    }
}

fn extract_constraint_version(message: &str) -> (r: Option<String>)
    ensures
        match r {
            Some(v) => extract_constraint_version_spec(message@) == Some(v@),
            None => extract_constraint_version_spec(message@) is None,
        },
{
    let marker = "constraint: ";
    let mlen = message.unicode_len();
    proof {
        text::lemma_find_sub_from(message@, marker@, 0);
    }
    match text::find_sub(message, marker) {
        Some(i) => {
            let tail_raw = message.substring_char(i + marker.unicode_len(), mlen);
            assert(tail_raw@ =~= message@.skip(i + marker@.len()));
            let tail = text::trim(tail_raw);
            let v = text::trim(
                text::strip_prefix_all(
                    text::strip_prefix_all(
                        text::strip_prefix_all(
                            text::strip_prefix_all(
                                text::strip_prefix_all(text::strip_prefix_all(tail, ">="), ">"),
                                "<=",
                            ),
                            "<",
                        ),
                        "^",
                    ),
                    "~",
                ),
            );
            if v.unicode_len() > 0 {
                Some(v.to_owned())
            } else {
                None
            }
        },
        None => None,
    }
}

/// The runtime-install command, through the detected version manager or
/// a multi-alternative suggestion.
pub open spec fn node_install_spec(ctx: CtxModel, version: Seq<char>) -> Seq<char> {
    match ctx.node_version_manager {
        Some(m) => if m =~= "volta"@ {
            "volta install node@"@ + version
        } else if m =~= "fnm"@ {
            "fnm install "@ + version
        } else if m =~= "nvm"@ {
            "nvm install "@ + version
        } else {
            node_install_fallback_spec(version)
        },
        None => node_install_fallback_spec(version),
    }
}

pub open spec fn node_install_fallback_spec(version: Seq<char>) -> Seq<char> {
    "nvm install "@ + version + " (or volta install node@"@ + version + " / fnm install "@
        + version + ")"@
}

fn node_install_command(context: &RepairContext, version: &str) -> (r: String)
    ensures
        r@ == node_install_spec(ctx_model(context), version@),
{
    match &context.node_version_manager {
        Some(m) => {
            if text::str_eq(m.as_str(), "volta") {
                String::from_str("volta install node@").concat(version)
            } else if text::str_eq(m.as_str(), "fnm") {
                String::from_str("fnm install ").concat(version)
            } else if text::str_eq(m.as_str(), "nvm") {
                String::from_str("nvm install ").concat(version)
            } else {
                node_install_fallback(version)
            }
        },
        None => node_install_fallback(version),
    }
}

fn node_install_fallback(version: &str) -> (r: String)
    ensures
        r@ == node_install_fallback_spec(version@),
{
    String::from_str("nvm install ").concat(version).concat(" (or volta install node@").concat(
        version,
    ).concat(" / fnm install ").concat(version).concat(")")
}

pub open spec fn tsc_init_spec(pm: Seq<char>) -> Seq<char> {
    if pm =~= "pnpm"@ {
        "pnpm exec tsc --init"@
    } else if pm =~= "yarn"@ {
        "yarn tsc --init"@
    } else if pm =~= "bun"@ {
        "bun x tsc --init"@
    } else {
        "npx tsc --init"@
    }
}

pub open spec fn eslint_init_spec(pm: Seq<char>) -> Seq<char> {
    if pm =~= "pnpm"@ {
        "pnpm create @eslint/config"@
    } else if pm =~= "yarn"@ {
        "yarn create @eslint/config"@
    } else if pm =~= "bun"@ {
        "bun create @eslint/config"@
    } else {
        "npm init @eslint/config"@
    }
}

/// The finding names the planner recognises with an entry of their own.
pub open spec fn in_action_table(name: Seq<char>) -> bool {
    ||| name =~= "Node version match"@
    ||| name =~= "Package manager match"@
    ||| name =~= "node_modules exists"@
    ||| name =~= "node_modules in sync"@
    ||| name =~= "node_modules integrity"@
    ||| name =~= "Lockfile exists"@
    ||| name =~= "Lockfile integrity"@
    ||| name =~= "Lockfile hash match"@
    ||| name =~= "Lockfile corrupted"@
    ||| name =~= "Single lockfile"@
    ||| name =~= "npm cache integrity"@
    ||| name =~= "Cache corrupted"@
    ||| name =~= "TypeScript config"@
    ||| name =~= "ESLint config"@
    ||| name =~= "Corepack available"@
    ||| name =~= "Corepack enabled"@
    ||| name =~= "Prettier config"@
    ||| name =~= "Peer dependencies"@
    ||| name =~= "npm accessible"@
    ||| name =~= "yarn accessible"@
    ||| name =~= "pnpm accessible"@
    ||| name =~= "bun accessible"@
    ||| name =~= "Node.js accessible"@
    ||| name =~= "Engines compliance"@
}

/// The action mapped to one finding: a pure lookup, some entries
/// consulting the context.  A finding with no entry but a suggested fix
/// becomes one needs-review action carrying the fix verbatim; with
/// neither, it is dropped.
pub open spec fn action_for(f: FindingModel, ctx: CtxModel) -> Option<ActionModel> {
    let name = f.name;
    let pm = ctx.package_manager;
    if name =~= "Node version match"@ {
        let t = match extract_target_version_spec(f.message) {
            Some(t) => t,
            None => match ctx.target_node_version {
                Some(t) => t,
                None => "<version>"@,
            },
        };
        Some(
            ActionModel {
                description: "Switch Node.js to version "@ + t,
                command: node_switch_spec(ctx, t),
                is_safe: true,
            },
        )
    } else if name =~= "Package manager match"@ {
        Some(
            ActionModel {
                description: "Use correct package manager"@,
                command: match f.suggested_fix {
                    Some(fx) => fx,
                    None => "Use "@ + pm + " instead"@,
                },
                is_safe: true,
            },
        )
    } else if name =~= "node_modules exists"@ {
        Some(
            ActionModel {
                description: "Install dependencies using "@ + pm,
                command: install_command_spec(pm),
                is_safe: true,
            },
        )
    } else if name =~= "node_modules in sync"@ || name =~= "node_modules integrity"@ {
        Some(
            ActionModel {
                description: "Reinstall dependencies using "@ + pm,
                command: "rm -rf node_modules && "@ + install_command_spec(pm),
                is_safe: true,
            },
        )
    } else if name =~= "Lockfile exists"@ {
        Some(
            ActionModel {
                description: "Generate lockfile using "@ + pm,
                command: install_no_frozen_spec(pm),
                is_safe: false,
            },
        )
    } else if name =~= "Lockfile integrity"@ || name =~= "Lockfile hash match"@ {
        Some(
            ActionModel {
                description: "Update env.lock to match current lockfile"@,
                command: "zenvo lock"@,
                is_safe: true,
            },
        )
    } else if name =~= "Lockfile corrupted"@ {
        Some(
            ActionModel {
                description: "Regenerate corrupted lockfile using "@ + pm,
                command: "rm -f "@ + lockfile_name_spec(pm) + " && "@ + install_no_frozen_spec(pm),
                is_safe: false,
            },
        )
    } else if name =~= "Single lockfile"@ {
        Some(
            ActionModel {
                description: "Remove duplicate lockfiles"@,
                command: "Review and remove unused lockfile manually"@,
                is_safe: false,
            },
        )
    } else if name =~= "npm cache integrity"@ || name =~= "Cache corrupted"@ {
        let c = clear_cache_spec(pm);
        Some(ActionModel { description: c.0, command: c.1, is_safe: c.2 })
    } else if name =~= "TypeScript config"@ {
        Some(
            ActionModel {
                description: "Initialize TypeScript config"@,
                command: tsc_init_spec(pm),
                is_safe: true,
            },
        )
    } else if name =~= "ESLint config"@ {
        Some(
            ActionModel {
                description: "Initialize ESLint config"@,
                command: eslint_init_spec(pm),
                is_safe: false,
            },
        )
    } else if name =~= "Corepack available"@ || name =~= "Corepack enabled"@ {
        Some(
            ActionModel {
                description: "Enable Corepack"@,
                command: "corepack enable"@,
                is_safe: true,
            },
        )
    } else if name =~= "Prettier config"@ {
        Some(
            ActionModel {
                description: "Create Prettier config"@,
                command: "echo '{}' > .prettierrc"@,
                is_safe: true,
            },
        )
    } else if name =~= "Peer dependencies"@ {
        Some(
            ActionModel {
                description: "Install missing peer dependencies"@,
                command: install_no_frozen_spec(pm),
                is_safe: true,
            },
        )
    } else if name =~= "npm accessible"@ {
        Some(
            ActionModel {
                description: "Install npm package manager"@,
                command: "npm is included with Node.js - reinstall Node.js"@,
                is_safe: false,
            },
        )
    } else if name =~= "yarn accessible"@ {
        Some(
            ActionModel {
                description: "Install yarn package manager"@,
                command: "corepack enable && corepack prepare yarn@stable --activate"@,
                is_safe: false,
            },
        )
    } else if name =~= "pnpm accessible"@ {
        Some(
            ActionModel {
                description: "Install pnpm package manager"@,
                command: "corepack enable && corepack prepare pnpm@latest --activate"@,
                is_safe: false,
            },
        )
    } else if name =~= "bun accessible"@ {
        Some(
            ActionModel {
                description: "Install bun package manager"@,
                command: "npm install -g bun"@,
                is_safe: false,
            },
        )
    } else if name =~= "Node.js accessible"@ {
        let tv = match ctx.target_node_version {
            Some(t) => t,
            None => "--lts"@,
        };
        let desc = if tv =~= "--lts"@ {
            "Install Node.js (LTS)"@
        } else {
            "Install Node.js "@ + tv
        };
        Some(ActionModel { description: desc, command: node_install_spec(ctx, tv), is_safe: false })
    } else if name =~= "Engines compliance"@ {
        let t = match extract_constraint_version_spec(f.message) {
            Some(t) => t,
            None => match ctx.target_node_version {
                Some(t) => t,
                None => "<version>"@,
            },
        };
        Some(
            ActionModel {
                description: "Switch Node.js to version "@ + t,
                command: node_switch_spec(ctx, t),
                is_safe: true,
            },
        )
    } else {
        match f.suggested_fix {
            Some(fx) => Some(ActionModel { description: f.name, command: fx, is_safe: false }),
            None => None,
        }
    }
}

} // verus!

verus! {

/// Map one finding to its action, consulting the context.
pub fn issue_to_action_with_context(issue: &CheckResult, context: &RepairContext) -> (r: Option<
    RepairAction,
>)
    ensures
        match r {
            Some(a) => action_for(finding_model(issue), ctx_model(context)) == Some(action_model(
                &a,
            )),
            None => action_for(finding_model(issue), ctx_model(context)) is None,
        },
{
    let name = issue.name.as_str();
    let pm = context.package_manager.as_str();
    if text::str_eq(name, "Node version match") {
        let t: String = match extract_target_version(issue.message.as_str()) {
            Some(t) => t,
            None => match &context.target_node_version {
                Some(t) => t.clone(),
                None => String::from_str("<version>"),
            },
        };
        Some(
            RepairAction {
                description: String::from_str("Switch Node.js to version ").concat(t.as_str()),
                command: context.node_switch_command(t.as_str()),
                is_safe: true,
            },
        )
    } else if text::str_eq(name, "Package manager match") {
        let cmd: String = match &issue.suggested_fix {
            Some(fx) => fx.clone(),
            None => String::from_str("Use ").concat(pm).concat(" instead"),
        };
        Some(
            RepairAction {
                description: String::from_str("Use correct package manager"),
                command: cmd,
                is_safe: true,
            },
        )
    } else if text::str_eq(name, "node_modules exists") {
        Some(
            RepairAction {
                description: String::from_str("Install dependencies using ").concat(pm),
                command: context.install_command().to_owned(),
                is_safe: true,
            },
        )
    } else if text::str_eq(name, "node_modules in sync") || text::str_eq(
        name,
        "node_modules integrity",
    ) {
        Some(
            RepairAction {
                description: String::from_str("Reinstall dependencies using ").concat(pm),
                command: String::from_str("rm -rf node_modules && ").concat(
                    context.install_command(),
                ),
                is_safe: true,
            },
        )
    } else if text::str_eq(name, "Lockfile exists") {
        Some(
            RepairAction {
                description: String::from_str("Generate lockfile using ").concat(pm),
                command: context.install_command_no_frozen().to_owned(),
                is_safe: false,
            },
        )
    } else if text::str_eq(name, "Lockfile integrity") || text::str_eq(name, "Lockfile hash match") {
        Some(
            RepairAction {
                description: String::from_str("Update env.lock to match current lockfile"),
                command: String::from_str("zenvo lock"),
                is_safe: true,
            },
        )
    } else if text::str_eq(name, "Lockfile corrupted") {
        Some(
            RepairAction {
                description: String::from_str("Regenerate corrupted lockfile using ").concat(pm),
                command: String::from_str("rm -f ").concat(get_lockfile_name(pm)).concat(
                    " && ",
                ).concat(context.install_command_no_frozen()),
                is_safe: false,
            },
        )
    } else if text::str_eq(name, "Single lockfile") {
        Some(
            RepairAction {
                description: String::from_str("Remove duplicate lockfiles"),
                command: String::from_str("Review and remove unused lockfile manually"),
                is_safe: false,
            },
        )
    } else if text::str_eq(name, "npm cache integrity") || text::str_eq(name, "Cache corrupted") {
        let cache_cmds = context.clear_cache_commands();
        let desc = cache_cmds[0].0;
        let cmd = cache_cmds[0].1;
        let safe = !text::str_eq(pm, "bun");
        proof {
            reveal_strlit("pnpm");
            reveal_strlit("yarn");
            reveal_strlit("bun");
        }
        Some(RepairAction { description: desc.to_owned(), command: cmd.to_owned(), is_safe: safe })
    } else if text::str_eq(name, "TypeScript config") {
        let cmd: String = if text::str_eq(pm, "pnpm") {
            String::from_str("pnpm exec tsc --init")
        } else if text::str_eq(pm, "yarn") {
            String::from_str("yarn tsc --init")
        } else if text::str_eq(pm, "bun") {
            String::from_str("bun x tsc --init")
        } else {
            String::from_str("npx tsc --init")
        };
        Some(
            RepairAction {
                description: String::from_str("Initialize TypeScript config"),
                command: cmd,
                is_safe: true,
            },
        )
    } else if text::str_eq(name, "ESLint config") {
        let cmd: String = if text::str_eq(pm, "pnpm") {
            String::from_str("pnpm create @eslint/config")
        } else if text::str_eq(pm, "yarn") {
            String::from_str("yarn create @eslint/config")
        } else if text::str_eq(pm, "bun") {
            String::from_str("bun create @eslint/config")
        } else {
            String::from_str("npm init @eslint/config")
        };
        Some(
            RepairAction {
                description: String::from_str("Initialize ESLint config"),
                command: cmd,
                is_safe: false,
            },
        )
    } else if text::str_eq(name, "Corepack available") || text::str_eq(name, "Corepack enabled") {
        Some(
            RepairAction {
                description: String::from_str("Enable Corepack"),
                command: String::from_str("corepack enable"),
                is_safe: true,
            },
        )
    } else if text::str_eq(name, "Prettier config") {
        Some(
            RepairAction {
                description: String::from_str("Create Prettier config"),
                command: String::from_str("echo '{}' > .prettierrc"),
                is_safe: true,
            },
        )
    } else if text::str_eq(name, "Peer dependencies") {
        Some(
            RepairAction {
                description: String::from_str("Install missing peer dependencies"),
                command: context.install_command_no_frozen().to_owned(),
                is_safe: true,
            },
        )
    } else if text::str_eq(name, "npm accessible") {
        Some(
            RepairAction {
                description: String::from_str("Install npm package manager"),
                command: String::from_str("npm is included with Node.js - reinstall Node.js"),
                is_safe: false,
            },
        )
    } else if text::str_eq(name, "yarn accessible") {
        Some(
            RepairAction {
                description: String::from_str("Install yarn package manager"),
                command: String::from_str(
                    "corepack enable && corepack prepare yarn@stable --activate",
                ),
                is_safe: false,
            },
        )
    } else if text::str_eq(name, "pnpm accessible") {
        Some(
            RepairAction {
                description: String::from_str("Install pnpm package manager"),
                command: String::from_str(
                    "corepack enable && corepack prepare pnpm@latest --activate",
                ),
                is_safe: false,
            },
        )
    } else if text::str_eq(name, "bun accessible") {
        Some(
            RepairAction {
                description: String::from_str("Install bun package manager"),
                command: String::from_str("npm install -g bun"),
                is_safe: false,
            },
        )
    } else if text::str_eq(name, "Node.js accessible") {
        let tv: String = match &context.target_node_version {
            Some(t) => t.clone(),
            None => String::from_str("--lts"),
        };
        let desc: String = if text::str_eq(tv.as_str(), "--lts") {
            String::from_str("Install Node.js (LTS)")
        } else {
            String::from_str("Install Node.js ").concat(tv.as_str())
        };
        Some(
            RepairAction {
                description: desc,
                command: node_install_command(context, tv.as_str()),
                is_safe: false,
            },
        )
    } else if text::str_eq(name, "Engines compliance") {
        let t: String = match extract_constraint_version(issue.message.as_str()) {
            Some(t) => t,
            None => match &context.target_node_version {
                Some(t) => t.clone(),
                None => String::from_str("<version>"),
            },
        };
        Some(
            RepairAction {
                description: String::from_str("Switch Node.js to version ").concat(t.as_str()),
                command: context.node_switch_command(t.as_str()),
                is_safe: true,
            },
        )
    } else {
        match &issue.suggested_fix {
            Some(fx) => Some(
                RepairAction {
                    description: issue.name.clone(),
                    command: fx.clone(),
                    is_safe: false,
                },
            ),
            None => None,
        }
    }
}

} // verus!

verus! {

// ---------------------------------------------------------------------------
// The plan: Safe actions first, review actions after, discovery order
// kept within each partition
// ---------------------------------------------------------------------------

/// The Safe actions of the findings, in discovery order.
pub open spec fn safe_actions(issues: Seq<FindingModel>, ctx: CtxModel) -> Seq<ActionModel>
    decreases issues.len(),
{
    if issues.len() == 0 {
        Seq::empty()
    } else {
        safe_actions(issues.drop_last(), ctx) + (match action_for(issues.last(), ctx) {
            Some(a) => if a.is_safe {
                seq![a]
            } else {
                Seq::empty()
            },
            None => Seq::empty(),
        })
    }
}

/// The needs-review actions of the findings, in discovery order.
pub open spec fn review_actions(issues: Seq<FindingModel>, ctx: CtxModel) -> Seq<ActionModel>
    decreases issues.len(),
{
    if issues.len() == 0 {
        Seq::empty()
    } else {
        review_actions(issues.drop_last(), ctx) + (match action_for(issues.last(), ctx) {
            Some(a) => if !a.is_safe {
                seq![a]
            } else {
                Seq::empty()
            },
            None => Seq::empty(),
        })
    }
}

/// The whole plan: every Safe action before every needs-review one.
pub open spec fn repair_plan_spec(issues: Seq<FindingModel>, ctx: CtxModel) -> Seq<ActionModel> {
    safe_actions(issues, ctx) + review_actions(issues, ctx)
}

proof fn lemma_safe_actions_take_succ(issues: Seq<FindingModel>, ctx: CtxModel, i: int)
    requires
        0 <= i < issues.len(),
    ensures
        safe_actions(issues.take(i + 1), ctx) == safe_actions(issues.take(i), ctx) + (
        match action_for(issues[i], ctx) {
            Some(a) => if a.is_safe {
                seq![a]
            } else {
                Seq::<ActionModel>::empty()
            },
            None => Seq::<ActionModel>::empty(),
        }),
{
    assert(issues.take(i + 1).drop_last() =~= issues.take(i));
    assert(issues.take(i + 1).last() == issues[i]);
}

proof fn lemma_review_actions_take_succ(issues: Seq<FindingModel>, ctx: CtxModel, i: int)
    requires
        0 <= i < issues.len(),
    ensures
        review_actions(issues.take(i + 1), ctx) == review_actions(issues.take(i), ctx) + (
        match action_for(issues[i], ctx) {
            Some(a) => if !a.is_safe {
                seq![a]
            } else {
                Seq::<ActionModel>::empty()
            },
            None => Seq::<ActionModel>::empty(),
        }),
{
    assert(issues.take(i + 1).drop_last() =~= issues.take(i));
    assert(issues.take(i + 1).last() == issues[i]);
}

/// Turn findings into the ordered repair plan: each finding's action from
/// the table (or its suggested fix as a needs-review action), with all
/// Safe actions placed before all needs-review ones and discovery order
/// kept within each group.
pub fn generate_repair_plan_with_context(issues: &Vec<CheckResult>, context: &RepairContext) -> (r:
    Vec<RepairAction>)
    ensures
        action_models(r@) =~~= repair_plan_spec(
            crate::checks::finding_models(issues@),
            ctx_model(context),
        ),
{
    let ghost models = crate::checks::finding_models(issues@);
    let ghost ctx = ctx_model(context);
    let n = issues.len();
    let mut out: Vec<RepairAction> = Vec::new();
    assert(models.take(0) =~= Seq::<FindingModel>::empty());
    for i in 0..n
        invariant
            n == issues@.len(),
            models == crate::checks::finding_models(issues@),
            n == models.len(),
            ctx == ctx_model(context),
            action_models(out@) =~~= safe_actions(models.take(i as int), ctx),
    {
        proof {
            lemma_safe_actions_take_succ(models, ctx, i as int);
            assert(models[i as int] == finding_model(&issues@[i as int]));
        }
        let ghost prev = action_models(out@);
        match issue_to_action_with_context(&issues[i], context) {
            Some(a) => {
                if a.is_safe {
                    let ghost am = action_model(&a);
                    out.push(a);
                    assert(action_models(out@) =~~= prev + seq![am]);
                }
            },
            None => {},
        }
        assert(action_models(out@) =~~= safe_actions(models.take(i + 1), ctx));
    }
    assert(models.take(n as int) =~= models);
    let ghost safe_done = action_models(out@);
    for i in 0..n
        invariant
            n == issues@.len(),
            models == crate::checks::finding_models(issues@),
            n == models.len(),
            ctx == ctx_model(context),
            safe_done =~~= safe_actions(models, ctx),
            action_models(out@) =~~= safe_done + review_actions(models.take(i as int), ctx),
    {
        proof {
            lemma_review_actions_take_succ(models, ctx, i as int);
            assert(models[i as int] == finding_model(&issues@[i as int]));
        }
        let ghost prev = action_models(out@);
        match issue_to_action_with_context(&issues[i], context) {
            Some(a) => {
                if !a.is_safe {
                    let ghost am = action_model(&a);
                    out.push(a);
                    assert(action_models(out@) =~~= prev + seq![am]);
                }
            },
            None => {},
        }
        assert(action_models(out@) =~~= safe_done + review_actions(models.take(i + 1), ctx));
    }
    assert(models.take(n as int) =~= models);
    out
}

/// Planner output is partitioned: every action in the Safe part is Safe,
/// every action in the review part is not, and the plan is exactly the
/// Safe part followed by the review part, each in discovery order.
pub proof fn lemma_plan_partitioned(issues: Seq<FindingModel>, ctx: CtxModel)
    ensures
        forall|i: int|
            0 <= i < safe_actions(issues, ctx).len() ==> (#[trigger] safe_actions(
                issues,
                ctx,
            )[i]).is_safe,
        forall|i: int|
            0 <= i < review_actions(issues, ctx).len() ==> !(#[trigger] review_actions(
                issues,
                ctx,
            )[i]).is_safe,
        repair_plan_spec(issues, ctx) == safe_actions(issues, ctx) + review_actions(issues, ctx),
    decreases issues.len(),
{
    if issues.len() > 0 {
        lemma_plan_partitioned(issues.drop_last(), ctx);
    }
}

/// A finding with no table entry and only a suggested fix yields exactly
/// one needs-review action, whose command is that fix text verbatim.
pub proof fn lemma_fallback_fix_action(f: FindingModel, ctx: CtxModel)
    requires
        !in_action_table(f.name),
        f.suggested_fix is Some,
    ensures
        repair_plan_spec(seq![f], ctx) =~~= seq![
            ActionModel { description: f.name, command: f.suggested_fix->0, is_safe: false },
        ],
{
    let one = seq![f];
    let none = Seq::<FindingModel>::empty();
    assert(one.drop_last() =~= none);
    assert(one.last() == f);
    let a = ActionModel { description: f.name, command: f.suggested_fix->0, is_safe: false };
    assert(action_for(f, ctx) == Some(a));
    assert(safe_actions(none, ctx) == Seq::<ActionModel>::empty());
    assert(review_actions(none, ctx) == Seq::<ActionModel>::empty());
    assert(safe_actions(one, ctx) == safe_actions(none, ctx) + Seq::<ActionModel>::empty());
    assert(review_actions(one, ctx) == review_actions(none, ctx) + seq![a]);
    assert(repair_plan_spec(one, ctx) =~~= seq![a]);
}

// ---------------------------------------------------------------------------
// Executor classification
// ---------------------------------------------------------------------------

/// A diagnostic line the executor tolerates: blank, a generic warning,
/// a package-manager WARN line, or a deprecation notice.
pub open spec fn benign_line_spec(line: Seq<char>) -> bool {
    ||| text::trim_spec(line).len() == 0
    ||| text::starts_with_spec(line, "warning "@)
    ||| text::starts_with_spec(line, "npm WARN"@)
    ||| text::contains_sub(line, "deprecated"@)
}

/// Every line of the diagnostic stream is benign.
pub open spec fn stderr_benign_spec(stderr: Seq<char>) -> bool {
    forall|i: int|
        0 <= i < text::lines_spec(stderr).len() ==> benign_line_spec(
            #[trigger] text::lines_spec(stderr)[i],
        )
}

/// The output stream carries an explicit error marker.
pub open spec fn stdout_error_marker_spec(stdout: Seq<char>) -> bool {
    text::contains_sub(stdout, "error"@) || text::contains_sub(stdout, "ERR!"@)
}

/// The command text is a documented manual instruction, not a shell line.
pub open spec fn manual_command_spec(command: Seq<char>) -> bool {
    ||| text::contains_sub(command, "manually"@)
    ||| text::contains_sub(command, "Manual"@)
    ||| text::contains_sub(command, "reinstall Node.js"@)
}

/// The executor's outcome on a finished command: `None` is success,
/// `Some(detail)` is failure with the stream that explains it.
pub open spec fn repair_outcome_spec(
    success: bool,
    stdout: Seq<char>,
    stderr: Seq<char>,
) -> Option<Seq<char>> {
    if success {
        None
    } else if stderr_benign_spec(stderr) && !stdout_error_marker_spec(stdout) {
        None
    } else {
        Some(
            "Command failed: "@ + text::trim_spec(
                if stderr.len() == 0 {
                    stdout
                } else {
                    stderr
                },
            ),
        )
    }
}

/// A non-zero exit is tolerated as success exactly when the diagnostic
/// stream is all benign lines and the output stream carries no error
/// marker.
pub proof fn lemma_benign_failure_tolerated(stdout: Seq<char>, stderr: Seq<char>)
    ensures
        (stderr_benign_spec(stderr) && !stdout_error_marker_spec(stdout)) <==> repair_outcome_spec(
            false,
            stdout,
            stderr,
        ) is None,
{
    if !(stderr_benign_spec(stderr) && !stdout_error_marker_spec(stdout)) {
        assert(repair_outcome_spec(false, stdout, stderr) is Some);
    }
}

/// A command the executor must not run: its text is a documented manual
/// instruction.
pub fn is_manual_command(command: &str) -> (r: bool)
    ensures
        r == manual_command_spec(command@),
{
    ||| text::contains(command, "manually")
    ||| text::contains(command, "Manual")
    ||| text::contains(command, "reinstall Node.js")
}

fn benign_line(line: &str) -> (r: bool)
    ensures
        r == benign_line_spec(line@),
{
    ||| text::trim(line).unicode_len() == 0
    ||| text::starts_with(line, "warning ")
    ||| text::starts_with(line, "npm WARN")
    ||| text::contains(line, "deprecated")
}

/// Classify a finished repair command: a zero exit succeeds; a non-zero
/// exit succeeds only when the diagnostic stream is entirely benign and
/// the output stream has no error marker; otherwise the failure detail is
/// the diagnostic stream, or the output stream if the diagnostic one is
/// empty.
pub fn classify_repair_output(success: bool, stdout: &str, stderr: &str) -> (r: Option<String>)
    ensures
        match r {
            Some(msg) => repair_outcome_spec(success, stdout@, stderr@) == Some(msg@),
            None => repair_outcome_spec(success, stdout@, stderr@) is None,
        },
{
    if success {
        return None;
    }
    let err_lines = text::lines(stderr);
    let ghost lv = text::lines_spec(stderr@);
    assert(text::views_of(err_lines@) =~~= lv);
    let n = err_lines.len();
    let mut all_benign: bool = true;
    for i in 0..n
        invariant
            n == err_lines@.len(),
            n == lv.len(),
            forall|j: int| 0 <= j < n ==> err_lines@[j]@ == #[trigger] lv[j],
            all_benign == forall|j: int| 0 <= j < i ==> #[trigger] benign_line_spec(lv[j]),
    {
        let b = benign_line(err_lines[i]);
        assert(benign_line_spec(lv[i as int]) == b);
        all_benign = all_benign && b;
        assert(all_benign == forall|j: int| 0 <= j < i + 1 ==> #[trigger] benign_line_spec(lv[j]));
    }
    let has_marker = text::contains(stdout, "error") || text::contains(stdout, "ERR!");
    if all_benign && !has_marker {
        return None;
    }
    let detail = if stderr.unicode_len() == 0 {
        stdout
    } else {
        stderr
    };
    Some(String::from_str("Command failed: ").concat(text::trim(detail)))
}

} // verus!
