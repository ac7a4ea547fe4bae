//! Dependency checks: installed-versus-declared versions, deprecated
//! packages, peer conflicts from the manager's tree listing, and phantom
//! imports found by scanning source text.

use vstd::prelude::*;
use crate::checks::CheckResult;
use crate::checks::CheckSeverity;
use crate::checks::FindingModel;
use crate::checks::Manifest;
use crate::checks::finding_models;
use crate::checks::lookup_pairs;
use crate::checks::lookup_pairs_exec;
use crate::checks::msg_model;
use crate::checks::pass_model;
use crate::checks::with_fix_model;
use crate::text;
use crate::version;

verus! {

use vstd::string::StrSliceExecFns;
use vstd::string::StringExecFns;

// ---------------------------------------------------------------------------
// Import extraction
// ---------------------------------------------------------------------------

/// The first quoted string at the head of `s` (after whitespace), for any
/// of the three quote marks.
pub open spec fn extract_quoted_spec(s0: Seq<char>) -> Option<Seq<char>> {
    let s = text::trim_spec(s0);
    if s.len() == 0 {
        None
    } else {
        let q = s[0];
        if q == '"' || q == '\'' || q == '`' {
            match text::find_char_spec(s.skip(1), q) {
                Some(e) => if 0 <= e <= s.skip(1).len() {
                    Some(s.skip(1).take(e))
                } else {
                    None
                },
                None => None,
            }
        } else {
            None
        }
    }
}

/// Extract the quoted module path at the head of a text.
pub fn extract_quoted_string(s0: &str) -> (r: Option<String>)
    ensures
        match r {
            Some(v) => extract_quoted_spec(s0@) == Some(v@),
            None => extract_quoted_spec(s0@) is None,
        },
{
    let s = text::trim(s0);
    let slen = s.unicode_len();
    if slen == 0 {
        return None;
    }
    let q = s.get_char(0);
    if q == '"' || q == '\'' || q == '`' {
        let rest = s.substring_char(1, slen);
        assert(rest@ =~= s@.skip(1));
        proof {
            text::lemma_find_char_from(rest@, q, 0);
        }
        match text::find_char(rest, q) {
            Some(e) => {
                let body = rest.substring_char(0, e);
                assert(body@ =~= rest@.take(e as int));
                Some(body.to_owned())
            },
            None => None,
        }
    } else {
        None
    }
}

/// The quoted module path after the `from` keyword of a static import.
pub open spec fn import_module_spec(line: Seq<char>) -> Option<Seq<char>> {
    match text::find_sub_spec(line, " from "@) {
        Some(i) => if 0 <= i && i + 6 <= line.len() {
            extract_quoted_spec(line.skip(i + 6))
        } else {
            None
        },
        None => None,
    }
}

/// Extract the module path of a static `import ... from '...'` line.
pub fn extract_package_from_import(line: &str) -> (r: Option<String>)
    ensures
        match r {
            Some(v) => import_module_spec(line@) == Some(v@),
            None => import_module_spec(line@) is None,
        },
{
    proof {
        reveal_strlit(" from ");
        text::lemma_find_sub_from(line@, " from "@, 0);
    }
    let llen = line.unicode_len();
    match text::find_sub(line, " from ") {
        Some(i) => {
            let after = line.substring_char(i + 6, llen);
            assert(after@ =~= line@.skip(i + 6));
            extract_quoted_string(after)
        },
        None => None,
    }
}

/// The quoted module paths after each `require(` occurrence.
pub open spec fn require_modules_spec(s: Seq<char>) -> Seq<Seq<char>>
    decreases s.len(),
{
    match text::find_sub_spec(s, "require("@) {
        Some(ri) => if 0 <= ri && ri + 8 <= s.len() {
            let rest = s.skip(ri + 8);
            (match extract_quoted_spec(rest) {
                Some(p) => seq![p],
                None => Seq::empty(),
            }) + require_modules_spec(rest)
        } else {
            Seq::empty()
        },
        None => Seq::empty(),
    }
}

/// Extract the module path of each `require('...')` call on a line.
pub fn extract_packages_from_require(line: &str) -> (r: Vec<String>)
    ensures
        r@.map_values(|t: String| t@) =~~= require_modules_spec(line@),
    decreases line@.len(),
{
    proof {
        reveal_strlit("require(");
        text::lemma_find_sub_from(line@, "require("@, 0);
    }
    let llen = line.unicode_len();
    match text::find_sub(line, "require(") {
        Some(ri) => {
            let rest = line.substring_char(ri + 8, llen);
            assert(rest@ =~= line@.skip(ri + 8));
            let mut out: Vec<String> = Vec::new();
            match extract_quoted_string(rest) {
                Some(p) => {
                    out.push(p);
                },
                None => {},
            }
            let mut tail = extract_packages_from_require(rest);
            out.append(&mut tail);
            assert(out@.map_values(|t: String| t@) =~~= require_modules_spec(line@));
            out
        },
        None => {
            let out: Vec<String> = Vec::new();
            assert(out@.map_values(|t: String| t@) =~~= Seq::<Seq<char>>::empty());
            out
        },
    }
}

/// The quoted module path of a dynamic `import('...')` expression.
pub open spec fn dynamic_import_spec(line: Seq<char>) -> Option<Seq<char>> {
    match text::find_sub_spec(line, "import("@) {
        Some(i) => if 0 <= i && i + 7 <= line.len() {
            extract_quoted_spec(line.skip(i + 7))
        } else {
            None
        },
        None => None,
    }
}

/// Extract the module path of a dynamic import on a line.
pub fn extract_package_from_dynamic_import(line: &str) -> (r: Option<String>)
    ensures
        match r {
            Some(v) => dynamic_import_spec(line@) == Some(v@),
            None => dynamic_import_spec(line@) is None,
        },
{
    proof {
        reveal_strlit("import(");
        text::lemma_find_sub_from(line@, "import("@, 0);
    }
    let llen = line.unicode_len();
    match text::find_sub(line, "import(") {
        Some(i) => {
            let after = line.substring_char(i + 7, llen);
            assert(after@ =~= line@.skip(i + 7));
            extract_quoted_string(after)
        },
        None => None,
    }
}

// ---------------------------------------------------------------------------
// Phantom classification
// ---------------------------------------------------------------------------

/// The runtime's built-in module names.
pub open spec fn is_builtin_spec(n: Seq<char>) -> bool {
    ||| n =~= "assert"@
    ||| n =~= "buffer"@
    ||| n =~= "child_process"@
    ||| n =~= "cluster"@
    ||| n =~= "console"@
    ||| n =~= "constants"@
    ||| n =~= "crypto"@
    ||| n =~= "dgram"@
    ||| n =~= "dns"@
    ||| n =~= "domain"@
    ||| n =~= "events"@
    ||| n =~= "fs"@
    ||| n =~= "http"@
    ||| n =~= "https"@
    ||| n =~= "module"@
    ||| n =~= "net"@
    ||| n =~= "os"@
    ||| n =~= "path"@
    ||| n =~= "perf_hooks"@
    ||| n =~= "process"@
    ||| n =~= "punycode"@
    ||| n =~= "querystring"@
    ||| n =~= "readline"@
    ||| n =~= "repl"@
    ||| n =~= "stream"@
    ||| n =~= "string_decoder"@
    ||| n =~= "sys"@
    ||| n =~= "timers"@
    ||| n =~= "tls"@
    ||| n =~= "tty"@
    ||| n =~= "url"@
    ||| n =~= "util"@
    ||| n =~= "v8"@
    ||| n =~= "vm"@
    ||| n =~= "wasi"@
    ||| n =~= "worker_threads"@
    ||| n =~= "zlib"@
}

/// Is this name a runtime built-in module?
pub fn is_builtin(n: &str) -> (r: bool)
    ensures
        r == is_builtin_spec(n@),
{
    ||| text::str_eq(n, "assert")
    ||| text::str_eq(n, "buffer")
    ||| text::str_eq(n, "child_process")
    ||| text::str_eq(n, "cluster")
    ||| text::str_eq(n, "console")
    ||| text::str_eq(n, "constants")
    ||| text::str_eq(n, "crypto")
    ||| text::str_eq(n, "dgram")
    ||| text::str_eq(n, "dns")
    ||| text::str_eq(n, "domain")
    ||| text::str_eq(n, "events")
    ||| text::str_eq(n, "fs")
    ||| text::str_eq(n, "http")
    ||| text::str_eq(n, "https")
    ||| text::str_eq(n, "module")
    ||| text::str_eq(n, "net")
    ||| text::str_eq(n, "os")
    ||| text::str_eq(n, "path")
    ||| text::str_eq(n, "perf_hooks")
    ||| text::str_eq(n, "process")
    ||| text::str_eq(n, "punycode")
    ||| text::str_eq(n, "querystring")
    ||| text::str_eq(n, "readline")
    ||| text::str_eq(n, "repl")
    ||| text::str_eq(n, "stream")
    ||| text::str_eq(n, "string_decoder")
    ||| text::str_eq(n, "sys")
    ||| text::str_eq(n, "timers")
    ||| text::str_eq(n, "tls")
    ||| text::str_eq(n, "tty")
    ||| text::str_eq(n, "url")
    ||| text::str_eq(n, "util")
    ||| text::str_eq(n, "v8")
    ||| text::str_eq(n, "vm")
    ||| text::str_eq(n, "wasi")
    ||| text::str_eq(n, "worker_threads")
    ||| text::str_eq(n, "zlib")
}

/// The package name of an import path: nothing for relative, absolute or
/// `node:` paths; the first two pieces of a scoped path; the first piece
/// otherwise.
pub open spec fn package_name_of_import(p: Seq<char>) -> Option<Seq<char>> {
    if p.len() > 0 && (p[0] == '.' || p[0] == '/') {
        None
    } else if text::starts_with_spec(p, "node:"@) {
        None
    } else if p.len() > 0 && p[0] == '@' {
        let parts = text::split_char_spec(p, '/');
        if parts.len() >= 2 {
            Some(parts[0] + "/"@ + parts[1])
        } else {
            Some(p)
        }
    } else {
        Some(version::before_char_spec(p, '/'))
    }
}

/// A name is declared when any dependency group lists it.
pub open spec fn declared_in_manifest(m: &Manifest, name: Seq<char>) -> bool {
    ||| lookup_pairs(m.dependencies@, name) is Some
    ||| lookup_pairs(m.dev_dependencies@, name) is Some
    ||| lookup_pairs(m.peer_dependencies@, name) is Some
    ||| lookup_pairs(m.optional_dependencies@, name) is Some
}

fn declared_in_manifest_exec(m: &Manifest, name: &str) -> (r: bool)
    ensures
        r == declared_in_manifest(m, name@),
{
    ||| lookup_pairs_exec(&m.dependencies, name).is_some()
    ||| lookup_pairs_exec(&m.dev_dependencies, name).is_some()
    ||| lookup_pairs_exec(&m.peer_dependencies, name).is_some()
    ||| lookup_pairs_exec(&m.optional_dependencies, name).is_some()
}

/// The phantom set after classifying one import path: a non-builtin,
/// undeclared package name not yet recorded is appended.
pub open spec fn add_phantom_spec(
    phantoms: Seq<Seq<char>>,
    m: &Manifest,
    import_path: Seq<char>,
) -> Seq<Seq<char>> {
    match package_name_of_import(import_path) {
        Some(name) => if is_builtin_spec(name) || declared_in_manifest(m, name)
            || phantoms.contains(name) {
            phantoms
        } else {
            phantoms.push(name)
        },
        None => phantoms,
    }
}

fn phantoms_contain(phantoms: &Vec<String>, t: &str) -> (r: bool)
    ensures
        r == phantoms@.map_values(|s: String| s@).contains(t@),
{
    let ghost pv = phantoms@.map_values(|s: String| s@);
    let n = phantoms.len();
    for i in 0..n
        invariant
            n == phantoms@.len(),
            pv == phantoms@.map_values(|s: String| s@),
            forall|j: int| 0 <= j < i ==> #[trigger] pv[j] != t@,
    {
        assert(pv[i as int] == phantoms@[i as int]@);
        if text::str_eq(phantoms[i].as_str(), t) {
            return true;
        }
    }
    false
}

/// Record a phantom dependency for one import path.
pub fn check_package(import_path: &str, m: &Manifest, phantoms: Vec<String>) -> (r: Vec<String>)
    ensures
        r@.map_values(|s: String| s@) =~~= add_phantom_spec(
            phantoms@.map_values(|s: String| s@),
            m,
            import_path@,
        ),
{
    let ghost before = phantoms@.map_values(|s: String| s@);
    let plen = import_path.unicode_len();
    if plen > 0 && (import_path.get_char(0) == '.' || import_path.get_char(0) == '/') {
        return phantoms;
    }
    if text::starts_with(import_path, "node:") {
        return phantoms;
    }
    let name: String = if plen > 0 && import_path.get_char(0) == '@' {
        let parts = text::split_char(import_path, '/');
        let ghost pv = text::split_char_spec(import_path@, '/');
        assert(text::views_of(parts@) =~~= pv);
        if parts.len() >= 2 {
            assert(parts@[0]@ == pv[0] && parts@[1]@ == pv[1]);
            String::from_str(parts[0]).concat("/").concat(parts[1])
        } else {
            import_path.to_owned()
        }
    } else {
        version::before_char(import_path, '/').to_owned()
    };
    if is_builtin(name.as_str()) {
        return phantoms;
    }
    if declared_in_manifest_exec(m, name.as_str()) {
        return phantoms;
    }
    if phantoms_contain(&phantoms, name.as_str()) {
        return phantoms;
    }
    let mut out = phantoms;
    out.push(name);
    assert(out@.map_values(|s: String| s@) =~~= before.push(
        package_name_of_import(import_path@)->0,
    ));
    out
}

} // verus!

verus! {

// ---------------------------------------------------------------------------
// Source scanning
// ---------------------------------------------------------------------------

/// Fold one list of module paths into the phantom set.
pub open spec fn add_phantoms_list(
    phantoms: Seq<Seq<char>>,
    m: &Manifest,
    paths: Seq<Seq<char>>,
) -> Seq<Seq<char>>
    decreases paths.len(),
{
    if paths.len() == 0 {
        phantoms
    } else {
        add_phantoms_list(add_phantom_spec(phantoms, m, paths.first()), m, paths.drop_first())
    }
}

/// One trimmed source line folded into the phantom set: static imports,
/// `require` calls and dynamic imports, in that order.
pub open spec fn scan_line_spec(
    phantoms: Seq<Seq<char>>,
    m: &Manifest,
    raw: Seq<char>,
) -> Seq<Seq<char>> {
    let line = text::trim_spec(raw);
    let ph1 = if text::starts_with_spec(line, "import "@) || text::contains_sub(line, " from "@) {
        match import_module_spec(line) {
            Some(p) => add_phantom_spec(phantoms, m, p),
            None => phantoms,
        }
    } else {
        phantoms
    };
    let ph2 = if text::contains_sub(line, "require("@) {
        add_phantoms_list(ph1, m, require_modules_spec(line))
    } else {
        ph1
    };
    if text::contains_sub(line, "import("@) {
        match dynamic_import_spec(line) {
            Some(p) => add_phantom_spec(ph2, m, p),
            None => ph2,
        }
    } else {
        ph2
    }
}

pub open spec fn scan_lines_spec(
    phantoms: Seq<Seq<char>>,
    m: &Manifest,
    lines: Seq<Seq<char>>,
) -> Seq<Seq<char>>
    decreases lines.len(),
{
    if lines.len() == 0 {
        phantoms
    } else {
        scan_lines_spec(scan_line_spec(phantoms, m, lines.first()), m, lines.drop_first())
    }
}

/// One file's content folded into the phantom set, line by line.
pub open spec fn scan_file_spec(
    phantoms: Seq<Seq<char>>,
    m: &Manifest,
    content: Seq<char>,
) -> Seq<Seq<char>> {
    scan_lines_spec(phantoms, m, text::lines_spec(content))
}

fn scan_line_exec(phantoms: Vec<String>, m: &Manifest, raw: &str) -> (r: Vec<String>)
    ensures
        r@.map_values(|s: String| s@) =~~= scan_line_spec(
            phantoms@.map_values(|s: String| s@),
            m,
            raw@,
        ),
{
    let line = text::trim(raw);
    let mut ph = phantoms;
    if text::starts_with(line, "import ") || text::contains(line, " from ") {
        match extract_package_from_import(line) {
            Some(p) => {
                ph = check_package(p.as_str(), m, ph);
            },
            None => {},
        }
    }
    if text::contains(line, "require(") {
        let paths = extract_packages_from_require(line);
        let ghost pv = require_modules_spec(line@);
        assert(paths@.map_values(|t: String| t@) =~~= pv);
        let k = paths.len();
        let ghost mid = ph@.map_values(|s: String| s@);
        assert(pv.skip(0) =~= pv);
        for i in 0..k
            invariant
                k == paths@.len(),
                k == pv.len(),
                forall|j: int| 0 <= j < k ==> paths@[j]@ == #[trigger] pv[j],
                add_phantoms_list(ph@.map_values(|s: String| s@), m, pv.skip(i as int))
                    =~~= add_phantoms_list(mid, m, pv),
        {
            assert(pv.skip(i as int).first() == pv[i as int]);
            assert(pv.skip(i as int).drop_first() =~= pv.skip(i + 1));
            ph = check_package(paths[i].as_str(), m, ph);
        }
        assert(pv.skip(k as int).len() == 0);
    }
    if text::contains(line, "import(") {
        match extract_package_from_dynamic_import(line) {
            Some(p) => {
                ph = check_package(p.as_str(), m, ph);
            },
            None => {},
        }
    }
    ph
}

/// Scan one source file's text for phantom imports.
pub fn scan_file_for_imports(content: &str, m: &Manifest, phantoms: Vec<String>) -> (r: Vec<String>)
    ensures
        r@.map_values(|s: String| s@) =~~= scan_file_spec(
            phantoms@.map_values(|s: String| s@),
            m,
            content@,
        ),
{
    let lines = text::lines(content);
    let ghost lv = text::lines_spec(content@);
    assert(text::views_of(lines@) =~~= lv);
    let n = lines.len();
    let mut ph = phantoms;
    let ghost start = ph@.map_values(|s: String| s@);
    assert(lv.skip(0) =~= lv);
    for i in 0..n
        invariant
            n == lines@.len(),
            n == lv.len(),
            forall|j: int| 0 <= j < n ==> lines@[j]@ == #[trigger] lv[j],
            scan_lines_spec(ph@.map_values(|s: String| s@), m, lv.skip(i as int))
                =~~= scan_lines_spec(start, m, lv),
    {
        assert(lv.skip(i as int).first() == lv[i as int]);
        assert(lv.skip(i as int).drop_first() =~= lv.skip(i + 1));
        ph = scan_line_exec(ph, m, lines[i]);
    }
    assert(lv.skip(n as int).len() == 0);
    ph
}

// ---------------------------------------------------------------------------
// Deprecated packages
// ---------------------------------------------------------------------------

/// One deprecation advisory, when the package is declared.
pub open spec fn deprecated_finding(
    m: &Manifest,
    name: Seq<char>,
    suggestion: Seq<char>,
) -> Seq<FindingModel> {
    if lookup_pairs(m.dependencies@, name) is Some || lookup_pairs(m.dev_dependencies@, name)
        is Some {
        seq![
            with_fix_model(
                msg_model(
                    "Deprecated: "@ + name,
                    "deps"@,
                    CheckSeverity::Warning,
                    "`"@ + name + "` is deprecated or has better alternatives"@,
                ),
                suggestion,
            ),
        ]
    } else {
        Seq::empty()
    }
}

/// The fixed denylist's advisories, in list order.
pub open spec fn deprecated_findings_spec(m: &Manifest) -> Seq<FindingModel> {
    deprecated_finding(m, "request"@, "Use `node-fetch` or `axios` instead"@) + deprecated_finding(
        m,
        "node-sass"@,
        "Use `sass` (Dart Sass) instead"@,
    ) + deprecated_finding(m, "tslint"@, "Use `eslint` with `@typescript-eslint` instead"@)
        + deprecated_finding(m, "left-pad"@, "Use String.prototype.padStart() instead"@)
        + deprecated_finding(
        m,
        "moment"@,
        "Consider `date-fns` or `dayjs` for smaller bundle size"@,
    )
}

fn push_deprecated(results: &mut Vec<CheckResult>, m: &Manifest, name: &str, suggestion: &str)
    ensures
        finding_models(final(results)@) =~~= finding_models(old(results)@) + deprecated_finding(
            m,
            name@,
            suggestion@,
        ),
{
    let ghost before = finding_models(results@);
    let in_deps = lookup_pairs_exec(&m.dependencies, name).is_some();
    let in_dev = lookup_pairs_exec(&m.dev_dependencies, name).is_some();
    if in_deps || in_dev {
        let f = CheckResult::warning(
            String::from_str("Deprecated: ").concat(name).as_str(),
            "deps",
            String::from_str("`").concat(name).concat(
                "` is deprecated or has better alternatives",
            ).as_str(),
        ).with_fix(suggestion);
        let ghost fm = crate::checks::finding_model(&f);
        results.push(f);
        assert(finding_models(results@) =~~= before + seq![fm]);
    } else {
        assert(finding_models(results@) =~~= before + Seq::<FindingModel>::empty());
    }
}

/// Advisories for the fixed denylist of deprecated packages.
pub fn check_deprecated_packages(m: &Manifest, results: &mut Vec<CheckResult>)
    ensures
        finding_models(final(results)@) =~~= finding_models(old(results)@)
            + deprecated_findings_spec(m),
{
    push_deprecated(results, m, "request", "Use `node-fetch` or `axios` instead");
    push_deprecated(results, m, "node-sass", "Use `sass` (Dart Sass) instead");
    push_deprecated(results, m, "tslint", "Use `eslint` with `@typescript-eslint` instead");
    push_deprecated(results, m, "left-pad", "Use String.prototype.padStart() instead");
    push_deprecated(results, m, "moment", "Consider `date-fns` or `dayjs` for smaller bundle size");
}

} // verus!

verus! {

// ---------------------------------------------------------------------------
// Lockfile entries
// ---------------------------------------------------------------------------

/// The direct-dependency name of one lockfile `packages` key: a top-level
/// `node_modules/` entry, scoped names kept to their first two pieces.
pub open spec fn npm_lockfile_name_spec(key: Seq<char>) -> Option<Seq<char>> {
    if text::starts_with_spec(key, "node_modules/"@) && !text::contains_sub(
        key,
        "/node_modules/"@,
    ) {
        let pkg = key.skip(13);
        if pkg.len() > 0 && pkg[0] == '@' {
            let parts = text::split_char_spec(pkg, '/');
            if parts.len() >= 2 {
                Some(parts[0] + "/"@ + parts[1])
            } else {
                None
            }
        } else {
            Some(version::before_char_spec(pkg, '/'))
        }
    } else {
        None
    }
}

/// Read one lockfile `packages` key as a direct-dependency name.
pub fn npm_lockfile_name(key: &str) -> (r: Option<String>)
    ensures
        match r {
            Some(v) => npm_lockfile_name_spec(key@) == Some(v@),
            None => npm_lockfile_name_spec(key@) is None,
        },
{
    proof {
        reveal_strlit("node_modules/");
    }
    if text::starts_with(key, "node_modules/") && !text::contains(key, "/node_modules/") {
        let pkg = key.substring_char(13, key.unicode_len());
        assert(pkg@ =~= key@.skip(13));
        let plen = pkg.unicode_len();
        if plen > 0 && pkg.get_char(0) == '@' {
            let parts = text::split_char(pkg, '/');
            let ghost pv = text::split_char_spec(pkg@, '/');
            assert(text::views_of(parts@) =~~= pv);
            if parts.len() >= 2 {
                assert(parts@[0]@ == pv[0] && parts@[1]@ == pv[1]);
                Some(String::from_str(parts[0]).concat("/").concat(parts[1]))
            } else {
                None
            }
        } else {
            Some(version::before_char(pkg, '/').to_owned())
        }
    } else {
        None
    }
}

/// A content-store lockfile key split into name and version at the last
/// `@` marker (the scope prefix kept).
pub open spec fn pnpm_lockfile_entry_spec(key: Seq<char>) -> Option<(Seq<char>, Seq<char>)> {
    let pkg = text::trim_char_start_spec(key, '/');
    if pkg.len() > 0 && pkg[0] == '@' {
        let parts = text::split_char_spec(pkg, '/');
        if parts.len() >= 2 {
            let nv = parts[1];
            match text::rfind_char_spec(nv, '@') {
                Some(at) => if 0 <= at < nv.len() {
                    Some((parts[0] + "/"@ + nv.take(at), nv.skip(at + 1)))
                } else {
                    None
                },
                None => None,
            }
        } else {
            None
        }
    } else {
        match text::rfind_char_spec(pkg, '@') {
            Some(at) => if 0 <= at < pkg.len() {
                Some((pkg.take(at), pkg.skip(at + 1)))
            } else {
                None
            },
            None => None,
        }
    }
}

/// Read one content-store lockfile key as a (name, version) pair.
pub fn pnpm_lockfile_entry(key: &str) -> (r: Option<(String, String)>)
    ensures
        match r {
            Some(p) => pnpm_lockfile_entry_spec(key@) == Some((p.0@, p.1@)),
            None => pnpm_lockfile_entry_spec(key@) is None,
        },
{
    let pkg = text::trim_char_start(key, '/');
    let plen = pkg.unicode_len();
    if plen > 0 && pkg.get_char(0) == '@' {
        let parts = text::split_char(pkg, '/');
        let ghost pv = text::split_char_spec(pkg@, '/');
        assert(text::views_of(parts@) =~~= pv);
        if parts.len() >= 2 {
            assert(parts@[1]@ == pv[1]);
            let nv = parts[1];
            let nvlen = nv.unicode_len();
            proof {
                text::lemma_rfind_in_range(nv@, '@');
            }
            match text::rfind_char(nv, '@') {
                Some(at) => {
                    let name_tail = nv.substring_char(0, at);
                    assert(name_tail@ =~= nv@.take(at as int));
                    let ver = nv.substring_char(at + 1, nvlen);
                    assert(ver@ =~= nv@.skip(at + 1));
                    assert(parts@[0]@ == pv[0]);
                    let name = String::from_str(parts[0]).concat("/").concat(name_tail);
                    Some((name, ver.to_owned()))
                },
                None => None,
            }
        } else {
            None
        }
    } else {
        proof {
            text::lemma_rfind_in_range(pkg@, '@');
        }
        match text::rfind_char(pkg, '@') {
            Some(at) => {
                let name = pkg.substring_char(0, at);
                assert(name@ =~= pkg@.take(at as int));
                let ver = pkg.substring_char(at + 1, plen);
                assert(ver@ =~= pkg@.skip(at + 1));
                Some((name.to_owned(), ver.to_owned()))
            },
            None => None,
        }
    }
}

} // verus!

verus! {

// ---------------------------------------------------------------------------
// Installed-versus-declared versions
// ---------------------------------------------------------------------------

/// Keys of the pairs not yet in the accumulator, appended in order.
pub open spec fn dedup_keys(acc: Seq<Seq<char>>, pairs: Seq<(String, String)>) -> Seq<Seq<char>>
    decreases pairs.len(),
{
    if pairs.len() == 0 {
        acc
    } else {
        let next = if acc.contains(pairs.first().0@) {
            acc
        } else {
            acc.push(pairs.first().0@)
        };
        dedup_keys(next, pairs.drop_first())
    }
}

/// The direct dependencies: declared and development names, in manifest
/// order, each once.
pub open spec fn direct_deps_spec(m: &Manifest) -> Seq<Seq<char>> {
    dedup_keys(dedup_keys(Seq::empty(), m.dependencies@), m.dev_dependencies@)
}

/// One mismatch line per direct dependency whose installed version
/// differs from the lockfile's.
pub open spec fn mismatches_spec(
    direct: Seq<Seq<char>>,
    lock_versions: Seq<(String, String)>,
    installed: Seq<(String, String)>,
) -> Seq<Seq<char>>
    decreases direct.len(),
{
    if direct.len() == 0 {
        Seq::empty()
    } else {
        let rest = mismatches_spec(direct.drop_last(), lock_versions, installed);
        let d = direct.last();
        match (lookup_pairs(lock_versions, d), lookup_pairs(installed, d)) {
            (Some(expected), Some(found)) => if found != expected {
                rest + seq![d + ": expected "@ + expected + " but found "@ + found]
            } else {
                rest
            },
            _ => rest,
        }
    }
}

proof fn lemma_mismatches_take_succ(
    direct: Seq<Seq<char>>,
    lock_versions: Seq<(String, String)>,
    installed: Seq<(String, String)>,
    i: int,
)
    requires
        0 <= i < direct.len(),
    ensures
        mismatches_spec(direct.take(i + 1), lock_versions, installed) == mismatches_spec(
            direct.take(i),
            lock_versions,
            installed,
        ) + (match (lookup_pairs(lock_versions, direct[i]), lookup_pairs(installed, direct[i])) {
            (Some(expected), Some(found)) => if found != expected {
                seq![direct[i] + ": expected "@ + expected + " but found "@ + found]
            } else {
                Seq::<Seq<char>>::empty()
            },
            _ => Seq::<Seq<char>>::empty(),
        }),
{
    assert(direct.take(i + 1).drop_last() =~= direct.take(i));
    assert(direct.take(i + 1).last() == direct[i]);
    if (match (lookup_pairs(lock_versions, direct[i]), lookup_pairs(installed, direct[i])) {
        (Some(expected), Some(found)) => found == expected,
        _ => true,
    }) {
        assert(mismatches_spec(direct.take(i + 1), lock_versions, installed) =~~= mismatches_spec(
            direct.take(i),
            lock_versions,
            installed,
        ) + Seq::<Seq<char>>::empty());
    }
}

/// The whole-check outcome over the mismatch lines: a pass when none,
/// else an error listing at most two and counting the rest.
pub open spec fn node_modules_match_finding(mismatches: Seq<Seq<char>>) -> FindingModel {
    if mismatches.len() == 0 {
        pass_model("node_modules matches lockfile"@, "deps"@)
    } else {
        let listed = if mismatches.len() <= 2 {
            "Version mismatches: "@ + text::join_spec(mismatches, "; "@)
        } else {
            "Version mismatches: "@ + text::join_spec(mismatches.take(2), "; "@) + "; and "@
                + text::dec_spec((mismatches.len() - 2) as nat) + " more"@
        };
        with_fix_model(
            msg_model(
                "node_modules matches lockfile"@,
                "deps"@,
                CheckSeverity::Error,
                listed,
            ),
            "Run `npm ci` or `pnpm install --frozen-lockfile` to reinstall"@,
        )
    }
}

fn direct_deps_exec(m: &Manifest) -> (r: Vec<String>)
    ensures
        r@.map_values(|s: String| s@) =~~= direct_deps_spec(m),
{
    let mut out: Vec<String> = Vec::new();
    let ghost empty_acc = Seq::<Seq<char>>::empty();
    let n = m.dependencies.len();
    assert(m.dependencies@.skip(0) =~= m.dependencies@);
    assert(out@.map_values(|s: String| s@) =~~= empty_acc);
    for i in 0..n
        invariant
            n == m.dependencies@.len(),
            dedup_keys(out@.map_values(|s: String| s@), m.dependencies@.skip(i as int))
                =~~= dedup_keys(empty_acc, m.dependencies@),
    {
        assert(m.dependencies@.skip(i as int).first() == m.dependencies@[i as int]);
        assert(m.dependencies@.skip(i as int).drop_first() =~= m.dependencies@.skip(i + 1));
        let ghost cur = out@.map_values(|s: String| s@);
        if !phantoms_contain(&out, m.dependencies[i].0.as_str()) {
            out.push(m.dependencies[i].0.clone());
            assert(out@.map_values(|s: String| s@) =~~= cur.push(m.dependencies@[i as int].0@));
        }
    }
    assert(m.dependencies@.skip(n as int).len() == 0);
    let ghost mid = out@.map_values(|s: String| s@);
    assert(mid =~~= dedup_keys(empty_acc, m.dependencies@));
    let k = m.dev_dependencies.len();
    assert(m.dev_dependencies@.skip(0) =~= m.dev_dependencies@);
    for i in 0..k
        invariant
            k == m.dev_dependencies@.len(),
            dedup_keys(out@.map_values(|s: String| s@), m.dev_dependencies@.skip(i as int))
                =~~= dedup_keys(mid, m.dev_dependencies@),
    {
        assert(m.dev_dependencies@.skip(i as int).first() == m.dev_dependencies@[i as int]);
        assert(m.dev_dependencies@.skip(i as int).drop_first() =~= m.dev_dependencies@.skip(i + 1));
        let ghost cur = out@.map_values(|s: String| s@);
        if !phantoms_contain(&out, m.dev_dependencies[i].0.as_str()) {
            out.push(m.dev_dependencies[i].0.clone());
            assert(out@.map_values(|s: String| s@) =~~= cur.push(m.dev_dependencies@[i as int].0@));
        }
    }
    assert(m.dev_dependencies@.skip(k as int).len() == 0);
    out
}

/// Compare each direct dependency's installed version with the lockfile's
/// and report the mismatches, two spelled out and the rest counted.
pub fn check_node_modules_match(
    m: &Manifest,
    lock_versions: &Vec<(String, String)>,
    installed: &Vec<(String, String)>,
) -> (r: CheckResult)
    ensures
        crate::checks::finding_model(&r) =~= node_modules_match_finding(
            mismatches_spec(direct_deps_spec(m), lock_versions@, installed@),
        ),
{
    let direct = direct_deps_exec(m);
    let ghost dv = direct@.map_values(|s: String| s@);
    let n = direct.len();
    let mut mismatches: Vec<String> = Vec::new();
    assert(dv.take(0) =~= Seq::<Seq<char>>::empty());
    for i in 0..n
        invariant
            n == direct@.len(),
            n == dv.len(),
            forall|j: int| 0 <= j < n ==> direct@[j]@ == #[trigger] dv[j],
            mismatches@.map_values(|s: String| s@) =~~= mismatches_spec(
                dv.take(i as int),
                lock_versions@,
                installed@,
            ),
    {
        proof {
            lemma_mismatches_take_succ(dv, lock_versions@, installed@, i as int);
        }
        let ghost prev = mismatches@.map_values(|s: String| s@);
        match lookup_pairs_exec(lock_versions, direct[i].as_str()) {
            Some(expected) => {
                match lookup_pairs_exec(installed, direct[i].as_str()) {
                    Some(found) => {
                        if !text::str_eq(found.as_str(), expected.as_str()) {
                            let line = String::from_str(direct[i].as_str()).concat(
                                ": expected ",
                            ).concat(expected.as_str()).concat(" but found ").concat(
                                found.as_str(),
                            );
                            mismatches.push(line);
                            assert(mismatches@.map_values(|s: String| s@) =~~= prev.push(
                                dv[i as int] + ": expected "@ + expected@ + " but found "@
                                    + found@,
                            ));
                        }
                    },
                    None => {},
                }
            },
            None => {},
        }
        assert(mismatches@.map_values(|s: String| s@) =~~= mismatches_spec(
            dv.take(i + 1),
            lock_versions@,
            installed@,
        ));
    }
    assert(dv.take(n as int) =~= dv);
    let ghost mv = mismatches@.map_values(|s: String| s@);
    if mismatches.len() == 0 {
        CheckResult::pass("node_modules matches lockfile", "deps")
    } else {
        let listed: String = if mismatches.len() <= 2 {
            String::from_str("Version mismatches: ").concat(
                text::join_strings(&mismatches, "; ").as_str(),
            )
        } else {
            let mut head: Vec<String> = Vec::new();
            head.push(mismatches[0].clone());
            head.push(mismatches[1].clone());
            assert(head@.map_values(|s: String| s@) =~~= mv.take(2));
            let extra = mismatches.len() - 2;
            String::from_str("Version mismatches: ").concat(
                text::join_strings(&head, "; ").as_str(),
            ).concat("; and ").concat(text::u64_to_string(extra as u64).as_str()).concat(" more")
        };
        CheckResult::error("node_modules matches lockfile", "deps", listed.as_str()).with_fix(
            "Run `npm ci` or `pnpm install --frozen-lockfile` to reinstall",
        )
    }
}

} // verus!

verus! {

// ---------------------------------------------------------------------------
// Peer conflicts and the assembled run
// ---------------------------------------------------------------------------

/// The package manager's tree listing, already decoded: the problems it
/// reported when its output parsed, or why it could not be consulted.
#[derive(Debug, Clone)]
pub enum TreeListing {
    /// The listing parsed; these are its problem lines (possibly none).
    Parsed(Vec<String>),
    /// The listing produced output that did not parse.
    Unparsed,
    /// The listing command timed out.
    TimedOut,
    /// The package manager could not be started.
    Unavailable,
}

/// The problem lines that speak of peer conflicts.
pub open spec fn peer_issues_spec(problems: Seq<String>) -> Seq<Seq<char>>
    decreases problems.len(),
{
    if problems.len() == 0 {
        Seq::empty()
    } else {
        let rest = peer_issues_spec(problems.drop_last());
        let p = problems.last()@;
        if text::contains_sub(p, "peer dep"@) || text::contains_sub(p, "ERESOLVE"@) {
            rest + seq![p]
        } else {
            rest
        }
    }
}

proof fn lemma_peer_issues_take_succ(problems: Seq<String>, i: int)
    requires
        0 <= i < problems.len(),
    ensures
        peer_issues_spec(problems.take(i + 1)) == peer_issues_spec(problems.take(i)) + (
        if text::contains_sub(problems[i]@, "peer dep"@) || text::contains_sub(
            problems[i]@,
            "ERESOLVE"@,
        ) {
            seq![problems[i]@]
        } else {
            Seq::<Seq<char>>::empty()
        }),
{
    assert(problems.take(i + 1).drop_last() =~= problems.take(i));
    assert(problems.take(i + 1).last() == problems[i]);
    if !(text::contains_sub(problems[i]@, "peer dep"@) || text::contains_sub(
        problems[i]@,
        "ERESOLVE"@,
    )) {
        assert(peer_issues_spec(problems.take(i + 1)) =~~= peer_issues_spec(problems.take(i))
            + Seq::<Seq<char>>::empty());
    }
}

/// One warning for each of the first three peer issues.
pub open spec fn peer_issue_findings(issues: Seq<Seq<char>>) -> Seq<FindingModel>
    decreases issues.len(),
{
    if issues.len() == 0 {
        Seq::empty()
    } else {
        peer_issue_findings(issues.drop_last()) + seq![
            with_fix_model(
                msg_model(
                    "Peer dependency conflict"@,
                    "deps"@,
                    CheckSeverity::Warning,
                    issues.last(),
                ),
                "Run `npm install` to attempt resolution or check versions"@,
            ),
        ]
    }
}

/// The peer findings of a tree listing: its conflicts as warnings (at
/// most three spelled out, the rest counted), a clean pass otherwise;
/// a timeout degrades to a warning, not an error.
pub open spec fn peer_findings_spec(tree: &TreeListing) -> Seq<FindingModel> {
    match tree {
        TreeListing::Parsed(problems) => {
            let issues = peer_issues_spec(problems@);
            if issues.len() == 0 {
                seq![pass_model("Peer dependencies"@, "deps"@)]
            } else {
                let head = peer_issue_findings(issues.take(if issues.len() < 3 {
                    issues.len() as int
                } else {
                    3
                }));
                if issues.len() > 3 {
                    head + seq![
                        msg_model(
                            "Peer dependencies"@,
                            "deps"@,
                            CheckSeverity::Warning,
                            text::dec_spec((issues.len() - 3) as nat)
                                + " more peer dependency issues found"@,
                        ),
                    ]
                } else {
                    head
                }
            }
        },
        TreeListing::Unparsed => seq![pass_model("Peer dependencies"@, "deps"@)],
        TreeListing::TimedOut => seq![
            with_fix_model(
                msg_model(
                    "Peer dependencies"@,
                    "deps"@,
                    CheckSeverity::Warning,
                    "npm ls command timed out - skipping peer dependency check"@,
                ),
                "Try running `npm ls` manually to check for issues"@,
            ),
        ],
        TreeListing::Unavailable => seq![pass_model("Peer dependencies"@, "deps"@)],
    }
}

/// Surface peer conflicts from the manager's tree listing.
pub fn check_peer_dependencies(tree: &TreeListing) -> (r: Vec<CheckResult>)
    ensures
        finding_models(r@) =~~= peer_findings_spec(tree),
{
    let mut results: Vec<CheckResult> = Vec::new();
    match tree {
        TreeListing::Parsed(problems) => {
            let n = problems.len();
            let mut issues: Vec<String> = Vec::new();
            assert(problems@.take(0) =~= Seq::<String>::empty());
            for i in 0..n
                invariant
                    n == problems@.len(),
                    issues@.map_values(|s: String| s@) =~~= peer_issues_spec(
                        problems@.take(i as int),
                    ),
            {
                proof {
                    lemma_peer_issues_take_succ(problems@, i as int);
                }
                let ghost prev = issues@.map_values(|s: String| s@);
                if text::contains(problems[i].as_str(), "peer dep") || text::contains(
                    problems[i].as_str(),
                    "ERESOLVE",
                ) {
                    issues.push(problems[i].clone());
                    assert(issues@.map_values(|s: String| s@) =~~= prev.push(
                        problems@[i as int]@,
                    ));
                }
                assert(issues@.map_values(|s: String| s@) =~~= peer_issues_spec(
                    problems@.take(i + 1),
                ));
            }
            assert(problems@.take(n as int) =~= problems@);
            let ghost iv = issues@.map_values(|s: String| s@);
            let total = issues.len();
            if total == 0 {
                results.push(CheckResult::pass("Peer dependencies", "deps"));
            } else {
                let shown = if total < 3 {
                    total
                } else {
                    3
                };
                for i in 0..shown
                    invariant
                        shown <= issues@.len(),
                        iv == issues@.map_values(|s: String| s@),
                        shown == (if iv.len() < 3 {
                            iv.len() as int
                        } else {
                            3
                        }),
                        finding_models(results@) =~~= peer_issue_findings(iv.take(i as int)),
                {
                    let ghost prev = finding_models(results@);
                    let f = CheckResult::warning(
                        "Peer dependency conflict",
                        "deps",
                        issues[i].as_str(),
                    ).with_fix("Run `npm install` to attempt resolution or check versions");
                    let ghost fm = crate::checks::finding_model(&f);
                    results.push(f);
                    proof {
                        assert(iv.take(i + 1).drop_last() =~= iv.take(i as int));
                        assert(iv.take(i + 1).last() == iv[i as int]);
                    }
                    assert(finding_models(results@) =~~= prev + seq![fm]);
                    assert(finding_models(results@) =~~= peer_issue_findings(iv.take(i + 1)));
                }
                if total > 3 {
                    let extra = total - 3;
                    let ghost prev = finding_models(results@);
                    let f = CheckResult::warning(
                        "Peer dependencies",
                        "deps",
                        text::u64_to_string(extra as u64).concat(
                            " more peer dependency issues found",
                        ).as_str(),
                    );
                    let ghost fm = crate::checks::finding_model(&f);
                    results.push(f);
                    assert(finding_models(results@) =~~= prev + seq![fm]);
                }
            }
        },
        TreeListing::Unparsed => {
            results.push(CheckResult::pass("Peer dependencies", "deps"));
        },
        TreeListing::TimedOut => {
            results.push(
                CheckResult::warning(
                    "Peer dependencies",
                    "deps",
                    "npm ls command timed out - skipping peer dependency check",
                ).with_fix("Try running `npm ls` manually to check for issues"),
            );
        },
        TreeListing::Unavailable => {
            results.push(CheckResult::pass("Peer dependencies", "deps"));
        },
    }
    results
}

} // verus!

verus! {

// ---------------------------------------------------------------------------
// Phantom findings and the assembled dependency run
// ---------------------------------------------------------------------------

/// The phantom outcome: a pass when none were found, else a warning
/// listing at most five and counting the rest.
pub open spec fn phantom_finding_spec(phantoms: Seq<Seq<char>>) -> FindingModel {
    if phantoms.len() == 0 {
        pass_model("No phantom dependencies"@, "deps"@)
    } else {
        let message = if phantoms.len() > 5 {
            "Found "@ + text::dec_spec(phantoms.len()) + " phantom dependencies: "@
                + text::join_spec(phantoms.take(5), ", "@) + ", and "@ + text::dec_spec(
                (phantoms.len() - 5) as nat,
            ) + " more"@
        } else {
            "Found phantom dependencies: "@ + text::join_spec(phantoms, ", "@)
        };
        with_fix_model(
            msg_model("Phantom dependencies"@, "deps"@, CheckSeverity::Warning, message),
            "Add missing dependencies to package.json or remove unused imports"@,
        )
    }
}

/// Every source file folded into the phantom set, in listing order.
pub open spec fn scan_files_spec(m: &Manifest, files: Seq<String>) -> Seq<Seq<char>>
    decreases files.len(),
{
    if files.len() == 0 {
        Seq::empty()
    } else {
        scan_file_spec(scan_files_spec(m, files.drop_last()), m, files.last()@)
    }
}

/// Scan the recognised source files for phantom dependencies and report.
pub fn check_phantom_dependencies(m: &Manifest, source_files: &Vec<String>) -> (r: CheckResult)
    ensures
        crate::checks::finding_model(&r) =~= phantom_finding_spec(
            scan_files_spec(m, source_files@),
        ),
{
    let n = source_files.len();
    let mut phantoms: Vec<String> = Vec::new();
    assert(source_files@.take(0) =~= Seq::<String>::empty());
    assert(phantoms@.map_values(|s: String| s@) =~~= Seq::<Seq<char>>::empty());
    for i in 0..n
        invariant
            n == source_files@.len(),
            phantoms@.map_values(|s: String| s@) =~~= scan_files_spec(
                m,
                source_files@.take(i as int),
            ),
    {
        proof {
            assert(source_files@.take(i + 1).drop_last() =~= source_files@.take(i as int));
            assert(source_files@.take(i + 1).last() == source_files@[i as int]);
        }
        phantoms = scan_file_for_imports(source_files[i].as_str(), m, phantoms);
        assert(phantoms@.map_values(|s: String| s@) =~~= scan_files_spec(
            m,
            source_files@.take(i + 1),
        ));
    }
    assert(source_files@.take(n as int) =~= source_files@);
    let ghost pv = phantoms@.map_values(|s: String| s@);
    let total = phantoms.len();
    if total == 0 {
        CheckResult::pass("No phantom dependencies", "deps")
    } else {
        let message: String = if total > 5 {
            let mut head: Vec<String> = Vec::new();
            let mut k: usize = 0;
            while k < 5
                invariant
                    total == phantoms@.len(),
                    total > 5,
                    0 <= k <= 5,
                    head@ =~= phantoms@.take(k as int),
                decreases 5 - k,
            {
                head.push(phantoms[k].clone());
                assert(head@ =~= phantoms@.take(k + 1));
                k = k + 1;
            }
            assert(head@.map_values(|s: String| s@) =~~= pv.take(5));
            String::from_str("Found ").concat(text::u64_to_string(total as u64).as_str()).concat(
                " phantom dependencies: ",
            ).concat(text::join_strings(&head, ", ").as_str()).concat(", and ").concat(
                text::u64_to_string((total - 5) as u64).as_str(),
            ).concat(" more")
        } else {
            String::from_str("Found phantom dependencies: ").concat(
                text::join_strings(&phantoms, ", ").as_str(),
            )
        };
        CheckResult::warning("Phantom dependencies", "deps", message.as_str()).with_fix(
            "Add missing dependencies to package.json or remove unused imports",
        )
    }
}

/// What the caller gathered about the installed tree.
#[derive(Debug)]
pub struct DepsFacts {
    /// The installed tree exists at all.
    pub node_modules_present: bool,
    /// Its binaries directory exists.
    pub bin_present: bool,
    /// Lockfile (name, version) entries; nothing when no lockfile could
    /// be read.
    pub lockfile_versions: Option<Vec<(String, String)>>,
    /// The installed version of each direct dependency found on disk.
    pub installed_versions: Vec<(String, String)>,
    /// The package manager's tree listing, decoded.
    pub tree: TreeListing,
    /// The contents of the recognised source files, for phantom scanning.
    pub source_files: Vec<String>,
}

/// Every dependency finding, in order: nothing at all without an
/// installed tree; else the lockfile match (when both manifest and
/// lockfile data are readable), the binaries pass, the deprecation
/// advisories, the peer outcomes, and the phantom outcome.
pub open spec fn deps_checks_spec(m: Option<&Manifest>, facts: &DepsFacts) -> Seq<FindingModel> {
    if !facts.node_modules_present {
        Seq::empty()
    } else {
        let match_part: Seq<FindingModel> = match (m, &facts.lockfile_versions) {
            (Some(mm), Some(lv)) => if lv@.len() == 0 {
                Seq::empty()
            } else {
                seq![
                    node_modules_match_finding(
                        mismatches_spec(direct_deps_spec(mm), lv@, facts.installed_versions@),
                    ),
                ]
            },
            _ => Seq::empty(),
        };
        let bin_part: Seq<FindingModel> = if facts.bin_present {
            seq![pass_model("Binaries installed"@, "deps"@)]
        } else {
            Seq::empty()
        };
        let depr_part: Seq<FindingModel> = match m {
            Some(mm) => deprecated_findings_spec(mm),
            None => Seq::empty(),
        };
        let phantom_part: Seq<FindingModel> = match m {
            Some(mm) => seq![phantom_finding_spec(scan_files_spec(mm, facts.source_files@))],
            None => Seq::empty(),
        };
        match_part + bin_part + depr_part + peer_findings_spec(&facts.tree) + phantom_part
    }
}

/// Run the dependency checks over the gathered facts.
pub fn run_checks(m: Option<&Manifest>, facts: &DepsFacts) -> (r: Vec<CheckResult>)
    ensures
        finding_models(r@) =~~= deps_checks_spec(m, facts),
{
    let mut results: Vec<CheckResult> = Vec::new();
    if !facts.node_modules_present {
        return results;
    }
    match (m, &facts.lockfile_versions) {
        (Some(mm), Some(lv)) => {
            if lv.len() > 0 {
                results.push(check_node_modules_match(mm, lv, &facts.installed_versions));
            }
        },
        _ => {},
    }
    if facts.bin_present {
        results.push(CheckResult::pass("Binaries installed", "deps"));
    }
    match m {
        Some(mm) => {
            check_deprecated_packages(mm, &mut results);
        },
        None => {},
    }
    let ghost before_peer = finding_models(results@);
    let mut peer = check_peer_dependencies(&facts.tree);
    let ghost peer_models = finding_models(peer@);
    results.append(&mut peer);
    assert(finding_models(results@) =~~= before_peer + peer_models);
    match m {
        Some(mm) => {
            let ghost before_ph = finding_models(results@);
            let f = check_phantom_dependencies(mm, &facts.source_files);
            let ghost fm = crate::checks::finding_model(&f);
            results.push(f);
            assert(finding_models(results@) =~~= before_ph + seq![fm]);
        },
        None => {},
    }
    results
}

} // verus!
