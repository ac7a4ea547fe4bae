//! The conflict resolver: a line-oriented accumulator that extracts
//! structured dependency conflicts from free-form package-manager
//! diagnostics, and the registry-informed search for a compatible fix.

use vstd::prelude::*;
use crate::text;
use crate::version;

verus! {

use vstd::string::StrSliceExecFns;
use vstd::string::StringExecFns;

/// One unsatisfied peer requirement, extracted from diagnostics.
#[derive(Debug, Clone)]
pub struct DependencyConflict {
    /// The package that must move.
    pub package: String,
    /// Its installed version.
    pub current_version: String,
    /// The dependency whose requirement is unmet.
    pub conflicting_dep: String,
    /// What that dependency requires.
    pub required_range: String,
    /// The installed version, possibly annotated with the registry's own
    /// proposal.
    pub actual_version: String,
}

/// The mathematical model of a conflict record.
#[verifier::ext_equal]
pub ghost struct ConflictModel {
    pub package: Seq<char>,
    pub current_version: Seq<char>,
    pub conflicting_dep: Seq<char>,
    pub required_range: Seq<char>,
    pub actual_version: Seq<char>,
}

pub open spec fn conflict_model(c: &DependencyConflict) -> ConflictModel {
    ConflictModel {
        package: c.package@,
        current_version: c.current_version@,
        conflicting_dep: c.conflicting_dep@,
        required_range: c.required_range@,
        actual_version: c.actual_version@,
    }
}

pub open spec fn conflict_models(s: Seq<DependencyConflict>) -> Seq<ConflictModel> {
    s.map_values(|c: DependencyConflict| conflict_model(&c))
}

/// A suggested fix for one conflict.
#[derive(Debug, Clone)]
pub struct ConflictResolution {
    pub package: String,
    pub current_version: String,
    pub suggested_version: String,
    pub reason: String,
}

#[verifier::ext_equal]
pub ghost struct ResolutionModel {
    pub package: Seq<char>,
    pub current_version: Seq<char>,
    pub suggested_version: Seq<char>,
    pub reason: Seq<char>,
}

pub open spec fn resolution_model(r: &ConflictResolution) -> ResolutionModel {
    ResolutionModel {
        package: r.package@,
        current_version: r.current_version@,
        suggested_version: r.suggested_version@,
        reason: r.reason@,
    }
}

// ---------------------------------------------------------------------------
// The accumulator
// ---------------------------------------------------------------------------

/// The accumulator threaded through the fold over diagnostic lines.
#[verifier::ext_equal]
pub ghost struct ParseModel {
    pub current_package: Seq<char>,
    pub conflicting_dep: Seq<char>,
    pub required_range: Seq<char>,
    pub actual_version: Seq<char>,
    pub suggested_version: Seq<char>,
    pub found_eresolve: bool,
    pub found_dep: Seq<char>,
    pub conflicts: Seq<ConflictModel>,
}

pub open spec fn initial_parse_model() -> ParseModel {
    ParseModel {
        current_package: Seq::empty(),
        conflicting_dep: Seq::empty(),
        required_range: Seq::empty(),
        actual_version: Seq::empty(),
        suggested_version: Seq::empty(),
        found_eresolve: false,
        found_dep: Seq::empty(),
        conflicts: Seq::empty(),
    }
}

/// The text after the first occurrence of an anchor, up to its next
/// occurrence, if the anchor occurs at all.
pub open spec fn after_anchor(line: Seq<char>, anchor: Seq<char>) -> Option<Seq<char>> {
    let parts = text::split_str_spec(line, anchor);
    if parts.len() >= 2 {
        Some(parts[1])
    } else {
        None
    }
}

/// An `ERESOLVE` marker opens (or continues) a conflict block.
pub open spec fn upd_eresolve(st: ParseModel, l: Seq<char>) -> ParseModel {
    if text::contains_sub(l, "ERESOLVE"@) {
        ParseModel { found_eresolve: true, ..st }
    } else {
        st
    }
}

/// `While resolving: X@Y` names the top-level package being resolved.
pub open spec fn upd_resolving(st: ParseModel, l: Seq<char>) -> ParseModel {
    if text::contains_sub(l, "While resolving:"@) {
        match after_anchor(l, "While resolving:"@) {
            Some(rest) => {
                let pkg = text::trim_spec(rest);
                match text::rfind_char_spec(pkg, '@') {
                    Some(at) => if 0 <= at <= pkg.len() {
                        ParseModel { current_package: pkg.take(at), ..st }
                    } else {
                        st
                    },
                    None => st,
                }
            },
            None => st,
        }
    } else {
        st
    }
}

/// `Found: X@Y` (not a nested store path) is authoritative for what is
/// actually installed.
pub open spec fn upd_found(st: ParseModel, l: Seq<char>) -> ParseModel {
    if text::contains_sub(l, "Found:"@) && !text::contains_sub(l, "node_modules"@) {
        match after_anchor(l, "Found:"@) {
            Some(rest) => {
                let pkg = text::trim_spec(rest);
                match text::rfind_char_spec(pkg, '@') {
                    Some(at) => if 0 <= at < pkg.len() {
                        ParseModel {
                            conflicting_dep: pkg.take(at),
                            actual_version: pkg.skip(at + 1),
                            found_dep: pkg.take(at),
                            ..st
                        }
                    } else {
                        st
                    },
                    None => st,
                }
            },
            None => st,
        }
    } else {
        st
    }
}

/// A `peer ... from X@Y` line captures the required range, but only when
/// its dependency name matches the most recent `Found:` line (or refines
/// an empty capture for the same dependency).
pub open spec fn upd_peer(st: ParseModel, l: Seq<char>) -> ParseModel {
    if (text::contains_sub(l, "peer "@) || text::contains_sub(l, "peerOptional "@))
        && text::contains_sub(l, " from "@) {
        let start = match text::find_sub_spec(l, "peerOptional "@) {
            Some(p) => p + "peerOptional "@.len(),
            None => match text::find_sub_spec(l, "peer "@) {
                Some(p) => p + "peer "@.len(),
                None => 0,
            },
        };
        if 0 <= start <= l.len() {
            let after_peer = l.skip(start);
            match text::find_sub_spec(after_peer, " from "@) {
                Some(fi) => if 0 <= fi <= after_peer.len() {
                    let requirement = text::trim_spec(after_peer.take(fi));
                    match text::rfind_char_spec(requirement, '@') {
                        Some(at) => if 0 <= at < requirement.len() {
                            let dep = requirement.take(at);
                            let range = text::trim_char_spec(
                                text::trim_char_spec(requirement.skip(at + 1), '"'),
                                '\'',
                            );
                            if dep.len() > 0 && (dep =~= st.found_dep || (st.required_range.len()
                                == 0 && st.conflicting_dep =~= dep)) {
                                ParseModel { conflicting_dep: dep, required_range: range, ..st }
                            } else {
                                st
                            }
                        } else {
                            st
                        },
                        None => st,
                    }
                } else {
                    st
                },
                None => st,
            }
        } else {
            st
        }
    } else {
        st
    }
}

/// `Conflicting peer dependency: X@Y` records the registry's own
/// proposed version.
pub open spec fn upd_conflicting(st: ParseModel, l: Seq<char>) -> ParseModel {
    if text::contains_sub(l, "Conflicting peer dependency:"@) {
        match after_anchor(l, "Conflicting peer dependency:"@) {
            Some(rest) => {
                let pkg = text::trim_spec(rest);
                match text::rfind_char_spec(pkg, '@') {
                    Some(at) => if 0 <= at < pkg.len() {
                        let name = pkg.take(at);
                        if name =~= st.conflicting_dep || name =~= st.found_dep {
                            ParseModel {
                                conflicting_dep: name,
                                suggested_version: pkg.skip(at + 1),
                                ..st
                            }
                        } else {
                            st
                        }
                    } else {
                        st
                    },
                    None => st,
                }
            },
            None => st,
        }
    } else {
        st
    }
}

/// The record one flush produces.
pub open spec fn flushed_conflict(st: ParseModel) -> ConflictModel {
    ConflictModel {
        package: st.conflicting_dep,
        current_version: st.actual_version,
        conflicting_dep: st.current_package,
        required_range: st.required_range,
        actual_version: if st.suggested_version.len() > 0 {
            st.actual_version + " (suggested: "@ + st.suggested_version + ")"@
        } else {
            st.actual_version
        },
    }
}

/// A terminator line flushes one conflict and resets only the suggested
/// version; the other captures persist for reuse.
pub open spec fn upd_flush(st: ParseModel, l: Seq<char>) -> ParseModel {
    if text::contains_sub(l, "Could not resolve dependency"@) {
        if st.conflicting_dep.len() > 0 && st.actual_version.len() > 0 {
            ParseModel {
                conflicts: st.conflicts.push(flushed_conflict(st)),
                suggested_version: Seq::empty(),
                ..st
            }
        } else {
            st
        }
    } else {
        st
    }
}

/// One trimmed line applied to the accumulator: every anchor in order,
/// later ones refining earlier captures.
pub open spec fn step_line(st: ParseModel, raw: Seq<char>) -> ParseModel {
    let l = text::trim_spec(raw);
    upd_flush(
        upd_conflicting(upd_peer(upd_found(upd_resolving(upd_eresolve(st, l), l), l), l), l),
        l,
    )
}

pub open spec fn run_lines(st: ParseModel, lines: Seq<Seq<char>>) -> ParseModel
    decreases lines.len(),
{
    if lines.len() == 0 {
        st
    } else {
        run_lines(step_line(st, lines.first()), lines.drop_first())
    }
}

/// No recorded conflict names this package.
pub open spec fn no_conflict_for(conflicts: Seq<ConflictModel>, name: Seq<char>) -> bool {
    forall|i: int| 0 <= i < conflicts.len() ==> (#[trigger] conflicts[i]).package != name
}

/// Input that ends inside a conflict block with nothing recorded for its
/// package flushes once at end of input.
pub open spec fn finalize_parse(st: ParseModel) -> Seq<ConflictModel> {
    if st.found_eresolve && st.conflicting_dep.len() > 0 && st.actual_version.len() > 0
        && no_conflict_for(st.conflicts, st.conflicting_dep) {
        st.conflicts.push(flushed_conflict(st))
    } else {
        st.conflicts
    }
}

/// The conflicts extracted from a whole diagnostic stream.
pub open spec fn parse_conflicts_spec(output: Seq<char>) -> Seq<ConflictModel> {
    finalize_parse(run_lines(initial_parse_model(), text::lines_spec(output)))
}

} // verus!

verus! {

struct ParserState {
    current_package: String,
    conflicting_dep: String,
    required_range: String,
    actual_version: String,
    suggested_version: String,
    found_eresolve: bool,
    found_dep: String,
    conflicts: Vec<DependencyConflict>,
}

spec fn parser_model(st: &ParserState) -> ParseModel {
    ParseModel {
        current_package: st.current_package@,
        conflicting_dep: st.conflicting_dep@,
        required_range: st.required_range@,
        actual_version: st.actual_version@,
        suggested_version: st.suggested_version@,
        found_eresolve: st.found_eresolve,
        found_dep: st.found_dep@,
        conflicts: conflict_models(st.conflicts@),
    }
}

fn after_anchor_exec<'a>(l: &'a str, anchor: &str) -> (r: Option<&'a str>)
    requires
        anchor@.len() > 0,
    ensures
        match r {
            Some(t) => after_anchor(l@, anchor@) == Some(t@),
            None => after_anchor(l@, anchor@) is None,
        },
{
    let parts = text::split_str(l, anchor);
    let ghost pv = text::split_str_spec(l@, anchor@);
    assert(text::views_of(parts@) =~~= pv);
    if parts.len() >= 2 {
        assert(parts@[1]@ == pv[1]);
        Some(parts[1])
    } else {
        None
    }
}

fn upd_eresolve_exec(st: ParserState, l: &str) -> (r: ParserState)
    ensures
        parser_model(&r) =~~= upd_eresolve(parser_model(&st), l@),
{
    if text::contains(l, "ERESOLVE") {
        ParserState { found_eresolve: true, ..st }
    } else {
        st
    }
}

fn upd_resolving_exec(st: ParserState, l: &str) -> (r: ParserState)
    ensures
        parser_model(&r) =~~= upd_resolving(parser_model(&st), l@),
{
    proof {
        reveal_strlit("While resolving:");
    }
    if text::contains(l, "While resolving:") {
        match after_anchor_exec(l, "While resolving:") {
            Some(rest) => {
                let pkg = text::trim(rest);
                proof {
                    text::lemma_rfind_in_range(pkg@, '@');
                }
                match text::rfind_char(pkg, '@') {
                    Some(at) => {
                        let name = pkg.substring_char(0, at);
                        assert(name@ =~= pkg@.take(at as int));
                        ParserState { current_package: name.to_owned(), ..st }
                    },
                    None => st,
                }
            },
            None => st,
        }
    } else {
        st
    }
}

fn upd_found_exec(st: ParserState, l: &str) -> (r: ParserState)
    ensures
        parser_model(&r) =~~= upd_found(parser_model(&st), l@),
{
    proof {
        reveal_strlit("Found:");
    }
    if text::contains(l, "Found:") && !text::contains(l, "node_modules") {
        match after_anchor_exec(l, "Found:") {
            Some(rest) => {
                let pkg = text::trim(rest);
                let plen = pkg.unicode_len();
                proof {
                    text::lemma_rfind_in_range(pkg@, '@');
                }
                match text::rfind_char(pkg, '@') {
                    Some(at) => {
                        let name = pkg.substring_char(0, at);
                        assert(name@ =~= pkg@.take(at as int));
                        let ver = pkg.substring_char(at + 1, plen);
                        assert(ver@ =~= pkg@.skip(at + 1));
                        ParserState {
                            conflicting_dep: name.to_owned(),
                            actual_version: ver.to_owned(),
                            found_dep: name.to_owned(),
                            ..st
                        }
                    },
                    None => st,
                }
            },
            None => st,
        }
    } else {
        st
    }
}

fn upd_peer_exec(st: ParserState, l: &str) -> (r: ParserState)
    ensures
        parser_model(&r) =~~= upd_peer(parser_model(&st), l@),
{
    proof {
        reveal_strlit("peerOptional ");
        reveal_strlit("peer ");
        reveal_strlit(" from ");
        text::lemma_find_sub_from(l@, "peerOptional "@, 0);
        text::lemma_find_sub_from(l@, "peer "@, 0);
    }
    if (text::contains(l, "peer ") || text::contains(l, "peerOptional ")) && text::contains(
        l,
        " from ",
    ) {
        let llen = l.unicode_len();
        let start: usize = match text::find_sub(l, "peerOptional ") {
            Some(p) => p + 13,
            None => match text::find_sub(l, "peer ") {
                Some(p) => p + 5,
                None => 0,
            },
        };
        assert(start <= l@.len());
        let after_peer = l.substring_char(start, llen);
        assert(after_peer@ =~= l@.skip(start as int));
        proof {
            text::lemma_find_sub_from(after_peer@, " from "@, 0);
        }
        match text::find_sub(after_peer, " from ") {
            Some(fi) => {
                let req_raw = after_peer.substring_char(0, fi);
                assert(req_raw@ =~= after_peer@.take(fi as int));
                let requirement = text::trim(req_raw);
                let rlen = requirement.unicode_len();
                proof {
                    text::lemma_rfind_in_range(requirement@, '@');
                }
                match text::rfind_char(requirement, '@') {
                    Some(at) => {
                        let dep = requirement.substring_char(0, at);
                        assert(dep@ =~= requirement@.take(at as int));
                        let range_raw = requirement.substring_char(at + 1, rlen);
                        assert(range_raw@ =~= requirement@.skip(at + 1));
                        let range = text::trim_char(text::trim_char(range_raw, '"'), '\'');
                        let take_it = dep.unicode_len() > 0 && (text::str_eq(dep, st.found_dep.as_str())
                            || (st.required_range.as_str().unicode_len() == 0 && text::str_eq(
                            st.conflicting_dep.as_str(),
                            dep,
                        )));
                        if take_it {
                            ParserState {
                                conflicting_dep: dep.to_owned(),
                                required_range: range.to_owned(),
                                ..st
                            }
                        } else {
                            st
                        }
                    },
                    None => st,
                }
            },
            None => st,
        }
    } else {
        st
    }
}

fn upd_conflicting_exec(st: ParserState, l: &str) -> (r: ParserState)
    ensures
        parser_model(&r) =~~= upd_conflicting(parser_model(&st), l@),
{
    proof {
        reveal_strlit("Conflicting peer dependency:");
    }
    if text::contains(l, "Conflicting peer dependency:") {
        match after_anchor_exec(l, "Conflicting peer dependency:") {
            Some(rest) => {
                let pkg = text::trim(rest);
                let plen = pkg.unicode_len();
                proof {
                    text::lemma_rfind_in_range(pkg@, '@');
                }
                match text::rfind_char(pkg, '@') {
                    Some(at) => {
                        let name = pkg.substring_char(0, at);
                        assert(name@ =~= pkg@.take(at as int));
                        let ver = pkg.substring_char(at + 1, plen);
                        assert(ver@ =~= pkg@.skip(at + 1));
                        if text::str_eq(name, st.conflicting_dep.as_str()) || text::str_eq(
                            name,
                            st.found_dep.as_str(),
                        ) {
                            ParserState {
                                conflicting_dep: name.to_owned(),
                                suggested_version: ver.to_owned(),
                                ..st
                            }
                        } else {
                            st
                        }
                    },
                    None => st,
                }
            },
            None => st,
        }
    } else {
        st
    }
}

fn flushed_conflict_exec(st: &ParserState) -> (r: DependencyConflict)
    ensures
        conflict_model(&r) =~= flushed_conflict(parser_model(st)),
{
    let annotated: String = if st.suggested_version.as_str().unicode_len() > 0 {
        String::from_str(st.actual_version.as_str()).concat(" (suggested: ").concat(
            st.suggested_version.as_str(),
        ).concat(")")
    } else {
        st.actual_version.clone()
    };
    DependencyConflict {
        package: st.conflicting_dep.clone(),
        current_version: st.actual_version.clone(),
        conflicting_dep: st.current_package.clone(),
        required_range: st.required_range.clone(),
        actual_version: annotated,
    }
}

fn upd_flush_exec(st: ParserState, l: &str) -> (r: ParserState)
    ensures
        parser_model(&r) =~~= upd_flush(parser_model(&st), l@),
{
    if text::contains(l, "Could not resolve dependency") {
        if st.conflicting_dep.as_str().unicode_len() > 0 && st.actual_version.as_str().unicode_len()
            > 0 {
            let ghost prev = conflict_models(st.conflicts@);
            let c = flushed_conflict_exec(&st);
            let ghost cm = conflict_model(&c);
            let mut conflicts = st.conflicts;
            conflicts.push(c);
            assert(conflict_models(conflicts@) =~~= prev.push(cm));
            ParserState { conflicts, suggested_version: String::new(), ..st }
        } else {
            st
        }
    } else {
        st
    }
}

fn step_line_exec(st: ParserState, raw: &str) -> (r: ParserState)
    ensures
        parser_model(&r) =~~= step_line(parser_model(&st), raw@),
{
    let l = text::trim(raw);
    let st1 = upd_eresolve_exec(st, l);
    let st2 = upd_resolving_exec(st1, l);
    let st3 = upd_found_exec(st2, l);
    let st4 = upd_peer_exec(st3, l);
    let st5 = upd_conflicting_exec(st4, l);
    upd_flush_exec(st5, l)
}

/// Extract every conflict record from a package manager's diagnostic
/// stream: a fold of the anchor rules over its lines, with one final
/// flush when the stream ends inside an unfinished conflict block.
pub fn parse_npm_conflicts(output: &str) -> (r: Vec<DependencyConflict>)
    ensures
        conflict_models(r@) =~~= parse_conflicts_spec(output@),
{
    let lines = text::lines(output);
    let ghost lv = text::lines_spec(output@);
    assert(text::views_of(lines@) =~~= lv);
    let n = lines.len();
    let mut st = ParserState {
        current_package: String::new(),
        conflicting_dep: String::new(),
        required_range: String::new(),
        actual_version: String::new(),
        suggested_version: String::new(),
        found_eresolve: false,
        found_dep: String::new(),
        conflicts: Vec::new(),
    };
    assert(parser_model(&st) =~~= initial_parse_model());
    assert(lv.skip(0) =~= lv);
    let ghost target = run_lines(initial_parse_model(), lv);
    assert(run_lines(parser_model(&st), lv.skip(0)) =~~= target);
    for i in 0..n
        invariant
            n == lines@.len(),
            n == lv.len(),
            forall|j: int| 0 <= j < n ==> lines@[j]@ == #[trigger] lv[j],
            target == run_lines(initial_parse_model(), lv),
            run_lines(parser_model(&st), lv.skip(i as int)) == target,
    {
        assert(lv.skip(i as int).first() == lv[i as int]);
        assert(lv.skip(i as int).drop_first() =~= lv.skip(i + 1));
        let ghost before = parser_model(&st);
        let next = step_line_exec(st, lines[i]);
        st = next;
        assert(parser_model(&st) == step_line(before, lv[i as int]));
        assert(run_lines(parser_model(&st), lv.skip(i + 1)) == target);
    }
    assert(lv.skip(n as int).len() == 0);
    assert(parser_model(&st) == target);
    // Final flush for a stream that ended inside a conflict block.
    if st.found_eresolve && st.conflicting_dep.as_str().unicode_len() > 0
        && st.actual_version.as_str().unicode_len() > 0 {
        let m = st.conflicts.len();
        let mut fresh: bool = true;
        for i in 0..m
            invariant
                m == st.conflicts@.len(),
                fresh == forall|j: int|
                    0 <= j < i ==> (#[trigger] conflict_models(st.conflicts@)[j]).package
                        != st.conflicting_dep@,
        {
            let same = text::str_eq(st.conflicts[i].package.as_str(), st.conflicting_dep.as_str());
            assert(conflict_models(st.conflicts@)[i as int].package == st.conflicts@[i as int].package@);
            fresh = fresh && !same;
            assert(fresh == forall|j: int|
                0 <= j < i + 1 ==> (#[trigger] conflict_models(st.conflicts@)[j]).package
                    != st.conflicting_dep@);
        }
        assert(fresh == no_conflict_for(conflict_models(st.conflicts@), st.conflicting_dep@));
        if fresh {
            let ghost prev = conflict_models(st.conflicts@);
            let c = flushed_conflict_exec(&st);
            let ghost cm = conflict_model(&c);
            let mut conflicts = st.conflicts;
            conflicts.push(c);
            assert(conflict_models(conflicts@) =~~= prev.push(cm));
            assert(conflict_models(conflicts@) =~~= finalize_parse(target));
            return conflicts;
        }
    }
    assert(conflict_models(st.conflicts@) =~~= finalize_parse(target));
    st.conflicts
}

} // verus!

verus! {

// ---------------------------------------------------------------------------
// Resolution search over a registry version list
// ---------------------------------------------------------------------------

/// One version of a package as the registry lists it: the version text,
/// whether it declares peer requirements, and its requirement on the
/// conflicting dependency, if any.
#[derive(Debug, Clone)]
pub struct VersionRecord {
    pub version: String,
    pub has_peers: bool,
    pub peer_req: Option<String>,
}

#[verifier::ext_equal]
pub ghost struct RecModel {
    pub version: Seq<char>,
    pub has_peers: bool,
    pub peer_req: Option<Seq<char>>,
}

pub open spec fn rec_model(r: &VersionRecord) -> RecModel {
    RecModel {
        version: r.version@,
        has_peers: r.has_peers,
        peer_req: match r.peer_req {
            Some(q) => Some(q@),
            None => None,
        },
    }
}

pub open spec fn rec_models(s: Seq<VersionRecord>) -> Seq<RecModel> {
    s.map_values(|r: VersionRecord| rec_model(&r))
}

/// A record's sort key: the loose numeric triple of its version.
pub open spec fn rec_key(r: RecModel) -> (u64, u64, u64) {
    version::loose_triple_spec(r.version)
}

/// `x` placed before the first record whose triple is not above `x`'s:
/// a stable descending arrangement when folded over the list.
pub open spec fn insert_desc(x: RecModel, s: Seq<RecModel>) -> Seq<RecModel>
    decreases s.len(),
{
    if s.len() == 0 {
        seq![x]
    } else if !version::triple_lt(rec_key(x), rec_key(s.first())) {
        seq![x] + s
    } else {
        seq![s.first()] + insert_desc(x, s.drop_first())
    }
}

/// The registry list sorted newest first, ties keeping listing order.
pub open spec fn sort_desc(s: Seq<RecModel>) -> Seq<RecModel>
    decreases s.len(),
{
    if s.len() == 0 {
        Seq::empty()
    } else {
        insert_desc(s.first(), sort_desc(s.drop_first()))
    }
}

/// A pre-release candidate is skipped unless the installed version is
/// itself a pre-release.
pub open spec fn prerelease_skipped(v: Seq<char>, current: Seq<char>) -> bool {
    text::find_char_spec(v, '-') is Some && !(text::find_char_spec(current, '-') is Some)
}

/// The newest candidate that satisfies the captured range directly.
pub open spec fn find_direct_upgrade(
    list: Seq<RecModel>,
    range: Seq<char>,
    current: Seq<char>,
) -> Option<Seq<char>>
    decreases list.len(),
{
    if list.len() == 0 {
        None
    } else if prerelease_skipped(list.first().version, current) {
        find_direct_upgrade(list.drop_first(), range, current)
    } else if version::version_satisfies_spec(list.first().version, range) {
        Some(list.first().version)
    } else {
        find_direct_upgrade(list.drop_first(), range, current)
    }
}

/// The newest candidate whose own peer requirement on the conflicting
/// dependency admits the installed version, or which lists peers without
/// naming it at all.
pub open spec fn find_peer_compatible(
    list: Seq<RecModel>,
    actual: Seq<char>,
    current: Seq<char>,
) -> Option<(Seq<char>, Option<Seq<char>>)>
    decreases list.len(),
{
    if list.len() == 0 {
        None
    } else if prerelease_skipped(list.first().version, current) {
        find_peer_compatible(list.drop_first(), actual, current)
    } else if list.first().has_peers {
        match list.first().peer_req {
            Some(req) => if version::version_satisfies_spec(actual, req) {
                Some((list.first().version, Some(req)))
            } else {
                find_peer_compatible(list.drop_first(), actual, current)
            },
            None => Some((list.first().version, None)),
        }
    } else {
        find_peer_compatible(list.drop_first(), actual, current)
    }
}

/// The installed version with a trailing proposal annotation removed.
pub open spec fn actual_base_spec(actual: Seq<char>) -> Seq<char> {
    match text::find_sub_spec(actual, " ("@) {
        Some(i) => if 0 <= i <= actual.len() {
            actual.take(i)
        } else {
            actual
        },
        None => actual,
    }
}

/// The resolution of one conflict against a registry version list: the
/// newest version satisfying the captured range, else the newest whose
/// peer declaration admits the installed version; none is ever guessed.
pub open spec fn find_resolution_spec(c: ConflictModel, recs: Seq<RecModel>) -> Option<
    ResolutionModel,
> {
    let sorted = sort_desc(recs);
    let direct = if c.required_range.len() > 0 {
        find_direct_upgrade(sorted, c.required_range, c.current_version)
    } else {
        None
    };
    match direct {
        Some(v) => Some(
            ResolutionModel {
                package: c.package,
                current_version: c.current_version,
                suggested_version: v,
                reason: c.conflicting_dep + " requires "@ + c.package + " "@ + c.required_range,
            },
        ),
        None => {
            let actual = actual_base_spec(c.actual_version);
            match find_peer_compatible(sorted, actual, c.current_version) {
                Some((v, Some(req))) => Some(
                    ResolutionModel {
                        package: c.package,
                        current_version: c.current_version,
                        suggested_version: v,
                        reason: "v"@ + v + " supports "@ + c.conflicting_dep + " (requires "@ + req
                            + ")"@,
                    },
                ),
                Some((v, None)) => Some(
                    ResolutionModel {
                        package: c.package,
                        current_version: c.current_version,
                        suggested_version: v,
                        reason: "v"@ + v + " has no peer requirement for "@ + c.conflicting_dep,
                    },
                ),
                None => None,
            }
        },
    }
}

fn insert_rec(x: VersionRecord, v: Vec<VersionRecord>) -> (r: Vec<VersionRecord>)
    ensures
        rec_models(r@) =~~= insert_desc(rec_model(&x), rec_models(v@)),
    decreases v@.len(),
{
    let ghost sv = rec_models(v@);
    if v.len() == 0 {
        let mut r: Vec<VersionRecord> = Vec::new();
        r.push(x);
        assert(rec_models(r@) =~~= seq![rec_model(&x)]);
        r
    } else {
        assert(rec_model(&v@[0]) == sv[0] && sv.first() == sv[0]);
        let kx = version::loose_triple(x.version.as_str());
        let kf = version::loose_triple(v[0].version.as_str());
        if !(kx.0 < kf.0 || (kx.0 == kf.0 && (kx.1 < kf.1 || (kx.1 == kf.1 && kx.2 < kf.2)))) {
            let ghost xm = rec_model(&x);
            let mut r = v;
            r.insert(0, x);
            assert(rec_models(r@) =~~= seq![xm] + sv);
            r
        } else {
            let mut w = v;
            let first = w.remove(0);
            assert(rec_models(w@) =~~= sv.drop_first());
            let ghost fm = rec_model(&first);
            let mut rest = insert_rec(x, w);
            rest.insert(0, first);
            assert(rec_models(rest@) =~~= seq![fm] + insert_desc(rec_model(&x), sv.drop_first()));
            rest
        }
    }
}

/// Sort registry records newest first (stable on equal triples).
pub fn sort_records_desc(v: Vec<VersionRecord>) -> (r: Vec<VersionRecord>)
    ensures
        rec_models(r@) =~~= sort_desc(rec_models(v@)),
    decreases v@.len(),
{
    let ghost sv = rec_models(v@);
    if v.len() == 0 {
        let r: Vec<VersionRecord> = Vec::new();
        assert(rec_models(r@) =~~= Seq::<RecModel>::empty());
        r
    } else {
        assert(rec_model(&v@[0]) == sv[0] && sv.first() == sv[0]);
        let mut w = v;
        let first = w.remove(0);
        assert(rec_models(w@) =~~= sv.drop_first());
        let sorted_rest = sort_records_desc(w);
        let ghost srv = rec_models(sorted_rest@);
        let r = insert_rec(first, sorted_rest);
        assert(srv =~~= sort_desc(sv.drop_first()));
        assert(insert_desc(rec_model(&first), srv) =~~= insert_desc(
            rec_model(&first),
            sort_desc(sv.drop_first()),
        ));
        assert(rec_models(r@) =~~= sort_desc(sv));
        r
    }
}

fn is_prerelease_skipped(v: &str, current: &str) -> (r: bool)
    ensures
        r == prerelease_skipped(v@, current@),
{
    proof {
        text::lemma_find_char_from(v@, '-', 0);
        text::lemma_find_char_from(current@, '-', 0);
    }
    text::find_char(v, '-').is_some() && !text::find_char(current, '-').is_some()
}

/// Search a registry version list for a fix to one conflict.  The list is
/// sorted newest first; pre-release candidates are skipped unless the
/// installed version is itself a pre-release; the captured range is tried
/// directly first, then each candidate's own peer declaration.
pub fn find_resolution(conflict: &DependencyConflict, versions: Vec<VersionRecord>) -> (r: Option<
    ConflictResolution,
>)
    ensures
        match r {
            Some(res) => find_resolution_spec(conflict_model(conflict), rec_models(versions@))
                == Some(resolution_model(&res)),
            None => find_resolution_spec(conflict_model(conflict), rec_models(versions@)) is None,
        },
{
    let ghost rv = rec_models(versions@);
    let sorted = sort_records_desc(versions);
    let ghost sortedm = sort_desc(rv);
    assert(rec_models(sorted@) =~~= sortedm);
    let n = sorted.len();
    // Direct upgrade: a version satisfying the captured range.
    if conflict.required_range.as_str().unicode_len() > 0 {
        let mut i: usize = 0;
        assert(sortedm.skip(0) =~= sortedm);
        while i < n
            invariant
                n == sorted@.len(),
                n == sortedm.len(),
                sortedm == sort_desc(rec_models(versions@)),
                conflict.required_range@.len() > 0,
                forall|j: int| 0 <= j < n ==> rec_model(&sorted@[j]) == #[trigger] sortedm[j],
                find_direct_upgrade(
                    sortedm,
                    conflict.required_range@,
                    conflict.current_version@,
                ) == find_direct_upgrade(
                    sortedm.skip(i as int),
                    conflict.required_range@,
                    conflict.current_version@,
                ),
                0 <= i <= n,
            decreases n - i,
        {
            assert(sortedm.skip(i as int).first() == sortedm[i as int]);
            assert(sortedm.skip(i as int).drop_first() =~= sortedm.skip(i + 1));
            let skip = is_prerelease_skipped(
                sorted[i].version.as_str(),
                conflict.current_version.as_str(),
            );
            assert(sortedm[i as int] == rec_model(&sorted@[i as int]));
            if !skip && version::version_satisfies(
                sorted[i].version.as_str(),
                conflict.required_range.as_str(),
            ) {
                let reason = String::from_str(conflict.conflicting_dep.as_str()).concat(
                    " requires ",
                ).concat(conflict.package.as_str()).concat(" ").concat(
                    conflict.required_range.as_str(),
                );
                let res = ConflictResolution {
                    package: conflict.package.clone(),
                    current_version: conflict.current_version.clone(),
                    suggested_version: sorted[i].version.clone(),
                    reason,
                };
                assert(find_direct_upgrade(
                    sortedm,
                    conflict.required_range@,
                    conflict.current_version@,
                ) == Some(sortedm[i as int].version));
                assert(resolution_model(&res) =~~= (ResolutionModel {
                    package: conflict.package@,
                    current_version: conflict.current_version@,
                    suggested_version: sortedm[i as int].version,
                    reason: conflict.conflicting_dep@ + " requires "@ + conflict.package@ + " "@
                        + conflict.required_range@,
                }));
                return Some(res);
            }
            i = i + 1;
        }
        assert(sortedm.skip(n as int).len() == 0);
    }
    // Peer-compatible candidate: its own declaration admits what is
    // installed, or names no requirement at all.
    let actual_full = conflict.actual_version.as_str();
    proof {
        text::lemma_find_sub_from(actual_full@, " ("@, 0);
    }
    let actual: &str = match text::find_sub(actual_full, " (") {
        Some(p) => {
            let head = actual_full.substring_char(0, p);
            assert(head@ =~= actual_full@.take(p as int));
            head
        },
        None => actual_full,
    };
    let mut i: usize = 0;
    assert(sortedm.skip(0) =~= sortedm);
    while i < n
        invariant
            n == sorted@.len(),
            n == sortedm.len(),
            sortedm == sort_desc(rec_models(versions@)),
            forall|j: int| 0 <= j < n ==> rec_model(&sorted@[j]) == #[trigger] sortedm[j],
            actual@ == actual_base_spec(conflict.actual_version@),
            conflict.required_range@.len() > 0 ==> find_direct_upgrade(
                sortedm,
                conflict.required_range@,
                conflict.current_version@,
            ) is None,
            find_peer_compatible(sortedm, actual@, conflict.current_version@)
                == find_peer_compatible(
                sortedm.skip(i as int),
                actual@,
                conflict.current_version@,
            ),
            0 <= i <= n,
        decreases n - i,
    {
        assert(sortedm.skip(i as int).first() == sortedm[i as int]);
        assert(sortedm.skip(i as int).drop_first() =~= sortedm.skip(i + 1));
        let skip = is_prerelease_skipped(
            sorted[i].version.as_str(),
            conflict.current_version.as_str(),
        );
        assert(sortedm[i as int] == rec_model(&sorted@[i as int]));
        if !skip && sorted[i].has_peers {
            match &sorted[i].peer_req {
                Some(req) => {
                    if version::version_satisfies(actual, req.as_str()) {
                        let reason = String::from_str("v").concat(
                            sorted[i].version.as_str(),
                        ).concat(" supports ").concat(conflict.conflicting_dep.as_str()).concat(
                            " (requires ",
                        ).concat(req.as_str()).concat(")");
                        let res = ConflictResolution {
                            package: conflict.package.clone(),
                            current_version: conflict.current_version.clone(),
                            suggested_version: sorted[i].version.clone(),
                            reason,
                        };
                        assert(find_peer_compatible(sortedm, actual@, conflict.current_version@)
                            == Some((sortedm[i as int].version, Some(req@))));
                        assert(resolution_model(&res) =~~= (ResolutionModel {
                            package: conflict.package@,
                            current_version: conflict.current_version@,
                            suggested_version: sortedm[i as int].version,
                            reason: "v"@ + sortedm[i as int].version + " supports "@
                                + conflict.conflicting_dep@ + " (requires "@ + req@ + ")"@,
                        }));
                        return Some(res);
                    }
                },
                None => {
                    let reason = String::from_str("v").concat(sorted[i].version.as_str()).concat(
                        " has no peer requirement for ",
                    ).concat(conflict.conflicting_dep.as_str());
                    let res = ConflictResolution {
                        package: conflict.package.clone(),
                        current_version: conflict.current_version.clone(),
                        suggested_version: sorted[i].version.clone(),
                        reason,
                    };
                    assert(find_peer_compatible(sortedm, actual@, conflict.current_version@)
                        == Some((sortedm[i as int].version, None::<Seq<char>>)));
                    assert(resolution_model(&res) =~~= (ResolutionModel {
                        package: conflict.package@,
                        current_version: conflict.current_version@,
                        suggested_version: sortedm[i as int].version,
                        reason: "v"@ + sortedm[i as int].version + " has no peer requirement for "@
                            + conflict.conflicting_dep@,
                    }));
                    return Some(res);
                },
            }
        }
        i = i + 1;
    }
    assert(sortedm.skip(n as int).len() == 0);
    None
}

} // verus!
