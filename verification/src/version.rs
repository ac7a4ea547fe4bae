//! Version parsing, ordering and range checking.
//!
//! The engine works on plain version triples.  Strict SemVer text is read
//! through the `semver` crate behind one trusted wrapper; every decision
//! taken on the parsed values is verified here.

use vstd::prelude::*;
use crate::text;

verus! {

use vstd::string::StrSliceExecFns;
use vstd::string::StringExecFns;

// ---------------------------------------------------------------------------
// Loose dotted-number parsing (shared by the registry and resolver helpers)
// ---------------------------------------------------------------------------

/// The prefix of `s` before the first occurrence of `c` (all of `s` if none).
pub open spec fn before_char_spec(s: Seq<char>, c: char) -> Seq<char> {
    match text::find_char_spec(s, c) {
        Some(i) => if 0 <= i <= s.len() {
            s.take(i)
        } else {
            s
        },
        None => s,
    }
}

pub fn before_char<'a>(s: &'a str, c: char) -> (r: &'a str)
    ensures
        r@ == before_char_spec(s@, c),
{
    proof {
        text::lemma_find_char_from(s@, c, 0);
    }
    match text::find_char(s, c) {
        Some(i) => {
            let r = s.substring_char(0, i);
            assert(r@ =~= s@.take(i as int));
            r
        },
        None => s,
    }
}

/// The numeric values of a sequence of pieces, unparsable pieces skipped.
pub open spec fn numeric_parts(parts: Seq<Seq<char>>) -> Seq<u64>
    decreases parts.len(),
{
    if parts.len() == 0 {
        Seq::empty()
    } else {
        let rest = numeric_parts(parts.drop_last());
        match text::parse_u64_spec(parts.last()) {
            Some(v) => rest + seq![v],
            None => rest,
        }
    }
}

pub proof fn lemma_numeric_parts_take_succ(parts: Seq<Seq<char>>, i: int)
    requires
        0 <= i < parts.len(),
    ensures
        numeric_parts(parts.take(i + 1)) == numeric_parts(parts.take(i)) + (
        match text::parse_u64_spec(parts[i]) {
            Some(v) => seq![v],
            None => Seq::<u64>::empty(),
        }),
{
    assert(parts.take(i + 1).drop_last() =~= parts.take(i));
    assert(parts.take(i + 1).last() == parts[i]);
    if text::parse_u64_spec(parts[i]) is None {
        assert(numeric_parts(parts.take(i + 1)) =~= numeric_parts(parts.take(i))
            + Seq::<u64>::empty());
    }
}

/// The numeric pieces of a dot-separated list, unparsable pieces skipped.
pub open spec fn loose_parts_spec(s: Seq<char>) -> Seq<u64> {
    numeric_parts(text::split_char_spec(s, '.'))
}

pub open spec fn part_or(parts: Seq<u64>, i: int, d: u64) -> u64 {
    if 0 <= i < parts.len() {
        parts[i]
    } else {
        d
    }
}

pub fn loose_parts(s: &str) -> (r: Vec<u64>)
    ensures
        r@ == loose_parts_spec(s@),
{
    let pieces = text::split_char(s, '.');
    let ghost pv = text::views_of(pieces@);
    let mut out: Vec<u64> = Vec::new();
    let n = pieces.len();
    assert(numeric_parts(pv.take(0)) =~= Seq::<u64>::empty());
    for i in 0..n
        invariant
            n == pieces@.len(),
            pv == text::views_of(pieces@),
            out@ =~= numeric_parts(pv.take(i as int)),
    {
        let ghost prev = out@;
        proof {
            lemma_numeric_parts_take_succ(pv, i as int);
            assert(pv[i as int] == pieces@[i as int]@);
        }
        match text::parse_u64(pieces[i]) {
            Some(v) => {
                out.push(v);
                assert(out@ =~= prev + seq![v]);
            },
            None => {},
        }
        assert(out@ =~= numeric_parts(pv.take(i + 1)));
    }
    assert(pv.take(n as int) =~= pv);
    out
}

/// The first three numeric pieces, defaulting to zero: the loose triple of a
/// dotted version, taken after cutting at the first dash.
pub open spec fn loose_triple_spec(s: Seq<char>) -> (u64, u64, u64) {
    let parts = loose_parts_spec(before_char_spec(s, '-'));
    (part_or(parts, 0, 0), part_or(parts, 1, 0), part_or(parts, 2, 0))
}

pub fn loose_triple(s: &str) -> (r: (u64, u64, u64))
    ensures
        r == loose_triple_spec(s@),
{
    let head = before_char(s, '-');
    let parts = loose_parts(head);
    let a = if parts.len() > 0 {
        parts[0]
    } else {
        0
    };
    let b = if parts.len() > 1 {
        parts[1]
    } else {
        0
    };
    let c = if parts.len() > 2 {
        parts[2]
    } else {
        0
    };
    (a, b, c)
}

/// As `loose_triple_spec`, after dropping leading `v` markers.
pub open spec fn vee_triple_spec(s: Seq<char>) -> (u64, u64, u64) {
    loose_triple_spec(text::strip_prefix_all_spec(s, "v"@))
}

pub fn vee_triple(s: &str) -> (r: (u64, u64, u64))
    ensures
        r == vee_triple_spec(s@),
{
    loose_triple(text::strip_prefix_all(s, "v"))
}

// ---------------------------------------------------------------------------
// Triple ordering
// ---------------------------------------------------------------------------

pub open spec fn triple_lt(a: (u64, u64, u64), b: (u64, u64, u64)) -> bool {
    a.0 < b.0 || (a.0 == b.0 && (a.1 < b.1 || (a.1 == b.1 && a.2 < b.2)))
}

/// Ordering of two dotted version strings by their loose triples,
/// ascending; used descending by the callers that sort newest-first.
pub open spec fn compare_versions_spec(a: Seq<char>, b: Seq<char>) -> core::cmp::Ordering {
    let ta = loose_triple_spec(a);
    let tb = loose_triple_spec(b);
    if triple_lt(ta, tb) {
        core::cmp::Ordering::Less
    } else if triple_lt(tb, ta) {
        core::cmp::Ordering::Greater
    } else {
        core::cmp::Ordering::Equal
    }
}

/// Compare two version strings by major, minor and patch alone.
pub fn compare_versions(a: &str, b: &str) -> (r: core::cmp::Ordering)
    ensures
        r == compare_versions_spec(a@, b@),
{
    let ta = loose_triple(a);
    let tb = loose_triple(b);
    if ta.0 < tb.0 || (ta.0 == tb.0 && (ta.1 < tb.1 || (ta.1 == tb.1 && ta.2 < tb.2))) {
        core::cmp::Ordering::Less
    } else if tb.0 < ta.0 || (tb.0 == ta.0 && (tb.1 < ta.1 || (tb.1 == ta.1 && tb.2 < ta.2))) {
        core::cmp::Ordering::Greater
    } else {
        core::cmp::Ordering::Equal
    }
}

} // verus!

verus! {

// ---------------------------------------------------------------------------
// Strict SemVer values
// ---------------------------------------------------------------------------

/// A parsed semantic version: numeric triple plus pre-release text
/// (empty when the version is a release).
pub struct SemVer {
    pub major: u64,
    pub minor: u64,
    pub patch: u64,
    pub pre: String,
}

/// The mathematical model of a `SemVer`.
#[verifier::ext_equal]
pub ghost struct VerModel {
    pub major: u64,
    pub minor: u64,
    pub patch: u64,
    pub pre: Seq<char>,
}

pub open spec fn vm(v: &SemVer) -> VerModel {
    VerModel { major: v.major, minor: v.minor, patch: v.patch, pre: v.pre@ }
}

/// What `semver::Version::parse` returns on the given text, named:
/// major, minor, patch and the pre-release identifier.
pub uninterp spec fn semver_parse_of(s: Seq<char>) -> Option<(u64, u64, u64, Seq<char>)>;

pub open spec fn semver_parse_model(s: Seq<char>) -> Option<VerModel> {
    match semver_parse_of(s) {
        Some(t) => Some(VerModel { major: t.0, minor: t.1, patch: t.2, pre: t.3 }),
        None => None,
    }
}

/// Relies on `semver::Version::parse`: reads a strict `X.Y.Z[-pre][+build]`
/// version; the result depends on the text alone.  Build metadata is not
/// kept: the engine compares versions by precedence, which ignores it.
#[verifier::external_body]
fn semver_parse_raw(s: &str) -> (r: Option<(u64, u64, u64, String)>)
    ensures
        match r {
            Some(t) => semver_parse_of(s@) == Some((t.0, t.1, t.2, t.3@)),
            None => semver_parse_of(s@) is None,
        },
{
    match semver::Version::parse(s) {
        Ok(v) => Some((v.major, v.minor, v.patch, v.pre.as_str().to_owned())),
        Err(_) => None,
    }
}

/// Parse a strict SemVer string into the engine's own version value.
pub fn semver_parse(s: &str) -> (r: Option<SemVer>)
    ensures
        match r {
            Some(v) => semver_parse_model(s@) == Some(vm(&v)),
            None => semver_parse_model(s@) is None,
        },
{
    match semver_parse_raw(s) {
        Some(t) => Some(SemVer { major: t.0, minor: t.1, patch: t.2, pre: t.3 }),
        None => None,
    }
}

// ---------------------------------------------------------------------------
// SemVer ordering
// ---------------------------------------------------------------------------

/// Lexicographic order on character sequences.
pub open spec fn chars_lt(a: Seq<char>, b: Seq<char>) -> bool
    decreases a.len(),
{
    if b.len() == 0 {
        false
    } else if a.len() == 0 {
        true
    } else if a.first() != b.first() {
        a.first() < b.first()
    } else {
        chars_lt(a.drop_first(), b.drop_first())
    }
}

/// Version precedence: numeric triple first; a pre-release sorts below the
/// release with the same triple; pre-release texts order lexicographically.
pub open spec fn sv_lt(a: VerModel, b: VerModel) -> bool {
    if a.major != b.major {
        a.major < b.major
    } else if a.minor != b.minor {
        a.minor < b.minor
    } else if a.patch != b.patch {
        a.patch < b.patch
    } else if a.pre.len() > 0 && b.pre.len() == 0 {
        true
    } else if a.pre.len() == 0 && b.pre.len() > 0 {
        false
    } else {
        chars_lt(a.pre, b.pre)
    }
}

pub open spec fn sv_eq(a: VerModel, b: VerModel) -> bool {
    a.major == b.major && a.minor == b.minor && a.patch == b.patch && a.pre =~= b.pre
}

pub fn chars_lt_exec(a: &str, b: &str) -> (r: bool)
    ensures
        r == chars_lt(a@, b@),
    decreases a@.len(),
{
    let alen = a.unicode_len();
    let blen = b.unicode_len();
    if blen == 0 {
        false
    } else if alen == 0 {
        true
    } else if a.get_char(0) != b.get_char(0) {
        a.get_char(0) < b.get_char(0)
    } else {
        let ra = a.substring_char(1, alen);
        let rb = b.substring_char(1, blen);
        assert(ra@ =~= a@.drop_first());
        assert(rb@ =~= b@.drop_first());
        chars_lt_exec(ra, rb)
    }
}

/// `a` precedes `b` in version precedence order.
pub fn sv_lt_exec(a: &SemVer, b: &SemVer) -> (r: bool)
    ensures
        r == sv_lt(vm(a), vm(b)),
{
    if a.major != b.major {
        a.major < b.major
    } else if a.minor != b.minor {
        a.minor < b.minor
    } else if a.patch != b.patch {
        a.patch < b.patch
    } else if a.pre.as_str().unicode_len() > 0 && b.pre.as_str().unicode_len() == 0 {
        true
    } else if a.pre.as_str().unicode_len() == 0 && b.pre.as_str().unicode_len() > 0 {
        false
    } else {
        chars_lt_exec(a.pre.as_str(), b.pre.as_str())
    }
}

pub fn sv_eq_exec(a: &SemVer, b: &SemVer) -> (r: bool)
    ensures
        r == sv_eq(vm(a), vm(b)),
{
    a.major == b.major && a.minor == b.minor && a.patch == b.patch && text::str_eq(
        a.pre.as_str(),
        b.pre.as_str(),
    )
}

pub open spec fn sv_le(a: VerModel, b: VerModel) -> bool {
    sv_lt(a, b) || sv_eq(a, b)
}

pub fn sv_le_exec(a: &SemVer, b: &SemVer) -> (r: bool)
    ensures
        r == sv_le(vm(a), vm(b)),
{
    sv_lt_exec(a, b) || sv_eq_exec(a, b)
}

} // verus!

verus! {

// ---------------------------------------------------------------------------
// Plain dotted versions (`X.Y[.Z]`, numeric)
// ---------------------------------------------------------------------------

/// A plainly parsed `major.minor.patch` version.
#[derive(Clone, Copy, Debug, PartialEq, Eq, Structural)]
pub struct ParsedVersion {
    pub major: u32,
    pub minor: u32,
    pub patch: u32,
}

pub open spec fn u32_part_or_zero(parts: Seq<Seq<char>>, i: int) -> u32 {
    if 0 <= i < parts.len() {
        match text::parse_u32_spec(parts[i]) {
            Some(v) => v,
            None => 0,
        }
    } else {
        0
    }
}

/// The dotted parse: the leading piece must be numeric; the second and
/// third pieces default to zero when absent or unparsable.
pub open spec fn parsed_version_spec(s: Seq<char>) -> Option<ParsedVersion> {
    let parts = text::split_char_spec(s, '.');
    match text::parse_u32_spec(parts[0]) {
        Some(maj) => Some(
            ParsedVersion {
                major: maj,
                minor: u32_part_or_zero(parts, 1),
                patch: u32_part_or_zero(parts, 2),
            },
        ),
        None => None,
    }
}

pub proof fn lemma_split_char_len(s: Seq<char>, c: char)
    ensures
        text::split_char_spec(s, c).len() >= 1,
{
}

impl ParsedVersion {
    /// Parse a version like `20.11.0` or `5.3`; `None` when the leading
    /// piece is not a number.
    pub fn parse(version: &str) -> (r: Option<ParsedVersion>)
        ensures
            r == parsed_version_spec(version@),
    {
        proof {
            lemma_split_char_len(version@, '.');
        }
        let parts = text::split_char(version, '.');
        let ghost pv = text::views_of(parts@);
        assert(pv[0] == parts@[0]@);
        let major = match text::parse_u32(parts[0]) {
            Some(v) => v,
            None => {
                return None;
            },
        };
        let minor = if parts.len() > 1 {
            assert(pv[1] == parts@[1]@);
            match text::parse_u32(parts[1]) {
                Some(v) => v,
                None => 0,
            }
        } else {
            0
        };
        let patch = if parts.len() > 2 {
            assert(pv[2] == parts@[2]@);
            match text::parse_u32(parts[2]) {
                Some(v) => v,
                None => 0,
            }
        } else {
            0
        };
        Some(ParsedVersion { major, minor, patch })
    }

    /// This version reaches the given minimum major and minor.
    pub fn meets_minimum(&self, min_major: u32, min_minor: u32) -> (r: bool)
        ensures
            r == (self.major > min_major || (self.major == min_major && self.minor >= min_minor)),
    {
        self.major > min_major || (self.major == min_major && self.minor >= min_minor)
    }
}

/// The runtime version string reaches the given minimum; unparsable
/// versions are taken as not meeting it.
pub open spec fn node_meets_minimum_spec(version: Seq<char>, min_major: u32, min_minor: u32) -> bool {
    match parsed_version_spec(version) {
        Some(v) => v.major > min_major || (v.major == min_major && v.minor >= min_minor),
        None => false,
    }
}

pub fn check_node_version_meets_minimum(node_version: &str, min_major: u32, min_minor: u32) -> (r:
    bool)
    ensures
        r == node_meets_minimum_spec(node_version@, min_major, min_minor),
{
    match ParsedVersion::parse(node_version) {
        Some(version) => version.meets_minimum(min_major, min_minor),
        None => false,
    }
}

/// The minimum (major, minor) named by an engine constraint: the first
/// alternative, its comparison operators dropped.
pub open spec fn min_version_of_constraint_spec(constraint: Seq<char>) -> Option<(u32, u32)> {
    let first = text::split_str_spec(text::trim_spec(constraint), "||"@)[0];
    let stripped = text::trim_spec(
        text::strip_prefix_all_spec(
            text::strip_prefix_all_spec(
                text::strip_prefix_all_spec(
                    text::strip_prefix_all_spec(text::trim_spec(first), ">="@),
                    ">"@,
                ),
                "^"@,
            ),
            "~"@,
        ),
    );
    match parsed_version_spec(stripped) {
        Some(v) => Some((v.major, v.minor)),
        None => None,
    }
}

pub proof fn lemma_split_str_len(s: Seq<char>, p: Seq<char>)
    ensures
        text::split_str_spec(s, p).len() >= 1,
{
}

pub fn parse_min_version_from_constraint(constraint: &str) -> (r: Option<(u32, u32)>)
    ensures
        r == min_version_of_constraint_spec(constraint@),
{
    let trimmed = text::trim(constraint);
    proof {
        reveal_strlit("||");
        lemma_split_str_len(trimmed@, "||"@);
    }
    let alternatives = text::split_str(trimmed, "||");
    assert(text::views_of(alternatives@)[0] == alternatives@[0]@);
    let first = text::trim(alternatives[0]);
    let stripped = text::trim(
        text::strip_prefix_all(
            text::strip_prefix_all(
                text::strip_prefix_all(text::strip_prefix_all(first, ">="), ">"),
                "^",
            ),
            "~",
        ),
    );
    match ParsedVersion::parse(stripped) {
        Some(v) => Some((v.major, v.minor)),
        None => None,
    }
}

} // verus!

verus! {

// ---------------------------------------------------------------------------
// Runtime version normalisation
// ---------------------------------------------------------------------------

/// Two or three dot-separated pieces, each a plain number.
pub open spec fn is_valid_semver_base_spec(s: Seq<char>) -> bool {
    let parts = text::split_char_spec(s, '.');
    2 <= parts.len() <= 3 && (forall|i: int|
        0 <= i < parts.len() ==> text::parse_u32_spec(#[trigger] parts[i]) is Some)
}

pub fn is_valid_semver_base(s: &str) -> (r: bool)
    ensures
        r == is_valid_semver_base_spec(s@),
{
    let parts = text::split_char(s, '.');
    let ghost pv = text::split_char_spec(s@, '.');
    assert(text::views_of(parts@) =~~= pv);
    let n = parts.len();
    if n < 2 || n > 3 {
        return false;
    }
    for i in 0..n
        invariant
            n == parts@.len(),
            pv == text::split_char_spec(s@, '.'),
            n == pv.len(),
            forall|j: int| 0 <= j < n ==> parts@[j]@ == #[trigger] pv[j],
            2 <= n <= 3,
            forall|j: int| 0 <= j < i ==> text::parse_u32_spec(#[trigger] pv[j]) is Some,
    {
        if text::parse_u32(parts[i]).is_none() {
            assert(text::parse_u32_spec(pv[i as int]) is None);
            return false;
        }
    }
    true
}

/// The tail is one of the recognised pre-release markers (after ASCII
/// lower-casing).
pub open spec fn known_suffix_spec(t: Seq<char>) -> bool {
    ||| text::starts_with_spec(t, "-nightly"@)
    ||| text::starts_with_spec(t, "-canary"@)
    ||| text::starts_with_spec(t, "-alpha"@)
    ||| text::starts_with_spec(t, "-beta"@)
    ||| text::starts_with_spec(t, "-rc"@)
    ||| text::starts_with_spec(t, "-pre"@)
    ||| text::starts_with_spec(t, "-dev"@)
    ||| text::starts_with_spec(t, "-test"@)
}

fn known_suffix(t: &str) -> (r: bool)
    ensures
        r == known_suffix_spec(t@),
{
    ||| text::starts_with(t, "-nightly")
    ||| text::starts_with(t, "-canary")
    ||| text::starts_with(t, "-alpha")
    ||| text::starts_with(t, "-beta")
    ||| text::starts_with(t, "-rc")
    ||| text::starts_with(t, "-pre")
    ||| text::starts_with(t, "-dev")
    ||| text::starts_with(t, "-test")
}

/// Build metadata cut at a plus sign; otherwise the text unchanged and
/// marked unsuffixed.
pub open spec fn cut_plus_spec(v: Seq<char>) -> (Seq<char>, bool) {
    match text::find_char_spec(v, '+') {
        Some(p) => if 0 <= p <= v.len() {
            (v.take(p), true)
        } else {
            (v, false)
        },
        None => (v, false),
    }
}

/// A runtime version string trimmed, the `v` marker dropped, and any
/// recognised pre-release or build suffix cut off.  The flag records
/// whether a suffix was removed.
pub open spec fn normalize_node_version_spec(s: Seq<char>) -> (Seq<char>, bool) {
    let v = text::strip_prefix_all_spec(text::trim_spec(s), "v"@);
    match text::find_char_spec(v, '-') {
        Some(h) => if 0 <= h <= v.len() {
            if known_suffix_spec(text::lower_spec(v.skip(h))) {
                (v.take(h), true)
            } else if is_valid_semver_base_spec(v.take(h)) {
                (v.take(h), true)
            } else {
                cut_plus_spec(v)
            }
        } else {
            cut_plus_spec(v)
        },
        None => cut_plus_spec(v),
    }
}

/// Normalise a runtime version string for constraint checking: strips a
/// leading `v` and recognised suffixes such as nightly or build markers.
pub fn normalize_node_version(version: &str) -> (r: (String, bool))
    ensures
        r.0@ == normalize_node_version_spec(version@).0,
        r.1 == normalize_node_version_spec(version@).1,
{
    proof {
        reveal_strlit("v");
    }
    let v = text::strip_prefix_all(text::trim(version), "v");
    let vlen = v.unicode_len();
    proof {
        text::lemma_find_char_from(v@, '-', 0);
        text::lemma_find_char_from(v@, '+', 0);
    }
    match text::find_char(v, '-') {
        Some(h) => {
            let tail = v.substring_char(h, vlen);
            assert(tail@ =~= v@.skip(h as int));
            let tail_lower = text::to_lower(tail);
            let base = v.substring_char(0, h);
            assert(base@ =~= v@.take(h as int));
            if known_suffix(tail_lower.as_str()) {
                (base.to_owned(), true)
            } else if is_valid_semver_base(base) {
                (base.to_owned(), true)
            } else {
                cut_plus(v)
            }
        },
        None => cut_plus(v),
    }
}

fn cut_plus(v: &str) -> (r: (String, bool))
    ensures
        r.0@ == cut_plus_spec(v@).0,
        r.1 == cut_plus_spec(v@).1,
{
    proof {
        text::lemma_find_char_from(v@, '+', 0);
    }
    match text::find_char(v, '+') {
        Some(p) => {
            let base = v.substring_char(0, p);
            assert(base@ =~= v@.take(p as int));
            (base.to_owned(), true)
        },
        None => (v.to_owned(), false),
    }
}

/// A lenient parse: normalise, then read as strict SemVer, padding a
/// missing patch (or minor and patch) with zero.
pub open spec fn parse_version_lenient_spec(s: Seq<char>) -> Option<VerModel> {
    let n = normalize_node_version_spec(s).0;
    match semver_parse_model(n) {
        Some(v) => Some(v),
        None => {
            let parts = text::split_char_spec(n, '.');
            if parts.len() == 2 {
                semver_parse_model(n + ".0"@)
            } else if parts.len() == 1 {
                semver_parse_model(n + ".0.0"@)
            } else {
                None
            }
        },
    }
}

pub fn parse_version_lenient(version: &str) -> (r: Option<SemVer>)
    ensures
        match r {
            Some(v) => parse_version_lenient_spec(version@) == Some(vm(&v)),
            None => parse_version_lenient_spec(version@) is None,
        },
{
    let (normalized, _) = normalize_node_version(version);
    match semver_parse(normalized.as_str()) {
        Some(v) => Some(v),
        None => {
            let parts = text::split_char(normalized.as_str(), '.');
            if parts.len() == 2 {
                let padded = normalized.concat(".0");
                semver_parse(padded.as_str())
            } else if parts.len() == 1 {
                let padded = normalized.concat(".0.0");
                semver_parse(padded.as_str())
            } else {
                None
            }
        },
    }
}

} // verus!

verus! {

// ---------------------------------------------------------------------------
// Engine constraint checking (tri-state: satisfied / violated / unrecognised)
// ---------------------------------------------------------------------------

/// Combine alternatives: satisfied when any branch is, unrecognised only
/// when every branch is.
pub open spec fn or_combine(rs: Seq<Option<bool>>) -> Option<bool> {
    if exists|i: int| 0 <= i < rs.len() && rs[i] == Some(true) {
        Some(true)
    } else if forall|i: int| 0 <= i < rs.len() ==> (#[trigger] rs[i]) is None {
        None
    } else {
        Some(false)
    }
}

/// Combine conjuncts: unrecognised when any is, else satisfied when all are.
pub open spec fn and_combine(rs: Seq<Option<bool>>) -> Option<bool> {
    if exists|i: int| 0 <= i < rs.len() && (#[trigger] rs[i]) is None {
        None
    } else {
        Some(forall|i: int| 0 <= i < rs.len() ==> rs[i] == Some(true))
    }
}

/// Nesting depth needed by the constraint grammar: alternation over
/// conjunction over atoms.
pub open spec fn constraint_fuel() -> nat {
    4
}

/// The tri-state reading of an engine constraint against a version.
/// `None` means the constraint's syntax was not recognised.
pub open spec fn check_semver_constraint_spec(constraint: Seq<char>, v: VerModel) -> Option<bool> {
    check_constraint_fueled(constraint, v, constraint_fuel())
}

pub open spec fn check_constraint_fueled(constraint: Seq<char>, v: VerModel, fuel: nat) -> Option<
    bool,
>
    decreases fuel, 0nat, 0nat,
{
    let c = text::trim_spec(constraint);
    if text::contains_sub(c, "||"@) {
        if fuel > 0 {
            or_combine(eval_alternatives(text::split_str_spec(c, "||"@), v, (fuel - 1) as nat))
        } else {
            None
        }
    } else if text::contains_sub(c, " "@) {
        if fuel > 0 {
            and_combine(eval_conjuncts(text::split_ws_spec(c), v, (fuel - 1) as nat))
        } else {
            None
        }
    } else if text::starts_with_spec(c, ">="@) {
        match parse_version_lenient_spec(text::trim_spec(text::strip_prefix_all_spec(c, ">="@))) {
            Some(m) => Some(sv_le(m, v)),
            None => None,
        }
    } else if text::starts_with_spec(c, ">"@) {
        match parse_version_lenient_spec(text::trim_spec(text::strip_prefix_all_spec(c, ">"@))) {
            Some(m) => Some(sv_lt(m, v)),
            None => None,
        }
    } else if text::starts_with_spec(c, "<="@) {
        match parse_version_lenient_spec(text::trim_spec(text::strip_prefix_all_spec(c, "<="@))) {
            Some(m) => Some(sv_le(v, m)),
            None => None,
        }
    } else if text::starts_with_spec(c, "<"@) {
        match parse_version_lenient_spec(text::trim_spec(text::strip_prefix_all_spec(c, "<"@))) {
            Some(m) => Some(sv_lt(v, m)),
            None => None,
        }
    } else if text::starts_with_spec(c, "^"@) {
        match parse_version_lenient_spec(text::trim_spec(text::strip_prefix_all_spec(c, "^"@))) {
            Some(b) => Some(v.major == b.major && sv_le(b, v)),
            None => None,
        }
    } else if text::starts_with_spec(c, "~"@) {
        match parse_version_lenient_spec(text::trim_spec(text::strip_prefix_all_spec(c, "~"@))) {
            Some(b) => Some(v.major == b.major && v.minor == b.minor && sv_le(b, v)),
            None => None,
        }
    } else if c =~= "*"@ || c =~= "x"@ || c =~= "X"@ {
        Some(true)
    } else {
        match parse_version_lenient_spec(c) {
            Some(e) => Some(sv_eq(v, e)),
            None => None,
        }
    }
}

/// Each `||` alternative, trimmed and checked.
pub open spec fn eval_alternatives(pieces: Seq<Seq<char>>, v: VerModel, fuel: nat) -> Seq<
    Option<bool>,
>
    decreases fuel, pieces.len(), 1nat,
{
    if pieces.len() == 0 {
        Seq::empty()
    } else {
        eval_alternatives(pieces.drop_last(), v, fuel) + seq![
            check_constraint_fueled(text::trim_spec(pieces.last()), v, fuel),
        ]
    }
}

/// Each space-separated conjunct, checked.
pub open spec fn eval_conjuncts(pieces: Seq<Seq<char>>, v: VerModel, fuel: nat) -> Seq<
    Option<bool>,
>
    decreases fuel, pieces.len(), 1nat,
{
    if pieces.len() == 0 {
        Seq::empty()
    } else {
        eval_conjuncts(pieces.drop_last(), v, fuel) + seq![
            check_constraint_fueled(pieces.last(), v, fuel),
        ]
    }
}

pub proof fn lemma_eval_alternatives_index(pieces: Seq<Seq<char>>, v: VerModel, fuel: nat)
    ensures
        eval_alternatives(pieces, v, fuel).len() == pieces.len(),
        forall|i: int|
            0 <= i < pieces.len() ==> eval_alternatives(pieces, v, fuel)[i]
                == check_constraint_fueled(text::trim_spec(#[trigger] pieces[i]), v, fuel),
    decreases pieces.len(),
{
    if pieces.len() > 0 {
        lemma_eval_alternatives_index(pieces.drop_last(), v, fuel);
        assert forall|i: int| 0 <= i < pieces.len() implies eval_alternatives(pieces, v, fuel)[i]
            == check_constraint_fueled(text::trim_spec(#[trigger] pieces[i]), v, fuel) by {
            if i < pieces.len() - 1 {
                assert(pieces.drop_last()[i] == pieces[i]);
                assert(eval_alternatives(pieces.drop_last(), v, fuel)[i]
                    == check_constraint_fueled(text::trim_spec(pieces.drop_last()[i]), v, fuel));
            } else {
                assert(pieces.last() == pieces[pieces.len() - 1]);
            }
        }
    }
}

pub proof fn lemma_eval_conjuncts_index(pieces: Seq<Seq<char>>, v: VerModel, fuel: nat)
    ensures
        eval_conjuncts(pieces, v, fuel).len() == pieces.len(),
        forall|i: int|
            0 <= i < pieces.len() ==> eval_conjuncts(pieces, v, fuel)[i]
                == check_constraint_fueled(#[trigger] pieces[i], v, fuel),
    decreases pieces.len(),
{
    if pieces.len() > 0 {
        lemma_eval_conjuncts_index(pieces.drop_last(), v, fuel);
        assert forall|i: int| 0 <= i < pieces.len() implies eval_conjuncts(pieces, v, fuel)[i]
            == check_constraint_fueled(#[trigger] pieces[i], v, fuel) by {
            if i < pieces.len() - 1 {
                assert(pieces.drop_last()[i] == pieces[i]);
                assert(eval_conjuncts(pieces.drop_last(), v, fuel)[i]
                    == check_constraint_fueled(pieces.drop_last()[i], v, fuel));
            } else {
                assert(pieces.last() == pieces[pieces.len() - 1]);
            }
        }
    }
}

fn check_constraint_exec(constraint: &str, version: &SemVer, fuel: u32) -> (r: Option<bool>)
    ensures
        r == check_constraint_fueled(constraint@, vm(version), fuel as nat),
    decreases fuel,
{
    let c = text::trim(constraint);
    if text::contains(c, "||") {
        if fuel == 0 {
            return None;
        }
        proof {
            reveal_strlit("||");
        }
        let pieces = text::split_str(c, "||");
        let ghost pv = text::split_str_spec(c@, "||"@);
        assert(text::views_of(pieces@) =~~= pv);
        proof {
            lemma_eval_alternatives_index(pv, vm(version), (fuel - 1) as nat);
        }
        let ghost rs = eval_alternatives(pv, vm(version), (fuel - 1) as nat);
        let n = pieces.len();
        let mut any_true: bool = false;
        let mut any_some: bool = false;
        for i in 0..n
            invariant
                n == pieces@.len(),
                n == pv.len(),
                n == rs.len(),
                forall|j: int| 0 <= j < n ==> pieces@[j]@ == #[trigger] pv[j],
                forall|j: int|
                    0 <= j < n ==> #[trigger] rs[j] == check_constraint_fueled(
                        text::trim_spec(pv[j]),
                        vm(version),
                        (fuel - 1) as nat,
                    ),
                fuel >= 1,
                any_true == exists|j: int| 0 <= j < i && rs[j] == Some(true),
                any_some == exists|j: int| 0 <= j < i && (#[trigger] rs[j]) is Some,
        {
            let piece = text::trim(pieces[i]);
            let res = check_constraint_exec(piece, version, fuel - 1);
            assert(res == rs[i as int]);
            if res == Some(true) {
                any_true = true;
            }
            if res.is_some() {
                any_some = true;
            }
        }
        if any_true {
            Some(true)
        } else if !any_some {
            assert(forall|j: int| 0 <= j < rs.len() ==> (#[trigger] rs[j]) is None);
            None
        } else {
            Some(false)
        }
    } else if text::contains(c, " ") {
        if fuel == 0 {
            return None;
        }
        let pieces = text::split_ws(c);
        let ghost pv = text::split_ws_spec(c@);
        assert(text::views_of(pieces@) =~~= pv);
        proof {
            lemma_eval_conjuncts_index(pv, vm(version), (fuel - 1) as nat);
        }
        let ghost rs = eval_conjuncts(pv, vm(version), (fuel - 1) as nat);
        let n = pieces.len();
        let mut any_none: bool = false;
        let mut all_true: bool = true;
        for i in 0..n
            invariant
                n == pieces@.len(),
                n == pv.len(),
                n == rs.len(),
                forall|j: int| 0 <= j < n ==> pieces@[j]@ == #[trigger] pv[j],
                forall|j: int|
                    0 <= j < n ==> #[trigger] rs[j] == check_constraint_fueled(
                        pv[j],
                        vm(version),
                        (fuel - 1) as nat,
                    ),
                fuel >= 1,
                any_none == exists|j: int| 0 <= j < i && (#[trigger] rs[j]) is None,
                all_true == forall|j: int| 0 <= j < i ==> rs[j] == Some(true),
        {
            let res = check_constraint_exec(pieces[i], version, fuel - 1);
            assert(res == rs[i as int]);
            if res.is_none() {
                any_none = true;
            }
            if res != Some(true) {
                all_true = false;
            }
        }
        if any_none {
            None
        } else {
            Some(all_true)
        }
    } else if text::starts_with(c, ">=") {
        match parse_version_lenient(text::trim(text::strip_prefix_all(c, ">="))) {
            Some(m) => Some(sv_le_exec(&m, version)),
            None => None,
        }
    } else if text::starts_with(c, ">") {
        match parse_version_lenient(text::trim(text::strip_prefix_all(c, ">"))) {
            Some(m) => Some(sv_lt_exec(&m, version)),
            None => None,
        }
    } else if text::starts_with(c, "<=") {
        match parse_version_lenient(text::trim(text::strip_prefix_all(c, "<="))) {
            Some(m) => Some(sv_le_exec(version, &m)),
            None => None,
        }
    } else if text::starts_with(c, "<") {
        match parse_version_lenient(text::trim(text::strip_prefix_all(c, "<"))) {
            Some(m) => Some(sv_lt_exec(version, &m)),
            None => None,
        }
    } else if text::starts_with(c, "^") {
        match parse_version_lenient(text::trim(text::strip_prefix_all(c, "^"))) {
            Some(b) => Some(version.major == b.major && sv_le_exec(&b, version)),
            None => None,
        }
    } else if text::starts_with(c, "~") {
        match parse_version_lenient(text::trim(text::strip_prefix_all(c, "~"))) {
            Some(b) => Some(
                version.major == b.major && version.minor == b.minor && sv_le_exec(&b, version),
            ),
            None => None,
        }
    } else if text::str_eq(c, "*") || text::str_eq(c, "x") || text::str_eq(c, "X") {
        Some(true)
    } else {
        match parse_version_lenient(c) {
            Some(e) => Some(sv_eq_exec(version, &e)),
            None => None,
        }
    }
}

/// Check an engine constraint against a parsed version.  `Some(b)` says the
/// constraint was understood and is (or is not) satisfied; `None` says its
/// syntax was not recognised.
pub fn check_semver_constraint(constraint: &str, version: &SemVer) -> (r: Option<bool>)
    ensures
        r == check_semver_constraint_spec(constraint@, vm(version)),
{
    check_constraint_exec(constraint, version, 4)
}

} // verus!

verus! {

// ---------------------------------------------------------------------------
// Registry range satisfaction (two-valued; an unrecognised atom fails)
// ---------------------------------------------------------------------------

pub open spec fn triple_ge(a: (u64, u64, u64), b: (u64, u64, u64)) -> bool {
    !triple_lt(a, b)
}

/// One comparison atom of a range, against a dotted version.
pub open spec fn atom_satisfies_spec(version: Seq<char>, a: Seq<char>) -> bool {
    let v = vee_triple_spec(version);
    if a =~= "*"@ || a.len() == 0 {
        true
    } else if text::starts_with_spec(a, "^"@) {
        let t = vee_triple_spec(a.skip(1));
        if t.0 == 0 {
            v.0 == 0 && v.1 == t.1 && v.2 >= t.2
        } else {
            v.0 == t.0 && (v.1 > t.1 || (v.1 == t.1 && v.2 >= t.2))
        }
    } else if text::starts_with_spec(a, "~"@) {
        let t = vee_triple_spec(a.skip(1));
        v.0 == t.0 && v.1 == t.1 && v.2 >= t.2
    } else if text::starts_with_spec(a, ">="@) {
        triple_ge(v, vee_triple_spec(a.skip(2)))
    } else if text::starts_with_spec(a, ">"@) {
        triple_lt(vee_triple_spec(a.skip(1)), v)
    } else if text::starts_with_spec(a, "<="@) {
        !triple_lt(vee_triple_spec(a.skip(2)), v)
    } else if text::starts_with_spec(a, "<"@) {
        triple_lt(v, vee_triple_spec(a.skip(1)))
    } else {
        v == vee_triple_spec(a)
    }
}

/// A space-separated conjunction of atoms.
pub open spec fn and_group_satisfies_spec(version: Seq<char>, r: Seq<char>) -> bool {
    if r =~= "*"@ || r.len() == 0 {
        true
    } else if text::contains_sub(r, " "@) {
        let parts = text::split_ws_spec(r);
        forall|i: int| 0 <= i < parts.len() ==> atom_satisfies_spec(version, #[trigger] parts[i])
    } else {
        atom_satisfies_spec(version, r)
    }
}

/// The version lies in the range: alternation over conjunction over
/// comparison atoms (`*`, exact, `>`, `>=`, `<`, `<=`, caret, tilde).
pub open spec fn version_satisfies_spec(version: Seq<char>, range: Seq<char>) -> bool {
    let r = text::trim_spec(range);
    if r =~= "*"@ || r.len() == 0 {
        true
    } else if text::contains_sub(r, "||"@) {
        let parts = text::split_str_spec(r, "||"@);
        exists|i: int|
            0 <= i < parts.len() && and_group_satisfies_spec(
                version,
                text::trim_spec(#[trigger] parts[i]),
            )
    } else {
        and_group_satisfies_spec(version, r)
    }
}

fn atom_satisfies(version: &str, a: &str) -> (r: bool)
    ensures
        r == atom_satisfies_spec(version@, a@),
{
    proof {
        reveal_strlit("^");
        reveal_strlit("~");
        reveal_strlit(">=");
        reveal_strlit(">");
        reveal_strlit("<=");
        reveal_strlit("<");
    }
    let v = vee_triple(version);
    let alen = a.unicode_len();
    if text::str_eq(a, "*") || alen == 0 {
        true
    } else if text::starts_with(a, "^") {
        let rest = a.substring_char(1, alen);
        assert(rest@ =~= a@.skip(1));
        let t = vee_triple(rest);
        if t.0 == 0 {
            v.0 == 0 && v.1 == t.1 && v.2 >= t.2
        } else {
            v.0 == t.0 && (v.1 > t.1 || (v.1 == t.1 && v.2 >= t.2))
        }
    } else if text::starts_with(a, "~") {
        let rest = a.substring_char(1, alen);
        assert(rest@ =~= a@.skip(1));
        let t = vee_triple(rest);
        v.0 == t.0 && v.1 == t.1 && v.2 >= t.2
    } else if text::starts_with(a, ">=") {
        let rest = a.substring_char(2, alen);
        assert(rest@ =~= a@.skip(2));
        let t = vee_triple(rest);
        !(v.0 < t.0 || (v.0 == t.0 && (v.1 < t.1 || (v.1 == t.1 && v.2 < t.2))))
    } else if text::starts_with(a, ">") {
        let rest = a.substring_char(1, alen);
        assert(rest@ =~= a@.skip(1));
        let t = vee_triple(rest);
        t.0 < v.0 || (t.0 == v.0 && (t.1 < v.1 || (t.1 == v.1 && t.2 < v.2)))
    } else if text::starts_with(a, "<=") {
        let rest = a.substring_char(2, alen);
        assert(rest@ =~= a@.skip(2));
        let t = vee_triple(rest);
        !(t.0 < v.0 || (t.0 == v.0 && (t.1 < v.1 || (t.1 == v.1 && t.2 < v.2))))
    } else if text::starts_with(a, "<") {
        let rest = a.substring_char(1, alen);
        assert(rest@ =~= a@.skip(1));
        let t = vee_triple(rest);
        v.0 < t.0 || (v.0 == t.0 && (v.1 < t.1 || (v.1 == t.1 && v.2 < t.2)))
    } else {
        let t = vee_triple(a);
        v.0 == t.0 && v.1 == t.1 && v.2 == t.2
    }
}

fn and_group_satisfies(version: &str, r: &str) -> (res: bool)
    ensures
        res == and_group_satisfies_spec(version@, r@),
{
    if text::str_eq(r, "*") || r.unicode_len() == 0 {
        true
    } else if text::contains(r, " ") {
        let parts = text::split_ws(r);
        let ghost pv = text::split_ws_spec(r@);
        assert(text::views_of(parts@) =~~= pv);
        let n = parts.len();
        let mut all_true: bool = true;
        for i in 0..n
            invariant
                n == parts@.len(),
                n == pv.len(),
                forall|j: int| 0 <= j < n ==> parts@[j]@ == #[trigger] pv[j],
                all_true == forall|j: int|
                    0 <= j < i ==> #[trigger] atom_satisfies_spec(version@, pv[j]),
        {
            let sat = atom_satisfies(version, parts[i]);
            assert(atom_satisfies_spec(version@, pv[i as int]) == sat);
            all_true = all_true && sat;
            assert(all_true == forall|j: int|
                0 <= j < i + 1 ==> #[trigger] atom_satisfies_spec(version@, pv[j]));
        }
        assert(all_true == and_group_satisfies_spec(version@, r@));
        all_true
    } else {
        atom_satisfies(version, r)
    }
}

/// Does a version lie in a registry range?  Space-separated pieces must
/// all hold; `||` alternatives need only one.
pub fn version_satisfies(version: &str, range: &str) -> (res: bool)
    ensures
        res == version_satisfies_spec(version@, range@),
{
    let r = text::trim(range);
    if text::str_eq(r, "*") || r.unicode_len() == 0 {
        true
    } else if text::contains(r, "||") {
        proof {
            reveal_strlit("||");
        }
        let parts = text::split_str(r, "||");
        let ghost pv = text::split_str_spec(r@, "||"@);
        assert(text::views_of(parts@) =~~= pv);
        let n = parts.len();
        let mut any_true: bool = false;
        for i in 0..n
            invariant
                n == parts@.len(),
                n == pv.len(),
                forall|j: int| 0 <= j < n ==> parts@[j]@ == #[trigger] pv[j],
                any_true == exists|j: int|
                    0 <= j < i && #[trigger] and_group_satisfies_spec(
                        version@,
                        text::trim_spec(pv[j]),
                    ),
        {
            let sat = and_group_satisfies(version, text::trim(parts[i]));
            assert(and_group_satisfies_spec(version@, text::trim_spec(pv[i as int])) == sat);
            any_true = any_true || sat;
            assert(any_true == exists|j: int|
                0 <= j < i + 1 && #[trigger] and_group_satisfies_spec(
                    version@,
                    text::trim_spec(pv[j]),
                ));
        }
        assert(any_true == version_satisfies_spec(version@, range@));
        any_true
    } else {
        and_group_satisfies(version, r)
    }
}

} // verus!

verus! {

// ---------------------------------------------------------------------------
// Registry helpers: one-operator matching, sort keys, upgrade classes
// ---------------------------------------------------------------------------

/// One comparison operator applied to two dotted versions (`v` markers and
/// pre-release tails dropped).  An unknown operator matches everything.
pub open spec fn matches_constraint_spec(
    version: Seq<char>,
    operator: Seq<char>,
    constraint_version: Seq<char>,
) -> bool {
    let v = vee_triple_spec(version);
    let c = vee_triple_spec(constraint_version);
    if operator =~= "="@ {
        v == c
    } else if operator =~= ">"@ {
        triple_lt(c, v)
    } else if operator =~= ">="@ {
        !triple_lt(v, c)
    } else if operator =~= "<"@ {
        triple_lt(v, c)
    } else if operator =~= "<="@ {
        !triple_lt(c, v)
    } else if operator =~= "^"@ {
        if c.0 == 0 {
            if c.1 == 0 {
                v.0 == 0 && v.1 == 0 && v.2 >= c.2
            } else {
                v.0 == 0 && v.1 == c.1 && v.2 >= c.2
            }
        } else {
            v.0 == c.0 && (v.1 > c.1 || (v.1 == c.1 && v.2 >= c.2))
        }
    } else if operator =~= "~"@ {
        v.0 == c.0 && v.1 == c.1 && v.2 >= c.2
    } else {
        true
    }
}

/// Does `version` stand to `constraint_version` as `operator` demands?
pub fn matches_constraint(version: &str, operator: &str, constraint_version: &str) -> (r: bool)
    ensures
        r == matches_constraint_spec(version@, operator@, constraint_version@),
{
    let v = vee_triple(version);
    let c = vee_triple(constraint_version);
    if text::str_eq(operator, "=") {
        v.0 == c.0 && v.1 == c.1 && v.2 == c.2
    } else if text::str_eq(operator, ">") {
        c.0 < v.0 || (c.0 == v.0 && (c.1 < v.1 || (c.1 == v.1 && c.2 < v.2)))
    } else if text::str_eq(operator, ">=") {
        !(v.0 < c.0 || (v.0 == c.0 && (v.1 < c.1 || (v.1 == c.1 && v.2 < c.2))))
    } else if text::str_eq(operator, "<") {
        v.0 < c.0 || (v.0 == c.0 && (v.1 < c.1 || (v.1 == c.1 && v.2 < c.2)))
    } else if text::str_eq(operator, "<=") {
        !(c.0 < v.0 || (c.0 == v.0 && (c.1 < v.1 || (c.1 == v.1 && c.2 < v.2))))
    } else if text::str_eq(operator, "^") {
        if c.0 == 0 {
            if c.1 == 0 {
                v.0 == 0 && v.1 == 0 && v.2 >= c.2
            } else {
                v.0 == 0 && v.1 == c.1 && v.2 >= c.2
            }
        } else {
            v.0 == c.0 && (v.1 > c.1 || (v.1 == c.1 && v.2 >= c.2))
        }
    } else if text::str_eq(operator, "~") {
        v.0 == c.0 && v.1 == c.1 && v.2 >= c.2
    } else {
        true
    }
}

/// The sort key of a registry version string: numeric triple and
/// pre-release text (taken from between the first two dashes).
pub open spec fn semver_key_spec(s: Seq<char>) -> ((u64, u64, u64), Seq<char>) {
    let clean = text::strip_prefix_all_spec(s, "v"@);
    let dash_parts = text::split_char_spec(clean, '-');
    let pre = if dash_parts.len() > 1 {
        dash_parts[1]
    } else {
        Seq::empty()
    };
    (loose_triple_spec(clean), pre)
}

/// Ascending precedence order on registry version strings: triples first,
/// then release above pre-release, then pre-release text lexicographically.
pub open spec fn compare_semver_spec(a: Seq<char>, b: Seq<char>) -> core::cmp::Ordering {
    let ka = semver_key_spec(a);
    let kb = semver_key_spec(b);
    if ka.0 != kb.0 {
        if triple_lt(ka.0, kb.0) {
            core::cmp::Ordering::Less
        } else {
            core::cmp::Ordering::Greater
        }
    } else if ka.1.len() == 0 && kb.1.len() > 0 {
        core::cmp::Ordering::Greater
    } else if ka.1.len() > 0 && kb.1.len() == 0 {
        core::cmp::Ordering::Less
    } else if chars_lt(ka.1, kb.1) {
        core::cmp::Ordering::Less
    } else if chars_lt(kb.1, ka.1) {
        core::cmp::Ordering::Greater
    } else {
        core::cmp::Ordering::Equal
    }
}

fn semver_key(s: &str) -> (r: ((u64, u64, u64), String))
    ensures
        r.0 == semver_key_spec(s@).0,
        r.1@ == semver_key_spec(s@).1,
{
    proof {
        reveal_strlit("v");
    }
    let clean = text::strip_prefix_all(s, "v");
    let dash_parts = text::split_char(clean, '-');
    let ghost dv = text::split_char_spec(clean@, '-');
    assert(text::views_of(dash_parts@) =~~= dv);
    let pre: String = if dash_parts.len() > 1 {
        assert(dash_parts@[1]@ == dv[1]);
        dash_parts[1].to_owned()
    } else {
        String::new()
    };
    (loose_triple(clean), pre)
}

/// Compare two registry version strings by precedence, ascending.
pub fn compare_semver(a: &str, b: &str) -> (r: core::cmp::Ordering)
    ensures
        r == compare_semver_spec(a@, b@),
{
    let (ta, pa) = semver_key(a);
    let (tb, pb) = semver_key(b);
    if ta.0 != tb.0 || ta.1 != tb.1 || ta.2 != tb.2 {
        if ta.0 < tb.0 || (ta.0 == tb.0 && (ta.1 < tb.1 || (ta.1 == tb.1 && ta.2 < tb.2))) {
            core::cmp::Ordering::Less
        } else {
            core::cmp::Ordering::Greater
        }
    } else if pa.as_str().unicode_len() == 0 && pb.as_str().unicode_len() > 0 {
        core::cmp::Ordering::Greater
    } else if pa.as_str().unicode_len() > 0 && pb.as_str().unicode_len() == 0 {
        core::cmp::Ordering::Less
    } else if chars_lt_exec(pa.as_str(), pb.as_str()) {
        core::cmp::Ordering::Less
    } else if chars_lt_exec(pb.as_str(), pa.as_str()) {
        core::cmp::Ordering::Greater
    } else {
        core::cmp::Ordering::Equal
    }
}

/// The `u32` values of dot-separated pieces, unparsable pieces skipped.
pub open spec fn numeric_parts32(parts: Seq<Seq<char>>) -> Seq<u32>
    decreases parts.len(),
{
    if parts.len() == 0 {
        Seq::empty()
    } else {
        let rest = numeric_parts32(parts.drop_last());
        match text::parse_u32_spec(parts.last()) {
            Some(v) => rest + seq![v],
            None => rest,
        }
    }
}

pub proof fn lemma_numeric_parts32_take_succ(parts: Seq<Seq<char>>, i: int)
    requires
        0 <= i < parts.len(),
    ensures
        numeric_parts32(parts.take(i + 1)) == numeric_parts32(parts.take(i)) + (
        match text::parse_u32_spec(parts[i]) {
            Some(v) => seq![v],
            None => Seq::<u32>::empty(),
        }),
{
    assert(parts.take(i + 1).drop_last() =~= parts.take(i));
    assert(parts.take(i + 1).last() == parts[i]);
    if text::parse_u32_spec(parts[i]) is None {
        assert(numeric_parts32(parts.take(i + 1)) =~= numeric_parts32(parts.take(i))
            + Seq::<u32>::empty());
    }
}

pub open spec fn u32_or(parts: Seq<u32>, i: int, d: u32) -> u32 {
    if 0 <= i < parts.len() {
        parts[i]
    } else {
        d
    }
}

/// The first three `u32` pieces of a plain dotted version, zero-padded.
pub open spec fn dots_triple_spec(s: Seq<char>) -> (u32, u32, u32) {
    let parts = numeric_parts32(text::split_char_spec(s, '.'));
    (u32_or(parts, 0, 0), u32_or(parts, 1, 0), u32_or(parts, 2, 0))
}

fn dots_triple(s: &str) -> (r: (u32, u32, u32))
    ensures
        r == dots_triple_spec(s@),
{
    let pieces = text::split_char(s, '.');
    let ghost pv = text::views_of(pieces@);
    let mut out: Vec<u32> = Vec::new();
    let n = pieces.len();
    assert(numeric_parts32(pv.take(0)) =~= Seq::<u32>::empty());
    for i in 0..n
        invariant
            n == pieces@.len(),
            pv == text::views_of(pieces@),
            out@ =~= numeric_parts32(pv.take(i as int)),
    {
        let ghost prev = out@;
        proof {
            lemma_numeric_parts32_take_succ(pv, i as int);
            assert(pv[i as int] == pieces@[i as int]@);
        }
        match text::parse_u32(pieces[i]) {
            Some(v) => {
                out.push(v);
                assert(out@ =~= prev + seq![v]);
            },
            None => {},
        }
        assert(out@ =~= numeric_parts32(pv.take(i + 1)));
    }
    assert(pv.take(n as int) =~= pv);
    let a = if out.len() > 0 {
        out[0]
    } else {
        0
    };
    let b = if out.len() > 1 {
        out[1]
    } else {
        0
    };
    let c = if out.len() > 2 {
        out[2]
    } else {
        0
    };
    (a, b, c)
}

/// The class of an upgrade, from the installed, range-compatible and
/// newest versions: a newer major anywhere is "major", a newer wanted
/// minor is "minor", all else is "patch".
pub open spec fn upgrade_type_spec(current: Seq<char>, wanted: Seq<char>, latest: Seq<char>) -> Seq<
    char,
> {
    let c = dots_triple_spec(current);
    let w = dots_triple_spec(wanted);
    let l = dots_triple_spec(latest);
    if l.0 > c.0 {
        "major"@
    } else if w.0 > c.0 {
        "major"@
    } else if w.1 > c.1 {
        "minor"@
    } else {
        "patch"@
    }
}

pub fn determine_upgrade_type(current: &str, wanted: &str, latest: &str) -> (r: String)
    ensures
        r@ == upgrade_type_spec(current@, wanted@, latest@),
{
    let c = dots_triple(current);
    let w = dots_triple(wanted);
    let l = dots_triple(latest);
    if l.0 > c.0 {
        String::from_str("major")
    } else if w.0 > c.0 {
        String::from_str("major")
    } else if w.1 > c.1 {
        String::from_str("minor")
    } else {
        String::from_str("patch")
    }
}

} // verus!
