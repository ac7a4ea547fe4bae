//! The versioned snapshot record: schema compatibility, the snapshot's
//! plain data model, and the dependency-tree digest.

use vstd::prelude::*;
use crate::text;

verus! {

use vstd::string::StrSliceExecFns;
use vstd::string::StringExecFns;

/// Schema version written by this engine.
pub const CURRENT_SCHEMA_VERSION: &'static str = "1.0";

/// Oldest schema version this engine still reads.
pub const MIN_SUPPORTED_SCHEMA_VERSION: &'static str = "1.0";

/// The (major, minor) pair of the current schema.
pub open spec fn current_schema_pair() -> (u32, u32) {
    (1, 0)
}

/// The (major, minor) pair of the minimum supported schema.
pub open spec fn minimum_schema_pair() -> (u32, u32) {
    (1, 0)
}

// ---------------------------------------------------------------------------
// Schema compatibility
// ---------------------------------------------------------------------------

/// How a snapshot's schema version stands to this engine's.
#[derive(Debug, Clone, PartialEq, Eq)]
pub enum SchemaVersionStatus {
    /// Version is current and fully supported.
    Current,
    /// Version is older but still supported.
    Supported { version: String },
    /// Version is too old to read.
    TooOld { version: String, minimum: String },
    /// Version is newer than this engine supports.
    TooNew { version: String, current: String },
    /// Version is missing or malformed.
    Invalid { reason: String },
}

/// The pure shape of a compatibility outcome, without its texts.
#[derive(PartialEq, Eq, Structural)]
pub ghost enum StatusModel {
    Current,
    Supported,
    TooOld,
    TooNew,
    Invalid,
}

pub open spec fn status_model(s: &SchemaVersionStatus) -> StatusModel {
    match s {
        SchemaVersionStatus::Current => StatusModel::Current,
        SchemaVersionStatus::Supported { .. } => StatusModel::Supported,
        SchemaVersionStatus::TooOld { .. } => StatusModel::TooOld,
        SchemaVersionStatus::TooNew { .. } => StatusModel::TooNew,
        SchemaVersionStatus::Invalid { .. } => StatusModel::Invalid,
    }
}

/// A schema version string read as exactly two dot-separated numbers.
pub open spec fn parse_xy_spec(s: Seq<char>) -> Option<(u32, u32)> {
    let parts = text::split_char_spec(s, '.');
    if parts.len() == 2 {
        match (text::parse_u32_spec(parts[0]), text::parse_u32_spec(parts[1])) {
            (Some(a), Some(b)) => Some((a, b)),
            _ => None,
        }
    } else {
        None
    }
}

pub open spec fn xy_lt(a: (u32, u32), b: (u32, u32)) -> bool {
    a.0 < b.0 || (a.0 == b.0 && a.1 < b.1)
}

/// Compatibility as a pure function of the file, minimum and current
/// (major, minor) pairs.
pub open spec fn classify_schema_spec(
    file: Option<(u32, u32)>,
    minimum: (u32, u32),
    current: (u32, u32),
) -> StatusModel {
    match file {
        None => StatusModel::Invalid,
        Some(f) => if f.0 > current.0 {
            StatusModel::TooNew
        } else if xy_lt(f, minimum) {
            StatusModel::TooOld
        } else if f == current {
            StatusModel::Current
        } else {
            StatusModel::Supported
        },
    }
}

/// Schema compatibility is a pure function of the three (major, minor)
/// pairs: a pair equal to the current one is Current; one below the
/// minimum is TooOld; one whose major exceeds the current major is
/// TooNew; an unparsable version is Invalid; everything else is
/// Supported.
pub proof fn lemma_schema_compatibility(
    file: Option<(u32, u32)>,
    minimum: (u32, u32),
    current: (u32, u32),
)
    requires
        !xy_lt(current, minimum),
    ensures
        file == Some(current) ==> classify_schema_spec(file, minimum, current)
            == StatusModel::Current,
        (file is Some && xy_lt(file->0, minimum)) ==> classify_schema_spec(file, minimum, current)
            == StatusModel::TooOld,
        (file is Some && (file->0).0 > current.0) ==> classify_schema_spec(file, minimum, current)
            == StatusModel::TooNew,
        file is None ==> classify_schema_spec(file, minimum, current) == StatusModel::Invalid,
        (file is Some && file != Some(current) && !xy_lt(file->0, minimum) && (file->0).0
            <= current.0) ==> classify_schema_spec(file, minimum, current)
            == StatusModel::Supported,
{
}

/// The outcome on a snapshot's schema version string, against this
/// engine's current and minimum schema pairs.
pub open spec fn schema_status_of(version: Seq<char>) -> StatusModel {
    classify_schema_spec(parse_xy_spec(version), minimum_schema_pair(), current_schema_pair())
}

fn parse_xy(s: &str) -> (r: Option<(u32, u32)>)
    ensures
        r == parse_xy_spec(s@),
{
    let parts = text::split_char(s, '.');
    let ghost pv = text::split_char_spec(s@, '.');
    assert(text::views_of(parts@) =~~= pv);
    if parts.len() != 2 {
        return None;
    }
    assert(parts@[0]@ == pv[0]);
    assert(parts@[1]@ == pv[1]);
    let a = match text::parse_u32(parts[0]) {
        Some(v) => v,
        None => {
            return None;
        },
    };
    let b = match text::parse_u32(parts[1]) {
        Some(v) => v,
        None => {
            return None;
        },
    };
    Some((a, b))
}

/// The texts a status carries, tied to the version string it classified:
/// the offending version itself, the engine's minimum and current schema
/// versions, and the Invalid reason naming the version.
pub open spec fn status_payload_spec(r: &SchemaVersionStatus, version: Seq<char>) -> bool {
    match r {
        SchemaVersionStatus::Current => true,
        SchemaVersionStatus::Supported { version: v } => v@ == version,
        SchemaVersionStatus::TooOld { version: v, minimum } => v@ == version && minimum@
            == MIN_SUPPORTED_SCHEMA_VERSION@,
        SchemaVersionStatus::TooNew { version: v, current } => v@ == version && current@
            == CURRENT_SCHEMA_VERSION@,
        SchemaVersionStatus::Invalid { reason } => reason@ == invalid_reason_spec(version),
    }
}

/// Classify a snapshot's schema version string.  The outcome follows
/// `classify_schema_spec`; the carried texts name the versions involved.
pub fn validate_schema_version(version: &str) -> (r: SchemaVersionStatus)
    ensures
        status_model(&r) == schema_status_of(version@),
        status_payload_spec(&r, version@),
{
    let file = match parse_xy(version) {
        Some(p) => p,
        None => {
            let reason = String::from_str("Invalid schema version format: '").concat(
                version,
            ).concat("' (expected X.Y)");
            return SchemaVersionStatus::Invalid { reason };
        },
    };
    if file.0 > 1 {
        SchemaVersionStatus::TooNew {
            version: version.to_owned(),
            current: CURRENT_SCHEMA_VERSION.to_owned(),
        }
    } else if file.0 < 1 {
        SchemaVersionStatus::TooOld {
            version: version.to_owned(),
            minimum: MIN_SUPPORTED_SCHEMA_VERSION.to_owned(),
        }
    } else if file.0 == 1 && file.1 == 0 {
        SchemaVersionStatus::Current
    } else {
        SchemaVersionStatus::Supported { version: version.to_owned() }
    }
}

/// The reason text carried by an Invalid outcome.
pub open spec fn invalid_reason_spec(version: Seq<char>) -> Seq<char> {
    "Invalid schema version format: '"@ + version + "' (expected X.Y)"@
}

/// The remediation message for a below-minimum schema version.
pub open spec fn too_old_message_spec(version: Seq<char>) -> Seq<char> {
    "env.lock schema version "@ + version + " is too old (minimum supported: "@
        + MIN_SUPPORTED_SCHEMA_VERSION@
        + "). Run `zenvo lock --force` to regenerate."@
}

/// The remediation message for a schema version newer than this engine.
pub open spec fn too_new_message_spec(version: Seq<char>) -> Seq<char> {
    "env.lock schema version "@ + version + " is newer than this version of Zenvo supports ("@
        + CURRENT_SCHEMA_VERSION@
        + "). Please upgrade Zenvo: `cargo install zenvo` or `npm install -g zenvo`"@
}

/// The remediation message for an unparsable schema version.
pub open spec fn invalid_schema_message_spec(version: Seq<char>) -> Seq<char> {
    "Invalid env.lock schema version: "@ + invalid_reason_spec(version)
}

impl SchemaVersionStatus {
    /// A snapshot with this outcome may be loaded.
    pub fn is_loadable(&self) -> (r: bool)
        ensures
            r == (status_model(self) == StatusModel::Current || status_model(self)
                == StatusModel::Supported),
    {
        match self {
            SchemaVersionStatus::Current => true,
            SchemaVersionStatus::Supported { .. } => true,
            _ => false,
        }
    }
}

} // verus!

verus! {

// ---------------------------------------------------------------------------
// The snapshot record
// ---------------------------------------------------------------------------

/// Snapshot metadata: schema version, generation time and generator.
#[derive(Debug, Clone)]
pub struct Metadata {
    pub version: String,
    pub generated_at: String,
    pub generated_by: String,
}

/// The verified toolchain: runtime and package manager.
#[derive(Debug, Clone)]
pub struct Toolchain {
    pub node: String,
    pub node_version_source: Option<String>,
    pub package_manager: String,
    pub package_manager_version: String,
    pub corepack_enabled: Option<bool>,
}

/// Optional host facts.
#[derive(Debug, Clone)]
pub struct Environment {
    pub os: String,
    pub arch: String,
}

/// The project lockfile's kind and content hash.
#[derive(Debug, Clone)]
pub struct LockfileInfo {
    pub lockfile_type: String,
    pub hash: String,
}

/// Optional cache facts: installed-tree digest and store path.
#[derive(Debug, Clone)]
pub struct Caches {
    pub node_modules_hash: Option<String>,
    pub pnpm_store_path: Option<String>,
}

/// Framework versions read from the manifest.
#[derive(Debug, Clone)]
pub struct Frameworks {
    pub react: Option<String>,
    pub next: Option<String>,
    pub typescript: Option<String>,
}

/// The snapshot of what this project was verified against.  Always
/// regenerated and rewritten whole; its fields may be trusted only when
/// the schema outcome is loadable.
#[derive(Debug, Clone)]
pub struct EnvLock {
    pub metadata: Metadata,
    pub toolchain: Toolchain,
    pub environment: Option<Environment>,
    pub lockfile: Option<LockfileInfo>,
    pub caches: Option<Caches>,
    pub frameworks: Option<Frameworks>,
}

impl EnvLock {
    /// The compatibility outcome on this snapshot's schema version,
    /// with its carried texts pinned to the version string.
    pub fn schema_status(&self) -> (r: SchemaVersionStatus)
        ensures
            status_model(&r) == schema_status_of(self.metadata.version@),
            status_payload_spec(&r, self.metadata.version@),
    {
        validate_schema_version(self.metadata.version.as_str())
    }

    /// Check the schema version before any field is trusted: a loadable
    /// outcome comes back `Ok`, the others come back `Err` with that
    /// kind's remediation message.
    pub fn validate_schema(&self) -> (r: Result<SchemaVersionStatus, String>)
        ensures
            match r {
                Ok(s) => status_model(&s) == schema_status_of(self.metadata.version@)
                    && status_payload_spec(&s, self.metadata.version@) && (status_model(&s)
                    == StatusModel::Current || status_model(&s) == StatusModel::Supported),
                Err(msg) => {
                    let st = schema_status_of(self.metadata.version@);
                    &&& st != StatusModel::Current
                    &&& st != StatusModel::Supported
                    &&& (st == StatusModel::TooOld ==> msg@ == too_old_message_spec(
                        self.metadata.version@,
                    ))
                    &&& (st == StatusModel::TooNew ==> msg@ == too_new_message_spec(
                        self.metadata.version@,
                    ))
                    &&& (st == StatusModel::Invalid ==> msg@ == invalid_schema_message_spec(
                        self.metadata.version@,
                    ))
                },
            },
    {
        let status = validate_schema_version(self.metadata.version.as_str());
        match status {
            SchemaVersionStatus::Current => Ok(SchemaVersionStatus::Current),
            SchemaVersionStatus::Supported { version } => Ok(
                SchemaVersionStatus::Supported { version },
            ),
            SchemaVersionStatus::TooOld { version, minimum } => {
                let msg = String::from_str("env.lock schema version ").concat(
                    version.as_str(),
                ).concat(" is too old (minimum supported: ").concat(minimum.as_str()).concat(
                    "). Run `zenvo lock --force` to regenerate.",
                );
                Err(msg)
            },
            SchemaVersionStatus::TooNew { version, current } => {
                let msg = String::from_str("env.lock schema version ").concat(
                    version.as_str(),
                ).concat(" is newer than this version of Zenvo supports (").concat(
                    current.as_str(),
                ).concat("). Please upgrade Zenvo: `cargo install zenvo` or `npm install -g zenvo`");
                Err(msg)
            },
            SchemaVersionStatus::Invalid { reason } => {
                let msg = String::from_str("Invalid env.lock schema version: ").concat(
                    reason.as_str(),
                );
                Err(msg)
            },
        }
    }
}

// ---------------------------------------------------------------------------
// Content-addressed store directory names
// ---------------------------------------------------------------------------

/// A store directory name split as `name@version` (the scope separator
/// folded back from `+` to `/`), when it looks like a package directory.
pub open spec fn pnpm_package_dir_spec(dir_name: Seq<char>) -> Option<(Seq<char>, Seq<char>)> {
    if dir_name.len() > 0 && dir_name[0] == '.' {
        None
    } else if !(text::find_char_spec(dir_name, '@') is Some) {
        None
    } else {
        let scoped = (dir_name.len() > 0 && dir_name[0] == '@') || text::find_char_spec(
            dir_name,
            '+',
        ) is Some;
        match text::rfind_char_spec(dir_name, '@') {
            Some(at) => if 0 < at < dir_name.len() {
                let name_part = dir_name.take(at);
                let ver = dir_name.skip(at + 1);
                if ver.len() > 0 && text::is_digit_char(ver[0]) {
                    if scoped {
                        Some((plus_to_slash_spec(name_part), ver))
                    } else {
                        Some((name_part, ver))
                    }
                } else {
                    None
                }
            } else {
                None
            },
            None => None,
        }
    }
}

/// Every `+` replaced by `/`.
pub open spec fn plus_to_slash_spec(s: Seq<char>) -> Seq<char> {
    s.map_values(|c: char| if c == '+' { '/' } else { c })
}

fn plus_to_slash(s: &str) -> (r: String)
    ensures
        r@ == plus_to_slash_spec(s@),
{
    let len = s.unicode_len();
    let mut out = String::new();
    for i in 0..len
        invariant
            len == s@.len(),
            out@.len() == i,
            forall|j: int| 0 <= j < i ==> out@[j] == (if s@[j] == '+' {
                '/'
            } else {
                s@[j]
            }),
    {
        let c = s.get_char(i);
        if c == '+' {
            text::push_char(&mut out, '/');
        } else {
            text::push_char(&mut out, c);
        }
    }
    assert(out@ =~= plus_to_slash_spec(s@));
    out
}

/// Parse a content-addressed store directory name (`lodash@4.17.21` or
/// `@types+node@18.0.0`) into package name and version.
pub fn parse_pnpm_package_dir(dir_name: &str) -> (r: Option<(String, String)>)
    ensures
        match r {
            Some(p) => pnpm_package_dir_spec(dir_name@) == Some((p.0@, p.1@)),
            None => pnpm_package_dir_spec(dir_name@) is None,
        },
{
    let len = dir_name.unicode_len();
    if len > 0 && dir_name.get_char(0) == '.' {
        return None;
    }
    proof {
        text::lemma_find_char_from(dir_name@, '@', 0);
    }
    if text::find_char(dir_name, '@').is_none() {
        return None;
    }
    let scoped = (len > 0 && dir_name.get_char(0) == '@') || text::find_char(
        dir_name,
        '+',
    ).is_some();
    proof {
        text::lemma_find_char_from(dir_name@, '+', 0);
    }
    match text::rfind_char(dir_name, '@') {
        Some(at) => {
            if at == 0 || at >= len - 1 {
                proof {
                    text::lemma_rfind_in_range(dir_name@, '@');
                    if at >= len - 1 {
                        assert(at + 1 == len);
                        assert(dir_name@.skip(at + 1).len() == 0);
                    }
                }
                return None;
            }
            let name_part = dir_name.substring_char(0, at);
            assert(name_part@ =~= dir_name@.take(at as int));
            let ver = dir_name.substring_char(at + 1, len);
            assert(ver@ =~= dir_name@.skip(at + 1));
            if text::exec_is_digit_char(ver.get_char(0)) {
                if scoped {
                    Some((plus_to_slash(name_part), ver.to_owned()))
                } else {
                    Some((name_part.to_owned(), ver.to_owned()))
                }
            } else {
                None
            }
        },
        None => None,
    }
}

} // verus!

verus! {

// ---------------------------------------------------------------------------
// Lexicographic order on tokens, and canonical sorting
// ---------------------------------------------------------------------------

use crate::version::chars_lt;
use crate::version::chars_lt_exec;

pub open spec fn chars_le(a: Seq<char>, b: Seq<char>) -> bool {
    !chars_lt(b, a)
}

pub proof fn lemma_chars_lt_asym(a: Seq<char>, b: Seq<char>)
    requires
        chars_lt(a, b),
    ensures
        !chars_lt(b, a),
    decreases a.len(),
{
    if a.len() > 0 && b.len() > 0 && a.first() == b.first() {
        lemma_chars_lt_asym(a.drop_first(), b.drop_first());
    }
}

pub proof fn lemma_chars_lt_connected(a: Seq<char>, b: Seq<char>)
    requires
        !chars_lt(a, b),
        !chars_lt(b, a),
    ensures
        a == b,
    decreases a.len(),
{
    if a.len() == 0 && b.len() == 0 {
        assert(a =~= b);
    } else if a.len() > 0 && b.len() > 0 {
        assert(a.first() == b.first());
        lemma_chars_lt_connected(a.drop_first(), b.drop_first());
        assert(a =~= seq![a.first()] + a.drop_first());
        assert(b =~= seq![b.first()] + b.drop_first());
    }
}

pub proof fn lemma_chars_lt_trans(a: Seq<char>, b: Seq<char>, c: Seq<char>)
    requires
        chars_lt(a, b),
        chars_lt(b, c),
    ensures
        chars_lt(a, c),
    decreases a.len(),
{
    if a.len() > 0 && b.len() > 0 && c.len() > 0 {
        if a.first() == b.first() && b.first() == c.first() {
            lemma_chars_lt_trans(a.drop_first(), b.drop_first(), c.drop_first());
        }
    }
}

pub proof fn lemma_chars_le_trans(a: Seq<char>, b: Seq<char>, c: Seq<char>)
    requires
        chars_le(a, b),
        chars_le(b, c),
    ensures
        chars_le(a, c),
{
    if chars_lt(c, a) {
        if chars_lt(a, b) {
            lemma_chars_lt_trans(c, a, b);
        } else {
            lemma_chars_lt_connected(a, b);
        }
    }
}

/// Non-decreasing in lexicographic order.
pub open spec fn tokens_sorted(s: Seq<Seq<char>>) -> bool {
    forall|i: int, j: int| 0 <= i < j < s.len() ==> chars_le(#[trigger] s[i], #[trigger] s[j])
}

/// `x` placed before the first element not below it.
pub open spec fn insert_sorted(x: Seq<char>, s: Seq<Seq<char>>) -> Seq<Seq<char>>
    decreases s.len(),
{
    if s.len() == 0 {
        seq![x]
    } else if chars_le(x, s.first()) {
        seq![x] + s
    } else {
        seq![s.first()] + insert_sorted(x, s.drop_first())
    }
}

/// The canonical (sorted) arrangement of a token list.
pub open spec fn sort_tokens_spec(s: Seq<Seq<char>>) -> Seq<Seq<char>>
    decreases s.len(),
{
    if s.len() == 0 {
        Seq::empty()
    } else {
        insert_sorted(s.first(), sort_tokens_spec(s.drop_first()))
    }
}

pub proof fn lemma_insert_sorted(x: Seq<char>, s: Seq<Seq<char>>)
    requires
        tokens_sorted(s),
    ensures
        tokens_sorted(insert_sorted(x, s)),
        insert_sorted(x, s).to_multiset() == (seq![x] + s).to_multiset(),
        insert_sorted(x, s).len() == s.len() + 1,
    decreases s.len(),
{
    broadcast use vstd::seq_lib::group_to_multiset_ensures;
    broadcast use vstd::multiset::group_multiset_axioms;

    if s.len() == 0 {
        assert(seq![x] =~= seq![x] + s);
    } else if chars_le(x, s.first()) {
        let r = seq![x] + s;
        assert forall|i: int, j: int| 0 <= i < j < r.len() implies chars_le(
            #[trigger] r[i],
            #[trigger] r[j],
        ) by {
            if i == 0 {
                if j == 1 {
                    assert(r[1] == s.first());
                } else {
                    assert(r[j] == s[j - 1]);
                    assert(chars_le(s[0], s[j - 1]));
                    lemma_chars_le_trans(x, s[0], s[j - 1]);
                }
            } else {
                assert(r[i] == s[i - 1] && r[j] == s[j - 1]);
            }
        }
    } else {
        let rest = insert_sorted(x, s.drop_first());
        let r = seq![s.first()] + rest;
        assert(forall|i: int, j: int|
            0 <= i < j < s.drop_first().len() ==> chars_le(
                #[trigger] s.drop_first()[i],
                #[trigger] s.drop_first()[j],
            ));
        lemma_insert_sorted(x, s.drop_first());
        // multiset bookkeeping
        vstd::seq_lib::lemma_multiset_commutative(seq![s.first()], rest);
        vstd::seq_lib::lemma_multiset_commutative(seq![s.first()], seq![x] + s.drop_first());
        vstd::seq_lib::lemma_multiset_commutative(seq![x], s);
        vstd::seq_lib::lemma_multiset_commutative(seq![x], s.drop_first());
        assert(s =~= seq![s.first()] + s.drop_first());
        vstd::seq_lib::lemma_multiset_commutative(seq![s.first()], s.drop_first());
        assert(r.to_multiset() =~= (seq![x] + s).to_multiset());
        // sortedness: s.first() is below x and below every old element
        assert(!chars_le(x, s.first()));
        lemma_chars_lt_asym(s.first(), x);
        assert(chars_le(s.first(), x));
        assert forall|i: int, j: int| 0 <= i < j < r.len() implies chars_le(
            #[trigger] r[i],
            #[trigger] r[j],
        ) by {
            if i == 0 {
                let e = r[j];
                assert(rest.to_multiset().contains(e)) by {
                    assert(rest[j - 1] == e);
                }
                assert((seq![x] + s.drop_first()).to_multiset().contains(e));
                assert((seq![x] + s.drop_first()).contains(e));
                let k = choose|k: int|
                    0 <= k < (seq![x] + s.drop_first()).len() && (seq![x] + s.drop_first())[k] == e;
                if k == 0 {
                    assert(e == x);
                } else {
                    assert(e == s.drop_first()[k - 1]);
                    assert(e == s[k]);
                    assert(chars_le(s[0], s[k]));
                }
            } else {
                assert(rest[i - 1] == r[i] && rest[j - 1] == r[j]);
            }
        }
    }
}

pub proof fn lemma_sort_tokens(s: Seq<Seq<char>>)
    ensures
        tokens_sorted(sort_tokens_spec(s)),
        sort_tokens_spec(s).to_multiset() == s.to_multiset(),
        sort_tokens_spec(s).len() == s.len(),
    decreases s.len(),
{
    broadcast use vstd::seq_lib::group_to_multiset_ensures;
    broadcast use vstd::multiset::group_multiset_axioms;

    if s.len() > 0 {
        lemma_sort_tokens(s.drop_first());
        lemma_insert_sorted(s.first(), sort_tokens_spec(s.drop_first()));
        vstd::seq_lib::lemma_multiset_commutative(seq![s.first()], sort_tokens_spec(s.drop_first()));
        vstd::seq_lib::lemma_multiset_commutative(seq![s.first()], s.drop_first());
        assert(s =~= seq![s.first()] + s.drop_first());
        assert(sort_tokens_spec(s).to_multiset() =~= s.to_multiset());
    }
}

/// Two sorted token lists with the same contents are the same list.
pub proof fn lemma_sorted_tokens_unique(x: Seq<Seq<char>>, y: Seq<Seq<char>>)
    requires
        tokens_sorted(x),
        tokens_sorted(y),
        x.to_multiset() == y.to_multiset(),
    ensures
        x =~= y,
    decreases x.len(),
{
    broadcast use vstd::seq_lib::group_to_multiset_ensures;
    broadcast use vstd::multiset::group_multiset_axioms;

    if x.len() == 0 || y.len() == 0 {
        assert(x.to_multiset().len() == y.to_multiset().len());
    } else {
        assert(x.to_multiset().contains(x[0])) by {
            assert(x.contains(x[0]));
        }
        assert(y.to_multiset().contains(y[0])) by {
            assert(y.contains(y[0]));
        }
        assert(x.contains(y[0]));
        assert(y.contains(x[0]));
        let i = choose|i: int| 0 <= i < x.len() && x[i] == y[0];
        let j = choose|j: int| 0 <= j < y.len() && y[j] == x[0];
        assert(chars_le(x[0], x[i]) || x[0] == x[i]);
        assert(chars_le(y[0], y[j]) || y[0] == y[j]);
        assert(chars_le(x[0], y[0]) || x[0] == y[0]);
        assert(chars_le(y[0], x[0]) || y[0] == x[0]);
        if x[0] != y[0] {
            lemma_chars_lt_connected(x[0], y[0]);
        }
        assert(x[0] == y[0]);
        assert(x.drop_first().to_multiset() =~= x.to_multiset().remove(x[0])) by {
            assert(x.remove(0) =~= x.drop_first());
        }
        assert(y.drop_first().to_multiset() =~= y.to_multiset().remove(y[0])) by {
            assert(y.remove(0) =~= y.drop_first());
        }
        assert(forall|i2: int, j2: int|
            0 <= i2 < j2 < x.drop_first().len() ==> chars_le(
                #[trigger] x.drop_first()[i2],
                #[trigger] x.drop_first()[j2],
            ));
        assert(forall|i2: int, j2: int|
            0 <= i2 < j2 < y.drop_first().len() ==> chars_le(
                #[trigger] y.drop_first()[i2],
                #[trigger] y.drop_first()[j2],
            ));
        lemma_sorted_tokens_unique(x.drop_first(), y.drop_first());
        assert(x =~= seq![x.first()] + x.drop_first());
        assert(y =~= seq![y.first()] + y.drop_first());
    }
}

} // verus!

verus! {

/// The views of a sequence of owned strings.
pub open spec fn string_views(s: Seq<String>) -> Seq<Seq<char>> {
    s.map_values(|t: String| t@)
}

fn chars_le_exec(a: &str, b: &str) -> (r: bool)
    ensures
        r == chars_le(a@, b@),
{
    !chars_lt_exec(b, a)
}

fn insert_token(x: String, v: Vec<String>) -> (r: Vec<String>)
    ensures
        string_views(r@) =~~= insert_sorted(x@, string_views(v@)),
    decreases v@.len(),
{
    let ghost sv = string_views(v@);
    if v.len() == 0 {
        let mut r: Vec<String> = Vec::new();
        r.push(x);
        assert(string_views(r@) =~~= seq![x@]);
        r
    } else if chars_le_exec(x.as_str(), v[0].as_str()) {
        assert(v@[0]@ == sv[0] && sv.first() == sv[0]);
        let mut r = v;
        r.insert(0, x);
        assert(string_views(r@) =~~= seq![x@] + sv);
        r
    } else {
        assert(v@[0]@ == sv[0] && sv.first() == sv[0]);
        let mut w = v;
        let first = w.remove(0);
        assert(string_views(w@) =~~= sv.drop_first());
        let mut rest = insert_token(x, w);
        rest.insert(0, first);
        assert(string_views(rest@) =~~= seq![sv.first()] + insert_sorted(x@, sv.drop_first()));
        rest
    }
}

/// Sort tokens into the canonical lexicographic arrangement.
pub fn sort_tokens(v: Vec<String>) -> (r: Vec<String>)
    ensures
        string_views(r@) =~~= sort_tokens_spec(string_views(v@)),
    decreases v@.len(),
{
    let ghost sv = string_views(v@);
    if v.len() == 0 {
        let r: Vec<String> = Vec::new();
        assert(string_views(r@) =~~= Seq::<Seq<char>>::empty());
        r
    } else {
        assert(v@[0]@ == sv[0] && sv.first() == sv[0]);
        let mut w = v;
        let first = w.remove(0);
        assert(string_views(w@) =~~= sv.drop_first());
        let sorted_rest = sort_tokens(w);
        let ghost srv = string_views(sorted_rest@);
        let r = insert_token(first, sorted_rest);
        assert(srv =~~= sort_tokens_spec(sv.drop_first()));
        assert(insert_sorted(first@, srv) =~~= insert_sorted(
            first@,
            sort_tokens_spec(sv.drop_first()),
        ));
        assert(string_views(r@) =~~= sort_tokens_spec(sv));
        r
    }
}

// ---------------------------------------------------------------------------
// The digest itself
// ---------------------------------------------------------------------------

/// The byte stream that is hashed: each token UTF-8 encoded and
/// terminated by a newline byte, in list order.
pub open spec fn token_stream(tokens: Seq<Seq<char>>) -> Seq<u8>
    decreases tokens.len(),
{
    if tokens.len() == 0 {
        Seq::empty()
    } else {
        token_stream(tokens.drop_last()) + vstd::utf8::encode_utf8(tokens.last()) + seq![10u8]
    }
}

pub proof fn lemma_token_stream_take_succ(tokens: Seq<Seq<char>>, i: int)
    requires
        0 <= i < tokens.len(),
    ensures
        token_stream(tokens.take(i + 1)) == token_stream(tokens.take(i)) + vstd::utf8::encode_utf8(
            tokens[i],
        ) + seq![10u8],
{
    assert(tokens.take(i + 1).drop_last() =~= tokens.take(i));
    assert(tokens.take(i + 1).last() == tokens[i]);
}

/// What `sha2::Sha256` computes on a byte stream, named.
pub uninterp spec fn sha256_of(data: Seq<u8>) -> Seq<u8>;

/// Relies on `sha2::Sha256`: the 32-byte digest depends on the input
/// bytes alone.
#[verifier::external_body]
fn sha256(data: &[u8]) -> (r: Vec<u8>)
    ensures
        r@ == sha256_of(data@),
        r@.len() == 32,
{
    <sha2::Sha256 as sha2::Digest>::digest(data).to_vec()
}

/// The lower-case hex digit of a nibble.
pub open spec fn hex_digit(d: u8) -> char {
    if d < 10 {
        ((d + 48) as char)
    } else {
        ((d + 87) as char)
    }
}

/// Lower-case hex encoding, two digits per byte, high nibble first.
pub open spec fn hex_of(data: Seq<u8>) -> Seq<char>
    decreases data.len(),
{
    if data.len() == 0 {
        Seq::empty()
    } else {
        hex_of(data.drop_last()) + seq![
            hex_digit(data.last() / 16),
            hex_digit(data.last() % 16),
        ]
    }
}

proof fn lemma_hex_of_take_succ(data: Seq<u8>, i: int)
    requires
        0 <= i < data.len(),
    ensures
        hex_of(data.take(i + 1)) == hex_of(data.take(i)) + seq![
            hex_digit(data[i] / 16),
            hex_digit(data[i] % 16),
        ],
{
    assert(data.take(i + 1).drop_last() =~= data.take(i));
    assert(data.take(i + 1).last() == data[i]);
}

/// Hex-encode bytes in lower case.
pub fn to_hex(data: &Vec<u8>) -> (r: String)
    ensures
        r@ == hex_of(data@),
{
    let mut out = String::new();
    let n = data.len();
    assert(data@.take(0) =~= Seq::<u8>::empty());
    for i in 0..n
        invariant
            n == data@.len(),
            out@ =~= hex_of(data@.take(i as int)),
    {
        proof {
            lemma_hex_of_take_succ(data@, i as int);
        }
        let b = data[i];
        let hi = b / 16;
        let lo = b % 16;
        let hc: char = if hi < 10 {
            ((hi + 48) as char)
        } else {
            ((hi + 87) as char)
        };
        let lc: char = if lo < 10 {
            ((lo + 48) as char)
        } else {
            ((lo + 87) as char)
        };
        text::push_char(&mut out, hc);
        text::push_char(&mut out, lc);
        assert(out@ =~= hex_of(data@.take(i + 1)));
    }
    assert(data@.take(n as int) =~= data@);
    out
}

/// The digest text of a non-empty token list: `sha256:` and the hex of
/// the hash of the canonically ordered stream.
pub open spec fn dep_tree_digest_spec(tokens: Seq<Seq<char>>) -> Seq<char> {
    "sha256:"@ + hex_of(sha256_of(token_stream(sort_tokens_spec(tokens))))
}

/// Hash a list of `name@version` tokens.  The tokens are put in canonical
/// order first, so the result does not depend on enumeration order;
/// `None` when there are no tokens at all.
pub fn dep_tree_hash(tokens: Vec<String>) -> (r: Option<String>)
    ensures
        match r {
            Some(h) => tokens@.len() > 0 && h@ == dep_tree_digest_spec(string_views(tokens@)),
            None => tokens@.len() == 0,
        },
{
    if tokens.len() == 0 {
        return None;
    }
    let sorted = sort_tokens(tokens);
    let ghost sv = string_views(sorted@);
    let n = sorted.len();
    let mut stream: Vec<u8> = Vec::new();
    assert(sv.take(0) =~= Seq::<Seq<char>>::empty());
    assert(stream@ =~= token_stream(sv.take(0)));
    for i in 0..n
        invariant
            n == sorted@.len(),
            sv == string_views(sorted@),
            n == sv.len(),
            stream@ =~= token_stream(sv.take(i as int)),
    {
        proof {
            lemma_token_stream_take_succ(sv, i as int);
            assert(sv[i as int] == sorted@[i as int]@);
        }
        let bytes = sorted[i].as_str().as_bytes();
        let ghost prev = stream@;
        let mut k: usize = 0;
        let blen = bytes.len();
        while k < blen
            invariant
                blen == bytes@.len(),
                0 <= k <= blen,
                stream@ =~= prev + bytes@.take(k as int),
            decreases blen - k,
        {
            stream.push(bytes[k]);
            assert(bytes@.take(k + 1) =~= bytes@.take(k as int).push(bytes@[k as int]));
            k = k + 1;
        }
        assert(bytes@.take(blen as int) =~= bytes@);
        stream.push(10u8);
        assert(bytes@ == vstd::utf8::encode_utf8(sv[i as int]));
        assert(stream@ =~= token_stream(sv.take(i + 1)));
    }
    assert(sv.take(n as int) =~= sv);
    let digest = sha256(stream.as_slice());
    let hex = to_hex(&digest);
    let out = String::from_str("sha256:").concat(hex.as_str());
    Some(out)
}

/// The dependency-tree digest is invariant under enumeration order: two
/// token lists with the same contents, in any order, yield the same
/// digest text, and re-running it on unchanged contents yields it again.
pub proof fn lemma_digest_order_invariant(a: Seq<Seq<char>>, b: Seq<Seq<char>>)
    requires
        a.to_multiset() == b.to_multiset(),
    ensures
        dep_tree_digest_spec(a) == dep_tree_digest_spec(b),
{
    lemma_sort_tokens(a);
    lemma_sort_tokens(b);
    lemma_sorted_tokens_unique(sort_tokens_spec(a), sort_tokens_spec(b));
}

} // verus!

verus! {

// ---------------------------------------------------------------------------
// Token assembly for the installed tree
// ---------------------------------------------------------------------------

/// The `name@version` token of one package.
pub open spec fn token_of(name: Seq<char>, version: Seq<char>) -> Seq<char> {
    name + "@"@ + version
}

pub open spec fn tokens_of_pairs(pairs: Seq<(String, String)>) -> Seq<Seq<char>>
    decreases pairs.len(),
{
    if pairs.len() == 0 {
        Seq::empty()
    } else {
        tokens_of_pairs(pairs.drop_last()) + seq![
            token_of(pairs.last().0@, pairs.last().1@),
        ]
    }
}

proof fn lemma_tokens_of_pairs_take_succ(pairs: Seq<(String, String)>, i: int)
    requires
        0 <= i < pairs.len(),
    ensures
        tokens_of_pairs(pairs.take(i + 1)) == tokens_of_pairs(pairs.take(i)) + seq![
            token_of(pairs[i].0@, pairs[i].1@),
        ],
{
    assert(pairs.take(i + 1).drop_last() =~= pairs.take(i));
    assert(pairs.take(i + 1).last() == pairs[i]);
}

/// Extra tokens appended in order, skipping any already present.
pub open spec fn merge_tokens_spec(acc: Seq<Seq<char>>, extras: Seq<Seq<char>>) -> Seq<Seq<char>>
    decreases extras.len(),
{
    if extras.len() == 0 {
        acc
    } else {
        let next = if acc.contains(extras.first()) {
            acc
        } else {
            acc.push(extras.first())
        };
        merge_tokens_spec(next, extras.drop_first())
    }
}

fn tokens_contain(tokens: &Vec<String>, t: &str) -> (r: bool)
    ensures
        r == string_views(tokens@).contains(t@),
{
    let n = tokens.len();
    for i in 0..n
        invariant
            n == tokens@.len(),
            forall|j: int| 0 <= j < i ==> tokens@[j]@ != t@,
    {
        if text::str_eq(tokens[i].as_str(), t) {
            assert(string_views(tokens@)[i as int] == t@);
            return true;
        }
    }
    assert forall|j: int| 0 <= j < string_views(tokens@).len() implies string_views(tokens@)[j]
        != t@ by {
        assert(tokens@[j]@ != t@);
    }
    false
}

/// The installed tree's token list: one `name@version` token per
/// top-level package, with content-addressed store entries appended
/// unless already present.
pub open spec fn node_modules_tokens_spec(
    installed: Seq<(String, String)>,
    store_entries: Seq<(String, String)>,
) -> Seq<Seq<char>> {
    merge_tokens_spec(tokens_of_pairs(installed), tokens_of_pairs(store_entries))
}

pub fn node_modules_tokens(
    installed: &Vec<(String, String)>,
    store_entries: &Vec<(String, String)>,
) -> (r: Vec<String>)
    ensures
        string_views(r@) =~~= node_modules_tokens_spec(installed@, store_entries@),
{
    let mut tokens: Vec<String> = Vec::new();
    let n = installed.len();
    assert(installed@.take(0) =~= Seq::<(String, String)>::empty());
    for i in 0..n
        invariant
            n == installed@.len(),
            string_views(tokens@) =~~= tokens_of_pairs(installed@.take(i as int)),
    {
        proof {
            lemma_tokens_of_pairs_take_succ(installed@, i as int);
        }
        let ghost prev = string_views(tokens@);
        let t = String::from_str(installed[i].0.as_str()).concat("@").concat(
            installed[i].1.as_str(),
        );
        tokens.push(t);
        assert(string_views(tokens@) =~~= prev.push(
            token_of(installed@[i as int].0@, installed@[i as int].1@),
        ));
        assert(prev.push(token_of(installed@[i as int].0@, installed@[i as int].1@)) =~~= prev
            + seq![token_of(installed@[i as int].0@, installed@[i as int].1@)]);
    }
    assert(installed@.take(n as int) =~= installed@);
    // Append store entries not already present.
    let m = store_entries.len();
    let ghost base = string_views(tokens@);
    let ghost extras = tokens_of_pairs(store_entries@);
    proof {
        lemma_tokens_of_pairs_index(store_entries@);
        assert(extras.skip(0) =~~= extras);
    }
    for i in 0..m
        invariant
            m == store_entries@.len(),
            extras == tokens_of_pairs(store_entries@),
            m == extras.len(),
            forall|j: int| 0 <= j < m ==> #[trigger] extras[j] == token_of(
                store_entries@[j].0@,
                store_entries@[j].1@,
            ),
            merge_tokens_spec(string_views(tokens@), extras.skip(i as int)) =~~= merge_tokens_spec(
                base,
                extras,
            ),
    {
        let t = String::from_str(store_entries[i].0.as_str()).concat("@").concat(
            store_entries[i].1.as_str(),
        );
        let ghost cur = string_views(tokens@);
        assert(t@ == extras[i as int]);
        assert(extras.skip(i as int).first() == extras[i as int]);
        assert(extras.skip(i as int).drop_first() =~= extras.skip(i + 1));
        if !tokens_contain(&tokens, t.as_str()) {
            tokens.push(t);
            assert(string_views(tokens@) =~~= cur.push(extras[i as int]));
        }
        assert(merge_tokens_spec(string_views(tokens@), extras.skip(i + 1)) =~~= merge_tokens_spec(
            base,
            extras,
        ));
    }
    assert(extras.skip(m as int) =~= Seq::<Seq<char>>::empty());
    tokens
}

proof fn lemma_tokens_of_pairs_index(pairs: Seq<(String, String)>)
    ensures
        tokens_of_pairs(pairs).len() == pairs.len(),
        forall|j: int|
            0 <= j < pairs.len() ==> #[trigger] tokens_of_pairs(pairs)[j] == token_of(
                pairs[j].0@,
                pairs[j].1@,
            ),
    decreases pairs.len(),
{
    if pairs.len() > 0 {
        lemma_tokens_of_pairs_index(pairs.drop_last());
        assert forall|j: int| 0 <= j < pairs.len() implies #[trigger] tokens_of_pairs(pairs)[j]
            == token_of(pairs[j].0@, pairs[j].1@) by {
            if j < pairs.len() - 1 {
                assert(pairs.drop_last()[j] == pairs[j]);
                assert(tokens_of_pairs(pairs.drop_last())[j] == token_of(
                    pairs.drop_last()[j].0@,
                    pairs.drop_last()[j].1@,
                ));
            } else {
                assert(pairs.last() == pairs[pairs.len() - 1]);
            }
        }
    }
}

/// Digest the installed tree from its enumerated packages: `None` when
/// nothing is installed, else the canonical-order content digest.
pub fn compute_node_modules_hash(
    installed: &Vec<(String, String)>,
    store_entries: &Vec<(String, String)>,
) -> (r: Option<String>)
    ensures
        match r {
            Some(h) => node_modules_tokens_spec(installed@, store_entries@).len() > 0 && h@
                == dep_tree_digest_spec(node_modules_tokens_spec(installed@, store_entries@)),
            None => node_modules_tokens_spec(installed@, store_entries@).len() == 0,
        },
{
    let tokens = node_modules_tokens(installed, store_entries);
    dep_tree_hash(tokens)
}

} // verus!

verus! {

// ---------------------------------------------------------------------------
// Enumeration order cannot change the digest
// ---------------------------------------------------------------------------

proof fn lemma_tokens_of_pairs_remove(pairs: Seq<(String, String)>, j: int)
    requires
        0 <= j < pairs.len(),
    ensures
        tokens_of_pairs(pairs).to_multiset() == tokens_of_pairs(pairs.remove(j)).to_multiset()
            .insert(token_of(pairs[j].0@, pairs[j].1@)),
    decreases pairs.len(),
{
    broadcast use vstd::seq_lib::group_to_multiset_ensures;
    broadcast use vstd::multiset::group_multiset_axioms;

    let d = pairs.drop_last();
    let tok_last = token_of(pairs.last().0@, pairs.last().1@);
    assert(tokens_of_pairs(pairs) == tokens_of_pairs(d) + seq![tok_last]);
    assert(tokens_of_pairs(d) + seq![tok_last] =~= tokens_of_pairs(d).push(tok_last));
    assert(tokens_of_pairs(pairs).to_multiset() =~= tokens_of_pairs(d).to_multiset().insert(
        tok_last,
    ));
    if j == pairs.len() - 1 {
        assert(pairs.remove(j) =~= d);
    } else {
        lemma_tokens_of_pairs_remove(d, j);
        let r = pairs.remove(j);
        assert(r.drop_last() =~= d.remove(j));
        assert(r.last() == pairs.last());
        assert(tokens_of_pairs(r) == tokens_of_pairs(d.remove(j)) + seq![tok_last]);
        assert(tokens_of_pairs(d.remove(j)) + seq![tok_last] =~= tokens_of_pairs(
            d.remove(j),
        ).push(tok_last));
        assert(tokens_of_pairs(r).to_multiset() =~= tokens_of_pairs(d.remove(j)).to_multiset()
            .insert(tok_last));
        let tok_j = token_of(pairs[j].0@, pairs[j].1@);
        assert(tokens_of_pairs(d).to_multiset() == tokens_of_pairs(d.remove(j)).to_multiset()
            .insert(tok_j));
        assert(tokens_of_pairs(pairs).to_multiset() =~= tokens_of_pairs(r).to_multiset().insert(
            tok_j,
        ));
    }
}

/// Re-ordering the enumerated (name, version) pairs only re-orders the
/// tokens they map to.
pub proof fn lemma_tokens_of_pairs_permutation(a: Seq<(String, String)>, b: Seq<(String, String)>)
    requires
        a.to_multiset() == b.to_multiset(),
    ensures
        tokens_of_pairs(a).to_multiset() == tokens_of_pairs(b).to_multiset(),
    decreases a.len(),
{
    broadcast use vstd::seq_lib::group_to_multiset_ensures;
    broadcast use vstd::multiset::group_multiset_axioms;

    if a.len() == 0 {
        assert(a.to_multiset().len() == a.len());
        assert(b.to_multiset().len() == b.len());
        assert(b.len() == 0);
        assert(tokens_of_pairs(a).to_multiset() =~= tokens_of_pairs(b).to_multiset());
    } else {
        let last = a.last();
        assert(a.contains(last));
        assert(a.to_multiset().contains(last));
        assert(b.contains(last));
        let j = choose|j: int| 0 <= j < b.len() && b[j] == last;
        let d = a.drop_last();
        assert(a.remove(a.len() - 1) =~= d);
        assert(d.to_multiset() =~= a.to_multiset().remove(last));
        assert(b.remove(j).to_multiset() =~= b.to_multiset().remove(last));
        lemma_tokens_of_pairs_permutation(d, b.remove(j));
        let tok_last = token_of(last.0@, last.1@);
        assert(tokens_of_pairs(a) == tokens_of_pairs(d) + seq![tok_last]);
        assert(tokens_of_pairs(d) + seq![tok_last] =~= tokens_of_pairs(d).push(tok_last));
        assert(tokens_of_pairs(a).to_multiset() =~= tokens_of_pairs(d).to_multiset().insert(
            tok_last,
        ));
        lemma_tokens_of_pairs_remove(b, j);
        assert(tokens_of_pairs(b).to_multiset() == tokens_of_pairs(b.remove(j)).to_multiset()
            .insert(tok_last));
    }
}

/// What merging contributes, element by element: each distinct extra not
/// already present is appended exactly once.
proof fn lemma_merge_tokens_count(acc: Seq<Seq<char>>, extras: Seq<Seq<char>>, x: Seq<char>)
    ensures
        merge_tokens_spec(acc, extras).to_multiset().count(x) == acc.to_multiset().count(x) + (
        if extras.contains(x) && !acc.contains(x) {
            1int
        } else {
            0int
        }),
    decreases extras.len(),
{
    broadcast use vstd::seq_lib::group_to_multiset_ensures;
    broadcast use vstd::multiset::group_multiset_axioms;

    if extras.len() == 0 {
    } else {
        let e = extras.first();
        let rest = extras.drop_first();
        assert(extras.remove(0) =~= rest);
        assert(rest.to_multiset() =~= extras.to_multiset().remove(e));
        assert(extras.contains(e)) by {
            assert(extras[0] == e);
        }
        // Membership in the tail, via counts.
        assert(x != e ==> (rest.contains(x) <==> extras.contains(x))) by {
            if x != e {
                assert(rest.to_multiset().count(x) == extras.to_multiset().count(x));
            }
        }
        if acc.contains(e) {
            lemma_merge_tokens_count(acc, rest, x);
            if x == e {
                assert(!(extras.contains(x) && !acc.contains(x)));
                assert(!(rest.contains(x) && !acc.contains(x)));
            }
        } else {
            let acc2 = acc.push(e);
            lemma_merge_tokens_count(acc2, rest, x);
            assert(acc2.to_multiset() =~= acc.to_multiset().insert(e));
            if x == e {
                assert(acc2.to_multiset().count(e) == acc.to_multiset().count(e) + 1);
                assert(acc.to_multiset().count(e) == 0);
                assert(acc2.contains(e));
                assert(!(rest.contains(e) && !acc2.contains(e)));
                assert(extras.contains(e) && !acc.contains(e));
            } else {
                assert(acc2.to_multiset().count(x) == acc.to_multiset().count(x));
                assert(acc2.contains(x) <==> acc.contains(x)) by {
                    assert(acc2.to_multiset().count(x) == acc.to_multiset().count(x));
                }
            }
        }
    }
}

/// Merging depends only on what the two lists hold, not on their order:
/// the merged contents are the base contents plus one copy of each extra
/// not already present.
pub proof fn lemma_merge_tokens_order_invariant(
    acc1: Seq<Seq<char>>,
    extras1: Seq<Seq<char>>,
    acc2: Seq<Seq<char>>,
    extras2: Seq<Seq<char>>,
)
    requires
        acc1.to_multiset() == acc2.to_multiset(),
        extras1.to_multiset() == extras2.to_multiset(),
    ensures
        merge_tokens_spec(acc1, extras1).to_multiset() == merge_tokens_spec(
            acc2,
            extras2,
        ).to_multiset(),
{
    broadcast use vstd::seq_lib::group_to_multiset_ensures;
    broadcast use vstd::multiset::group_multiset_axioms;

    assert forall|x: Seq<char>|
        #[trigger] merge_tokens_spec(acc1, extras1).to_multiset().count(x) == merge_tokens_spec(
            acc2,
            extras2,
        ).to_multiset().count(x) by {
        lemma_merge_tokens_count(acc1, extras1, x);
        lemma_merge_tokens_count(acc2, extras2, x);
        assert(acc1.contains(x) <==> acc1.to_multiset().count(x) > 0);
        assert(acc2.contains(x) <==> acc2.to_multiset().count(x) > 0);
        assert(extras1.contains(x) <==> extras1.to_multiset().count(x) > 0);
        assert(extras2.contains(x) <==> extras2.to_multiset().count(x) > 0);
        assert(acc1.to_multiset().count(x) == acc2.to_multiset().count(x));
        assert(extras1.to_multiset().count(x) == extras2.to_multiset().count(x));
    }
    assert(merge_tokens_spec(acc1, extras1).to_multiset() =~= merge_tokens_spec(
        acc2,
        extras2,
    ).to_multiset());
}

/// The dependency-tree digest is invariant under directory-listing
/// order, end to end: two enumerations of the same installed tree — the
/// same top-level (name, version) pairs and the same store entries, in
/// any order — produce the same token contents, hence the same digest
/// text; and on unchanged enumerations a re-run returns it again.
pub proof fn lemma_tree_digest_order_invariant(
    installed_a: Seq<(String, String)>,
    store_a: Seq<(String, String)>,
    installed_b: Seq<(String, String)>,
    store_b: Seq<(String, String)>,
)
    requires
        installed_a.to_multiset() == installed_b.to_multiset(),
        store_a.to_multiset() == store_b.to_multiset(),
    ensures
        node_modules_tokens_spec(installed_a, store_a).to_multiset() == node_modules_tokens_spec(
            installed_b,
            store_b,
        ).to_multiset(),
        dep_tree_digest_spec(node_modules_tokens_spec(installed_a, store_a))
            == dep_tree_digest_spec(node_modules_tokens_spec(installed_b, store_b)),
{
    lemma_tokens_of_pairs_permutation(installed_a, installed_b);
    lemma_tokens_of_pairs_permutation(store_a, store_b);
    lemma_merge_tokens_order_invariant(
        tokens_of_pairs(installed_a),
        tokens_of_pairs(store_a),
        tokens_of_pairs(installed_b),
        tokens_of_pairs(store_b),
    );
    lemma_digest_order_invariant(
        node_modules_tokens_spec(installed_a, store_a),
        node_modules_tokens_spec(installed_b, store_b),
    );
}

} // verus!

verus! {

use crate::checks::toolchain::NodeVersionManager;
use crate::checks::toolchain::manager_label_spec;

/// Assemble a fresh snapshot from gathered plain values: the current
/// schema version and generator stamp, the toolchain as probed (an
/// unknown version manager is not recorded), the lockfile pair when one
/// was seen (a missing hash recorded as empty), and the cache and
/// framework sections dropped entirely when they would be empty.
pub fn assemble_env_lock(
    generated_at: String,
    node: String,
    version_manager: NodeVersionManager,
    package_manager: String,
    package_manager_version: String,
    corepack_enabled: Option<bool>,
    lockfile_type: Option<String>,
    lockfile_hash: Option<String>,
    node_modules_hash: Option<String>,
    pnpm_store_path: Option<String>,
    react: Option<String>,
    next: Option<String>,
    typescript: Option<String>,
) -> (r: EnvLock)
    ensures
        r.metadata.version@ == CURRENT_SCHEMA_VERSION@,
        r.metadata.generated_at == generated_at,
        r.metadata.generated_by@ == "zenvo@0.1.0"@,
        r.toolchain.node == node,
        (match r.toolchain.node_version_source {
            Some(label) => version_manager != NodeVersionManager::Unknown && label@
                == manager_label_spec(version_manager),
            None => version_manager == NodeVersionManager::Unknown,
        }),
        r.toolchain.package_manager == package_manager,
        r.toolchain.package_manager_version == package_manager_version,
        r.toolchain.corepack_enabled == corepack_enabled,
        r.environment is None,
        (match (lockfile_type, &r.lockfile) {
            (Some(t), Some(info)) => info.lockfile_type == t && (match lockfile_hash {
                Some(h) => info.hash == h,
                None => info.hash@.len() == 0,
            }),
            (None, None) => true,
            _ => false,
        }),
        (match &r.caches {
            Some(c) => (node_modules_hash is Some || pnpm_store_path is Some)
                && c.node_modules_hash == node_modules_hash && c.pnpm_store_path
                == pnpm_store_path,
            None => node_modules_hash is None && pnpm_store_path is None,
        }),
        (match &r.frameworks {
            Some(f) => (react is Some || next is Some || typescript is Some) && f.react == react
                && f.next == next && f.typescript == typescript,
            None => react is None && next is None && typescript is None,
        }),
{
    let node_version_source: Option<String> = match version_manager {
        NodeVersionManager::Unknown => None,
        m => Some(m.label().to_owned()),
    };
    let lockfile: Option<LockfileInfo> = match lockfile_type {
        Some(t) => Some(
            LockfileInfo {
                lockfile_type: t,
                hash: match lockfile_hash {
                    Some(h) => h,
                    None => String::new(),
                },
            },
        ),
        None => None,
    };
    let caches: Option<Caches> = if node_modules_hash.is_none() && pnpm_store_path.is_none() {
        None
    } else {
        Some(Caches { node_modules_hash, pnpm_store_path })
    };
    let frameworks: Option<Frameworks> = if react.is_none() && next.is_none()
        && typescript.is_none() {
        None
    } else {
        Some(Frameworks { react, next, typescript })
    };
    EnvLock {
        metadata: Metadata {
            version: CURRENT_SCHEMA_VERSION.to_owned(),
            generated_at,
            generated_by: String::from_str("zenvo@0.1.0"),
        },
        toolchain: Toolchain {
            node,
            node_version_source,
            package_manager,
            package_manager_version,
            corepack_enabled,
        },
        environment: None,
        lockfile,
        caches,
        frameworks,
    }
}

} // verus!
