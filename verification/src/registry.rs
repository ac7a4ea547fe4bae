//! Registry-facing helpers: version lists sorted by precedence,
//! constraint filtering, and upgrade classification.

use vstd::prelude::*;
use crate::text;
use crate::version;

verus! {

use vstd::string::StrSliceExecFns;

/// One registry version for display: its text, publication time, and
/// distribution standing.
#[derive(Debug, Clone)]
pub struct VersionInfo {
    pub version: String,
    pub published: Option<String>,
    pub is_latest: bool,
    pub is_deprecated: bool,
}

#[verifier::ext_equal]
pub ghost struct ViModel {
    pub version: Seq<char>,
    pub published: Option<Seq<char>>,
    pub is_latest: bool,
    pub is_deprecated: bool,
}

pub open spec fn vi_model(v: &VersionInfo) -> ViModel {
    ViModel {
        version: v.version@,
        published: match v.published {
            Some(p) => Some(p@),
            None => None,
        },
        is_latest: v.is_latest,
        is_deprecated: v.is_deprecated,
    }
}

pub open spec fn vi_models(s: Seq<VersionInfo>) -> Seq<ViModel> {
    s.map_values(|v: VersionInfo| vi_model(&v))
}

/// `a` does not precede `b`: it may stand before `b` in a descending
/// arrangement.
pub open spec fn vi_ge(a: ViModel, b: ViModel) -> bool {
    !(version::compare_semver_spec(a.version, b.version) is Less)
}

pub open spec fn insert_vi_desc(x: ViModel, s: Seq<ViModel>) -> Seq<ViModel>
    decreases s.len(),
{
    if s.len() == 0 {
        seq![x]
    } else if vi_ge(x, s.first()) {
        seq![x] + s
    } else {
        seq![s.first()] + insert_vi_desc(x, s.drop_first())
    }
}

/// The version list in precedence order, newest first, ties keeping
/// listing order.
pub open spec fn sort_vi_desc(s: Seq<ViModel>) -> Seq<ViModel>
    decreases s.len(),
{
    if s.len() == 0 {
        Seq::empty()
    } else {
        insert_vi_desc(s.first(), sort_vi_desc(s.drop_first()))
    }
}

fn insert_version(x: VersionInfo, v: Vec<VersionInfo>) -> (r: Vec<VersionInfo>)
    ensures
        vi_models(r@) =~~= insert_vi_desc(vi_model(&x), vi_models(v@)),
    decreases v@.len(),
{
    let ghost sv = vi_models(v@);
    if v.len() == 0 {
        let mut r: Vec<VersionInfo> = Vec::new();
        r.push(x);
        assert(vi_models(r@) =~~= seq![vi_model(&x)]);
        r
    } else {
        assert(vi_model(&v@[0]) == sv[0] && sv.first() == sv[0]);
        let ge = match version::compare_semver(x.version.as_str(), v[0].version.as_str()) {
            core::cmp::Ordering::Less => false,
            _ => true,
        };
        if ge {
            let ghost xm = vi_model(&x);
            let mut r = v;
            r.insert(0, x);
            assert(vi_models(r@) =~~= seq![xm] + sv);
            r
        } else {
            let mut w = v;
            let first = w.remove(0);
            assert(vi_models(w@) =~~= sv.drop_first());
            let ghost fm = vi_model(&first);
            let mut rest = insert_version(x, w);
            rest.insert(0, first);
            assert(vi_models(rest@) =~~= seq![fm] + insert_vi_desc(vi_model(&x), sv.drop_first()));
            rest
        }
    }
}

/// Sort registry versions by precedence, newest first.
pub fn get_sorted_versions(v: Vec<VersionInfo>) -> (r: Vec<VersionInfo>)
    ensures
        vi_models(r@) =~~= sort_vi_desc(vi_models(v@)),
    decreases v@.len(),
{
    let ghost sv = vi_models(v@);
    if v.len() == 0 {
        let r: Vec<VersionInfo> = Vec::new();
        assert(vi_models(r@) =~~= Seq::<ViModel>::empty());
        r
    } else {
        assert(vi_model(&v@[0]) == sv[0] && sv.first() == sv[0]);
        let mut w = v;
        let first = w.remove(0);
        assert(vi_models(w@) =~~= sv.drop_first());
        let sorted_rest = get_sorted_versions(w);
        let ghost srv = vi_models(sorted_rest@);
        let r = insert_version(first, sorted_rest);
        assert(srv =~~= sort_vi_desc(sv.drop_first()));
        assert(insert_vi_desc(vi_model(&first), srv) =~~= insert_vi_desc(
            vi_model(&first),
            sort_vi_desc(sv.drop_first()),
        ));
        assert(vi_models(r@) =~~= sort_vi_desc(sv));
        r
    }
}

/// A constraint split at its leading comparison operator; a bare version
/// means equality.
pub open spec fn constraint_parts_spec(c0: Seq<char>) -> (Seq<char>, Seq<char>) {
    let c = text::trim_spec(c0);
    if text::starts_with_spec(c, ">="@) {
        (">="@, text::trim_spec(c.skip(2)))
    } else if text::starts_with_spec(c, "<="@) {
        ("<="@, text::trim_spec(c.skip(2)))
    } else if c.len() > 0 && c[0] == '^' {
        ("^"@, text::trim_spec(c.skip(1)))
    } else if c.len() > 0 && c[0] == '~' {
        ("~"@, text::trim_spec(c.skip(1)))
    } else if c.len() > 0 && c[0] == '>' {
        (">"@, text::trim_spec(c.skip(1)))
    } else if c.len() > 0 && c[0] == '<' {
        ("<"@, text::trim_spec(c.skip(1)))
    } else if c.len() > 0 && c[0] == '=' {
        ("="@, text::trim_spec(c.skip(1)))
    } else {
        ("="@, c)
    }
}

/// The versions whose text stands to the constraint as its operator
/// demands, in input order.
pub open spec fn filter_by_constraint_spec(versions: Seq<ViModel>, c0: Seq<char>) -> Seq<ViModel>
    decreases versions.len(),
{
    if versions.len() == 0 {
        Seq::empty()
    } else {
        let rest = filter_by_constraint_spec(versions.drop_last(), c0);
        let parts = constraint_parts_spec(c0);
        if version::matches_constraint_spec(versions.last().version, parts.0, parts.1) {
            rest + seq![versions.last()]
        } else {
            rest
        }
    }
}

proof fn lemma_filter_constraint_take_succ(versions: Seq<ViModel>, c0: Seq<char>, i: int)
    requires
        0 <= i < versions.len(),
    ensures
        filter_by_constraint_spec(versions.take(i + 1), c0) == filter_by_constraint_spec(
            versions.take(i),
            c0,
        ) + (if version::matches_constraint_spec(
            versions[i].version,
            constraint_parts_spec(c0).0,
            constraint_parts_spec(c0).1,
        ) {
            seq![versions[i]]
        } else {
            Seq::<ViModel>::empty()
        }),
{
    assert(versions.take(i + 1).drop_last() =~= versions.take(i));
    assert(versions.take(i + 1).last() == versions[i]);
    if !version::matches_constraint_spec(
        versions[i].version,
        constraint_parts_spec(c0).0,
        constraint_parts_spec(c0).1,
    ) {
        assert(filter_by_constraint_spec(versions.take(i + 1), c0) =~~= filter_by_constraint_spec(
            versions.take(i),
            c0,
        ) + Seq::<ViModel>::empty());
    }
}

/// Keep the versions matching a single-operator constraint.
pub fn filter_by_constraint(versions: Vec<VersionInfo>, constraint: &str) -> (r: Vec<VersionInfo>)
    ensures
        vi_models(r@) =~~= filter_by_constraint_spec(vi_models(versions@), constraint@),
{
    proof {
        reveal_strlit(">=");
        reveal_strlit("<=");
        reveal_strlit("^");
        reveal_strlit("~");
        reveal_strlit(">");
        reveal_strlit("<");
        reveal_strlit("=");
    }
    let c = text::trim(constraint);
    let clen = c.unicode_len();
    let (op, cver): (&str, &str) = if text::starts_with(c, ">=") {
        let rest = c.substring_char(2, clen);
        assert(rest@ =~= c@.skip(2));
        (">=", text::trim(rest))
    } else if text::starts_with(c, "<=") {
        let rest = c.substring_char(2, clen);
        assert(rest@ =~= c@.skip(2));
        ("<=", text::trim(rest))
    } else if clen > 0 && c.get_char(0) == '^' {
        let rest = c.substring_char(1, clen);
        assert(rest@ =~= c@.skip(1));
        ("^", text::trim(rest))
    } else if clen > 0 && c.get_char(0) == '~' {
        let rest = c.substring_char(1, clen);
        assert(rest@ =~= c@.skip(1));
        ("~", text::trim(rest))
    } else if clen > 0 && c.get_char(0) == '>' {
        let rest = c.substring_char(1, clen);
        assert(rest@ =~= c@.skip(1));
        (">", text::trim(rest))
    } else if clen > 0 && c.get_char(0) == '<' {
        let rest = c.substring_char(1, clen);
        assert(rest@ =~= c@.skip(1));
        ("<", text::trim(rest))
    } else if clen > 0 && c.get_char(0) == '=' {
        let rest = c.substring_char(1, clen);
        assert(rest@ =~= c@.skip(1));
        ("=", text::trim(rest))
    } else {
        ("=", c)
    };
    assert(op@ == constraint_parts_spec(constraint@).0 && cver@ == constraint_parts_spec(
        constraint@,
    ).1);
    let ghost vm = vi_models(versions@);
    let n = versions.len();
    let mut out: Vec<VersionInfo> = Vec::new();
    assert(vm.take(0) =~= Seq::<ViModel>::empty());
    assert(vi_models(out@) =~~= filter_by_constraint_spec(vm.take(0), constraint@));
    for i in 0..n
        invariant
            n == versions@.len(),
            vm == vi_models(versions@),
            n == vm.len(),
            op@ == constraint_parts_spec(constraint@).0,
            cver@ == constraint_parts_spec(constraint@).1,
            vi_models(out@) =~~= filter_by_constraint_spec(vm.take(i as int), constraint@),
    {
        proof {
            lemma_filter_constraint_take_succ(vm, constraint@, i as int);
            assert(vm[i as int] == vi_model(&versions@[i as int]));
        }
        let ghost prev = vi_models(out@);
        if version::matches_constraint(versions[i].version.as_str(), op, cver) {
            let item = VersionInfo {
                version: versions[i].version.clone(),
                published: match &versions[i].published {
                    Some(p) => Some(p.clone()),
                    None => None,
                },
                is_latest: versions[i].is_latest,
                is_deprecated: versions[i].is_deprecated,
            };
            let ghost im = vi_model(&item);
            assert(im =~= vm[i as int]);
            out.push(item);
            assert(vi_models(out@) =~~= prev.push(im));
            assert(prev.push(im) =~~= prev + seq![vm[i as int]]);
        }
        assert(vi_models(out@) =~~= filter_by_constraint_spec(vm.take(i + 1), constraint@));
    }
    assert(vm.take(n as int) =~= vm);
    out
}

// ---------------------------------------------------------------------------
// Upgrade classes
// ---------------------------------------------------------------------------

/// One available upgrade, classified.
#[derive(Debug, Clone)]
pub struct PackageUpgrade {
    pub name: String,
    pub current: String,
    pub wanted: String,
    pub latest: String,
    pub upgrade_type: String,
}

#[verifier::ext_equal]
pub ghost struct UpgradeModel {
    pub name: Seq<char>,
    pub current: Seq<char>,
    pub wanted: Seq<char>,
    pub latest: Seq<char>,
    pub upgrade_type: Seq<char>,
}

pub open spec fn upgrade_model(u: &PackageUpgrade) -> UpgradeModel {
    UpgradeModel {
        name: u.name@,
        current: u.current@,
        wanted: u.wanted@,
        latest: u.latest@,
        upgrade_type: u.upgrade_type@,
    }
}

pub open spec fn upgrade_models(s: Seq<PackageUpgrade>) -> Seq<UpgradeModel> {
    s.map_values(|u: PackageUpgrade| upgrade_model(&u))
}

/// The members of one upgrade class, in input order.
pub open spec fn upgrades_of_class(s: Seq<UpgradeModel>, class: Seq<char>) -> Seq<UpgradeModel>
    decreases s.len(),
{
    if s.len() == 0 {
        Seq::empty()
    } else {
        let rest = upgrades_of_class(s.drop_last(), class);
        if s.last().upgrade_type =~= class {
            rest + seq![s.last()]
        } else {
            rest
        }
    }
}

pub open spec fn is_known_class(t: Seq<char>) -> bool {
    t =~= "patch"@ || t =~= "minor"@ || t =~= "major"@
}

pub open spec fn upgrades_of_other(s: Seq<UpgradeModel>) -> Seq<UpgradeModel>
    decreases s.len(),
{
    if s.len() == 0 {
        Seq::empty()
    } else {
        let rest = upgrades_of_other(s.drop_last());
        if !is_known_class(s.last().upgrade_type) {
            rest + seq![s.last()]
        } else {
            rest
        }
    }
}

/// The class order of the upgrade plan: patch, then minor, then major,
/// then anything unrecognised, input order kept within each class.
pub open spec fn sorted_upgrades_spec(s: Seq<UpgradeModel>) -> Seq<UpgradeModel> {
    upgrades_of_class(s, "patch"@) + upgrades_of_class(s, "minor"@) + upgrades_of_class(
        s,
        "major"@,
    ) + upgrades_of_other(s)
}

} // verus!

verus! {

proof fn lemma_class_take_succ(s: Seq<UpgradeModel>, class: Seq<char>, i: int)
    requires
        0 <= i < s.len(),
    ensures
        upgrades_of_class(s.take(i + 1), class) == upgrades_of_class(s.take(i), class) + (if s[i]
            .upgrade_type =~= class {
            seq![s[i]]
        } else {
            Seq::<UpgradeModel>::empty()
        }),
{
    assert(s.take(i + 1).drop_last() =~= s.take(i));
    assert(s.take(i + 1).last() == s[i]);
    if !(s[i].upgrade_type =~= class) {
        assert(upgrades_of_class(s.take(i + 1), class) =~~= upgrades_of_class(s.take(i), class)
            + Seq::<UpgradeModel>::empty());
    }
}

proof fn lemma_other_take_succ(s: Seq<UpgradeModel>, i: int)
    requires
        0 <= i < s.len(),
    ensures
        upgrades_of_other(s.take(i + 1)) == upgrades_of_other(s.take(i)) + (if !is_known_class(
            s[i].upgrade_type,
        ) {
            seq![s[i]]
        } else {
            Seq::<UpgradeModel>::empty()
        }),
{
    assert(s.take(i + 1).drop_last() =~= s.take(i));
    assert(s.take(i + 1).last() == s[i]);
    if is_known_class(s[i].upgrade_type) {
        assert(upgrades_of_other(s.take(i + 1)) =~~= upgrades_of_other(s.take(i))
            + Seq::<UpgradeModel>::empty());
    }
}

fn copy_upgrade(u: &PackageUpgrade) -> (r: PackageUpgrade)
    ensures
        upgrade_model(&r) =~= upgrade_model(u),
{
    PackageUpgrade {
        name: u.name.clone(),
        current: u.current.clone(),
        wanted: u.wanted.clone(),
        latest: u.latest.clone(),
        upgrade_type: u.upgrade_type.clone(),
    }
}

fn push_class(out: &mut Vec<PackageUpgrade>, s: &Vec<PackageUpgrade>, class: &str)
    ensures
        upgrade_models(final(out)@) =~~= upgrade_models(old(out)@) + upgrades_of_class(
            upgrade_models(s@),
            class@,
        ),
{
    let ghost sm = upgrade_models(s@);
    let ghost before = upgrade_models(out@);
    let n = s.len();
    assert(sm.take(0) =~= Seq::<UpgradeModel>::empty());
    assert(upgrade_models(out@) =~~= before + upgrades_of_class(sm.take(0), class@));
    for i in 0..n
        invariant
            n == s@.len(),
            sm == upgrade_models(s@),
            n == sm.len(),
            upgrade_models(out@) =~~= upgrade_models(old(out)@) + upgrades_of_class(
                sm.take(i as int),
                class@,
            ),
    {
        proof {
            lemma_class_take_succ(sm, class@, i as int);
            assert(sm[i as int] == upgrade_model(&s@[i as int]));
        }
        let ghost prev = upgrade_models(out@);
        if crate::text::str_eq(s[i].upgrade_type.as_str(), class) {
            let item = copy_upgrade(&s[i]);
            let ghost im = upgrade_model(&item);
            out.push(item);
            assert(upgrade_models(out@) =~~= prev.push(im));
            assert(prev.push(im) =~~= prev + seq![sm[i as int]]);
        }
        assert(upgrade_models(out@) =~~= upgrade_models(old(out)@) + upgrades_of_class(
            sm.take(i + 1),
            class@,
        ));
    }
    assert(sm.take(n as int) =~= sm);
}

/// Arrange upgrades by class: patch first, then minor, then major, then
/// anything unrecognised, input order kept within each class.
pub fn sort_upgrades(s: Vec<PackageUpgrade>) -> (r: Vec<PackageUpgrade>)
    ensures
        upgrade_models(r@) =~~= sorted_upgrades_spec(upgrade_models(s@)),
{
    proof {
        reveal_strlit("patch");
        reveal_strlit("minor");
        reveal_strlit("major");
    }
    let ghost sm = upgrade_models(s@);
    let mut out: Vec<PackageUpgrade> = Vec::new();
    push_class(&mut out, &s, "patch");
    push_class(&mut out, &s, "minor");
    push_class(&mut out, &s, "major");
    let ghost before = upgrade_models(out@);
    let n = s.len();
    assert(sm.take(0) =~= Seq::<UpgradeModel>::empty());
    assert(upgrade_models(out@) =~~= before + upgrades_of_other(sm.take(0)));
    for i in 0..n
        invariant
            n == s@.len(),
            sm == upgrade_models(s@),
            n == sm.len(),
            before =~~= upgrades_of_class(sm, "patch"@) + upgrades_of_class(sm, "minor"@)
                + upgrades_of_class(sm, "major"@),
            upgrade_models(out@) =~~= before + upgrades_of_other(sm.take(i as int)),
    {
        proof {
            lemma_other_take_succ(sm, i as int);
            assert(sm[i as int] == upgrade_model(&s@[i as int]));
            reveal_strlit("patch");
            reveal_strlit("minor");
            reveal_strlit("major");
        }
        let ghost prev = upgrade_models(out@);
        let known = crate::text::str_eq(s[i].upgrade_type.as_str(), "patch") || crate::text::str_eq(
            s[i].upgrade_type.as_str(),
            "minor",
        ) || crate::text::str_eq(s[i].upgrade_type.as_str(), "major");
        if !known {
            let item = copy_upgrade(&s[i]);
            let ghost im = upgrade_model(&item);
            out.push(item);
            assert(upgrade_models(out@) =~~= prev.push(im));
            assert(prev.push(im) =~~= prev + seq![sm[i as int]]);
        }
        assert(upgrade_models(out@) =~~= before + upgrades_of_other(sm.take(i + 1)));
    }
    assert(sm.take(n as int) =~= sm);
    out
}

} // verus!
