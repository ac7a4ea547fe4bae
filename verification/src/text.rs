//! Verified helpers over character sequences: searching, splitting,
//! trimming and digit parsing.  Everything in this module is executable
//! code proved against spec functions on `Seq<char>`.

use vstd::prelude::*;

verus! {

use vstd::string::StrSliceExecFns;

// ---------------------------------------------------------------------------
// Character classes
// ---------------------------------------------------------------------------

pub open spec fn is_space_char(c: char) -> bool {
    c == ' ' || c == '\t' || c == '\r' || c == '\n'
}

pub open spec fn is_digit_char(c: char) -> bool {
    '0' <= c && c <= '9'
}

/// Numeric value of a digit character; 0 for anything else.
pub open spec fn digit_of(c: char) -> nat {
    if is_digit_char(c) {
        ((c as u32) - 48) as nat
    } else {
        0
    }
}

pub fn exec_is_space_char(c: char) -> (r: bool)
    ensures
        r == is_space_char(c),
{
    c == ' ' || c == '\t' || c == '\r' || c == '\n'
}

pub fn exec_is_digit_char(c: char) -> (r: bool)
    ensures
        r == is_digit_char(c),
{
    '0' <= c && c <= '9'
}

// ---------------------------------------------------------------------------
// Equality and prefix tests
// ---------------------------------------------------------------------------

pub open spec fn starts_with_spec(s: Seq<char>, p: Seq<char>) -> bool {
    p.len() <= s.len() && s.take(p.len() as int) =~= p
}

/// Character-for-character equality of two string slices.
pub fn str_eq(a: &str, b: &str) -> (r: bool)
    ensures
        r == (a@ == b@),
{
    let alen = a.unicode_len();
    let blen = b.unicode_len();
    if alen != blen {
        assert(a@ != b@) by {
            assert(a@.len() != b@.len());
        }
        return false;
    }
    for i in 0..alen
        invariant
            alen == a@.len(),
            alen == b@.len(),
            forall|j: int| 0 <= j < i ==> a@[j] == b@[j],
    {
        if a.get_char(i) != b.get_char(i) {
            assert(a@ != b@) by {
                assert(a@[i as int] != b@[i as int]);
            }
            return false;
        }
    }
    assert(a@ =~= b@);
    true
}

pub fn starts_with(s: &str, p: &str) -> (r: bool)
    ensures
        r == starts_with_spec(s@, p@),
{
    let slen = s.unicode_len();
    let plen = p.unicode_len();
    if plen > slen {
        return false;
    }
    for i in 0..plen
        invariant
            slen == s@.len(),
            plen == p@.len(),
            plen <= slen,
            forall|j: int| 0 <= j < i ==> s@[j] == p@[j],
    {
        if s.get_char(i) != p.get_char(i) {
            assert(s@.take(plen as int)[i as int] != p@[i as int]);
            return false;
        }
    }
    assert(s@.take(plen as int) =~= p@);
    true
}

// ---------------------------------------------------------------------------
// Substring search
// ---------------------------------------------------------------------------

/// The pattern `p` occurs in `s` at position `i`.
pub open spec fn matches_at(s: Seq<char>, p: Seq<char>, i: int) -> bool {
    0 <= i && i + p.len() <= s.len() && s.subrange(i, i + p.len()) =~= p
}

/// First occurrence of `p` in `s` at or after position `i`.
pub open spec fn find_sub_from(s: Seq<char>, p: Seq<char>, i: int) -> Option<int>
    decreases s.len() - i,
{
    if i < 0 || i + p.len() > s.len() {
        None
    } else if matches_at(s, p, i) {
        Some(i)
    } else {
        find_sub_from(s, p, i + 1)
    }
}

/// First occurrence of `p` in `s`.
pub open spec fn find_sub_spec(s: Seq<char>, p: Seq<char>) -> Option<int> {
    find_sub_from(s, p, 0)
}

pub open spec fn contains_sub(s: Seq<char>, p: Seq<char>) -> bool {
    find_sub_spec(s, p) is Some
}

fn matches_at_exec(s: &str, p: &str, i: usize) -> (r: bool)
    requires
        i + p@.len() <= s@.len(),
        s@.len() <= usize::MAX,
    ensures
        r == matches_at(s@, p@, i as int),
{
    let plen = p.unicode_len();
    for k in 0..plen
        invariant
            plen == p@.len(),
            i + plen <= s@.len(),
            s@.len() <= usize::MAX,
            forall|j: int| 0 <= j < k ==> s@[i + j] == p@[j],
    {
        if s.get_char(i + k) != p.get_char(k) {
            assert(s@.subrange(i as int, i + plen) != p@) by {
                assert(s@.subrange(i as int, i + plen)[k as int] != p@[k as int]);
            }
            return false;
        }
    }
    assert(s@.subrange(i as int, i + plen) =~= p@);
    true
}

/// Index of the first occurrence of `p` in `s`, if any.
pub fn find_sub(s: &str, p: &str) -> (r: Option<usize>)
    ensures
        match r {
            Some(i) => find_sub_spec(s@, p@) == Some(i as int),
            None => find_sub_spec(s@, p@) is None,
        },
{
    let slen = s.unicode_len();
    let plen = p.unicode_len();
    if plen > slen {
        return None;
    }
    if plen == 0 {
        assert(matches_at(s@, p@, 0)) by {
            assert(s@.subrange(0, 0) =~= p@);
        }
        return Some(0);
    }
    let mut i: usize = 0;
    while i <= slen - plen
        invariant
            slen == s@.len(),
            plen == p@.len(),
            0 < plen <= slen,
            0 <= i,
            i <= slen - plen + 1,
            find_sub_spec(s@, p@) == find_sub_from(s@, p@, i as int),
        decreases slen - i,
    {
        if matches_at_exec(s, p, i) {
            return Some(i);
        }
        i = i + 1;
    }
    None
}

pub fn contains(s: &str, p: &str) -> (r: bool)
    ensures
        r == contains_sub(s@, p@),
{
    find_sub(s, p).is_some()
}

// ---------------------------------------------------------------------------
// Single-character search
// ---------------------------------------------------------------------------

pub open spec fn find_char_from(s: Seq<char>, c: char, i: int) -> Option<int>
    decreases s.len() - i,
{
    if i < 0 || i >= s.len() {
        None
    } else if s[i] == c {
        Some(i)
    } else {
        find_char_from(s, c, i + 1)
    }
}

pub open spec fn find_char_spec(s: Seq<char>, c: char) -> Option<int> {
    find_char_from(s, c, 0)
}

/// Last occurrence of `c` in `s.take(i)`, scanning backwards from `i - 1`.
pub open spec fn rfind_char_before(s: Seq<char>, c: char, i: int) -> Option<int>
    decreases i,
{
    if i <= 0 || i > s.len() {
        None
    } else if s[i - 1] == c {
        Some(i - 1)
    } else {
        rfind_char_before(s, c, i - 1)
    }
}

pub open spec fn rfind_char_spec(s: Seq<char>, c: char) -> Option<int> {
    rfind_char_before(s, c, s.len() as int)
}

pub fn find_char(s: &str, c: char) -> (r: Option<usize>)
    ensures
        match r {
            Some(i) => find_char_spec(s@, c) == Some(i as int),
            None => find_char_spec(s@, c) is None,
        },
{
    let slen = s.unicode_len();
    let mut i: usize = 0;
    while i < slen
        invariant
            slen == s@.len(),
            0 <= i <= slen,
            find_char_spec(s@, c) == find_char_from(s@, c, i as int),
        decreases slen - i,
    {
        if s.get_char(i) == c {
            return Some(i);
        }
        i = i + 1;
    }
    None
}

/// A backwards search hit lies inside the scanned prefix.
pub proof fn lemma_rfind_before_range(s: Seq<char>, c: char, i: int)
    ensures
        match rfind_char_before(s, c, i) {
            Some(k) => 0 <= k < s.len() && k < i,
            None => true,
        },
    decreases i,
{
    if 0 < i <= s.len() && s[i - 1] != c {
        lemma_rfind_before_range(s, c, i - 1);
    }
}

/// A backwards search hit is a valid index.
pub proof fn lemma_rfind_in_range(s: Seq<char>, c: char)
    ensures
        match rfind_char_spec(s, c) {
            Some(k) => 0 <= k < s.len(),
            None => true,
        },
{
    lemma_rfind_before_range(s, c, s.len() as int);
}

pub fn rfind_char(s: &str, c: char) -> (r: Option<usize>)
    ensures
        match r {
            Some(i) => rfind_char_spec(s@, c) == Some(i as int),
            None => rfind_char_spec(s@, c) is None,
        },
{
    let slen = s.unicode_len();
    let mut i: usize = slen;
    while i > 0
        invariant
            slen == s@.len(),
            0 <= i <= slen,
            rfind_char_spec(s@, c) == rfind_char_before(s@, c, i as int),
        decreases i,
    {
        if s.get_char(i - 1) == c {
            return Some(i - 1);
        }
        i = i - 1;
    }
    None
}

} // verus!

verus! {

use vstd::string::StringExecFns;

// ---------------------------------------------------------------------------
// Characterization lemmas for the search functions
// ---------------------------------------------------------------------------

/// What `find_char_from` returns: the first occurrence at or after `i`.
pub proof fn lemma_find_char_from(s: Seq<char>, c: char, i: int)
    requires
        0 <= i <= s.len(),
    ensures
        match find_char_from(s, c, i) {
            Some(k) => i <= k < s.len() && s[k] == c && (forall|j: int|
                i <= j < k ==> s[j] != c),
            None => forall|j: int| i <= j < s.len() ==> s[j] != c,
        },
    decreases s.len() - i,
{
    if i < s.len() && s[i] != c {
        lemma_find_char_from(s, c, i + 1);
    }
}

/// What `find_sub_from` returns: the first match at or after `i`.
pub proof fn lemma_find_sub_from(s: Seq<char>, p: Seq<char>, i: int)
    requires
        0 <= i,
    ensures
        match find_sub_from(s, p, i) {
            Some(k) => i <= k && k + p.len() <= s.len() && matches_at(s, p, k),
            None => forall|j: int| i <= j ==> !matches_at(s, p, j),
        },
    decreases s.len() - i,
{
    if i + p.len() > s.len() {
        assert forall|j: int| i <= j implies !matches_at(s, p, j) by {}
    } else if !matches_at(s, p, i) {
        lemma_find_sub_from(s, p, i + 1);
    }
}

// ---------------------------------------------------------------------------
// Slicing, trimming, stripping
// ---------------------------------------------------------------------------

pub open spec fn trim_start_spec(s: Seq<char>) -> Seq<char>
    decreases s.len(),
{
    if s.len() > 0 && is_space_char(s.first()) {
        trim_start_spec(s.drop_first())
    } else {
        s
    }
}

pub open spec fn trim_end_spec(s: Seq<char>) -> Seq<char>
    decreases s.len(),
{
    if s.len() > 0 && is_space_char(s.last()) {
        trim_end_spec(s.drop_last())
    } else {
        s
    }
}

/// Whitespace removed from both ends.
pub open spec fn trim_spec(s: Seq<char>) -> Seq<char> {
    trim_end_spec(trim_start_spec(s))
}

pub fn trim_start<'a>(s: &'a str) -> (r: &'a str)
    ensures
        r@ == trim_start_spec(s@),
    decreases s@.len(),
{
    let len = s.unicode_len();
    if len > 0 && exec_is_space_char(s.get_char(0)) {
        let rest = s.substring_char(1, len);
        assert(rest@ =~= s@.drop_first());
        trim_start(rest)
    } else {
        s
    }
}

pub fn trim_end<'a>(s: &'a str) -> (r: &'a str)
    ensures
        r@ == trim_end_spec(s@),
    decreases s@.len(),
{
    let len = s.unicode_len();
    if len > 0 && exec_is_space_char(s.get_char(len - 1)) {
        let rest = s.substring_char(0, len - 1);
        assert(rest@ =~= s@.drop_last());
        trim_end(rest)
    } else {
        s
    }
}

pub fn trim<'a>(s: &'a str) -> (r: &'a str)
    ensures
        r@ == trim_spec(s@),
{
    trim_end(trim_start(s))
}

/// What remains after one leading occurrence of `p`, if `s` starts with it.
pub open spec fn strip_prefix_spec(s: Seq<char>, p: Seq<char>) -> Seq<char> {
    if starts_with_spec(s, p) {
        s.skip(p.len() as int)
    } else {
        s
    }
}

pub fn strip_prefix<'a>(s: &'a str, p: &str) -> (r: &'a str)
    ensures
        r@ == strip_prefix_spec(s@, p@),
{
    if starts_with(s, p) {
        let r = s.substring_char(p.unicode_len(), s.unicode_len());
        assert(r@ =~= s@.skip(p@.len() as int));
        r
    } else {
        s
    }
}

/// Repeated `strip_prefix`, as `trim_start_matches` does for a literal.
pub open spec fn strip_prefix_all_spec(s: Seq<char>, p: Seq<char>) -> Seq<char>
    decreases s.len(),
{
    if p.len() > 0 && starts_with_spec(s, p) {
        strip_prefix_all_spec(s.skip(p.len() as int), p)
    } else {
        s
    }
}

pub fn strip_prefix_all<'a>(s: &'a str, p: &str) -> (r: &'a str)
    ensures
        r@ == strip_prefix_all_spec(s@, p@),
    decreases s@.len(),
{
    let plen = p.unicode_len();
    if plen > 0 && starts_with(s, p) {
        let rest = s.substring_char(plen, s.unicode_len());
        assert(rest@ =~= s@.skip(p@.len() as int));
        strip_prefix_all(rest, p)
    } else {
        s
    }
}

} // verus!

verus! {

// ---------------------------------------------------------------------------
// Splitting
// ---------------------------------------------------------------------------

/// The views of a sequence of string slices.
pub open spec fn views_of(v: Seq<&str>) -> Seq<Seq<char>> {
    v.map_values(|t: &str| t@)
}

/// Split at every occurrence of `c`, keeping empty pieces.
pub open spec fn split_char_spec(s: Seq<char>, c: char) -> Seq<Seq<char>>
    decreases s.len(),
{
    match find_char_spec(s, c) {
        Some(i) => if 0 <= i < s.len() {
            seq![s.take(i)] + split_char_spec(s.skip(i + 1), c)
        } else {
            seq![s]
        },
        None => seq![s],
    }
}

pub fn split_char<'a>(s: &'a str, c: char) -> (r: Vec<&'a str>)
    ensures
        views_of(r@) =~~= split_char_spec(s@, c),
    decreases s@.len(),
{
    proof {
        lemma_find_char_from(s@, c, 0);
    }
    let len = s.unicode_len();
    match find_char(s, c) {
        Some(i) => {
            let head = s.substring_char(0, i);
            assert(head@ =~= s@.take(i as int));
            let rest = s.substring_char(i + 1, len);
            assert(rest@ =~= s@.skip(i + 1));
            let mut out: Vec<&'a str> = Vec::new();
            out.push(head);
            let mut tail = split_char(rest, c);
            out.append(&mut tail);
            assert(views_of(out@) =~~= split_char_spec(s@, c));
            out
        },
        None => {
            let mut out: Vec<&'a str> = Vec::new();
            out.push(s);
            assert(views_of(out@) =~~= seq![s@]);
            out
        },
    }
}

/// Split at every occurrence of the (non-empty) pattern `p`, keeping
/// empty pieces.
pub open spec fn split_str_spec(s: Seq<char>, p: Seq<char>) -> Seq<Seq<char>>
    decreases s.len(),
{
    if p.len() == 0 {
        seq![s]
    } else {
        match find_sub_spec(s, p) {
            Some(i) => if 0 <= i && i + p.len() <= s.len() && s.len() - i - p.len() < s.len() {
                seq![s.take(i)] + split_str_spec(s.skip(i + p.len()), p)
            } else {
                seq![s]
            },
            None => seq![s],
        }
    }
}

pub fn split_str<'a>(s: &'a str, p: &str) -> (r: Vec<&'a str>)
    requires
        p@.len() > 0,
    ensures
        views_of(r@) =~~= split_str_spec(s@, p@),
    decreases s@.len(),
{
    proof {
        lemma_find_sub_from(s@, p@, 0);
    }
    let len = s.unicode_len();
    let plen = p.unicode_len();
    match find_sub(s, p) {
        Some(i) => {
            let head = s.substring_char(0, i);
            assert(head@ =~= s@.take(i as int));
            let rest = s.substring_char(i + plen, len);
            assert(rest@ =~= s@.skip(i + p@.len()));
            let mut out: Vec<&'a str> = Vec::new();
            out.push(head);
            let mut tail = split_str(rest, p);
            out.append(&mut tail);
            assert(views_of(out@) =~~= split_str_spec(s@, p@));
            out
        },
        None => {
            let mut out: Vec<&'a str> = Vec::new();
            out.push(s);
            assert(views_of(out@) =~~= seq![s@]);
            out
        },
    }
}

/// Length of the leading run of non-whitespace characters.
pub open spec fn token_len_spec(s: Seq<char>) -> nat
    decreases s.len(),
{
    if s.len() == 0 || is_space_char(s.first()) {
        0
    } else {
        1 + token_len_spec(s.drop_first())
    }
}

pub proof fn lemma_token_len_le(s: Seq<char>)
    ensures
        token_len_spec(s) <= s.len(),
    decreases s.len(),
{
    if s.len() > 0 && !is_space_char(s.first()) {
        lemma_token_len_le(s.drop_first());
    }
}

fn token_len(s: &str) -> (k: usize)
    ensures
        k == token_len_spec(s@),
    decreases s@.len(),
{
    proof {
        lemma_token_len_le(s@);
    }
    let len = s.unicode_len();
    if len == 0 || exec_is_space_char(s.get_char(0)) {
        0
    } else {
        let rest = s.substring_char(1, len);
        assert(rest@ =~= s@.drop_first());
        proof {
            lemma_token_len_le(rest@);
        }
        1 + token_len(rest)
    }
}

/// Split at whitespace runs, dropping empty pieces.
pub open spec fn split_ws_spec(s: Seq<char>) -> Seq<Seq<char>>
    decreases s.len(),
{
    if s.len() == 0 {
        Seq::empty()
    } else if is_space_char(s.first()) {
        split_ws_spec(s.drop_first())
    } else {
        let k = token_len_spec(s);
        if 1 <= k <= s.len() {
            seq![s.take(k as int)] + split_ws_spec(s.skip(k as int))
        } else {
            Seq::empty()
        }
    }
}

pub fn split_ws<'a>(s: &'a str) -> (r: Vec<&'a str>)
    ensures
        views_of(r@) =~~= split_ws_spec(s@),
    decreases s@.len(),
{
    let len = s.unicode_len();
    if len == 0 {
        let out: Vec<&'a str> = Vec::new();
        assert(views_of(out@) =~~= Seq::<Seq<char>>::empty());
        out
    } else if exec_is_space_char(s.get_char(0)) {
        let rest = s.substring_char(1, len);
        assert(rest@ =~= s@.drop_first());
        split_ws(rest)
    } else {
        proof {
            lemma_token_len_le(s@);
        }
        let k = token_len(s);
        let head = s.substring_char(0, k);
        assert(head@ =~= s@.take(k as int));
        let rest = s.substring_char(k, len);
        assert(rest@ =~= s@.skip(k as int));
        let mut out: Vec<&'a str> = Vec::new();
        out.push(head);
        let mut tail = split_ws(rest);
        out.append(&mut tail);
        assert(views_of(out@) =~~= split_ws_spec(s@));
        out
    }
}

// ---------------------------------------------------------------------------
// Lines
// ---------------------------------------------------------------------------

/// One trailing carriage return removed.
pub open spec fn strip_cr_spec(t: Seq<char>) -> Seq<char> {
    if t.len() > 0 && t.last() == '\r' {
        t.drop_last()
    } else {
        t
    }
}

/// The lines of `s`: pieces between newlines, each without a trailing
/// carriage return, and without a final empty piece.
pub open spec fn lines_spec(s: Seq<char>) -> Seq<Seq<char>> {
    let parts = split_char_spec(s, '\n');
    let kept = if parts.len() > 0 && parts.last().len() == 0 {
        parts.drop_last()
    } else {
        parts
    };
    kept.map_values(|t: Seq<char>| strip_cr_spec(t))
}

pub fn lines<'a>(s: &'a str) -> (r: Vec<&'a str>)
    ensures
        views_of(r@) =~~= lines_spec(s@),
{
    let mut parts = split_char(s, '\n');
    let ghost orig_parts = views_of(parts@);
    if parts.len() > 0 && parts[parts.len() - 1].unicode_len() == 0 {
        parts.pop();
        assert(views_of(parts@) =~~= orig_parts.drop_last());
    }
    let ghost kept = views_of(parts@);
    let n = parts.len();
    let mut out: Vec<&'a str> = Vec::new();
    for i in 0..n
        invariant
            n == parts@.len(),
            kept == views_of(parts@),
            out@.len() == i,
            forall|j: int| 0 <= j < i ==> (#[trigger] out@[j])@ == strip_cr_spec(kept[j]),
    {
        let piece = parts[i];
        let plen = piece.unicode_len();
        if plen > 0 && piece.get_char(plen - 1) == '\r' {
            let stripped = piece.substring_char(0, plen - 1);
            assert(stripped@ =~= piece@.drop_last());
            out.push(stripped);
        } else {
            out.push(piece);
        }
        assert(out@[i as int]@ == strip_cr_spec(kept[i as int]));
    }
    assert(views_of(out@) =~~= kept.map_values(|t: Seq<char>| strip_cr_spec(t)));
    out
}

} // verus!

verus! {

// ---------------------------------------------------------------------------
// Digit parsing
// ---------------------------------------------------------------------------

pub open spec fn all_digits(s: Seq<char>) -> bool {
    forall|i: int| 0 <= i < s.len() ==> is_digit_char(#[trigger] s[i])
}

/// The base-ten value of a digit sequence.
pub open spec fn digits_val(s: Seq<char>) -> nat
    decreases s.len(),
{
    if s.len() == 0 {
        0
    } else {
        digits_val(s.drop_last()) * 10 + digit_of(s.last())
    }
}

/// A non-empty all-digit sequence whose value fits in a `u64`.
pub open spec fn parse_u64_spec(s: Seq<char>) -> Option<u64> {
    if s.len() > 0 && all_digits(s) && digits_val(s) <= u64::MAX {
        Some(digits_val(s) as u64)
    } else {
        None
    }
}

pub open spec fn parse_u32_spec(s: Seq<char>) -> Option<u32> {
    if s.len() > 0 && all_digits(s) && digits_val(s) <= u32::MAX {
        Some(digits_val(s) as u32)
    } else {
        None
    }
}

proof fn lemma_digits_val_step(s: Seq<char>, i: int)
    requires
        0 <= i < s.len(),
    ensures
        digits_val(s.take(i + 1)) == digits_val(s.take(i)) * 10 + digit_of(s[i]),
{
    assert(s.take(i + 1).drop_last() =~= s.take(i));
    assert(s.take(i + 1).last() == s[i]);
}

proof fn lemma_digits_val_mono(s: Seq<char>, i: int, j: int)
    requires
        0 <= i <= j <= s.len(),
    ensures
        digits_val(s.take(i)) <= digits_val(s.take(j)),
    decreases j - i,
{
    if i < j {
        lemma_digits_val_step(s, j - 1);
        lemma_digits_val_mono(s, i, j - 1);
    }
}

/// Parse a base-ten `u64`; `None` on empty input, a non-digit, or overflow.
pub fn parse_u64(s: &str) -> (r: Option<u64>)
    ensures
        r == parse_u64_spec(s@),
{
    let len = s.unicode_len();
    if len == 0 {
        return None;
    }
    let mut acc: u64 = 0;
    for i in 0..len
        invariant
            len == s@.len(),
            all_digits(s@.take(i as int)),
            acc == digits_val(s@.take(i as int)),
    {
        let c = s.get_char(i);
        if !exec_is_digit_char(c) {
            assert(!all_digits(s@)) by {
                assert(!is_digit_char(s@[i as int]));
            }
            return None;
        }
        let d: u64 = (c as u32 - 48) as u64;
        proof {
            lemma_digits_val_step(s@, i as int);
        }
        if acc > (u64::MAX - d) / 10 {
            assert(digits_val(s@.take(i + 1)) > u64::MAX) by {
                assert(acc * 10 + d > u64::MAX) by (nonlinear_arith)
                    requires
                        acc > (u64::MAX - d) / 10,
                        d <= 9,
                {}
            }
            proof {
                lemma_digits_val_mono(s@, i + 1, s@.len() as int);
                assert(s@.take(s@.len() as int) =~= s@);
            }
            return None;
        }
        assert(acc * 10 + d <= u64::MAX) by (nonlinear_arith)
            requires
                acc <= (u64::MAX - d) / 10,
                d <= 9,
        {}
        acc = acc * 10 + d;
        assert(all_digits(s@.take(i + 1)));
    }
    assert(s@.take(len as int) =~= s@);
    Some(acc)
}

pub fn parse_u32(s: &str) -> (r: Option<u32>)
    ensures
        r == parse_u32_spec(s@),
{
    match parse_u64(s) {
        Some(v) => if v <= u32::MAX as u64 {
            Some(v as u32)
        } else {
            None
        },
        None => {
            proof {
                if s@.len() > 0 && all_digits(s@) {
                    assert(digits_val(s@) > u64::MAX);
                }
            }
            None
        },
    }
}

// ---------------------------------------------------------------------------
// ASCII case folding
// ---------------------------------------------------------------------------

/// ASCII upper-case letters folded to lower case; all else unchanged.
pub open spec fn lower_char_spec(c: char) -> char {
    if 'A' <= c && c <= 'Z' {
        (((c as u32) + 32) as char)
    } else {
        c
    }
}

pub open spec fn lower_spec(s: Seq<char>) -> Seq<char> {
    s.map_values(|c: char| lower_char_spec(c))
}

pub fn lower_char(c: char) -> (r: char)
    ensures
        r == lower_char_spec(c),
{
    if 'A' <= c && c <= 'Z' {
        (((c as u32) + 32) as u8) as char
    } else {
        c
    }
}

/// Relies on `String::push`: appends exactly the one character.
#[verifier::external_body]
pub fn push_char(s: &mut String, c: char)
    ensures
        final(s)@ == old(s)@ + seq![c],
{
    s.push(c);
}

/// ASCII lower-casing of a whole string.
pub fn to_lower(s: &str) -> (r: String)
    ensures
        r@ == lower_spec(s@),
{
    let len = s.unicode_len();
    let mut out = String::new();
    for i in 0..len
        invariant
            len == s@.len(),
            out@.len() == i,
            forall|j: int| 0 <= j < i ==> out@[j] == lower_char_spec(s@[j]),
    {
        push_char(&mut out, lower_char(s.get_char(i)));
    }
    assert(out@ =~= lower_spec(s@));
    out
}

/// Case-insensitive (ASCII) equality.
pub open spec fn eq_ignore_case_spec(a: Seq<char>, b: Seq<char>) -> bool {
    lower_spec(a) =~= lower_spec(b)
}

pub fn eq_ignore_case(a: &str, b: &str) -> (r: bool)
    ensures
        r == eq_ignore_case_spec(a@, b@),
{
    let alen = a.unicode_len();
    let blen = b.unicode_len();
    if alen != blen {
        assert(lower_spec(a@).len() != lower_spec(b@).len());
        return false;
    }
    for i in 0..alen
        invariant
            alen == a@.len(),
            alen == b@.len(),
            forall|j: int| 0 <= j < i ==> lower_char_spec(a@[j]) == lower_char_spec(b@[j]),
    {
        if lower_char(a.get_char(i)) != lower_char(b.get_char(i)) {
            assert(lower_spec(a@)[i as int] != lower_spec(b@)[i as int]);
            return false;
        }
    }
    assert(lower_spec(a@) =~= lower_spec(b@));
    true
}

} // verus!

verus! {

/// Leading occurrences of `c` removed.
pub open spec fn trim_char_start_spec(s: Seq<char>, c: char) -> Seq<char>
    decreases s.len(),
{
    if s.len() > 0 && s.first() == c {
        trim_char_start_spec(s.drop_first(), c)
    } else {
        s
    }
}

/// Trailing occurrences of `c` removed.
pub open spec fn trim_char_end_spec(s: Seq<char>, c: char) -> Seq<char>
    decreases s.len(),
{
    if s.len() > 0 && s.last() == c {
        trim_char_end_spec(s.drop_last(), c)
    } else {
        s
    }
}

/// Occurrences of `c` removed from both ends.
pub open spec fn trim_char_spec(s: Seq<char>, c: char) -> Seq<char> {
    trim_char_end_spec(trim_char_start_spec(s, c), c)
}

pub fn trim_char_start<'a>(s: &'a str, c: char) -> (r: &'a str)
    ensures
        r@ == trim_char_start_spec(s@, c),
    decreases s@.len(),
{
    let len = s.unicode_len();
    if len > 0 && s.get_char(0) == c {
        let rest = s.substring_char(1, len);
        assert(rest@ =~= s@.drop_first());
        trim_char_start(rest, c)
    } else {
        s
    }
}

fn trim_char_end<'a>(s: &'a str, c: char) -> (r: &'a str)
    ensures
        r@ == trim_char_end_spec(s@, c),
    decreases s@.len(),
{
    let len = s.unicode_len();
    if len > 0 && s.get_char(len - 1) == c {
        let rest = s.substring_char(0, len - 1);
        assert(rest@ =~= s@.drop_last());
        trim_char_end(rest, c)
    } else {
        s
    }
}

/// Occurrences of `c` removed from both ends of the slice.
pub fn trim_char<'a>(s: &'a str, c: char) -> (r: &'a str)
    ensures
        r@ == trim_char_spec(s@, c),
{
    trim_char_end(trim_char_start(s, c), c)
}

} // verus!

verus! {

/// The decimal writing of a number.
pub open spec fn dec_spec(n: nat) -> Seq<char>
    decreases n,
{
    if n < 10 {
        seq![digit_char_spec(n)]
    } else {
        dec_spec(n / 10) + seq![digit_char_spec(n % 10)]
    }
}

/// The digit character of a value below ten.
pub open spec fn digit_char_spec(d: nat) -> char {
    (((d + 48) as u32) as char)
}

/// Write a number in decimal.
pub fn u64_to_string(n: u64) -> (r: String)
    ensures
        r@ == dec_spec(n as nat),
    decreases n,
{
    if n < 10 {
        let mut s = String::new();
        let c: char = ((n as u8) + 48) as char;
        push_char(&mut s, c);
        assert(s@ =~= seq![digit_char_spec(n as nat)]);
        s
    } else {
        let mut s = u64_to_string(n / 10);
        let d = n % 10;
        let c: char = ((d as u8) + 48) as char;
        push_char(&mut s, c);
        assert(s@ =~= dec_spec((n / 10) as nat) + seq![digit_char_spec((n % 10) as nat)]);
        s
    }
}

/// The pieces joined with a separator between neighbours.
pub open spec fn join_spec(parts: Seq<Seq<char>>, sep: Seq<char>) -> Seq<char>
    decreases parts.len(),
{
    if parts.len() == 0 {
        Seq::empty()
    } else if parts.len() == 1 {
        parts[0]
    } else {
        join_spec(parts.drop_last(), sep) + sep + parts.last()
    }
}

/// Join strings with a separator.
pub fn join_strings(parts: &Vec<String>, sep: &str) -> (r: String)
    ensures
        r@ == join_spec(parts@.map_values(|t: String| t@), sep@),
{
    let ghost pv = parts@.map_values(|t: String| t@);
    let n = parts.len();
    let mut out = String::new();
    if n == 0 {
        assert(join_spec(pv, sep@) =~= Seq::<char>::empty());
        return out;
    }
    out = parts[0].clone();
    assert(out@ == pv[0]);
    assert(pv.take(1) =~= seq![pv[0]]);
    assert(join_spec(pv.take(1), sep@) == pv[0]);
    for i in 1..n
        invariant
            n == parts@.len(),
            pv == parts@.map_values(|t: String| t@),
            n >= 1,
            out@ == join_spec(pv.take(i as int), sep@),
    {
        let mut grown = out;
        vstd::string::StringExecFns::append(&mut grown, sep);
        vstd::string::StringExecFns::append(&mut grown, parts[i].as_str());
        out = grown;
        proof {
            assert(pv.take(i + 1).drop_last() =~= pv.take(i as int));
            assert(pv.take(i + 1).last() == pv[i as int]);
            assert(pv.take(i + 1).len() >= 2);
        }
        assert(out@ == join_spec(pv.take(i + 1), sep@));
    }
    assert(pv.take(n as int) =~= pv);
    out
}

} // verus!
