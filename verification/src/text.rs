//! Character and string primitives shared by the compiler and the linter.
//!
//! Strings are modelled by their view, a `Seq<char>`. Unicode case and
//! whitespace classification come from `std` and are named by uninterpreted
//! spec functions; for ASCII characters their results are pinned down.
use vstd::prelude::*;

verus! {

// ------------------------------------------------------------------
// Specifications
// ------------------------------------------------------------------

/// `char::is_lowercase` of `c` (Unicode `Lowercase` property).
pub uninterp spec fn char_is_lowercase_spec(c: char) -> bool;

/// `char::is_uppercase` of `c` (Unicode `Uppercase` property).
pub uninterp spec fn char_is_uppercase_spec(c: char) -> bool;

/// `char::is_whitespace` of `c` (Unicode `White_Space` property).
pub uninterp spec fn char_is_whitespace_spec(c: char) -> bool;

/// The characters yielded by `char::to_lowercase` of `c`.
pub uninterp spec fn char_lowercase_spec(c: char) -> Seq<char>;

/// `str::to_lowercase` of a string.
pub uninterp spec fn str_lowercase_spec(s: Seq<char>) -> Seq<char>;

pub open spec fn is_ascii_char(c: char) -> bool {
    (c as u32) < 128
}

pub open spec fn is_ascii_upper(c: char) -> bool {
    'A' <= c && c <= 'Z'
}

pub open spec fn is_ascii_lower(c: char) -> bool {
    'a' <= c && c <= 'z'
}

pub open spec fn is_ascii_alpha(c: char) -> bool {
    is_ascii_upper(c) || is_ascii_lower(c)
}

/// The ASCII whitespace characters that Unicode's `White_Space` holds.
pub open spec fn is_ascii_space(c: char) -> bool {
    c == ' ' || c == '\t' || c == '\n' || c == '\r' || c == '\x0B' || c == '\x0C'
}

pub open spec fn ascii_lower(c: char) -> char {
    if is_ascii_upper(c) {
        ((c as u32) + 32) as char
    } else {
        c
    }
}

pub open spec fn ascii_upper(c: char) -> char {
    if is_ascii_lower(c) {
        ((c as u32) - 32) as char
    } else {
        c
    }
}

pub open spec fn all_ascii(s: Seq<char>) -> bool {
    forall|i: int| 0 <= i < s.len() ==> is_ascii_char(#[trigger] s[i])
}

pub open spec fn seq_ascii_lower(s: Seq<char>) -> Seq<char> {
    s.map_values(|c: char| ascii_lower(c))
}

/// `p` is a prefix of `s`.
pub open spec fn seq_starts_with(s: Seq<char>, p: Seq<char>) -> bool {
    p.len() <= s.len() && s.subrange(0, p.len() as int) == p
}

/// `t` occurs in `s` at position `i`.
pub open spec fn occurs_at(s: Seq<char>, t: Seq<char>, i: int) -> bool {
    0 <= i && i + t.len() <= s.len() && s.subrange(i, i + t.len()) == t
}

/// `t` occurs somewhere in `s`.
pub open spec fn seq_contains_seq(s: Seq<char>, t: Seq<char>) -> bool {
    exists|i: int| occurs_at(s, t, i)
}

/// `s` with its leading whitespace removed.
pub open spec fn trim_start_spec(s: Seq<char>) -> Seq<char>
    decreases s.len(),
{
    if s.len() > 0 && char_is_whitespace_spec(s[0]) {
        trim_start_spec(s.drop_first())
    } else {
        s
    }
}

/// `s` with its trailing whitespace removed.
pub open spec fn trim_end_spec(s: Seq<char>) -> Seq<char>
    decreases s.len(),
{
    if s.len() > 0 && char_is_whitespace_spec(s.last()) {
        trim_end_spec(s.drop_last())
    } else {
        s
    }
}

/// `str::trim`: both ends stripped of whitespace.
pub open spec fn trim_spec(s: Seq<char>) -> Seq<char> {
    trim_end_spec(trim_start_spec(s))
}

/// `str::replace` for a non-empty pattern: every leftmost, non-overlapping
/// occurrence of `from` in `s` is replaced by `to`.
pub open spec fn replace_spec(s: Seq<char>, from: Seq<char>, to: Seq<char>) -> Seq<char>
    decreases s.len(),
{
    if from.len() == 0 || s.len() < from.len() {
        s
    } else if s.subrange(0, from.len() as int) == from {
        to + replace_spec(s.subrange(from.len() as int, s.len() as int), from, to)
    } else {
        seq![s[0]] + replace_spec(s.drop_first(), from, to)
    }
}

/// The parts joined with `sep` between consecutive ones.
pub open spec fn join_spec(parts: Seq<Seq<char>>, sep: Seq<char>) -> Seq<char>
    decreases parts.len(),
{
    if parts.len() == 0 {
        Seq::empty()
    } else if parts.len() == 1 {
        parts[0]
    } else {
        join_spec(parts.drop_last(), sep) + sep + parts.last()
    }
}

/// A text contained in `t` is contained in `a + t + b`.
pub proof fn lemma_contains_within(a: Seq<char>, t: Seq<char>, b: Seq<char>, x: Seq<char>)
    requires
        seq_contains_seq(t, x),
    ensures
        seq_contains_seq(a + t + b, x),
{
    let i = choose|i: int| occurs_at(t, x, i);
    let w = a + t + b;
    assert(w.subrange(a.len() + i, a.len() + i + x.len()) =~= t.subrange(i, i + x.len()));
    assert(occurs_at(w, x, a.len() + i));
}

/// Containment of texts is transitive.
pub proof fn lemma_contains_trans(t: Seq<char>, x: Seq<char>, y: Seq<char>)
    requires
        seq_contains_seq(t, x),
        seq_contains_seq(x, y),
    ensures
        seq_contains_seq(t, y),
{
    let i = choose|i: int| occurs_at(t, x, i);
    let j = choose|j: int| occurs_at(x, y, j);
    assert(t.subrange(i + j, i + j + y.len()) =~= x.subrange(j, j + y.len()));
    assert(occurs_at(t, y, i + j));
}

/// Every part is contained in the parts joined.
pub proof fn lemma_join_contains_part(parts: Seq<Seq<char>>, sep: Seq<char>, k: int)
    requires
        0 <= k < parts.len(),
    ensures
        seq_contains_seq(join_spec(parts, sep), parts[k]),
    decreases parts.len(),
{
    let j = join_spec(parts, sep);
    if parts.len() == 1 {
        assert(j.subrange(0, parts[0].len() as int) =~= parts[0]);
        assert(occurs_at(j, parts[k], 0));
    } else if k == parts.len() - 1 {
        let front = join_spec(parts.drop_last(), sep) + sep;
        assert(j == front + parts.last());
        assert(j.subrange(front.len() as int, (front.len() + parts[k].len()) as int) =~= parts[k]);
        assert(occurs_at(j, parts[k], front.len() as int));
    } else {
        lemma_join_contains_part(parts.drop_last(), sep, k);
        assert(parts.drop_last()[k] == parts[k]);
        lemma_contains_within(Seq::empty(), join_spec(parts.drop_last(), sep), sep + parts.last(), parts[k]);
        assert(Seq::<char>::empty() + join_spec(parts.drop_last(), sep) + (sep + parts.last()) =~= j);
    }
}

/// The concatenation of the parts.
pub open spec fn concat_spec(parts: Seq<Seq<char>>) -> Seq<char> {
    join_spec(parts, Seq::empty())
}

/// The views of a sequence of string slices.
pub open spec fn strs_view(v: Seq<&str>) -> Seq<Seq<char>> {
    v.map_values(|s: &str| s@)
}

/// The views of a sequence of strings.
pub open spec fn views(v: Seq<String>) -> Seq<Seq<char>> {
    v.map_values(|s: String| s@)
}

// ------------------------------------------------------------------
// Trusted items: std's character classification and string building
// ------------------------------------------------------------------

/// `String::push` appends one character.
pub assume_specification[ String::push ](s: &mut String, ch: char)
    ensures
        final(s)@ == old(s)@.push(ch),
;

/// Calls `char::is_lowercase`. The contract names the result and states
/// that on ASCII characters it holds exactly of `'a'..='z'`.
#[verifier::external_body]
pub(crate) fn char_is_lowercase(c: char) -> (b: bool)
    ensures
        b == char_is_lowercase_spec(c),
        is_ascii_char(c) ==> (b <==> is_ascii_lower(c)),
{
    c.is_lowercase()
}

/// Calls `char::is_uppercase`. The contract names the result and states
/// that on ASCII characters it holds exactly of `'A'..='Z'`.
#[verifier::external_body]
pub(crate) fn char_is_uppercase(c: char) -> (b: bool)
    ensures
        b == char_is_uppercase_spec(c),
        is_ascii_char(c) ==> (b <==> is_ascii_upper(c)),
{
    c.is_uppercase()
}

/// Calls `char::is_whitespace`. The contract names the result and states
/// that on ASCII characters it holds exactly of space, tab, line feed,
/// vertical tab, form feed and carriage return.
#[verifier::external_body]
pub(crate) fn char_is_whitespace(c: char) -> (b: bool)
    ensures
        b == char_is_whitespace_spec(c),
        is_ascii_char(c) ==> (b <==> is_ascii_space(c)),
{
    c.is_whitespace()
}

/// Calls `char::to_lowercase` and collects what it yields. The contract
/// names the result, states that it is never empty, and that an ASCII
/// character maps to its ASCII lowercase form.
#[verifier::external_body]
pub(crate) fn char_to_lowercase(c: char) -> (r: String)
    ensures
        r@ == char_lowercase_spec(c),
        r@.len() >= 1,
        is_ascii_char(c) ==> r@ == seq![ascii_lower(c)],
{
    c.to_lowercase().collect()
}

/// Calls `str::to_lowercase`. The contract names the result and states
/// that an all-ASCII string maps character by character to ASCII
/// lowercase.
#[verifier::external_body]
pub(crate) fn str_to_lowercase(s: &str) -> (r: String)
    ensures
        r@ == str_lowercase_spec(s@),
        all_ascii(s@) ==> r@ == seq_ascii_lower(s@),
{
    s.to_lowercase()
}

/// The view of an optional string.
pub open spec fn opt_string_view(o: Option<String>) -> Option<Seq<char>> {
    match o {
        Some(t) => Some(t@),
        None => None,
    }
}

/// The text of an all-ASCII `s` between two byte offsets.
pub open spec fn ascii_byte_slice(s: Seq<char>, start: int, end: int) -> Option<Seq<char>> {
    if 0 <= start <= end <= s.len() {
        Some(s.subrange(start, end))
    } else {
        None
    }
}

/// `str::get` of `s` on the byte range `start..end`.
pub uninterp spec fn str_get_spec(s: Seq<char>, start: int, end: int) -> Option<Seq<char>>;

/// Calls `str::get` on the byte range `start..end` and copies the slice.
/// The contract names the result and states that, for an all-ASCII string
/// (where byte offsets are character offsets and every offset is a
/// character boundary), it is the characters between the offsets when
/// `start <= end <= len`, and `None` otherwise. For other strings it says
/// no more than the name.
#[verifier::external_body]
pub(crate) fn str_get(s: &str, start: u32, end: u32) -> (r: Option<String>)
    ensures
        opt_string_view(r) == str_get_spec(s@, start as int, end as int),
        all_ascii(s@) ==> opt_string_view(r) == ascii_byte_slice(s@, start as int, end as int),
{
    match s.get(start as usize..end as usize) {
        Some(t) => Some(t.to_string()),
        None => None,
    }
}

// ------------------------------------------------------------------
// Verified string operations
// ------------------------------------------------------------------

/// The characters of `s`, in order.
pub fn chars_of(s: &str) -> (v: Vec<char>)
    ensures
        v@ == s@,
{
    let mut v: Vec<char> = Vec::new();
    for c in it: s.chars()
        invariant
            v@ == it.seq().take(it.index() as int),
            it.seq() == s@,
    {
        v.push(c);
    }
    v
}

/// A string holding the characters of `v` from `lo` up to `hi`.
pub fn string_from_range(v: &[char], lo: usize, hi: usize) -> (r: String)
    requires
        lo <= hi <= v@.len(),
    ensures
        r@ == v@.subrange(lo as int, hi as int),
{
    let mut r = String::new();
    let mut i: usize = lo;
    while i < hi
        invariant
            lo <= i <= hi <= v@.len(),
            r@ == v@.subrange(lo as int, i as int),
        decreases hi - i,
    {
        r.push(v[i]);
        i = i + 1;
        assert(r@ =~= v@.subrange(lo as int, i as int));
    }
    r
}

/// A string holding the given characters.
pub fn string_from_chars(v: &[char]) -> (r: String)
    ensures
        r@ == v@,
{
    let r = string_from_range(v, 0, v.len());
    assert(v@.subrange(0, v@.len() as int) =~= v@);
    r
}

/// An owned copy of `s`.
pub fn to_owned(s: &str) -> (r: String)
    ensures
        r@ == s@,
{
    let v = chars_of(s);
    string_from_chars(v.as_slice())
}

/// Appends `t` to `s`.
pub fn push_str(s: &mut String, t: &str)
    ensures
        final(s)@ == old(s)@ + t@,
{
    let v = chars_of(t);
    let ghost s0 = s@;
    let mut i: usize = 0;
    while i < v.len()
        invariant
            i <= v@.len(),
            v@ == t@,
            s@ == s0 + v@.subrange(0, i as int),
        decreases v@.len() - i,
    {
        s.push(v[i]);
        i = i + 1;
        assert(s@ =~= s0 + v@.subrange(0, i as int));
    }
    assert(v@.subrange(0, v@.len() as int) =~= v@);
}

/// `a` and `b` hold the same characters.
pub fn str_eq(a: &str, b: &str) -> (r: bool)
    ensures
        r == (a@ == b@),
{
    let av = chars_of(a);
    let bv = chars_of(b);
    if av.len() != bv.len() {
        return false;
    }
    let mut i: usize = 0;
    while i < av.len()
        invariant
            av@ == a@,
            bv@ == b@,
            av@.len() == bv@.len(),
            i <= av@.len(),
            forall|j: int| 0 <= j < i ==> av@[j] == bv@[j],
        decreases av@.len() - i,
    {
        if av[i] != bv[i] {
            assert(a@[i as int] != b@[i as int]);
            return false;
        }
        i = i + 1;
    }
    assert(av@ =~= bv@);
    true
}

/// `p` occurs in `s` at character position `i`.
pub fn chars_match_at(s: &[char], i: usize, p: &[char]) -> (r: bool)
    ensures
        r == occurs_at(s@, p@, i as int),
{
    if i > s.len() || p.len() > s.len() - i {
        return false;
    }
    let mut k: usize = 0;
    while k < p.len()
        invariant
            i + p@.len() <= s@.len(),
            s@.len() == s.len(),
            k <= p@.len(),
            forall|j: int| 0 <= j < k ==> s@[i + j] == p@[j],
        decreases p@.len() - k,
    {
        if s[i + k] != p[k] {
            assert(s@.subrange(i as int, i + p@.len())[k as int] != p@[k as int]);
            return false;
        }
        k = k + 1;
    }
    assert(s@.subrange(i as int, i + p@.len()) =~= p@);
    true
}

/// `s` starts with `p`.
pub fn starts_with(s: &str, p: &str) -> (r: bool)
    ensures
        r == seq_starts_with(s@, p@),
{
    let sv = chars_of(s);
    let pv = chars_of(p);
    chars_match_at(sv.as_slice(), 0, pv.as_slice())
}

/// `s` ends with `p`.
pub open spec fn seq_ends_with(s: Seq<char>, p: Seq<char>) -> bool {
    p.len() <= s.len() && s.subrange(s.len() - p.len(), s.len() as int) == p
}

/// `s` ends with `p`.
pub fn ends_with(s: &str, p: &str) -> (r: bool)
    ensures
        r == seq_ends_with(s@, p@),
{
    let sv = chars_of(s);
    let pv = chars_of(p);
    if pv.len() > sv.len() {
        return false;
    }
    chars_match_at(sv.as_slice(), sv.len() - pv.len(), pv.as_slice())
}

/// `t` occurs in `s`.
pub fn contains_str(s: &str, t: &str) -> (r: bool)
    ensures
        r == seq_contains_seq(s@, t@),
{
    let sv = chars_of(s);
    let tv = chars_of(t);
    if tv.len() > sv.len() {
        assert forall|i: int| !occurs_at(s@, t@, i) by {}
        return false;
    }
    let last = sv.len() - tv.len();
    let mut i: usize = 0;
    loop
        invariant
            sv@ == s@,
            tv@ == t@,
            last == sv@.len() - tv@.len(),
            i <= last,
            forall|j: int| 0 <= j < i ==> !occurs_at(s@, t@, j),
        ensures
            forall|j: int| 0 <= j <= last ==> !occurs_at(s@, t@, j),
        decreases last - i,
    {
        if chars_match_at(sv.as_slice(), i, tv.as_slice()) {
            return true;
        }
        if i == last {
            break;
        }
        i = i + 1;
    }
    assert forall|j: int| !occurs_at(s@, t@, j) by {}
    false
}

/// `c` occurs in `s`.
pub fn contains_char(s: &str, c: char) -> (r: bool)
    ensures
        r == s@.contains(c),
{
    let sv = chars_of(s);
    let mut i: usize = 0;
    while i < sv.len()
        invariant
            sv@ == s@,
            i <= sv@.len(),
            forall|j: int| 0 <= j < i ==> sv@[j] != c,
        decreases sv@.len() - i,
    {
        if sv[i] == c {
            return true;
        }
        i = i + 1;
    }
    false
}

/// `s` is one of the strings of `list`.
pub fn str_in(s: &str, list: &[&str]) -> (r: bool)
    ensures
        r == strs_view(list@).contains(s@),
{
    let mut i: usize = 0;
    while i < list.len()
        invariant
            i <= list@.len(),
            forall|j: int| 0 <= j < i ==> list@[j]@ != s@,
        decreases list@.len() - i,
    {
        if str_eq(list[i], s) {
            assert(strs_view(list@)[i as int] == s@);
            return true;
        }
        i = i + 1;
    }
    assert forall|j: int| 0 <= j < strs_view(list@).len() implies strs_view(list@)[j] != s@ by {
        assert(list@[j]@ != s@);
    }
    false
}

/// `s` is one of the strings of `list`.
pub fn string_in(s: &str, list: &[String]) -> (r: bool)
    ensures
        r == views(list@).contains(s@),
{
    let mut i: usize = 0;
    while i < list.len()
        invariant
            i <= list@.len(),
            forall|j: int| 0 <= j < i ==> list@[j]@ != s@,
        decreases list@.len() - i,
    {
        if str_eq(list[i].as_str(), s) {
            assert(views(list@)[i as int] == s@);
            return true;
        }
        i = i + 1;
    }
    assert forall|j: int| 0 <= j < views(list@).len() implies views(list@)[j] != s@ by {
        assert(list@[j]@ != s@);
    }
    false
}

proof fn lemma_trim_start_skip(s: Seq<char>, k: int)
    requires
        0 <= k <= s.len(),
        forall|j: int| 0 <= j < k ==> char_is_whitespace_spec(#[trigger] s[j]),
    ensures
        trim_start_spec(s) == trim_start_spec(s.subrange(k, s.len() as int)),
    decreases k,
{
    if k == 0 {
        assert(s.subrange(0, s.len() as int) =~= s);
    } else {
        let t = s.drop_first();
        assert forall|j: int| 0 <= j < k - 1 implies char_is_whitespace_spec(#[trigger] t[j]) by {
            assert(t[j] == s[j + 1]);
        }
        lemma_trim_start_skip(t, k - 1);
        assert(t.subrange(k - 1, t.len() as int) =~= s.subrange(k, s.len() as int));
    }
}

proof fn lemma_trim_end_take(s: Seq<char>, k: int)
    requires
        0 <= k <= s.len(),
        forall|j: int| k <= j < s.len() ==> char_is_whitespace_spec(#[trigger] s[j]),
    ensures
        trim_end_spec(s) == trim_end_spec(s.subrange(0, k)),
    decreases s.len() - k,
{
    if k == s.len() {
        assert(s.subrange(0, k) =~= s);
    } else {
        let t = s.drop_last();
        lemma_trim_end_take(t, k);
        assert(t.subrange(0, k) =~= s.subrange(0, k));
    }
}

/// `s` with leading and trailing whitespace removed (`str::trim`).
pub fn trim(s: &str) -> (r: String)
    ensures
        r@ == trim_spec(s@),
{
    let v = chars_of(s);
    let n = v.len();
    let mut lo: usize = 0;
    while lo < n && char_is_whitespace(v[lo])
        invariant
            v@ == s@,
            n == v@.len(),
            lo <= n,
            forall|j: int| 0 <= j < lo ==> char_is_whitespace_spec(#[trigger] v@[j]),
        decreases n - lo,
    {
        lo = lo + 1;
    }
    let mut hi: usize = n;
    while hi > lo && char_is_whitespace(v[hi - 1])
        invariant
            v@ == s@,
            n == v@.len(),
            lo <= hi <= n,
            forall|j: int| hi <= j < n ==> char_is_whitespace_spec(#[trigger] v@[j]),
        decreases hi - lo,
    {
        hi = hi - 1;
    }
    proof {
        let sv = s@;
        lemma_trim_start_skip(sv, lo as int);
        let t = sv.subrange(lo as int, n as int);
        assert(trim_start_spec(t) == t);
        assert forall|j: int| hi - lo <= j < t.len() implies char_is_whitespace_spec(#[trigger] t[j]) by {
            assert(t[j] == sv[j + lo]);
        }
        lemma_trim_end_take(t, hi - lo);
        let u = t.subrange(0, hi - lo);
        assert(u =~= sv.subrange(lo as int, hi as int));
        if u.len() > 0 {
            assert(u.last() == sv[hi - 1]);
        }
        assert(trim_end_spec(u) == u);
    }
    string_from_range(v.as_slice(), lo, hi)
}

/// `s` with every ASCII uppercase letter lowered (`str::to_ascii_lowercase`).
pub fn to_ascii_lowercase(s: &str) -> (r: String)
    ensures
        r@ == seq_ascii_lower(s@),
{
    let v = chars_of(s);
    let mut r = String::new();
    let mut i: usize = 0;
    while i < v.len()
        invariant
            v@ == s@,
            i <= v@.len(),
            r@ == seq_ascii_lower(v@.subrange(0, i as int)),
        decreases v@.len() - i,
    {
        let c = v[i];
        let lc = if 'A' <= c && c <= 'Z' {
            char_from_ascii_lower(c)
        } else {
            c
        };
        r.push(lc);
        i = i + 1;
        assert(r@ =~= seq_ascii_lower(v@.subrange(0, i as int)));
    }
    assert(v@.subrange(0, v@.len() as int) =~= v@);
    r
}

/// The lowercase form of an ASCII uppercase letter.
pub fn char_from_ascii_lower(c: char) -> (r: char)
    requires
        is_ascii_upper(c),
    ensures
        r == ascii_lower(c),
{
    let u = (c as u32) + 32;
    assert(u < 0xD800);
    char_from_u32(u)
}

/// The uppercase form of an ASCII lowercase letter.
pub fn char_from_ascii_upper(c: char) -> (r: char)
    requires
        is_ascii_lower(c),
    ensures
        r == ascii_upper(c),
{
    let u = (c as u32) - 32;
    char_from_u32(u)
}

/// Calls `char::from_u32` on a code point below the surrogate range, where
/// it always succeeds and gives the character with that code point.
#[verifier::external_body]
fn char_from_u32(u: u32) -> (r: char)
    requires
        u < 0xD800,
    ensures
        r == u as char,
{
    char::from_u32(u).unwrap()
}

proof fn lemma_replace_step(s: Seq<char>, from: Seq<char>, to: Seq<char>, i: int)
    requires
        from.len() > 0,
        0 <= i < s.len(),
    ensures
        occurs_at(s, from, i) ==> replace_spec(s.subrange(i, s.len() as int), from, to) == to
            + replace_spec(s.subrange(i + from.len(), s.len() as int), from, to),
        !occurs_at(s, from, i) ==> replace_spec(s.subrange(i, s.len() as int), from, to) == seq![
            s[i],
        ] + replace_spec(s.subrange(i + 1, s.len() as int), from, to),
{
    let t = s.subrange(i, s.len() as int);
    if occurs_at(s, from, i) {
        assert(t.subrange(0, from.len() as int) =~= s.subrange(i, i + from.len()));
        assert(t.subrange(from.len() as int, t.len() as int) =~= s.subrange(
            i + from.len(),
            s.len() as int,
        ));
    } else {
        if t.len() >= from.len() {
            assert(t.subrange(0, from.len() as int) =~= s.subrange(i, i + from.len()));
        }
        assert(t.drop_first() =~= s.subrange(i + 1, s.len() as int));
    }
}

/// `s` with every leftmost non-overlapping occurrence of the non-empty
/// pattern `from` replaced by `to` (`str::replace`).
pub fn replace(s: &str, from: &str, to: &str) -> (r: String)
    requires
        from@.len() > 0,
    ensures
        r@ == replace_spec(s@, from@, to@),
{
    let v = chars_of(s);
    let f = chars_of(from);
    let mut r = String::new();
    let mut i: usize = 0;
    assert(v@.subrange(0, v@.len() as int) =~= v@);
    assert(r@ + replace_spec(v@, f@, to@) =~= replace_spec(v@, f@, to@));
    while i < v.len()
        invariant
            v@ == s@,
            f@ == from@,
            f@.len() > 0,
            i <= v@.len(),
            r@ + replace_spec(v@.subrange(i as int, v@.len() as int), f@, to@) == replace_spec(
                v@,
                f@,
                to@,
            ),
        decreases v@.len() - i,
    {
        proof {
            lemma_replace_step(v@, f@, to@, i as int);
        }
        if chars_match_at(v.as_slice(), i, f.as_slice()) {
            let ghost r0 = r@;
            push_str(&mut r, to);
            assert(r@ + replace_spec(v@.subrange(i + f@.len(), v@.len() as int), f@, to@) =~= r0
                + replace_spec(v@.subrange(i as int, v@.len() as int), f@, to@));
            i = i + f.len();
        } else {
            let ghost r0 = r@;
            r.push(v[i]);
            assert(r@ + replace_spec(v@.subrange(i + 1, v@.len() as int), f@, to@) =~= r0
                + replace_spec(v@.subrange(i as int, v@.len() as int), f@, to@));
            i = i + 1;
        }
    }
    assert(v@.subrange(0, v@.len() as int) =~= v@);
    assert(replace_spec(v@.subrange(i as int, v@.len() as int), f@, to@) =~= Seq::<char>::empty());
    assert(r@ + Seq::<char>::empty() =~= r@);
    r
}

/// The strings of `parts` joined with `sep` between consecutive ones.
pub fn join(parts: &[String], sep: &str) -> (r: String)
    ensures
        r@ == join_spec(views(parts@), sep@),
{
    let mut r = String::new();
    let mut i: usize = 0;
    while i < parts.len()
        invariant
            i <= parts@.len(),
            r@ == join_spec(views(parts@.subrange(0, i as int)), sep@),
        decreases parts@.len() - i,
    {
        let ghost r0 = r@;
        if i > 0 {
            push_str(&mut r, sep);
        }
        push_str(&mut r, parts[i].as_str());
        proof {
            let a = views(parts@.subrange(0, i + 1));
            let b = views(parts@.subrange(0, i as int));
            assert(a.drop_last() =~= b);
            if i == 0 {
                assert(r@ =~= a[0]);
            }
        }
        i = i + 1;
    }
    assert(parts@.subrange(0, parts@.len() as int) =~= parts@);
    r
}

/// The decimal digit character of `d`.
pub open spec fn digit_char(d: nat) -> char {
    ((48 + d) as u8) as char
}

/// The decimal representation of `n`, without leading zeros.
pub open spec fn decimal_spec(n: nat) -> Seq<char>
    decreases n,
{
    if n < 10 {
        seq![digit_char(n)]
    } else {
        decimal_spec(n / 10).push(digit_char(n % 10))
    }
}

/// The decimal representation of `n`.
pub fn usize_to_decimal(n: usize) -> (r: String)
    ensures
        r@ == decimal_spec(n as nat),
    decreases n,
{
    if n < 10 {
        let mut r = String::new();
        let d: u8 = (48 + n) as u8;
        r.push(d as char);
        assert(r@ =~= seq![digit_char(n as nat)]);
        r
    } else {
        let mut r = usize_to_decimal(n / 10);
        let d: u8 = (48 + n % 10) as u8;
        r.push(d as char);
        r
    }
}

/// A decimal representation is never empty.
pub proof fn lemma_decimal_nonempty(n: nat)
    ensures
        decimal_spec(n).len() >= 1,
    decreases n,
{
    if n >= 10 {
        lemma_decimal_nonempty(n / 10);
    }
}

/// Distinct numbers have distinct decimal representations.
pub proof fn lemma_decimal_injective(n: nat, m: nat)
    requires
        decimal_spec(n) == decimal_spec(m),
    ensures
        n == m,
    decreases n,
{
    if n < 10 && m < 10 {
        assert(decimal_spec(n)[0] == digit_char(n));
        assert(decimal_spec(m)[0] == digit_char(m));
        assert(digit_char(n) as u8 == 48 + n);
        assert(digit_char(m) as u8 == 48 + m);
    } else if n < 10 {
        lemma_decimal_nonempty(m / 10);
        assert(decimal_spec(m).len() >= 2);
    } else if m < 10 {
        lemma_decimal_nonempty(n / 10);
        assert(decimal_spec(n).len() >= 2);
    } else {
        let a = decimal_spec(n);
        let b = decimal_spec(m);
        assert(a.drop_last() =~= decimal_spec(n / 10));
        assert(b.drop_last() =~= decimal_spec(m / 10));
        lemma_decimal_injective(n / 10, m / 10);
        assert(a.last() == b.last());
        assert(digit_char(n % 10) as u8 == 48 + n % 10);
        assert(digit_char(m % 10) as u8 == 48 + m % 10);
    }
}

} // verus!
