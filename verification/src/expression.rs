//! Text utilities of the transform: HTML escaping, JSX whitespace and
//! event names.
use vstd::prelude::*;
use crate::utils::all_whitespace;
use crate::text::{
    all_ascii, char_is_whitespace, char_is_whitespace_spec, chars_of, contains_char, is_ascii_char,
    push_str, seq_ascii_lower, seq_starts_with, starts_with, str_lowercase_spec, str_to_lowercase,
    string_from_range, to_owned, trim, trim_end_spec, trim_spec, trim_start_spec,
};

verus! {

/// What one character becomes in escaped HTML.
pub open spec fn escape_char_spec(c: char, quote_escape: bool) -> Seq<char> {
    if c == '&' {
        "&amp;"@
    } else if c == '<' {
        "&lt;"@
    } else if c == '>' {
        "&gt;"@
    } else if c == '"' && quote_escape {
        "&quot;"@
    } else if c == '\'' && quote_escape {
        "&#39;"@
    } else {
        seq![c]
    }
}

/// Every character of `s` replaced by its escaped form.
pub open spec fn escape_html_spec(s: Seq<char>, quote_escape: bool) -> Seq<char>
    decreases s.len(),
{
    if s.len() == 0 {
        Seq::empty()
    } else {
        escape_html_spec(s.drop_last(), quote_escape) + escape_char_spec(s.last(), quote_escape)
    }
}

/// Escape HTML special characters; quotes only when `quote_escape` holds.
pub fn escape_html(text: &str, quote_escape: bool) -> (r: String)
    ensures
        r@ == escape_html_spec(text@, quote_escape),
{
    let v = chars_of(text);
    let mut result = String::new();
    let mut i: usize = 0;
    while i < v.len()
        invariant
            v@ == text@,
            i <= v@.len(),
            result@ == escape_html_spec(v@.subrange(0, i as int), quote_escape),
        decreases v@.len() - i,
    {
        let c = v[i];
        let ghost before = result@;
        if c == '&' {
            push_str(&mut result, "&amp;");
        } else if c == '<' {
            push_str(&mut result, "&lt;");
        } else if c == '>' {
            push_str(&mut result, "&gt;");
        } else if c == '"' && quote_escape {
            push_str(&mut result, "&quot;");
        } else if c == '\'' && quote_escape {
            push_str(&mut result, "&#39;");
        } else {
            result.push(c);
        }
        proof {
            let p = v@.subrange(0, i + 1);
            assert(p.drop_last() =~= v@.subrange(0, i as int));
            assert(p.last() == c);
            assert(result@ =~= before + escape_char_spec(c, quote_escape));
        }
        i = i + 1;
    }
    assert(v@.subrange(0, v@.len() as int) =~= v@);
    result
}

/// The state after scanning `s` for whitespace collapsing: the text built
/// so far and whether it ends in a collapsed space.
pub open spec fn collapse_state(s: Seq<char>, has_newline: bool) -> (Seq<char>, bool)
    decreases s.len(),
{
    if s.len() == 0 {
        (Seq::empty(), false)
    } else {
        let (r, prev_space) = collapse_state(s.drop_last(), has_newline);
        let c = s.last();
        if char_is_whitespace_spec(c) {
            if prev_space || (has_newline && r.len() == 0) {
                (r, prev_space)
            } else {
                (r.push(' '), true)
            }
        } else {
            (r.push(c), false)
        }
    }
}

/// JSX text whitespace: runs of whitespace become one space; text that
/// spans lines also loses its leading and trailing whitespace.
pub open spec fn trim_whitespace_spec(s: Seq<char>) -> Seq<char> {
    let has_newline = s.contains('\n');
    let collapsed = collapse_state(s, has_newline).0;
    if has_newline {
        trim_spec(collapsed)
    } else {
        collapsed
    }
}

/// Trim whitespace from JSX text (preserving significant spaces).
///
/// - Text with newlines: trim leading/trailing whitespace (indentation)
/// - Inline text (no newlines): preserve a single leading or trailing space
/// - Multiple whitespace collapses to single space
pub fn trim_whitespace(text: &str) -> (r: String)
    ensures
        r@ == trim_whitespace_spec(text@),
{
    let has_newline = contains_char(text, '\n');
    let v = chars_of(text);
    let mut result = String::new();
    let mut prev_was_space = false;
    let mut i: usize = 0;
    while i < v.len()
        invariant
            v@ == text@,
            has_newline == text@.contains('\n'),
            i <= v@.len(),
            (result@, prev_was_space) == collapse_state(v@.subrange(0, i as int), has_newline),
        decreases v@.len() - i,
    {
        let c = v[i];
        proof {
            let p = v@.subrange(0, i + 1);
            assert(p.drop_last() =~= v@.subrange(0, i as int));
            assert(p.last() == c);
        }
        if char_is_whitespace(c) {
            if has_newline {
                if !prev_was_space && chars_of(result.as_str()).len() > 0 {
                    result.push(' ');
                    prev_was_space = true;
                }
            } else if !prev_was_space {
                result.push(' ');
                prev_was_space = true;
            }
        } else {
            result.push(c);
            prev_was_space = false;
        }
        i = i + 1;
    }
    assert(v@.subrange(0, v@.len() as int) =~= v@);
    if has_newline {
        trim(result.as_str())
    } else {
        result
    }
}

/// Escaped HTML holds no `<` or `>`, and when quotes are escaped no quote
/// either.
pub proof fn lemma_escape_html_safe(s: Seq<char>, quote_escape: bool)
    ensures
        forall|i: int|
            0 <= i < escape_html_spec(s, quote_escape).len() ==> {
                let c = #[trigger] escape_html_spec(s, quote_escape)[i];
                &&& c != '<'
                &&& c != '>'
                &&& quote_escape ==> c != '"' && c != '\''
            },
    decreases s.len(),
{
    reveal_strlit("&amp;");
    reveal_strlit("&lt;");
    reveal_strlit("&gt;");
    reveal_strlit("&quot;");
    reveal_strlit("&#39;");
    if s.len() > 0 {
        lemma_escape_html_safe(s.drop_last(), quote_escape);
        let a = escape_html_spec(s.drop_last(), quote_escape);
        let b = escape_char_spec(s.last(), quote_escape);
        assert(escape_html_spec(s, quote_escape) == a + b);
        assert forall|i: int| 0 <= i < (a + b).len() implies {
            let c = #[trigger] (a + b)[i];
            &&& c != '<'
            &&& c != '>'
            &&& quote_escape ==> c != '"' && c != '\''
        } by {
            if i >= a.len() {
                assert((a + b)[i] == b[i - a.len()]);
            } else {
                assert((a + b)[i] == a[i]);
            }
        }
    }
}

/// Text without `&`, `<`, `>` (nor quotes, when they are escaped) is left
/// as it is.
pub proof fn lemma_escape_html_plain(s: Seq<char>, quote_escape: bool)
    requires
        forall|i: int|
            0 <= i < s.len() ==> {
                let c = #[trigger] s[i];
                &&& c != '&'
                &&& c != '<'
                &&& c != '>'
                &&& quote_escape ==> c != '"' && c != '\''
            },
    ensures
        escape_html_spec(s, quote_escape) == s,
    decreases s.len(),
{
    if s.len() > 0 {
        assert(forall|i: int| 0 <= i < s.drop_last().len() ==> s.drop_last()[i] == s[i]);
        lemma_escape_html_plain(s.drop_last(), quote_escape);
        let c = s[s.len() - 1];
        assert(escape_char_spec(c, quote_escape) == seq![c]);
        assert(s.drop_last().push(s.last()) =~= s);
    }
}

/// Collapsing whitespace leaves no whitespace but single spaces: every
/// whitespace character of the result is a space, and no two spaces are
/// adjacent (space being whitespace, as `char::is_whitespace` has it).
pub proof fn lemma_collapse_single_spaces(s: Seq<char>, has_newline: bool)
    requires
        char_is_whitespace_spec(' '),
    ensures
        ({
            let (r, prev_space) = collapse_state(s, has_newline);
            &&& forall|i: int|
                0 <= i < r.len() ==> char_is_whitespace_spec(#[trigger] r[i]) ==> r[i] == ' '
            &&& forall|i: int| 0 <= i < r.len() - 1 ==> !(#[trigger] r[i] == ' ' && r[i + 1] == ' ')
            &&& prev_space <==> (r.len() > 0 && r.last() == ' ')
        }),
    decreases s.len(),
{
    if s.len() > 0 {
        lemma_collapse_single_spaces(s.drop_last(), has_newline);
        let (r0, p0) = collapse_state(s.drop_last(), has_newline);
        let (r, p) = collapse_state(s, has_newline);
        let c = s.last();
        if char_is_whitespace_spec(c) {
            if !(p0 || (has_newline && r0.len() == 0)) {
                assert(r =~= r0.push(' '));
                assert forall|i: int| 0 <= i < r.len() - 1 implies !(#[trigger] r[i] == ' ' && r[i
                    + 1] == ' ') by {
                    if i < r0.len() - 1 {
                        assert(r[i] == r0[i] && r[i + 1] == r0[i + 1]);
                    } else {
                        assert(r[i] == r0.last());
                    }
                }
                assert forall|i: int|
                    0 <= i < r.len() && char_is_whitespace_spec(#[trigger] r[i]) implies r[i]
                    == ' ' by {
                    if i < r0.len() {
                        assert(r[i] == r0[i]);
                    }
                }
            }
        } else {
            assert(c != ' ');
            assert(r =~= r0.push(c));
            assert forall|i: int| 0 <= i < r.len() - 1 implies !(#[trigger] r[i] == ' ' && r[i + 1]
                == ' ') by {
                if i < r0.len() - 1 {
                    assert(r[i] == r0[i] && r[i + 1] == r0[i + 1]);
                } else {
                    assert(r[i + 1] == c);
                }
            }
            assert forall|i: int|
                0 <= i < r.len() && char_is_whitespace_spec(#[trigger] r[i]) implies r[i] == ' ' by {
                if i < r0.len() {
                    assert(r[i] == r0[i]);
                }
            }
        }
    }
}

/// Stripping leading whitespace leaves nothing or a non-whitespace first
/// character, and keeps the last character when something remains.
pub proof fn lemma_trim_start(s: Seq<char>)
    ensures
        trim_start_spec(s).len() > 0 ==> !char_is_whitespace_spec(trim_start_spec(s)[0]),
        trim_start_spec(s).len() > 0 ==> trim_start_spec(s).last() == s.last(),
        trim_start_spec(s).len() <= s.len(),
    decreases s.len(),
{
    if s.len() > 0 && char_is_whitespace_spec(s[0]) {
        lemma_trim_start(s.drop_first());
    }
}

/// Stripping trailing whitespace leaves nothing or a non-whitespace last
/// character, and keeps the first character when it is not whitespace.
pub proof fn lemma_trim_end(s: Seq<char>)
    ensures
        trim_end_spec(s).len() > 0 ==> !char_is_whitespace_spec(trim_end_spec(s).last()),
        s.len() > 0 && !char_is_whitespace_spec(s[0]) ==> trim_end_spec(s).len() > 0
            && trim_end_spec(s)[0] == s[0],
    decreases s.len(),
{
    if s.len() > 0 && char_is_whitespace_spec(s.last()) {
        lemma_trim_end(s.drop_last());
        if !char_is_whitespace_spec(s[0]) {
            assert(s.len() > 1);
            assert(s.drop_last()[0] == s[0]);
        }
    }
}

/// JSX text that spans lines loses its leading and trailing whitespace:
/// the result is empty or starts and ends with non-whitespace.
pub proof fn lemma_trim_whitespace_multiline(s: Seq<char>)
    requires
        s.contains('\n'),
    ensures
        trim_whitespace_spec(s).len() > 0 ==> !char_is_whitespace_spec(trim_whitespace_spec(s)[0])
            && !char_is_whitespace_spec(trim_whitespace_spec(s).last()),
{
    let collapsed = collapse_state(s, true).0;
    lemma_trim_start(collapsed);
    let t = trim_start_spec(collapsed);
    lemma_trim_end(t);
}

/// `onClick` and `onMouseDown` become the DOM event types `click` and
/// `mousedown` (everything after `on` lowercased), `on:click` becomes
/// `click` as written; other names are kept.
pub open spec fn to_event_name_spec(name: Seq<char>) -> Seq<char> {
    if seq_starts_with(name, "on:"@) {
        name.subrange(3, name.len() as int)
    } else if seq_starts_with(name, "on"@) {
        str_lowercase_spec(name.subrange(2, name.len() as int))
    } else {
        name
    }
}

/// Convert an event name from JSX form (`onClick` or `on:click`) to the
/// DOM event type (`click`).
pub fn to_event_name(name: &str) -> (r: String)
    ensures
        r@ == to_event_name_spec(name@),
        all_ascii(name@) && seq_starts_with(name@, "on"@) && !seq_starts_with(name@, "on:"@) ==> r@
            == seq_ascii_lower(name@.subrange(2, name@.len() as int)),
{
    proof {
        reveal_strlit("on:");
        reveal_strlit("on");
    }
    let v = chars_of(name);
    if starts_with(name, "on:") {
        string_from_range(v.as_slice(), 3, v.len())
    } else if starts_with(name, "on") {
        let rest = string_from_range(v.as_slice(), 2, v.len());
        proof {
            if all_ascii(name@) {
                assert forall|i: int| 0 <= i < rest@.len() implies is_ascii_char(#[trigger] rest@[i]) by {
                    assert(rest@[i] == name@[i + 2]);
                }
            }
        }
        str_to_lowercase(rest.as_str())
    } else {
        to_owned(name)
    }
}

/// Convert a property name to its DOM form; JSX property names are already
/// camelCase, so the name is kept.
pub fn to_property_name(name: &str) -> (r: String)
    ensures
        r@ == name@,
{
    to_owned(name)
}

/// Collapsing with leading whitespace skipped differs from plain collapsing
/// only in the one space plain collapsing keeps for that whitespace.
proof fn lemma_collapse_skip_leading(s: Seq<char>)
    ensures
        ({
            let (rf, pf) = collapse_state(s, false);
            let (rt, pt) = collapse_state(s, true);
            if all_whitespace(s) {
                &&& rt.len() == 0
                &&& !pt
                &&& rf == (if s.len() > 0 {
                    seq![' ']
                } else {
                    Seq::<char>::empty()
                })
                &&& pf == (s.len() > 0)
            } else {
                &&& rt.len() > 0
                &&& !char_is_whitespace_spec(rt[0])
                &&& rf == (if char_is_whitespace_spec(s[0]) {
                    seq![' ']
                } else {
                    Seq::<char>::empty()
                }) + rt
                &&& pf == pt
            }
        }),
    decreases s.len(),
{
    if s.len() > 0 {
        let t = s.drop_last();
        lemma_collapse_skip_leading(t);
        let (rf, pf) = collapse_state(t, false);
        let (rt, pt) = collapse_state(t, true);
        if all_whitespace(t) {
            if !char_is_whitespace_spec(s.last()) {
                assert(!char_is_whitespace_spec(s[s.len() - 1]));
                if t.len() > 0 {
                    assert(s[0] == t[0]);
                    assert(char_is_whitespace_spec(t[0]));
                    assert(rf.push(s.last()) =~= seq![' '] + rt.push(s.last()));
                } else {
                    assert(rf.push(s.last()) =~= Seq::<char>::empty() + rt.push(s.last()));
                }
            } else {
                assert forall|i: int| 0 <= i < s.len() implies char_is_whitespace_spec(#[trigger] s[i]) by {
                    if i < t.len() {
                        assert(s[i] == t[i]);
                    }
                }
            }
        } else {
            assert(!all_whitespace(s)) by {
                let j = choose|j: int| 0 <= j < t.len() && !char_is_whitespace_spec(#[trigger] t[j]);
                assert(s[j] == t[j]);
            }
            assert(s[0] == t[0]);
            let p = if char_is_whitespace_spec(s[0]) {
                seq![' ']
            } else {
                Seq::<char>::empty()
            };
            assert((p + rt).push(s.last()) =~= p + rt.push(s.last()));
            assert((p + rt).push(' ') =~= p + rt.push(' '));
            assert(rt.len() > 0);
            assert((p + rt).len() > 0);
        }
    }
}

/// The trimmed text of a sequence whose first character is not whitespace
/// is that of the sequence with one space before it.
proof fn lemma_trim_leading_space(r: Seq<char>)
    requires
        char_is_whitespace_spec(' '),
    ensures
        trim_spec(seq![' '] + r) == trim_spec(r),
{
    assert((seq![' '] + r).drop_first() =~= r);
}

/// Text with each maximal run of whitespace replaced by one space: a
/// whitespace character becomes a space unless whitespace comes right
/// before it, in which case it is dropped.
pub open spec fn collapse_runs(s: Seq<char>) -> Seq<char>
    decreases s.len(),
{
    if s.len() == 0 {
        Seq::empty()
    } else if char_is_whitespace_spec(s.last()) {
        if s.len() > 1 && char_is_whitespace_spec(s[s.len() - 2]) {
            collapse_runs(s.drop_last())
        } else {
            collapse_runs(s.drop_last()).push(' ')
        }
    } else {
        collapse_runs(s.drop_last()).push(s.last())
    }
}

proof fn lemma_collapse_runs(s: Seq<char>)
    ensures
        collapse_state(s, false).0 == collapse_runs(s),
        collapse_state(s, false).1 == (s.len() > 0 && char_is_whitespace_spec(s.last())),
    decreases s.len(),
{
    if s.len() > 0 {
        lemma_collapse_runs(s.drop_last());
        if s.len() > 1 {
            assert(s.drop_last().last() == s[s.len() - 2]);
        }
    }
}

/// JSX text whitespace as collapsing then trimming: every run of whitespace
/// becomes one space, and text that spans lines is then trimmed at both
/// ends (space being whitespace, as `char::is_whitespace` has it).
pub proof fn lemma_trim_whitespace_collapse_then_trim(s: Seq<char>)
    requires
        char_is_whitespace_spec(' '),
    ensures
        trim_whitespace_spec(s) == (if s.contains('\n') {
            trim_spec(collapse_runs(s))
        } else {
            collapse_runs(s)
        }),
{
    lemma_collapse_runs(s);
    lemma_collapse_skip_leading(s);
    if s.contains('\n') {
        let rf = collapse_state(s, false).0;
        let rt = collapse_state(s, true).0;
        if all_whitespace(s) {
            if s.len() > 0 {
                lemma_trim_leading_space(Seq::<char>::empty());
                assert(seq![' '] + Seq::<char>::empty() =~= seq![' ']);
            }
            assert(trim_spec(Seq::<char>::empty()) =~= Seq::<char>::empty());
        } else if char_is_whitespace_spec(s[0]) {
            lemma_trim_leading_space(rt);
        } else {
            assert(Seq::<char>::empty() + rt =~= rt);
        }
    }
}

} // verus!
