//! CSS property names and style strings.
use vstd::prelude::*;
use crate::text::{
    char_is_uppercase, char_is_uppercase_spec, char_lowercase_spec, char_to_lowercase,
    chars_of, contains_str, push_str, seq_contains_seq, str_in, string_from_range, strs_view,
    trim, trim_spec, ascii_lower, is_ascii_upper, join, join_spec, all_ascii, is_ascii_char,
    char_is_whitespace, char_is_whitespace_spec, trim_end_spec, trim_start_spec,
};

verus! {

/// What the character at position `i` becomes in kebab-case: an uppercase
/// letter is lowered (ASCII) and, unless first, preceded by `-`.
pub open spec fn kebab_char_spec(c: char, i: int) -> Seq<char> {
    if char_is_uppercase_spec(c) {
        if i > 0 {
            seq!['-', ascii_lower(c)]
        } else {
            seq![ascii_lower(c)]
        }
    } else {
        seq![c]
    }
}

/// camelCase to kebab-case with ASCII lowering.
pub open spec fn to_kebab_case_spec(s: Seq<char>) -> Seq<char>
    decreases s.len(),
{
    if s.len() == 0 {
        Seq::empty()
    } else {
        to_kebab_case_spec(s.drop_last()) + kebab_char_spec(s.last(), s.len() - 1)
    }
}

/// Convert camelCase to kebab-case.
pub fn to_kebab_case(s: &str) -> (r: String)
    ensures
        r@ == to_kebab_case_spec(s@),
{
    let v = chars_of(s);
    let mut result = String::new();
    let mut i: usize = 0;
    while i < v.len()
        invariant
            v@ == s@,
            i <= v@.len(),
            result@ == to_kebab_case_spec(v@.subrange(0, i as int)),
        decreases v@.len() - i,
    {
        let c = v[i];
        let ghost before = result@;
        if char_is_uppercase(c) {
            if i > 0 {
                result.push('-');
            }
            let lc = if 'A' <= c && c <= 'Z' {
                crate::text::char_from_ascii_lower(c)
            } else {
                c
            };
            result.push(lc);
        } else {
            result.push(c);
        }
        proof {
            let p = v@.subrange(0, i + 1);
            assert(p.drop_last() =~= v@.subrange(0, i as int));
            assert(p.last() == c);
            assert(result@ =~= before + kebab_char_spec(c, i as int));
        }
        i = i + 1;
    }
    assert(v@.subrange(0, v@.len() as int) =~= v@);
    result
}

/// What the character at position `i` becomes when a camelCase style key
/// is turned into a CSS name: an uppercase letter becomes the first
/// character of its lowercase mapping, preceded by `-` unless first.
pub open spec fn camel_kebab_char_spec(c: char, i: int) -> Seq<char> {
    if char_is_uppercase_spec(c) {
        if i > 0 {
            seq!['-', char_lowercase_spec(c)[0]]
        } else {
            seq![char_lowercase_spec(c)[0]]
        }
    } else {
        seq![c]
    }
}

pub open spec fn camel_to_kebab_spec(s: Seq<char>) -> Seq<char>
    decreases s.len(),
{
    if s.len() == 0 {
        Seq::empty()
    } else {
        camel_to_kebab_spec(s.drop_last()) + camel_kebab_char_spec(s.last(), s.len() - 1)
    }
}

/// Convert camelCase to kebab-case (Unicode lowering). On ASCII text it
/// agrees with `to_kebab_case`.
pub fn camel_to_kebab(s: &str) -> (r: String)
    ensures
        r@ == camel_to_kebab_spec(s@),
        all_ascii(s@) ==> r@ == to_kebab_case_spec(s@),
{
    let v = chars_of(s);
    let mut result = String::new();
    let mut i: usize = 0;
    while i < v.len()
        invariant
            v@ == s@,
            i <= v@.len(),
            result@ == camel_to_kebab_spec(v@.subrange(0, i as int)),
            all_ascii(v@.subrange(0, i as int)) ==> result@ == to_kebab_case_spec(v@.subrange(0, i as int)),
        decreases v@.len() - i,
    {
        let c = v[i];
        let ghost before = result@;
        if char_is_uppercase(c) {
            if i > 0 {
                result.push('-');
            }
            let lower = char_to_lowercase(c);
            let lv = chars_of(lower.as_str());
            result.push(lv[0]);
            proof {
                if is_ascii_char(c) {
                    assert(lv@[0] == ascii_lower(c));
                }
            }
        } else {
            result.push(c);
        }
        proof {
            let p = v@.subrange(0, i + 1);
            assert(p.drop_last() =~= v@.subrange(0, i as int));
            assert(p.last() == c);
            assert(result@ =~= before + camel_kebab_char_spec(c, i as int));
            if all_ascii(p) {
                assert(is_ascii_char(p[i as int]));
                assert(all_ascii(v@.subrange(0, i as int)));
                assert(camel_kebab_char_spec(c, i as int) =~= kebab_char_spec(c, i as int));
            }
        }
        i = i + 1;
    }
    assert(v@.subrange(0, v@.len() as int) =~= v@);
    result
}

/// CSS properties that take unitless numbers.
pub open spec fn unitless_properties_spec() -> Seq<Seq<char>> {
    seq![
        "animation-iteration-count"@, "border-image-outset"@, "border-image-slice"@,
        "border-image-width"@, "box-flex"@, "box-flex-group"@, "box-ordinal-group"@,
        "column-count"@, "columns"@, "flex"@, "flex-grow"@, "flex-positive"@, "flex-shrink"@,
        "flex-negative"@, "flex-order"@, "grid-row"@, "grid-row-end"@, "grid-row-span"@,
        "grid-row-start"@, "grid-column"@, "grid-column-end"@, "grid-column-span"@,
        "grid-column-start"@, "font-weight"@, "line-clamp"@, "line-height"@, "opacity"@,
        "order"@, "orphans"@, "tab-size"@, "widows"@, "z-index"@, "zoom"@, "fill-opacity"@,
        "flood-opacity"@, "stop-opacity"@, "stroke-dasharray"@, "stroke-dashoffset"@,
        "stroke-miterlimit"@, "stroke-opacity"@, "stroke-width"@,
    ]
}

/// A numeric value of the property gets a `px` suffix.
pub fn needs_px_suffix(prop: &str) -> (r: bool)
    ensures
        r == !unitless_properties_spec().contains(prop@),
{
    let unitless = [
        "animation-iteration-count", "border-image-outset", "border-image-slice",
        "border-image-width", "box-flex", "box-flex-group", "box-ordinal-group", "column-count",
        "columns", "flex", "flex-grow", "flex-positive", "flex-shrink", "flex-negative",
        "flex-order", "grid-row", "grid-row-end", "grid-row-span", "grid-row-start",
        "grid-column", "grid-column-end", "grid-column-span", "grid-column-start",
        "font-weight", "line-clamp", "line-height", "opacity", "order", "orphans", "tab-size",
        "widows", "z-index", "zoom", "fill-opacity", "flood-opacity", "stop-opacity",
        "stroke-dasharray", "stroke-dashoffset", "stroke-miterlimit", "stroke-opacity",
        "stroke-width",
    ];
    assert(strs_view(unitless@) =~= unitless_properties_spec());
    !str_in(prop, &unitless)
}

/// The common CSS properties the style rule knows.
pub open spec fn common_css_spec() -> Seq<Seq<char>> {
    seq![
        "display"@, "position"@, "top"@, "right"@, "bottom"@, "left"@, "width"@, "height"@,
        "min-width"@, "max-width"@, "min-height"@, "max-height"@, "margin"@, "margin-top"@,
        "margin-right"@, "margin-bottom"@, "margin-left"@, "padding"@, "padding-top"@,
        "padding-right"@, "padding-bottom"@, "padding-left"@, "border"@, "border-width"@,
        "border-style"@, "border-color"@, "border-radius"@, "background"@,
        "background-color"@, "color"@, "font"@, "font-size"@, "font-weight"@,
        "font-family"@, "font-style"@, "line-height"@, "text-align"@, "text-decoration"@,
        "text-transform"@, "white-space"@, "overflow"@, "overflow-x"@, "overflow-y"@,
        "visibility"@, "opacity"@, "z-index"@, "flex"@, "flex-direction"@, "flex-wrap"@,
        "flex-grow"@, "flex-shrink"@, "flex-basis"@, "justify-content"@, "align-items"@,
        "align-content"@, "align-self"@, "gap"@, "grid"@, "grid-template-columns"@,
        "grid-template-rows"@, "grid-column"@, "grid-row"@, "transform"@, "transition"@,
        "animation"@, "cursor"@, "pointer-events"@, "user-select"@, "box-shadow"@,
        "box-sizing"@, "outline"@, "resize"@, "object-fit"@, "object-position"@,
    ]
}

/// Check if a name is one of the common CSS properties.
pub fn is_valid_css_property(name: &str) -> (r: bool)
    ensures
        r == common_css_spec().contains(name@),
{
    let list = [
        "display", "position", "top", "right", "bottom", "left", "width", "height", "min-width",
        "max-width", "min-height", "max-height", "margin", "margin-top", "margin-right",
        "margin-bottom", "margin-left", "padding", "padding-top", "padding-right",
        "padding-bottom", "padding-left", "border", "border-width", "border-style",
        "border-color", "border-radius", "background", "background-color", "color", "font",
        "font-size", "font-weight", "font-family", "font-style", "line-height", "text-align",
        "text-decoration", "text-transform", "white-space", "overflow", "overflow-x",
        "overflow-y", "visibility", "opacity", "z-index", "flex", "flex-direction", "flex-wrap",
        "flex-grow", "flex-shrink", "flex-basis", "justify-content", "align-items",
        "align-content", "align-self", "gap", "grid", "grid-template-columns",
        "grid-template-rows", "grid-column", "grid-row", "transform", "transition", "animation",
        "cursor", "pointer-events", "user-select", "box-shadow", "box-sizing", "outline",
        "resize", "object-fit", "object-position",
    ];
    assert(strs_view(list@) =~= common_css_spec());
    str_in(name, &list)
}

/// Length and percentage properties.
pub open spec fn length_percentage_spec() -> Seq<Seq<char>> {
    seq![
        "width"@, "height"@, "margin"@, "padding"@, "border-width"@, "font-size"@,
        "min-width"@, "max-width"@, "min-height"@, "max-height"@, "margin-top"@,
        "margin-right"@, "margin-bottom"@, "margin-left"@, "padding-top"@, "padding-right"@,
        "padding-bottom"@, "padding-left"@,
    ]
}

/// The name contains one of the length/percentage property names.
pub open spec fn is_length_percentage_spec(name: Seq<char>) -> bool {
    exists|i: int|
        0 <= i < length_percentage_spec().len() && seq_contains_seq(
            name,
            #[trigger] length_percentage_spec()[i],
        )
}

/// Check if a property is a length/percentage property (its name contains
/// one of theirs).
pub fn is_length_percentage_property(name: &str) -> (r: bool)
    ensures
        r == is_length_percentage_spec(name@),
{
    let list = [
        "width", "height", "margin", "padding", "border-width", "font-size", "min-width",
        "max-width", "min-height", "max-height", "margin-top", "margin-right", "margin-bottom",
        "margin-left", "padding-top", "padding-right", "padding-bottom", "padding-left",
    ];
    assert(strs_view(list@) =~= length_percentage_spec());
    let mut k: usize = 0;
    while k < list.len()
        invariant
            strs_view(list@) == length_percentage_spec(),
            k <= list@.len(),
            forall|j: int| 0 <= j < k ==> !seq_contains_seq(name@, #[trigger] length_percentage_spec()[j]),
        decreases list@.len() - k,
    {
        if contains_str(name, list[k]) {
            assert(length_percentage_spec()[k as int] == list@[k as int]@);
            return true;
        }
        assert(length_percentage_spec()[k as int] == list@[k as int]@);
        k = k + 1;
    }
    false
}

/// Splitting by a character, scanning left to right: the pieces closed so
/// far and the piece being built.
pub open spec fn split_state(s: Seq<char>, sep: char) -> (Seq<Seq<char>>, Seq<char>)
    decreases s.len(),
{
    if s.len() == 0 {
        (Seq::empty(), Seq::empty())
    } else {
        let (pieces, cur) = split_state(s.drop_last(), sep);
        if s.last() == sep {
            (pieces.push(cur), Seq::empty())
        } else {
            (pieces, cur.push(s.last()))
        }
    }
}

/// `str::split` by a character: the pieces between separators.
pub open spec fn split_spec(s: Seq<char>, sep: char) -> Seq<Seq<char>> {
    let (pieces, cur) = split_state(s, sep);
    pieces.push(cur)
}

/// The index of the first occurrence of `c` in `s`.
pub open spec fn first_index_of(s: Seq<char>, c: char) -> Option<int>
    decreases s.len(),
{
    if s.len() == 0 {
        None
    } else if s[0] == c {
        Some(0)
    } else {
        match first_index_of(s.drop_first(), c) {
            Some(i) => Some(i + 1),
            None => None,
        }
    }
}

/// The non-blank pieces of a style string.
pub open spec fn style_parts_spec(style: Seq<char>) -> Seq<Seq<char>> {
    split_spec(style, ';').filter(|p: Seq<char>| trim_spec(p).len() > 0)
}

/// The member `"key": "value"` of a `key:value` piece (split at its first
/// `:`, both sides trimmed); nothing for a piece without `:`.
pub open spec fn style_member_spec(part: Seq<char>) -> Option<Seq<char>> {
    match first_index_of(part, ':') {
        Some(j) => Some(
            "\""@ + trim_spec(part.subrange(0, j)) + "\": \""@ + trim_spec(
                part.subrange(j + 1, part.len() as int),
            ) + "\""@,
        ),
        None => None,
    }
}

/// The members of the pieces that have one, in order.
pub open spec fn style_members_spec(parts: Seq<Seq<char>>) -> Seq<Seq<char>>
    decreases parts.len(),
{
    if parts.len() == 0 {
        Seq::empty()
    } else {
        let front = style_members_spec(parts.drop_last());
        match style_member_spec(parts.last()) {
            Some(m) => front.push(m),
            None => front,
        }
    }
}

/// A CSS style string as the text of a JSON object: `{`, the members of
/// its non-blank pieces joined by `, `, and `}`.
pub open spec fn parse_style_string_spec(style: Seq<char>) -> Seq<char> {
    "{"@ + join_spec(style_members_spec(style_parts_spec(style)), ", "@) + "}"@
}

/// The pieces of `s` between occurrences of `sep`.
pub fn split_char(s: &str, sep: char) -> (r: Vec<String>)
    ensures
        crate::text::views(r@) == split_spec(s@, sep),
{
    let v = chars_of(s);
    let mut pieces: Vec<String> = Vec::new();
    let mut start: usize = 0;
    let mut i: usize = 0;
    while i < v.len()
        invariant
            v@ == s@,
            start <= i <= v@.len(),
            (crate::text::views(pieces@), v@.subrange(start as int, i as int)) == split_state(
                v@.subrange(0, i as int),
                sep,
            ),
        decreases v@.len() - i,
    {
        proof {
            let p = v@.subrange(0, i + 1);
            assert(p.drop_last() =~= v@.subrange(0, i as int));
            assert(p.last() == v@[i as int]);
        }
        if v[i] == sep {
            let piece = string_from_range(v.as_slice(), start, i);
            let ghost before = pieces@;
            pieces.push(piece);
            assert(crate::text::views(pieces@) =~= crate::text::views(before).push(piece@));
            start = i + 1;
            assert(v@.subrange(start as int, i + 1) =~= Seq::<char>::empty());
        } else {
            assert(v@.subrange(start as int, i + 1) =~= v@.subrange(start as int, i as int).push(
                v@[i as int],
            ));
        }
        i = i + 1;
    }
    assert(v@.subrange(0, v@.len() as int) =~= v@);
    let last = string_from_range(v.as_slice(), start, v.len());
    let ghost before = pieces@;
    pieces.push(last);
    assert(crate::text::views(pieces@) =~= crate::text::views(before).push(last@));
    pieces
}

/// The index of the first `c` in `v`.
pub fn find_char(v: &[char], c: char) -> (r: Option<usize>)
    ensures
        match r {
            Some(i) => first_index_of(v@, c) == Some(i as int) && i < v@.len(),
            None => first_index_of(v@, c) is None,
        },
{
    let mut i: usize = 0;
    while i < v.len()
        invariant
            i <= v@.len(),
            forall|j: int| 0 <= j < i ==> v@[j] != c,
        decreases v@.len() - i,
    {
        if v[i] == c {
            proof {
                lemma_first_index(v@, c, i as int);
            }
            return Some(i);
        }
        i = i + 1;
    }
    proof {
        lemma_no_index(v@, c);
    }
    None
}

proof fn lemma_first_index(s: Seq<char>, c: char, i: int)
    requires
        0 <= i < s.len(),
        s[i] == c,
        forall|j: int| 0 <= j < i ==> s[j] != c,
    ensures
        first_index_of(s, c) == Some(i),
    decreases i,
{
    if i > 0 {
        let t = s.drop_first();
        assert forall|j: int| 0 <= j < i - 1 implies t[j] != c by {
            assert(t[j] == s[j + 1]);
        }
        lemma_first_index(t, c, i - 1);
    }
}

proof fn lemma_no_index(s: Seq<char>, c: char)
    requires
        forall|j: int| 0 <= j < s.len() ==> s[j] != c,
    ensures
        first_index_of(s, c) is None,
    decreases s.len(),
{
    if s.len() > 0 {
        let t = s.drop_first();
        assert forall|j: int| 0 <= j < t.len() implies t[j] != c by {
            assert(t[j] == s[j + 1]);
        }
        lemma_no_index(t, c);
    }
}

proof fn lemma_trim_end_blank(t: Seq<char>)
    requires
        trim_end_spec(t).len() == 0,
    ensures
        forall|i: int| 0 <= i < t.len() ==> char_is_whitespace_spec(#[trigger] t[i]),
    decreases t.len(),
{
    if t.len() > 0 {
        lemma_trim_end_blank(t.drop_last());
        assert forall|i: int| 0 <= i < t.len() implies char_is_whitespace_spec(#[trigger] t[i]) by {
            if i < t.len() - 1 {
                assert(t[i] == t.drop_last()[i]);
            }
        }
    }
}

proof fn lemma_trim_start_blank(s: Seq<char>)
    requires
        forall|i: int| 0 <= i < trim_start_spec(s).len() ==> char_is_whitespace_spec(#[trigger] trim_start_spec(s)[i]),
    ensures
        forall|i: int| 0 <= i < s.len() ==> char_is_whitespace_spec(#[trigger] s[i]),
    decreases s.len(),
{
    if s.len() > 0 && char_is_whitespace_spec(s[0]) {
        assert(trim_start_spec(s) == trim_start_spec(s.drop_first()));
        lemma_trim_start_blank(s.drop_first());
        assert forall|i: int| 0 <= i < s.len() implies char_is_whitespace_spec(#[trigger] s[i]) by {
            if i > 0 {
                assert(s[i] == s.drop_first()[i - 1]);
            }
        }
    } else if s.len() > 0 {
        assert(trim_start_spec(s) == s);
        assert(char_is_whitespace_spec(trim_start_spec(s)[0]));
    }
}

/// A piece that trims to nothing has no `:`, `:` not being whitespace.
proof fn lemma_blank_has_no_member(p: Seq<char>)
    requires
        trim_spec(p).len() == 0,
        !char_is_whitespace_spec(':'),
    ensures
        style_member_spec(p) is None,
{
    lemma_trim_end_blank(trim_start_spec(p));
    lemma_trim_start_blank(p);
    lemma_no_index(p, ':');
}

/// Leaving out pieces that have no member leaves the members as they are.
proof fn lemma_members_of_nonblank(parts: Seq<Seq<char>>)
    requires
        !char_is_whitespace_spec(':'),
    ensures
        style_members_spec(parts.filter(|p: Seq<char>| trim_spec(p).len() > 0)) == style_members_spec(parts),
    decreases parts.len(),
{
    reveal(Seq::filter);
    let pred = |p: Seq<char>| trim_spec(p).len() > 0;
    if parts.len() > 0 {
        lemma_members_of_nonblank(parts.drop_last());
        let front = parts.drop_last().filter(pred);
        if pred(parts.last()) {
            assert(parts.filter(pred) == front.push(parts.last()));
            assert(front.push(parts.last()).drop_last() =~= front);
        } else {
            assert(parts.filter(pred) == front);
            lemma_blank_has_no_member(parts.last());
        }
    }
}

/// Parse a CSS style string into the text of an object literal.
///
/// The object has one member `"key": "value"` for each `;`-separated piece
/// that has a `:`, in order: key and value are the trimmed text before and
/// after its first `:`.
pub fn parse_style_string(style: &str) -> (r: String)
    ensures
        r@ == parse_style_string_spec(style@),
        r@ == "{"@ + join_spec(style_members_spec(split_spec(style@, ';')), ", "@) + "}"@,
{
    let colon_is_space = char_is_whitespace(':');
    proof {
        assert(!colon_is_space);
        lemma_members_of_nonblank(split_spec(style@, ';'));
    }
    let pieces = split_char(style, ';');
    let ghost all = crate::text::views(pieces@);
    let ghost pred = |p: Seq<char>| trim_spec(p).len() > 0;
    let mut parts: Vec<String> = Vec::new();
    let mut k: usize = 0;
    while k < pieces.len()
        invariant
            all == crate::text::views(pieces@),
            pred == (|p: Seq<char>| trim_spec(p).len() > 0),
            k <= pieces@.len(),
            crate::text::views(parts@) == all.subrange(0, k as int).filter(pred),
        decreases pieces@.len() - k,
    {
        proof {
            let p = all.subrange(0, k + 1);
            assert(p.drop_last() =~= all.subrange(0, k as int));
            reveal_with_fuel(Seq::filter, 1);
        }
        let t = trim(pieces[k].as_str());
        if chars_of(t.as_str()).len() > 0 {
            let ghost before = parts@;
            let copy = crate::text::to_owned(pieces[k].as_str());
            parts.push(copy);
            assert(crate::text::views(parts@) =~= crate::text::views(before).push(copy@));
        }
        k = k + 1;
    }
    assert(all.subrange(0, all.len() as int) =~= all);
    let mut members: Vec<String> = Vec::new();
    let mut i: usize = 0;
    let ghost parts_v = crate::text::views(parts@);
    while i < parts.len()
        invariant
            parts_v == crate::text::views(parts@),
            i <= parts@.len(),
            crate::text::views(members@) == style_members_spec(parts_v.subrange(0, i as int)),
        decreases parts@.len() - i,
    {
        proof {
            let p = parts_v.subrange(0, i + 1);
            assert(p.drop_last() =~= parts_v.subrange(0, i as int));
        }
        let ghost before = crate::text::views(members@);
        let pv = chars_of(parts[i].as_str());
        match find_char(pv.as_slice(), ':') {
            Some(j) => {
                assert(j < pv.len());
                let key_raw = string_from_range(pv.as_slice(), 0, j);
                let value_raw = string_from_range(pv.as_slice(), j + 1, pv.len());
                let key = trim(key_raw.as_str());
                let value = trim(value_raw.as_str());
                let mut m = crate::text::to_owned("\"");
                push_str(&mut m, key.as_str());
                push_str(&mut m, "\": \"");
                push_str(&mut m, value.as_str());
                push_str(&mut m, "\"");
                members.push(m);
                assert(crate::text::views(members@) =~= before.push(m@));
            },
            None => {},
        }
        i = i + 1;
    }
    assert(parts_v.subrange(0, parts_v.len() as int) =~= parts_v);
    let joined = join(members.as_slice(), ", ");
    let mut result = crate::text::to_owned("{");
    push_str(&mut result, joined.as_str());
    push_str(&mut result, "}");
    result
}

} // verus!
