//! Name and element classification shared by the lint rules.
use vstd::prelude::*;
use crate::jsx::{
    JsxAttribute, JsxAttributeItem, JsxAttributeName, JsxChild, JsxElementName,
    JsxMemberExpression, JsxMemberObject, JsxOpeningElement,
};
use crate::span::Span;
use crate::text::{
    char_is_lowercase, char_is_lowercase_spec, char_is_uppercase, char_is_uppercase_spec,
    char_is_whitespace, char_is_whitespace_spec, chars_of, push_str, replace, replace_spec,
    seq_starts_with, starts_with, str_eq, str_in, str_lowercase_spec, str_to_lowercase,
    strs_view, to_owned, trim, trim_spec,
};

verus! {

// ------------------------------------------------------------------
// Element and attribute names
// ------------------------------------------------------------------

/// A name whose first character is lowercase names a DOM element.
pub open spec fn is_dom_element_spec(name: Seq<char>) -> bool {
    name.len() > 0 && char_is_lowercase_spec(name[0])
}

/// Check if an element name is a DOM element (its first character is
/// lowercase).
pub fn is_dom_element(name: &str) -> (r: bool)
    ensures
        r == is_dom_element_spec(name@),
{
    let v = chars_of(name);
    if v.len() == 0 {
        false
    } else {
        char_is_lowercase(v[0])
    }
}

/// The element is a component: a non-DOM identifier or a member expression.
pub open spec fn is_component_spec(name: JsxElementName) -> bool {
    match name {
        JsxElementName::Identifier(i) => !is_dom_element_spec(i.name@),
        JsxElementName::IdentifierReference(i) => !is_dom_element_spec(i.name@),
        JsxElementName::MemberExpression(_) => true,
        _ => false,
    }
}

/// Check if a JSX element name represents a component.
pub fn is_component(opening: &JsxOpeningElement) -> (r: bool)
    ensures
        r == is_component_spec(opening.name),
{
    match &opening.name {
        JsxElementName::Identifier(ident) => !is_dom_element(ident.name.as_str()),
        JsxElementName::IdentifierReference(ident) => !is_dom_element(ident.name.as_str()),
        JsxElementName::MemberExpression(_) => true,
        _ => false,
    }
}

/// Names of the void HTML elements.
pub open spec fn void_elements_spec() -> Seq<Seq<char>> {
    seq![
        "area"@, "base"@, "br"@, "col"@, "embed"@, "hr"@, "img"@, "input"@, "link"@, "meta"@,
        "param"@, "source"@, "track"@, "wbr"@,
    ]
}

/// A void HTML element has no closing tag.
pub fn is_void_element(name: &str) -> (r: bool)
    ensures
        r == void_elements_spec().contains(name@),
{
    let list = [
        "area", "base", "br", "col", "embed", "hr", "img", "input", "link", "meta", "param",
        "source", "track", "wbr",
    ];
    assert(strs_view(list@) =~= void_elements_spec());
    str_in(name, &list)
}

/// Solid's built-in components.
pub open spec fn solid_builtins_spec() -> Seq<Seq<char>> {
    seq![
        "For"@, "Show"@, "Switch"@, "Match"@, "Index"@, "ErrorBoundary"@, "Suspense"@,
        "SuspenseList"@, "Dynamic"@, "Portal"@,
    ]
}

/// Check if a component is one of Solid's built-ins.
pub fn is_solid_builtin(name: &str) -> (r: bool)
    ensures
        r == solid_builtins_spec().contains(name@),
{
    let list = [
        "For", "Show", "Switch", "Match", "Index", "ErrorBoundary", "Suspense", "SuspenseList",
        "Dynamic", "Portal",
    ];
    assert(strs_view(list@) =~= solid_builtins_spec());
    str_in(name, &list)
}

/// `object.property` written out with dots.
pub open spec fn member_name_spec(m: JsxMemberExpression) -> Seq<char>
    decreases m,
{
    member_object_name_spec(m.object) + "."@ + m.property.name@
}

pub open spec fn member_object_name_spec(o: JsxMemberObject) -> Seq<char>
    decreases o,
{
    match o {
        JsxMemberObject::IdentifierReference(i) => i.name@,
        JsxMemberObject::MemberExpression(inner) => member_name_spec(*inner),
        JsxMemberObject::ThisExpression(_) => "this"@,
    }
}

/// The root identifier of a member expression, with its span; `None` when
/// the root is `this`.
pub open spec fn member_root_spec(m: JsxMemberExpression) -> Option<(Seq<char>, Span)>
    decreases m,
{
    member_object_root_spec(m.object)
}

pub open spec fn member_object_root_spec(o: JsxMemberObject) -> Option<(Seq<char>, Span)>
    decreases o,
{
    match o {
        JsxMemberObject::IdentifierReference(i) => Some((i.name@, i.span)),
        JsxMemberObject::MemberExpression(inner) => member_root_spec(*inner),
        JsxMemberObject::ThisExpression(_) => None,
    }
}

/// The text of an element name.
pub open spec fn element_name_spec(name: JsxElementName) -> Option<Seq<char>> {
    match name {
        JsxElementName::Identifier(i) => Some(i.name@),
        JsxElementName::IdentifierReference(i) => Some(i.name@),
        JsxElementName::NamespacedName(ns) => Some(ns.namespace.name@ + ":"@ + ns.name.name@),
        JsxElementName::MemberExpression(m) => Some(member_name_spec(m)),
        JsxElementName::ThisExpression(_) => None,
    }
}

fn member_name(m: &JsxMemberExpression) -> (r: String)
    ensures
        r@ == member_name_spec(*m),
    decreases m,
{
    let mut r = match &m.object {
        JsxMemberObject::IdentifierReference(i) => to_owned(i.name.as_str()),
        JsxMemberObject::MemberExpression(inner) => member_name(inner),
        JsxMemberObject::ThisExpression(_) => to_owned("this"),
    };
    push_str(&mut r, ".");
    push_str(&mut r, m.property.name.as_str());
    r
}

/// The root identifier of a member expression and its span.
pub fn get_member_root(m: &JsxMemberExpression) -> (r: Option<(String, Span)>)
    ensures
        match r {
            Some((n, s)) => member_root_spec(*m) == Some((n@, s)),
            None => member_root_spec(*m) is None,
        },
    decreases m,
{
    match &m.object {
        JsxMemberObject::IdentifierReference(i) => Some((to_owned(i.name.as_str()), i.span)),
        JsxMemberObject::MemberExpression(inner) => get_member_root(inner),
        JsxMemberObject::ThisExpression(_) => None,
    }
}

/// Get the name of a JSX element as a string.
pub fn get_element_name(element: &JsxOpeningElement) -> (r: Option<String>)
    ensures
        match r {
            Some(s) => element_name_spec(element.name) == Some(s@),
            None => element_name_spec(element.name) is None,
        },
{
    match &element.name {
        JsxElementName::Identifier(ident) => Some(to_owned(ident.name.as_str())),
        JsxElementName::IdentifierReference(ident) => Some(to_owned(ident.name.as_str())),
        JsxElementName::NamespacedName(ns) => {
            let mut s = to_owned(ns.namespace.name.as_str());
            push_str(&mut s, ":");
            push_str(&mut s, ns.name.name.as_str());
            Some(s)
        },
        JsxElementName::MemberExpression(member) => Some(member_name(member)),
        JsxElementName::ThisExpression(_) => None,
    }
}

/// The full name of an attribute: `name` or `namespace:name`.
pub open spec fn attr_full_name_spec(n: JsxAttributeName) -> Seq<char> {
    match n {
        JsxAttributeName::Identifier(i) => i.name@,
        JsxAttributeName::NamespacedName(ns) => ns.namespace.name@ + ":"@ + ns.name.name@,
    }
}

/// The span of an attribute's name.
pub open spec fn attr_name_span_spec(n: JsxAttributeName) -> Span {
    match n {
        JsxAttributeName::Identifier(i) => i.span,
        JsxAttributeName::NamespacedName(ns) => ns.span,
    }
}

/// The full name of an attribute: `name` or `namespace:name`.
pub fn attr_full_name(n: &JsxAttributeName) -> (r: String)
    ensures
        r@ == attr_full_name_spec(*n),
{
    match n {
        JsxAttributeName::Identifier(i) => to_owned(i.name.as_str()),
        JsxAttributeName::NamespacedName(ns) => {
            let mut s = to_owned(ns.namespace.name.as_str());
            push_str(&mut s, ":");
            push_str(&mut s, ns.name.name.as_str());
            s
        },
    }
}

/// The item is an attribute whose (non-namespaced) name is `name`.
pub open spec fn is_attr_named(item: JsxAttributeItem, name: Seq<char>) -> bool {
    match item {
        JsxAttributeItem::Attribute(a) => match a.name {
            JsxAttributeName::Identifier(i) => i.name@ == name,
            _ => false,
        },
        _ => false,
    }
}

/// The first attribute of the list named `name`.
pub open spec fn first_attr_spec(attrs: Seq<JsxAttributeItem>, name: Seq<char>) -> Option<
    JsxAttribute,
>
    decreases attrs.len(),
{
    if attrs.len() == 0 {
        None
    } else if is_attr_named(attrs[0], name) {
        Some(attrs[0]->Attribute_0)
    } else {
        first_attr_spec(attrs.drop_first(), name)
    }
}

/// Some attribute of the list is named `name`.
pub open spec fn has_attr_spec(attrs: Seq<JsxAttributeItem>, name: Seq<char>) -> bool {
    first_attr_spec(attrs, name) is Some
}

/// Get the first attribute named `name` of a JSX opening element.
pub fn get_attribute<'a>(element: &'a JsxOpeningElement, name: &str) -> (r: Option<&'a JsxAttribute>)
    ensures
        match r {
            Some(a) => first_attr_spec(element.attributes@, name@) == Some(*a),
            None => first_attr_spec(element.attributes@, name@) is None,
        },
{
    let ghost attrs = element.attributes@;
    let mut k: usize = 0;
    assert(attrs.subrange(0, attrs.len() as int) =~= attrs);
    while k < element.attributes.len()
        invariant
            attrs == element.attributes@,
            k <= attrs.len(),
            first_attr_spec(attrs, name@) == first_attr_spec(
                attrs.subrange(k as int, attrs.len() as int),
                name@,
            ),
        decreases attrs.len() - k,
    {
        let ghost rest = attrs.subrange(k as int, attrs.len() as int);
        assert(rest[0] == attrs[k as int]);
        assert(rest.drop_first() =~= attrs.subrange(k + 1, attrs.len() as int));
        let item = &element.attributes[k];
        if let JsxAttributeItem::Attribute(jsx_attr) = item {
            if let JsxAttributeName::Identifier(ident) = &jsx_attr.name {
                if str_eq(ident.name.as_str(), name) {
                    return Some(jsx_attr);
                }
            }
        }
        k = k + 1;
    }
    None
}

/// Check if an element has an attribute with the given name.
pub fn has_attribute(element: &JsxOpeningElement, name: &str) -> (r: bool)
    ensures
        r == has_attr_spec(element.attributes@, name@),
{
    get_attribute(element, name).is_some()
}

/// Names and name spans of the attributes of a list, spreads left out.
pub open spec fn all_attributes_spec(attrs: Seq<JsxAttributeItem>) -> Seq<(Seq<char>, Span)>
    decreases attrs.len(),
{
    if attrs.len() == 0 {
        Seq::empty()
    } else {
        all_attributes_spec(attrs.drop_last()) + match attrs.last() {
            JsxAttributeItem::Attribute(a) => seq![
                (attr_full_name_spec(a.name), attr_name_span_spec(a.name)),
            ],
            JsxAttributeItem::SpreadAttribute(_) => Seq::empty(),
        }
    }
}

/// Get all attribute names and spans from a JSX opening element.
pub fn get_all_attributes(element: &JsxOpeningElement) -> (r: Vec<(String, Span)>)
    ensures
        r@.map_values(|p: (String, Span)| (p.0@, p.1)) == all_attributes_spec(
            element.attributes@,
        ),
{
    let mut result: Vec<(String, Span)> = Vec::new();
    let mut k: usize = 0;
    while k < element.attributes.len()
        invariant
            k <= element.attributes@.len(),
            result@.map_values(|p: (String, Span)| (p.0@, p.1)) == all_attributes_spec(
                element.attributes@.subrange(0, k as int),
            ),
        decreases element.attributes@.len() - k,
    {
        let ghost before = result@;
        match &element.attributes[k] {
            JsxAttributeItem::Attribute(jsx_attr) => {
                let span = match &jsx_attr.name {
                    JsxAttributeName::Identifier(ident) => ident.span,
                    JsxAttributeName::NamespacedName(ns) => ns.span,
                };
                result.push((attr_full_name(&jsx_attr.name), span));
            },
            JsxAttributeItem::SpreadAttribute(_) => {},
        }
        proof {
            let s = element.attributes@.subrange(0, k + 1);
            assert(s.drop_last() =~= element.attributes@.subrange(0, k as int));
            assert(result@.map_values(|p: (String, Span)| (p.0@, p.1)) =~= all_attributes_spec(s));
        }
        k = k + 1;
    }
    assert(element.attributes@.subrange(0, element.attributes@.len() as int)
        =~= element.attributes@);
    result
}

// ------------------------------------------------------------------
// Children
// ------------------------------------------------------------------

/// The child counts as content: non-blank text, an element, a fragment
/// or an expression container.
pub open spec fn is_content_child(c: JsxChild) -> bool {
    match c {
        JsxChild::Text(t) => trim_spec(t.value@).len() > 0,
        JsxChild::Element(_) | JsxChild::Fragment(_) | JsxChild::ExpressionContainer(_) => true,
        JsxChild::Spread(_) => false,
    }
}

pub open spec fn has_children_spec(children: Seq<JsxChild>) -> bool {
    exists|i: int| 0 <= i < children.len() && is_content_child(#[trigger] children[i])
}

/// Check if the element has non-empty children.
pub fn has_children(children: &[JsxChild]) -> (r: bool)
    ensures
        r == has_children_spec(children@),
{
    let mut k: usize = 0;
    while k < children.len()
        invariant
            k <= children@.len(),
            forall|j: int| 0 <= j < k ==> !is_content_child(#[trigger] children@[j]),
        decreases children@.len() - k,
    {
        let content = match &children[k] {
            JsxChild::Text(text) => {
                let t = trim(text.value.as_str());
                chars_of(t.as_str()).len() > 0
            },
            JsxChild::Element(_) | JsxChild::Fragment(_) | JsxChild::ExpressionContainer(_) => true,
            JsxChild::Spread(_) => false,
        };
        if content {
            assert(is_content_child(children@[k as int]));
            return true;
        }
        k = k + 1;
    }
    false
}

/// All characters of `s` are whitespace.
pub open spec fn all_whitespace(s: Seq<char>) -> bool {
    forall|i: int| 0 <= i < s.len() ==> char_is_whitespace_spec(#[trigger] s[i])
}

pub open spec fn children_blank_spec(children: Seq<JsxChild>) -> bool {
    children.len() == 0 || (children.len() == 1 && match children[0] {
        JsxChild::Text(t) => t.value@.contains('\n') && all_whitespace(t.value@),
        _ => false,
    })
}

fn all_whitespace_str(s: &str) -> (r: bool)
    ensures
        r == all_whitespace(s@),
{
    let v = chars_of(s);
    let mut k: usize = 0;
    while k < v.len()
        invariant
            v@ == s@,
            k <= v@.len(),
            forall|j: int| 0 <= j < k ==> char_is_whitespace_spec(#[trigger] v@[j]),
        decreases v@.len() - k,
    {
        if !char_is_whitespace(v[k]) {
            return false;
        }
        k = k + 1;
    }
    true
}

/// Check if the children are empty or a single whitespace-only text that
/// spans lines.
pub fn children_is_empty_or_multiline_whitespace(children: &[JsxChild]) -> (r: bool)
    ensures
        r == children_blank_spec(children@),
{
    if children.len() == 0 {
        return true;
    }
    if children.len() == 1 {
        if let JsxChild::Text(text) = &children[0] {
            return crate::text::contains_char(text.value.as_str(), '\n') && all_whitespace_str(
                text.value.as_str(),
            );
        }
    }
    false
}

// ------------------------------------------------------------------
// Event handlers, namespaces, React props
// ------------------------------------------------------------------

/// `on` followed by an uppercase letter or `:`.
pub open spec fn is_event_handler_spec(name: Seq<char>) -> bool {
    seq_starts_with(name, "on"@) && name.len() > 2 && (char_is_uppercase_spec(name[2]) || name[2]
        == ':')
}

/// Check if a prop name is an event handler (`on` followed by an uppercase
/// letter or `:`). A name whose third character is an ASCII lowercase
/// letter or digit is not one.
pub fn is_event_handler(name: &str) -> (r: bool)
    ensures
        r == is_event_handler_spec(name@),
        name@.len() > 2 && (('a' <= name@[2] && name@[2] <= 'z') || ('0' <= name@[2] && name@[2] <= '9'))
            ==> !r,
{
    proof {
        reveal_strlit("on");
    }
    let v = chars_of(name);
    if !starts_with(name, "on") || v.len() <= 2 {
        return false;
    }
    let c = v[2];
    char_is_uppercase(c) || c == ':'
}

/// The event-handler name lowercased, with `oncapture:` and `on:` prefixes
/// folded to `on`.
pub open spec fn normalize_event_name_spec(name: Seq<char>) -> Seq<char> {
    replace_spec(
        replace_spec(str_lowercase_spec(name), "oncapture:"@, "on"@),
        "on:"@,
        "on"@,
    )
}

/// Normalize an event handler name for comparison.
pub fn normalize_event_name(name: &str) -> (r: String)
    ensures
        r@ == normalize_event_name_spec(name@),
{
    proof {
        reveal_strlit("oncapture:");
        reveal_strlit("on:");
    }
    let lower = str_to_lowercase(name);
    let a = replace(lower.as_str(), "oncapture:", "on");
    replace(a.as_str(), "on:", "on")
}

/// Solid's namespace prefixes.
pub open spec fn solid_namespaces_spec() -> Seq<Seq<char>> {
    seq!["on"@, "oncapture"@, "use"@, "prop"@, "attr"@, "bool"@, "class"@, "style"@]
}

/// Check if a namespace is valid for Solid.
pub fn is_valid_namespace(ns: &str) -> (r: bool)
    ensures
        r == solid_namespaces_spec().contains(ns@),
{
    let list = ["on", "oncapture", "use", "prop", "attr", "bool", "class", "style"];
    assert(strs_view(list@) =~= solid_namespaces_spec());
    str_in(ns, &list)
}

/// The Solid name of a React-specific prop.
pub open spec fn solid_prop_replacement_spec(p: Seq<char>) -> Option<Seq<char>> {
    if p == "className"@ {
        Some("class"@)
    } else if p == "htmlFor"@ {
        Some("for"@)
    } else {
        None
    }
}

/// Get the Solid equivalent of a React prop, if there is one.
pub fn get_solid_prop_replacement(react_prop: &str) -> (r: Option<&'static str>)
    ensures
        match r {
            Some(s) => solid_prop_replacement_spec(react_prop@) == Some(s@),
            None => solid_prop_replacement_spec(react_prop@) is None,
        },
{
    if str_eq(react_prop, "className") {
        Some("class")
    } else if str_eq(react_prop, "htmlFor") {
        Some("for")
    } else {
        None
    }
}

} // verus!
