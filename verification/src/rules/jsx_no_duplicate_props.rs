//! solid/jsx-no-duplicate-props: disallow passing the same prop twice, and
//! conflicting sources of element content.
use vstd::prelude::*;
use crate::diagnostic::{
    diags_view, warning_spec, with_help_spec, with_label_spec, Diagnostic, DiagnosticView,
};
use crate::jsx::{JsxAttributeItem, JsxAttributeName, JsxChild, JsxOpeningElement};
use crate::span::Span;
use crate::text::{
    join, join_spec, push_str, replace, replace_spec, str_eq, str_lowercase_spec,
    str_to_lowercase, to_owned, views,
};
use crate::utils::{
    attr_full_name, attr_full_name_spec, attr_name_span_spec, has_children, has_children_spec,
    is_event_handler, is_event_handler_spec,
};
use crate::{RuleCategory, RuleMeta};

verus! {

/// Configuration for jsx-no-duplicate-props.
#[derive(Debug, Clone)]
pub struct JsxNoDuplicatePropsConfig {
    /// Consider two prop names differing only by case to be the same.
    pub ignore_case: bool,
}

impl Default for JsxNoDuplicatePropsConfig {
    fn default() -> (r: Self)
        ensures
            !r.ignore_case,
    {
        JsxNoDuplicatePropsConfig { ignore_case: false }
    }
}

/// jsx-no-duplicate-props rule.
#[derive(Debug, Clone)]
pub struct JsxNoDuplicateProps {
    pub config: JsxNoDuplicatePropsConfig,
}

impl RuleMeta for JsxNoDuplicateProps {
    const NAME: &'static str = "jsx-no-duplicate-props";
    const CATEGORY: RuleCategory = RuleCategory::Correctness;
}

/// The name under which two props count as the same: event handlers (and,
/// with `ignore_case`, all props) are lowercased with `oncapture:`/`on:`
/// folded to `on` and `attr:`/`prop:` dropped.
pub open spec fn normalized_prop_name(name: Seq<char>, ignore_case: bool) -> Seq<char> {
    if ignore_case || is_event_handler_spec(name) {
        replace_spec(
            replace_spec(
                replace_spec(
                    replace_spec(str_lowercase_spec(name), "oncapture:"@, "on"@),
                    "on:"@,
                    "on"@,
                ),
                "attr:"@,
                Seq::empty(),
            ),
            "prop:"@,
            Seq::empty(),
        )
    } else {
        name
    }
}

/// The span recorded for `key` in an association list (first entry).
pub open spec fn assoc_get(list: Seq<(Seq<char>, Span)>, key: Seq<char>) -> Option<Span>
    decreases list.len(),
{
    if list.len() == 0 {
        None
    } else if list[0].0 == key {
        Some(list[0].1)
    } else {
        assoc_get(list.drop_first(), key)
    }
}

/// The diagnostic for a duplicate of a prop first seen at `first`.
pub open spec fn duplicate_diag_spec(
    name: Seq<char>,
    normalized: Seq<char>,
    span: Span,
    first: Span,
) -> DiagnosticView {
    let d = if normalized == "class"@ {
        with_help_spec(
            warning_spec(
                "jsx-no-duplicate-props"@,
                span,
                "Duplicate `class` props are not allowed."@,
            ),
            "While it might seem to work, it can break unexpectedly. Use `classList` instead."@,
        )
    } else {
        with_help_spec(
            warning_spec(
                "jsx-no-duplicate-props"@,
                span,
                "No duplicate props allowed. The prop \""@ + name + "\" is duplicated."@,
            ),
            "Remove one of the props, or rename them so each prop is distinct."@,
        )
    };
    with_label_spec(d, first, "first occurrence"@)
}

/// Scanning the attributes in order: the props seen (normalized name and
/// first span) and the duplicate diagnostics so far.
pub open spec fn duplicate_scan(attrs: Seq<JsxAttributeItem>, ignore_case: bool) -> (
    Seq<(Seq<char>, Span)>,
    Seq<DiagnosticView>,
)
    decreases attrs.len(),
{
    if attrs.len() == 0 {
        (Seq::empty(), Seq::empty())
    } else {
        let (seen, diags) = duplicate_scan(attrs.drop_last(), ignore_case);
        match attrs.last() {
            JsxAttributeItem::Attribute(a) => {
                let name = attr_full_name_spec(a.name);
                let span = attr_name_span_spec(a.name);
                let normalized = normalized_prop_name(name, ignore_case);
                match assoc_get(seen, normalized) {
                    Some(first) => (
                        seen,
                        diags.push(duplicate_diag_spec(name, normalized, span, first)),
                    ),
                    None => (seen.push((normalized, span)), diags),
                }
            },
            JsxAttributeItem::SpreadAttribute(_) => (seen, diags),
        }
    }
}

/// The sources of element content in use, as named in messages.
pub open spec fn content_sources_spec(seen: Seq<(Seq<char>, Span)>, children: Seq<JsxChild>) -> Seq<
    Seq<char>,
> {
    (if assoc_get(seen, "children"@) is Some {
        seq!["`props.children`"@]
    } else {
        Seq::empty()
    }) + (if has_children_spec(children) {
        seq!["JSX children"@]
    } else {
        Seq::empty()
    }) + (if assoc_get(seen, "innerHTML"@) is Some || assoc_get(seen, "innerhtml"@) is Some {
        seq!["`props.innerHTML`"@]
    } else {
        Seq::empty()
    }) + (if assoc_get(seen, "textContent"@) is Some || assoc_get(seen, "textcontent"@) is Some {
        seq!["`props.textContent`"@]
    } else {
        Seq::empty()
    })
}

/// All diagnostics of the rule for an element.
pub open spec fn duplicate_props_spec(
    opening: JsxOpeningElement,
    children: Seq<JsxChild>,
    ignore_case: bool,
) -> Seq<DiagnosticView> {
    let (seen, diags) = duplicate_scan(opening.attributes@, ignore_case);
    let used = content_sources_spec(seen, children);
    if used.len() > 1 {
        diags.push(
            with_help_spec(
                warning_spec(
                    "jsx-no-duplicate-props"@,
                    opening.span,
                    "Using "@ + join_spec(used, ", "@) + " at the same time is not allowed."@,
                ),
                "Choose one method for setting element content."@,
            ),
        )
    } else {
        diags
    }
}

pub open spec fn props_view(v: Seq<(String, Span)>) -> Seq<(Seq<char>, Span)> {
    v.map_values(|p: (String, Span)| (p.0@, p.1))
}

fn lookup(props: &Vec<(String, Span)>, key: &str) -> (r: Option<Span>)
    ensures
        r == assoc_get(props_view(props@), key@),
{
    let ghost pv = props_view(props@);
    let mut k: usize = 0;
    assert(pv.subrange(0, pv.len() as int) =~= pv);
    while k < props.len()
        invariant
            pv == props_view(props@),
            k <= props@.len(),
            assoc_get(pv, key@) == assoc_get(pv.subrange(k as int, pv.len() as int), key@),
        decreases props@.len() - k,
    {
        let ghost rest = pv.subrange(k as int, pv.len() as int);
        assert(rest[0] == pv[k as int]);
        assert(rest.drop_first() =~= pv.subrange(k + 1, pv.len() as int));
        if str_eq(props[k].0.as_str(), key) {
            return Some(props[k].1);
        }
        k = k + 1;
    }
    None
}

fn normalize(name: &str, ignore_case: bool) -> (r: String)
    ensures
        r@ == normalized_prop_name(name@, ignore_case),
{
    proof {
        reveal_strlit("oncapture:");
        reveal_strlit("on:");
        reveal_strlit("attr:");
        reveal_strlit("prop:");
        reveal_strlit("");
        assert(""@ =~= Seq::<char>::empty());
    }
    if ignore_case || is_event_handler(name) {
        let lower = str_to_lowercase(name);
        let a = replace(lower.as_str(), "oncapture:", "on");
        let b = replace(a.as_str(), "on:", "on");
        let c = replace(b.as_str(), "attr:", "");
        replace(c.as_str(), "prop:", "")
    } else {
        to_owned(name)
    }
}

impl JsxNoDuplicateProps {
    pub fn new() -> (r: Self)
        ensures
            !r.config.ignore_case,
    {
        JsxNoDuplicateProps { config: JsxNoDuplicatePropsConfig::default() }
    }

    pub fn with_config(config: JsxNoDuplicatePropsConfig) -> (r: Self)
        ensures
            r.config == config,
    {
        JsxNoDuplicateProps { config }
    }

    /// Check a JSX element for duplicate props and conflicting content.
    pub fn check(&self, opening: &JsxOpeningElement, children: &[JsxChild]) -> (r: Vec<
        Diagnostic,
    >)
        ensures
            diags_view(r@) == duplicate_props_spec(*opening, children@, self.config.ignore_case),
    {
        let ignore_case = self.config.ignore_case;
        let ghost attrs = opening.attributes@;
        let mut diagnostics: Vec<Diagnostic> = Vec::new();
        let mut props: Vec<(String, Span)> = Vec::new();
        let mut k: usize = 0;
        while k < opening.attributes.len()
            invariant
                attrs == opening.attributes@,
                ignore_case == self.config.ignore_case,
                k <= attrs.len(),
                (props_view(props@), diags_view(diagnostics@)) == duplicate_scan(
                    attrs.subrange(0, k as int),
                    ignore_case,
                ),
            decreases attrs.len() - k,
        {
            proof {
                let p = attrs.subrange(0, k + 1);
                assert(p.drop_last() =~= attrs.subrange(0, k as int));
                assert(p.last() == attrs[k as int]);
            }
            if let JsxAttributeItem::Attribute(jsx_attr) = &opening.attributes[k] {
                let name = attr_full_name(&jsx_attr.name);
                let span = match &jsx_attr.name {
                    JsxAttributeName::Identifier(ident) => ident.span,
                    JsxAttributeName::NamespacedName(ns) => ns.span,
                };
                let normalized = normalize(name.as_str(), ignore_case);
                match lookup(&props, normalized.as_str()) {
                    Some(first_span) => {
                        let d = if str_eq(normalized.as_str(), "class") {
                            Diagnostic::warning(
                                Self::NAME,
                                span,
                                "Duplicate `class` props are not allowed.",
                            ).with_help(
                                "While it might seem to work, it can break unexpectedly. Use `classList` instead.",
                            )
                        } else {
                            let mut message = to_owned(
                                "No duplicate props allowed. The prop \"",
                            );
                            push_str(&mut message, name.as_str());
                            push_str(&mut message, "\" is duplicated.");
                            Diagnostic::warning(Self::NAME, span, message.as_str()).with_help(
                                "Remove one of the props, or rename them so each prop is distinct.",
                            )
                        };
                        let d = d.with_label(first_span, "first occurrence");
                        let ghost before = diagnostics@;
                        diagnostics.push(d);
                        assert(diags_view(diagnostics@) =~= diags_view(before).push(d@));
                    },
                    None => {
                        let ghost before = props@;
                        props.push((normalized, span));
                        assert(props_view(props@) =~= props_view(before).push(
                            (normalized@, span),
                        ));
                    },
                }
            }
            k = k + 1;
        }
        assert(attrs.subrange(0, attrs.len() as int) =~= attrs);
        let has_children_prop = lookup(&props, "children").is_some();
        let has_jsx_children = has_children(children);
        let has_inner_html = lookup(&props, "innerHTML").is_some() || lookup(
            &props,
            "innerhtml",
        ).is_some();
        let has_text_content = lookup(&props, "textContent").is_some() || lookup(
            &props,
            "textcontent",
        ).is_some();
        let mut used: Vec<String> = Vec::new();
        if has_children_prop {
            used.push(to_owned("`props.children`"));
        }
        if has_jsx_children {
            used.push(to_owned("JSX children"));
        }
        if has_inner_html {
            used.push(to_owned("`props.innerHTML`"));
        }
        if has_text_content {
            used.push(to_owned("`props.textContent`"));
        }
        assert(views(used@) =~= content_sources_spec(props_view(props@), children@));
        if used.len() > 1 {
            let mut message = to_owned("Using ");
            let joined = join(used.as_slice(), ", ");
            push_str(&mut message, joined.as_str());
            push_str(&mut message, " at the same time is not allowed.");
            let d = Diagnostic::warning(Self::NAME, opening.span, message.as_str()).with_help(
                "Choose one method for setting element content.",
            );
            let ghost before = diagnostics@;
            diagnostics.push(d);
            assert(diags_view(diagnostics@) =~= diags_view(before).push(d@));
        }
        diagnostics
    }
}

} // verus!
