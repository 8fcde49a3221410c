//! solid/no-unknown-namespaces: only Solid's namespaced attribute names.
use vstd::prelude::*;
use crate::diagnostic::{
    concat_map, diags_view, fix_msg_spec, lemma_concat_map_full, lemma_concat_map_step,
    opt_diag_spec, push_opt, warning_spec, with_fix_spec, Diagnostic, DiagnosticView, Fix,
};
use crate::jsx::{JsxAttributeItem, JsxAttributeName, JsxOpeningElement};
use crate::text::{push_str, str_in, string_in, strs_view, to_owned, views};
use crate::utils::{is_component, is_component_spec};
use crate::{RuleCategory, RuleMeta};

verus! {

/// no-unknown-namespaces rule.
#[derive(Debug, Clone)]
pub struct NoUnknownNamespaces {
    /// Additional namespace names to allow.
    pub allowed_namespaces: Vec<String>,
}

impl RuleMeta for NoUnknownNamespaces {
    const NAME: &'static str = "no-unknown-namespaces";
    const CATEGORY: RuleCategory = RuleCategory::Correctness;
}

/// Solid's namespace prefixes.
pub open spec fn known_namespaces_spec() -> Seq<Seq<char>> {
    seq!["on"@, "oncapture"@, "use"@, "prop"@, "attr"@, "bool"@]
}

/// Style namespaces: valid but confusing.
pub open spec fn style_namespaces_spec() -> Seq<Seq<char>> {
    seq!["style"@, "class"@]
}

/// Other XML namespaces.
pub open spec fn other_namespaces_spec() -> Seq<Seq<char>> {
    seq!["xmlns"@, "xlink"@]
}

/// The list of known prefixes as shown in messages.
pub open spec fn known_list_text() -> Seq<char> {
    "'on:', 'oncapture:', 'use:', 'prop:', 'attr:', 'bool:'"@
}

/// The diagnostic for one attribute item, if any.
pub open spec fn unknown_namespace_item_spec(
    allowed: Seq<Seq<char>>,
    is_component_element: bool,
    item: JsxAttributeItem,
) -> Seq<DiagnosticView> {
    match item {
        JsxAttributeItem::Attribute(a) => match a.name {
            JsxAttributeName::NamespacedName(ns) => {
                let namespace = ns.namespace.name@;
                let name = ns.name.name@;
                if is_component_element {
                    seq![
                        with_fix_spec(
                            warning_spec(
                                "no-unknown-namespaces"@,
                                ns.span,
                                "Namespaced props have no effect on components."@,
                            ),
                            fix_msg_spec(
                                ns.span,
                                name,
                                "Replace "@ + namespace + ":"@ + name + " with "@ + name,
                            ),
                        ),
                    ]
                } else if known_namespaces_spec().contains(namespace)
                    || other_namespaces_spec().contains(namespace) || allowed.contains(namespace) {
                    Seq::empty()
                } else if style_namespaces_spec().contains(namespace) {
                    seq![
                        warning_spec(
                            "no-unknown-namespaces"@,
                            ns.span,
                            "Using the '"@ + namespace
                                + ":' special prefix is potentially confusing, prefer the '"@
                                + namespace + "' prop instead."@,
                        ),
                    ]
                } else {
                    seq![
                        warning_spec(
                            "no-unknown-namespaces"@,
                            ns.span,
                            "'"@ + namespace
                                + ":' is not one of Solid's special prefixes for JSX attributes ("@
                                + known_list_text() + ")."@,
                        ),
                    ]
                }
            },
            _ => Seq::empty(),
        },
        _ => Seq::empty(),
    }
}

/// All diagnostics of the rule for an opening element.
pub open spec fn unknown_namespaces_spec(allowed: Seq<Seq<char>>, opening: JsxOpeningElement) -> Seq<
    DiagnosticView,
> {
    concat_map(
        opening.attributes@,
        |item: JsxAttributeItem|
            unknown_namespace_item_spec(allowed, is_component_spec(opening.name), item),
    )
}

impl NoUnknownNamespaces {
    pub fn new() -> (r: Self)
        ensures
            r.allowed_namespaces@.len() == 0,
    {
        NoUnknownNamespaces { allowed_namespaces: Vec::new() }
    }

    pub fn with_allowed_namespaces(self, namespaces: Vec<String>) -> (r: Self)
        ensures
            r.allowed_namespaces@ == namespaces@,
    {
        NoUnknownNamespaces { allowed_namespaces: namespaces }
    }

    fn check_item(&self, is_component_element: bool, item: &JsxAttributeItem) -> (r: Option<
        Diagnostic,
    >)
        ensures
            opt_diag_spec(r) == unknown_namespace_item_spec(
                views(self.allowed_namespaces@),
                is_component_element,
                *item,
            ),
    {
        let jsx_attr = match item {
            JsxAttributeItem::Attribute(a) => a,
            _ => return None,
        };
        let ns = match &jsx_attr.name {
            JsxAttributeName::NamespacedName(ns) => ns,
            _ => return None,
        };
        let namespace = ns.namespace.name.as_str();
        let name = ns.name.name.as_str();
        if is_component_element {
            let mut fix_message = to_owned("Replace ");
            push_str(&mut fix_message, namespace);
            push_str(&mut fix_message, ":");
            push_str(&mut fix_message, name);
            push_str(&mut fix_message, " with ");
            push_str(&mut fix_message, name);
            return Some(
                Diagnostic::warning(
                    Self::NAME,
                    ns.span,
                    "Namespaced props have no effect on components.",
                ).with_fix(Fix::new(ns.span, name).with_message(fix_message.as_str())),
            );
        }
        let known = ["on", "oncapture", "use", "prop", "attr", "bool"];
        let other = ["xmlns", "xlink"];
        let style = ["style", "class"];
        assert(strs_view(known@) =~= known_namespaces_spec());
        assert(strs_view(other@) =~= other_namespaces_spec());
        assert(strs_view(style@) =~= style_namespaces_spec());
        let is_known = str_in(namespace, &known) || str_in(namespace, &other) || string_in(
            namespace,
            self.allowed_namespaces.as_slice(),
        );
        if is_known {
            return None;
        }
        if str_in(namespace, &style) {
            let mut message = to_owned("Using the '");
            push_str(&mut message, namespace);
            push_str(&mut message, ":' special prefix is potentially confusing, prefer the '");
            push_str(&mut message, namespace);
            push_str(&mut message, "' prop instead.");
            Some(Diagnostic::warning(Self::NAME, ns.span, message.as_str()))
        } else {
            let mut message = to_owned("'");
            push_str(&mut message, namespace);
            push_str(
                &mut message,
                ":' is not one of Solid's special prefixes for JSX attributes (",
            );
            push_str(&mut message, "'on:', 'oncapture:', 'use:', 'prop:', 'attr:', 'bool:'");
            push_str(&mut message, ").");
            Some(Diagnostic::warning(Self::NAME, ns.span, message.as_str()))
        }
    }

    /// Check a JSX opening element for unknown namespaces.
    pub fn check(&self, opening: &JsxOpeningElement) -> (r: Vec<Diagnostic>)
        ensures
            diags_view(r@) == unknown_namespaces_spec(views(self.allowed_namespaces@), *opening),
    {
        let is_component_element = is_component(opening);
        let ghost f = |item: JsxAttributeItem|
            unknown_namespace_item_spec(
                views(self.allowed_namespaces@),
                is_component_spec(opening.name),
                item,
            );
        let mut diagnostics: Vec<Diagnostic> = Vec::new();
        let mut k: usize = 0;
        while k < opening.attributes.len()
            invariant
                f == (|item: JsxAttributeItem|
                    unknown_namespace_item_spec(
                        views(self.allowed_namespaces@),
                        is_component_spec(opening.name),
                        item,
                    )),
                is_component_element == is_component_spec(opening.name),
                k <= opening.attributes@.len(),
                diags_view(diagnostics@) == concat_map(opening.attributes@.subrange(0, k as int), f),
            decreases opening.attributes@.len() - k,
        {
            proof {
                lemma_concat_map_step(opening.attributes@, f, k as int);
            }
            let d = self.check_item(is_component_element, &opening.attributes[k]);
            push_opt(&mut diagnostics, d);
            k = k + 1;
        }
        proof {
            lemma_concat_map_full(opening.attributes@, f);
        }
        diagnostics
    }
}

} // verus!
