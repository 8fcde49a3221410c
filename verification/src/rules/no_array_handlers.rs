//! solid/no-array-handlers: disallow type-unsafe array event handlers.
use vstd::prelude::*;
use crate::diagnostic::{
    concat_map, diags_view, lemma_concat_map_full, lemma_concat_map_step, opt_diag_spec,
    push_opt, warning_spec, Diagnostic, DiagnosticView,
};
use crate::jsx::{
    Expression, JsxAttributeItem, JsxAttributeName, JsxAttributeValue, JsxElementName,
    JsxOpeningElement,
};
use crate::text::{chars_of, is_ascii_alpha, seq_starts_with, starts_with, str_eq};
use crate::utils::{is_dom_element, is_dom_element_spec};
use crate::{RuleCategory, RuleMeta};

verus! {

/// no-array-handlers rule.
#[derive(Debug, Clone)]
pub struct NoArrayHandlers;

impl RuleMeta for NoArrayHandlers {
    const NAME: &'static str = "no-array-handlers";
    const CATEGORY: RuleCategory = RuleCategory::Correctness;
}

/// The element name of a plain (non-namespaced, non-member) element.
pub open spec fn simple_element_name(name: JsxElementName) -> Option<Seq<char>> {
    match name {
        JsxElementName::Identifier(i) => Some(i.name@),
        JsxElementName::IdentifierReference(i) => Some(i.name@),
        _ => None,
    }
}

/// `on` followed by an ASCII letter.
pub open spec fn is_on_letter(name: Seq<char>) -> bool {
    seq_starts_with(name, "on"@) && name.len() > 2 && is_ascii_alpha(name[2])
}

/// The diagnostic for one attribute item.
pub open spec fn array_handler_item_spec(item: JsxAttributeItem) -> Seq<DiagnosticView> {
    match item {
        JsxAttributeItem::Attribute(a) => {
            let is_handler = match a.name {
                JsxAttributeName::Identifier(i) => is_on_letter(i.name@),
                JsxAttributeName::NamespacedName(ns) => ns.namespace.name@ == "on"@,
            };
            if is_handler && match a.value {
                Some(JsxAttributeValue::ExpressionContainer(c)) => match c.expression {
                    Some(Expression::Array(_)) => true,
                    _ => false,
                },
                _ => false,
            } {
                seq![
                    warning_spec(
                        "no-array-handlers"@,
                        a.span,
                        "Passing an array as an event handler is potentially type-unsafe."@,
                    ),
                ]
            } else {
                Seq::empty()
            }
        },
        _ => Seq::empty(),
    }
}

/// All diagnostics of the rule: only DOM elements are checked.
pub open spec fn no_array_handlers_spec(opening: JsxOpeningElement) -> Seq<DiagnosticView> {
    match simple_element_name(opening.name) {
        Some(name) => if is_dom_element_spec(name) {
            concat_map(opening.attributes@, |item: JsxAttributeItem| array_handler_item_spec(item))
        } else {
            Seq::empty()
        },
        None => Seq::empty(),
    }
}

/// `on` followed by an ASCII letter.
pub fn is_on_letter_name(name: &str) -> (r: bool)
    ensures
        r == is_on_letter(name@),
{
    proof {
        reveal_strlit("on");
    }
    let v = chars_of(name);
    if !starts_with(name, "on") || v.len() <= 2 {
        return false;
    }
    let c = v[2];
    ('a' <= c && c <= 'z') || ('A' <= c && c <= 'Z')
}

impl NoArrayHandlers {
    pub fn new() -> (r: Self) {
        NoArrayHandlers
    }

    fn check_item(&self, item: &JsxAttributeItem) -> (r: Option<Diagnostic>)
        ensures
            opt_diag_spec(r) == array_handler_item_spec(*item),
    {
        let jsx_attr = match item {
            JsxAttributeItem::Attribute(a) => a,
            _ => return None,
        };
        let is_event_handler = match &jsx_attr.name {
            JsxAttributeName::Identifier(ident) => is_on_letter_name(ident.name.as_str()),
            JsxAttributeName::NamespacedName(ns) => str_eq(ns.namespace.name.as_str(), "on"),
        };
        if !is_event_handler {
            return None;
        }
        if let Some(JsxAttributeValue::ExpressionContainer(container)) = &jsx_attr.value {
            if let Some(Expression::Array(_)) = &container.expression {
                return Some(
                    Diagnostic::warning(
                        Self::NAME,
                        jsx_attr.span,
                        "Passing an array as an event handler is potentially type-unsafe.",
                    ),
                );
            }
        }
        None
    }

    /// Check a JSX opening element for array event handlers.
    pub fn check(&self, opening: &JsxOpeningElement) -> (r: Vec<Diagnostic>)
        ensures
            diags_view(r@) == no_array_handlers_spec(*opening),
    {
        let mut diagnostics: Vec<Diagnostic> = Vec::new();
        assert(diags_view(diagnostics@) =~= Seq::<DiagnosticView>::empty());
        let element_name = match &opening.name {
            JsxElementName::Identifier(ident) => ident.name.as_str(),
            JsxElementName::IdentifierReference(ident) => ident.name.as_str(),
            _ => return diagnostics,
        };
        if !is_dom_element(element_name) {
            return diagnostics;
        }
        let ghost f = |item: JsxAttributeItem| array_handler_item_spec(item);
        let mut k: usize = 0;
        while k < opening.attributes.len()
            invariant
                f == (|item: JsxAttributeItem| array_handler_item_spec(item)),
                k <= opening.attributes@.len(),
                diags_view(diagnostics@) == concat_map(opening.attributes@.subrange(0, k as int), f),
            decreases opening.attributes@.len() - k,
        {
            proof {
                lemma_concat_map_step(opening.attributes@, f, k as int);
            }
            let d = self.check_item(&opening.attributes[k]);
            push_opt(&mut diagnostics, d);
            k = k + 1;
        }
        proof {
            lemma_concat_map_full(opening.attributes@, f);
        }
        diagnostics
    }
}

} // verus!
