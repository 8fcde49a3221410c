//! solid/jsx-no-script-url: disallow `javascript:` URLs in JSX attributes.
use vstd::prelude::*;
use crate::diagnostic::{
    concat_map, diags_view, error_spec, lemma_concat_map_full, lemma_concat_map_step, opt_diag_spec, push_opt,
    with_help_spec, Diagnostic, DiagnosticView,
};
use crate::jsx::{
    Expression, JsxAttributeItem, JsxAttributeName, JsxAttributeValue, JsxOpeningElement,
};
use crate::span::Span;
use crate::text::{
    push_str, seq_starts_with, starts_with, str_in, str_lowercase_spec, str_to_lowercase,
    strs_view, to_owned, trim, trim_spec,
};
use crate::{RuleCategory, RuleMeta};

verus! {

/// jsx-no-script-url rule.
#[derive(Debug, Clone)]
pub struct JsxNoScriptUrl;

impl RuleMeta for JsxNoScriptUrl {
    const NAME: &'static str = "jsx-no-script-url";
    const CATEGORY: RuleCategory = RuleCategory::Correctness;
}

/// Attributes that hold URLs.
pub open spec fn url_attributes_spec() -> Seq<Seq<char>> {
    seq!["href"@, "src"@, "action"@, "formAction"@]
}

/// The string, trimmed and lowercased, starts with `javascript:`.
pub open spec fn is_script_url(v: Seq<char>) -> bool {
    seq_starts_with(str_lowercase_spec(trim_spec(v)), "javascript:"@)
}

/// The static string of an attribute value, when it is a string literal or
/// a container holding one.
pub open spec fn literal_value_spec(value: JsxAttributeValue) -> Option<Seq<char>> {
    match value {
        JsxAttributeValue::StringLiteral(lit) => Some(lit.value@),
        JsxAttributeValue::ExpressionContainer(c) => match c.expression {
            Some(Expression::StringLiteral(lit)) => Some(lit.value@),
            _ => None,
        },
        _ => None,
    }
}

pub open spec fn script_url_message(attr_name: Seq<char>) -> Seq<char> {
    "`javascript:` URLs in the `"@ + attr_name + "` attribute are a security risk."@
}

/// The diagnostic for one attribute item, if any.
pub open spec fn script_url_item_spec(item: JsxAttributeItem) -> Seq<DiagnosticView> {
    match item {
        JsxAttributeItem::Attribute(a) => match a.name {
            JsxAttributeName::Identifier(id) => if url_attributes_spec().contains(id.name@) {
                match a.value {
                    Some(v) => match literal_value_spec(v) {
                        Some(s) => if is_script_url(s) {
                            seq![
                                with_help_spec(
                                    error_spec(
                                        "jsx-no-script-url"@,
                                        a.span,
                                        script_url_message(id.name@),
                                    ),
                                    "Use an event handler like `onClick` instead."@,
                                ),
                            ]
                        } else {
                            Seq::empty()
                        },
                        None => Seq::empty(),
                    },
                    None => Seq::empty(),
                }
            } else {
                Seq::empty()
            },
            _ => Seq::empty(),
        },
        _ => Seq::empty(),
    }
}

/// All diagnostics of the rule for an opening element.
pub open spec fn script_url_spec(opening: JsxOpeningElement) -> Seq<DiagnosticView> {
    concat_map(opening.attributes@, |item: JsxAttributeItem| script_url_item_spec(item))
}

impl JsxNoScriptUrl {
    pub fn new() -> (r: Self) {
        JsxNoScriptUrl
    }

    /// Check a JSX opening element for `javascript:` URLs in `href`, `src`,
    /// `action` and `formAction`.
    pub fn check(&self, opening: &JsxOpeningElement) -> (r: Vec<Diagnostic>)
        ensures
            diags_view(r@) == script_url_spec(*opening),
    {
        let ghost f = |item: JsxAttributeItem| script_url_item_spec(item);
        let mut diagnostics: Vec<Diagnostic> = Vec::new();
        let mut k: usize = 0;
        while k < opening.attributes.len()
            invariant
                f == (|item: JsxAttributeItem| script_url_item_spec(item)),
                k <= opening.attributes@.len(),
                diags_view(diagnostics@) == concat_map(opening.attributes@.subrange(0, k as int), f),
            decreases opening.attributes@.len() - k,
        {
            proof {
                lemma_concat_map_step(opening.attributes@, f, k as int);
            }
            let d = self.check_item(&opening.attributes[k]);
            push_opt(&mut diagnostics, d);
            assert(f(opening.attributes@[k as int]) == script_url_item_spec(
                opening.attributes@[k as int],
            ));
            k = k + 1;
        }
        proof {
            lemma_concat_map_full(opening.attributes@, f);
        }
        diagnostics
    }

    fn check_item(&self, item: &JsxAttributeItem) -> (r: Option<Diagnostic>)
        ensures
            opt_diag_spec(r) == script_url_item_spec(*item),
    {
        proof {
            reveal_strlit("javascript:");
        }
        let jsx_attr = match item {
            JsxAttributeItem::Attribute(a) => a,
            _ => return None,
        };
        let attr_name = match &jsx_attr.name {
            JsxAttributeName::Identifier(ident) => ident.name.as_str(),
            _ => return None,
        };
        let list = ["href", "src", "action", "formAction"];
        assert(strs_view(list@) =~= url_attributes_spec());
        if !str_in(attr_name, &list) {
            return None;
        }
        match &jsx_attr.value {
            Some(v) => self.check_value(v, jsx_attr.span, attr_name),
            None => None,
        }
    }

    /// The diagnostic for an attribute value that is a `javascript:` URL.
    fn check_value(&self, value: &JsxAttributeValue, span: Span, attr_name: &str) -> (r: Option<
        Diagnostic,
    >)
        ensures
            opt_diag_spec(r) == match literal_value_spec(*value) {
                Some(s) => if is_script_url(s) {
                    seq![
                        with_help_spec(
                            error_spec("jsx-no-script-url"@, span, script_url_message(attr_name@)),
                            "Use an event handler like `onClick` instead."@,
                        ),
                    ]
                } else {
                    Seq::empty()
                },
                None => Seq::<DiagnosticView>::empty(),
            },
    {
        proof {
            reveal_strlit("javascript:");
        }
        let lit = match value {
            JsxAttributeValue::StringLiteral(lit) => lit.value.as_str(),
            JsxAttributeValue::ExpressionContainer(container) => match &container.expression {
                Some(Expression::StringLiteral(lit)) => lit.value.as_str(),
                _ => return None,
            },
            _ => return None,
        };
        let trimmed = trim(lit);
        let lower = str_to_lowercase(trimmed.as_str());
        if !starts_with(lower.as_str(), "javascript:") {
            return None;
        }
        let mut message = to_owned("`javascript:` URLs in the `");
        push_str(&mut message, attr_name);
        push_str(&mut message, "` attribute are a security risk.");
        let d = Diagnostic::error(Self::NAME, span, message.as_str()).with_help(
            "Use an event handler like `onClick` instead.",
        );
        Some(d)
    }
}

} // verus!
