//! solid/no-innerhtml: disallow the innerHTML attribute, which can lead to
//! security vulnerabilities.
use vstd::prelude::*;
use crate::diagnostic::{
    concat_map, diags_view, fix_msg_spec, lemma_concat_map_full, lemma_concat_map_step,
    opt_diag_spec, push_opt, warning_spec, with_fix_spec, Diagnostic, DiagnosticView, Fix,
};
use crate::jsx::{
    Expression, JsxAttributeItem, JsxAttributeName, JsxAttributeValue, JsxChild, JsxElement,
    ObjectPropertyKind, PropertyKey,
};
use crate::span::Span;
use crate::text::{chars_of, contains_char, str_eq, to_owned, trim, trim_spec};
use crate::utils::{has_children, has_children_spec};
use crate::{RuleCategory, RuleMeta};

verus! {

/// no-innerhtml rule.
#[derive(Debug, Clone)]
pub struct NoInnerhtml {
    /// If the innerHTML value is guaranteed to be a static HTML string,
    /// allow it.
    pub allow_static: bool,
}

impl Default for NoInnerhtml {
    fn default() -> (r: Self)
        ensures
            r.allow_static,
    {
        NoInnerhtml { allow_static: true }
    }
}

impl RuleMeta for NoInnerhtml {
    const NAME: &'static str = "no-innerhtml";
    const CATEGORY: RuleCategory = RuleCategory::Correctness;
}

/// The trimmed string is non-empty and holds both `<` and `>`.
pub open spec fn looks_like_html_spec(s: Seq<char>) -> bool {
    let t = trim_spec(s);
    t.len() > 0 && t.contains('<') && t.contains('>')
}

/// Simple check if a string looks like HTML.
pub fn looks_like_html(s: &str) -> (r: bool)
    ensures
        r == looks_like_html_spec(s@),
{
    let trimmed = trim(s);
    if chars_of(trimmed.as_str()).len() == 0 {
        return false;
    }
    contains_char(trimmed.as_str(), '<') && contains_char(trimmed.as_str(), '>')
}

/// The static string of an attribute value: a string literal, or a
/// container holding a string literal or a template literal without
/// expressions (its first raw part).
pub open spec fn static_string_spec(value: Option<JsxAttributeValue>) -> Option<Seq<char>> {
    match value {
        Some(JsxAttributeValue::StringLiteral(lit)) => Some(lit.value@),
        Some(JsxAttributeValue::ExpressionContainer(c)) => match c.expression {
            Some(Expression::StringLiteral(lit)) => Some(lit.value@),
            Some(Expression::TemplateLiteral(t)) => if t.expression_count == 0 {
                if t.quasis@.len() > 0 {
                    Some(t.quasis@[0]@)
                } else {
                    None
                }
            } else {
                None
            },
            _ => None,
        },
        _ => None,
    }
}

fn get_static_string_value(value: &Option<JsxAttributeValue>) -> (r: Option<String>)
    ensures
        match r {
            Some(s) => static_string_spec(*value) == Some(s@),
            None => static_string_spec(*value) is None,
        },
{
    match value {
        Some(JsxAttributeValue::StringLiteral(lit)) => Some(to_owned(lit.value.as_str())),
        Some(JsxAttributeValue::ExpressionContainer(container)) => match &container.expression {
            Some(Expression::StringLiteral(lit)) => Some(to_owned(lit.value.as_str())),
            Some(Expression::TemplateLiteral(tpl)) => {
                if tpl.expression_count == 0 && tpl.quasis.len() > 0 {
                    Some(to_owned(tpl.quasis[0].as_str()))
                } else {
                    None
                }
            },
            _ => None,
        },
        _ => None,
    }
}

pub open spec fn dangerous_message() -> Seq<char> {
    "The innerHTML attribute is dangerous; passing unsanitized input can lead to security vulnerabilities."@
}

pub open spec fn unsupported_message() -> Seq<char> {
    "The dangerouslySetInnerHTML prop is not supported; use innerHTML instead."@
}

/// The diagnostic for `dangerouslySetInnerHTML`: with fixes when its value
/// is `{{ __html: value }}`.
pub open spec fn dangerously_set_spec(attr_span: Span, value: Option<JsxAttributeValue>) -> DiagnosticView {
    let plain = warning_spec("no-innerhtml"@, attr_span, unsupported_message());
    match value {
        Some(JsxAttributeValue::ExpressionContainer(c)) => match c.expression {
            Some(Expression::Object(obj)) => if obj.properties@.len() == 1 {
                match obj.properties@[0] {
                    ObjectPropertyKind::Property(prop) => match prop.key {
                        PropertyKey::StaticIdentifier(key) => if key.name@ == "__html"@ {
                            let vs = prop.value.spec_span();
                            with_fix_spec(
                                with_fix_spec(
                                    plain,
                                    fix_msg_spec(
                                        Span { start: attr_span.start, end: vs.start },
                                        "innerHTML={"@,
                                        "Replace dangerouslySetInnerHTML with innerHTML"@,
                                    ),
                                ),
                                fix_msg_spec(
                                    Span { start: vs.end, end: attr_span.end },
                                    "}"@,
                                    Seq::empty(),
                                ),
                            )
                        } else {
                            plain
                        },
                        _ => plain,
                    },
                    _ => plain,
                }
            } else {
                plain
            },
            _ => plain,
        },
        _ => plain,
    }
}

/// The diagnostic for one attribute item of an element, if any.
pub open spec fn innerhtml_item_spec(
    allow_static: bool,
    element: JsxElement,
    item: JsxAttributeItem,
) -> Seq<DiagnosticView> {
    match item {
        JsxAttributeItem::Attribute(a) => match a.name {
            JsxAttributeName::Identifier(id) => if id.name@ == "dangerouslySetInnerHTML"@ {
                seq![dangerously_set_spec(a.span, a.value)]
            } else if id.name@ != "innerHTML"@ {
                Seq::empty()
            } else if allow_static {
                match static_string_spec(a.value) {
                    Some(s) => if looks_like_html_spec(s) {
                        if has_children_spec(element.children@) {
                            seq![
                                warning_spec(
                                    "no-innerhtml"@,
                                    element.span,
                                    "The innerHTML attribute should not be used on an element with child elements; they will be overwritten."@,
                                ),
                            ]
                        } else {
                            Seq::empty()
                        }
                    } else {
                        seq![
                            with_fix_spec(
                                warning_spec(
                                    "no-innerhtml"@,
                                    a.span,
                                    "The string passed to innerHTML does not appear to be valid HTML."@,
                                ),
                                fix_msg_spec(
                                    id.span,
                                    "innerText"@,
                                    "Use innerText for text content"@,
                                ),
                            ),
                        ]
                    },
                    None => seq![warning_spec("no-innerhtml"@, a.span, dangerous_message())],
                }
            } else {
                seq![warning_spec("no-innerhtml"@, a.span, dangerous_message())]
            },
            _ => Seq::empty(),
        },
        _ => Seq::empty(),
    }
}

/// All diagnostics of the rule for an element.
pub open spec fn no_innerhtml_spec(allow_static: bool, element: JsxElement) -> Seq<DiagnosticView> {
    concat_map(
        element.opening_element.attributes@,
        |item: JsxAttributeItem| innerhtml_item_spec(allow_static, element, item),
    )
}

impl NoInnerhtml {
    pub fn new() -> (r: Self)
        ensures
            r.allow_static,
    {
        NoInnerhtml::default()
    }

    pub fn with_allow_static(self, allow_static: bool) -> (r: Self)
        ensures
            r.allow_static == allow_static,
    {
        NoInnerhtml { allow_static }
    }

    fn handle_dangerously_set_inner_html(
        &self,
        attr_span: Span,
        value: &Option<JsxAttributeValue>,
    ) -> (d: Diagnostic)
        ensures
            d@ == dangerously_set_spec(attr_span, *value),
    {
        proof {
            reveal_strlit("");
            assert(""@ =~= Seq::<char>::empty());
        }
        if let Some(JsxAttributeValue::ExpressionContainer(container)) = value {
            if let Some(Expression::Object(obj)) = &container.expression {
                if obj.properties.len() == 1 {
                    if let ObjectPropertyKind::Property(prop) = &obj.properties[0] {
                        if let PropertyKey::StaticIdentifier(key) = &prop.key {
                            if str_eq(key.name.as_str(), "__html") {
                                let vs = prop.value.span();
                                return Diagnostic::warning(
                                    Self::NAME,
                                    attr_span,
                                    "The dangerouslySetInnerHTML prop is not supported; use innerHTML instead.",
                                ).with_fix(
                                    Fix::new(Span::new(attr_span.start, vs.start), "innerHTML={")
                                        .with_message(
                                        "Replace dangerouslySetInnerHTML with innerHTML",
                                    ),
                                ).with_fix(
                                    Fix::new(Span::new(vs.end, attr_span.end), "}").with_message(""),
                                );
                            }
                        }
                    }
                }
            }
        }
        Diagnostic::warning(
            Self::NAME,
            attr_span,
            "The dangerouslySetInnerHTML prop is not supported; use innerHTML instead.",
        )
    }

    fn check_item(&self, element: &JsxElement, item: &JsxAttributeItem) -> (r: Option<Diagnostic>)
        ensures
            opt_diag_spec(r) == innerhtml_item_spec(self.allow_static, *element, *item),
    {
        let jsx_attr = match item {
            JsxAttributeItem::Attribute(a) => a,
            _ => return None,
        };
        let ident = match &jsx_attr.name {
            JsxAttributeName::Identifier(ident) => ident,
            JsxAttributeName::NamespacedName(_) => return None,
        };
        let prop_name = ident.name.as_str();
        if str_eq(prop_name, "dangerouslySetInnerHTML") {
            return Some(self.handle_dangerously_set_inner_html(jsx_attr.span, &jsx_attr.value));
        }
        if !str_eq(prop_name, "innerHTML") {
            return None;
        }
        if self.allow_static {
            if let Some(static_value) = get_static_string_value(&jsx_attr.value) {
                if looks_like_html(static_value.as_str()) {
                    if has_children(element.children.as_slice()) {
                        Some(
                            Diagnostic::warning(
                                Self::NAME,
                                element.span,
                                "The innerHTML attribute should not be used on an element with child elements; they will be overwritten.",
                            ),
                        )
                    } else {
                        None
                    }
                } else {
                    Some(
                        Diagnostic::warning(
                            Self::NAME,
                            jsx_attr.span,
                            "The string passed to innerHTML does not appear to be valid HTML.",
                        ).with_fix(
                            Fix::new(ident.span, "innerText").with_message(
                                "Use innerText for text content",
                            ),
                        ),
                    )
                }
            } else {
                Some(
                    Diagnostic::warning(
                        Self::NAME,
                        jsx_attr.span,
                        "The innerHTML attribute is dangerous; passing unsanitized input can lead to security vulnerabilities.",
                    ),
                )
            }
        } else {
            Some(
                Diagnostic::warning(
                    Self::NAME,
                    jsx_attr.span,
                    "The innerHTML attribute is dangerous; passing unsanitized input can lead to security vulnerabilities.",
                ),
            )
        }
    }

    /// Check a JSX element for innerHTML usage.
    pub fn check(&self, element: &JsxElement) -> (r: Vec<Diagnostic>)
        ensures
            diags_view(r@) == no_innerhtml_spec(self.allow_static, *element),
    {
        let ghost attrs = element.opening_element.attributes@;
        let ghost f = |item: JsxAttributeItem| innerhtml_item_spec(self.allow_static, *element, item);
        let mut diagnostics: Vec<Diagnostic> = Vec::new();
        let mut k: usize = 0;
        while k < element.opening_element.attributes.len()
            invariant
                attrs == element.opening_element.attributes@,
                f == (|item: JsxAttributeItem|
                    innerhtml_item_spec(self.allow_static, *element, item)),
                k <= attrs.len(),
                diags_view(diagnostics@) == concat_map(attrs.subrange(0, k as int), f),
            decreases attrs.len() - k,
        {
            proof {
                lemma_concat_map_step(attrs, f, k as int);
            }
            let d = self.check_item(element, &element.opening_element.attributes[k]);
            push_opt(&mut diagnostics, d);
            k = k + 1;
        }
        proof {
            lemma_concat_map_full(attrs, f);
        }
        diagnostics
    }
}

} // verus!
