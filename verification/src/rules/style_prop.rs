//! solid/style-prop: CSS properties in the `style` prop must be valid and
//! kebab-cased; the prop should be an object.
use vstd::prelude::*;
use crate::css::{
    is_length_percentage_property, is_length_percentage_spec, is_valid_css_property,
    common_css_spec, parse_style_string, parse_style_string_spec, to_kebab_case,
    to_kebab_case_spec,
};
use crate::diagnostic::{
    concat_map, diags_view, extend_diags, fix_msg_spec, lemma_concat_map_full,
    lemma_concat_map_step, warning_spec, with_fix_spec, Diagnostic, DiagnosticView, Fix,
};
use crate::jsx::{
    Expression, JsxAttributeItem, JsxAttributeName, JsxAttributeValue, JsxOpeningElement,
    ObjectPropertyKind, PropertyKey,
};
use crate::span::Span;
use crate::text::{push_str, seq_starts_with, starts_with, str_eq, string_in, to_owned, views};
use crate::{RuleCategory, RuleMeta};

verus! {

/// style-prop rule.
#[derive(Debug, Clone)]
pub struct StyleProp {
    /// Prop names to treat as CSS style objects.
    pub style_props: Vec<String>,
    /// If true, allow string style values.
    pub allow_string: bool,
}

impl RuleMeta for StyleProp {
    const NAME: &'static str = "style-prop";
    const CATEGORY: RuleCategory = RuleCategory::Correctness;
}

impl Default for StyleProp {
    fn default() -> (r: Self)
        ensures
            views(r.style_props@) == seq!["style"@],
            !r.allow_string,
    {
        let mut style_props: Vec<String> = Vec::new();
        style_props.push(to_owned("style"));
        assert(views(style_props@) =~= seq!["style"@]);
        StyleProp { style_props, allow_string: false }
    }
}

pub open spec fn string_style_message() -> Seq<char> {
    "Use an object for the style prop instead of a string."@
}

pub open spec fn px_message() -> Seq<char> {
    "This CSS property value should be a string with a unit; Solid does not automatically append a \"px\" unit."@
}

/// The expression is a non-zero number, possibly under a unary operator.
pub open spec fn is_nonzero_number(e: Expression) -> bool {
    match e {
        Expression::NumericLiteral(n) => !n.is_zero,
        Expression::Unary(u) => match u.argument {
            Expression::NumericLiteral(n) => !n.is_zero,
            _ => false,
        },
        _ => false,
    }
}

/// The diagnostics for one property of a style object.
pub open spec fn style_property_spec(p: ObjectPropertyKind) -> Seq<DiagnosticView> {
    match p {
        ObjectPropertyKind::Property(op) => {
            let key = match op.key {
                PropertyKey::StaticIdentifier(i) => Some((i.name@, i.span)),
                PropertyKey::StringLiteral(l) => Some((l.value@, l.span)),
                PropertyKey::Other(_) => None,
            };
            match key {
                Some((name, key_span)) => if seq_starts_with(name, "--"@) {
                    Seq::empty()
                } else {
                    let kebab = to_kebab_case_spec(name);
                    let first = if name != kebab && common_css_spec().contains(kebab) {
                        seq![
                            with_fix_spec(
                                warning_spec(
                                    "style-prop"@,
                                    key_span,
                                    "Use "@ + kebab + " instead of "@ + name + "."@,
                                ),
                                fix_msg_spec(
                                    key_span,
                                    "\""@ + kebab + "\""@,
                                    "Replace "@ + name + " with "@ + kebab,
                                ),
                            ),
                        ]
                    } else if !common_css_spec().contains(name) && !common_css_spec().contains(
                        kebab,
                    ) {
                        seq![
                            warning_spec(
                                "style-prop"@,
                                key_span,
                                name + " is not a valid CSS property."@,
                            ),
                        ]
                    } else {
                        Seq::empty()
                    };
                    let second = if (is_length_percentage_spec(name) || is_length_percentage_spec(
                        kebab,
                    )) && is_nonzero_number(op.value) {
                        seq![warning_spec("style-prop"@, op.value.spec_span(), px_message())]
                    } else {
                        Seq::empty()
                    };
                    first + second
                },
                None => Seq::empty(),
            }
        },
        ObjectPropertyKind::Other(_) => Seq::empty(),
    }
}

/// The diagnostics for the expression given to a style prop.
pub open spec fn style_expression_spec(allow_string: bool, e: Expression) -> Seq<DiagnosticView> {
    match e {
        Expression::TemplateLiteral(t) => if !allow_string {
            seq![warning_spec("style-prop"@, t.span, string_style_message())]
        } else {
            Seq::empty()
        },
        Expression::StringLiteral(lit) => if !allow_string {
            seq![
                with_fix_spec(
                    warning_spec("style-prop"@, lit.span, string_style_message()),
                    fix_msg_spec(
                        lit.span,
                        parse_style_string_spec(lit.value@),
                        "Convert to style object"@,
                    ),
                ),
            ]
        } else {
            Seq::empty()
        },
        Expression::Object(o) => concat_map(
            o.properties@,
            |p: ObjectPropertyKind| style_property_spec(p),
        ),
        _ => Seq::empty(),
    }
}

/// The diagnostics for one attribute item.
pub open spec fn style_item_spec(
    style_props: Seq<Seq<char>>,
    allow_string: bool,
    item: JsxAttributeItem,
) -> Seq<DiagnosticView> {
    match item {
        JsxAttributeItem::Attribute(a) => match a.name {
            JsxAttributeName::Identifier(id) => if style_props.contains(id.name@) {
                match a.value {
                    Some(JsxAttributeValue::ExpressionContainer(c)) => match c.expression {
                        Some(e) => style_expression_spec(allow_string, e),
                        None => Seq::empty(),
                    },
                    Some(JsxAttributeValue::StringLiteral(lit)) => if !allow_string {
                        seq![
                            with_fix_spec(
                                warning_spec("style-prop"@, lit.span, string_style_message()),
                                fix_msg_spec(
                                    lit.span,
                                    "{"@ + parse_style_string_spec(lit.value@) + "}"@,
                                    "Convert to style object"@,
                                ),
                            ),
                        ]
                    } else {
                        Seq::empty()
                    },
                    _ => Seq::empty(),
                }
            } else {
                Seq::empty()
            },
            _ => Seq::empty(),
        },
        _ => Seq::empty(),
    }
}

/// All diagnostics of the rule for an opening element.
pub open spec fn style_prop_spec(
    style_props: Seq<Seq<char>>,
    allow_string: bool,
    opening: JsxOpeningElement,
) -> Seq<DiagnosticView> {
    concat_map(
        opening.attributes@,
        |item: JsxAttributeItem| style_item_spec(style_props, allow_string, item),
    )
}

impl StyleProp {
    pub fn new() -> (r: Self)
        ensures
            views(r.style_props@) == seq!["style"@],
            !r.allow_string,
    {
        StyleProp::default()
    }

    pub fn with_style_props(self, props: Vec<String>) -> (r: Self)
        ensures
            r.style_props@ == props@,
            r.allow_string == self.allow_string,
    {
        StyleProp { style_props: props, ..self }
    }

    pub fn with_allow_string(self, allow: bool) -> (r: Self)
        ensures
            r.style_props@ == self.style_props@,
            r.allow_string == allow,
    {
        StyleProp { allow_string: allow, ..self }
    }

    /// Parse a CSS style string into the text of an object literal.
    pub fn parse_style_string(&self, style: &str) -> (r: String)
        ensures
            r@ == parse_style_string_spec(style@),
    {
        parse_style_string(style)
    }

    fn check_property(&self, p: &ObjectPropertyKind) -> (r: Vec<Diagnostic>)
        ensures
            diags_view(r@) == style_property_spec(*p),
    {
        proof {
            reveal_strlit("--");
        }
        let mut diagnostics: Vec<Diagnostic> = Vec::new();
        assert(diags_view(diagnostics@) =~= Seq::<DiagnosticView>::empty());
        let op = match p {
            ObjectPropertyKind::Property(op) => op,
            ObjectPropertyKind::Other(_) => return diagnostics,
        };
        let (prop_name, key_span) = match &op.key {
            PropertyKey::StaticIdentifier(ident) => (ident.name.as_str(), ident.span),
            PropertyKey::StringLiteral(lit) => (lit.value.as_str(), lit.span),
            PropertyKey::Other(_) => return diagnostics,
        };
        if starts_with(prop_name, "--") {
            return diagnostics;
        }
        let kebab_name = to_kebab_case(prop_name);
        if !str_eq(prop_name, kebab_name.as_str()) && is_valid_css_property(kebab_name.as_str()) {
            let mut message = to_owned("Use ");
            push_str(&mut message, kebab_name.as_str());
            push_str(&mut message, " instead of ");
            push_str(&mut message, prop_name);
            push_str(&mut message, ".");
            let mut replacement = to_owned("\"");
            push_str(&mut replacement, kebab_name.as_str());
            push_str(&mut replacement, "\"");
            let mut fix_message = to_owned("Replace ");
            push_str(&mut fix_message, prop_name);
            push_str(&mut fix_message, " with ");
            push_str(&mut fix_message, kebab_name.as_str());
            let d = Diagnostic::warning(Self::NAME, key_span, message.as_str()).with_fix(
                Fix::new(key_span, replacement.as_str()).with_message(fix_message.as_str()),
            );
            diagnostics.push(d);
        } else if !is_valid_css_property(prop_name) && !is_valid_css_property(
            kebab_name.as_str(),
        ) {
            let mut message = to_owned(prop_name);
            push_str(&mut message, " is not a valid CSS property.");
            let d = Diagnostic::warning(Self::NAME, key_span, message.as_str());
            diagnostics.push(d);
        }
        let ghost first = diags_view(diagnostics@);
        if is_length_percentage_property(prop_name) || is_length_percentage_property(
            kebab_name.as_str(),
        ) {
            let nonzero = match &op.value {
                Expression::NumericLiteral(n) => !n.is_zero,
                Expression::Unary(u) => match &u.argument {
                    Expression::NumericLiteral(n) => !n.is_zero,
                    _ => false,
                },
                _ => false,
            };
            if nonzero {
                let d = Diagnostic::warning(
                    Self::NAME,
                    op.value.span(),
                    "This CSS property value should be a string with a unit; Solid does not automatically append a \"px\" unit.",
                );
                diagnostics.push(d);
                assert(diags_view(diagnostics@) =~= first + seq![d@]);
            } else {
                assert(diags_view(diagnostics@) =~= first + Seq::<DiagnosticView>::empty());
            }
        } else {
            assert(diags_view(diagnostics@) =~= first + Seq::<DiagnosticView>::empty());
        }
        diagnostics
    }

    fn check_expression(&self, expr: &Expression) -> (r: Vec<Diagnostic>)
        ensures
            diags_view(r@) == style_expression_spec(self.allow_string, *expr),
    {
        let mut diagnostics: Vec<Diagnostic> = Vec::new();
        assert(diags_view(diagnostics@) =~= Seq::<DiagnosticView>::empty());
        match expr {
            Expression::TemplateLiteral(t) => {
                if !self.allow_string {
                    let d = Diagnostic::warning(
                        Self::NAME,
                        t.span,
                        "Use an object for the style prop instead of a string.",
                    );
                    diagnostics.push(d);
                    assert(diags_view(diagnostics@) =~= seq![d@]);
                }
            },
            Expression::StringLiteral(lit) => {
                if !self.allow_string {
                    let parsed = parse_style_string(lit.value.as_str());
                    let d = Diagnostic::warning(
                        Self::NAME,
                        lit.span,
                        "Use an object for the style prop instead of a string.",
                    ).with_fix(
                        Fix::new(lit.span, parsed.as_str()).with_message("Convert to style object"),
                    );
                    diagnostics.push(d);
                    assert(diags_view(diagnostics@) =~= seq![d@]);
                }
            },
            Expression::Object(obj) => {
                let ghost f = |p: ObjectPropertyKind| style_property_spec(p);
                let mut k: usize = 0;
                while k < obj.properties.len()
                    invariant
                        f == (|p: ObjectPropertyKind| style_property_spec(p)),
                        k <= obj.properties@.len(),
                        diags_view(diagnostics@) == concat_map(
                            obj.properties@.subrange(0, k as int),
                            f,
                        ),
                    decreases obj.properties@.len() - k,
                {
                    proof {
                        lemma_concat_map_step(obj.properties@, f, k as int);
                    }
                    let ds = self.check_property(&obj.properties[k]);
                    extend_diags(&mut diagnostics, ds);
                    k = k + 1;
                }
                proof {
                    lemma_concat_map_full(obj.properties@, f);
                }
            },
            _ => {},
        }
        diagnostics
    }

    fn check_item(&self, item: &JsxAttributeItem) -> (r: Vec<Diagnostic>)
        ensures
            diags_view(r@) == style_item_spec(views(self.style_props@), self.allow_string, *item),
    {
        let mut diagnostics: Vec<Diagnostic> = Vec::new();
        assert(diags_view(diagnostics@) =~= Seq::<DiagnosticView>::empty());
        let jsx_attr = match item {
            JsxAttributeItem::Attribute(a) => a,
            _ => return diagnostics,
        };
        let prop_name = match &jsx_attr.name {
            JsxAttributeName::Identifier(ident) => ident.name.as_str(),
            JsxAttributeName::NamespacedName(_) => return diagnostics,
        };
        if !string_in(prop_name, self.style_props.as_slice()) {
            return diagnostics;
        }
        match &jsx_attr.value {
            Some(JsxAttributeValue::ExpressionContainer(container)) => match &container.expression {
                Some(expr) => self.check_expression(expr),
                None => diagnostics,
            },
            Some(JsxAttributeValue::StringLiteral(lit)) => {
                if !self.allow_string {
                    let mut replacement = to_owned("{");
                    let parsed = parse_style_string(lit.value.as_str());
                    push_str(&mut replacement, parsed.as_str());
                    push_str(&mut replacement, "}");
                    let d = Diagnostic::warning(
                        Self::NAME,
                        lit.span,
                        "Use an object for the style prop instead of a string.",
                    ).with_fix(
                        Fix::new(lit.span, replacement.as_str()).with_message(
                            "Convert to style object",
                        ),
                    );
                    diagnostics.push(d);
                    assert(diags_view(diagnostics@) =~= seq![d@]);
                }
                diagnostics
            },
            _ => diagnostics,
        }
    }

    /// Check a JSX opening element for style prop issues.
    pub fn check(&self, opening: &JsxOpeningElement) -> (r: Vec<Diagnostic>)
        ensures
            diags_view(r@) == style_prop_spec(views(self.style_props@), self.allow_string, *opening),
    {
        let ghost f = |item: JsxAttributeItem|
            style_item_spec(views(self.style_props@), self.allow_string, item);
        let mut diagnostics: Vec<Diagnostic> = Vec::new();
        let mut k: usize = 0;
        while k < opening.attributes.len()
            invariant
                f == (|item: JsxAttributeItem|
                    style_item_spec(views(self.style_props@), self.allow_string, item)),
                k <= opening.attributes@.len(),
                diags_view(diagnostics@) == concat_map(opening.attributes@.subrange(0, k as int), f),
            decreases opening.attributes@.len() - k,
        {
            proof {
                lemma_concat_map_step(opening.attributes@, f, k as int);
            }
            let ds = self.check_item(&opening.attributes[k]);
            extend_diags(&mut diagnostics, ds);
            k = k + 1;
        }
        proof {
            lemma_concat_map_full(opening.attributes@, f);
        }
        diagnostics
    }
}

} // verus!
