//! solid/reactivity: reactive primitives take functions, event handlers are
//! not called in place, and `ref:` directives hold variables.
use vstd::prelude::*;
use crate::diagnostic::{
    concat_map, diags_view, lemma_concat_map_full, lemma_concat_map_step, opt_diag_spec,
    push_opt, warning_spec, Diagnostic, DiagnosticView,
};
use crate::jsx::{
    Argument, CallExpression, Expression, JsxAttributeItem, JsxAttributeName, JsxAttributeValue,
    JsxExpressionContainer, JsxOpeningElement, VariableDeclarator,
};
use crate::text::{chars_of, push_str, seq_starts_with, starts_with, str_eq, str_in, strs_view, to_owned};
use crate::{RuleCategory, RuleMeta};

verus! {

/// reactivity rule.
#[derive(Debug, Clone)]
pub struct Reactivity;

impl RuleMeta for Reactivity {
    const NAME: &'static str = "reactivity";
    const CATEGORY: RuleCategory = RuleCategory::Correctness;
}

/// Solid primitives that expect a reactive expression (a function) as their
/// first argument.
pub open spec fn reactive_primitives_spec() -> Seq<Seq<char>> {
    seq![
        "createEffect"@,
        "createMemo"@,
        "createComputed"@,
        "createRenderEffect"@,
        "createReaction"@,
        "on"@,
    ]
}

/// The diagnostics of the rule for a call: a reactive primitive whose first
/// argument is neither a function nor an identifier.
pub open spec fn reactivity_call_spec(call: CallExpression) -> Seq<DiagnosticView> {
    match call.callee {
        Expression::Identifier(callee) => if reactive_primitives_spec().contains(callee.name@)
            && call.arguments@.len() > 0 {
            match call.arguments@[0] {
                Argument::Expression(e) => if !(e is Arrow || e is Function || e is Identifier) {
                    seq![
                        warning_spec(
                            "reactivity"@,
                            e.spec_span(),
                            "`"@ + callee.name@
                                + "` expects a function. Passing a non-function value may cause reactivity issues."@,
                        ),
                    ]
                } else {
                    Seq::empty()
                },
                Argument::Spread(_) => Seq::empty(),
            }
        } else {
            Seq::empty()
        },
        _ => Seq::empty(),
    }
}

/// The expression held by an attribute whose value is an expression
/// container.
pub open spec fn container_expression(value: Option<JsxAttributeValue>) -> Option<Expression> {
    match value {
        Some(JsxAttributeValue::ExpressionContainer(c)) => c.expression,
        _ => None,
    }
}

/// The diagnostic of one attribute item: a `ref:` directive given a call,
/// or an `on...` handler that calls a function other than `bind` in place.
pub open spec fn reactivity_attr_spec(item: JsxAttributeItem) -> Seq<DiagnosticView> {
    match item {
        JsxAttributeItem::Attribute(a) => match a.name {
            JsxAttributeName::NamespacedName(ns) => if ns.namespace.name@ == "ref"@
                && container_expression(a.value) matches Some(Expression::Call(_)) {
                seq![
                    warning_spec(
                        "reactivity"@,
                        a.span,
                        "The `ref` directive expects a variable, not a function call."@,
                    ),
                ]
            } else {
                Seq::empty()
            },
            JsxAttributeName::Identifier(i) => if seq_starts_with(i.name@, "on"@) && i.name@.len()
                > 2 {
                match container_expression(a.value) {
                    Some(Expression::Call(call)) => match call.callee {
                        Expression::Identifier(callee) => if callee.name@ != "bind"@ {
                            seq![
                                warning_spec(
                                    "reactivity"@,
                                    call.span,
                                    "Event handler `"@ + i.name@
                                        + "` is calling a function. This will execute immediately. Wrap in an arrow function: `() => "@
                                        + callee.name@ + "(...)`"@,
                                ),
                            ]
                        } else {
                            Seq::empty()
                        },
                        _ => Seq::empty(),
                    },
                    _ => Seq::empty(),
                }
            } else {
                Seq::empty()
            },
        },
        _ => Seq::empty(),
    }
}

/// All attribute diagnostics of an opening element.
pub open spec fn reactivity_attrs_spec(opening: JsxOpeningElement) -> Seq<DiagnosticView> {
    concat_map(opening.attributes@, |item: JsxAttributeItem| reactivity_attr_spec(item))
}

impl Reactivity {
    pub fn new() -> (r: Self) {
        Reactivity
    }

    /// Check a variable declarator. Signal and store destructuring needs
    /// type information this rule does not have, so nothing is reported.
    pub fn check_variable(&self, declarator: &VariableDeclarator) -> (r: Vec<Diagnostic>)
        ensures
            r@.len() == 0,
    {
        Vec::new()
    }

    /// Check a call expression for non-function arguments to reactive
    /// primitives.
    pub fn check_call(&self, call: &CallExpression) -> (r: Vec<Diagnostic>)
        ensures
            diags_view(r@) == reactivity_call_spec(*call),
    {
        let mut diagnostics: Vec<Diagnostic> = Vec::new();
        assert(diags_view(diagnostics@) =~= Seq::<DiagnosticView>::empty());
        let callee_name = match &call.callee {
            Expression::Identifier(callee) => callee.name.as_str(),
            _ => {
                return diagnostics;
            },
        };
        let primitives = [
            "createEffect",
            "createMemo",
            "createComputed",
            "createRenderEffect",
            "createReaction",
            "on",
        ];
        assert(strs_view(primitives@) =~= reactive_primitives_spec());
        if str_in(callee_name, &primitives) && call.arguments.len() > 0 {
            if let Argument::Expression(expr) = &call.arguments[0] {
                let is_function_like = match expr {
                    Expression::Arrow(_) => true,
                    Expression::Function(_) => true,
                    Expression::Identifier(_) => true,
                    _ => false,
                };
                if !is_function_like {
                    let mut message = to_owned("`");
                    push_str(&mut message, callee_name);
                    push_str(
                        &mut message,
                        "` expects a function. Passing a non-function value may cause reactivity issues.",
                    );
                    let d = Diagnostic::warning(Self::NAME, expr.span(), message.as_str());
                    diagnostics.push(d);
                    assert(diags_view(diagnostics@) =~= seq![d@]);
                }
            }
        }
        diagnostics
    }

    /// Check a JSX expression container. Reactivity lost there cannot be
    /// told without type information, so nothing is reported.
    pub fn check_jsx_expression(&self, container: &JsxExpressionContainer, is_in_attribute: bool) -> (r: Vec<
        Diagnostic,
    >)
        ensures
            r@.len() == 0,
    {
        Vec::new()
    }

    fn check_attr_item(&self, item: &JsxAttributeItem) -> (r: Option<Diagnostic>)
        ensures
            opt_diag_spec(r) == reactivity_attr_spec(*item),
    {
        let jsx_attr = match item {
            JsxAttributeItem::Attribute(a) => a,
            _ => {
                return None;
            },
        };
        let attr_name = match &jsx_attr.name {
            JsxAttributeName::Identifier(ident) => ident.name.as_str(),
            JsxAttributeName::NamespacedName(ns) => {
                if str_eq(ns.namespace.name.as_str(), "ref") {
                    if let Some(JsxAttributeValue::ExpressionContainer(container)) = &jsx_attr.value {
                        if let Some(Expression::Call(_)) = &container.expression {
                            return Some(
                                Diagnostic::warning(
                                    Self::NAME,
                                    jsx_attr.span,
                                    "The `ref` directive expects a variable, not a function call.",
                                ),
                            );
                        }
                    }
                }
                return None;
            },
        };
        proof {
            reveal_strlit("on");
        }
        let name_chars = chars_of(attr_name);
        if starts_with(attr_name, "on") && name_chars.len() > 2 {
            if let Some(JsxAttributeValue::ExpressionContainer(container)) = &jsx_attr.value {
                if let Some(Expression::Call(call)) = &container.expression {
                    if let Expression::Identifier(callee) = &call.callee {
                        if !str_eq(callee.name.as_str(), "bind") {
                            let mut message = to_owned("Event handler `");
                            push_str(&mut message, attr_name);
                            push_str(
                                &mut message,
                                "` is calling a function. This will execute immediately. Wrap in an arrow function: `() => ",
                            );
                            push_str(&mut message, callee.name.as_str());
                            push_str(&mut message, "(...)`");
                            return Some(Diagnostic::warning(Self::NAME, call.span, message.as_str()));
                        }
                    }
                }
            }
        }
        None
    }

    /// Check the attributes of a JSX opening element for reactivity issues.
    pub fn check_jsx_attribute(&self, opening: &JsxOpeningElement) -> (r: Vec<Diagnostic>)
        ensures
            diags_view(r@) == reactivity_attrs_spec(*opening),
    {
        let mut diagnostics: Vec<Diagnostic> = Vec::new();
        assert(diags_view(diagnostics@) =~= Seq::<DiagnosticView>::empty());
        let ghost f = |item: JsxAttributeItem| reactivity_attr_spec(item);
        let mut k: usize = 0;
        while k < opening.attributes.len()
            invariant
                f == (|item: JsxAttributeItem| reactivity_attr_spec(item)),
                k <= opening.attributes@.len(),
                diags_view(diagnostics@) == concat_map(opening.attributes@.subrange(0, k as int), f),
            decreases opening.attributes@.len() - k,
        {
            proof {
                lemma_concat_map_step(opening.attributes@, f, k as int);
            }
            let d = self.check_attr_item(&opening.attributes[k]);
            push_opt(&mut diagnostics, d);
            k = k + 1;
        }
        proof {
            lemma_concat_map_full(opening.attributes@, f);
        }
        diagnostics
    }
}

} // verus!
