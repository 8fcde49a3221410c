//! solid/prefer-for: use Solid's `<For />` component to map an array to
//! JSX elements.
use vstd::prelude::*;
use crate::diagnostic::{
    concat_map, diags_view, extend_diags, fix_msg_spec, lemma_concat_map_full,
    lemma_concat_map_step, warning_spec, with_fix_spec, Diagnostic, DiagnosticView, Fix,
};
use crate::jsx::{
    Argument, CallExpression, Expression, JsxChild, JsxElement, JsxExpressionContainer,
    JsxFragment,
};
use crate::span::Span;
use crate::text::str_eq;
use crate::{RuleCategory, RuleMeta};

verus! {

/// prefer-for rule.
#[derive(Debug, Clone)]
pub struct PreferFor;

impl RuleMeta for PreferFor {
    const NAME: &'static str = "prefer-for";
    const CATEGORY: RuleCategory = RuleCategory::Correctness;
}

/// The object and the property name of a member-expression callee, when
/// the property is known statically.
pub open spec fn member_callee_spec(callee: Expression) -> Option<(Expression, Seq<char>)> {
    match callee {
        Expression::StaticMember(m) => Some((m.object, m.property.name@)),
        Expression::ComputedMember(m) => match m.expression {
            Expression::StringLiteral(lit) => Some((m.object, lit.value@)),
            _ => None,
        },
        _ => None,
    }
}

/// For `array.map(fn)` with one function argument without a rest
/// parameter: the span of the array, the span of the function and its
/// number of parameters.
pub open spec fn map_call_spec(call: CallExpression) -> Option<(Span, Span, nat)> {
    match member_callee_spec(call.callee) {
        Some((object, prop)) => if prop == "map"@ && call.arguments@.len() == 1 {
            match call.arguments@[0] {
                Argument::Expression(f) => match f {
                    Expression::Arrow(func) => if func.params.has_rest {
                        None
                    } else {
                        Some((object.spec_span(), f.spec_span(), func.params.items@.len()))
                    },
                    Expression::Function(func) => if func.params.has_rest {
                        None
                    } else {
                        Some((object.spec_span(), f.spec_span(), func.params.items@.len()))
                    },
                    _ => None,
                },
                Argument::Spread(_) => None,
            }
        } else {
            None
        },
        None => None,
    }
}

/// The call of a container's expression, plain or optional.
pub open spec fn container_call_spec(container: JsxExpressionContainer) -> Option<CallExpression> {
    match container.expression {
        Some(Expression::Call(c)) => Some(*c),
        Some(Expression::ChainCall(c)) => Some(*c),
        _ => None,
    }
}

/// The diagnostics of the rule for an expression container directly inside
/// JSX, spanning `container_span`.
pub open spec fn prefer_for_container_spec(
    container: JsxExpressionContainer,
    container_span: Span,
    parent_is_jsx: bool,
) -> Seq<DiagnosticView> {
    if !parent_is_jsx {
        Seq::empty()
    } else {
        match container_call_spec(container) {
            Some(call) => match map_call_spec(call) {
                Some((array_span, fn_span, count)) => if count == 1 {
                    seq![
                        with_fix_spec(
                            with_fix_spec(
                                with_fix_spec(
                                    warning_spec(
                                        "prefer-for"@,
                                        call.span,
                                        "Use Solid's `<For />` component for efficiently rendering lists. Array#map causes DOM elements to be recreated."@,
                                    ),
                                    fix_msg_spec(
                                        Span { start: container_span.start, end: array_span.start },
                                        "<For each={"@,
                                        "Convert to <For /> component"@,
                                    ),
                                ),
                                fix_msg_spec(
                                    Span { start: array_span.end, end: fn_span.start },
                                    "}>{"@,
                                    Seq::empty(),
                                ),
                            ),
                            fix_msg_spec(
                                Span { start: fn_span.end, end: container_span.end },
                                "}</For>"@,
                                Seq::empty(),
                            ),
                        ),
                    ]
                } else if count >= 2 {
                    seq![
                        warning_spec(
                            "prefer-for"@,
                            call.span,
                            "Use Solid's `<For />` component or `<Index />` component for rendering lists. Array#map causes DOM elements to be recreated."@,
                        ),
                    ]
                } else {
                    Seq::empty()
                },
                None => Seq::empty(),
            },
            None => Seq::empty(),
        }
    }
}

/// The diagnostics for one child of an element or fragment.
pub open spec fn prefer_for_child_spec(child: JsxChild) -> Seq<DiagnosticView> {
    match child {
        JsxChild::ExpressionContainer(c) => prefer_for_container_spec(c, c.span, true),
        _ => Seq::empty(),
    }
}

/// The diagnostics for a list of JSX children.
pub open spec fn prefer_for_children_spec(children: Seq<JsxChild>) -> Seq<DiagnosticView> {
    concat_map(children, |c: JsxChild| prefer_for_child_spec(c))
}

impl PreferFor {
    pub fn new() -> (r: Self) {
        PreferFor
    }

    /// Check a JSX expression container for `Array#map` usage.
    pub fn check_expression_container(
        &self,
        container: &JsxExpressionContainer,
        container_span: Span,
        parent_is_jsx: bool,
    ) -> (r: Vec<Diagnostic>)
        ensures
            diags_view(r@) == prefer_for_container_spec(*container, container_span, parent_is_jsx),
    {
        proof {
            reveal_strlit("");
            assert(""@ =~= Seq::<char>::empty());
        }
        let mut diagnostics: Vec<Diagnostic> = Vec::new();
        assert(diags_view(diagnostics@) =~= Seq::<DiagnosticView>::empty());
        if !parent_is_jsx {
            return diagnostics;
        }
        let call_expr: &CallExpression = match &container.expression {
            Some(Expression::Call(c)) => c,
            Some(Expression::ChainCall(c)) => c,
            _ => {
                return diagnostics;
            },
        };
        if let Some((array_span, map_fn_span, param_count)) = self.analyze_map_call(call_expr) {
            if param_count == 1 {
                let d = Diagnostic::warning(
                    Self::NAME,
                    call_expr.span,
                    "Use Solid's `<For />` component for efficiently rendering lists. Array#map causes DOM elements to be recreated.",
                ).with_fix(
                    Fix::new(Span::new(container_span.start, array_span.start), "<For each={").with_message(
                        "Convert to <For /> component",
                    ),
                ).with_fix(
                    Fix::new(Span::new(array_span.end, map_fn_span.start), "}>{").with_message(""),
                ).with_fix(
                    Fix::new(Span::new(map_fn_span.end, container_span.end), "}</For>").with_message(
                        "",
                    ),
                );
                diagnostics.push(d);
                assert(diags_view(diagnostics@) =~= seq![d@]);
            } else if param_count >= 2 {
                let d = Diagnostic::warning(
                    Self::NAME,
                    call_expr.span,
                    "Use Solid's `<For />` component or `<Index />` component for rendering lists. Array#map causes DOM elements to be recreated.",
                );
                diagnostics.push(d);
                assert(diags_view(diagnostics@) =~= seq![d@]);
            }
        }
        diagnostics
    }

    pub(crate) fn check_children(&self, children: &Vec<JsxChild>) -> (r: Vec<Diagnostic>)
        ensures
            diags_view(r@) == prefer_for_children_spec(children@),
    {
        let mut diagnostics: Vec<Diagnostic> = Vec::new();
        assert(diags_view(diagnostics@) =~= Seq::<DiagnosticView>::empty());
        let ghost f = |c: JsxChild| prefer_for_child_spec(c);
        let mut k: usize = 0;
        while k < children.len()
            invariant
                f == (|c: JsxChild| prefer_for_child_spec(c)),
                k <= children@.len(),
                diags_view(diagnostics@) == concat_map(children@.subrange(0, k as int), f),
            decreases children@.len() - k,
        {
            proof {
                lemma_concat_map_step(children@, f, k as int);
            }
            let ghost before = diags_view(diagnostics@);
            if let JsxChild::ExpressionContainer(container) = &children[k] {
                let sub = self.check_expression_container(container, container.span, true);
                extend_diags(&mut diagnostics, sub);
            } else {
                assert(diags_view(diagnostics@) =~= before + Seq::<DiagnosticView>::empty());
            }
            k = k + 1;
        }
        proof {
            lemma_concat_map_full(children@, f);
        }
        diagnostics
    }

    /// Check the children of a JSX element for map calls.
    pub fn check_element_children(&self, element: &JsxElement) -> (r: Vec<Diagnostic>)
        ensures
            diags_view(r@) == prefer_for_children_spec(element.children@),
    {
        self.check_children(&element.children)
    }

    /// Check the children of a JSX fragment for map calls.
    pub fn check_fragment_children(&self, fragment: &JsxFragment) -> (r: Vec<Diagnostic>)
        ensures
            diags_view(r@) == prefer_for_children_spec(fragment.children@),
    {
        self.check_children(&fragment.children)
    }

    /// For `arr.map(fn)`: the span of the array, the span of the function
    /// and its number of parameters.
    fn analyze_map_call(&self, call: &CallExpression) -> (r: Option<(Span, Span, usize)>)
        ensures
            match r {
                Some((a, m, n)) => map_call_spec(*call) == Some((a, m, n as nat)),
                None => map_call_spec(*call) == None::<(Span, Span, nat)>,
            },
    {
        let (object, prop_name): (&Expression, &str) = match &call.callee {
            Expression::StaticMember(m) => (&m.object, m.property.name.as_str()),
            Expression::ComputedMember(m) => match &m.expression {
                Expression::StringLiteral(lit) => (&m.object, lit.value.as_str()),
                _ => {
                    return None;
                },
            },
            _ => {
                return None;
            },
        };
        if !str_eq(prop_name, "map") {
            return None;
        }
        if call.arguments.len() != 1 {
            return None;
        }
        let map_fn = match &call.arguments[0] {
            Argument::Spread(_) => {
                return None;
            },
            Argument::Expression(e) => e,
        };
        let param_count = match map_fn {
            Expression::Arrow(func) => {
                if func.params.has_rest {
                    return None;
                }
                func.params.items.len()
            },
            Expression::Function(func) => {
                if func.params.has_rest {
                    return None;
                }
                func.params.items.len()
            },
            _ => {
                return None;
            },
        };
        Some((object.span(), map_fn.span(), param_count))
    }
}

} // verus!
