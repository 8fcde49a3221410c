//! solid/prefer-show: use Solid's `<Show />` component for conditionally
//! showing content.
use vstd::prelude::*;
use crate::diagnostic::{
    concat_map, diags_view, extend_diags, fix_msg_spec, lemma_concat_map_full,
    lemma_concat_map_step, warning_spec, with_fix_spec, Diagnostic, DiagnosticView, Fix,
};
use crate::jsx::{
    ConditionalExpression, Expression, JsxChild, JsxElement, JsxExpressionContainer, JsxFragment,
    LogicalExpression, LogicalOperator, Statement,
};
use crate::span::Span;
use crate::text::{push_str, str_get, str_get_spec, to_owned};
use crate::{RuleCategory, RuleMeta};

verus! {

/// prefer-show rule.
#[derive(Debug, Clone)]
pub struct PreferShow;

impl RuleMeta for PreferShow {
    const NAME: &'static str = "prefer-show";
    const CATEGORY: RuleCategory = RuleCategory::Style;
}

/// The source text of a span, or the empty string where the span does not
/// select a slice of the source.
pub open spec fn source_text_spec(source: Seq<char>, span: Span) -> Seq<char> {
    match str_get_spec(source, span.start as int, span.end as int) {
        Some(t) => t,
        None => Seq::empty(),
    }
}

/// JSX or an identifier: content worth wrapping in `<Show />`.
pub open spec fn is_expensive(e: Expression) -> bool {
    e is JsxElement || e is JsxFragment || e is Identifier
}

/// The source of an expression as JSX children: JSX as it is, anything
/// else in braces.
pub open spec fn put_into_jsx_spec(source: Seq<char>, e: Expression) -> Seq<char> {
    let text = source_text_spec(source, e.spec_span());
    if e is JsxElement || e is JsxFragment {
        text
    } else {
        "{"@ + text + "}"@
    }
}

/// The diagnostic for `a && <jsx>`, replacing `replace_span`.
pub open spec fn show_logical_spec(l: LogicalExpression, replace_span: Span, source: Seq<char>) -> Seq<
    DiagnosticView,
> {
    if l.operator == LogicalOperator::And && is_expensive(l.right) {
        let when_text = source_text_spec(source, l.left.spec_span());
        let children_text = put_into_jsx_spec(source, l.right);
        seq![
            with_fix_spec(
                warning_spec(
                    "prefer-show"@,
                    l.span,
                    "Use Solid's `<Show />` component for conditionally showing content."@,
                ),
                fix_msg_spec(
                    replace_span,
                    "<Show when={"@ + when_text + "}>"@ + children_text + "</Show>"@,
                    "Convert to <Show /> component"@,
                ),
            ),
        ]
    } else {
        Seq::empty()
    }
}

/// The diagnostic for `a ? <jsx> : b`, replacing `replace_span`.
pub open spec fn show_conditional_spec(
    c: ConditionalExpression,
    replace_span: Span,
    source: Seq<char>,
) -> Seq<DiagnosticView> {
    if is_expensive(c.consequent) || is_expensive(c.alternate) {
        let when_text = source_text_spec(source, c.test.spec_span());
        let children_text = put_into_jsx_spec(source, c.consequent);
        let fallback_text = source_text_spec(source, c.alternate.spec_span());
        seq![
            with_fix_spec(
                warning_spec(
                    "prefer-show"@,
                    c.span,
                    "Use Solid's `<Show />` component for conditionally showing content with a fallback."@,
                ),
                fix_msg_spec(
                    replace_span,
                    "<Show when={"@ + when_text + "} fallback={"@ + fallback_text + "}>"@
                        + children_text + "</Show>"@,
                    "Convert to <Show /> component with fallback"@,
                ),
            ),
        ]
    } else {
        Seq::empty()
    }
}

/// The diagnostics of the rule for an expression container directly inside
/// JSX.
pub open spec fn prefer_show_container_spec(
    container: JsxExpressionContainer,
    source: Seq<char>,
    parent_is_jsx: bool,
) -> Seq<DiagnosticView> {
    if !parent_is_jsx {
        Seq::empty()
    } else {
        match container.expression {
            Some(Expression::Logical(l)) => show_logical_spec(*l, container.span, source),
            Some(Expression::Conditional(c)) => show_conditional_spec(*c, container.span, source),
            Some(Expression::Arrow(f)) => if f.expression {
                match f.body {
                    Some(b) => if b.statements@.len() > 0 {
                        match b.statements@[0] {
                            Statement::Expression(Expression::Logical(l), _) => show_logical_spec(
                                *l,
                                l.span,
                                source,
                            ),
                            Statement::Expression(Expression::Conditional(c), _) => show_conditional_spec(
                                *c,
                                c.span,
                                source,
                            ),
                            _ => Seq::empty(),
                        }
                    } else {
                        Seq::empty()
                    },
                    None => Seq::empty(),
                }
            } else {
                Seq::empty()
            },
            _ => Seq::empty(),
        }
    }
}

/// The diagnostics for one child of an element or fragment.
pub open spec fn prefer_show_child_spec(child: JsxChild, source: Seq<char>) -> Seq<DiagnosticView> {
    match child {
        JsxChild::ExpressionContainer(c) => prefer_show_container_spec(c, source, true),
        _ => Seq::empty(),
    }
}

/// The diagnostics for a list of JSX children.
pub open spec fn prefer_show_children_spec(children: Seq<JsxChild>, source: Seq<char>) -> Seq<
    DiagnosticView,
> {
    concat_map(children, |c: JsxChild| prefer_show_child_spec(c, source))
}

/// A JSX child `{a && X}`, with `X` JSX or an identifier, gets exactly one
/// prefer-show warning, whose fix replaces the whole child by
/// `<Show when={a}>X</Show>` (`X` written as JSX children); a child
/// `{a || X}` or `{a ?? X}` gets none.
pub proof fn lemma_logical_child(container: JsxExpressionContainer, l: LogicalExpression, source: Seq<char>)
    requires
        container.expression == Some(Expression::Logical(Box::new(l))),
    ensures
        l.operator != LogicalOperator::And ==> prefer_show_container_spec(container, source, true).len() == 0,
        l.operator == LogicalOperator::And && (l.right is JsxElement || l.right is JsxFragment || l.right is Identifier)
            ==> ({
            let ds = prefer_show_container_spec(container, source, true);
            let right = source_text_spec(source, l.right.spec_span());
            &&& ds.len() == 1
            &&& ds[0].rule == "prefer-show"@
            &&& ds[0].start == l.span.start && ds[0].end == l.span.end
            &&& ds[0].fixes.len() == 1
            &&& ds[0].fixes[0].start == container.span.start
            &&& ds[0].fixes[0].end == container.span.end
            &&& ds[0].fixes[0].replacement == "<Show when={"@ + source_text_spec(source, l.left.spec_span())
                + "}>"@ + (if l.right is Identifier {
                "{"@ + right + "}"@
            } else {
                right
            }) + "</Show>"@
        }),
{
}

/// A JSX child `{a ? X : Y}` gets exactly one prefer-show warning when
/// either branch is JSX or an identifier, whose fix replaces the whole
/// child by `<Show when={a} fallback={Y}>X</Show>`; otherwise none.
pub proof fn lemma_conditional_child(container: JsxExpressionContainer, c: ConditionalExpression, source: Seq<char>)
    requires
        container.expression == Some(Expression::Conditional(Box::new(c))),
    ensures
        !is_expensive(c.consequent) && !is_expensive(c.alternate) ==> prefer_show_container_spec(
            container,
            source,
            true,
        ).len() == 0,
        is_expensive(c.consequent) || is_expensive(c.alternate) ==> ({
            let ds = prefer_show_container_spec(container, source, true);
            &&& ds.len() == 1
            &&& ds[0].rule == "prefer-show"@
            &&& ds[0].fixes.len() == 1
            &&& ds[0].fixes[0].start == container.span.start
            &&& ds[0].fixes[0].end == container.span.end
            &&& ds[0].fixes[0].replacement == "<Show when={"@ + source_text_spec(source, c.test.spec_span())
                + "} fallback={"@ + source_text_spec(source, c.alternate.spec_span()) + "}>"@
                + put_into_jsx_spec(source, c.consequent) + "</Show>"@
        }),
        prefer_show_container_spec(container, source, false).len() == 0,
{
}

impl PreferShow {
    pub fn new() -> (r: Self) {
        PreferShow
    }

    /// Check a JSX expression container for conditional expressions.
    pub fn check_expression_container(
        &self,
        container: &JsxExpressionContainer,
        source: &str,
        parent_is_jsx: bool,
    ) -> (r: Vec<Diagnostic>)
        ensures
            diags_view(r@) == prefer_show_container_spec(*container, source@, parent_is_jsx),
    {
        let mut diagnostics: Vec<Diagnostic> = Vec::new();
        assert(diags_view(diagnostics@) =~= Seq::<DiagnosticView>::empty());
        if !parent_is_jsx {
            return diagnostics;
        }
        match &container.expression {
            Some(Expression::Logical(logical)) => {
                diagnostics = self.check_logical_expression(logical, container.span, source);
            },
            Some(Expression::Conditional(cond)) => {
                diagnostics = self.check_conditional_expression(cond, container.span, source);
            },
            Some(Expression::Arrow(arrow)) => {
                if arrow.expression {
                    if let Some(body) = &arrow.body {
                        if body.statements.len() > 0 {
                            match &body.statements[0] {
                                Statement::Expression(Expression::Logical(logical), _) => {
                                    diagnostics = self.check_logical_expression(
                                        logical,
                                        logical.span,
                                        source,
                                    );
                                },
                                Statement::Expression(Expression::Conditional(cond), _) => {
                                    diagnostics = self.check_conditional_expression(
                                        cond,
                                        cond.span,
                                        source,
                                    );
                                },
                                _ => {},
                            }
                        }
                    }
                }
            },
            _ => {},
        }
        diagnostics
    }

    pub(crate) fn check_children(&self, children: &Vec<JsxChild>, source: &str) -> (r: Vec<Diagnostic>)
        ensures
            diags_view(r@) == prefer_show_children_spec(children@, source@),
    {
        let mut diagnostics: Vec<Diagnostic> = Vec::new();
        assert(diags_view(diagnostics@) =~= Seq::<DiagnosticView>::empty());
        let ghost f = |c: JsxChild| prefer_show_child_spec(c, source@);
        let mut k: usize = 0;
        while k < children.len()
            invariant
                f == (|c: JsxChild| prefer_show_child_spec(c, source@)),
                k <= children@.len(),
                diags_view(diagnostics@) == concat_map(children@.subrange(0, k as int), f),
            decreases children@.len() - k,
        {
            proof {
                lemma_concat_map_step(children@, f, k as int);
            }
            let ghost before = diags_view(diagnostics@);
            if let JsxChild::ExpressionContainer(container) = &children[k] {
                let sub = self.check_expression_container(container, source, true);
                extend_diags(&mut diagnostics, sub);
            } else {
                assert(diags_view(diagnostics@) =~= before + Seq::<DiagnosticView>::empty());
            }
            k = k + 1;
        }
        proof {
            lemma_concat_map_full(children@, f);
        }
        diagnostics
    }

    /// Check the children of a JSX element for conditional expressions.
    pub fn check_element_children(&self, element: &JsxElement, source: &str) -> (r: Vec<
        Diagnostic,
    >)
        ensures
            diags_view(r@) == prefer_show_children_spec(element.children@, source@),
    {
        self.check_children(&element.children, source)
    }

    /// Check the children of a JSX fragment for conditional expressions.
    pub fn check_fragment_children(&self, fragment: &JsxFragment, source: &str) -> (r: Vec<
        Diagnostic,
    >)
        ensures
            diags_view(r@) == prefer_show_children_spec(fragment.children@, source@),
    {
        self.check_children(&fragment.children, source)
    }

    fn check_logical_expression(&self, logical: &LogicalExpression, replace_span: Span, source: &str) -> (r: Vec<
        Diagnostic,
    >)
        ensures
            diags_view(r@) == show_logical_spec(*logical, replace_span, source@),
    {
        let mut diagnostics: Vec<Diagnostic> = Vec::new();
        assert(diags_view(diagnostics@) =~= Seq::<DiagnosticView>::empty());
        let is_and = match logical.operator {
            LogicalOperator::And => true,
            _ => false,
        };
        if !is_and {
            return diagnostics;
        }
        if Self::is_expensive_type(&logical.right) {
            let when_text = Self::get_source_text(source, logical.left.span());
            let children_text = Self::put_into_jsx(source, &logical.right);
            let mut replacement = to_owned("<Show when={");
            push_str(&mut replacement, when_text.as_str());
            push_str(&mut replacement, "}>");
            push_str(&mut replacement, children_text.as_str());
            push_str(&mut replacement, "</Show>");
            let d = Diagnostic::warning(
                Self::NAME,
                logical.span,
                "Use Solid's `<Show />` component for conditionally showing content.",
            ).with_fix(
                Fix::new(replace_span, replacement.as_str()).with_message(
                    "Convert to <Show /> component",
                ),
            );
            diagnostics.push(d);
            assert(diags_view(diagnostics@) =~= seq![d@]);
        }
        diagnostics
    }

    fn check_conditional_expression(
        &self,
        cond: &ConditionalExpression,
        replace_span: Span,
        source: &str,
    ) -> (r: Vec<Diagnostic>)
        ensures
            diags_view(r@) == show_conditional_spec(*cond, replace_span, source@),
    {
        let mut diagnostics: Vec<Diagnostic> = Vec::new();
        assert(diags_view(diagnostics@) =~= Seq::<DiagnosticView>::empty());
        if Self::is_expensive_type(&cond.consequent) || Self::is_expensive_type(&cond.alternate) {
            let when_text = Self::get_source_text(source, cond.test.span());
            let children_text = Self::put_into_jsx(source, &cond.consequent);
            let fallback_text = Self::get_source_text(source, cond.alternate.span());
            let mut replacement = to_owned("<Show when={");
            push_str(&mut replacement, when_text.as_str());
            push_str(&mut replacement, "} fallback={");
            push_str(&mut replacement, fallback_text.as_str());
            push_str(&mut replacement, "}>");
            push_str(&mut replacement, children_text.as_str());
            push_str(&mut replacement, "</Show>");
            let d = Diagnostic::warning(
                Self::NAME,
                cond.span,
                "Use Solid's `<Show />` component for conditionally showing content with a fallback.",
            ).with_fix(
                Fix::new(replace_span, replacement.as_str()).with_message(
                    "Convert to <Show /> component with fallback",
                ),
            );
            diagnostics.push(d);
            assert(diags_view(diagnostics@) =~= seq![d@]);
        }
        diagnostics
    }

    fn is_expensive_type(expr: &Expression) -> (r: bool)
        ensures
            r == is_expensive(*expr),
    {
        match expr {
            Expression::JsxElement(_) => true,
            Expression::JsxFragment(_) => true,
            Expression::Identifier(_) => true,
            _ => false,
        }
    }

    fn put_into_jsx(source: &str, expr: &Expression) -> (r: String)
        ensures
            r@ == put_into_jsx_spec(source@, *expr),
    {
        let text = Self::get_source_text(source, expr.span());
        let is_jsx = match expr {
            Expression::JsxElement(_) => true,
            Expression::JsxFragment(_) => true,
            _ => false,
        };
        if is_jsx {
            text
        } else {
            let mut s = to_owned("{");
            push_str(&mut s, text.as_str());
            push_str(&mut s, "}");
            s
        }
    }

    fn get_source_text(source: &str, span: Span) -> (r: String)
        ensures
            r@ == source_text_spec(source@, span),
    {
        match str_get(source, span.start, span.end) {
            Some(t) => t,
            None => String::new(),
        }
    }
}

} // verus!
