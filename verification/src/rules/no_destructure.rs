//! solid/no-destructure: disallow destructuring props; Solid props keep
//! their reactivity only through property accesses (`props.foo`).
use vstd::prelude::*;
use crate::diagnostic::{diags_view, warning_spec, with_help_spec, Diagnostic, DiagnosticView};
use crate::jsx::{Expression, FormalParameters, Function, FunctionBody, Statement};
use crate::{RuleCategory, RuleMeta};

verus! {

/// no-destructure rule.
#[derive(Debug, Clone)]
pub struct NoDestructure;

impl RuleMeta for NoDestructure {
    const NAME: &'static str = "no-destructure";
    const CATEGORY: RuleCategory = RuleCategory::Correctness;
}

/// The expression is, or evaluates to, JSX: an element or fragment, through
/// parentheses, either branch of a conditional or logical expression, or
/// the body of an arrow function.
pub open spec fn expression_has_jsx_spec(e: Expression) -> bool
    decreases e,
{
    match e {
        Expression::JsxElement(_) => true,
        Expression::JsxFragment(_) => true,
        Expression::Parenthesized(inner, _) => expression_has_jsx_spec(*inner),
        Expression::Conditional(c) => expression_has_jsx_spec(c.consequent)
            || expression_has_jsx_spec(c.alternate),
        Expression::Logical(l) => expression_has_jsx_spec(l.left) || expression_has_jsx_spec(
            l.right,
        ),
        Expression::Arrow(f) => match f.body {
            Some(b) => {
                proof {
                    assert(decreases_to!(b.statements => b.statements@));
                }
                if f.expression && b.statements@.len() > 0 && b.statements@[0] is Expression {
                    expression_has_jsx_spec(b.statements@[0]->Expression_0)
                } else {
                    statements_have_jsx_spec(b.statements@)
                }
            },
            None => false,
        },
        _ => false,
    }
}

/// The statement holds JSX: an expression statement or a return of JSX, or
/// a block or `if` with such a statement.
pub open spec fn statement_has_jsx_spec(s: Statement) -> bool
    decreases s,
{
    match s {
        Statement::Expression(e, _) => expression_has_jsx_spec(e),
        Statement::Return(a, _) => match a {
            Some(e) => expression_has_jsx_spec(e),
            None => false,
        },
        Statement::Block(v, _) => {
            proof {
                assert(decreases_to!(v => v@));
            }
            statements_have_jsx_spec(v@)
        },
        Statement::If(i) => statement_has_jsx_spec(i.consequent) || match i.alternate {
            Some(a) => statement_has_jsx_spec(a),
            None => false,
        },
        _ => false,
    }
}

/// One of the statements holds JSX.
pub open spec fn statements_have_jsx_spec(ss: Seq<Statement>) -> bool
    decreases ss,
{
    if ss.len() == 0 {
        false
    } else {
        proof {
            assert(decreases_to!(ss => ss.subrange(1, ss.len() as int)));
        }
        statement_has_jsx_spec(ss[0]) || statements_have_jsx_spec(ss.subrange(1, ss.len() as int))
    }
}

/// The diagnostics for the parameters of a function whose body holds JSX:
/// a single destructured parameter is reported.
pub open spec fn destructure_params_spec(params: FormalParameters) -> Seq<DiagnosticView> {
    if params.items@.len() == 1 && params.items@[0].is_destructuring {
        seq![
            with_help_spec(
                warning_spec(
                    "no-destructure"@,
                    params.items@[0].span,
                    "Destructuring component props breaks Solid's reactivity; use property access instead."@,
                ),
                "Use `props.propertyName` instead of destructuring."@,
            ),
        ]
    } else {
        Seq::empty()
    }
}

/// The diagnostics of the rule for a function, given whether its body holds
/// JSX and whether it stands inside a JSX expression.
pub open spec fn no_destructure_spec(
    func: Function,
    has_jsx_in_body: bool,
    is_inside_jsx_expression: bool,
) -> Seq<DiagnosticView> {
    if is_inside_jsx_expression || !has_jsx_in_body {
        Seq::empty()
    } else {
        destructure_params_spec(func.params)
    }
}

impl NoDestructure {
    pub fn new() -> (r: Self) {
        NoDestructure
    }

    /// Check a regular function for destructured props.
    pub fn check_function(&self, func: &Function, has_jsx_in_body: bool, is_inside_jsx_expression: bool) -> (r: Vec<
        Diagnostic,
    >)
        ensures
            diags_view(r@) == no_destructure_spec(*func, has_jsx_in_body, is_inside_jsx_expression),
    {
        if is_inside_jsx_expression || !has_jsx_in_body {
            let r: Vec<Diagnostic> = Vec::new();
            assert(diags_view(r@) =~= Seq::<DiagnosticView>::empty());
            return r;
        }
        self.check_params(&func.params)
    }

    /// Check an arrow function for destructured props.
    pub fn check_arrow(&self, arrow: &Function, has_jsx_in_body: bool, is_inside_jsx_expression: bool) -> (r: Vec<
        Diagnostic,
    >)
        ensures
            diags_view(r@) == no_destructure_spec(*arrow, has_jsx_in_body, is_inside_jsx_expression),
    {
        self.check_function(arrow, has_jsx_in_body, is_inside_jsx_expression)
    }

    fn check_params(&self, params: &FormalParameters) -> (r: Vec<Diagnostic>)
        ensures
            diags_view(r@) == destructure_params_spec(*params),
    {
        let mut diagnostics: Vec<Diagnostic> = Vec::new();
        assert(diags_view(diagnostics@) =~= Seq::<DiagnosticView>::empty());
        if params.items.len() != 1 {
            return diagnostics;
        }
        let param = &params.items[0];
        if param.is_destructuring {
            let d = Diagnostic::warning(
                Self::NAME,
                param.span,
                "Destructuring component props breaks Solid's reactivity; use property access instead.",
            ).with_help("Use `props.propertyName` instead of destructuring.");
            diagnostics.push(d);
            assert(diags_view(diagnostics@) =~= seq![d@]);
        }
        diagnostics
    }

    /// Whether a function body contains JSX.
    pub fn body_has_jsx(body: &FunctionBody) -> (r: bool)
        ensures
            r == statements_have_jsx_spec(body.statements@),
    {
        Self::statements_have_jsx(&body.statements)
    }

    fn statements_have_jsx(stmts: &Vec<Statement>) -> (r: bool)
        ensures
            r == statements_have_jsx_spec(stmts@),
        decreases stmts@,
    {
        let ghost ss = stmts@;
        let mut k: usize = 0;
        assert(ss.subrange(0, ss.len() as int) =~= ss);
        while k < stmts.len()
            invariant
                ss == stmts@,
                k <= ss.len(),
                statements_have_jsx_spec(ss) == statements_have_jsx_spec(
                    ss.subrange(k as int, ss.len() as int),
                ),
            decreases ss.len() - k,
        {
            let ghost rest = ss.subrange(k as int, ss.len() as int);
            assert(rest[0] == ss[k as int]);
            assert(rest.subrange(1, rest.len() as int) =~= ss.subrange(k + 1, ss.len() as int));
            proof {
                assert(decreases_to!(ss => ss[k as int]));
            }
            if Self::statement_has_jsx(&stmts[k]) {
                return true;
            }
            k = k + 1;
        }
        false
    }

    fn statement_has_jsx(stmt: &Statement) -> (r: bool)
        ensures
            r == statement_has_jsx_spec(*stmt),
        decreases stmt,
    {
        match stmt {
            Statement::Expression(e, _) => Self::expression_has_jsx(e),
            Statement::Return(a, _) => match a {
                Some(e) => Self::expression_has_jsx(e),
                None => false,
            },
            Statement::Block(v, _) => {
                proof {
                    assert(decreases_to!(*v => v@));
                }
                Self::statements_have_jsx(v)
            },
            Statement::If(i) => {
                if Self::statement_has_jsx(&i.consequent) {
                    true
                } else {
                    match &i.alternate {
                        Some(a) => Self::statement_has_jsx(a),
                        None => false,
                    }
                }
            },
            _ => false,
        }
    }

    fn expression_has_jsx(expr: &Expression) -> (r: bool)
        ensures
            r == expression_has_jsx_spec(*expr),
        decreases expr,
    {
        match expr {
            Expression::JsxElement(_) => true,
            Expression::JsxFragment(_) => true,
            Expression::Parenthesized(inner, _) => Self::expression_has_jsx(inner),
            Expression::Conditional(c) => Self::expression_has_jsx(&c.consequent)
                || Self::expression_has_jsx(&c.alternate),
            Expression::Logical(l) => Self::expression_has_jsx(&l.left) || Self::expression_has_jsx(
                &l.right,
            ),
            Expression::Arrow(f) => match &f.body {
                Some(b) => {
                    proof {
                        assert(decreases_to!(b.statements => b.statements@));
                    }
                    if f.expression && b.statements.len() > 0 {
                        if let Statement::Expression(e, _) = &b.statements[0] {
                            return Self::expression_has_jsx(e);
                        }
                    }
                    Self::statements_have_jsx(&b.statements)
                },
                None => false,
            },
            _ => false,
        }
    }
}

} // verus!
