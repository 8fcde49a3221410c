//! solid/components-return-once: disallow early and conditional returns in
//! components. Solid components run once, so conditions belong inside JSX.
use vstd::prelude::*;
use crate::diagnostic::{diags_view, warning_spec, with_help_spec, Diagnostic, DiagnosticView};
use crate::jsx::{Expression, Function, FunctionBody, LogicalOperator, Statement};
use crate::text::{char_is_lowercase, char_is_lowercase_spec, chars_of};
use crate::{RuleCategory, RuleMeta};

verus! {

/// components-return-once rule.
#[derive(Debug, Clone)]
pub struct ComponentsReturnOnce;

impl RuleMeta for ComponentsReturnOnce {
    const NAME: &'static str = "components-return-once";
    const CATEGORY: RuleCategory = RuleCategory::Correctness;
}

/// A function, class or variable declaration.
pub open spec fn is_declaration(s: Statement) -> bool {
    s is FunctionDeclaration || s is ClassDeclaration || s is VariableDeclaration
}

/// The index of the last statement that is not a declaration (the main
/// return of the component).
pub open spec fn last_non_declaration(ss: Seq<Statement>) -> Option<int>
    decreases ss.len(),
{
    if ss.len() == 0 {
        None
    } else if !is_declaration(ss.last()) {
        Some(ss.len() - 1)
    } else {
        last_non_declaration(ss.drop_last())
    }
}

/// The warning for an early return.
pub open spec fn early_return_diag(span: crate::span::Span) -> DiagnosticView {
    warning_spec(
        "components-return-once"@,
        span,
        "Solid components run once, so an early return breaks reactivity. Move the condition inside a JSX element, such as a fragment or <Show />."@,
    )
}

/// The early-return warnings among the first `n` statements: each return
/// that is not the main one.
pub open spec fn early_returns_spec(ss: Seq<Statement>, main: Option<int>, n: int) -> Seq<
    DiagnosticView,
>
    decreases n,
{
    if n <= 0 {
        Seq::empty()
    } else {
        early_returns_spec(ss, main, n - 1) + if main != Some(n - 1) && ss[n - 1] is Return {
            seq![early_return_diag(ss[n - 1]->Return_1)]
        } else {
            Seq::empty()
        }
    }
}

/// The warning for a main return whose argument is a conditional, or a
/// logical `&&`.
pub open spec fn conditional_return_spec(ss: Seq<Statement>, main: Option<int>) -> Seq<
    DiagnosticView,
> {
    match main {
        Some(i) => match ss[i] {
            Statement::Return(Some(Expression::Conditional(c)), _) => seq![
                with_help_spec(
                    warning_spec(
                        "components-return-once"@,
                        c.span,
                        "Solid components run once, so a conditional return breaks reactivity. Move the condition inside a JSX element, such as a fragment or <Show />."@,
                    ),
                    "Use <Show when={condition}> or <Switch><Match when={condition}> instead."@,
                ),
            ],
            Statement::Return(Some(Expression::Logical(l)), _) => if l.operator
                == LogicalOperator::And {
                seq![
                    with_help_spec(
                        warning_spec(
                            "components-return-once"@,
                            l.span,
                            "Solid components run once, so a conditional return breaks reactivity. Move the condition inside a JSX element, such as a fragment or <Show />."@,
                        ),
                        "Use <Show when={condition}> instead."@,
                    ),
                ]
            } else {
                Seq::empty()
            },
            _ => Seq::empty(),
        },
        None => Seq::empty(),
    }
}

/// The diagnostics for a component body.
pub open spec fn body_spec(body: FunctionBody) -> Seq<DiagnosticView> {
    let ss = body.statements@;
    let main = last_non_declaration(ss);
    early_returns_spec(ss, main, ss.len() as int) + conditional_return_spec(ss, main)
}

/// The diagnostics of the rule for a function: only components that are not
/// render props and whose name, if any, does not start lowercase.
pub open spec fn return_once_function_spec(func: Function, is_component: bool, is_render_prop: bool) -> Seq<
    DiagnosticView,
> {
    if !is_component || is_render_prop {
        Seq::empty()
    } else if func.id matches Some(id) && id.name@.len() > 0 && char_is_lowercase_spec(
        id.name@[0],
    ) {
        Seq::empty()
    } else {
        match func.body {
            Some(b) => body_spec(b),
            None => Seq::empty(),
        }
    }
}

/// The diagnostics of the rule for an arrow function.
pub open spec fn return_once_arrow_spec(arrow: Function, is_component: bool, is_render_prop: bool) -> Seq<
    DiagnosticView,
> {
    if !is_component || is_render_prop {
        Seq::empty()
    } else {
        match arrow.body {
            Some(b) => body_spec(b),
            None => Seq::empty(),
        }
    }
}

impl ComponentsReturnOnce {
    pub fn new() -> (r: Self) {
        ComponentsReturnOnce
    }

    /// Check a function for early returns and conditional returns.
    pub fn check_function(&self, func: &Function, is_component: bool, is_render_prop: bool) -> (r: Vec<
        Diagnostic,
    >)
        ensures
            diags_view(r@) == return_once_function_spec(*func, is_component, is_render_prop),
    {
        let empty: Vec<Diagnostic> = Vec::new();
        assert(diags_view(empty@) =~= Seq::<DiagnosticView>::empty());
        if !is_component || is_render_prop {
            return empty;
        }
        if let Some(id) = &func.id {
            let name = chars_of(id.name.as_str());
            if name.len() > 0 && char_is_lowercase(name[0]) {
                return empty;
            }
        }
        match &func.body {
            Some(body) => self.check_body(body),
            None => empty,
        }
    }

    /// Check an arrow function for early returns and conditional returns.
    pub fn check_arrow(&self, arrow: &Function, is_component: bool, is_render_prop: bool) -> (r: Vec<
        Diagnostic,
    >)
        ensures
            diags_view(r@) == return_once_arrow_spec(*arrow, is_component, is_render_prop),
    {
        let empty: Vec<Diagnostic> = Vec::new();
        assert(diags_view(empty@) =~= Seq::<DiagnosticView>::empty());
        if !is_component || is_render_prop {
            return empty;
        }
        match &arrow.body {
            Some(body) => self.check_body(body),
            None => empty,
        }
    }

    fn is_declaration(s: &Statement) -> (r: bool)
        ensures
            r == is_declaration(*s),
    {
        match s {
            Statement::FunctionDeclaration(_) => true,
            Statement::ClassDeclaration(_) => true,
            Statement::VariableDeclaration(_) => true,
            _ => false,
        }
    }

    fn last_non_declaration(statements: &Vec<Statement>) -> (r: Option<usize>)
        ensures
            match r {
                Some(i) => last_non_declaration(statements@) == Some(i as int),
                None => last_non_declaration(statements@) == None::<int>,
            },
            r matches Some(i) ==> i < statements@.len(),
    {
        let ghost ss = statements@;
        let mut n: usize = statements.len();
        assert(ss.subrange(0, n as int) =~= ss);
        while n > 0
            invariant
                ss == statements@,
                n <= ss.len(),
                last_non_declaration(ss) == last_non_declaration(ss.subrange(0, n as int)),
            decreases n,
        {
            let ghost p = ss.subrange(0, n as int);
            assert(p.last() == ss[n - 1]);
            assert(p.drop_last() =~= ss.subrange(0, n - 1));
            if !Self::is_declaration(&statements[n - 1]) {
                return Some(n - 1);
            }
            n = n - 1;
        }
        None
    }

    fn check_body(&self, body: &FunctionBody) -> (r: Vec<Diagnostic>)
        ensures
            diags_view(r@) == body_spec(*body),
    {
        let mut diagnostics: Vec<Diagnostic> = Vec::new();
        let statements = &body.statements;
        let ghost ss = statements@;
        let main = Self::last_non_declaration(statements);
        let ghost gmain: Option<int> = match main {
            Some(i) => Some(i as int),
            None => None,
        };
        assert(gmain == last_non_declaration(ss));
        assert(diags_view(diagnostics@) =~= early_returns_spec(ss, gmain, 0));
        let mut k: usize = 0;
        while k < statements.len()
            invariant
                ss == statements@,
                gmain == match main {
                    Some(i) => Some(i as int),
                    None => None,
                },
                k <= ss.len(),
                diags_view(diagnostics@) == early_returns_spec(ss, gmain, k as int),
            decreases ss.len() - k,
        {
            let ghost before = diags_view(diagnostics@);
            let is_main = match main {
                Some(i) => i == k,
                None => false,
            };
            if !is_main {
                if let Statement::Return(_, span) = &statements[k] {
                    let d = Diagnostic::warning(
                        Self::NAME,
                        *span,
                        "Solid components run once, so an early return breaks reactivity. Move the condition inside a JSX element, such as a fragment or <Show />.",
                    );
                    diagnostics.push(d);
                    assert(diags_view(diagnostics@) =~= before.push(d@));
                }
            }
            assert(diags_view(diagnostics@) =~= early_returns_spec(ss, gmain, k + 1));
            k = k + 1;
        }
        let ghost head = diags_view(diagnostics@);
        if let Some(i) = main {
            if let Statement::Return(Some(arg), _) = &statements[i] {
                match arg {
                    Expression::Conditional(cond) => {
                        let d = Diagnostic::warning(
                            Self::NAME,
                            cond.span,
                            "Solid components run once, so a conditional return breaks reactivity. Move the condition inside a JSX element, such as a fragment or <Show />.",
                        ).with_help(
                            "Use <Show when={condition}> or <Switch><Match when={condition}> instead.",
                        );
                        diagnostics.push(d);
                        assert(diags_view(diagnostics@) =~= head.push(d@));
                    },
                    Expression::Logical(logical) => {
                        let is_and = match logical.operator {
                            LogicalOperator::And => true,
                            _ => false,
                        };
                        if is_and {
                            let d = Diagnostic::warning(
                                Self::NAME,
                                logical.span,
                                "Solid components run once, so a conditional return breaks reactivity. Move the condition inside a JSX element, such as a fragment or <Show />.",
                            ).with_help("Use <Show when={condition}> instead.");
                            diagnostics.push(d);
                            assert(diags_view(diagnostics@) =~= head.push(d@));
                        }
                    },
                    _ => {},
                }
            }
        }
        assert(diags_view(diagnostics@) =~= head + conditional_return_spec(ss, gmain));
        diagnostics
    }
}

} // verus!
