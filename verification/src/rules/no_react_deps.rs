//! solid/no-react-deps: disallow dependency arrays in `createEffect` and
//! `createMemo`.
use vstd::prelude::*;
use crate::diagnostic::{
    diags_view, fix_msg_spec, warning_spec, with_fix_spec, Diagnostic, DiagnosticView, Fix,
};
use crate::jsx::{Argument, CallExpression, Expression};
use crate::span::Span;
use crate::text::{push_str, str_eq, to_owned};
use crate::{RuleCategory, RuleMeta};

verus! {

/// no-react-deps rule.
#[derive(Debug, Clone)]
pub struct NoReactDeps;

impl RuleMeta for NoReactDeps {
    const NAME: &'static str = "no-react-deps";
    const CATEGORY: RuleCategory = RuleCategory::Correctness;
}

/// A function or arrow function expression that declares no parameters.
pub open spec fn is_zero_param_function(e: Expression) -> bool {
    match e {
        Expression::Function(f) => f.params.items@.len() == 0,
        Expression::Arrow(f) => f.params.items@.len() == 0,
        _ => false,
    }
}

/// The diagnostics of the rule for a call: a warning on the dependency array
/// of `createEffect(() => ..., [...])` or `createMemo(() => ..., [...])`,
/// with a fix that removes it.
pub open spec fn no_react_deps_spec(call: CallExpression) -> Seq<DiagnosticView> {
    match call.callee {
        Expression::Identifier(callee) => {
            let args = call.arguments@;
            if (callee.name@ == "createEffect"@ || callee.name@ == "createMemo"@) && args.len() == 2 {
                match (args[0], args[1]) {
                    (Argument::Expression(first), Argument::Expression(second)) => {
                        if is_zero_param_function(first) && second is Array {
                            let second_span = second.spec_span();
                            seq![
                                with_fix_spec(
                                    warning_spec(
                                        "no-react-deps"@,
                                        second_span,
                                        "In Solid, `"@ + callee.name@
                                            + "` doesn't accept a dependency array because it automatically tracks its dependencies. If you really need to override the list of dependencies, use `on`."@,
                                    ),
                                    fix_msg_spec(
                                        Span { start: first.spec_span().end, end: second_span.end },
                                        Seq::empty(),
                                        "Remove dependency array"@,
                                    ),
                                ),
                            ]
                        } else {
                            Seq::empty()
                        }
                    },
                    _ => Seq::empty(),
                }
            } else {
                Seq::empty()
            }
        },
        _ => Seq::empty(),
    }
}

impl NoReactDeps {
    pub fn new() -> (r: Self) {
        NoReactDeps
    }

    fn is_zero_param_function(e: &Expression) -> (r: bool)
        ensures
            r == is_zero_param_function(*e),
    {
        match e {
            Expression::Function(f) => f.params.items.len() == 0,
            Expression::Arrow(f) => f.params.items.len() == 0,
            _ => false,
        }
    }

    /// Check a call expression for a React-style dependency array.
    pub fn check(&self, call: &CallExpression) -> (r: Vec<Diagnostic>)
        ensures
            diags_view(r@) == no_react_deps_spec(*call),
    {
        proof {
            reveal_strlit("");
            assert(""@ =~= Seq::<char>::empty());
        }
        let mut diagnostics: Vec<Diagnostic> = Vec::new();
        assert(diags_view(diagnostics@) =~= Seq::<DiagnosticView>::empty());
        let callee_name = match &call.callee {
            Expression::Identifier(ident) => ident.name.as_str(),
            _ => {
                return diagnostics;
            },
        };
        if !str_eq(callee_name, "createEffect") && !str_eq(callee_name, "createMemo") {
            return diagnostics;
        }
        if call.arguments.len() != 2 {
            return diagnostics;
        }
        let first_expr = match &call.arguments[0] {
            Argument::Spread(_) => {
                return diagnostics;
            },
            Argument::Expression(e) => e,
        };
        let second_expr = match &call.arguments[1] {
            Argument::Spread(_) => {
                return diagnostics;
            },
            Argument::Expression(e) => e,
        };
        if !Self::is_zero_param_function(first_expr) {
            return diagnostics;
        }
        let is_array = match second_expr {
            Expression::Array(_) => true,
            _ => false,
        };
        if !is_array {
            return diagnostics;
        }
        let second_span = second_expr.span();
        let mut message = to_owned("In Solid, `");
        push_str(&mut message, callee_name);
        push_str(
            &mut message,
            "` doesn't accept a dependency array because it automatically tracks its dependencies. If you really need to override the list of dependencies, use `on`.",
        );
        let fix_span = Span::new(first_expr.span().end, second_span.end);
        let diagnostic = Diagnostic::warning(Self::NAME, second_span, message.as_str()).with_fix(
            Fix::new(fix_span, "").with_message("Remove dependency array"),
        );
        diagnostics.push(diagnostic);
        assert(diags_view(diagnostics@) =~= seq![diagnostic@]);
        diagnostics
    }
}

} // verus!
