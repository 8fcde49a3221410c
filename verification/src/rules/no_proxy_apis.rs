//! solid/no-proxy-apis: disallow APIs that use ES6 Proxies, for
//! environments that do not support them.
use vstd::prelude::*;
use crate::diagnostic::{
    concat_map, diags_view, lemma_concat_map_full, lemma_concat_map_step, warning_spec, Diagnostic,
    DiagnosticView,
};
use crate::jsx::{Argument, CallExpression, Expression, ImportDeclaration, JsxSpreadAttribute};
use crate::text::str_eq;
use crate::{RuleCategory, RuleMeta};

verus! {

/// no-proxy-apis rule.
#[derive(Debug, Clone)]
pub struct NoProxyApis;

impl RuleMeta for NoProxyApis {
    const NAME: &'static str = "no-proxy-apis";
    const CATEGORY: RuleCategory = RuleCategory::Correctness;
}

/// An import from `solid-js/store` is reported.
pub open spec fn proxy_import_spec(import: ImportDeclaration) -> Seq<DiagnosticView> {
    if import.source@ == "solid-js/store"@ {
        seq![
            warning_spec(
                "no-proxy-apis"@,
                import.span,
                "Solid Store APIs use Proxies, which are incompatible with your target environment."@,
            ),
        ]
    } else {
        Seq::empty()
    }
}

/// A JSX spread of a property access or of a function call is reported.
pub open spec fn proxy_spread_spec(spread: JsxSpreadAttribute) -> Seq<DiagnosticView> {
    if spread.argument is StaticMember || spread.argument is ComputedMember {
        seq![
            warning_spec(
                "no-proxy-apis"@,
                spread.span,
                "Using a property access in JSX spread makes Solid use Proxies, which are incompatible with your target environment."@,
            ),
        ]
    } else if spread.argument is Call {
        seq![
            warning_spec(
                "no-proxy-apis"@,
                spread.span,
                "Using a function call in JSX spread makes Solid use Proxies, which are incompatible with your target environment."@,
            ),
        ]
    } else {
        Seq::empty()
    }
}

/// `new Proxy(...)` is reported.
pub open spec fn proxy_new_spec(new_expr: CallExpression) -> Seq<DiagnosticView> {
    match new_expr.callee {
        Expression::Identifier(i) => if i.name@ == "Proxy"@ {
            seq![
                warning_spec(
                    "no-proxy-apis"@,
                    new_expr.span,
                    "Proxies are incompatible with your target environment."@,
                ),
            ]
        } else {
            Seq::empty()
        },
        _ => Seq::empty(),
    }
}

/// `Proxy.revocable(...)` is reported.
pub open spec fn proxy_revocable_spec(call: CallExpression) -> Seq<DiagnosticView> {
    match call.callee {
        Expression::StaticMember(m) => match m.object {
            Expression::Identifier(o) => if o.name@ == "Proxy"@ && m.property.name@
                == "revocable"@ {
                seq![
                    warning_spec(
                        "no-proxy-apis"@,
                        call.span,
                        "Proxies are incompatible with your target environment."@,
                    ),
                ]
            } else {
                Seq::empty()
            },
            _ => Seq::empty(),
        },
        _ => Seq::empty(),
    }
}

/// An argument of `mergeProps` that may be a function: a spread, an
/// identifier or a function expression.
pub open spec fn merge_props_arg_spec(arg: Argument) -> Seq<DiagnosticView> {
    let problematic = match arg {
        Argument::Spread(_) => true,
        Argument::Expression(e) => e is Identifier || e is Arrow || e is Function,
    };
    if problematic {
        seq![
            warning_spec(
                "no-proxy-apis"@,
                arg.spec_span(),
                "If you pass a function to `mergeProps`, it will create a Proxy, which is incompatible with your target environment."@,
            ),
        ]
    } else {
        Seq::empty()
    }
}

/// The diagnostics of the rule for a call expression.
pub open spec fn proxy_call_spec(call: CallExpression) -> Seq<DiagnosticView> {
    proxy_revocable_spec(call) + match call.callee {
        Expression::Identifier(c) => if c.name@ == "mergeProps"@ {
            concat_map(call.arguments@, |a: Argument| merge_props_arg_spec(a))
        } else {
            Seq::empty()
        },
        _ => Seq::empty(),
    }
}

impl NoProxyApis {
    pub fn new() -> (r: Self) {
        NoProxyApis
    }

    /// Check an import declaration for `solid-js/store`.
    pub fn check_import(&self, import: &ImportDeclaration) -> (r: Vec<Diagnostic>)
        ensures
            diags_view(r@) == proxy_import_spec(*import),
    {
        let mut diagnostics: Vec<Diagnostic> = Vec::new();
        if str_eq(import.source.as_str(), "solid-js/store") {
            let d = Diagnostic::warning(
                Self::NAME,
                import.span,
                "Solid Store APIs use Proxies, which are incompatible with your target environment.",
            );
            diagnostics.push(d);
            assert(diags_view(diagnostics@) =~= seq![d@]);
        } else {
            assert(diags_view(diagnostics@) =~= Seq::<DiagnosticView>::empty());
        }
        diagnostics
    }

    /// Check a JSX spread attribute for proxy-creating patterns.
    pub fn check_spread(&self, spread: &JsxSpreadAttribute) -> (r: Vec<Diagnostic>)
        ensures
            diags_view(r@) == proxy_spread_spec(*spread),
    {
        let mut diagnostics: Vec<Diagnostic> = Vec::new();
        let is_member = match &spread.argument {
            Expression::StaticMember(_) => true,
            Expression::ComputedMember(_) => true,
            _ => false,
        };
        let is_call = match &spread.argument {
            Expression::Call(_) => true,
            _ => false,
        };
        if is_member {
            let d = Diagnostic::warning(
                Self::NAME,
                spread.span,
                "Using a property access in JSX spread makes Solid use Proxies, which are incompatible with your target environment.",
            );
            diagnostics.push(d);
            assert(diags_view(diagnostics@) =~= seq![d@]);
        } else if is_call {
            let d = Diagnostic::warning(
                Self::NAME,
                spread.span,
                "Using a function call in JSX spread makes Solid use Proxies, which are incompatible with your target environment.",
            );
            diagnostics.push(d);
            assert(diags_view(diagnostics@) =~= seq![d@]);
        } else {
            assert(diags_view(diagnostics@) =~= Seq::<DiagnosticView>::empty());
        }
        diagnostics
    }

    /// Check a `new` expression (its callee, arguments and span) for
    /// `new Proxy()`.
    pub fn check_new_expression(&self, new_expr: &CallExpression) -> (r: Vec<Diagnostic>)
        ensures
            diags_view(r@) == proxy_new_spec(*new_expr),
    {
        let mut diagnostics: Vec<Diagnostic> = Vec::new();
        assert(diags_view(diagnostics@) =~= Seq::<DiagnosticView>::empty());
        if let Expression::Identifier(ident) = &new_expr.callee {
            if str_eq(ident.name.as_str(), "Proxy") {
                let d = Diagnostic::warning(
                    Self::NAME,
                    new_expr.span,
                    "Proxies are incompatible with your target environment.",
                );
                diagnostics.push(d);
                assert(diags_view(diagnostics@) =~= seq![d@]);
            }
        }
        diagnostics
    }

    /// Check a call expression for `Proxy.revocable()` and for `mergeProps`
    /// given functions.
    pub fn check_call(&self, call: &CallExpression) -> (r: Vec<Diagnostic>)
        ensures
            diags_view(r@) == proxy_call_spec(*call),
    {
        let mut diagnostics: Vec<Diagnostic> = Vec::new();
        assert(diags_view(diagnostics@) =~= Seq::<DiagnosticView>::empty());
        if let Expression::StaticMember(member) = &call.callee {
            if let Expression::Identifier(obj) = &member.object {
                if str_eq(obj.name.as_str(), "Proxy") && str_eq(
                    member.property.name.as_str(),
                    "revocable",
                ) {
                    let d = Diagnostic::warning(
                        Self::NAME,
                        call.span,
                        "Proxies are incompatible with your target environment.",
                    );
                    diagnostics.push(d);
                    assert(diags_view(diagnostics@) =~= seq![d@]);
                }
            }
        }
        assert(diags_view(diagnostics@) == proxy_revocable_spec(*call));
        let ghost head = diags_view(diagnostics@);
        if let Expression::Identifier(callee) = &call.callee {
            if str_eq(callee.name.as_str(), "mergeProps") {
                let ghost f = |a: Argument| merge_props_arg_spec(a);
                let mut k: usize = 0;
                while k < call.arguments.len()
                    invariant
                        f == (|a: Argument| merge_props_arg_spec(a)),
                        k <= call.arguments@.len(),
                        diags_view(diagnostics@) == head + concat_map(
                            call.arguments@.subrange(0, k as int),
                            f,
                        ),
                    decreases call.arguments@.len() - k,
                {
                    proof {
                        lemma_concat_map_step(call.arguments@, f, k as int);
                    }
                    let arg = &call.arguments[k];
                    let problematic = match arg {
                        Argument::Spread(_) => true,
                        Argument::Expression(e) => match e {
                            Expression::Identifier(_) => true,
                            Expression::Arrow(_) => true,
                            Expression::Function(_) => true,
                            _ => false,
                        },
                    };
                    let ghost before = diags_view(diagnostics@);
                    if problematic {
                        let d = Diagnostic::warning(
                            Self::NAME,
                            arg.span(),
                            "If you pass a function to `mergeProps`, it will create a Proxy, which is incompatible with your target environment.",
                        );
                        diagnostics.push(d);
                        assert(diags_view(diagnostics@) =~= before.push(d@));
                    }
                    assert(diags_view(diagnostics@) =~= before + f(call.arguments@[k as int]));
                    k = k + 1;
                }
                proof {
                    lemma_concat_map_full(call.arguments@, f);
                }
                return diagnostics;
            }
        }
        assert(diags_view(diagnostics@) =~= head + Seq::<DiagnosticView>::empty());
        diagnostics
    }
}

} // verus!
