use vstd::prelude::*;

pub mod context;
pub mod css;
pub mod diagnostic;
pub mod dom;
pub mod dom_output;
pub mod dom_element;
pub mod dom_component;
pub mod dom_node;
pub mod expression;
pub mod jsx;
pub mod name_set;
pub mod options;
pub mod program;
pub mod rules;
pub mod semantic_visitor;
pub mod source;
pub mod span;
pub mod ssr;
pub mod ssr_component;
pub mod ssr_element;
pub mod ssr_node;
pub mod text;
pub mod utils;
pub mod visitor;

pub use context::LintContext;
pub use diagnostic::{Diagnostic, DiagnosticSeverity, Fix};
pub use source::SourceKind;
pub use span::Span;
pub use visitor::{lint, lint_with_config, LintResult, LintRunner, RulesConfig, VisitorLintContext};

verus! {

/// Rule category for Solid rules.
#[derive(Debug, Clone, Copy, PartialEq, Eq, Structural)]
pub enum RuleCategory {
    /// Rules that detect code that is likely to be incorrect
    Correctness,
    /// Rules that suggest improvements
    Pedantic,
    /// Rules that encourage best practices
    Style,
    /// Rules that may have false positives (experimental)
    Nursery,
}

/// Rule metadata.
pub trait RuleMeta {
    const NAME: &'static str;
    const CATEGORY: RuleCategory;

    /// URL of the rule's documentation.
    fn docs_url() -> (r: String)
        ensures
            r@ == "https://github.com/solidjs-community/eslint-plugin-solid/blob/main/docs/"@
                + Self::NAME@ + ".md"@,
    {
        let mut s = text::to_owned(
            "https://github.com/solidjs-community/eslint-plugin-solid/blob/main/docs/",
        );
        text::push_str(&mut s, Self::NAME);
        text::push_str(&mut s, ".md");
        s
    }
}

} // verus!
