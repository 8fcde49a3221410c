//! solid/self-closing-comp: disallow extra closing tags for elements
//! without children.
use vstd::prelude::*;
use crate::diagnostic::{
    diags_view, fix_msg_spec, warning_spec, with_fix_spec, Diagnostic, DiagnosticView, Fix,
};
use crate::jsx::{JsxChild, JsxOpeningElement};
use crate::span::Span;
use crate::text::{push_str, to_owned};
use crate::utils::{
    children_blank_spec, children_is_empty_or_multiline_whitespace, element_name_spec,
    get_element_name, is_component, is_component_spec, is_dom_element, is_dom_element_spec,
    is_void_element, void_elements_spec,
};
use crate::{RuleCategory, RuleMeta};

verus! {

/// Which components should be self-closing.
#[derive(Debug, Clone, Copy, PartialEq, Eq, Structural)]
pub enum SelfClosingOption {
    /// All matching elements should self-close.
    All,
    /// No elements should self-close.
    Never,
}

/// Which HTML elements should be self-closing.
#[derive(Debug, Clone, Copy, PartialEq, Eq, Structural)]
pub enum HtmlSelfClosingOption {
    /// All HTML elements should self-close when empty.
    All,
    /// Only void elements (br, hr, img, etc.) should self-close.
    Void,
    /// No HTML elements should self-close.
    Never,
}

impl Default for SelfClosingOption {
    fn default() -> (r: Self)
        ensures
            r == SelfClosingOption::All,
    {
        SelfClosingOption::All
    }
}

impl Default for HtmlSelfClosingOption {
    fn default() -> (r: Self)
        ensures
            r == HtmlSelfClosingOption::All,
    {
        HtmlSelfClosingOption::All
    }
}

/// Configuration for self-closing-comp.
#[derive(Debug, Clone, Copy, PartialEq, Eq, Structural)]
pub struct SelfClosingCompConfig {
    /// Which Solid components should be self-closing when possible.
    pub component: SelfClosingOption,
    /// Which native HTML elements should be self-closing when possible.
    pub html: HtmlSelfClosingOption,
}

impl Default for SelfClosingCompConfig {
    fn default() -> (r: Self)
        ensures
            r.component == SelfClosingOption::All,
            r.html == HtmlSelfClosingOption::All,
    {
        SelfClosingCompConfig { component: SelfClosingOption::All, html: HtmlSelfClosingOption::All }
    }
}

/// self-closing-comp rule.
#[derive(Debug, Clone)]
pub struct SelfClosingComp {
    pub config: SelfClosingCompConfig,
}

impl RuleMeta for SelfClosingComp {
    const NAME: &'static str = "self-closing-comp";
    const CATEGORY: RuleCategory = RuleCategory::Style;
}

/// The element should be self-closing when it can be.
pub open spec fn should_self_close_spec(config: SelfClosingCompConfig, opening: JsxOpeningElement) -> bool {
    if is_component_spec(opening.name) {
        config.component == SelfClosingOption::All
    } else {
        match element_name_spec(opening.name) {
            Some(name) => if is_dom_element_spec(name) {
                match config.html {
                    HtmlSelfClosingOption::All => true,
                    HtmlSelfClosingOption::Void => void_elements_spec().contains(name),
                    HtmlSelfClosingOption::Never => false,
                }
            } else {
                true
            },
            None => true,
        }
    }
}

/// The diagnostics of the rule for an element.
pub open spec fn self_closing_spec(
    config: SelfClosingCompConfig,
    opening: JsxOpeningElement,
    children: Seq<JsxChild>,
    closing_span: Option<Span>,
) -> Seq<DiagnosticView> {
    let is_self_closing = closing_span is None;
    if children_blank_spec(children) {
        let should = should_self_close_spec(config, opening);
        if should && !is_self_closing {
            let d = warning_spec(
                "self-closing-comp"@,
                opening.span,
                "Empty components are self-closing."@,
            );
            seq![
                with_fix_spec(
                    d,
                    fix_msg_spec(
                        Span { start: (opening.span.end - 1) as u32, end: closing_span->0.end },
                        " />"@,
                        "Make self-closing"@,
                    ),
                ),
            ]
        } else if !should && is_self_closing {
            match element_name_spec(opening.name) {
                Some(name) => seq![
                    with_fix_spec(
                        warning_spec(
                            "self-closing-comp"@,
                            opening.span,
                            "This element should not be self-closing."@,
                        ),
                        fix_msg_spec(
                            Span { start: (opening.span.end - 2) as u32, end: opening.span.end },
                            "></"@ + name + ">"@,
                            "Add closing tag"@,
                        ),
                    ),
                ],
                None => Seq::empty(),
            }
        } else {
            Seq::empty()
        }
    } else {
        Seq::empty()
    }
}

impl SelfClosingComp {
    pub fn new() -> (r: Self)
        ensures
            r.config.component == SelfClosingOption::All,
            r.config.html == HtmlSelfClosingOption::All,
    {
        SelfClosingComp { config: SelfClosingCompConfig::default() }
    }

    pub fn with_config(config: SelfClosingCompConfig) -> (r: Self)
        ensures
            r.config == config,
    {
        SelfClosingComp { config }
    }

    /// Check if an element should be self-closing when possible.
    fn should_be_self_closing(&self, opening: &JsxOpeningElement) -> (r: bool)
        ensures
            r == should_self_close_spec(self.config, *opening),
    {
        if is_component(opening) {
            matches!(self.config.component, SelfClosingOption::All)
        } else if let Some(name) = get_element_name(opening) {
            if is_dom_element(name.as_str()) {
                match self.config.html {
                    HtmlSelfClosingOption::All => true,
                    HtmlSelfClosingOption::Void => is_void_element(name.as_str()),
                    HtmlSelfClosingOption::Never => false,
                }
            } else {
                true
            }
        } else {
            true
        }
    }

    /// Check a JSX element for self-closing issues; `closing_span` is the
    /// span of the closing tag, `None` for a self-closing element.
    pub fn check(
        &self,
        opening: &JsxOpeningElement,
        children: &[JsxChild],
        closing_span: Option<Span>,
    ) -> (r: Vec<Diagnostic>)
        requires
            opening.span.end >= 1,
            closing_span is None ==> opening.span.end >= 2,
        ensures
            diags_view(r@) == self_closing_spec(self.config, *opening, children@, closing_span),
    {
        let mut diagnostics: Vec<Diagnostic> = Vec::new();
        assert(diags_view(diagnostics@) =~= Seq::<DiagnosticView>::empty());
        let can_self_close = children_is_empty_or_multiline_whitespace(children);
        let is_self_closing = closing_span.is_none();
        if can_self_close {
            let should_self_close = self.should_be_self_closing(opening);
            if should_self_close && !is_self_closing {
                let mut diagnostic = Diagnostic::warning(
                    Self::NAME,
                    opening.span,
                    "Empty components are self-closing.",
                );
                if let Some(closing) = closing_span {
                    let fix_start = opening.span.end - 1;
                    let fix_end = closing.end;
                    diagnostic = diagnostic.with_fix(
                        Fix::new(Span::new(fix_start, fix_end), " />").with_message(
                            "Make self-closing",
                        ),
                    );
                }
                diagnostics.push(diagnostic);
                assert(diags_view(diagnostics@) =~= seq![diagnostic@]);
            } else if !should_self_close && is_self_closing {
                if let Some(name) = get_element_name(opening) {
                    let mut replacement = to_owned("></");
                    push_str(&mut replacement, name.as_str());
                    push_str(&mut replacement, ">");
                    let diagnostic = Diagnostic::warning(
                        Self::NAME,
                        opening.span,
                        "This element should not be self-closing.",
                    ).with_fix(
                        Fix::new(
                            Span::new(opening.span.end - 2, opening.span.end),
                            replacement.as_str(),
                        ).with_message("Add closing tag"),
                    );
                    diagnostics.push(diagnostic);
                    assert(diags_view(diagnostics@) =~= seq![diagnostic@]);
                }
            }
        }
        diagnostics
    }
}

} // verus!
