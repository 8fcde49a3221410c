//! solid/no-react-specific-props: disallow React's `className`/`htmlFor`
//! props and useless `key` props on DOM elements.
use vstd::prelude::*;
use crate::diagnostic::{
    DiagnosticSeverity, diags_view, fix_msg_spec, warning_spec, with_fix_spec, with_help_spec, Diagnostic,
    DiagnosticView, Fix,
};
use crate::jsx::{JsxAttribute, JsxAttributeName, JsxOpeningElement};
use crate::span::Span;
use crate::text::{push_str, to_owned};
use crate::utils::{
    element_name_spec, first_attr_spec, get_attribute, get_element_name, has_attr_spec,
    has_attribute, is_dom_element, is_dom_element_spec,
};
use crate::{RuleCategory, RuleMeta};

verus! {

/// no-react-specific-props rule.
#[derive(Debug, Clone)]
pub struct NoReactSpecificProps;

impl RuleMeta for NoReactSpecificProps {
    const NAME: &'static str = "no-react-specific-props";
    const CATEGORY: RuleCategory = RuleCategory::Correctness;
}

/// The diagnostic for a React prop `from` whose Solid name is `to`, if the
/// element has it.
pub open spec fn react_prop_spec(opening: JsxOpeningElement, from: Seq<char>, to: Seq<char>) -> Seq<
    DiagnosticView,
> {
    match first_attr_spec(opening.attributes@, from) {
        Some(attr) => {
            let name_span = match attr.name {
                JsxAttributeName::Identifier(i) => i.span,
                _ => attr.span,
            };
            let d = warning_spec(
                "no-react-specific-props"@,
                attr.span,
                "Prefer the `"@ + to + "` prop over the deprecated `"@ + from + "` prop."@,
            );
            if !has_attr_spec(opening.attributes@, to) {
                seq![
                    with_fix_spec(
                        d,
                        fix_msg_spec(name_span, to, "Replace `"@ + from + "` with `"@ + to + "`"@),
                    ),
                ]
            } else {
                seq![d]
            }
        },
        None => Seq::empty(),
    }
}

/// The diagnostic for a `key` prop on a DOM element, if any.
pub open spec fn key_prop_spec(opening: JsxOpeningElement) -> Seq<DiagnosticView> {
    match element_name_spec(opening.name) {
        Some(name) => if is_dom_element_spec(name) {
            match first_attr_spec(opening.attributes@, "key"@) {
                Some(attr) => seq![
                    with_fix_spec(
                        with_help_spec(
                            warning_spec(
                                "no-react-specific-props"@,
                                attr.span,
                                "Elements in a <For> or <Index> list do not need a key prop."@,
                            ),
                            "Solid uses a different reconciliation strategy than React."@,
                        ),
                        fix_msg_spec(attr.span, Seq::empty(), "Remove `key` prop"@),
                    ),
                ],
                None => Seq::empty(),
            }
        } else {
            Seq::empty()
        },
        None => Seq::empty(),
    }
}

/// All diagnostics of the rule for an opening element.
pub open spec fn no_react_specific_props_spec(opening: JsxOpeningElement) -> Seq<DiagnosticView> {
    react_prop_spec(opening, "className"@, "class"@) + react_prop_spec(opening, "htmlFor"@, "for"@)
        + key_prop_spec(opening)
}

/// The message that reports React prop `from` in place of Solid's `to`.
pub open spec fn react_prop_message(from: Seq<char>, to: Seq<char>) -> Seq<char> {
    "Prefer the `"@ + to + "` prop over the deprecated `"@ + from + "` prop."@
}

/// The `i`th diagnostic reports React prop `from` of `opening` as the rule
/// asks: a warning of the rule with its message, at the first attribute so
/// named, carrying a fix that renames it to `to` exactly when `to` is
/// absent.
pub open spec fn reports_react_prop(
    ds: Seq<DiagnosticView>,
    i: int,
    opening: JsxOpeningElement,
    from: Seq<char>,
    to: Seq<char>,
) -> bool {
    let attr = first_attr_spec(opening.attributes@, from)->0;
    &&& 0 <= i < ds.len()
    &&& ds[i].rule == "no-react-specific-props"@
    &&& ds[i].severity == DiagnosticSeverity::Warning
    &&& ds[i].message == react_prop_message(from, to)
    &&& ds[i].start == attr.span.start
    &&& ds[i].end == attr.span.end
    &&& (ds[i].fixes.len() > 0 <==> !has_attr_spec(opening.attributes@, to))
    &&& (!has_attr_spec(opening.attributes@, to) ==> ds[i].fixes.len() == 1 && ds[i].fixes[0].replacement == to)
}

/// Each React prop the rule knows (`className` for `class`, `htmlFor` for
/// `for`) on an opening element is reported exactly once: one diagnostic
/// reports it as the rule asks, and no other carries its message.
pub proof fn lemma_react_prop_reported_once(opening: JsxOpeningElement, from: Seq<char>, to: Seq<char>)
    requires
        (from == "className"@ && to == "class"@) || (from == "htmlFor"@ && to == "for"@),
        has_attr_spec(opening.attributes@, from),
    ensures
        exists|i: int|
            #[trigger] reports_react_prop(no_react_specific_props_spec(opening), i, opening, from, to)
                && forall|j: int|
                0 <= j < no_react_specific_props_spec(opening).len() && j != i
                    ==> no_react_specific_props_spec(opening)[j].message != react_prop_message(from, to),
{
    reveal_strlit("Prefer the `");
    reveal_strlit("class");
    reveal_strlit("for");
    reveal_strlit("className");
    reveal_strlit("htmlFor");
    reveal_strlit("Elements in a <For> or <Index> list do not need a key prop.");
    let a = react_prop_spec(opening, "className"@, "class"@);
    let b = react_prop_spec(opening, "htmlFor"@, "for"@);
    let c = key_prop_spec(opening);
    let ds = no_react_specific_props_spec(opening);
    assert(ds == a + b + c);
    let m_class = react_prop_message("className"@, "class"@);
    let m_for = react_prop_message("htmlFor"@, "for"@);
    assert(m_class[12] == 'c');
    assert(m_for[12] == 'f');
    assert(m_class != m_for);
    assert(a.len() <= 1 && b.len() <= 1 && c.len() <= 1);
    assert(c.len() == 1 ==> c[0].message[0] == 'E');
    assert(m_class[0] == 'P' && m_for[0] == 'P');
    assert(a.len() == 1 ==> a[0].message == m_class);
    assert(b.len() == 1 ==> b[0].message == m_for);
    let i = if from == "className"@ {
        0int
    } else {
        a.len() as int
    };
    assert(reports_react_prop(ds, i, opening, from, to));
    assert forall|j: int| 0 <= j < ds.len() && j != i implies ds[j].message != react_prop_message(from, to) by {
        if j < a.len() {
            assert(ds[j] == a[j]);
        } else if j < a.len() + b.len() {
            assert(ds[j] == b[j - a.len()]);
        } else {
            assert(ds[j] == c[j - a.len() - b.len()]);
        }
    }
}

impl NoReactSpecificProps {
    pub fn new() -> (r: Self) {
        NoReactSpecificProps
    }

    fn check_react_prop(&self, opening: &JsxOpeningElement, from: &str, to: &str) -> (r: Vec<
        Diagnostic,
    >)
        ensures
            diags_view(r@) == react_prop_spec(*opening, from@, to@),
    {
        let mut diagnostics: Vec<Diagnostic> = Vec::new();
        if let Some(attr) = get_attribute(opening, from) {
            let attr_span = match &attr.name {
                JsxAttributeName::Identifier(ident) => ident.span,
                _ => attr.span,
            };
            let mut message = to_owned("Prefer the `");
            push_str(&mut message, to);
            push_str(&mut message, "` prop over the deprecated `");
            push_str(&mut message, from);
            push_str(&mut message, "` prop.");
            let mut diagnostic = Diagnostic::warning(Self::NAME, attr.span, message.as_str());
            if !has_attribute(opening, to) {
                let mut fix_message = to_owned("Replace `");
                push_str(&mut fix_message, from);
                push_str(&mut fix_message, "` with `");
                push_str(&mut fix_message, to);
                push_str(&mut fix_message, "`");
                diagnostic = diagnostic.with_fix(
                    Fix::new(attr_span, to).with_message(fix_message.as_str()),
                );
            }
            diagnostics.push(diagnostic);
            assert(diags_view(diagnostics@) =~= seq![diagnostic@]);
        } else {
            assert(diags_view(diagnostics@) =~= Seq::<DiagnosticView>::empty());
        }
        diagnostics
    }

    fn check_key(&self, opening: &JsxOpeningElement) -> (r: Vec<Diagnostic>)
        ensures
            diags_view(r@) == key_prop_spec(*opening),
    {
        proof {
            reveal_strlit("");
            assert(""@ =~= Seq::<char>::empty());
        }
        let mut diagnostics: Vec<Diagnostic> = Vec::new();
        assert(diags_view(diagnostics@) =~= Seq::<DiagnosticView>::empty());
        if let Some(name) = get_element_name(opening) {
            if is_dom_element(name.as_str()) {
                if let Some(key_attr) = get_attribute(opening, "key") {
                    let d = Diagnostic::warning(
                        Self::NAME,
                        key_attr.span,
                        "Elements in a <For> or <Index> list do not need a key prop.",
                    ).with_help("Solid uses a different reconciliation strategy than React.").with_fix(
                        Fix::new(key_attr.span, "").with_message("Remove `key` prop"),
                    );
                    diagnostics.push(d);
                    assert(diags_view(diagnostics@) =~= seq![d@]);
                }
            }
        }
        diagnostics
    }

    /// Check a JSX opening element for React-specific props.
    pub fn check(&self, opening: &JsxOpeningElement) -> (r: Vec<Diagnostic>)
        ensures
            diags_view(r@) == no_react_specific_props_spec(*opening),
    {
        let mut diagnostics = self.check_react_prop(opening, "className", "class");
        crate::diagnostic::extend_diags(
            &mut diagnostics,
            self.check_react_prop(opening, "htmlFor", "for"),
        );
        crate::diagnostic::extend_diags(&mut diagnostics, self.check_key(opening));
        diagnostics
    }
}

} // verus!
