//! solid/validate-jsx-nesting: common HTML nesting mistakes in JSX.
use vstd::prelude::*;
use crate::diagnostic::{diags_view, extend_diags, warning_spec, Diagnostic, DiagnosticView};
use crate::jsx::{JsxChild, JsxElement, JsxElementName};
use crate::text::{char_is_uppercase, char_is_uppercase_spec, chars_of, push_str, str_eq, str_in, strs_view, to_owned};
use crate::{RuleCategory, RuleMeta};

verus! {

/// validate-jsx-nesting rule.
#[derive(Debug, Clone)]
pub struct ValidateJsxNesting;

impl RuleMeta for ValidateJsxNesting {
    const NAME: &'static str = "validate-jsx-nesting";
    const CATEGORY: RuleCategory = RuleCategory::Correctness;
}

/// The children allowed in a parent that restricts its children, or `None`
/// for a parent that does not.
pub open spec fn allowed_children_spec(parent: Seq<char>) -> Option<Seq<Seq<char>>> {
    if parent == "ul"@ || parent == "ol"@ {
        Some(seq!["li"@, "script"@, "template"@])
    } else if parent == "table"@ {
        Some(
            seq![
                "caption"@,
                "colgroup"@,
                "thead"@,
                "tbody"@,
                "tfoot"@,
                "tr"@,
                "script"@,
                "template"@,
            ],
        )
    } else if parent == "thead"@ || parent == "tbody"@ || parent == "tfoot"@ {
        Some(seq!["tr"@, "script"@, "template"@])
    } else if parent == "tr"@ {
        Some(seq!["th"@, "td"@, "script"@, "template"@])
    } else if parent == "select"@ {
        Some(seq!["option"@, "optgroup"@, "script"@, "template"@])
    } else if parent == "optgroup"@ {
        Some(seq!["option"@, "script"@, "template"@])
    } else if parent == "dl"@ {
        Some(seq!["dt"@, "dd"@, "div"@, "script"@, "template"@])
    } else if parent == "colgroup"@ {
        Some(seq!["col"@, "template"@])
    } else {
        None
    }
}

/// Elements that cannot be nested inside themselves.
pub open spec fn no_self_nesting_spec() -> Seq<Seq<char>> {
    seq!["a"@, "button"@, "form"@, "label"@, "p"@, "h1"@, "h2"@, "h3"@, "h4"@, "h5"@, "h6"@]
}

/// Block-level elements.
pub open spec fn block_elements_spec() -> Seq<Seq<char>> {
    seq![
        "address"@, "article"@, "aside"@, "blockquote"@, "details"@, "dialog"@, "dd"@, "div"@,
        "dl"@, "dt"@, "fieldset"@, "figcaption"@, "figure"@, "footer"@, "form"@, "h1"@, "h2"@,
        "h3"@, "h4"@, "h5"@, "h6"@, "header"@, "hgroup"@, "hr"@, "li"@, "main"@, "nav"@, "ol"@,
        "p"@, "pre"@, "section"@, "table"@, "ul"@,
    ]
}

/// Inline elements, which cannot contain block-level elements.
pub open spec fn inline_elements_spec() -> Seq<Seq<char>> {
    seq![
        "a"@, "abbr"@, "b"@, "bdi"@, "bdo"@, "cite"@, "code"@, "data"@, "dfn"@, "em"@, "i"@,
        "kbd"@, "mark"@, "q"@, "rp"@, "rt"@, "ruby"@, "s"@, "samp"@, "small"@, "span"@,
        "strong"@, "sub"@, "sup"@, "time"@, "u"@, "var"@,
    ]
}

/// The name of an element written as a plain identifier.
pub open spec fn plain_name(name: JsxElementName) -> Option<Seq<char>> {
    match name {
        JsxElementName::Identifier(i) => Some(i.name@),
        JsxElementName::IdentifierReference(i) => Some(i.name@),
        _ => None,
    }
}

/// The name starts with an uppercase character (a component).
pub open spec fn starts_uppercase(name: Seq<char>) -> bool {
    name.len() > 0 && char_is_uppercase_spec(name[0])
}

/// The diagnostics for an element named `name` placed in `parent`.
pub open spec fn placement_spec(span: crate::span::Span, name: Seq<char>, parent: Seq<char>) -> Seq<
    DiagnosticView,
> {
    let restrict = match allowed_children_spec(parent) {
        Some(allowed) => if !allowed.contains(name) {
            seq![
                warning_spec(
                    "validate-jsx-nesting"@,
                    span,
                    "<"@ + name + "> cannot be a child of <"@ + parent + ">."@,
                ),
            ]
        } else {
            Seq::empty()
        },
        None => Seq::empty(),
    };
    let self_nest = if no_self_nesting_spec().contains(parent) && parent == name {
        seq![
            warning_spec(
                "validate-jsx-nesting"@,
                span,
                "<"@ + name + "> cannot be nested inside another <"@ + parent + ">."@,
            ),
        ]
    } else {
        Seq::empty()
    };
    let block_in_inline = if inline_elements_spec().contains(parent)
        && block_elements_spec().contains(name) {
        seq![
            warning_spec(
                "validate-jsx-nesting"@,
                span,
                "Block element <"@ + name + "> cannot be a child of inline element <"@ + parent
                    + ">."@,
            ),
        ]
    } else {
        Seq::empty()
    };
    restrict + self_nest + block_in_inline
}

/// The diagnostics for an element and, recursively, its element children,
/// given the name of its parent element.
pub open spec fn nesting_spec(e: JsxElement, parent: Option<Seq<char>>) -> Seq<DiagnosticView>
    decreases e, e.children@.len() + 1,
{
    match plain_name(e.opening_element.name) {
        Some(name) => if starts_uppercase(name) {
            Seq::empty()
        } else {
            let own = match parent {
                Some(p) => placement_spec(e.opening_element.span, name, p),
                None => Seq::empty(),
            };
            own + children_nesting_spec(e, name, e.children@.len() as int)
        },
        None => Seq::empty(),
    }
}

/// The diagnostics of the first `n` children of `e`, whose name is `name`.
pub open spec fn children_nesting_spec(e: JsxElement, name: Seq<char>, n: int) -> Seq<
    DiagnosticView,
>
    decreases e, n,
{
    if n <= 0 || n > e.children@.len() {
        Seq::empty()
    } else {
        children_nesting_spec(e, name, n - 1) + match e.children@[n - 1] {
            JsxChild::Element(c) => {
                proof {
                    assert(decreases_to!(e => e.children));
                    assert(decreases_to!(e.children => e.children@));
                }
                nesting_spec(*c, Some(name))
            },
            _ => Seq::empty(),
        }
    }
}

impl ValidateJsxNesting {
    pub fn new() -> (r: Self) {
        ValidateJsxNesting
    }

    /// Whether `parent` restricts its children, and if so whether `child`
    /// is among those it allows.
    fn allowed_in(parent: &str, child: &str) -> (r: Option<bool>)
        ensures
            r == match allowed_children_spec(parent@) {
                Some(allowed) => Some(allowed.contains(child@)),
                None => None::<bool>,
            },
    {
        if str_eq(parent, "ul") || str_eq(parent, "ol") {
            let l = ["li", "script", "template"];
            assert(strs_view(l@) =~= seq!["li"@, "script"@, "template"@]);
            Some(str_in(child, &l))
        } else if str_eq(parent, "table") {
            let l = ["caption", "colgroup", "thead", "tbody", "tfoot", "tr", "script", "template"];
            assert(strs_view(l@) =~= seq![
                "caption"@,
                "colgroup"@,
                "thead"@,
                "tbody"@,
                "tfoot"@,
                "tr"@,
                "script"@,
                "template"@,
            ]);
            Some(str_in(child, &l))
        } else if str_eq(parent, "thead") || str_eq(parent, "tbody") || str_eq(parent, "tfoot") {
            let l = ["tr", "script", "template"];
            assert(strs_view(l@) =~= seq!["tr"@, "script"@, "template"@]);
            Some(str_in(child, &l))
        } else if str_eq(parent, "tr") {
            let l = ["th", "td", "script", "template"];
            assert(strs_view(l@) =~= seq!["th"@, "td"@, "script"@, "template"@]);
            Some(str_in(child, &l))
        } else if str_eq(parent, "select") {
            let l = ["option", "optgroup", "script", "template"];
            assert(strs_view(l@) =~= seq!["option"@, "optgroup"@, "script"@, "template"@]);
            Some(str_in(child, &l))
        } else if str_eq(parent, "optgroup") {
            let l = ["option", "script", "template"];
            assert(strs_view(l@) =~= seq!["option"@, "script"@, "template"@]);
            Some(str_in(child, &l))
        } else if str_eq(parent, "dl") {
            let l = ["dt", "dd", "div", "script", "template"];
            assert(strs_view(l@) =~= seq!["dt"@, "dd"@, "div"@, "script"@, "template"@]);
            Some(str_in(child, &l))
        } else if str_eq(parent, "colgroup") {
            let l = ["col", "template"];
            assert(strs_view(l@) =~= seq!["col"@, "template"@]);
            Some(str_in(child, &l))
        } else {
            None
        }
    }

    /// The diagnostics for an element named `name` placed in `parent`.
    fn check_placement(span: crate::span::Span, name: &str, parent: &str) -> (r: Vec<Diagnostic>)
        ensures
            diags_view(r@) == placement_spec(span, name@, parent@),
    {
        let mut diagnostics: Vec<Diagnostic> = Vec::new();
        let ghost v0 = diags_view(diagnostics@);
        assert(v0 =~= Seq::<DiagnosticView>::empty());
        if let Some(allowed) = Self::allowed_in(parent, name) {
            if !allowed {
                let mut message = to_owned("<");
                push_str(&mut message, name);
                push_str(&mut message, "> cannot be a child of <");
                push_str(&mut message, parent);
                push_str(&mut message, ">.");
                let d = Diagnostic::warning(Self::NAME, span, message.as_str());
                diagnostics.push(d);
                assert(diags_view(diagnostics@) =~= seq![d@]);
            }
        }
        let ghost v1 = diags_view(diagnostics@);
        let self_nesting = ["a", "button", "form", "label", "p", "h1", "h2", "h3", "h4", "h5", "h6"];
        assert(strs_view(self_nesting@) =~= no_self_nesting_spec());
        if str_in(parent, &self_nesting) && str_eq(parent, name) {
            let mut message = to_owned("<");
            push_str(&mut message, name);
            push_str(&mut message, "> cannot be nested inside another <");
            push_str(&mut message, parent);
            push_str(&mut message, ">.");
            let d = Diagnostic::warning(Self::NAME, span, message.as_str());
            diagnostics.push(d);
            assert(diags_view(diagnostics@) =~= v1.push(d@));
        } else {
            assert(diags_view(diagnostics@) =~= v1 + Seq::<DiagnosticView>::empty());
        }
        let ghost v2 = diags_view(diagnostics@);
        let inline = [
            "a", "abbr", "b", "bdi", "bdo", "cite", "code", "data", "dfn", "em", "i", "kbd", "mark",
            "q", "rp", "rt", "ruby", "s", "samp", "small", "span", "strong", "sub", "sup", "time",
            "u", "var",
        ];
        assert(strs_view(inline@) =~= inline_elements_spec());
        let block = [
            "address", "article", "aside", "blockquote", "details", "dialog", "dd", "div", "dl",
            "dt", "fieldset", "figcaption", "figure", "footer", "form", "h1", "h2", "h3", "h4",
            "h5", "h6", "header", "hgroup", "hr", "li", "main", "nav", "ol", "p", "pre", "section",
            "table", "ul",
        ];
        assert(strs_view(block@) =~= block_elements_spec());
        if str_in(parent, &inline) && str_in(name, &block) {
            let mut message = to_owned("Block element <");
            push_str(&mut message, name);
            push_str(&mut message, "> cannot be a child of inline element <");
            push_str(&mut message, parent);
            push_str(&mut message, ">.");
            let d = Diagnostic::warning(Self::NAME, span, message.as_str());
            diagnostics.push(d);
            assert(diags_view(diagnostics@) =~= v2.push(d@));
        } else {
            assert(diags_view(diagnostics@) =~= v2 + Seq::<DiagnosticView>::empty());
        }
        diagnostics
    }

    /// Check a JSX element, and recursively its element children, for
    /// nesting violations; `parent_name` is the name of the enclosing
    /// element, if any.
    pub fn check(&self, element: &JsxElement, parent_name: Option<&str>) -> (r: Vec<Diagnostic>)
        ensures
            diags_view(r@) == nesting_spec(
                *element,
                match parent_name {
                    Some(p) => Some(p@),
                    None => None,
                },
            ),
        decreases element, element.children@.len() + 1,
    {
        let mut diagnostics: Vec<Diagnostic> = Vec::new();
        assert(diags_view(diagnostics@) =~= Seq::<DiagnosticView>::empty());
        let element_name = match &element.opening_element.name {
            JsxElementName::Identifier(ident) => ident.name.as_str(),
            JsxElementName::IdentifierReference(ident) => ident.name.as_str(),
            _ => {
                return diagnostics;
            },
        };
        let name_chars = chars_of(element_name);
        if name_chars.len() > 0 && char_is_uppercase(name_chars[0]) {
            return diagnostics;
        }
        if let Some(parent) = parent_name {
            diagnostics = Self::check_placement(element.opening_element.span, element_name, parent);
        }
        let ghost head = diags_view(diagnostics@);
        let ghost name = element_name@;
        let mut k: usize = 0;
        while k < element.children.len()
            invariant
                name == element_name@,
                k <= element.children@.len(),
                diags_view(diagnostics@) == head + children_nesting_spec(*element, name, k as int),
            decreases element.children@.len() - k,
        {
            let ghost before = diags_view(diagnostics@);
            if let JsxChild::Element(child) = &element.children[k] {
                proof {
                    assert(decreases_to!(*element => element.children));
                    assert(decreases_to!(element.children => element.children@));
                    assert(element.children@[k as int] == JsxChild::Element(*child));
                }
                let sub = self.check(child, Some(element_name));
                extend_diags(&mut diagnostics, sub);
            }
            assert(diags_view(diagnostics@) =~= head + children_nesting_spec(*element, name, k + 1));
            k = k + 1;
        }
        diagnostics
    }
}

} // verus!
