//! Running all enabled lint rules over the JSX nodes of a program, in the
//! order a traversal of the program meets them.
use vstd::prelude::*;
use crate::source::SourceKind;
use crate::diagnostic::{
    concat_map, diags_view, extend_diags, lemma_concat_map_append, lemma_concat_map_full,
    lemma_concat_map_nothing, lemma_concat_map_step, Diagnostic, DiagnosticSeverity,
    DiagnosticView,
};
use crate::jsx::{JsxChild, JsxElement, JsxFragment, JsxOpeningElement};
use crate::rules::jsx_no_duplicate_props::duplicate_props_spec;
use crate::rules::jsx_no_script_url::script_url_spec;
use crate::rules::jsx_uses_vars::used_vars_spec;
use crate::rules::no_innerhtml::no_innerhtml_spec;
use crate::rules::no_react_specific_props::no_react_specific_props_spec;
use crate::rules::no_unknown_namespaces::unknown_namespaces_spec;
use crate::rules::prefer_classlist::prefer_classlist_spec;
use crate::rules::prefer_for::prefer_for_children_spec;
use crate::rules::prefer_show::prefer_show_children_spec;
use crate::rules::self_closing_comp::self_closing_spec;
use crate::rules::style_prop::style_prop_spec;
use crate::rules::{
    JsxNoDuplicateProps, JsxNoScriptUrl, JsxUsesVars, NoInnerhtml, NoReactSpecificProps,
    NoUnknownNamespaces, PreferClasslist, PreferFor, PreferShow, SelfClosingComp,
    SelfClosingOption, HtmlSelfClosingOption, StyleProp,
};
use crate::text::{to_owned, views};

verus! {

/// Which rules are enabled, with their options.
#[derive(Debug, Clone)]
pub struct RulesConfig {
    pub jsx_no_duplicate_props: Option<JsxNoDuplicateProps>,
    pub jsx_no_script_url: Option<JsxNoScriptUrl>,
    pub jsx_uses_vars: bool,
    pub no_innerhtml: Option<NoInnerhtml>,
    pub no_react_specific_props: bool,
    pub no_unknown_namespaces: Option<NoUnknownNamespaces>,
    pub prefer_classlist: bool,
    pub prefer_for: bool,
    pub prefer_show: bool,
    pub self_closing_comp: Option<SelfClosingComp>,
    pub style_prop: Option<StyleProp>,
}

/// The default configuration: every rule enabled with its default options.
pub open spec fn is_default_config(c: RulesConfig) -> bool {
    &&& c.jsx_no_duplicate_props matches Some(r) && !r.config.ignore_case
    &&& c.jsx_no_script_url is Some
    &&& c.jsx_uses_vars
    &&& c.no_innerhtml matches Some(r) && r.allow_static
    &&& c.no_react_specific_props
    &&& c.no_unknown_namespaces matches Some(r) && r.allowed_namespaces@.len() == 0
    &&& c.prefer_classlist
    &&& c.prefer_for
    &&& c.prefer_show
    &&& c.self_closing_comp matches Some(r) && r.config.component == SelfClosingOption::All
        && r.config.html == HtmlSelfClosingOption::All
    &&& c.style_prop matches Some(r) && views(r.style_props@) == seq!["style"@] && !r.allow_string
}

/// Every rule disabled.
pub open spec fn is_empty_config(c: RulesConfig) -> bool {
    &&& c.jsx_no_duplicate_props is None
    &&& c.jsx_no_script_url is None
    &&& !c.jsx_uses_vars
    &&& c.no_innerhtml is None
    &&& !c.no_react_specific_props
    &&& c.no_unknown_namespaces is None
    &&& !c.prefer_classlist
    &&& !c.prefer_for
    &&& !c.prefer_show
    &&& c.self_closing_comp is None
    &&& c.style_prop is None
}

impl Default for RulesConfig {
    fn default() -> (r: Self)
        ensures
            is_default_config(r),
    {
        RulesConfig {
            jsx_no_duplicate_props: Some(JsxNoDuplicateProps::new()),
            jsx_no_script_url: Some(JsxNoScriptUrl::new()),
            jsx_uses_vars: true,
            no_innerhtml: Some(NoInnerhtml::new()),
            no_react_specific_props: true,
            no_unknown_namespaces: Some(NoUnknownNamespaces::new()),
            prefer_classlist: true,
            prefer_for: true,
            prefer_show: true,
            self_closing_comp: Some(SelfClosingComp::new()),
            style_prop: Some(StyleProp::new()),
        }
    }
}

impl RulesConfig {
    pub fn new() -> (r: Self)
        ensures
            is_default_config(r),
    {
        Self::default()
    }

    pub fn none() -> (r: Self)
        ensures
            is_empty_config(r),
    {
        RulesConfig {
            jsx_no_duplicate_props: None,
            jsx_no_script_url: None,
            jsx_uses_vars: false,
            no_innerhtml: None,
            no_react_specific_props: false,
            no_unknown_namespaces: None,
            prefer_classlist: false,
            prefer_for: false,
            prefer_show: false,
            self_closing_comp: None,
            style_prop: None,
        }
    }

    pub fn with_jsx_no_duplicate_props(self, rule: JsxNoDuplicateProps) -> (r: Self)
        ensures
            r == (RulesConfig { jsx_no_duplicate_props: Some(rule), ..self }),
    {
        RulesConfig { jsx_no_duplicate_props: Some(rule), ..self }
    }

    pub fn with_jsx_no_script_url(self, rule: JsxNoScriptUrl) -> (r: Self)
        ensures
            r == (RulesConfig { jsx_no_script_url: Some(rule), ..self }),
    {
        RulesConfig { jsx_no_script_url: Some(rule), ..self }
    }

    pub fn with_jsx_uses_vars(self, enabled: bool) -> (r: Self)
        ensures
            r == (RulesConfig { jsx_uses_vars: enabled, ..self }),
    {
        RulesConfig { jsx_uses_vars: enabled, ..self }
    }

    pub fn with_no_innerhtml(self, rule: NoInnerhtml) -> (r: Self)
        ensures
            r == (RulesConfig { no_innerhtml: Some(rule), ..self }),
    {
        RulesConfig { no_innerhtml: Some(rule), ..self }
    }

    pub fn with_no_react_specific_props(self, enabled: bool) -> (r: Self)
        ensures
            r == (RulesConfig { no_react_specific_props: enabled, ..self }),
    {
        RulesConfig { no_react_specific_props: enabled, ..self }
    }

    pub fn with_no_unknown_namespaces(self, rule: NoUnknownNamespaces) -> (r: Self)
        ensures
            r == (RulesConfig { no_unknown_namespaces: Some(rule), ..self }),
    {
        RulesConfig { no_unknown_namespaces: Some(rule), ..self }
    }

    pub fn with_prefer_classlist(self, enabled: bool) -> (r: Self)
        ensures
            r == (RulesConfig { prefer_classlist: enabled, ..self }),
    {
        RulesConfig { prefer_classlist: enabled, ..self }
    }

    pub fn with_prefer_for(self, enabled: bool) -> (r: Self)
        ensures
            r == (RulesConfig { prefer_for: enabled, ..self }),
    {
        RulesConfig { prefer_for: enabled, ..self }
    }

    pub fn with_prefer_show(self, enabled: bool) -> (r: Self)
        ensures
            r == (RulesConfig { prefer_show: enabled, ..self }),
    {
        RulesConfig { prefer_show: enabled, ..self }
    }

    pub fn with_self_closing_comp(self, rule: SelfClosingComp) -> (r: Self)
        ensures
            r == (RulesConfig { self_closing_comp: Some(rule), ..self }),
    {
        RulesConfig { self_closing_comp: Some(rule), ..self }
    }

    pub fn with_style_prop(self, rule: StyleProp) -> (r: Self)
        ensures
            r == (RulesConfig { style_prop: Some(rule), ..self }),
    {
        RulesConfig { style_prop: Some(rule), ..self }
    }
}

/// The source being linted.
pub struct VisitorLintContext<'a> {
    source_text: String,
    source_type: SourceKind,
    semantic: Option<&'a oxc_semantic::Semantic<'a>>,
}

impl<'a> VisitorLintContext<'a> {
    pub fn new(source_text: &str, source_type: SourceKind) -> (r: Self)
        ensures
            r.text() == source_text@,
            r.kind() == source_type,
            r.analysis() is None,
    {
        VisitorLintContext { source_text: to_owned(source_text), source_type, semantic: None }
    }

    /// The context with a semantic analysis attached.
    pub fn with_semantic(self, semantic: &'a oxc_semantic::Semantic<'a>) -> (r: Self)
        ensures
            r.analysis() == Some(semantic),
            r.text() == self.text(),
            r.kind() == self.kind(),
    {
        VisitorLintContext { semantic: Some(semantic), ..self }
    }

    /// The semantic analysis attached, if any.
    pub closed spec fn analysis(&self) -> Option<&'a oxc_semantic::Semantic<'a>> {
        self.semantic
    }

    /// The semantic analysis attached, if any.
    pub fn semantic(&self) -> (r: Option<&'a oxc_semantic::Semantic<'a>>)
        ensures
            r == self.analysis(),
    {
        self.semantic
    }

    /// The source text.
    pub closed spec fn text(&self) -> Seq<char> {
        self.source_text@
    }

    /// The source type.
    pub closed spec fn kind(&self) -> SourceKind {
        self.source_type
    }

    pub fn source_text(&self) -> (r: &str)
        ensures
            r@ == self.text(),
    {
        self.source_text.as_str()
    }

    pub fn source_type(&self) -> (r: SourceKind)
        ensures
            r == self.kind(),
    {
        self.source_type
    }
}

/// A JSX node met by a traversal of the program. A traversal meets an
/// element, then its opening element, then the nodes inside it.
pub enum JsxNode {
    Element(JsxElement),
    OpeningElement(JsxOpeningElement),
    Fragment(JsxFragment),
}

/// The diagnostics of jsx-no-duplicate-props for an element, if enabled.
#[verifier::opaque]
pub open spec fn duplicate_props_part(c: RulesConfig, e: JsxElement) -> Seq<DiagnosticView> {
    match c.jsx_no_duplicate_props {
        Some(r) => duplicate_props_spec(e.opening_element, e.children@, r.config.ignore_case),
        None => Seq::empty(),
    }
}

/// The diagnostics of no-innerhtml for an element, if enabled.
#[verifier::opaque]
pub open spec fn innerhtml_part(c: RulesConfig, e: JsxElement) -> Seq<DiagnosticView> {
    match c.no_innerhtml {
        Some(r) => no_innerhtml_spec(r.allow_static, e),
        None => Seq::empty(),
    }
}

/// The diagnostics of self-closing-comp for an element, if enabled.
#[verifier::opaque]
pub open spec fn self_closing_part(c: RulesConfig, e: JsxElement) -> Seq<DiagnosticView> {
    match c.self_closing_comp {
        Some(r) => self_closing_spec(r.config, e.opening_element, e.children@, e.closing_element),
        None => Seq::empty(),
    }
}

/// The diagnostics of prefer-for for a list of children, if enabled.
#[verifier::opaque]
pub open spec fn prefer_for_part(c: RulesConfig, children: Seq<JsxChild>) -> Seq<DiagnosticView> {
    if c.prefer_for {
        prefer_for_children_spec(children)
    } else {
        Seq::empty()
    }
}

/// The diagnostics of prefer-show for a list of children, if enabled.
#[verifier::opaque]
pub open spec fn prefer_show_part(c: RulesConfig, source: Seq<char>, children: Seq<JsxChild>) -> Seq<
    DiagnosticView,
> {
    if c.prefer_show {
        prefer_show_children_spec(children, source)
    } else {
        Seq::empty()
    }
}

/// The diagnostics of jsx-no-script-url for an opening element, if enabled.
#[verifier::opaque]
pub open spec fn script_url_part(c: RulesConfig, o: JsxOpeningElement) -> Seq<DiagnosticView> {
    if c.jsx_no_script_url is Some {
        script_url_spec(o)
    } else {
        Seq::empty()
    }
}

/// The diagnostics of no-react-specific-props for an opening element, if
/// enabled.
#[verifier::opaque]
pub open spec fn react_props_part(c: RulesConfig, o: JsxOpeningElement) -> Seq<DiagnosticView> {
    if c.no_react_specific_props {
        no_react_specific_props_spec(o)
    } else {
        Seq::empty()
    }
}

/// The diagnostics of no-unknown-namespaces for an opening element, if
/// enabled.
#[verifier::opaque]
pub open spec fn namespaces_part(c: RulesConfig, o: JsxOpeningElement) -> Seq<DiagnosticView> {
    match c.no_unknown_namespaces {
        Some(r) => unknown_namespaces_spec(views(r.allowed_namespaces@), o),
        None => Seq::empty(),
    }
}

/// The diagnostics of style-prop for an opening element, if enabled.
#[verifier::opaque]
pub open spec fn style_part(c: RulesConfig, o: JsxOpeningElement) -> Seq<DiagnosticView> {
    match c.style_prop {
        Some(r) => style_prop_spec(views(r.style_props@), r.allow_string, o),
        None => Seq::empty(),
    }
}

/// The diagnostics of prefer-classlist for an opening element, if enabled.
#[verifier::opaque]
pub open spec fn classlist_part(c: RulesConfig, o: JsxOpeningElement) -> Seq<DiagnosticView> {
    if c.prefer_classlist {
        prefer_classlist_spec(seq!["cn"@, "clsx"@, "classnames"@], o)
    } else {
        Seq::empty()
    }
}

/// The diagnostics of the rules that look at whole elements, in the order
/// the rules run.
pub open spec fn element_diags_spec(c: RulesConfig, source: Seq<char>, e: JsxElement) -> Seq<
    DiagnosticView,
> {
    duplicate_props_part(c, e) + innerhtml_part(c, e) + self_closing_part(c, e) + prefer_for_part(
        c,
        e.children@,
    ) + prefer_show_part(c, source, e.children@)
}

/// The diagnostics of the rules that look at opening elements, in the order
/// the rules run.
pub open spec fn opening_diags_spec(c: RulesConfig, o: JsxOpeningElement) -> Seq<DiagnosticView> {
    script_url_part(c, o) + react_props_part(c, o) + namespaces_part(c, o) + style_part(c, o)
        + classlist_part(c, o)
}

/// The diagnostics of the rules that look at fragments.
pub open spec fn fragment_diags_spec(c: RulesConfig, source: Seq<char>, f: JsxFragment) -> Seq<
    DiagnosticView,
> {
    prefer_for_part(c, f.children@) + prefer_show_part(c, source, f.children@)
}

/// The diagnostics produced at one node.
pub open spec fn node_diags_spec(c: RulesConfig, source: Seq<char>, n: JsxNode) -> Seq<
    DiagnosticView,
> {
    match n {
        JsxNode::Element(e) => element_diags_spec(c, source, e),
        JsxNode::OpeningElement(o) => opening_diags_spec(c, o),
        JsxNode::Fragment(f) => fragment_diags_spec(c, source, f),
    }
}

/// The names recorded as used at one node.
pub open spec fn node_vars_spec(c: RulesConfig, n: JsxNode) -> Seq<Seq<char>> {
    match n {
        JsxNode::OpeningElement(o) => if c.jsx_uses_vars {
            used_vars_spec(o)
        } else {
            Seq::empty()
        },
        _ => Seq::empty(),
    }
}

/// The spans of an element are those of parsed source: its opening tag
/// ends after at least one character, and after two when it closes itself.
pub open spec fn node_spans_ok(n: JsxNode) -> bool {
    match n {
        JsxNode::Element(e) => e.opening_element.span.end >= 1 && (e.closing_element is None
            ==> e.opening_element.span.end >= 2),
        _ => true,
    }
}

fn empty_diags() -> (r: Vec<Diagnostic>)
    ensures
        diags_view(r@) == Seq::<DiagnosticView>::empty(),
{
    let r: Vec<Diagnostic> = Vec::new();
    assert(diags_view(r@) =~= Seq::<DiagnosticView>::empty());
    r
}

/// Runs the enabled rules on each JSX node it is given.
pub struct LintRunner<'a> {
    ctx: VisitorLintContext<'a>,
    config: RulesConfig,
    diagnostics: Vec<Diagnostic>,
    used_vars: Vec<String>,
}

impl<'a> LintRunner<'a> {
    pub closed spec fn source(&self) -> Seq<char> {
        self.ctx.text()
    }

    pub closed spec fn rules(&self) -> RulesConfig {
        self.config
    }

    /// The diagnostics collected so far.
    pub closed spec fn collected(&self) -> Seq<DiagnosticView> {
        diags_view(self.diagnostics@)
    }

    /// The variable names recorded as used so far.
    pub closed spec fn used(&self) -> Seq<Seq<char>> {
        views(self.used_vars@)
    }

    pub fn new(ctx: VisitorLintContext<'a>, config: RulesConfig) -> (r: Self)
        ensures
            r.source() == ctx.text(),
            r.rules() == config,
            r.collected() == Seq::<DiagnosticView>::empty(),
            r.used() == Seq::<Seq<char>>::empty(),
    {
        let r = LintRunner { ctx, config, diagnostics: Vec::new(), used_vars: Vec::new() };
        assert(diags_view(r.diagnostics@) =~= Seq::<DiagnosticView>::empty());
        assert(views(r.used_vars@) =~= Seq::<Seq<char>>::empty());
        r
    }

    fn duplicate_props_diags(&self, element: &JsxElement) -> (r: Vec<Diagnostic>)
        ensures
            diags_view(r@) == duplicate_props_part(self.config, *element),
    {
        reveal(duplicate_props_part);
        match &self.config.jsx_no_duplicate_props {
            Some(rule) => rule.check(&element.opening_element, element.children.as_slice()),
            None => empty_diags(),
        }
    }

    fn innerhtml_diags(&self, element: &JsxElement) -> (r: Vec<Diagnostic>)
        ensures
            diags_view(r@) == innerhtml_part(self.config, *element),
    {
        reveal(innerhtml_part);
        match &self.config.no_innerhtml {
            Some(rule) => rule.check(element),
            None => empty_diags(),
        }
    }

    fn self_closing_diags(&self, element: &JsxElement) -> (r: Vec<Diagnostic>)
        requires
            node_spans_ok(JsxNode::Element(*element)),
        ensures
            diags_view(r@) == self_closing_part(self.config, *element),
    {
        reveal(self_closing_part);
        match &self.config.self_closing_comp {
            Some(rule) => rule.check(
                &element.opening_element,
                element.children.as_slice(),
                element.closing_element,
            ),
            None => empty_diags(),
        }
    }

    fn prefer_for_diags(&self, children: &Vec<JsxChild>) -> (r: Vec<Diagnostic>)
        ensures
            diags_view(r@) == prefer_for_part(self.config, children@),
    {
        reveal(prefer_for_part);
        if self.config.prefer_for {
            PreferFor::new().check_children(children)
        } else {
            empty_diags()
        }
    }

    fn prefer_show_diags(&self, children: &Vec<JsxChild>) -> (r: Vec<Diagnostic>)
        ensures
            diags_view(r@) == prefer_show_part(self.config, self.ctx.text(), children@),
    {
        reveal(prefer_show_part);
        if self.config.prefer_show {
            PreferShow::new().check_children(children, self.ctx.source_text.as_str())
        } else {
            empty_diags()
        }
    }

    fn script_url_diags(&self, opening: &JsxOpeningElement) -> (r: Vec<Diagnostic>)
        ensures
            diags_view(r@) == script_url_part(self.config, *opening),
    {
        reveal(script_url_part);
        match &self.config.jsx_no_script_url {
            Some(rule) => rule.check(opening),
            None => empty_diags(),
        }
    }

    fn react_props_diags(&self, opening: &JsxOpeningElement) -> (r: Vec<Diagnostic>)
        ensures
            diags_view(r@) == react_props_part(self.config, *opening),
    {
        reveal(react_props_part);
        if self.config.no_react_specific_props {
            NoReactSpecificProps::new().check(opening)
        } else {
            empty_diags()
        }
    }

    fn namespaces_diags(&self, opening: &JsxOpeningElement) -> (r: Vec<Diagnostic>)
        ensures
            diags_view(r@) == namespaces_part(self.config, *opening),
    {
        reveal(namespaces_part);
        match &self.config.no_unknown_namespaces {
            Some(rule) => rule.check(opening),
            None => empty_diags(),
        }
    }

    fn style_diags(&self, opening: &JsxOpeningElement) -> (r: Vec<Diagnostic>)
        ensures
            diags_view(r@) == style_part(self.config, *opening),
    {
        reveal(style_part);
        match &self.config.style_prop {
            Some(rule) => rule.check(opening),
            None => empty_diags(),
        }
    }

    fn classlist_diags(&self, opening: &JsxOpeningElement) -> (r: Vec<Diagnostic>)
        ensures
            diags_view(r@) == classlist_part(self.config, *opening),
    {
        reveal(classlist_part);
        if self.config.prefer_classlist {
            PreferClasslist::new().check(opening)
        } else {
            empty_diags()
        }
    }

    /// Run the rules that look at a whole JSX element.
    pub fn check_jsx_element(&mut self, element: &JsxElement)
        requires
            node_spans_ok(JsxNode::Element(*element)),
        ensures
            final(self).source() == old(self).source(),
            final(self).rules() == old(self).rules(),
            final(self).used() == old(self).used(),
            final(self).collected() == old(self).collected() + element_diags_spec(
                old(self).rules(),
                old(self).source(),
                *element,
            ),
    {
        let ghost start = diags_view(self.diagnostics@);
        let d1 = self.duplicate_props_diags(element);
        let d2 = self.innerhtml_diags(element);
        let d3 = self.self_closing_diags(element);
        let d4 = self.prefer_for_diags(&element.children);
        let d5 = self.prefer_show_diags(&element.children);
        extend_diags(&mut self.diagnostics, d1);
        extend_diags(&mut self.diagnostics, d2);
        extend_diags(&mut self.diagnostics, d3);
        extend_diags(&mut self.diagnostics, d4);
        extend_diags(&mut self.diagnostics, d5);
        assert(diags_view(self.diagnostics@) =~= start + element_diags_spec(
            self.config,
            self.ctx.text(),
            *element,
        ));
    }

    /// Run the rules that look at a JSX opening element, and record the
    /// variables it uses.
    pub fn check_jsx_opening_element(&mut self, opening: &JsxOpeningElement)
        ensures
            final(self).source() == old(self).source(),
            final(self).rules() == old(self).rules(),
            final(self).collected() == old(self).collected() + opening_diags_spec(
                old(self).rules(),
                *opening,
            ),
            final(self).used() == old(self).used() + node_vars_spec(
                old(self).rules(),
                JsxNode::OpeningElement(*opening),
            ),
    {
        let ghost start = diags_view(self.diagnostics@);
        let d1 = self.script_url_diags(opening);
        let d2 = self.react_props_diags(opening);
        let d3 = self.namespaces_diags(opening);
        let d4 = self.style_diags(opening);
        let d5 = self.classlist_diags(opening);
        extend_diags(&mut self.diagnostics, d1);
        extend_diags(&mut self.diagnostics, d2);
        extend_diags(&mut self.diagnostics, d3);
        extend_diags(&mut self.diagnostics, d4);
        extend_diags(&mut self.diagnostics, d5);
        assert(diags_view(self.diagnostics@) =~= start + opening_diags_spec(self.config, *opening));
        let ghost used_before = views(self.used_vars@);
        if self.config.jsx_uses_vars {
            let rule = JsxUsesVars::new();
            let mut vars = rule.collect_used_vars(opening);
            let ghost vv = views(vars@);
            self.used_vars.append(&mut vars);
            assert(views(self.used_vars@) =~= used_before + vv);
        } else {
            assert(views(self.used_vars@) =~= used_before + Seq::<Seq<char>>::empty());
        }
    }

    /// Run the rules that look at a JSX fragment.
    pub fn check_jsx_fragment(&mut self, fragment: &JsxFragment)
        ensures
            final(self).source() == old(self).source(),
            final(self).rules() == old(self).rules(),
            final(self).used() == old(self).used(),
            final(self).collected() == old(self).collected() + fragment_diags_spec(
                old(self).rules(),
                old(self).source(),
                *fragment,
            ),
    {
        let ghost start = diags_view(self.diagnostics@);
        let d1 = self.prefer_for_diags(&fragment.children);
        let d2 = self.prefer_show_diags(&fragment.children);
        extend_diags(&mut self.diagnostics, d1);
        extend_diags(&mut self.diagnostics, d2);
        assert(diags_view(self.diagnostics@) =~= start + fragment_diags_spec(
            self.config,
            self.ctx.text(),
            *fragment,
        ));
    }

    /// Run the rules that apply to one node.
    pub fn visit(&mut self, node: &JsxNode)
        requires
            node_spans_ok(*node),
        ensures
            final(self).source() == old(self).source(),
            final(self).rules() == old(self).rules(),
            final(self).collected() == old(self).collected() + node_diags_spec(
                old(self).rules(),
                old(self).source(),
                *node,
            ),
            final(self).used() == old(self).used() + node_vars_spec(old(self).rules(), *node),
    {
        match node {
            JsxNode::Element(e) => {
                self.check_jsx_element(e);
                assert(self.used() =~= old(self).used() + Seq::<Seq<char>>::empty());
            },
            JsxNode::OpeningElement(o) => self.check_jsx_opening_element(o),
            JsxNode::Fragment(f) => {
                self.check_jsx_fragment(f);
                assert(self.used() =~= old(self).used() + Seq::<Seq<char>>::empty());
            },
        }
    }

    /// Run all enabled rules on the JSX nodes of a program, given in the
    /// order a traversal of the program meets them.
    pub fn run(self, nodes: &[JsxNode]) -> (r: LintResult)
        requires
            forall|i: int| 0 <= i < nodes@.len() ==> node_spans_ok(#[trigger] nodes@[i]),
        ensures
            diags_view(r.diagnostics@) == self.collected() + concat_map(
                nodes@,
                |n: JsxNode| node_diags_spec(self.rules(), self.source(), n),
            ),
            views(r.used_vars@) == self.used() + concat_map(
                nodes@,
                |n: JsxNode| node_vars_spec(self.rules(), n),
            ),
    {
        let mut runner = self;
        let ghost c = self.rules();
        let ghost src = self.source();
        let ghost f = |n: JsxNode| node_diags_spec(c, src, n);
        let ghost g = |n: JsxNode| node_vars_spec(c, n);
        let mut k: usize = 0;
        while k < nodes.len()
            invariant
                forall|i: int| 0 <= i < nodes@.len() ==> node_spans_ok(#[trigger] nodes@[i]),
                f == (|n: JsxNode| node_diags_spec(c, src, n)),
                g == (|n: JsxNode| node_vars_spec(c, n)),
                runner.rules() == c,
                runner.source() == src,
                k <= nodes@.len(),
                runner.collected() == self.collected() + concat_map(nodes@.subrange(0, k as int), f),
                runner.used() == self.used() + concat_map(nodes@.subrange(0, k as int), g),
            decreases nodes@.len() - k,
        {
            proof {
                lemma_concat_map_step(nodes@, f, k as int);
                lemma_concat_map_step(nodes@, g, k as int);
            }
            runner.visit(&nodes[k]);
            k = k + 1;
        }
        proof {
            lemma_concat_map_full(nodes@, f);
            lemma_concat_map_full(nodes@, g);
        }
        LintResult { diagnostics: runner.diagnostics, used_vars: runner.used_vars }
    }
}

/// The result of running the linter.
#[derive(Debug)]
pub struct LintResult {
    pub diagnostics: Vec<Diagnostic>,
    pub used_vars: Vec<String>,
}

/// The number of diagnostics with the given severity.
pub open spec fn count_severity(ds: Seq<DiagnosticView>, severity: DiagnosticSeverity) -> nat
    decreases ds.len(),
{
    if ds.len() == 0 {
        0
    } else {
        count_severity(ds.drop_last(), severity) + if ds.last().severity == severity {
            1nat
        } else {
            0nat
        }
    }
}

impl LintResult {
    /// Some diagnostic is an error.
    pub fn has_errors(&self) -> (r: bool)
        ensures
            r <==> exists|i: int|
                0 <= i < self.diagnostics@.len() && #[trigger] self.diagnostics@[i].severity
                    == DiagnosticSeverity::Error,
    {
        let mut k: usize = 0;
        while k < self.diagnostics.len()
            invariant
                k <= self.diagnostics@.len(),
                forall|i: int|
                    0 <= i < k ==> #[trigger] self.diagnostics@[i].severity
                        != DiagnosticSeverity::Error,
            decreases self.diagnostics@.len() - k,
        {
            if let DiagnosticSeverity::Error = self.diagnostics[k].severity {
                return true;
            }
            k = k + 1;
        }
        false
    }

    /// There is at least one diagnostic, whatever its severity.
    pub fn has_warnings(&self) -> (r: bool)
        ensures
            r <==> self.diagnostics@.len() > 0,
    {
        self.diagnostics.len() > 0
    }

    fn count(&self, severity: DiagnosticSeverity) -> (r: usize)
        ensures
            r == count_severity(diags_view(self.diagnostics@), severity),
    {
        let ghost ds = diags_view(self.diagnostics@);
        let mut n: usize = 0;
        let mut k: usize = 0;
        while k < self.diagnostics.len()
            invariant
                ds == diags_view(self.diagnostics@),
                k <= self.diagnostics@.len(),
                n == count_severity(ds.subrange(0, k as int), severity),
                n <= k,
            decreases self.diagnostics@.len() - k,
        {
            assert(ds.subrange(0, k + 1).drop_last() =~= ds.subrange(0, k as int));
            if self.diagnostics[k].severity == severity {
                n = n + 1;
            }
            k = k + 1;
        }
        assert(ds.subrange(0, ds.len() as int) =~= ds);
        n
    }

    /// The number of error diagnostics.
    pub fn error_count(&self) -> (r: usize)
        ensures
            r == count_severity(diags_view(self.diagnostics@), DiagnosticSeverity::Error),
    {
        self.count(DiagnosticSeverity::Error)
    }

    /// The number of warning diagnostics.
    pub fn warning_count(&self) -> (r: usize)
        ensures
            r == count_severity(diags_view(self.diagnostics@), DiagnosticSeverity::Warning),
    {
        self.count(DiagnosticSeverity::Warning)
    }
}

/// A result has errors exactly when it counts some, and its errors and
/// warnings together are no more than its diagnostics.
pub proof fn lemma_result_counts(ds: Seq<DiagnosticView>)
    ensures
        count_severity(ds, DiagnosticSeverity::Error) > 0 <==> exists|i: int|
            0 <= i < ds.len() && #[trigger] ds[i].severity == DiagnosticSeverity::Error,
        count_severity(ds, DiagnosticSeverity::Error) + count_severity(
            ds,
            DiagnosticSeverity::Warning,
        ) <= ds.len(),
    decreases ds.len(),
{
    if ds.len() > 0 {
        let init = ds.drop_last();
        lemma_result_counts(init);
        if count_severity(init, DiagnosticSeverity::Error) > 0 {
            let i = choose|i: int|
                0 <= i < init.len() && #[trigger] init[i].severity == DiagnosticSeverity::Error;
            assert(ds[i] == init[i]);
        }
        if exists|i: int| 0 <= i < ds.len() && #[trigger] ds[i].severity == DiagnosticSeverity::Error {
            let i = choose|i: int|
                0 <= i < ds.len() && #[trigger] ds[i].severity == DiagnosticSeverity::Error;
            if i < init.len() {
                assert(init[i] == ds[i]);
            }
        }
    }
}

/// With every rule disabled, a node produces no diagnostic and records no
/// variable.
pub proof fn lemma_disabled_rules_report_nothing(c: RulesConfig, source: Seq<char>, n: JsxNode)
    requires
        is_empty_config(c),
    ensures
        node_diags_spec(c, source, n).len() == 0,
        node_vars_spec(c, n).len() == 0,
{
    reveal(duplicate_props_part);
    reveal(innerhtml_part);
    reveal(self_closing_part);
    reveal(prefer_for_part);
    reveal(prefer_show_part);
    reveal(script_url_part);
    reveal(react_props_part);
    reveal(namespaces_part);
    reveal(style_part);
    reveal(classlist_part);
}

/// With every rule disabled, linting reports nothing and records no
/// variable, whatever the program.
pub proof fn lemma_disabled_lint_is_empty(c: RulesConfig, source: Seq<char>, nodes: Seq<JsxNode>)
    requires
        is_empty_config(c),
    ensures
        concat_map(nodes, |n: JsxNode| node_diags_spec(c, source, n)).len() == 0,
        concat_map(nodes, |n: JsxNode| node_vars_spec(c, n)).len() == 0,
{
    let f = |n: JsxNode| node_diags_spec(c, source, n);
    let g = |n: JsxNode| node_vars_spec(c, n);
    assert forall|i: int| 0 <= i < nodes.len() implies f(#[trigger] nodes[i]).len() == 0 by {
        lemma_disabled_rules_report_nothing(c, source, nodes[i]);
    }
    assert forall|i: int| 0 <= i < nodes.len() implies g(#[trigger] nodes[i]).len() == 0 by {
        lemma_disabled_rules_report_nothing(c, source, nodes[i]);
    }
    lemma_concat_map_nothing(nodes, f);
    lemma_concat_map_nothing(nodes, g);
}

/// Linting the nodes of two parts of a program one after the other gives
/// the diagnostics and variables of the first part, then those of the
/// second.
pub proof fn lemma_lint_splits(c: RulesConfig, source: Seq<char>, a: Seq<JsxNode>, b: Seq<JsxNode>)
    ensures
        concat_map(a + b, |n: JsxNode| node_diags_spec(c, source, n)) == concat_map(
            a,
            |n: JsxNode| node_diags_spec(c, source, n),
        ) + concat_map(b, |n: JsxNode| node_diags_spec(c, source, n)),
        concat_map(a + b, |n: JsxNode| node_vars_spec(c, n)) == concat_map(
            a,
            |n: JsxNode| node_vars_spec(c, n),
        ) + concat_map(b, |n: JsxNode| node_vars_spec(c, n)),
{
    lemma_concat_map_append(a, b, |n: JsxNode| node_diags_spec(c, source, n));
    lemma_concat_map_append(a, b, |n: JsxNode| node_vars_spec(c, n));
}

/// Lint the JSX nodes of a program with the default configuration.
pub fn lint(source_text: &str, nodes: &[JsxNode]) -> (r: LintResult)
    requires
        forall|i: int| 0 <= i < nodes@.len() ==> node_spans_ok(#[trigger] nodes@[i]),
    ensures
        exists|c: RulesConfig|
            is_default_config(c) && diags_view(r.diagnostics@) == concat_map(
                nodes@,
                |n: JsxNode| node_diags_spec(c, source_text@, n),
            ) && views(r.used_vars@) == concat_map(nodes@, |n: JsxNode| node_vars_spec(c, n)),
{
    let ctx = VisitorLintContext::new(source_text, SourceKind::jsx());
    let config = RulesConfig::default();
    let runner = LintRunner::new(ctx, config);
    let r = runner.run(nodes);
    assert(diags_view(r.diagnostics@) =~= concat_map(
        nodes@,
        |n: JsxNode| node_diags_spec(config, source_text@, n),
    ));
    assert(views(r.used_vars@) =~= concat_map(nodes@, |n: JsxNode| node_vars_spec(config, n)));
    r
}

/// Lint the JSX nodes of a program with the given configuration.
pub fn lint_with_config(
    source_text: &str,
    source_type: SourceKind,
    nodes: &[JsxNode],
    config: RulesConfig,
) -> (r: LintResult)
    requires
        forall|i: int| 0 <= i < nodes@.len() ==> node_spans_ok(#[trigger] nodes@[i]),
    ensures
        diags_view(r.diagnostics@) == concat_map(
            nodes@,
            |n: JsxNode| node_diags_spec(config, source_text@, n),
        ),
        views(r.used_vars@) == concat_map(nodes@, |n: JsxNode| node_vars_spec(config, n)),
{
    let ctx = VisitorLintContext::new(source_text, source_type);
    let runner = LintRunner::new(ctx, config);
    let r = runner.run(nodes);
    assert(diags_view(r.diagnostics@) =~= concat_map(
        nodes@,
        |n: JsxNode| node_diags_spec(config, source_text@, n),
    ));
    assert(views(r.used_vars@) =~= concat_map(nodes@, |n: JsxNode| node_vars_spec(config, n)));
    r
}

} // verus!
