//! solid/jsx-no-undef: disallow references to undefined variables in JSX,
//! including custom directives (`use:X`).
use vstd::prelude::*;
use crate::diagnostic::{
    concat_map, diags_view, error_spec, fix_msg_spec, lemma_concat_map_filter, lemma_concat_map_full,
    lemma_concat_map_step, opt_diag_spec, push_opt, with_fix_spec, with_help_spec, Diagnostic,
    DiagnosticView, Fix,
};
use crate::jsx::{
    ImportDeclaration, JsxAttributeItem, JsxAttributeName, JsxElementName, JsxOpeningElement,
    Program, Statement,
};
use crate::span::Span;
use crate::text::{join, join_spec, push_str, str_eq, str_in, string_in, strs_view, to_owned, views};
use crate::utils::{is_dom_element, is_dom_element_spec, get_member_root, member_root_spec};
use crate::{RuleCategory, RuleMeta};

verus! {

/// Options for the jsx-no-undef rule.
#[derive(Debug, Clone, Copy, PartialEq, Eq, Structural)]
pub struct JsxNoUndefOptions {
    /// When true, consider global scope when checking for defined components.
    pub allow_globals: bool,
    /// Automatically suggest importing Solid components (Show, For, etc.).
    pub auto_import: bool,
    /// Don't report if TypeScript will catch undefined references.
    pub typescript_enabled: bool,
}

impl Default for JsxNoUndefOptions {
    fn default() -> (r: Self)
        ensures
            !r.allow_globals,
            r.auto_import,
            !r.typescript_enabled,
    {
        JsxNoUndefOptions { allow_globals: false, auto_import: true, typescript_enabled: false }
    }
}

/// jsx-no-undef rule.
#[derive(Debug, Clone)]
pub struct JsxNoUndef {
    pub options: JsxNoUndefOptions,
}

impl RuleMeta for JsxNoUndef {
    const NAME: &'static str = "jsx-no-undef";
    const CATEGORY: RuleCategory = RuleCategory::Correctness;
}

/// The names bound where an element stands: those its scope resolves
/// (`visible`) and those of the program's root scope (`root`).
#[derive(Debug)]
pub struct ScopeBindings {
    pub visible: Vec<String>,
    pub root: Vec<String>,
}

/// An identifier used in JSX that no binding defines.
#[derive(Debug)]
pub struct UndefinedIdent {
    pub name: String,
    pub span: Span,
    pub is_component: bool,
    pub is_custom_directive: bool,
}

pub open spec fn undefined_view(u: UndefinedIdent) -> (Seq<char>, Span, bool, bool) {
    (u.name@, u.span, u.is_component, u.is_custom_directive)
}

pub open spec fn undefined_views(v: Seq<UndefinedIdent>) -> Seq<(Seq<char>, Span, bool, bool)> {
    v.map_values(|u: UndefinedIdent| undefined_view(u))
}

/// Solid's control-flow components that can be auto-imported, in sorted
/// order.
pub open spec fn auto_components_sorted() -> Seq<Seq<char>> {
    seq!["For"@, "Index"@, "Match"@, "Show"@, "Switch"@]
}

/// `name` is defined in the scope.
pub open spec fn is_defined_spec(options: JsxNoUndefOptions, scope: ScopeBindings, name: Seq<char>) -> bool {
    views(scope.visible@).contains(name) || (options.allow_globals && views(scope.root@).contains(
        name,
    ))
}

/// The undefined reference made by the element name, if any.
pub open spec fn undefined_name_spec(
    options: JsxNoUndefOptions,
    scope: ScopeBindings,
    name: JsxElementName,
) -> Seq<(Seq<char>, Span, bool, bool)> {
    match name {
        JsxElementName::Identifier(i) => if !is_dom_element_spec(i.name@) && i.name@ != "this"@
            && !is_defined_spec(options, scope, i.name@) {
            seq![(i.name@, i.span, true, false)]
        } else {
            Seq::empty()
        },
        JsxElementName::IdentifierReference(i) => if !is_dom_element_spec(i.name@) && i.name@
            != "this"@ && !is_defined_spec(options, scope, i.name@) {
            seq![(i.name@, i.span, true, false)]
        } else {
            Seq::empty()
        },
        JsxElementName::MemberExpression(m) => match member_root_spec(m) {
            Some((n, s)) => if n != "this"@ && !is_defined_spec(options, scope, n) {
                seq![(n, s, false, false)]
            } else {
                Seq::empty()
            },
            None => Seq::empty(),
        },
        _ => Seq::empty(),
    }
}

/// The undefined custom directive of an attribute item, if any.
pub open spec fn undefined_directive_spec(
    options: JsxNoUndefOptions,
    scope: ScopeBindings,
    item: JsxAttributeItem,
) -> Seq<(Seq<char>, Span, bool, bool)> {
    match item {
        JsxAttributeItem::Attribute(a) => match a.name {
            JsxAttributeName::NamespacedName(ns) => if ns.namespace.name@ == "use"@
                && !is_defined_spec(options, scope, ns.name.name@) {
                seq![(ns.name.name@, ns.name.span, false, true)]
            } else {
                Seq::empty()
            },
            _ => Seq::empty(),
        },
        _ => Seq::empty(),
    }
}

/// All undefined references of an opening element, in order.
pub open spec fn undefined_refs_spec(
    options: JsxNoUndefOptions,
    scope: ScopeBindings,
    opening: JsxOpeningElement,
) -> Seq<(Seq<char>, Span, bool, bool)> {
    undefined_name_spec(options, scope, opening.name) + concat_map(
        opening.attributes@,
        |item: JsxAttributeItem| undefined_directive_spec(options, scope, item),
    )
}

/// The reference is a component that Solid can auto-import.
pub open spec fn is_auto_import(options: JsxNoUndefOptions, u: (Seq<char>, Span, bool, bool)) -> bool {
    !u.3 && u.2 && options.auto_import && auto_components_sorted().contains(u.0)
}

/// The diagnostic reported for one reference on its own.
pub open spec fn undefined_diag_spec(options: JsxNoUndefOptions, u: (Seq<char>, Span, bool, bool)) -> Seq<
    DiagnosticView,
> {
    if u.3 {
        seq![
            error_spec(
                "jsx-no-undef"@,
                u.1,
                "Custom directive '"@ + u.0 + "' is not defined."@,
            ),
        ]
    } else if is_auto_import(options, u) {
        Seq::empty()
    } else if !options.typescript_enabled {
        seq![error_spec("jsx-no-undef"@, u.1, "'"@ + u.0 + "' is not defined."@)]
    } else {
        Seq::empty()
    }
}

/// The auto-importable components among the references, sorted.
pub open spec fn missing_imports_spec(
    options: JsxNoUndefOptions,
    undefined: Seq<(Seq<char>, Span, bool, bool)>,
) -> Seq<Seq<char>> {
    auto_components_sorted().filter(
        |n: Seq<char>|
            exists|i: int|
                0 <= i < undefined.len() && is_auto_import(options, #[trigger] undefined[i])
                    && undefined[i].0 == n,
    )
}

/// "a", "a and b", "a, b, and c".
pub open spec fn format_list_spec(items: Seq<Seq<char>>) -> Seq<char> {
    if items.len() == 0 {
        Seq::empty()
    } else if items.len() == 1 {
        items[0]
    } else if items.len() == 2 {
        items[0] + " and "@ + items[1]
    } else {
        join_spec(items.drop_last(), ", "@) + ", and "@ + items.last()
    }
}

/// The statement that imports the given names from solid-js.
pub open spec fn import_statement_spec(names: Seq<Seq<char>>) -> Seq<char> {
    "import { "@ + join_spec(names, ", "@) + " } from \"solid-js\";"@
}

/// The diagnostics for a list of undefined references.
pub open spec fn undefined_diagnostics_spec(
    options: JsxNoUndefOptions,
    undefined: Seq<(Seq<char>, Span, bool, bool)>,
) -> Seq<DiagnosticView> {
    let each = concat_map(
        undefined,
        |u: (Seq<char>, Span, bool, bool)| undefined_diag_spec(options, u),
    );
    let missing = missing_imports_spec(options, undefined);
    if missing.len() > 0 {
        each.push(import_error_spec(missing))
    } else {
        each
    }
}

/// The error, at offset 0, that asks for the missing components to be
/// imported, with the fix that adds the import.
pub open spec fn import_error_spec(missing: Seq<Seq<char>>) -> DiagnosticView {
    let imports_str = format_list_spec(missing);
    let statement = import_statement_spec(missing);
    with_fix_spec(
        with_help_spec(
            error_spec(
                "jsx-no-undef"@,
                Span { start: 0, end: 0 },
                imports_str + " should be imported from 'solid-js'."@,
            ),
            "Add: "@ + statement,
        ),
        fix_msg_spec(
            Span { start: 0, end: 0 },
            statement + "\n"@,
            "Import "@ + imports_str + " from solid-js"@,
        ),
    )
}

/// The error of one reference that is reported on its own.
pub open spec fn own_error_spec(u: (Seq<char>, Span, bool, bool)) -> DiagnosticView {
    if u.3 {
        error_spec("jsx-no-undef"@, u.1, "Custom directive '"@ + u.0 + "' is not defined."@)
    } else {
        error_spec("jsx-no-undef"@, u.1, "'"@ + u.0 + "' is not defined."@)
    }
}

/// How the rule groups its reports, with TypeScript checking off: each
/// reference that is not an auto-importable component gets exactly one
/// error of its own, in input order, and an auto-importable one none; one
/// more error comes last exactly when some reference is an auto-importable
/// component, naming those components once each in Solid's order (see
/// `lemma_missing_imports`).
pub proof fn lemma_undefined_grouping(
    options: JsxNoUndefOptions,
    undefined: Seq<(Seq<char>, Span, bool, bool)>,
)
    requires
        !options.typescript_enabled,
    ensures
        undefined_diagnostics_spec(options, undefined) == ({
            let each = undefined.filter(
                |u: (Seq<char>, Span, bool, bool)| !is_auto_import(options, u),
            ).map_values(|u: (Seq<char>, Span, bool, bool)| own_error_spec(u));
            let missing = missing_imports_spec(options, undefined);
            if missing.len() > 0 {
                each.push(import_error_spec(missing))
            } else {
                each
            }
        }),
        missing_imports_spec(options, undefined).len() > 0 <==> exists|i: int|
            0 <= i < undefined.len() && is_auto_import(options, #[trigger] undefined[i]),
{
    let f = |u: (Seq<char>, Span, bool, bool)| undefined_diag_spec(options, u);
    let p = |u: (Seq<char>, Span, bool, bool)| !is_auto_import(options, u);
    let g = |u: (Seq<char>, Span, bool, bool)| own_error_spec(u);
    assert forall|x: (Seq<char>, Span, bool, bool)| #[trigger] f(x) == (if p(x) {
        seq![g(x)]
    } else {
        Seq::<DiagnosticView>::empty()
    }) by {
        assert(f(x) =~= (if p(x) {
            seq![g(x)]
        } else {
            Seq::<DiagnosticView>::empty()
        }));
    }
    lemma_concat_map_filter(undefined, f, p, g);
    lemma_missing_imports(options, undefined);
    let missing = missing_imports_spec(options, undefined);
    if missing.len() > 0 {
        assert(missing.contains(missing[0]));
    }
    if exists|i: int| 0 <= i < undefined.len() && is_auto_import(options, #[trigger] undefined[i]) {
        let i = choose|i: int| 0 <= i < undefined.len() && is_auto_import(options, #[trigger] undefined[i]);
        assert(missing.contains(undefined[i].0));
    }
}

/// The span of the first import from solid-js among the statements.
pub open spec fn first_solid_import_spec(body: Seq<Statement>) -> Option<Span>
    decreases body.len(),
{
    if body.len() == 0 {
        None
    } else {
        match body[0] {
            Statement::Import(i) => if i.source@ == "solid-js"@ {
                Some(i.span)
            } else {
                first_solid_import_spec(body.drop_first())
            },
            _ => first_solid_import_spec(body.drop_first()),
        }
    }
}

/// Filtering a sequence without repeats gives a sequence without repeats
/// whose elements all come from the sequence filtered.
pub proof fn lemma_filter_distinct<A>(s: Seq<A>, pred: spec_fn(A) -> bool)
    requires
        s.no_duplicates(),
    ensures
        s.filter(pred).no_duplicates(),
        forall|x: A| #[trigger] s.filter(pred).contains(x) ==> s.contains(x),
    decreases s.len(),
{
    reveal(Seq::filter);
    if s.len() > 0 {
        let init = s.drop_last();
        assert(init.no_duplicates()) by {
            assert forall|i: int, j: int|
                0 <= i < init.len() && 0 <= j < init.len() && i != j implies init[i] != init[j] by {
                assert(init[i] == s[i] && init[j] == s[j]);
            }
        }
        lemma_filter_distinct(init, pred);
        let f0 = init.filter(pred);
        let f = s.filter(pred);
        assert forall|x: A| #[trigger] f.contains(x) implies s.contains(x) by {
            if f0.contains(x) {
                let j = choose|j: int| 0 <= j < init.len() && init[j] == x;
                assert(s[j] == x);
            } else {
                assert(x == s.last());
                assert(s[s.len() - 1] == x);
            }
        }
        if pred(s.last()) {
            assert(!f0.contains(s.last())) by {
                if f0.contains(s.last()) {
                    let j = choose|j: int| 0 <= j < init.len() && init[j] == s.last();
                    assert(s[j] == s[s.len() - 1]);
                }
            }
            assert forall|i: int, j: int| 0 <= i < f.len() && 0 <= j < f.len() && i != j implies f[i]
                != f[j] by {
                if i == f0.len() {
                    assert(f0[j] == f[j]);
                } else if j == f0.len() {
                    assert(f0[i] == f[i]);
                } else {
                    assert(f0[i] == f[i] && f0[j] == f[j]);
                }
            }
        }
    }
}

/// The components suggested for import are listed once each, in Solid's
/// order, and are exactly the auto-importable undefined references.
pub proof fn lemma_missing_imports(
    options: JsxNoUndefOptions,
    undefined: Seq<(Seq<char>, Span, bool, bool)>,
)
    ensures
        missing_imports_spec(options, undefined).no_duplicates(),
        forall|n: Seq<char>|
            #[trigger] missing_imports_spec(options, undefined).contains(n) <==> exists|i: int|
                0 <= i < undefined.len() && is_auto_import(options, #[trigger] undefined[i])
                    && undefined[i].0 == n,
{
    reveal_strlit("For");
    reveal_strlit("Index");
    reveal_strlit("Match");
    reveal_strlit("Show");
    reveal_strlit("Switch");
    let canon = auto_components_sorted();
    assert(canon.no_duplicates()) by {
        assert forall|i: int, j: int|
            0 <= i < canon.len() && 0 <= j < canon.len() && i != j implies canon[i] != canon[j] by {
            assert(canon[i][0] != canon[j][0] || canon[i].len() != canon[j].len());
        }
    }
    let pred = |n: Seq<char>|
        exists|i: int|
            0 <= i < undefined.len() && is_auto_import(options, #[trigger] undefined[i])
                && undefined[i].0 == n;
    lemma_filter_distinct(canon, pred);
    broadcast use vstd::seq_lib::group_filter_ensures;
    assert forall|n: Seq<char>| #[trigger] canon.filter(pred).contains(n) <==> pred(n) by {
        if pred(n) {
            let i = choose|i: int|
                0 <= i < undefined.len() && is_auto_import(options, #[trigger] undefined[i])
                    && undefined[i].0 == n;
            assert(canon.contains(n));
            let k = choose|k: int| 0 <= k < canon.len() && canon[k] == n;
            canon.lemma_filter_contains(pred, k);
        }
        if canon.filter(pred).contains(n) {
            let k = choose|k: int| 0 <= k < canon.filter(pred).len() && canon.filter(pred)[k] == n;
            canon.lemma_filter_pred(pred, k);
        }
    }
}

/// Format a list of items for display (e.g., "Show, For, and Index").
pub fn format_list(items: &[String]) -> (r: String)
    ensures
        r@ == format_list_spec(views(items@)),
{
    let n = items.len();
    if n == 0 {
        String::new()
    } else if n == 1 {
        to_owned(items[0].as_str())
    } else if n == 2 {
        let mut s = to_owned(items[0].as_str());
        push_str(&mut s, " and ");
        push_str(&mut s, items[1].as_str());
        s
    } else {
        let mut s = join(&items[0..n - 1], ", ");
        assert(items@.subrange(0, n - 1) =~= items@.drop_last());
        assert(views(items@.drop_last()) =~= views(items@).drop_last());
        push_str(&mut s, ", and ");
        push_str(&mut s, items[n - 1].as_str());
        s
    }
}

impl JsxNoUndef {
    pub fn new() -> (r: Self)
        ensures
            r.options == (JsxNoUndefOptions { allow_globals: false, auto_import: true, typescript_enabled: false }),
    {
        JsxNoUndef { options: JsxNoUndefOptions::default() }
    }

    pub fn with_options(options: JsxNoUndefOptions) -> (r: Self)
        ensures
            r.options == options,
    {
        JsxNoUndef { options }
    }

    /// Check if an identifier is defined in scope.
    fn is_defined(&self, scope: &ScopeBindings, name: &str) -> (r: bool)
        ensures
            r == is_defined_spec(self.options, *scope, name@),
    {
        if string_in(name, scope.visible.as_slice()) {
            return true;
        }
        if self.options.allow_globals {
            if string_in(name, scope.root.as_slice()) {
                return true;
            }
        }
        false
    }

    /// Check a JSX opening element for undefined references: its name when
    /// it is a component or a member expression, and `use:X` directives.
    pub fn check(&self, opening: &JsxOpeningElement, scope: &ScopeBindings) -> (r: Vec<
        UndefinedIdent,
    >)
        ensures
            undefined_views(r@) == undefined_refs_spec(self.options, *scope, *opening),
    {
        let mut undefined: Vec<UndefinedIdent> = Vec::new();
        match &opening.name {
            JsxElementName::Identifier(ident) => {
                if !is_dom_element(ident.name.as_str()) && !str_eq(ident.name.as_str(), "this")
                    && !self.is_defined(scope, ident.name.as_str()) {
                    undefined.push(
                        UndefinedIdent {
                            name: to_owned(ident.name.as_str()),
                            span: ident.span,
                            is_component: true,
                            is_custom_directive: false,
                        },
                    );
                }
            },
            JsxElementName::IdentifierReference(ident) => {
                if !is_dom_element(ident.name.as_str()) && !str_eq(ident.name.as_str(), "this")
                    && !self.is_defined(scope, ident.name.as_str()) {
                    undefined.push(
                        UndefinedIdent {
                            name: to_owned(ident.name.as_str()),
                            span: ident.span,
                            is_component: true,
                            is_custom_directive: false,
                        },
                    );
                }
            },
            JsxElementName::MemberExpression(member) => {
                if let Some((name, span)) = get_member_root(member) {
                    if !str_eq(name.as_str(), "this") && !self.is_defined(scope, name.as_str()) {
                        undefined.push(
                            UndefinedIdent {
                                name,
                                span,
                                is_component: false,
                                is_custom_directive: false,
                            },
                        );
                    }
                }
            },
            _ => {},
        }
        assert(undefined_views(undefined@) =~= undefined_name_spec(
            self.options,
            *scope,
            opening.name,
        ));
        let ghost head = undefined_views(undefined@);
        let ghost f = |item: JsxAttributeItem| undefined_directive_spec(self.options, *scope, item);
        let mut k: usize = 0;
        while k < opening.attributes.len()
            invariant
                f == (|item: JsxAttributeItem|
                    undefined_directive_spec(self.options, *scope, item)),
                k <= opening.attributes@.len(),
                undefined_views(undefined@) == head + concat_map(
                    opening.attributes@.subrange(0, k as int),
                    f,
                ),
            decreases opening.attributes@.len() - k,
        {
            proof {
                lemma_concat_map_step(opening.attributes@, f, k as int);
            }
            let ghost before = undefined_views(undefined@);
            if let JsxAttributeItem::Attribute(jsx_attr) = &opening.attributes[k] {
                if let JsxAttributeName::NamespacedName(ns) = &jsx_attr.name {
                    if str_eq(ns.namespace.name.as_str(), "use") {
                        let directive_name = ns.name.name.as_str();
                        if !self.is_defined(scope, directive_name) {
                            undefined.push(
                                UndefinedIdent {
                                    name: to_owned(directive_name),
                                    span: ns.name.span,
                                    is_component: false,
                                    is_custom_directive: true,
                                },
                            );
                        }
                    }
                }
            }
            assert(undefined_views(undefined@) =~= before + f(opening.attributes@[k as int]));
            k = k + 1;
        }
        proof {
            lemma_concat_map_full(opening.attributes@, f);
        }
        undefined
    }

    fn is_auto_import_ident(&self, u: &UndefinedIdent) -> (r: bool)
        ensures
            r == is_auto_import(self.options, undefined_view(*u)),
    {
        let list = ["For", "Index", "Match", "Show", "Switch"];
        assert(strs_view(list@) =~= auto_components_sorted());
        !u.is_custom_directive && u.is_component && self.options.auto_import && str_in(
            u.name.as_str(),
            &list,
        )
    }

    fn diagnostic_for(&self, u: &UndefinedIdent) -> (r: Option<Diagnostic>)
        ensures
            opt_diag_spec(r) == undefined_diag_spec(self.options, undefined_view(*u)),
    {
        if u.is_custom_directive {
            let mut message = to_owned("Custom directive '");
            push_str(&mut message, u.name.as_str());
            push_str(&mut message, "' is not defined.");
            Some(Diagnostic::error(Self::NAME, u.span, message.as_str()))
        } else if self.is_auto_import_ident(u) {
            None
        } else if !self.options.typescript_enabled {
            let mut message = to_owned("'");
            push_str(&mut message, u.name.as_str());
            push_str(&mut message, "' is not defined.");
            Some(Diagnostic::error(Self::NAME, u.span, message.as_str()))
        } else {
            None
        }
    }

    /// Generate diagnostics from undefined identifiers; Solid components
    /// that can be auto-imported are reported together, sorted.
    pub fn generate_diagnostics(&self, undefined: Vec<UndefinedIdent>) -> (r: Vec<Diagnostic>)
        ensures
            diags_view(r@) == undefined_diagnostics_spec(self.options, undefined_views(undefined@)),
    {
        let ghost uv = undefined_views(undefined@);
        let ghost f = |u: (Seq<char>, Span, bool, bool)| undefined_diag_spec(self.options, u);
        let mut diagnostics: Vec<Diagnostic> = Vec::new();
        let mut missing: Vec<String> = Vec::new();
        let mut k: usize = 0;
        while k < undefined.len()
            invariant
                uv == undefined_views(undefined@),
                f == (|u: (Seq<char>, Span, bool, bool)| undefined_diag_spec(self.options, u)),
                k <= undefined@.len(),
                diags_view(diagnostics@) == concat_map(uv.subrange(0, k as int), f),
                forall|n: Seq<char>|
                    views(missing@).contains(n) <==> exists|i: int|
                        0 <= i < k && is_auto_import(self.options, #[trigger] uv[i]) && uv[i].0
                            == n,
            decreases undefined@.len() - k,
        {
            proof {
                lemma_concat_map_step(uv, f, k as int);
            }
            let u = &undefined[k];
            let d = self.diagnostic_for(u);
            push_opt(&mut diagnostics, d);
            let ghost old_missing = views(missing@);
            if self.is_auto_import_ident(u) {
                if !string_in(u.name.as_str(), missing.as_slice()) {
                    missing.push(to_owned(u.name.as_str()));
                    assert(views(missing@) =~= old_missing.push(u.name@));
                    assert(views(missing@)[old_missing.len() as int] == u.name@);
                }
                assert(views(missing@).contains(uv[k as int].0));
            }
            assert forall|n: Seq<char>|
                views(missing@).contains(n) <==> exists|i: int|
                    0 <= i < k + 1 && is_auto_import(self.options, #[trigger] uv[i]) && uv[i].0
                        == n by {
                if views(missing@).contains(n) && !old_missing.contains(n) {
                    assert(is_auto_import(self.options, uv[k as int]) && uv[k as int].0 == n);
                }
                if exists|i: int|
                    0 <= i < k + 1 && is_auto_import(self.options, #[trigger] uv[i]) && uv[i].0
                        == n {
                    let i = choose|i: int|
                        0 <= i < k + 1 && is_auto_import(self.options, #[trigger] uv[i]) && uv[i].0
                            == n;
                    if i == k {
                        assert(views(missing@).contains(n));
                    } else {
                        assert(old_missing.contains(n));
                        let j = choose|j: int| 0 <= j < old_missing.len() && old_missing[j] == n;
                        assert(views(missing@)[j] == n);
                    }
                }
            }
            k = k + 1;
        }
        proof {
            lemma_concat_map_full(uv, f);
            assert(uv.subrange(0, uv.len() as int) =~= uv);
        }
        let canonical = ["For", "Index", "Match", "Show", "Switch"];
        let ghost cv = strs_view(canonical@);
        assert(cv =~= auto_components_sorted());
        let ghost pred = |n: Seq<char>|
            exists|i: int|
                0 <= i < uv.len() && is_auto_import(self.options, #[trigger] uv[i]) && uv[i].0 == n;
        let mut sorted: Vec<String> = Vec::new();
        let mut j: usize = 0;
        while j < canonical.len()
            invariant
                cv == strs_view(canonical@),
                pred == (|n: Seq<char>|
                    exists|i: int|
                        0 <= i < uv.len() && is_auto_import(self.options, #[trigger] uv[i])
                            && uv[i].0 == n),
                forall|n: Seq<char>| views(missing@).contains(n) <==> pred(n),
                j <= canonical@.len(),
                views(sorted@) == cv.subrange(0, j as int).filter(pred),
            decreases canonical@.len() - j,
        {
            proof {
                let p = cv.subrange(0, j + 1);
                assert(p.drop_last() =~= cv.subrange(0, j as int));
                reveal_with_fuel(Seq::filter, 1);
            }
            let ghost before = views(sorted@);
            if string_in(canonical[j], missing.as_slice()) {
                sorted.push(to_owned(canonical[j]));
                assert(views(sorted@) =~= before.push(cv[j as int]));
            }
            j = j + 1;
        }
        assert(cv.subrange(0, cv.len() as int) =~= cv);
        assert(views(sorted@) == missing_imports_spec(self.options, uv));
        if sorted.len() > 0 {
            let imports_str = format_list(sorted.as_slice());
            let mut statement = to_owned("import { ");
            let names = join(sorted.as_slice(), ", ");
            push_str(&mut statement, names.as_str());
            push_str(&mut statement, " } from \"solid-js\";");
            let mut message = to_owned(imports_str.as_str());
            push_str(&mut message, " should be imported from 'solid-js'.");
            let mut help = to_owned("Add: ");
            push_str(&mut help, statement.as_str());
            let mut replacement = to_owned(statement.as_str());
            push_str(&mut replacement, "\n");
            let mut fix_message = to_owned("Import ");
            push_str(&mut fix_message, imports_str.as_str());
            push_str(&mut fix_message, " from solid-js");
            let d = Diagnostic::error(Self::NAME, Span::new(0, 0), message.as_str()).with_help(
                help.as_str(),
            ).with_fix(
                Fix::new(Span::new(0, 0), replacement.as_str()).with_message(fix_message.as_str()),
            );
            let ghost before = diagnostics@;
            diagnostics.push(d);
            assert(diags_view(diagnostics@) =~= diags_view(before).push(d@));
        }
        diagnostics
    }

    /// Check an opening element and report its undefined references.
    pub fn check_and_report(&self, opening: &JsxOpeningElement, scope: &ScopeBindings) -> (r: Vec<
        Diagnostic,
    >)
        ensures
            diags_view(r@) == undefined_diagnostics_spec(
                self.options,
                undefined_refs_spec(self.options, *scope, *opening),
            ),
    {
        let undefined = self.check(opening, scope);
        self.generate_diagnostics(undefined)
    }

    /// The span of the first import from solid-js, to append to.
    pub fn find_solid_import(program: &Program) -> (r: Option<Span>)
        ensures
            r == first_solid_import_spec(program.body@),
    {
        let ghost body = program.body@;
        let mut k: usize = 0;
        assert(body.subrange(0, body.len() as int) =~= body);
        while k < program.body.len()
            invariant
                body == program.body@,
                k <= body.len(),
                first_solid_import_spec(body) == first_solid_import_spec(
                    body.subrange(k as int, body.len() as int),
                ),
            decreases body.len() - k,
        {
            let ghost rest = body.subrange(k as int, body.len() as int);
            assert(rest[0] == body[k as int]);
            assert(rest.drop_first() =~= body.subrange(k + 1, body.len() as int));
            if let Statement::Import(import) = &program.body[k] {
                if str_eq(import.source.as_str(), "solid-js") {
                    return Some(import.span);
                }
            }
            k = k + 1;
        }
        None
    }
}

} // verus!
