//! solid/imports: import Solid's APIs from the module that exports them.
use vstd::prelude::*;
use crate::diagnostic::{
    concat_map, diags_view, lemma_concat_map_filter, lemma_concat_map_full, lemma_concat_map_nothing,
    lemma_concat_map_step,
    opt_diag_spec,
    push_opt, warning_spec, with_help_spec, Diagnostic, DiagnosticView,
};
use crate::jsx::{ImportDeclaration, ImportDeclarationSpecifier};
use crate::text::{push_str, str_eq, str_in, strs_view, to_owned};
use crate::{RuleCategory, RuleMeta};

verus! {

/// imports rule.
#[derive(Debug, Clone)]
pub struct Imports;

impl RuleMeta for Imports {
    const NAME: &'static str = "imports";
    const CATEGORY: RuleCategory = RuleCategory::Correctness;
}

pub open spec fn solid_sources_spec() -> Seq<Seq<char>> {
    seq!["solid-js"@, "solid-js/web"@, "solid-js/store"@]
}

pub open spec fn solid_js_primitives_spec() -> Seq<Seq<char>> {
    seq![
        "createSignal"@, "createEffect"@, "createMemo"@, "createResource"@, "onMount"@,
        "onCleanup"@, "onError"@, "untrack"@, "batch"@, "on"@, "createRoot"@, "getOwner"@,
        "runWithOwner"@, "mergeProps"@, "splitProps"@, "useTransition"@, "observable"@,
        "from"@, "mapArray"@, "indexArray"@, "createContext"@, "useContext"@, "children"@,
        "lazy"@, "createUniqueId"@, "createDeferred"@, "createRenderEffect"@,
        "createComputed"@, "createReaction"@, "createSelector"@, "DEV"@, "For"@, "Show"@,
        "Switch"@, "Match"@, "Index"@, "ErrorBoundary"@, "Suspense"@, "SuspenseList"@,
    ]
}

pub open spec fn solid_web_primitives_spec() -> Seq<Seq<char>> {
    seq![
        "Portal"@, "render"@, "hydrate"@, "renderToString"@, "renderToStream"@, "isServer"@,
        "renderToStringAsync"@, "generateHydrationScript"@, "HydrationScript"@, "Dynamic"@,
    ]
}

pub open spec fn solid_store_primitives_spec() -> Seq<Seq<char>> {
    seq![
        "createStore"@, "produce"@, "reconcile"@, "unwrap"@, "createMutable"@,
        "modifyMutable"@,
    ]
}

pub open spec fn solid_js_types_spec() -> Seq<Seq<char>> {
    seq![
        "Signal"@, "Accessor"@, "Setter"@, "Resource"@, "ResourceActions"@,
        "ResourceOptions"@, "ResourceReturn"@, "ResourceFetcher"@,
        "InitializedResourceReturn"@, "Component"@, "VoidProps"@, "VoidComponent"@,
        "ParentProps"@, "ParentComponent"@, "FlowProps"@, "FlowComponent"@,
        "ValidComponent"@, "ComponentProps"@, "Ref"@, "MergeProps"@, "SplitProps"@,
        "Context"@, "JSX"@, "ResolvedChildren"@, "MatchProps"@,
    ]
}

pub open spec fn solid_web_types_spec() -> Seq<Seq<char>> {
    seq!["MountableElement"@]
}

pub open spec fn solid_store_types_spec() -> Seq<Seq<char>> {
    seq!["StoreNode"@, "Store"@, "SetStoreFunction"@]
}

/// The module a primitive should be imported from.
pub open spec fn primitive_source_spec(name: Seq<char>) -> Option<Seq<char>> {
    if solid_js_primitives_spec().contains(name) {
        Some("solid-js"@)
    } else if solid_web_primitives_spec().contains(name) {
        Some("solid-js/web"@)
    } else if solid_store_primitives_spec().contains(name) {
        Some("solid-js/store"@)
    } else {
        None
    }
}

/// The module a type should be imported from.
pub open spec fn type_source_spec(name: Seq<char>) -> Option<Seq<char>> {
    if solid_js_types_spec().contains(name) {
        Some("solid-js"@)
    } else if solid_web_types_spec().contains(name) {
        Some("solid-js/web"@)
    } else if solid_store_types_spec().contains(name) {
        Some("solid-js/store"@)
    } else {
        None
    }
}

/// Get the module a primitive should be imported from.
pub fn get_primitive_source(name: &str) -> (r: Option<&'static str>)
    ensures
        match r {
            Some(s) => primitive_source_spec(name@) == Some(s@),
            None => primitive_source_spec(name@) is None,
        },
{
    let js = [
        "createSignal", "createEffect", "createMemo", "createResource", "onMount", "onCleanup",
        "onError", "untrack", "batch", "on", "createRoot", "getOwner", "runWithOwner",
        "mergeProps", "splitProps", "useTransition", "observable", "from", "mapArray",
        "indexArray", "createContext", "useContext", "children", "lazy", "createUniqueId",
        "createDeferred", "createRenderEffect", "createComputed", "createReaction",
        "createSelector", "DEV", "For", "Show", "Switch", "Match", "Index", "ErrorBoundary",
        "Suspense", "SuspenseList",
    ];
    let web = [
        "Portal", "render", "hydrate", "renderToString", "renderToStream", "isServer",
        "renderToStringAsync", "generateHydrationScript", "HydrationScript", "Dynamic",
    ];
    let store = ["createStore", "produce", "reconcile", "unwrap", "createMutable", "modifyMutable"];
    assert(strs_view(js@) =~= solid_js_primitives_spec());
    assert(strs_view(web@) =~= solid_web_primitives_spec());
    assert(strs_view(store@) =~= solid_store_primitives_spec());
    if str_in(name, &js) {
        Some("solid-js")
    } else if str_in(name, &web) {
        Some("solid-js/web")
    } else if str_in(name, &store) {
        Some("solid-js/store")
    } else {
        None
    }
}

/// Get the module a type should be imported from.
pub fn get_type_source(name: &str) -> (r: Option<&'static str>)
    ensures
        match r {
            Some(s) => type_source_spec(name@) == Some(s@),
            None => type_source_spec(name@) is None,
        },
{
    let js = [
        "Signal", "Accessor", "Setter", "Resource", "ResourceActions", "ResourceOptions",
        "ResourceReturn", "ResourceFetcher", "InitializedResourceReturn", "Component",
        "VoidProps", "VoidComponent", "ParentProps", "ParentComponent", "FlowProps",
        "FlowComponent", "ValidComponent", "ComponentProps", "Ref", "MergeProps", "SplitProps",
        "Context", "JSX", "ResolvedChildren", "MatchProps",
    ];
    let web = ["MountableElement"];
    let store = ["StoreNode", "Store", "SetStoreFunction"];
    assert(strs_view(js@) =~= solid_js_types_spec());
    assert(strs_view(web@) =~= solid_web_types_spec());
    assert(strs_view(store@) =~= solid_store_types_spec());
    if str_in(name, &js) {
        Some("solid-js")
    } else if str_in(name, &web) {
        Some("solid-js/web")
    } else if str_in(name, &store) {
        Some("solid-js/store")
    } else {
        None
    }
}

/// Check if a module is one of Solid's.
pub fn is_solid_source(source: &str) -> (r: bool)
    ensures
        r == solid_sources_spec().contains(source@),
{
    let list = ["solid-js", "solid-js/web", "solid-js/store"];
    assert(strs_view(list@) =~= solid_sources_spec());
    str_in(source, &list)
}

/// The diagnostic for one specifier of an import from `source`.
pub open spec fn import_specifier_spec(
    source: Seq<char>,
    is_type_import: bool,
    s: ImportDeclarationSpecifier,
) -> Seq<DiagnosticView> {
    match s {
        ImportDeclarationSpecifier::ImportSpecifier(spec) => {
            let name = spec.imported@;
            let correct = if is_type_import || spec.is_type {
                type_source_spec(name)
            } else {
                primitive_source_spec(name)
            };
            match correct {
                Some(c) => if c != source {
                    seq![
                        with_help_spec(
                            warning_spec(
                                "imports"@,
                                spec.span,
                                "Prefer importing "@ + name + " from \""@ + c + "\"."@,
                            ),
                            "Import "@ + name + " from \""@ + c + "\" instead of \""@ + source
                                + "\"."@,
                        ),
                    ]
                } else {
                    Seq::empty()
                },
                None => Seq::empty(),
            }
        },
        _ => Seq::empty(),
    }
}

/// All diagnostics of the rule for an import declaration.
pub open spec fn imports_spec(import: ImportDeclaration) -> Seq<DiagnosticView> {
    if !solid_sources_spec().contains(import.source@) {
        Seq::empty()
    } else {
        match import.specifiers {
            Some(specs) => concat_map(
                specs@,
                |s: ImportDeclarationSpecifier|
                    import_specifier_spec(import.source@, import.is_type, s),
            ),
            None => Seq::empty(),
        }
    }
}

impl Imports {
    pub fn new() -> (r: Self) {
        Imports
    }

    fn check_specifier(&self, source: &str, is_type_import: bool, s: &ImportDeclarationSpecifier) -> (r:
        Option<Diagnostic>)
        ensures
            opt_diag_spec(r) == import_specifier_spec(source@, is_type_import, *s),
    {
        let spec = match s {
            ImportDeclarationSpecifier::ImportSpecifier(spec) => spec,
            _ => return None,
        };
        let name = spec.imported.as_str();
        let correct_source = if is_type_import || spec.is_type {
            get_type_source(name)
        } else {
            get_primitive_source(name)
        };
        match correct_source {
            Some(correct) => {
                if str_eq(correct, source) {
                    return None;
                }
                let mut message = to_owned("Prefer importing ");
                push_str(&mut message, name);
                push_str(&mut message, " from \"");
                push_str(&mut message, correct);
                push_str(&mut message, "\".");
                let mut help = to_owned("Import ");
                push_str(&mut help, name);
                push_str(&mut help, " from \"");
                push_str(&mut help, correct);
                push_str(&mut help, "\" instead of \"");
                push_str(&mut help, source);
                push_str(&mut help, "\".");
                Some(
                    Diagnostic::warning(Self::NAME, spec.span, message.as_str()).with_help(
                        help.as_str(),
                    ),
                )
            },
            None => None,
        }
    }

    /// Check an import declaration for Solid APIs imported from the wrong
    /// module.
    pub fn check(&self, import: &ImportDeclaration) -> (r: Vec<Diagnostic>)
        ensures
            diags_view(r@) == imports_spec(*import),
    {
        let mut diagnostics: Vec<Diagnostic> = Vec::new();
        assert(diags_view(diagnostics@) =~= Seq::<DiagnosticView>::empty());
        let source = import.source.as_str();
        if !is_solid_source(source) {
            return diagnostics;
        }
        let is_type_import = import.is_type;
        if let Some(specifiers) = &import.specifiers {
            let ghost f = |s: ImportDeclarationSpecifier|
                import_specifier_spec(import.source@, import.is_type, s);
            let mut k: usize = 0;
            while k < specifiers.len()
                invariant
                    f == (|s: ImportDeclarationSpecifier|
                        import_specifier_spec(import.source@, import.is_type, s)),
                    source@ == import.source@,
                    is_type_import == import.is_type,
                    k <= specifiers@.len(),
                    diags_view(diagnostics@) == concat_map(specifiers@.subrange(0, k as int), f),
                decreases specifiers@.len() - k,
            {
                proof {
                    lemma_concat_map_step(specifiers@, f, k as int);
                }
                let d = self.check_specifier(source, is_type_import, &specifiers[k]);
                push_opt(&mut diagnostics, d);
                k = k + 1;
            }
            proof {
                lemma_concat_map_full(specifiers@, f);
            }
        }
        diagnostics
    }
}

/// The module the rule suggests for an imported name: its type source for a
/// type import, its primitive source otherwise.
pub open spec fn suggested_source(name: Seq<char>, is_type: bool) -> Option<Seq<char>> {
    if is_type {
        type_source_spec(name)
    } else {
        primitive_source_spec(name)
    }
}

/// Every module the rule suggests importing a name from is one of Solid's,
/// so an import rewritten as suggested is still checked by the rule.
pub proof fn lemma_suggested_sources_are_solid(name: Seq<char>, is_type: bool)
    ensures
        suggested_source(name, is_type) matches Some(s) ==> solid_sources_spec().contains(s),
{
    assert(solid_sources_spec()[0] == "solid-js"@);
    assert(solid_sources_spec()[1] == "solid-js/web"@);
    assert(solid_sources_spec()[2] == "solid-js/store"@);
}

/// An import in which every named specifier comes from the module the rule
/// suggests for it (or names something the rule has no suggestion for)
/// reports nothing.
pub proof fn lemma_import_as_suggested_is_silent(import: ImportDeclaration)
    requires
        import.specifiers matches Some(specs) ==> forall|i: int|
            0 <= i < specs@.len() ==> (#[trigger] specs@[i] matches
                ImportDeclarationSpecifier::ImportSpecifier(spec) ==> match suggested_source(
                spec.imported@,
                import.is_type || spec.is_type,
            ) {
                Some(c) => c == import.source@,
                None => true,
            }),
    ensures
        imports_spec(import).len() == 0,
{
    if solid_sources_spec().contains(import.source@) {
        if let Some(specs) = import.specifiers {
            let f = |s: ImportDeclarationSpecifier|
                import_specifier_spec(import.source@, import.is_type, s);
            assert forall|i: int| 0 <= i < specs@.len() implies f(#[trigger] specs@[i]).len() == 0 by {
                let s = specs@[i];
                match s {
                    ImportDeclarationSpecifier::ImportSpecifier(spec) => {
                        assert(match suggested_source(spec.imported@, import.is_type || spec.is_type) {
                            Some(c) => c == import.source@,
                            None => true,
                        });
                    },
                    _ => {},
                }
            }
            lemma_concat_map_nothing(specs@, f);
        }
    }
}

/// A named specifier of an import from `source` names something the rule
/// suggests importing from another module.
pub open spec fn misplaced(source: Seq<char>, is_type_import: bool, s: ImportDeclarationSpecifier) -> bool {
    match s {
        ImportDeclarationSpecifier::ImportSpecifier(spec) => match suggested_source(
            spec.imported@,
            is_type_import || spec.is_type,
        ) {
            Some(c) => c != source,
            None => false,
        },
        _ => false,
    }
}

/// The warning for `name`, imported from `source`, that belongs in
/// `correct`.
pub open spec fn misplaced_warning(source: Seq<char>, name: Seq<char>, correct: Seq<char>, span: crate::span::Span) -> DiagnosticView {
    with_help_spec(
        warning_spec("imports"@, span, "Prefer importing "@ + name + " from \""@ + correct + "\"."@),
        "Import "@ + name + " from \""@ + correct + "\" instead of \""@ + source + "\"."@,
    )
}

/// The warning for a misplaced specifier.
pub open spec fn specifier_warning(source: Seq<char>, is_type_import: bool, s: ImportDeclarationSpecifier) -> DiagnosticView {
    match s {
        ImportDeclarationSpecifier::ImportSpecifier(spec) => match suggested_source(
            spec.imported@,
            is_type_import || spec.is_type,
        ) {
            Some(c) => misplaced_warning(source, spec.imported@, c, spec.span),
            None => arbitrary(),
        },
        _ => arbitrary(),
    }
}

/// The rule as a table: an import from a module that is not one of
/// Solid's reports nothing; an import from one of Solid's reports, in
/// specifier order, one warning for each named specifier whose suggested
/// module exists and differs from the one imported from, naming the
/// specifier and the suggested module.
pub proof fn lemma_imports_table(import: ImportDeclaration)
    ensures
        imports_spec(import) == (if !solid_sources_spec().contains(import.source@) {
            Seq::<DiagnosticView>::empty()
        } else {
            match import.specifiers {
                Some(specs) => specs@.filter(
                    |s: ImportDeclarationSpecifier| misplaced(import.source@, import.is_type, s),
                ).map_values(
                    |s: ImportDeclarationSpecifier| specifier_warning(import.source@, import.is_type, s),
                ),
                None => Seq::<DiagnosticView>::empty(),
            }
        }),
{
    if solid_sources_spec().contains(import.source@) {
        if let Some(specs) = import.specifiers {
            let f = |s: ImportDeclarationSpecifier|
                import_specifier_spec(import.source@, import.is_type, s);
            let p = |s: ImportDeclarationSpecifier| misplaced(import.source@, import.is_type, s);
            let g = |s: ImportDeclarationSpecifier| specifier_warning(import.source@, import.is_type, s);
            assert forall|x: ImportDeclarationSpecifier| #[trigger] f(x) == (if p(x) {
                seq![g(x)]
            } else {
                Seq::<DiagnosticView>::empty()
            }) by {
                match x {
                    ImportDeclarationSpecifier::ImportSpecifier(spec) => {
                        assert(f(x) =~= (if p(x) {
                            seq![g(x)]
                        } else {
                            Seq::<DiagnosticView>::empty()
                        }));
                    },
                    _ => {},
                }
            }
            lemma_concat_map_filter(specs@, f, p, g);
        }
    }
}

} // verus!
