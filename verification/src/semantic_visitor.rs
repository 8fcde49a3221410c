//! The scope-aware lint rules (jsx-no-undef, jsx-uses-vars,
//! components-return-once, reactivity, no-destructure) as a state machine.
//!
//! A traversal of the program, with the program's scopes at hand, hands the
//! runner one event per node it meets: imports, functions, arrow
//! functions, JSX opening elements (with what each name they reference
//! resolves to), entering and leaving JSX, and calls. The runner decides
//! what to report and what to record.
use std::collections::HashSet;
use vstd::prelude::*;
use crate::source::SourceKind;
use crate::diagnostic::{
    concat_map, diags_view, error_spec, extend_diags, lemma_concat_map_full,
    lemma_concat_map_step, with_help_spec, Diagnostic, DiagnosticView,
};
use crate::jsx::{
    CallExpression, Function, ImportDeclaration, ImportDeclarationSpecifier, JsxAttributeItem,
    JsxAttributeName, JsxElementName, JsxOpeningElement, Program, Statement,
};
use crate::rules::components_return_once::{return_once_arrow_spec, return_once_function_spec};
use crate::rules::no_destructure::{no_destructure_spec, statements_have_jsx_spec};
use crate::rules::reactivity::reactivity_call_spec;
use crate::rules::{ComponentsReturnOnce, NoDestructure, Reactivity};
use crate::span::Span;
use crate::text::{
    char_is_uppercase, char_is_uppercase_spec, chars_of, push_str, seq_starts_with, starts_with,
    str_eq, str_in, strs_view, to_owned,
};
use crate::utils::{is_dom_element, is_dom_element_spec, get_member_root, member_root_spec};

verus! {

/// `rustc_hash::FxBuildHasher`, the hasher of the sets the runner keeps.
#[verifier::external_type_specification]
#[verifier::external_body]
pub struct ExFxBuildHasher(rustc_hash::FxBuildHasher);

/// Calls `HashSet::insert` on a set of symbols hashed by
/// `rustc_hash::FxBuildHasher`. As `std` documents, the value is added and
/// the result says whether it was absent.
#[verifier::external_body]
fn symbol_set_insert(set: &mut HashSet<u32, rustc_hash::FxBuildHasher>, v: u32) -> (r: bool)
    ensures
        final(set)@ == old(set)@.insert(v),
        r == !old(set)@.contains(v),
{
    set.insert(v)
}

/// Calls `HashSet::contains` on a set of symbols hashed by
/// `rustc_hash::FxBuildHasher`.
#[verifier::external_body]
fn symbol_set_contains(set: &HashSet<u32, rustc_hash::FxBuildHasher>, v: u32) -> (r: bool)
    ensures
        r == set@.contains(v),
{
    set.contains(&v)
}

/// Calls `<HashSet<u32, FxBuildHasher> as Default>::default`: an empty set.
#[verifier::external_body]
fn symbol_set_new() -> (r: HashSet<u32, rustc_hash::FxBuildHasher>)
    ensures
        r@ == Set::<u32>::empty(),
{
    HashSet::default()
}

/// The names held by a set of strings hashed by `rustc_hash::FxBuildHasher`.
pub uninterp spec fn name_set_contents(s: HashSet<String, rustc_hash::FxBuildHasher>) -> Set<
    Seq<char>,
>;

/// Calls `<HashSet<String, FxBuildHasher> as Default>::default`: a set
/// that holds no name.
#[verifier::external_body]
fn name_set_new() -> (r: HashSet<String, rustc_hash::FxBuildHasher>)
    ensures
        name_set_contents(r) == Set::<Seq<char>>::empty(),
{
    HashSet::default()
}

/// Calls `HashSet::insert` on a set of strings hashed by
/// `rustc_hash::FxBuildHasher`. Strings compare and hash by their text, so
/// the set then holds the name, and the result says whether it was absent.
#[verifier::external_body]
fn name_set_insert(set: &mut HashSet<String, rustc_hash::FxBuildHasher>, v: String) -> (r: bool)
    ensures
        name_set_contents(*final(set)) == name_set_contents(*old(set)).insert(v@),
        r == !name_set_contents(*old(set)).contains(v@),
{
    set.insert(v)
}

/// Which scope-aware rules are enabled.
#[derive(Debug, Clone, Copy, PartialEq, Eq, Structural)]
pub struct SemanticRulesConfig {
    pub jsx_no_undef: bool,
    pub jsx_uses_vars: bool,
    pub components_return_once: bool,
    pub reactivity: bool,
    pub no_destructure: bool,
}

impl Default for SemanticRulesConfig {
    fn default() -> (r: Self)
        ensures
            r == (SemanticRulesConfig {
                jsx_no_undef: false,
                jsx_uses_vars: false,
                components_return_once: false,
                reactivity: false,
                no_destructure: false,
            }),
    {
        SemanticRulesConfig {
            jsx_no_undef: false,
            jsx_uses_vars: false,
            components_return_once: false,
            reactivity: false,
            no_destructure: false,
        }
    }
}

impl SemanticRulesConfig {
    /// Every rule enabled.
    pub fn all() -> (r: Self)
        ensures
            r == (SemanticRulesConfig {
                jsx_no_undef: true,
                jsx_uses_vars: true,
                components_return_once: true,
                reactivity: true,
                no_destructure: true,
            }),
    {
        SemanticRulesConfig {
            jsx_no_undef: true,
            jsx_uses_vars: true,
            components_return_once: true,
            reactivity: true,
            no_destructure: true,
        }
    }

    /// Every rule disabled.
    pub fn none() -> (r: Self)
        ensures
            r == (SemanticRulesConfig {
                jsx_no_undef: false,
                jsx_uses_vars: false,
                components_return_once: false,
                reactivity: false,
                no_destructure: false,
            }),
    {
        Self::default()
    }
}

/// A name referenced by a JSX opening element: the name, where it stands,
/// and whether it names the element's component.
pub type NameRef = (String, Span, bool);

pub open spec fn name_ref_view(r: NameRef) -> (Seq<char>, Span, bool) {
    (r.0@, r.1, r.2)
}

/// The names an opening element references: a component name (not a DOM
/// element, not `this`), the root of a member expression (not `this`), and
/// each `use:` directive.
pub open spec fn opening_refs_spec(o: JsxOpeningElement) -> Seq<(Seq<char>, Span, bool)> {
    (match o.name {
        JsxElementName::Identifier(i) => if !is_dom_element_spec(i.name@) && i.name@ != "this"@ {
            seq![(i.name@, i.span, true)]
        } else {
            Seq::empty()
        },
        JsxElementName::IdentifierReference(i) => if !is_dom_element_spec(i.name@) && i.name@
            != "this"@ {
            seq![(i.name@, i.span, true)]
        } else {
            Seq::empty()
        },
        JsxElementName::MemberExpression(m) => match member_root_spec(m) {
            Some((n, s)) => if n != "this"@ {
                seq![(n, s, false)]
            } else {
                Seq::empty()
            },
            None => Seq::empty(),
        },
        _ => Seq::empty(),
    }) + concat_map(o.attributes@, |item: JsxAttributeItem| directive_ref_spec(item))
}

/// The name of a `use:` directive, as a reference.
pub open spec fn directive_ref_spec(item: JsxAttributeItem) -> Seq<(Seq<char>, Span, bool)> {
    match item {
        JsxAttributeItem::Attribute(a) => match a.name {
            JsxAttributeName::NamespacedName(ns) => if ns.namespace.name@ == "use"@ {
                seq![(ns.name.name@, ns.name.span, false)]
            } else {
                Seq::empty()
            },
            _ => Seq::empty(),
        },
        _ => Seq::empty(),
    }
}

/// Solid's control-flow components that are suggested for import.
pub open spec fn auto_import_components() -> Seq<Seq<char>> {
    seq!["Show"@, "For"@, "Index"@, "Switch"@, "Match"@]
}

/// The report for a name that resolves to no binding.
pub open spec fn undefined_name_diag(name: Seq<char>, span: Span) -> DiagnosticView {
    if auto_import_components().contains(name) {
        with_help_spec(
            error_spec("jsx-no-undef"@, span, "'"@ + name + "' should be imported from 'solid-js'."@),
            "Add: import { "@ + name + " } from \"solid-js\";"@,
        )
    } else {
        error_spec("jsx-no-undef"@, span, "'"@ + name + "' is not defined."@)
    }
}

/// Module sources whose imports are recorded.
pub open spec fn semantic_solid_sources() -> Seq<Seq<char>> {
    seq!["solid-js"@, "solid-js/store"@, "solid-js/web"@]
}

/// The source starts with one of Solid's module names.
pub open spec fn is_solid_module(source: Seq<char>) -> bool {
    exists|i: int|
        0 <= i < semantic_solid_sources().len() && seq_starts_with(
            source,
            #[trigger] semantic_solid_sources()[i],
        )
}

/// The local names bound by an import.
pub open spec fn import_local_names(import: ImportDeclaration) -> Seq<Seq<char>> {
    match import.specifiers {
        Some(v) => v@.map_values(
            |s: ImportDeclarationSpecifier|
                match s {
                    ImportDeclarationSpecifier::ImportSpecifier(n) => n.local@,
                    ImportDeclarationSpecifier::ImportDefaultSpecifier(i) => i.name@,
                    ImportDeclarationSpecifier::ImportNamespaceSpecifier(i) => i.name@,
                },
        ),
        None => Seq::empty(),
    }
}

/// What the runner has collected.
pub struct SemanticState {
    pub diagnostics: Seq<DiagnosticView>,
    pub used: Set<u32>,
    pub components: Set<u32>,
    pub imports: Set<Seq<char>>,
    pub depth: nat,
}

/// One node met by the traversal.
pub enum SemanticEvent {
    /// An import declaration at the top of the program.
    Import(ImportDeclaration),
    /// A function, with the symbol its name binds, if any.
    Function(Function, Option<u32>),
    /// An arrow function.
    Arrow(Function),
    /// A JSX opening element, with the symbol each name it references
    /// (in the order of `opening_refs`) resolves to in the current scope.
    OpeningElement(JsxOpeningElement, Vec<Option<u32>>),
    /// A JSX element or fragment is entered.
    EnterJsx,
    /// A JSX element or fragment is left.
    ExitJsx,
    /// A call expression.
    Call(CallExpression),
}

/// The effect of one name referenced by JSX, given the symbol it resolves
/// to: a resolved name is marked used (with jsx-uses-vars) and, naming a
/// component, recorded as one; an unresolved name is reported (with
/// jsx-no-undef).
pub open spec fn ident_step(
    c: SemanticRulesConfig,
    s: SemanticState,
    r: (Seq<char>, Span, bool),
    resolved: Option<u32>,
) -> SemanticState {
    match resolved {
        Some(sym) => SemanticState {
            used: if c.jsx_uses_vars {
                s.used.insert(sym)
            } else {
                s.used
            },
            components: if r.2 {
                s.components.insert(sym)
            } else {
                s.components
            },
            ..s
        },
        None => if c.jsx_no_undef {
            SemanticState { diagnostics: s.diagnostics.push(undefined_name_diag(r.0, r.1)), ..s }
        } else {
            s
        },
    }
}

/// The effect of the name references of an opening element, resolved as
/// given.
pub open spec fn refs_step(
    c: SemanticRulesConfig,
    s: SemanticState,
    refs: Seq<(Seq<char>, Span, bool)>,
    resolved: Seq<Option<u32>>,
) -> SemanticState
    decreases refs.len(),
{
    if refs.len() == 0 {
        s
    } else {
        ident_step(
            c,
            refs_step(c, s, refs.drop_last(), resolved.subrange(0, refs.len() - 1)),
            refs.last(),
            resolved[refs.len() - 1],
        )
    }
}

/// Whether a function's name starts with an uppercase character.
pub open spec fn is_pascal_case(func: Function) -> bool {
    func.id matches Some(id) && id.name@.len() > 0 && char_is_uppercase_spec(id.name@[0])
}

/// Whether a function's body holds JSX.
pub open spec fn returns_jsx(func: Function) -> bool {
    func.body matches Some(b) && statements_have_jsx_spec(b.statements@)
}

/// The components-return-once reports for a function that looks like a
/// component, met outside JSX.
pub open spec fn component_function_diags(c: SemanticRulesConfig, depth: nat, func: Function) -> Seq<
    DiagnosticView,
> {
    if c.components_return_once && depth == 0 && (is_pascal_case(func) || returns_jsx(func))
        && func.body is Some {
        return_once_function_spec(func, true, false)
    } else {
        Seq::empty()
    }
}

/// The reports for a function met outside JSX.
pub open spec fn function_diags(c: SemanticRulesConfig, depth: nat, func: Function) -> Seq<
    DiagnosticView,
> {
    component_function_diags(c, depth, func) + (if c.no_destructure && depth == 0 && returns_jsx(func) {
        no_destructure_spec(func, true, false)
    } else {
        Seq::empty()
    })
}

/// The reports for an arrow function met outside JSX.
pub open spec fn arrow_diags(c: SemanticRulesConfig, depth: nat, arrow: Function) -> Seq<
    DiagnosticView,
> {
    if (c.components_return_once || c.no_destructure) && depth == 0 && returns_jsx(arrow) {
        (if c.components_return_once {
            return_once_arrow_spec(arrow, true, false)
        } else {
            Seq::empty()
        }) + (if c.no_destructure {
            no_destructure_spec(arrow, true, false)
        } else {
            Seq::empty()
        })
    } else {
        Seq::empty()
    }
}

/// The state after one event.
pub open spec fn semantic_step(c: SemanticRulesConfig, s: SemanticState, e: SemanticEvent) -> SemanticState {
    match e {
        SemanticEvent::Import(i) => if is_solid_module(i.source@) {
            SemanticState { imports: s.imports + import_local_names(i).to_set(), ..s }
        } else {
            s
        },
        SemanticEvent::Function(f, _) => SemanticState {
            diagnostics: s.diagnostics + function_diags(c, s.depth, f),
            ..s
        },
        SemanticEvent::Arrow(f) => SemanticState {
            diagnostics: s.diagnostics + arrow_diags(c, s.depth, f),
            ..s
        },
        SemanticEvent::OpeningElement(o, resolved) => refs_step(
            c,
            s,
            opening_refs_spec(o),
            resolved@,
        ),
        SemanticEvent::EnterJsx => SemanticState { depth: s.depth + 1, ..s },
        SemanticEvent::ExitJsx => SemanticState { depth: (s.depth - 1) as nat, ..s },
        SemanticEvent::Call(call) => if c.reactivity {
            SemanticState { diagnostics: s.diagnostics + reactivity_call_spec(call), ..s }
        } else {
            s
        },
    }
}

/// The state after a sequence of events.
pub open spec fn semantic_run(c: SemanticRulesConfig, s: SemanticState, events: Seq<SemanticEvent>) -> SemanticState
    decreases events.len(),
{
    if events.len() == 0 {
        s
    } else {
        semantic_step(c, semantic_run(c, s, events.drop_last()), events.last())
    }
}

/// An event can be handled in a state: JSX is left only after it was
/// entered, and an opening element comes with one resolution per name it
/// references.
pub open spec fn event_ok(s: SemanticState, e: SemanticEvent) -> bool {
    match e {
        SemanticEvent::ExitJsx => s.depth > 0,
        SemanticEvent::OpeningElement(o, resolved) => resolved@.len() == opening_refs_spec(o).len(),
        _ => true,
    }
}

/// Every event of the sequence can be handled in turn.
pub open spec fn events_ok(c: SemanticRulesConfig, s: SemanticState, events: Seq<SemanticEvent>) -> bool
    decreases events.len(),
{
    if events.len() == 0 {
        true
    } else {
        events_ok(c, s, events.drop_last()) && event_ok(
            semantic_run(c, s, events.drop_last()),
            events.last(),
        )
    }
}

/// The result of scope-aware linting.
#[derive(Debug)]
pub struct SemanticLintResult {
    pub diagnostics: Vec<Diagnostic>,
    pub used_symbols: HashSet<u32, rustc_hash::FxBuildHasher>,
    pub component_symbols: HashSet<u32, rustc_hash::FxBuildHasher>,
}

/// Runs the scope-aware rules on the events of a traversal.
pub struct SemanticLintRunner {
    source_text: String,
    source_type: SourceKind,
    config: SemanticRulesConfig,
    diagnostics: Vec<Diagnostic>,
    used_symbols: HashSet<u32, rustc_hash::FxBuildHasher>,
    component_symbols: HashSet<u32, rustc_hash::FxBuildHasher>,
    solid_imports: HashSet<String, rustc_hash::FxBuildHasher>,
    jsx_depth: usize,
}

impl SemanticLintRunner {
    /// The rules that are enabled.
    pub closed spec fn rules(&self) -> SemanticRulesConfig {
        self.config
    }

    /// What the runner has collected.
    pub closed spec fn state(&self) -> SemanticState {
        SemanticState {
            diagnostics: diags_view(self.diagnostics@),
            used: self.used_symbols@,
            components: self.component_symbols@,
            imports: name_set_contents(self.solid_imports),
            depth: self.jsx_depth as nat,
        }
    }

    pub fn new(source_text: &str, source_type: SourceKind, config: SemanticRulesConfig) -> (r: Self)
        ensures
            r.rules() == config,
            r.state() == (SemanticState {
                diagnostics: Seq::empty(),
                used: Set::empty(),
                components: Set::empty(),
                imports: Set::empty(),
                depth: 0,
            }),
    {
        let r = SemanticLintRunner {
            source_text: to_owned(source_text),
            source_type,
            config,
            diagnostics: Vec::new(),
            used_symbols: symbol_set_new(),
            component_symbols: symbol_set_new(),
            solid_imports: name_set_new(),
            jsx_depth: 0,
        };
        assert(diags_view(r.diagnostics@) =~= Seq::<DiagnosticView>::empty());
        r
    }

    /// Record the local names imported from Solid's modules.
    pub fn process_import(&mut self, import: &ImportDeclaration)
        ensures
            final(self).rules() == old(self).rules(),
            final(self).state() == semantic_step(
                old(self).rules(),
                old(self).state(),
                SemanticEvent::Import(*import),
            ),
    {
        let sources = ["solid-js", "solid-js/store", "solid-js/web"];
        assert(strs_view(sources@) =~= semantic_solid_sources());
        let mut is_solid = false;
        let mut k: usize = 0;
        while k < sources.len()
            invariant
                strs_view(sources@) == semantic_solid_sources(),
                k <= 3,
                is_solid <==> exists|i: int|
                    0 <= i < k && seq_starts_with(import.source@, #[trigger] semantic_solid_sources()[i]),
            decreases 3 - k,
        {
            if starts_with(import.source.as_str(), sources[k]) {
                is_solid = true;
            }
            k = k + 1;
        }
        if !is_solid {
            return;
        }
        let ghost before = name_set_contents(self.solid_imports);
        let ghost names = import_local_names(*import);
        if let Some(specifiers) = &import.specifiers {
            let mut j: usize = 0;
            while j < specifiers.len()
                invariant
                    names == import_local_names(*import),
                    import.specifiers == Some(*specifiers),
                    j <= specifiers@.len(),
                    name_set_contents(self.solid_imports) == before + names.subrange(
                        0,
                        j as int,
                    ).to_set(),
                    self.config == old(self).config,
                    self.diagnostics@ == old(self).diagnostics@,
                    self.used_symbols@ == old(self).used_symbols@,
                    self.component_symbols@ == old(self).component_symbols@,
                    self.jsx_depth == old(self).jsx_depth,
                decreases specifiers@.len() - j,
            {
                let local = match &specifiers[j] {
                    ImportDeclarationSpecifier::ImportSpecifier(named) => to_owned(named.local.as_str()),
                    ImportDeclarationSpecifier::ImportDefaultSpecifier(d) => to_owned(d.name.as_str()),
                    ImportDeclarationSpecifier::ImportNamespaceSpecifier(n) => to_owned(n.name.as_str()),
                };
                assert(local@ == names[j as int]);
                let ghost prev = name_set_contents(self.solid_imports);
                name_set_insert(&mut self.solid_imports, local);
                assert(names.subrange(0, j + 1) =~= names.subrange(0, j as int).push(names[j as int]));
                assert(names.subrange(0, j + 1).to_set() =~= names.subrange(0, j as int).to_set().insert(
                    names[j as int],
                )) by {
                    let p = names.subrange(0, j as int);
                    let q = names.subrange(0, j + 1);
                    assert forall|a: Seq<char>| q.contains(a) <==> (p.contains(a) || a == names[j as int]) by {
                        if q.contains(a) {
                            let i = choose|i: int| 0 <= i < q.len() && q[i] == a;
                            if i < j {
                                assert(p[i] == a);
                            }
                        }
                        if p.contains(a) {
                            let i = choose|i: int| 0 <= i < p.len() && p[i] == a;
                            assert(q[i] == a);
                        }
                        if a == names[j as int] {
                            assert(q[j as int] == a);
                        }
                    }
                }
                assert(name_set_contents(self.solid_imports) =~= before + names.subrange(
                    0,
                    j + 1,
                ).to_set());
                j = j + 1;
            }
            assert(names.subrange(0, names.len() as int) =~= names);
        } else {
            assert(names =~= Seq::<Seq<char>>::empty());
            assert(name_set_contents(self.solid_imports) =~= before + names.to_set());
        }
    }

    /// Record the imports of the program's top-level statements.
    pub fn collect_solid_imports(&mut self, program: &Program)
        ensures
            final(self).rules() == old(self).rules(),
            final(self).state().depth == old(self).state().depth,
            final(self).state() == semantic_run(
                old(self).rules(),
                old(self).state(),
                program_imports(program.body@),
            ),
    {
        let ghost body = program.body@;
        let mut k: usize = 0;
        while k < program.body.len()
            invariant
                body == program.body@,
                k <= body.len(),
                self.rules() == old(self).rules(),
                self.jsx_depth == old(self).jsx_depth,
                self.state() == semantic_run(
                    old(self).rules(),
                    old(self).state(),
                    program_imports(body.subrange(0, k as int)),
                ),
            decreases body.len() - k,
        {
            let ghost pre = body.subrange(0, k as int);
            assert(body.subrange(0, k + 1).drop_last() =~= pre);
            if let Statement::Import(import) = &program.body[k] {
                self.process_import(import);
                assert(program_imports(body.subrange(0, k + 1)) =~= program_imports(pre).push(
                    SemanticEvent::Import(*import),
                ));
                assert(program_imports(pre).push(SemanticEvent::Import(*import)).drop_last()
                    =~= program_imports(pre));
            } else {
                assert(program_imports(body.subrange(0, k + 1)) =~= program_imports(pre));
            }
            k = k + 1;
        }
        assert(body.subrange(0, body.len() as int) =~= body);
    }

    /// The names an opening element references, to be resolved in the
    /// scope where it stands.
    pub fn opening_refs(opening: &JsxOpeningElement) -> (r: Vec<NameRef>)
        ensures
            r@.map_values(|n: NameRef| name_ref_view(n)) == opening_refs_spec(*opening),
    {
        let mut refs: Vec<NameRef> = Vec::new();
        match &opening.name {
            JsxElementName::Identifier(ident) => {
                if !is_dom_element(ident.name.as_str()) && !str_eq(ident.name.as_str(), "this") {
                    refs.push((to_owned(ident.name.as_str()), ident.span, true));
                }
            },
            JsxElementName::IdentifierReference(ident) => {
                if !is_dom_element(ident.name.as_str()) && !str_eq(ident.name.as_str(), "this") {
                    refs.push((to_owned(ident.name.as_str()), ident.span, true));
                }
            },
            JsxElementName::MemberExpression(member) => {
                if let Some((name, span)) = get_member_root(member) {
                    if !str_eq(name.as_str(), "this") {
                        refs.push((name, span, false));
                    }
                }
            },
            _ => {},
        }
        let ghost head = refs@.map_values(|n: NameRef| name_ref_view(n));
        let ghost f = |item: JsxAttributeItem| directive_ref_spec(item);
        assert(head =~= opening_refs_spec(*opening).subrange(0, head.len() as int)) by {
            assert(opening_refs_spec(*opening) == head + concat_map(opening.attributes@, f));
        }
        let mut k: usize = 0;
        while k < opening.attributes.len()
            invariant
                f == (|item: JsxAttributeItem| directive_ref_spec(item)),
                k <= opening.attributes@.len(),
                opening_refs_spec(*opening) == head + concat_map(opening.attributes@, f),
                refs@.map_values(|n: NameRef| name_ref_view(n)) == head + concat_map(
                    opening.attributes@.subrange(0, k as int),
                    f,
                ),
            decreases opening.attributes@.len() - k,
        {
            proof {
                lemma_concat_map_step(opening.attributes@, f, k as int);
            }
            let ghost before = refs@.map_values(|n: NameRef| name_ref_view(n));
            if let JsxAttributeItem::Attribute(jsx_attr) = &opening.attributes[k] {
                if let JsxAttributeName::NamespacedName(ns) = &jsx_attr.name {
                    if str_eq(ns.namespace.name.as_str(), "use") {
                        refs.push((to_owned(ns.name.name.as_str()), ns.name.span, false));
                    }
                }
            }
            assert(refs@.map_values(|n: NameRef| name_ref_view(n)) =~= before + f(
                opening.attributes@[k as int],
            ));
            k = k + 1;
        }
        proof {
            lemma_concat_map_full(opening.attributes@, f);
        }
        refs
    }

    fn undefined_name(name: &str, span: Span) -> (r: Diagnostic)
        ensures
            r@ == undefined_name_diag(name@, span),
    {
        let auto = ["Show", "For", "Index", "Switch", "Match"];
        assert(strs_view(auto@) =~= auto_import_components());
        if str_in(name, &auto) {
            let mut message = to_owned("'");
            push_str(&mut message, name);
            push_str(&mut message, "' should be imported from 'solid-js'.");
            let mut help = to_owned("Add: import { ");
            push_str(&mut help, name);
            push_str(&mut help, " } from \"solid-js\";");
            Diagnostic::error("jsx-no-undef", span, message.as_str()).with_help(help.as_str())
        } else {
            let mut message = to_owned("'");
            push_str(&mut message, name);
            push_str(&mut message, "' is not defined.");
            Diagnostic::error("jsx-no-undef", span, message.as_str())
        }
    }

    /// Mark a name referenced by JSX as used, or report it as undefined,
    /// given the symbol it resolves to.
    pub fn check_jsx_identifier(&mut self, name: &str, span: Span, symbol: Option<u32>, is_component: bool)
        ensures
            final(self).rules() == old(self).rules(),
            final(self).state() == ident_step(
                old(self).rules(),
                old(self).state(),
                (name@, span, is_component),
                symbol,
            ),
    {
        match symbol {
            Some(sym) => {
                if self.config.jsx_uses_vars {
                    symbol_set_insert(&mut self.used_symbols, sym);
                }
                if is_component {
                    symbol_set_insert(&mut self.component_symbols, sym);
                }
            },
            None => {
                if self.config.jsx_no_undef {
                    let ghost before = diags_view(self.diagnostics@);
                    let d = Self::undefined_name(name, span);
                    self.diagnostics.push(d);
                    assert(diags_view(self.diagnostics@) =~= before.push(d@));
                }
            },
        }
    }

    /// Mark the names of an opening element as used or report them as
    /// undefined, given the symbol each resolves to.
    pub fn check_jsx_opening_element(&mut self, opening: &JsxOpeningElement, resolved: &Vec<Option<u32>>)
        requires
            resolved@.len() == opening_refs_spec(*opening).len(),
        ensures
            final(self).rules() == old(self).rules(),
            final(self).state() == semantic_step(
                old(self).rules(),
                old(self).state(),
                SemanticEvent::OpeningElement(*opening, *resolved),
            ),
    {
        let refs = Self::opening_refs(opening);
        let ghost rv = opening_refs_spec(*opening);
        let ghost s0 = self.state();
        let ghost c = self.config;
        let mut k: usize = 0;
        while k < refs.len()
            invariant
                rv == opening_refs_spec(*opening),
                refs@.map_values(|n: NameRef| name_ref_view(n)) == rv,
                resolved@.len() == rv.len(),
                k <= rv.len(),
                self.config == c,
                self.state() == refs_step(c, s0, rv.subrange(0, k as int), resolved@.subrange(0, k as int)),
            decreases rv.len() - k,
        {
            let ghost pre = rv.subrange(0, k as int);
            assert(rv.subrange(0, k + 1).drop_last() =~= pre);
            assert(resolved@.subrange(0, k + 1).subrange(0, k as int) =~= resolved@.subrange(
                0,
                k as int,
            ));
            assert(name_ref_view(refs@[k as int]) == rv[k as int]);
            self.check_jsx_identifier(refs[k].0.as_str(), refs[k].1, resolved[k], refs[k].2);
            assert(self.state() == refs_step(c, s0, rv.subrange(0, k + 1), resolved@.subrange(0, k + 1)));
            k = k + 1;
        }
        assert(rv.subrange(0, rv.len() as int) =~= rv);
        assert(resolved@.subrange(0, rv.len() as int) =~= resolved@);
    }

    /// A JSX element or fragment is entered.
    pub fn enter_jsx(&mut self)
        requires
            old(self).state().depth < usize::MAX,
        ensures
            final(self).rules() == old(self).rules(),
            final(self).state() == semantic_step(old(self).rules(), old(self).state(), SemanticEvent::EnterJsx),
    {
        self.jsx_depth = self.jsx_depth + 1;
    }

    /// A JSX element or fragment is left.
    pub fn exit_jsx(&mut self)
        requires
            old(self).state().depth > 0,
        ensures
            final(self).rules() == old(self).rules(),
            final(self).state() == semantic_step(old(self).rules(), old(self).state(), SemanticEvent::ExitJsx),
    {
        self.jsx_depth = self.jsx_depth - 1;
    }

    fn is_pascal_case(func: &Function) -> (r: bool)
        ensures
            r == is_pascal_case(*func),
    {
        match &func.id {
            Some(id) => {
                let v = chars_of(id.name.as_str());
                v.len() > 0 && char_is_uppercase(v[0])
            },
            None => false,
        }
    }

    fn returns_jsx(func: &Function) -> (r: bool)
        ensures
            r == returns_jsx(*func),
    {
        match &func.body {
            Some(body) => NoDestructure::body_has_jsx(body),
            None => false,
        }
    }

    /// A function: components-return-once when it looks like a component,
    /// and no-destructure when it returns JSX. `symbol` is the symbol its
    /// name binds, if any.
    pub fn visit_function(&mut self, func: &Function, symbol: Option<u32>)
        ensures
            final(self).rules() == old(self).rules(),
            final(self).state() == semantic_step(
                old(self).rules(),
                old(self).state(),
                SemanticEvent::Function(*func, symbol),
            ),
    {
        let ghost start = diags_view(self.diagnostics@);
        self.check_function_component(func, symbol);
        let ghost mid = diags_view(self.diagnostics@);
        let inside_jsx = self.jsx_depth > 0;
        let has_jsx = Self::returns_jsx(func);
        if self.config.no_destructure && !inside_jsx && has_jsx {
            let rule = NoDestructure::new();
            let d = rule.check_function(func, has_jsx, inside_jsx);
            extend_diags(&mut self.diagnostics, d);
        }
        assert(diags_view(self.diagnostics@) =~= start + function_diags(
            self.config,
            self.jsx_depth as nat,
            *func,
        ));
    }

    /// components-return-once for a function met outside JSX that looks
    /// like a component: its name is PascalCase, it returns JSX, or its
    /// symbol was used as a component tag.
    fn check_function_component(&mut self, func: &Function, symbol: Option<u32>)
        ensures
            final(self).config == old(self).config,
            final(self).jsx_depth == old(self).jsx_depth,
            final(self).used_symbols@ == old(self).used_symbols@,
            final(self).component_symbols@ == old(self).component_symbols@,
            name_set_contents(final(self).solid_imports) == name_set_contents(old(self).solid_imports),
            diags_view(final(self).diagnostics@) == diags_view(old(self).diagnostics@)
                + component_function_diags(old(self).config, old(self).jsx_depth as nat, *func),
    {
        let ghost start = diags_view(self.diagnostics@);
        if !self.config.components_return_once || self.jsx_depth > 0 {
            assert(diags_view(self.diagnostics@) =~= start + Seq::<DiagnosticView>::empty());
            return;
        }
        let pascal = Self::is_pascal_case(func);
        let has_jsx = Self::returns_jsx(func);
        if !pascal && !has_jsx {
            assert(diags_view(self.diagnostics@) =~= start + Seq::<DiagnosticView>::empty());
            return;
        }
        let is_known_component = match symbol {
            Some(sym) => symbol_set_contains(&self.component_symbols, sym),
            None => false,
        };
        if pascal || has_jsx || is_known_component {
            if func.body.is_some() {
                let rule = ComponentsReturnOnce::new();
                let d = rule.check_function(func, true, false);
                extend_diags(&mut self.diagnostics, d);
                return;
            }
        }
        assert(diags_view(self.diagnostics@) =~= start + Seq::<DiagnosticView>::empty());
    }

    /// An arrow function: components-return-once and no-destructure when
    /// it returns JSX.
    pub fn check_arrow_component(&mut self, arrow: &Function)
        ensures
            final(self).rules() == old(self).rules(),
            final(self).state() == semantic_step(
                old(self).rules(),
                old(self).state(),
                SemanticEvent::Arrow(*arrow),
            ),
    {
        let ghost start = diags_view(self.diagnostics@);
        let inside_jsx = self.jsx_depth > 0;
        if (!self.config.components_return_once && !self.config.no_destructure) || inside_jsx {
            assert(diags_view(self.diagnostics@) =~= start + arrow_diags(
                self.config,
                self.jsx_depth as nat,
                *arrow,
            ));
            return;
        }
        let has_jsx = Self::returns_jsx(arrow);
        if !has_jsx {
            assert(diags_view(self.diagnostics@) =~= start + arrow_diags(
                self.config,
                self.jsx_depth as nat,
                *arrow,
            ));
            return;
        }
        if self.config.components_return_once {
            let rule = ComponentsReturnOnce::new();
            let d = rule.check_arrow(arrow, true, inside_jsx);
            extend_diags(&mut self.diagnostics, d);
        } else {
            assert(diags_view(self.diagnostics@) =~= start + Seq::<DiagnosticView>::empty());
        }
        let ghost mid = diags_view(self.diagnostics@);
        if self.config.no_destructure {
            let rule = NoDestructure::new();
            let d = rule.check_arrow(arrow, has_jsx, inside_jsx);
            extend_diags(&mut self.diagnostics, d);
        } else {
            assert(diags_view(self.diagnostics@) =~= mid + Seq::<DiagnosticView>::empty());
        }
        assert(diags_view(self.diagnostics@) =~= start + arrow_diags(
            self.config,
            self.jsx_depth as nat,
            *arrow,
        ));
    }

    /// A call expression: reactive primitives given a non-function.
    pub fn check_call_expression(&mut self, call: &CallExpression)
        ensures
            final(self).rules() == old(self).rules(),
            final(self).state() == semantic_step(
                old(self).rules(),
                old(self).state(),
                SemanticEvent::Call(*call),
            ),
    {
        if self.config.reactivity {
            let rule = Reactivity::new();
            let d = rule.check_call(call);
            extend_diags(&mut self.diagnostics, d);
        }
    }

    /// Handle one event.
    pub fn handle(&mut self, event: &SemanticEvent)
        requires
            event_ok(old(self).state(), *event),
            old(self).state().depth < usize::MAX,
        ensures
            final(self).rules() == old(self).rules(),
            final(self).state() == semantic_step(old(self).rules(), old(self).state(), *event),
    {
        match event {
            SemanticEvent::Import(i) => self.process_import(i),
            SemanticEvent::Function(f, sym) => self.visit_function(f, *sym),
            SemanticEvent::Arrow(f) => self.check_arrow_component(f),
            SemanticEvent::OpeningElement(o, resolved) => self.check_jsx_opening_element(o, resolved),
            SemanticEvent::EnterJsx => self.enter_jsx(),
            SemanticEvent::ExitJsx => self.exit_jsx(),
            SemanticEvent::Call(c) => self.check_call_expression(c),
        }
    }

    /// Run the rules: record the program's Solid imports, then handle the
    /// events of the traversal in order.
    pub fn run(self, program: &Program, events: &Vec<SemanticEvent>) -> (r: SemanticLintResult)
        requires
            events_ok(
                self.rules(),
                semantic_run(self.rules(), self.state(), program_imports(program.body@)),
                events@,
            ),
            self.state().depth + events@.len() < usize::MAX,
        ensures
            ({
                let end = semantic_run(
                    self.rules(),
                    semantic_run(self.rules(), self.state(), program_imports(program.body@)),
                    events@,
                );
                &&& diags_view(r.diagnostics@) == end.diagnostics
                &&& r.used_symbols@ == end.used
                &&& r.component_symbols@ == end.components
            }),
    {
        let mut runner = self;
        runner.collect_solid_imports(program);
        let ghost c = runner.rules();
        let ghost s0 = runner.state();
        let mut k: usize = 0;
        while k < events.len()
            invariant
                runner.rules() == c,
                k <= events@.len(),
                s0.depth + events@.len() < usize::MAX,
                events_ok(c, s0, events@),
                runner.state() == semantic_run(c, s0, events@.subrange(0, k as int)),
                runner.state().depth <= s0.depth + k,
            decreases events@.len() - k,
        {
            proof {
                lemma_events_ok_prefix(c, s0, events@, k + 1);
                assert(events@.subrange(0, k + 1).drop_last() =~= events@.subrange(0, k as int));
            }
            let ghost before = runner.state();
            runner.handle(&events[k]);
            proof {
                if let SemanticEvent::OpeningElement(o, resolved) = events@[k as int] {
                    lemma_refs_step_keeps_depth(c, before, opening_refs_spec(o), resolved@);
                }
            }
            k = k + 1;
        }
        assert(events@.subrange(0, events@.len() as int) =~= events@);
        SemanticLintResult {
            diagnostics: runner.diagnostics,
            used_symbols: runner.used_symbols,
            component_symbols: runner.component_symbols,
        }
    }
}

/// The import events of a program's top-level statements.
pub open spec fn program_imports(body: Seq<Statement>) -> Seq<SemanticEvent>
    decreases body.len(),
{
    if body.len() == 0 {
        Seq::empty()
    } else {
        let rest = program_imports(body.drop_last());
        match body.last() {
            Statement::Import(i) => rest.push(SemanticEvent::Import(i)),
            _ => rest,
        }
    }
}

/// Resolving the names of an opening element changes neither the depth
/// in JSX nor the recorded imports.
pub proof fn lemma_refs_step_keeps_depth(
    c: SemanticRulesConfig,
    s: SemanticState,
    refs: Seq<(Seq<char>, Span, bool)>,
    resolved: Seq<Option<u32>>,
)
    ensures
        refs_step(c, s, refs, resolved).depth == s.depth,
        refs_step(c, s, refs, resolved).imports == s.imports,
    decreases refs.len(),
{
    if refs.len() > 0 {
        lemma_refs_step_keeps_depth(c, s, refs.drop_last(), resolved.subrange(0, refs.len() - 1));
    }
}

/// With every rule disabled, no event reports anything or marks a symbol
/// as used.
pub proof fn lemma_disabled_semantic_rules_silent(
    s: SemanticState,
    events: Seq<SemanticEvent>,
)
    ensures
        semantic_run(SemanticRulesConfig::none_spec(), s, events).diagnostics == s.diagnostics,
        semantic_run(SemanticRulesConfig::none_spec(), s, events).used == s.used,
    decreases events.len(),
{
    let c = SemanticRulesConfig::none_spec();
    if events.len() > 0 {
        lemma_disabled_semantic_rules_silent(s, events.drop_last());
        let prev = semantic_run(c, s, events.drop_last());
        match events.last() {
            SemanticEvent::OpeningElement(o, resolved) => {
                lemma_refs_step_silent(prev, opening_refs_spec(o), resolved@);
            },
            SemanticEvent::Function(f, _) => {
                assert(function_diags(c, prev.depth, f) =~= Seq::<DiagnosticView>::empty());
                assert(prev.diagnostics + function_diags(c, prev.depth, f) =~= prev.diagnostics);
            },
            SemanticEvent::Arrow(f) => {
                assert(prev.diagnostics + arrow_diags(c, prev.depth, f) =~= prev.diagnostics);
            },
            _ => {},
        }
    }
}

/// With every rule disabled, resolving names reports nothing and marks no
/// symbol as used.
pub proof fn lemma_refs_step_silent(
    s: SemanticState,
    refs: Seq<(Seq<char>, Span, bool)>,
    resolved: Seq<Option<u32>>,
)
    ensures
        refs_step(SemanticRulesConfig::none_spec(), s, refs, resolved).diagnostics == s.diagnostics,
        refs_step(SemanticRulesConfig::none_spec(), s, refs, resolved).used == s.used,
    decreases refs.len(),
{
    if refs.len() > 0 {
        lemma_refs_step_silent(s, refs.drop_last(), resolved.subrange(0, refs.len() - 1));
    }
}

/// Leaving JSX undoes entering it.
pub proof fn lemma_enter_exit_jsx(c: SemanticRulesConfig, s: SemanticState)
    ensures
        semantic_step(c, semantic_step(c, s, SemanticEvent::EnterJsx), SemanticEvent::ExitJsx)
            == s,
{
}

/// The events of a prefix of a sequence that can be handled can be handled.
pub proof fn lemma_events_ok_prefix(
    c: SemanticRulesConfig,
    s: SemanticState,
    events: Seq<SemanticEvent>,
    n: int,
)
    requires
        events_ok(c, s, events),
        0 <= n <= events.len(),
    ensures
        events_ok(c, s, events.subrange(0, n)),
        n > 0 ==> event_ok(semantic_run(c, s, events.subrange(0, n - 1)), events[n - 1]),
    decreases events.len() - n,
{
    if n < events.len() {
        assert(events.drop_last().subrange(0, n) =~= events.subrange(0, n));
        lemma_events_ok_prefix(c, s, events.drop_last(), n);
    } else {
        assert(events.subrange(0, n) =~= events);
    }
    if n > 0 {
        assert(events.subrange(0, n).drop_last() =~= events.subrange(0, n - 1));
        assert(events.subrange(0, n).last() == events[n - 1]);
    }
}

/// Lint with every scope-aware rule enabled.
pub fn lint_with_semantic(
    source_text: &str,
    source_type: SourceKind,
    program: &Program,
    events: &Vec<SemanticEvent>,
) -> (r: SemanticLintResult)
    requires
        events_ok(
            SemanticRulesConfig::all_spec(),
            semantic_run(SemanticRulesConfig::all_spec(), initial_state(), program_imports(program.body@)),
            events@,
        ),
        events@.len() < usize::MAX,
    ensures
        ({
            let c = SemanticRulesConfig::all_spec();
            let end = semantic_run(
                c,
                semantic_run(c, initial_state(), program_imports(program.body@)),
                events@,
            );
            &&& diags_view(r.diagnostics@) == end.diagnostics
            &&& r.used_symbols@ == end.used
            &&& r.component_symbols@ == end.components
        }),
{
    let config = SemanticRulesConfig::all();
    SemanticLintRunner::new(source_text, source_type, config).run(program, events)
}

/// Lint with the given scope-aware rules.
pub fn lint_with_semantic_config(
    source_text: &str,
    source_type: SourceKind,
    program: &Program,
    events: &Vec<SemanticEvent>,
    config: SemanticRulesConfig,
) -> (r: SemanticLintResult)
    requires
        events_ok(config, semantic_run(config, initial_state(), program_imports(program.body@)), events@),
        events@.len() < usize::MAX,
    ensures
        ({
            let end = semantic_run(
                config,
                semantic_run(config, initial_state(), program_imports(program.body@)),
                events@,
            );
            &&& diags_view(r.diagnostics@) == end.diagnostics
            &&& r.used_symbols@ == end.used
            &&& r.component_symbols@ == end.components
        }),
{
    SemanticLintRunner::new(source_text, source_type, config).run(program, events)
}

/// The state before any event.
pub open spec fn initial_state() -> SemanticState {
    SemanticState {
        diagnostics: Seq::empty(),
        used: Set::empty(),
        components: Set::empty(),
        imports: Set::empty(),
        depth: 0,
    }
}

impl SemanticRulesConfig {
    /// Every rule disabled.
    pub open spec fn none_spec() -> SemanticRulesConfig {
        SemanticRulesConfig {
            jsx_no_undef: false,
            jsx_uses_vars: false,
            components_return_once: false,
            reactivity: false,
            no_destructure: false,
        }
    }

    /// Every rule enabled.
    pub open spec fn all_spec() -> SemanticRulesConfig {
        SemanticRulesConfig {
            jsx_no_undef: true,
            jsx_uses_vars: true,
            components_return_once: true,
            reactivity: true,
            no_destructure: true,
        }
    }
}

} // verus!
