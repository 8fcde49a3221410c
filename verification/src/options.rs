//! Options of the JSX compiler, and the templates, helpers and delegated
//! events it collects.
use std::collections::HashSet;
use vstd::prelude::*;
use crate::source::SourceKind;
use crate::text::{to_owned, views};

verus! {

/// What the compiler generates.
#[derive(Debug, Clone, Copy, PartialEq, Eq, Structural)]
pub enum GenerateMode {
    Dom,
    Ssr,
    Universal,
}

impl Default for GenerateMode {
    fn default() -> (r: Self)
        ensures
            r == GenerateMode::Dom,
    {
        GenerateMode::Dom
    }
}

/// Configuration of the JSX transform, with what it collects.
pub struct TransformOptions {
    /// The module runtime helpers are imported from.
    pub module_name: String,
    /// What to generate.
    pub generate: GenerateMode,
    /// Whether to enable hydration support.
    pub hydratable: bool,
    /// Whether to delegate events.
    pub delegate_events: bool,
    /// Custom delegated events.
    pub delegated_events: Vec<String>,
    /// Whether to wrap conditionals.
    pub wrap_conditionals: bool,
    /// Whether to pass context to custom elements.
    pub context_to_custom_elements: bool,
    /// Built-in components (For, Show, etc.).
    pub built_ins: Vec<String>,
    /// Effect wrapper function name.
    pub effect_wrapper: String,
    /// Memo wrapper function name.
    pub memo_wrapper: String,
    /// Source file name.
    pub filename: String,
    /// Source type.
    pub source_type: SourceKind,
    /// Whether to generate source maps.
    pub source_map: bool,
    /// Static marker comment.
    pub static_marker: String,
    /// Collected templates, with whether each is SVG.
    pub templates: Vec<(String, bool)>,
    /// Collected helper imports.
    pub helpers: HashSet<String>,
    /// Collected delegated events.
    pub delegates: HashSet<String>,
}

/// Solid's built-in components.
pub open spec fn solid_built_ins() -> Seq<Seq<char>> {
    seq![
        "For"@,
        "Show"@,
        "Switch"@,
        "Match"@,
        "Suspense"@,
        "SuspenseList"@,
        "Portal"@,
        "Index"@,
        "Dynamic"@,
        "ErrorBoundary"@,
    ]
}

pub open spec fn templates_view(t: Seq<(String, bool)>) -> Seq<(Seq<char>, bool)> {
    t.map_values(|p: (String, bool)| (p.0@, p.1))
}

/// The names a set of strings holds.
pub uninterp spec fn string_set_contents(s: HashSet<String>) -> Set<Seq<char>>;

/// Calls `HashSet::new`: a set that holds no name.
#[verifier::external_body]
fn string_set_new() -> (r: HashSet<String>)
    ensures
        string_set_contents(r) == Set::<Seq<char>>::empty(),
{
    HashSet::new()
}

/// Calls `HashSet::insert`. Strings compare and hash by their text, so the
/// set then holds the name, and the result says whether it was absent.
#[verifier::external_body]
fn string_set_insert(set: &mut HashSet<String>, v: String) -> (r: bool)
    ensures
        string_set_contents(*final(set)) == string_set_contents(*old(set)).insert(v@),
        r == !string_set_contents(*old(set)).contains(v@),
{
    set.insert(v)
}

impl Default for TransformOptions {
    fn default() -> (r: Self)
        ensures
            r.module_name@ == Seq::<char>::empty(),
            r.source_type == SourceKind::default_spec(),
            r.generate == GenerateMode::Dom,
            !r.hydratable,
            !r.delegate_events,
            r.delegated_events@.len() == 0,
            !r.wrap_conditionals,
            !r.context_to_custom_elements,
            r.built_ins@.len() == 0,
            r.effect_wrapper@ == Seq::<char>::empty(),
            r.memo_wrapper@ == Seq::<char>::empty(),
            r.filename@ == Seq::<char>::empty(),
            !r.source_map,
            r.static_marker@ == Seq::<char>::empty(),
            r.templates@.len() == 0,
            string_set_contents(r.helpers) == Set::<Seq<char>>::empty(),
            string_set_contents(r.delegates) == Set::<Seq<char>>::empty(),
    {
        let r = TransformOptions {
            module_name: String::new(),
            generate: GenerateMode::Dom,
            hydratable: false,
            delegate_events: false,
            delegated_events: Vec::new(),
            wrap_conditionals: false,
            context_to_custom_elements: false,
            built_ins: Vec::new(),
            effect_wrapper: String::new(),
            memo_wrapper: String::new(),
            filename: String::new(),
            source_type: SourceKind::mjs(),
            source_map: false,
            static_marker: String::new(),
            templates: Vec::new(),
            helpers: string_set_new(),
            delegates: string_set_new(),
        };
        r
    }
}

impl TransformOptions {
    /// Solid's defaults: DOM output from `solid-js/web`, delegated events,
    /// wrapped conditionals, and Solid's built-in components.
    pub fn solid_defaults() -> (r: Self)
        ensures
            r.module_name@ == "solid-js/web"@,
            r.source_type == SourceKind::tsx_spec(),
            r.generate == GenerateMode::Dom,
            !r.hydratable,
            r.delegate_events,
            r.delegated_events@.len() == 0,
            r.wrap_conditionals,
            r.context_to_custom_elements,
            views(r.built_ins@) == solid_built_ins(),
            r.effect_wrapper@ == "effect"@,
            r.memo_wrapper@ == "memo"@,
            r.filename@ == "input.jsx"@,
            !r.source_map,
            r.static_marker@ == "@once"@,
            r.templates@.len() == 0,
            string_set_contents(r.helpers) == Set::<Seq<char>>::empty(),
            string_set_contents(r.delegates) == Set::<Seq<char>>::empty(),
    {
        let built_ins = vec![
            to_owned("For"),
            to_owned("Show"),
            to_owned("Switch"),
            to_owned("Match"),
            to_owned("Suspense"),
            to_owned("SuspenseList"),
            to_owned("Portal"),
            to_owned("Index"),
            to_owned("Dynamic"),
            to_owned("ErrorBoundary"),
        ];
        assert(views(built_ins@) =~= solid_built_ins());
        let r = TransformOptions {
            module_name: to_owned("solid-js/web"),
            generate: GenerateMode::Dom,
            hydratable: false,
            delegate_events: true,
            delegated_events: Vec::new(),
            wrap_conditionals: true,
            context_to_custom_elements: true,
            built_ins,
            effect_wrapper: to_owned("effect"),
            memo_wrapper: to_owned("memo"),
            filename: to_owned("input.jsx"),
            source_type: SourceKind::tsx(),
            source_map: false,
            static_marker: to_owned("@once"),
            templates: Vec::new(),
            helpers: string_set_new(),
            delegates: string_set_new(),
        };
        r
    }

    /// Register a helper import.
    pub fn register_helper(&mut self, name: &str)
        ensures
            string_set_contents(final(self).helpers) == string_set_contents(old(self).helpers).insert(
                name@,
            ),
            final(self).delegates == old(self).delegates,
            final(self).templates@ == old(self).templates@,
    {
        string_set_insert(&mut self.helpers, to_owned(name));
    }

    /// Register an event for delegation.
    pub fn register_delegate(&mut self, event: &str)
        ensures
            string_set_contents(final(self).delegates) == string_set_contents(
                old(self).delegates,
            ).insert(event@),
            final(self).helpers == old(self).helpers,
            final(self).templates@ == old(self).templates@,
    {
        string_set_insert(&mut self.delegates, to_owned(event));
    }

    /// Collect a template and return its index.
    pub fn push_template(&mut self, template: String, is_svg: bool) -> (r: usize)
        ensures
            r == old(self).templates@.len(),
            templates_view(final(self).templates@) == templates_view(old(self).templates@).push(
                (template@, is_svg),
            ),
            final(self).helpers == old(self).helpers,
            final(self).delegates == old(self).delegates,
    {
        let index = self.templates.len();
        let ghost before = templates_view(self.templates@);
        self.templates.push((template, is_svg));
        assert(templates_view(self.templates@) =~= before.push((template@, is_svg)));
        index
    }
}

/// Registering a name twice is registering it once.
pub proof fn lemma_register_idempotent(names: Set<Seq<char>>, name: Seq<char>)
    ensures
        names.insert(name).insert(name) == names.insert(name),
        names.insert(name).contains(name),
{
    assert(names.insert(name).insert(name) =~= names.insert(name));
}

/// Transform options as JavaScript callers give them: every field may be
/// left out.
#[derive(Debug, Clone)]
pub struct JsTransformOptions {
    /// The module to import runtime helpers from.
    pub module_name: Option<String>,
    /// "dom", "ssr" or "universal".
    pub generate: Option<String>,
    pub hydratable: Option<bool>,
    pub delegate_events: Option<bool>,
    pub wrap_conditionals: Option<bool>,
    pub context_to_custom_elements: Option<bool>,
    pub filename: Option<String>,
    pub source_map: Option<bool>,
}

impl Default for JsTransformOptions {
    fn default() -> (r: Self)
        ensures
            r.module_name is None,
            r.generate is None,
            r.hydratable is None,
            r.delegate_events is None,
            r.wrap_conditionals is None,
            r.context_to_custom_elements is None,
            r.filename is None,
            r.source_map is None,
    {
        JsTransformOptions {
            module_name: None,
            generate: None,
            hydratable: None,
            delegate_events: None,
            wrap_conditionals: None,
            context_to_custom_elements: None,
            filename: None,
            source_map: None,
        }
    }
}

/// The generate mode a JavaScript caller names: "ssr", "universal", and
/// DOM for anything else.
pub open spec fn generate_mode_spec(generate: Option<Seq<char>>) -> GenerateMode {
    match generate {
        Some(g) => if g == "ssr"@ {
            GenerateMode::Ssr
        } else if g == "universal"@ {
            GenerateMode::Universal
        } else {
            GenerateMode::Dom
        },
        None => GenerateMode::Dom,
    }
}

pub open spec fn opt_bool(o: Option<bool>, default: bool) -> bool {
    match o {
        Some(b) => b,
        None => default,
    }
}

impl JsTransformOptions {
    /// The transform options these stand for: Solid's defaults with each
    /// given field in place.
    pub fn to_transform_options(&self) -> (r: TransformOptions)
        ensures
            r.generate == generate_mode_spec(
                match self.generate {
                    Some(g) => Some(g@),
                    None => None,
                },
            ),
            r.hydratable == opt_bool(self.hydratable, false),
            r.delegate_events == opt_bool(self.delegate_events, true),
            r.wrap_conditionals == opt_bool(self.wrap_conditionals, true),
            r.context_to_custom_elements == opt_bool(self.context_to_custom_elements, true),
            r.filename@ == match self.filename {
                Some(f) => f@,
                None => "input.jsx"@,
            },
            r.source_map == opt_bool(self.source_map, false),
            r.module_name@ == match self.module_name {
                Some(m) => m@,
                None => "solid-js/web"@,
            },
            r.delegated_events@.len() == 0,
            views(r.built_ins@) == solid_built_ins(),
            r.effect_wrapper@ == "effect"@,
            r.memo_wrapper@ == "memo"@,
            r.static_marker@ == "@once"@,
            r.source_type == SourceKind::tsx_spec(),
            r.templates@.len() == 0,
            string_set_contents(r.helpers) == Set::<Seq<char>>::empty(),
            string_set_contents(r.delegates) == Set::<Seq<char>>::empty(),
    {
        let generate = match &self.generate {
            Some(g) => if crate::text::str_eq(g.as_str(), "ssr") {
                GenerateMode::Ssr
            } else if crate::text::str_eq(g.as_str(), "universal") {
                GenerateMode::Universal
            } else {
                GenerateMode::Dom
            },
            None => GenerateMode::Dom,
        };
        let defaults = TransformOptions::solid_defaults();
        let filename = match &self.filename {
            Some(f) => to_owned(f.as_str()),
            None => to_owned("input.jsx"),
        };
        let module_name = match &self.module_name {
            Some(m) => to_owned(m.as_str()),
            None => to_owned("solid-js/web"),
        };
        TransformOptions {
            module_name,
            generate,
            hydratable: match self.hydratable {
                Some(b) => b,
                None => false,
            },
            delegate_events: match self.delegate_events {
                Some(b) => b,
                None => true,
            },
            wrap_conditionals: match self.wrap_conditionals {
                Some(b) => b,
                None => true,
            },
            context_to_custom_elements: match self.context_to_custom_elements {
                Some(b) => b,
                None => true,
            },
            filename,
            source_map: match self.source_map {
                Some(b) => b,
                None => false,
            },
            ..defaults
        }
    }
}

} // verus!
