//! The block context of the DOM transform: the templates it collects, the
//! runtime helpers and delegated events the output needs, and a counter
//! for unique names.
use indexmap::IndexSet;
use vstd::prelude::*;
use crate::name_set::{name_set_insert, name_set_insert_spec, name_set_new, name_set_view};
use crate::span::Span;
use crate::expression::{trim_whitespace, trim_whitespace_spec};
use crate::jsx::JsxChild;
use crate::ssr::{uid_name, uid_spec};
use crate::text::{chars_of, is_ascii_alpha, to_owned, views};

verus! {

/// A template collected at the file level.
#[derive(Debug, Clone)]
pub struct TemplateInfo {
    pub content: String,
    pub is_svg: bool,
    pub span: Span,
}

pub open spec fn template_info_view(t: TemplateInfo) -> (Seq<char>, bool, Span) {
    (t.content@, t.is_svg, t.span)
}

pub open spec fn template_infos_view(v: Seq<TemplateInfo>) -> Seq<(Seq<char>, bool, Span)> {
    v.map_values(|t: TemplateInfo| template_info_view(t))
}

/// Context of the block being transformed.
pub struct BlockContext {
    /// The template string being built.
    pub template: String,
    /// Templates collected at the file level.
    pub templates: Vec<TemplateInfo>,
    /// Helper imports needed, in the order first registered.
    pub helpers: IndexSet<String>,
    /// Delegated events, in the order first registered.
    pub delegates: IndexSet<String>,
    /// The number of unique names generated so far.
    pub var_counter: usize,
}

impl BlockContext {
    pub fn new() -> (r: Self)
        ensures
            r.template@ == Seq::<char>::empty(),
            r.templates@.len() == 0,
            name_set_view(r.helpers) == Seq::<Seq<char>>::empty(),
            name_set_view(r.delegates) == Seq::<Seq<char>>::empty(),
            r.var_counter == 0,
    {
        BlockContext {
            template: String::new(),
            templates: Vec::new(),
            helpers: name_set_new(),
            delegates: name_set_new(),
            var_counter: 0,
        }
    }

    /// A fresh name: `_` + prefix + the incremented counter.
    pub fn generate_uid(&mut self, prefix: &str) -> (r: String)
        requires
            old(self).var_counter < usize::MAX,
        ensures
            final(self).var_counter == old(self).var_counter + 1,
            r@ == uid_spec(prefix@, final(self).var_counter as nat),
            final(self).templates@ == old(self).templates@,
            name_set_view(final(self).helpers) == name_set_view(old(self).helpers),
            name_set_view(final(self).delegates) == name_set_view(old(self).delegates),
    {
        self.var_counter = self.var_counter + 1;
        uid_name(prefix, self.var_counter)
    }

    /// Register a helper import.
    pub fn register_helper(&mut self, name: &str)
        ensures
            name_set_view(final(self).helpers) == name_set_insert_spec(
                name_set_view(old(self).helpers),
                name@,
            ),
            name_set_view(final(self).delegates) == name_set_view(old(self).delegates),
            final(self).templates@ == old(self).templates@,
            final(self).var_counter == old(self).var_counter,
            final(self).template@ == old(self).template@,
    {
        name_set_insert(&mut self.helpers, to_owned(name));
    }

    /// Register a delegated event.
    pub fn register_delegate(&mut self, event: &str)
        ensures
            name_set_view(final(self).delegates) == name_set_insert_spec(
                name_set_view(old(self).delegates),
                event@,
            ),
            name_set_view(final(self).helpers) == name_set_view(old(self).helpers),
            final(self).templates@ == old(self).templates@,
            final(self).var_counter == old(self).var_counter,
            final(self).template@ == old(self).template@,
    {
        name_set_insert(&mut self.delegates, to_owned(event));
    }

    /// Collect a template, registering the `template` helper, and return
    /// its index.
    pub fn push_template(&mut self, content: String, is_svg: bool, span: Span) -> (r: usize)
        ensures
            r == old(self).templates@.len(),
            template_infos_view(final(self).templates@) == template_infos_view(
                old(self).templates@,
            ).push((content@, is_svg, span)),
            name_set_view(final(self).helpers) == name_set_insert_spec(
                name_set_view(old(self).helpers),
                "template"@,
            ),
            name_set_view(final(self).delegates) == name_set_view(old(self).delegates),
            final(self).var_counter == old(self).var_counter,
            final(self).template@ == old(self).template@,
    {
        self.register_helper("template");
        let index = self.templates.len();
        let ghost before = template_infos_view(self.templates@);
        let info = TemplateInfo { content, is_svg, span };
        self.templates.push(info);
        assert(template_infos_view(self.templates@) =~= before.push((content@, is_svg, span)));
        index
    }
}

/// What is handed down while an element and its children are
/// transformed.
#[derive(Default, Clone)]
pub struct TransformInfo {
    pub top_level: bool,
    pub last_element: bool,
    pub skip_id: bool,
    pub component_child: bool,
    pub fragment_child: bool,
    /// The path from the root element to this one (such as
    /// `["firstChild", "nextSibling"]`).
    pub path: Vec<String>,
    /// The variable name of the root element (such as `_el$1`).
    pub root_id: Option<String>,
}

/// A character that may start an identifier used as a property key.
pub open spec fn is_prop_ident_start(c: char) -> bool {
    c == '$' || c == '_' || is_ascii_alpha(c)
}

/// A character that may continue an identifier used as a property key.
pub open spec fn is_prop_ident_part(c: char) -> bool {
    is_prop_ident_start(c) || ('0' <= c && c <= '9')
}

/// The key can be written as a bare identifier in an object literal: it is
/// not empty, starts with `$`, `_` or an ASCII letter, and goes on with
/// those or ASCII digits.
pub open spec fn is_valid_prop_identifier_spec(key: Seq<char>) -> bool {
    &&& key.len() > 0
    &&& is_prop_ident_start(key[0])
    &&& forall|i: int| 1 <= i < key.len() ==> #[trigger] is_prop_ident_part(key[i])
}

/// Whether a property key can be written without quotes.
pub fn is_valid_prop_identifier(key: &str) -> (r: bool)
    ensures
        r == is_valid_prop_identifier_spec(key@),
{
    let v = chars_of(key);
    if v.len() == 0 {
        return false;
    }
    let c = v[0];
    if !(c == '$' || c == '_' || ('A' <= c && c <= 'Z') || ('a' <= c && c <= 'z')) {
        return false;
    }
    let mut i: usize = 1;
    while i < v.len()
        invariant
            v@ == key@,
            1 <= i <= v@.len(),
            forall|j: int| 1 <= j < i ==> #[trigger] is_prop_ident_part(v@[j]),
        decreases v@.len() - i,
    {
        let c = v[i];
        if !(c == '$' || c == '_' || ('A' <= c && c <= 'Z') || ('a' <= c && c <= 'z') || ('0' <= c
            && c <= '9')) {
            assert(!is_prop_ident_part(key@[i as int]));
            return false;
        }
        i = i + 1;
    }
    true
}

/// The path to the child at `node_index` of the element reached by `base`:
/// `firstChild`, then `nextSibling` once per preceding node.
pub open spec fn child_path_spec(base: Seq<Seq<char>>, node_index: nat) -> Seq<Seq<char>> {
    base.push("firstChild"@) + Seq::new(node_index, |i: int| "nextSibling"@)
}

/// The path to a child node, from the path of its parent.
pub fn child_path(base: &[String], node_index: usize) -> (r: Vec<String>)
    ensures
        views(r@) == child_path_spec(views(base@), node_index as nat),
{
    let mut path: Vec<String> = Vec::new();
    let mut i: usize = 0;
    while i < base.len()
        invariant
            i <= base@.len(),
            views(path@) == views(base@).subrange(0, i as int),
        decreases base@.len() - i,
    {
        let ghost before = views(path@);
        path.push(to_owned(base[i].as_str()));
        assert(views(path@) =~= before.push(base@[i as int]@));
        assert(views(base@).subrange(0, i + 1) =~= views(base@).subrange(0, i as int).push(
            base@[i as int]@,
        ));
        i = i + 1;
    }
    assert(views(base@).subrange(0, base@.len() as int) =~= views(base@));
    let ghost prefix = views(path@);
    path.push(to_owned("firstChild"));
    assert(views(path@) =~= prefix.push("firstChild"@));
    let ghost head = views(path@);
    let mut k: usize = 0;
    while k < node_index
        invariant
            k <= node_index,
            views(path@) == head + Seq::new(k as nat, |j: int| "nextSibling"@),
        decreases node_index - k,
    {
        let ghost before = views(path@);
        path.push(to_owned("nextSibling"));
        assert(views(path@) =~= before.push("nextSibling"@));
        assert(Seq::new((k + 1) as nat, |j: int| "nextSibling"@) =~= Seq::new(
            k as nat,
            |j: int| "nextSibling"@,
        ).push("nextSibling"@));
        assert(views(path@) =~= head + Seq::new((k + 1) as nat, |j: int| "nextSibling"@));
        k = k + 1;
    }
    path
}

/// The count of dynamic expressions among the first `n` children, and
/// whether any other content (non-blank text, an element, a fragment that
/// is not a single dynamic expression) was met.
pub open spec fn dynamic_child_tally(children: Seq<JsxChild>, n: int) -> (int, bool)
    decreases children, n,
{
    if n <= 0 || n > children.len() {
        (0, false)
    } else {
        let (count, other) = dynamic_child_tally(children, n - 1);
        match children[n - 1] {
            JsxChild::Text(t) => (count, other || trim_whitespace_spec(t.value@).len() > 0),
            JsxChild::Element(_) => (count, true),
            JsxChild::ExpressionContainer(c) => (
                if c.expression is Some {
                    count + 1
                } else {
                    count
                },
                other,
            ),
            JsxChild::Fragment(f) => {
                proof {
                    assert(decreases_to!(children => children[n - 1]));
                }
                if is_single_dynamic_child_spec(f.children@) {
                    (count + 1, other)
                } else {
                    (count, true)
                }
            },
            JsxChild::Spread(_) => (count, other),
        }
    }
}

/// The children are exactly one dynamic expression, fragments looked
/// through, and nothing else but blank text.
pub open spec fn is_single_dynamic_child_spec(children: Seq<JsxChild>) -> bool
    decreases children, children.len() + 1,
{
    let (count, other) = dynamic_child_tally(children, children.len() as int);
    count == 1 && !other
}

/// Whether a list of children is a single dynamic expression, so that no
/// marker is needed around it.
pub fn is_single_dynamic_child(children: &[JsxChild]) -> (r: bool)
    ensures
        r == is_single_dynamic_child_spec(children@),
    decreases children@, children@.len() + 1,
{
    let mut expr_count: usize = 0;
    let mut other_content = false;
    let mut k: usize = 0;
    while k < children.len()
        invariant
            k <= children@.len(),
            (expr_count as int, other_content) == dynamic_child_tally(children@, k as int),
            expr_count <= k,
        decreases children@.len() - k,
    {
        match &children[k] {
            JsxChild::Text(text) => {
                let content = trim_whitespace(text.value.as_str());
                if !content.as_str().is_empty() {
                    other_content = true;
                }
            },
            JsxChild::Element(_) => {
                other_content = true;
            },
            JsxChild::ExpressionContainer(container) => {
                if container.expression.is_some() {
                    expr_count = expr_count + 1;
                }
            },
            JsxChild::Fragment(fragment) => {
                proof {
                    assert(decreases_to!(children@ => children@[k as int]));
                }
                if !is_single_dynamic_child(fragment.children.as_slice()) {
                    other_content = true;
                } else {
                    expr_count = expr_count + 1;
                }
            },
            JsxChild::Spread(_) => {},
        }
        k = k + 1;
    }
    expr_count == 1 && !other_content
}

} // verus!
