//! What a transform adds to a program once every JSX node is rendered: the
//! import of the runtime helpers it used, the template declarations of the
//! DOM output, and the call that sets up event delegation.
use vstd::prelude::*;
use crate::dom::{template_infos_view, BlockContext};
use crate::jsx::{ImportDeclarationSpecifier, Program, Statement};
use crate::name_set::{name_set_insert, name_set_insert_spec, name_set_to_vec, name_set_view};
use crate::ssr::SSRContext;
use crate::text::{decimal_spec, push_str, str_eq, string_in, to_owned, usize_to_decimal, views};

verus! {

/// A template declaration: `const name = template(`content`)`, with
/// `true` as a second argument for SVG.
#[derive(Debug, Clone)]
pub struct TemplateDeclaration {
    pub name: String,
    pub content: String,
    pub is_svg: bool,
}

/// What to add to a program.
#[derive(Debug)]
pub struct Prelude {
    /// Helpers to import from the helper module, in registration order.
    pub import_names: Vec<String>,
    /// The index in the program's body of the import that receives them,
    /// or `None` for a new import placed first.
    pub extend_import: Option<usize>,
    /// Template declarations, placed at the top after that import.
    pub templates: Vec<TemplateDeclaration>,
    /// The events to pass to `delegateEvents`, in a call placed last.
    pub delegate_events: Option<Vec<String>>,
}

pub struct PreludeView {
    pub import_names: Seq<Seq<char>>,
    pub extend_import: Option<int>,
    pub templates: Seq<(Seq<char>, Seq<char>, bool)>,
    pub delegate_events: Option<Seq<Seq<char>>>,
}

pub open spec fn declarations_view(v: Seq<TemplateDeclaration>) -> Seq<(Seq<char>, Seq<char>, bool)> {
    v.map_values(|d: TemplateDeclaration| (d.name@, d.content@, d.is_svg))
}

impl View for Prelude {
    type V = PreludeView;

    open spec fn view(&self) -> PreludeView {
        PreludeView {
            import_names: views(self.import_names@),
            extend_import: match self.extend_import {
                Some(i) => Some(i as int),
                None => None,
            },
            templates: declarations_view(self.templates@),
            delegate_events: match self.delegate_events {
                Some(v) => Some(views(v@)),
                None => None,
            },
        }
    }
}

/// The local names the first `n` specifiers of an import bind.
pub open spec fn locals_spec(specs: Seq<ImportDeclarationSpecifier>, n: int) -> Seq<Seq<char>>
    decreases n,
{
    if n <= 0 || n > specs.len() {
        Seq::empty()
    } else {
        locals_spec(specs, n - 1).push(
            match specs[n - 1] {
                ImportDeclarationSpecifier::ImportSpecifier(s) => s.local@,
                ImportDeclarationSpecifier::ImportDefaultSpecifier(i) => i.name@,
                ImportDeclarationSpecifier::ImportNamespaceSpecifier(i) => i.name@,
            },
        )
    }
}

/// The names bound by the value imports among the first `n` statements.
pub open spec fn bound_names_spec(body: Seq<Statement>, n: int) -> Seq<Seq<char>>
    decreases n,
{
    if n <= 0 || n > body.len() {
        Seq::empty()
    } else {
        bound_names_spec(body, n - 1) + match body[n - 1] {
            Statement::Import(d) => if !d.is_type {
                match d.specifiers {
                    Some(v) => locals_spec(v@, v@.len() as int),
                    None => Seq::empty(),
                }
            } else {
                Seq::empty()
            },
            _ => Seq::empty(),
        }
    }
}

/// The index of the first value import from `module` with specifiers,
/// from statement `k` on.
pub open spec fn first_module_import(body: Seq<Statement>, module: Seq<char>, k: int) -> Option<int>
    decreases body.len() - k,
{
    if k < 0 || k >= body.len() {
        None
    } else {
        match body[k] {
            Statement::Import(d) => if !d.is_type && d.source@ == module && d.specifiers is Some {
                Some(k)
            } else {
                first_module_import(body, module, k + 1)
            },
            _ => first_module_import(body, module, k + 1),
        }
    }
}

/// The helpers not yet bound by a value import of the program.
pub open spec fn missing_helpers(helpers: Seq<Seq<char>>, body: Seq<Statement>) -> Seq<Seq<char>> {
    let bound = bound_names_spec(body, body.len() as int);
    helpers.filter(|h: Seq<char>| !bound.contains(h))
}

/// The template declarations: `_tmpl$1`, `_tmpl$2`, ... in order.
pub open spec fn template_declarations_spec(templates: Seq<(Seq<char>, bool, crate::span::Span)>) -> Seq<
    (Seq<char>, Seq<char>, bool),
> {
    Seq::new(
        templates.len(),
        |i: int| ("_tmpl$"@ + decimal_spec((i + 1) as nat), templates[i].0, templates[i].1),
    )
}

/// The helpers after the delegation helper is registered where events are
/// delegated.
pub open spec fn helpers_with_delegation(helpers: Seq<Seq<char>>, delegates: Seq<Seq<char>>) -> Seq<
    Seq<char>,
> {
    if delegates.len() > 0 {
        name_set_insert_spec(helpers, "delegateEvents"@)
    } else {
        helpers
    }
}

/// What the DOM transform adds to a program: nothing where it used no
/// helper, template or delegated event; otherwise the helpers the program
/// does not bind yet, into its first value import from the module (with
/// specifiers) or a new one, the template declarations, and the
/// `delegateEvents` call with the delegated events.
pub open spec fn dom_prelude_spec(
    helpers: Seq<Seq<char>>,
    templates: Seq<(Seq<char>, bool, crate::span::Span)>,
    delegates: Seq<Seq<char>>,
    body: Seq<Statement>,
    module: Seq<char>,
) -> PreludeView {
    if helpers.len() == 0 && templates.len() == 0 && delegates.len() == 0 {
        PreludeView {
            import_names: Seq::empty(),
            extend_import: None,
            templates: Seq::empty(),
            delegate_events: None,
        }
    } else {
        let names = missing_helpers(helpers_with_delegation(helpers, delegates), body);
        PreludeView {
            import_names: names,
            extend_import: if names.len() > 0 {
                first_module_import(body, module, 0)
            } else {
                None
            },
            templates: template_declarations_spec(templates),
            delegate_events: if delegates.len() > 0 {
                Some(delegates)
            } else {
                None
            },
        }
    }
}

/// The local names an import binds.
fn import_locals(specs: &Vec<ImportDeclarationSpecifier>, out: &mut Vec<String>)
    ensures
        views(final(out)@) == views(old(out)@) + locals_spec(specs@, specs@.len() as int),
{
    let ghost start = views(out@);
    let mut k: usize = 0;
    while k < specs.len()
        invariant
            k <= specs@.len(),
            views(out@) == start + locals_spec(specs@, k as int),
        decreases specs@.len() - k,
    {
        let ghost before = views(out@);
        let name = match &specs[k] {
            ImportDeclarationSpecifier::ImportSpecifier(s) => to_owned(s.local.as_str()),
            ImportDeclarationSpecifier::ImportDefaultSpecifier(i) => to_owned(i.name.as_str()),
            ImportDeclarationSpecifier::ImportNamespaceSpecifier(i) => to_owned(i.name.as_str()),
        };
        out.push(name);
        assert(views(out@) =~= before.push(name@));
        assert(locals_spec(specs@, k + 1) =~= locals_spec(specs@, k as int).push(name@));
        assert(views(out@) =~= start + locals_spec(specs@, k + 1));
        k = k + 1;
    }
}

/// The names the value imports of a program bind.
fn bound_names(program: &Program) -> (r: Vec<String>)
    ensures
        views(r@) == bound_names_spec(program.body@, program.body@.len() as int),
{
    let ghost body = program.body@;
    let mut out: Vec<String> = Vec::new();
    let mut k: usize = 0;
    while k < program.body.len()
        invariant
            body == program.body@,
            k <= body.len(),
            views(out@) == bound_names_spec(body, k as int),
        decreases body.len() - k,
    {
        let ghost before = views(out@);
        match &program.body[k] {
            Statement::Import(d) => {
                if !d.is_type {
                    if let Some(v) = &d.specifiers {
                        import_locals(v, &mut out);
                    } else {
                        assert(before + Seq::<Seq<char>>::empty() =~= before);
                    }
                } else {
                    assert(before + Seq::<Seq<char>>::empty() =~= before);
                }
            },
            _ => {
                assert(before + Seq::<Seq<char>>::empty() =~= before);
            },
        }
        k = k + 1;
    }
    out
}

/// The helpers of `helpers` not in `bound`, in order.
fn filter_missing(helpers: &Vec<String>, bound: &Vec<String>) -> (r: Vec<String>)
    ensures
        views(r@) == views(helpers@).filter(|h: Seq<char>| !views(bound@).contains(h)),
{
    let ghost all = views(helpers@);
    let ghost b = views(bound@);
    let ghost pred = |h: Seq<char>| !b.contains(h);
    let mut out: Vec<String> = Vec::new();
    let mut k: usize = 0;
    while k < helpers.len()
        invariant
            all == views(helpers@),
            b == views(bound@),
            pred == (|h: Seq<char>| !b.contains(h)),
            k <= all.len(),
            views(out@) == all.subrange(0, k as int).filter(pred),
        decreases all.len() - k,
    {
        proof {
            let p = all.subrange(0, k + 1);
            assert(p.drop_last() =~= all.subrange(0, k as int));
            reveal_with_fuel(Seq::filter, 1);
        }
        if !string_in(helpers[k].as_str(), bound.as_slice()) {
            let ghost before = out@;
            let c = to_owned(helpers[k].as_str());
            out.push(c);
            assert(views(out@) =~= views(before).push(c@));
        }
        k = k + 1;
    }
    assert(all.subrange(0, all.len() as int) =~= all);
    out
}

/// The index of the first value import from `module` with specifiers.
fn find_module_import(program: &Program, module: &str) -> (r: Option<usize>)
    ensures
        match r {
            Some(i) => first_module_import(program.body@, module@, 0) == Some(i as int),
            None => first_module_import(program.body@, module@, 0) is None,
        },
{
    let ghost body = program.body@;
    let n = program.body.len();
    let mut k: usize = 0;
    while k < n
        invariant
            body == program.body@,
            n == body.len(),
            k <= n,
            first_module_import(body, module@, 0) == first_module_import(body, module@, k as int),
        decreases n - k,
    {
        if let Statement::Import(d) = &program.body[k] {
            if !d.is_type && str_eq(d.source.as_str(), module) && d.specifiers.is_some() {
                return Some(k);
            }
        }
        k = k + 1;
    }
    None
}

/// The template declarations of collected templates.
fn template_declarations(ctx: &BlockContext) -> (r: Vec<TemplateDeclaration>)
    requires
        ctx.templates@.len() < usize::MAX,
    ensures
        declarations_view(r@) == template_declarations_spec(template_infos_view(ctx.templates@)),
{
    let ghost t = template_infos_view(ctx.templates@);
    let mut out: Vec<TemplateDeclaration> = Vec::new();
    let mut k: usize = 0;
    while k < ctx.templates.len()
        invariant
            t == template_infos_view(ctx.templates@),
            t.len() < usize::MAX,
            k <= t.len(),
            declarations_view(out@) == template_declarations_spec(t).subrange(0, k as int),
        decreases t.len() - k,
    {
        let mut name = to_owned("_tmpl$");
        let num = usize_to_decimal(k + 1);
        push_str(&mut name, num.as_str());
        let d = TemplateDeclaration {
            name,
            content: to_owned(ctx.templates[k].content.as_str()),
            is_svg: ctx.templates[k].is_svg,
        };
        let ghost before = declarations_view(out@);
        out.push(d);
        assert(declarations_view(out@) =~= before.push((d.name@, d.content@, d.is_svg)));
        assert(t[k as int] == (ctx.templates@[k as int].content@, ctx.templates@[k as int].is_svg, ctx.templates@[k as int].span));
        assert(template_declarations_spec(t)[k as int] == (d.name@, d.content@, d.is_svg));
        assert(declarations_view(out@) =~= template_declarations_spec(t).subrange(0, k + 1));
        k = k + 1;
    }
    assert(template_declarations_spec(t).subrange(0, t.len() as int) =~= template_declarations_spec(t));
    out
}

/// What the DOM transform adds to a program once every JSX node is
/// rendered, with helpers imported from `module_name`; the delegation
/// helper is registered on the context where events are delegated.
pub fn program_prelude(ctx: &mut BlockContext, program: &Program, module_name: &str) -> (r: Prelude)
    requires
        old(ctx).templates@.len() < usize::MAX,
    ensures
        r@ == dom_prelude_spec(
            name_set_view(old(ctx).helpers),
            template_infos_view(old(ctx).templates@),
            name_set_view(old(ctx).delegates),
            program.body@,
            module_name@,
        ),
        name_set_view(final(ctx).helpers) == if name_set_view(old(ctx).helpers).len() == 0
            && old(ctx).templates@.len() == 0 && name_set_view(old(ctx).delegates).len() == 0 {
            name_set_view(old(ctx).helpers)
        } else {
            helpers_with_delegation(name_set_view(old(ctx).helpers), name_set_view(old(ctx).delegates))
        },
        name_set_view(final(ctx).delegates) == name_set_view(old(ctx).delegates),
        final(ctx).templates@ == old(ctx).templates@,
{
    let helpers0 = name_set_to_vec(&ctx.helpers);
    let delegates = name_set_to_vec(&ctx.delegates);
    if helpers0.len() == 0 && ctx.templates.len() == 0 && delegates.len() == 0 {
        let r = Prelude {
            import_names: Vec::new(),
            extend_import: None,
            templates: Vec::new(),
            delegate_events: None,
        };
        assert(r@.import_names =~= Seq::<Seq<char>>::empty());
        assert(r@.templates =~= Seq::<(Seq<char>, Seq<char>, bool)>::empty());
        return r;
    }
    if delegates.len() > 0 {
        ctx.register_helper("delegateEvents");
    }
    let helpers = name_set_to_vec(&ctx.helpers);
    let bound = bound_names(program);
    let names = filter_missing(&helpers, &bound);
    let extend_import = if names.len() > 0 {
        find_module_import(program, module_name)
    } else {
        None
    };
    let templates = template_declarations(ctx);
    let delegate_events = if delegates.len() > 0 {
        Some(delegates)
    } else {
        None
    };
    Prelude { import_names: names, extend_import, templates, delegate_events }
}

/// The helpers the SSR transform imports from its helper module: every
/// helper it used, in a new import placed first; nothing where it used
/// none.
pub fn ssr_program_imports(ctx: &SSRContext) -> (r: Vec<String>)
    ensures
        views(r@) == name_set_view(ctx.helpers),
{
    name_set_to_vec(&ctx.helpers)
}

} // verus!
