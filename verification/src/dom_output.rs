//! The expression a DOM transform result renders to: a cloned template
//! with its wiring, a text literal, an array of child results or the
//! result's own expressions. Expressions are held and produced as code.
use vstd::prelude::*;
use crate::dom::{template_infos_view, BlockContext};
use crate::name_set::{name_set_insert_spec, name_set_view};
use crate::span::Span;
use crate::ssr_element::{is_property, properties_spec};
use crate::text::{decimal_spec, join, join_spec, push_str, str_eq, to_owned, usize_to_decimal, views};

verus! {

/// A variable declaration of a result: `const name = init;`.
#[derive(Debug, Clone)]
pub struct Declaration {
    pub name: String,
    /// The initializer, as code.
    pub init: String,
}

/// A dynamic attribute binding, kept up to date inside an `effect`.
#[derive(Debug, Clone)]
pub struct DynamicBinding {
    /// The variable that holds the element.
    pub elem: String,
    pub key: String,
    /// The bound value, as code.
    pub value: String,
    pub is_svg: bool,
    pub is_ce: bool,
    pub tag_name: String,
}

/// What transforming a JSX node for the DOM produced.
#[derive(Debug)]
pub struct TransformResult {
    /// Source span of the originating JSX node.
    pub span: Span,
    /// The HTML template string.
    pub template: String,
    /// The template with all closing tags.
    pub template_with_closing_tags: String,
    /// Variable declarations needed.
    pub declarations: Vec<Declaration>,
    /// Expressions to run (effects, inserts, ...), as code.
    pub exprs: Vec<String>,
    /// Dynamic attribute bindings.
    pub dynamics: Vec<DynamicBinding>,
    /// Expressions run after the main effects, as code.
    pub post_exprs: Vec<String>,
    pub is_svg: bool,
    pub has_custom_element: bool,
    /// The tag name of a native element.
    pub tag_name: Option<String>,
    /// No template is generated for this result.
    pub skip_template: bool,
    /// The generated element variable.
    pub id: Option<String>,
    /// The result is text only.
    pub text: bool,
    /// The expressions are wrapped in `memo(..)`.
    pub needs_memo: bool,
    /// The results of a fragment's children, rendered as an array.
    pub child_results: Vec<TransformResult>,
}

/// What building output changes in the block context: the collected
/// templates and the registered helpers.
#[verifier::ext_equal]
pub struct DomState {
    pub templates: Seq<(Seq<char>, bool, Span)>,
    pub helpers: Seq<Seq<char>>,
}

pub open spec fn dom_state(ctx: BlockContext) -> DomState {
    DomState { templates: template_infos_view(ctx.templates@), helpers: name_set_view(ctx.helpers) }
}

pub open spec fn add_helper(s: DomState, h: Seq<char>) -> DomState {
    DomState { templates: s.templates, helpers: name_set_insert_spec(s.helpers, h) }
}

/// A generated template carries the empty span at offset 0.
pub open spec fn add_template(s: DomState, content: Seq<char>, is_svg: bool) -> DomState {
    DomState {
        templates: s.templates.push((content, is_svg, Span { start: 0, end: 0 })),
        helpers: name_set_insert_spec(s.helpers, "template"@),
    }
}

/// The statement that sets `key` of the element in `elem` to `value`.
pub open spec fn set_attr_spec(elem: Seq<char>, key: Seq<char>, value: Seq<char>, is_svg: bool) -> Seq<char> {
    if key == "class"@ || key == "className"@ {
        if is_svg {
            elem + ".setAttribute(\"class\", "@ + value + ")"@
        } else {
            elem + ".className = "@ + value
        }
    } else if key == "style"@ {
        "style("@ + elem + ", "@ + value + ")"@
    } else if key == "classList"@ {
        "classList("@ + elem + ", "@ + value + ")"@
    } else if key == "textContent"@ || key == "innerText"@ {
        elem + ".data = "@ + value
    } else if properties_spec().contains(key) {
        elem + "."@ + key + " = "@ + value
    } else {
        elem + ".setAttribute(\""@ + key + "\", "@ + value + ")"@
    }
}

pub open spec fn binding_setter(b: DynamicBinding) -> Seq<char> {
    set_attr_spec(b.elem@, b.key@, b.value@, b.is_svg)
}

/// The code that applies a dynamic binding to its element.
pub fn generate_set_attr_expr(binding: &DynamicBinding) -> (r: String)
    ensures
        r@ == binding_setter(*binding),
{
    let key = binding.key.as_str();
    let elem = binding.elem.as_str();
    let value = binding.value.as_str();
    let mut r = String::new();
    if str_eq(key, "class") || str_eq(key, "className") {
        if binding.is_svg {
            push_str(&mut r, elem);
            push_str(&mut r, ".setAttribute(\"class\", ");
            push_str(&mut r, value);
            push_str(&mut r, ")");
        } else {
            push_str(&mut r, elem);
            push_str(&mut r, ".className = ");
            push_str(&mut r, value);
        }
    } else if str_eq(key, "style") {
        push_str(&mut r, "style(");
        push_str(&mut r, elem);
        push_str(&mut r, ", ");
        push_str(&mut r, value);
        push_str(&mut r, ")");
    } else if str_eq(key, "classList") {
        push_str(&mut r, "classList(");
        push_str(&mut r, elem);
        push_str(&mut r, ", ");
        push_str(&mut r, value);
        push_str(&mut r, ")");
    } else if str_eq(key, "textContent") || str_eq(key, "innerText") {
        push_str(&mut r, elem);
        push_str(&mut r, ".data = ");
        push_str(&mut r, value);
    } else if is_property(key) {
        push_str(&mut r, elem);
        push_str(&mut r, ".");
        push_str(&mut r, key);
        push_str(&mut r, " = ");
        push_str(&mut r, value);
    } else {
        push_str(&mut r, elem);
        push_str(&mut r, ".setAttribute(\"");
        push_str(&mut r, key);
        push_str(&mut r, "\", ");
        push_str(&mut r, value);
        push_str(&mut r, ")");
    }
    proof {
        reveal_strlit("class");
        reveal_strlit("className");
        reveal_strlit("style");
        reveal_strlit("classList");
        reveal_strlit("textContent");
        reveal_strlit("innerText");
    }
    r
}

/// The helper the setter of a binding on `key` calls.
pub open spec fn binding_helper(key: Seq<char>) -> Seq<char> {
    if key == "style"@ {
        "style"@
    } else if key == "classList"@ {
        "classList"@
    } else {
        "setAttribute"@
    }
}

/// The helpers registered for the first `n` bindings: `effect`, then the
/// helper of each setter.
pub open spec fn bindings_state(s: DomState, bs: Seq<DynamicBinding>, n: int) -> DomState
    decreases n,
{
    if n <= 0 {
        s
    } else {
        add_helper(add_helper(bindings_state(s, bs, n - 1), "effect"@), binding_helper(bs[n - 1].key@))
    }
}

pub open spec fn effect_stmt(b: DynamicBinding) -> Seq<char> {
    "effect(() => "@ + binding_setter(b) + ");"@
}

pub open spec fn decl_stmt_spec(d: Declaration) -> Seq<char> {
    "const "@ + d.name@ + " = "@ + d.init@ + ";"@
}

pub open spec fn expr_stmt_spec(e: String) -> Seq<char> {
    e@ + ";"@
}

/// The variable of a template: `_tmpl$` and its index counted from one.
pub open spec fn template_var_spec(index: nat) -> Seq<char> {
    "_tmpl$"@ + decimal_spec(index + 1)
}

/// The variable of the element: its generated id, else `_el$`.
pub open spec fn elem_var_spec(id: Option<String>) -> Seq<char> {
    match id {
        Some(s) => s@,
        None => "_el$"@,
    }
}

/// The statements of a template-backed result: clone the template, then
/// the declarations, expressions, binding effects and post expressions,
/// and return the element.
pub open spec fn template_stmts(r: TransformResult, tmpl: Seq<char>) -> Seq<Seq<char>> {
    let elem = elem_var_spec(r.id);
    seq!["const "@ + elem + " = "@ + tmpl + ".cloneNode(true);"@]
        + r.declarations@.map_values(|d: Declaration| decl_stmt_spec(d))
        + r.exprs@.map_values(|e: String| expr_stmt_spec(e))
        + r.dynamics@.map_values(|b: DynamicBinding| effect_stmt(b))
        + r.post_exprs@.map_values(|e: String| expr_stmt_spec(e))
        + seq!["return "@ + elem + ";"@]
}

/// An arrow function of these statements, called at once.
pub open spec fn iife_spec(stmts: Seq<Seq<char>>) -> Seq<char> {
    "(() => { "@ + join_spec(stmts, " "@) + " })()"@
}

/// The code a result renders to and the block context after it: an array
/// of the child results, rendered in order; a string literal of a text
/// result; a cloned template with its wiring; the expressions (wrapped in
/// `memo(..)` where asked, one alone as it is, several in a sequence); or
/// the empty string literal.
pub open spec fn dom_output(r: TransformResult, s: DomState) -> (Seq<char>, DomState)
    decreases r, 1int,
{
    if r.child_results@.len() > 0 {
        proof {
            assert(decreases_to!(r => r.child_results));
            assert(decreases_to!(r.child_results => r.child_results@));
        }
        let out = dom_outputs(r.child_results@, s, r.child_results@.len() as int);
        ("["@ + join_spec(out.0, ", "@) + "]"@, out.1)
    } else if r.text && r.template@.len() > 0 {
        ("\""@ + r.template@ + "\""@, s)
    } else if r.template@.len() > 0 && !r.skip_template {
        let s1 = add_template(s, r.template@, r.is_svg);
        (
            iife_spec(template_stmts(r, template_var_spec(s.templates.len()))),
            bindings_state(s1, r.dynamics@, r.dynamics@.len() as int),
        )
    } else if r.exprs@.len() > 0 {
        if r.needs_memo {
            ("memo("@ + join_spec(views(r.exprs@), ", "@) + ")"@, add_helper(s, "memo"@))
        } else if r.exprs@.len() == 1 {
            (r.exprs@[0]@, s)
        } else {
            ("("@ + join_spec(views(r.exprs@), ", "@) + ")"@, s)
        }
    } else {
        ("\"\""@, s)
    }
}

/// The codes of the first `n` results, rendered in order, and the block
/// context after them.
pub open spec fn dom_outputs(rs: Seq<TransformResult>, s: DomState, n: int) -> (Seq<Seq<char>>, DomState)
    decreases rs, n,
{
    if n <= 0 || n > rs.len() {
        (Seq::empty(), s)
    } else {
        let front = dom_outputs(rs, s, n - 1);
        proof {
            assert(decreases_to!(rs => rs[n - 1]));
        }
        let last = dom_output(rs[n - 1], front.1);
        (front.0.push(last.0), last.1)
    }
}

/// The block context is unchanged but for its templates and helpers.
pub open spec fn same_rest(a: BlockContext, b: BlockContext) -> bool {
    &&& a.template@ == b.template@
    &&& name_set_view(a.delegates) == name_set_view(b.delegates)
    &&& a.var_counter == b.var_counter
}

fn append_decls(stmts: &mut Vec<String>, ds: &[Declaration])
    ensures
        views(final(stmts)@) == views(old(stmts)@) + ds@.map_values(|d: Declaration| decl_stmt_spec(d)),
{
    let ghost base = views(stmts@);
    let mut k: usize = 0;
    while k < ds.len()
        invariant
            k <= ds@.len(),
            views(stmts@) == base + ds@.take(k as int).map_values(|d: Declaration| decl_stmt_spec(d)),
        decreases ds@.len() - k,
    {
        let mut t = to_owned("const ");
        push_str(&mut t, ds[k].name.as_str());
        push_str(&mut t, " = ");
        push_str(&mut t, ds[k].init.as_str());
        push_str(&mut t, ";");
        let ghost prev = views(stmts@);
        let ghost tv = t@;
        stmts.push(t);
        assert(views(stmts@) =~= prev.push(tv));
        k = k + 1;
        assert(ds@.take(k as int).map_values(|d: Declaration| decl_stmt_spec(d)) =~= ds@.take(k - 1).map_values(
            |d: Declaration| decl_stmt_spec(d),
        ).push(decl_stmt_spec(ds@[k - 1])));
        assert(views(stmts@) =~= base + ds@.take(k as int).map_values(|d: Declaration| decl_stmt_spec(d)));
    }
    assert(ds@.take(ds@.len() as int) =~= ds@);
}

fn append_exprs(stmts: &mut Vec<String>, es: &[String])
    ensures
        views(final(stmts)@) == views(old(stmts)@) + es@.map_values(|e: String| expr_stmt_spec(e)),
{
    let ghost base = views(stmts@);
    let mut k: usize = 0;
    while k < es.len()
        invariant
            k <= es@.len(),
            views(stmts@) == base + es@.take(k as int).map_values(|e: String| expr_stmt_spec(e)),
        decreases es@.len() - k,
    {
        let mut t = to_owned(es[k].as_str());
        push_str(&mut t, ";");
        let ghost prev = views(stmts@);
        let ghost tv = t@;
        stmts.push(t);
        assert(views(stmts@) =~= prev.push(tv));
        k = k + 1;
        assert(es@.take(k as int).map_values(|e: String| expr_stmt_spec(e)) =~= es@.take(k - 1).map_values(
            |e: String| expr_stmt_spec(e),
        ).push(expr_stmt_spec(es@[k - 1])));
        assert(views(stmts@) =~= base + es@.take(k as int).map_values(|e: String| expr_stmt_spec(e)));
    }
    assert(es@.take(es@.len() as int) =~= es@);
}

fn append_effects(stmts: &mut Vec<String>, bs: &[DynamicBinding], ctx: &mut BlockContext)
    ensures
        views(final(stmts)@) == views(old(stmts)@) + bs@.map_values(|b: DynamicBinding| effect_stmt(b)),
        dom_state(*final(ctx)) == bindings_state(dom_state(*old(ctx)), bs@, bs@.len() as int),
        same_rest(*final(ctx), *old(ctx)),
{
    let ghost base = views(stmts@);
    let ghost s0 = dom_state(*ctx);
    let mut k: usize = 0;
    while k < bs.len()
        invariant
            k <= bs@.len(),
            views(stmts@) == base + bs@.take(k as int).map_values(|b: DynamicBinding| effect_stmt(b)),
            dom_state(*ctx) == bindings_state(s0, bs@, k as int),
            same_rest(*ctx, *old(ctx)),
        decreases bs@.len() - k,
    {
        let b = &bs[k];
        ctx.register_helper("effect");
        if str_eq(b.key.as_str(), "style") {
            ctx.register_helper("style");
        } else if str_eq(b.key.as_str(), "classList") {
            ctx.register_helper("classList");
        } else {
            ctx.register_helper("setAttribute");
        }
        proof {
            reveal_strlit("style");
            reveal_strlit("classList");
        }
        let setter = generate_set_attr_expr(b);
        let mut t = to_owned("effect(() => ");
        push_str(&mut t, setter.as_str());
        push_str(&mut t, ");");
        let ghost prev = views(stmts@);
        let ghost tv = t@;
        stmts.push(t);
        assert(views(stmts@) =~= prev.push(tv));
        k = k + 1;
        assert(bs@.take(k as int).map_values(|b: DynamicBinding| effect_stmt(b)) =~= bs@.take(k - 1).map_values(
            |b: DynamicBinding| effect_stmt(b),
        ).push(effect_stmt(bs@[k - 1])));
        assert(views(stmts@) =~= base + bs@.take(k as int).map_values(|b: DynamicBinding| effect_stmt(b)));
        assert(dom_state(*ctx) =~= bindings_state(s0, bs@, k as int));
    }
    assert(bs@.take(bs@.len() as int) =~= bs@);
}

/// Renders a result to code, collecting its template and registering the
/// helpers its output calls in the block context.
pub fn build_dom_output_expr(result: &TransformResult, ctx: &mut BlockContext) -> (r: String)
    ensures
        r@ == dom_output(*result, dom_state(*old(ctx))).0,
        dom_state(*final(ctx)) == dom_output(*result, dom_state(*old(ctx))).1,
        same_rest(*final(ctx), *old(ctx)),
    decreases result,
{
    let ghost s0 = dom_state(*ctx);
    if result.child_results.len() > 0 {
        let mut codes: Vec<String> = Vec::new();
        let mut k: usize = 0;
        while k < result.child_results.len()
            invariant
                k <= result.child_results@.len(),
                s0 == dom_state(*old(ctx)),
                views(codes@) == dom_outputs(result.child_results@, s0, k as int).0,
                dom_state(*ctx) == dom_outputs(result.child_results@, s0, k as int).1,
                same_rest(*ctx, *old(ctx)),
            decreases result.child_results@.len() - k,
        {
            proof {
                assert(decreases_to!(*result => result.child_results));
                assert(decreases_to!(result.child_results => result.child_results@));
                assert(decreases_to!(result.child_results@ => result.child_results@[k as int]));
            }
            let code = build_dom_output_expr(&result.child_results[k], ctx);
            let ghost prev = views(codes@);
            let ghost cv = code@;
            codes.push(code);
            assert(views(codes@) =~= prev.push(cv));
            k = k + 1;
        }
        let mut r = to_owned("[");
        let j = join(codes.as_slice(), ", ");
        push_str(&mut r, j.as_str());
        push_str(&mut r, "]");
        return r;
    }
    if result.text && !result.template.as_str().is_empty() {
        let mut r = to_owned("\"");
        push_str(&mut r, result.template.as_str());
        push_str(&mut r, "\"");
        return r;
    }
    if !result.template.as_str().is_empty() && !result.skip_template {
        let ghost t0 = ctx.templates@;
        assert(template_infos_view(t0).len() == t0.len());
        let idx = ctx.push_template(to_owned(result.template.as_str()), result.is_svg, Span::empty());
        assert(dom_state(*ctx) =~= add_template(s0, result.template@, result.is_svg));
        let count = ctx.templates.len();
        assert(template_infos_view(ctx.templates@).len() == ctx.templates@.len());
        assert(count == idx + 1);
        let num = usize_to_decimal(count);
        let mut tmpl = to_owned("_tmpl$");
        push_str(&mut tmpl, num.as_str());
        let elem = match &result.id {
            Some(id) => to_owned(id.as_str()),
            None => to_owned("_el$"),
        };
        let mut stmts: Vec<String> = Vec::new();
        let mut first = to_owned("const ");
        push_str(&mut first, elem.as_str());
        push_str(&mut first, " = ");
        push_str(&mut first, tmpl.as_str());
        push_str(&mut first, ".cloneNode(true);");
        stmts.push(first);
        append_decls(&mut stmts, result.declarations.as_slice());
        append_exprs(&mut stmts, result.exprs.as_slice());
        append_effects(&mut stmts, result.dynamics.as_slice(), ctx);
        append_exprs(&mut stmts, result.post_exprs.as_slice());
        let mut last = to_owned("return ");
        push_str(&mut last, elem.as_str());
        push_str(&mut last, ";");
        let ghost prev = views(stmts@);
        let ghost lv = last@;
        stmts.push(last);
        assert(views(stmts@) =~= prev.push(lv));
        assert(views(stmts@) =~= template_stmts(*result, template_var_spec(s0.templates.len())));
        let mut r = to_owned("(() => { ");
        let j = join(stmts.as_slice(), " ");
        push_str(&mut r, j.as_str());
        push_str(&mut r, " })()");
        return r;
    }
    if result.exprs.len() > 0 {
        if result.needs_memo {
            ctx.register_helper("memo");
            assert(dom_state(*ctx) =~= add_helper(s0, "memo"@));
            let mut r = to_owned("memo(");
            let j = join(result.exprs.as_slice(), ", ");
            push_str(&mut r, j.as_str());
            push_str(&mut r, ")");
            return r;
        }
        if result.exprs.len() == 1 {
            return to_owned(result.exprs[0].as_str());
        }
        let mut r = to_owned("(");
        let j = join(result.exprs.as_slice(), ", ");
        push_str(&mut r, j.as_str());
        push_str(&mut r, ")");
        return r;
    }
    to_owned("\"\"")
}

} // verus!
