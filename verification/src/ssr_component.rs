//! The SSR transform of Solid's built-in control-flow components (`For`,
//! `Show`, `Switch` and the others): each becomes one `createComponent`
//! call whose props are written out as code text, its children rendered
//! for the server.
use vstd::prelude::*;
use crate::expression::{escape_html, escape_html_spec, trim_whitespace, trim_whitespace_spec};
use crate::jsx::{
    JsxAttributeItem, JsxAttributeName, JsxAttributeValue, JsxChild, JsxElement,
};
use crate::name_set::{name_set_clone, name_set_view};
use crate::options::{solid_built_ins, TransformOptions};
use crate::dom_component::getter_spec;
use crate::ssr::{format_prop_key, format_prop_key_spec};
use crate::utils::{attr_full_name, attr_full_name_spec};
use crate::text::{
    lemma_contains_within, lemma_join_contains_part, seq_contains_seq, seq_starts_with, starts_with, str_in,
    strs_view,
};
use crate::ssr::{ssr_call_spec, values_view, SSRContext, SSRResult, TemplateValueView};
use crate::ssr_element::{
    append_element, element_steps, emit_helper, emit_value, expr_code, expr_code_spec,
    fresh_state, helper_steps, helpers_of, texts_of, lemma_helper_steps, lemma_parts_ignore_helpers, lemma_ssr_run_append,
    same_ctx_meta, ssr_run, ssr_state, tag_of, value_step, SsrStep,
};
use crate::span::Span;
use crate::text::{join, join_spec, push_str, str_eq, str_get, str_get_spec, to_owned, views};
use crate::utils::{element_name_spec, get_element_name, is_component, is_component_spec};

verus! {

// ------------------------------------------------------------------
// Props and children as code text
// ------------------------------------------------------------------
/// The code of an attribute's value: the source of its expression, a
/// string literal in double quotes; nothing for an attribute without one.
pub open spec fn attr_value_code_spec(source: Seq<char>, v: Option<JsxAttributeValue>) -> Option<
    Seq<char>,
> {
    match v {
        Some(JsxAttributeValue::ExpressionContainer(c)) => match c.expression {
            Some(e) => Some(expr_code_spec(source, e)),
            None => None,
        },
        Some(JsxAttributeValue::StringLiteral(l)) => Some("\""@ + l.value@ + "\""@),
        _ => None,
    }
}

/// The value code of the first attribute from index `k` on named `name`.
pub open spec fn prop_value_from(
    source: Seq<char>,
    attrs: Seq<JsxAttributeItem>,
    name: Seq<char>,
    k: int,
) -> Option<Seq<char>>
    decreases attrs.len() - k,
{
    if k < 0 || k >= attrs.len() {
        None
    } else {
        match attrs[k] {
            JsxAttributeItem::Attribute(a) => match a.name {
                JsxAttributeName::Identifier(id) => if id.name@ == name {
                    attr_value_code_spec(source, a.value)
                } else {
                    prop_value_from(source, attrs, name, k + 1)
                },
                _ => prop_value_from(source, attrs, name, k + 1),
            },
            _ => prop_value_from(source, attrs, name, k + 1),
        }
    }
}

/// The value code of the first attribute of an element named `name`.
pub open spec fn prop_value_spec(source: Seq<char>, e: JsxElement, name: Seq<char>) -> Option<
    Seq<char>,
> {
    prop_value_from(source, e.opening_element.attributes@, name, 0)
}

/// The value code of a prop, or `default` where the element has none.
pub open spec fn prop_or(source: Seq<char>, e: JsxElement, name: Seq<char>, default: Seq<char>) -> Seq<
    char,
> {
    match prop_value_spec(source, e, name) {
        Some(v) => v,
        None => default,
    }
}

/// The value code of the first attribute of an element named `name`.
pub fn find_prop_value(element: &JsxElement, name: &str, source: &str) -> (r: Option<String>)
    ensures
        match r {
            Some(v) => prop_value_spec(source@, *element, name@) == Some(v@),
            None => prop_value_spec(source@, *element, name@) is None,
        },
{
    let ghost attrs = element.opening_element.attributes@;
    let n = element.opening_element.attributes.len();
    let mut k: usize = 0;
    while k < n
        invariant
            attrs == element.opening_element.attributes@,
            n == attrs.len(),
            k <= n,
            prop_value_from(source@, attrs, name@, 0) == prop_value_from(source@, attrs, name@, k as int),
        decreases n - k,
    {
        if let JsxAttributeItem::Attribute(a) = &element.opening_element.attributes[k] {
            if let JsxAttributeName::Identifier(id) = &a.name {
                if str_eq(id.name.as_str(), name) {
                    return match &a.value {
                        Some(JsxAttributeValue::ExpressionContainer(c)) => match &c.expression {
                            Some(e) => Some(expr_code(source, e)),
                            None => None,
                        },
                        Some(JsxAttributeValue::StringLiteral(l)) => {
                            let mut s = to_owned("\"");
                            push_str(&mut s, l.value.as_str());
                            push_str(&mut s, "\"");
                            Some(s)
                        },
                        _ => None,
                    };
                }
            }
        }
        k = k + 1;
    }
    None
}

/// The code of the first expression child from index `k` on.
pub open spec fn callback_from(source: Seq<char>, children: Seq<JsxChild>, k: int) -> Option<Seq<char>>
    decreases children.len() - k,
{
    if k < 0 || k >= children.len() {
        None
    } else {
        match children[k] {
            JsxChild::ExpressionContainer(c) => match c.expression {
                Some(e) => Some(expr_code_spec(source, e)),
                None => callback_from(source, children, k + 1),
            },
            _ => callback_from(source, children, k + 1),
        }
    }
}

/// The children of a control-flow component that takes a function as its
/// children: its first expression child, or `() => undefined`.
pub open spec fn callback_spec(source: Seq<char>, e: JsxElement) -> Seq<char> {
    match callback_from(source, e.children@, 0) {
        Some(c) => c,
        None => "() => undefined"@,
    }
}

/// The children of a control-flow component that takes a function as its
/// children.
pub fn get_children_callback(element: &JsxElement, source: &str) -> (r: String)
    ensures
        r@ == callback_spec(source@, *element),
{
    let ghost ch = element.children@;
    let n = element.children.len();
    let mut k: usize = 0;
    while k < n
        invariant
            ch == element.children@,
            n == ch.len(),
            k <= n,
            callback_from(source@, ch, 0) == callback_from(source@, ch, k as int),
        decreases n - k,
    {
        if let JsxChild::ExpressionContainer(c) = &element.children[k] {
            if let Some(e) = &c.expression {
                return expr_code(source, e);
            }
        }
        k = k + 1;
    }
    to_owned("() => undefined")
}

/// What a nested component renders to inside a control-flow component:
/// `createComponent(Tag, {})`, escaped.
pub open spec fn fallback_steps(tag: Seq<char>) -> Seq<SsrStep> {
    seq![
        SsrStep::Helper("createComponent"@),
        SsrStep::Helper("escape"@),
        value_step("createComponent("@ + tag + ", {})"@, false, false),
    ]
}

/// The steps that render an element child of a control-flow component
/// into a fresh result.
pub open spec fn child_steps_spec(source: Seq<char>, hydratable: bool, marked: bool, c: JsxElement) -> Option<
    Seq<SsrStep>,
> {
    if is_component_spec(c.opening_element.name) {
        Some(fallback_steps(tag_of(c)))
    } else {
        element_steps(source, hydratable, marked, c, tag_of(c))
    }
}

/// The text of a result rendered from no parts by the steps.
pub open spec fn call_text(st: Seq<SsrStep>) -> Seq<char> {
    let s = ssr_run(fresh_state(Seq::empty()), st);
    ssr_call_spec(s.parts, s.values, false)
}

/// Render an element child into a fresh result; its text.
fn render_child(c: &JsxElement, ctx: &mut SSRContext, source: &str, hydratable: bool) -> (r: Option<
    String,
>)
    ensures
        r is Some == child_steps_spec(source@, hydratable, old(ctx).hydratable, *c) is Some,
        r matches Some(t) ==> {
            let st = child_steps_spec(source@, hydratable, old(ctx).hydratable, *c)->0;
            &&& t@ == call_text(st)
            &&& name_set_view(final(ctx).helpers) == ssr_run(
                fresh_state(name_set_view(old(ctx).helpers)),
                st,
            ).helpers
        },
        same_ctx_meta(*final(ctx), *old(ctx)),
{
    let mut res = SSRResult::new();
    assert(views(res.template_parts@) =~= Seq::<Seq<char>>::empty());
    assert(values_view(res.template_values@) =~= Seq::<TemplateValueView>::empty());
    let ghost h0 = name_set_view(ctx.helpers);
    let ghost s0 = ssr_state(res, *ctx);
    assert(s0 == fresh_state(h0));
    let tag = match get_element_name(&c.opening_element) {
        Some(t) => t,
        None => String::new(),
    };
    assert(tag@ == tag_of(*c));
    if is_component(&c.opening_element) {
        let ghost e = Seq::<SsrStep>::empty();
        assert(ssr_run(s0, e) == s0);
        emit_helper(&res, ctx, "createComponent", Ghost(e), Ghost(s0));
        let ghost d1 = e.push(SsrStep::Helper("createComponent"@));
        emit_helper(&res, ctx, "escape", Ghost(d1), Ghost(s0));
        let ghost d2 = d1.push(SsrStep::Helper("escape"@));
        let mut code = to_owned("createComponent(");
        push_str(&mut code, tag.as_str());
        push_str(&mut code, ", {})");
        emit_value(&mut res, ctx, code.as_str(), false, false, Ghost(d2), Ghost(s0));
        assert(d2.push(value_step(code@, false, false)) =~= fallback_steps(tag@));
    } else {
        if !append_element(c, tag.as_str(), &mut res, ctx, source, hydratable) {
            return None;
        }
    }
    let ghost st = child_steps_spec(source@, hydratable, old(ctx).hydratable, *c)->0;
    proof {
        lemma_parts_ignore_helpers(fresh_state(h0), fresh_state(Seq::empty()), st);
    }
    Some(res.to_ssr_call())
}

/// The helper registrations and the texts of the first `n` children of a
/// control-flow component: non-blank text as an escaped string literal, an
/// expression or spread as its source, an element as the text it renders
/// to; fragments are left out. `None` where an element child cannot be
/// rendered.
pub open spec fn children_texts_spec(
    source: Seq<char>,
    hydratable: bool,
    marked: bool,
    children: Seq<JsxChild>,
    n: int,
) -> Option<(Seq<SsrStep>, Seq<Seq<char>>)>
    decreases n,
{
    if n <= 0 || n > children.len() {
        Some((Seq::empty(), Seq::empty()))
    } else {
        match children_texts_spec(source, hydratable, marked, children, n - 1) {
            None => None,
            Some((h, t)) => match children[n - 1] {
                JsxChild::Text(x) => {
                    let content = trim_whitespace_spec(x.value@);
                    if content.len() > 0 {
                        Some((h, t.push("\""@ + escape_html_spec(content, false) + "\""@)))
                    } else {
                        Some((h, t))
                    }
                },
                JsxChild::ExpressionContainer(c) => match c.expression {
                    Some(e) => Some((h, t.push(expr_code_spec(source, e)))),
                    None => Some((h, t)),
                },
                JsxChild::Element(c) => match child_steps_spec(source, hydratable, marked, *c) {
                    Some(st) => Some((h + helper_steps(st), t.push(call_text(st)))),
                    None => None,
                },
                JsxChild::Fragment(_) => Some((h, t)),
                JsxChild::Spread(sp) => Some(
                    (
                        h,
                        t.push(
                            match str_get_spec(source, sp.start as int, sp.end as int) {
                                Some(code) => code,
                                None => Seq::empty(),
                            },
                        ),
                    ),
                ),
            },
        }
    }
}

/// The children prop: `undefined` for none, a function returning the one
/// child, or a function returning an array of them.
pub open spec fn children_fn_spec(t: Seq<Seq<char>>) -> Seq<char> {
    if t.len() == 1 {
        "() => "@ + t[0]
    } else if t.len() == 0 {
        "undefined"@
    } else {
        "() => ["@ + join_spec(t, ", "@) + "]"@
    }
}

/// The children prop of a control-flow component, rendering its element
/// children for the server and registering the helpers they need.
pub fn get_children_ssr(element: &JsxElement, ctx: &mut SSRContext, source: &str, hydratable: bool) -> (r:
    Option<String>)
    ensures
        match children_texts_spec(
            source@,
            hydratable,
            old(ctx).hydratable,
            element.children@,
            element.children@.len() as int,
        ) {
            Some((h, t)) => {
                &&& r matches Some(c) && c@ == children_fn_spec(t)
                &&& ssr_run(fresh_state(name_set_view(old(ctx).helpers)), h) == fresh_state(
                    name_set_view(final(ctx).helpers),
                )
            },
            None => r is None,
        },
        same_ctx_meta(*final(ctx), *old(ctx)),
{
    let ghost ch = element.children@;
    let ghost h0 = name_set_view(ctx.helpers);
    let mut texts: Vec<String> = Vec::new();
    let n = element.children.len();
    let mut k: usize = 0;
    assert(ssr_run(fresh_state(h0), Seq::<SsrStep>::empty()) == fresh_state(h0));
    while k < n
        invariant
            ch == element.children@,
            n == ch.len(),
            k <= n,
            children_texts_spec(source@, hydratable, old(ctx).hydratable, ch, k as int) is Some,
            views(texts@) == texts_of(children_texts_spec(source@, hydratable, old(ctx).hydratable, ch, k as int)),
            ssr_run(fresh_state(h0), helpers_of(children_texts_spec(source@, hydratable, old(ctx).hydratable, ch, k as int)))
                == fresh_state(name_set_view(ctx.helpers)),
            h0 == name_set_view(old(ctx).helpers),
            same_ctx_meta(*ctx, *old(ctx)),
        decreases n - k,
    {
        let ghost h = helpers_of(children_texts_spec(source@, hydratable, old(ctx).hydratable, ch, k as int));
        let ghost before = views(texts@);
        let ghost hk = name_set_view(ctx.helpers);
        match &element.children[k] {
            JsxChild::Text(x) => {
                let content = trim_whitespace(x.value.as_str());
                if !content.as_str().is_empty() {
                    let mut s = to_owned("\"");
                    let esc = escape_html(content.as_str(), false);
                    push_str(&mut s, esc.as_str());
                    push_str(&mut s, "\"");
                    texts.push(s);
                    assert(views(texts@) =~= before.push(s@));
                }
            },
            JsxChild::ExpressionContainer(c) => {
                if let Some(e) = &c.expression {
                    let code = expr_code(source, e);
                    texts.push(code);
                    assert(views(texts@) =~= before.push(code@));
                }
            },
            JsxChild::Element(c) => {
                match render_child(c, ctx, source, hydratable) {
                    Some(t) => {
                        let ghost st = child_steps_spec(source@, hydratable, old(ctx).hydratable, **c)->0;
                        proof {
                            lemma_ssr_run_append(fresh_state(h0), h, helper_steps(st));
                            lemma_helper_steps(fresh_state(hk), st);
                        }
                        texts.push(t);
                        assert(views(texts@) =~= before.push(t@));
                        assert(ssr_run(fresh_state(h0), h + helper_steps(st)) =~= fresh_state(
                            name_set_view(ctx.helpers),
                        ));
                    },
                    None => {
                        proof {
                            lemma_texts_none(source@, hydratable, old(ctx).hydratable, ch, k + 1, n as int);
                        }
                        return None;
                    },
                }
            },
            JsxChild::Fragment(_) => {},
            JsxChild::Spread(sp) => {
                let code = match str_get(source, sp.start, sp.end) {
                    Some(t) => t,
                    None => String::new(),
                };
                texts.push(code);
                assert(views(texts@) =~= before.push(code@));
            },
        }
        k = k + 1;
    }
    let ghost t = views(texts@);
    if texts.len() == 1 {
        let mut s = to_owned("() => ");
        push_str(&mut s, texts[0].as_str());
        Some(s)
    } else if texts.len() == 0 {
        Some(to_owned("undefined"))
    } else {
        let j = join(texts.as_slice(), ", ");
        let mut s = to_owned("() => [");
        push_str(&mut s, j.as_str());
        push_str(&mut s, "]");
        Some(s)
    }
}

/// Once the children up to `n` cannot be rendered, none further on can.
proof fn lemma_texts_none(source: Seq<char>, hydratable: bool, marked: bool, children: Seq<JsxChild>, n: int, m: int)
    requires
        0 <= n <= m <= children.len(),
        children_texts_spec(source, hydratable, marked, children, n) is None,
    ensures
        children_texts_spec(source, hydratable, marked, children, m) is None,
    decreases m - n,
{
    if n < m {
        lemma_texts_none(source, hydratable, marked, children, n + 1, m);
    }
}

// ------------------------------------------------------------------
// Control-flow components
// ------------------------------------------------------------------
/// `createComponent(name, { body })`.
pub open spec fn cc(name: Seq<char>, body: Seq<char>) -> Seq<char> {
    "createComponent("@ + name + ", { "@ + body + " })"@
}

/// The steps a control-flow component renders to, given the helper
/// registrations `h` and texts `t` of its children.
pub open spec fn builtin_with_children(
    source: Seq<char>,
    e: JsxElement,
    name: Seq<char>,
    h: Seq<SsrStep>,
    t: Seq<Seq<char>>,
) -> Seq<SsrStep> {
    let pre = seq![SsrStep::Helper("createComponent"@), SsrStep::Helper("escape"@)];
    let cf = children_fn_spec(t);
    let when = prop_or(source, e, "when"@, "false"@);
    let fallback = prop_or(source, e, "fallback"@, "undefined"@);
    if name == "Show"@ {
        (pre + h).push(
            value_step(
                cc(name, "when: "@ + when + ", fallback: "@ + fallback + ", children: "@ + cf),
                false,
                false,
            ),
        )
    } else if name == "Match"@ {
        (pre + h).push(value_step(cc(name, "when: "@ + when + ", children: "@ + cf), false, false))
    } else if name == "Suspense"@ || name == "ErrorBoundary"@ {
        (pre + h).push(
            value_step(cc(name, "fallback: "@ + fallback + ", children: "@ + cf), false, false),
        )
    } else if name == "NoHydration"@ {
        (pre.push(SsrStep::Helper("NoHydration"@)) + h).push(
            value_step(cc(name, "children: "@ + cf), false, true),
        )
    } else {
        (pre + h).push(value_step(cc(name, "children: "@ + cf), false, false))
    }
}

/// Components whose children are rendered for the server.
pub open spec fn renders_children(name: Seq<char>) -> bool {
    name == "Show"@ || name == "Switch"@ || name == "Match"@ || name == "Suspense"@ || name
        == "Portal"@ || name == "ErrorBoundary"@ || name == "NoHydration"@
}

/// The steps a built-in control-flow component named `name` renders to,
/// or `None` where one of its children cannot be rendered. `hydratable`:
/// the context and the options are both hydratable.
pub open spec fn builtin_steps(source: Seq<char>, hydratable: bool, marked: bool, e: JsxElement, name: Seq<char>) -> Option<
    Seq<SsrStep>,
> {
    let pre = seq![SsrStep::Helper("createComponent"@), SsrStep::Helper("escape"@)];
    if name == "For"@ || name == "Index"@ {
        Some(
            pre.push(
                value_step(
                    cc(
                        name,
                        "each: "@ + prop_or(source, e, "each"@, "[]"@) + ", children: "@
                            + callback_spec(source, e),
                    ),
                    false,
                    false,
                ),
            ),
        )
    } else if name == "Dynamic"@ {
        Some(
            pre.push(
                value_step(
                    cc(name, "component: "@ + prop_or(source, e, "component"@, "undefined"@)),
                    false,
                    false,
                ),
            ),
        )
    } else if renders_children(name) {
        match children_texts_spec(source, hydratable, marked, e.children@, e.children@.len() as int) {
            Some((h, t)) => Some(builtin_with_children(source, e, name, h, t)),
            None => None,
        }
    } else {
        Some(pre.push(value_step("createComponent("@ + name + ", {})"@, false, false)))
    }
}

/// The value code of a prop, or `default`.
fn prop_or_default(element: &JsxElement, name: &str, default: &str, source: &str) -> (r: String)
    ensures
        r@ == prop_or(source@, *element, name@, default@),
{
    match find_prop_value(element, name, source) {
        Some(v) => v,
        None => to_owned(default),
    }
}

/// Render a built-in control-flow component for the server as one
/// `createComponent` call, its props written out: `each` and a callback
/// child for `For` and `Index`; `when`, `fallback` and the rendered
/// children for the others; `component` for `Dynamic`. `None`, with the
/// context left as it was, where a child cannot be rendered.
pub fn transform_builtin(
    element: &JsxElement,
    tag_name: &str,
    ctx: &mut SSRContext,
    options: &TransformOptions,
    source: &str,
) -> (r: Option<SSRResult>)
    ensures
        r is Some == builtin_steps(
            source@,
            old(ctx).hydratable && options.hydratable,
            old(ctx).hydratable,
            *element,
            tag_name@,
        ) is Some,
        r matches Some(res) ==> ssr_state(res, *final(ctx)) == ssr_run(
            fresh_state(name_set_view(old(ctx).helpers)),
            builtin_steps(source@, old(ctx).hydratable && options.hydratable, old(ctx).hydratable, *element, tag_name@)->0,
        ),
        r is None ==> *final(ctx) == *old(ctx),
        same_ctx_meta(*final(ctx), *old(ctx)),
{
    let hydratable = ctx.hydratable && options.hydratable;
    let mut scratch = SSRContext {
        helpers: name_set_clone(&ctx.helpers),
        var_counter: ctx.var_counter,
        hydratable: ctx.hydratable,
    };
    let mut res = SSRResult::new();
    assert(views(res.template_parts@) =~= Seq::<Seq<char>>::empty());
    assert(values_view(res.template_values@) =~= Seq::<TemplateValueView>::empty());
    let ghost h0 = name_set_view(ctx.helpers);
    let ghost s0 = ssr_state(res, scratch);
    assert(s0 == fresh_state(h0));
    let ghost e = Seq::<SsrStep>::empty();
    assert(ssr_run(s0, e) == s0);
    emit_helper(&res, &mut scratch, "createComponent", Ghost(e), Ghost(s0));
    let ghost d1 = e.push(SsrStep::Helper("createComponent"@));
    emit_helper(&res, &mut scratch, "escape", Ghost(d1), Ghost(s0));
    let ghost pre = d1.push(SsrStep::Helper("escape"@));
    assert(pre =~= seq![SsrStep::Helper("createComponent"@), SsrStep::Helper("escape"@)]);
    let ghost name = tag_name@;
    if str_eq(tag_name, "For") || str_eq(tag_name, "Index") {
        let each = prop_or_default(element, "each", "[]", source);
        let children = get_children_callback(element, source);
        let mut body = to_owned("each: ");
        push_str(&mut body, each.as_str());
        push_str(&mut body, ", children: ");
        push_str(&mut body, children.as_str());
        let code = cc_code(tag_name, body.as_str());
        emit_value(&mut res, &scratch, code.as_str(), false, false, Ghost(pre), Ghost(s0));
    } else if str_eq(tag_name, "Dynamic") {
        let component = prop_or_default(element, "component", "undefined", source);
        let mut body = to_owned("component: ");
        push_str(&mut body, component.as_str());
        let code = cc_code(tag_name, body.as_str());
        emit_value(&mut res, &scratch, code.as_str(), false, false, Ghost(pre), Ghost(s0));
    } else if str_eq(tag_name, "Show") || str_eq(tag_name, "Switch") || str_eq(tag_name, "Match")
        || str_eq(tag_name, "Suspense") || str_eq(tag_name, "Portal") || str_eq(
        tag_name,
        "ErrorBoundary",
    ) || str_eq(tag_name, "NoHydration") {
        let no_hydration = str_eq(tag_name, "NoHydration");
        let ghost pre2 = if no_hydration {
            pre.push(SsrStep::Helper("NoHydration"@))
        } else {
            pre
        };
        if no_hydration {
            emit_helper(&res, &mut scratch, "NoHydration", Ghost(pre), Ghost(s0));
        }
        let ghost hp = name_set_view(scratch.helpers);
        assert(ssr_state(res, scratch) == ssr_run(s0, pre2));
        assert(ssr_run(s0, pre2) == fresh_state(hp));
        let when = prop_or_default(element, "when", "false", source);
        let fallback = prop_or_default(element, "fallback", "undefined", source);
        let children = match get_children_ssr(element, &mut scratch, source, hydratable) {
            Some(c) => c,
            None => {
                return None;
            },
        };
        let ghost ht = children_texts_spec(
            source@,
            hydratable,
            old(ctx).hydratable,
            element.children@,
            element.children@.len() as int,
        )->0;
        let ghost cf = children_fn_spec(ht.1);
        assert(children@ == cf);
        let ghost w = prop_or(source@, *element, "when"@, "false"@);
        let ghost fb = prop_or(source@, *element, "fallback"@, "undefined"@);
        let ghost exp_body = if name == "Show"@ {
            "when: "@ + w + ", fallback: "@ + fb + ", children: "@ + cf
        } else if name == "Match"@ {
            "when: "@ + w + ", children: "@ + cf
        } else if name == "Suspense"@ || name == "ErrorBoundary"@ {
            "fallback: "@ + fb + ", children: "@ + cf
        } else {
            "children: "@ + cf
        };
        let mut body;
        if str_eq(tag_name, "Show") {
            body = to_owned("when: ");
            push_str(&mut body, when.as_str());
            push_str(&mut body, ", fallback: ");
            push_str(&mut body, fallback.as_str());
            push_str(&mut body, ", children: ");
            push_str(&mut body, children.as_str());
            assert(body@ =~= exp_body);
        } else if str_eq(tag_name, "Match") {
            body = to_owned("when: ");
            push_str(&mut body, when.as_str());
            push_str(&mut body, ", children: ");
            push_str(&mut body, children.as_str());
            assert(body@ =~= exp_body);
        } else if str_eq(tag_name, "Suspense") || str_eq(tag_name, "ErrorBoundary") {
            body = to_owned("fallback: ");
            push_str(&mut body, fallback.as_str());
            push_str(&mut body, ", children: ");
            push_str(&mut body, children.as_str());
            assert(body@ =~= exp_body);
        } else {
            body = to_owned("children: ");
            push_str(&mut body, children.as_str());
            assert(body@ =~= exp_body);
        }
        let code = cc_code(tag_name, body.as_str());
        proof {
            lemma_ssr_run_append(s0, pre2, ht.0);
        }
        emit_value(&mut res, &scratch, code.as_str(), false, no_hydration, Ghost(pre2 + ht.0), Ghost(s0));
        assert(code@ == cc(name, exp_body));
        assert(pre == seq![SsrStep::Helper("createComponent"@), SsrStep::Helper("escape"@)]);
        if no_hydration {
            proof {
                reveal_strlit("NoHydration");
                reveal_strlit("Show");
                reveal_strlit("Match");
                reveal_strlit("Suspense");
                reveal_strlit("ErrorBoundary");
                assert(name[0] == 'N');
                assert("Show"@[0] == 'S');
                assert("Match"@[0] == 'M');
                assert("ErrorBoundary"@[0] == 'E');
            }
            assert(builtin_with_children(source@, *element, name, ht.0, ht.1) == (pre2 + ht.0).push(
                value_step(cc(name, exp_body), false, true),
            ));
        } else {
            assert(builtin_with_children(source@, *element, name, ht.0, ht.1) == (pre2 + ht.0).push(
                value_step(cc(name, exp_body), false, false),
            ));
        }
    } else {
        let mut code = to_owned("createComponent(");
        push_str(&mut code, tag_name);
        push_str(&mut code, ", {})");
        emit_value(&mut res, &scratch, code.as_str(), false, false, Ghost(pre), Ghost(s0));
    }
    *ctx = scratch;
    Some(res)
}

/// `createComponent(name, { body })`.
fn cc_code(name: &str, body: &str) -> (r: String)
    ensures
        r@ == cc(name@, body@),
{
    let mut s = to_owned("createComponent(");
    push_str(&mut s, name);
    push_str(&mut s, ", { ");
    push_str(&mut s, body);
    push_str(&mut s, " })");
    s
}

// ------------------------------------------------------------------
// Other components
// ------------------------------------------------------------------
/// One of Solid's built-in components.
fn is_built_in(name: &str) -> (r: bool)
    ensures
        r == solid_built_ins().contains(name@),
{
    let l = [
        "For", "Show", "Switch", "Match", "Suspense", "SuspenseList", "Portal", "Index", "Dynamic",
        "ErrorBoundary",
    ];
    assert(strs_view(l@) =~= solid_built_ins());
    str_in(name, &l)
}

/// The server-side property an attribute becomes and whether it is
/// dynamic, or none: event handlers, `ref` and directives are left out; a
/// string or a value-less attribute is static; an expression is a getter
/// where `dynamic`, a plain value otherwise.
pub open spec fn ssr_prop_spec(source: Seq<char>, a: crate::jsx::JsxAttribute, dynamic: bool) -> Option<(Seq<char>, bool)> {
    let raw = attr_full_name_spec(a.name);
    let key = format_prop_key_spec(raw);
    if seq_starts_with(raw, "on"@) || raw == "ref"@ || seq_starts_with(raw, "use:"@) {
        None
    } else {
        match a.value {
            Some(JsxAttributeValue::StringLiteral(lit)) => Some((key + ": \""@ + lit.value@ + "\""@, false)),
            Some(JsxAttributeValue::ExpressionContainer(c)) => match c.expression {
                Some(e) => if dynamic {
                    Some((getter_spec(key, expr_code_spec(source, e)), true))
                } else {
                    Some((key + ": "@ + expr_code_spec(source, e), false))
                },
                None => None,
            },
            None => Some((key + ": true"@, false)),
            _ => None,
        }
    }
}

/// The static properties, the dynamic ones and the spread arguments of
/// the first `n` attributes, each in attribute order.
pub open spec fn ssr_props_parts(source: Seq<char>, attrs: Seq<JsxAttributeItem>, dynamic: Seq<bool>, n: int) -> (
    Seq<Seq<char>>,
    Seq<Seq<char>>,
    Seq<Seq<char>>,
)
    decreases n,
{
    if n <= 0 {
        (Seq::empty(), Seq::empty(), Seq::empty())
    } else {
        let p = ssr_props_parts(source, attrs, dynamic, n - 1);
        match attrs[n - 1] {
            JsxAttributeItem::SpreadAttribute(sa) => (p.0, p.1, p.2.push(expr_code_spec(source, sa.argument))),
            JsxAttributeItem::Attribute(a) => match ssr_prop_spec(source, a, dynamic[n - 1]) {
                Some((code, true)) => (p.0, p.1.push(code), p.2),
                Some((code, false)) => (p.0.push(code), p.1, p.2),
                None => p,
            },
        }
    }
}

/// A component's attribute written without a value means `true`: for a
/// value-less attribute among the first `n` whose name is not an event
/// handler, `ref` or a directive, the static props hold `key: true`.
pub proof fn lemma_valueless_prop_is_true(
    source: Seq<char>,
    attrs: Seq<JsxAttributeItem>,
    dynamic: Seq<bool>,
    n: int,
    i: int,
    a: crate::jsx::JsxAttribute,
)
    requires
        0 <= i < n <= attrs.len(),
        attrs[i] == JsxAttributeItem::Attribute(a),
        a.value is None,
        !seq_starts_with(attr_full_name_spec(a.name), "on"@),
        attr_full_name_spec(a.name) != "ref"@,
        !seq_starts_with(attr_full_name_spec(a.name), "use:"@),
    ensures
        ssr_props_parts(source, attrs, dynamic, n).0.contains(
            format_prop_key_spec(attr_full_name_spec(a.name)) + ": true"@,
        ),
    decreases n,
{
    let prop = format_prop_key_spec(attr_full_name_spec(a.name)) + ": true"@;
    let p = ssr_props_parts(source, attrs, dynamic, n - 1);
    if i == n - 1 {
        assert(ssr_prop_spec(source, a, dynamic[n - 1]) == Some((prop, false)));
        assert(ssr_props_parts(source, attrs, dynamic, n).0 == p.0.push(prop));
        assert(p.0.push(prop)[p.0.len() as int] == prop);
    } else {
        lemma_valueless_prop_is_true(source, attrs, dynamic, n - 1, i, a);
        let k = choose|k: int| 0 <= k < p.0.len() && p.0[k] == prop;
        let q = ssr_props_parts(source, attrs, dynamic, n).0;
        assert(q == p.0 || q == p.0.push(q.last()));
        assert(q[k] == prop);
    }
}

/// The props text: the properties in braces, merged after the spreads
/// with `mergeProps` where there are any.
pub open spec fn ssr_props_text(props: Seq<Seq<char>>, spreads: Seq<Seq<char>>) -> Seq<char> {
    if spreads.len() > 0 {
        if props.len() == 0 {
            "mergeProps("@ + join_spec(spreads, ", "@) + ")"@
        } else {
            "mergeProps("@ + join_spec(spreads, ", "@) + ", { "@ + join_spec(props, ", "@) + " })"@
        }
    } else if props.len() == 0 {
        "{}"@
    } else {
        "{ "@ + join_spec(props, ", "@) + " }"@
    }
}

/// The steps a component that is not built in renders to: one
/// `createComponent(Name, props)` value, its children rendered into a
/// `children` getter; or `None` where a child cannot be rendered.
pub open spec fn component_props_steps(
    source: Seq<char>,
    hydratable: bool,
    marked: bool,
    e: JsxElement,
    name: Seq<char>,
    dynamic: Seq<bool>,
) -> Option<Seq<SsrStep>> {
    let pre = seq![SsrStep::Helper("createComponent"@), SsrStep::Helper("escape"@)];
    let attrs = e.opening_element.attributes@;
    let p = ssr_props_parts(source, attrs, dynamic, attrs.len() as int);
    match children_texts_spec(source, hydratable, marked, e.children@, e.children@.len() as int) {
        Some((h, t)) => {
            let dy = if e.children@.len() > 0 {
                p.1.push(getter_spec("children"@, children_fn_spec(t)))
            } else {
                p.1
            };
            let mid = pre + h + (if p.2.len() > 0 {
                seq![SsrStep::Helper("mergeProps"@)]
            } else {
                Seq::empty()
            });
            Some(
                mid.push(
                    value_step(
                        "createComponent("@ + name + ", "@ + ssr_props_text(p.0 + dy, p.2) + ")"@,
                        false,
                        false,
                    ),
                ),
            )
        },
        None => None,
    }
}

/// The props text holds each property.
pub proof fn lemma_props_text_holds(props: Seq<Seq<char>>, spreads: Seq<Seq<char>>, k: int)
    requires
        0 <= k < props.len(),
    ensures
        seq_contains_seq(ssr_props_text(props, spreads), props[k]),
{
    lemma_join_contains_part(props, ", "@, k);
    let j = join_spec(props, ", "@);
    if spreads.len() > 0 {
        let a = "mergeProps("@ + join_spec(spreads, ", "@) + ", { "@;
        lemma_contains_within(a, j, " })"@, props[k]);
    } else {
        lemma_contains_within("{ "@, j, " }"@, props[k]);
    }
}

/// The `createComponent` call of a component that is not built in holds
/// each of its properties: every static and every dynamic one its
/// attributes give appears in the code of the value it renders.
pub proof fn lemma_component_call_holds_props(
    source: Seq<char>,
    hydratable: bool,
    marked: bool,
    e: JsxElement,
    name: Seq<char>,
    dynamic: Seq<bool>,
    prop: Seq<char>,
)
    requires
        component_props_steps(source, hydratable, marked, e, name, dynamic) is Some,
        ({
            let p = ssr_props_parts(
                source,
                e.opening_element.attributes@,
                dynamic,
                e.opening_element.attributes@.len() as int,
            );
            p.0.contains(prop) || p.1.contains(prop)
        }),
    ensures
        (component_props_steps(source, hydratable, marked, e, name, dynamic)->0.last() matches SsrStep::Value(
            v,
        ) && seq_contains_seq(v.code, prop)),
{
    let attrs = e.opening_element.attributes@;
    let p = ssr_props_parts(source, attrs, dynamic, attrs.len() as int);
    let ht = children_texts_spec(source, hydratable, marked, e.children@, e.children@.len() as int)->0;
    let dy = if e.children@.len() > 0 {
        p.1.push(getter_spec("children"@, children_fn_spec(ht.1)))
    } else {
        p.1
    };
    let props = p.0 + dy;
    let k = if p.0.contains(prop) {
        choose|k: int| 0 <= k < p.0.len() && p.0[k] == prop
    } else {
        let m = choose|m: int| 0 <= m < p.1.len() && p.1[m] == prop;
        assert(dy[m] == prop);
        p.0.len() + m
    };
    assert(props[k] == prop);
    lemma_props_text_holds(props, p.2, k);
    lemma_contains_within("createComponent("@ + name + ", "@, ssr_props_text(props, p.2), ")"@, prop);
}

/// A component's attribute written without a value is passed as `true`:
/// the `createComponent` call of a component that is not built in holds
/// `key: true` for each value-less attribute that is not an event
/// handler, `ref` or a directive.
pub proof fn lemma_valueless_attr_in_call(
    source: Seq<char>,
    hydratable: bool,
    marked: bool,
    e: JsxElement,
    name: Seq<char>,
    dynamic: Seq<bool>,
    i: int,
    a: crate::jsx::JsxAttribute,
)
    requires
        component_props_steps(source, hydratable, marked, e, name, dynamic) is Some,
        0 <= i < e.opening_element.attributes@.len(),
        e.opening_element.attributes@[i] == JsxAttributeItem::Attribute(a),
        a.value is None,
        !seq_starts_with(attr_full_name_spec(a.name), "on"@),
        attr_full_name_spec(a.name) != "ref"@,
        !seq_starts_with(attr_full_name_spec(a.name), "use:"@),
    ensures
        (component_props_steps(source, hydratable, marked, e, name, dynamic)->0.last() matches SsrStep::Value(
            v,
        ) && seq_contains_seq(v.code, format_prop_key_spec(attr_full_name_spec(a.name)) + ": true"@)),
{
    let attrs = e.opening_element.attributes@;
    lemma_valueless_prop_is_true(source, attrs, dynamic, attrs.len() as int, i, a);
    lemma_component_call_holds_props(
        source,
        hydratable,
        marked,
        e,
        name,
        dynamic,
        format_prop_key_spec(attr_full_name_spec(a.name)) + ": true"@,
    );
}

/// The steps a component renders to: a built-in one as `transform_builtin`
/// renders it, any other with its props.
pub open spec fn component_steps(
    source: Seq<char>,
    hydratable: bool,
    marked: bool,
    e: JsxElement,
    name: Seq<char>,
    dynamic: Seq<bool>,
) -> Option<Seq<SsrStep>> {
    if solid_built_ins().contains(name) {
        builtin_steps(source, hydratable, marked, e, name)
    } else {
        component_props_steps(source, hydratable, marked, e, name, dynamic)
    }
}

fn push_view(v: &mut Vec<String>, s: String)
    ensures
        views(final(v)@) == views(old(v)@).push(s@),
{
    let ghost before = views(v@);
    let ghost sv = s@;
    v.push(s);
    assert(views(v@) =~= before.push(sv));
}

fn ssr_prop(source: &str, a: &crate::jsx::JsxAttribute, dynamic: bool) -> (r: Option<(String, bool)>)
    ensures
        match r {
            Some((c, d)) => ssr_prop_spec(source@, *a, dynamic) == Some((c@, d)),
            None => ssr_prop_spec(source@, *a, dynamic) is None,
        },
{
    proof {
        reveal_strlit("on");
        reveal_strlit("ref");
        reveal_strlit("use:");
    }
    let raw = attr_full_name(&a.name);
    let r = raw.as_str();
    if starts_with(r, "on") || str_eq(r, "ref") || starts_with(r, "use:") {
        return None;
    }
    let key = format_prop_key(r);
    match &a.value {
        Some(JsxAttributeValue::StringLiteral(lit)) => {
            let mut m = to_owned(key.as_str());
            push_str(&mut m, ": \"");
            push_str(&mut m, lit.value.as_str());
            push_str(&mut m, "\"");
            Some((m, false))
        },
        Some(JsxAttributeValue::ExpressionContainer(c)) => match &c.expression {
            Some(e) => {
                let code = expr_code(source, e);
                if dynamic {
                    let mut m = to_owned("get ");
                    push_str(&mut m, key.as_str());
                    push_str(&mut m, "() { return ");
                    push_str(&mut m, code.as_str());
                    push_str(&mut m, "; }");
                    Some((m, true))
                } else {
                    let mut m = to_owned(key.as_str());
                    push_str(&mut m, ": ");
                    push_str(&mut m, code.as_str());
                    Some((m, false))
                }
            },
            None => None,
        },
        None => {
            let mut m = to_owned(key.as_str());
            push_str(&mut m, ": true");
            Some((m, false))
        },
        _ => None,
    }
}

fn ssr_prop_parts(element: &JsxElement, source: &str, dynamic: &[bool]) -> (r: (Vec<String>, Vec<String>, Vec<String>))
    requires
        dynamic@.len() == element.opening_element.attributes@.len(),
    ensures
        ssr_props_parts(
            source@,
            element.opening_element.attributes@,
            dynamic@,
            element.opening_element.attributes@.len() as int,
        ) == (views(r.0@), views(r.1@), views(r.2@)),
{
    let attrs = &element.opening_element.attributes;
    let mut statics: Vec<String> = Vec::new();
    let mut dynamics: Vec<String> = Vec::new();
    let mut spreads: Vec<String> = Vec::new();
    let mut k: usize = 0;
    while k < attrs.len()
        invariant
            k <= attrs@.len(),
            attrs@ == element.opening_element.attributes@,
            dynamic@.len() == attrs@.len(),
            ssr_props_parts(source@, attrs@, dynamic@, k as int) == (
                views(statics@),
                views(dynamics@),
                views(spreads@),
            ),
        decreases attrs@.len() - k,
    {
        match &attrs[k] {
            JsxAttributeItem::SpreadAttribute(sa) => {
                push_view(&mut spreads, expr_code(source, &sa.argument));
            },
            JsxAttributeItem::Attribute(a) => {
                match ssr_prop(source, a, dynamic[k]) {
                    Some((code, true)) => push_view(&mut dynamics, code),
                    Some((code, false)) => push_view(&mut statics, code),
                    None => {},
                }
            },
        }
        k = k + 1;
    }
    (statics, dynamics, spreads)
}

fn ssr_props_code(props: &Vec<String>, spreads: &Vec<String>) -> (r: String)
    ensures
        r@ == ssr_props_text(views(props@), views(spreads@)),
{
    if spreads.len() > 0 {
        let mut r = to_owned("mergeProps(");
        let j = join(spreads.as_slice(), ", ");
        push_str(&mut r, j.as_str());
        if props.len() == 0 {
            push_str(&mut r, ")");
        } else {
            push_str(&mut r, ", { ");
            let k = join(props.as_slice(), ", ");
            push_str(&mut r, k.as_str());
            push_str(&mut r, " })");
        }
        r
    } else if props.len() == 0 {
        to_owned("{}")
    } else {
        let mut r = to_owned("{ ");
        let k = join(props.as_slice(), ", ");
        push_str(&mut r, k.as_str());
        push_str(&mut r, " }");
        r
    }
}

/// Render a component for the server: a built-in one as
/// `transform_builtin` does, any other as one `createComponent(Name,
/// props)` value, its static props before its dynamic ones and its
/// children rendered into a `children` getter. `dynamic[i]`: the
/// expression of the `i`th attribute is reactive, as the caller's check of
/// the expression found. `None`, with the context left as it was, where a
/// child cannot be rendered.
pub fn transform_component(
    element: &JsxElement,
    tag_name: &str,
    ctx: &mut SSRContext,
    options: &TransformOptions,
    source: &str,
    dynamic: &[bool],
) -> (r: Option<SSRResult>)
    requires
        dynamic@.len() == element.opening_element.attributes@.len(),
    ensures
        r is Some == component_steps(
            source@,
            old(ctx).hydratable && options.hydratable,
            old(ctx).hydratable,
            *element,
            tag_name@,
            dynamic@,
        ) is Some,
        r matches Some(res) ==> ssr_state(res, *final(ctx)) == ssr_run(
            fresh_state(name_set_view(old(ctx).helpers)),
            component_steps(source@, old(ctx).hydratable && options.hydratable, old(ctx).hydratable, *element, tag_name@, dynamic@)->0,
        ),
        r is None ==> *final(ctx) == *old(ctx),
        same_ctx_meta(*final(ctx), *old(ctx)),
{
    if is_built_in(tag_name) {
        return transform_builtin(element, tag_name, ctx, options, source);
    }
    let hydratable = ctx.hydratable && options.hydratable;
    let mut scratch = SSRContext {
        helpers: name_set_clone(&ctx.helpers),
        var_counter: ctx.var_counter,
        hydratable: ctx.hydratable,
    };
    let mut res = SSRResult::new();
    assert(views(res.template_parts@) =~= Seq::<Seq<char>>::empty());
    assert(values_view(res.template_values@) =~= Seq::<TemplateValueView>::empty());
    let ghost h0 = name_set_view(ctx.helpers);
    let ghost s0 = ssr_state(res, scratch);
    assert(s0 == fresh_state(h0));
    let ghost e = Seq::<SsrStep>::empty();
    assert(ssr_run(s0, e) == s0);
    emit_helper(&res, &mut scratch, "createComponent", Ghost(e), Ghost(s0));
    let ghost d1 = e.push(SsrStep::Helper("createComponent"@));
    emit_helper(&res, &mut scratch, "escape", Ghost(d1), Ghost(s0));
    let ghost pre = d1.push(SsrStep::Helper("escape"@));
    assert(pre =~= seq![SsrStep::Helper("createComponent"@), SsrStep::Helper("escape"@)]);
    let ghost hp = name_set_view(scratch.helpers);
    assert(ssr_run(s0, pre) == fresh_state(hp));
    let (statics, mut dynamics, spreads) = ssr_prop_parts(element, source, dynamic);
    let ghost p = ssr_props_parts(
        source@,
        element.opening_element.attributes@,
        dynamic@,
        element.opening_element.attributes@.len() as int,
    );
    let ghost ht = children_texts_spec(
        source@,
        hydratable,
        old(ctx).hydratable,
        element.children@,
        element.children@.len() as int,
    );
    if element.children.len() > 0 {
        let children = match get_children_ssr(element, &mut scratch, source, hydratable) {
            Some(c) => c,
            None => {
                return None;
            },
        };
        let mut m = to_owned("get ");
        push_str(&mut m, "children");
        push_str(&mut m, "() { return ");
        push_str(&mut m, children.as_str());
        push_str(&mut m, "; }");
        push_view(&mut dynamics, m);
    } else {
        assert(ht == Some((Seq::<SsrStep>::empty(), Seq::<Seq<char>>::empty())));
    }
    let ghost h = match ht {
        Some(x) => x.0,
        None => Seq::<SsrStep>::empty(),
    };
    proof {
        lemma_ssr_run_append(s0, pre, h);
    }
    assert(ssr_state(res, scratch) == ssr_run(s0, pre + h));
    let ghost mid = if p.2.len() > 0 {
        (pre + h).push(SsrStep::Helper("mergeProps"@))
    } else {
        pre + h
    };
    if spreads.len() > 0 {
        emit_helper(&res, &mut scratch, "mergeProps", Ghost(pre + h), Ghost(s0));
    }
    let ghost sv = views(statics@);
    let ghost dv = views(dynamics@);
    let mut props = statics;
    let mut i: usize = 0;
    while i < dynamics.len()
        invariant
            i <= dynamics@.len(),
            dv == views(dynamics@),
            views(props@) == sv + dv.take(i as int),
        decreases dynamics@.len() - i,
    {
        push_view(&mut props, to_owned(dynamics[i].as_str()));
        assert(dv.take(i + 1) =~= dv.take(i as int).push(dv[i as int]));
        i = i + 1;
    }
    assert(dv.take(dv.len() as int) =~= dv);
    let props_text = ssr_props_code(&props, &spreads);
    let mut code = to_owned("createComponent(");
    push_str(&mut code, tag_name);
    push_str(&mut code, ", ");
    push_str(&mut code, props_text.as_str());
    push_str(&mut code, ")");
    emit_value(&mut res, &scratch, code.as_str(), false, false, Ghost(mid), Ghost(s0));
    assert(mid == pre + h + (if p.2.len() > 0 {
        seq![SsrStep::Helper("mergeProps"@)]
    } else {
        Seq::<SsrStep>::empty()
    }));
    *ctx = scratch;
    Some(res)
}

} // verus!
