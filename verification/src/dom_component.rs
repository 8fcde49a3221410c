//! The props object a component receives in the DOM transform.
use vstd::prelude::*;
use crate::dom::BlockContext;
use crate::dom_element::is_assignable;
use crate::dom_output::{add_helper, build_dom_output_expr, dom_output, dom_state, same_rest, DomState, TransformResult};
use crate::expression::{escape_html, escape_html_spec, trim_whitespace, trim_whitespace_spec};
use crate::text::{str_get, str_get_spec};
use crate::jsx::{
    Expression, JsxAttribute, JsxAttributeItem, JsxAttributeValue, JsxChild, JsxElement, JsxElementName,
};
use crate::span::Span;
use crate::ssr::{format_prop_key, format_prop_key_spec};
use crate::ssr_element::{expr_code, expr_code_spec};
use crate::text::{
    join, join_spec, lemma_contains_trans, lemma_contains_within, lemma_join_contains_part, push_str,
    seq_contains_seq, str_eq, to_owned, views,
};
use crate::utils::{attr_full_name, attr_full_name_spec, element_name_spec, get_element_name};

verus! {

/// The expression of an attribute's value in braces.
pub open spec fn attr_expression(a: JsxAttribute) -> Option<Expression> {
    match a.value {
        Some(JsxAttributeValue::ExpressionContainer(c)) => c.expression,
        _ => None,
    }
}

/// The `ref` method that forwards the component's element to a ref: it
/// calls the ref when it holds a function and assigns it otherwise.
pub open spec fn ref_method_spec(code: Seq<char>, e: Expression) -> Seq<char> {
    "ref(r$) { var _ref$ = "@ + code + "; typeof _ref$ === \"function\" ? _ref$(r$) : "@ + (if is_assignable(e) {
        code + " = r$"@
    } else {
        "undefined"@
    }) + "; }"@
}

/// A getter property: `get key() { return code; }`.
pub open spec fn getter_spec(key: Seq<char>, code: Seq<char>) -> Seq<char> {
    "get "@ + key + "() { return "@ + code + "; }"@
}

/// The property an attribute becomes and whether it is dynamic, or none:
/// an explicit `children` gives way to JSX children; `ref` becomes a
/// forwarding method; a string or a value-less attribute is static; an
/// expression is a getter where `dynamic`, a plain value otherwise.
pub open spec fn attr_prop_spec(source: Seq<char>, a: JsxAttribute, dynamic: bool, has_children: bool) -> Option<
    (Seq<char>, bool),
> {
    let raw = attr_full_name_spec(a.name);
    let key = format_prop_key_spec(raw);
    if raw == "children"@ && has_children {
        None
    } else if raw == "ref"@ {
        match attr_expression(a) {
            Some(e) => Some((ref_method_spec(expr_code_spec(source, e), e), true)),
            None => None,
        }
    } else {
        match a.value {
            Some(JsxAttributeValue::StringLiteral(lit)) => Some((key + ": \""@ + lit.value@ + "\""@, false)),
            Some(JsxAttributeValue::ExpressionContainer(c)) => match c.expression {
                Some(e) => if dynamic {
                    Some((getter_spec(key, expr_code_spec(source, e)), true))
                } else {
                    Some((key + ": "@ + expr_code_spec(source, e), false))
                },
                None => None,
            },
            None => Some((key + ": true"@, false)),
            _ => None,
        }
    }
}

/// The static properties, the dynamic ones and the spread arguments of
/// the first `n` attributes, each in attribute order.
pub open spec fn props_parts(
    source: Seq<char>,
    attrs: Seq<JsxAttributeItem>,
    dynamic: Seq<bool>,
    has_children: bool,
    n: int,
) -> (Seq<Seq<char>>, Seq<Seq<char>>, Seq<Seq<char>>)
    decreases n,
{
    if n <= 0 {
        (Seq::empty(), Seq::empty(), Seq::empty())
    } else {
        let p = props_parts(source, attrs, dynamic, has_children, n - 1);
        match attrs[n - 1] {
            JsxAttributeItem::SpreadAttribute(s) => (p.0, p.1, p.2.push(expr_code_spec(source, s.argument))),
            JsxAttributeItem::Attribute(a) => match attr_prop_spec(source, a, dynamic[n - 1], has_children) {
                Some((code, true)) => (p.0, p.1.push(code), p.2),
                Some((code, false)) => (p.0.push(code), p.1, p.2),
                None => p,
            },
        }
    }
}

/// A component's attribute written without a value means `true`: for a
/// value-less attribute among the first `n` other than `ref` (and other
/// than `children` where JSX children are given), the static props hold
/// `key: true`.
pub proof fn lemma_valueless_prop_is_true(
    source: Seq<char>,
    attrs: Seq<JsxAttributeItem>,
    dynamic: Seq<bool>,
    has_children: bool,
    n: int,
    i: int,
    a: JsxAttribute,
)
    requires
        0 <= i < n <= attrs.len(),
        attrs[i] == JsxAttributeItem::Attribute(a),
        a.value is None,
        attr_full_name_spec(a.name) != "ref"@,
        !(attr_full_name_spec(a.name) == "children"@ && has_children),
    ensures
        props_parts(source, attrs, dynamic, has_children, n).0.contains(
            format_prop_key_spec(attr_full_name_spec(a.name)) + ": true"@,
        ),
    decreases n,
{
    let prop = format_prop_key_spec(attr_full_name_spec(a.name)) + ": true"@;
    let p = props_parts(source, attrs, dynamic, has_children, n - 1);
    if i == n - 1 {
        assert(attr_prop_spec(source, a, dynamic[n - 1], has_children) == Some((prop, false)));
        assert(props_parts(source, attrs, dynamic, has_children, n).0 == p.0.push(prop));
        assert(p.0.push(prop)[p.0.len() as int] == prop);
    } else {
        lemma_valueless_prop_is_true(source, attrs, dynamic, has_children, n - 1, i, a);
        let k = choose|k: int| 0 <= k < p.0.len() && p.0[k] == prop;
        let q = props_parts(source, attrs, dynamic, has_children, n).0;
        assert(q == p.0 || q == p.0.push(q.last()));
        assert(q[k] == prop);
    }
}

/// The props of a component hold each static property its attributes
/// give, and a value-less attribute (other than `ref`, and other than
/// `children` where there are JSX children) is passed as `key: true`.
pub proof fn lemma_valueless_attr_in_props(
    source: Seq<char>,
    e: JsxElement,
    dynamic: Seq<bool>,
    children: Option<Seq<char>>,
    children_dynamic: bool,
    i: int,
    a: JsxAttribute,
)
    requires
        0 <= i < e.opening_element.attributes@.len(),
        e.opening_element.attributes@[i] == JsxAttributeItem::Attribute(a),
        a.value is None,
        attr_full_name_spec(a.name) != "ref"@,
        !(attr_full_name_spec(a.name) == "children"@ && e.children@.len() > 0),
    ensures
        seq_contains_seq(
            props_spec(source, e, dynamic, children, children_dynamic),
            format_prop_key_spec(attr_full_name_spec(a.name)) + ": true"@,
        ),
{
    let prop = format_prop_key_spec(attr_full_name_spec(a.name)) + ": true"@;
    let attrs = e.opening_element.attributes@;
    let has_children = e.children@.len() > 0;
    lemma_valueless_prop_is_true(source, attrs, dynamic, has_children, attrs.len() as int, i, a);
    let p = props_parts(source, attrs, dynamic, has_children, attrs.len() as int);
    let child = if has_children {
        children
    } else {
        None
    };
    let statics = match child {
        Some(c) => if children_dynamic {
            p.0
        } else {
            p.0.push("children: "@ + c)
        },
        None => p.0,
    };
    let dynamics = match child {
        Some(c) => if children_dynamic {
            p.1.push(getter_spec("children"@, c))
        } else {
            p.1
        },
        None => p.1,
    };
    let props = statics + dynamics;
    let k = choose|k: int| 0 <= k < p.0.len() && p.0[k] == prop;
    assert(props[k] == prop);
    lemma_join_contains_part(props, ", "@, k);
    let obj = object_spec(props);
    lemma_contains_within("{ "@, join_spec(props, ", "@), " }"@, prop);
    assert(obj == "{ "@ + join_spec(props, ", "@) + " }"@);
    if p.2.len() > 0 {
        let args = p.2.push(obj);
        lemma_join_contains_part(args, ", "@, p.2.len() as int);
        lemma_contains_trans(join_spec(args, ", "@), obj, prop);
        lemma_contains_within("mergeProps("@, join_spec(args, ", "@), ")"@, prop);
    }
}

/// An object literal of the properties.
pub open spec fn object_spec(props: Seq<Seq<char>>) -> Seq<char> {
    if props.len() == 0 {
        "{}"@
    } else {
        "{ "@ + join_spec(props, ", "@) + " }"@
    }
}

/// The props of a component: static properties, then dynamic ones (the
/// JSX children, when given, last in their group), as an object; with
/// spreads, `mergeProps` of the spreads and that object (left out where
/// empty).
pub open spec fn props_spec(
    source: Seq<char>,
    e: JsxElement,
    dynamic: Seq<bool>,
    children: Option<Seq<char>>,
    children_dynamic: bool,
) -> Seq<char> {
    let has_children = e.children@.len() > 0;
    let attrs = e.opening_element.attributes@;
    let p = props_parts(source, attrs, dynamic, has_children, attrs.len() as int);
    let child = if has_children {
        children
    } else {
        None
    };
    let statics = match child {
        Some(c) => if children_dynamic {
            p.0
        } else {
            p.0.push("children: "@ + c)
        },
        None => p.0,
    };
    let dynamics = match child {
        Some(c) => if children_dynamic {
            p.1.push(getter_spec("children"@, c))
        } else {
            p.1
        },
        None => p.1,
    };
    let props = statics + dynamics;
    if p.2.len() > 0 {
        "mergeProps("@ + join_spec(
            if props.len() > 0 {
                p.2.push(object_spec(props))
            } else {
                p.2
            },
            ", "@,
        ) + ")"@
    } else {
        object_spec(props)
    }
}

fn push_view(v: &mut Vec<String>, s: String)
    ensures
        views(final(v)@) == views(old(v)@).push(s@),
{
    let ghost before = views(v@);
    let ghost sv = s@;
    v.push(s);
    assert(views(v@) =~= before.push(sv));
}

fn attr_prop(source: &str, a: &JsxAttribute, dynamic: bool, has_children: bool) -> (r: Option<(String, bool)>)
    ensures
        match r {
            Some((c, d)) => attr_prop_spec(source@, *a, dynamic, has_children) == Some((c@, d)),
            None => attr_prop_spec(source@, *a, dynamic, has_children) is None,
        },
{
    proof {
        reveal_strlit("children");
        reveal_strlit("ref");
    }
    let raw = attr_full_name(&a.name);
    if str_eq(raw.as_str(), "children") && has_children {
        return None;
    }
    if str_eq(raw.as_str(), "ref") {
        let e = match &a.value {
            Some(JsxAttributeValue::ExpressionContainer(c)) => match &c.expression {
                Some(e) => e,
                None => return None,
            },
            _ => return None,
        };
        let code = expr_code(source, e);
        let assignable = match e {
            Expression::Identifier(_) => true,
            Expression::StaticMember(_) => true,
            Expression::ComputedMember(_) => true,
            _ => false,
        };
        let mut m = to_owned("ref(r$) { var _ref$ = ");
        push_str(&mut m, code.as_str());
        push_str(&mut m, "; typeof _ref$ === \"function\" ? _ref$(r$) : ");
        let ghost head = m@;
        if assignable {
            push_str(&mut m, code.as_str());
            push_str(&mut m, " = r$");
        } else {
            push_str(&mut m, "undefined");
        }
        assert(m@ =~= head + (if is_assignable(*e) {
            code@ + " = r$"@
        } else {
            "undefined"@
        }));
        push_str(&mut m, "; }");
        return Some((m, true));
    }
    let key = format_prop_key(raw.as_str());
    match &a.value {
        Some(JsxAttributeValue::StringLiteral(lit)) => {
            let mut m = to_owned(key.as_str());
            push_str(&mut m, ": \"");
            push_str(&mut m, lit.value.as_str());
            push_str(&mut m, "\"");
            Some((m, false))
        },
        Some(JsxAttributeValue::ExpressionContainer(c)) => match &c.expression {
            Some(e) => {
                let code = expr_code(source, e);
                if dynamic {
                    let mut m = to_owned("get ");
                    push_str(&mut m, key.as_str());
                    push_str(&mut m, "() { return ");
                    push_str(&mut m, code.as_str());
                    push_str(&mut m, "; }");
                    Some((m, true))
                } else {
                    let mut m = to_owned(key.as_str());
                    push_str(&mut m, ": ");
                    push_str(&mut m, code.as_str());
                    Some((m, false))
                }
            },
            None => None,
        },
        None => {
            let mut m = to_owned(key.as_str());
            push_str(&mut m, ": true");
            Some((m, false))
        },
        _ => None,
    }
}

fn object_code(props: &Vec<String>) -> (r: String)
    ensures
        r@ == object_spec(views(props@)),
{
    if props.len() == 0 {
        return to_owned("{}");
    }
    let mut r = to_owned("{ ");
    let j = join(props.as_slice(), ", ");
    push_str(&mut r, j.as_str());
    push_str(&mut r, " }");
    r
}

/// Builds the props object of a component. `dynamic[i]`: the expression
/// of the `i`th attribute is reactive, and `children_dynamic` that of the
/// children, as the caller's check of the expressions found; `children`:
/// the code of the element's JSX children, if they give any. Registers
/// `mergeProps` where there are spreads.
pub fn build_props(
    element: &JsxElement,
    ctx: &mut BlockContext,
    source: &str,
    dynamic: &[bool],
    children: Option<String>,
    children_dynamic: bool,
) -> (r: String)
    requires
        dynamic@.len() == element.opening_element.attributes@.len(),
    ensures
        r@ == props_spec(
            source@,
            *element,
            dynamic@,
            match children {
                Some(c) => Some(c@),
                None => None,
            },
            children_dynamic,
        ),
        dom_state(*final(ctx)) == (if props_parts(
            source@,
            element.opening_element.attributes@,
            dynamic@,
            element.children@.len() > 0,
            element.opening_element.attributes@.len() as int,
        ).2.len() > 0 {
            add_helper(dom_state(*old(ctx)), "mergeProps"@)
        } else {
            dom_state(*old(ctx))
        }),
        same_rest(*final(ctx), *old(ctx)),
{
    let attrs = &element.opening_element.attributes;
    let has_children = element.children.len() > 0;
    let mut statics: Vec<String> = Vec::new();
    let mut dynamics: Vec<String> = Vec::new();
    let mut spreads: Vec<String> = Vec::new();
    let mut k: usize = 0;
    while k < attrs.len()
        invariant
            k <= attrs@.len(),
            attrs@ == element.opening_element.attributes@,
            dynamic@.len() == attrs@.len(),
            has_children == (element.children@.len() > 0),
            props_parts(source@, attrs@, dynamic@, has_children, k as int) == (
                views(statics@),
                views(dynamics@),
                views(spreads@),
            ),
        decreases attrs@.len() - k,
    {
        match &attrs[k] {
            JsxAttributeItem::SpreadAttribute(s) => {
                push_view(&mut spreads, expr_code(source, &s.argument));
            },
            JsxAttributeItem::Attribute(a) => {
                match attr_prop(source, a, dynamic[k], has_children) {
                    Some((code, true)) => push_view(&mut dynamics, code),
                    Some((code, false)) => push_view(&mut statics, code),
                    None => {},
                }
            },
        }
        k = k + 1;
    }
    let ghost p = props_parts(source@, attrs@, dynamic@, has_children, attrs@.len() as int);
    let ghost child: Option<Seq<char>> = if has_children {
        match &children {
            Some(c) => Some(c@),
            None => None,
        }
    } else {
        None
    };
    let ghost st = match child {
        Some(c) => if children_dynamic {
            p.0
        } else {
            p.0.push("children: "@ + c)
        },
        None => p.0,
    };
    let ghost dy = match child {
        Some(c) => if children_dynamic {
            p.1.push(getter_spec("children"@, c))
        } else {
            p.1
        },
        None => p.1,
    };
    if has_children {
        if let Some(c) = children {
            if children_dynamic {
                let mut m = to_owned("get ");
                push_str(&mut m, "children");
                push_str(&mut m, "() { return ");
                push_str(&mut m, c.as_str());
                push_str(&mut m, "; }");
                push_view(&mut dynamics, m);
            } else {
                let mut m = to_owned("children: ");
                push_str(&mut m, c.as_str());
                push_view(&mut statics, m);
            }
        }
    }
    assert(views(statics@) == st);
    assert(views(dynamics@) == dy);
    assert(views(spreads@) == p.2);
    let ghost sv = views(statics@);
    let ghost dv = views(dynamics@);
    let mut props = statics;
    let mut i: usize = 0;
    while i < dynamics.len()
        invariant
            i <= dynamics@.len(),
            dv == views(dynamics@),
            views(props@) == sv + dv.take(i as int),
        decreases dynamics@.len() - i,
    {
        push_view(&mut props, to_owned(dynamics[i].as_str()));
        assert(dv.take(i + 1) =~= dv.take(i as int).push(dv[i as int]));
        i = i + 1;
    }
    assert(dv.take(dv.len() as int) =~= dv);
    assert(views(props@) == st + dy);
    let object = object_code(&props);
    if spreads.len() > 0 {
        ctx.register_helper("mergeProps");
        assert(dom_state(*ctx) =~= add_helper(dom_state(*old(ctx)), "mergeProps"@));
        let mut args = spreads;
        if props.len() > 0 {
            push_view(&mut args, object);
        }
        assert(views(args@) == (if (st + dy).len() > 0 {
            p.2.push(object_spec(st + dy))
        } else {
            p.2
        }));
        let mut r = to_owned("mergeProps(");
        let j = join(args.as_slice(), ", ");
        push_str(&mut r, j.as_str());
        push_str(&mut r, ")");
        r
    } else {
        object
    }
}

/// The expression that refers to a component: its name, dotted for a
/// member expression; `undefined` for a namespaced name, which is no
/// reference in JavaScript.
pub open spec fn component_ref_spec(name: JsxElementName) -> Seq<char> {
    match name {
        JsxElementName::NamespacedName(_) => "undefined"@,
        _ => match element_name_spec(name) {
            Some(n) => n,
            None => "this"@,
        },
    }
}

/// The spread arguments among the attributes, which make the props a
/// `mergeProps` call.
pub open spec fn has_spreads(source: Seq<char>, e: JsxElement, dynamic: Seq<bool>) -> bool {
    props_parts(
        source,
        e.opening_element.attributes@,
        dynamic,
        e.children@.len() > 0,
        e.opening_element.attributes@.len() as int,
    ).2.len() > 0
}

/// Transforms a component: one expression, `createComponent(Name,
/// props)`, registering `createComponent` (and `mergeProps` where the
/// props merge spreads). The arguments after `source` are those of
/// `build_props`.
pub fn transform_component(
    element: &JsxElement,
    ctx: &mut BlockContext,
    source: &str,
    dynamic: &[bool],
    children: Option<String>,
    children_dynamic: bool,
) -> (r: TransformResult)
    requires
        dynamic@.len() == element.opening_element.attributes@.len(),
    ensures
        views(r.exprs@) == seq![
            "createComponent("@ + component_ref_spec(element.opening_element.name) + ", "@ + props_spec(
                source@,
                *element,
                dynamic@,
                match children {
                    Some(c) => Some(c@),
                    None => None,
                },
                children_dynamic,
            ) + ")"@,
        ],
        r.span == element.span,
        r.template@.len() == 0,
        r.declarations@.len() == 0,
        r.dynamics@.len() == 0,
        r.child_results@.len() == 0,
        r.id is None,
        !r.text && !r.skip_template && !r.needs_memo,
        dom_state(*final(ctx)) == (if has_spreads(source@, *element, dynamic@) {
            add_helper(add_helper(dom_state(*old(ctx)), "createComponent"@), "mergeProps"@)
        } else {
            add_helper(dom_state(*old(ctx)), "createComponent"@)
        }),
        same_rest(*final(ctx), *old(ctx)),
{
    ctx.register_helper("createComponent");
    let ghost s1 = dom_state(*ctx);
    assert(s1 =~= add_helper(dom_state(*old(ctx)), "createComponent"@));
    let props = build_props(element, ctx, source, dynamic, children, children_dynamic);
    let name = match &element.opening_element.name {
        JsxElementName::NamespacedName(_) => to_owned("undefined"),
        _ => match get_element_name(&element.opening_element) {
            Some(n) => n,
            None => to_owned("this"),
        },
    };
    let mut code = to_owned("createComponent(");
    push_str(&mut code, name.as_str());
    push_str(&mut code, ", ");
    push_str(&mut code, props.as_str());
    push_str(&mut code, ")");
    let mut exprs: Vec<String> = Vec::new();
    push_view(&mut exprs, code);
    TransformResult {
        span: element.span,
        template: String::new(),
        template_with_closing_tags: String::new(),
        declarations: Vec::new(),
        exprs,
        dynamics: Vec::new(),
        post_exprs: Vec::new(),
        is_svg: false,
        has_custom_element: false,
        tag_name: None,
        skip_template: false,
        id: None,
        text: false,
        needs_memo: false,
        child_results: Vec::new(),
    }
}

/// The source text of a span, or nothing where it selects no slice.
pub open spec fn span_code_spec(source: Seq<char>, span: Span) -> Seq<char> {
    match str_get_spec(source, span.start as int, span.end as int) {
        Some(t) => t,
        None => Seq::empty(),
    }
}

/// The code one child gives, if any, and the block context after it:
/// non-blank text as an escaped string literal, an expression or a spread
/// as written, an element or fragment as the output of its transformed
/// result `t`.
pub open spec fn child_code_spec(source: Seq<char>, c: JsxChild, t: Option<TransformResult>, s: DomState) -> (
    Option<Seq<char>>,
    DomState,
) {
    match c {
        JsxChild::Text(text) => {
            let content = trim_whitespace_spec(text.value@);
            if content.len() > 0 {
                (Some("\""@ + escape_html_spec(content, false) + "\""@), s)
            } else {
                (None, s)
            }
        },
        JsxChild::ExpressionContainer(ec) => match ec.expression {
            Some(e) => (Some(expr_code_spec(source, e)), s),
            None => (None, s),
        },
        JsxChild::Spread(span) => (Some(span_code_spec(source, span)), s),
        _ => match t {
            Some(r) => {
                let o = dom_output(r, s);
                (Some(o.0), o.1)
            },
            None => (None, s),
        },
    }
}

/// The codes of the first `n` children, and the block context after them.
pub open spec fn children_codes_spec(
    source: Seq<char>,
    cs: Seq<JsxChild>,
    ts: Seq<Option<TransformResult>>,
    s: DomState,
    n: int,
) -> (Seq<Seq<char>>, DomState)
    decreases n,
{
    if n <= 0 {
        (Seq::empty(), s)
    } else {
        let front = children_codes_spec(source, cs, ts, s, n - 1);
        let c = child_code_spec(source, cs[n - 1], ts[n - 1], front.1);
        match c.0 {
            Some(code) => (front.0.push(code), c.1),
            None => (front.0, c.1),
        }
    }
}

/// The children as one expression: the only one as it is, several as an
/// array, none as nothing.
pub open spec fn children_expr_spec(codes: Seq<Seq<char>>) -> Option<Seq<char>> {
    if codes.len() == 0 {
        None
    } else if codes.len() == 1 {
        Some(codes[0])
    } else {
        Some("["@ + join_spec(codes, ", "@) + "]"@)
    }
}

/// The children of a component as one expression. `transformed[i]`: the
/// transformed result of the `i`th child where it is an element or a
/// fragment, as the caller's transform gave it; each is rendered with its
/// templates and helpers collected in the block context.
pub fn get_children_expr_transformed(
    element: &JsxElement,
    ctx: &mut BlockContext,
    source: &str,
    transformed: &[Option<TransformResult>],
) -> (r: Option<String>)
    requires
        transformed@.len() == element.children@.len(),
    ensures
        ({
            let out = children_codes_spec(
                source@,
                element.children@,
                transformed@,
                dom_state(*old(ctx)),
                element.children@.len() as int,
            );
            &&& (match r {
                Some(c) => children_expr_spec(out.0) == Some(c@),
                None => children_expr_spec(out.0) is None,
            })
            &&& dom_state(*final(ctx)) == out.1
        }),
        same_rest(*final(ctx), *old(ctx)),
{
    let ghost s0 = dom_state(*ctx);
    let children = &element.children;
    let mut codes: Vec<String> = Vec::new();
    let mut k: usize = 0;
    while k < children.len()
        invariant
            k <= children@.len(),
            children@ == element.children@,
            transformed@.len() == children@.len(),
            s0 == dom_state(*old(ctx)),
            views(codes@) == children_codes_spec(source@, children@, transformed@, s0, k as int).0,
            dom_state(*ctx) == children_codes_spec(source@, children@, transformed@, s0, k as int).1,
            same_rest(*ctx, *old(ctx)),
        decreases children@.len() - k,
    {
        match &children[k] {
            JsxChild::Text(t) => {
                let content = trim_whitespace(t.value.as_str());
                if !content.as_str().is_empty() {
                    let escaped = escape_html(content.as_str(), false);
                    let mut m = to_owned("\"");
                    push_str(&mut m, escaped.as_str());
                    push_str(&mut m, "\"");
                    push_view(&mut codes, m);
                }
            },
            JsxChild::ExpressionContainer(c) => {
                if let Some(e) = &c.expression {
                    push_view(&mut codes, expr_code(source, e));
                }
            },
            JsxChild::Spread(span) => {
                let code = match str_get(source, span.start, span.end) {
                    Some(t) => t,
                    None => String::new(),
                };
                push_view(&mut codes, code);
            },
            _ => {
                if let Some(r) = &transformed[k] {
                    let code = build_dom_output_expr(r, ctx);
                    push_view(&mut codes, code);
                }
            },
        }
        k = k + 1;
    }
    if codes.len() == 0 {
        return None;
    }
    if codes.len() == 1 {
        return Some(to_owned(codes[0].as_str()));
    }
    let mut r = to_owned("[");
    let j = join(codes.as_slice(), ", ");
    push_str(&mut r, j.as_str());
    push_str(&mut r, "]");
    Some(r)
}

} // verus!
