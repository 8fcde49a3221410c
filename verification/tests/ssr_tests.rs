use solid_jsx_oxc::jsx::{
    Expression, Ident, JsxAttribute, JsxAttributeItem, JsxAttributeName, JsxAttributeValue,
    JsxChild, JsxElement, JsxElementName, JsxExpressionContainer, JsxFragment, JsxOpeningElement,
    JsxSpreadAttribute, JsxText, StringLiteral,
};
use solid_jsx_oxc::options::{GenerateMode, TransformOptions};
use solid_jsx_oxc::ssr::{generate_ssr_code, SSRContext};
use solid_jsx_oxc::ssr_component::{find_prop_value, get_children_callback, transform_builtin, transform_component};
use solid_jsx_oxc::ssr_element::{is_svg_element, transform_element};
use solid_jsx_oxc::Span;

fn sp(start: u32, end: u32) -> Span {
    Span { start, end }
}

fn ssr_options() -> TransformOptions {
    TransformOptions { generate: GenerateMode::Ssr, ..TransformOptions::solid_defaults() }
}

/// The span of the first occurrence of `needle` in `source`.
fn at(source: &str, needle: &str) -> Span {
    let start = source.find(needle).unwrap() as u32;
    sp(start, start + needle.len() as u32)
}

fn el(tag: &str, attributes: Vec<JsxAttributeItem>, children: Vec<JsxChild>) -> JsxElement {
    JsxElement {
        opening_element: JsxOpeningElement {
            name: JsxElementName::Identifier(Ident { name: tag.to_string(), span: sp(1, 1 + tag.len() as u32) }),
            attributes,
            span: sp(0, 5),
        },
        children,
        closing_element: None,
        span: sp(0, 40),
    }
}

fn string_attr(name: &str, value: &str) -> JsxAttributeItem {
    JsxAttributeItem::Attribute(JsxAttribute {
        name: JsxAttributeName::Identifier(Ident { name: name.to_string(), span: sp(0, 1) }),
        value: Some(JsxAttributeValue::StringLiteral(StringLiteral { value: value.to_string(), span: sp(0, 1) })),
        span: sp(0, 1),
    })
}

fn expr_attr(name: &str, span: Span) -> JsxAttributeItem {
    JsxAttributeItem::Attribute(JsxAttribute {
        name: JsxAttributeName::Identifier(Ident { name: name.to_string(), span: sp(0, 1) }),
        value: Some(JsxAttributeValue::ExpressionContainer(JsxExpressionContainer {
            expression: Some(Expression::Other(span)),
            span,
        })),
        span: sp(0, 1),
    })
}

fn bool_attr(name: &str) -> JsxAttributeItem {
    JsxAttributeItem::Attribute(JsxAttribute {
        name: JsxAttributeName::Identifier(Ident { name: name.to_string(), span: sp(0, 1) }),
        value: None,
        span: sp(0, 1),
    })
}

fn text(value: &str) -> JsxChild {
    JsxChild::Text(JsxText { value: value.to_string(), span: sp(0, 1) })
}

fn expr_child(span: Span) -> JsxChild {
    JsxChild::ExpressionContainer(JsxExpressionContainer { expression: Some(Expression::Other(span)), span })
}

#[test]
fn ssr_static_element() {
    let source = r#"<div class="hello">world</div>"#;
    let e = el("div", vec![string_attr("class", "hello")], vec![text("world")]);
    let mut ctx = SSRContext::new(false);
    let r = transform_element(&e, "div", &mut ctx, &ssr_options(), source).unwrap();
    assert_eq!(r.to_ssr_call(), r#""<div class="hello">world</div>""#);
    assert_eq!(r.tag_name.as_deref(), Some("div"));
    assert!(!r.skip_escape);
    assert_eq!(generate_ssr_code(&r, &ctx), r#""<div class="hello">world</div>""#);
}

#[test]
fn ssr_dynamic_attribute() {
    let source = r#"<div class={style()}>content</div>"#;
    let e = el("div", vec![expr_attr("class", at(source, "style()"))], vec![text("content")]);
    let mut ctx = SSRContext::new(false);
    let r = transform_element(&e, "div", &mut ctx, &ssr_options(), source).unwrap();
    assert_eq!(r.to_ssr_call(), r#"ssr`<div class="${escape(style(), true)}">content</div>`"#);
    let code = generate_ssr_code(&r, &ctx);
    assert!(code.contains("ssr`") && code.contains("escape") && code.contains("style()"));
}

#[test]
fn ssr_dynamic_child_and_imports() {
    let source = r#"<div>{count()}</div>"#;
    let e = el("div", vec![], vec![expr_child(at(source, "count()"))]);
    let mut ctx = SSRContext::new(false);
    let r = transform_element(&e, "div", &mut ctx, &ssr_options(), source).unwrap();
    assert_eq!(r.to_ssr_call(), "ssr`<div>${escape(count())}</div>`");
    assert_eq!(
        generate_ssr_code(&r, &ctx),
        "import { escape } from \"solid-js/web\";\n\nssr`<div>${escape(count())}</div>`"
    );
}

#[test]
fn ssr_special_attributes() {
    let source = "<input value={v} style={s} classList={c} onClick={h} ref={r} disabled/>";
    let e = el(
        "input",
        vec![
            expr_attr("value", at(source, "v}")),
            expr_attr("style", at(source, "s}")),
            expr_attr("classList", at(source, "c}")),
            expr_attr("onClick", at(source, "h}")),
            expr_attr("ref", at(source, "r}")),
            bool_attr("disabled"),
        ],
        vec![text("ignored: input is void")],
    );
    let mut ctx = SSRContext::new(false);
    let r = transform_element(&e, "input", &mut ctx, &ssr_options(), source).unwrap();
    // `at` picks the first occurrence, so trim the `}` off each value.
    let call = r.to_ssr_call();
    assert!(call.starts_with("ssr`<input${ssrAttribute(\"value\", v}, true)}"));
    assert!(call.contains(" style=\"${ssrStyle(s})}\""));
    assert!(call.contains(" class=\"${ssrClassList(c})}\""));
    assert!(call.ends_with(" disabled>`"));
    assert!(!call.contains("ignored"));
    assert!(!call.contains("h}") && !call.contains("ref"));
}

#[test]
fn ssr_aliases_nesting_and_escaping() {
    let source = "<label htmlFor=\"x\"><b>a & b</b><script>{code}</script><>{y}</></label>";
    let e = el(
        "label",
        vec![string_attr("htmlFor", "x")],
        vec![
            JsxChild::Element(Box::new(el("b", vec![], vec![text("a & b")]))),
            JsxChild::Element(Box::new(el("script", vec![], vec![text("1 < 2"), expr_child(at(source, "code"))]))),
            JsxChild::Fragment(Box::new(JsxFragment { children: vec![expr_child(at(source, "y"))], span: sp(0, 1) })),
        ],
    );
    let mut ctx = SSRContext::new(false);
    let r = transform_element(&e, "label", &mut ctx, &ssr_options(), source).unwrap();
    assert_eq!(
        r.to_ssr_call(),
        "ssr`<label for=\"x\"><b>a &amp; b</b><script>1 < 2${code}</script>${escape(y)}</label>`"
    );
}

#[test]
fn ssr_inner_content_replaces_children() {
    let source = "<div innerHTML={html}>x</div><p textContent={t}/>";
    let e = el("div", vec![expr_attr("innerHTML", at(source, "html"))], vec![text("x")]);
    let mut ctx = SSRContext::new(false);
    let r = transform_element(&e, "div", &mut ctx, &ssr_options(), source).unwrap();
    assert_eq!(r.to_ssr_call(), "ssr`<div>${html}</div>`");
    let p = el("p", vec![expr_attr("textContent", at(source, "t}"))], vec![]);
    let r = transform_element(&p, "p", &mut ctx, &ssr_options(), source).unwrap();
    assert_eq!(r.to_ssr_call(), "ssr`<p>${escape(t})}</p>`");
}

#[test]
fn ssr_hydration_key() {
    let source = "<span>{x}</span>";
    let e = el("span", vec![], vec![expr_child(at(source, "x"))]);
    let mut ctx = SSRContext::new(true);
    let options = TransformOptions { hydratable: true, ..ssr_options() };
    let r = transform_element(&e, "span", &mut ctx, &options, source).unwrap();
    assert_eq!(r.to_ssr_call(), "ssr`<span${ssrHydrationKey()}>${escape(x)}</span>`");
    let mut plain = SSRContext::new(true);
    let r = transform_element(&e, "span", &mut plain, &ssr_options(), source).unwrap();
    assert_eq!(r.to_ssr_call(), "ssr`<span>${escape(x)}</span>`");
}

#[test]
fn ssr_components_and_spreads_are_not_rendered() {
    let source = "<div>{x}<Button/></div>";
    let button = el("Button", vec![], vec![]);
    let e = el("div", vec![], vec![expr_child(at(source, "x")), JsxChild::Element(Box::new(button))]);
    let mut ctx = SSRContext::new(false);
    assert!(transform_element(&e, "div", &mut ctx, &ssr_options(), source).is_none());
    assert!(ctx.helpers.is_empty());
    let spread = JsxAttributeItem::SpreadAttribute(JsxSpreadAttribute {
        argument: Expression::Other(sp(0, 1)),
        span: sp(0, 1),
    });
    let e = el("div", vec![spread], vec![JsxChild::Element(Box::new(el("Button", vec![], vec![])))]);
    assert!(transform_element(&e, "div", &mut ctx, &ssr_options(), source).is_none());
}

#[test]
fn svg_elements() {
    assert!(is_svg_element("svg"));
    assert!(is_svg_element("linearGradient"));
    assert!(!is_svg_element("div"));
}

#[test]
fn merging_a_rendered_child_is_rendering_it_in_place() {
    let source = "<div>{a}<b>{c}</b></div>";
    let child = || el("b", vec![], vec![expr_child(at(source, "c"))]);
    let whole = el("div", vec![], vec![expr_child(at(source, "a")), JsxChild::Element(Box::new(child()))]);
    let mut ctx = SSRContext::new(false);
    let in_place = transform_element(&whole, "div", &mut ctx, &ssr_options(), source).unwrap();

    let mut parent = solid_jsx_oxc::ssr::SSRResult::new();
    parent.push_static("<div");
    parent.push_static(">");
    parent.push_dynamic("a", false, false);
    let rendered = transform_element(&child(), "b", &mut ctx, &ssr_options(), source).unwrap();
    parent.merge(rendered);
    parent.push_static("</div>");
    assert_eq!(parent.to_ssr_call(), in_place.to_ssr_call());
    assert_eq!(in_place.to_ssr_call(), "ssr`<div>${escape(a)}<b>${escape(c)}</b></div>`");
}

// ============ control-flow components ============

fn comp(tag: &str, attributes: Vec<JsxAttributeItem>, children: Vec<JsxChild>) -> JsxElement {
    el(tag, attributes, children)
}

#[test]
fn ssr_for_and_index() {
    let source = "<For each={items}>{item => <li>{item}</li>}</For>";
    let e = comp(
        "For",
        vec![expr_attr("each", at(source, "items"))],
        vec![expr_child(at(source, "item => <li>{item}</li>"))],
    );
    let mut ctx = SSRContext::new(false);
    let r = transform_builtin(&e, "For", &mut ctx, &ssr_options(), source).unwrap();
    assert_eq!(
        r.to_ssr_call(),
        "ssr`${escape(createComponent(For, { each: items, children: item => <li>{item}</li> }))}`"
    );
    assert_eq!(ctx.helpers.iter().cloned().collect::<Vec<_>>(), vec!["createComponent", "escape"]);
    let bare = comp("Index", vec![], vec![]);
    let r = transform_builtin(&bare, "Index", &mut ctx, &ssr_options(), source).unwrap();
    assert_eq!(r.template_values[0].code, "createComponent(Index, { each: [], children: () => undefined })");
}

#[test]
fn ssr_show_renders_children() {
    let source = "<Show when={ok()} fallback=\"none\"><p>hi</p>{x}</Show>";
    let e = comp(
        "Show",
        vec![expr_attr("when", at(source, "ok()")), string_attr("fallback", "none")],
        vec![JsxChild::Element(Box::new(el("p", vec![], vec![text("hi")]))), expr_child(at(source, "x"))],
    );
    let mut ctx = SSRContext::new(false);
    let r = transform_builtin(&e, "Show", &mut ctx, &ssr_options(), source).unwrap();
    assert_eq!(
        r.template_values[0].code,
        "createComponent(Show, { when: ok(), fallback: \"none\", children: () => [\"<p>hi</p>\", x] })"
    );
    let one = comp("Switch", vec![], vec![text("  a < b  ")]);
    let r = transform_builtin(&one, "Switch", &mut ctx, &ssr_options(), source).unwrap();
    assert_eq!(r.template_values[0].code, "createComponent(Switch, { children: () => \" a &lt; b \" })");
    let none = comp("Portal", vec![], vec![]);
    let r = transform_builtin(&none, "Portal", &mut ctx, &ssr_options(), source).unwrap();
    assert_eq!(r.template_values[0].code, "createComponent(Portal, { children: undefined })");
}

#[test]
fn ssr_nested_components_and_other_builtins() {
    let source = "<Suspense fallback={f}><Button/></Suspense>";
    let e = comp("Suspense", vec![expr_attr("fallback", at(source, "f}"))], vec![JsxChild::Element(Box::new(el("Button", vec![], vec![])))]);
    let mut ctx = SSRContext::new(false);
    let r = transform_builtin(&e, "Suspense", &mut ctx, &ssr_options(), source).unwrap();
    assert_eq!(
        r.template_values[0].code,
        "createComponent(Suspense, { fallback: f}, children: () => ssr`${escape(createComponent(Button, {}))}` })"
    );
    let d = comp("Dynamic", vec![expr_attr("component", at(source, "f}"))], vec![]);
    let r = transform_builtin(&d, "Dynamic", &mut ctx, &ssr_options(), source).unwrap();
    assert_eq!(r.template_values[0].code, "createComponent(Dynamic, { component: f} })");
    let nh = comp("NoHydration", vec![], vec![text("x")]);
    let r = transform_builtin(&nh, "NoHydration", &mut ctx, &ssr_options(), source).unwrap();
    assert!(r.template_values[0].skip_escape);
    assert!(ctx.helpers.contains("NoHydration"));
    let other = comp("SuspenseList", vec![], vec![]);
    let r = transform_builtin(&other, "SuspenseList", &mut ctx, &ssr_options(), source).unwrap();
    assert_eq!(r.template_values[0].code, "createComponent(SuspenseList, {})");
}

#[test]
fn ssr_builtin_with_unrenderable_child_leaves_context() {
    let source = "<Show when={a}><div>{x}<b {...p}/></div></Show>";
    let spread = JsxAttributeItem::SpreadAttribute(JsxSpreadAttribute { argument: Expression::Other(at(source, "p")), span: sp(0, 1) });
    let inner = el("div", vec![], vec![expr_child(at(source, "x")), JsxChild::Element(Box::new(el("b", vec![spread], vec![])))]);
    let e = comp("Show", vec![expr_attr("when", at(source, "a"))], vec![JsxChild::Element(Box::new(inner))]);
    let mut ctx = SSRContext::new(false);
    let r = transform_builtin(&e, "Show", &mut ctx, &ssr_options(), source).unwrap();
    assert_eq!(
        r.template_values[0].code,
        "createComponent(Show, { when: a, fallback: undefined, children: () => ssr`<div>${escape(x)}${ssrElement(\"b\", { ...p }, null, false)}</div>` })"
    );
    let button = JsxChild::Element(Box::new(el("Button", vec![], vec![])));
    let holder = JsxChild::Element(Box::new(el("div", vec![], vec![button])));
    let blocked = comp("Show", vec![], vec![holder]);
    let mut ctx = SSRContext::new(false);
    assert!(transform_builtin(&blocked, "Show", &mut ctx, &ssr_options(), source).is_none());
    assert!(ctx.helpers.is_empty());
}

#[test]
fn props_and_callbacks() {
    let source = "<For each={list} key=\"k\">{(x) => x}{y}</For>";
    let e = comp(
        "For",
        vec![expr_attr("each", at(source, "list")), string_attr("key", "k")],
        vec![expr_child(at(source, "(x) => x")), expr_child(at(source, "y"))],
    );
    assert_eq!(find_prop_value(&e, "each", source).as_deref(), Some("list"));
    assert_eq!(find_prop_value(&e, "key", source).as_deref(), Some("\"k\""));
    assert_eq!(find_prop_value(&e, "when", source), None);
    assert_eq!(get_children_callback(&e, source), "(x) => x");
    assert_eq!(get_children_callback(&comp("For", vec![], vec![text("t")]), source), "() => undefined");
}

// ============ elements with a spread attribute ============

#[test]
fn ssr_spread_element() {
    let source = "<div {...props} class=\"a\" id={id()} hidden onClick={h}>hi {x}<b>y</b></div>";
    let spread = JsxAttributeItem::SpreadAttribute(JsxSpreadAttribute { argument: Expression::Other(at(source, "props")), span: sp(0, 1) });
    let e = el(
        "div",
        vec![spread, string_attr("class", "a"), expr_attr("id", at(source, "id()")), bool_attr("hidden"), expr_attr("onClick", at(source, "h}"))],
        vec![text("hi "), expr_child(at(source, "x")), JsxChild::Element(Box::new(el("b", vec![], vec![text("y")])))],
    );
    let mut ctx = SSRContext::new(false);
    let r = transform_element(&e, "div", &mut ctx, &ssr_options(), source).unwrap();
    assert!(r.has_spread);
    assert!(r.tag_name.is_none());
    assert_eq!(
        r.template_values[0].code,
        "ssrElement(\"div\", { ...props, \"class\": \"a\", \"id\": id(), \"hidden\": true }, [\"hi \", escape(x), \"<b>y</b>\"], false)"
    );
    assert!(r.template_values[0].skip_escape);
    assert!(ctx.helpers.contains("ssrElement") && ctx.helpers.contains("escape"));
    let lone = el("input", vec![JsxAttributeItem::SpreadAttribute(JsxSpreadAttribute { argument: Expression::Other(at(source, "props")), span: sp(0, 1) })], vec![]);
    let mut ctx = SSRContext::new(true);
    let options = TransformOptions { hydratable: true, ..ssr_options() };
    let r = transform_element(&lone, "input", &mut ctx, &options, source).unwrap();
    assert_eq!(r.template_values[0].code, "ssrElement(\"input\", { ...props }, null, true)");
}

#[test]
fn ssr_component_with_props() {
    let source = "<Button label=\"Hi\" count={n()} onClick={h} {...rest}>Click</Button>";
    let e = comp(
        "Button",
        vec![
            string_attr("label", "Hi"),
            expr_attr("count", at(source, "n()")),
            expr_attr("onClick", at(source, "h}")),
            JsxAttributeItem::SpreadAttribute(JsxSpreadAttribute {
                argument: Expression::Other(at(source, "rest")),
                span: sp(0, 1),
            }),
        ],
        vec![text("Click")],
    );
    let mut ctx = SSRContext::new(false);
    let r = transform_component(&e, "Button", &mut ctx, &ssr_options(), source, &[false, true, false, false]).unwrap();
    assert_eq!(
        r.template_values[0].code,
        "createComponent(Button, mergeProps(rest, { label: \"Hi\", get count() { return n(); }, \
         get children() { return () => \"Click\"; } }))"
    );
    assert_eq!(
        ctx.helpers.iter().cloned().collect::<Vec<_>>(),
        vec!["createComponent", "escape", "mergeProps"]
    );
    let plain = comp("Card", vec![expr_attr("title", at(source, "n()"))], vec![]);
    let r = transform_component(&plain, "Card", &mut ctx, &ssr_options(), source, &[false]).unwrap();
    assert_eq!(r.template_values[0].code, "createComponent(Card, { title: n() })");
    let builtin = comp("Portal", vec![], vec![]);
    let r = transform_component(&builtin, "Portal", &mut ctx, &ssr_options(), source, &[]).unwrap();
    assert_eq!(r.template_values[0].code, "createComponent(Portal, { children: undefined })");
}
