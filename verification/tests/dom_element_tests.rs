use solid_jsx_oxc::dom::BlockContext;
use solid_jsx_oxc::dom_element::{
    element_needs_runtime_access, transform_attr, transform_directive, transform_event,
    transform_inner_content, transform_prop, transform_ref,
};
use solid_jsx_oxc::dom_output::TransformResult;
use solid_jsx_oxc::jsx::{
    Expression, FormalParameters, Function, Ident, JsxAttribute, JsxAttributeItem, JsxAttributeName,
    JsxAttributeValue, JsxChild, JsxElement, JsxElementName, JsxExpressionContainer, JsxFragment,
    JsxOpeningElement, JsxText, NamespacedName, StringLiteral,
};
use solid_jsx_oxc::options::TransformOptions;
use solid_jsx_oxc::Span;

fn sp(start: u32, end: u32) -> Span {
    Span { start, end }
}

fn ident(name: &str) -> Ident {
    Ident { name: name.to_string(), span: sp(0, 0) }
}

fn result() -> TransformResult {
    TransformResult {
        span: sp(0, 0),
        template: String::new(),
        template_with_closing_tags: String::new(),
        declarations: vec![],
        exprs: vec![],
        dynamics: vec![],
        post_exprs: vec![],
        is_svg: false,
        has_custom_element: false,
        tag_name: Some("div".to_string()),
        skip_template: false,
        id: Some("_el$1".to_string()),
        text: false,
        needs_memo: false,
        child_results: vec![],
    }
}

/// An attribute `name={...}` whose expression spans `start..end` of the source.
fn expr_attr(name: &str, e: Expression) -> JsxAttribute {
    JsxAttribute {
        name: JsxAttributeName::Identifier(ident(name)),
        value: Some(JsxAttributeValue::ExpressionContainer(JsxExpressionContainer {
            expression: Some(e),
            span: sp(0, 0),
        })),
        span: sp(0, 0),
    }
}

fn string_attr(name: &str, value: &str) -> JsxAttribute {
    JsxAttribute {
        name: JsxAttributeName::Identifier(ident(name)),
        value: Some(JsxAttributeValue::StringLiteral(StringLiteral {
            value: value.to_string(),
            span: sp(0, 0),
        })),
        span: sp(0, 0),
    }
}

fn element(name: &str, attributes: Vec<JsxAttributeItem>, children: Vec<JsxChild>) -> JsxElement {
    JsxElement {
        opening_element: JsxOpeningElement {
            name: JsxElementName::Identifier(ident(name)),
            attributes,
            span: sp(0, 0),
        },
        children,
        closing_element: None,
        span: sp(0, 0),
    }
}

fn helpers(ctx: &BlockContext) -> Vec<String> {
    ctx.helpers.iter().cloned().collect()
}

fn delegates(ctx: &BlockContext) -> Vec<String> {
    ctx.delegates.iter().cloned().collect()
}

#[test]
fn runtime_access_by_attribute_and_child() {
    let plain = element("div", vec![JsxAttributeItem::Attribute(string_attr("class", "a"))], vec![]);
    assert!(!element_needs_runtime_access(&plain));
    let text = element(
        "div",
        vec![],
        vec![JsxChild::Text(JsxText { value: "hi".to_string(), span: sp(0, 0) })],
    );
    assert!(!element_needs_runtime_access(&text));
    let with_ref = element("div", vec![JsxAttributeItem::Attribute(string_attr("ref", "x"))], vec![]);
    assert!(element_needs_runtime_access(&with_ref));
    let with_handler =
        element("div", vec![JsxAttributeItem::Attribute(string_attr("onClick", "x"))], vec![]);
    assert!(element_needs_runtime_access(&with_handler));
    let with_expr = element(
        "div",
        vec![JsxAttributeItem::Attribute(expr_attr("title", Expression::Other(sp(0, 1))))],
        vec![],
    );
    assert!(element_needs_runtime_access(&with_expr));
    let namespaced = element(
        "div",
        vec![JsxAttributeItem::Attribute(JsxAttribute {
            name: JsxAttributeName::NamespacedName(NamespacedName {
                namespace: ident("xlink"),
                name: ident("href"),
                span: sp(0, 0),
            }),
            value: None,
            span: sp(0, 0),
        })],
        vec![],
    );
    assert!(element_needs_runtime_access(&namespaced));
    let nested = element(
        "div",
        vec![],
        vec![JsxChild::Fragment(Box::new(JsxFragment {
            children: vec![JsxChild::ExpressionContainer(JsxExpressionContainer {
                expression: None,
                span: sp(0, 0),
            })],
            span: sp(0, 0),
        }))],
    );
    assert!(element_needs_runtime_access(&nested));
    let component = element(
        "div",
        vec![],
        vec![JsxChild::Element(Box::new(JsxElement {
            opening_element: JsxOpeningElement {
                name: JsxElementName::IdentifierReference(ident("Foo")),
                attributes: vec![],
                span: sp(0, 0),
            },
            children: vec![],
            closing_element: None,
            span: sp(0, 0),
        }))],
    );
    assert!(element_needs_runtime_access(&component));
}

#[test]
fn delegated_event_sets_a_property() {
    let source = "handleClick";
    let attr = expr_attr("onClick", Expression::Identifier(Ident { name: source.to_string(), span: sp(0, 11) }));
    let mut r = result();
    let mut ctx = BlockContext::new();
    let options = TransformOptions::solid_defaults();
    assert!(options.delegate_events);
    transform_event(&attr, "onClick", "_el$1", &mut r, &mut ctx, &options, source);
    assert_eq!(r.exprs, vec!["_el$1.$$click = handleClick"]);
    assert_eq!(delegates(&ctx), vec!["click"]);
    assert!(helpers(&ctx).is_empty());
}

#[test]
fn other_events_add_listeners() {
    let source = "h";
    let options = TransformOptions::solid_defaults();
    let handler = || Expression::Identifier(Ident { name: "h".to_string(), span: sp(0, 1) });
    let mut r = result();
    let mut ctx = BlockContext::new();
    transform_event(&expr_attr("onClickCapture", handler()), "onClickCapture", "_el$1", &mut r, &mut ctx, &options, source);
    transform_event(&expr_attr("onScroll", handler()), "onScroll", "_el$1", &mut r, &mut ctx, &options, source);
    transform_event(&expr_attr("on:click", handler()), "on:click", "_el$1", &mut r, &mut ctx, &options, source);
    assert_eq!(
        r.exprs,
        vec![
            "addEventListener(_el$1, \"click\", h, true)",
            "addEventListener(_el$1, \"scroll\", h, false)",
            "addEventListener(_el$1, \"click\", h, false)",
        ]
    );
    assert_eq!(helpers(&ctx), vec!["addEventListener"]);
    assert!(delegates(&ctx).is_empty());
}

#[test]
fn directive_receives_a_getter() {
    let source = "model";
    let attr = expr_attr("use:tooltip", Expression::Identifier(Ident { name: "model".to_string(), span: sp(0, 5) }));
    let mut r = result();
    let mut ctx = BlockContext::new();
    transform_directive(&attr, "use:tooltip", "_el$1", &mut r, &mut ctx, source);
    assert_eq!(r.exprs, vec!["use(tooltip, _el$1, () => model)"]);
    assert_eq!(helpers(&ctx), vec!["use"]);
}

#[test]
fn forced_attributes() {
    let source = "value()";
    let mut r = result();
    let mut ctx = BlockContext::new();
    transform_attr(&expr_attr("attr:title", Expression::Other(sp(0, 7))), "attr:title", "_el$1", &mut r, &mut ctx, source);
    assert_eq!(r.exprs, vec!["effect(() => _el$1.setAttribute(\"title\", value()))"]);
    assert_eq!(helpers(&ctx), vec!["effect", "setAttribute"]);
    transform_attr(&string_attr("attr:data-x", "a&b"), "attr:data-x", "_el$1", &mut r, &mut ctx, source);
    assert_eq!(r.template, " data-x=\"a&amp;b\"");
    assert_eq!(r.exprs.len(), 1);
}

#[test]
fn refs_by_kind() {
    let source = "myRef";
    let id = || Expression::Identifier(Ident { name: "myRef".to_string(), span: sp(0, 5) });
    let mut r = result();
    transform_ref(&expr_attr("ref", id()), "_el$1", &mut r, source, true);
    transform_ref(&expr_attr("ref", id()), "_el$1", &mut r, source, false);
    let arrow_source = "el => x = el";
    let arrow = Expression::Arrow(Box::new(Function {
        id: None,
        params: FormalParameters { items: vec![], has_rest: false, span: sp(0, 2) },
        body: None,
        expression: true,
        span: sp(0, 12),
    }));
    transform_ref(&expr_attr("ref", arrow), "_el$1", &mut r, arrow_source, true);
    assert_eq!(
        r.exprs,
        vec![
            "typeof myRef === \"function\" ? myRef(_el$1) : myRef = _el$1",
            "myRef(_el$1)",
            "(el => x = el)(_el$1)",
        ]
    );
}

#[test]
fn properties_and_inner_content() {
    let source = "v()";
    let e = || Expression::Other(sp(0, 3));
    let mut r = result();
    let mut ctx = BlockContext::new();
    transform_prop(&expr_attr("prop:value", e()), "prop:value", "_el$1", &mut r, &mut ctx, source, false);
    assert_eq!(r.exprs, vec!["_el$1.value = v()"]);
    assert!(helpers(&ctx).is_empty());
    transform_prop(&expr_attr("prop:checked", e()), "prop:checked", "_el$1", &mut r, &mut ctx, source, true);
    assert_eq!(r.exprs[1], "effect(() => _el$1.checked = v())");
    assert_eq!(helpers(&ctx), vec!["effect"]);
    transform_inner_content(&expr_attr("textContent", e()), "textContent", "_el$1", &mut r, &mut ctx, source, true);
    assert_eq!(r.exprs[2], "effect(() => _el$1.textContent = v())");
    transform_inner_content(&string_attr("innerHTML", "<b>&</b>"), "innerHTML", "_el$1", &mut r, &mut ctx, source, false);
    assert_eq!(r.exprs[3], "_el$1.innerHTML = \"&lt;b&gt;&amp;&lt;/b&gt;\"");
    transform_inner_content(&string_attr("textContent", "x"), "textContent", "_el$1", &mut r, &mut ctx, source, false);
    assert_eq!(r.exprs.len(), 4);
}
