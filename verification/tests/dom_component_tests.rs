use solid_jsx_oxc::dom::BlockContext;
use solid_jsx_oxc::dom_component::{build_props, get_children_expr_transformed, transform_component};
use solid_jsx_oxc::dom_output::TransformResult;
use solid_jsx_oxc::jsx::JsxFragment;
use solid_jsx_oxc::jsx::{
    Expression, Ident, JsxAttribute, JsxAttributeItem, JsxAttributeName, JsxAttributeValue, JsxChild,
    JsxElement, JsxElementName, JsxExpressionContainer, JsxOpeningElement, JsxSpreadAttribute, JsxText,
    StringLiteral,
};
use solid_jsx_oxc::Span;

fn sp(start: u32, end: u32) -> Span {
    Span { start, end }
}

fn ident(name: &str) -> Ident {
    Ident { name: name.to_string(), span: sp(0, 0) }
}

fn attr(name: &str, value: Option<JsxAttributeValue>) -> JsxAttributeItem {
    JsxAttributeItem::Attribute(JsxAttribute {
        name: JsxAttributeName::Identifier(ident(name)),
        value,
        span: sp(0, 0),
    })
}

fn braces(e: Expression) -> Option<JsxAttributeValue> {
    Some(JsxAttributeValue::ExpressionContainer(JsxExpressionContainer { expression: Some(e), span: sp(0, 0) }))
}

fn string(v: &str) -> Option<JsxAttributeValue> {
    Some(JsxAttributeValue::StringLiteral(StringLiteral { value: v.to_string(), span: sp(0, 0) }))
}

fn component(name: &str, attributes: Vec<JsxAttributeItem>, children: Vec<JsxChild>) -> JsxElement {
    JsxElement {
        opening_element: JsxOpeningElement {
            name: JsxElementName::IdentifierReference(ident(name)),
            attributes,
            span: sp(0, 0),
        },
        children,
        closing_element: None,
        span: sp(3, 9),
    }
}

fn helpers(ctx: &BlockContext) -> Vec<String> {
    ctx.helpers.iter().cloned().collect()
}

const SOURCE: &str = "v d() r rest";

fn full_component() -> JsxElement {
    component(
        "Comp",
        vec![
            attr("a", string("x")),
            attr("b", braces(Expression::Identifier(Ident { name: "v".to_string(), span: sp(0, 1) }))),
            attr("c", braces(Expression::Other(sp(2, 5)))),
            attr("ref", braces(Expression::Identifier(Ident { name: "r".to_string(), span: sp(6, 7) }))),
            JsxAttributeItem::SpreadAttribute(JsxSpreadAttribute {
                argument: Expression::Identifier(Ident { name: "rest".to_string(), span: sp(8, 12) }),
                span: sp(0, 0),
            }),
            attr("disabled", None),
        ],
        vec![JsxChild::Text(JsxText { value: "child".to_string(), span: sp(0, 0) })],
    )
}

#[test]
fn props_group_static_before_dynamic_and_merge_spreads() {
    let e = full_component();
    let mut ctx = BlockContext::new();
    let dynamic = [false, false, true, false, false, false];
    let props = build_props(&e, &mut ctx, SOURCE, &dynamic, Some("\"child\"".to_string()), false);
    assert_eq!(
        props,
        "mergeProps(rest, { a: \"x\", b: v, disabled: true, children: \"child\", \
         get c() { return d(); }, \
         ref(r$) { var _ref$ = r; typeof _ref$ === \"function\" ? _ref$(r$) : r = r$; } })"
    );
    assert_eq!(helpers(&ctx), vec!["mergeProps"]);
}

#[test]
fn dynamic_children_become_a_getter() {
    let e = component("Show", vec![attr("data-x", string("1"))], vec![JsxChild::Text(JsxText {
        value: "x".to_string(),
        span: sp(0, 0),
    })]);
    let mut ctx = BlockContext::new();
    let props = build_props(&e, &mut ctx, "", &[false], Some("a()".to_string()), true);
    assert_eq!(props, "{ \"data-x\": \"1\", get children() { return a(); } }");
    assert!(helpers(&ctx).is_empty());
}

#[test]
fn explicit_children_give_way_to_jsx_children() {
    let e = component(
        "Box",
        vec![attr("children", string("ignored"))],
        vec![JsxChild::Text(JsxText { value: "x".to_string(), span: sp(0, 0) })],
    );
    let mut ctx = BlockContext::new();
    assert_eq!(build_props(&e, &mut ctx, "", &[false], None, false), "{}");
    let bare = component("Box", vec![attr("children", string("kept"))], vec![]);
    assert_eq!(build_props(&bare, &mut ctx, "", &[false], None, false), "{ children: \"kept\" }");
}

#[test]
fn component_call() {
    let e = full_component();
    let mut ctx = BlockContext::new();
    let dynamic = [false, false, true, false, false, false];
    let r = transform_component(&e, &mut ctx, SOURCE, &dynamic, Some("\"child\"".to_string()), false);
    assert_eq!(r.exprs.len(), 1);
    assert!(r.exprs[0].starts_with("createComponent(Comp, mergeProps(rest, { a: \"x\""));
    assert_eq!(r.span, sp(3, 9));
    assert_eq!(helpers(&ctx), vec!["createComponent", "mergeProps"]);
    let plain = component("Foo", vec![], vec![]);
    let r2 = transform_component(&plain, &mut ctx, "", &[], None, false);
    assert_eq!(r2.exprs, vec!["createComponent(Foo, {})"]);
}

fn template_result(template: &str) -> TransformResult {
    TransformResult {
        span: sp(0, 0),
        template: template.to_string(),
        template_with_closing_tags: String::new(),
        declarations: vec![],
        exprs: vec![],
        dynamics: vec![],
        post_exprs: vec![],
        is_svg: false,
        has_custom_element: false,
        tag_name: None,
        skip_template: false,
        id: None,
        text: false,
        needs_memo: false,
        child_results: vec![],
    }
}

#[test]
fn children_as_one_expression() {
    let source = "count() rest";
    let e = component(
        "Box",
        vec![],
        vec![
            JsxChild::Text(JsxText { value: "a < b".to_string(), span: sp(0, 0) }),
            JsxChild::ExpressionContainer(JsxExpressionContainer {
                expression: Some(Expression::Other(sp(0, 7))),
                span: sp(0, 0),
            }),
            JsxChild::Fragment(Box::new(JsxFragment { children: vec![], span: sp(0, 0) })),
            JsxChild::Spread(sp(8, 12)),
            JsxChild::Text(JsxText { value: "\n   ".to_string(), span: sp(0, 0) }),
        ],
    );
    let mut ctx = BlockContext::new();
    let transformed = vec![None, None, Some(template_result("<p></p>")), None, None];
    let code = get_children_expr_transformed(&e, &mut ctx, source, &transformed);
    assert_eq!(
        code,
        Some(
            "[\"a &lt; b\", count(), (() => { const _el$ = _tmpl$1.cloneNode(true); return _el$; })(), rest]"
                .to_string()
        )
    );
    assert_eq!(ctx.templates.len(), 1);

    let single = component(
        "Box",
        vec![],
        vec![JsxChild::ExpressionContainer(JsxExpressionContainer {
            expression: Some(Expression::Other(sp(0, 7))),
            span: sp(0, 0),
        })],
    );
    assert_eq!(get_children_expr_transformed(&single, &mut ctx, source, &[None]), Some("count()".to_string()));
    let empty = component("Box", vec![], vec![]);
    assert_eq!(get_children_expr_transformed(&empty, &mut ctx, source, &[]), None);
}
