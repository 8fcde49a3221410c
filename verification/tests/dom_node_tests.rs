use solid_jsx_oxc::dom::BlockContext;
use solid_jsx_oxc::dom_node::{
    bare_result, transform_expression_container, transform_fragment, transform_spread_child, transform_text,
};
use solid_jsx_oxc::dom_output::build_dom_output_expr;
use solid_jsx_oxc::jsx::{Expression, JsxChild, JsxExpressionContainer, JsxFragment, JsxText};
use solid_jsx_oxc::Span;

fn sp(start: u32, end: u32) -> Span {
    Span { start, end }
}

fn text(value: &str) -> JsxText {
    JsxText { value: value.to_string(), span: sp(1, 2) }
}

fn container(e: Option<Expression>) -> JsxExpressionContainer {
    JsxExpressionContainer { expression: e, span: sp(3, 4) }
}

#[test]
fn text_nodes() {
    assert!(transform_text(&text("  \n  ")).is_none());
    let r = transform_text(&text("a <b>")).unwrap();
    assert!(r.text);
    assert_eq!(r.template, "a &lt;b&gt;");
    assert_eq!(r.span, sp(1, 2));
}

#[test]
fn expression_nodes() {
    let source = "count()";
    assert!(transform_expression_container(&container(None), source, true).is_none());
    let r = transform_expression_container(&container(Some(Expression::Other(sp(0, 7)))), source, true).unwrap();
    assert_eq!(r.exprs, vec!["() => count()"]);
    let r = transform_expression_container(&container(Some(Expression::Other(sp(0, 7)))), source, false).unwrap();
    assert_eq!(r.exprs, vec!["count()"]);
    let s = transform_spread_child(sp(5, 6));
    assert_eq!(s.exprs, vec!["\"/* spread child */\""]);
}

#[test]
fn fragments() {
    let source = "x";
    let expr_child = JsxChild::ExpressionContainer(container(Some(Expression::Other(sp(0, 1)))));
    let frag = JsxFragment { children: vec![expr_child], span: sp(0, 9) };
    let empty = transform_fragment(&frag, vec![]);
    assert!(empty.exprs.is_empty() && empty.template.is_empty() && empty.span == sp(0, 9));

    let single = transform_expression_container(&container(Some(Expression::Other(sp(0, 1)))), source, false).unwrap();
    let r = transform_fragment(&frag, vec![single]);
    assert!(r.needs_memo);
    let mut ctx = BlockContext::new();
    assert_eq!(build_dom_output_expr(&r, &mut ctx), "memo(x)");

    let texts = JsxFragment { children: vec![], span: sp(0, 9) };
    let r = transform_fragment(&texts, vec![transform_text(&text("a")).unwrap(), transform_text(&text("b")).unwrap()]);
    assert!(r.text);
    assert_eq!(r.template, "ab");

    let mut el = bare_result(sp(0, 0));
    el.template = "<p></p>".to_string();
    let r = transform_fragment(&texts, vec![transform_text(&text("a")).unwrap(), el]);
    assert!(!r.text);
    assert_eq!(r.child_results.len(), 2);
    assert_eq!(
        build_dom_output_expr(&r, &mut ctx),
        "[\"a\", (() => { const _el$ = _tmpl$1.cloneNode(true); return _el$; })()]"
    );
}
