use solid_jsx_oxc::jsx::{Expression, JsxExpressionContainer, JsxText};
use solid_jsx_oxc::ssr::SSRContext;
use solid_jsx_oxc::ssr_node::{transform_expression_container, transform_fragment, transform_spread_child, transform_text};
use solid_jsx_oxc::Span;

fn sp(start: u32, end: u32) -> Span {
    Span { start, end }
}

#[test]
fn ssr_text_and_expressions() {
    assert!(transform_text(&JsxText { value: " \n ".to_string(), span: sp(0, 0) }).is_none());
    let t = transform_text(&JsxText { value: "a & b".to_string(), span: sp(0, 0) }).unwrap();
    assert_eq!(t.to_ssr_call(), "\"a &amp; b\"");

    let source = "name() items";
    let mut ctx = SSRContext::new(false);
    let empty = JsxExpressionContainer { expression: None, span: sp(0, 0) };
    assert!(transform_expression_container(&empty, &mut ctx, source).is_none());
    assert!(ctx.helpers.is_empty());
    let c = JsxExpressionContainer { expression: Some(Expression::Other(sp(0, 6))), span: sp(0, 0) };
    let e = transform_expression_container(&c, &mut ctx, source).unwrap();
    assert_eq!(e.to_ssr_call(), "ssr`${escape(name())}`");
    let s = transform_spread_child(sp(7, 12), &mut ctx, source);
    assert_eq!(s.template_values[0].code, "[].concat(items).join(\"\")");
    assert!(s.template_values[0].skip_escape);
    assert_eq!(ctx.helpers.iter().cloned().collect::<Vec<_>>(), vec!["escape"]);

    let merged = transform_fragment(vec![t, e]);
    assert_eq!(merged.to_ssr_call(), "ssr`a &amp; b${escape(name())}`");
    assert!(transform_fragment(vec![]).template_parts.is_empty());
}
