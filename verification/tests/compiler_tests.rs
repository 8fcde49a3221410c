use solid_jsx_oxc::dom::{
    child_path, is_single_dynamic_child, is_valid_prop_identifier, BlockContext, TransformInfo,
};
use solid_jsx_oxc::jsx::{
    ImportDeclaration, ImportDeclarationSpecifier, ImportSpecifier,
    Expression, Ident, JsxChild, JsxElement, JsxElementName, JsxExpressionContainer, JsxFragment,
    JsxOpeningElement, JsxText,
};
use solid_jsx_oxc::expression::{escape_html, to_event_name, to_property_name, trim_whitespace};
use solid_jsx_oxc::program::program_prelude;
use solid_jsx_oxc::options::{GenerateMode, JsTransformOptions, TransformOptions};
use solid_jsx_oxc::ssr::{
    escape_value, generate_ssr_code, ssr_attribute, ssr_class_list, ssr_hydration_key, ssr_style,
    format_prop_key, SSRContext, SSRResult, SsrExpression, SsrValueExpr,
};
use solid_jsx_oxc::text::usize_to_decimal;
use solid_jsx_oxc::Span;

// ============ SSR results ============

#[test]
fn ssr_static_only_is_a_string() {
    let mut r = SSRResult::new();
    r.push_static("<div");
    r.push_static(">hello</div>");
    assert_eq!(r.template_parts, vec!["<div>hello</div>"]);
    assert_eq!(r.to_ssr_call(), "\"<div>hello</div>\"");
}

#[test]
fn ssr_dynamic_child_is_escaped() {
    let mut r = SSRResult::new();
    r.push_static("<div>");
    r.push_dynamic("count()", false, false);
    r.push_static("</div>");
    assert_eq!(r.template_parts.len(), r.template_values.len() + 1);
    assert_eq!(r.to_ssr_call(), "ssr`<div>${escape(count())}</div>`");
    assert_eq!(
        r.to_ssr_call_with_hydration(true),
        "ssr`<div><!--#-->${escape(count())}<!--/--></div>`"
    );
}

#[test]
fn ssr_attribute_value_escaped_as_attribute() {
    let mut r = SSRResult::new();
    r.push_static("<div class=\"");
    r.push_dynamic("style()", true, false);
    r.push_static("\">content</div>");
    // Attribute values are never wrapped in hydration markers.
    assert_eq!(
        r.to_ssr_call_with_hydration(true),
        "ssr`<div class=\"${escape(style(), true)}\">content</div>`"
    );
}

#[test]
fn ssr_unescaped_value() {
    let mut r = SSRResult::new();
    r.push_dynamic("ssrHydrationKey()", false, true);
    assert_eq!(r.template_parts, vec!["", ""]);
    assert_eq!(r.to_ssr_call(), "ssr`${ssrHydrationKey()}`");
}

#[test]
fn ssr_dynamic_without_marker() {
    let mut r = SSRResult::new();
    r.push_static("<p>");
    r.push_dynamic_with_marker("x", false, false, false);
    r.push_static("</p>");
    assert_eq!(r.to_ssr_call_with_hydration(true), "ssr`<p>${escape(x)}</p>`");
}

#[test]
fn ssr_merge_joins_parts_and_values() {
    let mut a = SSRResult::new();
    a.push_static("<ul>");
    a.push_dynamic("a()", false, false);
    a.push_static("<li>");
    let mut b = SSRResult::new();
    b.push_static("x");
    b.push_dynamic("b()", false, false);
    b.push_static("</li></ul>");
    a.merge(b);
    assert_eq!(a.template_parts, vec!["<ul>", "<li>x", "</li></ul>"]);
    assert_eq!(a.template_values.len(), 2);
    assert_eq!(a.to_ssr_call(), "ssr`<ul>${escape(a())}<li>x${escape(b())}</li></ul>`");
}

#[test]
fn ssr_merge_into_empty() {
    let mut a = SSRResult::new();
    let mut b = SSRResult::new();
    b.push_static("<br>");
    a.merge(b);
    assert_eq!(a.template_parts, vec!["<br>"]);
    let empty = SSRResult::new();
    a.merge(empty);
    assert_eq!(a.template_parts, vec!["<br>"]);
}

#[test]
fn ssr_expression_string_literal() {
    let mut r = SSRResult::new();
    r.push_static("<a>x</a>");
    match r.to_ssr_expression(false) {
        SsrExpression::StringLiteral(s) => assert_eq!(s, "<a>x</a>"),
        _ => panic!("expected a string literal"),
    }
}

#[test]
fn ssr_expression_tagged_template_with_markers() {
    let mut r = SSRResult::new();
    r.push_static("<div class=\"");
    r.push_dynamic("c()", true, false);
    r.push_static("\">");
    r.push_dynamic("child()", false, false);
    r.push_static("</div>");
    match r.to_ssr_expression(true) {
        SsrExpression::TaggedTemplate { tag, quasis, expressions } => {
            assert_eq!(tag, "ssr");
            let raws: Vec<&str> = quasis.iter().map(|q| q.raw.as_str()).collect();
            assert_eq!(raws, vec!["<div class=\"", "\"><!--#-->", "<!--/--></div>"]);
            let tails: Vec<bool> = quasis.iter().map(|q| q.tail).collect();
            assert_eq!(tails, vec![false, false, true]);
            assert_eq!(expressions.len(), 2);
            assert!(matches!(&expressions[0], SsrValueExpr::EscapeAttr(c) if c == "c()"));
            assert!(matches!(&expressions[1], SsrValueExpr::Escape(c) if c == "child()"));
        }
        _ => panic!("expected a tagged template"),
    }
}

#[test]
fn ssr_context_uids_and_helpers() {
    let mut ctx = SSRContext::new(true);
    assert_eq!(ctx.generate_uid("el"), "_el1");
    assert_eq!(ctx.generate_uid("el"), "_el2");
    assert_eq!(ctx.var_counter, 2);
    ctx.register_helper("escape");
    ctx.register_helper("ssrHydrationKey");
    ctx.register_helper("escape");
    let mut r = SSRResult::new();
    r.push_static("<b>");
    r.push_dynamic("v", false, false);
    r.push_static("</b>");
    assert_eq!(
        generate_ssr_code(&r, &ctx),
        "import { escape, ssrHydrationKey } from \"solid-js/web\";\n\nssr`<b>${escape(v)}</b>`"
    );
}

#[test]
fn ssr_code_without_helpers() {
    let ctx = SSRContext::new(false);
    let mut r = SSRResult::new();
    r.push_static("<i></i>");
    assert_eq!(generate_ssr_code(&r, &ctx), "\"<i></i>\"");
}

#[test]
fn ssr_template_helpers() {
    assert_eq!(escape_value("x", false), "escape(x)");
    assert_eq!(escape_value("x", true), "escape(x, true)");
    assert_eq!(ssr_attribute("disabled", "d()", true), "ssrAttribute(\"disabled\", d(), true)");
    assert_eq!(ssr_attribute("title", "t", false), "ssrAttribute(\"title\", t, false)");
    assert_eq!(ssr_style("s"), "ssrStyle(s)");
    assert_eq!(ssr_class_list("c"), "ssrClassList(c)");
    assert_eq!(ssr_hydration_key(), "ssrHydrationKey()");
}

#[test]
fn decimal_formatting() {
    assert_eq!(usize_to_decimal(0), "0");
    assert_eq!(usize_to_decimal(7), "7");
    assert_eq!(usize_to_decimal(10), "10");
    assert_eq!(usize_to_decimal(1234567), "1234567");
}

// ============ DOM block context ============

#[test]
fn block_context_templates_and_helpers() {
    let mut ctx = BlockContext::new();
    let i0 = ctx.push_template("<div></div>".to_string(), false, Span { start: 0, end: 11 });
    let i1 = ctx.push_template("<svg></svg>".to_string(), true, Span { start: 12, end: 23 });
    assert_eq!((i0, i1), (0, 1));
    assert_eq!(ctx.templates[1].content, "<svg></svg>");
    assert!(ctx.templates[1].is_svg);
    ctx.register_helper("insert");
    ctx.register_helper("template");
    let helpers: Vec<&String> = ctx.helpers.iter().collect();
    assert_eq!(helpers, vec!["template", "insert"]);
    ctx.register_delegate("click");
    ctx.register_delegate("click");
    assert_eq!(ctx.delegates.len(), 1);
    assert_eq!(ctx.generate_uid("el$"), "_el$1");
}

// ============ transform options ============

#[test]
fn solid_default_options() {
    let o = TransformOptions::solid_defaults();
    assert_eq!(o.module_name, "solid-js/web");
    assert!(o.generate == GenerateMode::Dom);
    assert!(o.delegate_events);
    assert!(o.wrap_conditionals);
    assert!(o.context_to_custom_elements);
    assert!(!o.hydratable);
    assert_eq!(o.built_ins.len(), 10);
    assert_eq!(o.built_ins[0], "For");
    assert_eq!(o.effect_wrapper, "effect");
    assert_eq!(o.memo_wrapper, "memo");
    assert_eq!(o.filename, "input.jsx");
    assert_eq!(o.static_marker, "@once");
}

#[test]
fn options_collect_templates_and_helpers() {
    let mut o = TransformOptions::solid_defaults();
    assert_eq!(o.push_template("<a></a>".to_string(), false), 0);
    assert_eq!(o.push_template("<b></b>".to_string(), false), 1);
    o.register_helper("insert");
    o.register_helper("insert");
    o.register_delegate("click");
    assert!(o.helpers.len() == 1 && o.helpers.contains("insert"));
    assert!(o.delegates.len() == 1 && o.delegates.contains("click"));
    let d = TransformOptions::default();
    assert!(d.generate == GenerateMode::Dom);
    assert!(!d.delegate_events);
}

#[test]
fn js_options_conversion() {
    let js = JsTransformOptions {
        module_name: Some("other".to_string()),
        generate: Some("ssr".to_string()),
        hydratable: Some(true),
        delegate_events: None,
        wrap_conditionals: Some(false),
        context_to_custom_elements: None,
        filename: Some("a.tsx".to_string()),
        source_map: None,
    };
    let o = js.to_transform_options();
    assert!(o.generate == GenerateMode::Ssr);
    assert!(o.hydratable);
    assert!(o.delegate_events);
    assert!(!o.wrap_conditionals);
    assert_eq!(o.filename, "a.tsx");
    assert_eq!(o.module_name, "other");
    let d = JsTransformOptions::default().to_transform_options();
    assert_eq!(d.module_name, "solid-js/web");
    assert!(d.generate == GenerateMode::Dom);
    assert_eq!(d.filename, "input.jsx");
    let u = JsTransformOptions { generate: Some("universal".to_string()), ..JsTransformOptions::default() };
    assert!(u.to_transform_options().generate == GenerateMode::Universal);
}

// ============ text utilities ============

#[test]
fn escape_html_cases() {
    assert_eq!(escape_html("a < b & c > d", false), "a &lt; b &amp; c &gt; d");
    assert_eq!(escape_html("\"q\" 'r'", false), "\"q\" 'r'");
    assert_eq!(escape_html("\"q\" 'r'", true), "&quot;q&quot; &#39;r&#39;");
    assert_eq!(escape_html("plain", true), "plain");
}

#[test]
fn trim_whitespace_cases() {
    assert_eq!(trim_whitespace("  hello   world  "), " hello world ");
    assert_eq!(trim_whitespace("\n    hello\n    world\n  "), "hello world");
    assert_eq!(trim_whitespace(". "), ". ");
    assert_eq!(trim_whitespace("\n   \n"), "");
}

#[test]
fn event_and_property_names() {
    assert_eq!(to_event_name("onClick"), "click");
    assert_eq!(to_event_name("on:click"), "click");
    assert_eq!(to_event_name("onMouseDown"), "mousedown");
    assert_eq!(to_event_name("onDblClick"), "dblclick");
    assert_eq!(to_event_name("on"), "");
    assert_eq!(to_event_name("click"), "click");
    assert_eq!(to_property_name("innerHTML"), "innerHTML");
}

// ============ helpers of the DOM and SSR transforms ============

#[test]
fn prop_identifiers() {
    assert!(is_valid_prop_identifier("onClick"));
    assert!(is_valid_prop_identifier("$store"));
    assert!(is_valid_prop_identifier("_private1"));
    assert!(!is_valid_prop_identifier(""));
    assert!(!is_valid_prop_identifier("1st"));
    assert!(!is_valid_prop_identifier("data-id"));
    assert!(!is_valid_prop_identifier("on:click"));
    assert!(!is_valid_prop_identifier("caf\u{e9}"));
}

#[test]
fn prop_keys_are_quoted_when_needed() {
    assert_eq!(format_prop_key("title"), "title");
    assert_eq!(format_prop_key("data-id"), "\"data-id\"");
    assert_eq!(format_prop_key("on:click"), "\"on:click\"");
    assert_eq!(format_prop_key("a\"b"), "\"a\\\"b\"");
    assert_eq!(format_prop_key("a\\b"), "\"a\\\\b\"");
}

#[test]
fn child_paths() {
    assert_eq!(child_path(&[], 0), vec!["firstChild"]);
    assert_eq!(child_path(&[], 2), vec!["firstChild", "nextSibling", "nextSibling"]);
    let base = vec!["firstChild".to_string()];
    assert_eq!(child_path(&base, 1), vec!["firstChild", "firstChild", "nextSibling"]);
}

fn sp(start: u32, end: u32) -> Span {
    Span { start, end }
}

fn text_child(value: &str) -> JsxChild {
    JsxChild::Text(JsxText { value: value.to_string(), span: sp(0, 1) })
}

fn expr_child(empty: bool) -> JsxChild {
    let expression = if empty {
        None
    } else {
        Some(Expression::Identifier(Ident { name: "count".to_string(), span: sp(0, 5) }))
    };
    JsxChild::ExpressionContainer(JsxExpressionContainer { expression, span: sp(0, 7) })
}

fn fragment_child(children: Vec<JsxChild>) -> JsxChild {
    JsxChild::Fragment(Box::new(JsxFragment { children, span: sp(0, 1) }))
}

fn element_child() -> JsxChild {
    let name = JsxElementName::Identifier(Ident { name: "span".to_string(), span: sp(1, 5) });
    JsxChild::Element(Box::new(JsxElement {
        opening_element: JsxOpeningElement { name, attributes: vec![], span: sp(0, 6) },
        children: vec![],
        closing_element: None,
        span: sp(0, 8),
    }))
}

#[test]
fn single_dynamic_children() {
    assert!(is_single_dynamic_child(&[expr_child(false)]));
    assert!(is_single_dynamic_child(&[text_child("\n  "), expr_child(false), text_child("\n")]));
    assert!(is_single_dynamic_child(&[fragment_child(vec![expr_child(false)])]));
    assert!(is_single_dynamic_child(&[expr_child(true), expr_child(false)]));
    assert!(!is_single_dynamic_child(&[]));
    assert!(!is_single_dynamic_child(&[expr_child(false), expr_child(false)]));
    assert!(!is_single_dynamic_child(&[text_child("a"), expr_child(false)]));
    assert!(!is_single_dynamic_child(&[element_child(), expr_child(false)]));
    assert!(!is_single_dynamic_child(&[fragment_child(vec![])]));
    assert!(!is_single_dynamic_child(&[fragment_child(vec![expr_child(false)]), expr_child(false)]));
}

#[test]
fn transform_info_defaults() {
    let info = TransformInfo::default();
    assert!(!info.top_level && !info.last_element && !info.skip_id);
    assert!(!info.component_child && !info.fragment_child);
    assert!(info.path.is_empty());
    assert!(info.root_id.is_none());
    let top = TransformInfo { top_level: true, last_element: true, ..Default::default() };
    let copy = top.clone();
    assert!(copy.top_level && copy.last_element);
}

// ============ program prelude ============

fn import_decl(source: &str, is_type: bool, locals: &[&str]) -> solid_jsx_oxc::jsx::Statement {
    let specifiers = locals
        .iter()
        .map(|n| {
            ImportDeclarationSpecifier::ImportSpecifier(ImportSpecifier {
                imported: n.to_string(),
                local: n.to_string(),
                is_type: false,
                span: sp(0, 1),
            })
        })
        .collect();
    solid_jsx_oxc::jsx::Statement::Import(ImportDeclaration {
        source: source.to_string(),
        is_type,
        specifiers: Some(specifiers),
        span: sp(0, 1),
    })
}

#[test]
fn dom_prelude_imports_templates_and_delegation() {
    let program = solid_jsx_oxc::jsx::Program {
        body: vec![
            import_decl("solid-js", false, &["createSignal", "insert"]),
            import_decl("solid-js/web", true, &["template"]),
            import_decl("solid-js/web", false, &["render"]),
        ],
        span: sp(0, 1),
    };
    let mut ctx = BlockContext::new();
    ctx.push_template("<div></div>".to_string(), false, sp(0, 1));
    ctx.push_template("<svg></svg>".to_string(), true, sp(0, 1));
    ctx.register_helper("insert");
    ctx.register_delegate("click");
    let p = program_prelude(&mut ctx, &program, "solid-js/web");
    assert_eq!(p.import_names, vec!["template", "delegateEvents"]);
    assert_eq!(p.extend_import, Some(2));
    assert_eq!(p.templates.len(), 2);
    assert_eq!(p.templates[0].name, "_tmpl$1");
    assert_eq!(p.templates[1].name, "_tmpl$2");
    assert!(p.templates[1].is_svg);
    assert_eq!(p.delegate_events, Some(vec!["click".to_string()]));

    let bare = solid_jsx_oxc::jsx::Program { body: vec![], span: sp(0, 1) };
    let mut ctx = BlockContext::new();
    ctx.register_helper("insert");
    let p = program_prelude(&mut ctx, &bare, "solid-js/web");
    assert_eq!(p.import_names, vec!["insert"]);
    assert_eq!(p.extend_import, None);
    assert!(p.delegate_events.is_none());
    let mut empty = BlockContext::new();
    let p = program_prelude(&mut empty, &bare, "solid-js/web");
    assert!(p.import_names.is_empty() && p.templates.is_empty() && p.delegate_events.is_none());
}
