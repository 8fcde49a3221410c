use solid_jsx_oxc::dom::BlockContext;
use solid_jsx_oxc::dom_output::{
    build_dom_output_expr, generate_set_attr_expr, Declaration, DynamicBinding, TransformResult,
};
use solid_jsx_oxc::Span;

fn result() -> TransformResult {
    TransformResult {
        span: Span { start: 0, end: 0 },
        template: String::new(),
        template_with_closing_tags: String::new(),
        declarations: vec![],
        exprs: vec![],
        dynamics: vec![],
        post_exprs: vec![],
        is_svg: false,
        has_custom_element: false,
        tag_name: None,
        skip_template: false,
        id: None,
        text: false,
        needs_memo: false,
        child_results: vec![],
    }
}

fn binding(key: &str, is_svg: bool) -> DynamicBinding {
    DynamicBinding {
        elem: "_el$".to_string(),
        key: key.to_string(),
        value: "v()".to_string(),
        is_svg,
        is_ce: false,
        tag_name: "div".to_string(),
    }
}

fn helpers(ctx: &BlockContext) -> Vec<String> {
    ctx.helpers.iter().cloned().collect()
}

#[test]
fn set_attr_forms() {
    assert_eq!(generate_set_attr_expr(&binding("class", false)), "_el$.className = v()");
    assert_eq!(generate_set_attr_expr(&binding("className", true)), "_el$.setAttribute(\"class\", v())");
    assert_eq!(generate_set_attr_expr(&binding("style", false)), "style(_el$, v())");
    assert_eq!(generate_set_attr_expr(&binding("classList", false)), "classList(_el$, v())");
    assert_eq!(generate_set_attr_expr(&binding("textContent", false)), "_el$.data = v()");
    assert_eq!(generate_set_attr_expr(&binding("value", false)), "_el$.value = v()");
    assert_eq!(generate_set_attr_expr(&binding("title", false)), "_el$.setAttribute(\"title\", v())");
}

#[test]
fn template_result_clones_and_wires() {
    let mut r = result();
    r.template = "<div></div>".to_string();
    r.declarations = vec![Declaration { name: "_el$2".to_string(), init: "_el$.firstChild".to_string() }];
    r.exprs = vec!["insert(_el$, x)".to_string()];
    r.dynamics = vec![binding("class", false), binding("style", false)];
    r.post_exprs = vec!["ref(_el$)".to_string()];
    let mut ctx = BlockContext::new();
    let code = build_dom_output_expr(&r, &mut ctx);
    assert_eq!(
        code,
        "(() => { const _el$ = _tmpl$1.cloneNode(true); const _el$2 = _el$.firstChild; \
         insert(_el$, x); effect(() => _el$.className = v()); effect(() => style(_el$, v())); \
         ref(_el$); return _el$; })()"
    );
    assert_eq!(ctx.templates.len(), 1);
    assert_eq!(ctx.templates[0].content, "<div></div>");
    assert!(!ctx.templates[0].is_svg);
    assert_eq!(helpers(&ctx), vec!["template", "effect", "setAttribute", "style"]);
}

#[test]
fn template_result_uses_its_id() {
    let mut r = result();
    r.template = "<svg></svg>".to_string();
    r.is_svg = true;
    r.id = Some("_el$5".to_string());
    let mut ctx = BlockContext::new();
    ctx.push_template("<p></p>".to_string(), false, Span { start: 0, end: 0 });
    let code = build_dom_output_expr(&r, &mut ctx);
    assert_eq!(code, "(() => { const _el$5 = _tmpl$2.cloneNode(true); return _el$5; })()");
    assert_eq!(ctx.templates.len(), 2);
    assert!(ctx.templates[1].is_svg);
}

#[test]
fn skipped_template_renders_its_expressions() {
    let mut r = result();
    r.template = "<div></div>".to_string();
    r.skip_template = true;
    r.exprs = vec!["a()".to_string()];
    let mut ctx = BlockContext::new();
    assert_eq!(build_dom_output_expr(&r, &mut ctx), "a()");
    assert!(ctx.templates.is_empty());
    assert!(helpers(&ctx).is_empty());
}

#[test]
fn fragment_children_render_as_an_array() {
    let mut text = result();
    text.text = true;
    text.template = "hello".to_string();
    let mut first = result();
    first.template = "<b></b>".to_string();
    let mut second = result();
    second.template = "<i></i>".to_string();
    let mut r = result();
    r.template = "<ignored></ignored>".to_string();
    r.child_results = vec![text, first, second];
    let mut ctx = BlockContext::new();
    let code = build_dom_output_expr(&r, &mut ctx);
    assert_eq!(
        code,
        "[\"hello\", (() => { const _el$ = _tmpl$1.cloneNode(true); return _el$; })(), \
         (() => { const _el$ = _tmpl$2.cloneNode(true); return _el$; })()]"
    );
    assert_eq!(ctx.templates.len(), 2);
    assert_eq!(ctx.templates[1].content, "<i></i>");
}

#[test]
fn expression_results() {
    let mut memo = result();
    memo.exprs = vec!["a".to_string(), "b".to_string()];
    memo.needs_memo = true;
    let mut ctx = BlockContext::new();
    assert_eq!(build_dom_output_expr(&memo, &mut ctx), "memo(a, b)");
    assert_eq!(helpers(&ctx), vec!["memo"]);

    let mut seq = result();
    seq.exprs = vec!["a".to_string(), "b".to_string()];
    assert_eq!(build_dom_output_expr(&seq, &mut ctx), "(a, b)");

    let empty = result();
    assert_eq!(build_dom_output_expr(&empty, &mut ctx), "\"\"");
    assert_eq!(helpers(&ctx), vec!["memo"]);
    assert!(ctx.templates.is_empty());
}
