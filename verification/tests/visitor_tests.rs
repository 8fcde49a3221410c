use solid_jsx_oxc::diagnostic::DiagnosticSeverity;
use solid_jsx_oxc::jsx::{
    Argument, CallExpression, Expression, FormalParameter, FormalParameters, Function,
    FunctionBody, Ident, ImportDeclaration, ImportDeclarationSpecifier, ImportSpecifier,
    JsxAttribute, JsxAttributeItem, JsxAttributeName, JsxAttributeValue, JsxChild, JsxElement,
    JsxElementName, JsxExpressionContainer, JsxFragment, JsxMemberExpression, JsxMemberObject,
    JsxOpeningElement, JsxText, NamespacedName, ObjectExpression, ObjectProperty,
    ObjectPropertyKind, Program, PropertyKey, Statement, StaticMemberExpression, StringLiteral,
};
use solid_jsx_oxc::semantic_visitor::{
    lint_with_semantic, lint_with_semantic_config, SemanticEvent, SemanticLintRunner,
    SemanticRulesConfig,
};
use solid_jsx_oxc::visitor::{JsxNode, LintResult, LintRunner, VisitorLintContext};
use solid_jsx_oxc::Diagnostic;
use solid_jsx_oxc::{lint, lint_with_config, RulesConfig, SourceKind, Span};

fn sp(start: u32, end: u32) -> Span {
    Span { start, end }
}

fn ident(name: &str, start: u32) -> Ident {
    Ident { name: name.to_string(), span: sp(start, start + name.len() as u32) }
}

fn element_name(name: &str, start: u32) -> JsxElementName {
    if name.chars().next().map_or(false, |c| c.is_uppercase()) {
        JsxElementName::IdentifierReference(ident(name, start))
    } else {
        JsxElementName::Identifier(ident(name, start))
    }
}

fn string_value(value: &str, start: u32) -> Option<JsxAttributeValue> {
    Some(JsxAttributeValue::StringLiteral(StringLiteral {
        value: value.to_string(),
        span: sp(start, start + value.len() as u32 + 2),
    }))
}

fn expr_value(e: Expression, start: u32, end: u32) -> Option<JsxAttributeValue> {
    Some(JsxAttributeValue::ExpressionContainer(JsxExpressionContainer {
        expression: Some(e),
        span: sp(start, end),
    }))
}

fn attr(name: &str, value: Option<JsxAttributeValue>, start: u32, end: u32) -> JsxAttributeItem {
    JsxAttributeItem::Attribute(JsxAttribute {
        name: JsxAttributeName::Identifier(ident(name, start)),
        value,
        span: sp(start, end),
    })
}

fn ns_attr(ns: &str, name: &str, start: u32, end: u32) -> JsxAttributeItem {
    let name_start = start + ns.len() as u32 + 1;
    JsxAttributeItem::Attribute(JsxAttribute {
        name: JsxAttributeName::NamespacedName(NamespacedName {
            namespace: ident(ns, start),
            name: ident(name, name_start),
            span: sp(start, name_start + name.len() as u32),
        }),
        value: None,
        span: sp(start, end),
    })
}

fn opening(name: &str, attributes: Vec<JsxAttributeItem>, start: u32, end: u32) -> JsxOpeningElement {
    JsxOpeningElement { name: element_name(name, start + 1), attributes, span: sp(start, end) }
}

fn element(opening: JsxOpeningElement, children: Vec<JsxChild>, closing: Option<Span>) -> JsxElement {
    let start = opening.span.start;
    let end = match closing {
        Some(c) => c.end,
        None => opening.span.end,
    };
    JsxElement { opening_element: opening, children, closing_element: closing, span: sp(start, end) }
}

fn text(value: &str, start: u32) -> JsxChild {
    JsxChild::Text(JsxText { value: value.to_string(), span: sp(start, start + value.len() as u32) })
}

fn id_expr(name: &str, start: u32) -> Expression {
    Expression::Identifier(ident(name, start))
}

/// The nodes a traversal meets for an element built by `make`, whose
/// children are elements built by `children`.
fn element_nodes(make: &dyn Fn() -> JsxElement) -> Vec<JsxNode> {
    vec![JsxNode::Element(make()), JsxNode::OpeningElement(make().opening_element)]
}

// ============ lint runner ============

#[test]
fn test_lint_clean_code() {
    let source = r#"<div class="foo" />"#;
    let make = || element(opening("div", vec![attr("class", string_value("foo", 11), 5, 16)], 0, 19), vec![], None);
    let result = lint(source, &element_nodes(&make));
    assert!(result.diagnostics.is_empty());
}

#[test]
fn test_lint_duplicate_props() {
    let source = r#"<div class="foo" class="bar" />"#;
    let make = || {
        element(
            opening("div", vec![attr("class", string_value("foo", 11), 5, 16), attr("class", string_value("bar", 23), 17, 28)], 0, 31),
            vec![],
            None,
        )
    };
    let result = lint(source, &element_nodes(&make));
    assert_eq!(result.diagnostics.len(), 1);
    assert!(result.diagnostics[0].message.contains("class"));
}

#[test]
fn test_lint_react_props() {
    let source = r#"<div className="foo" />"#;
    let make = || element(opening("div", vec![attr("className", string_value("foo", 15), 5, 20)], 0, 23), vec![], None);
    let result = lint(source, &element_nodes(&make));
    assert_eq!(result.diagnostics.len(), 1);
    assert!(result.diagnostics[0].message.contains("class"));
}

#[test]
fn test_lint_self_closing() {
    let source = r#"<div></div>"#;
    let make = || element(opening("div", vec![], 0, 5), vec![], Some(sp(5, 11)));
    let result = lint(source, &element_nodes(&make));
    assert_eq!(result.diagnostics.len(), 1);
    assert!(result.diagnostics[0].message.contains("self-closing"));
}

fn style_object() -> Expression {
    Expression::Object(ObjectExpression {
        properties: vec![ObjectPropertyKind::Property(ObjectProperty {
            key: PropertyKey::StaticIdentifier(ident("fontSize", 14)),
            value: Expression::StringLiteral(StringLiteral { value: "12px".to_string(), span: sp(24, 30) }),
            span: sp(14, 30),
        })],
        span: sp(12, 32),
    })
}

#[test]
fn test_lint_style_prop() {
    let source = r#"<div style={{ fontSize: "12px" }} />"#;
    let make = || element(opening("div", vec![attr("style", expr_value(style_object(), 11, 33), 5, 33)], 0, 36), vec![], None);
    let result = lint(source, &element_nodes(&make));
    assert_eq!(result.diagnostics.len(), 1);
    assert!(result.diagnostics[0].message.contains("font-size"));
}

#[test]
fn test_lint_used_vars() {
    let source = r#"<MyComponent use:tooltip />"#;
    let make = || element(opening("MyComponent", vec![ns_attr("use", "tooltip", 13, 24)], 0, 27), vec![], None);
    let result = lint(source, &element_nodes(&make));
    assert_eq!(result.used_vars, vec!["MyComponent", "tooltip"]);
}

#[test]
fn test_lint_with_disabled_rules() {
    let config = RulesConfig::none().with_no_react_specific_props(true);
    let source = r#"<div className="foo" class="bar" />"#;
    let make = || {
        element(
            opening("div", vec![attr("className", string_value("foo", 15), 5, 20), attr("class", string_value("bar", 27), 21, 32)], 0, 35),
            vec![],
            None,
        )
    };
    let result = lint_with_config(source, SourceKind::jsx(), &element_nodes(&make), config);
    // Only className warning, not duplicate class (that rule is disabled)
    assert_eq!(result.diagnostics.len(), 1);
    assert!(result.diagnostics[0].message.contains("className"));
}

#[test]
fn test_lint_nested_elements() {
    let source = r#"<div className="outer"><span className="inner"></span></div>"#;
    let span_el = || element(opening("span", vec![attr("className", string_value("inner", 39), 29, 46)], 23, 47), vec![], Some(sp(47, 54)));
    let div_el = || {
        element(
            opening("div", vec![attr("className", string_value("outer", 15), 5, 22)], 0, 23),
            vec![JsxChild::Element(Box::new(span_el()))],
            Some(sp(54, 60)),
        )
    };
    let nodes = vec![
        JsxNode::Element(div_el()),
        JsxNode::OpeningElement(div_el().opening_element),
        JsxNode::Element(span_el()),
        JsxNode::OpeningElement(span_el().opening_element),
    ];
    let result = lint(source, &nodes);
    // Should find className issues in both elements, plus self-closing for span
    assert!(result.diagnostics.len() >= 2);
}

fn map_call() -> Expression {
    // items.map(x => <div />)
    let callee = Expression::StaticMember(Box::new(StaticMemberExpression {
        object: id_expr("items", 3),
        property: ident("map", 9),
        span: sp(3, 12),
    }));
    let func = Function {
        id: None,
        params: FormalParameters {
            items: vec![FormalParameter { is_destructuring: false, span: sp(13, 14) }],
            has_rest: false,
            span: sp(13, 14),
        },
        body: Some(FunctionBody {
            statements: vec![Statement::Expression(Expression::JsxElement(Box::new(inner_div())), sp(18, 25))],
            span: sp(18, 25),
        }),
        expression: true,
        span: sp(13, 25),
    };
    Expression::Call(Box::new(CallExpression {
        callee,
        arguments: vec![Argument::Expression(Expression::Arrow(Box::new(func)))],
        span: sp(3, 26),
    }))
}

fn inner_div() -> JsxElement {
    element(opening("div", vec![], 18, 25), vec![], None)
}

#[test]
fn test_lint_fragment() {
    let source = r#"<>{items.map(x => <div />)}</>"#;
    let fragment = JsxFragment {
        children: vec![JsxChild::ExpressionContainer(JsxExpressionContainer {
            expression: Some(map_call()),
            span: sp(2, 27),
        })],
        span: sp(0, 30),
    };
    let nodes = vec![
        JsxNode::Fragment(fragment),
        JsxNode::Element(inner_div()),
        JsxNode::OpeningElement(inner_div().opening_element),
    ];
    let result = lint(source, &nodes);
    assert_eq!(result.diagnostics.len(), 1);
    assert!(result.diagnostics[0].message.contains("For"));
}

#[test]
fn test_result_counts() {
    let source = r#"<div className="a" className="b" />"#;
    let make = || {
        element(
            opening("div", vec![attr("className", string_value("a", 15), 5, 18), attr("className", string_value("b", 29), 19, 32)], 0, 35),
            vec![],
            None,
        )
    };
    let result = lint(source, &element_nodes(&make));
    assert!(result.has_warnings());
    assert!(!result.has_errors());
    assert_eq!(result.error_count(), 0);
    assert!(result.warning_count() > 0);
}

#[test]
fn disabled_rules_report_nothing() {
    let source = r#"<div className="a" className="b" style="x"></div>"#;
    let make = || {
        element(
            opening(
                "div",
                vec![
                    attr("className", string_value("a", 15), 5, 18),
                    attr("className", string_value("b", 29), 19, 32),
                    attr("style", string_value("x", 39), 33, 42),
                ],
                0,
                43,
            ),
            vec![],
            Some(sp(43, 49)),
        )
    };
    let result = lint_with_config(source, SourceKind::jsx(), &element_nodes(&make), RulesConfig::none());
    assert!(result.diagnostics.is_empty());
    assert!(result.used_vars.is_empty());
}

#[test]
fn runner_visits_nodes_in_order() {
    let source = r#"<div className="a"></div>"#;
    let make = || element(opening("div", vec![attr("className", string_value("a", 15), 5, 18)], 0, 19), vec![], Some(sp(19, 25)));
    let ctx = VisitorLintContext::new(source, SourceKind::jsx());
    assert_eq!(ctx.source_text(), source);
    let mut runner = LintRunner::new(ctx, RulesConfig::new());
    runner.check_jsx_element(&make());
    runner.check_jsx_opening_element(&make().opening_element);
    let result = runner.run(&[]);
    // The element-level rule (self-closing) runs before the opening-element
    // rule (no-react-specific-props).
    assert_eq!(result.diagnostics.len(), 2);
    assert_eq!(result.diagnostics[0].rule, "self-closing-comp");
    assert_eq!(result.diagnostics[1].rule, "no-react-specific-props");
}

#[test]
fn result_counts_errors() {
    let result = LintResult {
        diagnostics: vec![
            Diagnostic::error("a", sp(0, 1), "x"),
            Diagnostic::warning("b", sp(0, 1), "y"),
            Diagnostic::warning("c", sp(0, 1), "z"),
            Diagnostic::new("d", sp(0, 1), "w").with_severity(DiagnosticSeverity::Info),
        ],
        used_vars: vec![],
    };
    assert!(result.has_errors());
    assert!(result.has_warnings());
    assert_eq!(result.error_count(), 1);
    assert_eq!(result.warning_count(), 2);
}

// ============ scope-aware rules ============

fn import(source: &str, names: &[&str]) -> ImportDeclaration {
    ImportDeclaration {
        source: source.to_string(),
        is_type: false,
        specifiers: Some(
            names
                .iter()
                .map(|n| {
                    ImportDeclarationSpecifier::ImportSpecifier(ImportSpecifier {
                        imported: n.to_string(),
                        local: n.to_string(),
                        is_type: false,
                        span: sp(9, 13),
                    })
                })
                .collect(),
        ),
        span: sp(0, 40),
    }
}

fn program(imports: Vec<ImportDeclaration>) -> Program {
    Program { body: imports.into_iter().map(Statement::Import).collect(), span: sp(0, 200) }
}

fn func(name: &str, start: u32, body: Vec<Statement>) -> Function {
    Function {
        id: Some(ident(name, start + 9)),
        params: FormalParameters { items: vec![], has_rest: false, span: sp(start + 12, start + 14) },
        body: Some(FunctionBody { statements: body, span: sp(start + 15, start + 80) }),
        expression: false,
        span: sp(start, start + 80),
    }
}

fn return_jsx(e: JsxElement) -> Statement {
    let s = e.span;
    Statement::Return(Some(Expression::JsxElement(Box::new(e))), s)
}

fn show_element() -> JsxElement {
    // <Show when={true}>hello</Show>
    element(
        opening("Show", vec![attr("when", expr_value(Expression::Other(sp(60, 64)), 59, 65), 54, 65)], 48, 66),
        vec![text("hello", 66)],
        Some(sp(71, 78)),
    )
}

fn semantic(events: Vec<SemanticEvent>, prog: Program) -> solid_jsx_oxc::semantic_visitor::SemanticLintResult {
    lint_with_semantic("", SourceKind::jsx(), &prog, &events)
}

#[test]
fn test_jsx_uses_vars() {
    // import { Show } from 'solid-js';
    // function App() { return <Show when={true}>hello</Show>; }
    let events = vec![
        SemanticEvent::Function(func("App", 33, vec![return_jsx(show_element())]), Some(1)),
        SemanticEvent::EnterJsx,
        SemanticEvent::OpeningElement(show_element().opening_element, vec![Some(0)]),
        SemanticEvent::ExitJsx,
    ];
    let result = semantic(events, program(vec![import("solid-js", &["Show"])]));
    assert!(!result.used_symbols.is_empty());
}

#[test]
fn test_jsx_no_undef() {
    // function App() { return <UndefinedComponent />; }
    let make = || element(opening("UndefinedComponent", vec![], 24, 46), vec![], None);
    let events = vec![
        SemanticEvent::Function(func("App", 0, vec![return_jsx(make())]), Some(0)),
        SemanticEvent::EnterJsx,
        SemanticEvent::OpeningElement(make().opening_element, vec![None]),
        SemanticEvent::ExitJsx,
    ];
    let result = semantic(events, program(vec![]));
    assert!(result.diagnostics.iter().any(|d| d.message.contains("not defined")));
}

#[test]
fn test_auto_import_suggestion() {
    // function App() { return <Show when={true}>hello</Show>; }
    let events = vec![
        SemanticEvent::Function(func("App", 0, vec![return_jsx(show_element())]), Some(0)),
        SemanticEvent::EnterJsx,
        SemanticEvent::OpeningElement(show_element().opening_element, vec![None]),
        SemanticEvent::ExitJsx,
    ];
    let result = semantic(events, program(vec![]));
    assert!(result.diagnostics.iter().any(|d| d.message.contains("solid-js")));
}

#[test]
fn test_component_detection() {
    // function Button() { return <button>Click me</button>; }
    // function App() { return <Button />; }
    let button_el = || element(opening("button", vec![], 27, 35), vec![text("Click me", 35)], Some(sp(43, 52)));
    let use_el = || element(opening("Button", vec![], 80, 90), vec![], None);
    let events = vec![
        SemanticEvent::Function(func("Button", 0, vec![return_jsx(button_el())]), Some(0)),
        SemanticEvent::EnterJsx,
        SemanticEvent::OpeningElement(button_el().opening_element, vec![]),
        SemanticEvent::ExitJsx,
        SemanticEvent::Function(func("App", 56, vec![return_jsx(use_el())]), Some(1)),
        SemanticEvent::EnterJsx,
        SemanticEvent::OpeningElement(use_el().opening_element, vec![Some(0)]),
        SemanticEvent::ExitJsx,
    ];
    let result = semantic(events, program(vec![]));
    // Button should be marked as a component because it's used in JSX
    assert!(!result.component_symbols.is_empty());
}

#[test]
fn test_jsx_member_expression() {
    // const Icons = { Star: () => <svg /> };
    // function App() { return <Icons.Star />; }
    let svg = || element(opening("svg", vec![], 28, 35), vec![], None);
    let star = Function {
        id: None,
        params: FormalParameters { items: vec![], has_rest: false, span: sp(22, 24) },
        body: Some(FunctionBody {
            statements: vec![Statement::Expression(Expression::JsxElement(Box::new(svg())), sp(28, 35))],
            span: sp(28, 35),
        }),
        expression: true,
        span: sp(22, 35),
    };
    let member = || JsxOpeningElement {
        name: JsxElementName::MemberExpression(JsxMemberExpression {
            object: JsxMemberObject::IdentifierReference(ident("Icons", 65)),
            property: ident("Star", 71),
            span: sp(65, 75),
        }),
        attributes: vec![],
        span: sp(64, 78),
    };
    let app_el = JsxElement { opening_element: member(), children: vec![], closing_element: None, span: sp(64, 78) };
    let events = vec![
        SemanticEvent::Arrow(star),
        SemanticEvent::EnterJsx,
        SemanticEvent::OpeningElement(svg().opening_element, vec![]),
        SemanticEvent::ExitJsx,
        SemanticEvent::Function(func("App", 40, vec![return_jsx(app_el)]), Some(1)),
        SemanticEvent::EnterJsx,
        SemanticEvent::OpeningElement(member(), vec![Some(0)]),
        SemanticEvent::ExitJsx,
    ];
    let result = semantic(events, program(vec![]));
    // Icons should be marked as used
    assert!(!result.used_symbols.is_empty());
}

#[test]
fn test_custom_directive_undefined() {
    // function App() { return <div use:undefinedDirective />; }
    let make = || element(opening("div", vec![ns_attr("use", "undefinedDirective", 29, 51)], 24, 54), vec![], None);
    let events = vec![
        SemanticEvent::Function(func("App", 0, vec![return_jsx(make())]), Some(0)),
        SemanticEvent::EnterJsx,
        SemanticEvent::OpeningElement(make().opening_element, vec![None]),
        SemanticEvent::ExitJsx,
    ];
    let result = semantic(events, program(vec![]));
    assert!(result.diagnostics.iter().any(|d| d.message.contains("not defined")));
}

#[test]
fn test_custom_directive_defined() {
    // function myDirective(el) { el.focus(); }
    // function App() { return <input use:myDirective />; }
    let my_directive = Function {
        id: Some(ident("myDirective", 9)),
        params: FormalParameters {
            items: vec![FormalParameter { is_destructuring: false, span: sp(21, 23) }],
            has_rest: false,
            span: sp(20, 24),
        },
        body: Some(FunctionBody { statements: vec![Statement::Expression(Expression::Other(sp(27, 37)), sp(27, 38))], span: sp(25, 40) }),
        expression: false,
        span: sp(0, 40),
    };
    let make = || element(opening("input", vec![ns_attr("use", "myDirective", 72, 87)], 65, 90), vec![], None);
    let focus = CallExpression {
        callee: Expression::StaticMember(Box::new(StaticMemberExpression {
            object: id_expr("el", 27),
            property: ident("focus", 30),
            span: sp(27, 35),
        })),
        arguments: vec![],
        span: sp(27, 37),
    };
    let events = vec![
        SemanticEvent::Function(my_directive, Some(0)),
        SemanticEvent::Call(focus),
        SemanticEvent::Function(func("App", 41, vec![return_jsx(make())]), Some(2)),
        SemanticEvent::EnterJsx,
        SemanticEvent::OpeningElement(make().opening_element, vec![Some(0)]),
        SemanticEvent::ExitJsx,
    ];
    let result = semantic(events, program(vec![]));
    // Should not report undefined for myDirective
    assert!(!result
        .diagnostics
        .iter()
        .any(|d| d.message.contains("myDirective") && d.message.contains("not defined")));
}

#[test]
fn test_dom_elements_not_flagged() {
    // function App() { return <div><span>text</span></div>; }
    let span_el = || element(opening("span", vec![], 29, 35), vec![text("text", 35)], Some(sp(39, 46)));
    let div_el = || element(opening("div", vec![], 24, 29), vec![JsxChild::Element(Box::new(span_el()))], Some(sp(46, 52)));
    let events = vec![
        SemanticEvent::Function(func("App", 0, vec![return_jsx(div_el())]), Some(0)),
        SemanticEvent::EnterJsx,
        SemanticEvent::OpeningElement(div_el().opening_element, vec![]),
        SemanticEvent::EnterJsx,
        SemanticEvent::OpeningElement(span_el().opening_element, vec![]),
        SemanticEvent::ExitJsx,
        SemanticEvent::ExitJsx,
    ];
    let result = semantic(events, program(vec![]));
    // DOM elements should not be flagged as undefined
    assert!(!result.diagnostics.iter().any(|d| d.message.contains("div")));
    assert!(!result.diagnostics.iter().any(|d| d.message.contains("span")));
}

#[test]
fn test_multiple_solid_control_flow() {
    // function App() { return (<Show when={true}><For each={items}>{(item) => <div>{item}</div>}</For></Show>); }
    let for_el = || element(opening("For", vec![attr("each", expr_value(id_expr("items", 48), 47, 54), 42, 54)], 37, 55), vec![], Some(sp(90, 96)));
    let show_el = || {
        element(
            opening("Show", vec![attr("when", expr_value(Expression::Other(sp(32, 36)), 31, 37), 26, 37)], 20, 38),
            vec![JsxChild::Element(Box::new(for_el()))],
            Some(sp(96, 103)),
        )
    };
    let inner = Function {
        id: None,
        params: FormalParameters {
            items: vec![FormalParameter { is_destructuring: false, span: sp(57, 61) }],
            has_rest: false,
            span: sp(56, 62),
        },
        body: Some(FunctionBody { statements: vec![], span: sp(66, 88) }),
        expression: true,
        span: sp(56, 88),
    };
    let div_el = || element(opening("div", vec![], 66, 71), vec![], Some(sp(77, 83)));
    let events = vec![
        SemanticEvent::Function(func("App", 0, vec![return_jsx(show_el())]), Some(0)),
        SemanticEvent::EnterJsx,
        SemanticEvent::OpeningElement(show_el().opening_element, vec![None]),
        SemanticEvent::EnterJsx,
        SemanticEvent::OpeningElement(for_el().opening_element, vec![None]),
        SemanticEvent::Arrow(inner),
        SemanticEvent::EnterJsx,
        SemanticEvent::OpeningElement(div_el().opening_element, vec![]),
        SemanticEvent::ExitJsx,
        SemanticEvent::ExitJsx,
        SemanticEvent::ExitJsx,
    ];
    let result = semantic(events, program(vec![]));
    // Should suggest importing Show and For
    let has_import_suggestion = result.diagnostics.iter().any(|d| {
        d.message.contains("solid-js") && (d.message.contains("Show") || d.message.contains("For"))
    });
    assert!(has_import_suggestion);
}

fn create_effect_call(arg: Expression) -> CallExpression {
    CallExpression { callee: id_expr("createEffect", 41), arguments: vec![Argument::Expression(arg)], span: sp(41, 60) }
}

#[test]
fn test_reactivity_non_function_arg() {
    // import { createEffect } from 'solid-js';
    // createEffect(5 + 3);
    let events = vec![SemanticEvent::Call(create_effect_call(Expression::Other(sp(54, 59))))];
    let result = semantic(events, program(vec![import("solid-js", &["createEffect"])]));
    assert!(result
        .diagnostics
        .iter()
        .any(|d| d.message.contains("createEffect") && d.message.contains("function")));
}

#[test]
fn test_reactivity_valid_function_arg() {
    // import { createEffect } from 'solid-js';
    // createEffect(() => console.log('effect'));
    let arrow_fn = || Function {
        id: None,
        params: FormalParameters { items: vec![], has_rest: false, span: sp(54, 56) },
        body: Some(FunctionBody { statements: vec![Statement::Expression(Expression::Other(sp(60, 80)), sp(60, 80))], span: sp(60, 80) }),
        expression: true,
        span: sp(54, 80),
    };
    let events = vec![
        SemanticEvent::Call(create_effect_call(Expression::Arrow(Box::new(arrow_fn())))),
        SemanticEvent::Arrow(arrow_fn()),
    ];
    let result = semantic(events, program(vec![import("solid-js", &["createEffect"])]));
    // Should not warn about function argument
    assert!(!result
        .diagnostics
        .iter()
        .any(|d| d.message.contains("createEffect") && d.message.contains("function")));
}

#[test]
fn test_solid_imports_tracked() {
    // import { createSignal, createEffect, Show } from 'solid-js';
    // import { createStore } from 'solid-js/store';
    let result = semantic(
        vec![],
        program(vec![
            import("solid-js", &["createSignal", "createEffect", "Show"]),
            import("solid-js/store", &["createStore"]),
        ]),
    );
    // No diagnostics expected for just imports
    assert!(result.diagnostics.is_empty());
}

#[test]
fn semantic_rules_disabled_report_nothing() {
    let make = || element(opening("UndefinedComponent", vec![], 24, 46), vec![], None);
    let events = vec![
        SemanticEvent::EnterJsx,
        SemanticEvent::OpeningElement(make().opening_element, vec![None]),
        SemanticEvent::ExitJsx,
        SemanticEvent::Call(create_effect_call(Expression::Other(sp(54, 59)))),
    ];
    let result = lint_with_semantic_config(
        "",
        SourceKind::jsx(),
        &program(vec![]),
        &events,
        SemanticRulesConfig::none(),
    );
    assert!(result.diagnostics.is_empty());
    assert!(result.used_symbols.is_empty());
}

#[test]
fn semantic_undefined_messages() {
    let mut runner = SemanticLintRunner::new("", SourceKind::jsx(), SemanticRulesConfig::all());
    let o = opening("Show", vec![ns_attr("use", "tip", 6, 13)], 0, 16);
    let refs = SemanticLintRunner::opening_refs(&o);
    assert_eq!(refs.len(), 2);
    runner.check_jsx_opening_element(&o, &vec![None, None]);
    let result = runner.run(&program(vec![]), &vec![]);
    assert_eq!(result.diagnostics.len(), 2);
    assert_eq!(result.diagnostics[0].message, "'Show' should be imported from 'solid-js'.");
    assert_eq!(result.diagnostics[0].help.as_deref(), Some("Add: import { Show } from \"solid-js\";"));
    assert_eq!(result.diagnostics[1].message, "'tip' is not defined.");
}

#[test]
fn semantic_component_early_return() {
    // function App() { if (x) return null; return <div />; }
    let div_el = || element(opening("div", vec![], 50, 57), vec![], None);
    let body = vec![
        Statement::Other(sp(17, 36)),
        Statement::Return(None, sp(25, 36)),
        return_jsx(div_el()),
    ];
    let events = vec![SemanticEvent::Function(func("App", 0, body), Some(0))];
    let result = semantic(events, program(vec![]));
    assert_eq!(result.diagnostics.len(), 1);
    assert_eq!(result.diagnostics[0].rule, "components-return-once");
    assert_eq!((result.diagnostics[0].start, result.diagnostics[0].end), (25, 36));
}

// ============ contexts ============

#[test]
fn lint_context_collects_reports() {
    let source = "<div>héllo</div>";
    let mut ctx = solid_jsx_oxc::LintContext::new(source, SourceKind::jsx());
    assert_eq!(ctx.source_text(), source);
    assert!(ctx.is_jsx());
    assert!(!ctx.is_typescript());
    assert!(ctx.semantic().is_none());
    assert!(ctx.diagnostics().is_empty());
    assert_eq!(ctx.span_text(Span { start: 1, end: 4 }), "div");
    assert_eq!(ctx.checked_span_text(Span { start: 5, end: 11 }), Some("héllo".to_string()));
    assert_eq!(ctx.checked_span_text(Span { start: 5, end: 7 }), None);
    assert_eq!(ctx.checked_span_text(Span { start: 10, end: 40 }), None);
    ctx.report(Diagnostic::warning("r", Span { start: 0, end: 5 }, "first"));
    ctx.report(Diagnostic::error("r", Span { start: 5, end: 6 }, "second"));
    assert_eq!(ctx.diagnostics().len(), 2);
    let all = ctx.into_diagnostics();
    assert_eq!(all[0].message, "first");
    assert_eq!(all[1].severity, DiagnosticSeverity::Error);
}

#[test]
fn contexts_carry_a_semantic_analysis() {
    let source = "const x = 1; <div>{x}</div>;";
    let allocator = oxc_allocator::Allocator::default();
    let parsed = oxc_parser::Parser::new(&allocator, source, oxc_span::SourceType::jsx()).parse();
    let built = oxc_semantic::SemanticBuilder::new().build(&parsed.program);
    let semantic = built.semantic;

    let ctx = solid_jsx_oxc::LintContext::new(source, SourceKind::tsx());
    assert!(ctx.semantic().is_none());
    let ctx = ctx.with_semantic(&semantic);
    assert!(ctx.semantic().is_some());
    assert_eq!(ctx.source_text(), source);
    assert!(ctx.is_typescript());

    let vctx = VisitorLintContext::new(source, SourceKind::jsx());
    assert!(vctx.semantic().is_none());
    let vctx = vctx.with_semantic(&semantic);
    assert!(vctx.semantic().is_some());
    assert_eq!(vctx.source_text(), source);
}

#[test]
fn source_kinds() {
    use_kind(SourceKind::jsx(), true, false);
    use_kind(SourceKind::tsx(), true, true);
    use_kind(SourceKind::mjs(), false, false);
    use_kind(SourceKind::default(), false, false);
    let dts = SourceKind {
        language: solid_jsx_oxc::source::SourceLanguage::TypeScriptDefinition,
        ..SourceKind::mjs()
    };
    use_kind(dts, false, true);
}

fn use_kind(kind: SourceKind, jsx: bool, ts: bool) {
    assert_eq!(kind.is_jsx(), jsx);
    assert_eq!(kind.is_typescript(), ts);
    let ctx = solid_jsx_oxc::LintContext::new("", kind);
    assert_eq!(ctx.is_jsx(), jsx);
    assert_eq!(ctx.is_typescript(), ts);
    assert_eq!(ctx.source_type(), kind);
}
