use solid_jsx_oxc::jsx::{
    Argument, CallExpression, Expression, FormalParameter, FormalParameters, Function,
    FunctionBody, Ident, ImportDeclaration, ImportDeclarationSpecifier, ImportSpecifier,
    JsxAttribute, JsxAttributeItem, JsxAttributeName, JsxAttributeValue, JsxChild, JsxElement,
    JsxElementName, JsxExpressionContainer, JsxMemberExpression, JsxMemberObject,
    JsxOpeningElement, JsxText, NamespacedName, ObjectExpression, ObjectProperty,
    ObjectPropertyKind, PropertyKey, Statement, StringLiteral,
};
use solid_jsx_oxc::rules::{
    Imports, JsxNoDuplicateProps, JsxUsesVars, NoInnerhtml, NoReactDeps, NoReactSpecificProps,
    NoUnknownNamespaces, PreferClasslist, SelfClosingComp, StyleProp,
};
use solid_jsx_oxc::rules::jsx_no_duplicate_props::JsxNoDuplicatePropsConfig;
use solid_jsx_oxc::rules::imports::{get_primitive_source, get_type_source, is_solid_source};
use solid_jsx_oxc::Span;

fn sp(start: u32, end: u32) -> Span {
    Span { start, end }
}

fn ident(name: &str, start: u32) -> Ident {
    Ident { name: name.to_string(), span: sp(start, start + name.len() as u32) }
}

fn element_name(name: &str, start: u32) -> JsxElementName {
    if name.chars().next().map_or(false, |c| c.is_uppercase()) {
        JsxElementName::IdentifierReference(ident(name, start))
    } else {
        JsxElementName::Identifier(ident(name, start))
    }
}

fn string_value(value: &str, start: u32) -> Option<JsxAttributeValue> {
    Some(JsxAttributeValue::StringLiteral(StringLiteral {
        value: value.to_string(),
        span: sp(start, start + value.len() as u32 + 2),
    }))
}

fn expr_value(e: Expression, start: u32, end: u32) -> Option<JsxAttributeValue> {
    Some(JsxAttributeValue::ExpressionContainer(JsxExpressionContainer {
        expression: Some(e),
        span: sp(start, end),
    }))
}

fn attr(name: &str, value: Option<JsxAttributeValue>, start: u32, end: u32) -> JsxAttributeItem {
    JsxAttributeItem::Attribute(JsxAttribute {
        name: JsxAttributeName::Identifier(ident(name, start)),
        value,
        span: sp(start, end),
    })
}

fn ns_attr(ns: &str, name: &str, value: Option<JsxAttributeValue>, start: u32, end: u32) -> JsxAttributeItem {
    let name_start = start + ns.len() as u32 + 1;
    JsxAttributeItem::Attribute(JsxAttribute {
        name: JsxAttributeName::NamespacedName(NamespacedName {
            namespace: ident(ns, start),
            name: ident(name, name_start),
            span: sp(start, name_start + name.len() as u32),
        }),
        value,
        span: sp(start, end),
    })
}

fn opening(name: &str, attributes: Vec<JsxAttributeItem>, start: u32, end: u32) -> JsxOpeningElement {
    JsxOpeningElement { name: element_name(name, start + 1), attributes, span: sp(start, end) }
}

fn element(opening: JsxOpeningElement, children: Vec<JsxChild>, closing: Option<Span>) -> JsxElement {
    let start = opening.span.start;
    let end = match closing {
        Some(c) => c.end,
        None => opening.span.end,
    };
    JsxElement { opening_element: opening, children, closing_element: closing, span: sp(start, end) }
}

fn text(value: &str, start: u32) -> JsxChild {
    JsxChild::Text(JsxText { value: value.to_string(), span: sp(start, start + value.len() as u32) })
}

fn id_expr(name: &str, start: u32) -> Expression {
    Expression::Identifier(ident(name, start))
}

fn string_expr(value: &str, start: u32) -> Expression {
    Expression::StringLiteral(StringLiteral {
        value: value.to_string(),
        span: sp(start, start + value.len() as u32 + 2),
    })
}

fn call(callee: Expression, arguments: Vec<Argument>, start: u32, end: u32) -> Expression {
    Expression::Call(Box::new(CallExpression { callee, arguments, span: sp(start, end) }))
}

fn object(props: Vec<(PropertyKey, Expression)>, start: u32, end: u32) -> Expression {
    Expression::Object(ObjectExpression {
        properties: props
            .into_iter()
            .map(|(key, value)| {
                let s = value.span();
                ObjectPropertyKind::Property(ObjectProperty { key, value, span: s })
            })
            .collect(),
        span: sp(start, end),
    })
}

fn arrow(params: usize, start: u32, end: u32) -> Expression {
    Expression::Arrow(Box::new(Function {
        id: None,
        params: FormalParameters {
            items: (0..params)
                .map(|i| FormalParameter { is_destructuring: false, span: sp(start + 1 + i as u32, start + 2 + i as u32) })
                .collect(),
            has_rest: false,
            span: sp(start, start + 2),
        },
        body: Some(FunctionBody { statements: vec![Statement::Other(sp(start + 6, end))], span: sp(start + 6, end) }),
        expression: false,
        span: sp(start, end),
    }))
}

fn named_import(source: &str, is_type: bool, names: &[(&str, bool)]) -> ImportDeclaration {
    let specifiers = names
        .iter()
        .enumerate()
        .map(|(i, (n, t))| {
            ImportDeclarationSpecifier::ImportSpecifier(ImportSpecifier {
                imported: n.to_string(),
                local: n.to_string(),
                is_type: *t,
                span: sp(9 + 10 * i as u32, 9 + 10 * i as u32 + n.len() as u32),
            })
        })
        .collect();
    ImportDeclaration { source: source.to_string(), is_type, specifiers: Some(specifiers), span: sp(0, 60) }
}

// ============ imports ============

#[test]
fn test_correct_solid_js_import() {
    let import = named_import("solid-js", false, &[("createSignal", false), ("createEffect", false)]);
    let diagnostics = Imports::new().check(&import);
    assert!(diagnostics.is_empty(), "correct imports should have no diagnostics");
}

#[test]
fn test_wrong_source_for_create_signal() {
    let import = named_import("solid-js/web", false, &[("createSignal", false)]);
    let diagnostics = Imports::new().check(&import);
    assert_eq!(diagnostics.len(), 1, "should have one diagnostic");
    assert!(diagnostics[0].message.contains("createSignal"));
    assert!(diagnostics[0].message.contains("solid-js"));
}

#[test]
fn test_wrong_source_for_portal() {
    let import = named_import("solid-js", false, &[("Portal", false)]);
    let diagnostics = Imports::new().check(&import);
    assert_eq!(diagnostics.len(), 1, "should have one diagnostic");
    assert!(diagnostics[0].message.contains("Portal"));
    assert!(diagnostics[0].message.contains("solid-js/web"));
}

#[test]
fn test_wrong_source_for_create_store() {
    let import = named_import("solid-js", false, &[("createStore", false)]);
    let diagnostics = Imports::new().check(&import);
    assert_eq!(diagnostics.len(), 1, "should have one diagnostic");
    assert!(diagnostics[0].message.contains("createStore"));
    assert!(diagnostics[0].message.contains("solid-js/store"));
}

#[test]
fn test_correct_web_imports() {
    let import = named_import(
        "solid-js/web",
        false,
        &[("render", false), ("hydrate", false), ("Portal", false), ("Dynamic", false)],
    );
    let diagnostics = Imports::new().check(&import);
    assert!(diagnostics.is_empty(), "correct web imports should have no diagnostics");
}

#[test]
fn test_correct_store_imports() {
    let import = named_import(
        "solid-js/store",
        false,
        &[("createStore", false), ("produce", false), ("reconcile", false)],
    );
    let diagnostics = Imports::new().check(&import);
    assert!(diagnostics.is_empty(), "correct store imports should have no diagnostics");
}

#[test]
fn test_multiple_wrong_imports() {
    let import = named_import(
        "solid-js",
        false,
        &[("createSignal", false), ("Portal", false), ("createStore", false)],
    );
    let diagnostics = Imports::new().check(&import);
    assert_eq!(diagnostics.len(), 2, "should have two diagnostics (Portal and createStore)");
}

#[test]
fn test_type_import() {
    let import = named_import("solid-js", true, &[("Component", false), ("Accessor", false)]);
    let diagnostics = Imports::new().check(&import);
    assert!(diagnostics.is_empty(), "correct type imports should have no diagnostics");
}

#[test]
fn test_type_import_wrong_source() {
    let import = named_import("solid-js", true, &[("Store", false)]);
    let diagnostics = Imports::new().check(&import);
    assert_eq!(diagnostics.len(), 1, "should have one diagnostic");
    assert!(diagnostics[0].message.contains("Store"));
    assert!(diagnostics[0].message.contains("solid-js/store"));
}

#[test]
fn test_inline_type_import() {
    let import = named_import("solid-js", false, &[("createSignal", false), ("Component", true)]);
    let diagnostics = Imports::new().check(&import);
    assert!(diagnostics.is_empty(), "mixed imports should have no diagnostics");
}

#[test]
fn test_non_solid_import_ignored() {
    let import = named_import("react", false, &[("useState", false)]);
    let diagnostics = Imports::new().check(&import);
    assert!(diagnostics.is_empty(), "non-solid imports should be ignored");
}

#[test]
fn test_unknown_solid_import_ignored() {
    let import = named_import("solid-js", false, &[("unknownFunction", false)]);
    let diagnostics = Imports::new().check(&import);
    assert!(diagnostics.is_empty(), "unknown imports should be ignored");
}

#[test]
fn test_components_from_solid_js() {
    let import = named_import(
        "solid-js",
        false,
        &[
            ("For", false),
            ("Show", false),
            ("Switch", false),
            ("Match", false),
            ("Index", false),
            ("ErrorBoundary", false),
            ("Suspense", false),
        ],
    );
    let diagnostics = Imports::new().check(&import);
    assert!(diagnostics.is_empty(), "control flow components should be from solid-js");
}

// ============ jsx-uses-vars ============

fn used_vars(opening: &JsxOpeningElement) -> Vec<String> {
    JsxUsesVars::new().collect_used_vars(opening)
}

#[test]
fn test_simple_component() {
    // const x = <Foo />;
    let o = opening("Foo", vec![], 10, 17);
    assert_eq!(used_vars(&o), vec!["Foo"]);
}

#[test]
fn test_member_expression() {
    // const x = <Foo.Bar.Baz />;
    let inner = JsxMemberExpression {
        object: JsxMemberObject::IdentifierReference(ident("Foo", 11)),
        property: ident("Bar", 15),
        span: sp(11, 18),
    };
    let member = JsxMemberExpression {
        object: JsxMemberObject::MemberExpression(Box::new(inner)),
        property: ident("Baz", 19),
        span: sp(11, 22),
    };
    let o = JsxOpeningElement { name: JsxElementName::MemberExpression(member), attributes: vec![], span: sp(10, 25) };
    assert_eq!(used_vars(&o), vec!["Foo"]);
}

#[test]
fn test_use_directive() {
    // const x = <div use:tooltip />;
    let o = opening("div", vec![ns_attr("use", "tooltip", None, 15, 26)], 10, 29);
    assert_eq!(used_vars(&o), vec!["tooltip"]);
}

#[test]
fn test_namespaced_element_skipped() {
    // const x = <foo:bar />;
    let o = JsxOpeningElement {
        name: JsxElementName::NamespacedName(NamespacedName {
            namespace: ident("foo", 11),
            name: ident("bar", 15),
            span: sp(11, 18),
        }),
        attributes: vec![],
        span: sp(10, 21),
    };
    assert!(used_vars(&o).is_empty());
}

#[test]
fn test_lowercase_element_skipped() {
    // const x = <div />;
    let o = opening("div", vec![], 10, 17);
    assert!(used_vars(&o).is_empty());
}

#[test]
fn test_multiple_use_directives() {
    // const x = <div use:tooltip use:clickOutside />;
    let o = opening(
        "div",
        vec![ns_attr("use", "tooltip", None, 15, 26), ns_attr("use", "clickOutside", None, 27, 43)],
        10,
        46,
    );
    assert_eq!(used_vars(&o), vec!["tooltip", "clickOutside"]);
}

#[test]
fn test_component_with_use_directive() {
    // const x = <MyComponent use:tooltip />;
    let o = opening("MyComponent", vec![ns_attr("use", "tooltip", None, 23, 34)], 10, 37);
    assert_eq!(used_vars(&o), vec!["MyComponent", "tooltip"]);
}

// ============ jsx-no-duplicate-props ============

#[test]
fn test_jsx_no_duplicate_props_pass() {
    // <div class="foo" id="bar" />
    let o = opening("div", vec![attr("class", string_value("foo", 11), 5, 16), attr("id", string_value("bar", 20), 17, 25)], 0, 28);
    let diagnostics = JsxNoDuplicateProps::new().check(&o, &[]);
    assert!(diagnostics.is_empty(), "should have no diagnostics");
}

#[test]
fn test_jsx_no_duplicate_props_fail_duplicate() {
    // <div class="foo" class="bar" />
    let o = opening(
        "div",
        vec![attr("class", string_value("foo", 11), 5, 16), attr("class", string_value("bar", 23), 17, 28)],
        0,
        31,
    );
    let diagnostics = JsxNoDuplicateProps::new().check(&o, &[]);
    assert_eq!(diagnostics.len(), 1, "should have one diagnostic");
    assert!(diagnostics[0].message.contains("class"));
}

#[test]
fn test_jsx_no_duplicate_props_fail_children_conflict() {
    // <div innerHTML="test">Hello</div>
    let o = opening("div", vec![attr("innerHTML", string_value("test", 15), 5, 21)], 0, 22);
    let children = vec![text("Hello", 22)];
    let diagnostics = JsxNoDuplicateProps::new().check(&o, &children);
    assert_eq!(diagnostics.len(), 1, "should have one diagnostic");
    assert!(diagnostics[0].message.contains("innerHTML"));
}

// ============ no-react-specific-props ============

#[test]
fn test_no_react_specific_props_class_name() {
    // <div className="foo" />
    let o = opening("div", vec![attr("className", string_value("foo", 15), 5, 20)], 0, 23);
    let diagnostics = NoReactSpecificProps::new().check(&o);
    assert_eq!(diagnostics.len(), 1, "should have one diagnostic");
    assert!(diagnostics[0].message.contains("class"));
    assert!(diagnostics[0].fixes.len() > 0, "should have a fix");
}

#[test]
fn test_no_react_specific_props_key() {
    // <li key={item.id}>text</li>
    let value = expr_value(Expression::Other(sp(9, 16)), 8, 17);
    let o = opening("li", vec![attr("key", value, 4, 17)], 0, 18);
    let diagnostics = NoReactSpecificProps::new().check(&o);
    assert_eq!(diagnostics.len(), 1, "should have one diagnostic");
    assert!(diagnostics[0].message.contains("key"));
}

// ============ self-closing-comp ============

#[test]
fn test_self_closing_comp_empty_div() {
    // <div></div>
    let o = opening("div", vec![], 0, 5);
    let diagnostics = SelfClosingComp::new().check(&o, &[], Some(sp(5, 11)));
    assert_eq!(diagnostics.len(), 1, "should have one diagnostic");
    assert!(diagnostics[0].message.contains("self-closing"));
}

#[test]
fn test_self_closing_comp_already_self_closing() {
    // <div />
    let o = opening("div", vec![], 0, 7);
    let diagnostics = SelfClosingComp::new().check(&o, &[], None);
    assert!(diagnostics.is_empty(), "should have no diagnostics");
}

#[test]
fn test_self_closing_comp_with_children() {
    // <div>Hello</div>
    let o = opening("div", vec![], 0, 5);
    let children = vec![text("Hello", 5)];
    let diagnostics = SelfClosingComp::new().check(&o, &children, Some(sp(10, 16)));
    assert!(diagnostics.is_empty(), "should have no diagnostics - has children");
}

// ============ no-innerhtml ============

#[test]
fn test_no_innerhtml_dangerous() {
    // <div innerHTML={userInput} />
    let o = opening("div", vec![attr("innerHTML", expr_value(id_expr("userInput", 16), 15, 26), 5, 26)], 0, 29);
    let e = element(o, vec![], None);
    let diagnostics = NoInnerhtml::new().check(&e);
    assert_eq!(diagnostics.len(), 1, "should warn about dynamic innerHTML");
    assert!(diagnostics[0].message.contains("dangerous"));
}

#[test]
fn test_no_innerhtml_static_html_allowed() {
    // <div innerHTML="<b>bold</b>" />
    let o = opening("div", vec![attr("innerHTML", string_value("<b>bold</b>", 15), 5, 28)], 0, 31);
    let e = element(o, vec![], None);
    let diagnostics = NoInnerhtml::new().check(&e);
    assert!(diagnostics.is_empty(), "static HTML should be allowed");
}

#[test]
fn test_no_innerhtml_dangerously_set() {
    // <div dangerouslySetInnerHTML={{ __html: content }} />
    let value = object(
        vec![(PropertyKey::StaticIdentifier(ident("__html", 33)), id_expr("content", 41))],
        31,
        50,
    );
    let o = opening("div", vec![attr("dangerouslySetInnerHTML", expr_value(value, 30, 51), 5, 51)], 0, 54);
    let e = element(o, vec![], None);
    let diagnostics = NoInnerhtml::new().check(&e);
    assert_eq!(diagnostics.len(), 1, "should warn about dangerouslySetInnerHTML");
    assert!(diagnostics[0].message.contains("dangerouslySetInnerHTML"));
}

// ============ no-unknown-namespaces ============

#[test]
fn test_no_unknown_namespaces_valid() {
    // <div on:click={handler} />
    let o = opening("div", vec![ns_attr("on", "click", expr_value(id_expr("handler", 15), 14, 23), 5, 23)], 0, 26);
    let diagnostics = NoUnknownNamespaces::new().check(&o);
    assert!(diagnostics.is_empty(), "on: namespace should be valid");
}

#[test]
fn test_no_unknown_namespaces_invalid() {
    // <div foo:bar={value} />
    let o = opening("div", vec![ns_attr("foo", "bar", expr_value(id_expr("value", 14), 13, 20), 5, 20)], 0, 23);
    let diagnostics = NoUnknownNamespaces::new().check(&o);
    assert_eq!(diagnostics.len(), 1, "foo: should be unknown");
    assert!(diagnostics[0].message.contains("foo:"));
}

#[test]
fn test_no_unknown_namespaces_on_component() {
    // <MyComponent on:click={handler} />
    let o = opening("MyComponent", vec![ns_attr("on", "click", expr_value(id_expr("handler", 23), 22, 31), 13, 31)], 0, 34);
    let diagnostics = NoUnknownNamespaces::new().check(&o);
    assert_eq!(diagnostics.len(), 1, "namespaces on components have no effect");
    assert!(diagnostics[0].message.contains("no effect"));
}

// ============ style-prop ============

#[test]
fn test_style_prop_kebab_case() {
    // <div style={{ fontSize: "12px" }} />
    let value = object(
        vec![(PropertyKey::StaticIdentifier(ident("fontSize", 14)), string_expr("12px", 24))],
        12,
        32,
    );
    let o = opening("div", vec![attr("style", expr_value(value, 11, 33), 5, 33)], 0, 36);
    let diagnostics = StyleProp::new().check(&o);
    assert_eq!(diagnostics.len(), 1, "should warn about camelCase");
    assert!(diagnostics[0].message.contains("font-size"));
}

#[test]
fn test_style_prop_string() {
    // <div style="color: red" />
    let o = opening("div", vec![attr("style", string_value("color: red", 11), 5, 23)], 0, 26);
    let diagnostics = StyleProp::new().check(&o);
    assert_eq!(diagnostics.len(), 1, "should warn about string style");
    assert!(diagnostics[0].message.contains("object"));
}

#[test]
fn test_style_prop_valid() {
    // <div style={{ "font-size": "12px", color: "red" }} />
    let value = object(
        vec![
            (
                PropertyKey::StringLiteral(StringLiteral { value: "font-size".to_string(), span: sp(14, 25) }),
                string_expr("12px", 27),
            ),
            (PropertyKey::StaticIdentifier(ident("color", 35)), string_expr("red", 42)),
        ],
        12,
        49,
    );
    let o = opening("div", vec![attr("style", expr_value(value, 11, 50), 5, 50)], 0, 53);
    let diagnostics = StyleProp::new().check(&o);
    assert!(diagnostics.is_empty(), "valid style should pass");
}

// ============ prefer-classlist ============

#[test]
fn test_prefer_classlist_clsx() {
    // <div class={clsx({ active: isActive })} />
    let arg = object(vec![(PropertyKey::StaticIdentifier(ident("active", 19)), id_expr("isActive", 27))], 17, 37);
    let value = call(id_expr("clsx", 12), vec![Argument::Expression(arg)], 12, 38);
    let o = opening("div", vec![attr("class", expr_value(value, 11, 39), 5, 39)], 0, 42);
    let diagnostics = PreferClasslist::new().check(&o);
    assert_eq!(diagnostics.len(), 1, "should warn about clsx");
    assert!(diagnostics[0].message.contains("clsx"));
    assert!(diagnostics[0].message.contains("classlist"));
}

#[test]
fn test_prefer_classlist_cn() {
    // <div className={cn({ foo: true, bar: false })} />
    let arg = object(
        vec![
            (PropertyKey::StaticIdentifier(ident("foo", 21)), Expression::Other(sp(26, 30))),
            (PropertyKey::StaticIdentifier(ident("bar", 32)), Expression::Other(sp(37, 42))),
        ],
        19,
        44,
    );
    let value = call(id_expr("cn", 16), vec![Argument::Expression(arg)], 16, 45);
    let o = opening("div", vec![attr("className", expr_value(value, 15, 46), 5, 46)], 0, 49);
    let diagnostics = PreferClasslist::new().check(&o);
    assert_eq!(diagnostics.len(), 1, "should warn about cn");
    assert!(diagnostics[0].message.contains("cn"));
}

#[test]
fn test_prefer_classlist_already_has_classlist() {
    // <div class="base" classList={{ active: isActive }} />
    let value = object(vec![(PropertyKey::StaticIdentifier(ident("active", 31)), id_expr("isActive", 39))], 29, 49);
    let o = opening(
        "div",
        vec![attr("class", string_value("base", 11), 5, 17), attr("classList", expr_value(value, 28, 50), 18, 50)],
        0,
        53,
    );
    let diagnostics = PreferClasslist::new().check(&o);
    assert!(diagnostics.is_empty(), "should not warn when classList exists");
}

#[test]
fn test_prefer_classlist_plain_class() {
    // <div class="foo bar" />
    let o = opening("div", vec![attr("class", string_value("foo bar", 11), 5, 20)], 0, 23);
    let diagnostics = PreferClasslist::new().check(&o);
    assert!(diagnostics.is_empty(), "should not warn about plain class strings");
}

// ============ no-react-deps ============

fn call_expression(e: Expression) -> CallExpression {
    match e {
        Expression::Call(c) => *c,
        _ => panic!("not a call"),
    }
}

#[test]
fn test_no_react_deps_valid_single_arg() {
    // createEffect(() => { console.log(signal()); });
    let c = call_expression(call(id_expr("createEffect", 0), vec![Argument::Expression(arrow(0, 13, 44))], 0, 45));
    assert!(NoReactDeps::new().check(&c).is_empty(), "single argument should be valid");
}

#[test]
fn test_no_react_deps_valid_with_initial_value() {
    // createEffect((prev) => { console.log(signal()); return prev + 1; }, 0);
    let c = call_expression(call(
        id_expr("createEffect", 0),
        vec![Argument::Expression(arrow(1, 13, 66)), Argument::Expression(Expression::Other(sp(68, 69)))],
        0,
        70,
    ));
    assert!(NoReactDeps::new().check(&c).is_empty(), "function with params and initial value should be valid");
}

#[test]
fn test_no_react_deps_valid_memo_single_arg() {
    // createMemo(() => computeExpensiveValue(a(), b()));
    let c = call_expression(call(id_expr("createMemo", 0), vec![Argument::Expression(arrow(0, 11, 48))], 0, 49));
    assert!(NoReactDeps::new().check(&c).is_empty(), "single argument memo should be valid");
}

#[test]
fn test_no_react_deps_invalid_effect_with_deps() {
    // createEffect(() => { console.log(signal()); }, [signal()]);
    let c = call_expression(call(
        id_expr("createEffect", 0),
        vec![Argument::Expression(arrow(0, 13, 44)), Argument::Expression(Expression::Array(sp(46, 56)))],
        0,
        57,
    ));
    let diagnostics = NoReactDeps::new().check(&c);
    assert_eq!(diagnostics.len(), 1, "should have one diagnostic");
    assert!(diagnostics[0].message.contains("createEffect"));
    assert!(diagnostics[0].message.contains("dependency array"));
    assert!(!diagnostics[0].fixes.is_empty(), "should have a fix");
}

#[test]
fn test_no_react_deps_invalid_memo_with_deps() {
    // createMemo(() => computeExpensiveValue(a(), b()), [a(), b()]);
    let c = call_expression(call(
        id_expr("createMemo", 0),
        vec![Argument::Expression(arrow(0, 11, 48)), Argument::Expression(Expression::Array(sp(50, 60)))],
        0,
        61,
    ));
    let diagnostics = NoReactDeps::new().check(&c);
    assert_eq!(diagnostics.len(), 1, "should have one diagnostic");
    assert!(diagnostics[0].message.contains("createMemo"));
    assert!(!diagnostics[0].fixes.is_empty(), "should have a fix");
}

#[test]
fn test_no_react_deps_valid_other_function() {
    // someOtherFunction(() => {}, [deps]);
    let c = call_expression(call(
        id_expr("someOtherFunction", 0),
        vec![Argument::Expression(arrow(0, 18, 26)), Argument::Expression(Expression::Array(sp(28, 34)))],
        0,
        35,
    ));
    assert!(NoReactDeps::new().check(&c).is_empty(), "should not warn about other functions");
}

// ============ further cases ============

#[test]
fn no_react_deps_fix_removes_the_array() {
    // createEffect(() => {}, [a]);  the fix spans from the end of the
    // function to the end of the array, with an empty replacement.
    let c = call_expression(call(
        id_expr("createEffect", 0),
        vec![Argument::Expression(arrow(0, 13, 21)), Argument::Expression(Expression::Array(sp(23, 26)))],
        0,
        27,
    ));
    let diagnostics = NoReactDeps::new().check(&c);
    assert_eq!(diagnostics.len(), 1);
    assert_eq!((diagnostics[0].start, diagnostics[0].end), (23, 26));
    let fix = &diagnostics[0].fixes[0];
    assert_eq!((fix.start, fix.end), (21, 26));
    assert_eq!(fix.replacement, "");
    assert_eq!(fix.message.as_deref(), Some("Remove dependency array"));
}

#[test]
fn jsx_no_duplicate_props_ignore_case_config() {
    // <div class="a" CLASS="b" />
    let o = opening("div", vec![attr("class", string_value("a", 11), 5, 14), attr("CLASS", string_value("b", 21), 15, 24)], 0, 27);
    assert!(JsxNoDuplicateProps::new().check(&o, &[]).is_empty());
    let rule = JsxNoDuplicateProps::with_config(JsxNoDuplicatePropsConfig { ignore_case: true });
    assert_eq!(rule.check(&o, &[]).len(), 1);
}

#[test]
fn no_react_specific_props_class_name_fix_replaces_name() {
    // <div className="foo" />
    let o = opening("div", vec![attr("className", string_value("foo", 15), 5, 20)], 0, 23);
    let diagnostics = NoReactSpecificProps::new().check(&o);
    let fix = &diagnostics[0].fixes[0];
    assert_eq!((fix.start, fix.end), (5, 14));
    assert_eq!(fix.replacement, "class");
    assert_eq!(
        diagnostics[0].message,
        "Prefer the `class` prop over the deprecated `className` prop."
    );
}

#[test]
fn no_innerhtml_static_disallowed_when_configured() {
    // <div innerHTML="<b>bold</b>" />
    let o = opening("div", vec![attr("innerHTML", string_value("<b>bold</b>", 15), 5, 28)], 0, 31);
    let e = element(o, vec![], None);
    let diagnostics = NoInnerhtml::new().with_allow_static(false).check(&e);
    assert_eq!(diagnostics.len(), 1);
}

#[test]
fn no_unknown_namespaces_allowed_by_config() {
    // <div foo:bar={value} />
    let o = opening("div", vec![ns_attr("foo", "bar", expr_value(id_expr("value", 14), 13, 20), 5, 20)], 0, 23);
    let rule = NoUnknownNamespaces::new().with_allowed_namespaces(vec!["foo".to_string()]);
    assert!(rule.check(&o).is_empty());
}

#[test]
fn style_prop_string_allowed_by_config() {
    // <div style="color: red" />
    let o = opening("div", vec![attr("style", string_value("color: red", 11), 5, 23)], 0, 26);
    assert!(StyleProp::new().with_allow_string(true).check(&o).is_empty());
}

#[test]
fn following_import_suggestions_silences_the_rule() {
    use_suggestion("solid-js", "createStore", false);
    use_suggestion("solid-js", "Portal", false);
    use_suggestion("solid-js/web", "createSignal", false);
    use_suggestion("solid-js/web", "SetStoreFunction", true);
}

fn use_suggestion(wrong: &str, name: &str, is_type: bool) {
    let first = Imports::new().check(&named_import(wrong, is_type, &[(name, false)]));
    assert_eq!(first.len(), 1);
    let suggested = if is_type { get_type_source(name) } else { get_primitive_source(name) }.unwrap();
    assert!(is_solid_source(suggested));
    assert!(first[0].message.contains(suggested));
    let again = Imports::new().check(&named_import(suggested, is_type, &[(name, false)]));
    assert!(again.is_empty());
}
