use solid_jsx_oxc::css::{camel_to_kebab, is_valid_css_property, to_kebab_case};
use solid_jsx_oxc::utils::is_event_handler;
use solid_jsx_oxc::rules::jsx_no_duplicate_props::JsxNoDuplicatePropsConfig;
use solid_jsx_oxc::rules::jsx_no_undef::format_list;
use solid_jsx_oxc::rules::no_innerhtml::looks_like_html;
use solid_jsx_oxc::rules::self_closing_comp::{
    HtmlSelfClosingOption, SelfClosingCompConfig, SelfClosingOption,
};
use solid_jsx_oxc::rules::{
    ComponentsReturnOnce, EventHandlers, Imports, JsxNoScriptUrl, JsxNoUndef, JsxNoUndefOptions,
    NoArrayHandlers, NoDestructure, NoInnerhtml, NoProxyApis, NoReactDeps, NoReactSpecificProps,
    NoUnknownNamespaces, PreferClasslist, PreferFor, PreferShow, Reactivity, StyleProp,
    ValidateJsxNesting,
};
use solid_jsx_oxc::{RuleCategory, RuleMeta};

#[test]
fn components_return_once_test_rule_name() {
    assert_eq!(ComponentsReturnOnce::NAME, "components-return-once");
}

#[test]
fn event_handlers_test_rule_name() {
    assert_eq!(EventHandlers::NAME, "event-handlers");
}

#[test]
fn test_get_correct_event_name() {
    let rule = EventHandlers::new();
    assert_eq!(rule.get_correct_event_name("onclick"), Some("onClick"));
    assert_eq!(rule.get_correct_event_name("onmousedown"), Some("onMouseDown"));
    assert_eq!(rule.get_correct_event_name("onfoobar"), None);
}

#[test]
fn imports_test_rule_name() {
    assert_eq!(Imports::NAME, "imports");
}

#[test]
fn jsx_no_duplicate_props_test_config_defaults() {
    let config = JsxNoDuplicatePropsConfig::default();
    assert!(!config.ignore_case);
}

#[test]
fn jsx_no_script_url_test_rule_name() {
    assert_eq!(JsxNoScriptUrl::NAME, "jsx-no-script-url");
}

#[test]
fn jsx_no_undef_test_rule_name() {
    assert_eq!(JsxNoUndef::NAME, "jsx-no-undef");
}

#[test]
fn test_format_list() {
    assert_eq!(format_list(&[]), "");
    assert_eq!(format_list(&["Show".to_string()]), "Show");
    assert_eq!(format_list(&["Show".to_string(), "For".to_string()]), "Show and For");
    assert_eq!(
        format_list(&["Show".to_string(), "For".to_string(), "Index".to_string()]),
        "Show, For, and Index"
    );
}

#[test]
fn test_default_options() {
    let options = JsxNoUndefOptions::default();
    assert!(!options.allow_globals);
    assert!(options.auto_import);
    assert!(!options.typescript_enabled);
}

#[test]
fn no_array_handlers_test_rule_name() {
    assert_eq!(NoArrayHandlers::NAME, "no-array-handlers");
}

#[test]
fn no_destructure_test_rule_name() {
    assert_eq!(NoDestructure::NAME, "no-destructure");
}

#[test]
fn no_innerhtml_test_rule_name() {
    assert_eq!(NoInnerhtml::NAME, "no-innerhtml");
}

#[test]
fn test_looks_like_html() {
    assert!(looks_like_html("<div>test</div>"));
    assert!(looks_like_html("<br/>"));
    assert!(looks_like_html("Hello <b>world</b>"));
    assert!(!looks_like_html("plain text"));
    assert!(!looks_like_html(""));
}

#[test]
fn no_proxy_apis_test_rule_name() {
    assert_eq!(NoProxyApis::NAME, "no-proxy-apis");
}

#[test]
fn no_react_deps_test_rule_name() {
    assert_eq!(NoReactDeps::NAME, "no-react-deps");
}

#[test]
fn no_react_specific_props_test_rule_name() {
    assert_eq!(NoReactSpecificProps::NAME, "no-react-specific-props");
}

#[test]
fn no_unknown_namespaces_test_rule_name() {
    assert_eq!(NoUnknownNamespaces::NAME, "no-unknown-namespaces");
}

#[test]
fn prefer_classlist_test_rule_name() {
    assert_eq!(PreferClasslist::NAME, "prefer-classlist");
}

#[test]
fn test_default_classnames() {
    let rule = PreferClasslist::new();
    assert!(rule.classnames.contains(&"cn".to_string()));
    assert!(rule.classnames.contains(&"clsx".to_string()));
    assert!(rule.classnames.contains(&"classnames".to_string()));
}

#[test]
fn prefer_for_test_rule_name() {
    assert_eq!(PreferFor::NAME, "prefer-for");
}

#[test]
fn prefer_show_test_rule_name() {
    assert_eq!(PreferShow::NAME, "prefer-show");
}

#[test]
fn reactivity_test_rule_name() {
    assert_eq!(Reactivity::NAME, "reactivity");
}

#[test]
fn self_closing_comp_test_config_defaults() {
    let config = SelfClosingCompConfig::default();
    assert_eq!(config.component, SelfClosingOption::All);
    assert_eq!(config.html, HtmlSelfClosingOption::All);
}

#[test]
fn style_prop_test_rule_name() {
    assert_eq!(StyleProp::NAME, "style-prop");
}

#[test]
fn test_to_kebab_case() {
    assert_eq!(to_kebab_case("fontSize"), "font-size");
    assert_eq!(to_kebab_case("backgroundColor"), "background-color");
    assert_eq!(to_kebab_case("borderTopWidth"), "border-top-width");
    assert_eq!(to_kebab_case("color"), "color");
}

#[test]
fn test_is_valid_css_property() {
    assert!(is_valid_css_property("font-size"));
    assert!(is_valid_css_property("color"));
    assert!(is_valid_css_property("display"));
    assert!(!is_valid_css_property("invalidProp"));
}

#[test]
fn validate_jsx_nesting_test_rule_name() {
    assert_eq!(ValidateJsxNesting::NAME, "validate-jsx-nesting");
}

#[test]
fn rule_metadata_links_to_docs() {
    assert_eq!(
        StyleProp::docs_url(),
        "https://github.com/solidjs-community/eslint-plugin-solid/blob/main/docs/style-prop.md"
    );
    assert_eq!(StyleProp::CATEGORY, RuleCategory::Correctness);
    assert_eq!(
        ComponentsReturnOnce::docs_url(),
        format!(
            "https://github.com/solidjs-community/eslint-plugin-solid/blob/main/docs/{}.md",
            ComponentsReturnOnce::NAME
        )
    );
}

#[test]
fn style_strings_become_json_objects() {
    let rule = StyleProp::new();
    assert_eq!(rule.parse_style_string("color: red; font-size: 12px"), r#"{"color": "red", "font-size": "12px"}"#);
    assert_eq!(rule.parse_style_string("foo; color: red"), r#"{"color": "red"}"#);
    assert_eq!(rule.parse_style_string("color: red; foo; margin:0"), r#"{"color": "red", "margin": "0"}"#);
    assert_eq!(rule.parse_style_string(" ; "), "{}");
    assert_eq!(rule.parse_style_string("background: url(a:b)"), r#"{"background": "url(a:b)"}"#);
}

#[test]
fn kebab_converters_agree_on_ascii() {
    for s in ["fontSize", "zIndex", "WebkitTransition", "color", "borderTopLeftRadius", "a1B2"] {
        assert_eq!(camel_to_kebab(s), to_kebab_case(s));
    }
    assert_eq!(camel_to_kebab("fontSize"), "font-size");
    assert_eq!(camel_to_kebab("WebkitTransition"), "webkit-transition");
}

#[test]
fn event_handler_third_character() {
    assert!(is_event_handler("onClick"));
    assert!(is_event_handler("on:custom"));
    assert!(!is_event_handler("onclick"));
    assert!(!is_event_handler("on1"));
    assert!(!is_event_handler("on"));
    assert!(!is_event_handler("offClick"));
}
