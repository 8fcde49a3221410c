//! The SSR transform of native elements: an element becomes static
//! template text (its tag, static attributes and text children) with
//! dynamic values between (attribute and child expressions), and the
//! runtime helpers those values call are registered on the context.
//!
//! What a transform does is stated as the sequence of steps it performs on
//! the result and the context, in order. A dynamic value is held as the
//! source text of its expression.
use vstd::prelude::*;
use crate::expression::{escape_html, escape_html_spec, trim_whitespace, trim_whitespace_spec};
use crate::jsx::{
    Expression, JsxAttribute, JsxAttributeItem, JsxAttributeName, JsxAttributeValue, JsxChild,
    JsxElement,
};
use crate::name_set::{name_set_clone, name_set_insert_spec, name_set_view};
use crate::options::TransformOptions;
use crate::ssr::{
    ssr_attribute, ssr_class_list, ssr_hydration_key, ssr_style, values_view, SSRContext,
    SSRResult, TemplateValueView, merge_parts_spec, template_wf,
};
use crate::text::{
    join, join_spec, push_str, seq_starts_with, starts_with, str_eq, str_get, str_get_spec, str_in,
    strs_view, to_owned, views,
};
use crate::utils::{
    attr_full_name, attr_full_name_spec, element_name_spec, get_element_name, is_component,
    is_component_spec, is_void_element, void_elements_spec,
};

verus! {

/// One thing a transform does.
pub enum SsrStep {
    /// Append static template text.
    Text(Seq<char>),
    /// Append a dynamic value.
    Value(TemplateValueView),
    /// Register a runtime helper on the context.
    Helper(Seq<char>),
}

/// What the steps act on: the parts and values of a result, and the
/// helpers of the context.
pub struct SsrState {
    pub parts: Seq<Seq<char>>,
    pub values: Seq<TemplateValueView>,
    pub helpers: Seq<Seq<char>>,
}

pub open spec fn ssr_state(r: SSRResult, c: SSRContext) -> SsrState {
    SsrState {
        parts: views(r.template_parts@),
        values: values_view(r.template_values@),
        helpers: name_set_view(c.helpers),
    }
}

/// Everything of a result but its parts and values is the same.
pub open spec fn same_meta(a: SSRResult, b: SSRResult) -> bool {
    &&& a.span == b.span
    &&& a.tag_name == b.tag_name
    &&& a.skip_escape == b.skip_escape
    &&& a.needs_hydration_key == b.needs_hydration_key
    &&& a.has_spread == b.has_spread
}

/// Everything of a context but its helpers is the same.
pub open spec fn same_ctx_meta(a: SSRContext, b: SSRContext) -> bool {
    a.hydratable == b.hydratable && a.var_counter == b.var_counter
}

/// The state after one step.
pub open spec fn ssr_step(s: SsrState, step: SsrStep) -> SsrState {
    match step {
        SsrStep::Text(t) => SsrState { parts: crate::ssr::push_static_spec(s.parts, t), ..s },
        SsrStep::Value(v) => SsrState {
            parts: if s.parts.len() == s.values.len() {
                s.parts.push(Seq::empty()).push(Seq::empty())
            } else {
                s.parts.push(Seq::empty())
            },
            values: s.values.push(v),
            ..s
        },
        SsrStep::Helper(n) => SsrState { helpers: name_set_insert_spec(s.helpers, n), ..s },
    }
}

/// The state after the steps, in order.
pub open spec fn ssr_run(s: SsrState, steps: Seq<SsrStep>) -> SsrState
    decreases steps.len(),
{
    if steps.len() == 0 {
        s
    } else {
        ssr_step(ssr_run(s, steps.drop_last()), steps.last())
    }
}

/// Running two sequences of steps one after the other is running them
/// joined.
pub proof fn lemma_ssr_run_append(s: SsrState, a: Seq<SsrStep>, b: Seq<SsrStep>)
    ensures
        ssr_run(s, a + b) == ssr_run(ssr_run(s, a), b),
    decreases b.len(),
{
    if b.len() == 0 {
        assert(a + b =~= a);
    } else {
        assert((a + b).drop_last() =~= a + b.drop_last());
        lemma_ssr_run_append(s, a, b.drop_last());
    }
}

/// A value appended for an expression whose source is `code`.
pub open spec fn value_step(code: Seq<char>, is_attr: bool, skip_escape: bool) -> SsrStep {
    SsrStep::Value(
        TemplateValueView { code, is_attr, skip_escape, needs_hydration_marker: !is_attr },
    )
}

/// The source text of an expression, or nothing where its span selects
/// no slice of the source.
pub open spec fn expr_code_spec(source: Seq<char>, e: Expression) -> Seq<char> {
    match str_get_spec(source, e.spec_span().start as int, e.spec_span().end as int) {
        Some(t) => t,
        None => Seq::empty(),
    }
}

/// The source text of an expression.
pub fn expr_code(source: &str, e: &Expression) -> (r: String)
    ensures
        r@ == expr_code_spec(source@, *e),
{
    let span = e.span();
    match str_get(source, span.start, span.end) {
        Some(t) => t,
        None => String::new(),
    }
}

// ------------------------------------------------------------------
// Attribute tables
// ------------------------------------------------------------------
/// Properties set through children rather than attributes.
pub open spec fn child_properties_spec() -> Seq<Seq<char>> {
    seq!["innerHTML"@, "textContent"@, "innerText"@, "children"@]
}

/// Properties rendered with `ssrAttribute`, the boolean attributes among
/// them.
pub open spec fn properties_spec() -> Seq<Seq<char>> {
    seq![
        "className"@, "value"@, "readOnly"@, "formNoValidate"@, "isMap"@, "noModule"@,
        "playsInline"@, "allowfullscreen"@, "async"@, "autofocus"@, "autoplay"@, "checked"@,
        "controls"@, "default"@, "disabled"@, "formnovalidate"@, "hidden"@, "indeterminate"@,
        "inert"@, "ismap"@, "loop"@, "multiple"@, "muted"@, "nomodule"@, "novalidate"@,
        "open"@, "playsinline"@, "readonly"@, "required"@, "reversed"@, "seamless"@,
        "selected"@,
    ]
}

/// SVG element names.
pub open spec fn svg_elements_spec() -> Seq<Seq<char>> {
    seq![
        "altGlyph"@, "altGlyphDef"@, "altGlyphItem"@, "animate"@, "animateColor"@,
        "animateMotion"@, "animateTransform"@, "circle"@, "clipPath"@, "color-profile"@,
        "cursor"@, "defs"@, "desc"@, "ellipse"@, "feBlend"@, "feColorMatrix"@,
        "feComponentTransfer"@, "feComposite"@, "feConvolveMatrix"@, "feDiffuseLighting"@,
        "feDisplacementMap"@, "feDistantLight"@, "feDropShadow"@, "feFlood"@, "feFuncA"@,
        "feFuncB"@, "feFuncG"@, "feFuncR"@, "feGaussianBlur"@, "feImage"@, "feMerge"@,
        "feMergeNode"@, "feMorphology"@, "feOffset"@, "fePointLight"@, "feSpecularLighting"@,
        "feSpotLight"@, "feTile"@, "feTurbulence"@, "filter"@, "font"@, "font-face"@,
        "font-face-format"@, "font-face-name"@, "font-face-src"@, "font-face-uri"@,
        "foreignObject"@, "g"@, "glyph"@, "glyphRef"@, "hkern"@, "image"@, "line"@,
        "linearGradient"@, "marker"@, "mask"@, "metadata"@, "missing-glyph"@, "mpath"@,
        "path"@, "pattern"@, "polygon"@, "polyline"@, "radialGradient"@, "rect"@, "set"@,
        "stop"@, "svg"@, "switch"@, "symbol"@, "text"@, "textPath"@, "tref"@, "tspan"@,
        "use"@, "view"@, "vkern"@,
    ]
}

/// The HTML attribute a JSX attribute name stands for.
pub open spec fn alias_spec(key: Seq<char>) -> Seq<char> {
    if key == "className"@ {
        "class"@
    } else if key == "htmlFor"@ {
        "for"@
    } else {
        key
    }
}

fn is_child_property(key: &str) -> (r: bool)
    ensures
        r == child_properties_spec().contains(key@),
{
    let l = ["innerHTML", "textContent", "innerText", "children"];
    assert(strs_view(l@) =~= child_properties_spec());
    str_in(key, &l)
}

pub(crate) fn is_property(key: &str) -> (r: bool)
    ensures
        r == properties_spec().contains(key@),
{
    let l = [
        "className", "value", "readOnly", "formNoValidate", "isMap", "noModule", "playsInline",
        "allowfullscreen", "async", "autofocus", "autoplay", "checked", "controls", "default",
        "disabled", "formnovalidate", "hidden", "indeterminate", "inert", "ismap", "loop",
        "multiple", "muted", "nomodule", "novalidate", "open", "playsinline", "readonly",
        "required", "reversed", "seamless", "selected",
    ];
    assert(strs_view(l@) =~= properties_spec());
    str_in(key, &l)
}

/// Whether a tag names an SVG element.
pub fn is_svg_element(tag: &str) -> (r: bool)
    ensures
        r == svg_elements_spec().contains(tag@),
{
    let l = [
        "altGlyph", "altGlyphDef", "altGlyphItem", "animate", "animateColor", "animateMotion",
        "animateTransform", "circle", "clipPath", "color-profile", "cursor", "defs", "desc",
        "ellipse", "feBlend", "feColorMatrix", "feComponentTransfer", "feComposite",
        "feConvolveMatrix", "feDiffuseLighting", "feDisplacementMap", "feDistantLight",
        "feDropShadow", "feFlood", "feFuncA", "feFuncB", "feFuncG", "feFuncR", "feGaussianBlur",
        "feImage", "feMerge", "feMergeNode", "feMorphology", "feOffset", "fePointLight",
        "feSpecularLighting", "feSpotLight", "feTile", "feTurbulence", "filter", "font",
        "font-face", "font-face-format", "font-face-name", "font-face-src", "font-face-uri",
        "foreignObject", "g", "glyph", "glyphRef", "hkern", "image", "line", "linearGradient",
        "marker", "mask", "metadata", "missing-glyph", "mpath", "path", "pattern", "polygon",
        "polyline", "radialGradient", "rect", "set", "stop", "svg", "switch", "symbol", "text",
        "textPath", "tref", "tspan", "use", "view", "vkern",
    ];
    assert(strs_view(l@) =~= svg_elements_spec());
    str_in(tag, &l)
}

fn alias(key: &str) -> (r: String)
    ensures
        r@ == alias_spec(key@),
{
    if str_eq(key, "className") {
        to_owned("class")
    } else if str_eq(key, "htmlFor") {
        to_owned("for")
    } else {
        to_owned(key)
    }
}

// ------------------------------------------------------------------
// Attributes
// ------------------------------------------------------------------
/// An attribute the server never renders: refs, event handlers, `use:`
/// directives and `prop:` properties.
pub open spec fn client_only_spec(key: Seq<char>) -> bool {
    key == "ref"@ || seq_starts_with(key, "on"@) || seq_starts_with(key, "use:"@)
        || seq_starts_with(key, "prop:"@)
}

/// The steps for one attribute of an element (`is_svg`: the element is an
/// SVG element, whose attribute names are kept as written).
pub open spec fn attribute_steps(source: Seq<char>, attr: JsxAttribute, is_svg: bool) -> Seq<
    SsrStep,
> {
    let key = attr_full_name_spec(attr.name);
    let name = if is_svg {
        key
    } else {
        alias_spec(key)
    };
    if client_only_spec(key) || child_properties_spec().contains(key) {
        Seq::empty()
    } else {
        match attr.value {
            Some(JsxAttributeValue::StringLiteral(lit)) => seq![
                SsrStep::Text(" "@ + name + "=\""@ + escape_html_spec(lit.value@, true) + "\""@),
            ],
            Some(JsxAttributeValue::ExpressionContainer(c)) => match c.expression {
                Some(e) => {
                    let code = expr_code_spec(source, e);
                    if key == "style"@ {
                        seq![
                            SsrStep::Helper("ssrStyle"@),
                            SsrStep::Text(" "@ + name + "=\""@),
                            value_step("ssrStyle("@ + code + ")"@, false, true),
                            SsrStep::Text("\""@),
                        ]
                    } else if key == "class"@ || key == "className"@ {
                        seq![
                            SsrStep::Helper("escape"@),
                            SsrStep::Text(" "@ + name + "=\""@),
                            value_step(code, true, false),
                            SsrStep::Text("\""@),
                        ]
                    } else if key == "classList"@ {
                        seq![
                            SsrStep::Helper("ssrClassList"@),
                            SsrStep::Text(" class=\""@),
                            value_step("ssrClassList("@ + code + ")"@, false, true),
                            SsrStep::Text("\""@),
                        ]
                    } else if properties_spec().contains(key) {
                        seq![
                            SsrStep::Helper("ssrAttribute"@),
                            value_step(
                                "ssrAttribute(\""@ + name + "\", "@ + code + ", "@ + "true"@
                                    + ")"@,
                                false,
                                true,
                            ),
                        ]
                    } else {
                        seq![
                            SsrStep::Helper("escape"@),
                            SsrStep::Text(" "@ + name + "=\""@),
                            value_step(code, true, false),
                            SsrStep::Text("\""@),
                        ]
                    }
                },
                None => Seq::empty(),
            },
            None => seq![SsrStep::Text(" "@ + name)],
            _ => Seq::empty(),
        }
    }
}

/// An attribute of a native element whose value is an expression, and
/// which is neither client-only, inner content, `style`, `classList` nor
/// a boolean property, is rendered into the opening tag: the text before
/// its value ends with ` name="`, the expression's code becomes one value
/// escaped as an attribute, the text after it starts with `"`, and the
/// `escape` helper is registered.
pub proof fn lemma_expression_attribute_rendered(
    source: Seq<char>,
    attr: JsxAttribute,
    is_svg: bool,
    e: Expression,
    s: SsrState,
)
    requires
        s.parts.len() == s.values.len() + 1,
        (attr.value matches Some(JsxAttributeValue::ExpressionContainer(c)) && c.expression == Some(e)),
        !client_only_spec(attr_full_name_spec(attr.name)),
        !child_properties_spec().contains(attr_full_name_spec(attr.name)),
        attr_full_name_spec(attr.name) != "style"@,
        attr_full_name_spec(attr.name) != "classList"@,
        !properties_spec().contains(attr_full_name_spec(attr.name)),
    ensures
        ({
            let key = attr_full_name_spec(attr.name);
            let name = if is_svg {
                key
            } else {
                alias_spec(key)
            };
            let out = ssr_run(s, attribute_steps(source, attr, is_svg));
            &&& out.values == s.values.push(
                TemplateValueView {
                    code: expr_code_spec(source, e),
                    is_attr: true,
                    skip_escape: false,
                    needs_hydration_marker: false,
                },
            )
            &&& out.parts.len() == s.parts.len() + 1
            &&& out.parts[s.parts.len() - 1] == s.parts.last() + " "@ + name + "=\""@
            &&& out.parts.last() == "\""@
            &&& out.helpers.contains("escape"@)
        }),
{
    let key = attr_full_name_spec(attr.name);
    let name = if is_svg {
        key
    } else {
        alias_spec(key)
    };
    let code = expr_code_spec(source, e);
    let steps = attribute_steps(source, attr, is_svg);
    assert(steps == seq![
        SsrStep::Helper("escape"@),
        SsrStep::Text(" "@ + name + "=\""@),
        value_step(code, true, false),
        SsrStep::Text("\""@),
    ]);
    let s1 = ssr_step(s, steps[0]);
    let s2 = ssr_step(s1, steps[1]);
    let s3 = ssr_step(s2, steps[2]);
    let s4 = ssr_step(s3, steps[3]);
    assert(steps.take(1).drop_last() =~= steps.take(0));
    assert(steps.take(2).drop_last() =~= steps.take(1));
    assert(steps.take(3).drop_last() =~= steps.take(2));
    assert(steps.drop_last() =~= steps.take(3));
    assert(ssr_run(s, steps.take(0)) == s);
    assert(ssr_run(s, steps.take(1)) == s1);
    assert(ssr_run(s, steps.take(2)) == s2);
    assert(ssr_run(s, steps.take(3)) == s3);
    assert(ssr_run(s, steps) == s4);
    if !s.helpers.contains("escape"@) {
        assert(s1.helpers[s.helpers.len() as int] == "escape"@);
    }
    assert(s1.helpers.contains("escape"@));
    assert(s2.parts[s.parts.len() - 1] == s.parts.last() + " "@ + name + "=\""@);
    assert(s4.parts.last() == "\""@) by {
        assert(s3.parts.last() == Seq::<char>::empty());
        assert(Seq::<char>::empty() + "\""@ =~= "\""@);
    }
}

/// Append static text, as a step.
pub(crate) fn emit_text(result: &mut SSRResult, ctx: &SSRContext, text: &str, Ghost(done): Ghost<Seq<SsrStep>>, Ghost(s0): Ghost<SsrState>)
    requires
        ssr_state(*old(result), *ctx) == ssr_run(s0, done),
    ensures
        ssr_state(*final(result), *ctx) == ssr_run(s0, done.push(SsrStep::Text(text@))),
        same_meta(*final(result), *old(result)),
{
    result.push_static(text);
    assert(done.push(SsrStep::Text(text@)).drop_last() =~= done);
}

/// Append a dynamic value, as a step.
pub(crate) fn emit_value(
    result: &mut SSRResult,
    ctx: &SSRContext,
    code: &str,
    is_attr: bool,
    skip_escape: bool,
    Ghost(done): Ghost<Seq<SsrStep>>,
    Ghost(s0): Ghost<SsrState>,
)
    requires
        ssr_state(*old(result), *ctx) == ssr_run(s0, done),
    ensures
        ssr_state(*final(result), *ctx) == ssr_run(
            s0,
            done.push(value_step(code@, is_attr, skip_escape)),
        ),
        same_meta(*final(result), *old(result)),
{
    let ghost before = values_view(result.template_values@);
    result.push_dynamic(code, is_attr, skip_escape);
    assert(done.push(value_step(code@, is_attr, skip_escape)).drop_last() =~= done);
}

/// Register a helper, as a step.
pub(crate) fn emit_helper(result: &SSRResult, ctx: &mut SSRContext, name: &str, Ghost(done): Ghost<Seq<SsrStep>>, Ghost(s0): Ghost<SsrState>)
    requires
        ssr_state(*result, *old(ctx)) == ssr_run(s0, done),
    ensures
        ssr_state(*result, *final(ctx)) == ssr_run(s0, done.push(SsrStep::Helper(name@))),
        same_ctx_meta(*final(ctx), *old(ctx)),
{
    ctx.register_helper(name);
    assert(done.push(SsrStep::Helper(name@)).drop_last() =~= done);
}

/// Render one attribute of an element into the result.
pub fn transform_attribute(
    attr: &JsxAttribute,
    result: &mut SSRResult,
    ctx: &mut SSRContext,
    source: &str,
    is_svg: bool,
)
    ensures
        ssr_state(*final(result), *final(ctx)) == ssr_run(
            ssr_state(*old(result), *old(ctx)),
            attribute_steps(source@, *attr, is_svg),
        ),
        same_meta(*final(result), *old(result)),
        same_ctx_meta(*final(ctx), *old(ctx)),
{
    let ghost s0 = ssr_state(*result, *ctx);
    let ghost e = Seq::<SsrStep>::empty();
    assert(ssr_run(s0, e) == s0);
    proof {
        reveal_strlit("ref");
        reveal_strlit("on");
        reveal_strlit("use:");
        reveal_strlit("prop:");
    }
    let key = attr_full_name(&attr.name);
    if str_eq(key.as_str(), "ref") || starts_with(key.as_str(), "on") || starts_with(
        key.as_str(),
        "use:",
    ) || starts_with(key.as_str(), "prop:") {
        return;
    }
    if is_child_property(key.as_str()) {
        return;
    }
    let name = if is_svg {
        to_owned(key.as_str())
    } else {
        alias(key.as_str())
    };
    match &attr.value {
        Some(JsxAttributeValue::StringLiteral(lit)) => {
            let mut t = to_owned(" ");
            push_str(&mut t, name.as_str());
            push_str(&mut t, "=\"");
            let escaped = escape_html(lit.value.as_str(), true);
            push_str(&mut t, escaped.as_str());
            push_str(&mut t, "\"");
            emit_text(result, ctx, t.as_str(), Ghost(e), Ghost(s0));
            assert(e.push(SsrStep::Text(t@)) =~= attribute_steps(source@, *attr, is_svg));
        },
        Some(JsxAttributeValue::ExpressionContainer(c)) => {
            match &c.expression {
                Some(ex) => {
                    let code = expr_code(source, ex);
                    let mut open = to_owned(" ");
                    push_str(&mut open, name.as_str());
                    push_str(&mut open, "=\"");
                    if str_eq(key.as_str(), "style") {
                        let ghost d1 = e.push(SsrStep::Helper("ssrStyle"@));
                        emit_helper(result, ctx, "ssrStyle", Ghost(e), Ghost(s0));
                        let ghost d2 = d1.push(SsrStep::Text(open@));
                        emit_text(result, ctx, open.as_str(), Ghost(d1), Ghost(s0));
                        let v = ssr_style(code.as_str());
                        let ghost d3 = d2.push(value_step(v@, false, true));
                        emit_value(result, ctx, v.as_str(), false, true, Ghost(d2), Ghost(s0));
                        emit_text(result, ctx, "\"", Ghost(d3), Ghost(s0));
                        assert(d3.push(SsrStep::Text("\""@)) =~= attribute_steps(
                            source@,
                            *attr,
                            is_svg,
                        ));
                    } else if str_eq(key.as_str(), "class") || str_eq(key.as_str(), "className") {
                        let ghost d1 = e.push(SsrStep::Helper("escape"@));
                        emit_helper(result, ctx, "escape", Ghost(e), Ghost(s0));
                        let ghost d2 = d1.push(SsrStep::Text(open@));
                        emit_text(result, ctx, open.as_str(), Ghost(d1), Ghost(s0));
                        let ghost d3 = d2.push(value_step(code@, true, false));
                        emit_value(result, ctx, code.as_str(), true, false, Ghost(d2), Ghost(s0));
                        emit_text(result, ctx, "\"", Ghost(d3), Ghost(s0));
                        assert(d3.push(SsrStep::Text("\""@)) =~= attribute_steps(
                            source@,
                            *attr,
                            is_svg,
                        ));
                    } else if str_eq(key.as_str(), "classList") {
                        let ghost d1 = e.push(SsrStep::Helper("ssrClassList"@));
                        emit_helper(result, ctx, "ssrClassList", Ghost(e), Ghost(s0));
                        let ghost d2 = d1.push(SsrStep::Text(" class=\""@));
                        emit_text(result, ctx, " class=\"", Ghost(d1), Ghost(s0));
                        let v = ssr_class_list(code.as_str());
                        let ghost d3 = d2.push(value_step(v@, false, true));
                        emit_value(result, ctx, v.as_str(), false, true, Ghost(d2), Ghost(s0));
                        emit_text(result, ctx, "\"", Ghost(d3), Ghost(s0));
                        assert(d3.push(SsrStep::Text("\""@)) =~= attribute_steps(
                            source@,
                            *attr,
                            is_svg,
                        ));
                    } else if is_property(key.as_str()) {
                        let ghost d1 = e.push(SsrStep::Helper("ssrAttribute"@));
                        emit_helper(result, ctx, "ssrAttribute", Ghost(e), Ghost(s0));
                        let v = ssr_attribute(name.as_str(), code.as_str(), true);
                        emit_value(result, ctx, v.as_str(), false, true, Ghost(d1), Ghost(s0));
                        assert(d1.push(value_step(v@, false, true)) =~= attribute_steps(
                            source@,
                            *attr,
                            is_svg,
                        ));
                    } else {
                        let ghost d1 = e.push(SsrStep::Helper("escape"@));
                        emit_helper(result, ctx, "escape", Ghost(e), Ghost(s0));
                        let ghost d2 = d1.push(SsrStep::Text(open@));
                        emit_text(result, ctx, open.as_str(), Ghost(d1), Ghost(s0));
                        let ghost d3 = d2.push(value_step(code@, true, false));
                        emit_value(result, ctx, code.as_str(), true, false, Ghost(d2), Ghost(s0));
                        emit_text(result, ctx, "\"", Ghost(d3), Ghost(s0));
                        assert(d3.push(SsrStep::Text("\""@)) =~= attribute_steps(
                            source@,
                            *attr,
                            is_svg,
                        ));
                    }
                },
                None => {},
            }
        },
        None => {
            let mut t = to_owned(" ");
            push_str(&mut t, name.as_str());
            emit_text(result, ctx, t.as_str(), Ghost(e), Ghost(s0));
            assert(e.push(SsrStep::Text(t@)) =~= attribute_steps(source@, *attr, is_svg));
        },
        _ => {},
    }
}

// ------------------------------------------------------------------
// Elements and children
// ------------------------------------------------------------------
/// The steps for the first `n` attributes of an element.
pub open spec fn attributes_steps(source: Seq<char>, attrs: Seq<JsxAttributeItem>, is_svg: bool, n: int) -> Seq<
    SsrStep,
>
    decreases n,
{
    if n <= 0 || n > attrs.len() {
        Seq::empty()
    } else {
        attributes_steps(source, attrs, is_svg, n - 1) + match attrs[n - 1] {
            JsxAttributeItem::Attribute(a) => attribute_steps(source, a, is_svg),
            _ => Seq::empty(),
        }
    }
}

/// One for a step that adds an attribute value, zero otherwise.
pub open spec fn attr_value_mark(step: SsrStep) -> nat {
    match step {
        SsrStep::Value(v) => if v.is_attr {
            1nat
        } else {
            0nat
        },
        _ => 0nat,
    }
}

/// How many values of the steps are attribute values.
pub open spec fn attr_value_count(steps: Seq<SsrStep>) -> nat
    decreases steps.len(),
{
    if steps.len() == 0 {
        0
    } else {
        attr_value_count(steps.drop_last()) + attr_value_mark(steps.last())
    }
}

proof fn lemma_count_small(steps: Seq<SsrStep>)
    requires
        steps.len() <= 4,
    ensures
        attr_value_count(steps) == (if steps.len() > 0 {
            attr_value_mark(steps[0])
        } else {
            0nat
        }) + (if steps.len() > 1 {
            attr_value_mark(steps[1])
        } else {
            0nat
        }) + (if steps.len() > 2 {
            attr_value_mark(steps[2])
        } else {
            0nat
        }) + (if steps.len() > 3 {
            attr_value_mark(steps[3])
        } else {
            0nat
        }),
    decreases steps.len(),
{
    if steps.len() > 0 {
        lemma_count_small(steps.drop_last());
    }
}

/// The attribute's value is an expression rendered as an escaped
/// attribute value: it is not client-only nor inner content, and it is a
/// class name or else none of `style`, `classList` and the boolean
/// properties.
pub open spec fn renders_attr_value(a: JsxAttribute) -> bool {
    let key = attr_full_name_spec(a.name);
    &&& match a.value {
        Some(JsxAttributeValue::ExpressionContainer(c)) => c.expression is Some,
        _ => false,
    }
    &&& !client_only_spec(key)
    &&& !child_properties_spec().contains(key)
    &&& (key == "class"@ || key == "className"@ || (key != "style"@ && key != "classList"@
        && !properties_spec().contains(key)))
}

/// How many of the first `n` attributes render an attribute value.
pub open spec fn rendered_attr_count(attrs: Seq<JsxAttributeItem>, n: int) -> nat
    decreases n,
{
    if n <= 0 || n > attrs.len() {
        0
    } else {
        rendered_attr_count(attrs, n - 1) + match attrs[n - 1] {
            JsxAttributeItem::Attribute(a) => if renders_attr_value(a) {
                1nat
            } else {
                0nat
            },
            _ => 0nat,
        }
    }
}

proof fn lemma_attr_value_count_append(a: Seq<SsrStep>, b: Seq<SsrStep>)
    ensures
        attr_value_count(a + b) == attr_value_count(a) + attr_value_count(b),
    decreases b.len(),
{
    if b.len() == 0 {
        assert(a + b =~= a);
    } else {
        assert((a + b).drop_last() =~= a + b.drop_last());
        lemma_attr_value_count_append(a, b.drop_last());
    }
}

proof fn lemma_attribute_value_count(source: Seq<char>, a: JsxAttribute, is_svg: bool)
    ensures
        attr_value_count(attribute_steps(source, a, is_svg)) == (if renders_attr_value(a) {
            1nat
        } else {
            0nat
        }),
{
    reveal_strlit("style");
    reveal_strlit("class");
    reveal_strlit("className");
    reveal_strlit("classList");
    let steps = attribute_steps(source, a, is_svg);
    lemma_count_small(steps);
    let key = attr_full_name_spec(a.name);
    if client_only_spec(key) || child_properties_spec().contains(key) {
        assert(steps.len() == 0);
        assert(!renders_attr_value(a));
    } else {
        match a.value {
            Some(JsxAttributeValue::ExpressionContainer(c)) => match c.expression {
                Some(e) => {
                    let code = expr_code_spec(source, e);
                    if key == "style"@ {
                        assert(key[0] == 's' && "class"@[0] == 'c' && "className"@.len() == 9);
                        assert(attr_value_mark(steps[0]) == 0);
                        assert(attr_value_mark(steps[1]) == 0);
                        assert(attr_value_mark(steps[2]) == 0);
                        assert(attr_value_mark(steps[3]) == 0);
                        assert(!renders_attr_value(a));
                    } else if key == "class"@ || key == "className"@ {
                        assert(attr_value_mark(steps[0]) == 0);
                        assert(attr_value_mark(steps[1]) == 0);
                        assert(attr_value_mark(steps[2]) == 1);
                        assert(attr_value_mark(steps[3]) == 0);
                        assert(renders_attr_value(a));
                    } else if key == "classList"@ {
                        assert(key[5] == 'L' && "className"@[5] == 'N' && "class"@.len() == 5);
                        assert(attr_value_mark(steps[0]) == 0);
                        assert(attr_value_mark(steps[1]) == 0);
                        assert(attr_value_mark(steps[2]) == 0);
                        assert(attr_value_mark(steps[3]) == 0);
                        assert(!renders_attr_value(a));
                    } else if properties_spec().contains(key) {
                        assert(steps.len() == 2);
                        assert(attr_value_mark(steps[0]) == 0);
                        assert(attr_value_mark(steps[1]) == 0);
                        assert(!renders_attr_value(a));
                    } else {
                        assert(attr_value_mark(steps[0]) == 0);
                        assert(attr_value_mark(steps[1]) == 0);
                        assert(attr_value_mark(steps[2]) == 1);
                        assert(attr_value_mark(steps[3]) == 0);
                        assert(renders_attr_value(a));
                    }
                },
                None => {
                    assert(steps.len() == 0);
                },
            },
            Some(JsxAttributeValue::StringLiteral(_)) => {
                assert(steps.len() == 1);
                assert(attr_value_mark(steps[0]) == 0);
            },
            None => {
                assert(steps.len() == 1);
                assert(attr_value_mark(steps[0]) == 0);
            },
            _ => {
                assert(steps.len() == 0);
            },
        }
    }
}

/// Every attribute of a native element that renders an attribute value
/// gives exactly one escaped attribute value in the server output, and no
/// other attribute gives one: the attribute values of the element's
/// attribute steps are as many as such attributes.
pub proof fn lemma_attribute_values_counted(source: Seq<char>, attrs: Seq<JsxAttributeItem>, is_svg: bool, n: int)
    ensures
        attr_value_count(attributes_steps(source, attrs, is_svg, n)) == rendered_attr_count(attrs, n),
    decreases n,
{
    if n <= 0 || n > attrs.len() {
        assert(attr_value_count(Seq::<SsrStep>::empty()) == 0);
    } else {
        lemma_attributes_values_step(source, attrs, is_svg, n);
    }
}

proof fn lemma_attributes_values_step(source: Seq<char>, attrs: Seq<JsxAttributeItem>, is_svg: bool, n: int)
    requires
        0 < n <= attrs.len(),
    ensures
        attr_value_count(attributes_steps(source, attrs, is_svg, n)) == rendered_attr_count(attrs, n),
    decreases n, 0int,
{
    lemma_attribute_values_counted(source, attrs, is_svg, n - 1);
    let front = attributes_steps(source, attrs, is_svg, n - 1);
    match attrs[n - 1] {
        JsxAttributeItem::Attribute(a) => {
            lemma_attr_value_count_append(front, attribute_steps(source, a, is_svg));
            lemma_attribute_value_count(source, a, is_svg);
        },
        _ => {
            lemma_attr_value_count_append(front, Seq::<SsrStep>::empty());
        },
    }
}

/// The element has a spread attribute.
pub open spec fn has_spread_spec(attrs: Seq<JsxAttributeItem>) -> bool {
    exists|i: int| 0 <= i < attrs.len() && #[trigger] attrs[i] is SpreadAttribute
}

/// The content an attribute sets in place of the children: `innerHTML`
/// unescaped, `textContent` or `innerText` escaped, each given as an
/// expression.
pub open spec fn inner_content_item(source: Seq<char>, item: JsxAttributeItem) -> Option<Seq<SsrStep>> {
    match item {
        JsxAttributeItem::Attribute(a) => match a.name {
            JsxAttributeName::Identifier(id) => match a.value {
                Some(JsxAttributeValue::ExpressionContainer(c)) => match c.expression {
                    Some(e) => if id.name@ == "innerHTML"@ {
                        Some(seq![value_step(expr_code_spec(source, e), false, true)])
                    } else if id.name@ == "textContent"@ || id.name@ == "innerText"@ {
                        Some(
                            seq![
                                SsrStep::Helper("escape"@),
                                value_step(expr_code_spec(source, e), false, false),
                            ],
                        )
                    } else {
                        None
                    },
                    None => None,
                },
                _ => None,
            },
            _ => None,
        },
        _ => None,
    }
}

/// The content set by the first attribute from index `k` on that sets one.
pub open spec fn inner_content_from(source: Seq<char>, attrs: Seq<JsxAttributeItem>, k: int) -> Option<
    Seq<SsrStep>,
>
    decreases attrs.len() - k,
{
    if k < 0 || k >= attrs.len() {
        None
    } else {
        match inner_content_item(source, attrs[k]) {
            Some(st) => Some(st),
            None => inner_content_from(source, attrs, k + 1),
        }
    }
}

/// The tag of a native element.
pub open spec fn tag_of(e: JsxElement) -> Seq<char> {
    match element_name_spec(e.opening_element.name) {
        Some(t) => t,
        None => Seq::empty(),
    }
}

/// The steps for a native element named `tag` (one `ssrElement` call for
/// an element with a spread attribute), or `None` where a descendant is a
/// component, which this transform does not render. `hydratable`: the
/// context and the options are both hydratable; `marked`: the context is,
/// so that nested results rendered as text carry hydration markers.
pub open spec fn element_steps(source: Seq<char>, hydratable: bool, marked: bool, e: JsxElement, tag: Seq<char>) -> Option<
    Seq<SsrStep>,
>
    decreases e, 2int,
{
    let attrs = e.opening_element.attributes@;
    if has_spread_spec(attrs) {
        spread_element_steps(source, hydratable, marked, e, tag)
    } else {
        let open = seq![SsrStep::Text("<"@ + tag)] + (if hydratable {
            seq![
                SsrStep::Helper("ssrHydrationKey"@),
                value_step("ssrHydrationKey()"@, false, true),
            ]
        } else {
            Seq::empty()
        }) + attributes_steps(source, attrs, svg_elements_spec().contains(tag), attrs.len() as int)
            + seq![SsrStep::Text(">"@)];
        if void_elements_spec().contains(tag) {
            Some(open)
        } else {
            let body = match inner_content_from(source, attrs, 0) {
                Some(st) => Some(st),
                None => {
                    proof {
                        assert(decreases_to!(e => e.children));
                        assert(decreases_to!(e.children => e.children@));
                    }
                    children_steps(
                        source,
                        hydratable,
                        marked,
                        e.children@,
                        tag == "script"@ || tag == "style"@,
                        e.children@.len() as int,
                    )
                },
            };
            match body {
                Some(b) => Some(open + b + seq![SsrStep::Text("</"@ + tag + ">"@)]),
                None => None,
            }
        }
    }
}

/// The steps for the first `n` children, text escaped unless
/// `skip_escape`, or `None` where one of them is not rendered.
pub open spec fn children_steps(
    source: Seq<char>,
    hydratable: bool,
    marked: bool,
    children: Seq<JsxChild>,
    skip_escape: bool,
    n: int,
) -> Option<Seq<SsrStep>>
    decreases children, n,
{
    if n <= 0 || n > children.len() {
        Some(Seq::empty())
    } else {
        match children_steps(source, hydratable, marked, children, skip_escape, n - 1) {
            None => None,
            Some(front) => {
                let last = match children[n - 1] {
                    JsxChild::Text(t) => {
                        let content = trim_whitespace_spec(t.value@);
                        if content.len() == 0 {
                            Some(Seq::empty())
                        } else if skip_escape {
                            Some(seq![SsrStep::Text(content)])
                        } else {
                            Some(seq![SsrStep::Text(escape_html_spec(content, false))])
                        }
                    },
                    JsxChild::Element(c) => {
                        proof {
                            assert(decreases_to!(children => children[n - 1]));
                        }
                        if is_component_spec(c.opening_element.name) {
                            None
                        } else {
                            element_steps(source, hydratable, marked, *c, tag_of(*c))
                        }
                    },
                    JsxChild::ExpressionContainer(c) => match c.expression {
                        Some(e) => if skip_escape {
                            Some(seq![value_step(expr_code_spec(source, e), false, true)])
                        } else {
                            Some(
                                seq![
                                    SsrStep::Helper("escape"@),
                                    value_step(expr_code_spec(source, e), false, false),
                                ],
                            )
                        },
                        None => Some(Seq::empty()),
                    },
                    JsxChild::Fragment(f) => {
                        proof {
                            assert(decreases_to!(children => children[n - 1]));
                        }
                        children_steps(
                            source,
                            hydratable,
                            marked,
                            f.children@,
                            skip_escape,
                            f.children@.len() as int,
                        )
                    },
                    JsxChild::Spread(_) => Some(Seq::empty()),
                };
                match last {
                    Some(l) => Some(front + l),
                    None => None,
                }
            },
        }
    }
}

/// Once a prefix of the children cannot be rendered, no longer prefix can.
proof fn lemma_children_none(
    source: Seq<char>,
    hydratable: bool,
    marked: bool,
    children: Seq<JsxChild>,
    skip_escape: bool,
    n: int,
    m: int,
)
    requires
        0 <= n <= m <= children.len(),
        children_steps(source, hydratable, marked, children, skip_escape, n) is None,
    ensures
        children_steps(source, hydratable, marked, children, skip_escape, m) is None,
    decreases m - n,
{
    if n < m {
        lemma_children_none(source, hydratable, marked, children, skip_escape, n + 1, m);
    }
}

/// Render the attributes of an element.
pub fn transform_attributes(
    element: &JsxElement,
    result: &mut SSRResult,
    ctx: &mut SSRContext,
    source: &str,
    is_svg: bool,
)
    ensures
        ssr_state(*final(result), *final(ctx)) == ssr_run(
            ssr_state(*old(result), *old(ctx)),
            attributes_steps(
                source@,
                element.opening_element.attributes@,
                is_svg,
                element.opening_element.attributes@.len() as int,
            ),
        ),
        same_meta(*final(result), *old(result)),
        same_ctx_meta(*final(ctx), *old(ctx)),
{
    let ghost s0 = ssr_state(*result, *ctx);
    let ghost attrs = element.opening_element.attributes@;
    let mut k: usize = 0;
    while k < element.opening_element.attributes.len()
        invariant
            attrs == element.opening_element.attributes@,
            k <= attrs.len(),
            ssr_state(*result, *ctx) == ssr_run(s0, attributes_steps(source@, attrs, is_svg, k as int)),
            same_meta(*result, *old(result)),
            same_ctx_meta(*ctx, *old(ctx)),
        decreases attrs.len() - k,
    {
        let ghost before = attributes_steps(source@, attrs, is_svg, k as int);
        if let JsxAttributeItem::Attribute(a) = &element.opening_element.attributes[k] {
            transform_attribute(a, result, ctx, source, is_svg);
            proof {
                lemma_ssr_run_append(s0, before, attribute_steps(source@, *a, is_svg));
            }
        } else {
            assert(before + Seq::<SsrStep>::empty() =~= before);
        }
        k = k + 1;
    }
}

/// The content set by the first attribute from index `k` on that sets
/// one, rendered; whether there was one.
fn transform_inner_content(
    element: &JsxElement,
    result: &mut SSRResult,
    ctx: &mut SSRContext,
    source: &str,
) -> (found: bool)
    ensures
        found == inner_content_from(source@, element.opening_element.attributes@, 0) is Some,
        match inner_content_from(source@, element.opening_element.attributes@, 0) {
            Some(st) => ssr_state(*final(result), *final(ctx)) == ssr_run(
                ssr_state(*old(result), *old(ctx)),
                st,
            ),
            None => ssr_state(*final(result), *final(ctx)) == ssr_state(*old(result), *old(ctx)),
        },
        same_meta(*final(result), *old(result)),
        same_ctx_meta(*final(ctx), *old(ctx)),
{
    let ghost s0 = ssr_state(*result, *ctx);
    let ghost attrs = element.opening_element.attributes@;
    let ghost e = Seq::<SsrStep>::empty();
    assert(ssr_run(s0, e) == s0);
    let n = element.opening_element.attributes.len();
    let mut k: usize = 0;
    while k < n
        invariant
            attrs == element.opening_element.attributes@,
            n == attrs.len(),
            k <= n,
            inner_content_from(source@, attrs, 0) == inner_content_from(source@, attrs, k as int),
            ssr_state(*result, *ctx) == s0,
            e == Seq::<SsrStep>::empty(),
            ssr_run(s0, e) == s0,
            s0 == ssr_state(*old(result), *old(ctx)),
            same_meta(*result, *old(result)),
            same_ctx_meta(*ctx, *old(ctx)),
        decreases n - k,
    {
        if let JsxAttributeItem::Attribute(a) = &element.opening_element.attributes[k] {
            if let JsxAttributeName::Identifier(id) = &a.name {
                if let Some(JsxAttributeValue::ExpressionContainer(c)) = &a.value {
                    if let Some(ex) = &c.expression {
                        if str_eq(id.name.as_str(), "innerHTML") {
                            let code = expr_code(source, ex);
                            emit_value(result, ctx, code.as_str(), false, true, Ghost(e), Ghost(s0));
                            assert(e.push(value_step(code@, false, true)) =~= seq![
                                value_step(code@, false, true),
                            ]);
                            assert(attrs[k as int] == JsxAttributeItem::Attribute(*a));
                            assert(inner_content_item(source@, attrs[k as int]) == Some(
                                seq![value_step(code@, false, true)],
                            ));
                            assert(inner_content_from(source@, attrs, k as int) == Some(
                                seq![value_step(code@, false, true)],
                            ));
                            return true;
                        } else if str_eq(id.name.as_str(), "textContent") || str_eq(
                            id.name.as_str(),
                            "innerText",
                        ) {
                            let code = expr_code(source, ex);
                            let ghost d1 = e.push(SsrStep::Helper("escape"@));
                            emit_helper(result, ctx, "escape", Ghost(e), Ghost(s0));
                            emit_value(result, ctx, code.as_str(), false, false, Ghost(d1), Ghost(s0));
                            assert(d1.push(value_step(code@, false, false)) =~= seq![
                                SsrStep::Helper("escape"@),
                                value_step(code@, false, false),
                            ]);
                            assert(attrs[k as int] == JsxAttributeItem::Attribute(*a));
                            assert(inner_content_item(source@, attrs[k as int]) == Some(
                                seq![SsrStep::Helper("escape"@), value_step(code@, false, false)],
                            ));
                            assert(inner_content_from(source@, attrs, k as int) == Some(
                                seq![SsrStep::Helper("escape"@), value_step(code@, false, false)],
                            ));
                            return true;
                        }
                    }
                }
            }
        }
        k = k + 1;
    }
    false
}

/// Render a list of children, text escaped unless `skip_escape`; whether
/// every child could be rendered (a component cannot).
pub fn process_jsx_children(
    children: &[JsxChild],
    result: &mut SSRResult,
    ctx: &mut SSRContext,
    source: &str,
    hydratable: bool,
    skip_escape: bool,
) -> (ok: bool)
    ensures
        ok == children_steps(source@, hydratable, old(ctx).hydratable, children@, skip_escape, children@.len() as int) is Some,
        match children_steps(source@, hydratable, old(ctx).hydratable, children@, skip_escape, children@.len() as int) {
            Some(st) => ssr_state(*final(result), *final(ctx)) == ssr_run(
                ssr_state(*old(result), *old(ctx)),
                st,
            ),
            None => true,
        },
        same_meta(*final(result), *old(result)),
        same_ctx_meta(*final(ctx), *old(ctx)),
    decreases children@, children@.len() + 1,
{
    let ghost s0 = ssr_state(*result, *ctx);
    let mut k: usize = 0;
    while k < children.len()
        invariant
            k <= children@.len(),
            children_steps(source@, hydratable, old(ctx).hydratable, children@, skip_escape, k as int) is Some,
            ssr_state(*result, *ctx) == ssr_run(
                s0,
                children_steps(source@, hydratable, old(ctx).hydratable, children@, skip_escape, k as int)->0,
            ),
            same_meta(*result, *old(result)),
            same_ctx_meta(*ctx, *old(ctx)),
        decreases children@.len() - k,
    {
        let ghost done = children_steps(source@, hydratable, old(ctx).hydratable, children@, skip_escape, k as int)->0;
        match &children[k] {
            JsxChild::Text(t) => {
                let content = trim_whitespace(t.value.as_str());
                if !content.as_str().is_empty() {
                    if skip_escape {
                        emit_text(result, ctx, content.as_str(), Ghost(done), Ghost(s0));
                        assert(done.push(SsrStep::Text(content@)) =~= done + seq![SsrStep::Text(content@)]);
                    } else {
                        let escaped = escape_html(content.as_str(), false);
                        emit_text(result, ctx, escaped.as_str(), Ghost(done), Ghost(s0));
                        assert(done.push(SsrStep::Text(escaped@)) =~= done + seq![SsrStep::Text(escaped@)]);
                    }
                } else {
                    assert(done + Seq::<SsrStep>::empty() =~= done);
                }
            },
            JsxChild::Element(c) => {
                proof {
                    assert(decreases_to!(children@ => children@[k as int]));
                }
                if is_component(&c.opening_element) {
                    proof {
                        lemma_children_none(source@, hydratable, old(ctx).hydratable, children@, skip_escape, k + 1, children@.len() as int);
                    }
                    return false;
                }
                let tag = match get_element_name(&c.opening_element) {
                    Some(t) => t,
                    None => String::new(),
                };
                let ok = append_element(c, tag.as_str(), result, ctx, source, hydratable);
                if !ok {
                    proof {
                        lemma_children_none(source@, hydratable, old(ctx).hydratable, children@, skip_escape, k + 1, children@.len() as int);
                    }
                    return false;
                }
                proof {
                    let st = element_steps(source@, hydratable, old(ctx).hydratable, **c, tag_of(**c))->0;
                    lemma_ssr_run_append(s0, done, st);
                }
            },
            JsxChild::ExpressionContainer(c) => {
                match &c.expression {
                    Some(ex) => {
                        let code = expr_code(source, ex);
                        if skip_escape {
                            emit_value(result, ctx, code.as_str(), false, true, Ghost(done), Ghost(s0));
                            assert(done.push(value_step(code@, false, true)) =~= done + seq![
                                value_step(code@, false, true),
                            ]);
                        } else {
                            let ghost d1 = done.push(SsrStep::Helper("escape"@));
                            emit_helper(result, ctx, "escape", Ghost(done), Ghost(s0));
                            emit_value(result, ctx, code.as_str(), false, false, Ghost(d1), Ghost(s0));
                            assert(d1.push(value_step(code@, false, false)) =~= done + seq![
                                SsrStep::Helper("escape"@),
                                value_step(code@, false, false),
                            ]);
                        }
                    },
                    None => {
                        assert(done + Seq::<SsrStep>::empty() =~= done);
                    },
                }
            },
            JsxChild::Fragment(f) => {
                proof {
                    assert(decreases_to!(children@ => children@[k as int]));
                }
                let ok = process_jsx_children(
                    f.children.as_slice(),
                    result,
                    ctx,
                    source,
                    hydratable,
                    skip_escape,
                );
                if !ok {
                    proof {
                        lemma_children_none(source@, hydratable, old(ctx).hydratable, children@, skip_escape, k + 1, children@.len() as int);
                    }
                    return false;
                }
                proof {
                    let st = children_steps(
                        source@,
                        hydratable,
                        old(ctx).hydratable,
                        f.children@,
                        skip_escape,
                        f.children@.len() as int,
                    )->0;
                    lemma_ssr_run_append(s0, done, st);
                }
            },
            JsxChild::Spread(_) => {
                assert(done + Seq::<SsrStep>::empty() =~= done);
            },
        }
        k = k + 1;
    }
    true
}

/// Render the children of an element: the content an attribute sets, if
/// one does, otherwise the children themselves.
pub fn transform_children(
    element: &JsxElement,
    result: &mut SSRResult,
    ctx: &mut SSRContext,
    source: &str,
    hydratable: bool,
    skip_escape: bool,
) -> (ok: bool)
    ensures
        ({
            let attrs = element.opening_element.attributes@;
            let body = match inner_content_from(source@, attrs, 0) {
                Some(st) => Some(st),
                None => children_steps(
                    source@,
                    hydratable,
                    old(ctx).hydratable,
                    element.children@,
                    skip_escape,
                    element.children@.len() as int,
                ),
            };
            &&& ok == body is Some
            &&& (body matches Some(st) ==> ssr_state(*final(result), *final(ctx)) == ssr_run(
                ssr_state(*old(result), *old(ctx)),
                st,
            ))
        }),
        same_meta(*final(result), *old(result)),
        same_ctx_meta(*final(ctx), *old(ctx)),
    decreases element, 1int,
{
    if transform_inner_content(element, result, ctx, source) {
        return true;
    }
    proof {
        assert(decreases_to!(*element => element.children));
        assert(decreases_to!(element.children => element.children@));
    }
    process_jsx_children(element.children.as_slice(), result, ctx, source, hydratable, skip_escape)
}

/// Render a native element named `tag` into the result; whether it and
/// all its descendants could be rendered.
pub(crate) fn append_element(
    element: &JsxElement,
    tag: &str,
    result: &mut SSRResult,
    ctx: &mut SSRContext,
    source: &str,
    hydratable: bool,
) -> (ok: bool)
    ensures
        ok == element_steps(source@, hydratable, old(ctx).hydratable, *element, tag@) is Some,
        match element_steps(source@, hydratable, old(ctx).hydratable, *element, tag@) {
            Some(st) => ssr_state(*final(result), *final(ctx)) == ssr_run(
                ssr_state(*old(result), *old(ctx)),
                st,
            ),
            None => true,
        },
        same_meta(*final(result), *old(result)),
        same_ctx_meta(*final(ctx), *old(ctx)),
    decreases element, 2int,
{
    let ghost s0 = ssr_state(*result, *ctx);
    let ghost attrs = element.opening_element.attributes@;
    if has_spread_attr(element) {
        return append_spread(element, tag, result, ctx, source, hydratable);
    }
    assert(!has_spread_spec(attrs));
    let ghost e = Seq::<SsrStep>::empty();
    assert(ssr_run(s0, e) == s0);
    let mut open = to_owned("<");
    push_str(&mut open, tag);
    emit_text(result, ctx, open.as_str(), Ghost(e), Ghost(s0));
    let ghost d1 = e.push(SsrStep::Text(open@));
    let ghost hyd_steps = if hydratable {
        seq![SsrStep::Helper("ssrHydrationKey"@), value_step("ssrHydrationKey()"@, false, true)]
    } else {
        Seq::<SsrStep>::empty()
    };
    if hydratable {
        emit_helper(result, ctx, "ssrHydrationKey", Ghost(d1), Ghost(s0));
        let ghost d2 = d1.push(SsrStep::Helper("ssrHydrationKey"@));
        let key = ssr_hydration_key();
        emit_value(result, ctx, key, false, true, Ghost(d2), Ghost(s0));
        assert(d2.push(value_step(key@, false, true)) =~= d1 + hyd_steps);
    } else {
        assert(d1 + hyd_steps =~= d1);
    }
    let ghost d3 = d1 + hyd_steps;
    let is_svg = is_svg_element(tag);
    let ghost attr_steps = attributes_steps(source@, attrs, is_svg, attrs.len() as int);
    transform_attributes(element, result, ctx, source, is_svg);
    proof {
        lemma_ssr_run_append(s0, d3, attr_steps);
    }
    emit_text(result, ctx, ">", Ghost(d3 + attr_steps), Ghost(s0));
    let ghost open_steps = (d3 + attr_steps).push(SsrStep::Text(">"@));
    assert(open_steps =~= seq![SsrStep::Text("<"@ + tag@)] + hyd_steps + attr_steps + seq![
        SsrStep::Text(">"@),
    ]) by {
        assert(open@ == "<"@ + tag@);
    }
    if is_void_element(tag) {
        return true;
    }
    proof {
        reveal_strlit("script");
        reveal_strlit("style");
    }
    let skip = str_eq(tag, "script") || str_eq(tag, "style");
    let ok = transform_children(element, result, ctx, source, hydratable, skip);
    if !ok {
        return false;
    }
    let ghost body = match inner_content_from(source@, attrs, 0) {
        Some(st) => st,
        None => children_steps(source@, hydratable, old(ctx).hydratable, element.children@, skip, element.children@.len() as int)->0,
    };
    proof {
        lemma_ssr_run_append(s0, open_steps, body);
    }
    let mut close = to_owned("</");
    push_str(&mut close, tag);
    push_str(&mut close, ">");
    emit_text(result, ctx, close.as_str(), Ghost(open_steps + body), Ghost(s0));
    assert((open_steps + body).push(SsrStep::Text(close@)) =~= open_steps + body + seq![
        SsrStep::Text("</"@ + tag@ + ">"@),
    ]);
    true
}

/// Whether an element has a spread attribute.
pub fn has_spread_attr(element: &JsxElement) -> (r: bool)
    ensures
        r == has_spread_spec(element.opening_element.attributes@),
{
    let ghost attrs = element.opening_element.attributes@;
    let mut k: usize = 0;
    while k < element.opening_element.attributes.len()
        invariant
            attrs == element.opening_element.attributes@,
            k <= attrs.len(),
            forall|i: int| 0 <= i < k ==> !(#[trigger] attrs[i] is SpreadAttribute),
        decreases attrs.len() - k,
    {
        if let JsxAttributeItem::SpreadAttribute(_) = &element.opening_element.attributes[k] {
            assert(attrs[k as int] is SpreadAttribute);
            return true;
        }
        k = k + 1;
    }
    false
}

// ------------------------------------------------------------------
// Elements with a spread attribute
// ------------------------------------------------------------------
/// One entry of the props object of an element with a spread attribute:
/// `...expr` for a spread, `"name": value` for an attribute the server
/// renders (a string value escaped, no value giving `true`).
pub open spec fn spread_prop_entry(source: Seq<char>, item: JsxAttributeItem, is_svg: bool) -> Option<
    Seq<char>,
> {
    match item {
        JsxAttributeItem::SpreadAttribute(sp) => Some("..."@ + expr_code_spec(source, sp.argument)),
        JsxAttributeItem::Attribute(a) => {
            let key = attr_full_name_spec(a.name);
            let name = if is_svg {
                key
            } else {
                alias_spec(key)
            };
            if client_only_spec(key) {
                None
            } else {
                match a.value {
                    Some(JsxAttributeValue::StringLiteral(l)) => Some(
                        "\""@ + name + "\": \""@ + escape_html_spec(l.value@, true) + "\""@,
                    ),
                    Some(JsxAttributeValue::ExpressionContainer(c)) => match c.expression {
                        Some(e) => Some("\""@ + name + "\": "@ + expr_code_spec(source, e)),
                        None => None,
                    },
                    None => Some("\""@ + name + "\": true"@),
                    _ => None,
                }
            }
        },
    }
}

/// The entries of the props object for the first `n` attributes.
pub open spec fn spread_props_spec(source: Seq<char>, attrs: Seq<JsxAttributeItem>, is_svg: bool, n: int) -> Seq<
    Seq<char>,
>
    decreases n,
{
    if n <= 0 || n > attrs.len() {
        Seq::empty()
    } else {
        let front = spread_props_spec(source, attrs, is_svg, n - 1);
        match spread_prop_entry(source, attrs[n - 1], is_svg) {
            Some(en) => front.push(en),
            None => front,
        }
    }
}

/// An object literal of the entries.
pub open spec fn object_text(entries: Seq<Seq<char>>) -> Seq<char> {
    if entries.len() == 0 {
        "{}"@
    } else {
        "{ "@ + join_spec(entries, ", "@) + " }"@
    }
}

/// The text of a result rendered from no parts by the steps, with
/// hydration markers where `marked`.
pub open spec fn rendered_text(st: Seq<SsrStep>, marked: bool) -> Seq<char> {
    let s = ssr_run(fresh_state(Seq::empty()), st);
    crate::ssr::ssr_call_spec(s.parts, s.values, marked)
}

/// The helper registrations and child expressions of the first `n`
/// children of an element with a spread attribute: non-blank text as an
/// escaped string literal, an expression as `escape(expr)`, a native
/// element as the text it renders to; `None` where a child is a component
/// or cannot be rendered.
pub open spec fn spread_children_spec(
    source: Seq<char>,
    hydratable: bool,
    marked: bool,
    children: Seq<JsxChild>,
    n: int,
) -> Option<(Seq<SsrStep>, Seq<Seq<char>>)>
    decreases children, n,
{
    if n <= 0 || n > children.len() {
        Some((Seq::empty(), Seq::empty()))
    } else {
        match spread_children_spec(source, hydratable, marked, children, n - 1) {
            None => None,
            Some((h, t)) => match children[n - 1] {
                JsxChild::Text(x) => {
                    let content = trim_whitespace_spec(x.value@);
                    if content.len() > 0 {
                        Some((h, t.push("\""@ + escape_html_spec(content, false) + "\""@)))
                    } else {
                        Some((h, t))
                    }
                },
                JsxChild::ExpressionContainer(c) => match c.expression {
                    Some(e) => Some((h, t.push("escape("@ + expr_code_spec(source, e) + ")"@))),
                    None => Some((h, t)),
                },
                JsxChild::Element(c) => {
                    proof {
                        assert(decreases_to!(children => children[n - 1]));
                    }
                    if is_component_spec(c.opening_element.name) {
                        None
                    } else {
                        match element_steps(source, hydratable, marked, *c, tag_of(*c)) {
                            Some(st) => Some((h + helper_steps(st), t.push(rendered_text(st, marked)))),
                            None => None,
                        }
                    }
                },
                _ => Some((h, t)),
            },
        }
    }
}

/// The texts of rendered children, if they could be rendered.
pub open spec fn texts_of(o: Option<(Seq<SsrStep>, Seq<Seq<char>>)>) -> Seq<Seq<char>> {
    match o {
        Some((_, t)) => t,
        None => Seq::empty(),
    }
}

/// The helper registrations of rendered children, if they could be
/// rendered.
pub open spec fn helpers_of(o: Option<(Seq<SsrStep>, Seq<Seq<char>>)>) -> Seq<SsrStep> {
    match o {
        Some((h, _)) => h,
        None => Seq::empty(),
    }
}

/// The children argument of `ssrElement`: `null` for none, the one child,
/// or an array of them.
pub open spec fn spread_children_expr(has_children: bool, t: Seq<Seq<char>>) -> Seq<char> {
    if !has_children || t.len() == 0 {
        "null"@
    } else if t.len() == 1 {
        t[0]
    } else {
        "["@ + join_spec(t, ", "@) + "]"@
    }
}

/// The steps for an element with a spread attribute: one `ssrElement`
/// call taking the tag, the props object, the children and whether a
/// hydration key is needed.
pub open spec fn spread_element_steps(
    source: Seq<char>,
    hydratable: bool,
    marked: bool,
    e: JsxElement,
    tag: Seq<char>,
) -> Option<Seq<SsrStep>>
    decreases e, 1int,
{
    let attrs = e.opening_element.attributes@;
    let props = object_text(
        spread_props_spec(source, attrs, svg_elements_spec().contains(tag), attrs.len() as int),
    );
    proof {
        assert(decreases_to!(e => e.children));
        assert(decreases_to!(e.children => e.children@));
    }
    match spread_children_spec(source, hydratable, marked, e.children@, e.children@.len() as int) {
        Some((h, t)) => Some(
            (seq![SsrStep::Helper("ssrElement"@), SsrStep::Helper("escape"@)] + h).push(
                value_step(
                    "ssrElement(\""@ + tag + "\", "@ + props + ", "@ + spread_children_expr(
                        e.children@.len() > 0,
                        t,
                    ) + ", "@ + (if hydratable {
                        "true"@
                    } else {
                        "false"@
                    }) + ")"@,
                    false,
                    true,
                ),
            ),
        ),
        None => None,
    }
}

/// The props object of an element with a spread attribute.
fn spread_props_text(element: &JsxElement, source: &str, is_svg: bool) -> (r: String)
    ensures
        r@ == object_text(
            spread_props_spec(
                source@,
                element.opening_element.attributes@,
                is_svg,
                element.opening_element.attributes@.len() as int,
            ),
        ),
{
    let ghost attrs = element.opening_element.attributes@;
    let mut entries: Vec<String> = Vec::new();
    let mut k: usize = 0;
    proof {
        reveal_strlit("ref");
        reveal_strlit("on");
        reveal_strlit("use:");
        reveal_strlit("prop:");
    }
    while k < element.opening_element.attributes.len()
        invariant
            attrs == element.opening_element.attributes@,
            k <= attrs.len(),
            views(entries@) == spread_props_spec(source@, attrs, is_svg, k as int),
        decreases attrs.len() - k,
    {
        let ghost before = views(entries@);
        match &element.opening_element.attributes[k] {
            JsxAttributeItem::SpreadAttribute(sp) => {
                let mut en = to_owned("...");
                let code = expr_code(source, &sp.argument);
                push_str(&mut en, code.as_str());
                entries.push(en);
                assert(views(entries@) =~= before.push(en@));
            },
            JsxAttributeItem::Attribute(a) => {
                let key = attr_full_name(&a.name);
                if !(str_eq(key.as_str(), "ref") || starts_with(key.as_str(), "on") || starts_with(
                    key.as_str(),
                    "use:",
                ) || starts_with(key.as_str(), "prop:")) {
                    let name = if is_svg {
                        to_owned(key.as_str())
                    } else {
                        alias(key.as_str())
                    };
                    let mut en = to_owned("\"");
                    push_str(&mut en, name.as_str());
                    match &a.value {
                        Some(JsxAttributeValue::StringLiteral(l)) => {
                            push_str(&mut en, "\": \"");
                            let v = escape_html(l.value.as_str(), true);
                            push_str(&mut en, v.as_str());
                            push_str(&mut en, "\"");
                            entries.push(en);
                            assert(views(entries@) =~= before.push(en@));
                        },
                        Some(JsxAttributeValue::ExpressionContainer(c)) => {
                            if let Some(ex) = &c.expression {
                                push_str(&mut en, "\": ");
                                let code = expr_code(source, ex);
                                push_str(&mut en, code.as_str());
                                entries.push(en);
                                assert(views(entries@) =~= before.push(en@));
                            }
                        },
                        None => {
                            push_str(&mut en, "\": true");
                            entries.push(en);
                            assert(views(entries@) =~= before.push(en@));
                        },
                        _ => {},
                    }
                }
            },
        }
        k = k + 1;
    }
    assert(views(entries@) == spread_props_spec(source@, attrs, is_svg, attrs.len() as int));
    if entries.len() == 0 {
        to_owned("{}")
    } else {
        let j = join(entries.as_slice(), ", ");
        let mut r = to_owned("{ ");
        push_str(&mut r, j.as_str());
        push_str(&mut r, " }");
        r
    }
}

/// Render the children of an element with a spread attribute as child
/// expressions, registering the helpers their rendering needs.
fn spread_children(
    children: &[JsxChild],
    ctx: &mut SSRContext,
    source: &str,
    hydratable: bool,
) -> (r: Option<Vec<String>>)
    ensures
        match spread_children_spec(
            source@,
            hydratable,
            old(ctx).hydratable,
            children@,
            children@.len() as int,
        ) {
            Some((h, t)) => {
                &&& r matches Some(v) && views(v@) == t
                &&& ssr_run(fresh_state(name_set_view(old(ctx).helpers)), h) == fresh_state(
                    name_set_view(final(ctx).helpers),
                )
            },
            None => r is None,
        },
        same_ctx_meta(*final(ctx), *old(ctx)),
    decreases children@, children@.len() + 1,
{
    let ghost h0 = name_set_view(ctx.helpers);
    let ghost m = ctx.hydratable;
    let mut texts: Vec<String> = Vec::new();
    let n = children.len();
    let mut k: usize = 0;
    assert(ssr_run(fresh_state(h0), Seq::<SsrStep>::empty()) == fresh_state(h0));
    while k < n
        invariant
            n == children@.len(),
            k <= n,
            m == old(ctx).hydratable,
            spread_children_spec(source@, hydratable, m, children@, k as int) is Some,
            views(texts@) == texts_of(spread_children_spec(source@, hydratable, m, children@, k as int)),
            ssr_run(fresh_state(h0), helpers_of(spread_children_spec(source@, hydratable, m, children@, k as int)))
                == fresh_state(name_set_view(ctx.helpers)),
            h0 == name_set_view(old(ctx).helpers),
            same_ctx_meta(*ctx, *old(ctx)),
        decreases n - k,
    {
        let ghost h = helpers_of(spread_children_spec(source@, hydratable, m, children@, k as int));
        let ghost before = views(texts@);
        let ghost hk = name_set_view(ctx.helpers);
        match &children[k] {
            JsxChild::Text(x) => {
                let content = trim_whitespace(x.value.as_str());
                if !content.as_str().is_empty() {
                    let mut s = to_owned("\"");
                    let esc = escape_html(content.as_str(), false);
                    push_str(&mut s, esc.as_str());
                    push_str(&mut s, "\"");
                    texts.push(s);
                    assert(views(texts@) =~= before.push(s@));
                }
            },
            JsxChild::ExpressionContainer(c) => {
                if let Some(e) = &c.expression {
                    let mut s = to_owned("escape(");
                    let code = expr_code(source, e);
                    push_str(&mut s, code.as_str());
                    push_str(&mut s, ")");
                    texts.push(s);
                    assert(views(texts@) =~= before.push(s@));
                }
            },
            JsxChild::Element(c) => {
                proof {
                    assert(decreases_to!(children@ => children@[k as int]));
                }
                if is_component(&c.opening_element) {
                    proof {
                        lemma_spread_children_none(source@, hydratable, m, children@, k + 1, n as int);
                    }
                    return None;
                }
                let tag = match get_element_name(&c.opening_element) {
                    Some(t) => t,
                    None => String::new(),
                };
                let mut res = SSRResult::new();
                assert(views(res.template_parts@) =~= Seq::<Seq<char>>::empty());
                assert(values_view(res.template_values@) =~= Seq::<TemplateValueView>::empty());
                assert(ssr_state(res, *ctx) == fresh_state(hk));
                if !append_element(c, tag.as_str(), &mut res, ctx, source, hydratable) {
                    proof {
                        lemma_spread_children_none(source@, hydratable, m, children@, k + 1, n as int);
                    }
                    return None;
                }
                let ghost st = element_steps(source@, hydratable, m, **c, tag_of(**c))->0;
                proof {
                    lemma_parts_ignore_helpers(fresh_state(hk), fresh_state(Seq::empty()), st);
                    lemma_ssr_run_append(fresh_state(h0), h, helper_steps(st));
                    lemma_helper_steps(fresh_state(hk), st);
                }
                let t = res.to_ssr_call_with_hydration(ctx.hydratable);
                texts.push(t);
                assert(views(texts@) =~= before.push(t@));
                assert(ssr_run(fresh_state(h0), h + helper_steps(st)) =~= fresh_state(
                    name_set_view(ctx.helpers),
                ));
            },
            _ => {},
        }
        k = k + 1;
    }
    Some(texts)
}

/// Once the children up to `n` cannot be rendered, none further on can.
proof fn lemma_spread_children_none(
    source: Seq<char>,
    hydratable: bool,
    marked: bool,
    children: Seq<JsxChild>,
    n: int,
    m: int,
)
    requires
        0 <= n <= m <= children.len(),
        spread_children_spec(source, hydratable, marked, children, n) is None,
    ensures
        spread_children_spec(source, hydratable, marked, children, m) is None,
    decreases m - n,
{
    if n < m {
        lemma_spread_children_none(source, hydratable, marked, children, n + 1, m);
    }
}

/// Render an element with a spread attribute into the result as one
/// `ssrElement` call; whether its children could be rendered.
fn append_spread(
    element: &JsxElement,
    tag: &str,
    result: &mut SSRResult,
    ctx: &mut SSRContext,
    source: &str,
    hydratable: bool,
) -> (ok: bool)
    ensures
        ok == spread_element_steps(source@, hydratable, old(ctx).hydratable, *element, tag@) is Some,
        match spread_element_steps(source@, hydratable, old(ctx).hydratable, *element, tag@) {
            Some(st) => ssr_state(*final(result), *final(ctx)) == ssr_run(
                ssr_state(*old(result), *old(ctx)),
                st,
            ),
            None => true,
        },
        same_meta(*final(result), *old(result)),
        same_ctx_meta(*final(ctx), *old(ctx)),
    decreases element, 1int,
{
    let ghost s0 = ssr_state(*result, *ctx);
    let ghost e = Seq::<SsrStep>::empty();
    assert(ssr_run(s0, e) == s0);
    emit_helper(result, ctx, "ssrElement", Ghost(e), Ghost(s0));
    let ghost d1 = e.push(SsrStep::Helper("ssrElement"@));
    emit_helper(result, ctx, "escape", Ghost(d1), Ghost(s0));
    let ghost pre = d1.push(SsrStep::Helper("escape"@));
    assert(pre =~= seq![SsrStep::Helper("ssrElement"@), SsrStep::Helper("escape"@)]);
    let ghost hp = name_set_view(ctx.helpers);
    let ghost sp = ssr_state(*result, *ctx);
    let is_svg = is_svg_element(tag);
    let props = spread_props_text(element, source, is_svg);
    proof {
        assert(decreases_to!(*element => element.children));
        assert(decreases_to!(element.children => element.children@));
    }
    let texts = match spread_children(element.children.as_slice(), ctx, source, hydratable) {
        Some(t) => t,
        None => {
            return false;
        },
    };
    let ghost ht = spread_children_spec(
        source@,
        hydratable,
        old(ctx).hydratable,
        element.children@,
        element.children@.len() as int,
    )->0;
    let children_expr = if element.children.len() == 0 || texts.len() == 0 {
        to_owned("null")
    } else if texts.len() == 1 {
        to_owned(texts[0].as_str())
    } else {
        let j = join(texts.as_slice(), ", ");
        let mut c = to_owned("[");
        push_str(&mut c, j.as_str());
        push_str(&mut c, "]");
        c
    };
    assert(children_expr@ == spread_children_expr(element.children@.len() > 0, ht.1));
    let mut code = to_owned("ssrElement(\"");
    push_str(&mut code, tag);
    push_str(&mut code, "\", ");
    push_str(&mut code, props.as_str());
    push_str(&mut code, ", ");
    push_str(&mut code, children_expr.as_str());
    push_str(&mut code, ", ");
    push_str(&mut code, if hydratable { "true" } else { "false" });
    push_str(&mut code, ")");
    proof {
        lemma_ssr_run_append(s0, pre, ht.0);
        assert(ssr_run(s0, pre) == sp);
        assert(sp.parts == s0.parts && sp.values == s0.values);
        assert(ssr_run(fresh_state(hp), ht.0) == fresh_state(name_set_view(ctx.helpers)));
        lemma_spread_children_helpers_only(
            source@,
            hydratable,
            old(ctx).hydratable,
            element.children@,
            element.children@.len() as int,
        );
        lemma_helpers_only_run(sp, ht.0);
        lemma_helpers_only_keep(sp, ht.0, fresh_state(hp));
    }
    emit_value(result, ctx, code.as_str(), false, true, Ghost(pre + ht.0), Ghost(s0));
    assert(code@ =~= "ssrElement(\""@ + tag@ + "\", "@ + props@ + ", "@ + children_expr@ + ", "@ + (if hydratable {
        "true"@
    } else {
        "false"@
    }) + ")"@);
    true
}

/// Every step is a helper registration.
pub open spec fn helpers_only(st: Seq<SsrStep>) -> bool {
    forall|i: int| 0 <= i < st.len() ==> #[trigger] st[i] is Helper
}

/// The helper registrations of some steps are helper registrations only.
proof fn lemma_helper_steps_only(st: Seq<SsrStep>)
    ensures
        helpers_only(helper_steps(st)),
    decreases st.len(),
{
    if st.len() > 0 {
        lemma_helper_steps_only(st.drop_last());
    }
}

/// Helper registrations leave the parts and values as they are.
proof fn lemma_helpers_only_run(s: SsrState, st: Seq<SsrStep>)
    requires
        helpers_only(st),
    ensures
        ssr_run(s, st).parts == s.parts,
        ssr_run(s, st).values == s.values,
    decreases st.len(),
{
    if st.len() > 0 {
        assert(st.last() == st[st.len() - 1]);
        lemma_helpers_only_run(s, st.drop_last());
    }
}

/// The children of an element with a spread attribute add helper
/// registrations only.
proof fn lemma_spread_children_helpers_only(
    source: Seq<char>,
    hydratable: bool,
    marked: bool,
    children: Seq<JsxChild>,
    n: int,
)
    ensures
        spread_children_spec(source, hydratable, marked, children, n) matches Some((h, _)) ==> helpers_only(h),
    decreases n,
{
    if n > 0 && n <= children.len() {
        lemma_spread_children_helpers_only(source, hydratable, marked, children, n - 1);
        match spread_children_spec(source, hydratable, marked, children, n - 1) {
            Some((h, _)) => match children[n - 1] {
                JsxChild::Element(c) => match element_steps(source, hydratable, marked, *c, tag_of(*c)) {
                    Some(st) => {
                        lemma_helper_steps_only(st);
                        let r = h + helper_steps(st);
                        assert forall|i: int| 0 <= i < r.len() implies #[trigger] r[i] is Helper by {
                            if i < h.len() {
                                assert(r[i] == h[i]);
                            } else {
                                assert(r[i] == helper_steps(st)[i - h.len()]);
                            }
                        }
                    },
                    None => {},
                },
                _ => {},
            },
            None => {},
        }
    }
}

/// Steps whose parts and values end where they start on one state do so
/// on any other with the same parts and values; the helpers follow those
/// of a state with the same helpers.
proof fn lemma_helpers_only_keep(s: SsrState, st: Seq<SsrStep>, t: SsrState)
    requires
        s.helpers == t.helpers,
    ensures
        ssr_run(s, st).helpers == ssr_run(t, st).helpers,
    decreases st.len(),
{
    if st.len() > 0 {
        lemma_helpers_only_keep(s, st.drop_last(), t);
    }
}

/// Render a native element named `tag_name` for SSR: a result holding its
/// tag, attributes and children as template text and values, escaping
/// skipped inside `script` and `style`, the helpers the values call
/// registered on the context; an element with a spread attribute becomes
/// one `ssrElement` call. `None`, with the context left as it was, where a
/// descendant is a component, which this transform does not render.
pub fn transform_element(
    element: &JsxElement,
    tag_name: &str,
    ctx: &mut SSRContext,
    options: &TransformOptions,
    source: &str,
) -> (r: Option<SSRResult>)
    ensures
        r is Some == element_steps(
            source@,
            old(ctx).hydratable && options.hydratable,
            old(ctx).hydratable,
            *element,
            tag_name@,
        ) is Some,
        r matches Some(res) ==> {
            &&& ssr_state(res, *final(ctx)) == ssr_run(
                SsrState {
                    parts: Seq::empty(),
                    values: Seq::empty(),
                    helpers: name_set_view(old(ctx).helpers),
                },
                element_steps(
                    source@,
                    old(ctx).hydratable && options.hydratable,
                    old(ctx).hydratable,
                    *element,
                    tag_name@,
                )->0,
            )
            &&& res.span == element.span
            &&& !res.needs_hydration_key
            &&& res.has_spread == has_spread_spec(element.opening_element.attributes@)
            &&& if res.has_spread {
                res.tag_name is None && !res.skip_escape
            } else {
                &&& res.tag_name matches Some(t) && t@ == tag_name@
                &&& res.skip_escape == (tag_name@ == "script"@ || tag_name@ == "style"@)
            }
        },
        r is None ==> *final(ctx) == *old(ctx),
        same_ctx_meta(*final(ctx), *old(ctx)),
{
    let mut result = SSRResult::new();
    proof {
        reveal_strlit("script");
        reveal_strlit("style");
    }
    result.span = element.span;
    if has_spread_attr(element) {
        result.has_spread = true;
    } else {
        result.tag_name = Some(to_owned(tag_name));
        result.skip_escape = str_eq(tag_name, "script") || str_eq(tag_name, "style");
    }
    assert(views(result.template_parts@) =~= Seq::<Seq<char>>::empty());
    assert(values_view(result.template_values@) =~= Seq::<TemplateValueView>::empty());
    let hydratable = ctx.hydratable && options.hydratable;
    let mut scratch = SSRContext {
        helpers: name_set_clone(&ctx.helpers),
        var_counter: ctx.var_counter,
        hydratable: ctx.hydratable,
    };
    if append_element(element, tag_name, &mut result, &mut scratch, source, hydratable) {
        *ctx = scratch;
        Some(result)
    } else {
        None
    }
}

// ------------------------------------------------------------------
// Laws
// ------------------------------------------------------------------
/// Steps keep the parts and values interleaved.
pub proof fn lemma_ssr_run_wf(s: SsrState, st: Seq<SsrStep>)
    requires
        template_wf(s.parts, s.values),
    ensures
        template_wf(ssr_run(s, st).parts, ssr_run(s, st).values),
    decreases st.len(),
{
    if st.len() > 0 {
        lemma_ssr_run_wf(s, st.drop_last());
    }
}

/// Merging a result into another commutes with one more step on the
/// merged-in result.
proof fn lemma_merge_step(a: SsrState, b: SsrState, x: SsrStep)
    requires
        template_wf(a.parts, a.values),
        template_wf(b.parts, b.values),
    ensures
        merge_parts_spec(a.parts, ssr_step(b, x).parts) == ssr_step(
            SsrState { parts: merge_parts_spec(a.parts, b.parts), values: a.values + b.values, ..a },
            x,
        ).parts,
        a.values + ssr_step(b, x).values == ssr_step(
            SsrState { parts: merge_parts_spec(a.parts, b.parts), values: a.values + b.values, ..a },
            x,
        ).values,
{
    let m = merge_parts_spec(a.parts, b.parts);
    match x {
        SsrStep::Text(t) => {
            let b2 = crate::ssr::push_static_spec(b.parts, t);
            if b.parts.len() == 0 {
                assert(b2 =~= seq![t]);
            } else if a.parts.len() > 0 {
                if b.parts.len() == 1 {
                    assert(b2[0] == b.parts[0] + t);
                    assert(a.parts.last() + (b.parts[0] + t) =~= (a.parts.last() + b.parts[0]) + t);
                    assert(m.last() == a.parts.last() + b.parts[0]);
                    assert(a.parts.drop_last().push(a.parts.last() + b2[0]) + b2.drop_first()
                        =~= m.update(m.len() - 1, m.last() + t));
                } else {
                    assert(a.parts.drop_last().push(a.parts.last() + b2[0]) + b2.drop_first()
                        =~= m.update(m.len() - 1, m.last() + t));
                }
            }
        },
        SsrStep::Value(v) => {
            assert(a.values + b.values.push(v) =~= (a.values + b.values).push(v));
            if b.parts.len() == 0 {
                let b2 = b.parts.push(Seq::empty()).push(Seq::empty());
                if a.parts.len() > 0 {
                    assert(a.parts.last() + Seq::<char>::empty() =~= a.parts.last());
                    assert(a.parts.drop_last().push(a.parts.last() + b2[0]) + b2.drop_first()
                        =~= a.parts.push(Seq::empty()));
                }
            } else {
                let b2 = b.parts.push(Seq::empty());
                if a.parts.len() > 0 {
                    assert(a.parts.drop_last().push(a.parts.last() + b2[0]) + b2.drop_first()
                        =~= m.push(Seq::empty()));
                }
            }
        },
        SsrStep::Helper(_) => {},
    }
}

/// Rendering a child into a fresh result and merging that result into the
/// parent gives the parent the same parts and values as running the
/// child's steps on the parent directly.
pub proof fn lemma_merge_is_running(a: SsrState, st: Seq<SsrStep>)
    requires
        template_wf(a.parts, a.values),
    ensures
        ({
            let b = ssr_run(SsrState { parts: Seq::empty(), values: Seq::empty(), ..a }, st);
            &&& merge_parts_spec(a.parts, b.parts) == ssr_run(a, st).parts
            &&& a.values + b.values == ssr_run(a, st).values
        }),
    decreases st.len(),
{
    let e = SsrState { parts: Seq::empty(), values: Seq::empty(), ..a };
    if st.len() == 0 {
        assert(a.values + Seq::<TemplateValueView>::empty() =~= a.values);
    } else {
        let front = st.drop_last();
        lemma_merge_is_running(a, front);
        lemma_ssr_run_wf(e, front);
        let b = ssr_run(e, front);
        lemma_merge_step(a, b, st.last());
        let ra = ssr_run(a, front);
        assert(SsrState { parts: merge_parts_spec(a.parts, b.parts), values: a.values + b.values, ..a }.helpers
            == a.helpers);
        assert(SsrState { parts: merge_parts_spec(a.parts, b.parts), values: a.values + b.values, ..a }
            .parts == ra.parts);
        assert(ssr_step(
            SsrState { parts: merge_parts_spec(a.parts, b.parts), values: a.values + b.values, ..a },
            st.last(),
        ).parts == ssr_step(ra, st.last()).parts);
        assert(ssr_step(
            SsrState { parts: merge_parts_spec(a.parts, b.parts), values: a.values + b.values, ..a },
            st.last(),
        ).values == ssr_step(ra, st.last()).values);
    }
}

/// The helper registrations among the steps, in order.
pub open spec fn helper_steps(st: Seq<SsrStep>) -> Seq<SsrStep>
    decreases st.len(),
{
    if st.len() == 0 {
        Seq::empty()
    } else {
        let front = helper_steps(st.drop_last());
        if st.last() is Helper {
            front.push(st.last())
        } else {
            front
        }
    }
}

/// A state with no parts and no values, and the given helpers.
pub open spec fn fresh_state(helpers: Seq<Seq<char>>) -> SsrState {
    SsrState { parts: Seq::empty(), values: Seq::empty(), helpers }
}

/// The helpers after some steps are those after their helper
/// registrations alone.
pub proof fn lemma_helper_steps(s: SsrState, st: Seq<SsrStep>)
    ensures
        ssr_run(s, helper_steps(st)).helpers == ssr_run(s, st).helpers,
        ssr_run(s, helper_steps(st)).parts == s.parts,
        ssr_run(s, helper_steps(st)).values == s.values,
    decreases st.len(),
{
    if st.len() > 0 {
        lemma_helper_steps(s, st.drop_last());
        if st.last() is Helper {
            assert(helper_steps(st).drop_last() =~= helper_steps(st.drop_last()));
        }
    }
}

/// The parts and values after some steps do not depend on the helpers.
pub proof fn lemma_parts_ignore_helpers(s: SsrState, t: SsrState, st: Seq<SsrStep>)
    requires
        s.parts == t.parts,
        s.values == t.values,
    ensures
        ssr_run(s, st).parts == ssr_run(t, st).parts,
        ssr_run(s, st).values == ssr_run(t, st).values,
    decreases st.len(),
{
    if st.len() > 0 {
        lemma_parts_ignore_helpers(s, t, st.drop_last());
    }
}

} // verus!
