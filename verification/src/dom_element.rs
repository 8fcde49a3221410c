//! The attributes of native elements in the DOM transform: which elements
//! need a variable at run time, and the code that wires refs, event
//! handlers, directives and forced attributes to an element.
use vstd::prelude::*;
use crate::dom::BlockContext;
use crate::dom_output::{add_helper, dom_state, same_rest, TransformResult};
use crate::expression::{escape_html, escape_html_spec, to_event_name, to_event_name_spec};
use crate::jsx::{
    Expression, JsxAttribute, JsxAttributeItem, JsxAttributeName, JsxAttributeValue, JsxChild, JsxElement,
};
use crate::name_set::{name_set_insert_spec, name_set_view};
use crate::options::TransformOptions;
use crate::ssr_element::{expr_code, expr_code_spec};
use crate::utils::{attr_full_name, attr_full_name_spec, is_component, is_component_spec};
use crate::text::{
    chars_of, ends_with, push_str, seq_ends_with, seq_starts_with, starts_with, str_eq, str_in,
    string_from_range, string_in, strs_view, to_owned, views,
};

verus! {

/// An attribute makes its element need a variable at run time: a spread,
/// a namespaced name, `ref` or an inner-content key, an event handler
/// name, or a value in braces.
pub open spec fn attr_needs_access(item: JsxAttributeItem) -> bool {
    match item {
        JsxAttributeItem::SpreadAttribute(_) => true,
        JsxAttributeItem::Attribute(a) => {
            let key = attr_full_name_spec(a.name);
            ||| a.name is NamespacedName
            ||| key == "ref"@ || key == "innerHTML"@ || key == "textContent"@ || key == "innerText"@
            ||| (seq_starts_with(key, "on"@) && key.len() > 2)
            ||| a.value matches Some(JsxAttributeValue::ExpressionContainer(_))
        },
    }
}

/// One of the first `n` children is a component or an expression, or a
/// fragment holding one.
pub open spec fn children_need_access(children: Seq<JsxChild>, n: int) -> bool
    decreases children, n,
{
    if n <= 0 || n > children.len() {
        false
    } else {
        children_need_access(children, n - 1) || match children[n - 1] {
            JsxChild::Element(c) => is_component_spec(c.opening_element.name),
            JsxChild::ExpressionContainer(_) => true,
            JsxChild::Fragment(f) => {
                proof {
                    assert(decreases_to!(children => children[n - 1]));
                }
                children_need_access(f.children@, f.children@.len() as int)
            },
            _ => false,
        }
    }
}

pub open spec fn needs_runtime_access_spec(e: JsxElement) -> bool {
    (exists|i: int|
        0 <= i < e.opening_element.attributes@.len() && attr_needs_access(
            #[trigger] e.opening_element.attributes@[i],
        )) || children_need_access(e.children@, e.children@.len() as int)
}

/// An element with a spread attribute needs a variable at run time, so
/// that the spread can be applied to it.
pub proof fn lemma_spread_needs_access(e: JsxElement, i: int)
    requires
        0 <= i < e.opening_element.attributes@.len(),
        e.opening_element.attributes@[i] is SpreadAttribute,
    ensures
        needs_runtime_access_spec(e),
{
    assert(attr_needs_access(e.opening_element.attributes@[i]));
}

/// Attributes only ever add reasons for a runtime variable: an element
/// that needs one still needs one with more attributes after its own.
pub proof fn lemma_access_monotone_in_attributes(e: JsxElement, f: JsxElement)
    requires
        f.children@ == e.children@,
        e.opening_element.attributes@.len() <= f.opening_element.attributes@.len(),
        forall|j: int| 0 <= j < e.opening_element.attributes@.len() ==> f.opening_element.attributes@[j]
            == e.opening_element.attributes@[j],
        needs_runtime_access_spec(e),
    ensures
        needs_runtime_access_spec(f),
{
    if exists|i: int|
        0 <= i < e.opening_element.attributes@.len() && attr_needs_access(
            #[trigger] e.opening_element.attributes@[i],
        ) {
        let i = choose|i: int|
            0 <= i < e.opening_element.attributes@.len() && attr_needs_access(
                #[trigger] e.opening_element.attributes@[i],
            );
        assert(attr_needs_access(f.opening_element.attributes@[i]));
    }
}

/// An element with an expression child, or a component child, needs a
/// variable at run time, so that the child can be inserted.
pub proof fn lemma_dynamic_child_needs_access(e: JsxElement, i: int)
    requires
        0 <= i < e.children@.len(),
        e.children@[i] is ExpressionContainer || (e.children@[i] matches JsxChild::Element(c)
            && is_component_spec(c.opening_element.name)),
    ensures
        needs_runtime_access_spec(e),
{
    lemma_need_access_grows(e.children@, i + 1, e.children@.len() as int);
}

fn attribute_needs_access(item: &JsxAttributeItem) -> (r: bool)
    ensures
        r == attr_needs_access(*item),
{
    proof {
        reveal_strlit("on");
        reveal_strlit("ref");
        reveal_strlit("innerHTML");
        reveal_strlit("textContent");
        reveal_strlit("innerText");
    }
    match item {
        JsxAttributeItem::SpreadAttribute(_) => true,
        JsxAttributeItem::Attribute(a) => {
            if let JsxAttributeName::NamespacedName(_) = &a.name {
                return true;
            }
            let key = attr_full_name(&a.name);
            let k = key.as_str();
            if str_eq(k, "ref") || str_eq(k, "innerHTML") || str_eq(k, "textContent") || str_eq(k, "innerText") {
                return true;
            }
            if starts_with(k, "on") && chars_of(k).len() > 2 {
                return true;
            }
            match &a.value {
                Some(JsxAttributeValue::ExpressionContainer(_)) => true,
                _ => false,
            }
        },
    }
}

fn children_need_runtime_access(children: &[JsxChild]) -> (r: bool)
    ensures
        r == children_need_access(children@, children@.len() as int),
    decreases children@,
{
    let mut k: usize = 0;
    while k < children.len()
        invariant
            k <= children@.len(),
            !children_need_access(children@, k as int),
        decreases children@.len() - k,
    {
        let hit = match &children[k] {
            JsxChild::Element(c) => is_component(&c.opening_element),
            JsxChild::ExpressionContainer(_) => true,
            JsxChild::Fragment(f) => {
                proof {
                    assert(decreases_to!(children@ => children@[k as int]));
                }
                children_need_runtime_access(f.children.as_slice())
            },
            _ => false,
        };
        if hit {
            proof {
                lemma_need_access_grows(children@, k + 1, children@.len() as int);
            }
            return true;
        }
        k = k + 1;
    }
    false
}

proof fn lemma_need_access_grows(children: Seq<JsxChild>, n: int, m: int)
    requires
        0 <= n <= m <= children.len(),
        children_need_access(children, n),
    ensures
        children_need_access(children, m),
    decreases m - n,
{
    if n < m {
        lemma_need_access_grows(children, n, m - 1);
    }
}

/// The element needs a variable at run time: an attribute or a child
/// asks for one.
pub fn element_needs_runtime_access(element: &JsxElement) -> (r: bool)
    ensures
        r == needs_runtime_access_spec(*element),
{
    let attrs = &element.opening_element.attributes;
    let mut i: usize = 0;
    while i < attrs.len()
        invariant
            i <= attrs@.len(),
            attrs@ == element.opening_element.attributes@,
            forall|j: int| 0 <= j < i ==> !attr_needs_access(#[trigger] attrs@[j]),
        decreases attrs@.len() - i,
    {
        if attribute_needs_access(&attrs[i]) {
            return true;
        }
        i = i + 1;
    }
    children_need_runtime_access(element.children.as_slice())
}

/// The fields of a result other than its template and expressions.
pub open spec fn same_shape(a: TransformResult, b: TransformResult) -> bool {
    &&& a.span == b.span
    &&& a.template_with_closing_tags@ == b.template_with_closing_tags@
    &&& a.declarations@ == b.declarations@
    &&& a.dynamics@ == b.dynamics@
    &&& a.post_exprs@ == b.post_exprs@
    &&& a.is_svg == b.is_svg
    &&& a.has_custom_element == b.has_custom_element
    &&& a.tag_name == b.tag_name
    &&& a.skip_template == b.skip_template
    &&& a.id == b.id
    &&& a.text == b.text
    &&& a.needs_memo == b.needs_memo
    &&& a.child_results@ == b.child_results@
}

/// `b` is `a` with `code` appended to its expressions.
pub open spec fn adds_expr(a: TransformResult, b: TransformResult, code: Seq<char>) -> bool {
    &&& views(b.exprs@) == views(a.exprs@).push(code)
    &&& b.template@ == a.template@
    &&& same_shape(a, b)
}

/// The events Solid's runtime handles by delegation at the document.
pub open spec fn delegated_events_spec() -> Seq<Seq<char>> {
    seq![
        "beforeinput"@, "click"@, "dblclick"@, "contextmenu"@, "focusin"@, "focusout"@, "input"@,
        "keydown"@, "keyup"@, "mousedown"@, "mousemove"@, "mouseout"@, "mouseover"@, "mouseup"@,
        "pointerdown"@, "pointermove"@, "pointerout"@, "pointerover"@, "pointerup"@, "touchend"@,
        "touchmove"@, "touchstart"@,
    ]
}

fn is_delegated_event(name: &str) -> (r: bool)
    ensures
        r == delegated_events_spec().contains(name@),
{
    let l = [
        "beforeinput", "click", "dblclick", "contextmenu", "focusin", "focusout", "input",
        "keydown", "keyup", "mousedown", "mousemove", "mouseout", "mouseover", "mouseup",
        "pointerdown", "pointermove", "pointerout", "pointerover", "pointerup", "touchend",
        "touchmove", "touchstart",
    ];
    assert(strs_view(l@) =~= delegated_events_spec());
    str_in(name, &l)
}

/// The code of an attribute's value in braces, if it holds an expression.
pub open spec fn attr_expr_code(source: Seq<char>, a: JsxAttribute) -> Option<Seq<char>> {
    match a.value {
        Some(JsxAttributeValue::ExpressionContainer(c)) => match c.expression {
            Some(e) => Some(expr_code_spec(source, e)),
            None => None,
        },
        _ => None,
    }
}

fn attr_expr(source: &str, a: &JsxAttribute) -> (r: Option<String>)
    ensures
        match r {
            Some(c) => attr_expr_code(source@, *a) == Some(c@),
            None => attr_expr_code(source@, *a) is None,
        },
{
    match &a.value {
        Some(JsxAttributeValue::ExpressionContainer(c)) => match &c.expression {
            Some(e) => Some(expr_code(source, e)),
            None => None,
        },
        _ => None,
    }
}

/// `onClickCapture` listens in the capture phase.
pub open spec fn event_is_capture(key: Seq<char>) -> bool {
    seq_ends_with(key, "Capture"@)
}

/// The DOM event an event-handler key listens to.
pub open spec fn event_name_spec(key: Seq<char>) -> Seq<char> {
    if event_is_capture(key) {
        to_event_name_spec(key.subrange(0, key.len() - 7))
    } else {
        to_event_name_spec(key)
    }
}

/// The handler is delegated: delegation is on, the key is neither `on:`
/// nor a capture, and the event is one Solid or the options delegate.
pub open spec fn delegates_event(key: Seq<char>, options: TransformOptions) -> bool {
    &&& !seq_starts_with(key, "on:"@)
    &&& !event_is_capture(key)
    &&& options.delegate_events
    &&& (delegated_events_spec().contains(event_name_spec(key)) || views(
        options.delegated_events@,
    ).contains(event_name_spec(key)))
}

/// The code that attaches a handler: a `$$event` property for a delegated
/// event, an `addEventListener` call otherwise.
pub open spec fn event_code_spec(key: Seq<char>, elem: Seq<char>, handler: Seq<char>, options: TransformOptions) -> Seq<char> {
    let name = event_name_spec(key);
    if delegates_event(key, options) {
        elem + ".$$"@ + name + " = "@ + handler
    } else {
        "addEventListener("@ + elem + ", \""@ + name + "\", "@ + handler + ", "@ + (if event_is_capture(key) {
            "true"@
        } else {
            "false"@
        }) + ")"@
    }
}

pub open spec fn handler_spec(source: Seq<char>, a: JsxAttribute) -> Seq<char> {
    match attr_expr_code(source, a) {
        Some(c) => c,
        None => "undefined"@,
    }
}

/// Attaches an event handler to the element in `elem_id`, registering the
/// delegated event or the `addEventListener` helper.
pub fn transform_event(
    attr: &JsxAttribute,
    key: &str,
    elem_id: &str,
    result: &mut TransformResult,
    ctx: &mut BlockContext,
    options: &TransformOptions,
    source: &str,
)
    ensures
        adds_expr(*old(result), *final(result), event_code_spec(key@, elem_id@, handler_spec(source@, *attr), *options)),
        delegates_event(key@, *options) ==> {
            &&& name_set_view(final(ctx).delegates) == name_set_insert_spec(
                name_set_view(old(ctx).delegates),
                event_name_spec(key@),
            )
            &&& dom_state(*final(ctx)) == dom_state(*old(ctx))
            &&& final(ctx).template@ == old(ctx).template@
            &&& final(ctx).var_counter == old(ctx).var_counter
        },
        !delegates_event(key@, *options) ==> {
            &&& dom_state(*final(ctx)) == add_helper(dom_state(*old(ctx)), "addEventListener"@)
            &&& same_rest(*final(ctx), *old(ctx))
        },
{
    proof {
        reveal_strlit("Capture");
        reveal_strlit("on:");
    }
    let is_capture = ends_with(key, "Capture");
    let event_name = if is_capture {
        let kv = chars_of(key);
        let base = string_from_range(kv.as_slice(), 0, kv.len() - 7);
        to_event_name(base.as_str())
    } else {
        to_event_name(key)
    };
    let handler = match attr_expr(source, attr) {
        Some(c) => c,
        None => to_owned("undefined"),
    };
    let force_no_delegate = starts_with(key, "on:");
    let name = event_name.as_str();
    let should_delegate = !force_no_delegate && !is_capture && options.delegate_events && (
    is_delegated_event(name) || string_in(name, options.delegated_events.as_slice()));
    let mut code = String::new();
    if should_delegate {
        ctx.register_delegate(name);
        push_str(&mut code, elem_id);
        push_str(&mut code, ".$$");
        push_str(&mut code, name);
        push_str(&mut code, " = ");
        push_str(&mut code, handler.as_str());
        assert(dom_state(*ctx) =~= dom_state(*old(ctx)));
    } else {
        ctx.register_helper("addEventListener");
        push_str(&mut code, "addEventListener(");
        push_str(&mut code, elem_id);
        push_str(&mut code, ", \"");
        push_str(&mut code, name);
        push_str(&mut code, "\", ");
        push_str(&mut code, handler.as_str());
        push_str(&mut code, ", ");
        if is_capture {
            push_str(&mut code, "true");
        } else {
            push_str(&mut code, "false");
        }
        push_str(&mut code, ")");
        assert(dom_state(*ctx) =~= add_helper(dom_state(*old(ctx)), "addEventListener"@));
    }
    let ghost before = views(result.exprs@);
    let ghost cv = code@;
    result.exprs.push(code);
    assert(views(result.exprs@) =~= before.push(cv));
}

/// The value a directive receives: a getter of the attribute's
/// expression, or `undefined`.
pub open spec fn directive_value_spec(source: Seq<char>, a: JsxAttribute) -> Seq<char> {
    match attr_expr_code(source, a) {
        Some(c) => "() => "@ + c,
        None => "undefined"@,
    }
}

/// Applies the directive of a `use:name` key to the element in `elem_id`:
/// `use(name, elem, () => value)`, registering the `use` helper.
pub fn transform_directive(
    attr: &JsxAttribute,
    key: &str,
    elem_id: &str,
    result: &mut TransformResult,
    ctx: &mut BlockContext,
    source: &str,
)
    requires
        key@.len() >= 4,
    ensures
        adds_expr(
            *old(result),
            *final(result),
            "use("@ + key@.subrange(4, key@.len() as int) + ", "@ + elem_id@ + ", "@ + directive_value_spec(
                source@,
                *attr,
            ) + ")"@,
        ),
        dom_state(*final(ctx)) == add_helper(dom_state(*old(ctx)), "use"@),
        same_rest(*final(ctx), *old(ctx)),
{
    ctx.register_helper("use");
    assert(dom_state(*ctx) =~= add_helper(dom_state(*old(ctx)), "use"@));
    let kv = chars_of(key);
    let name = string_from_range(kv.as_slice(), 4, kv.len());
    let mut code = to_owned("use(");
    push_str(&mut code, name.as_str());
    push_str(&mut code, ", ");
    push_str(&mut code, elem_id);
    push_str(&mut code, ", ");
    let ghost head = code@;
    match attr_expr(source, attr) {
        Some(c) => {
            push_str(&mut code, "() => ");
            push_str(&mut code, c.as_str());
        },
        None => push_str(&mut code, "undefined"),
    }
    assert(code@ =~= head + directive_value_spec(source@, *attr));
    push_str(&mut code, ")");
    let ghost before = views(result.exprs@);
    let ghost cv = code@;
    result.exprs.push(code);
    assert(views(result.exprs@) =~= before.push(cv));
}

/// The statement of an `attr:name` key with an expression: set the
/// attribute inside an effect.
pub open spec fn attr_effect_spec(elem: Seq<char>, name: Seq<char>, code: Seq<char>) -> Seq<char> {
    "effect(() => "@ + elem + ".setAttribute(\""@ + name + "\", "@ + code + "))"@
}

/// Forces attribute mode for an `attr:name` key: an expression is set
/// with `setAttribute` inside an effect, registering both helpers; a
/// string is written into the template, escaped; anything else is left.
pub fn transform_attr(
    attr: &JsxAttribute,
    key: &str,
    elem_id: &str,
    result: &mut TransformResult,
    ctx: &mut BlockContext,
    source: &str,
)
    requires
        key@.len() >= 5,
    ensures
        attr_expr_code(source@, *attr) matches Some(c) ==> {
            &&& adds_expr(*old(result), *final(result), attr_effect_spec(elem_id@, key@.subrange(5, key@.len() as int), c))
            &&& dom_state(*final(ctx)) == add_helper(add_helper(dom_state(*old(ctx)), "effect"@), "setAttribute"@)
            &&& same_rest(*final(ctx), *old(ctx))
        },
        attr_expr_code(source@, *attr) is None ==> {
            &&& views(final(result).exprs@) == views(old(result).exprs@)
            &&& same_shape(*old(result), *final(result))
            &&& final(result).template@ == (match attr.value {
                Some(JsxAttributeValue::StringLiteral(lit)) => old(result).template@ + " "@ + key@.subrange(5, key@.len() as int) + "=\""@ + escape_html_spec(lit.value@, true) + "\""@,
                _ => old(result).template@,
            })
            &&& dom_state(*final(ctx)) == dom_state(*old(ctx))
            &&& same_rest(*final(ctx), *old(ctx))
        },
{
    let kv = chars_of(key);
    let name = string_from_range(kv.as_slice(), 5, kv.len());
    match attr_expr(source, attr) {
        Some(c) => {
            ctx.register_helper("effect");
            ctx.register_helper("setAttribute");
            assert(dom_state(*ctx) =~= add_helper(add_helper(dom_state(*old(ctx)), "effect"@), "setAttribute"@));
            let mut code = to_owned("effect(() => ");
            push_str(&mut code, elem_id);
            push_str(&mut code, ".setAttribute(\"");
            push_str(&mut code, name.as_str());
            push_str(&mut code, "\", ");
            push_str(&mut code, c.as_str());
            push_str(&mut code, "))");
            let ghost before = views(result.exprs@);
            let ghost cv = code@;
            result.exprs.push(code);
            assert(views(result.exprs@) =~= before.push(cv));
        },
        None => {
            if let Some(JsxAttributeValue::StringLiteral(lit)) = &attr.value {
                let escaped = escape_html(lit.value.as_str(), true);
                push_str(&mut result.template, " ");
                push_str(&mut result.template, name.as_str());
                push_str(&mut result.template, "=\"");
                push_str(&mut result.template, escaped.as_str());
                push_str(&mut result.template, "\"");
            }
        },
    }
}

/// The expression is a function written in place.
pub open spec fn is_function_expr(e: Expression) -> bool {
    e is Arrow || e is Function
}

/// The expression can be assigned to.
pub open spec fn is_assignable(e: Expression) -> bool {
    e is Identifier || e is StaticMember || e is ComputedMember
}

/// The code that hands the element in `elem` to a ref: a function written
/// in place is called with it; a reference that may be reassigned is
/// called if it holds a function and assigned otherwise; any other
/// reference is called.
pub open spec fn ref_code_spec(code: Seq<char>, e: Expression, elem: Seq<char>, writable: bool) -> Seq<char> {
    if is_function_expr(e) {
        "("@ + code + ")("@ + elem + ")"@
    } else if writable {
        "typeof "@ + code + " === \"function\" ? "@ + code + "("@ + elem + ") : "@ + (if is_assignable(e) {
            code + " = "@ + elem
        } else {
            "undefined"@
        })
    } else {
        code + "("@ + elem + ")"@
    }
}

/// Wires a `ref` to the element in `elem_id`. `writable`: the ref names a
/// binding that may be reassigned (not a `const` or an import), which the
/// caller reads from the program's scopes.
pub fn transform_ref(
    attr: &JsxAttribute,
    elem_id: &str,
    result: &mut TransformResult,
    source: &str,
    writable: bool,
)
    ensures
        (match attr.value {
            Some(JsxAttributeValue::ExpressionContainer(c)) => match c.expression {
                Some(e) => adds_expr(*old(result), *final(result), ref_code_spec(expr_code_spec(source@, e), e, elem_id@, writable)),
                None => *final(result) == *old(result),
            },
            _ => *final(result) == *old(result),
        }),
{
    if let Some(JsxAttributeValue::ExpressionContainer(c)) = &attr.value {
        if let Some(e) = &c.expression {
            let code = expr_code(source, e);
            let function = match e {
                Expression::Arrow(_) => true,
                Expression::Function(_) => true,
                _ => false,
            };
            let assignable = match e {
                Expression::Identifier(_) => true,
                Expression::StaticMember(_) => true,
                Expression::ComputedMember(_) => true,
                _ => false,
            };
            let mut out = String::new();
            if function {
                push_str(&mut out, "(");
                push_str(&mut out, code.as_str());
                push_str(&mut out, ")(");
                push_str(&mut out, elem_id);
                push_str(&mut out, ")");
            } else if writable {
                push_str(&mut out, "typeof ");
                push_str(&mut out, code.as_str());
                push_str(&mut out, " === \"function\" ? ");
                push_str(&mut out, code.as_str());
                push_str(&mut out, "(");
                push_str(&mut out, elem_id);
                push_str(&mut out, ") : ");
                let ghost head = out@;
                if assignable {
                    push_str(&mut out, code.as_str());
                    push_str(&mut out, " = ");
                    push_str(&mut out, elem_id);
                } else {
                    push_str(&mut out, "undefined");
                }
                assert(out@ =~= head + (if is_assignable(*e) {
                    code@ + " = "@ + elem_id@
                } else {
                    "undefined"@
                }));
            } else {
                push_str(&mut out, code.as_str());
                push_str(&mut out, "(");
                push_str(&mut out, elem_id);
                push_str(&mut out, ")");
            }
            let ghost before = views(result.exprs@);
            let ghost cv = out@;
            result.exprs.push(out);
            assert(views(result.exprs@) =~= before.push(cv));
        }
    }
}

/// An assignment, inside an effect where the value is dynamic.
pub open spec fn assign_code_spec(target: Seq<char>, code: Seq<char>, dynamic: bool) -> Seq<char> {
    if dynamic {
        "effect(() => "@ + target + " = "@ + code + ")"@
    } else {
        target + " = "@ + code
    }
}

fn push_assign(
    target: &str,
    code: &str,
    dynamic: bool,
    result: &mut TransformResult,
    ctx: &mut BlockContext,
)
    ensures
        adds_expr(*old(result), *final(result), assign_code_spec(target@, code@, dynamic)),
        dom_state(*final(ctx)) == (if dynamic {
            add_helper(dom_state(*old(ctx)), "effect"@)
        } else {
            dom_state(*old(ctx))
        }),
        same_rest(*final(ctx), *old(ctx)),
{
    let mut out = String::new();
    if dynamic {
        ctx.register_helper("effect");
        assert(dom_state(*ctx) =~= add_helper(dom_state(*old(ctx)), "effect"@));
        push_str(&mut out, "effect(() => ");
    }
    push_str(&mut out, target);
    push_str(&mut out, " = ");
    push_str(&mut out, code);
    if dynamic {
        push_str(&mut out, ")");
    }
    let ghost before = views(result.exprs@);
    let ghost cv = out@;
    result.exprs.push(out);
    assert(views(result.exprs@) =~= before.push(cv));
}

/// Assigns the DOM property of a `prop:name` key: `elem.name = value`,
/// inside an effect where the value is dynamic. `dynamic`: the value is
/// reactive, as the caller's check of the expression found.
pub fn transform_prop(
    attr: &JsxAttribute,
    key: &str,
    elem_id: &str,
    result: &mut TransformResult,
    ctx: &mut BlockContext,
    source: &str,
    dynamic: bool,
)
    requires
        key@.len() >= 5,
    ensures
        attr_expr_code(source@, *attr) matches Some(c) ==> {
            &&& adds_expr(*old(result), *final(result), assign_code_spec(elem_id@ + "."@ + key@.subrange(5, key@.len() as int), c, dynamic))
            &&& dom_state(*final(ctx)) == (if dynamic {
                add_helper(dom_state(*old(ctx)), "effect"@)
            } else {
                dom_state(*old(ctx))
            })
            &&& same_rest(*final(ctx), *old(ctx))
        },
        attr_expr_code(source@, *attr) is None ==> {
            &&& *final(result) == *old(result)
            &&& dom_state(*final(ctx)) == dom_state(*old(ctx))
            &&& same_rest(*final(ctx), *old(ctx))
        },
{
    if let Some(c) = attr_expr(source, attr) {
        let kv = chars_of(key);
        let name = string_from_range(kv.as_slice(), 5, kv.len());
        let mut target = to_owned(elem_id);
        push_str(&mut target, ".");
        push_str(&mut target, name.as_str());
        push_assign(target.as_str(), c.as_str(), dynamic, result, ctx);
    }
}

/// Sets `innerHTML` or `textContent` of the element in `elem_id`: an
/// expression is assigned (inside an effect where dynamic); an
/// `innerHTML` string is assigned escaped; a `textContent` string is left
/// to the template. `dynamic`: the value is reactive, as the caller's
/// check of the expression found.
pub fn transform_inner_content(
    attr: &JsxAttribute,
    key: &str,
    elem_id: &str,
    result: &mut TransformResult,
    ctx: &mut BlockContext,
    source: &str,
    dynamic: bool,
)
    ensures
        attr_expr_code(source@, *attr) matches Some(c) ==> {
            &&& adds_expr(*old(result), *final(result), assign_code_spec(elem_id@ + "."@ + key@, c, dynamic))
            &&& dom_state(*final(ctx)) == (if dynamic {
                add_helper(dom_state(*old(ctx)), "effect"@)
            } else {
                dom_state(*old(ctx))
            })
            &&& same_rest(*final(ctx), *old(ctx))
        },
        attr_expr_code(source@, *attr) is None ==> {
            &&& (match attr.value {
                Some(JsxAttributeValue::StringLiteral(lit)) => if key@ == "innerHTML"@ {
                    adds_expr(*old(result), *final(result), elem_id@ + ".innerHTML = \""@ + escape_html_spec(lit.value@, false) + "\""@)
                } else {
                    *final(result) == *old(result)
                },
                _ => *final(result) == *old(result),
            })
            &&& dom_state(*final(ctx)) == dom_state(*old(ctx))
            &&& same_rest(*final(ctx), *old(ctx))
        },
{
    match attr_expr(source, attr) {
        Some(c) => {
            let mut target = to_owned(elem_id);
            push_str(&mut target, ".");
            push_str(&mut target, key);
            push_assign(target.as_str(), c.as_str(), dynamic, result, ctx);
        },
        None => {
            if let Some(JsxAttributeValue::StringLiteral(lit)) = &attr.value {
                proof {
                    reveal_strlit("innerHTML");
                }
                if str_eq(key, "innerHTML") {
                    let escaped = escape_html(lit.value.as_str(), false);
                    let mut out = to_owned(elem_id);
                    push_str(&mut out, ".innerHTML = \"");
                    push_str(&mut out, escaped.as_str());
                    push_str(&mut out, "\"");
                    let ghost before = views(result.exprs@);
                    let ghost cv = out@;
                    result.exprs.push(out);
                    assert(views(result.exprs@) =~= before.push(cv));
                }
            }
        },
    }
}

} // verus!
