//! What the DOM transform makes of the nodes it meets outside native
//! elements: text, expressions in braces, spread children and fragments.
use vstd::prelude::*;
use crate::dom_output::TransformResult;
use crate::expression::{escape_html, escape_html_spec, trim_whitespace, trim_whitespace_spec};
use crate::jsx::{JsxChild, JsxExpressionContainer, JsxFragment, JsxText};
use crate::span::Span;
use crate::ssr_element::{expr_code, expr_code_spec};
use crate::text::{concat_spec, push_str, to_owned, views};

verus! {

/// A result with nothing in it but its span.
pub open spec fn is_bare(r: TransformResult, span: Span) -> bool {
    &&& r.span == span
    &&& r.template@.len() == 0
    &&& r.template_with_closing_tags@.len() == 0
    &&& r.declarations@.len() == 0
    &&& r.exprs@.len() == 0
    &&& r.dynamics@.len() == 0
    &&& r.post_exprs@.len() == 0
    &&& !r.is_svg && !r.has_custom_element && !r.skip_template && !r.text && !r.needs_memo
    &&& r.tag_name is None
    &&& r.id is None
    &&& r.child_results@.len() == 0
}

/// A result that differs from a bare one only in its template, its
/// expressions, whether it is text and its child results.
pub open spec fn is_bare_but(r: TransformResult, span: Span) -> bool {
    &&& r.span == span
    &&& r.template_with_closing_tags@.len() == 0
    &&& r.declarations@.len() == 0
    &&& r.dynamics@.len() == 0
    &&& r.post_exprs@.len() == 0
    &&& !r.is_svg && !r.has_custom_element && !r.skip_template && !r.needs_memo
    &&& r.tag_name is None
    &&& r.id is None
}

/// A bare result.
pub fn bare_result(span: Span) -> (r: TransformResult)
    ensures
        is_bare(r, span),
{
    TransformResult {
        span,
        template: String::new(),
        template_with_closing_tags: String::new(),
        declarations: Vec::new(),
        exprs: Vec::new(),
        dynamics: Vec::new(),
        post_exprs: Vec::new(),
        is_svg: false,
        has_custom_element: false,
        tag_name: None,
        skip_template: false,
        id: None,
        text: false,
        needs_memo: false,
        child_results: Vec::new(),
    }
}

/// JSX text: nothing where it is blank, else a text result holding the
/// whitespace-collapsed text, escaped.
pub fn transform_text(text: &JsxText) -> (r: Option<TransformResult>)
    ensures
        trim_whitespace_spec(text.value@).len() == 0 ==> r is None,
        trim_whitespace_spec(text.value@).len() > 0 ==> (r matches Some(res) && {
            &&& is_bare_but(res, text.span)
            &&& res.text
            &&& res.template@ == escape_html_spec(trim_whitespace_spec(text.value@), false)
            &&& res.exprs@.len() == 0
            &&& res.child_results@.len() == 0
        }),
{
    let content = trim_whitespace(text.value.as_str());
    if content.as_str().is_empty() {
        return None;
    }
    let mut r = bare_result(text.span);
    r.template = escape_html(content.as_str(), false);
    r.text = true;
    Some(r)
}

/// The expression an expression child inserts: a getter where it is
/// dynamic.
pub open spec fn inserted_code_spec(code: Seq<char>, dynamic: bool) -> Seq<char> {
    if dynamic {
        "() => "@ + code
    } else {
        code
    }
}

/// An expression in braces: nothing where it is empty, else a result
/// whose one expression is the code, wrapped in a getter where
/// `dynamic` (the expression is reactive, as the caller's check of it
/// found).
pub fn transform_expression_container(container: &JsxExpressionContainer, source: &str, dynamic: bool) -> (r:
    Option<TransformResult>)
    ensures
        (match container.expression {
            Some(e) => r matches Some(res) && {
                &&& is_bare_but(res, container.span)
                &&& views(res.exprs@) == seq![inserted_code_spec(expr_code_spec(source@, e), dynamic)]
                &&& res.template@.len() == 0
                &&& !res.text
                &&& res.child_results@.len() == 0
            },
            None => r is None,
        }),
{
    match &container.expression {
        Some(e) => {
            let code = expr_code(source, e);
            let mut out = String::new();
            if dynamic {
                push_str(&mut out, "() => ");
            }
            push_str(&mut out, code.as_str());
            let mut r = bare_result(container.span);
            r.exprs.push(out);
            assert(views(r.exprs@) =~= seq![inserted_code_spec(code@, dynamic)]);
            Some(r)
        },
        None => None,
    }
}

/// A spread child: a result whose one expression is a placeholder
/// string.
pub fn transform_spread_child(span: Span) -> (r: TransformResult)
    ensures
        is_bare_but(r, span),
        views(r.exprs@) == seq!["\"/* spread child */\""@],
        r.template@.len() == 0,
        !r.text,
        r.child_results@.len() == 0,
{
    let mut r = bare_result(span);
    r.exprs.push(to_owned("\"/* spread child */\""));
    assert(views(r.exprs@) =~= seq!["\"/* spread child */\""@]);
    r
}

/// Some child of the fragment is an expression in braces.
pub open spec fn has_expression_child(children: Seq<JsxChild>) -> bool {
    exists|i: int| 0 <= i < children.len() && #[trigger] children[i] is ExpressionContainer
}

/// The templates of results, one after the other.
pub open spec fn templates_of(rs: Seq<TransformResult>) -> Seq<Seq<char>> {
    rs.map_values(|r: TransformResult| r.template@)
}

/// A fragment, from the results its children gave (`children`, in order):
/// none gives a bare result; one gives that result, marked for `memo`
/// where it is expressions only and the fragment has an expression child;
/// text only gives one text result of the texts joined; anything else
/// gives a result holding the children's results, rendered as an array.
pub fn transform_fragment(fragment: &JsxFragment, children: Vec<TransformResult>) -> (r: TransformResult)
    ensures
        children@.len() == 0 ==> is_bare(r, fragment.span),
        children@.len() == 1 ==> {
            let c = children@[0];
            &&& r.span == c.span
            &&& r.template == c.template
            &&& r.template_with_closing_tags == c.template_with_closing_tags
            &&& r.declarations == c.declarations
            &&& r.exprs == c.exprs
            &&& r.dynamics == c.dynamics
            &&& r.post_exprs == c.post_exprs
            &&& r.is_svg == c.is_svg
            &&& r.has_custom_element == c.has_custom_element
            &&& r.tag_name == c.tag_name
            &&& r.skip_template == c.skip_template
            &&& r.id == c.id
            &&& r.text == c.text
            &&& r.child_results == c.child_results
            &&& r.needs_memo == (c.needs_memo || (c.template@.len() == 0 && c.exprs@.len() > 0
                && has_expression_child(fragment.children@)))
        },
        children@.len() > 1 && (forall|i: int| 0 <= i < children@.len() ==> (#[trigger] children@[i]).text)
            ==> {
            &&& is_bare_but(r, fragment.span)
            &&& r.text
            &&& r.template@ == concat_spec(templates_of(children@))
            &&& r.exprs@.len() == 0
            &&& r.child_results@.len() == 0
        },
        children@.len() > 1 && !(forall|i: int| 0 <= i < children@.len() ==> (#[trigger] children@[i]).text)
            ==> {
            &&& is_bare_but(r, fragment.span)
            &&& !r.text
            &&& r.template@.len() == 0
            &&& r.exprs@.len() == 0
            &&& r.child_results@ == children@
        },
{
    let mut has_expr = false;
    let mut k: usize = 0;
    while k < fragment.children.len()
        invariant
            k <= fragment.children@.len(),
            has_expr == exists|i: int| 0 <= i < k && #[trigger] fragment.children@[i] is ExpressionContainer,
        decreases fragment.children@.len() - k,
    {
        if let JsxChild::ExpressionContainer(_) = &fragment.children[k] {
            has_expr = true;
        }
        k = k + 1;
    }
    let mut children = children;
    if children.len() == 0 {
        return bare_result(fragment.span);
    }
    if children.len() == 1 {
        let ghost c0 = children@[0];
        let mut single = match children.pop() {
            Some(c) => c,
            None => bare_result(fragment.span),
        };
        assert(single == c0);
        if single.template.as_str().is_empty() && single.exprs.len() > 0 && has_expr {
            single.needs_memo = true;
        }
        return single;
    }
    let mut all_text = true;
    let mut i: usize = 0;
    while i < children.len()
        invariant
            i <= children@.len(),
            all_text == forall|j: int| 0 <= j < i ==> (#[trigger] children@[j]).text,
        decreases children@.len() - i,
    {
        if !children[i].text {
            all_text = false;
        }
        i = i + 1;
    }
    let mut r = bare_result(fragment.span);
    if all_text {
        r.text = true;
        let mut j: usize = 0;
        while j < children.len()
            invariant
                j <= children@.len(),
                is_bare_but(r, fragment.span),
                r.text,
                r.exprs@.len() == 0,
                r.child_results@.len() == 0,
                r.template@ == concat_spec(templates_of(children@.take(j as int))),
            decreases children@.len() - j,
        {
            proof {
                crate::ssr::lemma_concat_push(templates_of(children@.take(j as int)), children@[j as int].template@);
                assert(templates_of(children@.take(j + 1)) =~= templates_of(children@.take(j as int)).push(
                    children@[j as int].template@,
                ));
            }
            push_str(&mut r.template, children[j].template.as_str());
            j = j + 1;
        }
        assert(children@.take(children@.len() as int) =~= children@);
    } else {
        r.child_results = children;
    }
    r
}

} // verus!
