//! What the server-side transform makes of text, expressions in braces,
//! spread children and fragments.
use vstd::prelude::*;
use crate::expression::{escape_html, escape_html_spec, trim_whitespace, trim_whitespace_spec};
use crate::jsx::{JsxExpressionContainer, JsxText};
use crate::name_set::{name_set_insert_spec, name_set_view};
use crate::span::Span;
use crate::ssr::{merge_parts_spec, values_view, SSRContext, SSRResult, TemplateValueView};
use crate::ssr_element::{expr_code, expr_code_spec};
use crate::text::{push_str, str_get, str_get_spec, to_owned, views};

verus! {

/// Text: nothing where it is blank, else a result holding the
/// whitespace-collapsed text, escaped.
pub fn transform_text(text: &JsxText) -> (r: Option<SSRResult>)
    ensures
        trim_whitespace_spec(text.value@).len() == 0 ==> r is None,
        trim_whitespace_spec(text.value@).len() > 0 ==> (r matches Some(res) && {
            &&& views(res.template_parts@) == seq![escape_html_spec(trim_whitespace_spec(text.value@), false)]
            &&& res.template_values@.len() == 0
        }),
{
    let content = trim_whitespace(text.value.as_str());
    if content.as_str().is_empty() {
        return None;
    }
    let mut r = SSRResult::new();
    assert(views(r.template_parts@) =~= Seq::<Seq<char>>::empty());
    let escaped = escape_html(content.as_str(), false);
    r.push_static(escaped.as_str());
    Some(r)
}

/// The value of a dynamic child.
pub open spec fn child_value(code: Seq<char>, skip_escape: bool) -> TemplateValueView {
    TemplateValueView { code, is_attr: false, skip_escape, needs_hydration_marker: true }
}

/// An expression in braces: nothing where it is empty, else a result with
/// the expression as one escaped value, registering `escape`.
pub fn transform_expression_container(container: &JsxExpressionContainer, ctx: &mut SSRContext, source: &str) -> (r:
    Option<SSRResult>)
    ensures
        (match container.expression {
            Some(e) => {
                &&& r matches Some(res) && {
                    &&& views(res.template_parts@) == seq![Seq::<char>::empty(), Seq::<char>::empty()]
                    &&& values_view(res.template_values@) == seq![child_value(expr_code_spec(source@, e), false)]
                }
                &&& name_set_view(final(ctx).helpers) == name_set_insert_spec(name_set_view(old(ctx).helpers), "escape"@)
            },
            None => r is None && *final(ctx) == *old(ctx),
        }),
        final(ctx).var_counter == old(ctx).var_counter,
        final(ctx).hydratable == old(ctx).hydratable,
{
    match &container.expression {
        Some(e) => {
            ctx.register_helper("escape");
            let mut r = SSRResult::new();
            assert(views(r.template_parts@) =~= Seq::<Seq<char>>::empty());
            assert(values_view(r.template_values@) =~= Seq::<TemplateValueView>::empty());
            let code = expr_code(source, e);
            r.push_dynamic(code.as_str(), false, false);
            Some(r)
        },
        None => None,
    }
}

/// The source text of a span, or nothing where it selects no slice.
pub open spec fn span_text_spec(source: Seq<char>, span: Span) -> Seq<char> {
    match str_get_spec(source, span.start as int, span.end as int) {
        Some(t) => t,
        None => Seq::empty(),
    }
}

/// A spread child (its expression at `span`): one value that joins the
/// spread items, not escaped again, registering `escape`.
pub fn transform_spread_child(span: Span, ctx: &mut SSRContext, source: &str) -> (r: SSRResult)
    ensures
        views(r.template_parts@) == seq![Seq::<char>::empty(), Seq::<char>::empty()],
        values_view(r.template_values@) == seq![
            child_value("[].concat("@ + span_text_spec(source@, span) + ").join(\"\")"@, true),
        ],
        name_set_view(final(ctx).helpers) == name_set_insert_spec(name_set_view(old(ctx).helpers), "escape"@),
        final(ctx).var_counter == old(ctx).var_counter,
        final(ctx).hydratable == old(ctx).hydratable,
{
    ctx.register_helper("escape");
    let code = match str_get(source, span.start, span.end) {
        Some(t) => t,
        None => String::new(),
    };
    let mut joined = to_owned("[].concat(");
    push_str(&mut joined, code.as_str());
    push_str(&mut joined, ").join(\"\")");
    let mut r = SSRResult::new();
    assert(views(r.template_parts@) =~= Seq::<Seq<char>>::empty());
    assert(values_view(r.template_values@) =~= Seq::<TemplateValueView>::empty());
    r.push_dynamic(joined.as_str(), false, true);
    r
}

/// The template parts of results merged one after the other.
pub open spec fn merged_parts(rs: Seq<SSRResult>) -> Seq<Seq<char>>
    decreases rs.len(),
{
    if rs.len() == 0 {
        Seq::empty()
    } else {
        merge_parts_spec(merged_parts(rs.drop_last()), views(rs.last().template_parts@))
    }
}

/// The values of results, one after the other.
pub open spec fn merged_values(rs: Seq<SSRResult>) -> Seq<TemplateValueView>
    decreases rs.len(),
{
    if rs.len() == 0 {
        Seq::empty()
    } else {
        merged_values(rs.drop_last()) + values_view(rs.last().template_values@)
    }
}

/// A fragment, from the results its children gave (in order): those
/// results merged one after the other.
pub fn transform_fragment(children: Vec<SSRResult>) -> (r: SSRResult)
    ensures
        views(r.template_parts@) == merged_parts(children@),
        values_view(r.template_values@) == merged_values(children@),
{
    let mut r = SSRResult::new();
    assert(views(r.template_parts@) =~= merged_parts(children@.take(0)));
    assert(values_view(r.template_values@) =~= merged_values(children@.take(0)));
    let ghost all = children@;
    let mut rest = children;
    let ghost mut k: int = 0;
    while rest.len() > 0
        invariant
            0 <= k,
            k + rest@.len() == all.len(),
            rest@ == all.subrange(k, all.len() as int),
            views(r.template_parts@) == merged_parts(all.take(k)),
            values_view(r.template_values@) == merged_values(all.take(k)),
        decreases rest@.len(),
    {
        let next = rest.remove(0);
        assert(next == all[k]);
        assert(all.take(k + 1).drop_last() =~= all.take(k));
        assert(all.take(k + 1).last() == all[k]);
        r.merge(next);
        proof {
            k = k + 1;
        }
        assert(rest@ =~= all.subrange(k, all.len() as int));
    }
    assert(all.take(all.len() as int) =~= all);
    r
}

} // verus!
