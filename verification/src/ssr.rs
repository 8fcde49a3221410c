//! Server-side rendering output: the `ssr` tagged template that a JSX node
//! renders to, its parts and dynamic values, and the helpers it needs.
//!
//! A dynamic value is held as the JavaScript source of its expression.
use indexmap::IndexSet;
use vstd::prelude::*;
use crate::name_set::{name_set_insert, name_set_new, name_set_to_vec, name_set_view, name_set_insert_spec};
use crate::span::Span;
use crate::dom::{is_valid_prop_identifier, is_valid_prop_identifier_spec};
use crate::text::{
    concat_spec, decimal_spec, join, join_spec, lemma_decimal_injective, push_str, replace,
    replace_spec, to_owned, usize_to_decimal, views,
};

verus! {

/// A dynamic value of an SSR template.
#[derive(Debug, Clone)]
pub struct TemplateValue {
    /// The JavaScript source of the value's expression.
    pub code: String,
    /// An attribute value (escaped as one, never marked for hydration).
    pub is_attr: bool,
    /// Inserted as it is, without `escape()`.
    pub skip_escape: bool,
    /// Wrapped in hydration markers when rendering for hydration.
    pub needs_hydration_marker: bool,
}

/// The mathematical content of a [`TemplateValue`].
pub struct TemplateValueView {
    pub code: Seq<char>,
    pub is_attr: bool,
    pub skip_escape: bool,
    pub needs_hydration_marker: bool,
}

impl View for TemplateValue {
    type V = TemplateValueView;

    open spec fn view(&self) -> TemplateValueView {
        TemplateValueView {
            code: self.code@,
            is_attr: self.is_attr,
            skip_escape: self.skip_escape,
            needs_hydration_marker: self.needs_hydration_marker,
        }
    }
}

pub open spec fn values_view(v: Seq<TemplateValue>) -> Seq<TemplateValueView> {
    v.map_values(|t: TemplateValue| t@)
}

/// The result of rendering a JSX node for SSR: static template parts with
/// the dynamic values between them.
#[derive(Debug)]
pub struct SSRResult {
    /// Source span of the JSX node.
    pub span: Span,
    /// The static parts, one more than the values once a value was pushed.
    pub template_parts: Vec<String>,
    /// The dynamic values.
    pub template_values: Vec<TemplateValue>,
    /// Whether the node needs a hydration key.
    pub needs_hydration_key: bool,
    /// Whether escaping is skipped (script, style, innerHTML).
    pub skip_escape: bool,
    /// Whether the node has a spread attribute.
    pub has_spread: bool,
    /// The tag name of a native element.
    pub tag_name: Option<String>,
}

/// The parts and values are interleaved: no value yet and no part, or one
/// more part than values.
pub open spec fn template_wf(parts: Seq<Seq<char>>, values: Seq<TemplateValueView>) -> bool {
    (parts.len() == 0 && values.len() == 0) || parts.len() == values.len() + 1
}

/// The parts after appending static text.
pub open spec fn push_static_spec(parts: Seq<Seq<char>>, text: Seq<char>) -> Seq<Seq<char>> {
    if parts.len() == 0 {
        seq![text]
    } else {
        parts.update(parts.len() - 1, parts.last() + text)
    }
}

/// The parts of `a` followed by those of `b`, the last of `a` joined with
/// the first of `b`.
pub open spec fn merge_parts_spec(a: Seq<Seq<char>>, b: Seq<Seq<char>>) -> Seq<Seq<char>> {
    if b.len() == 0 {
        a
    } else if a.len() == 0 {
        b
    } else {
        a.drop_last().push(a.last() + b[0]) + b.drop_first()
    }
}

/// A value as it stands inside `${...}`.
pub open spec fn wrapped_value_spec(v: TemplateValueView) -> Seq<char> {
    if v.skip_escape {
        v.code
    } else if v.is_attr {
        "escape("@ + v.code + ", true)"@
    } else {
        "escape("@ + v.code + ")"@
    }
}

/// A value is wrapped in hydration markers.
pub open spec fn marked(v: TemplateValueView, hydratable: bool) -> bool {
    hydratable && !v.is_attr && v.needs_hydration_marker
}

/// The body of the tagged template for the first `n` parts.
pub open spec fn ssr_body_spec(
    parts: Seq<Seq<char>>,
    values: Seq<TemplateValueView>,
    hydratable: bool,
    n: int,
) -> Seq<char>
    decreases n,
{
    if n <= 0 {
        Seq::empty()
    } else {
        let i = n - 1;
        ssr_body_spec(parts, values, hydratable, i) + parts[i] + if i < values.len() {
            let v = values[i];
            (if marked(v, hydratable) {
                "<!--#-->"@
            } else {
                Seq::empty()
            }) + "${"@ + wrapped_value_spec(v) + "}"@ + (if marked(v, hydratable) {
                "<!--/-->"@
            } else {
                Seq::empty()
            })
        } else {
            Seq::empty()
        }
    }
}

/// The `ssr` call a result renders to: a plain string when it has no
/// dynamic value, a tagged template otherwise.
pub open spec fn ssr_call_spec(parts: Seq<Seq<char>>, values: Seq<TemplateValueView>, hydratable: bool) -> Seq<
    char,
> {
    if values.len() == 0 {
        "\""@ + concat_spec(parts) + "\""@
    } else {
        "ssr`"@ + ssr_body_spec(parts, values, hydratable, parts.len() as int) + "`"@
    }
}

/// A quasi of the tagged template: its raw text and whether it is the last.
#[derive(Debug, Clone)]
pub struct TemplateQuasi {
    pub raw: String,
    pub tail: bool,
}

/// A dynamic value of the tagged template, as it is inserted.
#[derive(Debug, Clone)]
pub enum SsrValueExpr {
    /// The expression as it is.
    Raw(String),
    /// `escape(expr)`.
    Escape(String),
    /// `escape(expr, true)`.
    EscapeAttr(String),
}

/// The expression a result renders to.
#[derive(Debug)]
pub enum SsrExpression {
    /// A string literal holding the whole template.
    StringLiteral(String),
    /// `ssr` tagged with a template literal of these quasis and values.
    TaggedTemplate { tag: String, quasis: Vec<TemplateQuasi>, expressions: Vec<SsrValueExpr> },
}

pub open spec fn value_expr_spec(v: TemplateValueView) -> (Seq<char>, int) {
    if v.skip_escape {
        (v.code, 0)
    } else if v.is_attr {
        (v.code, 2)
    } else {
        (v.code, 1)
    }
}

pub open spec fn value_expr_view(e: SsrValueExpr) -> (Seq<char>, int) {
    match e {
        SsrValueExpr::Raw(c) => (c@, 0),
        SsrValueExpr::Escape(c) => (c@, 1),
        SsrValueExpr::EscapeAttr(c) => (c@, 2),
    }
}

/// The raw text of quasi `i`: the closing marker of the value before it,
/// the part, and the opening marker of the value after it.
pub open spec fn quasi_raw_spec(
    parts: Seq<Seq<char>>,
    values: Seq<TemplateValueView>,
    hydratable: bool,
    i: int,
) -> Seq<char> {
    (if 0 < i && i - 1 < values.len() && marked(values[i - 1], hydratable) {
        "<!--/-->"@
    } else {
        Seq::empty()
    }) + parts[i] + (if i < values.len() && marked(values[i], hydratable) {
        "<!--#-->"@
    } else {
        Seq::empty()
    })
}

/// The expression rendered from parts and values: a string literal of
/// the parts when there is no value, otherwise `ssr` tagged with one quasi
/// per part (the last marked as the tail) and one expression per value.
pub open spec fn ssr_expression_spec(
    r: SsrExpression,
    parts: Seq<Seq<char>>,
    values: Seq<TemplateValueView>,
    hydratable: bool,
) -> bool {
    if values.len() == 0 {
        r matches SsrExpression::StringLiteral(s) && s@ == concat_spec(parts)
    } else {
        &&& r matches SsrExpression::TaggedTemplate { tag, quasis, expressions }
        &&& r->tag@ == "ssr"@
        &&& r->quasis@.len() == parts.len()
        &&& forall|i: int|
            0 <= i < parts.len() ==> #[trigger] r->quasis@[i].raw@ == quasi_raw_spec(
                parts,
                values,
                hydratable,
                i,
            ) && r->quasis@[i].tail == (i == parts.len() - 1)
        &&& r->expressions@.len() == values.len()
        &&& forall|i: int|
            0 <= i < values.len() ==> value_expr_view(#[trigger] r->expressions@[i])
                == value_expr_spec(values[i])
    }
}

/// The result holds a well-formed template.
pub open spec fn ssr_wf(r: SSRResult) -> bool {
    template_wf(views(r.template_parts@), values_view(r.template_values@))
}

impl SSRResult {
    /// An empty result.
    pub fn new() -> (r: Self)
        ensures
            r.span == (Span { start: 0, end: 0 }),
            r.template_parts@.len() == 0,
            r.template_values@.len() == 0,
            !r.needs_hydration_key,
            !r.skip_escape,
            !r.has_spread,
            r.tag_name is None,
    {
        SSRResult {
            span: Span::empty(),
            template_parts: Vec::new(),
            template_values: Vec::new(),
            needs_hydration_key: false,
            skip_escape: false,
            has_spread: false,
            tag_name: None,
        }
    }

    /// Append static text to the template.
    pub fn push_static(&mut self, text: &str)
        ensures
            views(final(self).template_parts@) == push_static_spec(
                views(old(self).template_parts@),
                text@,
            ),
            final(self).template_values@ == old(self).template_values@,
            final(self).span == old(self).span,
            final(self).needs_hydration_key == old(self).needs_hydration_key,
            final(self).skip_escape == old(self).skip_escape,
            final(self).has_spread == old(self).has_spread,
            final(self).tag_name == old(self).tag_name,
    {
        let ghost before = views(self.template_parts@);
        let n = self.template_parts.len();
        if n == 0 {
            self.template_parts.push(to_owned(text));
            assert(views(self.template_parts@) =~= seq![text@]);
        } else {
            let mut last = self.template_parts.pop().unwrap();
            push_str(&mut last, text);
            self.template_parts.push(last);
            assert(views(self.template_parts@) =~= before.update(n - 1, before.last() + text@));
        }
    }

    /// Append a dynamic value; outside attributes it is marked for
    /// hydration.
    pub fn push_dynamic(&mut self, code: &str, is_attr: bool, skip_escape: bool)
        ensures
            views(final(self).template_parts@) == (if old(self).template_parts@.len()
                == old(self).template_values@.len() {
                views(old(self).template_parts@).push(Seq::empty()).push(Seq::empty())
            } else {
                views(old(self).template_parts@).push(Seq::empty())
            }),
            values_view(final(self).template_values@) == values_view(
                old(self).template_values@,
            ).push(
                TemplateValueView {
                    code: code@,
                    is_attr,
                    skip_escape,
                    needs_hydration_marker: !is_attr,
                },
            ),
            final(self).span == old(self).span,
            final(self).tag_name == old(self).tag_name,
            final(self).needs_hydration_key == old(self).needs_hydration_key,
            final(self).skip_escape == old(self).skip_escape,
            final(self).has_spread == old(self).has_spread,
    {
        self.push_dynamic_with_marker(code, is_attr, skip_escape, !is_attr)
    }

    /// Append a dynamic value, with explicit hydration marking.
    pub fn push_dynamic_with_marker(
        &mut self,
        code: &str,
        is_attr: bool,
        skip_escape: bool,
        needs_marker: bool,
    )
        ensures
            views(final(self).template_parts@) == (if old(self).template_parts@.len()
                == old(self).template_values@.len() {
                views(old(self).template_parts@).push(Seq::empty()).push(Seq::empty())
            } else {
                views(old(self).template_parts@).push(Seq::empty())
            }),
            values_view(final(self).template_values@) == values_view(
                old(self).template_values@,
            ).push(
                TemplateValueView {
                    code: code@,
                    is_attr,
                    skip_escape,
                    needs_hydration_marker: needs_marker,
                },
            ),
            final(self).span == old(self).span,
            final(self).needs_hydration_key == old(self).needs_hydration_key,
            final(self).skip_escape == old(self).skip_escape,
            final(self).has_spread == old(self).has_spread,
            final(self).tag_name == old(self).tag_name,
    {
        let ghost parts0 = views(self.template_parts@);
        let ghost values0 = values_view(self.template_values@);
        if self.template_parts.len() == self.template_values.len() {
            self.template_parts.push(String::new());
        }
        let v = TemplateValue {
            code: to_owned(code),
            is_attr,
            skip_escape,
            needs_hydration_marker: needs_marker,
        };
        self.template_values.push(v);
        self.template_parts.push(String::new());
        assert(values_view(self.template_values@) =~= values0.push(v@));
        assert(views(self.template_parts@) =~= (if old(self).template_parts@.len()
            == old(self).template_values@.len() {
            parts0.push(Seq::empty()).push(Seq::empty())
        } else {
            parts0.push(Seq::empty())
        }));
    }

    /// Merge another result into this one: its first part joins our last,
    /// its values follow ours.
    pub fn merge(&mut self, other: SSRResult)
        ensures
            views(final(self).template_parts@) == merge_parts_spec(
                views(old(self).template_parts@),
                views(other.template_parts@),
            ),
            values_view(final(self).template_values@) == values_view(old(self).template_values@)
                + values_view(other.template_values@),
            final(self).span == old(self).span,
            final(self).needs_hydration_key == old(self).needs_hydration_key,
            final(self).skip_escape == old(self).skip_escape,
            final(self).has_spread == old(self).has_spread,
            final(self).tag_name == old(self).tag_name,
    {
        let ghost a = views(self.template_parts@);
        let ghost b = views(other.template_parts@);
        let ghost va = values_view(self.template_values@);
        let ghost vb = values_view(other.template_values@);
        let SSRResult { template_parts: other_parts, template_values: other_values, .. } = other;
        let mut i: usize = 0;
        while i < other_parts.len()
            invariant
                b == views(other_parts@),
                i <= b.len(),
                i == 0 ==> views(self.template_parts@) == a,
                i > 0 ==> views(self.template_parts@) == merge_parts_spec(a, b.subrange(0, i as int)),
                values_view(self.template_values@) == va,
                self.span == old(self).span,
                self.needs_hydration_key == old(self).needs_hydration_key,
                self.skip_escape == old(self).skip_escape,
                self.has_spread == old(self).has_spread,
                self.tag_name == old(self).tag_name,
            decreases b.len() - i,
        {
            let ghost cur = views(self.template_parts@);
            let part = &other_parts[i];
            if i == 0 && self.template_parts.len() > 0 {
                let n = self.template_parts.len();
                let mut last = self.template_parts.pop().unwrap();
                push_str(&mut last, part.as_str());
                self.template_parts.push(last);
                assert(views(self.template_parts@) =~= merge_parts_spec(a, b.subrange(0, 1)));
            } else {
                self.template_parts.push(to_owned(part.as_str()));
                assert(views(self.template_parts@) =~= cur.push(b[i as int]));
                if i == 0 {
                    assert(views(self.template_parts@) =~= merge_parts_spec(a, b.subrange(0, 1)));
                } else {
                    proof {
                        let p = b.subrange(0, i as int);
                        let q = b.subrange(0, i + 1);
                        assert(q.drop_first() =~= p.drop_first().push(b[i as int]));
                        assert(q[0] == p[0]);
                        if a.len() == 0 {
                            assert(views(self.template_parts@) =~= merge_parts_spec(a, q));
                        } else {
                            assert(views(self.template_parts@) =~= merge_parts_spec(a, q));
                        }
                    }
                }
            }
            i = i + 1;
        }
        proof {
            if b.len() > 0 {
                assert(b.subrange(0, b.len() as int) =~= b);
            }
        }
        let mut other_values = other_values;
        self.template_values.append(&mut other_values);
        assert(values_view(self.template_values@) =~= va + vb);
    }

    /// The `ssr` call this result renders to, without hydration markers.
    pub fn to_ssr_call(&self) -> (r: String)
        ensures
            r@ == ssr_call_spec(
                views(self.template_parts@),
                values_view(self.template_values@),
                false,
            ),
    {
        self.to_ssr_call_with_hydration(false)
    }

    /// The `ssr` call this result renders to; with `hydratable`, dynamic
    /// children are wrapped in hydration markers.
    pub fn to_ssr_call_with_hydration(&self, hydratable: bool) -> (r: String)
        ensures
            r@ == ssr_call_spec(
                views(self.template_parts@),
                values_view(self.template_values@),
                hydratable,
            ),
    {
        let ghost parts = views(self.template_parts@);
        let ghost values = values_view(self.template_values@);
        if self.template_values.len() == 0 {
            let mut r = to_owned("\"");
            let body = join(self.template_parts.as_slice(), "");
            proof {
                reveal_strlit("");
                assert(""@ =~= Seq::<char>::empty());
            }
            push_str(&mut r, body.as_str());
            push_str(&mut r, "\"");
            r
        } else {
            let mut r = to_owned("ssr`");
            let mut i: usize = 0;
            while i < self.template_parts.len()
                invariant
                    parts == views(self.template_parts@),
                    values == values_view(self.template_values@),
                    i <= parts.len(),
                    r@ == "ssr`"@ + ssr_body_spec(parts, values, hydratable, i as int),
                decreases parts.len() - i,
            {
                let ghost r0 = r@;
                push_str(&mut r, self.template_parts[i].as_str());
                if i < self.template_values.len() {
                    let val = &self.template_values[i];
                    let ghost v = values[i as int];
                    assert(v == val@);
                    let mark = hydratable && !val.is_attr && val.needs_hydration_marker;
                    let ghost r1 = r@;
                    if mark {
                        push_str(&mut r, "<!--#-->");
                    }
                    let ghost r2 = r@;
                    push_str(&mut r, "${");
                    let wrapped = Self::wrap_value(val);
                    push_str(&mut r, wrapped.as_str());
                    push_str(&mut r, "}");
                    let ghost r3 = r@;
                    if mark {
                        push_str(&mut r, "<!--/-->");
                    }
                    proof {
                        reveal_strlit("");
                        assert(""@ =~= Seq::<char>::empty());
                        let open_m = if marked(v, hydratable) {
                            "<!--#-->"@
                        } else {
                            Seq::<char>::empty()
                        };
                        let close_m = if marked(v, hydratable) {
                            "<!--/-->"@
                        } else {
                            Seq::<char>::empty()
                        };
                        assert(r2 =~= r1 + open_m);
                        assert(r@ =~= r3 + close_m);
                        assert(r@ =~= r0 + parts[i as int] + (open_m + "${"@ + wrapped_value_spec(v)
                            + "}"@ + close_m));
                    }
                } else {
                    assert(r@ =~= r0 + parts[i as int] + Seq::<char>::empty());
                }
                i = i + 1;
            }
            push_str(&mut r, "`");
            r
        }
    }

    fn wrap_value(val: &TemplateValue) -> (r: String)
        ensures
            r@ == wrapped_value_spec(val@),
    {
        if val.skip_escape {
            to_owned(val.code.as_str())
        } else if val.is_attr {
            let mut s = to_owned("escape(");
            push_str(&mut s, val.code.as_str());
            push_str(&mut s, ", true)");
            s
        } else {
            let mut s = to_owned("escape(");
            push_str(&mut s, val.code.as_str());
            push_str(&mut s, ")");
            s
        }
    }

    /// The expression this result renders to: a string literal when it has
    /// no dynamic value, otherwise `ssr` tagged with a template literal
    /// whose quasis carry the hydration markers around marked values.
    pub fn to_ssr_expression(&self, hydratable: bool) -> (r: SsrExpression)
        requires
            ssr_wf(*self),
        ensures
            ssr_expression_spec(
                r,
                views(self.template_parts@),
                values_view(self.template_values@),
                hydratable,
            ),
    {
        let ghost parts = views(self.template_parts@);
        let ghost values = values_view(self.template_values@);
        if self.template_values.len() == 0 {
            let content = join(self.template_parts.as_slice(), "");
            proof {
                reveal_strlit("");
                assert(""@ =~= Seq::<char>::empty());
            }
            return SsrExpression::StringLiteral(content);
        }
        let n = self.template_parts.len();
        let mut quasis: Vec<TemplateQuasi> = Vec::new();
        let mut i: usize = 0;
        while i < n
            invariant
                n == self.template_parts@.len(),
                n == self.template_values@.len() + 1,
                parts == views(self.template_parts@),
                values == values_view(self.template_values@),
                i <= n,
                quasis@.len() == i,
                forall|j: int|
                    0 <= j < i ==> #[trigger] quasis@[j].raw@ == quasi_raw_spec(
                        parts,
                        values,
                        hydratable,
                        j,
                    ),
                forall|j: int| 0 <= j < i ==> #[trigger] quasis@[j].tail == (j == n - 1),
            decreases n - i,
        {
            let mut raw = String::new();
            let ghost r0 = raw@;
            if i > 0 {
                let prev = &self.template_values[i - 1];
                if hydratable && !prev.is_attr && prev.needs_hydration_marker {
                    push_str(&mut raw, "<!--/-->");
                }
            }
            let ghost r1 = raw@;
            push_str(&mut raw, self.template_parts[i].as_str());
            let ghost r2 = raw@;
            if i < self.template_values.len() {
                let val = &self.template_values[i];
                if hydratable && !val.is_attr && val.needs_hydration_marker {
                    push_str(&mut raw, "<!--#-->");
                }
            }
            proof {
                if i < values.len() {
                    assert(values[i as int] == self.template_values@[i as int]@);
                }
                if i > 0 {
                    assert(values[i - 1] == self.template_values@[i - 1]@);
                }
                assert(parts[i as int] == self.template_parts@[i as int]@);
                reveal_strlit("");
                assert(r0 =~= Seq::<char>::empty());
                assert(raw@ =~= quasi_raw_spec(parts, values, hydratable, i as int));
            }
            let ghost raw_view = raw@;
            let ghost q0 = quasis@;
            quasis.push(TemplateQuasi { raw, tail: i == n - 1 });
            assert(quasis@[i as int].raw@ == raw_view);
            assert(forall|j: int| 0 <= j < i ==> quasis@[j] == q0[j]);
            assert(quasis@[i as int].tail == (i as int == n - 1));
            assert(quasis@[i as int].raw@ == quasi_raw_spec(parts, values, hydratable, i as int));
            i = i + 1;
        }
        let mut expressions: Vec<SsrValueExpr> = Vec::new();
        let mut k: usize = 0;
        while k < self.template_values.len()
            invariant
                k <= self.template_values@.len(),
                expressions@.len() == k,
                forall|j: int|
                    0 <= j < k ==> value_expr_view(#[trigger] expressions@[j]) == value_expr_spec(
                        self.template_values@[j]@,
                    ),
            decreases self.template_values@.len() - k,
        {
            let val = &self.template_values[k];
            let code = to_owned(val.code.as_str());
            let e = if val.skip_escape {
                SsrValueExpr::Raw(code)
            } else if val.is_attr {
                SsrValueExpr::EscapeAttr(code)
            } else {
                SsrValueExpr::Escape(code)
            };
            expressions.push(e);
            k = k + 1;
        }
        proof {
            reveal_strlit("ssr");
        }
        let r = SsrExpression::TaggedTemplate { tag: to_owned("ssr"), quasis, expressions };
        assert(forall|j: int|
            0 <= j < values.len() ==> values[j] == #[trigger] self.template_values@[j]@);
        r
    }
}

/// Concatenating a part after the others.
pub proof fn lemma_concat_push(p: Seq<Seq<char>>, x: Seq<char>)
    ensures
        concat_spec(p.push(x)) == concat_spec(p) + x,
{
    assert(p.push(x).drop_last() =~= p);
    if p.len() == 0 {
        assert(concat_spec(p) =~= Seq::<char>::empty());
        assert(concat_spec(p) + x =~= x);
    } else {
        assert(concat_spec(p) + Seq::<char>::empty() + x =~= concat_spec(p) + x);
    }
}

/// Concatenation distributes over appending sequences of parts.
pub proof fn lemma_concat_append(p: Seq<Seq<char>>, q: Seq<Seq<char>>)
    ensures
        concat_spec(p + q) == concat_spec(p) + concat_spec(q),
    decreases q.len(),
{
    if q.len() == 0 {
        assert(p + q =~= p);
        assert(concat_spec(q) =~= Seq::<char>::empty());
        assert(concat_spec(p) + concat_spec(q) =~= concat_spec(p));
    } else {
        lemma_concat_append(p, q.drop_last());
        assert(p + q =~= (p + q.drop_last()).push(q.last()));
        assert(q =~= q.drop_last().push(q.last()));
        lemma_concat_push(p + q.drop_last(), q.last());
        lemma_concat_push(q.drop_last(), q.last());
        assert(concat_spec(p) + concat_spec(q.drop_last()) + q.last() =~= concat_spec(p) + (
        concat_spec(q.drop_last()) + q.last()));
    }
}

/// Appending static text appends it to the template's text and keeps the
/// template well formed.
pub proof fn lemma_push_static(parts: Seq<Seq<char>>, values: Seq<TemplateValueView>, text: Seq<char>)
    requires
        template_wf(parts, values),
    ensures
        template_wf(push_static_spec(parts, text), values),
        concat_spec(push_static_spec(parts, text)) == concat_spec(parts) + text,
{
    if parts.len() == 0 {
        assert(concat_spec(parts) =~= Seq::<char>::empty());
        assert(concat_spec(parts) + text =~= text);
    } else {
        let init = parts.drop_last();
        assert(parts =~= init.push(parts.last()));
        assert(push_static_spec(parts, text) =~= init.push(parts.last() + text));
        lemma_concat_push(init, parts.last());
        lemma_concat_push(init, parts.last() + text);
        assert(concat_spec(init) + (parts.last() + text) =~= concat_spec(init) + parts.last()
            + text);
    }
}

/// Appending a dynamic value leaves the template's text unchanged and the
/// template well formed, with one more part than values.
pub proof fn lemma_push_dynamic(
    parts: Seq<Seq<char>>,
    values: Seq<TemplateValueView>,
    v: TemplateValueView,
)
    requires
        template_wf(parts, values),
    ensures
        ({
            let parts2 = if parts.len() == values.len() {
                parts.push(Seq::empty()).push(Seq::empty())
            } else {
                parts.push(Seq::empty())
            };
            &&& template_wf(parts2, values.push(v))
            &&& parts2.len() == values.push(v).len() + 1
            &&& concat_spec(parts2) == concat_spec(parts)
        }),
{
    lemma_concat_push(parts, Seq::empty());
    lemma_concat_push(parts.push(Seq::empty()), Seq::empty());
    assert(concat_spec(parts) + Seq::<char>::empty() =~= concat_spec(parts));
}

/// Merging two templates concatenates their text and their values, and
/// keeps the template well formed.
pub proof fn lemma_merge(
    a: Seq<Seq<char>>,
    va: Seq<TemplateValueView>,
    b: Seq<Seq<char>>,
    vb: Seq<TemplateValueView>,
)
    requires
        template_wf(a, va),
        template_wf(b, vb),
    ensures
        template_wf(merge_parts_spec(a, b), va + vb),
        concat_spec(merge_parts_spec(a, b)) == concat_spec(a) + concat_spec(b),
{
    if b.len() == 0 {
        assert(va + vb =~= va);
        assert(concat_spec(b) =~= Seq::<char>::empty());
        assert(concat_spec(a) + concat_spec(b) =~= concat_spec(a));
    } else if a.len() == 0 {
        assert(va + vb =~= vb);
        assert(concat_spec(a) =~= Seq::<char>::empty());
        assert(concat_spec(a) + concat_spec(b) =~= concat_spec(b));
    } else {
        let init = a.drop_last();
        let rest = b.drop_first();
        assert(a =~= init.push(a.last()));
        assert(b =~= seq![b[0]] + rest);
        lemma_concat_push(init, a.last());
        lemma_concat_push(init, a.last() + b[0]);
        lemma_concat_append(init.push(a.last() + b[0]), rest);
        lemma_concat_append(seq![b[0]], rest);
        assert(concat_spec(seq![b[0]]) == b[0]);
        assert(concat_spec(init) + (a.last() + b[0]) + concat_spec(rest) =~= concat_spec(init)
            + a.last() + (b[0] + concat_spec(rest)));
    }
}

/// Context for an SSR transform: the helpers the output needs, and a
/// counter for unique names.
pub struct SSRContext {
    /// Helper imports needed, in the order first registered.
    pub helpers: IndexSet<String>,
    /// The number of unique names generated so far.
    pub var_counter: usize,
    /// Whether the output is hydratable.
    pub hydratable: bool,
}

/// The unique name generated for `prefix` by the `n`th call.
pub open spec fn uid_spec(prefix: Seq<char>, n: nat) -> Seq<char> {
    "_"@ + prefix + decimal_spec(n)
}

/// `_` followed by the prefix and the counter.
pub fn uid_name(prefix: &str, n: usize) -> (r: String)
    ensures
        r@ == uid_spec(prefix@, n as nat),
{
    let mut s = to_owned("_");
    push_str(&mut s, prefix);
    let digits = usize_to_decimal(n);
    push_str(&mut s, digits.as_str());
    s
}

/// Distinct counter values give distinct names for the same prefix, so
/// the names a context generates never repeat.
pub proof fn lemma_uid_distinct(prefix: Seq<char>, n: nat, m: nat)
    requires
        n != m,
    ensures
        uid_spec(prefix, n) != uid_spec(prefix, m),
{
    let h = "_"@ + prefix;
    if uid_spec(prefix, n) == uid_spec(prefix, m) {
        let x = uid_spec(prefix, n);
        assert(x =~= h + decimal_spec(n));
        assert(x =~= h + decimal_spec(m));
        assert(x.subrange(h.len() as int, x.len() as int) =~= decimal_spec(n));
        assert(x.subrange(h.len() as int, x.len() as int) =~= decimal_spec(m));
        lemma_decimal_injective(n, m);
    }
}

impl SSRContext {
    pub fn new(hydratable: bool) -> (r: Self)
        ensures
            name_set_view(r.helpers) == Seq::<Seq<char>>::empty(),
            r.var_counter == 0,
            r.hydratable == hydratable,
    {
        SSRContext { helpers: name_set_new(), var_counter: 0, hydratable }
    }

    /// A fresh name: `_` + prefix + the incremented counter.
    pub fn generate_uid(&mut self, prefix: &str) -> (r: String)
        requires
            old(self).var_counter < usize::MAX,
        ensures
            final(self).var_counter == old(self).var_counter + 1,
            r@ == uid_spec(prefix@, final(self).var_counter as nat),
            name_set_view(final(self).helpers) == name_set_view(old(self).helpers),
            final(self).hydratable == old(self).hydratable,
    {
        self.var_counter = self.var_counter + 1;
        uid_name(prefix, self.var_counter)
    }

    /// Register a helper import.
    pub fn register_helper(&mut self, name: &str)
        ensures
            name_set_view(final(self).helpers) == name_set_insert_spec(
                name_set_view(old(self).helpers),
                name@,
            ),
            final(self).var_counter == old(self).var_counter,
            final(self).hydratable == old(self).hydratable,
    {
        name_set_insert(&mut self.helpers, to_owned(name));
    }
}

/// The code for a rendered result: the import of the helpers it needs,
/// then its `ssr` call.
pub open spec fn ssr_code_spec(helpers: Seq<Seq<char>>, call: Seq<char>) -> Seq<char> {
    if helpers.len() == 0 {
        call
    } else {
        "import { "@ + join_spec(helpers, ", "@) + " } from \"solid-js/web\";\n\n"@ + call
    }
}

/// Generate the final SSR code for a result.
pub fn generate_ssr_code(result: &SSRResult, context: &SSRContext) -> (r: String)
    ensures
        r@ == ssr_code_spec(
            name_set_view(context.helpers),
            ssr_call_spec(
                views(result.template_parts@),
                values_view(result.template_values@),
                false,
            ),
        ),
{
    let mut code = String::new();
    let helpers = name_set_to_vec(&context.helpers);
    if helpers.len() > 0 {
        push_str(&mut code, "import { ");
        let list = join(helpers.as_slice(), ", ");
        push_str(&mut code, list.as_str());
        push_str(&mut code, " } from \"solid-js/web\";\n\n");
    }
    let call = result.to_ssr_call();
    push_str(&mut code, call.as_str());
    code
}

/// `escape(expr)`, or `escape(expr, true)` for an attribute value.
pub fn escape_value(expr: &str, is_attr: bool) -> (r: String)
    ensures
        r@ == (if is_attr {
            "escape("@ + expr@ + ", true)"@
        } else {
            "escape("@ + expr@ + ")"@
        }),
{
    let mut s = to_owned("escape(");
    push_str(&mut s, expr);
    if is_attr {
        push_str(&mut s, ", true)");
    } else {
        push_str(&mut s, ")");
    }
    s
}

/// `ssrAttribute("name", expr, true|false)` for a dynamic boolean
/// attribute.
pub fn ssr_attribute(name: &str, expr: &str, is_boolean: bool) -> (r: String)
    ensures
        r@ == "ssrAttribute(\""@ + name@ + "\", "@ + expr@ + ", "@ + (if is_boolean {
            "true"@
        } else {
            "false"@
        }) + ")"@,
{
    let mut s = to_owned("ssrAttribute(\"");
    push_str(&mut s, name);
    push_str(&mut s, "\", ");
    push_str(&mut s, expr);
    push_str(&mut s, ", ");
    if is_boolean {
        push_str(&mut s, "true");
    } else {
        push_str(&mut s, "false");
    }
    push_str(&mut s, ")");
    s
}

/// `ssrStyle(expr)`.
pub fn ssr_style(expr: &str) -> (r: String)
    ensures
        r@ == "ssrStyle("@ + expr@ + ")"@,
{
    let mut s = to_owned("ssrStyle(");
    push_str(&mut s, expr);
    push_str(&mut s, ")");
    s
}

/// `ssrClassList(expr)`.
pub fn ssr_class_list(expr: &str) -> (r: String)
    ensures
        r@ == "ssrClassList("@ + expr@ + ")"@,
{
    let mut s = to_owned("ssrClassList(");
    push_str(&mut s, expr);
    push_str(&mut s, ")");
    s
}

/// `ssrHydrationKey()`.
pub fn ssr_hydration_key() -> (r: &'static str)
    ensures
        r@ == "ssrHydrationKey()"@,
{
    proof {
        reveal_strlit("ssrHydrationKey()");
    }
    "ssrHydrationKey()"
}

/// A property key as written in an object literal of the props of a
/// component: bare where it is a valid identifier, otherwise a string
/// literal in double quotes with `\` and `"` escaped.
pub open spec fn format_prop_key_spec(key: Seq<char>) -> Seq<char> {
    if is_valid_prop_identifier_spec(key) {
        key
    } else {
        seq!['"'] + replace_spec(replace_spec(key, seq!['\\'], seq!['\\', '\\']), seq!['"'], seq!['\\', '"'])
            + seq!['"']
    }
}

/// Format a property key for the props object of a component.
pub fn format_prop_key(key: &str) -> (r: String)
    ensures
        r@ == format_prop_key_spec(key@),
{
    if is_valid_prop_identifier(key) {
        return to_owned(key);
    }
    proof {
        reveal_strlit("\\");
        reveal_strlit("\\\\");
        reveal_strlit("\"");
        reveal_strlit("\\\"");
        assert("\\"@ =~= seq!['\\']);
        assert("\\\\"@ =~= seq!['\\', '\\']);
        assert("\""@ =~= seq!['"']);
        assert("\\\""@ =~= seq!['\\', '"']);
    }
    let escaped = replace(key, "\\", "\\\\");
    let escaped = replace(escaped.as_str(), "\"", "\\\"");
    let mut r = to_owned("\"");
    push_str(&mut r, escaped.as_str());
    push_str(&mut r, "\"");
    r
}

} // verus!
