//! solid/prefer-classlist: prefer the classList prop over classnames
//! helpers such as `clsx` and `cn`.
use vstd::prelude::*;
use crate::diagnostic::{
    concat_map, diags_view, fix_msg_spec, lemma_concat_map_full, lemma_concat_map_step,
    opt_diag_spec, push_opt, warning_spec, with_fix_spec, Diagnostic, DiagnosticView, Fix,
};
use crate::jsx::{
    Argument, Expression, JsxAttributeItem, JsxAttributeName, JsxAttributeValue,
    JsxOpeningElement,
};
use crate::span::Span;
use crate::text::{push_str, str_eq, string_in, to_owned, views};
use crate::utils::{has_attr_spec, has_attribute};
use crate::{RuleCategory, RuleMeta};

verus! {

/// prefer-classlist rule.
#[derive(Debug, Clone)]
pub struct PreferClasslist {
    /// Names to treat as classnames functions.
    pub classnames: Vec<String>,
}

impl Default for PreferClasslist {
    fn default() -> (r: Self)
        ensures
            views(r.classnames@) == seq!["cn"@, "clsx"@, "classnames"@],
    {
        let mut classnames: Vec<String> = Vec::new();
        classnames.push(to_owned("cn"));
        classnames.push(to_owned("clsx"));
        classnames.push(to_owned("classnames"));
        assert(views(classnames@) =~= seq!["cn"@, "clsx"@, "classnames"@]);
        PreferClasslist { classnames }
    }
}

impl RuleMeta for PreferClasslist {
    const NAME: &'static str = "prefer-classlist";
    const CATEGORY: RuleCategory = RuleCategory::Style;
}

/// The callee name and object span of a classnames call with a single
/// object argument.
pub open spec fn classnames_call_spec(classnames: Seq<Seq<char>>, e: Expression) -> Option<
    (Seq<char>, Span),
> {
    match e {
        Expression::Call(call) => match call.callee {
            Expression::Identifier(callee) => if classnames.contains(callee.name@)
                && call.arguments@.len() == 1 {
                match call.arguments@[0] {
                    Argument::Expression(Expression::Object(obj)) => Some((callee.name@, obj.span)),
                    _ => None,
                }
            } else {
                None
            },
            _ => None,
        },
        _ => None,
    }
}

/// The diagnostic for one attribute item.
pub open spec fn classlist_item_spec(classnames: Seq<Seq<char>>, item: JsxAttributeItem) -> Seq<
    DiagnosticView,
> {
    match item {
        JsxAttributeItem::Attribute(a) => match a.name {
            JsxAttributeName::Identifier(id) => if id.name@ == "class"@ || id.name@
                == "className"@ {
                match a.value {
                    Some(JsxAttributeValue::ExpressionContainer(c)) => match c.expression {
                        Some(e) => match classnames_call_spec(classnames, e) {
                            Some((callee, object_span)) => seq![
                                with_fix_spec(
                                    with_fix_spec(
                                        warning_spec(
                                            "prefer-classlist"@,
                                            a.span,
                                            "The classlist prop should be used instead of "@
                                                + callee
                                                + " to efficiently set classes based on an object."@,
                                        ),
                                        fix_msg_spec(
                                            Span { start: a.span.start, end: object_span.start },
                                            "classList={"@,
                                            "Replace with classList prop"@,
                                        ),
                                    ),
                                    fix_msg_spec(
                                        Span { start: object_span.end, end: a.span.end },
                                        "}"@,
                                        Seq::empty(),
                                    ),
                                ),
                            ],
                            None => Seq::empty(),
                        },
                        None => Seq::empty(),
                    },
                    _ => Seq::empty(),
                }
            } else {
                Seq::empty()
            },
            _ => Seq::empty(),
        },
        _ => Seq::empty(),
    }
}

/// All diagnostics of the rule for an opening element.
pub open spec fn prefer_classlist_spec(classnames: Seq<Seq<char>>, opening: JsxOpeningElement) -> Seq<
    DiagnosticView,
> {
    if has_attr_spec(opening.attributes@, "classlist"@) || has_attr_spec(
        opening.attributes@,
        "classList"@,
    ) {
        Seq::empty()
    } else {
        concat_map(
            opening.attributes@,
            |item: JsxAttributeItem| classlist_item_spec(classnames, item),
        )
    }
}

impl PreferClasslist {
    pub fn new() -> (r: Self)
        ensures
            views(r.classnames@) == seq!["cn"@, "clsx"@, "classnames"@],
    {
        PreferClasslist::default()
    }

    pub fn with_classnames(self, classnames: Vec<String>) -> (r: Self)
        ensures
            r.classnames@ == classnames@,
    {
        PreferClasslist { classnames }
    }

    /// The callee name and object span of a classnames helper call with a
    /// single object argument.
    fn get_classnames_call_info<'a>(&self, expr: &'a Expression) -> (r: Option<(&'a str, Span)>)
        ensures
            match r {
                Some((n, s)) => classnames_call_spec(views(self.classnames@), *expr) == Some(
                    (n@, s),
                ),
                None => classnames_call_spec(views(self.classnames@), *expr) is None,
            },
    {
        let call = match expr {
            Expression::Call(call) => call,
            _ => return None,
        };
        let callee_name = match &call.callee {
            Expression::Identifier(ident) => ident.name.as_str(),
            _ => return None,
        };
        if !string_in(callee_name, self.classnames.as_slice()) {
            return None;
        }
        if call.arguments.len() != 1 {
            return None;
        }
        match &call.arguments[0] {
            Argument::Expression(Expression::Object(obj)) => Some((callee_name, obj.span)),
            _ => None,
        }
    }

    fn check_item(&self, item: &JsxAttributeItem) -> (r: Option<Diagnostic>)
        ensures
            opt_diag_spec(r) == classlist_item_spec(views(self.classnames@), *item),
    {
        proof {
            reveal_strlit("");
            assert(""@ =~= Seq::<char>::empty());
        }
        let jsx_attr = match item {
            JsxAttributeItem::Attribute(a) => a,
            _ => return None,
        };
        let prop_name = match &jsx_attr.name {
            JsxAttributeName::Identifier(ident) => ident.name.as_str(),
            JsxAttributeName::NamespacedName(_) => return None,
        };
        if !str_eq(prop_name, "class") && !str_eq(prop_name, "className") {
            return None;
        }
        if let Some(JsxAttributeValue::ExpressionContainer(container)) = &jsx_attr.value {
            if let Some(expr) = &container.expression {
                if let Some((callee_name, object_span)) = self.get_classnames_call_info(expr) {
                    let mut message = to_owned("The classlist prop should be used instead of ");
                    push_str(&mut message, callee_name);
                    push_str(&mut message, " to efficiently set classes based on an object.");
                    return Some(
                        Diagnostic::warning(Self::NAME, jsx_attr.span, message.as_str()).with_fix(
                            Fix::new(
                                Span::new(jsx_attr.span.start, object_span.start),
                                "classList={",
                            ).with_message("Replace with classList prop"),
                        ).with_fix(
                            Fix::new(Span::new(object_span.end, jsx_attr.span.end), "}")
                                .with_message(""),
                        ),
                    );
                }
            }
        }
        None
    }

    /// Check a JSX opening element for classnames helper usage.
    pub fn check(&self, opening: &JsxOpeningElement) -> (r: Vec<Diagnostic>)
        ensures
            diags_view(r@) == prefer_classlist_spec(views(self.classnames@), *opening),
    {
        let mut diagnostics: Vec<Diagnostic> = Vec::new();
        if has_attribute(opening, "classlist") || has_attribute(opening, "classList") {
            assert(diags_view(diagnostics@) =~= Seq::<DiagnosticView>::empty());
            return diagnostics;
        }
        let ghost f = |item: JsxAttributeItem| classlist_item_spec(views(self.classnames@), item);
        let mut k: usize = 0;
        while k < opening.attributes.len()
            invariant
                f == (|item: JsxAttributeItem| classlist_item_spec(views(self.classnames@), item)),
                k <= opening.attributes@.len(),
                diags_view(diagnostics@) == concat_map(opening.attributes@.subrange(0, k as int), f),
            decreases opening.attributes@.len() - k,
        {
            proof {
                lemma_concat_map_step(opening.attributes@, f, k as int);
            }
            let d = self.check_item(&opening.attributes[k]);
            push_opt(&mut diagnostics, d);
            k = k + 1;
        }
        proof {
            lemma_concat_map_full(opening.attributes@, f);
        }
        diagnostics
    }
}

} // verus!
