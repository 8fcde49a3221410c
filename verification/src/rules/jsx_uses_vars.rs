//! solid/jsx-uses-vars: marks variables used in JSX as used.
use vstd::prelude::*;
use crate::jsx::{JsxAttributeItem, JsxAttributeName, JsxElementName, JsxOpeningElement};
use crate::text::{char_is_uppercase, char_is_uppercase_spec, chars_of, str_eq, to_owned, views};
use crate::utils::{get_member_root, member_root_spec};
use crate::{RuleCategory, RuleMeta};

verus! {

/// jsx-uses-vars rule.
#[derive(Debug, Clone)]
pub struct JsxUsesVars;

impl RuleMeta for JsxUsesVars {
    const NAME: &'static str = "jsx-uses-vars";
    const CATEGORY: RuleCategory = RuleCategory::Correctness;
}

/// The name starts with an uppercase character.
pub open spec fn starts_uppercase(name: Seq<char>) -> bool {
    name.len() > 0 && char_is_uppercase_spec(name[0])
}

/// The variable the element name refers to, if any.
pub open spec fn element_name_vars_spec(name: JsxElementName) -> Seq<Seq<char>> {
    match name {
        JsxElementName::Identifier(i) => if starts_uppercase(i.name@) {
            seq![i.name@]
        } else {
            Seq::empty()
        },
        JsxElementName::IdentifierReference(i) => if starts_uppercase(i.name@) {
            seq![i.name@]
        } else {
            Seq::empty()
        },
        JsxElementName::MemberExpression(m) => match member_root_spec(m) {
            Some((n, _)) => seq![n],
            None => Seq::empty(),
        },
        _ => Seq::empty(),
    }
}

/// The directive named by a `use:X` attribute.
pub open spec fn directive_var_spec(item: JsxAttributeItem) -> Seq<Seq<char>> {
    match item {
        JsxAttributeItem::Attribute(a) => match a.name {
            JsxAttributeName::NamespacedName(ns) => if ns.namespace.name@ == "use"@ {
                seq![ns.name.name@]
            } else {
                Seq::empty()
            },
            _ => Seq::empty(),
        },
        _ => Seq::empty(),
    }
}

/// The variables used by an opening element, in order.
pub open spec fn used_vars_spec(opening: JsxOpeningElement) -> Seq<Seq<char>> {
    element_name_vars_spec(opening.name) + crate::diagnostic::concat_map(
        opening.attributes@,
        |item: JsxAttributeItem| directive_var_spec(item),
    )
}

fn starts_with_uppercase(name: &str) -> (r: bool)
    ensures
        r == starts_uppercase(name@),
{
    let v = chars_of(name);
    v.len() > 0 && char_is_uppercase(v[0])
}

impl JsxUsesVars {
    pub fn new() -> (r: Self) {
        JsxUsesVars
    }

    /// Collect the variable names used in a JSX opening element: a component
    /// name, the root of a member expression, and `use:X` directives.
    pub fn collect_used_vars(&self, opening: &JsxOpeningElement) -> (r: Vec<String>)
        ensures
            views(r@) == used_vars_spec(*opening),
    {
        let mut used: Vec<String> = Vec::new();
        match &opening.name {
            JsxElementName::Identifier(ident) => {
                if starts_with_uppercase(ident.name.as_str()) {
                    used.push(to_owned(ident.name.as_str()));
                }
            },
            JsxElementName::IdentifierReference(ident) => {
                if starts_with_uppercase(ident.name.as_str()) {
                    used.push(to_owned(ident.name.as_str()));
                }
            },
            JsxElementName::MemberExpression(member) => {
                if let Some((name, _)) = get_member_root(member) {
                    used.push(name);
                }
            },
            _ => {},
        }
        assert(views(used@) =~= element_name_vars_spec(opening.name));
        let ghost head = views(used@);
        let ghost f = |item: JsxAttributeItem| directive_var_spec(item);
        let mut k: usize = 0;
        while k < opening.attributes.len()
            invariant
                f == (|item: JsxAttributeItem| directive_var_spec(item)),
                k <= opening.attributes@.len(),
                views(used@) == head + crate::diagnostic::concat_map(
                    opening.attributes@.subrange(0, k as int),
                    f,
                ),
            decreases opening.attributes@.len() - k,
        {
            proof {
                crate::diagnostic::lemma_concat_map_step(opening.attributes@, f, k as int);
            }
            let ghost before = views(used@);
            if let JsxAttributeItem::Attribute(jsx_attr) = &opening.attributes[k] {
                if let JsxAttributeName::NamespacedName(ns) = &jsx_attr.name {
                    if str_eq(ns.namespace.name.as_str(), "use") {
                        used.push(to_owned(ns.name.name.as_str()));
                    }
                }
            }
            assert(views(used@) =~= before + f(opening.attributes@[k as int]));
            k = k + 1;
        }
        proof {
            crate::diagnostic::lemma_concat_map_full(opening.attributes@, f);
        }
        used
    }
}

} // verus!
