//! solid/event-handlers: name DOM event handlers consistently and keep
//! Solid from mistaking props for handlers.
use vstd::prelude::*;
use crate::diagnostic::{
    concat_map, diags_view, fix_msg_spec, lemma_concat_map_full, lemma_concat_map_step,
    opt_diag_spec, push_opt, warning_spec, with_fix_spec, Diagnostic, DiagnosticView, Fix,
};
use crate::jsx::{
    Expression, JsxAttributeItem, JsxAttributeName, JsxAttributeValue, JsxElementName,
    JsxOpeningElement,
};
use crate::rules::no_array_handlers::{is_on_letter, is_on_letter_name, simple_element_name};
use crate::text::{
    ascii_upper, chars_of, is_ascii_lower, push_str, str_eq, str_lowercase_spec,
    str_to_lowercase, string_from_range, strs_view, to_owned,
};
use crate::utils::{is_dom_element, is_dom_element_spec};
use crate::{RuleCategory, RuleMeta};

verus! {

/// Configuration for the event-handlers rule.
#[derive(Debug, Clone, Copy, PartialEq, Eq, Structural)]
pub struct EventHandlersConfig {
    /// If true, don't warn on ambiguously named event handlers.
    pub ignore_case: bool,
    /// If true, warn when spreading event handlers onto JSX.
    pub warn_on_spread: bool,
}

impl Default for EventHandlersConfig {
    fn default() -> (r: Self)
        ensures
            !r.ignore_case,
            !r.warn_on_spread,
    {
        EventHandlersConfig { ignore_case: false, warn_on_spread: false }
    }
}

/// event-handlers rule.
#[derive(Debug, Clone)]
pub struct EventHandlers {
    pub config: EventHandlersConfig,
}

impl RuleMeta for EventHandlers {
    const NAME: &'static str = "event-handlers";
    const CATEGORY: RuleCategory = RuleCategory::Correctness;
}

/// Common DOM events with their conventional casing.
pub open spec fn common_events_spec() -> Seq<Seq<char>> {
    seq![
        "onAnimationEnd"@, "onAnimationIteration"@, "onAnimationStart"@, "onBeforeInput"@,
        "onBlur"@, "onChange"@, "onClick"@, "onContextMenu"@, "onCopy"@, "onCut"@,
        "onDblClick"@, "onDrag"@, "onDragEnd"@, "onDragEnter"@, "onDragExit"@, "onDragLeave"@,
        "onDragOver"@, "onDragStart"@, "onDrop"@, "onError"@, "onFocus"@, "onFocusIn"@,
        "onFocusOut"@, "onGotPointerCapture"@, "onInput"@, "onInvalid"@, "onKeyDown"@,
        "onKeyPress"@, "onKeyUp"@, "onLoad"@, "onLostPointerCapture"@, "onMouseDown"@,
        "onMouseEnter"@, "onMouseLeave"@, "onMouseMove"@, "onMouseOut"@, "onMouseOver"@,
        "onMouseUp"@, "onPaste"@, "onPointerCancel"@, "onPointerDown"@, "onPointerEnter"@,
        "onPointerLeave"@, "onPointerMove"@, "onPointerOut"@, "onPointerOver"@,
        "onPointerUp"@, "onReset"@, "onScroll"@, "onSelect"@, "onSubmit"@, "onToggle"@,
        "onTouchCancel"@, "onTouchEnd"@, "onTouchMove"@, "onTouchStart"@,
        "onTransitionEnd"@, "onWheel"@,
    ]
}

/// The first event of the list whose lowercase form is `lower`.
pub open spec fn first_event_match(events: Seq<Seq<char>>, lower: Seq<char>) -> Option<Seq<char>>
    decreases events.len(),
{
    if events.len() == 0 {
        None
    } else if str_lowercase_spec(events[0]) == lower {
        Some(events[0])
    } else {
        first_event_match(events.drop_first(), lower)
    }
}

/// The conventionally cased name of a common event, by its lowercase form.
pub open spec fn correct_event_name_spec(lower: Seq<char>) -> Option<Seq<char>> {
    first_event_match(common_events_spec(), lower)
}

/// A string or number literal, directly or in a container.
pub open spec fn is_static_value_spec(v: JsxAttributeValue) -> bool {
    match v {
        JsxAttributeValue::StringLiteral(_) => true,
        JsxAttributeValue::ExpressionContainer(c) => match c.expression {
            Some(Expression::StringLiteral(_)) => true,
            Some(Expression::NumericLiteral(_)) => true,
            _ => false,
        },
        _ => false,
    }
}

/// The diagnostic for one attribute item of a DOM element.
pub open spec fn event_item_spec(ignore_case: bool, item: JsxAttributeItem) -> Seq<DiagnosticView> {
    match item {
        JsxAttributeItem::Attribute(a) => match a.name {
            JsxAttributeName::Identifier(id) => {
                let name = id.name@;
                let name_span = id.span;
                if !is_on_letter(name) {
                    Seq::empty()
                } else if a.value is Some && is_static_value_spec(a.value->0) {
                    seq![
                        warning_spec(
                            "event-handlers"@,
                            a.span,
                            "The "@ + name
                                + " prop is named as an event handler but has a static value, so it will be treated as an attribute. Use attr:"@
                                + name + " if intentional."@,
                        ),
                    ]
                } else if ignore_case {
                    Seq::empty()
                } else {
                    let lower = str_lowercase_spec(name);
                    if lower == "ondoubleclick"@ {
                        seq![
                            with_fix_spec(
                                warning_spec(
                                    "event-handlers"@,
                                    name_span,
                                    "The "@ + name
                                        + " prop should be renamed to onDblClick, because it's not a standard event handler."@,
                                ),
                                fix_msg_spec(name_span, "onDblClick"@, "Use standard name"@),
                            ),
                        ]
                    } else {
                        match correct_event_name_spec(lower) {
                            Some(correct) => if correct != name {
                                seq![
                                    with_fix_spec(
                                        warning_spec(
                                            "event-handlers"@,
                                            name_span,
                                            "The "@ + name + " prop should be renamed to "@
                                                + correct + " for readability."@,
                                        ),
                                        fix_msg_spec(name_span, correct, "Fix casing"@),
                                    ),
                                ]
                            } else {
                                Seq::empty()
                            },
                            None => if is_ascii_lower(name[2]) {
                                seq![
                                    warning_spec(
                                        "event-handlers"@,
                                        name_span,
                                        "The "@ + name
                                            + " prop is ambiguous. If it is an event handler, change it to "@
                                            + ("on"@ + seq![ascii_upper(name[2])] + name.subrange(
                                            3,
                                            name.len() as int,
                                        )) + ". If it is an attribute, change it to "@ + (
                                        "attr:"@ + name) + "."@,
                                    ),
                                ]
                            } else {
                                Seq::empty()
                            },
                        }
                    }
                }
            },
            _ => Seq::empty(),
        },
        _ => Seq::empty(),
    }
}

/// All diagnostics of the rule: only DOM elements are checked.
pub open spec fn event_handlers_spec(ignore_case: bool, opening: JsxOpeningElement) -> Seq<
    DiagnosticView,
> {
    match simple_element_name(opening.name) {
        Some(name) => if is_dom_element_spec(name) {
            concat_map(opening.attributes@, |item: JsxAttributeItem| event_item_spec(ignore_case, item))
        } else {
            Seq::empty()
        },
        None => Seq::empty(),
    }
}

fn is_static_value(value: &JsxAttributeValue) -> (r: bool)
    ensures
        r == is_static_value_spec(*value),
{
    match value {
        JsxAttributeValue::StringLiteral(_) => true,
        JsxAttributeValue::ExpressionContainer(container) => match &container.expression {
            Some(Expression::StringLiteral(_)) => true,
            Some(Expression::NumericLiteral(_)) => true,
            _ => false,
        },
        _ => false,
    }
}

impl EventHandlers {
    pub fn new() -> (r: Self)
        ensures
            !r.config.ignore_case,
            !r.config.warn_on_spread,
    {
        EventHandlers { config: EventHandlersConfig::default() }
    }

    pub fn with_config(config: EventHandlersConfig) -> (r: Self)
        ensures
            r.config == config,
    {
        EventHandlers { config }
    }

    /// The conventionally cased name of a common DOM event, by its
    /// lowercase form.
    pub fn get_correct_event_name(&self, lowercase: &str) -> (r: Option<&'static str>)
        ensures
            match r {
                Some(s) => correct_event_name_spec(lowercase@) == Some(s@),
                None => correct_event_name_spec(lowercase@) is None,
            },
    {
        let list = [
            "onAnimationEnd", "onAnimationIteration", "onAnimationStart", "onBeforeInput",
            "onBlur", "onChange", "onClick", "onContextMenu", "onCopy", "onCut", "onDblClick",
            "onDrag", "onDragEnd", "onDragEnter", "onDragExit", "onDragLeave", "onDragOver",
            "onDragStart", "onDrop", "onError", "onFocus", "onFocusIn", "onFocusOut",
            "onGotPointerCapture", "onInput", "onInvalid", "onKeyDown", "onKeyPress", "onKeyUp",
            "onLoad", "onLostPointerCapture", "onMouseDown", "onMouseEnter", "onMouseLeave",
            "onMouseMove", "onMouseOut", "onMouseOver", "onMouseUp", "onPaste",
            "onPointerCancel", "onPointerDown", "onPointerEnter", "onPointerLeave",
            "onPointerMove", "onPointerOut", "onPointerOver", "onPointerUp", "onReset",
            "onScroll", "onSelect", "onSubmit", "onToggle", "onTouchCancel", "onTouchEnd",
            "onTouchMove", "onTouchStart", "onTransitionEnd", "onWheel",
        ];
        let ghost events = strs_view(list@);
        assert(events =~= common_events_spec());
        let mut k: usize = 0;
        assert(events.subrange(0, events.len() as int) =~= events);
        while k < list.len()
            invariant
                events == strs_view(list@),
                events == common_events_spec(),
                k <= events.len(),
                correct_event_name_spec(lowercase@) == first_event_match(
                    events.subrange(k as int, events.len() as int),
                    lowercase@,
                ),
            decreases events.len() - k,
        {
            let ghost rest = events.subrange(k as int, events.len() as int);
            assert(rest[0] == list@[k as int]@);
            assert(rest.drop_first() =~= events.subrange(k + 1, events.len() as int));
            let lower = str_to_lowercase(list[k]);
            if str_eq(lower.as_str(), lowercase) {
                return Some(list[k]);
            }
            k = k + 1;
        }
        None
    }

    fn check_item(&self, item: &JsxAttributeItem) -> (r: Option<Diagnostic>)
        ensures
            opt_diag_spec(r) == event_item_spec(self.config.ignore_case, *item),
    {
        let jsx_attr = match item {
            JsxAttributeItem::Attribute(a) => a,
            _ => return None,
        };
        let (name, name_span) = match &jsx_attr.name {
            JsxAttributeName::Identifier(ident) => (ident.name.as_str(), ident.span),
            JsxAttributeName::NamespacedName(_) => return None,
        };
        if !is_on_letter_name(name) {
            return None;
        }
        let v = chars_of(name);
        let third_char = v[2];
        if let Some(value) = &jsx_attr.value {
            if is_static_value(value) {
                let mut message = to_owned("The ");
                push_str(&mut message, name);
                push_str(
                    &mut message,
                    " prop is named as an event handler but has a static value, so it will be treated as an attribute. Use attr:",
                );
                push_str(&mut message, name);
                push_str(&mut message, " if intentional.");
                return Some(Diagnostic::warning(Self::NAME, jsx_attr.span, message.as_str()));
            }
        }
        if self.config.ignore_case {
            return None;
        }
        let lowercase = str_to_lowercase(name);
        if str_eq(lowercase.as_str(), "ondoubleclick") {
            let mut message = to_owned("The ");
            push_str(&mut message, name);
            push_str(
                &mut message,
                " prop should be renamed to onDblClick, because it's not a standard event handler.",
            );
            return Some(
                Diagnostic::warning(Self::NAME, name_span, message.as_str()).with_fix(
                    Fix::new(name_span, "onDblClick").with_message("Use standard name"),
                ),
            );
        }
        match self.get_correct_event_name(lowercase.as_str()) {
            Some(correct) => {
                if !str_eq(correct, name) {
                    let mut message = to_owned("The ");
                    push_str(&mut message, name);
                    push_str(&mut message, " prop should be renamed to ");
                    push_str(&mut message, correct);
                    push_str(&mut message, " for readability.");
                    return Some(
                        Diagnostic::warning(Self::NAME, name_span, message.as_str()).with_fix(
                            Fix::new(name_span, correct).with_message("Fix casing"),
                        ),
                    );
                }
                None
            },
            None => {
                if 'a' <= third_char && third_char <= 'z' {
                    let mut handler_name = to_owned("on");
                    handler_name.push(crate::text::char_from_ascii_upper(third_char));
                    let rest = string_from_range(v.as_slice(), 3, v.len());
                    push_str(&mut handler_name, rest.as_str());
                    let mut attr_name = to_owned("attr:");
                    push_str(&mut attr_name, name);
                    let mut message = to_owned("The ");
                    push_str(&mut message, name);
                    push_str(
                        &mut message,
                        " prop is ambiguous. If it is an event handler, change it to ",
                    );
                    push_str(&mut message, handler_name.as_str());
                    push_str(&mut message, ". If it is an attribute, change it to ");
                    push_str(&mut message, attr_name.as_str());
                    push_str(&mut message, ".");
                    assert(handler_name@ =~= "on"@ + seq![ascii_upper(name@[2])] + name@.subrange(
                        3,
                        name@.len() as int,
                    ));
                    assert(message@ =~= "The "@ + name@
                        + " prop is ambiguous. If it is an event handler, change it to "@ + (
                    "on"@ + seq![ascii_upper(name@[2])] + name@.subrange(3, name@.len() as int))
                        + ". If it is an attribute, change it to "@ + ("attr:"@ + name@) + "."@);
                    Some(Diagnostic::warning(Self::NAME, name_span, message.as_str()))
                } else {
                    None
                }
            },
        }
    }

    /// Check a JSX opening element for event handler issues.
    pub fn check(&self, opening: &JsxOpeningElement) -> (r: Vec<Diagnostic>)
        ensures
            diags_view(r@) == event_handlers_spec(self.config.ignore_case, *opening),
    {
        let mut diagnostics: Vec<Diagnostic> = Vec::new();
        assert(diags_view(diagnostics@) =~= Seq::<DiagnosticView>::empty());
        let element_name = match &opening.name {
            JsxElementName::Identifier(ident) => ident.name.as_str(),
            JsxElementName::IdentifierReference(ident) => ident.name.as_str(),
            _ => return diagnostics,
        };
        if !is_dom_element(element_name) {
            return diagnostics;
        }
        let ghost f = |item: JsxAttributeItem| event_item_spec(self.config.ignore_case, item);
        let mut k: usize = 0;
        while k < opening.attributes.len()
            invariant
                f == (|item: JsxAttributeItem| event_item_spec(self.config.ignore_case, item)),
                k <= opening.attributes@.len(),
                diags_view(diagnostics@) == concat_map(opening.attributes@.subrange(0, k as int), f),
            decreases opening.attributes@.len() - k,
        {
            proof {
                lemma_concat_map_step(opening.attributes@, f, k as int);
            }
            let d = self.check_item(&opening.attributes[k]);
            push_opt(&mut diagnostics, d);
            k = k + 1;
        }
        proof {
            lemma_concat_map_full(opening.attributes@, f);
        }
        diagnostics
    }
}

} // verus!
