//! Diagnostics produced by the lint rules.
use vstd::prelude::*;
use crate::span::Span;
use crate::text::{to_owned};

verus! {

/// Severity level of a diagnostic.
#[derive(Debug, Clone, Copy, PartialEq, Eq, Structural)]
pub enum DiagnosticSeverity {
    Error,
    Warning,
    Info,
    Hint,
}

/// A suggested edit: replace `start..end` by `replacement`.
#[derive(Debug, Clone)]
pub struct Fix {
    pub start: u32,
    pub end: u32,
    pub replacement: String,
    pub message: Option<String>,
}

/// The mathematical content of a [`Fix`].
pub struct FixView {
    pub start: u32,
    pub end: u32,
    pub replacement: Seq<char>,
    pub message: Option<Seq<char>>,
}

pub open spec fn opt_view(o: Option<String>) -> Option<Seq<char>> {
    match o {
        Some(s) => Some(s@),
        None => None,
    }
}

impl View for Fix {
    type V = FixView;

    open spec fn view(&self) -> FixView {
        FixView {
            start: self.start,
            end: self.end,
            replacement: self.replacement@,
            message: opt_view(self.message),
        }
    }
}

/// A fix without a message.
pub open spec fn fix_spec(span: Span, replacement: Seq<char>) -> FixView {
    FixView { start: span.start, end: span.end, replacement, message: None }
}

/// A fix with a message.
pub open spec fn fix_msg_spec(span: Span, replacement: Seq<char>, message: Seq<char>) -> FixView {
    FixView { start: span.start, end: span.end, replacement, message: Some(message) }
}

impl Fix {
    pub fn new(span: Span, replacement: &str) -> (f: Fix)
        ensures
            f@ == fix_spec(span, replacement@),
    {
        Fix { start: span.start, end: span.end, replacement: to_owned(replacement), message: None }
    }

    pub fn with_message(self, message: &str) -> (f: Fix)
        ensures
            f@ == (FixView { message: Some(message@), ..self@ }),
    {
        Fix { message: Some(to_owned(message)), ..self }
    }

    pub fn span(&self) -> (s: Span)
        ensures
            s.start == self.start,
            s.end == self.end,
    {
        Span { start: self.start, end: self.end }
    }
}

/// A lint diagnostic.
#[derive(Debug, Clone)]
pub struct Diagnostic {
    /// The rule that produced this diagnostic.
    pub rule: String,
    pub start: u32,
    pub end: u32,
    /// Primary message.
    pub message: String,
    /// Optional help text.
    pub help: Option<String>,
    pub severity: DiagnosticSeverity,
    /// Labels pointing to related locations.
    pub labels: Vec<(u32, u32, String)>,
    /// Suggested fixes.
    pub fixes: Vec<Fix>,
}

/// The mathematical content of a [`Diagnostic`].
pub struct DiagnosticView {
    pub rule: Seq<char>,
    pub start: u32,
    pub end: u32,
    pub message: Seq<char>,
    pub help: Option<Seq<char>>,
    pub severity: DiagnosticSeverity,
    pub labels: Seq<(u32, u32, Seq<char>)>,
    pub fixes: Seq<FixView>,
}

pub open spec fn label_view(l: (u32, u32, String)) -> (u32, u32, Seq<char>) {
    (l.0, l.1, l.2@)
}

pub open spec fn fixes_view(v: Seq<Fix>) -> Seq<FixView> {
    v.map_values(|f: Fix| f@)
}

impl View for Diagnostic {
    type V = DiagnosticView;

    open spec fn view(&self) -> DiagnosticView {
        DiagnosticView {
            rule: self.rule@,
            start: self.start,
            end: self.end,
            message: self.message@,
            help: opt_view(self.help),
            severity: self.severity,
            labels: self.labels@.map_values(|l: (u32, u32, String)| label_view(l)),
            fixes: fixes_view(self.fixes@),
        }
    }
}

/// The concatenation of `f` applied to each element of `s`, in order.
pub open spec fn concat_map<A, B>(s: Seq<A>, f: spec_fn(A) -> Seq<B>) -> Seq<B>
    decreases s.len(),
{
    if s.len() == 0 {
        Seq::empty()
    } else {
        concat_map(s.drop_last(), f) + f(s.last())
    }
}

/// One more element: `concat_map` over a prefix grows by that element's
/// image.
pub proof fn lemma_concat_map_step<A, B>(s: Seq<A>, f: spec_fn(A) -> Seq<B>, k: int)
    requires
        0 <= k < s.len(),
    ensures
        concat_map(s.subrange(0, k + 1), f) == concat_map(s.subrange(0, k), f) + f(s[k]),
{
    let p = s.subrange(0, k + 1);
    assert(p.drop_last() =~= s.subrange(0, k));
}

/// The whole sequence as a prefix.
pub proof fn lemma_concat_map_full<A, B>(s: Seq<A>, f: spec_fn(A) -> Seq<B>)
    ensures
        concat_map(s.subrange(0, s.len() as int), f) == concat_map(s, f),
{
    assert(s.subrange(0, s.len() as int) =~= s);
}

/// `concat_map` over two sequences one after the other.
pub proof fn lemma_concat_map_append<A, B>(s: Seq<A>, t: Seq<A>, f: spec_fn(A) -> Seq<B>)
    ensures
        concat_map(s + t, f) == concat_map(s, f) + concat_map(t, f),
    decreases t.len(),
{
    if t.len() == 0 {
        assert(s + t =~= s);
        assert(concat_map(s, f) + concat_map(t, f) =~= concat_map(s, f));
    } else {
        lemma_concat_map_append(s, t.drop_last(), f);
        assert((s + t).drop_last() =~= s + t.drop_last());
        assert((s + t).last() == t.last());
        assert(concat_map(s, f) + concat_map(t.drop_last(), f) + f(t.last()) =~= concat_map(s, f)
            + (concat_map(t.drop_last(), f) + f(t.last())));
    }
}

/// `concat_map` of a function that gives one value `g(x)` where `p(x)`
/// holds and nothing elsewhere: the values of the elements kept by `p`.
pub proof fn lemma_concat_map_filter<A, B>(
    s: Seq<A>,
    f: spec_fn(A) -> Seq<B>,
    p: spec_fn(A) -> bool,
    g: spec_fn(A) -> B,
)
    requires
        forall|x: A| #[trigger] f(x) == (if p(x) {
            seq![g(x)]
        } else {
            Seq::<B>::empty()
        }),
    ensures
        concat_map(s, f) == s.filter(p).map_values(g),
    decreases s.len(),
{
    reveal(Seq::filter);
    if s.len() == 0 {
        assert(s.filter(p).map_values(g) =~= Seq::<B>::empty());
    } else {
        lemma_concat_map_filter(s.drop_last(), f, p, g);
        let front = s.drop_last().filter(p);
        if p(s.last()) {
            assert(s.filter(p) == front.push(s.last()));
            assert(front.push(s.last()).map_values(g) =~= front.map_values(g) + seq![g(s.last())]);
        } else {
            assert(s.filter(p) == front);
            assert(concat_map(s.drop_last(), f) + Seq::<B>::empty() =~= concat_map(s.drop_last(), f));
        }
    }
}

/// `concat_map` of a function that gives nothing for every element.
pub proof fn lemma_concat_map_nothing<A, B>(s: Seq<A>, f: spec_fn(A) -> Seq<B>)
    requires
        forall|i: int| 0 <= i < s.len() ==> f(#[trigger] s[i]).len() == 0,
    ensures
        concat_map(s, f).len() == 0,
    decreases s.len(),
{
    if s.len() > 0 {
        assert(forall|i: int| 0 <= i < s.drop_last().len() ==> s.drop_last()[i] == s[i]);
        lemma_concat_map_nothing(s.drop_last(), f);
        assert(f(s[s.len() - 1]).len() == 0);
    }
}

/// The sequence holding the value, if any.
pub open spec fn opt_seq<A>(o: Option<A>) -> Seq<A> {
    match o {
        Some(a) => seq![a],
        None => Seq::empty(),
    }
}

/// The views of a list of diagnostics.
pub open spec fn diags_view(v: Seq<Diagnostic>) -> Seq<DiagnosticView> {
    v.map_values(|d: Diagnostic| d@)
}

/// The view of an optional diagnostic, as a sequence of zero or one.
pub open spec fn opt_diag_spec(o: Option<Diagnostic>) -> Seq<DiagnosticView> {
    match o {
        Some(d) => seq![d@],
        None => Seq::empty(),
    }
}

/// Appends the diagnostic, if any.
pub fn push_opt(v: &mut Vec<Diagnostic>, o: Option<Diagnostic>)
    ensures
        diags_view(final(v)@) == diags_view(old(v)@) + opt_diag_spec(o),
{
    let ghost before = v@;
    match o {
        Some(d) => {
            v.push(d);
            assert(diags_view(v@) =~= diags_view(before) + seq![d@]);
        },
        None => {
            assert(diags_view(v@) =~= diags_view(before) + Seq::<DiagnosticView>::empty());
        },
    }
}

/// Appends all diagnostics of `w`, in order.
pub fn extend_diags(v: &mut Vec<Diagnostic>, w: Vec<Diagnostic>)
    ensures
        diags_view(final(v)@) == diags_view(old(v)@) + diags_view(w@),
{
    let ghost before = v@;
    let mut w = w;
    let ghost wv = w@;
    v.append(&mut w);
    assert(diags_view(v@) =~= diags_view(before) + diags_view(wv));
}

/// A fresh diagnostic with the given severity and nothing attached.
pub open spec fn diag_spec(
    rule: Seq<char>,
    span: Span,
    message: Seq<char>,
    severity: DiagnosticSeverity,
) -> DiagnosticView {
    DiagnosticView {
        rule,
        start: span.start,
        end: span.end,
        message,
        help: None,
        severity,
        labels: Seq::empty(),
        fixes: Seq::empty(),
    }
}

/// A warning with nothing attached.
pub open spec fn warning_spec(rule: Seq<char>, span: Span, message: Seq<char>) -> DiagnosticView {
    diag_spec(rule, span, message, DiagnosticSeverity::Warning)
}

/// An error with nothing attached.
pub open spec fn error_spec(rule: Seq<char>, span: Span, message: Seq<char>) -> DiagnosticView {
    diag_spec(rule, span, message, DiagnosticSeverity::Error)
}

pub open spec fn with_help_spec(d: DiagnosticView, help: Seq<char>) -> DiagnosticView {
    DiagnosticView { help: Some(help), ..d }
}

pub open spec fn with_fix_spec(d: DiagnosticView, fix: FixView) -> DiagnosticView {
    DiagnosticView { fixes: d.fixes.push(fix), ..d }
}

pub open spec fn with_label_spec(d: DiagnosticView, span: Span, message: Seq<char>) -> DiagnosticView {
    DiagnosticView { labels: d.labels.push((span.start, span.end, message)), ..d }
}

impl Diagnostic {
    /// A warning for `span` with the given message and nothing attached.
    pub fn new(rule: &str, span: Span, message: &str) -> (d: Diagnostic)
        ensures
            d@ == warning_spec(rule@, span, message@),
    {
        let d = Diagnostic {
            rule: to_owned(rule),
            start: span.start,
            end: span.end,
            message: to_owned(message),
            help: None,
            severity: DiagnosticSeverity::Warning,
            labels: Vec::new(),
            fixes: Vec::new(),
        };
        assert(d@.labels =~= Seq::<(u32, u32, Seq<char>)>::empty());
        assert(d@.fixes =~= Seq::<FixView>::empty());
        d
    }

    pub fn span(&self) -> (s: Span)
        ensures
            s.start == self.start,
            s.end == self.end,
    {
        Span { start: self.start, end: self.end }
    }

    pub fn with_help(self, help: &str) -> (d: Diagnostic)
        ensures
            d@ == with_help_spec(self@, help@),
    {
        Diagnostic { help: Some(to_owned(help)), ..self }
    }

    pub fn with_severity(self, severity: DiagnosticSeverity) -> (d: Diagnostic)
        ensures
            d@ == (DiagnosticView { severity, ..self@ }),
    {
        Diagnostic { severity, ..self }
    }

    pub fn with_label(self, span: Span, message: &str) -> (d: Diagnostic)
        ensures
            d@ == with_label_spec(self@, span, message@),
    {
        let mut d = self;
        let ghost old_labels = d.labels@;
        d.labels.push((span.start, span.end, to_owned(message)));
        assert(d.labels@.map_values(|l: (u32, u32, String)| label_view(l)) =~= old_labels.map_values(
            |l: (u32, u32, String)| label_view(l),
        ).push((span.start, span.end, message@)));
        d
    }

    pub fn with_fix(self, fix: Fix) -> (d: Diagnostic)
        ensures
            d@ == with_fix_spec(self@, fix@),
    {
        let mut d = self;
        let ghost old_fixes = d.fixes@;
        d.fixes.push(fix);
        assert(fixes_view(d.fixes@) =~= fixes_view(old_fixes).push(fix@));
        d
    }

    /// An error for `span` with the given message.
    pub fn error(rule: &str, span: Span, message: &str) -> (d: Diagnostic)
        ensures
            d@ == error_spec(rule@, span, message@),
    {
        Diagnostic::new(rule, span, message).with_severity(DiagnosticSeverity::Error)
    }

    /// A warning for `span` with the given message.
    pub fn warning(rule: &str, span: Span, message: &str) -> (d: Diagnostic)
        ensures
            d@ == warning_spec(rule@, span, message@),
    {
        Diagnostic::new(rule, span, message).with_severity(DiagnosticSeverity::Warning)
    }
}

} // verus!
