//! The context rules run in: the source, its type, the semantic analysis
//! of the program where there is one, and the diagnostics reported so far.
use vstd::prelude::*;
use crate::diagnostic::{diags_view, Diagnostic, DiagnosticView};
use crate::source::SourceKind;
use crate::span::Span;
use crate::text::{str_get, str_get_spec, to_owned};

verus! {

/// `oxc_semantic::Semantic`, the scopes and symbols of a program, carried
/// by reference and unread.
#[verifier::external_type_specification]
#[verifier::external_body]
pub struct ExSemantic<'a>(oxc_semantic::Semantic<'a>);

/// The context passed to rules while linting.
pub struct LintContext<'a> {
    source_text: String,
    source_type: SourceKind,
    semantic: Option<&'a oxc_semantic::Semantic<'a>>,
    diagnostics: Vec<Diagnostic>,
}

impl<'a> LintContext<'a> {
    /// The source text.
    pub closed spec fn text(&self) -> Seq<char> {
        self.source_text@
    }

    /// The source type.
    pub closed spec fn kind(&self) -> SourceKind {
        self.source_type
    }

    /// The semantic analysis attached, if any.
    pub closed spec fn analysis(&self) -> Option<&'a oxc_semantic::Semantic<'a>> {
        self.semantic
    }

    /// The diagnostics reported so far.
    pub closed spec fn reported(&self) -> Seq<DiagnosticView> {
        diags_view(self.diagnostics@)
    }

    pub fn new(source_text: &str, source_type: SourceKind) -> (r: Self)
        ensures
            r.text() == source_text@,
            r.kind() == source_type,
            r.analysis() is None,
            r.reported() == Seq::<DiagnosticView>::empty(),
    {
        let r = LintContext {
            source_text: to_owned(source_text),
            source_type,
            semantic: None,
            diagnostics: Vec::new(),
        };
        assert(diags_view(r.diagnostics@) =~= Seq::<DiagnosticView>::empty());
        r
    }

    /// The context with a semantic analysis attached.
    pub fn with_semantic(self, semantic: &'a oxc_semantic::Semantic<'a>) -> (r: Self)
        ensures
            r.analysis() == Some(semantic),
            r.text() == self.text(),
            r.kind() == self.kind(),
            r.reported() == self.reported(),
    {
        LintContext { semantic: Some(semantic), ..self }
    }

    /// The semantic analysis attached, if any.
    pub fn semantic(&self) -> (r: Option<&'a oxc_semantic::Semantic<'a>>)
        ensures
            r == self.analysis(),
    {
        self.semantic
    }

    /// The source text.
    pub fn source_text(&self) -> (r: &str)
        ensures
            r@ == self.text(),
    {
        self.source_text.as_str()
    }

    /// The source type.
    pub fn source_type(&self) -> (r: SourceKind)
        ensures
            r == self.kind(),
    {
        self.source_type
    }

    /// Whether the source is JSX.
    pub fn is_jsx(&self) -> (r: bool)
        ensures
            r == self.kind().spec_is_jsx(),
    {
        self.source_type.is_jsx()
    }

    /// Whether the source is TypeScript.
    pub fn is_typescript(&self) -> (r: bool)
        ensures
            r == self.kind().spec_is_typescript(),
    {
        self.source_type.is_typescript()
    }

    /// Report a diagnostic.
    pub fn report(&mut self, diagnostic: Diagnostic)
        ensures
            final(self).text() == old(self).text(),
            final(self).kind() == old(self).kind(),
            final(self).analysis() == old(self).analysis(),
            final(self).reported() == old(self).reported().push(diagnostic@),
    {
        let ghost before = diags_view(self.diagnostics@);
        self.diagnostics.push(diagnostic);
        assert(diags_view(self.diagnostics@) =~= before.push(diagnostic@));
    }

    /// The source text of a span, which must select a slice of the source.
    pub fn span_text(&self, span: Span) -> (r: String)
        requires
            str_get_spec(self.text(), span.start as int, span.end as int) is Some,
        ensures
            str_get_spec(self.text(), span.start as int, span.end as int) == Some(r@),
    {
        match str_get(self.source_text.as_str(), span.start, span.end) {
            Some(t) => t,
            None => String::new(),
        }
    }

    /// The source text of a span, or `None` where the span selects no slice
    /// of the source (out of bounds, or not on character boundaries).
    pub fn checked_span_text(&self, span: Span) -> (r: Option<String>)
        ensures
            match r {
                Some(t) => str_get_spec(self.text(), span.start as int, span.end as int) == Some(t@),
                None => str_get_spec(self.text(), span.start as int, span.end as int) is None,
            },
    {
        match str_get(self.source_text.as_str(), span.start, span.end) {
            Some(_) => Some(self.span_text(span)),
            None => None,
        }
    }

    /// The diagnostics reported, consuming the context.
    pub fn into_diagnostics(self) -> (r: Vec<Diagnostic>)
        ensures
            diags_view(r@) == self.reported(),
    {
        self.diagnostics
    }

    /// The diagnostics reported so far.
    pub fn diagnostics(&self) -> (r: &[Diagnostic])
        ensures
            diags_view(r@) == self.reported(),
    {
        self.diagnostics.as_slice()
    }
}

} // verus!
