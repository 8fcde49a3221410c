//! What kind of source a program is: JavaScript or TypeScript, script or
//! module, with or without JSX. These are the plain values of oxc's
//! `SourceType` that the library reads; the parser's side converts.
use vstd::prelude::*;

verus! {

/// JavaScript or TypeScript.
#[derive(Debug, Clone, Copy, PartialEq, Eq, Structural)]
pub enum SourceLanguage {
    JavaScript,
    TypeScript,
    /// A TypeScript definition file (`*.d.ts`).
    TypeScriptDefinition,
}

/// Script or module.
#[derive(Debug, Clone, Copy, PartialEq, Eq, Structural)]
pub enum SourceModuleKind {
    Script,
    Module,
    /// A module if ESM syntax is present, a script otherwise.
    Unambiguous,
    CommonJS,
}

/// With or without JSX.
#[derive(Debug, Clone, Copy, PartialEq, Eq, Structural)]
pub enum SourceVariant {
    Standard,
    Jsx,
}

/// The kind of a source.
#[derive(Debug, Clone, Copy, PartialEq, Eq, Structural)]
pub struct SourceKind {
    pub language: SourceLanguage,
    pub module_kind: SourceModuleKind,
    pub variant: SourceVariant,
}

impl SourceKind {
    /// A JavaScript module.
    pub fn mjs() -> (r: Self)
        ensures
            r == (SourceKind {
                language: SourceLanguage::JavaScript,
                module_kind: SourceModuleKind::Module,
                variant: SourceVariant::Standard,
            }),
    {
        SourceKind {
            language: SourceLanguage::JavaScript,
            module_kind: SourceModuleKind::Module,
            variant: SourceVariant::Standard,
        }
    }

    /// A JavaScript module with JSX.
    pub fn jsx() -> (r: Self)
        ensures
            r == (SourceKind {
                language: SourceLanguage::JavaScript,
                module_kind: SourceModuleKind::Module,
                variant: SourceVariant::Jsx,
            }),
    {
        SourceKind {
            language: SourceLanguage::JavaScript,
            module_kind: SourceModuleKind::Module,
            variant: SourceVariant::Jsx,
        }
    }

    /// TypeScript with JSX, a module if it has ESM syntax.
    pub fn tsx() -> (r: Self)
        ensures
            r == (SourceKind {
                language: SourceLanguage::TypeScript,
                module_kind: SourceModuleKind::Unambiguous,
                variant: SourceVariant::Jsx,
            }),
    {
        SourceKind {
            language: SourceLanguage::TypeScript,
            module_kind: SourceModuleKind::Unambiguous,
            variant: SourceVariant::Jsx,
        }
    }

    /// A JavaScript module, oxc's default source type.
    pub open spec fn default_spec() -> Self {
        SourceKind {
            language: SourceLanguage::JavaScript,
            module_kind: SourceModuleKind::Module,
            variant: SourceVariant::Standard,
        }
    }

    /// TypeScript with JSX, a module if it has ESM syntax.
    pub open spec fn tsx_spec() -> Self {
        SourceKind {
            language: SourceLanguage::TypeScript,
            module_kind: SourceModuleKind::Unambiguous,
            variant: SourceVariant::Jsx,
        }
    }

    /// Whether the source has JSX.
    pub open spec fn spec_is_jsx(self) -> bool {
        self.variant == SourceVariant::Jsx
    }

    /// Whether the source is TypeScript, definition files included.
    pub open spec fn spec_is_typescript(self) -> bool {
        self.language == SourceLanguage::TypeScript || self.language
            == SourceLanguage::TypeScriptDefinition
    }

    /// Whether the source has JSX.
    pub fn is_jsx(&self) -> (r: bool)
        ensures
            r == self.spec_is_jsx(),
    {
        match self.variant {
            SourceVariant::Jsx => true,
            SourceVariant::Standard => false,
        }
    }

    /// Whether the source is TypeScript, definition files included.
    pub fn is_typescript(&self) -> (r: bool)
        ensures
            r == self.spec_is_typescript(),
    {
        match self.language {
            SourceLanguage::JavaScript => false,
            _ => true,
        }
    }
}

impl Default for SourceKind {
    /// A JavaScript module, as oxc's default source type.
    fn default() -> (r: Self)
        ensures
            r == (SourceKind {
                language: SourceLanguage::JavaScript,
                module_kind: SourceModuleKind::Module,
                variant: SourceVariant::Standard,
            }),
    {
        SourceKind::mjs()
    }
}

} // verus!
