//! The JSX syntax tree that the compiler and the lint rules read.
//!
//! It holds, as plain values, what the transforms and rules inspect of a
//! parsed program: names, literal values, the shape of expressions and the
//! source spans that diagnostics point at. Expressions that no rule tells
//! apart are kept as `Other` with their span.
use vstd::prelude::*;
use crate::span::Span;

verus! {

/// An identifier with its span.
#[derive(Debug)]
pub struct Ident {
    pub name: String,
    pub span: Span,
}

/// `namespace:name`.
#[derive(Debug)]
pub struct NamespacedName {
    pub namespace: Ident,
    pub name: Ident,
    pub span: Span,
}

/// `object.property` in an element name.
#[derive(Debug)]
pub struct JsxMemberExpression {
    pub object: JsxMemberObject,
    pub property: Ident,
    pub span: Span,
}

#[derive(Debug)]
pub enum JsxMemberObject {
    IdentifierReference(Ident),
    MemberExpression(Box<JsxMemberExpression>),
    ThisExpression(Span),
}

/// The name of a JSX element.
#[derive(Debug)]
pub enum JsxElementName {
    /// A plain lowercase name such as `div`.
    Identifier(Ident),
    /// A name that refers to a binding, such as `Foo`.
    IdentifierReference(Ident),
    NamespacedName(NamespacedName),
    MemberExpression(JsxMemberExpression),
    ThisExpression(Span),
}

/// The name of a JSX attribute.
#[derive(Debug)]
pub enum JsxAttributeName {
    Identifier(Ident),
    NamespacedName(NamespacedName),
}

/// A string literal with its (unescaped) value.
#[derive(Debug)]
pub struct StringLiteral {
    pub value: String,
    pub span: Span,
}

/// A numeric literal: its printed value and whether it is zero.
#[derive(Debug)]
pub struct NumericLiteral {
    pub text: String,
    pub is_zero: bool,
    pub span: Span,
}

/// A template literal: its raw text parts and the number of embedded
/// expressions.
#[derive(Debug)]
pub struct TemplateLiteral {
    pub quasis: Vec<String>,
    pub expression_count: usize,
    pub span: Span,
}

#[derive(Debug)]
pub enum PropertyKey {
    StaticIdentifier(Ident),
    StringLiteral(StringLiteral),
    Other(Span),
}

#[derive(Debug)]
pub struct ObjectProperty {
    pub key: PropertyKey,
    pub value: Expression,
    pub span: Span,
}

#[derive(Debug)]
pub enum ObjectPropertyKind {
    Property(ObjectProperty),
    /// A spread or anything else that is not a plain `key: value`.
    Other(Span),
}

#[derive(Debug)]
pub struct ObjectExpression {
    pub properties: Vec<ObjectPropertyKind>,
    pub span: Span,
}

#[derive(Debug)]
pub enum Argument {
    Spread(Span),
    Expression(Expression),
}

/// `callee(arguments)`; also used for `new callee(arguments)`.
#[derive(Debug)]
pub struct CallExpression {
    pub callee: Expression,
    pub arguments: Vec<Argument>,
    pub span: Span,
}

#[derive(Debug)]
pub struct StaticMemberExpression {
    pub object: Expression,
    pub property: Ident,
    pub span: Span,
}

#[derive(Debug)]
pub struct ComputedMemberExpression {
    pub object: Expression,
    pub expression: Expression,
    pub span: Span,
}

#[derive(Debug)]
pub struct FormalParameter {
    /// The parameter is an object or array pattern.
    pub is_destructuring: bool,
    pub span: Span,
}

#[derive(Debug)]
pub struct FormalParameters {
    pub items: Vec<FormalParameter>,
    pub has_rest: bool,
    pub span: Span,
}

#[derive(Debug)]
pub struct IfStatement {
    pub consequent: Statement,
    pub alternate: Option<Statement>,
    pub span: Span,
}

#[derive(Debug)]
pub enum Statement {
    Expression(Expression, Span),
    Return(Option<Expression>, Span),
    Block(Vec<Statement>, Span),
    If(Box<IfStatement>),
    FunctionDeclaration(Span),
    ClassDeclaration(Span),
    VariableDeclaration(Span),
    Import(ImportDeclaration),
    Other(Span),
}

/// A program: its top-level statements.
#[derive(Debug)]
pub struct Program {
    pub body: Vec<Statement>,
    pub span: Span,
}

/// `id = init` in a variable declaration.
#[derive(Debug)]
pub struct VariableDeclarator {
    pub init: Option<Expression>,
    pub span: Span,
}

#[derive(Debug)]
pub struct FunctionBody {
    pub statements: Vec<Statement>,
    pub span: Span,
}

/// A function or arrow function.
#[derive(Debug)]
pub struct Function {
    pub id: Option<Ident>,
    pub params: FormalParameters,
    pub body: Option<FunctionBody>,
    /// An arrow function whose body is a single expression.
    pub expression: bool,
    pub span: Span,
}

#[derive(Debug, Clone, Copy, PartialEq, Eq, Structural)]
pub enum LogicalOperator {
    And,
    Or,
    Coalesce,
}

#[derive(Debug)]
pub struct LogicalExpression {
    pub operator: LogicalOperator,
    pub left: Expression,
    pub right: Expression,
    pub span: Span,
}

#[derive(Debug)]
pub struct ConditionalExpression {
    pub test: Expression,
    pub consequent: Expression,
    pub alternate: Expression,
    pub span: Span,
}

#[derive(Debug)]
pub struct UnaryExpression {
    /// The operator is unary minus.
    pub is_negation: bool,
    pub argument: Expression,
    pub span: Span,
}

/// A JavaScript expression, as far as the rules and transforms tell
/// expressions apart.
#[derive(Debug)]
pub enum Expression {
    StringLiteral(StringLiteral),
    NumericLiteral(NumericLiteral),
    TemplateLiteral(TemplateLiteral),
    Identifier(Ident),
    Object(ObjectExpression),
    Array(Span),
    Call(Box<CallExpression>),
    /// An optional call chain ending in a call, such as `a?.map(f)`.
    ChainCall(Box<CallExpression>),
    New(Box<CallExpression>),
    StaticMember(Box<StaticMemberExpression>),
    ComputedMember(Box<ComputedMemberExpression>),
    Arrow(Box<Function>),
    Function(Box<Function>),
    Unary(Box<UnaryExpression>),
    Logical(Box<LogicalExpression>),
    Conditional(Box<ConditionalExpression>),
    Parenthesized(Box<Expression>, Span),
    JsxElement(Box<JsxElement>),
    JsxFragment(Box<JsxFragment>),
    Other(Span),
}

/// `{expression}`; `expression` is `None` for an empty container.
#[derive(Debug)]
pub struct JsxExpressionContainer {
    pub expression: Option<Expression>,
    pub span: Span,
}

#[derive(Debug)]
pub enum JsxAttributeValue {
    StringLiteral(StringLiteral),
    ExpressionContainer(JsxExpressionContainer),
    Element(Box<JsxElement>),
    Fragment(Box<JsxFragment>),
}

#[derive(Debug)]
pub struct JsxAttribute {
    pub name: JsxAttributeName,
    pub value: Option<JsxAttributeValue>,
    pub span: Span,
}

#[derive(Debug)]
pub struct JsxSpreadAttribute {
    pub argument: Expression,
    pub span: Span,
}

#[derive(Debug)]
pub enum JsxAttributeItem {
    Attribute(JsxAttribute),
    SpreadAttribute(JsxSpreadAttribute),
}

#[derive(Debug)]
pub struct JsxOpeningElement {
    pub name: JsxElementName,
    pub attributes: Vec<JsxAttributeItem>,
    pub span: Span,
}

#[derive(Debug)]
pub struct JsxText {
    pub value: String,
    pub span: Span,
}

#[derive(Debug)]
pub enum JsxChild {
    Text(JsxText),
    Element(Box<JsxElement>),
    Fragment(Box<JsxFragment>),
    ExpressionContainer(JsxExpressionContainer),
    /// `{...expression}`, with the span of its expression.
    Spread(Span),
}

#[derive(Debug)]
pub struct JsxElement {
    pub opening_element: JsxOpeningElement,
    pub children: Vec<JsxChild>,
    /// The span of the closing tag; `None` for a self-closing element.
    pub closing_element: Option<Span>,
    pub span: Span,
}

#[derive(Debug)]
pub struct JsxFragment {
    pub children: Vec<JsxChild>,
    pub span: Span,
}

/// `import ... from "source"`.
#[derive(Debug)]
pub struct ImportSpecifier {
    /// The imported name.
    pub imported: String,
    /// The local binding.
    pub local: String,
    /// `import { type X }`.
    pub is_type: bool,
    pub span: Span,
}

#[derive(Debug)]
pub enum ImportDeclarationSpecifier {
    ImportSpecifier(ImportSpecifier),
    ImportDefaultSpecifier(Ident),
    ImportNamespaceSpecifier(Ident),
}

#[derive(Debug)]
pub struct ImportDeclaration {
    pub source: String,
    /// `import type { ... }`.
    pub is_type: bool,
    pub specifiers: Option<Vec<ImportDeclarationSpecifier>>,
    pub span: Span,
}

impl Expression {
    /// The span of the expression.
    pub open spec fn spec_span(&self) -> Span {
        match self {
            Expression::StringLiteral(l) => l.span,
            Expression::NumericLiteral(l) => l.span,
            Expression::TemplateLiteral(l) => l.span,
            Expression::Identifier(i) => i.span,
            Expression::Object(o) => o.span,
            Expression::Array(s) => *s,
            Expression::Call(c) => c.span,
            Expression::ChainCall(c) => c.span,
            Expression::New(c) => c.span,
            Expression::StaticMember(m) => m.span,
            Expression::ComputedMember(m) => m.span,
            Expression::Arrow(f) => f.span,
            Expression::Function(f) => f.span,
            Expression::Unary(u) => u.span,
            Expression::Logical(l) => l.span,
            Expression::Conditional(c) => c.span,
            Expression::Parenthesized(_, s) => *s,
            Expression::JsxElement(e) => e.span,
            Expression::JsxFragment(f) => f.span,
            Expression::Other(s) => *s,
        }
    }

    /// The span of the expression.
    #[verifier::when_used_as_spec(spec_span)]
    pub fn span(&self) -> (s: Span)
        ensures
            s == self.spec_span(),
    {
        match self {
            Expression::StringLiteral(l) => l.span,
            Expression::NumericLiteral(l) => l.span,
            Expression::TemplateLiteral(l) => l.span,
            Expression::Identifier(i) => i.span,
            Expression::Object(o) => o.span,
            Expression::Array(s) => *s,
            Expression::Call(c) => c.span,
            Expression::ChainCall(c) => c.span,
            Expression::New(c) => c.span,
            Expression::StaticMember(m) => m.span,
            Expression::ComputedMember(m) => m.span,
            Expression::Arrow(f) => f.span,
            Expression::Function(f) => f.span,
            Expression::Unary(u) => u.span,
            Expression::Logical(l) => l.span,
            Expression::Conditional(c) => c.span,
            Expression::Parenthesized(_, s) => *s,
            Expression::JsxElement(e) => e.span,
            Expression::JsxFragment(f) => f.span,
            Expression::Other(s) => *s,
        }
    }
}

impl Argument {
    pub open spec fn spec_span(&self) -> Span {
        match self {
            Argument::Spread(s) => *s,
            Argument::Expression(e) => e.spec_span(),
        }
    }

    #[verifier::when_used_as_spec(spec_span)]
    pub fn span(&self) -> (s: Span)
        ensures
            s == self.spec_span(),
    {
        match self {
            Argument::Spread(s) => *s,
            Argument::Expression(e) => e.span(),
        }
    }
}

} // verus!
