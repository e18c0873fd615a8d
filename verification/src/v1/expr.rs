//! Expressions.

use vstd::prelude::*;
use vstd::pervasive::unreached;
use crate::ast::AstNode;
use crate::ast::AstToken;
use crate::ast::Ident;
use crate::ast::child;
use crate::ast::lemma_children_take;
use crate::ast::node_children;
use crate::ast::token;
use crate::ast::token_children;
use crate::kind::SyntaxKind;
use crate::syntax::Element;
use crate::syntax::Node;
use crate::syntax::Token;
use crate::tree::Cursor;
use crate::tree::lemma_child;

verus! {

/// Represents a textual part of a string.
#[derive(Debug, PartialEq, Eq)]
pub struct StringText(pub(crate) Token);

impl StringText {
    #[verifier::type_invariant]
    spec fn kinded(self) -> bool {
        self.0@.kind() == SyntaxKind::LiteralStringText
    }
}

impl Clone for StringText {
    fn clone(&self) -> (r: Self)
        ensures
            r.position() == self.position(),
    {
        proof {
            use_type_invariant(self);
        }
        Self(self.0.clone())
    }
}

impl AstToken for StringText {
    open spec fn accepts(kind: SyntaxKind) -> bool {
        kind == SyntaxKind::LiteralStringText
    }

    closed spec fn position(&self) -> Cursor {
        self.0@
    }

    fn can_cast(kind: SyntaxKind) -> (r: bool) {
        kind == SyntaxKind::LiteralStringText
    }

    fn cast(syntax: Token) -> (r: Option<Self>) {
        match syntax.kind() {
            SyntaxKind::LiteralStringText => Some(Self(syntax)),
            _ => None,
        }
    }

    fn syntax(&self) -> (r: &Token) {
        proof {
            use_type_invariant(self);
            assert(Self::accepts(self.0@.kind()));
        }
        &self.0
    }
}

/// Represents a literal boolean.
#[derive(Debug, PartialEq, Eq)]
pub struct LiteralBoolean(pub(crate) Node);

impl LiteralBoolean {
    #[verifier::type_invariant]
    spec fn kinded(self) -> bool {
        self.0@.kind() == SyntaxKind::LiteralBooleanNode
    }
}

impl Clone for LiteralBoolean {
    fn clone(&self) -> (r: Self)
        ensures
            r.position() == self.position(),
    {
        proof {
            use_type_invariant(self);
        }
        Self(self.0.clone())
    }
}

impl AstNode for LiteralBoolean {
    open spec fn accepts(kind: SyntaxKind) -> bool {
        kind == SyntaxKind::LiteralBooleanNode
    }

    closed spec fn position(&self) -> Cursor {
        self.0@
    }

    fn can_cast(kind: SyntaxKind) -> (r: bool) {
        kind == SyntaxKind::LiteralBooleanNode
    }

    fn cast(syntax: Node) -> (r: Option<Self>) {
        match syntax.kind() {
            SyntaxKind::LiteralBooleanNode => Some(Self(syntax)),
            _ => None,
        }
    }

    fn syntax(&self) -> (r: &Node) {
        proof {
            use_type_invariant(self);
            assert(Self::accepts(self.0@.kind()));
        }
        &self.0
    }
}

/// Represents a literal integer.
#[derive(Debug, PartialEq, Eq)]
pub struct LiteralInteger(pub(crate) Node);

impl LiteralInteger {
    #[verifier::type_invariant]
    spec fn kinded(self) -> bool {
        self.0@.kind() == SyntaxKind::LiteralIntegerNode
    }
}

impl Clone for LiteralInteger {
    fn clone(&self) -> (r: Self)
        ensures
            r.position() == self.position(),
    {
        proof {
            use_type_invariant(self);
        }
        Self(self.0.clone())
    }
}

impl AstNode for LiteralInteger {
    open spec fn accepts(kind: SyntaxKind) -> bool {
        kind == SyntaxKind::LiteralIntegerNode
    }

    closed spec fn position(&self) -> Cursor {
        self.0@
    }

    fn can_cast(kind: SyntaxKind) -> (r: bool) {
        kind == SyntaxKind::LiteralIntegerNode
    }

    fn cast(syntax: Node) -> (r: Option<Self>) {
        match syntax.kind() {
            SyntaxKind::LiteralIntegerNode => Some(Self(syntax)),
            _ => None,
        }
    }

    fn syntax(&self) -> (r: &Node) {
        proof {
            use_type_invariant(self);
            assert(Self::accepts(self.0@.kind()));
        }
        &self.0
    }
}

/// Represents a literal float.
#[derive(Debug, PartialEq, Eq)]
pub struct LiteralFloat(pub(crate) Node);

impl LiteralFloat {
    #[verifier::type_invariant]
    spec fn kinded(self) -> bool {
        self.0@.kind() == SyntaxKind::LiteralFloatNode
    }
}

impl Clone for LiteralFloat {
    fn clone(&self) -> (r: Self)
        ensures
            r.position() == self.position(),
    {
        proof {
            use_type_invariant(self);
        }
        Self(self.0.clone())
    }
}

impl AstNode for LiteralFloat {
    open spec fn accepts(kind: SyntaxKind) -> bool {
        kind == SyntaxKind::LiteralFloatNode
    }

    closed spec fn position(&self) -> Cursor {
        self.0@
    }

    fn can_cast(kind: SyntaxKind) -> (r: bool) {
        kind == SyntaxKind::LiteralFloatNode
    }

    fn cast(syntax: Node) -> (r: Option<Self>) {
        match syntax.kind() {
            SyntaxKind::LiteralFloatNode => Some(Self(syntax)),
            _ => None,
        }
    }

    fn syntax(&self) -> (r: &Node) {
        proof {
            use_type_invariant(self);
            assert(Self::accepts(self.0@.kind()));
        }
        &self.0
    }
}

/// Represents a literal string.
#[derive(Debug, PartialEq, Eq)]
pub struct LiteralString(pub(crate) Node);

impl LiteralString {
    #[verifier::type_invariant]
    spec fn kinded(self) -> bool {
        self.0@.kind() == SyntaxKind::LiteralStringNode
    }
}

impl Clone for LiteralString {
    fn clone(&self) -> (r: Self)
        ensures
            r.position() == self.position(),
    {
        proof {
            use_type_invariant(self);
        }
        Self(self.0.clone())
    }
}

impl AstNode for LiteralString {
    open spec fn accepts(kind: SyntaxKind) -> bool {
        kind == SyntaxKind::LiteralStringNode
    }

    closed spec fn position(&self) -> Cursor {
        self.0@
    }

    fn can_cast(kind: SyntaxKind) -> (r: bool) {
        kind == SyntaxKind::LiteralStringNode
    }

    fn cast(syntax: Node) -> (r: Option<Self>) {
        match syntax.kind() {
            SyntaxKind::LiteralStringNode => Some(Self(syntax)),
            _ => None,
        }
    }

    fn syntax(&self) -> (r: &Node) {
        proof {
            use_type_invariant(self);
            assert(Self::accepts(self.0@.kind()));
        }
        &self.0
    }
}

/// Represents a literal `None`.
#[derive(Debug, PartialEq, Eq)]
pub struct LiteralNone(pub(crate) Node);

impl LiteralNone {
    #[verifier::type_invariant]
    spec fn kinded(self) -> bool {
        self.0@.kind() == SyntaxKind::LiteralNoneNode
    }
}

impl Clone for LiteralNone {
    fn clone(&self) -> (r: Self)
        ensures
            r.position() == self.position(),
    {
        proof {
            use_type_invariant(self);
        }
        Self(self.0.clone())
    }
}

impl AstNode for LiteralNone {
    open spec fn accepts(kind: SyntaxKind) -> bool {
        kind == SyntaxKind::LiteralNoneNode
    }

    closed spec fn position(&self) -> Cursor {
        self.0@
    }

    fn can_cast(kind: SyntaxKind) -> (r: bool) {
        kind == SyntaxKind::LiteralNoneNode
    }

    fn cast(syntax: Node) -> (r: Option<Self>) {
        match syntax.kind() {
            SyntaxKind::LiteralNoneNode => Some(Self(syntax)),
            _ => None,
        }
    }

    fn syntax(&self) -> (r: &Node) {
        proof {
            use_type_invariant(self);
            assert(Self::accepts(self.0@.kind()));
        }
        &self.0
    }
}

/// Represents a literal that is built of other expressions: a pair, an array,
/// a map, an object or a struct.
#[derive(Debug, PartialEq, Eq)]
pub struct CompoundLiteral(pub(crate) Node);

impl CompoundLiteral {
    #[verifier::type_invariant]
    spec fn kinded(self) -> bool {
        Self::accepts(self.0@.kind())
    }
}

impl Clone for CompoundLiteral {
    fn clone(&self) -> (r: Self)
        ensures
            r.position() == self.position(),
    {
        proof {
            use_type_invariant(self);
        }
        Self(self.0.clone())
    }
}

impl AstNode for CompoundLiteral {
    open spec fn accepts(kind: SyntaxKind) -> bool {
        kind == SyntaxKind::LiteralPairNode
        || kind == SyntaxKind::LiteralArrayNode
        || kind == SyntaxKind::LiteralMapNode
        || kind == SyntaxKind::LiteralObjectNode
        || kind == SyntaxKind::LiteralStructNode
    }

    closed spec fn position(&self) -> Cursor {
        self.0@
    }

    fn can_cast(kind: SyntaxKind) -> (r: bool) {
        match kind {
            SyntaxKind::LiteralPairNode
            | SyntaxKind::LiteralArrayNode
            | SyntaxKind::LiteralMapNode
            | SyntaxKind::LiteralObjectNode
            | SyntaxKind::LiteralStructNode => true,
            _ => false,
        }
    }

    fn cast(syntax: Node) -> (r: Option<Self>) {
        match syntax.kind() {
            SyntaxKind::LiteralPairNode
            | SyntaxKind::LiteralArrayNode
            | SyntaxKind::LiteralMapNode
            | SyntaxKind::LiteralObjectNode
            | SyntaxKind::LiteralStructNode => Some(Self(syntax)),
            _ => None,
        }
    }

    fn syntax(&self) -> (r: &Node) {
        proof {
            use_type_invariant(self);
            assert(Self::accepts(self.0@.kind()));
        }
        &self.0
    }
}

/// Represents a reference to a name.
#[derive(Debug, PartialEq, Eq)]
pub struct NameRef(pub(crate) Node);

impl NameRef {
    #[verifier::type_invariant]
    spec fn kinded(self) -> bool {
        self.0@.kind() == SyntaxKind::NameRefNode
    }
}

impl Clone for NameRef {
    fn clone(&self) -> (r: Self)
        ensures
            r.position() == self.position(),
    {
        proof {
            use_type_invariant(self);
        }
        Self(self.0.clone())
    }
}

impl AstNode for NameRef {
    open spec fn accepts(kind: SyntaxKind) -> bool {
        kind == SyntaxKind::NameRefNode
    }

    closed spec fn position(&self) -> Cursor {
        self.0@
    }

    fn can_cast(kind: SyntaxKind) -> (r: bool) {
        kind == SyntaxKind::NameRefNode
    }

    fn cast(syntax: Node) -> (r: Option<Self>) {
        match syntax.kind() {
            SyntaxKind::NameRefNode => Some(Self(syntax)),
            _ => None,
        }
    }

    fn syntax(&self) -> (r: &Node) {
        proof {
            use_type_invariant(self);
            assert(Self::accepts(self.0@.kind()));
        }
        &self.0
    }
}

impl NameRef {
    /// Gets the name that is referred to, which a reference of a valid tree has.
    pub fn name(&self) -> (r: Ident)
        requires
            token_children::<Ident>(self.position()).len() > 0,
        ensures
            r.position() == token_children::<Ident>(self.position())[0],
    {
        match token::<Ident>(&self.0) {
            Some(found) => found,
            None => unreached(),
        }
    }
}

/// Represents a call of a function.
#[derive(Debug, PartialEq, Eq)]
pub struct CallExpr(pub(crate) Node);

impl CallExpr {
    #[verifier::type_invariant]
    spec fn kinded(self) -> bool {
        self.0@.kind() == SyntaxKind::CallExprNode
    }
}

impl Clone for CallExpr {
    fn clone(&self) -> (r: Self)
        ensures
            r.position() == self.position(),
    {
        proof {
            use_type_invariant(self);
        }
        Self(self.0.clone())
    }
}

impl AstNode for CallExpr {
    open spec fn accepts(kind: SyntaxKind) -> bool {
        kind == SyntaxKind::CallExprNode
    }

    closed spec fn position(&self) -> Cursor {
        self.0@
    }

    fn can_cast(kind: SyntaxKind) -> (r: bool) {
        kind == SyntaxKind::CallExprNode
    }

    fn cast(syntax: Node) -> (r: Option<Self>) {
        match syntax.kind() {
            SyntaxKind::CallExprNode => Some(Self(syntax)),
            _ => None,
        }
    }

    fn syntax(&self) -> (r: &Node) {
        proof {
            use_type_invariant(self);
            assert(Self::accepts(self.0@.kind()));
        }
        &self.0
    }
}

impl CallExpr {
    /// Gets the name of the function that is called, which a call of a valid
    /// tree has.
    pub fn target(&self) -> (r: Ident)
        requires
            token_children::<Ident>(self.position()).len() > 0,
        ensures
            r.position() == token_children::<Ident>(self.position())[0],
    {
        match token::<Ident>(&self.0) {
            Some(found) => found,
            None => unreached(),
        }
    }
}

/// Represents an expression that applies an operator to other expressions:
/// parentheses, `if`, a unary or binary operator, an index or a member
/// access.
#[derive(Debug, PartialEq, Eq)]
pub struct OperationExpr(pub(crate) Node);

impl OperationExpr {
    #[verifier::type_invariant]
    spec fn kinded(self) -> bool {
        Self::accepts(self.0@.kind())
    }
}

impl Clone for OperationExpr {
    fn clone(&self) -> (r: Self)
        ensures
            r.position() == self.position(),
    {
        proof {
            use_type_invariant(self);
        }
        Self(self.0.clone())
    }
}

impl AstNode for OperationExpr {
    open spec fn accepts(kind: SyntaxKind) -> bool {
        kind == SyntaxKind::ParenthesizedExprNode
        || kind == SyntaxKind::IfExprNode
        || kind == SyntaxKind::LogicalNotExprNode
        || kind == SyntaxKind::NegationExprNode
        || kind == SyntaxKind::LogicalOrExprNode
        || kind == SyntaxKind::LogicalAndExprNode
        || kind == SyntaxKind::EqualityExprNode
        || kind == SyntaxKind::InequalityExprNode
        || kind == SyntaxKind::LessExprNode
        || kind == SyntaxKind::LessEqualExprNode
        || kind == SyntaxKind::GreaterExprNode
        || kind == SyntaxKind::GreaterEqualExprNode
        || kind == SyntaxKind::AdditionExprNode
        || kind == SyntaxKind::SubtractionExprNode
        || kind == SyntaxKind::MultiplicationExprNode
        || kind == SyntaxKind::DivisionExprNode
        || kind == SyntaxKind::ModuloExprNode
        || kind == SyntaxKind::ExponentiationExprNode
        || kind == SyntaxKind::IndexExprNode
        || kind == SyntaxKind::AccessExprNode
    }

    closed spec fn position(&self) -> Cursor {
        self.0@
    }

    fn can_cast(kind: SyntaxKind) -> (r: bool) {
        match kind {
            SyntaxKind::ParenthesizedExprNode
            | SyntaxKind::IfExprNode
            | SyntaxKind::LogicalNotExprNode
            | SyntaxKind::NegationExprNode
            | SyntaxKind::LogicalOrExprNode
            | SyntaxKind::LogicalAndExprNode
            | SyntaxKind::EqualityExprNode
            | SyntaxKind::InequalityExprNode
            | SyntaxKind::LessExprNode
            | SyntaxKind::LessEqualExprNode
            | SyntaxKind::GreaterExprNode
            | SyntaxKind::GreaterEqualExprNode
            | SyntaxKind::AdditionExprNode
            | SyntaxKind::SubtractionExprNode
            | SyntaxKind::MultiplicationExprNode
            | SyntaxKind::DivisionExprNode
            | SyntaxKind::ModuloExprNode
            | SyntaxKind::ExponentiationExprNode
            | SyntaxKind::IndexExprNode
            | SyntaxKind::AccessExprNode => true,
            _ => false,
        }
    }

    fn cast(syntax: Node) -> (r: Option<Self>) {
        match syntax.kind() {
            SyntaxKind::ParenthesizedExprNode
            | SyntaxKind::IfExprNode
            | SyntaxKind::LogicalNotExprNode
            | SyntaxKind::NegationExprNode
            | SyntaxKind::LogicalOrExprNode
            | SyntaxKind::LogicalAndExprNode
            | SyntaxKind::EqualityExprNode
            | SyntaxKind::InequalityExprNode
            | SyntaxKind::LessExprNode
            | SyntaxKind::LessEqualExprNode
            | SyntaxKind::GreaterExprNode
            | SyntaxKind::GreaterEqualExprNode
            | SyntaxKind::AdditionExprNode
            | SyntaxKind::SubtractionExprNode
            | SyntaxKind::MultiplicationExprNode
            | SyntaxKind::DivisionExprNode
            | SyntaxKind::ModuloExprNode
            | SyntaxKind::ExponentiationExprNode
            | SyntaxKind::IndexExprNode
            | SyntaxKind::AccessExprNode => Some(Self(syntax)),
            _ => None,
        }
    }

    fn syntax(&self) -> (r: &Node) {
        proof {
            use_type_invariant(self);
            assert(Self::accepts(self.0@.kind()));
        }
        &self.0
    }
}

/// Represents a placeholder in a string or command.
#[derive(Debug, PartialEq, Eq)]
pub struct Placeholder(pub(crate) Node);

impl Placeholder {
    #[verifier::type_invariant]
    spec fn kinded(self) -> bool {
        self.0@.kind() == SyntaxKind::PlaceholderNode
    }
}

impl Clone for Placeholder {
    fn clone(&self) -> (r: Self)
        ensures
            r.position() == self.position(),
    {
        proof {
            use_type_invariant(self);
        }
        Self(self.0.clone())
    }
}

impl AstNode for Placeholder {
    open spec fn accepts(kind: SyntaxKind) -> bool {
        kind == SyntaxKind::PlaceholderNode
    }

    closed spec fn position(&self) -> Cursor {
        self.0@
    }

    fn can_cast(kind: SyntaxKind) -> (r: bool) {
        kind == SyntaxKind::PlaceholderNode
    }

    fn cast(syntax: Node) -> (r: Option<Self>) {
        match syntax.kind() {
            SyntaxKind::PlaceholderNode => Some(Self(syntax)),
            _ => None,
        }
    }

    fn syntax(&self) -> (r: &Node) {
        proof {
            use_type_invariant(self);
            assert(Self::accepts(self.0@.kind()));
        }
        &self.0
    }
}

impl Placeholder {
    /// Gets the expression of the placeholder, which a placeholder of a valid
    /// tree has.
    pub fn expr(&self) -> (r: Expr)
        requires
            node_children::<Expr>(self.position()).len() > 0,
        ensures
            r.position() == node_children::<Expr>(self.position())[0],
    {
        match child::<Expr>(&self.0) {
            Some(found) => found,
            None => unreached(),
        }
    }
}

/// Represents a literal expression.
#[derive(Debug, PartialEq, Eq)]
pub enum LiteralExpr {
    /// The literal is a boolean.
    Boolean(LiteralBoolean),
    /// The literal is an integer.
    Integer(LiteralInteger),
    /// The literal is a float.
    Float(LiteralFloat),
    /// The literal is a string.
    String(LiteralString),
    /// The literal is `None`.
    NoneLiteral(LiteralNone),
    /// The literal is built of other expressions.
    Compound(CompoundLiteral),
}

impl Clone for LiteralExpr {
    fn clone(&self) -> (r: Self)
        ensures
            r.position() == self.position(),
            r is Boolean <==> self is Boolean,
            r is Integer <==> self is Integer,
            r is Float <==> self is Float,
            r is String <==> self is String,
            r is NoneLiteral <==> self is NoneLiteral,
            r is Compound <==> self is Compound,
    {
        match self {
            Self::Boolean(inner) => Self::Boolean(inner.clone()),
            Self::Integer(inner) => Self::Integer(inner.clone()),
            Self::Float(inner) => Self::Float(inner.clone()),
            Self::String(inner) => Self::String(inner.clone()),
            Self::NoneLiteral(inner) => Self::NoneLiteral(inner.clone()),
            Self::Compound(inner) => Self::Compound(inner.clone()),
        }
    }
}

impl AstNode for LiteralExpr {
    open spec fn accepts(kind: SyntaxKind) -> bool {
        LiteralBoolean::accepts(kind)
        || LiteralInteger::accepts(kind)
        || LiteralFloat::accepts(kind)
        || LiteralString::accepts(kind)
        || LiteralNone::accepts(kind)
        || CompoundLiteral::accepts(kind)
    }

    open spec fn position(&self) -> Cursor {
        match self {
            Self::Boolean(inner) => inner.position(),
            Self::Integer(inner) => inner.position(),
            Self::Float(inner) => inner.position(),
            Self::String(inner) => inner.position(),
            Self::NoneLiteral(inner) => inner.position(),
            Self::Compound(inner) => inner.position(),
        }
    }

    fn can_cast(kind: SyntaxKind) -> (r: bool) {
        match kind {
            SyntaxKind::LiteralBooleanNode
            | SyntaxKind::LiteralIntegerNode
            | SyntaxKind::LiteralFloatNode
            | SyntaxKind::LiteralStringNode
            | SyntaxKind::LiteralNoneNode
            | SyntaxKind::LiteralPairNode
            | SyntaxKind::LiteralArrayNode
            | SyntaxKind::LiteralMapNode
            | SyntaxKind::LiteralObjectNode
            | SyntaxKind::LiteralStructNode => true,
            _ => false,
        }
    }

    fn cast(syntax: Node) -> (r: Option<Self>)
        ensures
            r is Some ==> (r->0 is Boolean <==> LiteralBoolean::accepts(syntax@.kind())),
            r is Some ==> (r->0 is Integer <==> LiteralInteger::accepts(syntax@.kind())),
            r is Some ==> (r->0 is Float <==> LiteralFloat::accepts(syntax@.kind())),
            r is Some ==> (r->0 is String <==> LiteralString::accepts(syntax@.kind())),
            r is Some ==> (r->0 is NoneLiteral <==> LiteralNone::accepts(syntax@.kind())),
            r is Some ==> (r->0 is Compound <==> CompoundLiteral::accepts(syntax@.kind())),
    {
        match syntax.kind() {
            SyntaxKind::LiteralBooleanNode => match LiteralBoolean::cast(syntax) {
                Some(inner) => Some(Self::Boolean(inner)),
                None => None,
            },
            SyntaxKind::LiteralIntegerNode => match LiteralInteger::cast(syntax) {
                Some(inner) => Some(Self::Integer(inner)),
                None => None,
            },
            SyntaxKind::LiteralFloatNode => match LiteralFloat::cast(syntax) {
                Some(inner) => Some(Self::Float(inner)),
                None => None,
            },
            SyntaxKind::LiteralStringNode => match LiteralString::cast(syntax) {
                Some(inner) => Some(Self::String(inner)),
                None => None,
            },
            SyntaxKind::LiteralNoneNode => match LiteralNone::cast(syntax) {
                Some(inner) => Some(Self::NoneLiteral(inner)),
                None => None,
            },
            SyntaxKind::LiteralPairNode
            | SyntaxKind::LiteralArrayNode
            | SyntaxKind::LiteralMapNode
            | SyntaxKind::LiteralObjectNode
            | SyntaxKind::LiteralStructNode => match CompoundLiteral::cast(syntax) {
                Some(inner) => Some(Self::Compound(inner)),
                None => None,
            },
            _ => None,
        }
    }

    fn syntax(&self) -> (r: &Node)
        ensures
            self is Boolean <==> LiteralBoolean::accepts(r@.kind()),
            self is Integer <==> LiteralInteger::accepts(r@.kind()),
            self is Float <==> LiteralFloat::accepts(r@.kind()),
            self is String <==> LiteralString::accepts(r@.kind()),
            self is NoneLiteral <==> LiteralNone::accepts(r@.kind()),
            self is Compound <==> CompoundLiteral::accepts(r@.kind()),
    {
        match self {
            Self::Boolean(inner) => inner.syntax(),
            Self::Integer(inner) => inner.syntax(),
            Self::Float(inner) => inner.syntax(),
            Self::String(inner) => inner.syntax(),
            Self::NoneLiteral(inner) => inner.syntax(),
            Self::Compound(inner) => inner.syntax(),
        }
    }
}

impl LiteralExpr {
    /// Unwraps the value into a boolean, which it must be.
    pub fn unwrap_boolean(self) -> (r: LiteralBoolean)
        requires
            self is Boolean,
        ensures
            r.position() == self.position(),
    {
        match self {
            Self::Boolean(inner) => inner,
            _ => unreached(),
        }
    }

    /// Unwraps the value into an integer, which it must be.
    pub fn unwrap_integer(self) -> (r: LiteralInteger)
        requires
            self is Integer,
        ensures
            r.position() == self.position(),
    {
        match self {
            Self::Integer(inner) => inner,
            _ => unreached(),
        }
    }

    /// Unwraps the value into a float, which it must be.
    pub fn unwrap_float(self) -> (r: LiteralFloat)
        requires
            self is Float,
        ensures
            r.position() == self.position(),
    {
        match self {
            Self::Float(inner) => inner,
            _ => unreached(),
        }
    }

    /// Unwraps the value into a string, which it must be.
    pub fn unwrap_string(self) -> (r: LiteralString)
        requires
            self is String,
        ensures
            r.position() == self.position(),
    {
        match self {
            Self::String(inner) => inner,
            _ => unreached(),
        }
    }
}

/// Represents an expression.
#[derive(Debug, PartialEq, Eq)]
pub enum Expr {
    /// The expression is a literal.
    Literal(LiteralExpr),
    /// The expression is a reference to a name.
    NameRef(NameRef),
    /// The expression is a call of a function.
    Call(CallExpr),
    /// The expression applies an operator.
    Operation(OperationExpr),
}

impl Clone for Expr {
    fn clone(&self) -> (r: Self)
        ensures
            r.position() == self.position(),
            r is Literal <==> self is Literal,
            r is NameRef <==> self is NameRef,
            r is Call <==> self is Call,
            r is Operation <==> self is Operation,
    {
        match self {
            Self::Literal(inner) => Self::Literal(inner.clone()),
            Self::NameRef(inner) => Self::NameRef(inner.clone()),
            Self::Call(inner) => Self::Call(inner.clone()),
            Self::Operation(inner) => Self::Operation(inner.clone()),
        }
    }
}

impl AstNode for Expr {
    open spec fn accepts(kind: SyntaxKind) -> bool {
        LiteralExpr::accepts(kind)
        || NameRef::accepts(kind)
        || CallExpr::accepts(kind)
        || OperationExpr::accepts(kind)
    }

    open spec fn position(&self) -> Cursor {
        match self {
            Self::Literal(inner) => inner.position(),
            Self::NameRef(inner) => inner.position(),
            Self::Call(inner) => inner.position(),
            Self::Operation(inner) => inner.position(),
        }
    }

    fn can_cast(kind: SyntaxKind) -> (r: bool) {
        match kind {
            SyntaxKind::LiteralBooleanNode
            | SyntaxKind::LiteralIntegerNode
            | SyntaxKind::LiteralFloatNode
            | SyntaxKind::LiteralStringNode
            | SyntaxKind::LiteralNoneNode
            | SyntaxKind::LiteralPairNode
            | SyntaxKind::LiteralArrayNode
            | SyntaxKind::LiteralMapNode
            | SyntaxKind::LiteralObjectNode
            | SyntaxKind::LiteralStructNode
            | SyntaxKind::NameRefNode
            | SyntaxKind::CallExprNode
            | SyntaxKind::ParenthesizedExprNode
            | SyntaxKind::IfExprNode
            | SyntaxKind::LogicalNotExprNode
            | SyntaxKind::NegationExprNode
            | SyntaxKind::LogicalOrExprNode
            | SyntaxKind::LogicalAndExprNode
            | SyntaxKind::EqualityExprNode
            | SyntaxKind::InequalityExprNode
            | SyntaxKind::LessExprNode
            | SyntaxKind::LessEqualExprNode
            | SyntaxKind::GreaterExprNode
            | SyntaxKind::GreaterEqualExprNode
            | SyntaxKind::AdditionExprNode
            | SyntaxKind::SubtractionExprNode
            | SyntaxKind::MultiplicationExprNode
            | SyntaxKind::DivisionExprNode
            | SyntaxKind::ModuloExprNode
            | SyntaxKind::ExponentiationExprNode
            | SyntaxKind::IndexExprNode
            | SyntaxKind::AccessExprNode => true,
            _ => false,
        }
    }

    fn cast(syntax: Node) -> (r: Option<Self>)
        ensures
            r is Some ==> (r->0 is Literal <==> LiteralExpr::accepts(syntax@.kind())),
            r is Some ==> (r->0 is NameRef <==> NameRef::accepts(syntax@.kind())),
            r is Some ==> (r->0 is Call <==> CallExpr::accepts(syntax@.kind())),
            r is Some ==> (r->0 is Operation <==> OperationExpr::accepts(syntax@.kind())),
    {
        match syntax.kind() {
            SyntaxKind::LiteralBooleanNode
            | SyntaxKind::LiteralIntegerNode
            | SyntaxKind::LiteralFloatNode
            | SyntaxKind::LiteralStringNode
            | SyntaxKind::LiteralNoneNode
            | SyntaxKind::LiteralPairNode
            | SyntaxKind::LiteralArrayNode
            | SyntaxKind::LiteralMapNode
            | SyntaxKind::LiteralObjectNode
            | SyntaxKind::LiteralStructNode => match LiteralExpr::cast(syntax) {
                Some(inner) => Some(Self::Literal(inner)),
                None => None,
            },
            SyntaxKind::NameRefNode => match NameRef::cast(syntax) {
                Some(inner) => Some(Self::NameRef(inner)),
                None => None,
            },
            SyntaxKind::CallExprNode => match CallExpr::cast(syntax) {
                Some(inner) => Some(Self::Call(inner)),
                None => None,
            },
            SyntaxKind::ParenthesizedExprNode
            | SyntaxKind::IfExprNode
            | SyntaxKind::LogicalNotExprNode
            | SyntaxKind::NegationExprNode
            | SyntaxKind::LogicalOrExprNode
            | SyntaxKind::LogicalAndExprNode
            | SyntaxKind::EqualityExprNode
            | SyntaxKind::InequalityExprNode
            | SyntaxKind::LessExprNode
            | SyntaxKind::LessEqualExprNode
            | SyntaxKind::GreaterExprNode
            | SyntaxKind::GreaterEqualExprNode
            | SyntaxKind::AdditionExprNode
            | SyntaxKind::SubtractionExprNode
            | SyntaxKind::MultiplicationExprNode
            | SyntaxKind::DivisionExprNode
            | SyntaxKind::ModuloExprNode
            | SyntaxKind::ExponentiationExprNode
            | SyntaxKind::IndexExprNode
            | SyntaxKind::AccessExprNode => match OperationExpr::cast(syntax) {
                Some(inner) => Some(Self::Operation(inner)),
                None => None,
            },
            _ => None,
        }
    }

    fn syntax(&self) -> (r: &Node)
        ensures
            self is Literal <==> LiteralExpr::accepts(r@.kind()),
            self is NameRef <==> NameRef::accepts(r@.kind()),
            self is Call <==> CallExpr::accepts(r@.kind()),
            self is Operation <==> OperationExpr::accepts(r@.kind()),
    {
        match self {
            Self::Literal(inner) => inner.syntax(),
            Self::NameRef(inner) => inner.syntax(),
            Self::Call(inner) => inner.syntax(),
            Self::Operation(inner) => inner.syntax(),
        }
    }
}

impl Expr {
    /// Unwraps the value into a literal, which it must be.
    pub fn unwrap_literal(self) -> (r: LiteralExpr)
        requires
            self is Literal,
        ensures
            r.position() == self.position(),
    {
        match self {
            Self::Literal(inner) => inner,
            _ => unreached(),
        }
    }

    /// Unwraps the value into a reference to a name, which it must be.
    pub fn unwrap_name_ref(self) -> (r: NameRef)
        requires
            self is NameRef,
        ensures
            r.position() == self.position(),
    {
        match self {
            Self::NameRef(inner) => inner,
            _ => unreached(),
        }
    }

    /// Unwraps the value into a call, which it must be.
    pub fn unwrap_call(self) -> (r: CallExpr)
        requires
            self is Call,
        ensures
            r.position() == self.position(),
    {
        match self {
            Self::Call(inner) => inner,
            _ => unreached(),
        }
    }
}

/// Whether the element at `c` is a part of a string: a token of literal
/// text or a placeholder node.
pub open spec fn is_string_part(c: Cursor) -> bool {
    (c.tree() is Token && StringText::accepts(c.kind())) || (c.tree() is Node && Placeholder::accepts(
        c.kind(),
    ))
}

/// The parts of the string at `at`, in source order.
pub open spec fn string_parts(at: Cursor) -> Seq<Cursor> {
    at.children().filter(|c: Cursor| is_string_part(c))
}

/// Represents a part of a string.
#[derive(Debug, PartialEq, Eq)]
pub enum StringPart {
    /// A textual part of the string.
    Text(StringText),
    /// A placeholder encountered in the string.
    Placeholder(Placeholder),
}

impl Clone for StringPart {
    fn clone(&self) -> (r: Self)
        ensures
            r.position() == self.position(),
            r is Text <==> self is Text,
    {
        match self {
            Self::Text(inner) => Self::Text(inner.clone()),
            Self::Placeholder(inner) => Self::Placeholder(inner.clone()),
        }
    }
}

impl StringPart {
    /// The position of the token or node that the part wraps.
    pub open spec fn position(&self) -> Cursor {
        match self {
            Self::Text(inner) => inner.position(),
            Self::Placeholder(inner) => inner.position(),
        }
    }

    /// The positions of a sequence of parts.
    pub open spec fn positions(parts: Seq<StringPart>) -> Seq<Cursor> {
        parts.map_values(|p: StringPart| p.position())
    }

    /// Unwraps the part into text, which it must be.
    pub fn unwrap_text(self) -> (r: StringText)
        requires
            self is Text,
        ensures
            r.position() == self.position(),
    {
        match self {
            Self::Text(inner) => inner,
            _ => unreached(),
        }
    }

    /// Unwraps the part into a placeholder, which it must be.
    pub fn unwrap_placeholder(self) -> (r: Placeholder)
        requires
            self is Placeholder,
        ensures
            r.position() == self.position(),
    {
        match self {
            Self::Placeholder(inner) => inner,
            _ => unreached(),
        }
    }

    /// Casts an element to a part: a token of literal text becomes text, a
    /// placeholder node becomes a placeholder, and nothing else is a part.
    pub fn cast(syntax: Element) -> (r: Option<Self>)
        ensures
            r is Some <==> match syntax {
                Element::Node(node) => Placeholder::accepts(node@.kind()),
                Element::Token(token) => StringText::accepts(token@.kind()),
            },
            r is Some ==> r->0.position() == syntax@,
            r is Some ==> (r->0 is Text <==> syntax is Token),
    {
        match syntax {
            Element::Node(node) => match Placeholder::cast(node) {
                Some(inner) => Some(Self::Placeholder(inner)),
                None => None,
            },
            Element::Token(token) => match StringText::cast(token) {
                Some(inner) => Some(Self::Text(inner)),
                None => None,
            },
        }
    }
}

impl LiteralString {
    /// Gets the parts of the string: its literal text and its placeholders,
    /// in source order.
    pub fn parts(&self) -> (r: Vec<StringPart>)
        ensures
            StringPart::positions(r@) == string_parts(self.position()),
            forall|i: int|
                0 <= i < r@.len() ==> ((#[trigger] r@[i]) is Text <==> r@[i].position().tree() is Token),
    {
        let ghost at = self.0@;
        let ghost pred = |c: Cursor| is_string_part(c);
        let ghost mut k: int = 0;
        let mut found: Vec<StringPart> = Vec::new();
        let mut next = self.0.first_child_or_token();
        proof {
            assert(at.children().take(0) =~= Seq::<Cursor>::empty());
            assert(StringPart::positions(found@) =~= Seq::<Cursor>::empty());
            reveal(Seq::filter);
        }
        loop
            invariant_except_break
                at == self.0@,
                pred == |c: Cursor| is_string_part(c),
                0 <= k <= at.child_count(),
                next is None <==> k == at.child_count(),
                next is Some ==> next->0.stands_at(at.child(k)),
                StringPart::positions(found@) == at.children().take(k).filter(pred),
                forall|i: int|
                    0 <= i < found@.len() ==> ((#[trigger] found@[i]) is Text
                        <==> found@[i].position().tree() is Token),
            ensures
                StringPart::positions(found@) == at.children().filter(pred),
                forall|i: int|
                    0 <= i < found@.len() ==> ((#[trigger] found@[i]) is Text
                        <==> found@[i].position().tree() is Token),
            decreases at.child_count() - k,
        {
            match next {
                None => {
                    proof {
                        assert(at.children().take(k) =~= at.children());
                    }
                    break;
                },
                Some(element) => {
                    proof {
                        lemma_child(at, k);
                        lemma_children_take(at, k);
                        at.children().take(k).lemma_filter_push(at.child(k), pred);
                    }
                    next = element.next_sibling_or_token();
                    let ghost before = found@;
                    match StringPart::cast(element) {
                        Some(part) => {
                            found.push(part);
                            proof {
                                assert(StringPart::positions(found@) =~= StringPart::positions(
                                    before,
                                ).push(at.child(k)));
                            }
                        },
                        None => {},
                    }
                    proof {
                        k = k + 1;
                    }
                },
            }
        }
        found
    }

    /// Gets the text of the string if it is not interpolated, that is if
    /// its only part is text. An interpolated string has no single text.
    pub fn text(&self) -> (r: Option<StringText>)
        ensures
            r is Some <==> string_parts(self.position()).len() == 1 && string_parts(
                self.position(),
            )[0].tree() is Token,
            r is Some ==> r->0.position() == string_parts(self.position())[0],
    {
        let mut parts = self.parts();
        let ghost all = parts@;
        if parts.len() == 1 {
            match parts.pop() {
                Some(StringPart::Text(text)) => {
                    proof {
                        assert(StringPart::positions(all)[0] == all[0].position());
                    }
                    Some(text)
                },
                _ => {
                    proof {
                        assert(StringPart::positions(all)[0] == all[0].position());
                    }
                    None
                },
            }
        } else {
            proof {
                assert(StringPart::positions(all).len() == all.len());
            }
            None
        }
    }
}

} // verus!
