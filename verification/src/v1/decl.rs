//! Declarations and their types.

use vstd::prelude::*;
use vstd::pervasive::unreached;
use crate::ast::AstChildren;
use crate::ast::AstNode;
use crate::ast::AstToken;
use crate::ast::Ident;
use crate::ast::child;
use crate::ast::children;
use crate::ast::node_children;
use crate::ast::positions;
use crate::ast::token;
use crate::ast::token_children;
use crate::kind::SyntaxKind;
use crate::syntax::Node;
use crate::tree::Cursor;
use crate::v1::expr::Expr;

verus! {

/// Represents a type: a map, array, pair or object type, a reference to a
/// named type, or a primitive type.
#[derive(Debug, PartialEq, Eq)]
pub struct Type(pub(crate) Node);

impl Type {
    #[verifier::type_invariant]
    spec fn kinded(self) -> bool {
        Self::accepts(self.0@.kind())
    }
}

impl Clone for Type {
    fn clone(&self) -> (r: Self)
        ensures
            r.position() == self.position(),
    {
        proof {
            use_type_invariant(self);
        }
        Self(self.0.clone())
    }
}

impl AstNode for Type {
    open spec fn accepts(kind: SyntaxKind) -> bool {
        kind == SyntaxKind::MapTypeNode
        || kind == SyntaxKind::ArrayTypeNode
        || kind == SyntaxKind::PairTypeNode
        || kind == SyntaxKind::ObjectTypeNode
        || kind == SyntaxKind::TypeRefNode
        || kind == SyntaxKind::PrimitiveTypeNode
    }

    closed spec fn position(&self) -> Cursor {
        self.0@
    }

    fn can_cast(kind: SyntaxKind) -> (r: bool) {
        match kind {
            SyntaxKind::MapTypeNode
            | SyntaxKind::ArrayTypeNode
            | SyntaxKind::PairTypeNode
            | SyntaxKind::ObjectTypeNode
            | SyntaxKind::TypeRefNode
            | SyntaxKind::PrimitiveTypeNode => true,
            _ => false,
        }
    }

    fn cast(syntax: Node) -> (r: Option<Self>) {
        match syntax.kind() {
            SyntaxKind::MapTypeNode
            | SyntaxKind::ArrayTypeNode
            | SyntaxKind::PairTypeNode
            | SyntaxKind::ObjectTypeNode
            | SyntaxKind::TypeRefNode
            | SyntaxKind::PrimitiveTypeNode => Some(Self(syntax)),
            _ => None,
        }
    }

    fn syntax(&self) -> (r: &Node) {
        proof {
            use_type_invariant(self);
            assert(Self::accepts(self.0@.kind()));
        }
        &self.0
    }
}

impl Type {
    /// Gets the type as it is written in the source.
    pub fn to_string(&self) -> (r: String)
        ensures
            r@ == self.position().tree().text(),
    {
        self.0.text()
    }
}

/// Represents a declaration without an expression.
#[derive(Debug, PartialEq, Eq)]
pub struct UnboundDecl(pub(crate) Node);

impl UnboundDecl {
    #[verifier::type_invariant]
    spec fn kinded(self) -> bool {
        self.0@.kind() == SyntaxKind::UnboundDeclNode
    }
}

impl Clone for UnboundDecl {
    fn clone(&self) -> (r: Self)
        ensures
            r.position() == self.position(),
    {
        proof {
            use_type_invariant(self);
        }
        Self(self.0.clone())
    }
}

impl AstNode for UnboundDecl {
    open spec fn accepts(kind: SyntaxKind) -> bool {
        kind == SyntaxKind::UnboundDeclNode
    }

    closed spec fn position(&self) -> Cursor {
        self.0@
    }

    fn can_cast(kind: SyntaxKind) -> (r: bool) {
        kind == SyntaxKind::UnboundDeclNode
    }

    fn cast(syntax: Node) -> (r: Option<Self>) {
        match syntax.kind() {
            SyntaxKind::UnboundDeclNode => Some(Self(syntax)),
            _ => None,
        }
    }

    fn syntax(&self) -> (r: &Node) {
        proof {
            use_type_invariant(self);
            assert(Self::accepts(self.0@.kind()));
        }
        &self.0
    }
}

impl UnboundDecl {
    /// Gets the type of the declaration, which a declaration of a valid tree
    /// has.
    pub fn ty(&self) -> (r: Type)
        requires
            node_children::<Type>(self.position()).len() > 0,
        ensures
            r.position() == node_children::<Type>(self.position())[0],
    {
        match child::<Type>(&self.0) {
            Some(found) => found,
            None => unreached(),
        }
    }

    /// Gets the name of the declaration, which a declaration of a valid tree
    /// has.
    pub fn name(&self) -> (r: Ident)
        requires
            token_children::<Ident>(self.position()).len() > 0,
        ensures
            r.position() == token_children::<Ident>(self.position())[0],
    {
        match token::<Ident>(&self.0) {
            Some(found) => found,
            None => unreached(),
        }
    }
}

/// Represents a declaration with an expression.
#[derive(Debug, PartialEq, Eq)]
pub struct BoundDecl(pub(crate) Node);

impl BoundDecl {
    #[verifier::type_invariant]
    spec fn kinded(self) -> bool {
        self.0@.kind() == SyntaxKind::BoundDeclNode
    }
}

impl Clone for BoundDecl {
    fn clone(&self) -> (r: Self)
        ensures
            r.position() == self.position(),
    {
        proof {
            use_type_invariant(self);
        }
        Self(self.0.clone())
    }
}

impl AstNode for BoundDecl {
    open spec fn accepts(kind: SyntaxKind) -> bool {
        kind == SyntaxKind::BoundDeclNode
    }

    closed spec fn position(&self) -> Cursor {
        self.0@
    }

    fn can_cast(kind: SyntaxKind) -> (r: bool) {
        kind == SyntaxKind::BoundDeclNode
    }

    fn cast(syntax: Node) -> (r: Option<Self>) {
        match syntax.kind() {
            SyntaxKind::BoundDeclNode => Some(Self(syntax)),
            _ => None,
        }
    }

    fn syntax(&self) -> (r: &Node) {
        proof {
            use_type_invariant(self);
            assert(Self::accepts(self.0@.kind()));
        }
        &self.0
    }
}

impl BoundDecl {
    /// Gets the type of the declaration, which a declaration of a valid tree
    /// has.
    pub fn ty(&self) -> (r: Type)
        requires
            node_children::<Type>(self.position()).len() > 0,
        ensures
            r.position() == node_children::<Type>(self.position())[0],
    {
        match child::<Type>(&self.0) {
            Some(found) => found,
            None => unreached(),
        }
    }

    /// Gets the name of the declaration, which a declaration of a valid tree
    /// has.
    pub fn name(&self) -> (r: Ident)
        requires
            token_children::<Ident>(self.position()).len() > 0,
        ensures
            r.position() == token_children::<Ident>(self.position())[0],
    {
        match token::<Ident>(&self.0) {
            Some(found) => found,
            None => unreached(),
        }
    }

    /// Gets the expression of the declaration, which a bound declaration of a
    /// valid tree has.
    pub fn expr(&self) -> (r: Expr)
        requires
            node_children::<Expr>(self.position()).len() > 0,
        ensures
            r.position() == node_children::<Expr>(self.position())[0],
    {
        match child::<Expr>(&self.0) {
            Some(found) => found,
            None => unreached(),
        }
    }
}

/// Represents a declaration, with or without an expression.
#[derive(Debug, PartialEq, Eq)]
pub enum Decl {
    /// The declaration has an expression.
    Bound(BoundDecl),
    /// The declaration has no expression.
    Unbound(UnboundDecl),
}

impl Clone for Decl {
    fn clone(&self) -> (r: Self)
        ensures
            r.position() == self.position(),
            r is Bound <==> self is Bound,
            r is Unbound <==> self is Unbound,
    {
        match self {
            Self::Bound(inner) => Self::Bound(inner.clone()),
            Self::Unbound(inner) => Self::Unbound(inner.clone()),
        }
    }
}

impl Decl {
    /// The kind of node that the variant holds.
    pub open spec fn holds(self) -> SyntaxKind {
        match self {
            Self::Bound(_) => SyntaxKind::BoundDeclNode,
            Self::Unbound(_) => SyntaxKind::UnboundDeclNode,
        }
    }
}

impl AstNode for Decl {
    open spec fn accepts(kind: SyntaxKind) -> bool {
        BoundDecl::accepts(kind)
        || UnboundDecl::accepts(kind)
    }

    open spec fn position(&self) -> Cursor {
        match self {
            Self::Bound(inner) => inner.position(),
            Self::Unbound(inner) => inner.position(),
        }
    }

    fn can_cast(kind: SyntaxKind) -> (r: bool) {
        match kind {
            SyntaxKind::BoundDeclNode
            | SyntaxKind::UnboundDeclNode => true,
            _ => false,
        }
    }

    fn cast(syntax: Node) -> (r: Option<Self>)
        ensures
            r is Some ==> r->0.holds() == syntax@.kind(),
    {
        match syntax.kind() {
            SyntaxKind::BoundDeclNode => match BoundDecl::cast(syntax) {
                Some(inner) => Some(Self::Bound(inner)),
                None => None,
            },
            SyntaxKind::UnboundDeclNode => match UnboundDecl::cast(syntax) {
                Some(inner) => Some(Self::Unbound(inner)),
                None => None,
            },
            _ => None,
        }
    }

    fn syntax(&self) -> (r: &Node)
        ensures
            r@.kind() == self.holds(),
    {
        match self {
            Self::Bound(inner) => inner.syntax(),
            Self::Unbound(inner) => inner.syntax(),
        }
    }
}

impl Decl {
    /// Unwraps the value into a declaration with an expression, which it must be.
    pub fn unwrap_bound_decl(self) -> (r: BoundDecl)
        requires
            self is Bound,
        ensures
            r.position() == self.position(),
    {
        match self {
            Self::Bound(inner) => inner,
            _ => unreached(),
        }
    }

    /// Unwraps the value into a declaration without an expression, which it must be.
    pub fn unwrap_unbound_decl(self) -> (r: UnboundDecl)
        requires
            self is Unbound,
        ensures
            r.position() == self.position(),
    {
        match self {
            Self::Unbound(inner) => inner,
            _ => unreached(),
        }
    }
}

/// Represents a struct definition.
#[derive(Debug, PartialEq, Eq)]
pub struct StructDefinition(pub(crate) Node);

impl StructDefinition {
    #[verifier::type_invariant]
    spec fn kinded(self) -> bool {
        self.0@.kind() == SyntaxKind::StructDefinitionNode
    }
}

impl Clone for StructDefinition {
    fn clone(&self) -> (r: Self)
        ensures
            r.position() == self.position(),
    {
        proof {
            use_type_invariant(self);
        }
        Self(self.0.clone())
    }
}

impl AstNode for StructDefinition {
    open spec fn accepts(kind: SyntaxKind) -> bool {
        kind == SyntaxKind::StructDefinitionNode
    }

    closed spec fn position(&self) -> Cursor {
        self.0@
    }

    fn can_cast(kind: SyntaxKind) -> (r: bool) {
        kind == SyntaxKind::StructDefinitionNode
    }

    fn cast(syntax: Node) -> (r: Option<Self>) {
        match syntax.kind() {
            SyntaxKind::StructDefinitionNode => Some(Self(syntax)),
            _ => None,
        }
    }

    fn syntax(&self) -> (r: &Node) {
        proof {
            use_type_invariant(self);
            assert(Self::accepts(self.0@.kind()));
        }
        &self.0
    }
}

impl StructDefinition {
    /// Gets the name of the struct, which a struct of a valid tree has.
    pub fn name(&self) -> (r: Ident)
        requires
            token_children::<Ident>(self.position()).len() > 0,
        ensures
            r.position() == token_children::<Ident>(self.position())[0],
    {
        match token::<Ident>(&self.0) {
            Some(found) => found,
            None => unreached(),
        }
    }

    /// Gets the members of the struct.
    pub fn members(&self) -> (r: AstChildren<UnboundDecl>)
        ensures
            r.remaining() == node_children::<UnboundDecl>(self.position()),
    {
        children(&self.0)
    }
}

} // verus!
