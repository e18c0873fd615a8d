//! Documents and the versions of the language.

use vstd::prelude::*;
use crate::ast::AstChildren;
use crate::ast::AstNode;
use crate::ast::AstToken;
use crate::ast::child;
use crate::ast::node_children;
use crate::ast::same_text;
use crate::ast::token;
use crate::ast::token_children;
use crate::kind::SyntaxKind;
use crate::syntax::Node;
use crate::syntax::Token;
use crate::tree::Cursor;

verus! {

/// A minor version of version 1 of the language.
#[derive(Clone, Copy, Debug, PartialEq, Eq, Structural)]
pub enum V1 {
    /// Version 1.0.
    Zero,
    /// Version 1.1.
    One,
    /// Version 1.2.
    Two,
}

/// A version of the language that this library gives a typed view of.
#[derive(Clone, Copy, Debug, PartialEq, Eq, Structural)]
pub enum SupportedVersion {
    /// Version 1 of the language, in one of its minor versions.
    V1(V1),
}

impl SupportedVersion {
    /// The supported version that a version number names, if any.
    pub open spec fn of_text(text: Seq<char>) -> Option<SupportedVersion> {
        if text == "1.0"@ {
            Some(SupportedVersion::V1(V1::Zero))
        } else if text == "1.1"@ {
            Some(SupportedVersion::V1(V1::One))
        } else if text == "1.2"@ {
            Some(SupportedVersion::V1(V1::Two))
        } else {
            None
        }
    }

    /// Gets the supported version that a version number names, if any.
    pub fn parse(text: &str) -> (r: Option<SupportedVersion>)
        ensures
            r == Self::of_text(text@),
    {
        if same_text(text, "1.0") {
            Some(SupportedVersion::V1(V1::Zero))
        } else if same_text(text, "1.1") {
            Some(SupportedVersion::V1(V1::One))
        } else if same_text(text, "1.2") {
            Some(SupportedVersion::V1(V1::Two))
        } else {
            None
        }
    }
}

/// Represents a version number.
#[derive(Debug, PartialEq, Eq)]
pub struct Version(pub(crate) Token);

impl Version {
    #[verifier::type_invariant]
    spec fn kinded(self) -> bool {
        self.0@.kind() == SyntaxKind::Version
    }
}

impl Clone for Version {
    fn clone(&self) -> (r: Self)
        ensures
            r.position() == self.position(),
    {
        proof {
            use_type_invariant(self);
        }
        Self(self.0.clone())
    }
}

impl AstToken for Version {
    open spec fn accepts(kind: SyntaxKind) -> bool {
        kind == SyntaxKind::Version
    }

    closed spec fn position(&self) -> Cursor {
        self.0@
    }

    fn can_cast(kind: SyntaxKind) -> (r: bool) {
        kind == SyntaxKind::Version
    }

    fn cast(syntax: Token) -> (r: Option<Self>) {
        match syntax.kind() {
            SyntaxKind::Version => Some(Self(syntax)),
            _ => None,
        }
    }

    fn syntax(&self) -> (r: &Token) {
        proof {
            use_type_invariant(self);
            assert(Self::accepts(self.0@.kind()));
        }
        &self.0
    }
}

/// Represents a version statement.
#[derive(Debug, PartialEq, Eq)]
pub struct VersionStatement(pub(crate) Node);

impl VersionStatement {
    #[verifier::type_invariant]
    spec fn kinded(self) -> bool {
        self.0@.kind() == SyntaxKind::VersionStatementNode
    }
}

impl Clone for VersionStatement {
    fn clone(&self) -> (r: Self)
        ensures
            r.position() == self.position(),
    {
        proof {
            use_type_invariant(self);
        }
        Self(self.0.clone())
    }
}

impl AstNode for VersionStatement {
    open spec fn accepts(kind: SyntaxKind) -> bool {
        kind == SyntaxKind::VersionStatementNode
    }

    closed spec fn position(&self) -> Cursor {
        self.0@
    }

    fn can_cast(kind: SyntaxKind) -> (r: bool) {
        kind == SyntaxKind::VersionStatementNode
    }

    fn cast(syntax: Node) -> (r: Option<Self>) {
        match syntax.kind() {
            SyntaxKind::VersionStatementNode => Some(Self(syntax)),
            _ => None,
        }
    }

    fn syntax(&self) -> (r: &Node) {
        proof {
            use_type_invariant(self);
            assert(Self::accepts(self.0@.kind()));
        }
        &self.0
    }
}

impl VersionStatement {
    /// Gets the version number of the statement, if it has one.
    pub fn version(&self) -> (r: Option<Version>)
        ensures
            r is None <==> token_children::<Version>(self.position()).len() == 0,
            r is Some ==> r->0.position() == token_children::<Version>(self.position())[0],
    {
        token(&self.0)
    }
}

/// Represents a document: the root of a syntax tree.
#[derive(Debug, PartialEq, Eq)]
pub struct Document(pub(crate) Node);

impl Document {
    #[verifier::type_invariant]
    spec fn kinded(self) -> bool {
        self.0@.kind() == SyntaxKind::RootNode
    }
}

impl Clone for Document {
    fn clone(&self) -> (r: Self)
        ensures
            r.position() == self.position(),
    {
        proof {
            use_type_invariant(self);
        }
        Self(self.0.clone())
    }
}

impl AstNode for Document {
    open spec fn accepts(kind: SyntaxKind) -> bool {
        kind == SyntaxKind::RootNode
    }

    closed spec fn position(&self) -> Cursor {
        self.0@
    }

    fn can_cast(kind: SyntaxKind) -> (r: bool) {
        kind == SyntaxKind::RootNode
    }

    fn cast(syntax: Node) -> (r: Option<Self>) {
        match syntax.kind() {
            SyntaxKind::RootNode => Some(Self(syntax)),
            _ => None,
        }
    }

    fn syntax(&self) -> (r: &Node) {
        proof {
            use_type_invariant(self);
            assert(Self::accepts(self.0@.kind()));
        }
        &self.0
    }
}

/// The supported version that the document at `at` declares: the one that
/// the version number of its first version statement names.
pub open spec fn version_at(at: Cursor) -> Option<SupportedVersion> {
    let statements = node_children::<VersionStatement>(at);
    if statements.len() == 0 {
        None
    } else {
        let numbers = token_children::<Version>(statements[0]);
        if numbers.len() == 0 {
            None
        } else {
            SupportedVersion::of_text(numbers[0].tree().token_text())
        }
    }
}

impl Document {
    /// Gets the version statement of the document.
    pub fn version_statement(&self) -> (r: Option<VersionStatement>)
        ensures
            r is None <==> node_children::<VersionStatement>(self.position()).len() == 0,
            r is Some ==> r->0.position() == node_children::<VersionStatement>(self.position())[0],
    {
        child(&self.0)
    }

    /// Gets the supported version that the document declares, if it declares
    /// one.
    pub fn version(&self) -> (r: Option<SupportedVersion>)
        ensures
            r == version_at(self.position()),
    {
        match self.version_statement() {
            Some(statement) => match statement.version() {
                Some(number) => SupportedVersion::parse(number.as_str()),
                None => None,
            },
            None => None,
        }
    }

    /// Gets the typed view of the document, by the version it declares.
    pub fn ast(&self) -> (r: Ast)
        ensures
            r is V1 <==> version_at(self.position()) is Some,
            r is V1 ==> r->V1_0.position() == self.position(),
    {
        proof {
            use_type_invariant(self);
            assert(crate::v1::Ast::accepts(self.0@.kind()));
        }
        match self.version() {
            Some(SupportedVersion::V1(_)) => match crate::v1::Ast::cast(self.0.clone()) {
                Some(ast) => Ast::V1(ast),
                None => Ast::Unsupported,
            },
            None => Ast::Unsupported,
        }
    }
}

/// The typed view of a document.
#[derive(Debug, PartialEq, Eq)]
pub enum Ast {
    /// The document declares no version that this library supports.
    Unsupported,
    /// The document is of version 1 of the language.
    V1(crate::v1::Ast),
}

impl Ast {
    /// Gets the view of a document of version 1, if it is one.
    pub fn as_v1(&self) -> (r: Option<&crate::v1::Ast>)
        ensures
            r is Some <==> self is V1,
            r is Some ==> *r->0 == self->V1_0,
    {
        match self {
            Ast::V1(ast) => Some(ast),
            Ast::Unsupported => None,
        }
    }
}

} // verus!
