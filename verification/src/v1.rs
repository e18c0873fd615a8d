//! The typed view of documents of version 1 of the language.

use vstd::prelude::*;
use crate::ast::AstChildren;
use crate::ast::AstNode;
use crate::ast::children;
use crate::ast::node_children;
use crate::ast::positions;
use crate::kind::SyntaxKind;
use crate::syntax::Node;
use crate::tree::Cursor;
use crate::v1::decl::StructDefinition;
use crate::v1::task::TaskDefinition;
use crate::v1::workflow::WorkflowDefinition;

pub mod decl;
pub mod expr;
pub mod task;
pub mod workflow;

verus! {

/// Represents a document of version 1 of the language.
#[derive(Debug, PartialEq, Eq)]
pub struct Ast(pub(crate) Node);

impl Ast {
    #[verifier::type_invariant]
    spec fn kinded(self) -> bool {
        self.0@.kind() == SyntaxKind::RootNode
    }
}

impl Clone for Ast {
    fn clone(&self) -> (r: Self)
        ensures
            r.position() == self.position(),
    {
        proof {
            use_type_invariant(self);
        }
        Self(self.0.clone())
    }
}

impl AstNode for Ast {
    open spec fn accepts(kind: SyntaxKind) -> bool {
        kind == SyntaxKind::RootNode
    }

    closed spec fn position(&self) -> Cursor {
        self.0@
    }

    fn can_cast(kind: SyntaxKind) -> (r: bool) {
        kind == SyntaxKind::RootNode
    }

    fn cast(syntax: Node) -> (r: Option<Self>) {
        match syntax.kind() {
            SyntaxKind::RootNode => Some(Self(syntax)),
            _ => None,
        }
    }

    fn syntax(&self) -> (r: &Node) {
        proof {
            use_type_invariant(self);
            assert(Self::accepts(self.0@.kind()));
        }
        &self.0
    }
}

impl Ast {
    /// Gets the tasks of the document.
    pub fn tasks(&self) -> (r: AstChildren<TaskDefinition>)
        ensures
            r.remaining() == node_children::<TaskDefinition>(self.position()),
    {
        children(&self.0)
    }

    /// Gets the workflows of the document.
    pub fn workflows(&self) -> (r: AstChildren<WorkflowDefinition>)
        ensures
            r.remaining() == node_children::<WorkflowDefinition>(self.position()),
    {
        children(&self.0)
    }

    /// Gets the structs of the document.
    pub fn structs(&self) -> (r: AstChildren<StructDefinition>)
        ensures
            r.remaining() == node_children::<StructDefinition>(self.position()),
    {
        children(&self.0)
    }
}

} // verus!
