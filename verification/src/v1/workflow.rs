//! Workflow definitions.

use vstd::prelude::*;
use vstd::pervasive::unreached;
use crate::ast::AstChildren;
use crate::ast::AstNode;
use crate::ast::AstToken;
use crate::ast::Ident;
use crate::ast::child;
use crate::ast::children;
use crate::ast::node_children;
use crate::ast::positions;
use crate::ast::token;
use crate::ast::token_children;
use crate::kind::SyntaxKind;
use crate::syntax::Node;
use crate::tree::Cursor;
use crate::v1::decl::BoundDecl;
use crate::v1::task::InputSection;
use crate::v1::task::MetadataSection;
use crate::v1::task::OutputSection;
use crate::v1::task::ParameterMetadataSection;

verus! {

/// Represents a workflow definition.
#[derive(Debug, PartialEq, Eq)]
pub struct WorkflowDefinition(pub(crate) Node);

impl WorkflowDefinition {
    #[verifier::type_invariant]
    spec fn kinded(self) -> bool {
        self.0@.kind() == SyntaxKind::WorkflowDefinitionNode
    }
}

impl Clone for WorkflowDefinition {
    fn clone(&self) -> (r: Self)
        ensures
            r.position() == self.position(),
    {
        proof {
            use_type_invariant(self);
        }
        Self(self.0.clone())
    }
}

impl AstNode for WorkflowDefinition {
    open spec fn accepts(kind: SyntaxKind) -> bool {
        kind == SyntaxKind::WorkflowDefinitionNode
    }

    closed spec fn position(&self) -> Cursor {
        self.0@
    }

    fn can_cast(kind: SyntaxKind) -> (r: bool) {
        kind == SyntaxKind::WorkflowDefinitionNode
    }

    fn cast(syntax: Node) -> (r: Option<Self>) {
        match syntax.kind() {
            SyntaxKind::WorkflowDefinitionNode => Some(Self(syntax)),
            _ => None,
        }
    }

    fn syntax(&self) -> (r: &Node) {
        proof {
            use_type_invariant(self);
            assert(Self::accepts(self.0@.kind()));
        }
        &self.0
    }
}

impl WorkflowDefinition {
    /// Gets the name of the workflow, which a workflow of a valid tree has.
    pub fn name(&self) -> (r: Ident)
        requires
            token_children::<Ident>(self.position()).len() > 0,
        ensures
            r.position() == token_children::<Ident>(self.position())[0],
    {
        match token::<Ident>(&self.0) {
            Some(found) => found,
            None => unreached(),
        }
    }

    /// Gets the input section of the workflow.
    pub fn input(&self) -> (r: Option<InputSection>)
        ensures
            r is None <==> node_children::<InputSection>(self.position()).len() == 0,
            r is Some ==> r->0.position() == node_children::<InputSection>(self.position())[0],
    {
        child(&self.0)
    }

    /// Gets the output section of the workflow.
    pub fn output(&self) -> (r: Option<OutputSection>)
        ensures
            r is None <==> node_children::<OutputSection>(self.position()).len() == 0,
            r is Some ==> r->0.position() == node_children::<OutputSection>(self.position())[0],
    {
        child(&self.0)
    }

    /// Gets the metadata section of the workflow.
    pub fn metadata(&self) -> (r: Option<MetadataSection>)
        ensures
            r is None <==> node_children::<MetadataSection>(self.position()).len() == 0,
            r is Some ==> r->0.position() == node_children::<MetadataSection>(self.position())[0],
    {
        child(&self.0)
    }

    /// Gets the parameter metadata section of the workflow.
    pub fn parameter_metadata(&self) -> (r: Option<ParameterMetadataSection>)
        ensures
            r is None <==> node_children::<ParameterMetadataSection>(self.position()).len() == 0,
            r is Some ==> r->0.position() == node_children::<ParameterMetadataSection>(self.position())[0],
    {
        child(&self.0)
    }

    /// Gets the private declarations of the workflow.
    pub fn declarations(&self) -> (r: AstChildren<BoundDecl>)
        ensures
            r.remaining() == node_children::<BoundDecl>(self.position()),
    {
        children(&self.0)
    }
}

} // verus!
