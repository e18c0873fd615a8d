//! Task definitions and their sections.

use vstd::prelude::*;
use vstd::pervasive::unreached;
use crate::ast::AstChildren;
use crate::ast::AstNode;
use crate::ast::AstToken;
use crate::ast::Ident;
use crate::ast::child;
use crate::ast::children;
use crate::ast::lemma_children_take;
use crate::ast::node_children;
use crate::ast::positions;
use crate::ast::token;
use crate::ast::token_children;
use crate::ast::token_of_kind;
use crate::ast::tokens_of_kind;
use crate::kind::SyntaxKind;
use crate::syntax::Element;
use crate::syntax::Node;
use crate::syntax::Token;
use crate::tree::Cursor;
use crate::tree::lemma_child;
use crate::v1::decl::BoundDecl;
use crate::v1::decl::Decl;
use crate::v1::decl::StructDefinition;
use crate::v1::decl::UnboundDecl;
use crate::v1::expr::Expr;
use crate::v1::expr::LiteralBoolean;
use crate::v1::expr::LiteralFloat;
use crate::v1::expr::LiteralInteger;
use crate::v1::expr::LiteralString;
use crate::v1::expr::Placeholder;
use crate::v1::workflow::WorkflowDefinition;

pub mod requirements;
pub mod runtime;

verus! {

/// Represents a task definition.
#[derive(Debug, PartialEq, Eq)]
pub struct TaskDefinition(pub(crate) Node);

impl TaskDefinition {
    #[verifier::type_invariant]
    spec fn kinded(self) -> bool {
        self.0@.kind() == SyntaxKind::TaskDefinitionNode
    }
}

impl Clone for TaskDefinition {
    fn clone(&self) -> (r: Self)
        ensures
            r.position() == self.position(),
    {
        proof {
            use_type_invariant(self);
        }
        Self(self.0.clone())
    }
}

impl AstNode for TaskDefinition {
    open spec fn accepts(kind: SyntaxKind) -> bool {
        kind == SyntaxKind::TaskDefinitionNode
    }

    closed spec fn position(&self) -> Cursor {
        self.0@
    }

    fn can_cast(kind: SyntaxKind) -> (r: bool) {
        kind == SyntaxKind::TaskDefinitionNode
    }

    fn cast(syntax: Node) -> (r: Option<Self>) {
        match syntax.kind() {
            SyntaxKind::TaskDefinitionNode => Some(Self(syntax)),
            _ => None,
        }
    }

    fn syntax(&self) -> (r: &Node) {
        proof {
            use_type_invariant(self);
            assert(Self::accepts(self.0@.kind()));
        }
        &self.0
    }
}

impl TaskDefinition {
    /// Gets the name of the task, which a task of a valid tree has.
    pub fn name(&self) -> (r: Ident)
        requires
            token_children::<Ident>(self.position()).len() > 0,
        ensures
            r.position() == token_children::<Ident>(self.position())[0],
    {
        match token::<Ident>(&self.0) {
            Some(found) => found,
            None => unreached(),
        }
    }

    /// Gets the items of the task.
    pub fn items(&self) -> (r: AstChildren<TaskItem>)
        ensures
            r.remaining() == node_children::<TaskItem>(self.position()),
    {
        children(&self.0)
    }

    /// Gets the input section of the task.
    pub fn input(&self) -> (r: Option<InputSection>)
        ensures
            r is None <==> node_children::<InputSection>(self.position()).len() == 0,
            r is Some ==> r->0.position() == node_children::<InputSection>(self.position())[0],
    {
        child(&self.0)
    }

    /// Gets the output section of the task.
    pub fn output(&self) -> (r: Option<OutputSection>)
        ensures
            r is None <==> node_children::<OutputSection>(self.position()).len() == 0,
            r is Some ==> r->0.position() == node_children::<OutputSection>(self.position())[0],
    {
        child(&self.0)
    }

    /// Gets the command section of the task.
    pub fn command(&self) -> (r: Option<CommandSection>)
        ensures
            r is None <==> node_children::<CommandSection>(self.position()).len() == 0,
            r is Some ==> r->0.position() == node_children::<CommandSection>(self.position())[0],
    {
        child(&self.0)
    }

    /// Gets the requirements section of the task.
    pub fn requirements(&self) -> (r: Option<RequirementsSection>)
        ensures
            r is None <==> node_children::<RequirementsSection>(self.position()).len() == 0,
            r is Some ==> r->0.position() == node_children::<RequirementsSection>(self.position())[0],
    {
        child(&self.0)
    }

    /// Gets the hints section of the task.
    pub fn hints(&self) -> (r: Option<HintsSection>)
        ensures
            r is None <==> node_children::<HintsSection>(self.position()).len() == 0,
            r is Some ==> r->0.position() == node_children::<HintsSection>(self.position())[0],
    {
        child(&self.0)
    }

    /// Gets the runtime section of the task.
    pub fn runtime(&self) -> (r: Option<RuntimeSection>)
        ensures
            r is None <==> node_children::<RuntimeSection>(self.position()).len() == 0,
            r is Some ==> r->0.position() == node_children::<RuntimeSection>(self.position())[0],
    {
        child(&self.0)
    }

    /// Gets the metadata section of the task.
    pub fn metadata(&self) -> (r: Option<MetadataSection>)
        ensures
            r is None <==> node_children::<MetadataSection>(self.position()).len() == 0,
            r is Some ==> r->0.position() == node_children::<MetadataSection>(self.position())[0],
    {
        child(&self.0)
    }

    /// Gets the parameter metadata section of the task.
    pub fn parameter_metadata(&self) -> (r: Option<ParameterMetadataSection>)
        ensures
            r is None <==> node_children::<ParameterMetadataSection>(self.position()).len() == 0,
            r is Some ==> r->0.position() == node_children::<ParameterMetadataSection>(self.position())[0],
    {
        child(&self.0)
    }

    /// Gets the private declarations of the task.
    pub fn declarations(&self) -> (r: AstChildren<BoundDecl>)
        ensures
            r.remaining() == node_children::<BoundDecl>(self.position()),
    {
        children(&self.0)
    }
}

/// Represents an item in a task definition.
#[derive(Debug, PartialEq, Eq)]
pub enum TaskItem {
    /// The item is an input section.
    Input(InputSection),
    /// The item is an output section.
    Output(OutputSection),
    /// The item is a command section.
    Command(CommandSection),
    /// The item is a requirements section.
    Requirements(RequirementsSection),
    /// The item is a hints section.
    Hints(HintsSection),
    /// The item is a runtime section.
    Runtime(RuntimeSection),
    /// The item is a metadata section.
    Metadata(MetadataSection),
    /// The item is a parameter metadata section.
    ParameterMetadata(ParameterMetadataSection),
    /// The item is a private bound declaration.
    Declaration(BoundDecl),
}

impl Clone for TaskItem {
    fn clone(&self) -> (r: Self)
        ensures
            r.position() == self.position(),
            r is Input <==> self is Input,
            r is Output <==> self is Output,
            r is Command <==> self is Command,
            r is Requirements <==> self is Requirements,
            r is Hints <==> self is Hints,
            r is Runtime <==> self is Runtime,
            r is Metadata <==> self is Metadata,
            r is ParameterMetadata <==> self is ParameterMetadata,
            r is Declaration <==> self is Declaration,
    {
        match self {
            Self::Input(inner) => Self::Input(inner.clone()),
            Self::Output(inner) => Self::Output(inner.clone()),
            Self::Command(inner) => Self::Command(inner.clone()),
            Self::Requirements(inner) => Self::Requirements(inner.clone()),
            Self::Hints(inner) => Self::Hints(inner.clone()),
            Self::Runtime(inner) => Self::Runtime(inner.clone()),
            Self::Metadata(inner) => Self::Metadata(inner.clone()),
            Self::ParameterMetadata(inner) => Self::ParameterMetadata(inner.clone()),
            Self::Declaration(inner) => Self::Declaration(inner.clone()),
        }
    }
}

impl TaskItem {
    /// The kind of node that the variant holds.
    pub open spec fn holds(self) -> SyntaxKind {
        match self {
            Self::Input(_) => SyntaxKind::InputSectionNode,
            Self::Output(_) => SyntaxKind::OutputSectionNode,
            Self::Command(_) => SyntaxKind::CommandSectionNode,
            Self::Requirements(_) => SyntaxKind::RequirementsSectionNode,
            Self::Hints(_) => SyntaxKind::HintsSectionNode,
            Self::Runtime(_) => SyntaxKind::RuntimeSectionNode,
            Self::Metadata(_) => SyntaxKind::MetadataSectionNode,
            Self::ParameterMetadata(_) => SyntaxKind::ParameterMetadataSectionNode,
            Self::Declaration(_) => SyntaxKind::BoundDeclNode,
        }
    }
}

impl AstNode for TaskItem {
    open spec fn accepts(kind: SyntaxKind) -> bool {
        InputSection::accepts(kind)
        || OutputSection::accepts(kind)
        || CommandSection::accepts(kind)
        || RequirementsSection::accepts(kind)
        || HintsSection::accepts(kind)
        || RuntimeSection::accepts(kind)
        || MetadataSection::accepts(kind)
        || ParameterMetadataSection::accepts(kind)
        || BoundDecl::accepts(kind)
    }

    open spec fn position(&self) -> Cursor {
        match self {
            Self::Input(inner) => inner.position(),
            Self::Output(inner) => inner.position(),
            Self::Command(inner) => inner.position(),
            Self::Requirements(inner) => inner.position(),
            Self::Hints(inner) => inner.position(),
            Self::Runtime(inner) => inner.position(),
            Self::Metadata(inner) => inner.position(),
            Self::ParameterMetadata(inner) => inner.position(),
            Self::Declaration(inner) => inner.position(),
        }
    }

    fn can_cast(kind: SyntaxKind) -> (r: bool) {
        match kind {
            SyntaxKind::InputSectionNode
            | SyntaxKind::OutputSectionNode
            | SyntaxKind::CommandSectionNode
            | SyntaxKind::RequirementsSectionNode
            | SyntaxKind::HintsSectionNode
            | SyntaxKind::RuntimeSectionNode
            | SyntaxKind::MetadataSectionNode
            | SyntaxKind::ParameterMetadataSectionNode
            | SyntaxKind::BoundDeclNode => true,
            _ => false,
        }
    }

    fn cast(syntax: Node) -> (r: Option<Self>)
        ensures
            r is Some ==> r->0.holds() == syntax@.kind(),
    {
        match syntax.kind() {
            SyntaxKind::InputSectionNode => match InputSection::cast(syntax) {
                Some(inner) => Some(Self::Input(inner)),
                None => None,
            },
            SyntaxKind::OutputSectionNode => match OutputSection::cast(syntax) {
                Some(inner) => Some(Self::Output(inner)),
                None => None,
            },
            SyntaxKind::CommandSectionNode => match CommandSection::cast(syntax) {
                Some(inner) => Some(Self::Command(inner)),
                None => None,
            },
            SyntaxKind::RequirementsSectionNode => match RequirementsSection::cast(syntax) {
                Some(inner) => Some(Self::Requirements(inner)),
                None => None,
            },
            SyntaxKind::HintsSectionNode => match HintsSection::cast(syntax) {
                Some(inner) => Some(Self::Hints(inner)),
                None => None,
            },
            SyntaxKind::RuntimeSectionNode => match RuntimeSection::cast(syntax) {
                Some(inner) => Some(Self::Runtime(inner)),
                None => None,
            },
            SyntaxKind::MetadataSectionNode => match MetadataSection::cast(syntax) {
                Some(inner) => Some(Self::Metadata(inner)),
                None => None,
            },
            SyntaxKind::ParameterMetadataSectionNode => match ParameterMetadataSection::cast(syntax) {
                Some(inner) => Some(Self::ParameterMetadata(inner)),
                None => None,
            },
            SyntaxKind::BoundDeclNode => match BoundDecl::cast(syntax) {
                Some(inner) => Some(Self::Declaration(inner)),
                None => None,
            },
            _ => None,
        }
    }

    fn syntax(&self) -> (r: &Node)
        ensures
            r@.kind() == self.holds(),
    {
        match self {
            Self::Input(inner) => inner.syntax(),
            Self::Output(inner) => inner.syntax(),
            Self::Command(inner) => inner.syntax(),
            Self::Requirements(inner) => inner.syntax(),
            Self::Hints(inner) => inner.syntax(),
            Self::Runtime(inner) => inner.syntax(),
            Self::Metadata(inner) => inner.syntax(),
            Self::ParameterMetadata(inner) => inner.syntax(),
            Self::Declaration(inner) => inner.syntax(),
        }
    }
}

/// Represents the parent of a section.
#[derive(Debug, PartialEq, Eq)]
pub enum SectionParent {
    /// The parent is a task.
    Task(TaskDefinition),
    /// The parent is a workflow.
    Workflow(WorkflowDefinition),
    /// The parent is a struct.
    Struct(StructDefinition),
}

impl Clone for SectionParent {
    fn clone(&self) -> (r: Self)
        ensures
            r.position() == self.position(),
            r is Task <==> self is Task,
            r is Workflow <==> self is Workflow,
            r is Struct <==> self is Struct,
    {
        match self {
            Self::Task(inner) => Self::Task(inner.clone()),
            Self::Workflow(inner) => Self::Workflow(inner.clone()),
            Self::Struct(inner) => Self::Struct(inner.clone()),
        }
    }
}

impl SectionParent {
    /// The kind of node that the variant holds.
    pub open spec fn holds(self) -> SyntaxKind {
        match self {
            Self::Task(_) => SyntaxKind::TaskDefinitionNode,
            Self::Workflow(_) => SyntaxKind::WorkflowDefinitionNode,
            Self::Struct(_) => SyntaxKind::StructDefinitionNode,
        }
    }
}

impl AstNode for SectionParent {
    open spec fn accepts(kind: SyntaxKind) -> bool {
        TaskDefinition::accepts(kind)
        || WorkflowDefinition::accepts(kind)
        || StructDefinition::accepts(kind)
    }

    open spec fn position(&self) -> Cursor {
        match self {
            Self::Task(inner) => inner.position(),
            Self::Workflow(inner) => inner.position(),
            Self::Struct(inner) => inner.position(),
        }
    }

    fn can_cast(kind: SyntaxKind) -> (r: bool) {
        match kind {
            SyntaxKind::TaskDefinitionNode
            | SyntaxKind::WorkflowDefinitionNode
            | SyntaxKind::StructDefinitionNode => true,
            _ => false,
        }
    }

    fn cast(syntax: Node) -> (r: Option<Self>)
        ensures
            r is Some ==> r->0.holds() == syntax@.kind(),
    {
        match syntax.kind() {
            SyntaxKind::TaskDefinitionNode => match TaskDefinition::cast(syntax) {
                Some(inner) => Some(Self::Task(inner)),
                None => None,
            },
            SyntaxKind::WorkflowDefinitionNode => match WorkflowDefinition::cast(syntax) {
                Some(inner) => Some(Self::Workflow(inner)),
                None => None,
            },
            SyntaxKind::StructDefinitionNode => match StructDefinition::cast(syntax) {
                Some(inner) => Some(Self::Struct(inner)),
                None => None,
            },
            _ => None,
        }
    }

    fn syntax(&self) -> (r: &Node)
        ensures
            r@.kind() == self.holds(),
    {
        match self {
            Self::Task(inner) => inner.syntax(),
            Self::Workflow(inner) => inner.syntax(),
            Self::Struct(inner) => inner.syntax(),
        }
    }
}

impl SectionParent {
    /// Gets the name of the section parent, which a definition of a valid
    /// tree has.
    pub fn name(&self) -> (r: Ident)
        requires
            token_children::<Ident>(self.position()).len() > 0,
        ensures
            r.position() == token_children::<Ident>(self.position())[0],
    {
        match self {
            Self::Task(task) => task.name(),
            Self::Workflow(workflow) => workflow.name(),
            Self::Struct(definition) => definition.name(),
        }
    }

    /// Unwraps the value into a task definition, which it must be.
    pub fn unwrap_task(self) -> (r: TaskDefinition)
        requires
            self is Task,
        ensures
            r.position() == self.position(),
    {
        match self {
            Self::Task(inner) => inner,
            _ => unreached(),
        }
    }

    /// Unwraps the value into a workflow definition, which it must be.
    pub fn unwrap_workflow(self) -> (r: WorkflowDefinition)
        requires
            self is Workflow,
        ensures
            r.position() == self.position(),
    {
        match self {
            Self::Workflow(inner) => inner,
            _ => unreached(),
        }
    }

    /// Unwraps the value into a struct definition, which it must be.
    pub fn unwrap_struct(self) -> (r: StructDefinition)
        requires
            self is Struct,
        ensures
            r.position() == self.position(),
    {
        match self {
            Self::Struct(inner) => inner,
            _ => unreached(),
        }
    }
}

/// The position of the definition that the node at `at` belongs to: its
/// nearest ancestor that is a task, a workflow or a struct.
pub open spec fn enclosing_definition(at: Cursor) -> Option<Cursor>
    decreases at.path.len(),
{
    if at.is_root() {
        None
    } else if SectionParent::accepts(at.parent().kind()) {
        Some(at.parent())
    } else {
        enclosing_definition(at.parent())
    }
}

/// Whether the node at `at` lies in a task, a workflow or a struct, as
/// every section and declaration of a valid tree does.
pub open spec fn has_section_parent(at: Cursor) -> bool {
    enclosing_definition(at) is Some
}

/// Gets the task, workflow or struct that `section` belongs to, by walking
/// up from it.
fn section_parent(section: &Node) -> (r: SectionParent)
    requires
        has_section_parent(section@),
    ensures
        r.position() == enclosing_definition(section@)->0,
        r.holds() == r.position().kind(),
{
    let mut current = section.clone();
    loop
        invariant
            enclosing_definition(current@) == enclosing_definition(section@),
            has_section_parent(section@),
        decreases current@.path.len(),
    {
        match current.parent() {
            None => {
                return unreached();
            },
            Some(up) => {
                if SectionParent::can_cast(up.kind()) {
                    match SectionParent::cast(up) {
                        Some(found) => {
                            return found;
                        },
                        None => {
                            return unreached();
                        },
                    }
                }
                current = up;
            },
        }
    }
}

/// One where the condition holds, else zero.
pub open spec fn one_if(condition: bool) -> nat {
    if condition {
        1
    } else {
        0
    }
}

/// The number of the node concepts of a task, those that are no union of
/// others, that a node of the given kind can be cast to.
pub open spec fn concepts_accepting(kind: SyntaxKind) -> nat {
    one_if(TaskDefinition::accepts(kind))
        + one_if(WorkflowDefinition::accepts(kind))
        + one_if(StructDefinition::accepts(kind))
        + one_if(InputSection::accepts(kind))
        + one_if(OutputSection::accepts(kind))
        + one_if(CommandSection::accepts(kind))
        + one_if(RequirementsSection::accepts(kind))
        + one_if(RequirementsItem::accepts(kind))
        + one_if(HintsSection::accepts(kind))
        + one_if(HintsItem::accepts(kind))
        + one_if(RuntimeSection::accepts(kind))
        + one_if(RuntimeItem::accepts(kind))
        + one_if(MetadataSection::accepts(kind))
        + one_if(ParameterMetadataSection::accepts(kind))
        + one_if(MetadataObjectItem::accepts(kind))
        + one_if(MetadataObject::accepts(kind))
        + one_if(MetadataArray::accepts(kind))
        + one_if(LiteralNull::accepts(kind))
        + one_if(LiteralBoolean::accepts(kind))
        + one_if(LiteralInteger::accepts(kind))
        + one_if(LiteralFloat::accepts(kind))
        + one_if(LiteralString::accepts(kind))
        + one_if(Placeholder::accepts(kind))
        + one_if(BoundDecl::accepts(kind))
        + one_if(UnboundDecl::accepts(kind))
}

/// No node can be cast to two of the node concepts of a task: a node of the
/// kind of one of them can be cast to that one and to no other.
pub proof fn lemma_cast_exclusive(kind: SyntaxKind)
    ensures
        concepts_accepting(kind) <= 1,
        TaskDefinition::accepts(kind) ==> concepts_accepting(kind) == 1,
        WorkflowDefinition::accepts(kind) ==> concepts_accepting(kind) == 1,
        StructDefinition::accepts(kind) ==> concepts_accepting(kind) == 1,
        InputSection::accepts(kind) ==> concepts_accepting(kind) == 1,
        OutputSection::accepts(kind) ==> concepts_accepting(kind) == 1,
        CommandSection::accepts(kind) ==> concepts_accepting(kind) == 1,
        RequirementsSection::accepts(kind) ==> concepts_accepting(kind) == 1,
        RequirementsItem::accepts(kind) ==> concepts_accepting(kind) == 1,
        HintsSection::accepts(kind) ==> concepts_accepting(kind) == 1,
        HintsItem::accepts(kind) ==> concepts_accepting(kind) == 1,
        RuntimeSection::accepts(kind) ==> concepts_accepting(kind) == 1,
        RuntimeItem::accepts(kind) ==> concepts_accepting(kind) == 1,
        MetadataSection::accepts(kind) ==> concepts_accepting(kind) == 1,
        ParameterMetadataSection::accepts(kind) ==> concepts_accepting(kind) == 1,
        MetadataObjectItem::accepts(kind) ==> concepts_accepting(kind) == 1,
        MetadataObject::accepts(kind) ==> concepts_accepting(kind) == 1,
        MetadataArray::accepts(kind) ==> concepts_accepting(kind) == 1,
        LiteralNull::accepts(kind) ==> concepts_accepting(kind) == 1,
        LiteralBoolean::accepts(kind) ==> concepts_accepting(kind) == 1,
        LiteralInteger::accepts(kind) ==> concepts_accepting(kind) == 1,
        LiteralFloat::accepts(kind) ==> concepts_accepting(kind) == 1,
        LiteralString::accepts(kind) ==> concepts_accepting(kind) == 1,
        Placeholder::accepts(kind) ==> concepts_accepting(kind) == 1,
        BoundDecl::accepts(kind) ==> concepts_accepting(kind) == 1,
        UnboundDecl::accepts(kind) ==> concepts_accepting(kind) == 1,
{
}

/// The number of the variants of a task item that a node of the given kind
/// can be cast to.
pub open spec fn task_item_arms(kind: SyntaxKind) -> nat {
    one_if(InputSection::accepts(kind))
        + one_if(OutputSection::accepts(kind))
        + one_if(CommandSection::accepts(kind))
        + one_if(RequirementsSection::accepts(kind))
        + one_if(HintsSection::accepts(kind))
        + one_if(RuntimeSection::accepts(kind))
        + one_if(MetadataSection::accepts(kind))
        + one_if(ParameterMetadataSection::accepts(kind))
        + one_if(BoundDecl::accepts(kind))
}

/// A node that can be cast to a task item can be cast to exactly one of its
/// variants, and a node that cannot, to none.
pub proof fn lemma_task_item_arms(kind: SyntaxKind)
    ensures
        task_item_arms(kind) == one_if(TaskItem::accepts(kind)),
{
}

/// The number of the variants of a section parent that a node of the given kind
/// can be cast to.
pub open spec fn section_parent_arms(kind: SyntaxKind) -> nat {
    one_if(TaskDefinition::accepts(kind))
        + one_if(WorkflowDefinition::accepts(kind))
        + one_if(StructDefinition::accepts(kind))
}

/// A node that can be cast to a section parent can be cast to exactly one of its
/// variants, and a node that cannot, to none.
pub proof fn lemma_section_parent_arms(kind: SyntaxKind)
    ensures
        section_parent_arms(kind) == one_if(SectionParent::accepts(kind)),
{
}

/// The number of the variants of a metadata value that a node of the given kind
/// can be cast to.
pub open spec fn metadata_value_arms(kind: SyntaxKind) -> nat {
    one_if(LiteralBoolean::accepts(kind))
        + one_if(LiteralInteger::accepts(kind))
        + one_if(LiteralFloat::accepts(kind))
        + one_if(LiteralString::accepts(kind))
        + one_if(LiteralNull::accepts(kind))
        + one_if(MetadataObject::accepts(kind))
        + one_if(MetadataArray::accepts(kind))
}

/// A node that can be cast to a metadata value can be cast to exactly one of its
/// variants, and a node that cannot, to none.
pub proof fn lemma_metadata_value_arms(kind: SyntaxKind)
    ensures
        metadata_value_arms(kind) == one_if(MetadataValue::accepts(kind)),
{
}

/// Every node directly nested in a task resolves its parent to that task:
/// the definition that it belongs to stands where the task stands, and of
/// the variants of a section parent only the task holds the kind of a task.
pub proof fn lemma_parent_of_task_child(task: Cursor, child: Cursor)
    requires
        TaskDefinition::accepts(task.kind()),
        task.children().contains(child),
    ensures
        enclosing_definition(child) == Some(task),
        forall|parent: SectionParent|
            #[trigger] parent.holds() == task.kind() ==> parent is Task && !(parent is Workflow)
                && !(parent is Struct),
{
    let i = choose|i: int| 0 <= i < task.children().len() && task.children()[i] == child;
    lemma_child(task, i);
}

/// Represents an input section in a task or workflow definition.
#[derive(Debug, PartialEq, Eq)]
pub struct InputSection(pub(crate) Node);

impl InputSection {
    #[verifier::type_invariant]
    spec fn kinded(self) -> bool {
        self.0@.kind() == SyntaxKind::InputSectionNode
    }
}

impl Clone for InputSection {
    fn clone(&self) -> (r: Self)
        ensures
            r.position() == self.position(),
    {
        proof {
            use_type_invariant(self);
        }
        Self(self.0.clone())
    }
}

impl AstNode for InputSection {
    open spec fn accepts(kind: SyntaxKind) -> bool {
        kind == SyntaxKind::InputSectionNode
    }

    closed spec fn position(&self) -> Cursor {
        self.0@
    }

    fn can_cast(kind: SyntaxKind) -> (r: bool) {
        kind == SyntaxKind::InputSectionNode
    }

    fn cast(syntax: Node) -> (r: Option<Self>) {
        match syntax.kind() {
            SyntaxKind::InputSectionNode => Some(Self(syntax)),
            _ => None,
        }
    }

    fn syntax(&self) -> (r: &Node) {
        proof {
            use_type_invariant(self);
            assert(Self::accepts(self.0@.kind()));
        }
        &self.0
    }
}

impl InputSection {
    /// Gets the declarations of the input section.
    pub fn declarations(&self) -> (r: AstChildren<Decl>)
        ensures
            r.remaining() == node_children::<Decl>(self.position()),
    {
        children(&self.0)
    }

    /// Gets the parent of the input section: the task, workflow or struct that
    /// it belongs to, which a section of a valid tree has.
    pub fn parent(&self) -> (r: SectionParent)
        requires
            has_section_parent(self.position()),
        ensures
            r.position() == enclosing_definition(self.position())->0,
            r.holds() == r.position().kind(),
    {
        section_parent(&self.0)
    }
}

/// Represents an output section in a task or workflow definition.
#[derive(Debug, PartialEq, Eq)]
pub struct OutputSection(pub(crate) Node);

impl OutputSection {
    #[verifier::type_invariant]
    spec fn kinded(self) -> bool {
        self.0@.kind() == SyntaxKind::OutputSectionNode
    }
}

impl Clone for OutputSection {
    fn clone(&self) -> (r: Self)
        ensures
            r.position() == self.position(),
    {
        proof {
            use_type_invariant(self);
        }
        Self(self.0.clone())
    }
}

impl AstNode for OutputSection {
    open spec fn accepts(kind: SyntaxKind) -> bool {
        kind == SyntaxKind::OutputSectionNode
    }

    closed spec fn position(&self) -> Cursor {
        self.0@
    }

    fn can_cast(kind: SyntaxKind) -> (r: bool) {
        kind == SyntaxKind::OutputSectionNode
    }

    fn cast(syntax: Node) -> (r: Option<Self>) {
        match syntax.kind() {
            SyntaxKind::OutputSectionNode => Some(Self(syntax)),
            _ => None,
        }
    }

    fn syntax(&self) -> (r: &Node) {
        proof {
            use_type_invariant(self);
            assert(Self::accepts(self.0@.kind()));
        }
        &self.0
    }
}

impl OutputSection {
    /// Gets the declarations of the output section.
    pub fn declarations(&self) -> (r: AstChildren<BoundDecl>)
        ensures
            r.remaining() == node_children::<BoundDecl>(self.position()),
    {
        children(&self.0)
    }

    /// Gets the parent of the output section: the task, workflow or struct that
    /// it belongs to, which a section of a valid tree has.
    pub fn parent(&self) -> (r: SectionParent)
        requires
            has_section_parent(self.position()),
        ensures
            r.position() == enclosing_definition(self.position())->0,
            r.holds() == r.position().kind(),
    {
        section_parent(&self.0)
    }
}

/// Represents a command section in a task definition.
#[derive(Debug, PartialEq, Eq)]
pub struct CommandSection(pub(crate) Node);

impl CommandSection {
    #[verifier::type_invariant]
    spec fn kinded(self) -> bool {
        self.0@.kind() == SyntaxKind::CommandSectionNode
    }
}

impl Clone for CommandSection {
    fn clone(&self) -> (r: Self)
        ensures
            r.position() == self.position(),
    {
        proof {
            use_type_invariant(self);
        }
        Self(self.0.clone())
    }
}

impl AstNode for CommandSection {
    open spec fn accepts(kind: SyntaxKind) -> bool {
        kind == SyntaxKind::CommandSectionNode
    }

    closed spec fn position(&self) -> Cursor {
        self.0@
    }

    fn can_cast(kind: SyntaxKind) -> (r: bool) {
        kind == SyntaxKind::CommandSectionNode
    }

    fn cast(syntax: Node) -> (r: Option<Self>) {
        match syntax.kind() {
            SyntaxKind::CommandSectionNode => Some(Self(syntax)),
            _ => None,
        }
    }

    fn syntax(&self) -> (r: &Node) {
        proof {
            use_type_invariant(self);
            assert(Self::accepts(self.0@.kind()));
        }
        &self.0
    }
}

/// Represents a textual part of a command.
#[derive(Debug, PartialEq, Eq)]
pub struct CommandText(pub(crate) Token);

impl CommandText {
    #[verifier::type_invariant]
    spec fn kinded(self) -> bool {
        self.0@.kind() == SyntaxKind::LiteralCommandText
    }
}

impl Clone for CommandText {
    fn clone(&self) -> (r: Self)
        ensures
            r.position() == self.position(),
    {
        proof {
            use_type_invariant(self);
        }
        Self(self.0.clone())
    }
}

impl AstToken for CommandText {
    open spec fn accepts(kind: SyntaxKind) -> bool {
        kind == SyntaxKind::LiteralCommandText
    }

    closed spec fn position(&self) -> Cursor {
        self.0@
    }

    fn can_cast(kind: SyntaxKind) -> (r: bool) {
        kind == SyntaxKind::LiteralCommandText
    }

    fn cast(syntax: Token) -> (r: Option<Self>) {
        match syntax.kind() {
            SyntaxKind::LiteralCommandText => Some(Self(syntax)),
            _ => None,
        }
    }

    fn syntax(&self) -> (r: &Token) {
        proof {
            use_type_invariant(self);
            assert(Self::accepts(self.0@.kind()));
        }
        &self.0
    }
}

/// Whether the element at `c` is a part of a command: a token of literal
/// text or a placeholder node.
pub open spec fn is_command_part(c: Cursor) -> bool {
    (c.tree() is Token && CommandText::accepts(c.kind())) || (c.tree() is Node && Placeholder::accepts(
        c.kind(),
    ))
}

/// The parts of the command at `at`, in source order.
pub open spec fn command_parts(at: Cursor) -> Seq<Cursor> {
    at.children().filter(|c: Cursor| is_command_part(c))
}

/// Represents a part of a command.
#[derive(Debug, PartialEq, Eq)]
pub enum CommandPart {
    /// A textual part of the command.
    Text(CommandText),
    /// A placeholder encountered in the command.
    Placeholder(Placeholder),
}

impl Clone for CommandPart {
    fn clone(&self) -> (r: Self)
        ensures
            r.position() == self.position(),
            r is Text <==> self is Text,
    {
        match self {
            Self::Text(inner) => Self::Text(inner.clone()),
            Self::Placeholder(inner) => Self::Placeholder(inner.clone()),
        }
    }
}

impl CommandPart {
    /// The position of the token or node that the part wraps.
    pub open spec fn position(&self) -> Cursor {
        match self {
            Self::Text(inner) => inner.position(),
            Self::Placeholder(inner) => inner.position(),
        }
    }

    /// The positions of a sequence of parts.
    pub open spec fn positions(parts: Seq<CommandPart>) -> Seq<Cursor> {
        parts.map_values(|p: CommandPart| p.position())
    }

    /// Unwraps the part into text, which it must be.
    pub fn unwrap_text(self) -> (r: CommandText)
        requires
            self is Text,
        ensures
            r.position() == self.position(),
    {
        match self {
            Self::Text(inner) => inner,
            _ => unreached(),
        }
    }

    /// Unwraps the part into a placeholder, which it must be.
    pub fn unwrap_placeholder(self) -> (r: Placeholder)
        requires
            self is Placeholder,
        ensures
            r.position() == self.position(),
    {
        match self {
            Self::Placeholder(inner) => inner,
            _ => unreached(),
        }
    }

    /// Casts an element to a part: a token of literal text becomes text, a
    /// placeholder node becomes a placeholder, and nothing else is a part.
    pub fn cast(syntax: Element) -> (r: Option<Self>)
        ensures
            r is Some <==> match syntax {
                Element::Node(node) => Placeholder::accepts(node@.kind()),
                Element::Token(token) => CommandText::accepts(token@.kind()),
            },
            r is Some ==> r->0.position() == syntax@,
            r is Some ==> (r->0 is Text <==> syntax is Token),
    {
        match syntax {
            Element::Node(node) => match Placeholder::cast(node) {
                Some(inner) => Some(Self::Placeholder(inner)),
                None => None,
            },
            Element::Token(token) => match CommandText::cast(token) {
                Some(inner) => Some(Self::Text(inner)),
                None => None,
            },
        }
    }
}

impl CommandSection {
    /// Gets the parts of the command: its literal text and its placeholders,
    /// in source order.
    pub fn parts(&self) -> (r: Vec<CommandPart>)
        ensures
            CommandPart::positions(r@) == command_parts(self.position()),
            forall|i: int|
                0 <= i < r@.len() ==> ((#[trigger] r@[i]) is Text <==> r@[i].position().tree() is Token),
    {
        let ghost at = self.0@;
        let ghost pred = |c: Cursor| is_command_part(c);
        let ghost mut k: int = 0;
        let mut found: Vec<CommandPart> = Vec::new();
        let mut next = self.0.first_child_or_token();
        proof {
            assert(at.children().take(0) =~= Seq::<Cursor>::empty());
            assert(CommandPart::positions(found@) =~= Seq::<Cursor>::empty());
            reveal(Seq::filter);
        }
        loop
            invariant_except_break
                at == self.0@,
                pred == |c: Cursor| is_command_part(c),
                0 <= k <= at.child_count(),
                next is None <==> k == at.child_count(),
                next is Some ==> next->0.stands_at(at.child(k)),
                CommandPart::positions(found@) == at.children().take(k).filter(pred),
                forall|i: int|
                    0 <= i < found@.len() ==> ((#[trigger] found@[i]) is Text
                        <==> found@[i].position().tree() is Token),
            ensures
                CommandPart::positions(found@) == at.children().filter(pred),
                forall|i: int|
                    0 <= i < found@.len() ==> ((#[trigger] found@[i]) is Text
                        <==> found@[i].position().tree() is Token),
            decreases at.child_count() - k,
        {
            match next {
                None => {
                    proof {
                        assert(at.children().take(k) =~= at.children());
                    }
                    break;
                },
                Some(element) => {
                    proof {
                        lemma_child(at, k);
                        lemma_children_take(at, k);
                        at.children().take(k).lemma_filter_push(at.child(k), pred);
                    }
                    next = element.next_sibling_or_token();
                    let ghost before = found@;
                    match CommandPart::cast(element) {
                        Some(part) => {
                            found.push(part);
                            proof {
                                assert(CommandPart::positions(found@) =~= CommandPart::positions(
                                    before,
                                ).push(at.child(k)));
                            }
                        },
                        None => {},
                    }
                    proof {
                        k = k + 1;
                    }
                },
            }
        }
        found
    }

    /// Gets the text of the command if it is not interpolated, that is if
    /// its only part is text. An interpolated command has no single text.
    pub fn text(&self) -> (r: Option<CommandText>)
        ensures
            r is Some <==> command_parts(self.position()).len() == 1 && command_parts(
                self.position(),
            )[0].tree() is Token,
            r is Some ==> r->0.position() == command_parts(self.position())[0],
    {
        let mut parts = self.parts();
        let ghost all = parts@;
        if parts.len() == 1 {
            match parts.pop() {
                Some(CommandPart::Text(text)) => {
                    proof {
                        assert(CommandPart::positions(all)[0] == all[0].position());
                    }
                    Some(text)
                },
                _ => {
                    proof {
                        assert(CommandPart::positions(all)[0] == all[0].position());
                    }
                    None
                },
            }
        } else {
            proof {
                assert(CommandPart::positions(all).len() == all.len());
            }
            None
        }
    }

    /// Gets whether or not the command section is a heredoc command: one
    /// delimited by `<<<` and `>>>` rather than by braces.
    pub fn is_heredoc(&self) -> (r: bool)
        ensures
            r == (tokens_of_kind(self.position(), SyntaxKind::OpenHeredoc).len() > 0),
    {
        token_of_kind(&self.0, SyntaxKind::OpenHeredoc).is_some()
    }

    /// Gets the parent of the command section: the task, workflow or struct that
    /// it belongs to, which a section of a valid tree has.
    pub fn parent(&self) -> (r: SectionParent)
        requires
            has_section_parent(self.position()),
        ensures
            r.position() == enclosing_definition(self.position())->0,
            r.holds() == r.position().kind(),
    {
        section_parent(&self.0)
    }
}

/// Represents a requirements section in a task definition.
#[derive(Debug, PartialEq, Eq)]
pub struct RequirementsSection(pub(crate) Node);

impl RequirementsSection {
    #[verifier::type_invariant]
    spec fn kinded(self) -> bool {
        self.0@.kind() == SyntaxKind::RequirementsSectionNode
    }
}

impl Clone for RequirementsSection {
    fn clone(&self) -> (r: Self)
        ensures
            r.position() == self.position(),
    {
        proof {
            use_type_invariant(self);
        }
        Self(self.0.clone())
    }
}

impl AstNode for RequirementsSection {
    open spec fn accepts(kind: SyntaxKind) -> bool {
        kind == SyntaxKind::RequirementsSectionNode
    }

    closed spec fn position(&self) -> Cursor {
        self.0@
    }

    fn can_cast(kind: SyntaxKind) -> (r: bool) {
        kind == SyntaxKind::RequirementsSectionNode
    }

    fn cast(syntax: Node) -> (r: Option<Self>) {
        match syntax.kind() {
            SyntaxKind::RequirementsSectionNode => Some(Self(syntax)),
            _ => None,
        }
    }

    fn syntax(&self) -> (r: &Node) {
        proof {
            use_type_invariant(self);
            assert(Self::accepts(self.0@.kind()));
        }
        &self.0
    }
}

impl RequirementsSection {
    /// Gets the items in the requirements section.
    pub fn items(&self) -> (r: AstChildren<RequirementsItem>)
        ensures
            r.remaining() == node_children::<RequirementsItem>(self.position()),
    {
        children(&self.0)
    }

    /// Gets the parent of the requirements section: the task, workflow or struct that
    /// it belongs to, which a section of a valid tree has.
    pub fn parent(&self) -> (r: SectionParent)
        requires
            has_section_parent(self.position()),
        ensures
            r.position() == enclosing_definition(self.position())->0,
            r.holds() == r.position().kind(),
    {
        section_parent(&self.0)
    }

    /// Gets the first item that names the container, if there is one.
    pub fn container(&self) -> (r: Option<requirements::Container>)
        ensures
            r is None <==> requirements::containers(self.position()).len() == 0,
            r is Some ==> r->0.position() == requirements::containers(self.position())[0],
    {
        let items = self.items().collect();
        requirements::first_container(&items)
    }
}

/// Represents an item in a requirements section.
#[derive(Debug, PartialEq, Eq)]
pub struct RequirementsItem(pub(crate) Node);

impl RequirementsItem {
    #[verifier::type_invariant]
    spec fn kinded(self) -> bool {
        self.0@.kind() == SyntaxKind::RequirementsItemNode
    }
}

impl Clone for RequirementsItem {
    fn clone(&self) -> (r: Self)
        ensures
            r.position() == self.position(),
    {
        proof {
            use_type_invariant(self);
        }
        Self(self.0.clone())
    }
}

impl AstNode for RequirementsItem {
    open spec fn accepts(kind: SyntaxKind) -> bool {
        kind == SyntaxKind::RequirementsItemNode
    }

    closed spec fn position(&self) -> Cursor {
        self.0@
    }

    fn can_cast(kind: SyntaxKind) -> (r: bool) {
        kind == SyntaxKind::RequirementsItemNode
    }

    fn cast(syntax: Node) -> (r: Option<Self>) {
        match syntax.kind() {
            SyntaxKind::RequirementsItemNode => Some(Self(syntax)),
            _ => None,
        }
    }

    fn syntax(&self) -> (r: &Node) {
        proof {
            use_type_invariant(self);
            assert(Self::accepts(self.0@.kind()));
        }
        &self.0
    }
}

impl RequirementsItem {
    /// Gets the name of the requirements item, which an item of a valid tree
    /// has.
    pub fn name(&self) -> (r: Ident)
        requires
            token_children::<Ident>(self.position()).len() > 0,
        ensures
            r.position() == token_children::<Ident>(self.position())[0],
    {
        match token::<Ident>(&self.0) {
            Some(found) => found,
            None => unreached(),
        }
    }

    /// Gets the expression of the requirements item, which an item of a valid
    /// tree has.
    pub fn expr(&self) -> (r: Expr)
        requires
            node_children::<Expr>(self.position()).len() > 0,
        ensures
            r.position() == node_children::<Expr>(self.position())[0],
    {
        match child::<Expr>(&self.0) {
            Some(found) => found,
            None => unreached(),
        }
    }

    /// Consumes the item and casts it to the item that names the container,
    /// which succeeds exactly when it is named so.
    pub fn into_container(self) -> (r: Option<requirements::Container>)
        ensures
            r is Some <==> requirements::is_container(self.position()),
            r is Some ==> r->0.position() == self.position(),
    {
        requirements::Container::from_item(self)
    }
}

/// Represents a hints section in a task definition.
#[derive(Debug, PartialEq, Eq)]
pub struct HintsSection(pub(crate) Node);

impl HintsSection {
    #[verifier::type_invariant]
    spec fn kinded(self) -> bool {
        self.0@.kind() == SyntaxKind::HintsSectionNode
    }
}

impl Clone for HintsSection {
    fn clone(&self) -> (r: Self)
        ensures
            r.position() == self.position(),
    {
        proof {
            use_type_invariant(self);
        }
        Self(self.0.clone())
    }
}

impl AstNode for HintsSection {
    open spec fn accepts(kind: SyntaxKind) -> bool {
        kind == SyntaxKind::HintsSectionNode
    }

    closed spec fn position(&self) -> Cursor {
        self.0@
    }

    fn can_cast(kind: SyntaxKind) -> (r: bool) {
        kind == SyntaxKind::HintsSectionNode
    }

    fn cast(syntax: Node) -> (r: Option<Self>) {
        match syntax.kind() {
            SyntaxKind::HintsSectionNode => Some(Self(syntax)),
            _ => None,
        }
    }

    fn syntax(&self) -> (r: &Node) {
        proof {
            use_type_invariant(self);
            assert(Self::accepts(self.0@.kind()));
        }
        &self.0
    }
}

impl HintsSection {
    /// Gets the items in the hints section.
    pub fn items(&self) -> (r: AstChildren<HintsItem>)
        ensures
            r.remaining() == node_children::<HintsItem>(self.position()),
    {
        children(&self.0)
    }

    /// Gets the parent of the hints section: the task, workflow or struct that
    /// it belongs to, which a section of a valid tree has.
    pub fn parent(&self) -> (r: SectionParent)
        requires
            has_section_parent(self.position()),
        ensures
            r.position() == enclosing_definition(self.position())->0,
            r.holds() == r.position().kind(),
    {
        section_parent(&self.0)
    }
}

/// Represents an item in a hints section.
#[derive(Debug, PartialEq, Eq)]
pub struct HintsItem(pub(crate) Node);

impl HintsItem {
    #[verifier::type_invariant]
    spec fn kinded(self) -> bool {
        self.0@.kind() == SyntaxKind::HintsItemNode
    }
}

impl Clone for HintsItem {
    fn clone(&self) -> (r: Self)
        ensures
            r.position() == self.position(),
    {
        proof {
            use_type_invariant(self);
        }
        Self(self.0.clone())
    }
}

impl AstNode for HintsItem {
    open spec fn accepts(kind: SyntaxKind) -> bool {
        kind == SyntaxKind::HintsItemNode
    }

    closed spec fn position(&self) -> Cursor {
        self.0@
    }

    fn can_cast(kind: SyntaxKind) -> (r: bool) {
        kind == SyntaxKind::HintsItemNode
    }

    fn cast(syntax: Node) -> (r: Option<Self>) {
        match syntax.kind() {
            SyntaxKind::HintsItemNode => Some(Self(syntax)),
            _ => None,
        }
    }

    fn syntax(&self) -> (r: &Node) {
        proof {
            use_type_invariant(self);
            assert(Self::accepts(self.0@.kind()));
        }
        &self.0
    }
}

impl HintsItem {
    /// Gets the name of the hints item, which an item of a valid tree has.
    pub fn name(&self) -> (r: Ident)
        requires
            token_children::<Ident>(self.position()).len() > 0,
        ensures
            r.position() == token_children::<Ident>(self.position())[0],
    {
        match token::<Ident>(&self.0) {
            Some(found) => found,
            None => unreached(),
        }
    }

    /// Gets the expression of the hints item, which an item of a valid tree
    /// has.
    pub fn expr(&self) -> (r: Expr)
        requires
            node_children::<Expr>(self.position()).len() > 0,
        ensures
            r.position() == node_children::<Expr>(self.position())[0],
    {
        match child::<Expr>(&self.0) {
            Some(found) => found,
            None => unreached(),
        }
    }
}

/// Represents a runtime section in a task definition.
#[derive(Debug, PartialEq, Eq)]
pub struct RuntimeSection(pub(crate) Node);

impl RuntimeSection {
    #[verifier::type_invariant]
    spec fn kinded(self) -> bool {
        self.0@.kind() == SyntaxKind::RuntimeSectionNode
    }
}

impl Clone for RuntimeSection {
    fn clone(&self) -> (r: Self)
        ensures
            r.position() == self.position(),
    {
        proof {
            use_type_invariant(self);
        }
        Self(self.0.clone())
    }
}

impl AstNode for RuntimeSection {
    open spec fn accepts(kind: SyntaxKind) -> bool {
        kind == SyntaxKind::RuntimeSectionNode
    }

    closed spec fn position(&self) -> Cursor {
        self.0@
    }

    fn can_cast(kind: SyntaxKind) -> (r: bool) {
        kind == SyntaxKind::RuntimeSectionNode
    }

    fn cast(syntax: Node) -> (r: Option<Self>) {
        match syntax.kind() {
            SyntaxKind::RuntimeSectionNode => Some(Self(syntax)),
            _ => None,
        }
    }

    fn syntax(&self) -> (r: &Node) {
        proof {
            use_type_invariant(self);
            assert(Self::accepts(self.0@.kind()));
        }
        &self.0
    }
}

impl RuntimeSection {
    /// Gets the items in the runtime section.
    pub fn items(&self) -> (r: AstChildren<RuntimeItem>)
        ensures
            r.remaining() == node_children::<RuntimeItem>(self.position()),
    {
        children(&self.0)
    }

    /// Gets the parent of the runtime section: the task, workflow or struct that
    /// it belongs to, which a section of a valid tree has.
    pub fn parent(&self) -> (r: SectionParent)
        requires
            has_section_parent(self.position()),
        ensures
            r.position() == enclosing_definition(self.position())->0,
            r.holds() == r.position().kind(),
    {
        section_parent(&self.0)
    }

    /// Gets the first item that names the container, if there is one.
    pub fn container(&self) -> (r: Option<runtime::Container>)
        ensures
            r is None <==> runtime::containers(self.position()).len() == 0,
            r is Some ==> r->0.position() == runtime::containers(self.position())[0],
    {
        let items = self.items().collect();
        runtime::first_container(&items)
    }
}

/// Represents an item in a runtime section.
#[derive(Debug, PartialEq, Eq)]
pub struct RuntimeItem(pub(crate) Node);

impl RuntimeItem {
    #[verifier::type_invariant]
    spec fn kinded(self) -> bool {
        self.0@.kind() == SyntaxKind::RuntimeItemNode
    }
}

impl Clone for RuntimeItem {
    fn clone(&self) -> (r: Self)
        ensures
            r.position() == self.position(),
    {
        proof {
            use_type_invariant(self);
        }
        Self(self.0.clone())
    }
}

impl AstNode for RuntimeItem {
    open spec fn accepts(kind: SyntaxKind) -> bool {
        kind == SyntaxKind::RuntimeItemNode
    }

    closed spec fn position(&self) -> Cursor {
        self.0@
    }

    fn can_cast(kind: SyntaxKind) -> (r: bool) {
        kind == SyntaxKind::RuntimeItemNode
    }

    fn cast(syntax: Node) -> (r: Option<Self>) {
        match syntax.kind() {
            SyntaxKind::RuntimeItemNode => Some(Self(syntax)),
            _ => None,
        }
    }

    fn syntax(&self) -> (r: &Node) {
        proof {
            use_type_invariant(self);
            assert(Self::accepts(self.0@.kind()));
        }
        &self.0
    }
}

impl RuntimeItem {
    /// Gets the name of the runtime item, which an item of a valid tree has.
    pub fn name(&self) -> (r: Ident)
        requires
            token_children::<Ident>(self.position()).len() > 0,
        ensures
            r.position() == token_children::<Ident>(self.position())[0],
    {
        match token::<Ident>(&self.0) {
            Some(found) => found,
            None => unreached(),
        }
    }

    /// Gets the expression of the runtime item, which an item of a valid tree
    /// has.
    pub fn expr(&self) -> (r: Expr)
        requires
            node_children::<Expr>(self.position()).len() > 0,
        ensures
            r.position() == node_children::<Expr>(self.position())[0],
    {
        match child::<Expr>(&self.0) {
            Some(found) => found,
            None => unreached(),
        }
    }

    /// Consumes the item and casts it to the item that names the container,
    /// which succeeds exactly when it is named so.
    pub fn into_container(self) -> (r: Option<runtime::Container>)
        ensures
            r is Some <==> runtime::is_container(self.position()),
            r is Some ==> r->0.position() == self.position(),
    {
        runtime::Container::from_item(self)
    }
}

/// Represents a metadata section in a task or workflow definition.
#[derive(Debug, PartialEq, Eq)]
pub struct MetadataSection(pub(crate) Node);

impl MetadataSection {
    #[verifier::type_invariant]
    spec fn kinded(self) -> bool {
        self.0@.kind() == SyntaxKind::MetadataSectionNode
    }
}

impl Clone for MetadataSection {
    fn clone(&self) -> (r: Self)
        ensures
            r.position() == self.position(),
    {
        proof {
            use_type_invariant(self);
        }
        Self(self.0.clone())
    }
}

impl AstNode for MetadataSection {
    open spec fn accepts(kind: SyntaxKind) -> bool {
        kind == SyntaxKind::MetadataSectionNode
    }

    closed spec fn position(&self) -> Cursor {
        self.0@
    }

    fn can_cast(kind: SyntaxKind) -> (r: bool) {
        kind == SyntaxKind::MetadataSectionNode
    }

    fn cast(syntax: Node) -> (r: Option<Self>) {
        match syntax.kind() {
            SyntaxKind::MetadataSectionNode => Some(Self(syntax)),
            _ => None,
        }
    }

    fn syntax(&self) -> (r: &Node) {
        proof {
            use_type_invariant(self);
            assert(Self::accepts(self.0@.kind()));
        }
        &self.0
    }
}

impl MetadataSection {
    /// Gets the items of the metadata section.
    pub fn items(&self) -> (r: AstChildren<MetadataObjectItem>)
        ensures
            r.remaining() == node_children::<MetadataObjectItem>(self.position()),
    {
        children(&self.0)
    }

    /// Gets the parent of the metadata section: the task, workflow or struct that
    /// it belongs to, which a section of a valid tree has.
    pub fn parent(&self) -> (r: SectionParent)
        requires
            has_section_parent(self.position()),
        ensures
            r.position() == enclosing_definition(self.position())->0,
            r.holds() == r.position().kind(),
    {
        section_parent(&self.0)
    }
}

/// Represents a metadata object item.
#[derive(Debug, PartialEq, Eq)]
pub struct MetadataObjectItem(pub(crate) Node);

impl MetadataObjectItem {
    #[verifier::type_invariant]
    spec fn kinded(self) -> bool {
        self.0@.kind() == SyntaxKind::MetadataObjectItemNode
    }
}

impl Clone for MetadataObjectItem {
    fn clone(&self) -> (r: Self)
        ensures
            r.position() == self.position(),
    {
        proof {
            use_type_invariant(self);
        }
        Self(self.0.clone())
    }
}

impl AstNode for MetadataObjectItem {
    open spec fn accepts(kind: SyntaxKind) -> bool {
        kind == SyntaxKind::MetadataObjectItemNode
    }

    closed spec fn position(&self) -> Cursor {
        self.0@
    }

    fn can_cast(kind: SyntaxKind) -> (r: bool) {
        kind == SyntaxKind::MetadataObjectItemNode
    }

    fn cast(syntax: Node) -> (r: Option<Self>) {
        match syntax.kind() {
            SyntaxKind::MetadataObjectItemNode => Some(Self(syntax)),
            _ => None,
        }
    }

    fn syntax(&self) -> (r: &Node) {
        proof {
            use_type_invariant(self);
            assert(Self::accepts(self.0@.kind()));
        }
        &self.0
    }
}

impl MetadataObjectItem {
    /// Gets the name of the item, which an item of a valid tree has.
    pub fn name(&self) -> (r: Ident)
        requires
            token_children::<Ident>(self.position()).len() > 0,
        ensures
            r.position() == token_children::<Ident>(self.position())[0],
    {
        match token::<Ident>(&self.0) {
            Some(found) => found,
            None => unreached(),
        }
    }

    /// Gets the value of the item, which an item of a valid tree has.
    pub fn value(&self) -> (r: MetadataValue)
        requires
            node_children::<MetadataValue>(self.position()).len() > 0,
        ensures
            r.position() == node_children::<MetadataValue>(self.position())[0],
    {
        match child::<MetadataValue>(&self.0) {
            Some(found) => found,
            None => unreached(),
        }
    }
}

/// Represents a metadata value.
#[derive(Debug, PartialEq, Eq)]
pub enum MetadataValue {
    /// The value is a literal boolean.
    Boolean(LiteralBoolean),
    /// The value is a literal integer.
    Integer(LiteralInteger),
    /// The value is a literal float.
    Float(LiteralFloat),
    /// The value is a literal string.
    String(LiteralString),
    /// The value is a literal null.
    Null(LiteralNull),
    /// The value is a metadata object.
    Object(MetadataObject),
    /// The value is a metadata array.
    Array(MetadataArray),
}

impl Clone for MetadataValue {
    fn clone(&self) -> (r: Self)
        ensures
            r.position() == self.position(),
            r is Boolean <==> self is Boolean,
            r is Integer <==> self is Integer,
            r is Float <==> self is Float,
            r is String <==> self is String,
            r is Null <==> self is Null,
            r is Object <==> self is Object,
            r is Array <==> self is Array,
    {
        match self {
            Self::Boolean(inner) => Self::Boolean(inner.clone()),
            Self::Integer(inner) => Self::Integer(inner.clone()),
            Self::Float(inner) => Self::Float(inner.clone()),
            Self::String(inner) => Self::String(inner.clone()),
            Self::Null(inner) => Self::Null(inner.clone()),
            Self::Object(inner) => Self::Object(inner.clone()),
            Self::Array(inner) => Self::Array(inner.clone()),
        }
    }
}

impl MetadataValue {
    /// The kind of node that the variant holds.
    pub open spec fn holds(self) -> SyntaxKind {
        match self {
            Self::Boolean(_) => SyntaxKind::LiteralBooleanNode,
            Self::Integer(_) => SyntaxKind::LiteralIntegerNode,
            Self::Float(_) => SyntaxKind::LiteralFloatNode,
            Self::String(_) => SyntaxKind::LiteralStringNode,
            Self::Null(_) => SyntaxKind::LiteralNullNode,
            Self::Object(_) => SyntaxKind::MetadataObjectNode,
            Self::Array(_) => SyntaxKind::MetadataArrayNode,
        }
    }
}

impl AstNode for MetadataValue {
    open spec fn accepts(kind: SyntaxKind) -> bool {
        LiteralBoolean::accepts(kind)
        || LiteralInteger::accepts(kind)
        || LiteralFloat::accepts(kind)
        || LiteralString::accepts(kind)
        || LiteralNull::accepts(kind)
        || MetadataObject::accepts(kind)
        || MetadataArray::accepts(kind)
    }

    open spec fn position(&self) -> Cursor {
        match self {
            Self::Boolean(inner) => inner.position(),
            Self::Integer(inner) => inner.position(),
            Self::Float(inner) => inner.position(),
            Self::String(inner) => inner.position(),
            Self::Null(inner) => inner.position(),
            Self::Object(inner) => inner.position(),
            Self::Array(inner) => inner.position(),
        }
    }

    fn can_cast(kind: SyntaxKind) -> (r: bool) {
        match kind {
            SyntaxKind::LiteralBooleanNode
            | SyntaxKind::LiteralIntegerNode
            | SyntaxKind::LiteralFloatNode
            | SyntaxKind::LiteralStringNode
            | SyntaxKind::LiteralNullNode
            | SyntaxKind::MetadataObjectNode
            | SyntaxKind::MetadataArrayNode => true,
            _ => false,
        }
    }

    fn cast(syntax: Node) -> (r: Option<Self>)
        ensures
            r is Some ==> r->0.holds() == syntax@.kind(),
    {
        match syntax.kind() {
            SyntaxKind::LiteralBooleanNode => match LiteralBoolean::cast(syntax) {
                Some(inner) => Some(Self::Boolean(inner)),
                None => None,
            },
            SyntaxKind::LiteralIntegerNode => match LiteralInteger::cast(syntax) {
                Some(inner) => Some(Self::Integer(inner)),
                None => None,
            },
            SyntaxKind::LiteralFloatNode => match LiteralFloat::cast(syntax) {
                Some(inner) => Some(Self::Float(inner)),
                None => None,
            },
            SyntaxKind::LiteralStringNode => match LiteralString::cast(syntax) {
                Some(inner) => Some(Self::String(inner)),
                None => None,
            },
            SyntaxKind::LiteralNullNode => match LiteralNull::cast(syntax) {
                Some(inner) => Some(Self::Null(inner)),
                None => None,
            },
            SyntaxKind::MetadataObjectNode => match MetadataObject::cast(syntax) {
                Some(inner) => Some(Self::Object(inner)),
                None => None,
            },
            SyntaxKind::MetadataArrayNode => match MetadataArray::cast(syntax) {
                Some(inner) => Some(Self::Array(inner)),
                None => None,
            },
            _ => None,
        }
    }

    fn syntax(&self) -> (r: &Node)
        ensures
            r@.kind() == self.holds(),
    {
        match self {
            Self::Boolean(inner) => inner.syntax(),
            Self::Integer(inner) => inner.syntax(),
            Self::Float(inner) => inner.syntax(),
            Self::String(inner) => inner.syntax(),
            Self::Null(inner) => inner.syntax(),
            Self::Object(inner) => inner.syntax(),
            Self::Array(inner) => inner.syntax(),
        }
    }
}

impl MetadataValue {
    /// Unwraps the value into a boolean, which it must be.
    pub fn unwrap_boolean(self) -> (r: LiteralBoolean)
        requires
            self is Boolean,
        ensures
            r.position() == self.position(),
    {
        match self {
            Self::Boolean(inner) => inner,
            _ => unreached(),
        }
    }

    /// Unwraps the value into an integer, which it must be.
    pub fn unwrap_integer(self) -> (r: LiteralInteger)
        requires
            self is Integer,
        ensures
            r.position() == self.position(),
    {
        match self {
            Self::Integer(inner) => inner,
            _ => unreached(),
        }
    }

    /// Unwraps the value into a float, which it must be.
    pub fn unwrap_float(self) -> (r: LiteralFloat)
        requires
            self is Float,
        ensures
            r.position() == self.position(),
    {
        match self {
            Self::Float(inner) => inner,
            _ => unreached(),
        }
    }

    /// Unwraps the value into a string, which it must be.
    pub fn unwrap_string(self) -> (r: LiteralString)
        requires
            self is String,
        ensures
            r.position() == self.position(),
    {
        match self {
            Self::String(inner) => inner,
            _ => unreached(),
        }
    }

    /// Unwraps the value into a null, which it must be.
    pub fn unwrap_null(self) -> (r: LiteralNull)
        requires
            self is Null,
        ensures
            r.position() == self.position(),
    {
        match self {
            Self::Null(inner) => inner,
            _ => unreached(),
        }
    }

    /// Unwraps the value into an object, which it must be.
    pub fn unwrap_object(self) -> (r: MetadataObject)
        requires
            self is Object,
        ensures
            r.position() == self.position(),
    {
        match self {
            Self::Object(inner) => inner,
            _ => unreached(),
        }
    }

    /// Unwraps the value into an array, which it must be.
    pub fn unwrap_array(self) -> (r: MetadataArray)
        requires
            self is Array,
        ensures
            r.position() == self.position(),
    {
        match self {
            Self::Array(inner) => inner,
            _ => unreached(),
        }
    }
}

/// Represents a literal null.
#[derive(Debug, PartialEq, Eq)]
pub struct LiteralNull(Node);

impl LiteralNull {
    #[verifier::type_invariant]
    spec fn kinded(self) -> bool {
        self.0@.kind() == SyntaxKind::LiteralNullNode
    }
}

impl Clone for LiteralNull {
    fn clone(&self) -> (r: Self)
        ensures
            r.position() == self.position(),
    {
        proof {
            use_type_invariant(self);
        }
        Self(self.0.clone())
    }
}

impl AstNode for LiteralNull {
    open spec fn accepts(kind: SyntaxKind) -> bool {
        kind == SyntaxKind::LiteralNullNode
    }

    closed spec fn position(&self) -> Cursor {
        self.0@
    }

    fn can_cast(kind: SyntaxKind) -> (r: bool) {
        kind == SyntaxKind::LiteralNullNode
    }

    fn cast(syntax: Node) -> (r: Option<Self>) {
        match syntax.kind() {
            SyntaxKind::LiteralNullNode => Some(Self(syntax)),
            _ => None,
        }
    }

    fn syntax(&self) -> (r: &Node) {
        proof {
            use_type_invariant(self);
            assert(Self::accepts(self.0@.kind()));
        }
        &self.0
    }
}

/// Represents a metadata object.
#[derive(Debug, PartialEq, Eq)]
pub struct MetadataObject(pub(crate) Node);

impl MetadataObject {
    #[verifier::type_invariant]
    spec fn kinded(self) -> bool {
        self.0@.kind() == SyntaxKind::MetadataObjectNode
    }
}

impl Clone for MetadataObject {
    fn clone(&self) -> (r: Self)
        ensures
            r.position() == self.position(),
    {
        proof {
            use_type_invariant(self);
        }
        Self(self.0.clone())
    }
}

impl AstNode for MetadataObject {
    open spec fn accepts(kind: SyntaxKind) -> bool {
        kind == SyntaxKind::MetadataObjectNode
    }

    closed spec fn position(&self) -> Cursor {
        self.0@
    }

    fn can_cast(kind: SyntaxKind) -> (r: bool) {
        kind == SyntaxKind::MetadataObjectNode
    }

    fn cast(syntax: Node) -> (r: Option<Self>) {
        match syntax.kind() {
            SyntaxKind::MetadataObjectNode => Some(Self(syntax)),
            _ => None,
        }
    }

    fn syntax(&self) -> (r: &Node) {
        proof {
            use_type_invariant(self);
            assert(Self::accepts(self.0@.kind()));
        }
        &self.0
    }
}

impl MetadataObject {
    /// Gets the items of the metadata object.
    pub fn items(&self) -> (r: AstChildren<MetadataObjectItem>)
        ensures
            r.remaining() == node_children::<MetadataObjectItem>(self.position()),
    {
        children(&self.0)
    }
}

/// Represents a metadata array.
#[derive(Debug, PartialEq, Eq)]
pub struct MetadataArray(pub(crate) Node);

impl MetadataArray {
    #[verifier::type_invariant]
    spec fn kinded(self) -> bool {
        self.0@.kind() == SyntaxKind::MetadataArrayNode
    }
}

impl Clone for MetadataArray {
    fn clone(&self) -> (r: Self)
        ensures
            r.position() == self.position(),
    {
        proof {
            use_type_invariant(self);
        }
        Self(self.0.clone())
    }
}

impl AstNode for MetadataArray {
    open spec fn accepts(kind: SyntaxKind) -> bool {
        kind == SyntaxKind::MetadataArrayNode
    }

    closed spec fn position(&self) -> Cursor {
        self.0@
    }

    fn can_cast(kind: SyntaxKind) -> (r: bool) {
        kind == SyntaxKind::MetadataArrayNode
    }

    fn cast(syntax: Node) -> (r: Option<Self>) {
        match syntax.kind() {
            SyntaxKind::MetadataArrayNode => Some(Self(syntax)),
            _ => None,
        }
    }

    fn syntax(&self) -> (r: &Node) {
        proof {
            use_type_invariant(self);
            assert(Self::accepts(self.0@.kind()));
        }
        &self.0
    }
}

impl MetadataArray {
    /// Gets the elements of the metadata array.
    pub fn elements(&self) -> (r: AstChildren<MetadataValue>)
        ensures
            r.remaining() == node_children::<MetadataValue>(self.position()),
    {
        children(&self.0)
    }
}

/// Represents a parameter metadata section in a task or workflow definition.
#[derive(Debug, PartialEq, Eq)]
pub struct ParameterMetadataSection(pub(crate) Node);

impl ParameterMetadataSection {
    #[verifier::type_invariant]
    spec fn kinded(self) -> bool {
        self.0@.kind() == SyntaxKind::ParameterMetadataSectionNode
    }
}

impl Clone for ParameterMetadataSection {
    fn clone(&self) -> (r: Self)
        ensures
            r.position() == self.position(),
    {
        proof {
            use_type_invariant(self);
        }
        Self(self.0.clone())
    }
}

impl AstNode for ParameterMetadataSection {
    open spec fn accepts(kind: SyntaxKind) -> bool {
        kind == SyntaxKind::ParameterMetadataSectionNode
    }

    closed spec fn position(&self) -> Cursor {
        self.0@
    }

    fn can_cast(kind: SyntaxKind) -> (r: bool) {
        kind == SyntaxKind::ParameterMetadataSectionNode
    }

    fn cast(syntax: Node) -> (r: Option<Self>) {
        match syntax.kind() {
            SyntaxKind::ParameterMetadataSectionNode => Some(Self(syntax)),
            _ => None,
        }
    }

    fn syntax(&self) -> (r: &Node) {
        proof {
            use_type_invariant(self);
            assert(Self::accepts(self.0@.kind()));
        }
        &self.0
    }
}

impl ParameterMetadataSection {
    /// Gets the items of the parameter metadata section.
    pub fn items(&self) -> (r: AstChildren<MetadataObjectItem>)
        ensures
            r.remaining() == node_children::<MetadataObjectItem>(self.position()),
    {
        children(&self.0)
    }

    /// Gets the parent of the parameter metadata section: the task, workflow or struct that
    /// it belongs to, which a section of a valid tree has.
    pub fn parent(&self) -> (r: SectionParent)
        requires
            has_section_parent(self.position()),
        ensures
            r.position() == enclosing_definition(self.position())->0,
            r.holds() == r.position().kind(),
    {
        section_parent(&self.0)
    }
}

} // verus!
