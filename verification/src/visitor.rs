//! The traversal of a document.
//!
//! A walk is one depth-first pass over the tree in source order. Its meaning
//! is a sequence of events: a node that is a recognised concept is entered,
//! then its children are walked, then it is exited; a token that is a
//! recognised concept is visited once; everything else is passed over, though
//! the walk still descends into it. A visitor is told of the events one by
//! one, and what it and the caller's state become is the chain of its
//! reactions along that sequence.

use vstd::prelude::*;
use vstd::pervasive::unreached;
use crate::ast::AstNode;
use crate::ast::AstToken;
use crate::document::Document;
use crate::document::SupportedVersion;
use crate::document::version_at;
use crate::kind::SyntaxKind;
use crate::syntax::Element;
use crate::syntax::Node;
use crate::syntax::Token;
use crate::tree::Cursor;
use crate::tree::Tree;
use crate::tree::lemma_child;
use crate::v1::decl::BoundDecl;
use crate::v1::decl::StructDefinition;
use crate::v1::decl::UnboundDecl;
use crate::v1::expr::Expr;
use crate::v1::expr::StringText;
use crate::v1::task::CommandSection;
use crate::v1::task::CommandText;
use crate::v1::task::HintsSection;
use crate::v1::task::InputSection;
use crate::v1::task::MetadataObject;
use crate::v1::task::MetadataSection;
use crate::v1::task::OutputSection;
use crate::v1::task::ParameterMetadataSection;
use crate::v1::task::RequirementsSection;
use crate::v1::task::RuntimeSection;
use crate::v1::task::TaskDefinition;
use crate::v1::workflow::WorkflowDefinition;

verus! {

/// The reason for which a visitor is told of a node.
#[derive(Clone, Copy, Debug, PartialEq, Eq, Structural)]
pub enum VisitReason {
    /// The walk has reached the node and has not visited its children yet.
    Enter,
    /// The walk has visited the children of the node and leaves it.
    Exit,
}

/// The grammar concepts that a visitor is told of.
#[derive(Clone, Copy, Debug, PartialEq, Eq, Structural)]
pub enum Concept {
    /// A document, with the version that it declares.
    Document(SupportedVersion),
    /// A struct definition.
    StructDefinition,
    /// A task definition.
    TaskDefinition,
    /// A workflow definition.
    WorkflowDefinition,
    /// An input section.
    InputSection,
    /// An output section.
    OutputSection,
    /// A command section.
    CommandSection,
    /// A requirements section.
    RequirementsSection,
    /// A hints section.
    HintsSection,
    /// A runtime section.
    RuntimeSection,
    /// A metadata section.
    MetadataSection,
    /// A parameter metadata section.
    ParameterMetadataSection,
    /// A metadata object.
    MetadataObject,
    /// A declaration without an expression.
    UnboundDecl,
    /// A declaration with an expression.
    BoundDecl,
    /// An expression.
    Expr,
    /// The literal text of a command.
    CommandText,
    /// The literal text of a string.
    StringText,
}

/// One step of a walk, as a visitor is told of it.
pub struct Event {
    /// The reason for a node; a token is visited once and has none.
    pub reason: Option<VisitReason>,
    /// The concept that the element is.
    pub concept: Concept,
    /// The position of the element.
    pub at: Cursor,
}

impl Event {
    /// The event of entering or exiting a node.
    pub open spec fn node(reason: VisitReason, concept: Concept, at: Cursor) -> Event {
        Event { reason: Some(reason), concept, at }
    }

    /// The event of visiting a token.
    pub open spec fn token(concept: Concept, at: Cursor) -> Event {
        Event { reason: None, concept, at }
    }
}

/// The concept that a node of the given kind is, if it is one that a
/// visitor is told of, in a walk over a document of the given version.
pub open spec fn node_concept(kind: SyntaxKind, version: SupportedVersion) -> Option<Concept> {
    if kind == SyntaxKind::RootNode {
        Some(Concept::Document(version))
    } else if kind == SyntaxKind::StructDefinitionNode {
        Some(Concept::StructDefinition)
    } else if kind == SyntaxKind::TaskDefinitionNode {
        Some(Concept::TaskDefinition)
    } else if kind == SyntaxKind::WorkflowDefinitionNode {
        Some(Concept::WorkflowDefinition)
    } else if kind == SyntaxKind::InputSectionNode {
        Some(Concept::InputSection)
    } else if kind == SyntaxKind::OutputSectionNode {
        Some(Concept::OutputSection)
    } else if kind == SyntaxKind::CommandSectionNode {
        Some(Concept::CommandSection)
    } else if kind == SyntaxKind::RequirementsSectionNode {
        Some(Concept::RequirementsSection)
    } else if kind == SyntaxKind::HintsSectionNode {
        Some(Concept::HintsSection)
    } else if kind == SyntaxKind::RuntimeSectionNode {
        Some(Concept::RuntimeSection)
    } else if kind == SyntaxKind::MetadataSectionNode {
        Some(Concept::MetadataSection)
    } else if kind == SyntaxKind::ParameterMetadataSectionNode {
        Some(Concept::ParameterMetadataSection)
    } else if kind == SyntaxKind::MetadataObjectNode {
        Some(Concept::MetadataObject)
    } else if kind == SyntaxKind::UnboundDeclNode {
        Some(Concept::UnboundDecl)
    } else if kind == SyntaxKind::BoundDeclNode {
        Some(Concept::BoundDecl)
    } else if Expr::accepts(kind) {
        Some(Concept::Expr)
    } else {
        None
    }
}

/// The concept that a token of the given kind is, if it is one that a
/// visitor is told of.
pub open spec fn token_concept(kind: SyntaxKind) -> Option<Concept> {
    if kind == SyntaxKind::LiteralCommandText {
        Some(Concept::CommandText)
    } else if kind == SyntaxKind::LiteralStringText {
        Some(Concept::StringText)
    } else {
        None
    }
}

/// The events of a walk over `tree`, which stands at `path` in `root`.
pub open spec fn events(root: Tree, path: Seq<int>, tree: Tree, version: SupportedVersion) -> Seq<
    Event,
>
    decreases tree, 0nat,
{
    let at = Cursor { root, path };
    let kind = SyntaxKind::of_raw(tree.kind());
    match tree {
        Tree::Token { .. } => match token_concept(kind) {
            Some(concept) => seq![Event::token(concept, at)],
            None => Seq::empty(),
        },
        Tree::Node { children, .. } => {
            let inner = events_of_first(root, path, children, children.len(), version);
            match node_concept(kind, version) {
                Some(concept) => seq![Event::node(VisitReason::Enter, concept, at)] + inner
                    + seq![Event::node(VisitReason::Exit, concept, at)],
                None => inner,
            }
        },
    }
}

/// The events of the walks over the first `n` of the children of the node at
/// `path`, one walk after the other.
pub open spec fn events_of_first(
    root: Tree,
    path: Seq<int>,
    children: Seq<Tree>,
    n: nat,
    version: SupportedVersion,
) -> Seq<Event>
    decreases children, n,
{
    if n == 0 || n > children.len() {
        Seq::empty()
    } else {
        events_of_first(root, path, children, (n - 1) as nat, version) + events(
            root,
            path.push(n - 1),
            children[n - 1],
            version,
        )
    }
}

/// The events of a walk over the element at `at`.
pub open spec fn events_at(at: Cursor, version: SupportedVersion) -> Seq<Event> {
    events(at.root, at.path, at.tree(), version)
}

/// The number of the given events that have the given reason.
pub open spec fn count_reason(events: Seq<Event>, reason: VisitReason) -> nat
    decreases events.len(),
{
    if events.len() == 0 {
        0
    } else {
        count_reason(events.drop_last(), reason) + if events.last().reason == Some(reason) {
            1nat
        } else {
            0nat
        }
    }
}

/// The events of one run followed by another are counted by adding.
pub proof fn lemma_count_append(first: Seq<Event>, second: Seq<Event>, reason: VisitReason)
    ensures
        count_reason(first + second, reason) == count_reason(first, reason) + count_reason(
            second,
            reason,
        ),
    decreases second.len(),
{
    if second.len() == 0 {
        assert(first + second =~= first);
    } else {
        lemma_count_append(first, second.drop_last(), reason);
        assert((first + second).drop_last() =~= first + second.drop_last());
        assert((first + second).last() == second.last());
    }
}

/// One event is counted once if it has the reason, else not at all.
pub proof fn lemma_count_one(event: Event, reason: VisitReason)
    ensures
        count_reason(seq![event], reason) == if event.reason == Some(reason) {
            1nat
        } else {
            0nat
        },
        count_reason(Seq::<Event>::empty(), reason) == 0,
{
    assert(seq![event].drop_last() =~= Seq::<Event>::empty());
    assert(count_reason(seq![event].drop_last(), reason) == 0);
    assert(seq![event].last() == event);
}

/// A walk is balanced: it exits as many nodes as it enters.
pub proof fn lemma_walk_balanced(
    root: Tree,
    path: Seq<int>,
    tree: Tree,
    version: SupportedVersion,
)
    ensures
        count_reason(events(root, path, tree, version), VisitReason::Enter) == count_reason(
            events(root, path, tree, version),
            VisitReason::Exit,
        ),
    decreases tree, 0nat,
{
    let at = Cursor { root, path };
    let kind = SyntaxKind::of_raw(tree.kind());
    match tree {
        Tree::Token { .. } => {
            if token_concept(kind) is Some {
                let only = Event::token(token_concept(kind)->0, at);
                lemma_count_one(only, VisitReason::Enter);
                lemma_count_one(only, VisitReason::Exit);
            }
        },
        Tree::Node { children, .. } => {
            let inner = events_of_first(root, path, children, children.len(), version);
            lemma_walks_balanced(root, path, children, children.len(), version);
            if node_concept(kind, version) is Some {
                let concept = node_concept(kind, version)->0;
                let head = seq![Event::node(VisitReason::Enter, concept, at)];
                let tail = seq![Event::node(VisitReason::Exit, concept, at)];
                lemma_count_one(head[0], VisitReason::Enter);
                lemma_count_one(head[0], VisitReason::Exit);
                lemma_count_one(tail[0], VisitReason::Enter);
                lemma_count_one(tail[0], VisitReason::Exit);
                lemma_count_append(head, inner, VisitReason::Enter);
                lemma_count_append(head, inner, VisitReason::Exit);
                lemma_count_append(head + inner, tail, VisitReason::Enter);
                lemma_count_append(head + inner, tail, VisitReason::Exit);
            }
        },
    }
}

/// The walks over the first children of a node are balanced together.
pub proof fn lemma_walks_balanced(
    root: Tree,
    path: Seq<int>,
    children: Seq<Tree>,
    n: nat,
    version: SupportedVersion,
)
    ensures
        count_reason(events_of_first(root, path, children, n, version), VisitReason::Enter)
            == count_reason(
            events_of_first(root, path, children, n, version),
            VisitReason::Exit,
        ),
    decreases children, n,
{
    if n == 0 || n > children.len() {
    } else {
        let before = events_of_first(root, path, children, (n - 1) as nat, version);
        let step = events(root, path.push(n - 1), children[n - 1], version);
        lemma_walks_balanced(root, path, children, (n - 1) as nat, version);
        lemma_walk_balanced(root, path.push(n - 1), children[n - 1], version);
        lemma_count_append(before, step, VisitReason::Enter);
        lemma_count_append(before, step, VisitReason::Exit);
    }
}

/// A consumer of the events of a walk, which threads a state of the
/// caller's through them.
pub trait Visitor: Sized {
    /// The state of the caller's that is handed to every callback.
    type State;

    /// Whether the visitor and the state may become `next` and
    /// `next_state` when the visitor is told of an event.
    spec fn reacts(
        self,
        state: Self::State,
        event: Event,
        next: Self,
        next_state: Self::State,
    ) -> bool;

    /// Visits a document, with the version that it declares.
    fn document(
        &mut self,
        state: &mut Self::State,
        reason: VisitReason,
        document: &Document,
        version: SupportedVersion,
    )
        ensures
            (*old(self)).reacts(
                *old(state),
                Event::node(reason, Concept::Document(version), document.position()),
                *final(self),
                *final(state),
            ),
    ;

    /// Visits a struct definition.
    fn struct_definition(
        &mut self,
        state: &mut Self::State,
        reason: VisitReason,
        node: &StructDefinition,
    )
        ensures
            (*old(self)).reacts(
                *old(state),
                Event::node(reason, Concept::StructDefinition, node.position()),
                *final(self),
                *final(state),
            ),
    ;

    /// Visits a task definition.
    fn task_definition(
        &mut self,
        state: &mut Self::State,
        reason: VisitReason,
        node: &TaskDefinition,
    )
        ensures
            (*old(self)).reacts(
                *old(state),
                Event::node(reason, Concept::TaskDefinition, node.position()),
                *final(self),
                *final(state),
            ),
    ;

    /// Visits a workflow definition.
    fn workflow_definition(
        &mut self,
        state: &mut Self::State,
        reason: VisitReason,
        node: &WorkflowDefinition,
    )
        ensures
            (*old(self)).reacts(
                *old(state),
                Event::node(reason, Concept::WorkflowDefinition, node.position()),
                *final(self),
                *final(state),
            ),
    ;

    /// Visits an input section.
    fn input_section(
        &mut self,
        state: &mut Self::State,
        reason: VisitReason,
        node: &InputSection,
    )
        ensures
            (*old(self)).reacts(
                *old(state),
                Event::node(reason, Concept::InputSection, node.position()),
                *final(self),
                *final(state),
            ),
    ;

    /// Visits an output section.
    fn output_section(
        &mut self,
        state: &mut Self::State,
        reason: VisitReason,
        node: &OutputSection,
    )
        ensures
            (*old(self)).reacts(
                *old(state),
                Event::node(reason, Concept::OutputSection, node.position()),
                *final(self),
                *final(state),
            ),
    ;

    /// Visits a command section.
    fn command_section(
        &mut self,
        state: &mut Self::State,
        reason: VisitReason,
        node: &CommandSection,
    )
        ensures
            (*old(self)).reacts(
                *old(state),
                Event::node(reason, Concept::CommandSection, node.position()),
                *final(self),
                *final(state),
            ),
    ;

    /// Visits a requirements section.
    fn requirements_section(
        &mut self,
        state: &mut Self::State,
        reason: VisitReason,
        node: &RequirementsSection,
    )
        ensures
            (*old(self)).reacts(
                *old(state),
                Event::node(reason, Concept::RequirementsSection, node.position()),
                *final(self),
                *final(state),
            ),
    ;

    /// Visits a hints section.
    fn hints_section(
        &mut self,
        state: &mut Self::State,
        reason: VisitReason,
        node: &HintsSection,
    )
        ensures
            (*old(self)).reacts(
                *old(state),
                Event::node(reason, Concept::HintsSection, node.position()),
                *final(self),
                *final(state),
            ),
    ;

    /// Visits a runtime section.
    fn runtime_section(
        &mut self,
        state: &mut Self::State,
        reason: VisitReason,
        node: &RuntimeSection,
    )
        ensures
            (*old(self)).reacts(
                *old(state),
                Event::node(reason, Concept::RuntimeSection, node.position()),
                *final(self),
                *final(state),
            ),
    ;

    /// Visits a metadata section.
    fn metadata_section(
        &mut self,
        state: &mut Self::State,
        reason: VisitReason,
        node: &MetadataSection,
    )
        ensures
            (*old(self)).reacts(
                *old(state),
                Event::node(reason, Concept::MetadataSection, node.position()),
                *final(self),
                *final(state),
            ),
    ;

    /// Visits a parameter metadata section.
    fn parameter_metadata_section(
        &mut self,
        state: &mut Self::State,
        reason: VisitReason,
        node: &ParameterMetadataSection,
    )
        ensures
            (*old(self)).reacts(
                *old(state),
                Event::node(reason, Concept::ParameterMetadataSection, node.position()),
                *final(self),
                *final(state),
            ),
    ;

    /// Visits a metadata object.
    fn metadata_object(
        &mut self,
        state: &mut Self::State,
        reason: VisitReason,
        node: &MetadataObject,
    )
        ensures
            (*old(self)).reacts(
                *old(state),
                Event::node(reason, Concept::MetadataObject, node.position()),
                *final(self),
                *final(state),
            ),
    ;

    /// Visits a declaration without an expression.
    fn unbound_decl(
        &mut self,
        state: &mut Self::State,
        reason: VisitReason,
        node: &UnboundDecl,
    )
        ensures
            (*old(self)).reacts(
                *old(state),
                Event::node(reason, Concept::UnboundDecl, node.position()),
                *final(self),
                *final(state),
            ),
    ;

    /// Visits a declaration with an expression.
    fn bound_decl(
        &mut self,
        state: &mut Self::State,
        reason: VisitReason,
        node: &BoundDecl,
    )
        ensures
            (*old(self)).reacts(
                *old(state),
                Event::node(reason, Concept::BoundDecl, node.position()),
                *final(self),
                *final(state),
            ),
    ;

    /// Visits an expression.
    fn expr(
        &mut self,
        state: &mut Self::State,
        reason: VisitReason,
        node: &Expr,
    )
        ensures
            (*old(self)).reacts(
                *old(state),
                Event::node(reason, Concept::Expr, node.position()),
                *final(self),
                *final(state),
            ),
    ;

    /// Visits the literal text of a command.
    fn command_text(&mut self, state: &mut Self::State, token: &CommandText)
        ensures
            (*old(self)).reacts(
                *old(state),
                Event::token(Concept::CommandText, token.position()),
                *final(self),
                *final(state),
            ),
    ;

    /// Visits the literal text of a string.
    fn string_text(&mut self, state: &mut Self::State, token: &StringText)
        ensures
            (*old(self)).reacts(
                *old(state),
                Event::token(Concept::StringText, token.position()),
                *final(self),
                *final(state),
            ),
    ;
}

/// Whether a visitor and a state may become `last` and `last_state` when the
/// visitor is told of the given events in turn.
pub open spec fn replays<V: Visitor>(
    visitor: V,
    state: V::State,
    events: Seq<Event>,
    last: V,
    last_state: V::State,
) -> bool
    decreases events.len(),
{
    if events.len() == 0 {
        last == visitor && last_state == state
    } else {
        exists|mid: V, mid_state: V::State|
            replays(visitor, state, events.drop_last(), mid, mid_state) && #[trigger] mid.reacts(
                mid_state,
                events.last(),
                last,
                last_state,
            )
    }
}

/// Telling of two runs of events in turn is telling of their concatenation.
pub proof fn lemma_replays_append<V: Visitor>(
    visitor: V,
    state: V::State,
    first: Seq<Event>,
    mid: V,
    mid_state: V::State,
    second: Seq<Event>,
    last: V,
    last_state: V::State,
)
    requires
        replays(visitor, state, first, mid, mid_state),
        replays(mid, mid_state, second, last, last_state),
    ensures
        replays(visitor, state, first + second, last, last_state),
    decreases second.len(),
{
    if second.len() == 0 {
        assert(first + second =~= first);
    } else {
        let (before, before_state) = choose|before: V, before_state: V::State|
            replays(mid, mid_state, second.drop_last(), before, before_state)
                && #[trigger] before.reacts(before_state, second.last(), last, last_state);
        lemma_replays_append(
            visitor,
            state,
            first,
            mid,
            mid_state,
            second.drop_last(),
            before,
            before_state,
        );
        assert((first + second).drop_last() =~= first + second.drop_last());
        assert((first + second).last() == second.last());
    }
}

/// Telling of one event is one reaction.
pub proof fn lemma_replays_one<V: Visitor>(
    visitor: V,
    state: V::State,
    event: Event,
    last: V,
    last_state: V::State,
)
    requires
        visitor.reacts(state, event, last, last_state),
    ensures
        replays(visitor, state, seq![event], last, last_state),
{
    assert(seq![event].drop_last() =~= Seq::<Event>::empty());
    assert(replays(visitor, state, seq![event].drop_last(), visitor, state));
    assert(seq![event].last() == event);
}

/// Tells the visitor that the walk enters or exits `node`, where the node is
/// a concept that a visitor is told of.
fn notify<V: Visitor>(
    node: &Node,
    reason: VisitReason,
    version: SupportedVersion,
    state: &mut V::State,
    visitor: &mut V,
)
    ensures
        match node_concept(node@.kind(), version) {
            Some(concept) => (*old(visitor)).reacts(
                *old(state),
                Event::node(reason, concept, node@),
                *final(visitor),
                *final(state),
            ),
            None => *final(visitor) == *old(visitor) && *final(state) == *old(state),
        },
{
    let kind = node.kind();
    match kind {
        SyntaxKind::RootNode => match Document::cast(node.clone()) {
            Some(typed) => visitor.document(state, reason, &typed, version),
            None => {},
        },
        SyntaxKind::StructDefinitionNode => match StructDefinition::cast(node.clone()) {
            Some(typed) => visitor.struct_definition(state, reason, &typed),
            None => {},
        },
        SyntaxKind::TaskDefinitionNode => match TaskDefinition::cast(node.clone()) {
            Some(typed) => visitor.task_definition(state, reason, &typed),
            None => {},
        },
        SyntaxKind::WorkflowDefinitionNode => match WorkflowDefinition::cast(node.clone()) {
            Some(typed) => visitor.workflow_definition(state, reason, &typed),
            None => {},
        },
        SyntaxKind::InputSectionNode => match InputSection::cast(node.clone()) {
            Some(typed) => visitor.input_section(state, reason, &typed),
            None => {},
        },
        SyntaxKind::OutputSectionNode => match OutputSection::cast(node.clone()) {
            Some(typed) => visitor.output_section(state, reason, &typed),
            None => {},
        },
        SyntaxKind::CommandSectionNode => match CommandSection::cast(node.clone()) {
            Some(typed) => visitor.command_section(state, reason, &typed),
            None => {},
        },
        SyntaxKind::RequirementsSectionNode => match RequirementsSection::cast(node.clone()) {
            Some(typed) => visitor.requirements_section(state, reason, &typed),
            None => {},
        },
        SyntaxKind::HintsSectionNode => match HintsSection::cast(node.clone()) {
            Some(typed) => visitor.hints_section(state, reason, &typed),
            None => {},
        },
        SyntaxKind::RuntimeSectionNode => match RuntimeSection::cast(node.clone()) {
            Some(typed) => visitor.runtime_section(state, reason, &typed),
            None => {},
        },
        SyntaxKind::MetadataSectionNode => match MetadataSection::cast(node.clone()) {
            Some(typed) => visitor.metadata_section(state, reason, &typed),
            None => {},
        },
        SyntaxKind::ParameterMetadataSectionNode => match ParameterMetadataSection::cast(node.clone()) {
            Some(typed) => visitor.parameter_metadata_section(state, reason, &typed),
            None => {},
        },
        SyntaxKind::MetadataObjectNode => match MetadataObject::cast(node.clone()) {
            Some(typed) => visitor.metadata_object(state, reason, &typed),
            None => {},
        },
        SyntaxKind::UnboundDeclNode => match UnboundDecl::cast(node.clone()) {
            Some(typed) => visitor.unbound_decl(state, reason, &typed),
            None => {},
        },
        SyntaxKind::BoundDeclNode => match BoundDecl::cast(node.clone()) {
            Some(typed) => visitor.bound_decl(state, reason, &typed),
            None => {},
        },
        _ => if Expr::can_cast(kind) {
            match Expr::cast(node.clone()) {
                Some(typed) => visitor.expr(state, reason, &typed),
                None => {},
            }
        },
    }
}

/// Tells the visitor of `token`, where the token is a concept that a
/// visitor is told of.
fn notify_token<V: Visitor>(token: &Token, state: &mut V::State, visitor: &mut V)
    ensures
        match token_concept(token@.kind()) {
            Some(concept) => (*old(visitor)).reacts(
                *old(state),
                Event::token(concept, token@),
                *final(visitor),
                *final(state),
            ),
            None => *final(visitor) == *old(visitor) && *final(state) == *old(state),
        },
{
    match token.kind() {
        SyntaxKind::LiteralCommandText => match CommandText::cast(token.clone()) {
            Some(typed) => visitor.command_text(state, &typed),
            None => {},
        },
        SyntaxKind::LiteralStringText => match StringText::cast(token.clone()) {
            Some(typed) => visitor.string_text(state, &typed),
            None => {},
        },
        _ => {},
    }
}

/// Walks the tree under `node` and tells the visitor of every event.
fn walk<V: Visitor>(
    node: &Node,
    version: SupportedVersion,
    state: &mut V::State,
    visitor: &mut V,
)
    ensures
        replays(
            *old(visitor),
            *old(state),
            events_at(node@, version),
            *final(visitor),
            *final(state),
        ),
    decreases node@.tree(),
{
    let ghost at = node@;
    let ghost start = (*visitor, *state);
    let kind = node.kind();
    let ghost children = at.tree().children();
    let ghost concept = node_concept(at.kind(), version);
    let ghost head: Seq<Event> = match concept {
        Some(concept) => seq![Event::node(VisitReason::Enter, concept, at)],
        None => Seq::empty(),
    };
    let ghost tail: Seq<Event> = match concept {
        Some(concept) => seq![Event::node(VisitReason::Exit, concept, at)],
        None => Seq::empty(),
    };
    notify(node, VisitReason::Enter, version, state, visitor);
    proof {
        if concept is Some {
            lemma_replays_one(start.0, start.1, head[0], *visitor, *state);
        }
        assert(head + events_of_first(at.root, at.path, children, 0, version) =~= head);
    }
    let ghost mut k: nat = 0;
    let mut next = node.first_child_or_token();
    loop
        invariant_except_break
            at == node@,
            at.tree() is Node,
            children == at.tree().children(),
            k <= children.len(),
            next is None <==> k == children.len(),
            next is Some ==> next->0.stands_at(at.child(k as int)),
            replays(
                start.0,
                start.1,
                head + events_of_first(at.root, at.path, children, k, version),
                *visitor,
                *state,
            ),
        ensures
            replays(
                start.0,
                start.1,
                head + events_of_first(at.root, at.path, children, children.len(), version),
                *visitor,
                *state,
            ),
        decreases children.len() - k,
    {
        match next {
            None => {
                break;
            },
            Some(element) => {
                let ghost before = (*visitor, *state);
                let ghost done = head + events_of_first(at.root, at.path, children, k, version);
                let ghost step = events(at.root, at.path.push(k as int), children[k as int], version);
                proof {
                    lemma_child(at, k as int);
                    assert(element@ == at.child(k as int));
                    assert(events_at(element@, version) == step);
                }
                match &element {
                    Element::Node(inner) => {
                        walk(inner, version, state, visitor);
                    },
                    Element::Token(token) => {
                        let ghost found = token_concept(token@.kind());
                        notify_token(token, state, visitor);
                        proof {
                            if found is Some {
                                lemma_replays_one(before.0, before.1, step[0], *visitor, *state);
                            }
                        }
                    },
                }
                proof {
                    assert(replays(before.0, before.1, step, *visitor, *state));
                    lemma_replays_append(
                        start.0,
                        start.1,
                        done,
                        before.0,
                        before.1,
                        step,
                        *visitor,
                        *state,
                    );
                    assert(head + events_of_first(
                        at.root,
                        at.path,
                        children,
                        k + 1,
                        version,
                    ) =~= done + step);
                }
                next = element.next_sibling_or_token();
                proof {
                    k = k + 1;
                }
            },
        }
    }
    let ghost inner = events_of_first(at.root, at.path, children, children.len(), version);
    let ghost before = (*visitor, *state);
    notify(node, VisitReason::Exit, version, state, visitor);
    proof {
        if concept is Some {
            lemma_replays_one(before.0, before.1, tail[0], *visitor, *state);
            lemma_replays_append(
                start.0,
                start.1,
                head + inner,
                before.0,
                before.1,
                tail,
                *visitor,
                *state,
            );
            assert(events_at(at, version) =~= head + inner + tail);
        } else {
            assert(events_at(at, version) =~= head + inner);
        }
    }
}

impl Document {
    /// Walks the document once, depth first and in source order, and tells
    /// the visitor of every event. The document must declare a supported
    /// version.
    pub fn visit<V: Visitor>(&self, state: &mut V::State, visitor: &mut V)
        requires
            version_at(self.position()) is Some,
        ensures
            replays(
                *old(visitor),
                *old(state),
                events_at(self.position(), version_at(self.position())->0),
                *final(visitor),
                *final(state),
            ),
    {
        match self.version() {
            Some(version) => walk(self.syntax(), version, state, visitor),
            None => unreached(),
        }
    }
}

} // verus!
