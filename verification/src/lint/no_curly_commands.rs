//! A lint rule for ensuring no curly commands are used.

use vstd::prelude::*;
use vstd::string::StringExecFns;
use crate::ast::AstNode;
use crate::ast::token_of_kind;
use crate::ast::tokens_of_kind;
use crate::diagnostic::Diagnostic;
use crate::diagnostic::DiagnosticView;
use crate::diagnostic::Diagnostics;
use crate::diagnostic::Severity;
use crate::document::Document;
use crate::document::SupportedVersion;
use crate::document::version_at;
use crate::kind::SyntaxKind;
use crate::lint::Rule;
use crate::lint::Tag;
use crate::lint::TagSet;
use crate::syntax::Span;
use crate::tree::Cursor;
use crate::v1::decl::BoundDecl;
use crate::v1::decl::StructDefinition;
use crate::v1::decl::UnboundDecl;
use crate::v1::expr::Expr;
use crate::v1::expr::StringText;
use crate::v1::task::CommandSection;
use crate::v1::task::CommandText;
use crate::v1::task::HintsSection;
use crate::v1::task::InputSection;
use crate::v1::task::MetadataObject;
use crate::v1::task::MetadataSection;
use crate::v1::task::OutputSection;
use crate::v1::task::ParameterMetadataSection;
use crate::v1::task::RequirementsSection;
use crate::v1::task::RuntimeSection;
use crate::v1::task::TaskDefinition;
use crate::v1::workflow::WorkflowDefinition;
use crate::visitor::Concept;
use crate::visitor::Event;
use crate::visitor::VisitReason;
use crate::visitor::Visitor;
use crate::visitor::events_at;
use crate::visitor::replays;

verus! {

/// The identifier for the no curly commands rule.
const ID: &'static str = "NoCurlyCommands";

/// What the "curly commands" diagnostic says of a task of the given name
/// whose `command` keyword covers the given range.
pub open spec fn curly_commands_view(task: Seq<char>, span: Span) -> DiagnosticView {
    DiagnosticView::bare(
        Severity::Warning,
        "task `"@ + task + "` uses curly braces in command section"@,
    ).with_rule("NoCurlyCommands"@).with_label(
        "this command section uses curly braces"@,
        span,
    ).with_fix("instead of curly braces, use heredoc syntax (<<<>>>>) for command sections"@)
}

/// Creates a "curly commands" diagnostic.
pub fn curly_commands(task: &str, span: Span) -> (r: Diagnostic)
    ensures
        r@ == curly_commands_view(task@, span),
{
    let mut message = String::from_str("task `");
    message.append(task);
    message.append("` uses curly braces in command section");
    Diagnostic::warning(message).with_rule(ID).with_label(
        "this command section uses curly braces",
        span,
    ).with_fix("instead of curly braces, use heredoc syntax (<<<>>>>) for command sections")
}

/// What the rule finds in the command section at `at`: nothing where the
/// section is delimited as a heredoc, else a warning that labels the
/// `command` keyword and names the enclosing task. A section without the
/// keyword, or one whose parent has no name, gives nothing either.
pub open spec fn finding(at: Cursor) -> Option<DiagnosticView> {
    let keywords = tokens_of_kind(at, SyntaxKind::CommandKeyword);
    let names = tokens_of_kind(at.parent(), SyntaxKind::Ident);
    if tokens_of_kind(at, SyntaxKind::OpenHeredoc).len() > 0 || keywords.len() == 0 || at.is_root()
        || names.len() == 0 {
        None
    } else {
        Some(
            curly_commands_view(
                names[0].tree().token_text(),
                Span { start: keywords[0].start() as usize, end: keywords[0].end() as usize },
            ),
        )
    }
}

/// Checks one command section.
pub fn check(section: &CommandSection) -> (r: Option<Diagnostic>)
    ensures
        r is Some <==> finding(section.position()) is Some,
        r is Some ==> r->0@ == finding(section.position())->0,
{
    if section.is_heredoc() {
        return None;
    }
    let keyword = match token_of_kind(section.syntax(), SyntaxKind::CommandKeyword) {
        Some(keyword) => keyword,
        None => {
            return None;
        },
    };
    let task = match section.syntax().parent() {
        Some(task) => task,
        None => {
            return None;
        },
    };
    match token_of_kind(&task, SyntaxKind::Ident) {
        Some(name) => Some(curly_commands(name.text(), keyword.span())),
        None => None,
    }
}

/// What the rule reports when it is told of an event: its finding on
/// entering a command section, and nothing on any other event.
pub open spec fn report(event: Event) -> Seq<DiagnosticView> {
    if event.concept == Concept::CommandSection && event.reason == Some(VisitReason::Enter)
        && finding(event.at) is Some {
        seq![finding(event.at)->0]
    } else {
        Seq::empty()
    }
}

/// What the rule reports when it is told of the given events in turn.
pub open spec fn reports(events: Seq<Event>) -> Seq<DiagnosticView>
    decreases events.len(),
{
    if events.len() == 0 {
        Seq::empty()
    } else {
        reports(events.drop_last()) + report(events.last())
    }
}

/// Detects curly command section for tasks.
#[derive(Debug, Clone, Copy)]
pub struct NoCurlyCommandsRule;

impl Rule for NoCurlyCommandsRule {
    type Visitor = NoCurlyCommandsVisitor;

    fn id(&self) -> (r: &'static str)
        ensures
            r@ == "NoCurlyCommands"@,
    {
        ID
    }

    fn description(&self) -> (r: &'static str)
        ensures
            r@ == "Ensures that tasks use heredoc syntax in command sections."@,
    {
        "Ensures that tasks use heredoc syntax in command sections."
    }

    fn explanation(&self) -> (r: &'static str)
        ensures
            r@
                == "Curly command blocks are no longer considered idiomatic WDL. Idiomatic WDL code uses heredoc command blocks instead. This is because curly command blocks create ambiguity with Bash syntax."@,
    {
        "Curly command blocks are no longer considered idiomatic WDL. Idiomatic WDL code uses heredoc command blocks instead. This is because curly command blocks create ambiguity with Bash syntax."
    }

    fn tags(&self) -> (r: TagSet)
        ensures
            forall|tag: Tag| r@.contains(tag) <==> tag == Tag::Clarity,
    {
        let tags = [Tag::Clarity];
        let r = TagSet::new(tags.as_slice());
        proof {
            assert(tags@[0] == Tag::Clarity);
        }
        r
    }

    fn visitor(&self) -> Self::Visitor {
        NoCurlyCommandsVisitor
    }
}

/// Implements the visitor for the no curly commands rule.
#[derive(Debug, Clone, Copy)]
pub struct NoCurlyCommandsVisitor;

impl Visitor for NoCurlyCommandsVisitor {
    type State = Diagnostics;

    open spec fn reacts(
        self,
        state: Diagnostics,
        event: Event,
        next: Self,
        next_state: Diagnostics,
    ) -> bool {
        next_state@ == state@ + report(event)
    }

    fn document(
        &mut self,
        state: &mut Diagnostics,
        reason: VisitReason,
        document: &Document,
        version: SupportedVersion,
    ) {
        proof {
            assert(state@ + Seq::<DiagnosticView>::empty() =~= state@);
        }
    }

    fn struct_definition(&mut self, state: &mut Diagnostics, reason: VisitReason, node: &StructDefinition) {
        proof {
            assert(state@ + Seq::<DiagnosticView>::empty() =~= state@);
        }
    }

    fn task_definition(&mut self, state: &mut Diagnostics, reason: VisitReason, node: &TaskDefinition) {
        proof {
            assert(state@ + Seq::<DiagnosticView>::empty() =~= state@);
        }
    }

    fn workflow_definition(&mut self, state: &mut Diagnostics, reason: VisitReason, node: &WorkflowDefinition) {
        proof {
            assert(state@ + Seq::<DiagnosticView>::empty() =~= state@);
        }
    }

    fn input_section(&mut self, state: &mut Diagnostics, reason: VisitReason, node: &InputSection) {
        proof {
            assert(state@ + Seq::<DiagnosticView>::empty() =~= state@);
        }
    }

    fn output_section(&mut self, state: &mut Diagnostics, reason: VisitReason, node: &OutputSection) {
        proof {
            assert(state@ + Seq::<DiagnosticView>::empty() =~= state@);
        }
    }

    fn requirements_section(&mut self, state: &mut Diagnostics, reason: VisitReason, node: &RequirementsSection) {
        proof {
            assert(state@ + Seq::<DiagnosticView>::empty() =~= state@);
        }
    }

    fn hints_section(&mut self, state: &mut Diagnostics, reason: VisitReason, node: &HintsSection) {
        proof {
            assert(state@ + Seq::<DiagnosticView>::empty() =~= state@);
        }
    }

    fn runtime_section(&mut self, state: &mut Diagnostics, reason: VisitReason, node: &RuntimeSection) {
        proof {
            assert(state@ + Seq::<DiagnosticView>::empty() =~= state@);
        }
    }

    fn metadata_section(&mut self, state: &mut Diagnostics, reason: VisitReason, node: &MetadataSection) {
        proof {
            assert(state@ + Seq::<DiagnosticView>::empty() =~= state@);
        }
    }

    fn parameter_metadata_section(&mut self, state: &mut Diagnostics, reason: VisitReason, node: &ParameterMetadataSection) {
        proof {
            assert(state@ + Seq::<DiagnosticView>::empty() =~= state@);
        }
    }

    fn metadata_object(&mut self, state: &mut Diagnostics, reason: VisitReason, node: &MetadataObject) {
        proof {
            assert(state@ + Seq::<DiagnosticView>::empty() =~= state@);
        }
    }

    fn unbound_decl(&mut self, state: &mut Diagnostics, reason: VisitReason, node: &UnboundDecl) {
        proof {
            assert(state@ + Seq::<DiagnosticView>::empty() =~= state@);
        }
    }

    fn bound_decl(&mut self, state: &mut Diagnostics, reason: VisitReason, node: &BoundDecl) {
        proof {
            assert(state@ + Seq::<DiagnosticView>::empty() =~= state@);
        }
    }

    fn expr(&mut self, state: &mut Diagnostics, reason: VisitReason, node: &Expr) {
        proof {
            assert(state@ + Seq::<DiagnosticView>::empty() =~= state@);
        }
    }

    fn command_section(
        &mut self,
        state: &mut Diagnostics,
        reason: VisitReason,
        node: &CommandSection,
    ) {
        proof {
            assert(state@ + Seq::<DiagnosticView>::empty() =~= state@);
        }
        if reason == VisitReason::Exit {
            return;
        }
        match check(node) {
            Some(diagnostic) => {
                proof {
                    assert(state@ + seq![diagnostic@] =~= state@.push(diagnostic@));
                }
                state.add(diagnostic);
            },
            None => {},
        }
    }

    fn command_text(&mut self, state: &mut Diagnostics, token: &CommandText) {
        proof {
            assert(state@ + Seq::<DiagnosticView>::empty() =~= state@);
        }
    }

    fn string_text(&mut self, state: &mut Diagnostics, token: &StringText) {
        proof {
            assert(state@ + Seq::<DiagnosticView>::empty() =~= state@);
        }
    }
}

/// A walk with the rule's visitor appends to the sink what the rule reports
/// for the events of the walk, in their order, and changes nothing that the
/// sink held before.
pub proof fn lemma_walk_reports(
    visitor: NoCurlyCommandsVisitor,
    state: Diagnostics,
    events: Seq<Event>,
    last: NoCurlyCommandsVisitor,
    last_state: Diagnostics,
)
    requires
        replays(visitor, state, events, last, last_state),
    ensures
        last_state@ == state@ + reports(events),
    decreases events.len(),
{
    if events.len() == 0 {
        assert(state@ + reports(events) =~= state@);
    } else {
        let (mid, mid_state) = choose|mid: NoCurlyCommandsVisitor, mid_state: Diagnostics|
            replays(visitor, state, events.drop_last(), mid, mid_state) && #[trigger] mid.reacts(
                mid_state,
                events.last(),
                last,
                last_state,
            );
        lemma_walk_reports(visitor, state, events.drop_last(), mid, mid_state);
        assert(last_state@ =~= state@ + reports(events));
    }
}

/// Runs the rule over a document and gives what it reports, in source
/// order. Gives nothing where the document declares no supported version.
pub fn lint_document(document: &Document) -> (r: Option<Diagnostics>)
    ensures
        r is Some <==> version_at(document.position()) is Some,
        r is Some ==> r->0@ == reports(
            events_at(document.position(), version_at(document.position())->0),
        ),
{
    if document.version().is_none() {
        return None;
    }
    let mut visitor = NoCurlyCommandsRule.visitor();
    let mut sink = Diagnostics::new();
    let ghost first = visitor;
    let ghost empty = sink;
    document.visit(&mut sink, &mut visitor);
    proof {
        let events = events_at(document.position(), version_at(document.position())->0);
        lemma_walk_reports(first, empty, events, visitor, sink);
        assert(sink@ =~= reports(events));
    }
    Some(sink)
}

} // verus!
