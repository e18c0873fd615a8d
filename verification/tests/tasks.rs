use rowan::GreenNode;
use rowan::GreenNodeBuilder;
use wdl_ast::ast::AstNode;
use wdl_ast::ast::AstToken;
use wdl_ast::diagnostic::Diagnostics;
use wdl_ast::diagnostic::Severity;
use wdl_ast::document::Document;
use wdl_ast::document::SupportedVersion;
use wdl_ast::document::V1;
use wdl_ast::kind::SyntaxKind;
use wdl_ast::lint::no_curly_commands::curly_commands;
use wdl_ast::lint::no_curly_commands::lint_document;
use wdl_ast::lint::no_curly_commands::NoCurlyCommandsRule;
use wdl_ast::lint::Rule;
use wdl_ast::lint::Tag;
use wdl_ast::syntax::Node;
use wdl_ast::syntax::Span;
use wdl_ast::v1::decl::BoundDecl;
use wdl_ast::v1::decl::StructDefinition;
use wdl_ast::v1::decl::UnboundDecl;
use wdl_ast::v1::expr::Expr;
use wdl_ast::v1::expr::StringText;
use wdl_ast::v1::task::CommandPart;
use wdl_ast::v1::task::CommandSection;
use wdl_ast::v1::task::CommandText;
use wdl_ast::v1::task::HintsSection;
use wdl_ast::v1::task::InputSection;
use wdl_ast::v1::task::MetadataObject;
use wdl_ast::v1::task::MetadataSection;
use wdl_ast::v1::task::OutputSection;
use wdl_ast::v1::task::ParameterMetadataSection;
use wdl_ast::v1::task::RequirementsSection;
use wdl_ast::v1::task::RuntimeSection;
use wdl_ast::v1::task::SectionParent;
use wdl_ast::v1::task::TaskDefinition;
use wdl_ast::v1::task::TaskItem;
use wdl_ast::v1::workflow::WorkflowDefinition;
use wdl_ast::visitor::Event;
use wdl_ast::visitor::VisitReason;
use wdl_ast::visitor::Visitor;

/// Builds syntax trees the way a parser would.
struct Builder(GreenNodeBuilder<'static>);

impl Builder {
    fn new() -> Self {
        Builder(GreenNodeBuilder::new())
    }

    fn open(&mut self, kind: SyntaxKind) -> &mut Self {
        self.0.start_node(rowan::SyntaxKind(kind.to_raw()));
        self
    }

    fn close(&mut self) -> &mut Self {
        self.0.finish_node();
        self
    }

    fn tok(&mut self, kind: SyntaxKind, text: &str) -> &mut Self {
        self.0.token(rowan::SyntaxKind(kind.to_raw()), text);
        self
    }

    fn ws(&mut self, text: &str) -> &mut Self {
        self.tok(SyntaxKind::Whitespace, text)
    }

    fn string(&mut self, text: &str) -> &mut Self {
        self.open(SyntaxKind::LiteralStringNode)
            .tok(SyntaxKind::DoubleQuote, "\"")
            .tok(SyntaxKind::LiteralStringText, text)
            .tok(SyntaxKind::DoubleQuote, "\"")
            .close()
    }

    fn string_type(&mut self) -> &mut Self {
        self.open(SyntaxKind::PrimitiveTypeNode)
            .tok(SyntaxKind::StringTypeKeyword, "String")
            .close()
    }

    fn item(&mut self, kind: SyntaxKind, name: &str, value: &str) -> &mut Self {
        self.open(kind)
            .tok(SyntaxKind::Ident, name)
            .tok(SyntaxKind::Colon, ":")
            .ws(" ")
            .string(value)
            .close()
    }

    fn section(&mut self, kind: SyntaxKind, keyword: SyntaxKind, text: &str) -> &mut Self {
        self.open(kind).tok(keyword, text).ws(" ").tok(SyntaxKind::OpenBrace, "{").ws("\n        ")
    }

    fn end_section(&mut self) -> &mut Self {
        self.ws("\n    ").tok(SyntaxKind::CloseBrace, "}").close()
    }

    fn version(&mut self, number: &str) -> &mut Self {
        self.open(SyntaxKind::VersionStatementNode)
            .tok(SyntaxKind::VersionKeyword, "version")
            .ws(" ")
            .tok(SyntaxKind::Version, number)
            .close()
    }

    fn finish(self) -> GreenNode {
        self.0.finish()
    }
}

const SOURCE: &str = r#"
version 1.2

task test {
    input {
        String name
    }

    output {
        String output = stdout()
    }

    command <<<
        printf "hello, ~{name}!
    >>>

    requirements {
        container: "baz/qux"
    }

    hints {
        foo: "bar"
    }

    runtime {
        container: "foo/bar"
    }

    meta {
        description: "a test"
        foo: null
    }

    parameter_meta {
        name: {
            help: "a name to greet"
        }
    }

    String x = "private"
}
"#;

/// The tree of `SOURCE`.
fn fixture() -> Document {
    let mut b = Builder::new();
    b.open(SyntaxKind::RootNode).ws("\n").version("1.2").ws("\n\n");
    b.open(SyntaxKind::TaskDefinitionNode)
        .tok(SyntaxKind::TaskKeyword, "task")
        .ws(" ")
        .tok(SyntaxKind::Ident, "test")
        .ws(" ")
        .tok(SyntaxKind::OpenBrace, "{")
        .ws("\n    ");
    b.section(SyntaxKind::InputSectionNode, SyntaxKind::InputKeyword, "input")
        .open(SyntaxKind::UnboundDeclNode)
        .string_type()
        .ws(" ")
        .tok(SyntaxKind::Ident, "name")
        .close()
        .end_section()
        .ws("\n\n    ");
    b.section(SyntaxKind::OutputSectionNode, SyntaxKind::OutputKeyword, "output")
        .open(SyntaxKind::BoundDeclNode)
        .string_type()
        .ws(" ")
        .tok(SyntaxKind::Ident, "output")
        .ws(" ")
        .tok(SyntaxKind::Assignment, "=")
        .ws(" ")
        .open(SyntaxKind::CallExprNode)
        .tok(SyntaxKind::Ident, "stdout")
        .tok(SyntaxKind::OpenParen, "(")
        .tok(SyntaxKind::CloseParen, ")")
        .close()
        .close()
        .end_section()
        .ws("\n\n    ");
    b.open(SyntaxKind::CommandSectionNode)
        .tok(SyntaxKind::CommandKeyword, "command")
        .ws(" ")
        .tok(SyntaxKind::OpenHeredoc, "<<<")
        .tok(SyntaxKind::LiteralCommandText, "\n        printf \"hello, ")
        .open(SyntaxKind::PlaceholderNode)
        .tok(SyntaxKind::PlaceholderOpen, "~{")
        .open(SyntaxKind::NameRefNode)
        .tok(SyntaxKind::Ident, "name")
        .close()
        .tok(SyntaxKind::CloseBrace, "}")
        .close()
        .tok(SyntaxKind::LiteralCommandText, "!\n    ")
        .tok(SyntaxKind::CloseHeredoc, ">>>")
        .close()
        .ws("\n\n    ");
    b.section(SyntaxKind::RequirementsSectionNode, SyntaxKind::RequirementsKeyword, "requirements")
        .item(SyntaxKind::RequirementsItemNode, "container", "baz/qux")
        .end_section()
        .ws("\n\n    ");
    b.section(SyntaxKind::HintsSectionNode, SyntaxKind::HintsKeyword, "hints")
        .item(SyntaxKind::HintsItemNode, "foo", "bar")
        .end_section()
        .ws("\n\n    ");
    b.section(SyntaxKind::RuntimeSectionNode, SyntaxKind::RuntimeKeyword, "runtime")
        .item(SyntaxKind::RuntimeItemNode, "container", "foo/bar")
        .end_section()
        .ws("\n\n    ");
    b.section(SyntaxKind::MetadataSectionNode, SyntaxKind::MetaKeyword, "meta")
        .item(SyntaxKind::MetadataObjectItemNode, "description", "a test")
        .ws("\n        ")
        .open(SyntaxKind::MetadataObjectItemNode)
        .tok(SyntaxKind::Ident, "foo")
        .tok(SyntaxKind::Colon, ":")
        .ws(" ")
        .open(SyntaxKind::LiteralNullNode)
        .tok(SyntaxKind::NullKeyword, "null")
        .close()
        .close()
        .end_section()
        .ws("\n\n    ");
    b.section(
        SyntaxKind::ParameterMetadataSectionNode,
        SyntaxKind::ParameterMetaKeyword,
        "parameter_meta",
    )
    .open(SyntaxKind::MetadataObjectItemNode)
    .tok(SyntaxKind::Ident, "name")
    .tok(SyntaxKind::Colon, ":")
    .ws(" ")
    .open(SyntaxKind::MetadataObjectNode)
    .tok(SyntaxKind::OpenBrace, "{")
    .ws("\n            ")
    .item(SyntaxKind::MetadataObjectItemNode, "help", "a name to greet")
    .ws("\n        ")
    .tok(SyntaxKind::CloseBrace, "}")
    .close()
    .close()
    .end_section()
    .ws("\n\n    ");
    b.open(SyntaxKind::BoundDeclNode)
        .string_type()
        .ws(" ")
        .tok(SyntaxKind::Ident, "x")
        .ws(" ")
        .tok(SyntaxKind::Assignment, "=")
        .ws(" ")
        .string("private")
        .close();
    b.ws("\n").tok(SyntaxKind::CloseBrace, "}").close().ws("\n").close();
    let root = Node::new_root(b.finish()).expect("the text is short");
    Document::cast(root).expect("the root is a document")
}

/// The tree of a document with one task `name` whose command is `echo`,
/// delimited by braces or as a heredoc.
fn command_document(name: &str, heredoc: bool) -> Document {
    let mut b = Builder::new();
    b.open(SyntaxKind::RootNode).version("1.1").ws("\n");
    b.open(SyntaxKind::TaskDefinitionNode)
        .tok(SyntaxKind::TaskKeyword, "task")
        .ws(" ")
        .tok(SyntaxKind::Ident, name)
        .ws(" ")
        .tok(SyntaxKind::OpenBrace, "{")
        .ws(" ");
    b.open(SyntaxKind::CommandSectionNode).tok(SyntaxKind::CommandKeyword, "command").ws(" ");
    if heredoc {
        b.tok(SyntaxKind::OpenHeredoc, "<<<")
            .tok(SyntaxKind::LiteralCommandText, " echo ")
            .tok(SyntaxKind::CloseHeredoc, ">>>");
    } else {
        b.tok(SyntaxKind::OpenBrace, "{")
            .tok(SyntaxKind::LiteralCommandText, " echo ")
            .tok(SyntaxKind::CloseBrace, "}");
    }
    b.close().ws(" ").tok(SyntaxKind::CloseBrace, "}").close().close();
    let root = Node::new_root(b.finish()).expect("the text is short");
    Document::cast(root).expect("the root is a document")
}

#[derive(Default)]
struct MyVisitor {
    documents: usize,
    tasks: usize,
    inputs: usize,
    outputs: usize,
    commands: usize,
    requirements: usize,
    hints: usize,
    runtimes: usize,
    metadata: usize,
    param_metadata: usize,
    unbound_decls: usize,
    bound_decls: usize,
    exits: usize,
    command_texts: usize,
    string_texts: usize,
    exprs: usize,
    objects: usize,
    depth: usize,
    max_depth: usize,
    trace: Vec<String>,
}

impl MyVisitor {
    fn count(&mut self, reason: VisitReason, name: &str) -> bool {
        match reason {
            VisitReason::Enter => {
                self.depth += 1;
                self.max_depth = self.max_depth.max(self.depth);
                self.trace.push(format!("+{name}"));
                true
            }
            VisitReason::Exit => {
                assert!(self.depth > 0);
                self.depth -= 1;
                self.exits += 1;
                self.trace.push(format!("-{name}"));
                false
            }
        }
    }
}

impl Visitor for MyVisitor {
    type State = ();

    fn reacts(self, _: Self::State, _: Event, _: Self, _: Self::State) -> bool {
        true
    }

    fn document(&mut self, _: &mut Self::State, reason: VisitReason, _: &Document, version: SupportedVersion) {
        assert_eq!(version, SupportedVersion::V1(V1::Two));
        if self.count(reason, "document") {
            self.documents += 1;
        }
    }

    fn struct_definition(&mut self, _: &mut Self::State, reason: VisitReason, _: &StructDefinition) {
        self.count(reason, "struct");
    }

    fn task_definition(&mut self, _: &mut Self::State, reason: VisitReason, _: &TaskDefinition) {
        if self.count(reason, "task") {
            self.tasks += 1;
        }
    }

    fn workflow_definition(&mut self, _: &mut Self::State, reason: VisitReason, _: &WorkflowDefinition) {
        self.count(reason, "workflow");
    }

    fn input_section(&mut self, _: &mut Self::State, reason: VisitReason, _: &InputSection) {
        if self.count(reason, "input") {
            self.inputs += 1;
        }
    }

    fn output_section(&mut self, _: &mut Self::State, reason: VisitReason, _: &OutputSection) {
        if self.count(reason, "output") {
            self.outputs += 1;
        }
    }

    fn command_section(&mut self, _: &mut Self::State, reason: VisitReason, _: &CommandSection) {
        if self.count(reason, "command") {
            self.commands += 1;
        }
    }

    fn requirements_section(&mut self, _: &mut Self::State, reason: VisitReason, _: &RequirementsSection) {
        if self.count(reason, "requirements") {
            self.requirements += 1;
        }
    }

    fn hints_section(&mut self, _: &mut Self::State, reason: VisitReason, _: &HintsSection) {
        if self.count(reason, "hints") {
            self.hints += 1;
        }
    }

    fn runtime_section(&mut self, _: &mut Self::State, reason: VisitReason, _: &RuntimeSection) {
        if self.count(reason, "runtime") {
            self.runtimes += 1;
        }
    }

    fn metadata_section(&mut self, _: &mut Self::State, reason: VisitReason, _: &MetadataSection) {
        if self.count(reason, "meta") {
            self.metadata += 1;
        }
    }

    fn parameter_metadata_section(
        &mut self,
        _: &mut Self::State,
        reason: VisitReason,
        _: &ParameterMetadataSection,
    ) {
        if self.count(reason, "parameter_meta") {
            self.param_metadata += 1;
        }
    }

    fn metadata_object(&mut self, _: &mut Self::State, reason: VisitReason, _: &MetadataObject) {
        if self.count(reason, "object") {
            self.objects += 1;
        }
    }

    fn unbound_decl(&mut self, _: &mut Self::State, reason: VisitReason, _: &UnboundDecl) {
        if self.count(reason, "unbound") {
            self.unbound_decls += 1;
        }
    }

    fn bound_decl(&mut self, _: &mut Self::State, reason: VisitReason, _: &BoundDecl) {
        if self.count(reason, "bound") {
            self.bound_decls += 1;
        }
    }

    fn expr(&mut self, _: &mut Self::State, reason: VisitReason, _: &Expr) {
        if self.count(reason, "expr") {
            self.exprs += 1;
        }
    }

    fn command_text(&mut self, _: &mut Self::State, token: &CommandText) {
        self.command_texts += 1;
        self.trace.push(format!("command_text {:?}", token.as_str()));
    }

    fn string_text(&mut self, _: &mut Self::State, _: &StringText) {
        self.string_texts += 1;
    }
}

#[test]
fn tasks() {
    let document = fixture();
    let ast = document.ast();
    let ast = ast.as_v1().expect("should be a V1 AST");
    let tasks: Vec<_> = ast.tasks().collect();
    assert_eq!(tasks.len(), 1);
    assert_eq!(tasks[0].name().as_str(), "test");

    // Task input
    let input = tasks[0].input().expect("should have an input section");
    assert_eq!(input.parent().unwrap_task().name().as_str(), "test");
    let decls: Vec<_> = input.declarations().collect();
    assert_eq!(decls.len(), 1);
    assert_eq!(
        decls[0].clone().unwrap_unbound_decl().ty().to_string(),
        "String"
    );
    assert_eq!(
        decls[0].clone().unwrap_unbound_decl().name().as_str(),
        "name"
    );

    // Task output
    let output = tasks[0].output().expect("should have an output section");
    assert_eq!(output.parent().unwrap_task().name().as_str(), "test");
    let decls: Vec<_> = output.declarations().collect();
    assert_eq!(decls.len(), 1);
    assert_eq!(decls[0].ty().to_string(), "String");
    assert_eq!(decls[0].name().as_str(), "output");
    assert_eq!(decls[0].expr().unwrap_call().target().as_str(), "stdout");

    // Task command
    let command = tasks[0].command().expect("should have a command section");
    assert_eq!(command.parent().name().as_str(), "test");
    assert!(command.is_heredoc());
    let parts: Vec<_> = command.parts();
    assert_eq!(parts.len(), 3);
    assert_eq!(
        parts[0].clone().unwrap_text().as_str(),
        "\n        printf \"hello, "
    );
    assert_eq!(
        parts[1]
            .clone()
            .unwrap_placeholder()
            .expr()
            .unwrap_name_ref()
            .name()
            .as_str(),
        "name"
    );
    assert_eq!(parts[2].clone().unwrap_text().as_str(), "!\n    ");

    // Task requirements
    let requirements = tasks[0]
        .requirements()
        .expect("should have a requirements section");
    assert_eq!(requirements.parent().name().as_str(), "test");
    let items: Vec<_> = requirements.items().collect();
    assert_eq!(items.len(), 1);
    assert_eq!(items[0].name().as_str(), "container");
    assert_eq!(
        items[0]
            .expr()
            .unwrap_literal()
            .unwrap_string()
            .text()
            .unwrap()
            .as_str(),
        "baz/qux"
    );

    // Task hints
    let hints = tasks[0].hints().expect("should have a hints section");
    assert_eq!(hints.parent().unwrap_task().name().as_str(), "test");
    let items: Vec<_> = hints.items().collect();
    assert_eq!(items.len(), 1);
    assert_eq!(items[0].name().as_str(), "foo");
    assert_eq!(
        items[0]
            .expr()
            .unwrap_literal()
            .unwrap_string()
            .text()
            .unwrap()
            .as_str(),
        "bar"
    );

    // Task runtimes
    let runtime = tasks[0].runtime().expect("should have a runtime section");
    assert_eq!(runtime.parent().name().as_str(), "test");
    let items: Vec<_> = runtime.items().collect();
    assert_eq!(items.len(), 1);
    assert_eq!(items[0].name().as_str(), "container");
    assert_eq!(
        items[0]
            .expr()
            .unwrap_literal()
            .unwrap_string()
            .text()
            .unwrap()
            .as_str(),
        "foo/bar"
    );

    // Task metadata
    let metadata = tasks[0].metadata().expect("should have a metadata section");
    assert_eq!(metadata.parent().unwrap_task().name().as_str(), "test");
    let items: Vec<_> = metadata.items().collect();
    assert_eq!(items.len(), 2);
    assert_eq!(items[0].name().as_str(), "description");
    assert_eq!(
        items[0].value().unwrap_string().text().unwrap().as_str(),
        "a test"
    );

    // Second metadata
    assert_eq!(items[1].name().as_str(), "foo");
    items[1].value().unwrap_null();

    // Task parameter metadata
    let param_meta = tasks[0]
        .parameter_metadata()
        .expect("should have a parameter metadata section");
    assert_eq!(param_meta.parent().unwrap_task().name().as_str(), "test");
    let items: Vec<_> = param_meta.items().collect();
    assert_eq!(items.len(), 1);
    assert_eq!(items[0].name().as_str(), "name");
    let items: Vec<_> = items[0].value().unwrap_object().items().collect();
    assert_eq!(items.len(), 1);
    assert_eq!(items[0].name().as_str(), "help");
    assert_eq!(
        items[0].value().unwrap_string().text().unwrap().as_str(),
        "a name to greet"
    );

    // Task declarations
    let decls: Vec<_> = tasks[0].declarations().collect();
    assert_eq!(decls.len(), 1);

    // First task declaration
    assert_eq!(decls[0].ty().to_string(), "String");
    assert_eq!(decls[0].name().as_str(), "x");
    assert_eq!(
        decls[0]
            .expr()
            .unwrap_literal()
            .unwrap_string()
            .text()
            .unwrap()
            .as_str(),
        "private"
    );

    // Use a visitor to count the number of task sections
    let mut visitor = MyVisitor::default();
    document.visit(&mut (), &mut visitor);
    assert_eq!(visitor.tasks, 1);
    assert_eq!(visitor.inputs, 1);
    assert_eq!(visitor.outputs, 1);
    assert_eq!(visitor.commands, 1);
    assert_eq!(visitor.requirements, 1);
    assert_eq!(visitor.hints, 1);
    assert_eq!(visitor.runtimes, 1);
    assert_eq!(visitor.metadata, 1);
    assert_eq!(visitor.param_metadata, 1);
    assert_eq!(visitor.unbound_decls, 1);
    assert_eq!(visitor.bound_decls, 2);
}

#[test]
fn fixture_is_lossless() {
    let document = fixture();
    assert_eq!(document.syntax().text(), SOURCE);
    assert_eq!(document.syntax().span().start, 0);
    assert_eq!(document.syntax().span().end, SOURCE.len());
}

#[test]
fn command_parts_round_trip() {
    let document = fixture();
    let ast = document.ast();
    let tasks = ast.as_v1().expect("should be a V1 AST").tasks().collect();
    let command = tasks[0].command().expect("should have a command section");
    let parts = command.parts();
    assert_eq!(parts.len(), 3);
    let mut text = String::new();
    let mut start = usize::MAX;
    let mut end = 0;
    for part in &parts {
        let span = match part {
            CommandPart::Text(t) => {
                text.push_str(t.as_str());
                t.span()
            }
            CommandPart::Placeholder(p) => {
                text.push_str(&p.syntax().text());
                p.syntax().span()
            }
        };
        start = start.min(span.start);
        assert!(end == 0 || span.start == end);
        end = span.end;
    }
    assert_eq!(text, "\n        printf \"hello, ~{name}!\n    ");
    assert_eq!(&SOURCE[start..end], text);
    assert!(command.text().is_none());
    let whole = command.syntax().span();
    assert_eq!(&SOURCE[whole.start..whole.end], format!("command <<<{text}>>>"));
}

#[test]
fn command_text_without_placeholders() {
    let document = command_document("echo", true);
    let tasks = document.ast().as_v1().expect("should be a V1 AST").tasks().collect();
    let command = tasks[0].command().expect("should have a command section");
    assert_eq!(command.text().expect("a single text").as_str(), " echo ");
    assert_eq!(command.parts().len(), 1);
}

#[test]
fn traversal_is_balanced_and_ordered() {
    let document = fixture();
    let mut visitor = MyVisitor::default();
    document.visit(&mut (), &mut visitor);
    assert_eq!(visitor.documents, 1);
    assert_eq!(visitor.depth, 0);
    let enters = visitor.trace.iter().filter(|e| e.starts_with('+')).count();
    assert_eq!(enters, visitor.exits);
    assert_eq!(visitor.command_texts, 2);
    assert_eq!(visitor.string_texts, 6);
    assert_eq!(visitor.exprs, 8);
    assert_eq!(visitor.objects, 1);
    assert_eq!(visitor.trace.first().map(String::as_str), Some("+document"));
    assert_eq!(visitor.trace.last().map(String::as_str), Some("-document"));
    let start = visitor.trace.iter().position(|e| e == "+input").unwrap();
    assert_eq!(
        &visitor.trace[start..start + 8],
        &["+input", "+unbound", "-unbound", "-input", "+output", "+bound", "+expr", "-expr"]
    );
    let command = visitor.trace.iter().position(|e| e == "+command").unwrap();
    assert_eq!(
        &visitor.trace[command..command + 6],
        &[
            "+command",
            "command_text \"\\n        printf \\\"hello, \"",
            "+expr",
            "-expr",
            "command_text \"!\\n    \"",
            "-command"
        ]
    );
}

#[test]
fn section_parents_are_the_task() {
    let document = fixture();
    let tasks = document.ast().as_v1().expect("should be a V1 AST").tasks().collect();
    let task = &tasks[0];
    for item in task.items().collect() {
        let parent = match &item {
            TaskItem::Input(s) => s.parent(),
            TaskItem::Output(s) => s.parent(),
            TaskItem::Command(s) => s.parent(),
            TaskItem::Requirements(s) => s.parent(),
            TaskItem::Hints(s) => s.parent(),
            TaskItem::Runtime(s) => s.parent(),
            TaskItem::Metadata(s) => s.parent(),
            TaskItem::ParameterMetadata(s) => s.parent(),
            TaskItem::Declaration(_) => continue,
        };
        assert!(matches!(parent, SectionParent::Task(_)));
        assert!(!matches!(parent, SectionParent::Workflow(_)));
        assert!(!matches!(parent, SectionParent::Struct(_)));
        assert_eq!(parent.syntax().span(), task.syntax().span());
        assert_eq!(parent.unwrap_task(), *task);
    }
    assert_eq!(task.items().collect().len(), 9);
}

#[test]
fn metadata_object_recursion() {
    let document = fixture();
    let tasks = document.ast().as_v1().expect("should be a V1 AST").tasks().collect();
    let section = tasks[0].parameter_metadata().expect("should have a section");
    let items = section.items().collect();
    assert_eq!(items.len(), 1);
    let object = items[0].value().unwrap_object();
    let inner = object.items().collect();
    assert_eq!(inner.len(), 1);
    assert_eq!(inner[0].name().as_str(), "help");
    assert_eq!(
        inner[0].value().unwrap_string().text().unwrap().as_str(),
        "a name to greet"
    );
}

#[test]
fn containers_are_found_by_name() {
    let document = fixture();
    let tasks = document.ast().as_v1().expect("should be a V1 AST").tasks().collect();
    let requirements = tasks[0].requirements().expect("should have a section");
    let container = requirements.container().expect("should have a container");
    assert_eq!(container.name().as_str(), "container");
    assert!(requirements.items().collect().remove(0).into_container().is_some());
    let runtime = tasks[0].runtime().expect("should have a section");
    assert!(runtime.container().is_some());
    assert!(runtime.items().collect().remove(0).into_container().is_some());
}

#[test]
fn curly_commands_are_reported() {
    let document = command_document("greet", false);
    let rule = NoCurlyCommandsRule;
    let mut visitor = rule.visitor();
    let mut diagnostics = Diagnostics::new();
    document.visit(&mut diagnostics, &mut visitor);
    assert_eq!(diagnostics.len(), 1);
    let diagnostic = diagnostics.get(0);
    assert_eq!(diagnostic.severity(), Severity::Warning);
    assert_eq!(diagnostic.rule(), Some("NoCurlyCommands"));
    assert_eq!(
        diagnostic.message(),
        "task `greet` uses curly braces in command section"
    );
    assert_eq!(diagnostic.label_count(), 1);
    assert_eq!(
        diagnostic.label(0).message(),
        "this command section uses curly braces"
    );
    let span = diagnostic.label(0).span();
    let source = document.syntax().text();
    assert_eq!(&source[span.start..span.end], "command");
    assert_eq!(
        diagnostic.fix(),
        Some("instead of curly braces, use heredoc syntax (<<<>>>>) for command sections")
    );
}

#[test]
fn heredoc_commands_are_not_reported() {
    let document = command_document("greet", true);
    let mut visitor = NoCurlyCommandsRule.visitor();
    let mut diagnostics = Diagnostics::new();
    document.visit(&mut diagnostics, &mut visitor);
    assert!(diagnostics.is_empty());
    assert_eq!(diagnostics.len(), 0);
}

#[test]
fn rule_describes_itself() {
    let rule = NoCurlyCommandsRule;
    assert_eq!(rule.id(), "NoCurlyCommands");
    assert_eq!(
        rule.description(),
        "Ensures that tasks use heredoc syntax in command sections."
    );
    assert!(rule.explanation().starts_with("Curly command blocks are no longer"));
    assert!(rule.tags().contains(Tag::Clarity));
    assert!(!rule.tags().contains(Tag::Style));
    assert!(!rule.tags().contains(Tag::Documentation));
}

#[test]
fn lint_document_reports_in_source_order() {
    let curly = lint_document(&command_document("first", false)).expect("a supported version");
    assert_eq!(curly.len(), 1);
    assert_eq!(
        curly.get(0).message(),
        "task `first` uses curly braces in command section"
    );
    let heredoc = lint_document(&command_document("first", true)).expect("a supported version");
    assert!(heredoc.is_empty());
    assert!(lint_document(&fixture()).expect("a supported version").is_empty());
}

#[test]
fn unsupported_versions_have_no_typed_view() {
    let mut b = Builder::new();
    b.open(SyntaxKind::RootNode).version("2.0").close();
    let root = Node::new_root(b.finish()).expect("the text is short");
    let document = Document::cast(root).expect("the root is a document");
    assert_eq!(document.version(), None);
    assert!(document.ast().as_v1().is_none());
    assert!(lint_document(&document).is_none());
    assert_eq!(SupportedVersion::parse("1.0"), Some(SupportedVersion::V1(V1::Zero)));
    assert_eq!(SupportedVersion::parse("1.1"), Some(SupportedVersion::V1(V1::One)));
    assert_eq!(SupportedVersion::parse("1.2"), Some(SupportedVersion::V1(V1::Two)));
    assert_eq!(SupportedVersion::parse("1.3"), None);
}

#[test]
fn curly_commands_diagnostic_is_exact() {
    let diagnostic = curly_commands("t", Span { start: 3, end: 10 });
    assert_eq!(diagnostic.severity(), Severity::Warning);
    assert_eq!(diagnostic.rule(), Some("NoCurlyCommands"));
    assert_eq!(diagnostic.message(), "task `t` uses curly braces in command section");
    assert_eq!(diagnostic.label_count(), 1);
    assert_eq!(diagnostic.label(0).span(), Span { start: 3, end: 10 });
}

#[test]
fn casts_are_exclusive() {
    let document = fixture();
    let tasks = document.ast().as_v1().expect("should be a V1 AST").tasks().collect();
    let task = tasks[0].syntax().clone();
    assert!(TaskDefinition::can_cast(task.kind()));
    assert!(TaskDefinition::cast(task.clone()).is_some());
    assert!(SectionParent::cast(task.clone()).is_some());
    assert!(TaskItem::cast(task.clone()).is_none());
    assert!(InputSection::cast(task.clone()).is_none());
    assert!(WorkflowDefinition::cast(task.clone()).is_none());
    assert!(CommandSection::cast(task.clone()).is_none());
    assert!(BoundDecl::cast(task).is_none());
    let input = tasks[0].input().expect("should have an input section");
    assert!(matches!(TaskItem::cast(input.syntax().clone()), Some(TaskItem::Input(_))));
    assert!(OutputSection::cast(input.syntax().clone()).is_none());
    assert!(!TaskItem::can_cast(SyntaxKind::TaskDefinitionNode));
    assert!(TaskItem::can_cast(SyntaxKind::BoundDeclNode));
    assert!(!TaskItem::can_cast(SyntaxKind::UnboundDeclNode));
}

#[test]
fn section_parent_is_the_nearest_definition() {
    let mut b = Builder::new();
    b.open(SyntaxKind::RootNode).version("1.2");
    b.open(SyntaxKind::WorkflowDefinitionNode)
        .tok(SyntaxKind::WorkflowKeyword, "workflow")
        .ws(" ")
        .tok(SyntaxKind::Ident, "outer")
        .open(SyntaxKind::ConditionalStatementNode)
        .open(SyntaxKind::MetadataSectionNode)
        .tok(SyntaxKind::MetaKeyword, "meta")
        .close()
        .close()
        .close();
    b.open(SyntaxKind::StructDefinitionNode)
        .tok(SyntaxKind::StructKeyword, "struct")
        .ws(" ")
        .tok(SyntaxKind::Ident, "pair")
        .open(SyntaxKind::ParameterMetadataSectionNode)
        .close()
        .close();
    b.close();
    let root = Node::new_root(b.finish()).expect("the text is short");
    let document = Document::cast(root).expect("the root is a document");
    let ast = document.ast();
    let ast = ast.as_v1().expect("should be a V1 AST");
    let workflows: Vec<_> = ast.workflows().collect();
    assert_eq!(workflows.len(), 1);
    assert!(workflows[0].metadata().is_none());
    let nested = workflows[0]
        .syntax()
        .children_with_tokens()
        .into_iter()
        .find_map(|e| match e {
            wdl_ast::syntax::Element::Node(n) if n.kind() == SyntaxKind::ConditionalStatementNode => {
                n.first_child_or_token()
            }
            _ => None,
        })
        .expect("a nested section");
    let section = match nested {
        wdl_ast::syntax::Element::Node(n) => MetadataSection::cast(n).expect("a metadata section"),
        wdl_ast::syntax::Element::Token(_) => panic!("the nested element is a node"),
    };
    let parent = section.parent();
    assert!(matches!(parent, SectionParent::Workflow(_)));
    assert_eq!(parent.name().as_str(), "outer");
    assert_eq!(parent.unwrap_workflow(), workflows[0]);
    let structs: Vec<_> = ast.structs().collect();
    assert_eq!(structs.len(), 1);
    let section = structs[0]
        .syntax()
        .children_with_tokens()
        .into_iter()
        .find_map(|e| match e {
            wdl_ast::syntax::Element::Node(n) => ParameterMetadataSection::cast(n),
            wdl_ast::syntax::Element::Token(_) => None,
        })
        .expect("a section");
    assert_eq!(section.parent().unwrap_struct().name().as_str(), "pair");
}

#[test]
fn projections_hand_out_children_one_by_one() {
    let document = fixture();
    let ast = document.ast();
    let tasks: Vec<_> = ast.as_v1().expect("should be a V1 AST").tasks().collect();
    let metadata = tasks[0].metadata().expect("should have a metadata section");
    let mut items = metadata.items();
    assert_eq!(items.next().expect("a first item").name().as_str(), "description");
    assert_eq!(items.next().expect("a second item").name().as_str(), "foo");
    assert!(items.next().is_none());
    assert!(items.next().is_none());
    assert_eq!(metadata.items().collect().len(), 2);
    let mut again = metadata.items();
    assert!(again.next().is_some());
    assert_eq!(again.collect().len(), 1);
}

#[test]
fn sections_without_a_named_parent_are_passed_over() {
    let mut b = Builder::new();
    b.open(SyntaxKind::RootNode).version("1.0");
    b.open(SyntaxKind::CommandSectionNode)
        .tok(SyntaxKind::CommandKeyword, "command")
        .tok(SyntaxKind::OpenBrace, "{")
        .tok(SyntaxKind::CloseBrace, "}")
        .close();
    b.open(SyntaxKind::TaskDefinitionNode)
        .tok(SyntaxKind::TaskKeyword, "task")
        .tok(SyntaxKind::Ident, "t")
        .open(SyntaxKind::CommandSectionNode)
        .tok(SyntaxKind::OpenBrace, "{")
        .tok(SyntaxKind::CloseBrace, "}")
        .close()
        .close();
    b.close();
    let root = Node::new_root(b.finish()).expect("the text is short");
    let document = Document::cast(root).expect("the root is a document");
    let diagnostics = lint_document(&document).expect("a supported version");
    assert!(diagnostics.is_empty());
}
