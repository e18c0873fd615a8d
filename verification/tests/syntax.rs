use rowan::GreenNodeBuilder;
use rowan::SyntaxKind as RawKind;
use wdl_ast::kind::SyntaxKind;
use wdl_ast::syntax::Element;
use wdl_ast::syntax::Node;

fn raw(kind: SyntaxKind) -> RawKind {
    RawKind(kind.to_raw())
}

#[test]
fn root_children_and_spans() {
    let mut builder = GreenNodeBuilder::new();
    builder.start_node(raw(SyntaxKind::RootNode));
    builder.token(raw(SyntaxKind::VersionKeyword), "version");
    builder.token(raw(SyntaxKind::Whitespace), " ");
    builder.start_node(raw(SyntaxKind::TaskDefinitionNode));
    builder.token(raw(SyntaxKind::Ident), "tést");
    builder.finish_node();
    builder.finish_node();
    let root = Node::new_root(builder.finish()).expect("the text is short");
    assert_eq!(root.kind(), SyntaxKind::RootNode);
    assert!(root.parent().is_none());
    let children = root.children_with_tokens();
    assert_eq!(children.len(), 3);
    assert_eq!(children[0].kind(), SyntaxKind::VersionKeyword);
    assert_eq!(children[2].kind(), SyntaxKind::TaskDefinitionNode);
    match &children[2] {
        Element::Node(task) => {
            assert_eq!(task.span().start, 8);
            assert_eq!(task.span().end, 13);
            assert_eq!(task.parent().expect("a child has a parent").kind(), SyntaxKind::RootNode);
            assert!(task.next_sibling_or_token().is_none());
        }
        Element::Token(_) => panic!("the third child is a node"),
    }
    match &children[0] {
        Element::Token(token) => {
            assert_eq!(token.text(), "version");
            assert_eq!(token.span().start, 0);
            assert_eq!(token.span().end, 7);
        }
        Element::Node(_) => panic!("the first child is a token"),
    }
}

#[test]
fn kinds_round_trip_through_their_numbers() {
    assert_eq!(SyntaxKind::Unknown.to_raw(), 0);
    assert_eq!(SyntaxKind::AccessExprNode.to_raw(), 154);
    for raw in 0..155u16 {
        assert_eq!(SyntaxKind::from_raw(raw).to_raw(), raw);
    }
    assert_eq!(SyntaxKind::from_raw(155), SyntaxKind::Unknown);
    assert_eq!(SyntaxKind::from_raw(u16::MAX), SyntaxKind::Unknown);
    assert!(SyntaxKind::Whitespace.is_trivia());
    assert!(SyntaxKind::Comment.is_trivia());
    assert!(!SyntaxKind::Ident.is_trivia());
}

#[test]
fn clones_point_at_the_same_element() {
    let mut builder = GreenNodeBuilder::new();
    builder.start_node(raw(SyntaxKind::RootNode));
    builder.token(raw(SyntaxKind::Ident, ), "a");
    builder.start_node(raw(SyntaxKind::TaskDefinitionNode));
    builder.finish_node();
    builder.finish_node();
    let root = Node::new_root(builder.finish()).expect("the text is short");
    let first = root.first_child_or_token().expect("the root has children");
    let again = first.clone();
    assert_eq!(first, again);
    assert_eq!(again.kind(), SyntaxKind::Ident);
    let second = again.next_sibling_or_token().expect("a second child");
    assert_eq!(second.kind(), SyntaxKind::TaskDefinitionNode);
    assert!(second.next_sibling_or_token().is_none());
    match second {
        Element::Node(node) => {
            assert!(node.first_child_or_token().is_none());
            assert_eq!(node.children_with_tokens().len(), 0);
            assert_eq!(node.text(), "");
            assert_eq!(node.clone().parent(), Some(root.clone()));
        }
        Element::Token(_) => panic!("the second child is a node"),
    }
    assert_eq!(root.text(), "a");
}
