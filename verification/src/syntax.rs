//! Handles on the elements of a syntax tree.
//!
//! The tree itself is stored by `rowan`. This module is the only place that
//! talks to it: a handful of small functions whose contracts say, over the
//! model of [`crate::tree`], what the storage hands back. Everything else is
//! verified against those contracts.
//!
//! A [`Node`] or [`Token`] can only be obtained from [`Node::new_root`] or by
//! navigating from another handle, so every handle belongs to an immutable
//! tree whose text is short enough for its byte offsets to be representable.

use vstd::prelude::*;
use vstd::string::StringExecFns;
use crate::kind::SyntaxKind;
use crate::tree::Cursor;
use crate::tree::Tree;
use crate::tree::lemma_child;

verus! {

/// `rowan::GreenNode`: an immutable tree as the storage builds it. Nothing
/// is known of it but what [`green_tree`] names.
#[verifier::external_type_specification]
#[verifier::external_body]
pub struct ExGreenNode(rowan::GreenNode);

/// `rowan::cursor::SyntaxNode`: the storage's handle on a node. Nothing is
/// known of it but what [`node_cursor`] names.
#[verifier::external_type_specification]
#[verifier::external_body]
pub struct ExRawNode(rowan::cursor::SyntaxNode);

/// `rowan::cursor::SyntaxToken`: the storage's handle on a token. Nothing is
/// known of it but what [`token_cursor`] names.
#[verifier::external_type_specification]
#[verifier::external_body]
pub struct ExRawToken(rowan::cursor::SyntaxToken);

/// The tree that a green node stores: the kinds of its elements, the text of
/// its tokens and the order of the children of its nodes.
pub uninterp spec fn green_tree(green: rowan::GreenNode) -> Tree;

/// The position that a node handle of an immutable tree points at: the tree
/// of the root that the handle descends from, and the path of child indices
/// from that root.
pub uninterp spec fn node_cursor(node: rowan::cursor::SyntaxNode) -> Cursor;

/// The position that a token handle of an immutable tree points at, as for
/// a node.
pub uninterp spec fn token_cursor(token: rowan::cursor::SyntaxToken) -> Cursor;

/// A child as the storage hands it out: a node or a token.
enum RawElement {
    Node(rowan::cursor::SyntaxNode),
    Token(rowan::cursor::SyntaxToken),
}

impl RawElement {
    /// Whether the handle points at `at`, and is a node handle exactly when
    /// the element there is a node.
    spec fn stands_at(self, at: Cursor) -> bool {
        match self {
            RawElement::Node(node) => node_cursor(node) == at && at.tree() is Node,
            RawElement::Token(token) => token_cursor(token) == at && at.tree() is Token,
        }
    }
}

/// `rowan::cursor::SyntaxNode::new_root`: a handle on the root of an
/// immutable tree over the given green node. The root is a node and its path
/// is empty.
#[verifier::external_body]
fn raw_root(green: rowan::GreenNode) -> (r: rowan::cursor::SyntaxNode)
    ensures
        node_cursor(r) == (Cursor { root: green_tree(green), path: Seq::empty() }),
        node_cursor(r).tree() is Node,
{
    rowan::cursor::SyntaxNode::new_root(green)
}

/// `rowan::cursor::SyntaxNode::kind`: the kind tag stored for the node.
#[verifier::external_body]
fn raw_node_kind(node: &rowan::cursor::SyntaxNode) -> (r: u16)
    ensures
        r == node_cursor(*node).tree().kind(),
{
    node.kind().0
}

/// `rowan::cursor::SyntaxToken::kind`: the kind tag stored for the token.
#[verifier::external_body]
fn raw_token_kind(token: &rowan::cursor::SyntaxToken) -> (r: u16)
    ensures
        r == token_cursor(*token).tree().kind(),
{
    token.kind().0
}

/// `rowan::cursor::SyntaxToken::text`: the source text stored for the
/// token.
#[verifier::external_body]
fn raw_token_text(token: &rowan::cursor::SyntaxToken) -> (r: &str)
    ensures
        r@ == token_cursor(*token).tree().token_text(),
{
    token.text()
}

/// `rowan::cursor::SyntaxNode::parent`: nothing for the root, else a handle
/// on the node one step up the path.
#[verifier::external_body]
fn raw_node_parent(node: &rowan::cursor::SyntaxNode) -> (r: Option<rowan::cursor::SyntaxNode>)
    ensures
        r is None <==> node_cursor(*node).is_root(),
        r is Some ==> node_cursor(r->0) == node_cursor(*node).parent(),
        r is Some ==> node_cursor(r->0).tree() is Node,
{
    node.parent()
}

/// `rowan::cursor::SyntaxToken::parent`: a handle on the node one step up
/// the path, or nothing where the path is empty.
#[verifier::external_body]
fn raw_token_parent(token: &rowan::cursor::SyntaxToken) -> (r: Option<rowan::cursor::SyntaxNode>)
    ensures
        r is None <==> token_cursor(*token).is_root(),
        r is Some ==> node_cursor(r->0) == token_cursor(*token).parent(),
        r is Some ==> node_cursor(r->0).tree() is Node,
{
    token.parent()
}

/// `rowan::cursor::SyntaxNode::first_child_or_token`: nothing for a node
/// without children, else a handle on the child of index 0.
#[verifier::external_body]
fn raw_first_child(node: &rowan::cursor::SyntaxNode) -> (r: Option<RawElement>)
    ensures
        r is None <==> node_cursor(*node).child_count() == 0,
        r is Some ==> r->0.stands_at(node_cursor(*node).child(0)),
{
    match node.first_child_or_token() {
        Some(rowan::NodeOrToken::Node(n)) => Some(RawElement::Node(n)),
        Some(rowan::NodeOrToken::Token(t)) => Some(RawElement::Token(t)),
        None => None,
    }
}

/// `rowan::cursor::SyntaxNode::next_sibling_or_token`: a handle on the
/// child of the same parent with the next index, or nothing for the root and
/// for a last child.
#[verifier::external_body]
fn raw_node_next(node: &rowan::cursor::SyntaxNode) -> (r: Option<RawElement>)
    ensures
        r is None <==> !node_cursor(*node).has_next(),
        r is Some ==> r->0.stands_at(node_cursor(*node).next()),
{
    match node.next_sibling_or_token() {
        Some(rowan::NodeOrToken::Node(n)) => Some(RawElement::Node(n)),
        Some(rowan::NodeOrToken::Token(t)) => Some(RawElement::Token(t)),
        None => None,
    }
}

/// `rowan::cursor::SyntaxToken::next_sibling_or_token`: as for a node.
#[verifier::external_body]
fn raw_token_next(token: &rowan::cursor::SyntaxToken) -> (r: Option<RawElement>)
    ensures
        r is None <==> !token_cursor(*token).has_next(),
        r is Some ==> r->0.stands_at(token_cursor(*token).next()),
{
    match token.next_sibling_or_token() {
        Some(rowan::NodeOrToken::Node(n)) => Some(RawElement::Node(n)),
        Some(rowan::NodeOrToken::Token(t)) => Some(RawElement::Token(t)),
        None => None,
    }
}

/// `rowan::cursor::SyntaxNode::text_range`: the byte offsets at which the
/// node starts and ends. The storage computes them in 32 bits without a
/// check, so the text of the whole tree must fit.
#[verifier::external_body]
fn raw_node_range(node: &rowan::cursor::SyntaxNode) -> (r: (u32, u32))
    requires
        node_cursor(*node).root.byte_len() <= u32::MAX,
    ensures
        r.0 == node_cursor(*node).start(),
        r.1 == node_cursor(*node).end(),
{
    let range = node.text_range();
    (range.start().into(), range.end().into())
}

/// `rowan::cursor::SyntaxToken::text_range`: as for a node.
#[verifier::external_body]
fn raw_token_range(token: &rowan::cursor::SyntaxToken) -> (r: (u32, u32))
    requires
        token_cursor(*token).root.byte_len() <= u32::MAX,
    ensures
        r.0 == token_cursor(*token).start(),
        r.1 == token_cursor(*token).end(),
{
    let range = token.text_range();
    (range.start().into(), range.end().into())
}

/// `Clone` of `rowan::cursor::SyntaxNode`: a second handle on the same
/// element.
#[verifier::external_body]
fn raw_node_clone(node: &rowan::cursor::SyntaxNode) -> (r: rowan::cursor::SyntaxNode)
    ensures
        node_cursor(r) == node_cursor(*node),
{
    node.clone()
}

/// `Clone` of `rowan::cursor::SyntaxToken`: a second handle on the same
/// element.
#[verifier::external_body]
fn raw_token_clone(token: &rowan::cursor::SyntaxToken) -> (r: rowan::cursor::SyntaxToken)
    ensures
        token_cursor(r) == token_cursor(*token),
{
    token.clone()
}

/// A range of bytes of the source text.
#[derive(Clone, Copy, Debug, PartialEq, Eq, Structural)]
pub struct Span {
    /// The offset of the first byte.
    pub start: usize,
    /// The offset one past the last byte.
    pub end: usize,
}

/// A handle on a node of a syntax tree.
#[derive(Debug, PartialEq, Eq)]
pub struct Node {
    raw: rowan::cursor::SyntaxNode,
}

/// A handle on a token of a syntax tree.
#[derive(Debug, PartialEq, Eq)]
pub struct Token {
    raw: rowan::cursor::SyntaxToken,
}

/// A handle on a node or a token.
#[derive(Debug, PartialEq, Eq)]
pub enum Element {
    /// The element is a node.
    Node(Node),
    /// The element is a token.
    Token(Token),
}

impl View for Node {
    type V = Cursor;

    closed spec fn view(&self) -> Cursor {
        node_cursor(self.raw)
    }
}

impl View for Token {
    type V = Cursor;

    closed spec fn view(&self) -> Cursor {
        token_cursor(self.raw)
    }
}

impl View for Element {
    type V = Cursor;

    open spec fn view(&self) -> Cursor {
        match self {
            Element::Node(node) => node@,
            Element::Token(token) => token@,
        }
    }
}

impl Clone for Node {
    fn clone(&self) -> (r: Self)
        ensures
            r@ == self@,
    {
        proof {
            use_type_invariant(self);
        }
        Node { raw: raw_node_clone(&self.raw) }
    }
}

impl Clone for Token {
    fn clone(&self) -> (r: Self)
        ensures
            r@ == self@,
    {
        proof {
            use_type_invariant(self);
        }
        Token { raw: raw_token_clone(&self.raw) }
    }
}

impl Clone for Element {
    fn clone(&self) -> (r: Self)
        ensures
            r@ == self@,
            r is Node <==> self is Node,
    {
        match self {
            Element::Node(node) => Element::Node(node.clone()),
            Element::Token(token) => Element::Token(token.clone()),
        }
    }
}

/// Measures the text under a stored node: its length in bytes, or nothing
/// where that exceeds `u32::MAX`.
fn measure(node: &rowan::cursor::SyntaxNode) -> (r: Option<u32>)
    requires
        node_cursor(*node).tree() is Node,
    ensures
        r is Some <==> node_cursor(*node).tree().byte_len() <= u32::MAX,
        r is Some ==> r->0 == node_cursor(*node).tree().byte_len(),
    decreases node_cursor(*node).tree(),
{
    let ghost at = node_cursor(*node);
    let ghost children = at.tree().children();
    let ghost mut i: nat = 0;
    let mut total: u32 = 0;
    let mut next = raw_first_child(node);
    loop
        invariant_except_break
            at == node_cursor(*node),
            children == at.tree().children(),
            at.tree() is Node,
            i <= children.len(),
            next is None <==> i == children.len(),
            next is Some ==> next->0.stands_at(at.child(i as int)),
            total == Tree::prefix_len(children, i),
        ensures
            total == Tree::prefix_len(children, children.len()),
        decreases children.len() - i,
    {
        match next {
            None => {
                break;
            },
            Some(element) => {
                let ghost child = children[i as int];
                proof {
                    lemma_child(at, i as int);
                    Tree::lemma_prefix_len_grows(children, i + 1, children.len());
                    assert(child == at.child(i as int).tree());
                    assert(Tree::prefix_len(children, i + 1) == total + child.byte_len());
                    assert(at.tree().byte_len() == Tree::prefix_len(children, children.len()));
                }
                let len = match &element {
                    RawElement::Node(child) => measure(child),
                    RawElement::Token(token) => {
                        let n = raw_token_text(token).as_bytes().len();
                        if n <= 0xffff_ffff {
                            Some(n as u32)
                        } else {
                            None
                        }
                    },
                };
                proof {
                    assert(len is Some ==> len->0 == child.byte_len());
                    assert(len is None ==> child.byte_len() > u32::MAX);
                }
                let sum = match len {
                    Some(len) => total.checked_add(len),
                    None => None,
                };
                match sum {
                    Some(sum) => {
                        total = sum;
                    },
                    None => {
                        return None;
                    },
                }
                next = match &element {
                    RawElement::Node(child) => raw_node_next(child),
                    RawElement::Token(token) => raw_token_next(token),
                };
                proof {
                    i = i + 1;
                }
            },
        }
    }
    Some(total)
}

/// Appends to `out` the source text under `node`.
fn append_text(node: &Node, out: &mut String)
    ensures
        final(out)@ == old(out)@ + node@.tree().text(),
    decreases node@.tree(),
{
    let ghost at = node@;
    let ghost children = at.tree().children();
    let ghost before = out@;
    let ghost mut k: nat = 0;
    let mut next = node.first_child_or_token();
    proof {
        use_type_invariant(node);
    }
    loop
        invariant_except_break
            at == node@,
            at.tree() is Node,
            children == at.tree().children(),
            k <= children.len(),
            next is None <==> k == children.len(),
            next is Some ==> next->0.stands_at(at.child(k as int)),
            out@ == before + Tree::prefix_text(children, k),
        ensures
            out@ == before + Tree::prefix_text(children, children.len()),
        decreases children.len() - k,
    {
        match next {
            None => {
                break;
            },
            Some(element) => {
                let ghost child = children[k as int];
                let ghost so_far = out@;
                proof {
                    lemma_child(at, k as int);
                    assert(child == at.child(k as int).tree());
                    assert(Tree::prefix_text(children, k + 1) == Tree::prefix_text(children, k)
                        + child.text());
                }
                match &element {
                    Element::Node(inner) => {
                        append_text(inner, out);
                    },
                    Element::Token(token) => {
                        out.append(token.text());
                    },
                }
                proof {
                    assert(out@ == so_far + child.text());
                    assert(out@ =~= before + Tree::prefix_text(children, k + 1));
                }
                next = element.next_sibling_or_token();
                proof {
                    k = k + 1;
                }
            },
        }
    }
}

impl Node {
    #[verifier::type_invariant]
    spec fn valid(self) -> bool {
        self@.tree() is Node && self@.root.byte_len() <= u32::MAX
    }

    /// Makes a handle on the root of the tree that `green` stores. Gives
    /// nothing where the text of the tree is longer than `u32::MAX` bytes,
    /// the longest that byte offsets can address.
    pub fn new_root(green: rowan::GreenNode) -> (r: Option<Node>)
        ensures
            r is Some <==> green_tree(green).byte_len() <= u32::MAX,
            r is Some ==> r->0@ == (Cursor { root: green_tree(green), path: Seq::empty() }),
    {
        let raw = raw_root(green);
        match measure(&raw) {
            Some(_) => Some(Node { raw }),
            None => None,
        }
    }

    /// Gets the kind of the node.
    pub fn kind(&self) -> (r: SyntaxKind)
        ensures
            r == self@.kind(),
            self@.tree() is Node,
    {
        proof {
            use_type_invariant(self);
        }
        SyntaxKind::from_raw(raw_node_kind(&self.raw))
    }

    /// Gets the node that this node is a child of; the root has none.
    pub fn parent(&self) -> (r: Option<Node>)
        ensures
            r is None <==> self@.is_root(),
            r is Some ==> r->0@ == self@.parent(),
    {
        proof {
            use_type_invariant(self);
        }
        match raw_node_parent(&self.raw) {
            Some(raw) => Some(Node { raw }),
            None => None,
        }
    }

    /// Gets the first child of the node, be it a node or a token.
    pub fn first_child_or_token(&self) -> (r: Option<Element>)
        ensures
            r is None <==> self@.child_count() == 0,
            r is Some ==> r->0.stands_at(self@.child(0)),
    {
        proof {
            use_type_invariant(self);
        }
        match raw_first_child(&self.raw) {
            Some(RawElement::Node(raw)) => Some(Element::Node(Node { raw })),
            Some(RawElement::Token(raw)) => Some(Element::Token(Token { raw })),
            None => None,
        }
    }

    /// Gets the element that follows the node under the same parent.
    pub fn next_sibling_or_token(&self) -> (r: Option<Element>)
        ensures
            r is None <==> !self@.has_next(),
            r is Some ==> r->0.stands_at(self@.next()),
    {
        proof {
            use_type_invariant(self);
        }
        match raw_node_next(&self.raw) {
            Some(RawElement::Node(raw)) => Some(Element::Node(Node { raw })),
            Some(RawElement::Token(raw)) => Some(Element::Token(Token { raw })),
            None => None,
        }
    }

    /// Gets the children of the node, nodes and tokens alike, in source
    /// order.
    pub fn children_with_tokens(&self) -> (r: Vec<Element>)
        ensures
            r@.len() == self@.child_count(),
            forall|i: int| 0 <= i < r@.len() ==> (#[trigger] r@[i]).stands_at(self@.child(i)),
    {
        let mut children: Vec<Element> = Vec::new();
        let mut next = self.first_child_or_token();
        loop
            invariant_except_break
                children@.len() <= self@.child_count(),
                next is None <==> children@.len() == self@.child_count(),
                next is Some ==> next->0.stands_at(self@.child(children@.len() as int)),
                forall|i: int|
                    0 <= i < children@.len() ==> (#[trigger] children@[i]).stands_at(
                        self@.child(i),
                    ),
            ensures
                children@.len() == self@.child_count(),
                forall|i: int|
                    0 <= i < children@.len() ==> (#[trigger] children@[i]).stands_at(
                        self@.child(i),
                    ),
            decreases self@.child_count() - children@.len(),
        {
            match next {
                None => {
                    break;
                },
                Some(element) => {
                    proof {
                        lemma_child(self@, children@.len() as int);
                    }
                    next = element.next_sibling_or_token();
                    children.push(element);
                },
            }
        }
        children
    }

    /// Gets the source text that the node covers.
    pub fn text(&self) -> (r: String)
        ensures
            r@ == self@.tree().text(),
    {
        let mut out = String::new();
        append_text(self, &mut out);
        proof {
            assert(Seq::<char>::empty() + self@.tree().text() =~= self@.tree().text());
        }
        out
    }

    /// Gets the range of source bytes that the node covers.
    pub fn span(&self) -> (r: Span)
        ensures
            r.start == self@.start(),
            r.end == self@.end(),
    {
        proof {
            use_type_invariant(self);
        }
        let (start, end) = raw_node_range(&self.raw);
        Span { start: start as usize, end: end as usize }
    }
}

impl Token {
    #[verifier::type_invariant]
    spec fn valid(self) -> bool {
        self@.tree() is Token && self@.root.byte_len() <= u32::MAX
    }

    /// Gets the kind of the token.
    pub fn kind(&self) -> (r: SyntaxKind)
        ensures
            r == self@.kind(),
            self@.tree() is Token,
    {
        proof {
            use_type_invariant(self);
        }
        SyntaxKind::from_raw(raw_token_kind(&self.raw))
    }

    /// Gets the source text of the token.
    pub fn text(&self) -> (r: &str)
        ensures
            r@ == self@.tree().token_text(),
    {
        raw_token_text(&self.raw)
    }

    /// Gets the node that the token is a child of.
    pub fn parent(&self) -> (r: Option<Node>)
        ensures
            r is None <==> self@.is_root(),
            r is Some ==> r->0@ == self@.parent(),
    {
        proof {
            use_type_invariant(self);
        }
        match raw_token_parent(&self.raw) {
            Some(raw) => Some(Node { raw }),
            None => None,
        }
    }

    /// Gets the element that follows the token under the same parent.
    pub fn next_sibling_or_token(&self) -> (r: Option<Element>)
        ensures
            r is None <==> !self@.has_next(),
            r is Some ==> r->0.stands_at(self@.next()),
    {
        proof {
            use_type_invariant(self);
        }
        match raw_token_next(&self.raw) {
            Some(RawElement::Node(raw)) => Some(Element::Node(Node { raw })),
            Some(RawElement::Token(raw)) => Some(Element::Token(Token { raw })),
            None => None,
        }
    }

    /// Gets the range of source bytes that the token covers.
    pub fn span(&self) -> (r: Span)
        ensures
            r.start == self@.start(),
            r.end == self@.end(),
    {
        proof {
            use_type_invariant(self);
        }
        let (start, end) = raw_token_range(&self.raw);
        Span { start: start as usize, end: end as usize }
    }
}

impl Element {
    /// Whether the handle points at `at`, and is a node handle exactly when
    /// the element there is a node.
    pub open spec fn stands_at(self, at: Cursor) -> bool {
        self@ == at && (self is Node <==> at.tree() is Node) && (self is Token <==> at.tree() is Token)
    }

    /// Gets the kind of the element.
    pub fn kind(&self) -> (r: SyntaxKind)
        ensures
            r == self@.kind(),
    {
        match self {
            Element::Node(node) => node.kind(),
            Element::Token(token) => token.kind(),
        }
    }

    /// Gets the element that follows this one under the same parent.
    pub fn next_sibling_or_token(&self) -> (r: Option<Element>)
        ensures
            r is None <==> !self@.has_next(),
            r is Some ==> r->0.stands_at(self@.next()),
    {
        match self {
            Element::Node(node) => node.next_sibling_or_token(),
            Element::Token(token) => token.next_sibling_or_token(),
        }
    }
}

} // verus!
