//! The mathematical model of a lossless syntax tree.
//!
//! A tree is a plain value: every element has a kind tag, a token carries
//! its source text and a node carries its children in source order. An
//! element of a tree is addressed by the path of child indices that leads to
//! it from the root. Byte offsets are derived from the text of the tokens.

use vstd::prelude::*;
use vstd::utf8::encode_utf8;
use crate::kind::SyntaxKind;

verus! {

/// The shape of a lossless syntax tree.
pub enum Tree {
    /// An inner element: a kind tag and the children in source order.
    Node { kind: u16, children: Seq<Tree> },
    /// A leaf: a kind tag and the source text it covers.
    Token { kind: u16, text: Seq<char> },
}

impl Tree {
    /// The raw kind tag of the element.
    pub open spec fn kind(self) -> u16 {
        match self {
            Tree::Node { kind, .. } => kind,
            Tree::Token { kind, .. } => kind,
        }
    }

    /// The children of the element; a token has none.
    pub open spec fn children(self) -> Seq<Tree> {
        match self {
            Tree::Node { children, .. } => children,
            Tree::Token { .. } => Seq::empty(),
        }
    }

    /// The source text of a token; empty for a node.
    pub open spec fn token_text(self) -> Seq<char> {
        match self {
            Tree::Node { .. } => Seq::empty(),
            Tree::Token { text, .. } => text,
        }
    }

    /// The number of bytes of source text that the element covers.
    pub open spec fn byte_len(self) -> nat
        decreases self, 0nat,
    {
        match self {
            Tree::Node { children, .. } => Self::prefix_len(children, children.len()),
            Tree::Token { text, .. } => encode_utf8(text).len(),
        }
    }

    /// The number of bytes covered by the first `n` elements of `elements`.
    pub open spec fn prefix_len(elements: Seq<Tree>, n: nat) -> nat
        decreases elements, n,
    {
        if n == 0 || n > elements.len() {
            0
        } else {
            Self::prefix_len(elements, (n - 1) as nat) + elements[n - 1].byte_len()
        }
    }

    /// The source text that the element covers: the text of its tokens in
    /// source order.
    pub open spec fn text(self) -> Seq<char>
        decreases self, 0nat,
    {
        match self {
            Tree::Node { children, .. } => Self::prefix_text(children, children.len()),
            Tree::Token { text, .. } => text,
        }
    }

    /// The source text that the first `n` elements of `elements` cover.
    pub open spec fn prefix_text(elements: Seq<Tree>, n: nat) -> Seq<char>
        decreases elements, n,
    {
        if n == 0 || n > elements.len() {
            Seq::empty()
        } else {
            Self::prefix_text(elements, (n - 1) as nat) + elements[n - 1].text()
        }
    }

    /// A longer prefix covers at least as many bytes.
    pub proof fn lemma_prefix_len_grows(elements: Seq<Tree>, m: nat, n: nat)
        requires
            m <= n <= elements.len(),
        ensures
            Self::prefix_len(elements, m) <= Self::prefix_len(elements, n),
        decreases n,
    {
        if m < n {
            Self::lemma_prefix_len_grows(elements, m, (n - 1) as nat);
        }
    }

    /// The element reached from this one by following `path`.
    pub open spec fn at(self, path: Seq<int>) -> Tree
        decreases path.len(),
    {
        if path.len() == 0 {
            self
        } else {
            self.at(path.drop_last()).children()[path.last()]
        }
    }
}

/// A position in a tree: the whole tree and the path to one element of it.
#[verifier::ext_equal]
pub struct Cursor {
    pub root: Tree,
    pub path: Seq<int>,
}

impl Cursor {
    /// The element under the cursor.
    pub open spec fn tree(self) -> Tree {
        self.root.at(self.path)
    }

    /// Whether the cursor stands on the root.
    pub open spec fn is_root(self) -> bool {
        self.path.len() == 0
    }

    /// The number of children of the element under the cursor.
    pub open spec fn child_count(self) -> nat {
        self.tree().children().len()
    }

    /// The position of the `i`-th child.
    pub open spec fn child(self, i: int) -> Cursor {
        Cursor { root: self.root, path: self.path.push(i) }
    }

    /// The positions of the children, in source order.
    pub open spec fn children(self) -> Seq<Cursor> {
        Seq::new(self.child_count(), |i: int| self.child(i))
    }

    /// The position of the enclosing element.
    pub open spec fn parent(self) -> Cursor {
        Cursor { root: self.root, path: self.path.drop_last() }
    }

    /// The index of the element among its siblings.
    pub open spec fn index(self) -> int {
        self.path.last()
    }

    /// The kind of the element under the cursor.
    pub open spec fn kind(self) -> SyntaxKind {
        SyntaxKind::of_raw(self.tree().kind())
    }

    /// Whether another element follows this one under the same parent.
    pub open spec fn has_next(self) -> bool {
        !self.is_root() && self.index() + 1 < self.parent().child_count()
    }

    /// The position of the element that follows this one under the same
    /// parent.
    pub open spec fn next(self) -> Cursor {
        self.parent().child(self.index() + 1)
    }

    /// The byte offset at which the element starts.
    pub open spec fn start(self) -> nat
        decreases self.path.len(),
    {
        if self.path.len() == 0 {
            0
        } else {
            let up = self.parent();
            if 0 <= self.index() {
                up.start() + Tree::prefix_len(up.tree().children(), self.index() as nat)
            } else {
                up.start()
            }
        }
    }

    /// The byte offset at which the element ends.
    pub open spec fn end(self) -> nat {
        self.start() + self.tree().byte_len()
    }
}

/// The child of a position is the element that its index selects.
pub proof fn lemma_child(c: Cursor, i: int)
    ensures
        c.child(i).tree() == c.tree().children()[i],
        c.child(i).parent() == c,
        c.child(i).index() == i,
        !c.child(i).is_root(),
{
    assert(c.path.push(i).drop_last() =~= c.path);
}

/// The encoding of a text is the encodings of its parts, one after the
/// other.
pub proof fn lemma_encode_concat(first: Seq<char>, second: Seq<char>)
    ensures
        encode_utf8(first + second) == encode_utf8(first) + encode_utf8(second),
    decreases first.len(),
{
    if first.len() == 0 {
        assert(first + second =~= second);
        assert(encode_utf8(first) + encode_utf8(second) =~= encode_utf8(second));
    } else {
        lemma_encode_concat(first.drop_first(), second);
        assert((first + second).drop_first() =~= first.drop_first() + second);
        assert((first + second)[0] == first[0]);
        assert(encode_utf8(first + second) =~= encode_utf8(first) + encode_utf8(second));
    }
}

/// The tree is lossless: an element covers exactly as many bytes as its
/// text has, where the text of a node is the text of its children in source
/// order.
pub proof fn lemma_bytes_of_text(tree: Tree)
    ensures
        tree.byte_len() == encode_utf8(tree.text()).len(),
    decreases tree, 0nat,
{
    match tree {
        Tree::Node { children, .. } => {
            lemma_bytes_of_prefix(children, children.len());
        },
        Tree::Token { .. } => {},
    }
}

/// The first elements of a sequence cover exactly as many bytes as their
/// text has.
pub proof fn lemma_bytes_of_prefix(elements: Seq<Tree>, n: nat)
    ensures
        Tree::prefix_len(elements, n) == encode_utf8(Tree::prefix_text(elements, n)).len(),
    decreases elements, n,
{
    if n == 0 || n > elements.len() {
    } else {
        lemma_bytes_of_prefix(elements, (n - 1) as nat);
        lemma_bytes_of_text(elements[n - 1]);
        lemma_encode_concat(
            Tree::prefix_text(elements, (n - 1) as nat),
            elements[n - 1].text(),
        );
    }
}

/// The children of a node tile it: the first starts where the node starts,
/// each ends where the next starts, and the last ends where the node ends.
pub proof fn lemma_children_tile(at: Cursor, i: int)
    requires
        0 <= i < at.child_count(),
    ensures
        at.child(0).start() == at.start(),
        i + 1 < at.child_count() ==> at.child(i).end() == at.child(i + 1).start(),
        i + 1 == at.child_count() ==> at.child(i).end() == at.end(),
        at.start() <= at.child(i).start() <= at.child(i).end() <= at.end(),
{
    let children = at.tree().children();
    lemma_child(at, 0);
    lemma_child(at, i);
    assert(at.child(i).start() == at.start() + Tree::prefix_len(children, i as nat));
    assert(at.child(0).start() == at.start() + Tree::prefix_len(children, 0));
    assert(Tree::prefix_len(children, (i + 1) as nat) == Tree::prefix_len(children, i as nat)
        + children[i].byte_len());
    Tree::lemma_prefix_len_grows(children, (i + 1) as nat, children.len());
    if i + 1 < at.child_count() {
        lemma_child(at, i + 1);
        assert(at.child(i + 1).start() == at.start() + Tree::prefix_len(
            children,
            (i + 1) as nat,
        ));
    }
}

} // verus!
