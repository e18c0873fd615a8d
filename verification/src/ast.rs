//! Typed wrappers over the elements of a syntax tree, and the projections
//! of a node's children onto them.

use std::marker::PhantomData;
use vstd::prelude::*;
use crate::kind::SyntaxKind;
use crate::syntax::Element;
use crate::syntax::Node;
use crate::syntax::Token;
use crate::tree::Cursor;
use crate::tree::lemma_child;

verus! {

/// A grammar concept that is a node of the tree.
pub trait AstNode: Sized {
    /// The kinds of the nodes that are this concept.
    spec fn accepts(kind: SyntaxKind) -> bool;

    /// The position of the node that the value wraps.
    spec fn position(&self) -> Cursor;

    /// Gets whether a node of the given kind is this concept.
    fn can_cast(kind: SyntaxKind) -> (r: bool)
        ensures
            r == Self::accepts(kind),
    ;

    /// Wraps the node, which succeeds exactly when its kind is accepted.
    fn cast(syntax: Node) -> (r: Option<Self>)
        ensures
            r is Some <==> Self::accepts(syntax@.kind()),
            r is Some ==> r->0.position() == syntax@,
    ;

    /// Gets the wrapped node, whose kind is an accepted one.
    fn syntax(&self) -> (r: &Node)
        ensures
            r@ == self.position(),
            Self::accepts(r@.kind()),
    ;
}

/// A grammar concept that is a token of the tree.
pub trait AstToken: Sized {
    /// The kinds of the tokens that are this concept.
    spec fn accepts(kind: SyntaxKind) -> bool;

    /// The position of the token that the value wraps.
    spec fn position(&self) -> Cursor;

    /// Gets whether a token of the given kind is this concept.
    fn can_cast(kind: SyntaxKind) -> (r: bool)
        ensures
            r == Self::accepts(kind),
    ;

    /// Wraps the token, which succeeds exactly when its kind is accepted.
    fn cast(syntax: Token) -> (r: Option<Self>)
        ensures
            r is Some <==> Self::accepts(syntax@.kind()),
            r is Some ==> r->0.position() == syntax@,
    ;

    /// Gets the wrapped token, whose kind is an accepted one.
    fn syntax(&self) -> (r: &Token)
        ensures
            r@ == self.position(),
            Self::accepts(r@.kind()),
    ;

    /// Gets the source text of the token.
    fn as_str(&self) -> (r: &str)
        ensures
            r@ == self.position().tree().token_text(),
    {
        self.syntax().text()
    }

    /// Gets the range of source bytes that the token covers.
    fn span(&self) -> (r: crate::syntax::Span)
        ensures
            r.start == self.position().start(),
            r.end == self.position().end(),
    {
        self.syntax().span()
    }
}

/// Represents an identifier.
#[derive(Debug, PartialEq, Eq)]
pub struct Ident(pub(crate) Token);

impl Ident {
    #[verifier::type_invariant]
    spec fn kinded(self) -> bool {
        self.0@.kind() == SyntaxKind::Ident
    }
}

impl Clone for Ident {
    fn clone(&self) -> (r: Self)
        ensures
            r.position() == self.position(),
    {
        proof {
            use_type_invariant(self);
        }
        Self(self.0.clone())
    }
}

impl AstToken for Ident {
    open spec fn accepts(kind: SyntaxKind) -> bool {
        kind == SyntaxKind::Ident
    }

    closed spec fn position(&self) -> Cursor {
        self.0@
    }

    fn can_cast(kind: SyntaxKind) -> (r: bool) {
        kind == SyntaxKind::Ident
    }

    fn cast(syntax: Token) -> (r: Option<Self>) {
        match syntax.kind() {
            SyntaxKind::Ident => Some(Self(syntax)),
            _ => None,
        }
    }

    fn syntax(&self) -> (r: &Token) {
        proof {
            use_type_invariant(self);
            assert(Self::accepts(self.0@.kind()));
        }
        &self.0
    }
}

/// `==` of `str`: whether two strings hold the same characters.
#[verifier::external_body]
pub(crate) fn same_text(a: &str, b: &str) -> (r: bool)
    ensures
        r == (a@ == b@),
{
    a == b
}

/// The children of `at` that are nodes of concept `N`, in source order.
pub open spec fn node_children<N: AstNode>(at: Cursor) -> Seq<Cursor> {
    at.children().filter(|c: Cursor| c.tree() is Node && N::accepts(c.kind()))
}

/// The children of `at` that are tokens of concept `T`, in source order.
pub open spec fn token_children<T: AstToken>(at: Cursor) -> Seq<Cursor> {
    at.children().filter(|c: Cursor| c.tree() is Token && T::accepts(c.kind()))
}

/// The children of `at` that are tokens of the given kind, in source order.
pub open spec fn tokens_of_kind(at: Cursor, kind: SyntaxKind) -> Seq<Cursor> {
    at.children().filter(|c: Cursor| c.tree() is Token && c.kind() == kind)
}

/// The positions of a sequence of typed nodes.
pub open spec fn positions<N: AstNode>(nodes: Seq<N>) -> Seq<Cursor> {
    nodes.map_values(|n: N| n.position())
}

/// The first `k + 1` children are the first `k` and the child of index `k`.
pub proof fn lemma_children_take(at: Cursor, k: int)
    requires
        0 <= k < at.child_count(),
    ensures
        at.children().take(k + 1) == at.children().take(k).push(at.child(k)),
        at.children().take(0) == Seq::<Cursor>::empty(),
        at.children().take(at.child_count() as int) == at.children(),
{
    assert(at.children().take(k + 1) =~= at.children().take(k).push(at.child(k)));
    assert(at.children().take(0) =~= Seq::<Cursor>::empty());
    assert(at.children().take(at.child_count() as int) =~= at.children());
}

/// What a projection keeps is a child of the node, of an accepted kind, and
/// has the node as its parent.
pub proof fn lemma_node_child<N: AstNode>(at: Cursor, i: int)
    requires
        0 <= i < node_children::<N>(at).len(),
    ensures
        at.children().contains(node_children::<N>(at)[i]),
        N::accepts(node_children::<N>(at)[i].kind()),
        node_children::<N>(at)[i].tree() is Node,
        node_children::<N>(at)[i].parent() == at,
        !node_children::<N>(at)[i].is_root(),
{
    let pred = |c: Cursor| c.tree() is Node && N::accepts(c.kind());
    let kept = node_children::<N>(at)[i];
    at.children().lemma_filter_pred(pred, i);
    assert(at.children().filter(pred).contains(kept));
    at.children().lemma_filter_contains_rev(pred, kept);
    let j = choose|j: int| 0 <= j < at.children().len() && at.children()[j] == kept;
    lemma_child(at, j);
}

/// The children of a node that are nodes of concept `N`, handed out one
/// after the other in source order. No child is looked at before it is
/// asked for.
pub struct AstChildren<N: AstNode> {
    next: Option<Element>,
    at: Ghost<Cursor>,
    index: Ghost<int>,
    marker: PhantomData<N>,
}

impl<N: AstNode> AstChildren<N> {
    #[verifier::type_invariant]
    spec fn valid(self) -> bool {
        &&& 0 <= self.index@ <= self.at@.child_count()
        &&& self.next is None <==> self.index@ == self.at@.child_count()
        &&& self.next is Some ==> self.next->0.stands_at(self.at@.child(self.index@))
    }

    /// The positions of the nodes that are still to come, in source order.
    pub closed spec fn remaining(&self) -> Seq<Cursor> {
        self.at@.children().skip(self.index@).filter(
            |c: Cursor| c.tree() is Node && N::accepts(c.kind()),
        )
    }

    /// Makes the projection of the children of `parent`.
    pub fn new(parent: &Node) -> (r: Self)
        ensures
            r.remaining() == node_children::<N>(parent@),
    {
        let next = parent.first_child_or_token();
        proof {
            assert(parent@.children().skip(0) =~= parent@.children());
        }
        AstChildren { next, at: Ghost(parent@), index: Ghost(0), marker: PhantomData }
    }

    /// Hands out the next node, if one is left.
    pub fn next(&mut self) -> (r: Option<N>)
        ensures
            r is None <==> old(self).remaining().len() == 0,
            r is Some ==> r->0.position() == old(self).remaining()[0],
            r is Some ==> final(self).remaining() == old(self).remaining().drop_first(),
            r is None ==> final(self).remaining() == old(self).remaining(),
    {
        proof {
            use_type_invariant(&*self);
        }
        let ghost at = self.at@;
        let ghost pred = |c: Cursor| c.tree() is Node && N::accepts(c.kind());
        let ghost start = self.remaining();
        let ghost mut k = self.index@;
        let mut next = match &self.next {
            Some(element) => Some(element.clone()),
            None => None,
        };
        loop
            invariant
                pred == |c: Cursor| c.tree() is Node && N::accepts(c.kind()),
                start == old(self).remaining(),
                0 <= k <= at.child_count(),
                next is None <==> k == at.child_count(),
                next is Some ==> next->0.stands_at(at.child(k)),
                at.children().skip(k).filter(pred) == start,
            decreases at.child_count() - k,
        {
            match next {
                None => {
                    proof {
                        assert(at.children().skip(k) =~= Seq::<Cursor>::empty());
                        reveal(Seq::filter);
                    }
                    *self = AstChildren {
                        next: None,
                        at: Ghost(at),
                        index: Ghost(k),
                        marker: PhantomData,
                    };
                    return None;
                },
                Some(element) => {
                    proof {
                        lemma_child(at, k);
                        assert(at.children().skip(k) =~= seq![at.child(k)] + at.children().skip(
                            k + 1,
                        ));
                        at.children().skip(k + 1).lemma_filter_prepend(at.child(k), pred);
                    }
                    let following = element.next_sibling_or_token();
                    match element {
                        Element::Node(node) => {
                            match N::cast(node) {
                                Some(typed) => {
                                    proof {
                                        assert(start.drop_first() =~= at.children().skip(
                                            k + 1,
                                        ).filter(pred));
                                    }
                                    *self = AstChildren {
                                        next: following,
                                        at: Ghost(at),
                                        index: Ghost(k + 1),
                                        marker: PhantomData,
                                    };
                                    return Some(typed);
                                },
                                None => {},
                            }
                        },
                        Element::Token(_) => {},
                    }
                    proof {
                        assert(start =~= at.children().skip(k + 1).filter(pred));
                        k = k + 1;
                    }
                    next = following;
                },
            }
        }
    }

    /// Hands out all the nodes that are left.
    pub fn collect(self) -> (r: Vec<N>)
        ensures
            positions(r@) == self.remaining(),
    {
        let ghost start = self.remaining();
        let mut rest = self;
        let mut found: Vec<N> = Vec::new();
        proof {
            assert(positions(found@) + rest.remaining() =~= start);
        }
        loop
            invariant_except_break
                positions(found@) + rest.remaining() == start,
            ensures
                positions(found@) == start,
            decreases rest.remaining().len(),
        {
            let ghost before = found@;
            let ghost left = rest.remaining();
            match rest.next() {
                Some(typed) => {
                    found.push(typed);
                    proof {
                        assert(positions(found@) =~= positions(before).push(left[0]));
                        assert(positions(found@) + rest.remaining() =~= start);
                    }
                },
                None => {
                    proof {
                        assert(positions(found@) + left =~= positions(found@));
                    }
                    break;
                },
            }
        }
        found
    }
}

/// Gets the children of `parent` that are nodes of concept `N`, in source
/// order.
pub fn children<N: AstNode>(parent: &Node) -> (r: AstChildren<N>)
    ensures
        r.remaining() == node_children::<N>(parent@),
{
    AstChildren::new(parent)
}

/// Where none of the first `k` elements passes a filter and the next one
/// does, that one is the first to pass.
pub proof fn lemma_first_match<A>(all: Seq<A>, pred: spec_fn(A) -> bool, k: int)
    requires
        0 <= k < all.len(),
        all.take(k).filter(pred).len() == 0,
        pred(all[k]),
    ensures
        all.filter(pred).len() > 0,
        all.filter(pred)[0] == all[k],
{
    let head = all.take(k + 1);
    let tail = all.skip(k + 1);
    assert(all =~= head + tail);
    assert(head =~= all.take(k).push(all[k]));
    all.take(k).lemma_filter_push(all[k], pred);
    Seq::filter_distributes_over_add(head, tail, pred);
    assert(head.filter(pred) =~= seq![all[k]]);
}

/// Gets the first child of `parent` that is a node of concept `N`.
pub fn child<N: AstNode>(parent: &Node) -> (r: Option<N>)
    ensures
        r is None <==> node_children::<N>(parent@).len() == 0,
        r is Some ==> r->0.position() == node_children::<N>(parent@)[0],
{
    let ghost at = parent@;
    let ghost pred = |c: Cursor| c.tree() is Node && N::accepts(c.kind());
    let ghost mut k: int = 0;
    let mut next = parent.first_child_or_token();
    proof {
        assert(at.children().take(0) =~= Seq::<Cursor>::empty());
        reveal(Seq::filter);
    }
    loop
        invariant
            at == parent@,
            pred == |c: Cursor| c.tree() is Node && N::accepts(c.kind()),
            0 <= k <= at.child_count(),
            next is None <==> k == at.child_count(),
            next is Some ==> next->0.stands_at(at.child(k)),
            at.children().take(k).filter(pred).len() == 0,
        decreases at.child_count() - k,
    {
        match next {
            None => {
                proof {
                    assert(at.children().take(k) =~= at.children());
                }
                return None;
            },
            Some(element) => {
                proof {
                    lemma_child(at, k);
                    lemma_children_take(at, k);
                    at.children().take(k).lemma_filter_push(at.child(k), pred);
                }
                next = element.next_sibling_or_token();
                match element {
                    Element::Node(node) => {
                        match N::cast(node) {
                            Some(typed) => {
                                proof {
                                    lemma_first_match(at.children(), pred, k);
                                }
                                return Some(typed);
                            },
                            None => {},
                        }
                    },
                    Element::Token(_) => {},
                }
                proof {
                    k = k + 1;
                }
            },
        }
    }
}

/// Gets the first child of `parent` that is a token of concept `T`.
pub fn token<T: AstToken>(parent: &Node) -> (r: Option<T>)
    ensures
        r is None <==> token_children::<T>(parent@).len() == 0,
        r is Some ==> r->0.position() == token_children::<T>(parent@)[0],
{
    let ghost at = parent@;
    let ghost pred = |c: Cursor| c.tree() is Token && T::accepts(c.kind());
    let ghost mut k: int = 0;
    let mut next = parent.first_child_or_token();
    proof {
        assert(at.children().take(0) =~= Seq::<Cursor>::empty());
        reveal(Seq::filter);
    }
    loop
        invariant
            at == parent@,
            pred == |c: Cursor| c.tree() is Token && T::accepts(c.kind()),
            0 <= k <= at.child_count(),
            next is None <==> k == at.child_count(),
            next is Some ==> next->0.stands_at(at.child(k)),
            at.children().take(k).filter(pred).len() == 0,
        decreases at.child_count() - k,
    {
        match next {
            None => {
                proof {
                    assert(at.children().take(k) =~= at.children());
                }
                return None;
            },
            Some(element) => {
                proof {
                    lemma_child(at, k);
                    lemma_children_take(at, k);
                    at.children().take(k).lemma_filter_push(at.child(k), pred);
                }
                next = element.next_sibling_or_token();
                match element {
                    Element::Token(token) => {
                        match T::cast(token) {
                            Some(typed) => {
                                proof {
                                    lemma_first_match(at.children(), pred, k);
                                }
                                return Some(typed);
                            },
                            None => {},
                        }
                    },
                    Element::Node(_) => {},
                }
                proof {
                    k = k + 1;
                }
            },
        }
    }
}

/// Gets the first child of `parent` that is a token of the given kind.
pub fn token_of_kind(parent: &Node, kind: SyntaxKind) -> (r: Option<Token>)
    ensures
        r is None <==> tokens_of_kind(parent@, kind).len() == 0,
        r is Some ==> r->0@ == tokens_of_kind(parent@, kind)[0],
{
    let ghost at = parent@;
    let ghost pred = |c: Cursor| c.tree() is Token && c.kind() == kind;
    let ghost mut k: int = 0;
    let mut next = parent.first_child_or_token();
    proof {
        assert(at.children().take(0) =~= Seq::<Cursor>::empty());
        reveal(Seq::filter);
    }
    loop
        invariant
            at == parent@,
            pred == |c: Cursor| c.tree() is Token && c.kind() == kind,
            0 <= k <= at.child_count(),
            next is None <==> k == at.child_count(),
            next is Some ==> next->0.stands_at(at.child(k)),
            at.children().take(k).filter(pred).len() == 0,
        decreases at.child_count() - k,
    {
        match next {
            None => {
                proof {
                    assert(at.children().take(k) =~= at.children());
                }
                return None;
            },
            Some(element) => {
                proof {
                    lemma_child(at, k);
                    lemma_children_take(at, k);
                    at.children().take(k).lemma_filter_push(at.child(k), pred);
                }
                next = element.next_sibling_or_token();
                match element {
                    Element::Token(token) => {
                        if token.kind() == kind {
                            proof {
                                lemma_first_match(at.children(), pred, k);
                            }
                            return Some(token);
                        }
                    },
                    Element::Node(_) => {},
                }
                proof {
                    k = k + 1;
                }
            },
        }
    }
}

} // verus!
