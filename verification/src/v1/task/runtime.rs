//! The item of a runtime section that names the container of a task.

use vstd::prelude::*;
use vstd::pervasive::unreached;
use crate::ast::AstChildren;
use crate::ast::AstNode;
use crate::ast::AstToken;
use crate::ast::Ident;
use crate::ast::lemma_first_match;
use crate::ast::node_children;
use crate::ast::positions;
use crate::ast::same_text;
use crate::ast::token;
use crate::ast::token_children;
use crate::tree::Cursor;
use crate::v1::expr::Expr;
use crate::v1::task::RuntimeItem;

verus! {

/// Whether the item at `at` names the container: its name is `container` or `docker`.
pub open spec fn is_container(at: Cursor) -> bool {
    let names = token_children::<Ident>(at);
    names.len() > 0 && (names[0].tree().token_text() == "container"@ || names[0].tree().token_text() == "docker"@)
}

/// The items of the runtime section at `at` that name the container, in
/// source order.
pub open spec fn containers(at: Cursor) -> Seq<Cursor> {
    node_children::<RuntimeItem>(at).filter(|c: Cursor| is_container(c))
}

/// Represents the item of a runtime section that names the container.
#[derive(Debug, PartialEq, Eq)]
pub struct Container(RuntimeItem);

impl Container {
    #[verifier::type_invariant]
    spec fn named(self) -> bool {
        is_container(self.0.position())
    }

    /// The position of the item that the value wraps.
    pub closed spec fn position(&self) -> Cursor {
        self.0.position()
    }

    /// Wraps the item, which succeeds exactly when it names the container.
    pub fn from_item(item: RuntimeItem) -> (r: Option<Container>)
        ensures
            r is Some <==> is_container(item.position()),
            r is Some ==> r->0.position() == item.position(),
    {
        let named = match token::<Ident>(item.syntax()) {
            Some(name) => same_text(name.as_str(), "container") || same_text(name.as_str(), "docker"),
            None => false,
        };
        if named {
            Some(Container(item))
        } else {
            None
        }
    }

    /// Gets the item back.
    pub fn into_inner(self) -> (r: RuntimeItem)
        ensures
            r.position() == self.position(),
            is_container(r.position()),
    {
        proof {
            use_type_invariant(&self);
        }
        self.0
    }

    /// Gets the name of the item.
    pub fn name(&self) -> (r: Ident)
        ensures
            token_children::<Ident>(self.position()).len() > 0,
            r.position() == token_children::<Ident>(self.position())[0],
    {
        proof {
            use_type_invariant(self);
        }
        self.0.name()
    }

    /// Gets the expression of the item, which an item of a valid tree has.
    pub fn expr(&self) -> (r: Expr)
        requires
            node_children::<Expr>(self.position()).len() > 0,
        ensures
            r.position() == node_children::<Expr>(self.position())[0],
    {
        self.0.expr()
    }
}

/// Gets the first of the given items that names the container.
pub fn first_container(items: &Vec<RuntimeItem>) -> (r: Option<Container>)
    ensures
        r is None <==> positions(items@).filter(|c: Cursor| is_container(c)).len() == 0,
        r is Some ==> r->0.position() == positions(items@).filter(|c: Cursor| is_container(c))[0],
{
    let ghost all = positions(items@);
    let ghost pred = |c: Cursor| is_container(c);
    let mut i: usize = 0;
    proof {
        assert(all.take(0) =~= Seq::<Cursor>::empty());
        reveal(Seq::filter);
    }
    while i < items.len()
        invariant
            i <= items.len(),
            all == positions(items@),
            pred == |c: Cursor| is_container(c),
            all.take(i as int).filter(pred).len() == 0,
        decreases items.len() - i,
    {
        proof {
            assert(all.take(i + 1) =~= all.take(i as int).push(all[i as int]));
            all.take(i as int).lemma_filter_push(all[i as int], pred);
        }
        match Container::from_item(items[i].clone()) {
            Some(found) => {
                proof {
                    lemma_first_match(all, pred, i as int);
                }
                return Some(found);
            },
            None => {},
        }
        i += 1;
    }
    proof {
        assert(all.take(i as int) =~= all);
    }
    None
}

} // verus!
