//! Lint rules: named checks that walk a document and report diagnostics.

use vstd::prelude::*;
use crate::diagnostic::Diagnostics;
use crate::visitor::Visitor;

pub mod no_curly_commands;

verus! {

/// A tag that classifies lint rules.
#[derive(Clone, Copy, Debug, PartialEq, Eq, Hash, Structural)]
pub enum Tag {
    /// Rules about the completeness of a document.
    Completeness,
    /// Rules about the names used in a document.
    Naming,
    /// Rules about the whitespace of a document.
    Spacing,
    /// Rules about the style of a document.
    Style,
    /// Rules about the clarity of a document.
    Clarity,
    /// Rules about the portability of a document.
    Portability,
    /// Rules about the correctness of a document.
    Correctness,
    /// Rules about the order of the elements of a document.
    Sorting,
    /// Rules about the use of deprecated language constructs.
    Deprecated,
    /// Rules about the documentation of a document.
    Documentation,
}

impl Tag {
    /// The place of the tag in a set of tags.
    pub open spec fn index(self) -> u32 {
        match self {
            Tag::Completeness => 0,
            Tag::Naming => 1,
            Tag::Spacing => 2,
            Tag::Style => 3,
            Tag::Clarity => 4,
            Tag::Portability => 5,
            Tag::Correctness => 6,
            Tag::Sorting => 7,
            Tag::Deprecated => 8,
            Tag::Documentation => 9,
        }
    }

    /// Gets the place of the tag in a set of tags.
    fn place(self) -> (r: u32)
        ensures
            r == self.index(),
            r < 32,
    {
        match self {
            Tag::Completeness => 0,
            Tag::Naming => 1,
            Tag::Spacing => 2,
            Tag::Style => 3,
            Tag::Clarity => 4,
            Tag::Portability => 5,
            Tag::Correctness => 6,
            Tag::Sorting => 7,
            Tag::Deprecated => 8,
            Tag::Documentation => 9,
        }
    }
}

/// Whether the bit of the given place is set in `bits`.
pub open spec fn bit_set(bits: u32, place: u32) -> bool {
    (bits >> place) & 1 == 1
}

/// Setting the bit of one place sets that bit and changes no other.
proof fn lemma_set_bit(bits: u32, place: u32, other: u32)
    requires
        place < 32,
        other < 32,
    ensures
        bit_set(bits | (1u32 << place), other) <==> (other == place || bit_set(bits, other)),
        !bit_set(0, other),
{
    assert((((bits | (1u32 << place)) >> other) & 1 == 1) <==> (other == place || ((bits >> other)
        & 1 == 1))) by (bit_vector)
        requires
            place < 32,
            other < 32,
    ;
    assert((0u32 >> other) & 1 == 0) by (bit_vector);
}

/// A set of tags.
#[derive(Clone, Copy, Debug, PartialEq, Eq, Hash)]
pub struct TagSet {
    bits: u32,
}

impl View for TagSet {
    type V = Set<Tag>;

    closed spec fn view(&self) -> Set<Tag> {
        Set::new(|tag: Tag| bit_set(self.bits, tag.index()))
    }
}

impl TagSet {
    /// Makes the set of the given tags.
    pub fn new(tags: &[Tag]) -> (r: TagSet)
        ensures
            forall|tag: Tag| r@.contains(tag) <==> tags@.contains(tag),
    {
        let mut bits: u32 = 0;
        let mut i: usize = 0;
        proof {
            assert forall|tag: Tag| !bit_set(0, tag.index()) by {
                lemma_set_bit(0, 0, tag.index());
            }
        }
        while i < tags.len()
            invariant
                i <= tags@.len(),
                forall|tag: Tag|
                    bit_set(bits, #[trigger] tag.index()) <==> exists|j: int|
                        0 <= j < i && tags@[j] == tag,
            decreases tags.len() - i,
        {
            let place = tags[i].place();
            let ghost before = bits;
            bits = bits | (1u32 << place);
            proof {
                assert forall|tag: Tag|
                    bit_set(bits, #[trigger] tag.index()) <==> exists|j: int|
                        0 <= j < i + 1 && tags@[j] == tag by {
                    lemma_set_bit(before, place, tag.index());
                    if tag.index() == place {
                        assert(tags@[i as int] == tag);
                    }
                }
            }
            i += 1;
        }
        TagSet { bits }
    }

    /// Gets whether the tag is in the set.
    pub fn contains(&self, tag: Tag) -> (r: bool)
        ensures
            r == self@.contains(tag),
    {
        (self.bits >> tag.place()) & 1 == 1
    }
}

/// A lint rule: a stateless description of a check, which makes a fresh
/// visitor for each run. The visitor reports into a sink of diagnostics.
pub trait Rule {
    /// The visitor that carries out the check.
    type Visitor: Visitor<State = Diagnostics>;

    /// Gets the identifier of the rule.
    fn id(&self) -> &'static str;

    /// Gets a short description of the rule.
    fn description(&self) -> &'static str;

    /// Gets a longer explanation of the rule.
    fn explanation(&self) -> &'static str;

    /// Gets the tags that classify the rule.
    fn tags(&self) -> TagSet;

    /// Makes a visitor for one run of the rule.
    fn visitor(&self) -> Self::Visitor;
}

} // verus!
