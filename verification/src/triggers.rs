//! The conditions under which a repository's pipelines run, as a set.

use vstd::prelude::*;

verus! {

/// One condition that causes a pipeline to run.
#[derive(Debug, Clone, Copy, PartialEq, Eq, Structural)]
pub enum Trigger {
    /// A push to the main branch.
    Main,
    /// A pull request.
    PullRequest,
    /// A schedule.
    Scheduled,
    /// A manual start.
    Manual,
}

impl Trigger {
    /// The bit that stands for this trigger in the bits of a `Triggers` value.
    spec fn mask(self) -> u8 {
        match self {
            Trigger::Main => 0b0001,
            Trigger::PullRequest => 0b0010,
            Trigger::Scheduled => 0b0100,
            Trigger::Manual => 0b1000,
        }
    }
}

/// The triggers whose bits are set in `bits`.
spec fn triggers_of_bits(bits: u8) -> Set<Trigger> {
    Set::new(|t: Trigger| bits & t.mask() != 0)
}

/// Triggers that cause a pipeline to run: a set of `Trigger`, held as bits.
#[derive(Debug, Clone, Copy, PartialEq, Eq, Structural)]
pub struct Triggers {
    bits: u8,
}

impl View for Triggers {
    type V = Set<Trigger>;

    closed spec fn view(&self) -> Set<Trigger> {
        triggers_of_bits(self.bits)
    }
}

/// The bits of the empty set and of the four single triggers.
proof fn lemma_single_bits()
    by (bit_vector)
    ensures
        0u8 & 1 == 0 && 0u8 & 2 == 0 && 0u8 & 4 == 0 && 0u8 & 8 == 0 && 0u8 & 0xf0 == 0,
        1u8 & 1 != 0 && 1u8 & 2 == 0 && 1u8 & 4 == 0 && 1u8 & 8 == 0 && 1u8 & 0xf0 == 0,
        2u8 & 1 == 0 && 2u8 & 2 != 0 && 2u8 & 4 == 0 && 2u8 & 8 == 0 && 2u8 & 0xf0 == 0,
        4u8 & 1 == 0 && 4u8 & 2 == 0 && 4u8 & 4 != 0 && 4u8 & 8 == 0 && 4u8 & 0xf0 == 0,
        8u8 & 1 == 0 && 8u8 & 2 == 0 && 8u8 & 4 == 0 && 8u8 & 8 != 0 && 8u8 & 0xf0 == 0,
{
}

/// A bit is set in `a | b` where it is set in `a` or in `b`.
proof fn lemma_union_bits(a: u8, b: u8)
    by (bit_vector)
    ensures
        (a | b) & 1 != 0 <==> a & 1 != 0 || b & 1 != 0,
        (a | b) & 2 != 0 <==> a & 2 != 0 || b & 2 != 0,
        (a | b) & 4 != 0 <==> a & 4 != 0 || b & 4 != 0,
        (a | b) & 8 != 0 <==> a & 8 != 0 || b & 8 != 0,
        a & 0xf0 == 0 && b & 0xf0 == 0 ==> (a | b) & 0xf0 == 0,
{
}

/// `a & b == b` says that every bit of `b` is set in `a`.
proof fn lemma_subset_bits(a: u8, b: u8)
    by (bit_vector)
    requires
        b & 0xf0 == 0,
    ensures
        a & b == b <==> (b & 1 != 0 ==> a & 1 != 0) && (b & 2 != 0 ==> a & 2 != 0) && (b & 4 != 0
            ==> a & 4 != 0) && (b & 8 != 0 ==> a & 8 != 0),
{
}

impl Triggers {
    /// Only the four bits that stand for a trigger are ever set.
    #[verifier::type_invariant]
    spec fn only_known_bits(self) -> bool {
        self.bits & 0xf0 == 0
    }

    /// The set of one trigger.
    fn single(trigger: Trigger) -> (one: Triggers)
        ensures
            one@ == set![trigger],
    {
        let bits: u8 = match trigger {
            Trigger::Main => 0b0001,
            Trigger::PullRequest => 0b0010,
            Trigger::Scheduled => 0b0100,
            Trigger::Manual => 0b1000,
        };
        proof {
            lemma_single_bits();
        }
        let one = Triggers { bits };
        one
    }

    /// The set without any trigger.
    pub fn empty() -> (none: Triggers)
        ensures
            none@ == Set::<Trigger>::empty(),
    {
        proof {
            lemma_single_bits();
        }
        let none = Triggers { bits: 0 };
        none
    }

    /// Runs on pushes to the main branch.
    pub fn main() -> (one: Triggers)
        ensures
            one@ == set![Trigger::Main],
    {
        Triggers::single(Trigger::Main)
    }

    /// Runs on pull requests.
    pub fn pr() -> (one: Triggers)
        ensures
            one@ == set![Trigger::PullRequest],
    {
        Triggers::single(Trigger::PullRequest)
    }

    /// Runs on a schedule.
    pub fn scheduled() -> (one: Triggers)
        ensures
            one@ == set![Trigger::Scheduled],
    {
        Triggers::single(Trigger::Scheduled)
    }

    /// Can be triggered manually.
    pub fn manual() -> (one: Triggers)
        ensures
            one@ == set![Trigger::Manual],
    {
        Triggers::single(Trigger::Manual)
    }

    /// The triggers that are in `self` or in `other`.
    pub fn union(self, other: Triggers) -> (both: Triggers)
        ensures
            both@ == self@.union(other@),
    {
        proof {
            use_type_invariant(self);
            use_type_invariant(other);
            lemma_union_bits(self.bits, other.bits);
        }
        let both = Triggers { bits: self.bits | other.bits };
        both
    }

    /// Whether every trigger of `other` is in `self`.
    pub fn contains(self, other: Triggers) -> (all: bool)
        ensures
            all == other@.subset_of(self@),
    {
        proof {
            use_type_invariant(other);
            lemma_subset_bits(self.bits, other.bits);
            if other@.subset_of(self@) {
                assert(other@.contains(Trigger::Main) ==> self@.contains(Trigger::Main));
                assert(other@.contains(Trigger::PullRequest) ==> self@.contains(
                    Trigger::PullRequest,
                ));
                assert(other@.contains(Trigger::Scheduled) ==> self@.contains(Trigger::Scheduled));
                assert(other@.contains(Trigger::Manual) ==> self@.contains(Trigger::Manual));
            }
        }
        self.bits & other.bits == other.bits
    }
}

} // verus!
