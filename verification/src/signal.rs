//! The three-valued outcome of evaluating a matcher against an event, with a
//! commutative "strongest wins" combination rule.

use vstd::prelude::*;

verus! {

/// Outcome of the synchronous filtering phase of a matcher.
///
/// `MatchAndBlock` additionally asks the dispatcher to stop propagating the
/// event to matchers registered later.
#[derive(Clone, Copy, Debug, PartialEq, Eq, Structural)]
pub enum Signal {
    NotMatch,
    Matched,
    MatchAndBlock,
}

impl Signal {
    /// Rank of a signal: `MatchAndBlock > Matched > NotMatch`.
    pub open spec fn rank(self) -> nat {
        match self {
            Signal::NotMatch => 0,
            Signal::Matched => 1,
            Signal::MatchAndBlock => 2,
        }
    }

    /// Combining two signals yields the one with the higher rank.
    pub open spec fn spec_combine(self, other: Signal) -> Signal {
        if self.rank() >= other.rank() {
            self
        } else {
            other
        }
    }

    /// Fold two signals into the strongest of the two.
    pub fn combine(self, other: Signal) -> (r: Signal)
        ensures
            r == self.spec_combine(other),
    {
        match (self, other) {
            (Signal::MatchAndBlock, _) => Signal::MatchAndBlock,
            (_, Signal::MatchAndBlock) => Signal::MatchAndBlock,
            (Signal::Matched, _) => Signal::Matched,
            (_, Signal::Matched) => Signal::Matched,
            _ => Signal::NotMatch,
        }
    }
}

/// Law: `combine` is commutative.
pub proof fn lemma_combine_commutative(a: Signal, b: Signal)
    ensures
        a.spec_combine(b) == b.spec_combine(a),
{
}

/// Law: `combine` is associative.
pub proof fn lemma_combine_associative(a: Signal, b: Signal, c: Signal)
    ensures
        a.spec_combine(b).spec_combine(c) == a.spec_combine(b.spec_combine(c)),
{
}

/// Law: `combine` returns one of its operands, namely one of maximal rank.
pub proof fn lemma_combine_is_max(a: Signal, b: Signal)
    ensures
        a.spec_combine(b) == a || a.spec_combine(b) == b,
        a.spec_combine(b).rank() >= a.rank(),
        a.spec_combine(b).rank() >= b.rank(),
{
}

} // verus!
