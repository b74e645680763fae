//! Normalised scores in fixed point.

use vstd::prelude::*;

verus! {

/// The score 1.0, in millionths.
pub const SCORE_ONE: u32 = 1_000_000;

/// A loudness or spectral score between 0 and 1, held in millionths. Its
/// view is the number of millionths.
#[derive(Clone, Copy, Debug, PartialEq, Eq, Structural)]
pub struct Score {
    millionths: u32,
}

impl View for Score {
    type V = int;

    closed spec fn view(&self) -> int {
        self.millionths as int
    }
}

impl Score {
    #[verifier::type_invariant]
    spec fn at_most_one(&self) -> bool {
        self.millionths <= SCORE_ONE
    }

    /// The score of so many millionths; anything above one is one.
    pub fn from_millionths(millionths: u32) -> (score: Score)
        ensures
            score@ == if millionths <= SCORE_ONE {
                millionths as int
            } else {
                SCORE_ONE as int
            },
    {
        if millionths <= SCORE_ONE {
            Score { millionths }
        } else {
            Score { millionths: SCORE_ONE }
        }
    }

    /// The score 0.
    pub fn zero() -> (score: Score)
        ensures
            score@ == 0,
    {
        Score { millionths: 0 }
    }

    /// The number of millionths.
    pub fn millionths(&self) -> (m: u32)
        ensures
            m == self@,
            m <= SCORE_ONE,
    {
        proof {
            use_type_invariant(self);
        }
        self.millionths
    }
}

} // verus!
