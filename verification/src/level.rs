//! From scores to resistance levels, and the hysteresis that decides which
//! levels are worth a write to the device.

use crate::score::{Score, SCORE_ONE};
use vstd::arithmetic::div_mod::lemma_div_is_ordered;
use vstd::arithmetic::mul::lemma_mul_inequality;
use vstd::prelude::*;

verus! {

/// The level that a score of `millionths` stands for on a scale from 1 to
/// `max`: the score is spread evenly over the scale and fractions are cut
/// off. A scale without room (`max` below 1) has level 1 only.
pub open spec fn level_for(max: int, millionths: int) -> int {
    if max <= 1 {
        1
    } else {
        1 + (millionths * (max - 1)) / (SCORE_ONE as int)
    }
}

/// Levels stay on the scale: a score between 0 and 1 maps into `1..=max`,
/// the score 0 to level 1 and the score 1 to `max`.
pub proof fn lemma_level_bounds(max: int, millionths: int)
    requires
        1 <= max,
        0 <= millionths <= SCORE_ONE,
    ensures
        1 <= level_for(max, millionths) <= max,
        level_for(max, 0) == 1,
        level_for(max, SCORE_ONE as int) == max,
{
    if max > 1 {
        let one: int = SCORE_ONE as int;
        assert(0int * (max - 1) <= millionths * (max - 1)) by {
            lemma_mul_inequality(0, millionths, max - 1);
        }
        assert(millionths * (max - 1) <= one * (max - 1)) by {
            lemma_mul_inequality(millionths, one, max - 1);
        }
        assert(0int / one <= (millionths * (max - 1)) / one) by {
            lemma_div_is_ordered(0, millionths * (max - 1), one);
        }
        assert((millionths * (max - 1)) / one <= (one * (max - 1)) / one) by {
            lemma_div_is_ordered(millionths * (max - 1), one * (max - 1), one);
        }
        assert((one * (max - 1)) / one == max - 1) by (nonlinear_arith)
            requires
                one == 1_000_000,
        ;
        assert(0int * (max - 1) == 0);
    }
}

/// A higher score never gives a lower level.
pub proof fn lemma_level_monotonic(max: int, lower: int, higher: int)
    requires
        lower <= higher,
    ensures
        level_for(max, lower) <= level_for(max, higher),
{
    if max > 1 {
        let one: int = SCORE_ONE as int;
        lemma_mul_inequality(lower, higher, max - 1);
        lemma_div_is_ordered(lower * (max - 1), higher * (max - 1), one);
    }
}

/// Maps a score onto the levels `1..=max`.
pub fn freq_score_to_level(max: i16, score: Score) -> (level: i16)
    ensures
        level == level_for(max as int, score@),
        1 <= level,
        1 <= max ==> level <= max,
{
    if max <= 1 {
        return 1;
    }
    let millionths: u64 = score.millionths() as u64;
    let span: u64 = (max - 1) as u64;
    proof {
        lemma_level_bounds(max as int, millionths as int);
        assert(millionths * span <= 1_000_000 * 32_767) by (nonlinear_arith)
            requires
                millionths <= 1_000_000,
                span <= 32_767,
        ;
    }
    let steps: u64 = (millionths * span) / (SCORE_ONE as u64);
    (1 + steps) as i16
}

/// Whether `level` is far enough from the level sent last to be sent: the
/// two differ by more than one.
pub open spec fn is_level_change(prev_sent: int, level: int) -> bool {
    level - prev_sent > 1 || prev_sent - level > 1
}

/// The level sent last once `levels` have arrived in this order, when
/// `prev_sent` was sent last before them.
pub open spec fn last_sent(prev_sent: int, levels: Seq<int>) -> int
    decreases levels.len(),
{
    if levels.len() == 0 {
        prev_sent
    } else {
        let before = last_sent(prev_sent, levels.drop_last());
        if is_level_change(before, levels.last()) {
            levels.last()
        } else {
            before
        }
    }
}

/// The levels that are written to the device when `levels` arrive in this
/// order and `prev_sent` was written last before them.
pub open spec fn writes(prev_sent: int, levels: Seq<int>) -> Seq<int>
    decreases levels.len(),
{
    if levels.len() == 0 {
        Seq::empty()
    } else {
        let before = writes(prev_sent, levels.drop_last());
        if is_level_change(last_sent(prev_sent, levels.drop_last()), levels.last()) {
            before.push(levels.last())
        } else {
            before
        }
    }
}

/// Whether no element of `levels` is lower than one before it.
pub open spec fn non_decreasing(levels: Seq<int>) -> bool {
    forall|i: int, j: int| 0 <= i <= j < levels.len() ==> levels[i] <= levels[j]
}

/// The levels that the scores `millionths` stand for, one by one.
pub open spec fn levels_of(max: int, millionths: Seq<int>) -> Seq<int> {
    Seq::new(millionths.len(), |i: int| level_for(max, millionths[i]))
}

/// The hysteresis that keeps level noise from the device. It remembers the
/// level sent last; 0 stands for none.
#[derive(Clone, Copy, Debug, PartialEq, Eq, Structural)]
pub struct LevelFilter {
    prev_sent: i16,
}

impl View for LevelFilter {
    type V = int;

    /// The level sent last.
    closed spec fn view(&self) -> int {
        self.prev_sent as int
    }
}

impl LevelFilter {
    /// A filter through which nothing was sent yet.
    pub fn new() -> (filter: LevelFilter)
        ensures
            filter@ == 0,
    {
        LevelFilter { prev_sent: 0 }
    }

    /// A filter that takes `prev_sent` for the level sent last.
    pub fn with_previous(prev_sent: i16) -> (filter: LevelFilter)
        ensures
            filter@ == prev_sent,
    {
        LevelFilter { prev_sent }
    }

    /// The level sent last.
    pub fn prev_sent(&self) -> (level: i16)
        ensures
            level == self@,
    {
        self.prev_sent
    }

    /// Decides whether `level` is to be written to the device, and takes it
    /// for the level sent last if so.
    pub fn offer(&mut self, level: i16) -> (send: bool)
        ensures
            send == is_level_change(old(self)@, level as int),
            final(self)@ == if send {
                level as int
            } else {
                old(self)@
            },
    {
        let prev: i32 = self.prev_sent as i32;
        let next: i32 = level as i32;
        if next - prev > 1 || prev - next > 1 {
            self.prev_sent = level;
            true
        } else {
            false
        }
    }
}

/// Rising levels are written at most every second step: when no level is
/// lower than one before it, none is more than one below the level sent
/// last and none is above `max`, then twice the number of writes is at most
/// the room between the level sent last and `max`. The writes rise strictly
/// and lie on the scale.
pub proof fn lemma_rising_writes(prev_sent: int, max: int, levels: Seq<int>)
    requires
        prev_sent <= max,
        non_decreasing(levels),
        forall|i: int| 0 <= i < levels.len() ==> prev_sent - 1 <= #[trigger] levels[i] <= max,
    ensures
        2 * writes(prev_sent, levels).len() <= last_sent(prev_sent, levels) - prev_sent,
        prev_sent <= last_sent(prev_sent, levels) <= max,
        2 * writes(prev_sent, levels).len() <= max - prev_sent,
        last_sent(prev_sent, levels) == prev_sent || exists|j: int|
            0 <= j < levels.len() && levels[j] == last_sent(prev_sent, levels),
        writes(prev_sent, levels).len() > 0 ==> writes(prev_sent, levels).last() == last_sent(
            prev_sent,
            levels,
        ),
        forall|i: int|
            0 <= i < writes(prev_sent, levels).len() ==> prev_sent + 2 <= #[trigger] writes(
                prev_sent,
                levels,
            )[i] <= max,
        forall|i: int, j: int|
            0 <= i < j < writes(prev_sent, levels).len() ==> writes(prev_sent, levels)[i] < writes(
                prev_sent,
                levels,
            )[j],
    decreases levels.len(),
{
    if levels.len() > 0 {
        let newest: int = levels.last();
        let earlier: Seq<int> = levels.drop_last();
        assert forall|i: int| 0 <= i < earlier.len() implies earlier[i] == levels[i] by {}
        lemma_rising_writes(prev_sent, max, earlier);
        let before: int = last_sent(prev_sent, earlier);
        let written: Seq<int> = writes(prev_sent, earlier);
        assert(before - 1 <= newest) by {
            if before != prev_sent {
                let j = choose|j: int| 0 <= j < earlier.len() && earlier[j] == before;
                assert(levels[j] <= levels[levels.len() - 1]);
            }
        }
        if is_level_change(before, newest) {
            let all: Seq<int> = writes(prev_sent, levels);
            assert(all == written.push(newest));
            assert(levels[levels.len() - 1] == last_sent(prev_sent, levels));
            assert forall|i: int, j: int| 0 <= i < j < all.len() implies all[i] < all[j] by {
                if j < written.len() {
                    assert(all[i] == written[i] && all[j] == written[j]);
                } else {
                    assert(all[i] == written[i]);
                    assert(written[i] <= written.last());
                }
            }
        } else {
            if before != prev_sent {
                let j = choose|j: int| 0 <= j < earlier.len() && earlier[j] == before;
                assert(levels[j] == last_sent(prev_sent, levels));
            }
        }
    }
}

/// A track whose scores never fall gives levels that never fall, and from a
/// fresh filter at most `max - 1` of them are written to the device, each
/// one higher than the one before.
pub proof fn lemma_rising_track(max: int, millionths: Seq<int>)
    requires
        1 <= max,
        forall|i: int| 0 <= i < millionths.len() ==> 0 <= #[trigger] millionths[i] <= SCORE_ONE,
        forall|i: int, j: int| 0 <= i <= j < millionths.len() ==> millionths[i] <= millionths[j],
    ensures
        non_decreasing(levels_of(max, millionths)),
        writes(0, levels_of(max, millionths)).len() <= max - 1,
        forall|i: int, j: int|
            0 <= i < j < writes(0, levels_of(max, millionths)).len() ==> writes(
                0,
                levels_of(max, millionths),
            )[i] < writes(0, levels_of(max, millionths))[j],
{
    let levels: Seq<int> = levels_of(max, millionths);
    assert forall|i: int, j: int| 0 <= i <= j < levels.len() implies levels[i] <= levels[j] by {
        lemma_level_monotonic(max, millionths[i], millionths[j]);
    }
    assert forall|i: int| 0 <= i < levels.len() implies 0 - 1 <= #[trigger] levels[i] <= max by {
        lemma_level_bounds(max, millionths[i]);
    }
    lemma_rising_writes(0, max, levels);
}

} // verus!
