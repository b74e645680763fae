//! The decisions around a scorer: which blocks it is given, and how its
//! reading becomes a score.
//!
//! A scorer works on floating-point samples and lives with the caller. It
//! hands over its reading in millionths: the momentary loudness for the
//! loudness strategy, the mean magnitude of the spectrum for the spectral
//! one.

use crate::score::{Score, SCORE_ONE};
use crate::text::text_equal;
use vstd::arithmetic::div_mod::lemma_div_is_ordered;
use vstd::arithmetic::mul::lemma_mul_inequality;
use vstd::arithmetic::power2::is_pow2;
use vstd::prelude::*;

verus! {

/// The loudness that maps to the score 0, in millionths of a loudness
/// unit.
pub const LOUDNESS_FLOOR: i64 = -40_000_000;

/// The loudness that maps to the score 1, in millionths of a loudness
/// unit.
pub const LOUDNESS_CEILING: i64 = -3_000_000;

/// The scoring strategies.
#[derive(Clone, Copy, Debug, PartialEq, Eq, Structural)]
pub enum AnalyzerType {
    /// Mean magnitude of the spectrum.
    Fft,
    /// Momentary loudness.
    Lufs,
}

impl AnalyzerType {
    /// The strategy that a name stands for: `fft` for the spectral one,
    /// anything else for loudness.
    pub fn from_name(name: &str) -> (kind: AnalyzerType)
        ensures
            kind == if name@ == "fft"@ {
                AnalyzerType::Fft
            } else {
                AnalyzerType::Lufs
            },
    {
        if text_equal(name, "fft") {
            AnalyzerType::Fft
        } else {
            AnalyzerType::Lufs
        }
    }
}

/// Whether `n` is a power of two.
pub fn is_power_of_two(n: usize) -> (yes: bool)
    ensures
        yes == is_pow2(n as int),
{
    if n == 0 {
        assert(!is_pow2(0)) by {
            reveal(is_pow2);
        }
        return false;
    }
    let mut rest: usize = n;
    while rest % 2 == 0
        invariant
            0 < rest <= n,
            is_pow2(rest as int) == is_pow2(n as int),
        decreases rest,
    {
        assert(is_pow2(rest as int) == is_pow2(rest as int / 2)) by {
            reveal(is_pow2);
        }
        rest = rest / 2;
    }
    assert(is_pow2(rest as int) == (rest == 1)) by {
        reveal(is_pow2);
    }
    rest == 1
}

/// The part of `of` that `scale` millionths are: `of * scale / 1_000_000`,
/// at most one.
pub open spec fn scaled(of: int, scale: int) -> int {
    let product = of * scale / (SCORE_ONE as int);
    if product > SCORE_ONE {
        SCORE_ONE as int
    } else {
        product
    }
}

/// Where a loudness lies between the floor and the ceiling, in millionths
/// of the way; below the floor 0, above the ceiling one.
pub open spec fn loudness_fraction(loudness: int) -> int {
    if loudness <= LOUDNESS_FLOOR {
        0
    } else if loudness >= LOUDNESS_CEILING {
        SCORE_ONE as int
    } else {
        (loudness - LOUDNESS_FLOOR) / 37
    }
}

/// The score, in millionths, that a reading stands for.
///
/// Loudness is placed between floor and ceiling and then scaled. A mean
/// magnitude is scaled as it is; a negative one counts as 0.
pub open spec fn normalised(kind: AnalyzerType, scale: int, reading: int) -> int {
    match kind {
        AnalyzerType::Lufs => scaled(loudness_fraction(reading), scale),
        AnalyzerType::Fft => if reading <= 0 {
            0
        } else {
            scaled(reading, scale)
        },
    }
}

/// Scaling keeps the order: more of the whole gives no smaller a part.
pub proof fn lemma_scaled_monotonic(lower: int, higher: int, scale: int)
    requires
        lower <= higher,
        0 <= scale,
    ensures
        scaled(lower, scale) <= scaled(higher, scale),
{
    lemma_mul_inequality(lower, higher, scale);
    lemma_div_is_ordered(lower * scale, higher * scale, SCORE_ONE as int);
}

/// A score lies between 0 and one.
pub proof fn lemma_normalised_bounds(kind: AnalyzerType, scale: int, reading: int)
    requires
        0 <= scale,
    ensures
        0 <= normalised(kind, scale, reading) <= SCORE_ONE,
{
    let of: int = match kind {
        AnalyzerType::Lufs => loudness_fraction(reading),
        AnalyzerType::Fft => if reading <= 0 {
            0
        } else {
            reading
        },
    };
    assert(0 <= of);
    assert(0 <= of * scale) by {
        lemma_mul_inequality(0, of, scale);
    }
    lemma_div_is_ordered(0, of * scale, SCORE_ONE as int);
    assert(scaled(0, scale) == 0);
}

/// A higher reading never gives a lower score.
pub proof fn lemma_normalised_monotonic(kind: AnalyzerType, scale: int, lower: int, higher: int)
    requires
        lower <= higher,
        0 <= scale,
    ensures
        normalised(kind, scale, lower) <= normalised(kind, scale, higher),
{
    match kind {
        AnalyzerType::Lufs => {
            lemma_scaled_monotonic(loudness_fraction(lower), loudness_fraction(higher), scale);
        },
        AnalyzerType::Fft => {
            if lower > 0 {
                lemma_scaled_monotonic(lower, higher, scale);
            } else if higher > 0 {
                lemma_normalised_bounds(kind, scale, higher);
            }
        },
    }
}

/// Turns the readings of a scorer into scores.
#[derive(Clone, Copy, Debug, PartialEq, Eq, Structural)]
pub struct Analyzer {
    kind: AnalyzerType,
    scale: u32,
}

impl Analyzer {
    /// The strategy.
    pub closed spec fn spec_kind(&self) -> AnalyzerType {
        self.kind
    }

    /// The factor, in millionths, that limits the scores.
    pub closed spec fn spec_scale(&self) -> u32 {
        self.scale
    }

    /// Whether a block of `samples` samples can be scored: its length is a
    /// power of two.
    pub open spec fn accepts(samples: int) -> bool {
        is_pow2(samples)
    }

    /// The score for a block of `samples` samples on which the scorer read
    /// `reading`: 0 for a block that cannot be scored.
    pub open spec fn score_of(&self, samples: int, reading: int) -> int {
        if Self::accepts(samples) {
            normalised(self.spec_kind(), self.spec_scale() as int, reading)
        } else {
            0
        }
    }

    /// The loudness strategy at full scale.
    pub fn new() -> (analyzer: Analyzer)
        ensures
            analyzer.spec_kind() == AnalyzerType::Lufs,
            analyzer.spec_scale() == SCORE_ONE,
    {
        Analyzer { kind: AnalyzerType::Lufs, scale: SCORE_ONE }
    }

    /// The strategy.
    #[verifier::when_used_as_spec(spec_kind)]
    pub fn kind(&self) -> (kind: AnalyzerType)
        ensures
            kind == self.spec_kind(),
    {
        self.kind
    }

    /// The factor, in millionths, that limits the scores.
    #[verifier::when_used_as_spec(spec_scale)]
    pub fn scale(&self) -> (scale: u32)
        ensures
            scale == self.spec_scale(),
    {
        self.scale
    }

    /// Whether a block of `samples` samples is to be handed to the scorer.
    /// A block that is not counts as silence: its score is 0 and the scorer
    /// never sees it.
    pub fn wants(&self, samples: usize) -> (yes: bool)
        ensures
            yes == Self::accepts(samples as int),
    {
        is_power_of_two(samples)
    }

    /// The score for a block of `samples` samples on which the scorer read
    /// `reading`, in millionths.
    pub fn freq_score(&self, samples: usize, reading: i64) -> (score: Score)
        ensures
            score@ == self.score_of(samples as int, reading as int),
    {
        if !is_power_of_two(samples) {
            return Score::zero();
        }
        let of: u64 = match self.kind {
            AnalyzerType::Lufs => {
                if reading <= LOUDNESS_FLOOR {
                    0
                } else if reading >= LOUDNESS_CEILING {
                    SCORE_ONE as u64
                } else {
                    ((reading - LOUDNESS_FLOOR) / 37) as u64
                }
            },
            AnalyzerType::Fft => {
                if reading <= 0 {
                    0
                } else {
                    reading as u64
                }
            },
        };
        proof {
            assert((of as int) * (self.scale as int) <= 0x7fff_ffff_ffff_ffff * 0xffff_ffff)
                by (nonlinear_arith)
                requires
                    0 <= of <= 0x7fff_ffff_ffff_ffff,
                    0 <= self.scale <= 0xffff_ffff,
            ;
            assert(0 <= (of as int) * (self.scale as int)) by (nonlinear_arith)
                requires
                    0 <= of,
                    0 <= self.scale,
            ;
        }
        let product: u128 = (of as u128) * (self.scale as u128);
        let part: u128 = product / (SCORE_ONE as u128);
        if part > SCORE_ONE as u128 {
            Score::from_millionths(SCORE_ONE)
        } else {
            Score::from_millionths(part as u32)
        }
    }
}

/// The analyzer for a strategy and a factor, in millionths, that limits
/// its scores.
pub fn get_analyzer(analyzer_type: AnalyzerType, scale: u32) -> (analyzer: Analyzer)
    ensures
        analyzer.spec_kind() == analyzer_type,
        analyzer.spec_scale() == scale,
{
    Analyzer { kind: analyzer_type, scale }
}

} // verus!
