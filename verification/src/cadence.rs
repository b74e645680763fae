//! How well the rider's cadence follows the beat of the music.

use vstd::prelude::*;

verus! {

/// The distance between two numbers.
pub open spec fn distance(a: int, b: int) -> int {
    if a >= b {
        a - b
    } else {
        b - a
    }
}

/// The points for a cadence of `half_rpm` half revolutions per minute
/// against music of `bpm` beats per minute. The closest match that holds
/// counts: pedalling at half the beat within one revolution gives 1, on the
/// beat within four gives 2, at twice the beat within eight gives 4, at four
/// times the beat within sixteen gives 8, all bounds exclusive; anything
/// else, and music without a known beat, gives 0.
pub open spec fn beat_points(half_rpm: int, bpm: Option<u8>) -> int {
    match bpm {
        None => 0,
        Some(bpm) => if distance(half_rpm, bpm as int) < 2 {
            1
        } else if distance(half_rpm, 2 * bpm) < 8 {
            2
        } else if distance(half_rpm, 4 * bpm) < 16 {
            4
        } else if distance(half_rpm, 8 * bpm) < 32 {
            8
        } else {
            0
        },
    }
}

fn apart(a: u64, b: u64) -> (d: u64)
    ensures
        d == distance(a as int, b as int),
{
    if a >= b {
        a - b
    } else {
        b - a
    }
}

/// Scores a cadence, in half revolutions per minute, against the beat.
pub fn get_score(cadence: u32, bpm: Option<u8>) -> (points: u8)
    ensures
        points == beat_points(cadence as int, bpm),
{
    match bpm {
        None => 0,
        Some(bpm) => {
            let halves: u64 = cadence as u64;
            let beat: u64 = bpm as u64;
            if apart(halves, beat) < 2 {
                1
            } else if apart(halves, 2 * beat) < 8 {
                2
            } else if apart(halves, 4 * beat) < 16 {
                4
            } else if apart(halves, 8 * beat) < 32 {
                8
            } else {
                0
            }
        },
    }
}

} // verus!
