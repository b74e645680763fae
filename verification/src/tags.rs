//! What the producer reads off a track before it plays: the beat from the
//! tags, the number of channels from the layout.

use vstd::prelude::*;
use vstd::string::StringSliceAdditionalSpecFns;
use vstd::utf8::encode_utf8;

verus! {

/// The sample rate assumed for a track that declares none.
pub const DEFAULT_SAMPLE_RATE: u32 = 44_100;

/// The channel layouts a track can declare.
#[derive(Clone, Copy, Debug, PartialEq, Eq, Structural)]
pub enum ChannelLayout {
    Mono,
    Stereo,
    TwoPointOne,
    FivePointOne,
}

/// The number of channels of a layout; two where none is declared.
pub open spec fn channels_of(layout: Option<ChannelLayout>) -> u32 {
    match layout {
        Some(ChannelLayout::Mono) => 1,
        Some(ChannelLayout::Stereo) => 2,
        Some(ChannelLayout::TwoPointOne) => 3,
        Some(ChannelLayout::FivePointOne) => 6,
        None => 2,
    }
}

/// The number of channels of a layout; two where none is declared.
pub fn channel_count(layout: Option<ChannelLayout>) -> (channels: u32)
    ensures
        channels == channels_of(layout),
{
    match layout {
        Some(ChannelLayout::Mono) => 1,
        Some(ChannelLayout::Stereo) => 2,
        Some(ChannelLayout::TwoPointOne) => 3,
        Some(ChannelLayout::FivePointOne) => 6,
        None => 2,
    }
}

/// The sample rate of a track; the default where it declares none.
pub fn sample_rate_or_default(declared: Option<u32>) -> (rate: u32)
    ensures
        rate == match declared {
            Some(rate) => rate,
            None => DEFAULT_SAMPLE_RATE,
        },
{
    match declared {
        Some(rate) => rate,
        None => DEFAULT_SAMPLE_RATE,
    }
}

/// Whether a byte is a decimal digit.
pub open spec fn is_digit(byte: u8) -> bool {
    0x30 <= byte <= 0x39
}

/// Whether every byte is a decimal digit.
pub open spec fn all_digits(bytes: Seq<u8>) -> bool {
    forall|i: int| 0 <= i < bytes.len() ==> is_digit(#[trigger] bytes[i])
}

/// The number that a string of decimal digits stands for.
pub open spec fn decimal_value(digits: Seq<u8>) -> int
    decreases digits.len(),
{
    if digits.len() == 0 {
        0
    } else {
        10 * decimal_value(digits.drop_last()) + (digits.last() - 0x30)
    }
}

/// The digits of a number that may come with a plus sign.
pub open spec fn unsigned_part(bytes: Seq<u8>) -> Seq<u8> {
    if bytes.len() > 0 && bytes[0] == 0x2b {
        bytes.skip(1)
    } else {
        bytes
    }
}

/// The beat that the bytes of a tag spell: a decimal number up to 255,
/// with or without a plus sign before it. Anything else spells none.
pub open spec fn bpm_of(bytes: Seq<u8>) -> Option<u8> {
    let digits = unsigned_part(bytes);
    if digits.len() > 0 && all_digits(digits) && decimal_value(digits) <= 255 {
        Some(decimal_value(digits) as u8)
    } else {
        None
    }
}

/// More digits never make a number smaller.
proof fn lemma_decimal_grows(digits: Seq<u8>, count: int)
    requires
        0 <= count <= digits.len(),
        all_digits(digits),
    ensures
        0 <= decimal_value(digits.take(count)) <= decimal_value(digits),
    decreases digits.len(),
{
    if digits.len() == 0 {
        assert(digits.take(count) =~= digits);
    } else if count == digits.len() {
        assert(digits.take(count) =~= digits);
        lemma_decimal_grows(digits.drop_last(), count - 1);
        assert(is_digit(digits[digits.len() - 1]));
    } else {
        assert(digits.drop_last().take(count) =~= digits.take(count));
        assert forall|i: int| 0 <= i < digits.drop_last().len() implies is_digit(
            #[trigger] digits.drop_last()[i],
        ) by {
            assert(digits.drop_last()[i] == digits[i]);
        }
        lemma_decimal_grows(digits.drop_last(), count);
        assert(is_digit(digits[digits.len() - 1]));
    }
}

/// Reads the beat off the bytes of a tag.
pub fn parse_bpm_bytes(bytes: &[u8]) -> (bpm: Option<u8>)
    ensures
        bpm == bpm_of(bytes@),
{
    let size: usize = bytes.len();
    let first: usize = if size > 0 && bytes[0] == 0x2b {
        1
    } else {
        0
    };
    let ghost digits = unsigned_part(bytes@);
    assert(digits =~= bytes@.skip(first as int));
    if first == size {
        return None;
    }
    let mut value: u32 = 0;
    let mut at: usize = first;
    while at < size
        invariant
            first <= at <= size,
            size == bytes@.len(),
            digits == bytes@.skip(first as int),
            digits == unsigned_part(bytes@),
            all_digits(digits.take(at - first)),
            value == decimal_value(digits.take(at - first)),
            value <= 255,
        decreases size - at,
    {
        let byte = bytes[at];
        let ghost seen = digits.take(at - first);
        let ghost next = digits.take(at - first + 1);
        assert(next.drop_last() =~= seen);
        assert(next.last() == byte);
        if byte < 0x30 || byte > 0x39 {
            assert(digits[at - first] == byte);
            assert(!all_digits(digits));
            return None;
        }
        value = 10 * value + (byte - 0x30) as u32;
        assert(value == decimal_value(next));
        if value > 255 {
            proof {
                if all_digits(digits) {
                    lemma_decimal_grows(digits, at - first + 1);
                }
            }
            return None;
        }
        assert(all_digits(next)) by {
            assert forall|i: int| 0 <= i < next.len() implies is_digit(#[trigger] next[i]) by {
                if i < seen.len() {
                    assert(next[i] == seen[i]);
                }
            }
        }
        at += 1;
    }
    assert(digits.take(at - first) =~= digits);
    Some(value as u8)
}

/// Reads the beat, in beats per minute, off the text of a tag.
pub fn parse_bpm(tag: &str) -> (bpm: Option<u8>)
    ensures
        bpm == bpm_of(encode_utf8(tag@)),
{
    parse_bpm_bytes(tag.as_bytes())
}

} // verus!
