//! Byte-wise comparison of text.

use vstd::prelude::*;
use vstd::string::StringSliceAdditionalSpecFns;
use vstd::utf8::{encode_utf8, encode_utf8_decode_utf8};

verus! {

/// Whether two byte strings are the same.
pub fn bytes_equal(left: &[u8], right: &[u8]) -> (same: bool)
    ensures
        same == (left@ == right@),
{
    let size: usize = left.len();
    if size != right.len() {
        return false;
    }
    let mut at: usize = 0;
    while at < size
        invariant
            at <= size,
            size == left@.len(),
            size == right@.len(),
            forall|i: int| 0 <= i < at ==> left@[i] == right@[i],
        decreases size - at,
    {
        if left[at] != right[at] {
            return false;
        }
        at += 1;
    }
    assert(left@ =~= right@);
    true
}

/// Two texts with the same UTF-8 bytes are the same text.
pub proof fn lemma_same_bytes_same_text(left: Seq<char>, right: Seq<char>)
    requires
        encode_utf8(left) == encode_utf8(right),
    ensures
        left == right,
{
    encode_utf8_decode_utf8(left);
    encode_utf8_decode_utf8(right);
}

/// Whether two texts are the same, letter case counting.
pub fn text_equal(left: &str, right: &str) -> (same: bool)
    ensures
        same == (left@ == right@),
{
    let same = bytes_equal(left.as_bytes(), right.as_bytes());
    proof {
        if same {
            lemma_same_bytes_same_text(left@, right@);
        }
    }
    same
}

/// Whether `bytes` begins with `prefix`.
pub open spec fn bytes_start_with(bytes: Seq<u8>, prefix: Seq<u8>) -> bool {
    prefix.len() <= bytes.len() && bytes.subrange(0, prefix.len() as int) == prefix
}

/// Whether a text begins with a prefix, letter case counting: the UTF-8
/// bytes of the one begin with those of the other.
pub open spec fn text_starts_with(text: Seq<char>, prefix: Seq<char>) -> bool {
    bytes_start_with(encode_utf8(text), encode_utf8(prefix))
}

/// Whether `bytes` begins with `prefix`.
pub fn bytes_begin_with(bytes: &[u8], prefix: &[u8]) -> (yes: bool)
    ensures
        yes == bytes_start_with(bytes@, prefix@),
{
    let width: usize = prefix.len();
    if width > bytes.len() {
        return false;
    }
    let mut at: usize = 0;
    while at < width
        invariant
            at <= width,
            width == prefix@.len(),
            width <= bytes@.len(),
            forall|i: int| 0 <= i < at ==> bytes@[i] == prefix@[i],
        decreases width - at,
    {
        if bytes[at] != prefix[at] {
            assert(bytes@.subrange(0, width as int)[at as int] != prefix@[at as int]);
            return false;
        }
        at += 1;
    }
    assert(bytes@.subrange(0, width as int) =~= prefix@);
    true
}

/// Whether `text` begins with `prefix`, letter case counting.
pub fn starts_with(text: &str, prefix: &str) -> (yes: bool)
    ensures
        yes == text_starts_with(text@, prefix@),
{
    bytes_begin_with(text.as_bytes(), prefix.as_bytes())
}

} // verus!
