//! Bytes and 16-bit words: how two bytes make a word, how a word splits into
//! bytes, and how a byte is read as a signed offset.

use vstd::prelude::*;

verus! {

/// The word whose upper half is `high` and whose lower half is `low`.
pub open spec fn word(high: u8, low: u8) -> u16 {
    (high as int * 256 + low as int) as u16
}

/// The upper half of `value`.
pub open spec fn high_byte(value: u16) -> u8 {
    (value as int / 256) as u8
}

/// The lower half of `value`.
pub open spec fn low_byte(value: u16) -> u8 {
    (value as int % 256) as u8
}

/// The byte read as an 8-bit two's-complement number.
pub open spec fn signed(byte: u8) -> i8 {
    if byte < 128 {
        byte as i8
    } else {
        (byte as int - 256) as i8
    }
}

/// `base` moved by `by`, modulo 65536.
pub open spec fn wrap16(base: u16, by: int) -> u16 {
    ((base as int + by) % 0x1_0000) as u16
}

/// Shifting the upper half into place and or-ing in the lower half makes
/// the word.
pub proof fn lemma_word_is_shift_or(high: u8, low: u8)
    ensures
        ((high as u16) << 8) | (low as u16) == word(high, low),
{
    assert(((high as u16) << 8) | (low as u16) == (high as u16) * 256 + (low as u16))
        by (bit_vector);
}

/// Shifting and masking give the two halves of a word.
pub proof fn lemma_halves_are_shift_and_mask(value: u16)
    ensures
        (value >> 8) as u8 == high_byte(value),
        (value & 0x00FF) as u8 == low_byte(value),
{
    assert((value >> 8) as u8 == (value / 256) as u8) by (bit_vector);
    assert((value & 0x00FF) as u8 == (value % 256) as u8) by (bit_vector);
}

/// Reinterpreting a byte as `i8` reads it as two's complement.
pub proof fn lemma_cast_is_signed(byte: u8)
    ensures
        byte as i8 == signed(byte),
{
    assert(byte < 128 ==> byte as i8 == byte) by (bit_vector);
    assert(byte >= 128 ==> byte as i8 == byte - 256) by (bit_vector);
}

} // verus!
