//! Bit-level access to register words.
//!
//! The edits themselves are made by the `bit_field` crate. The spec functions
//! here say, with plain shifts and masks, what each of its operations computes;
//! the small functions at the end of the file make the calls.

use bit_field::BitField;
use vstd::prelude::*;

verus! {

/// Width of a byte-sized register, in bits.
pub const BYTE_BITS: usize = 8;

/// Width of a word-sized register, in bits.
pub const WORD_BITS: usize = 32;

/// Whether bit `bit` of `word` is set; bit 0 is the least significant.
pub open spec fn bit_of(word: u8, bit: u8) -> bool {
    (word & (1u8 << bit)) != 0
}

/// `word` with bit `bit` set to `value` and every other bit kept.
pub open spec fn with_bit(word: u8, bit: u8, value: bool) -> u8 {
    if value {
        word | (1u8 << bit)
    } else {
        word & !(1u8 << bit)
    }
}

/// The bits `start..end` of `word`, moved down to bit 0.
pub open spec fn bits_of(word: u8, start: u8, end: u8) -> u8 {
    if start == end {
        0
    } else {
        ((word << ((8 - end) as u8)) >> ((8 - end) as u8)) >> start
    }
}

/// A byte with zeros in the bits `start..end` and ones everywhere else.
pub open spec fn keep_mask(start: u8, end: u8) -> u8 {
    !((((!0u8) << ((8 - end) as u8)) >> ((8 - end) as u8)) >> start << start)
}

/// Whether `value` has no bit set at or above bit `end - start`.
pub open spec fn fits(value: u8, start: u8, end: u8) -> bool {
    (start == end && value == 0) || (value << ((8 - (end - start)) as u8)) >> ((8 - (end
        - start)) as u8) == value
}

/// `word` with the bits `start..end` replaced by `value` and every other bit
/// kept.
pub open spec fn with_bits(word: u8, start: u8, end: u8, value: u8) -> u8 {
    if start == end {
        word
    } else {
        (word & keep_mask(start, end)) | (value << start)
    }
}

/// A word with zeros in the bits `start..end` and ones everywhere else.
pub open spec fn keep_mask_word(start: u32, end: u32) -> u32 {
    !((((!0u32) << ((32 - end) as u32)) >> ((32 - end) as u32)) >> start << start)
}

/// Whether `value` has no bit set at or above bit `end - start`.
pub open spec fn fits_word(value: u32, start: u32, end: u32) -> bool {
    (start == end && value == 0) || (value << ((32 - (end - start)) as u32)) >> ((32 - (end
        - start)) as u32) == value
}

/// `word` with the bits `start..end` replaced by `value` and every other bit
/// kept.
pub open spec fn with_bits_word(word: u32, start: u32, end: u32, value: u32) -> u32 {
    if start == end {
        word
    } else {
        (word & keep_mask_word(start, end)) | (value << start)
    }
}

/// Calls `BitField::get_bit` on a byte. That method panics for a bit index of
/// 8 or more, which the precondition excludes; otherwise it tests the word
/// against a one shifted to the bit's place.
#[verifier::external_body]
pub(crate) fn get_bit(word: u8, bit: usize) -> (set: bool)
    requires
        bit < BYTE_BITS,
    ensures
        set == bit_of(word, bit as u8),
{
    word.get_bit(bit)
}

/// Calls `BitField::get_bits` on a byte with the range `start..end`. That
/// method panics unless `start < 8`, `end <= 8` and `start <= end`; otherwise
/// it shifts the bits above the range out at the top, then the bits below it
/// out at the bottom.
#[verifier::external_body]
pub(crate) fn get_bits(word: u8, start: usize, end: usize) -> (field: u8)
    requires
        start < BYTE_BITS,
        end <= BYTE_BITS,
        start <= end,
    ensures
        field == bits_of(word, start as u8, end as u8),
{
    word.get_bits(start..end)
}

/// Calls `BitField::set_bit` on a byte. That method panics for a bit index of
/// 8 or more; otherwise it ors a one into the bit's place or masks it out.
#[verifier::external_body]
pub(crate) fn set_bit(word: &mut u8, bit: usize, value: bool)
    requires
        bit < BYTE_BITS,
    ensures
        *final(word) == with_bit(*old(word), bit as u8, value),
{
    word.set_bit(bit, value);
}

/// Calls `BitField::set_bits` on a byte with the range `start..end`. That
/// method panics on a range outside the byte and on a value with bits beyond
/// the range's width; otherwise it clears the range and ors the shifted value
/// in.
#[verifier::external_body]
pub(crate) fn set_bits(word: &mut u8, start: usize, end: usize, value: u8)
    requires
        start < BYTE_BITS,
        end <= BYTE_BITS,
        start <= end,
        fits(value, start as u8, end as u8),
    ensures
        *final(word) == with_bits(*old(word), start as u8, end as u8, value),
{
    word.set_bits(start..end, value);
}

/// Calls `BitField::set_bits` on a 32-bit word with the range `start..end`,
/// under the same conditions as for a byte.
#[verifier::external_body]
pub(crate) fn set_bits_word(word: &mut u32, start: usize, end: usize, value: u32)
    requires
        start < WORD_BITS,
        end <= WORD_BITS,
        start <= end,
        fits_word(value, start as u32, end as u32),
    ensures
        *final(word) == with_bits_word(*old(word), start as u32, end as u32, value),
{
    word.set_bits(start..end, value);
}

} // verus!
