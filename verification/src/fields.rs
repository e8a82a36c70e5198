//! The fields of the clock generator's control registers.
//!
//! Each function here takes the byte that a control register held and gives
//! the byte to store back: the fields it names are replaced, every other bit
//! is kept.

use crate::bits::{bits_of, fits, get_bits, set_bit, set_bits, with_bit, with_bits};
use crate::clock::{OscRange, OscSource};
use crate::ratio::{divider_field, DividerRatio, MultiplierRatio};
use vstd::prelude::*;

verus! {

/// First bit of the clock-source selector in control register 1.
pub const C1_SOURCE_START: usize = 6;

/// End of the clock-source selector in control register 1.
pub const C1_SOURCE_END: usize = 8;

/// First bit of the reference divider field in control register 1.
pub const C1_DIVIDER_START: usize = 3;

/// End of the reference divider field in control register 1.
pub const C1_DIVIDER_END: usize = 6;

/// Position of the internal-reference-select bit in control register 1.
pub const C1_INTERNAL_REFERENCE_BIT: usize = 2;

/// First bit of the frequency-range field in control register 2.
pub const C2_RANGE_START: usize = 4;

/// End of the frequency-range field in control register 2.
pub const C2_RANGE_END: usize = 6;

/// Position of the external-reference-select bit in control register 2.
pub const C2_CRYSTAL_BIT: usize = 2;

/// First bit of the PLL reference divider field in control register 5.
pub const C5_DIVIDER_START: usize = 0;

/// End of the PLL reference divider field in control register 5.
pub const C5_DIVIDER_END: usize = 5;

/// First bit of the PLL multiplier field in control register 6.
pub const C6_MULTIPLIER_START: usize = 0;

/// End of the PLL multiplier field in control register 6.
pub const C6_MULTIPLIER_END: usize = 5;

/// Position of the PLL-select bit in control register 6.
pub const C6_PLL_SELECT_BIT: usize = 6;

/// Control register 2 with the frequency range set to `range` and the crystal
/// oscillator requested as the external reference.
pub open spec fn c2_crystal(c2: u8, range: OscRange) -> u8 {
    (c2 & 0xcb) | (range.encoding() << 4u8) | 0x04
}

/// Control register 1 with the external reference selected as the output,
/// the reference divider set to `field`, and the internal reference
/// deselected.
pub open spec fn c1_external(c1: u8, field: u8) -> u8 {
    (c1 & 0x03) | 0x80 | (field << 3u8)
}

/// Control register 5 with the PLL reference divided by `denominator`.
pub open spec fn c5_divided(c5: u8, denominator: u8) -> u8 {
    (c5 & 0xe0) | ((denominator - 1) as u8)
}

/// Control register 6 with the PLL multiplying by `numerator` and selected.
pub open spec fn c6_multiplied(c6: u8, numerator: u8) -> u8 {
    (c6 & 0xa0) | ((numerator - 24) as u8) | 0x40
}

/// Control register 1 with the locked loop selected as the output.
pub open spec fn c1_locked_loop(c1: u8) -> u8 {
    c1 & 0x3f
}

/// The frequency range that control register 2 selects. Both encodings with
/// the upper bit set mean the very high range.
pub open spec fn c2_range(c2: u8) -> OscRange {
    if c2 & 0x30 == 0x00 {
        OscRange::Low
    } else if c2 & 0x30 == 0x10 {
        OscRange::High
    } else {
        OscRange::VeryHigh
    }
}

/// Sets the frequency range and requests the crystal oscillator.
pub fn with_crystal(c2: u8, range: OscRange) -> (next: u8)
    ensures
        next == c2_crystal(c2, range),
{
    let code: u8 = range.bits();
    let mut next: u8 = c2;
    assert(fits(code, 4u8, 6u8)) by (bit_vector)
        requires
            code <= 2,
    ;
    set_bits(&mut next, C2_RANGE_START, C2_RANGE_END, code);
    set_bit(&mut next, C2_CRYSTAL_BIT, true);
    assert(next == (c2 & 0xcb) | (code << 4u8) | 0x04) by (bit_vector)
        requires
            code <= 2,
            next == with_bit(with_bits(c2, 4u8, 6u8, code), 2u8, true),
    ;
    next
}

/// Selects the external reference, sets its divider and deselects the
/// internal reference.
pub fn with_external(c1: u8, divider: &DividerRatio) -> (next: u8)
    ensures
        next == c1_external(c1, divider.encoded()),
{
    let source: u8 = OscSource::External.bits();
    let field: u8 = divider.field();
    let mut next: u8 = c1;
    assert(fits(2u8, 6u8, 8u8)) by (bit_vector);
    set_bits(&mut next, C1_SOURCE_START, C1_SOURCE_END, source);
    assert(fits(field, 3u8, 6u8)) by (bit_vector)
        requires
            field < 8,
    ;
    set_bits(&mut next, C1_DIVIDER_START, C1_DIVIDER_END, field);
    set_bit(&mut next, C1_INTERNAL_REFERENCE_BIT, false);
    assert(next == (c1 & 0x03) | 0x80 | (field << 3u8)) by (bit_vector)
        requires
            field < 8,
            next == with_bit(with_bits(with_bits(c1, 6u8, 8u8, 2u8), 3u8, 6u8, field), 2u8, false),
    ;
    next
}

/// Sets the PLL reference divider.
pub fn with_pll_divider(c5: u8, multiplier: &MultiplierRatio) -> (next: u8)
    ensures
        next == c5_divided(c5, multiplier.bottom()),
{
    let field: u8 = multiplier.denominator_field();
    let mut next: u8 = c5;
    assert(fits(field, 0u8, 5u8)) by (bit_vector)
        requires
            field < 24,
    ;
    set_bits(&mut next, C5_DIVIDER_START, C5_DIVIDER_END, field);
    assert(next == (c5 & 0xe0) | field) by (bit_vector)
        requires
            field < 24,
            next == with_bits(c5, 0u8, 5u8, field),
    ;
    next
}

/// Sets the PLL multiplier and selects the PLL.
pub fn with_pll_multiplier(c6: u8, multiplier: &MultiplierRatio) -> (next: u8)
    ensures
        next == c6_multiplied(c6, multiplier.top()),
{
    let field: u8 = multiplier.numerator_field();
    let mut next: u8 = c6;
    assert(fits(field, 0u8, 5u8)) by (bit_vector)
        requires
            field < 32,
    ;
    set_bits(&mut next, C6_MULTIPLIER_START, C6_MULTIPLIER_END, field);
    set_bit(&mut next, C6_PLL_SELECT_BIT, true);
    assert(next == (c6 & 0xa0) | field | 0x40) by (bit_vector)
        requires
            field < 32,
            next == with_bit(with_bits(c6, 0u8, 5u8, field), 6u8, true),
    ;
    next
}

/// Selects the locked loop as the output.
pub fn with_locked_loop(c1: u8) -> (next: u8)
    ensures
        next == c1_locked_loop(c1),
{
    let source: u8 = OscSource::LockedLoop.bits();
    let mut next: u8 = c1;
    assert(fits(0u8, 6u8, 8u8)) by (bit_vector);
    set_bits(&mut next, C1_SOURCE_START, C1_SOURCE_END, source);
    assert(next == c1 & 0x3f) by (bit_vector)
        requires
            next == with_bits(c1, 6u8, 8u8, 0u8),
    ;
    next
}

/// Reads the frequency range out of control register 2.
pub fn range_of(c2: u8) -> (range: OscRange)
    ensures
        range == c2_range(c2),
{
    let code: u8 = get_bits(c2, C2_RANGE_START, C2_RANGE_END);
    assert(bits_of(c2, 4u8, 6u8) == (c2 & 0x30) >> 4u8) by (bit_vector);
    assert(((c2 & 0x30) >> 4u8 == 0) == (c2 & 0x30 == 0x00)) by (bit_vector);
    assert(((c2 & 0x30) >> 4u8 == 1) == (c2 & 0x30 == 0x10)) by (bit_vector);
    OscRange::from_bits(code)
}

/// The range that was written is the range that is read back: decoding what
/// `with_crystal` makes of any byte gives `range` again.
pub proof fn lemma_range_round_trip(c2: u8, range: OscRange)
    ensures
        c2_range(c2_crystal(c2, range)) == range,
{
    let code = range.encoding();
    assert(code <= 2 ==> (((c2 & 0xcb) | (code << 4u8) | 0x04) & 0x30) == (code << 4u8))
        by (bit_vector);
    assert(0u8 << 4u8 == 0x00u8) by (bit_vector);
    assert(1u8 << 4u8 == 0x10u8) by (bit_vector);
    assert(2u8 << 4u8 == 0x20u8) by (bit_vector);
}

/// A divide ratio is judged by the range that was selected: where control
/// register 2 gives back what selecting `range` stored in it, the table that
/// decides on `ratio` is the table of `range`.
pub proof fn lemma_ratio_judged_by_selected_range(c2: u8, range: OscRange, ratio: u32)
    ensures
        divider_field(c2_range(c2_crystal(c2, range)), ratio) == divider_field(range, ratio),
{
    lemma_range_round_trip(c2, range);
}

/// Writing a field twice is writing it once: each edit gives the same byte
/// when it is applied to its own result.
pub proof fn lemma_edits_idempotent(byte: u8, range: OscRange, field: u8, numerator: u8, denominator: u8)
    requires
        field < 8,
        24 <= numerator <= 55,
        1 <= denominator <= 24,
    ensures
        c2_crystal(c2_crystal(byte, range), range) == c2_crystal(byte, range),
        c1_external(c1_external(byte, field), field) == c1_external(byte, field),
        c5_divided(c5_divided(byte, denominator), denominator) == c5_divided(byte, denominator),
        c6_multiplied(c6_multiplied(byte, numerator), numerator) == c6_multiplied(byte, numerator),
        c1_locked_loop(c1_locked_loop(byte)) == c1_locked_loop(byte),
{
    let code = range.encoding();
    let n: u8 = (numerator - 24) as u8;
    let d: u8 = (denominator - 1) as u8;
    assert(code <= 2 ==> ((((byte & 0xcb) | (code << 4u8) | 0x04) & 0xcb) | (code << 4u8) | 0x04)
        == ((byte & 0xcb) | (code << 4u8) | 0x04)) by (bit_vector);
    assert(field < 8 ==> ((((byte & 0x03) | 0x80 | (field << 3u8)) & 0x03) | 0x80 | (field << 3u8))
        == ((byte & 0x03) | 0x80 | (field << 3u8))) by (bit_vector);
    assert(d < 24 ==> ((((byte & 0xe0) | d) & 0xe0) | d) == ((byte & 0xe0) | d)) by (bit_vector);
    assert(n < 32 ==> ((((byte & 0xa0) | n | 0x40) & 0xa0) | n | 0x40) == ((byte & 0xa0) | n
        | 0x40)) by (bit_vector);
    assert((byte & 0x3f) & 0x3f == byte & 0x3f) by (bit_vector);
}

} // verus!
