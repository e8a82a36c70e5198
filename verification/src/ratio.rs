//! The values that the clock hardware can encode, and their encodings.
//!
//! Each type here is a validated wrapper: a value of it exists only for a
//! setting that the silicon supports, so the code that writes registers never
//! has to round, clamp or re-check.

use crate::bits::{bit_of, get_bit, set_bit, with_bit};
use crate::clock::OscRange;
use vstd::prelude::*;

verus! {

/// Smallest load capacitance the oscillator can add, in picofarads.
pub const MIN_CAPACITANCE: u8 = 2;

/// Largest supported load capacitance, in picofarads.
pub const MAX_CAPACITANCE: u8 = 20;

/// Smallest multiplication factor of the PLL.
pub const MIN_NUMERATOR: u8 = 24;

/// Largest multiplication factor of the PLL.
pub const MAX_NUMERATOR: u8 = 55;

/// Smallest division factor of the PLL's reference.
pub const MIN_DENOMINATOR: u8 = 1;

/// Largest division factor of the PLL's reference.
pub const MAX_DENOMINATOR: u8 = 24;

/// Divide ratio that brings the Teensy 3.2's 16 MHz crystal into the band of
/// the frequency-locked loop's reference.
pub const TEENSY_32_DIVIDE: u32 = 512;

/// Divider field that encodes `TEENSY_32_DIVIDE` in the very high range.
pub const TEENSY_32_DIVIDER_FIELD: u8 = 4;

/// PLL numerator that makes 72 MHz of the Teensy 3.2's crystal.
pub const TEENSY_32_NUMERATOR: u8 = 27;

/// PLL denominator that makes 72 MHz of the Teensy 3.2's crystal.
pub const TEENSY_32_DENOMINATOR: u8 = 6;

/// Position of the 2 pF bit in a load given in picofarads.
pub const LOAD_2PF_BIT: usize = 1;

/// Position of the 4 pF bit in a load given in picofarads.
pub const LOAD_4PF_BIT: usize = 2;

/// Position of the 8 pF bit in a load given in picofarads.
pub const LOAD_8PF_BIT: usize = 3;

/// Position of the 16 pF bit in a load given in picofarads.
pub const LOAD_16PF_BIT: usize = 4;

/// Position of the oscillator-enable bit in the oscillator control word.
pub const OSC_ENABLE_BIT: usize = 7;

/// Position of the 2 pF capacitor bit in the oscillator control word.
pub const OSC_2PF_BIT: usize = 3;

/// Position of the 4 pF capacitor bit in the oscillator control word.
pub const OSC_4PF_BIT: usize = 2;

/// Position of the 8 pF capacitor bit in the oscillator control word.
pub const OSC_8PF_BIT: usize = 1;

/// Position of the 16 pF capacitor bit in the oscillator control word.
pub const OSC_16PF_BIT: usize = 0;

/// A setting that the hardware cannot encode.
#[derive(Clone, Copy, Debug, PartialEq, Eq, Structural)]
pub enum ConfigurationError {
    /// The divide ratio is not in the table of the selected frequency range.
    Divider(u32),
    /// The PLL numerator is outside 24..=55.
    Numerator(u8),
    /// The PLL denominator is outside 1..=24.
    Denominator(u8),
}

/// Whether the oscillator can be loaded with `picofarads`: an even value from
/// 2 to 20.
pub open spec fn capacitance_supported(picofarads: u8) -> bool {
    MIN_CAPACITANCE <= picofarads <= MAX_CAPACITANCE && picofarads % 2 == 0
}

/// The oscillator control word for a load of `picofarads`: the enable bit,
/// and the four capacitor bits in the register's reversed order.
pub open spec fn control_word(picofarads: u8) -> u8 {
    0x80u8 | (if picofarads & 2 != 0 { 8u8 } else { 0u8 })
        | (if picofarads & 4 != 0 { 4u8 } else { 0u8 })
        | (if picofarads & 8 != 0 { 2u8 } else { 0u8 })
        | (if picofarads & 16 != 0 { 1u8 } else { 0u8 })
}

/// The control word of each supported load, written out.
pub open spec fn control_word_table(picofarads: u8) -> u8 {
    if picofarads == 2 {
        0x88
    } else if picofarads == 4 {
        0x84
    } else if picofarads == 6 {
        0x8c
    } else if picofarads == 8 {
        0x82
    } else if picofarads == 10 {
        0x8a
    } else if picofarads == 12 {
        0x86
    } else if picofarads == 14 {
        0x8e
    } else if picofarads == 16 {
        0x81
    } else if picofarads == 18 {
        0x89
    } else {
        0x85
    }
}

/// For every supported load the control word is the table's entry.
pub proof fn lemma_control_word_matches_table(picofarads: u8)
    requires
        capacitance_supported(picofarads),
    ensures
        control_word(picofarads) == control_word_table(picofarads),
{
    assert(MIN_CAPACITANCE <= picofarads <= MAX_CAPACITANCE && picofarads % 2 == 0 ==> control_word(
        picofarads,
    ) == control_word_table(picofarads)) by (bit_vector);
}

/// The control word is a function of the load alone: equal loads give equal
/// words, and distinct supported loads give distinct words.
pub proof fn lemma_control_word_determined(first: u8, second: u8)
    requires
        capacitance_supported(first),
        capacitance_supported(second),
    ensures
        first == second <==> control_word(first) == control_word(second),
{
    lemma_control_word_matches_table(first);
    lemma_control_word_matches_table(second);
}

/// A load capacitance that the oscillator supports.
#[derive(Clone, Copy, Debug)]
pub struct Capacitance {
    picofarads: u8,
}

impl Capacitance {
    #[verifier::type_invariant]
    spec fn supported(self) -> bool {
        capacitance_supported(self.picofarads)
    }

    /// The load in picofarads.
    pub closed spec fn value(self) -> u8 {
        self.picofarads
    }

    /// Accepts exactly the even loads from 2 pF to 20 pF.
    pub fn new(picofarads: u8) -> (made: Option<Capacitance>)
        ensures
            capacitance_supported(picofarads) <==> made is Some,
            made matches Some(c) ==> c.value() == picofarads,
    {
        if MIN_CAPACITANCE <= picofarads && picofarads <= MAX_CAPACITANCE && picofarads % 2 == 0 {
            Some(Capacitance { picofarads })
        } else {
            None
        }
    }

    /// The load in picofarads.
    pub fn picofarads(&self) -> (value: u8)
        ensures
            value == self.value(),
            capacitance_supported(value),
    {
        proof {
            use_type_invariant(self);
        }
        self.picofarads
    }

    /// The word that enables the oscillator with this load.
    pub fn control_word(&self) -> (word: u8)
        ensures
            word == control_word(self.value()),
            word == control_word_table(self.value()),
    {
        let load: u8 = self.picofarads();
        let mut word: u8 = 0;
        set_bit(&mut word, OSC_2PF_BIT, get_bit(load, LOAD_2PF_BIT));
        set_bit(&mut word, OSC_4PF_BIT, get_bit(load, LOAD_4PF_BIT));
        set_bit(&mut word, OSC_8PF_BIT, get_bit(load, LOAD_8PF_BIT));
        set_bit(&mut word, OSC_16PF_BIT, get_bit(load, LOAD_16PF_BIT));
        set_bit(&mut word, OSC_ENABLE_BIT, true);
        assert(word == control_word(load)) by (bit_vector)
            requires
                word == with_bit(
                    with_bit(
                        with_bit(
                            with_bit(
                                with_bit(0u8, 3u8, bit_of(load, 1u8)),
                                2u8,
                                bit_of(load, 2u8),
                            ),
                            1u8,
                            bit_of(load, 3u8),
                        ),
                        0u8,
                        bit_of(load, 4u8),
                    ),
                    7u8,
                    true,
                ),
        ;
        proof {
            lemma_control_word_matches_table(load);
        }
        word
    }
}

/// The divider field for `ratio` when the crystal is in the low range.
pub open spec fn low_range_field(ratio: u32) -> Option<u8> {
    if ratio == 1 {
        Some(0u8)
    } else if ratio == 2 {
        Some(1u8)
    } else if ratio == 4 {
        Some(2u8)
    } else if ratio == 8 {
        Some(3u8)
    } else if ratio == 16 {
        Some(4u8)
    } else if ratio == 32 {
        Some(5u8)
    } else if ratio == 64 {
        Some(6u8)
    } else if ratio == 128 {
        Some(7u8)
    } else {
        None
    }
}

/// The divider field for `ratio` when the crystal is in the high or the very
/// high range.
pub open spec fn high_range_field(ratio: u32) -> Option<u8> {
    if ratio == 32 {
        Some(0u8)
    } else if ratio == 64 {
        Some(1u8)
    } else if ratio == 128 {
        Some(2u8)
    } else if ratio == 256 {
        Some(3u8)
    } else if ratio == 512 {
        Some(4u8)
    } else if ratio == 1024 {
        Some(5u8)
    } else if ratio == 1280 {
        Some(6u8)
    } else if ratio == 1536 {
        Some(7u8)
    } else {
        None
    }
}

/// The divider field that encodes `ratio` for a crystal in `range`, if the
/// hardware has one.
pub open spec fn divider_field(range: OscRange, ratio: u32) -> Option<u8> {
    match range {
        OscRange::Low => low_range_field(ratio),
        OscRange::High => high_range_field(ratio),
        OscRange::VeryHigh => high_range_field(ratio),
    }
}

/// In the low range the accepted ratios are exactly the powers of two from 1
/// to 128, and each is encoded in three bits.
pub proof fn lemma_low_range_ratios(ratio: u32)
    ensures
        divider_field(OscRange::Low, ratio) is Some <==> (ratio == 1 || ratio == 2 || ratio == 4
            || ratio == 8 || ratio == 16 || ratio == 32 || ratio == 64 || ratio == 128),
        divider_field(OscRange::Low, ratio) matches Some(field) ==> field < 8,
{
}

/// In the high and very high ranges the accepted ratios are exactly 32, 64,
/// 128, 256, 512, 1024, 1280 and 1536, each is encoded in three bits, and the
/// two ranges share one table.
pub proof fn lemma_high_range_ratios(ratio: u32)
    ensures
        divider_field(OscRange::High, ratio) == divider_field(OscRange::VeryHigh, ratio),
        divider_field(OscRange::High, ratio) is Some <==> (ratio == 32 || ratio == 64 || ratio
            == 128 || ratio == 256 || ratio == 512 || ratio == 1024 || ratio == 1280 || ratio
            == 1536),
        divider_field(OscRange::High, ratio) matches Some(field) ==> field < 8,
{
}

/// Within one range, two accepted ratios with the same field are the same
/// ratio, and a larger ratio has a larger field.
pub proof fn lemma_divider_field_order(range: OscRange, first: u32, second: u32)
    requires
        divider_field(range, first) is Some,
        divider_field(range, second) is Some,
    ensures
        first < second <==> divider_field(range, first)->Some_0 < divider_field(
            range,
            second,
        )->Some_0,
        first == second <==> divider_field(range, first) == divider_field(range, second),
{
}

/// A divide ratio for the external reference that the divider field can
/// encode.
#[derive(Clone, Copy, Debug)]
pub struct DividerRatio {
    ratio: u32,
    field: u8,
}

impl DividerRatio {
    #[verifier::type_invariant]
    spec fn encodable(self) -> bool {
        &&& self.field < 8
        &&& self.ratio >= 1
        &&& (low_range_field(self.ratio) == Some(self.field) || high_range_field(self.ratio)
            == Some(self.field))
    }

    /// The ratio by which the external reference is divided.
    pub closed spec fn value(self) -> u32 {
        self.ratio
    }

    /// The value of the divider field that encodes the ratio.
    pub closed spec fn encoded(self) -> u8 {
        self.field
    }

    /// Accepts exactly the ratios in the table of `range`, and fails with the
    /// rejected ratio otherwise.
    pub fn new(range: OscRange, ratio: u32) -> (made: Result<DividerRatio, ConfigurationError>)
        ensures
            match divider_field(range, ratio) {
                Some(field) => made matches Ok(divider) && divider.value() == ratio
                    && divider.encoded() == field,
                None => made == Err::<DividerRatio, ConfigurationError>(
                    ConfigurationError::Divider(ratio),
                ),
            },
    {
        let low: bool = match range {
            OscRange::Low => true,
            OscRange::High => false,
            OscRange::VeryHigh => false,
        };
        let field: Option<u8> = if low {
            match ratio {
                1 => Some(0),
                2 => Some(1),
                4 => Some(2),
                8 => Some(3),
                16 => Some(4),
                32 => Some(5),
                64 => Some(6),
                128 => Some(7),
                _ => None,
            }
        } else {
            match ratio {
                32 => Some(0),
                64 => Some(1),
                128 => Some(2),
                256 => Some(3),
                512 => Some(4),
                1024 => Some(5),
                1280 => Some(6),
                1536 => Some(7),
                _ => None,
            }
        };
        match field {
            Some(field) => Ok(DividerRatio { ratio, field }),
            None => Err(ConfigurationError::Divider(ratio)),
        }
    }

    /// The ratio for the Teensy 3.2: 512, for a crystal in the very high
    /// range.
    pub fn teensy_32() -> (divider: DividerRatio)
        ensures
            divider.value() == TEENSY_32_DIVIDE,
            divider.encoded() == TEENSY_32_DIVIDER_FIELD,
    {
        DividerRatio { ratio: TEENSY_32_DIVIDE, field: TEENSY_32_DIVIDER_FIELD }
    }

    /// The ratio by which the external reference is divided.
    pub fn ratio(&self) -> (ratio: u32)
        ensures
            ratio == self.value(),
            ratio >= 1,
    {
        proof {
            use_type_invariant(self);
        }
        self.ratio
    }

    /// The value of the divider field, always below 8.
    pub fn field(&self) -> (field: u8)
        ensures
            field == self.encoded(),
            field < 8,
    {
        proof {
            use_type_invariant(self);
        }
        self.field
    }

    /// The frequency of the divided reference for a crystal of `crystal_hz`,
    /// rounded down.
    pub fn reference_hz(&self, crystal_hz: u32) -> (hz: u32)
        ensures
            hz == crystal_hz as int / self.value() as int,
    {
        proof {
            use_type_invariant(self);
        }
        crystal_hz / self.ratio
    }
}

/// Whether the PLL can multiply by `numerator` and divide by `denominator`.
pub open spec fn multiplier_supported(numerator: u8, denominator: u8) -> bool {
    MIN_NUMERATOR <= numerator <= MAX_NUMERATOR && MIN_DENOMINATOR <= denominator
        <= MAX_DENOMINATOR
}

/// The frequency that the PLL makes of a crystal of `crystal_hz`, rounded
/// down.
pub open spec fn pll_output_hz(crystal_hz: u32, numerator: u8, denominator: u8) -> int {
    (crystal_hz as int * numerator as int) / denominator as int
}

/// A numerator and denominator that the PLL fields can encode.
#[derive(Clone, Copy, Debug)]
pub struct MultiplierRatio {
    numerator: u8,
    denominator: u8,
}

impl MultiplierRatio {
    #[verifier::type_invariant]
    spec fn encodable(self) -> bool {
        multiplier_supported(self.numerator, self.denominator)
    }

    /// The factor by which the PLL multiplies.
    pub closed spec fn top(self) -> u8 {
        self.numerator
    }

    /// The factor by which the PLL's reference is divided.
    pub closed spec fn bottom(self) -> u8 {
        self.denominator
    }

    /// Accepts exactly a numerator in 24..=55 with a denominator in 1..=24.
    /// The numerator is judged first.
    pub fn new(numerator: u8, denominator: u8) -> (made: Result<
        MultiplierRatio,
        ConfigurationError,
    >)
        ensures
            multiplier_supported(numerator, denominator) ==> (made matches Ok(multiplier)
                && multiplier.top() == numerator && multiplier.bottom() == denominator),
            !(MIN_NUMERATOR <= numerator <= MAX_NUMERATOR) ==> made == Err::<
                MultiplierRatio,
                ConfigurationError,
            >(ConfigurationError::Numerator(numerator)),
            MIN_NUMERATOR <= numerator <= MAX_NUMERATOR && !(MIN_DENOMINATOR <= denominator
                <= MAX_DENOMINATOR) ==> made == Err::<MultiplierRatio, ConfigurationError>(
                ConfigurationError::Denominator(denominator),
            ),
    {
        if numerator < MIN_NUMERATOR || numerator > MAX_NUMERATOR {
            Err(ConfigurationError::Numerator(numerator))
        } else if denominator < MIN_DENOMINATOR || denominator > MAX_DENOMINATOR {
            Err(ConfigurationError::Denominator(denominator))
        } else {
            Ok(MultiplierRatio { numerator, denominator })
        }
    }

    /// The ratio for the Teensy 3.2: 27/6.
    pub fn teensy_32() -> (multiplier: MultiplierRatio)
        ensures
            multiplier.top() == TEENSY_32_NUMERATOR,
            multiplier.bottom() == TEENSY_32_DENOMINATOR,
    {
        MultiplierRatio { numerator: TEENSY_32_NUMERATOR, denominator: TEENSY_32_DENOMINATOR }
    }

    /// The factor by which the PLL multiplies.
    pub fn numerator(&self) -> (numerator: u8)
        ensures
            numerator == self.top(),
            MIN_NUMERATOR <= numerator <= MAX_NUMERATOR,
    {
        proof {
            use_type_invariant(self);
        }
        self.numerator
    }

    /// The factor by which the PLL's reference is divided.
    pub fn denominator(&self) -> (denominator: u8)
        ensures
            denominator == self.bottom(),
            MIN_DENOMINATOR <= denominator <= MAX_DENOMINATOR,
    {
        proof {
            use_type_invariant(self);
        }
        self.denominator
    }

    /// The value of the multiplier field: the numerator less 24.
    pub fn numerator_field(&self) -> (field: u8)
        ensures
            field == self.top() - MIN_NUMERATOR,
            field < 32,
    {
        proof {
            use_type_invariant(self);
        }
        self.numerator - MIN_NUMERATOR
    }

    /// The value of the reference divider field: the denominator less 1.
    pub fn denominator_field(&self) -> (field: u8)
        ensures
            field == self.bottom() - 1,
            field < 24,
    {
        proof {
            use_type_invariant(self);
        }
        self.denominator - 1
    }

    /// The frequency of the PLL's output for a crystal of `crystal_hz`,
    /// rounded down.
    pub fn output_hz(&self, crystal_hz: u32) -> (hz: u64)
        ensures
            hz == pll_output_hz(crystal_hz, self.top(), self.bottom()),
    {
        proof {
            use_type_invariant(self);
        }
        assert(crystal_hz as int * self.numerator as int <= 0xffff_ffff * 55) by (nonlinear_arith)
            requires
                0 <= crystal_hz as int <= 0xffff_ffff,
                0 <= self.numerator as int <= 55,
        ;
        let scaled: u64 = (crystal_hz as u64) * (self.numerator as u64);
        scaled / (self.denominator as u64)
    }
}

} // verus!
