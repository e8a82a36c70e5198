use teensy_boot::clock::{OscRange, OscSource};
use teensy_boot::fields::{
    range_of, with_crystal, with_external, with_locked_loop, with_pll_divider,
    with_pll_multiplier,
};
use teensy_boot::ratio::{DividerRatio, MultiplierRatio};
use teensy_boot::trace::StatusCondition;

#[test]
fn range_and_source_encodings() {
    assert_eq!(OscRange::Low.bits(), 0);
    assert_eq!(OscRange::High.bits(), 1);
    assert_eq!(OscRange::VeryHigh.bits(), 2);
    assert_eq!(OscSource::LockedLoop.bits(), 0);
    assert_eq!(OscSource::Internal.bits(), 1);
    assert_eq!(OscSource::External.bits(), 2);
}

#[test]
fn range_from_bits() {
    assert_eq!(OscRange::from_bits(0), OscRange::Low);
    assert_eq!(OscRange::from_bits(1), OscRange::High);
    assert_eq!(OscRange::from_bits(2), OscRange::VeryHigh);
    assert_eq!(OscRange::from_bits(3), OscRange::VeryHigh);
    for range in [OscRange::Low, OscRange::High, OscRange::VeryHigh] {
        assert_eq!(OscRange::from_bits(range.bits()), range);
    }
}

#[test]
fn crystal_request_sets_range_and_reference_bit() {
    assert_eq!(with_crystal(0x00, OscRange::Low), 0x04);
    assert_eq!(with_crystal(0x00, OscRange::High), 0x14);
    assert_eq!(with_crystal(0x00, OscRange::VeryHigh), 0x24);
    assert_eq!(with_crystal(0xff, OscRange::Low), 0xcf);
    assert_eq!(with_crystal(0xff, OscRange::High), 0xdf);
    assert_eq!(with_crystal(0xff, OscRange::VeryHigh), 0xef);
    assert_eq!(with_crystal(0b1011_1011, OscRange::High), 0b1001_1111);
}

#[test]
fn crystal_request_keeps_every_other_bit() {
    for byte in 0..=u8::MAX {
        for range in [OscRange::Low, OscRange::High, OscRange::VeryHigh] {
            let next = with_crystal(byte, range);
            assert_eq!(next & 0xcb, byte & 0xcb);
            assert_eq!((next >> 4) & 3, range.bits());
            assert_eq!(next & 0x04, 0x04);
        }
    }
}

#[test]
fn range_is_read_back_as_written() {
    for byte in 0..=u8::MAX {
        for range in [OscRange::Low, OscRange::High, OscRange::VeryHigh] {
            assert_eq!(range_of(with_crystal(byte, range)), range);
        }
    }
}

#[test]
fn range_of_reads_bits_four_and_five() {
    assert_eq!(range_of(0x00), OscRange::Low);
    assert_eq!(range_of(0xcf), OscRange::Low);
    assert_eq!(range_of(0x10), OscRange::High);
    assert_eq!(range_of(0x20), OscRange::VeryHigh);
    assert_eq!(range_of(0x30), OscRange::VeryHigh);
    assert_eq!(range_of(0xff), OscRange::VeryHigh);
}

#[test]
fn external_selection_sets_source_divider_and_reference() {
    let divider = DividerRatio::new(OscRange::VeryHigh, 512).unwrap();
    assert_eq!(with_external(0x00, &divider), 0xa0);
    assert_eq!(with_external(0xff, &divider), 0xa3);
    assert_eq!(with_external(0x04, &divider), 0xa0);
    let smallest = DividerRatio::new(OscRange::Low, 1).unwrap();
    assert_eq!(with_external(0xff, &smallest), 0x83);
    let largest = DividerRatio::new(OscRange::Low, 128).unwrap();
    assert_eq!(with_external(0x00, &largest), 0xb8);
}

#[test]
fn external_selection_keeps_the_two_low_bits() {
    let table: [(u32, u8); 8] =
        [(32, 0), (64, 1), (128, 2), (256, 3), (512, 4), (1024, 5), (1280, 6), (1536, 7)];
    for byte in 0..=u8::MAX {
        for (ratio, field) in table {
            let divider = DividerRatio::new(OscRange::High, ratio).unwrap();
            let next = with_external(byte, &divider);
            assert_eq!(next & 0x03, byte & 0x03);
            assert_eq!(next >> 6, 2);
            assert_eq!((next >> 3) & 7, field);
            assert_eq!(next & 0x04, 0);
        }
    }
}

#[test]
fn pll_divider_field() {
    let multiplier = MultiplierRatio::new(27, 6).unwrap();
    assert_eq!(with_pll_divider(0x00, &multiplier), 0x05);
    assert_eq!(with_pll_divider(0xff, &multiplier), 0xe5);
    let largest = MultiplierRatio::new(24, 24).unwrap();
    assert_eq!(with_pll_divider(0x1f, &largest), 0x17);
    let smallest = MultiplierRatio::new(24, 1).unwrap();
    assert_eq!(with_pll_divider(0xff, &smallest), 0xe0);
}

#[test]
fn pll_multiplier_field_and_select_bit() {
    let multiplier = MultiplierRatio::new(27, 6).unwrap();
    assert_eq!(with_pll_multiplier(0x00, &multiplier), 0x43);
    assert_eq!(with_pll_multiplier(0xff, &multiplier), 0xe3);
    let largest = MultiplierRatio::new(55, 1).unwrap();
    assert_eq!(with_pll_multiplier(0x00, &largest), 0x5f);
    let smallest = MultiplierRatio::new(24, 1).unwrap();
    assert_eq!(with_pll_multiplier(0xbf, &smallest), 0xe0);
}

#[test]
fn locked_loop_selection_clears_the_source() {
    assert_eq!(with_locked_loop(0xff), 0x3f);
    assert_eq!(with_locked_loop(0xa0), 0x20);
    assert_eq!(with_locked_loop(0x00), 0x00);
    for byte in 0..=u8::MAX {
        assert_eq!(with_locked_loop(byte), byte & 0x3f);
    }
}

#[test]
fn edits_are_idempotent() {
    let divider = DividerRatio::new(OscRange::VeryHigh, 512).unwrap();
    let multiplier = MultiplierRatio::new(27, 6).unwrap();
    for byte in 0..=u8::MAX {
        let c2 = with_crystal(byte, OscRange::VeryHigh);
        assert_eq!(with_crystal(c2, OscRange::VeryHigh), c2);
        let c1 = with_external(byte, &divider);
        assert_eq!(with_external(c1, &divider), c1);
        let c5 = with_pll_divider(byte, &multiplier);
        assert_eq!(with_pll_divider(c5, &multiplier), c5);
        let c6 = with_pll_multiplier(byte, &multiplier);
        assert_eq!(with_pll_multiplier(c6, &multiplier), c6);
        let pll = with_locked_loop(byte);
        assert_eq!(with_locked_loop(pll), pll);
    }
}

#[test]
fn status_conditions() {
    assert!(StatusCondition::OscillatorInitialized.met(0x02));
    assert!(!StatusCondition::OscillatorInitialized.met(0xfd));
    assert!(StatusCondition::ReferenceExternal.met(0x00));
    assert!(StatusCondition::ReferenceExternal.met(0xef));
    assert!(!StatusCondition::ReferenceExternal.met(0x10));
    assert!(StatusCondition::ClockExternal.met(0x08));
    assert!(StatusCondition::ClockExternal.met(0xfb));
    assert!(!StatusCondition::ClockExternal.met(0x00));
    assert!(!StatusCondition::ClockExternal.met(0x04));
    assert!(!StatusCondition::ClockExternal.met(0x0c));
    assert!(StatusCondition::PllSelected.met(0x20));
    assert!(!StatusCondition::PllSelected.met(0xdf));
    assert!(StatusCondition::PllLocked.met(0x40));
    assert!(!StatusCondition::PllLocked.met(0xbf));
    assert!(StatusCondition::ClockPll.met(0x0c));
    assert!(StatusCondition::ClockPll.met(0xff));
    assert!(!StatusCondition::ClockPll.met(0x08));
    assert!(!StatusCondition::ClockPll.met(0x04));
    assert!(!StatusCondition::ClockPll.met(0x00));
}

#[test]
fn status_conditions_over_every_byte() {
    for status in 0..=u8::MAX {
        assert_eq!(StatusCondition::OscillatorInitialized.met(status), status & 0x02 != 0);
        assert_eq!(StatusCondition::ReferenceExternal.met(status), status & 0x10 == 0);
        assert_eq!(StatusCondition::ClockExternal.met(status), (status >> 2) & 3 == 2);
        assert_eq!(StatusCondition::PllSelected.met(status), status & 0x20 != 0);
        assert_eq!(StatusCondition::PllLocked.met(status), status & 0x40 != 0);
        assert_eq!(StatusCondition::ClockPll.met(status), (status >> 2) & 3 == 3);
    }
}
