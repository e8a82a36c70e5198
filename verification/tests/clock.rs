use teensy_boot::clock::{Clock, ClockError, Fbe, Fei, Mcg, OscRange, Oscillator, Pbe};
use teensy_boot::ratio::{Capacitance, ConfigurationError};
use teensy_boot::trace::StatusCondition;
use volatile::Volatile;

/// Ordinary memory standing in for the clock generator's registers.
struct Registers {
    c1: Volatile<u8>,
    c2: Volatile<u8>,
    c5: Volatile<u8>,
    c6: Volatile<u8>,
    s: Volatile<u8>,
}

fn registers(c1: u8, c2: u8, c5: u8, c6: u8, s: u8) -> Registers {
    Registers {
        c1: Volatile::new(c1),
        c2: Volatile::new(c2),
        c5: Volatile::new(c5),
        c6: Volatile::new(c6),
        s: Volatile::new(s),
    }
}

fn internal<'a>(registers: &'a mut Registers) -> Fei<'a> {
    let mcg = Mcg::new(
        &mut registers.c1,
        &mut registers.c2,
        &mut registers.c5,
        &mut registers.c6,
        &registers.s,
    );
    match mcg.clock() {
        Clock::Fei(fei) => fei,
        _ => panic!("a fresh handle stands for the internal reference"),
    }
}

fn external<'a>(registers: &'a mut Registers, divide: u32) -> Fbe<'a> {
    match internal(registers).use_external(divide, 4) {
        Ok(fbe) => fbe,
        Err(failed) => panic!("external reference not reached: {:?}", failed.error),
    }
}

fn bypassed<'a>(registers: &'a mut Registers) -> Pbe<'a> {
    match external(registers, 512).enable_pll(27, 6, 4) {
        Ok(pbe) => pbe,
        Err(failed) => panic!("PLL not started: {:?}", failed.error),
    }
}

#[test]
fn oscillator_enable_stores_the_control_word() {
    let mut control = Volatile::new(0x00u8);
    Oscillator::new(&mut control).enable(Capacitance::new(10).unwrap());
    assert_eq!(control.read(), 0x8a);
}

#[test]
fn oscillator_enable_does_not_depend_on_the_old_word() {
    for old in [0x00u8, 0x55, 0x7f, 0xff] {
        let mut control = Volatile::new(old);
        Oscillator::new(&mut control).enable(Capacitance::new(20).unwrap());
        assert_eq!(control.read(), 0x85);
    }
}

#[test]
fn oscillator_enable_twice_stores_the_same_word() {
    let mut control = Volatile::new(0x00u8);
    let capacitance = Capacitance::new(12).unwrap();
    {
        let mut oscillator = Oscillator::new(&mut control);
        oscillator.enable(capacitance);
    }
    let first = control.read();
    {
        let mut oscillator = Oscillator::new(&mut control);
        oscillator.enable(capacitance);
    }
    let second = control.read();
    assert_eq!(first, 0x86);
    assert_eq!(second, first);
}

#[test]
fn enable_xtal_sets_the_range_and_requests_the_crystal() {
    let mut registers = registers(0x04, 0x00, 0x00, 0x00, 0x02);
    {
        let mut fei = internal(&mut registers);
        assert_eq!(fei.enable_xtal(OscRange::VeryHigh, 1), Ok(()));
    }
    assert_eq!(registers.c2.read(), 0x24);
    assert_eq!(registers.c1.read(), 0x04);
    assert_eq!(registers.c5.read(), 0x00);
    assert_eq!(registers.c6.read(), 0x00);
}

#[test]
fn enable_xtal_keeps_the_other_bits_of_its_register() {
    let mut registers = registers(0x04, 0xff, 0x00, 0x00, 0xff);
    {
        let mut fei = internal(&mut registers);
        assert_eq!(fei.enable_xtal(OscRange::Low, 1), Ok(()));
    }
    assert_eq!(registers.c2.read(), 0xcf);
    let mut registers = self::registers(0x04, 0x8b, 0x00, 0x00, 0x02);
    {
        let mut fei = internal(&mut registers);
        assert_eq!(fei.enable_xtal(OscRange::High, 1), Ok(()));
    }
    assert_eq!(registers.c2.read(), 0x9f);
}

#[test]
fn enable_xtal_gives_up_when_the_oscillator_does_not_start() {
    let mut registers = registers(0x04, 0x00, 0x00, 0x00, 0xfd);
    {
        let mut fei = internal(&mut registers);
        assert_eq!(
            fei.enable_xtal(OscRange::VeryHigh, 1000),
            Err(ClockError::HardwareTimeout(StatusCondition::OscillatorInitialized))
        );
    }
    assert_eq!(registers.c2.read(), 0x24);
}

#[test]
fn a_wait_without_loads_times_out() {
    let mut registers = registers(0x04, 0x00, 0x00, 0x00, 0x02);
    let mut fei = internal(&mut registers);
    assert_eq!(
        fei.enable_xtal(OscRange::VeryHigh, 0),
        Err(ClockError::HardwareTimeout(StatusCondition::OscillatorInitialized))
    );
    assert_eq!(fei.enable_xtal(OscRange::VeryHigh, 1), Ok(()));
}

#[test]
fn use_external_selects_the_divided_external_reference() {
    let mut registers = registers(0x04, 0x24, 0x00, 0x00, 0x08);
    {
        let fbe = external(&mut registers, 512);
        assert_eq!(fbe.divider().ratio(), 512);
        assert_eq!(fbe.divider().field(), 4);
    }
    assert_eq!(registers.c1.read(), 0xa0);
    assert_eq!(registers.c2.read(), 0x24);
}

#[test]
fn use_external_keeps_the_low_bits_of_its_register() {
    let mut registers = registers(0xff, 0x14, 0x00, 0x00, 0x0a);
    {
        let fbe = external(&mut registers, 1536);
        assert_eq!(fbe.divider().field(), 7);
    }
    assert_eq!(registers.c1.read(), 0xbb);
}

#[test]
fn use_external_goes_by_the_range_in_the_register() {
    let mut low = registers(0x04, 0x04, 0x00, 0x00, 0x08);
    {
        let fbe = external(&mut low, 1);
        assert_eq!(fbe.divider().field(), 0);
    }
    assert_eq!(low.c1.read(), 0x80);
    let mut low = registers(0x04, 0x04, 0x00, 0x00, 0x08);
    match internal(&mut low).use_external(512, 4) {
        Ok(_) => panic!("512 is not a ratio of the low range"),
        Err(failed) => assert_eq!(
            failed.error,
            ClockError::Configuration(ConfigurationError::Divider(512))
        ),
    }
    let mut reserved = registers(0x04, 0x34, 0x00, 0x00, 0x08);
    {
        let fbe = external(&mut reserved, 1280);
        assert_eq!(fbe.divider().field(), 6);
    }
}

#[test]
fn use_external_follows_enable_xtal() {
    let mut registers = registers(0x04, 0x00, 0x00, 0x00, 0x0a);
    {
        let mut fei = internal(&mut registers);
        assert_eq!(fei.enable_xtal(OscRange::VeryHigh, 1), Ok(()));
        match fei.use_external(512, 1) {
            Ok(fbe) => assert_eq!(fbe.divider().field(), 4),
            Err(failed) => panic!("external reference not reached: {:?}", failed.error),
        }
    }
    assert_eq!(registers.c2.read(), 0x24);
    assert_eq!(registers.c1.read(), 0xa0);
}

#[test]
fn use_external_rejects_before_any_store() {
    for divide in [0u32, 3, 31, 33, 2048, u32::MAX] {
        let mut registers = registers(0x47, 0x24, 0x11, 0x22, 0x08);
        match internal(&mut registers).use_external(divide, 4) {
            Ok(_) => panic!("{} is not a supported ratio", divide),
            Err(failed) => assert_eq!(
                failed.error,
                ClockError::Configuration(ConfigurationError::Divider(divide))
            ),
        }
        assert_eq!(registers.c1.read(), 0x47);
        assert_eq!(registers.c2.read(), 0x24);
        assert_eq!(registers.c5.read(), 0x11);
        assert_eq!(registers.c6.read(), 0x22);
    }
}

#[test]
fn a_rejected_transition_hands_the_mode_back() {
    let mut registers = registers(0x04, 0x24, 0x00, 0x00, 0x08);
    {
        let fei = internal(&mut registers);
        let fei = match fei.use_external(3, 4) {
            Ok(_) => panic!("3 is not a supported ratio"),
            Err(failed) => failed.state,
        };
        assert!(fei.use_external(512, 4).is_ok());
    }
    assert_eq!(registers.c1.read(), 0xa0);
}

#[test]
fn use_external_waits_for_the_reference_first() {
    let mut registers = registers(0x04, 0x24, 0x00, 0x00, 0x18);
    match internal(&mut registers).use_external(512, 3) {
        Ok(_) => panic!("the loop still runs from the internal reference"),
        Err(failed) => assert_eq!(
            failed.error,
            ClockError::HardwareTimeout(StatusCondition::ReferenceExternal)
        ),
    }
    assert_eq!(registers.c1.read(), 0xa0);
}

#[test]
fn use_external_waits_for_the_clock_source_second() {
    for status in [0x00u8, 0x04, 0x0c] {
        let mut registers = registers(0x04, 0x24, 0x00, 0x00, status);
        match internal(&mut registers).use_external(512, 3) {
            Ok(_) => panic!("the output does not run from the external reference"),
            Err(failed) => assert_eq!(
                failed.error,
                ClockError::HardwareTimeout(StatusCondition::ClockExternal)
            ),
        }
        assert_eq!(registers.c1.read(), 0xa0);
    }
}

#[test]
fn enable_pll_sets_divider_multiplier_and_select_bit() {
    let mut registers = registers(0x04, 0x24, 0x00, 0x00, 0x68);
    {
        let pbe = bypassed(&mut registers);
        assert_eq!(pbe.multiplier().numerator(), 27);
        assert_eq!(pbe.multiplier().denominator(), 6);
        assert_eq!(pbe.divider().ratio(), 512);
        assert_eq!(pbe.multiplier().output_hz(16_000_000), 72_000_000);
    }
    assert_eq!(registers.c5.read(), 0x05);
    assert_eq!(registers.c6.read(), 0x43);
    assert_eq!(registers.c1.read(), 0xa0);
    assert_eq!(registers.c2.read(), 0x24);
}

#[test]
fn enable_pll_keeps_the_other_bits_of_its_registers() {
    let mut registers = registers(0x04, 0x24, 0xff, 0xff, 0x68);
    match external(&mut registers, 512).enable_pll(55, 24, 1) {
        Ok(pbe) => assert_eq!(pbe.multiplier().numerator_field(), 31),
        Err(failed) => panic!("PLL not started: {:?}", failed.error),
    }
    assert_eq!(registers.c5.read(), 0xf7);
    assert_eq!(registers.c6.read(), 0xff);
    let mut registers = self::registers(0x04, 0x24, 0xe0, 0xa0, 0x68);
    match external(&mut registers, 512).enable_pll(24, 1, 1) {
        Ok(pbe) => assert_eq!(pbe.multiplier().denominator_field(), 0),
        Err(failed) => panic!("PLL not started: {:?}", failed.error),
    }
    assert_eq!(registers.c5.read(), 0xe0);
    assert_eq!(registers.c6.read(), 0xe0);
}

#[test]
fn enable_pll_rejects_before_any_store() {
    let cases: [(u8, u8, ConfigurationError); 6] = [
        (23, 6, ConfigurationError::Numerator(23)),
        (56, 6, ConfigurationError::Numerator(56)),
        (0, 0, ConfigurationError::Numerator(0)),
        (27, 0, ConfigurationError::Denominator(0)),
        (27, 25, ConfigurationError::Denominator(25)),
        (255, 255, ConfigurationError::Numerator(255)),
    ];
    for (numerator, denominator, error) in cases {
        let mut registers = registers(0x04, 0x24, 0x3c, 0x81, 0x68);
        match external(&mut registers, 512).enable_pll(numerator, denominator, 4) {
            Ok(_) => panic!("{}/{} is not a supported ratio", numerator, denominator),
            Err(failed) => {
                assert_eq!(failed.error, ClockError::Configuration(error));
                assert_eq!(failed.state.divider().ratio(), 512);
            }
        }
        assert_eq!(registers.c5.read(), 0x3c);
        assert_eq!(registers.c6.read(), 0x81);
        assert_eq!(registers.c1.read(), 0xa0);
    }
}

#[test]
fn enable_pll_waits_for_the_selection_first() {
    let mut registers = registers(0x04, 0x24, 0x00, 0x00, 0x48);
    match external(&mut registers, 512).enable_pll(27, 6, 3) {
        Ok(_) => panic!("the PLL is not selected"),
        Err(failed) => {
            assert_eq!(failed.error, ClockError::HardwareTimeout(StatusCondition::PllSelected));
            assert_eq!(failed.state.divider().field(), 4);
        }
    }
    assert_eq!(registers.c5.read(), 0x05);
    assert_eq!(registers.c6.read(), 0x43);
}

#[test]
fn enable_pll_waits_for_the_lock_second() {
    let mut registers = registers(0x04, 0x24, 0x00, 0x00, 0x28);
    match external(&mut registers, 512).enable_pll(27, 6, 3) {
        Ok(_) => panic!("the PLL has not locked"),
        Err(failed) => {
            assert_eq!(failed.error, ClockError::HardwareTimeout(StatusCondition::PllLocked))
        }
    }
    assert_eq!(registers.c5.read(), 0x05);
    assert_eq!(registers.c6.read(), 0x43);
}

#[test]
fn use_pll_selects_the_locked_loop_and_waits_for_it() {
    let mut registers = registers(0x07, 0x24, 0x00, 0x00, 0x68);
    match bypassed(&mut registers).use_pll(5) {
        Ok(_) => panic!("the output does not run from the PLL"),
        Err(failed) => {
            assert_eq!(failed.error, ClockError::HardwareTimeout(StatusCondition::ClockPll));
            assert_eq!(failed.state.multiplier().numerator(), 27);
            assert_eq!(failed.state.multiplier().denominator(), 6);
            assert_eq!(failed.state.divider().ratio(), 512);
        }
    }
    assert_eq!(registers.c1.read(), 0x23);
    assert_eq!(registers.c5.read(), 0x05);
    assert_eq!(registers.c6.read(), 0x43);
}

#[test]
fn a_timed_out_transition_can_be_tried_again() {
    let mut registers = registers(0x04, 0x24, 0x00, 0x00, 0x68);
    {
        let pbe = bypassed(&mut registers);
        let pbe = match pbe.use_pll(1) {
            Ok(_) => panic!("the output does not run from the PLL"),
            Err(failed) => failed.state,
        };
        match pbe.use_pll(2) {
            Ok(_) => panic!("the output does not run from the PLL"),
            Err(failed) => {
                assert_eq!(failed.error, ClockError::HardwareTimeout(StatusCondition::ClockPll))
            }
        }
    }
    assert_eq!(registers.c1.read(), 0x20);
}

#[test]
fn bring_up_stops_at_the_oscillator() {
    let mut registers = registers(0x04, 0x00, 0x00, 0x00, 0x00);
    {
        let mut mcg = Mcg::new(
            &mut registers.c1,
            &mut registers.c2,
            &mut registers.c5,
            &mut registers.c6,
            &registers.s,
        );
        assert_eq!(
            mcg.move_to_external_clock(3),
            Err(ClockError::HardwareTimeout(StatusCondition::OscillatorInitialized))
        );
    }
    assert_eq!(registers.c2.read(), 0x24);
    assert_eq!(registers.c1.read(), 0x04);
    assert_eq!(registers.c5.read(), 0x00);
    assert_eq!(registers.c6.read(), 0x00);
}

#[test]
fn bring_up_stops_at_the_external_reference() {
    let mut registers = registers(0x04, 0x00, 0x00, 0x00, 0x12);
    {
        let mut mcg = Mcg::new(
            &mut registers.c1,
            &mut registers.c2,
            &mut registers.c5,
            &mut registers.c6,
            &registers.s,
        );
        assert_eq!(
            mcg.move_to_external_clock(3),
            Err(ClockError::HardwareTimeout(StatusCondition::ReferenceExternal))
        );
    }
    assert_eq!(registers.c2.read(), 0x24);
    assert_eq!(registers.c1.read(), 0xa0);
    assert_eq!(registers.c5.read(), 0x00);
    assert_eq!(registers.c6.read(), 0x00);
}

#[test]
fn bring_up_stops_at_the_clock_source() {
    let mut registers = registers(0x04, 0x00, 0x00, 0x00, 0x02);
    {
        let mut mcg = Mcg::new(
            &mut registers.c1,
            &mut registers.c2,
            &mut registers.c5,
            &mut registers.c6,
            &registers.s,
        );
        assert_eq!(
            mcg.move_to_external_clock(3),
            Err(ClockError::HardwareTimeout(StatusCondition::ClockExternal))
        );
    }
    assert_eq!(registers.c1.read(), 0xa0);
    assert_eq!(registers.c5.read(), 0x00);
}

#[test]
fn bring_up_stops_at_the_pll_selection() {
    let mut registers = registers(0x04, 0x00, 0x00, 0x00, 0x0a);
    {
        let mut mcg = Mcg::new(
            &mut registers.c1,
            &mut registers.c2,
            &mut registers.c5,
            &mut registers.c6,
            &registers.s,
        );
        assert_eq!(
            mcg.move_to_external_clock(3),
            Err(ClockError::HardwareTimeout(StatusCondition::PllSelected))
        );
    }
    assert_eq!(registers.c5.read(), 0x05);
    assert_eq!(registers.c6.read(), 0x43);
    assert_eq!(registers.c1.read(), 0xa0);
}

#[test]
fn bring_up_stops_at_the_pll_lock() {
    let mut registers = registers(0x04, 0x00, 0x00, 0x00, 0x2a);
    {
        let mut mcg = Mcg::new(
            &mut registers.c1,
            &mut registers.c2,
            &mut registers.c5,
            &mut registers.c6,
            &registers.s,
        );
        assert_eq!(
            mcg.move_to_external_clock(3),
            Err(ClockError::HardwareTimeout(StatusCondition::PllLocked))
        );
    }
    assert_eq!(registers.c1.read(), 0xa0);
}

#[test]
fn bring_up_stops_at_the_engagement() {
    let mut registers = registers(0x04, 0x00, 0x00, 0x00, 0x6a);
    {
        let mut mcg = Mcg::new(
            &mut registers.c1,
            &mut registers.c2,
            &mut registers.c5,
            &mut registers.c6,
            &registers.s,
        );
        assert_eq!(
            mcg.move_to_external_clock(3),
            Err(ClockError::HardwareTimeout(StatusCondition::ClockPll))
        );
    }
    assert_eq!(registers.c2.read(), 0x24);
    assert_eq!(registers.c5.read(), 0x05);
    assert_eq!(registers.c6.read(), 0x43);
    assert_eq!(registers.c1.read(), 0x20);
}

#[test]
fn bring_up_matches_the_chain_of_modes() {
    let mut whole = registers(0x04, 0x00, 0x00, 0x00, 0x6a);
    {
        let mut mcg = Mcg::new(
            &mut whole.c1,
            &mut whole.c2,
            &mut whole.c5,
            &mut whole.c6,
            &whole.s,
        );
        let _ = mcg.move_to_external_clock(2);
    }
    let mut stepped = registers(0x04, 0x00, 0x00, 0x00, 0x6a);
    {
        let mut fei = internal(&mut stepped);
        assert_eq!(fei.enable_xtal(OscRange::VeryHigh, 2), Ok(()));
        let fbe = match fei.use_external(512, 2) {
            Ok(fbe) => fbe,
            Err(failed) => panic!("external reference not reached: {:?}", failed.error),
        };
        let pbe = match fbe.enable_pll(27, 6, 2) {
            Ok(pbe) => pbe,
            Err(failed) => panic!("PLL not started: {:?}", failed.error),
        };
        assert!(pbe.use_pll(2).is_err());
    }
    assert_eq!(whole.c1.read(), stepped.c1.read());
    assert_eq!(whole.c2.read(), stepped.c2.read());
    assert_eq!(whole.c5.read(), stepped.c5.read());
    assert_eq!(whole.c6.read(), stepped.c6.read());
}
