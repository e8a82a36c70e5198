//! The oscillator and the multipurpose clock generator.
//!
//! The clock generator leaves reset running from its internal reference. It
//! is brought to a PLL fed by the external crystal in a fixed chain of modes:
//! internal reference, external reference with the loop bypassed, PLL locked
//! but bypassed, PLL engaged. Each step of the chain is a method that takes
//! the handle of one mode by value and gives the handle of the next, once the
//! status register has confirmed it. No method leads back or past a mode,
//! and the handles cannot be made in any other way.
//!
//! A wait is a run of loads of the status register. Each transition is
//! granted a number of loads for each of its waits. When a wait runs out, the
//! transition stops there and hands back the handle it was given, with the
//! condition it waited for; the caller may try again, for as long as it
//! likes.

use crate::fields::{
    c2_range, range_of, with_crystal, with_external, with_locked_loop, with_pll_divider,
    with_pll_multiplier,
};
use crate::protocol::{
    bring_up, bring_up_control, bring_up_len, crystal_step, crystal_step_len, engage_step,
    engage_step_len, engaged_confirmed, external_confirmed, external_step, external_step_len,
    lemma_confirmed_stays, pll_confirmed, pll_step, pll_step_len, History,
};
use crate::ratio::{
    control_word, divider_field, multiplier_supported, pll_output_hz, Capacitance,
    ConfigurationError, DividerRatio, MultiplierRatio, MAX_NUMERATOR, MIN_NUMERATOR,
};
use crate::register::{read, stored_byte, write_byte};
use crate::trace::{extends, Access, McgRegister, StatusCondition};
use volatile::Volatile;
use vstd::prelude::*;

verus! {

/// Load capacitance of the crystal on the Teensy 3.2, in picofarads.
pub const TEENSY_32_CAPACITANCE: u8 = 10;

/// Frequency band of the external crystal.
#[derive(Clone, Copy, Debug, PartialEq, Eq, Structural)]
pub enum OscRange {
    Low,
    High,
    VeryHigh,
}

/// What feeds the clock generator's output.
#[derive(Clone, Copy, Debug, PartialEq, Eq, Structural)]
pub enum OscSource {
    LockedLoop,
    Internal,
    External,
}

impl OscRange {
    /// The value of the frequency-range field that selects the range.
    pub open spec fn encoding(self) -> u8 {
        match self {
            OscRange::Low => 0,
            OscRange::High => 1,
            OscRange::VeryHigh => 2,
        }
    }

    /// The value of the frequency-range field that selects the range.
    pub fn bits(self) -> (code: u8)
        ensures
            code == self.encoding(),
            code <= 2,
    {
        match self {
            OscRange::Low => 0,
            OscRange::High => 1,
            OscRange::VeryHigh => 2,
        }
    }

    /// The range that a value of the frequency-range field selects. The
    /// hardware reads every value above 1 as the very high range.
    pub fn from_bits(code: u8) -> (range: OscRange)
        ensures
            code == 0 ==> range == OscRange::Low,
            code == 1 ==> range == OscRange::High,
            code >= 2 ==> range == OscRange::VeryHigh,
    {
        if code == 0 {
            OscRange::Low
        } else if code == 1 {
            OscRange::High
        } else {
            OscRange::VeryHigh
        }
    }
}

impl OscSource {
    /// The value of the clock-source selector that selects the source.
    pub open spec fn encoding(self) -> u8 {
        match self {
            OscSource::LockedLoop => 0,
            OscSource::Internal => 1,
            OscSource::External => 2,
        }
    }

    /// The value of the clock-source selector that selects the source.
    pub fn bits(self) -> (code: u8)
        ensures
            code == self.encoding(),
            code <= 2,
    {
        match self {
            OscSource::LockedLoop => 0,
            OscSource::Internal => 1,
            OscSource::External => 2,
        }
    }
}

/// Why a transition did not reach the next mode.
#[derive(Clone, Copy, Debug, PartialEq, Eq, Structural)]
pub enum ClockError {
    /// A setting was rejected before any register was touched.
    Configuration(ConfigurationError),
    /// The status register did not report the condition within the granted
    /// number of loads.
    HardwareTimeout(StatusCondition),
}

impl ClockError {
    /// The condition whose wait ran out, if the error is a timeout.
    pub open spec fn stalled(self) -> Option<StatusCondition> {
        match self {
            ClockError::Configuration(_) => None,
            ClockError::HardwareTimeout(condition) => Some(condition),
        }
    }
}

/// The condition whose wait ran out in a call that can only time out.
pub open spec fn timeout_of(result: Result<(), ClockError>) -> Option<StatusCondition> {
    match result {
        Ok(_) => None,
        Err(error) => error.stalled(),
    }
}

/// A transition that failed: the handle of the mode it started from, and the
/// reason.
pub struct Failed<S> {
    pub state: S,
    pub error: ClockError,
}

/// The crystal oscillator: one control register.
pub struct Oscillator<'a> {
    control_reg: &'a mut Volatile<u8>,
    stores: Ghost<Seq<u8>>,
}

impl<'a> Oscillator<'a> {
    /// The byte that the control register was last given.
    pub closed spec fn control(&self) -> u8 {
        stored_byte(*self.control_reg)
    }

    /// Every byte that this handle has stored to the control register,
    /// oldest first.
    pub closed spec fn stores(&self) -> Seq<u8> {
        self.stores@
    }

    /// Takes charge of the oscillator's control register.
    pub fn new(control_reg: &'a mut Volatile<u8>) -> (oscillator: Oscillator<'a>)
        ensures
            oscillator.control() == stored_byte(*old(control_reg)),
            oscillator.stores() == Seq::<u8>::empty(),
    {
        Oscillator { control_reg, stores: Ghost(Seq::empty()) }
    }

    /// Starts the oscillator with the given load: one store of the control
    /// word, whatever the register held before.
    pub fn enable(&mut self, capacitance: Capacitance)
        ensures
            final(self).control() == control_word(capacitance.value()),
            final(self).stores() == old(self).stores().push(control_word(capacitance.value())),
    {
        let word: u8 = capacitance.control_word();
        write_byte(self.control_reg, word);
        self.stores = Ghost(self.stores@.push(word));
    }
}

/// The multipurpose clock generator: its control registers and its status
/// register.
pub struct Mcg<'a> {
    c1: &'a mut Volatile<u8>,
    c2: &'a mut Volatile<u8>,
    c5: &'a mut Volatile<u8>,
    c6: &'a mut Volatile<u8>,
    s: &'a Volatile<u8>,
    log: Ghost<Seq<Access>>,
}

impl<'a> Mcg<'a> {
    /// The byte that a control register was last given.
    pub closed spec fn control(&self, register: McgRegister) -> u8 {
        match register {
            McgRegister::C1 => stored_byte(*self.c1),
            McgRegister::C2 => stored_byte(*self.c2),
            McgRegister::C5 => stored_byte(*self.c5),
            McgRegister::C6 => stored_byte(*self.c6),
        }
    }

    /// Every access that this handle has made, oldest first.
    pub closed spec fn log(&self) -> Seq<Access> {
        self.log@
    }

    /// Whether `self` differs from `before` in no control register but
    /// `register`.
    pub open spec fn same_but(&self, before: &Mcg<'a>, register: McgRegister) -> bool {
        forall|other: McgRegister|
            other != register ==> #[trigger] self.control(other) == before.control(other)
    }

    /// Whether `self` holds in every control register what `before` holds.
    pub open spec fn same_controls(&self, before: &Mcg<'a>) -> bool {
        forall|register: McgRegister| #[trigger]
            self.control(register) == before.control(register)
    }

    /// Takes charge of the clock generator's registers.
    pub fn new(
        c1: &'a mut Volatile<u8>,
        c2: &'a mut Volatile<u8>,
        c5: &'a mut Volatile<u8>,
        c6: &'a mut Volatile<u8>,
        s: &'a Volatile<u8>,
    ) -> (mcg: Mcg<'a>)
        ensures
            mcg.log() == Seq::<Access>::empty(),
            mcg.control(McgRegister::C1) == stored_byte(*old(c1)),
            mcg.control(McgRegister::C2) == stored_byte(*old(c2)),
            mcg.control(McgRegister::C5) == stored_byte(*old(c5)),
            mcg.control(McgRegister::C6) == stored_byte(*old(c6)),
    {
        Mcg { c1, c2, c5, c6, s, log: Ghost(Seq::empty()) }
    }

    /// Loads a control register.
    fn load(&mut self, register: McgRegister) -> (value: u8)
        ensures
            final(self).log() == old(self).log().push(Access::Read { register, value }),
            final(self).same_controls(old(self)),
    {
        let value: u8 = match register {
            McgRegister::C1 => read(self.c1),
            McgRegister::C2 => read(self.c2),
            McgRegister::C5 => read(self.c5),
            McgRegister::C6 => read(self.c6),
        };
        self.log = Ghost(self.log@.push(Access::Read { register, value }));
        value
    }

    /// Stores a byte to a control register.
    fn store(&mut self, register: McgRegister, value: u8)
        ensures
            final(self).log() == old(self).log().push(Access::Write { register, value }),
            final(self).control(register) == value,
            final(self).same_but(old(self), register),
    {
        match register {
            McgRegister::C1 => write_byte(self.c1, value),
            McgRegister::C2 => write_byte(self.c2, value),
            McgRegister::C5 => write_byte(self.c5, value),
            McgRegister::C6 => write_byte(self.c6, value),
        }
        self.log = Ghost(self.log@.push(Access::Write { register, value }));
    }

    /// Loads the status register until it reports `until`, at most `polls`
    /// times.
    fn wait_until(&mut self, until: StatusCondition, polls: u32) -> (done: bool)
        ensures
            extends(final(self).log(), old(self).log(), 1),
            final(self).log().last().waits_for(until, polls, done),
            final(self).same_controls(old(self)),
    {
        let ghost mut reads: Seq<u8> = Seq::empty();
        let mut taken: u32 = 0;
        let mut done: bool = false;
        while taken < polls && !done
            invariant
                taken <= polls,
                reads.len() == taken,
                done ==> reads.len() > 0 && until.holds(reads.last()),
                forall|i: int|
                    0 <= i < reads.len() - (if done {
                        1int
                    } else {
                        0int
                    }) ==> !until.holds(#[trigger] reads[i]),
                self.log() == old(self).log(),
                self.same_controls(old(self)),
            decreases polls - taken,
        {
            let status: u8 = read(self.s);
            done = until.met(status);
            proof {
                reads = reads.push(status);
            }
            taken = taken + 1;
        }
        self.log = Ghost(self.log@.push(Access::Poll { until, reads }));
        done
    }

    /// Sets the frequency range, requests the crystal oscillator and waits
    /// for it to start.
    fn select_crystal(&mut self, range: OscRange, polls: u32) -> (stalled: Option<
        StatusCondition,
    >)
        ensures
            extends(final(self).log(), old(self).log(), crystal_step_len()),
            crystal_step(final(self).log(), old(self).log().len() as int, range, polls, stalled),
            final(self).control(McgRegister::C2) == final(self).log()[old(self).log().len() as int
                + 1].byte(),
            final(self).same_but(old(self), McgRegister::C2),
    {
        let c2: u8 = self.load(McgRegister::C2);
        self.store(McgRegister::C2, with_crystal(c2, range));
        if self.wait_until(StatusCondition::OscillatorInitialized, polls) {
            None
        } else {
            Some(StatusCondition::OscillatorInitialized)
        }
    }

    /// Selects the external reference with its divider, then waits for the
    /// loop to leave the internal reference and for the output to follow.
    fn switch_to_external(&mut self, divider: &DividerRatio, polls: u32) -> (stalled: Option<
        StatusCondition,
    >)
        ensures
            extends(final(self).log(), old(self).log(), external_step_len(stalled)),
            external_step(
                final(self).log(),
                old(self).log().len() as int,
                divider.encoded(),
                polls,
                stalled,
            ),
            final(self).control(McgRegister::C1) == final(self).log()[old(self).log().len() as int
                + 1].byte(),
            final(self).same_but(old(self), McgRegister::C1),
    {
        let c1: u8 = self.load(McgRegister::C1);
        self.store(McgRegister::C1, with_external(c1, divider));
        if !self.wait_until(StatusCondition::ReferenceExternal, polls) {
            return Some(StatusCondition::ReferenceExternal);
        }
        if !self.wait_until(StatusCondition::ClockExternal, polls) {
            return Some(StatusCondition::ClockExternal);
        }
        None
    }

    /// Sets the PLL's divider and multiplier, selects the PLL, then waits for
    /// the selection and for the lock.
    fn start_pll(&mut self, multiplier: &MultiplierRatio, polls: u32) -> (stalled: Option<
        StatusCondition,
    >)
        ensures
            extends(final(self).log(), old(self).log(), pll_step_len(stalled)),
            pll_step(
                final(self).log(),
                old(self).log().len() as int,
                multiplier.top(),
                multiplier.bottom(),
                polls,
                stalled,
            ),
            final(self).control(McgRegister::C5) == final(self).log()[old(self).log().len() as int
                + 1].byte(),
            final(self).control(McgRegister::C6) == final(self).log()[old(self).log().len() as int
                + 3].byte(),
            final(self).control(McgRegister::C1) == old(self).control(McgRegister::C1),
            final(self).control(McgRegister::C2) == old(self).control(McgRegister::C2),
    {
        let c5: u8 = self.load(McgRegister::C5);
        self.store(McgRegister::C5, with_pll_divider(c5, multiplier));
        let c6: u8 = self.load(McgRegister::C6);
        self.store(McgRegister::C6, with_pll_multiplier(c6, multiplier));
        if !self.wait_until(StatusCondition::PllSelected, polls) {
            return Some(StatusCondition::PllSelected);
        }
        if !self.wait_until(StatusCondition::PllLocked, polls) {
            return Some(StatusCondition::PllLocked);
        }
        None
    }

    /// Selects the locked loop as the output and waits for the output to
    /// follow.
    fn engage_pll(&mut self, polls: u32) -> (stalled: Option<StatusCondition>)
        ensures
            extends(final(self).log(), old(self).log(), engage_step_len()),
            engage_step(final(self).log(), old(self).log().len() as int, polls, stalled),
            final(self).control(McgRegister::C1) == final(self).log()[old(self).log().len() as int
                + 1].byte(),
            final(self).same_but(old(self), McgRegister::C1),
    {
        let c1: u8 = self.load(McgRegister::C1);
        self.store(McgRegister::C1, with_locked_loop(c1));
        if self.wait_until(StatusCondition::ClockPll, polls) {
            None
        } else {
            Some(StatusCondition::ClockPll)
        }
    }

    /// Brings the clock generator from its reset mode to the PLL, with the
    /// settings of the Teensy 3.2: crystal in the very high range, reference
    /// divided by 512, PLL at 27/6. It stops at the first wait that runs out
    /// of loads.
    pub fn move_to_external_clock(&mut self, polls: u32) -> (result: Result<(), ClockError>)
        ensures
            result matches Err(error) ==> error is HardwareTimeout,
            extends(final(self).log(), old(self).log(), bring_up_len(timeout_of(result))),
            bring_up(final(self).log(), old(self).log().len() as int, polls, timeout_of(result)),
            forall|register: McgRegister| #[trigger]
                final(self).control(register) == bring_up_control(
                    final(self).log(),
                    old(self).log().len() as int,
                    timeout_of(result),
                    register,
                    old(self).control(register),
                ),
    {
        let divider: DividerRatio = DividerRatio::teensy_32();
        let multiplier: MultiplierRatio = MultiplierRatio::teensy_32();
        if let Some(condition) = self.select_crystal(OscRange::VeryHigh, polls) {
            return Err(ClockError::HardwareTimeout(condition));
        }
        if let Some(condition) = self.switch_to_external(&divider, polls) {
            return Err(ClockError::HardwareTimeout(condition));
        }
        if let Some(condition) = self.start_pll(&multiplier, polls) {
            return Err(ClockError::HardwareTimeout(condition));
        }
        if let Some(condition) = self.engage_pll(polls) {
            return Err(ClockError::HardwareTimeout(condition));
        }
        Ok(())
    }

    /// The mode that the clock generator is in. This is for a handle that
    /// has not touched the hardware yet: it stands for the clock generator as
    /// reset leaves it, running from the internal reference.
    pub fn clock(self) -> (clock: Clock<'a>)
        requires
            self.log().len() == 0,
        ensures
            clock matches Clock::Fei(fei) && fei.generator() == self,
    {
        Clock::Fei(Fei { mcg: self })
    }
}

/// The clock generator running from its internal reference.
pub struct Fei<'a> {
    mcg: Mcg<'a>,
}

/// The clock generator running from the external reference, with the
/// frequency-locked loop bypassed.
pub struct Fbe<'a> {
    mcg: Mcg<'a>,
    divider: DividerRatio,
    history: Ghost<History>,
}

/// The clock generator running from the external reference, with the PLL
/// locked but bypassed.
pub struct Pbe<'a> {
    mcg: Mcg<'a>,
    divider: DividerRatio,
    multiplier: MultiplierRatio,
    history: Ghost<History>,
}

/// The clock generator running from the PLL. No transition leaves this mode.
pub struct Pee<'a> {
    mcg: Mcg<'a>,
    divider: DividerRatio,
    multiplier: MultiplierRatio,
    history: Ghost<History>,
}

/// The clock generator in the mode that its tag names.
pub enum Clock<'a> {
    Fei(Fei<'a>),
    Fbe(Fbe<'a>),
    Pbe(Pbe<'a>),
    Pee(Pee<'a>),
}

impl<'a> Fei<'a> {
    /// The clock generator that the handle owns.
    pub closed spec fn generator(&self) -> Mcg<'a> {
        self.mcg
    }

    /// Selects the crystal's frequency range, requests the crystal
    /// oscillator as the external reference and waits for it to start.
    pub fn enable_xtal(&mut self, range: OscRange, polls: u32) -> (result: Result<(), ClockError>)
        ensures
            result matches Err(error) ==> error is HardwareTimeout,
            extends(
                final(self).generator().log(),
                old(self).generator().log(),
                crystal_step_len(),
            ),
            crystal_step(
                final(self).generator().log(),
                old(self).generator().log().len() as int,
                range,
                polls,
                timeout_of(result),
            ),
            final(self).generator().control(McgRegister::C2) == final(self).generator().log()[old(
                self,
            ).generator().log().len() as int + 1].byte(),
            final(self).generator().same_but(&old(self).generator(), McgRegister::C2),
    {
        match self.mcg.select_crystal(range, polls) {
            None => Ok(()),
            Some(condition) => Err(ClockError::HardwareTimeout(condition)),
        }
    }

    /// Switches the output to the external reference, divided by `divide`
    /// for the frequency-locked loop.
    ///
    /// The frequency range is read back from control register 2, and
    /// `divide` is judged against the table of that range. A ratio that is
    /// not in the table is rejected before any store. Otherwise control
    /// register 1 is updated and the two confirmations are awaited; the next
    /// mode's handle is returned only when both have come.
    pub fn use_external(self, divide: u32, polls: u32) -> (result: Result<Fbe<'a>, Failed<Fei<'a>>>)
        ensures
            ({
                let before = self.generator();
                let after = match result {
                    Ok(fbe) => fbe.generator(),
                    Err(failed) => failed.state.generator(),
                };
                let n = before.log().len() as int;
                &&& after.log().len() > n
                &&& after.log()[n].reads_from(McgRegister::C2)
                &&& match divider_field(c2_range(after.log()[n].byte()), divide) {
                    None => {
                        &&& result matches Err(failed) && failed.error == ClockError::Configuration(
                            ConfigurationError::Divider(divide),
                        )
                        &&& extends(after.log(), before.log(), 1)
                        &&& after.same_controls(&before)
                    },
                    Some(field) => {
                        let stalled = match result {
                            Ok(_) => None,
                            Err(failed) => failed.error.stalled(),
                        };
                        &&& result matches Err(failed) ==> failed.error is HardwareTimeout
                        &&& result matches Ok(fbe) ==> fbe.spec_divider().value() == divide
                            && fbe.spec_divider().encoded() == field && fbe.confirmed()
                            && fbe.history().external_at == n + 1 && fbe.history().external_polls
                            == polls
                        &&& extends(after.log(), before.log(), 1 + external_step_len(stalled))
                        &&& external_step(after.log(), n + 1, field, polls, stalled)
                        &&& after.control(McgRegister::C1) == after.log()[n + 2].byte()
                        &&& after.same_but(&before, McgRegister::C1)
                    },
                }
            }),
    {
        let mut mcg: Mcg<'a> = self.mcg;
        let ghost n = mcg.log().len() as int;
        let c2: u8 = mcg.load(McgRegister::C2);
        let divider: DividerRatio = match DividerRatio::new(range_of(c2), divide) {
            Ok(divider) => divider,
            Err(error) => {
                return Err(
                    Failed { state: Fei { mcg }, error: ClockError::Configuration(error) },
                );
            },
        };
        match mcg.switch_to_external(&divider, polls) {
            None => {
                let ghost history = History {
                    external_at: n + 1,
                    external_polls: polls,
                    pll_at: 0,
                    pll_polls: 0,
                    engaged_at: 0,
                    engaged_polls: 0,
                };
                Ok(Fbe { mcg, divider, history: Ghost(history) })
            },
            Some(condition) => Err(
                Failed { state: Fei { mcg }, error: ClockError::HardwareTimeout(condition) },
            ),
        }
    }
}

impl<'a> Fbe<'a> {
    #[verifier::type_invariant]
    spec fn entered(self) -> bool {
        self.confirmed()
    }

    /// The clock generator that the handle owns.
    pub closed spec fn generator(&self) -> Mcg<'a> {
        self.mcg
    }

    /// Where in the log the steps that led to this mode stand.
    pub closed spec fn history(&self) -> History {
        self.history@
    }

    /// The divider that the external reference was selected with.
    pub closed spec fn spec_divider(&self) -> DividerRatio {
        self.divider
    }

    /// What every handle of this mode has behind it: the log holds the
    /// switch to the external reference with this handle's divider, and the
    /// status register confirmed it.
    pub open spec fn confirmed(&self) -> bool {
        external_confirmed(self.generator().log(), self.history(), self.spec_divider().encoded())
    }

    /// The divider that the external reference was selected with.
    #[verifier::when_used_as_spec(spec_divider)]
    pub fn divider(&self) -> (divider: DividerRatio)
        ensures
            divider == self.spec_divider(),
            self.confirmed(),
    {
        proof {
            use_type_invariant(self);
        }
        self.divider
    }

    /// Starts the PLL at `numerator / denominator` times the crystal's
    /// frequency, and leaves it bypassed.
    ///
    /// A numerator outside 24..=55 or a denominator outside 1..=24 is
    /// rejected before any register is touched. Otherwise control registers
    /// 5 and 6 are updated and the two confirmations are awaited; the next
    /// mode's handle is returned only when both have come.
    pub fn enable_pll(self, numerator: u8, denominator: u8, polls: u32) -> (result: Result<
        Pbe<'a>,
        Failed<Fbe<'a>>,
    >)
        ensures
            ({
                let before = self.generator();
                let after = match result {
                    Ok(pbe) => pbe.generator(),
                    Err(failed) => failed.state.generator(),
                };
                let n = before.log().len() as int;
                &&& result matches Err(failed) ==> failed.state.spec_divider()
                    == self.spec_divider() && failed.state.history() == self.history()
                    && failed.state.confirmed()
                &&& if multiplier_supported(numerator, denominator) {
                    let stalled = match result {
                        Ok(_) => None,
                        Err(failed) => failed.error.stalled(),
                    };
                    &&& result matches Err(failed) ==> failed.error is HardwareTimeout
                    &&& result matches Ok(pbe) ==> pbe.spec_multiplier().top() == numerator
                        && pbe.spec_multiplier().bottom() == denominator && pbe.spec_divider()
                        == self.spec_divider() && pbe.confirmed() && pbe.history() == (History {
                        pll_at: n,
                        pll_polls: polls,
                        ..self.history()
                    })
                    &&& extends(after.log(), before.log(), pll_step_len(stalled))
                    &&& pll_step(after.log(), n, numerator, denominator, polls, stalled)
                    &&& after.control(McgRegister::C5) == after.log()[n + 1].byte()
                    &&& after.control(McgRegister::C6) == after.log()[n + 3].byte()
                    &&& after.control(McgRegister::C1) == before.control(McgRegister::C1)
                    &&& after.control(McgRegister::C2) == before.control(McgRegister::C2)
                } else {
                    &&& result matches Err(failed) && failed.state.generator() == before
                        && failed.error == ClockError::Configuration(
                        if MIN_NUMERATOR <= numerator <= MAX_NUMERATOR {
                            ConfigurationError::Denominator(denominator)
                        } else {
                            ConfigurationError::Numerator(numerator)
                        },
                    )
                }
            }),
    {
        proof {
            use_type_invariant(&self);
        }
        let multiplier: MultiplierRatio = match MultiplierRatio::new(numerator, denominator) {
            Ok(multiplier) => multiplier,
            Err(error) => {
                return Err(Failed { state: self, error: ClockError::Configuration(error) });
            },
        };
        let divider: DividerRatio = self.divider;
        let history: Ghost<History> = self.history;
        let mut mcg: Mcg<'a> = self.mcg;
        let ghost before = mcg.log();
        let stalled: Option<StatusCondition> = mcg.start_pll(&multiplier, polls);
        proof {
            lemma_confirmed_stays(
                before,
                mcg.log(),
                pll_step_len(stalled),
                history@,
                divider.encoded(),
                numerator,
                denominator,
            );
        }
        match stalled {
            None => {
                let ghost next = History {
                    pll_at: before.len() as int,
                    pll_polls: polls,
                    ..history@
                };
                proof {
                    lemma_confirmed_stays(
                        before,
                        mcg.log(),
                        pll_step_len(stalled),
                        next,
                        divider.encoded(),
                        numerator,
                        denominator,
                    );
                }
                Ok(Pbe { mcg, divider, multiplier, history: Ghost(next) })
            },
            Some(condition) => Err(
                Failed {
                    state: Fbe { mcg, divider, history },
                    error: ClockError::HardwareTimeout(condition),
                },
            ),
        }
    }
}

impl<'a> Pbe<'a> {
    #[verifier::type_invariant]
    spec fn entered(self) -> bool {
        self.confirmed()
    }

    /// The clock generator that the handle owns.
    pub closed spec fn generator(&self) -> Mcg<'a> {
        self.mcg
    }

    /// Where in the log the steps that led to this mode stand.
    pub closed spec fn history(&self) -> History {
        self.history@
    }

    /// The divider that the external reference was selected with.
    pub closed spec fn spec_divider(&self) -> DividerRatio {
        self.divider
    }

    /// The ratio that the PLL was started with.
    pub closed spec fn spec_multiplier(&self) -> MultiplierRatio {
        self.multiplier
    }

    /// What every handle of this mode has behind it: the log holds the
    /// confirmed switch to the external reference and, after it, the start of
    /// the PLL with this handle's ratio, which the status register confirmed
    /// as selected and locked.
    pub open spec fn confirmed(&self) -> bool {
        pll_confirmed(
            self.generator().log(),
            self.history(),
            self.spec_divider().encoded(),
            self.spec_multiplier().top(),
            self.spec_multiplier().bottom(),
        )
    }

    /// The divider that the external reference was selected with.
    #[verifier::when_used_as_spec(spec_divider)]
    pub fn divider(&self) -> (divider: DividerRatio)
        ensures
            divider == self.spec_divider(),
    {
        self.divider
    }

    /// The ratio that the PLL was started with.
    #[verifier::when_used_as_spec(spec_multiplier)]
    pub fn multiplier(&self) -> (multiplier: MultiplierRatio)
        ensures
            multiplier == self.spec_multiplier(),
            self.confirmed(),
    {
        proof {
            use_type_invariant(self);
        }
        self.multiplier
    }

    /// Switches the output to the PLL: control register 1 is updated and the
    /// confirmation is awaited. The handle of the final mode is returned only
    /// when it has come.
    pub fn use_pll(self, polls: u32) -> (result: Result<Pee<'a>, Failed<Pbe<'a>>>)
        ensures
            ({
                let before = self.generator();
                let after = match result {
                    Ok(pee) => pee.generator(),
                    Err(failed) => failed.state.generator(),
                };
                let n = before.log().len() as int;
                let stalled = match result {
                    Ok(_) => None,
                    Err(failed) => failed.error.stalled(),
                };
                &&& result matches Err(failed) ==> failed.error is HardwareTimeout
                    && failed.state.spec_multiplier() == self.spec_multiplier()
                    && failed.state.spec_divider() == self.spec_divider()
                    && failed.state.history() == self.history() && failed.state.confirmed()
                &&& result matches Ok(pee) ==> pee.spec_multiplier() == self.spec_multiplier()
                    && pee.spec_divider() == self.spec_divider() && pee.confirmed()
                    && pee.history() == (History {
                    engaged_at: n,
                    engaged_polls: polls,
                    ..self.history()
                })
                &&& extends(after.log(), before.log(), engage_step_len())
                &&& engage_step(after.log(), n, polls, stalled)
                &&& after.control(McgRegister::C1) == after.log()[n + 1].byte()
                &&& after.same_but(&before, McgRegister::C1)
            }),
    {
        proof {
            use_type_invariant(&self);
        }
        let divider: DividerRatio = self.divider;
        let multiplier: MultiplierRatio = self.multiplier;
        let history: Ghost<History> = self.history;
        let mut mcg: Mcg<'a> = self.mcg;
        let ghost before = mcg.log();
        let stalled: Option<StatusCondition> = mcg.engage_pll(polls);
        proof {
            lemma_confirmed_stays(
                before,
                mcg.log(),
                engage_step_len(),
                history@,
                divider.encoded(),
                multiplier.top(),
                multiplier.bottom(),
            );
        }
        match stalled {
            None => {
                let ghost next = History {
                    engaged_at: before.len() as int,
                    engaged_polls: polls,
                    ..history@
                };
                proof {
                    lemma_confirmed_stays(
                        before,
                        mcg.log(),
                        engage_step_len(),
                        next,
                        divider.encoded(),
                        multiplier.top(),
                        multiplier.bottom(),
                    );
                }
                Ok(Pee { mcg, divider, multiplier, history: Ghost(next) })
            },
            Some(condition) => Err(
                Failed {
                    state: Pbe { mcg, divider, multiplier, history },
                    error: ClockError::HardwareTimeout(condition),
                },
            ),
        }
    }
}

impl<'a> Pee<'a> {
    #[verifier::type_invariant]
    spec fn entered(self) -> bool {
        self.confirmed()
    }

    /// The clock generator that the handle owns.
    pub closed spec fn generator(&self) -> Mcg<'a> {
        self.mcg
    }

    /// Where in the log the steps that led to this mode stand.
    pub closed spec fn history(&self) -> History {
        self.history@
    }

    /// The divider that the external reference was selected with.
    pub closed spec fn spec_divider(&self) -> DividerRatio {
        self.divider
    }

    /// The ratio that the PLL runs at.
    pub closed spec fn spec_multiplier(&self) -> MultiplierRatio {
        self.multiplier
    }

    /// What every handle of this mode has behind it: the log holds, in this
    /// order, the confirmed switch to the external reference, the confirmed
    /// start of the PLL, and the engagement of the PLL, which the status
    /// register confirmed.
    pub open spec fn confirmed(&self) -> bool {
        engaged_confirmed(
            self.generator().log(),
            self.history(),
            self.spec_divider().encoded(),
            self.spec_multiplier().top(),
            self.spec_multiplier().bottom(),
        )
    }

    /// The divider that the external reference was selected with.
    #[verifier::when_used_as_spec(spec_divider)]
    pub fn divider(&self) -> (divider: DividerRatio)
        ensures
            divider == self.spec_divider(),
    {
        self.divider
    }

    /// The ratio that the PLL runs at.
    #[verifier::when_used_as_spec(spec_multiplier)]
    pub fn multiplier(&self) -> (multiplier: MultiplierRatio)
        ensures
            multiplier == self.spec_multiplier(),
            self.confirmed(),
    {
        proof {
            use_type_invariant(self);
        }
        self.multiplier
    }

    /// The frequency of the output for a crystal of `crystal_hz`: the
    /// crystal's frequency times the PLL's numerator over its denominator,
    /// rounded down. The divider of the frequency-locked loop's reference has
    /// no part in it.
    pub fn frequency(&self, crystal_hz: u32) -> (hz: u64)
        ensures
            hz == pll_output_hz(
                crystal_hz,
                self.spec_multiplier().top(),
                self.spec_multiplier().bottom(),
            ),
    {
        self.multiplier.output_hz(crystal_hz)
    }
}

} // verus!
