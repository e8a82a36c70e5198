//! Pin multiplexing and GPIO.
//!
//! A port has one control register for each of its pins. A pin is claimed
//! from its port and then turned into what it is to serve as: a GPIO line, or
//! the receive or transmit line of a UART.

use crate::bits::{fits_word, set_bits_word, with_bits_word};
use crate::register::{read, stored_word, write_word};
use crate::trace::extends;
use volatile::Volatile;
use vstd::prelude::*;

verus! {

/// Number of pins of a port.
pub const PIN_COUNT: usize = 32;

/// First bit of the multiplexer field in a pin control register.
pub const PIN_MUX_START: usize = 8;

/// End of the multiplexer field in a pin control register.
pub const PIN_MUX_END: usize = 11;

/// Largest value of the multiplexer field.
pub const PIN_MUX_MAX: u32 = 7;

/// Multiplexer setting that makes a pin a GPIO line.
pub const MUX_GPIO: u32 = 1;

/// Multiplexer setting that hands a pin to the UART.
pub const MUX_UART: u32 = 3;

/// The pin of port C that can receive for the UART.
pub const UART_RX_PIN: usize = 16;

/// The pin of port C that can transmit for the UART.
pub const UART_TX_PIN: usize = 17;

/// Number of the UART that the pins of port C serve.
pub const UART_NUMBER: u8 = 0;

/// What is stored to a GPIO register to act on a pin.
pub const GPIO_ASSERT: u32 = 1;

/// The ports that the library knows.
#[derive(Clone, Copy, Debug, PartialEq, Eq, Structural)]
pub enum PortName {
    C,
}

/// One entry of a port's log.
pub enum PortAccess {
    /// The control register of `pin` was loaded and gave `value`.
    Load { pin: usize, value: u32 },
    /// `value` was stored to the control register of `pin`.
    Store { pin: usize, value: u32 },
}

impl PortAccess {
    /// The word that the load gave or the store wrote.
    pub open spec fn word(self) -> u32 {
        match self {
            PortAccess::Load { value, .. } => value,
            PortAccess::Store { value, .. } => value,
        }
    }

    /// Whether the entry is a load of the control register of `pin`.
    pub open spec fn loads(self, pin: usize) -> bool {
        self matches PortAccess::Load { pin: p, .. } && p == pin
    }
}

/// A pin control word with the multiplexer field set to `mode` and every
/// other bit kept.
pub open spec fn mux_word(word: u32, mode: u32) -> u32 {
    (word & 0xffff_f8ff) | (mode << 8u32)
}

/// The entries at `at` and `at + 1` are a load of the control register of
/// `pin` and a store of what the load gave, with the multiplexer field set to
/// `mode`.
pub open spec fn mux_update(log: Seq<PortAccess>, at: int, pin: usize, mode: u32) -> bool {
    &&& 0 <= at
    &&& at + 2 <= log.len()
    &&& log[at].loads(pin)
    &&& log[at + 1] == (PortAccess::Store { pin, value: mux_word(log[at].word(), mode) })
}

/// What the multiplexer field is set to survives in the stored word, and
/// setting it twice is setting it once.
pub proof fn lemma_mux_word(word: u32, mode: u32)
    requires
        mode <= PIN_MUX_MAX,
    ensures
        (mux_word(word, mode) >> 8u32) & 7 == mode,
        mux_word(word, mode) & 0xffff_f8ff == word & 0xffff_f8ff,
        mux_word(mux_word(word, mode), mode) == mux_word(word, mode),
{
    assert(mode <= 7 ==> ((((word & 0xffff_f8ffu32) | (mode << 8u32)) >> 8u32) & 7 == mode))
        by (bit_vector);
    assert(mode <= 7 ==> (((word & 0xffff_f8ffu32) | (mode << 8u32)) & 0xffff_f8ffu32 == word
        & 0xffff_f8ffu32)) by (bit_vector);
    assert(mode <= 7 ==> (((((word & 0xffff_f8ffu32) | (mode << 8u32)) & 0xffff_f8ffu32) | (mode
        << 8u32)) == ((word & 0xffff_f8ffu32) | (mode << 8u32)))) by (bit_vector);
}

/// Sets the multiplexer field of a pin control word.
pub fn with_mux(word: u32, mode: u32) -> (next: u32)
    requires
        mode <= PIN_MUX_MAX,
    ensures
        next == mux_word(word, mode),
{
    let mut next: u32 = word;
    assert(fits_word(mode, 8u32, 11u32)) by (bit_vector)
        requires
            mode <= 7,
    ;
    set_bits_word(&mut next, PIN_MUX_START, PIN_MUX_END, mode);
    assert(next == (word & 0xffff_f8ffu32) | (mode << 8u32)) by (bit_vector)
        requires
            mode <= 7,
            next == with_bits_word(word, 8u32, 11u32, mode),
    ;
    next
}

/// A port: its name and its pin control registers.
pub struct Port<'a> {
    name: PortName,
    pcr: &'a mut [Volatile<u32>; 32],
    log: Ghost<Seq<PortAccess>>,
}

/// A pin claimed from a port.
pub struct Pin<'b, 'a> {
    /// The port that the pin belongs to, borrowed for as long as the pin is
    /// held.
    pub port: &'b mut Port<'a>,
    /// The pin's number within its port.
    pub pin: usize,
}

/// The GPIO registers of a port, one word for each pin.
pub struct GpioBitband<'a> {
    psor: &'a mut [Volatile<u32>; 32],
    pddr: &'a mut [Volatile<u32>; 32],
}

/// A pin that serves as a GPIO line.
pub struct GpioPin<'a> {
    bitband: GpioBitband<'a>,
    pin: usize,
}

/// A pin that transmits for a UART.
pub struct Tx(u8);

/// A pin that receives for a UART.
pub struct Rx(u8);

impl<'a> Port<'a> {
    /// The port's name.
    pub closed spec fn spec_name(&self) -> PortName {
        self.name
    }

    /// The word that the control register of pin `pin` was last given.
    pub closed spec fn control(&self, pin: int) -> u32 {
        stored_word(self.pcr@[pin])
    }

    /// Every access that this handle has made, oldest first.
    pub closed spec fn log(&self) -> Seq<PortAccess> {
        self.log@
    }

    /// Whether `self` differs from `before` in no pin control register but
    /// that of `pin`.
    pub open spec fn same_but(&self, before: &Port<'a>, pin: int) -> bool {
        &&& self.spec_name() == before.spec_name()
        &&& forall|other: int|
            0 <= other < PIN_COUNT && other != pin ==> #[trigger] self.control(other)
                == before.control(other)
    }

    /// Takes charge of the pin control registers of the port called `name`.
    pub fn new(name: PortName, pcr: &'a mut [Volatile<u32>; 32]) -> (port: Port<'a>)
        ensures
            port.spec_name() == name,
            port.log() == Seq::<PortAccess>::empty(),
            forall|pin: int|
                0 <= pin < PIN_COUNT ==> #[trigger] port.control(pin) == stored_word(
                    old(pcr)@[pin],
                ),
    {
        Port { name, pcr, log: Ghost(Seq::empty()) }
    }

    /// Claims pin `p` of the port.
    pub fn pin<'b>(&'b mut self, p: usize) -> (pin: Pin<'b, 'a>)
        ensures
            pin.pin == p,
            *pin.port == *old(self),
            *final(self) == *final(pin.port),
    {
        Pin { port: self, pin: p }
    }

    /// Sets the multiplexer field of pin `p` to `mode`: one load of the pin's
    /// control register and one store of the edited word.
    pub fn set_pin_mode(&mut self, p: usize, mode: u32)
        requires
            p < PIN_COUNT,
            mode <= PIN_MUX_MAX,
        ensures
            extends(final(self).log(), old(self).log(), 2),
            mux_update(final(self).log(), old(self).log().len() as int, p, mode),
            final(self).control(p as int) == final(self).log()[old(self).log().len() as int
                + 1].word(),
            final(self).same_but(old(self), p as int),
    {
        let word: u32 = read(&self.pcr[p]);
        self.log = Ghost(self.log@.push(PortAccess::Load { pin: p, value: word }));
        let next: u32 = with_mux(word, mode);
        write_word(&mut self.pcr[p], next);
        self.log = Ghost(self.log@.push(PortAccess::Store { pin: p, value: next }));
    }

    /// The port's name.
    #[verifier::when_used_as_spec(spec_name)]
    pub fn name(&self) -> (name: PortName)
        ensures
            name == self.spec_name(),
    {
        self.name
    }
}

impl Tx {
    /// Number of the UART that the pin transmits for.
    pub closed spec fn spec_uart(&self) -> u8 {
        self.0
    }

    /// Number of the UART that the pin transmits for.
    #[verifier::when_used_as_spec(spec_uart)]
    pub fn uart(&self) -> (uart: u8)
        ensures
            uart == self.spec_uart(),
    {
        self.0
    }
}

impl Rx {
    /// Number of the UART that the pin receives for.
    pub closed spec fn spec_uart(&self) -> u8 {
        self.0
    }

    /// Number of the UART that the pin receives for.
    #[verifier::when_used_as_spec(spec_uart)]
    pub fn uart(&self) -> (uart: u8)
        ensures
            uart == self.spec_uart(),
    {
        self.0
    }
}

impl<'b, 'a> Pin<'b, 'a> {
    /// Whether the pin can receive for the UART: pin 16 of port C.
    pub open spec fn receives(&self) -> bool {
        self.port.spec_name() == PortName::C && self.pin == UART_RX_PIN
    }

    /// Whether the pin can transmit for the UART: pin 17 of port C.
    pub open spec fn transmits(&self) -> bool {
        self.port.spec_name() == PortName::C && self.pin == UART_TX_PIN
    }

    /// Whether the pin can receive for the UART.
    pub fn can_receive(&self) -> (yes: bool)
        ensures
            yes == self.receives(),
    {
        match self.port.name() {
            PortName::C => self.pin == UART_RX_PIN,
        }
    }

    /// Whether the pin can transmit for the UART.
    pub fn can_transmit(&self) -> (yes: bool)
        ensures
            yes == self.transmits(),
    {
        match self.port.name() {
            PortName::C => self.pin == UART_TX_PIN,
        }
    }

    /// Makes the pin a GPIO line: its multiplexer field is set to the GPIO
    /// setting, and the line is served by the pin's words in `bitband`.
    pub fn make_gpio<'c>(self, bitband: GpioBitband<'c>) -> (gpio: GpioPin<'c>)
        requires
            self.pin < PIN_COUNT,
        ensures
            extends(final(self.port).log(), old(self.port).log(), 2),
            mux_update(
                final(self.port).log(),
                old(self.port).log().len() as int,
                self.pin,
                MUX_GPIO,
            ),
            final(self.port).control(self.pin as int) == final(self.port).log()[old(
                self.port,
            ).log().len() as int + 1].word(),
            final(self.port).same_but(old(self.port), self.pin as int),
            gpio.index() == self.pin,
            gpio.registers() == bitband,
    {
        self.port.set_pin_mode(self.pin, MUX_GPIO);
        GpioPin::new(bitband, self.pin)
    }

    /// Makes the pin the receive line of UART 0: its multiplexer field is set
    /// to the UART setting.
    pub fn make_rx(self) -> (rx: Rx)
        requires
            self.receives(),
        ensures
            rx.spec_uart() == UART_NUMBER,
            extends(final(self.port).log(), old(self.port).log(), 2),
            mux_update(
                final(self.port).log(),
                old(self.port).log().len() as int,
                self.pin,
                MUX_UART,
            ),
            final(self.port).control(self.pin as int) == final(self.port).log()[old(
                self.port,
            ).log().len() as int + 1].word(),
            final(self.port).same_but(old(self.port), self.pin as int),
    {
        self.port.set_pin_mode(self.pin, MUX_UART);
        Rx(UART_NUMBER)
    }

    /// Makes the pin the transmit line of UART 0: its multiplexer field is
    /// set to the UART setting.
    pub fn make_tx(self) -> (tx: Tx)
        requires
            self.transmits(),
        ensures
            tx.spec_uart() == UART_NUMBER,
            extends(final(self.port).log(), old(self.port).log(), 2),
            mux_update(
                final(self.port).log(),
                old(self.port).log().len() as int,
                self.pin,
                MUX_UART,
            ),
            final(self.port).control(self.pin as int) == final(self.port).log()[old(
                self.port,
            ).log().len() as int + 1].word(),
            final(self.port).same_but(old(self.port), self.pin as int),
    {
        self.port.set_pin_mode(self.pin, MUX_UART);
        Tx(UART_NUMBER)
    }
}

impl<'a> GpioBitband<'a> {
    /// The word that the set-output register of pin `pin` was last given.
    pub closed spec fn set_output(&self, pin: int) -> u32 {
        stored_word(self.psor@[pin])
    }

    /// The word that the data-direction register of pin `pin` was last given.
    pub closed spec fn direction(&self, pin: int) -> u32 {
        stored_word(self.pddr@[pin])
    }

    /// Takes charge of the set-output and data-direction registers of a
    /// port.
    pub fn new(psor: &'a mut [Volatile<u32>; 32], pddr: &'a mut [Volatile<u32>; 32]) -> (bitband:
        GpioBitband<'a>)
        ensures
            forall|pin: int|
                0 <= pin < PIN_COUNT ==> #[trigger] bitband.set_output(pin) == stored_word(
                    old(psor)@[pin],
                ),
            forall|pin: int|
                0 <= pin < PIN_COUNT ==> #[trigger] bitband.direction(pin) == stored_word(
                    old(pddr)@[pin],
                ),
    {
        GpioBitband { psor, pddr }
    }
}

impl<'a> GpioPin<'a> {
    /// The pin's number within its port.
    pub closed spec fn index(&self) -> usize {
        self.pin
    }

    /// The GPIO registers that serve the pin.
    pub closed spec fn registers(&self) -> GpioBitband<'a> {
        self.bitband
    }

    /// Whether `self` differs from `before` in no set-output register but
    /// that of `pin`, and in no data-direction register.
    pub open spec fn only_set_output(&self, before: &GpioPin<'a>, pin: int) -> bool {
        &&& self.index() == before.index()
        &&& forall|other: int|
            0 <= other < PIN_COUNT ==> #[trigger] self.registers().direction(other)
                == before.registers().direction(other)
        &&& forall|other: int|
            0 <= other < PIN_COUNT && other != pin ==> #[trigger] self.registers().set_output(
                other,
            ) == before.registers().set_output(other)
    }

    /// Whether `self` differs from `before` in no data-direction register
    /// but that of `pin`, and in no set-output register.
    pub open spec fn only_direction(&self, before: &GpioPin<'a>, pin: int) -> bool {
        &&& self.index() == before.index()
        &&& forall|other: int|
            0 <= other < PIN_COUNT ==> #[trigger] self.registers().set_output(other)
                == before.registers().set_output(other)
        &&& forall|other: int|
            0 <= other < PIN_COUNT && other != pin ==> #[trigger] self.registers().direction(
                other,
            ) == before.registers().direction(other)
    }

    /// Binds pin `pin` to the GPIO registers of its port.
    pub fn new(bitband: GpioBitband<'a>, pin: usize) -> (gpio: GpioPin<'a>)
        requires
            pin < PIN_COUNT,
        ensures
            gpio.index() == pin,
            gpio.registers() == bitband,
    {
        GpioPin { bitband, pin }
    }

    /// Makes the line an output: one store to the pin's data-direction word.
    pub fn output(&mut self)
        requires
            old(self).index() < PIN_COUNT,
        ensures
            final(self).registers().direction(old(self).index() as int) == GPIO_ASSERT,
            final(self).only_direction(old(self), old(self).index() as int),
    {
        write_word(&mut self.bitband.pddr[self.pin], GPIO_ASSERT);
    }

    /// Drives the line high: one store to the pin's set-output word.
    pub fn high(&mut self)
        requires
            old(self).index() < PIN_COUNT,
        ensures
            final(self).registers().set_output(old(self).index() as int) == GPIO_ASSERT,
            final(self).only_set_output(old(self), old(self).index() as int),
    {
        write_word(&mut self.bitband.psor[self.pin], GPIO_ASSERT);
    }
}

} // verus!
