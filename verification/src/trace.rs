//! The record of what the library did to the clock generator.
//!
//! The hardware protocol is a matter of order: which register is written
//! before which status is awaited. A clock generator handle therefore keeps a
//! ghost log of its accesses, and the contracts of the transitions describe
//! the entries that a call adds to it.

use crate::bits::{bit_of, bits_of, get_bit, get_bits};
use vstd::prelude::*;

verus! {

/// Position of the oscillator-initialised flag in the status register.
pub const STATUS_OSCILLATOR_BIT: usize = 1;

/// First bit of the clock-source field in the status register.
pub const STATUS_CLOCK_START: usize = 2;

/// End of the clock-source field in the status register.
pub const STATUS_CLOCK_END: usize = 4;

/// Position of the internal-reference flag in the status register.
pub const STATUS_INTERNAL_REFERENCE_BIT: usize = 4;

/// Position of the PLL-selected flag in the status register.
pub const STATUS_PLL_SELECTED_BIT: usize = 5;

/// Position of the PLL-locked flag in the status register.
pub const STATUS_PLL_LOCKED_BIT: usize = 6;

/// Clock-source field of the status register while the external reference
/// drives the output.
pub const CLOCK_STATUS_EXTERNAL: u8 = 2;

/// Clock-source field of the status register while the PLL drives the output.
pub const CLOCK_STATUS_PLL: u8 = 3;

/// A control register of the clock generator.
#[derive(Clone, Copy, Debug, PartialEq, Eq, Structural)]
pub enum McgRegister {
    C1,
    C2,
    C5,
    C6,
}

/// Something the status register can report and a transition waits for.
#[derive(Clone, Copy, Debug, PartialEq, Eq, Structural)]
pub enum StatusCondition {
    /// The crystal oscillator has finished its start-up.
    OscillatorInitialized,
    /// The frequency-locked loop no longer runs from the internal reference.
    ReferenceExternal,
    /// The output is driven by the external reference.
    ClockExternal,
    /// The PLL, not the frequency-locked loop, is the selected loop.
    PllSelected,
    /// The PLL has locked.
    PllLocked,
    /// The output is driven by the PLL.
    ClockPll,
}

impl StatusCondition {
    /// Whether a status byte reports the condition.
    pub open spec fn holds(self, status: u8) -> bool {
        match self {
            StatusCondition::OscillatorInitialized => status & 0x02 != 0,
            StatusCondition::ReferenceExternal => status & 0x10 == 0,
            StatusCondition::ClockExternal => status & 0x0c == 0x08,
            StatusCondition::PllSelected => status & 0x20 != 0,
            StatusCondition::PllLocked => status & 0x40 != 0,
            StatusCondition::ClockPll => status & 0x0c == 0x0c,
        }
    }

    /// Tests a status byte for the condition.
    pub fn met(self, status: u8) -> (met: bool)
        ensures
            met == self.holds(status),
    {
        match self {
            StatusCondition::OscillatorInitialized => {
                let flag: bool = get_bit(status, STATUS_OSCILLATOR_BIT);
                assert(bit_of(status, 1u8) == (status & 0x02 != 0)) by (bit_vector);
                flag
            },
            StatusCondition::ReferenceExternal => {
                let flag: bool = get_bit(status, STATUS_INTERNAL_REFERENCE_BIT);
                assert(bit_of(status, 4u8) == (status & 0x10 != 0)) by (bit_vector);
                !flag
            },
            StatusCondition::ClockExternal => {
                let source: u8 = get_bits(status, STATUS_CLOCK_START, STATUS_CLOCK_END);
                assert((bits_of(status, 2u8, 4u8) == 2u8) == (status & 0x0c == 0x08))
                    by (bit_vector);
                source == CLOCK_STATUS_EXTERNAL
            },
            StatusCondition::PllSelected => {
                let flag: bool = get_bit(status, STATUS_PLL_SELECTED_BIT);
                assert(bit_of(status, 5u8) == (status & 0x20 != 0)) by (bit_vector);
                flag
            },
            StatusCondition::PllLocked => {
                let flag: bool = get_bit(status, STATUS_PLL_LOCKED_BIT);
                assert(bit_of(status, 6u8) == (status & 0x40 != 0)) by (bit_vector);
                flag
            },
            StatusCondition::ClockPll => {
                let source: u8 = get_bits(status, STATUS_CLOCK_START, STATUS_CLOCK_END);
                assert((bits_of(status, 2u8, 4u8) == 3u8) == (status & 0x0c == 0x0c))
                    by (bit_vector);
                source == CLOCK_STATUS_PLL
            },
        }
    }
}

/// Whether `log` goes on from `before`: it is `before` with `added` more
/// entries after it.
pub open spec fn extends<T>(log: Seq<T>, before: Seq<T>, added: int) -> bool {
    &&& log.len() == before.len() + added
    &&& forall|i: int| 0 <= i < before.len() ==> #[trigger] log[i] == before[i]
}

/// One entry of a clock generator's log.
pub enum Access {
    /// A control register was loaded and gave `value`.
    Read { register: McgRegister, value: u8 },
    /// `value` was stored to a control register.
    Write { register: McgRegister, value: u8 },
    /// The status register was loaded once for each element of `reads`, in
    /// that order, while waiting for `until`.
    Poll { until: StatusCondition, reads: Seq<u8> },
}

impl Access {
    /// Whether the entry is a load of `register`.
    pub open spec fn reads_from(self, register: McgRegister) -> bool {
        self matches Access::Read { register: r, .. } && r == register
    }

    /// The byte that a load gave or a store wrote.
    pub open spec fn byte(self) -> u8 {
        match self {
            Access::Read { value, .. } => value,
            Access::Write { value, .. } => value,
            Access::Poll { .. } => 0,
        }
    }

    /// Whether the entry is a wait for `until` of at most `polls` loads that
    /// ended as `done` says: with the condition met, or with the loads used
    /// up.
    pub open spec fn waits_for(self, until: StatusCondition, polls: u32, done: bool) -> bool {
        self matches Access::Poll { until: u, reads } && u == until && poll_run(
            reads,
            until,
            polls,
            done,
        )
    }
}

/// Whether `reads` is what a wait for `until` can see: it stops at the first
/// status byte that meets the condition, and gives up after `polls` bytes
/// that do not.
pub open spec fn poll_run(reads: Seq<u8>, until: StatusCondition, polls: u32, done: bool) -> bool {
    &&& reads.len() <= polls
    &&& forall|i: int| 0 <= i < reads.len() - 1 ==> !until.holds(#[trigger] reads[i])
    &&& done <==> reads.len() > 0 && until.holds(reads.last())
    &&& !done ==> reads.len() == polls
}

/// A wait is decided by the status bytes alone: the same bytes cannot end it
/// both ways, and a wait that is granted no load at all cannot succeed.
pub proof fn lemma_poll_run_decided(
    reads: Seq<u8>,
    until: StatusCondition,
    polls: u32,
    first: bool,
    second: bool,
)
    requires
        poll_run(reads, until, polls, first),
        poll_run(reads, until, polls, second),
    ensures
        first == second,
        polls == 0 ==> !first,
{
}

} // verus!
