//! What each transition of the clock generator adds to the log.
//!
//! A predicate here looks at the entries of a log from position `at` on. It
//! names the registers that are loaded and stored, the byte that each store
//! writes as a function of the byte that the load before it gave, and the
//! waits that follow, in their order. `stalled` is the condition whose wait
//! ran out of loads, if one did; a transition stops at that wait.

use crate::clock::OscRange;
use crate::fields::{c1_external, c1_locked_loop, c2_crystal, c5_divided, c6_multiplied};
use crate::ratio::{TEENSY_32_DENOMINATOR, TEENSY_32_DIVIDER_FIELD, TEENSY_32_NUMERATOR};
use crate::trace::{extends, Access, McgRegister, StatusCondition};
use vstd::prelude::*;

verus! {

/// The entries at `at` and `at + 1` are a load of `register` and a store of
/// `next` to it.
pub open spec fn updates(log: Seq<Access>, at: int, register: McgRegister, next: u8) -> bool {
    &&& 0 <= at
    &&& at + 2 <= log.len()
    &&& log[at].reads_from(register)
    &&& log[at + 1] == (Access::Write { register, value: next })
}

/// One wait for `until` stands at `at`, and `stalled` says how it ended.
pub open spec fn waits_once(
    log: Seq<Access>,
    at: int,
    until: StatusCondition,
    polls: u32,
    stalled: Option<StatusCondition>,
) -> bool {
    &&& 0 <= at < log.len()
    &&& log[at].waits_for(until, polls, stalled is None)
    &&& stalled matches Some(condition) ==> condition == until
}

/// A wait for `first` stands at `at`; if it succeeded, a wait for `second`
/// follows it. `stalled` names the wait that ran out, if one did.
pub open spec fn waits_twice(
    log: Seq<Access>,
    at: int,
    first: StatusCondition,
    second: StatusCondition,
    polls: u32,
    stalled: Option<StatusCondition>,
) -> bool {
    &&& 0 <= at < log.len()
    &&& if log[at].waits_for(first, polls, true) {
        waits_once(log, at + 1, second, polls, stalled)
    } else {
        log[at].waits_for(first, polls, false) && stalled == Some(first)
    }
}

/// How many entries two waits in turn add: one if the first ran out, else
/// two.
pub open spec fn waits_twice_len(first: StatusCondition, stalled: Option<StatusCondition>) -> int {
    if stalled == Some(first) {
        1
    } else {
        2
    }
}

/// Selecting the crystal: control register 2 is updated with the range and
/// the crystal request, then the oscillator is awaited.
pub open spec fn crystal_step(
    log: Seq<Access>,
    at: int,
    range: OscRange,
    polls: u32,
    stalled: Option<StatusCondition>,
) -> bool {
    &&& updates(log, at, McgRegister::C2, c2_crystal(log[at].byte(), range))
    &&& waits_once(log, at + 2, StatusCondition::OscillatorInitialized, polls, stalled)
}

/// Number of entries that selecting the crystal adds.
pub open spec fn crystal_step_len() -> int {
    3
}

/// Switching to the external reference: control register 1 is updated with
/// the source and the divider field, then the loop's reference and the
/// output's source are awaited, in that order.
pub open spec fn external_step(
    log: Seq<Access>,
    at: int,
    field: u8,
    polls: u32,
    stalled: Option<StatusCondition>,
) -> bool {
    &&& updates(log, at, McgRegister::C1, c1_external(log[at].byte(), field))
    &&& waits_twice(
        log,
        at + 2,
        StatusCondition::ReferenceExternal,
        StatusCondition::ClockExternal,
        polls,
        stalled,
    )
}

/// Number of entries that switching to the external reference adds.
pub open spec fn external_step_len(stalled: Option<StatusCondition>) -> int {
    2 + waits_twice_len(StatusCondition::ReferenceExternal, stalled)
}

/// Starting the PLL: control register 5 is updated with the reference
/// divider, control register 6 with the multiplier and the PLL select, then
/// the selection and the lock are awaited, in that order.
pub open spec fn pll_step(
    log: Seq<Access>,
    at: int,
    numerator: u8,
    denominator: u8,
    polls: u32,
    stalled: Option<StatusCondition>,
) -> bool {
    &&& updates(log, at, McgRegister::C5, c5_divided(log[at].byte(), denominator))
    &&& updates(log, at + 2, McgRegister::C6, c6_multiplied(log[at + 2].byte(), numerator))
    &&& waits_twice(
        log,
        at + 4,
        StatusCondition::PllSelected,
        StatusCondition::PllLocked,
        polls,
        stalled,
    )
}

/// Number of entries that starting the PLL adds.
pub open spec fn pll_step_len(stalled: Option<StatusCondition>) -> int {
    4 + waits_twice_len(StatusCondition::PllSelected, stalled)
}

/// Engaging the PLL: control register 1 is updated with the locked loop as
/// the source, then the output's source is awaited.
pub open spec fn engage_step(
    log: Seq<Access>,
    at: int,
    polls: u32,
    stalled: Option<StatusCondition>,
) -> bool {
    &&& updates(log, at, McgRegister::C1, c1_locked_loop(log[at].byte()))
    &&& waits_once(log, at + 2, StatusCondition::ClockPll, polls, stalled)
}

/// Number of entries that engaging the PLL adds.
pub open spec fn engage_step_len() -> int {
    3
}

/// The step of the bring-up at which a wait ran out: 1 for the crystal, 2 for
/// the external reference, 3 for the start of the PLL, 4 for its engagement.
/// A bring-up in which no wait ran out went through all four.
pub open spec fn stalled_step(stalled: Option<StatusCondition>) -> int {
    match stalled {
        Some(StatusCondition::OscillatorInitialized) => 1,
        Some(StatusCondition::ReferenceExternal) => 2,
        Some(StatusCondition::ClockExternal) => 2,
        Some(StatusCondition::PllSelected) => 3,
        Some(StatusCondition::PllLocked) => 3,
        Some(StatusCondition::ClockPll) => 4,
        None => 4,
    }
}

/// What step `step` of a bring-up saw of `stalled`: the condition if the
/// bring-up stopped in that step, nothing if it went past it.
pub open spec fn stalled_in(stalled: Option<StatusCondition>, step: int) -> Option<
    StatusCondition,
> {
    if stalled_step(stalled) == step {
        stalled
    } else {
        None
    }
}

/// The whole bring-up for a crystal in the very high range, divided by 512
/// for the loop's reference and multiplied by 27/6 in the PLL: the four steps
/// in their order, each begun only when every wait of the step before it
/// succeeded.
pub open spec fn bring_up(
    log: Seq<Access>,
    at: int,
    polls: u32,
    stalled: Option<StatusCondition>,
) -> bool {
    &&& crystal_step(log, at, OscRange::VeryHigh, polls, stalled_in(stalled, 1))
    &&& stalled_step(stalled) >= 2 ==> external_step(
        log,
        at + 3,
        TEENSY_32_DIVIDER_FIELD,
        polls,
        stalled_in(stalled, 2),
    )
    &&& stalled_step(stalled) >= 3 ==> pll_step(
        log,
        at + 7,
        TEENSY_32_NUMERATOR,
        TEENSY_32_DENOMINATOR,
        polls,
        stalled_in(stalled, 3),
    )
    &&& stalled_step(stalled) >= 4 ==> engage_step(log, at + 13, polls, stalled_in(stalled, 4))
}

/// Number of entries that the bring-up adds, by the wait that ran out.
pub open spec fn bring_up_len(stalled: Option<StatusCondition>) -> int {
    match stalled {
        Some(StatusCondition::OscillatorInitialized) => 3,
        Some(StatusCondition::ReferenceExternal) => 6,
        Some(StatusCondition::ClockExternal) => 7,
        Some(StatusCondition::PllSelected) => 12,
        Some(StatusCondition::PllLocked) => 13,
        Some(StatusCondition::ClockPll) => 16,
        None => 16,
    }
}

/// The byte that a bring-up leaves in a control register: what its last
/// store to the register wrote, or `before` if it stopped before it stored
/// anything there.
pub open spec fn bring_up_control(
    log: Seq<Access>,
    at: int,
    stalled: Option<StatusCondition>,
    register: McgRegister,
    before: u8,
) -> u8 {
    match register {
        McgRegister::C2 => log[at + 1].byte(),
        McgRegister::C1 => if stalled_step(stalled) >= 4 {
            log[at + 14].byte()
        } else if stalled_step(stalled) >= 2 {
            log[at + 4].byte()
        } else {
            before
        },
        McgRegister::C5 => if stalled_step(stalled) >= 3 {
            log[at + 8].byte()
        } else {
            before
        },
        McgRegister::C6 => if stalled_step(stalled) >= 3 {
            log[at + 10].byte()
        } else {
            before
        },
    }
}

/// Where in a log the confirmed steps of a bring-up stand, and how many
/// loads each of them granted its waits.
pub struct History {
    pub external_at: int,
    pub external_polls: u32,
    pub pll_at: int,
    pub pll_polls: u32,
    pub engaged_at: int,
    pub engaged_polls: u32,
}

/// The log holds a switch to the external reference with divider field
/// `field`, both of whose waits succeeded.
pub open spec fn external_confirmed(log: Seq<Access>, history: History, field: u8) -> bool {
    &&& 0 <= history.external_at
    &&& history.external_at + external_step_len(None) <= log.len()
    &&& external_step(log, history.external_at, field, history.external_polls, None)
}

/// The log holds a confirmed switch to the external reference and, after it,
/// a start of the PLL at `numerator / denominator`, both of whose waits
/// succeeded.
pub open spec fn pll_confirmed(
    log: Seq<Access>,
    history: History,
    field: u8,
    numerator: u8,
    denominator: u8,
) -> bool {
    &&& external_confirmed(log, history, field)
    &&& history.external_at + external_step_len(None) <= history.pll_at
    &&& history.pll_at + pll_step_len(None) <= log.len()
    &&& pll_step(log, history.pll_at, numerator, denominator, history.pll_polls, None)
}

/// The log holds a confirmed switch to the external reference, after it a
/// confirmed start of the PLL, and after that an engagement of the PLL whose
/// wait succeeded.
pub open spec fn engaged_confirmed(
    log: Seq<Access>,
    history: History,
    field: u8,
    numerator: u8,
    denominator: u8,
) -> bool {
    &&& pll_confirmed(log, history, field, numerator, denominator)
    &&& history.pll_at + pll_step_len(None) <= history.engaged_at
    &&& history.engaged_at + engage_step_len() <= log.len()
    &&& engage_step(log, history.engaged_at, history.engaged_polls, None)
}

/// What a log holds it goes on holding: entries that are added after a
/// confirmed step take nothing from it.
pub proof fn lemma_confirmed_stays(
    before: Seq<Access>,
    log: Seq<Access>,
    added: int,
    history: History,
    field: u8,
    numerator: u8,
    denominator: u8,
)
    requires
        0 <= added,
        extends(log, before, added),
    ensures
        external_confirmed(before, history, field) ==> external_confirmed(log, history, field),
        pll_confirmed(before, history, field, numerator, denominator) ==> pll_confirmed(
            log,
            history,
            field,
            numerator,
            denominator,
        ),
        engaged_confirmed(before, history, field, numerator, denominator) ==> engaged_confirmed(
            log,
            history,
            field,
            numerator,
            denominator,
        ),
{
}

/// A bring-up in which no wait ran out leaves in the log what the chain of
/// modes asks for: the confirmed switch to the external reference, then the
/// confirmed start of the PLL, then its confirmed engagement, each with the
/// settings of the Teensy 3.2.
pub proof fn lemma_bring_up_confirms(log: Seq<Access>, at: int, polls: u32)
    requires
        0 <= at,
        at + bring_up_len(None) <= log.len(),
        bring_up(log, at, polls, None),
    ensures
        engaged_confirmed(
            log,
            History {
                external_at: at + crystal_step_len(),
                external_polls: polls,
                pll_at: at + crystal_step_len() + external_step_len(None),
                pll_polls: polls,
                engaged_at: at + crystal_step_len() + external_step_len(None) + pll_step_len(None),
                engaged_polls: polls,
            },
            TEENSY_32_DIVIDER_FIELD,
            TEENSY_32_NUMERATOR,
            TEENSY_32_DENOMINATOR,
        ),
{
}

/// A bring-up stops at the first wait that runs out: the log ends with that
/// wait, and every wait before it in the log succeeded.
pub proof fn lemma_bring_up_stops_at_stall(
    log: Seq<Access>,
    at: int,
    polls: u32,
    stalled: StatusCondition,
)
    requires
        0 <= at,
        log.len() == at + bring_up_len(Some(stalled)),
        bring_up(log, at, polls, Some(stalled)),
    ensures
        log.last().waits_for(stalled, polls, false),
        forall|i: int|
            at <= i < log.len() - 1 ==> ((#[trigger] log[i]) matches Access::Poll { until, reads }
                ==> reads.len() > 0 && until.holds(reads.last())),
{
}

/// The store that selects the external reference is followed by a status
/// byte that reports the loop off the internal reference, and that by one
/// that reports the external reference at the output.
pub proof fn lemma_external_confirmed_order(log: Seq<Access>, history: History, field: u8)
    requires
        external_confirmed(log, history, field),
    ensures
        log[history.external_at + 1] == (Access::Write {
            register: McgRegister::C1,
            value: c1_external(log[history.external_at].byte(), field),
        }),
        log[history.external_at + 2] matches Access::Poll { until, reads }
            && until == StatusCondition::ReferenceExternal && reads.len() > 0
            && StatusCondition::ReferenceExternal.holds(reads.last()),
        log[history.external_at + 3] matches Access::Poll { until, reads }
            && until == StatusCondition::ClockExternal && reads.len() > 0
            && StatusCondition::ClockExternal.holds(reads.last()),
{
}

/// The PLL is engaged only after it has locked: the store that makes the
/// locked loop the output stands later in the log than a status byte that
/// reports the lock, and that later than the stores of the PLL's settings.
pub proof fn lemma_engaged_after_lock(
    log: Seq<Access>,
    history: History,
    field: u8,
    numerator: u8,
    denominator: u8,
)
    requires
        engaged_confirmed(log, history, field, numerator, denominator),
    ensures
        history.external_at + 1 < history.pll_at + 1 < history.pll_at + 3 < history.pll_at + 5
            < history.engaged_at + 1 < history.engaged_at + 2 < log.len(),
        log[history.pll_at + 1] == (Access::Write {
            register: McgRegister::C5,
            value: c5_divided(log[history.pll_at].byte(), denominator),
        }),
        log[history.pll_at + 3] == (Access::Write {
            register: McgRegister::C6,
            value: c6_multiplied(log[history.pll_at + 2].byte(), numerator),
        }),
        log[history.pll_at + 5] matches Access::Poll { until, reads }
            && until == StatusCondition::PllLocked && reads.len() > 0
            && StatusCondition::PllLocked.holds(reads.last()),
        log[history.engaged_at + 1] == (Access::Write {
            register: McgRegister::C1,
            value: c1_locked_loop(log[history.engaged_at].byte()),
        }),
        log[history.engaged_at + 2] matches Access::Poll { until, reads }
            && until == StatusCondition::ClockPll && reads.len() > 0
            && StatusCondition::ClockPll.holds(reads.last()),
{
}

} // verus!
