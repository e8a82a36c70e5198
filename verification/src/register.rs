//! Volatile access to hardware registers.
//!
//! A register is a `volatile::Volatile` cell that the caller lends to the
//! library. The library never touches the memory behind it in any other way.

use volatile::Volatile;
use vstd::prelude::*;

verus! {

#[verifier::external_type_specification]
#[verifier::external_body]
#[verifier::reject_recursive_types(T)]
pub struct ExVolatile<T: Copy>(Volatile<T>);

/// The byte most recently handed to a byte-sized register by a write.
pub uninterp spec fn stored_byte(register: Volatile<u8>) -> u8;

/// The word most recently handed to a word-sized register by a write.
pub uninterp spec fn stored_word(register: Volatile<u32>) -> u32;

/// Calls `Volatile::read`, which performs one volatile load and never panics.
/// Nothing is claimed of the value: the hardware behind a register may change
/// it at any time, so two loads in a row may differ.
#[verifier::external_body]
pub(crate) fn read<T: Copy>(register: &Volatile<T>) -> (value: T) {
    register.read()
}

/// Calls `Volatile::write` on a byte-sized register, which performs one
/// volatile store of `value` and never panics. The contract records that
/// `value` is what the register was given; it says nothing of what a later
/// load returns.
#[verifier::external_body]
pub(crate) fn write_byte(register: &mut Volatile<u8>, value: u8)
    ensures
        stored_byte(*final(register)) == value,
{
    register.write(value);
}

/// Calls `Volatile::write` on a word-sized register, which performs one
/// volatile store of `value` and never panics. The contract records that
/// `value` is what the register was given; it says nothing of what a later
/// load returns.
#[verifier::external_body]
pub(crate) fn write_word(register: &mut Volatile<u32>, value: u32)
    ensures
        stored_word(*final(register)) == value,
{
    register.write(value);
}

} // verus!
