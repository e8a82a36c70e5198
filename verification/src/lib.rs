//! Boot-time clock bring-up for a Kinetis K20 class microcontroller.
//!
//! The crate drives the multipurpose clock generator from its reset mode to a
//! PLL-engaged mode fed by the external crystal, and configures the handful
//! of pins the boot sequence needs. Every register access goes through the
//! `volatile` crate, every bit edit through the `bit_field` crate; what the
//! library does with them is stated in contracts and proved.

pub mod bits;
pub mod register;
pub mod clock;
pub mod ratio;
pub mod trace;
pub mod fields;
pub mod protocol;
pub mod port;
