//! Register-level model of the RP2040-style microcontroller peripherals.
//!
//! Every peripheral driver in this crate owns a plain-data model of the
//! registers it controls, and every operation is the exact bit-level
//! computation the hardware interface calls for.  The volatile memory-mapped
//! accesses that carry a register image to and from the silicon are the one
//! thing that cannot be verified; they live outside this library.

pub mod atomic;
pub mod clock;
pub mod fifo;
pub mod interp;
pub mod pin;
pub mod pio;
pub mod rand;
pub mod time;
pub mod watchdog;
