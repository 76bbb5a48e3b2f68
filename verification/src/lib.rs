//! Memory-mapped GPIO driver for a fixed-base Raspberry Pi peripheral.
//!
//! The crate computes, for each pin-level operation, exactly which physical
//! register must be written and with what value.  The volatile loads and
//! stores themselves are left to the surrounding program: every function here
//! is a pure computation from observed register contents to the value that
//! must be presented to the hardware, so the address arithmetic and the
//! masked read-modify-write protocol are verified.

use vstd::prelude::*;

pub mod controller;
pub mod gpio;
pub mod register;

use crate::controller::Gpio;

verus! {

/// The board: the one device handle, owning the GPIO controller.
pub struct Pi {
    pub gpio: Gpio,
}

impl Pi {
    /// A handle on the board's peripherals.
    pub fn new() -> (r: Self)
        ensures
            r.gpio.wf(),
            r.gpio.spec_pin_count() == crate::gpio::PIN_COUNT,
    {
        Pi { gpio: Gpio::new() }
    }
}

} // verus!
