//! The GPIO controller: the public pin-level interface that validates a pin
//! index and translates it into a concrete register access.

use vstd::prelude::*;

use crate::gpio::{
    select_fn, spec_fsel_address, spec_fsel_shift, PinFn, GPIO_ADDRESS_BASE, PIN_COUNT,
};
use crate::register::{spec_write_field, RegisterSetting};

verus! {

/// A caller error the controller reports instead of touching hardware.
#[derive(Debug)]
pub enum Error {
    /// The pin index lies outside the controller's configured pin count.
    OutOfRange(&'static str),
}

/// A pin's function, with the same fixed 3-bit codes as [`PinFn`].
pub enum PinFunction {
    Input,
    Output,
    AltFn0,
    AltFn1,
    AltFn2,
    AltFn3,
    AltFn4,
    AltFn5,
}

impl RegisterSetting for PinFunction {
    open spec fn spec_value(&self) -> u64 {
        match self {
            PinFunction::Input => 0b000,
            PinFunction::Output => 0b001,
            PinFunction::AltFn0 => 0b100,
            PinFunction::AltFn1 => 0b101,
            PinFunction::AltFn2 => 0b110,
            PinFunction::AltFn3 => 0b111,
            PinFunction::AltFn4 => 0b011,
            PinFunction::AltFn5 => 0b010,
        }
    }

    open spec fn spec_mask(&self) -> u64 {
        0b111
    }

    proof fn setting_fits(&self) {
        let v = self.spec_value();
        assert(v & !0b111u64 == 0) by (bit_vector)
            requires
                v <= 7,
        ;
    }

    fn value(&self) -> u64 {
        match self {
            PinFunction::Input => 0b000,
            PinFunction::Output => 0b001,
            PinFunction::AltFn0 => 0b100,
            PinFunction::AltFn1 => 0b101,
            PinFunction::AltFn2 => 0b110,
            PinFunction::AltFn3 => 0b111,
            PinFunction::AltFn4 => 0b011,
            PinFunction::AltFn5 => 0b010,
        }
    }

    fn mask(&self) -> u64 {
        0b111
    }
}

/// The GPIO controller: the peripheral base and the per-bank constants,
/// fixed at construction and never mutated.
pub struct Gpio {
    gpio_base: usize,
    pin_count: usize,
    fsel_registers: usize,
    set_registers: usize,
    clr_registers: usize,
}

impl Gpio {
    /// The configuration every controller carries: the fixed base address
    /// and the register counts of this hardware revision.
    pub closed spec fn wf(&self) -> bool {
        &&& self.gpio_base == GPIO_ADDRESS_BASE
        &&& self.pin_count == PIN_COUNT
        &&& self.fsel_registers == 6
        &&& self.set_registers == 2
        &&& self.clr_registers == 2
    }

    /// How many pins this controller serves.
    pub closed spec fn spec_pin_count(&self) -> usize {
        self.pin_count
    }

    /// A controller over the peripheral at the fixed base address.
    pub fn new() -> (r: Self)
        ensures
            r.wf(),
            r.spec_pin_count() == PIN_COUNT,
    {
        Self {
            gpio_base: GPIO_ADDRESS_BASE,
            pin_count: PIN_COUNT,
            fsel_registers: 6,
            set_registers: 2,
            clr_registers: 2,
        }
    }

    /// Select `pin`'s function.  A pin below the pin count yields the
    /// address of its function-select register and the word to write back,
    /// given the value `current` just read there; any other pin is refused
    /// with `OutOfRange` and hardware state is untouched.
    pub fn select_function(&self, pin: usize, function: PinFunction, current: u64) -> (r: Result<
        (usize, u64),
        Error,
    >)
        requires
            self.wf(),
        ensures
            pin < self.spec_pin_count() ==> (r matches Ok(w) && w.0 == spec_fsel_address(
                pin as int,
            ) && w.1 == spec_write_field(
                current,
                function.spec_value(),
                0b111,
                spec_fsel_shift(pin as int) as usize,
            )),
            pin >= self.spec_pin_count() ==> r matches Err(Error::OutOfRange(_)),
    {
        if pin >= self.pin_count {
            return Err(Error::OutOfRange("Pin value out of range"));
        }
        let f = to_pin_fn(function);
        Ok(select_fn(pin, f, current))
    }
}

/// The controller's function codes and the register layer's are the same
/// closed set; translating between them keeps each code.
fn to_pin_fn(function: PinFunction) -> (r: PinFn)
    ensures
        r.spec_value() == function.spec_value(),
{
    match function {
        PinFunction::Input => PinFn::Input,
        PinFunction::Output => PinFn::Output,
        PinFunction::AltFn0 => PinFn::AltFn0,
        PinFunction::AltFn1 => PinFn::AltFn1,
        PinFunction::AltFn2 => PinFn::AltFn2,
        PinFunction::AltFn3 => PinFn::AltFn3,
        PinFunction::AltFn4 => PinFn::AltFn4,
        PinFunction::AltFn5 => PinFn::AltFn5,
    }
}

} // verus!
