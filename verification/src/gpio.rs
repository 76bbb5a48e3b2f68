//! The GPIO controller's pin-to-register mapping: three register banks
//! (function-select, set, clear) at fixed offsets from the peripheral base,
//! and the pin-level operations built on the register primitive.
//!
//! Each operation returns the physical address to access together with the
//! word to store there; the caller performs the volatile accesses.

use vstd::prelude::*;

use crate::register::{
    nth_bit, spec_write_field, Register, RegisterSetting, REGISTER_STRIDE, WORD_BITS,
};

verus! {

/// Physical address at which the peripheral's register banks begin.
pub const GPIO_ADDRESS_BASE: usize = 0x3F00_0000;

/// Number of pins the controller serves; valid pin indices are below this.
pub const PIN_COUNT: usize = 59;

/// Byte offset from the peripheral base to the function-select bank.
pub const FSEL_BANK_OFFSET: usize = 0x20_0000;

/// Byte offset from the peripheral base to the pin-set bank.
pub const SET_BANK_OFFSET: usize = 0x20_001C;

/// Byte offset from the peripheral base to the pin-clear bank.
pub const CLR_BANK_OFFSET: usize = 0x20_0028;

/// Pins whose 3-bit function fields share one function-select register.
pub const FSEL_PINS_PER_REGISTER: usize = 10;

/// Bits of one pin's field in a function-select register.
pub const FSEL_FIELD_WIDTH: usize = 3;

/// Pins whose 1-bit set/clear fields share one set or clear register.
pub const SET_CLR_PINS_PER_REGISTER: usize = 32;

/// Which register of a bank holds `pin`'s field.
pub open spec fn spec_register_index(pin: int, pins_per_register: int) -> int
    recommends
        pins_per_register > 0,
{
    pin / pins_per_register
}

/// At which bit inside that register `pin`'s field begins.
pub open spec fn spec_bit_offset(pin: int, pins_per_register: int, field_width: int) -> int
    recommends
        pins_per_register > 0,
{
    (pin % pins_per_register) * field_width
}

/// Bit position of `pin`'s function field inside its function-select
/// register.
pub open spec fn spec_fsel_shift(pin: int) -> int {
    spec_bit_offset(pin, FSEL_PINS_PER_REGISTER as int, FSEL_FIELD_WIDTH as int)
}

/// Absolute address of the function-select register holding `pin`'s field.
pub open spec fn spec_fsel_address(pin: int) -> int {
    GPIO_ADDRESS_BASE + FSEL_BANK_OFFSET + spec_register_index(
        pin,
        FSEL_PINS_PER_REGISTER as int,
    ) * REGISTER_STRIDE
}

/// Absolute address of the set register holding `pin`'s bit.
pub open spec fn spec_set_address(pin: int) -> int {
    GPIO_ADDRESS_BASE + SET_BANK_OFFSET + spec_register_index(
        pin,
        SET_CLR_PINS_PER_REGISTER as int,
    ) * REGISTER_STRIDE
}

/// Absolute address of the clear register holding `pin`'s bit.
pub open spec fn spec_clr_address(pin: int) -> int {
    GPIO_ADDRESS_BASE + CLR_BANK_OFFSET + spec_register_index(
        pin,
        SET_CLR_PINS_PER_REGISTER as int,
    ) * REGISTER_STRIDE
}

/// Which register of a bank holds `pin`'s field.
pub fn register_index(pin: usize, pins_per_register: usize) -> (r: usize)
    requires
        pins_per_register > 0,
    ensures
        r == spec_register_index(pin as int, pins_per_register as int),
{
    pin / pins_per_register
}

/// At which bit inside that register `pin`'s field begins.
pub fn bit_offset(pin: usize, pins_per_register: usize, field_width: usize) -> (r: usize)
    requires
        pins_per_register > 0,
        (pin % pins_per_register) * field_width <= usize::MAX,
    ensures
        r == spec_bit_offset(pin as int, pins_per_register as int, field_width as int),
{
    (pin % pins_per_register) * field_width
}

/// Distinct pins that share a register get non-overlapping bit ranges: their
/// fields of `field_width` bits, placed at `spec_bit_offset`, never touch.
pub proof fn lemma_distinct_pins_nonoverlapping(
    pin1: int,
    pin2: int,
    pins_per_register: int,
    field_width: int,
)
    requires
        0 <= pin1,
        0 <= pin2,
        0 < pins_per_register,
        0 < field_width,
        pin1 != pin2,
        spec_register_index(pin1, pins_per_register) == spec_register_index(
            pin2,
            pins_per_register,
        ),
    ensures
        spec_bit_offset(pin1, pins_per_register, field_width) + field_width <= spec_bit_offset(
            pin2,
            pins_per_register,
            field_width,
        ) || spec_bit_offset(pin2, pins_per_register, field_width) + field_width
            <= spec_bit_offset(pin1, pins_per_register, field_width),
{
    vstd::arithmetic::div_mod::lemma_fundamental_div_mod(pin1, pins_per_register);
    vstd::arithmetic::div_mod::lemma_fundamental_div_mod(pin2, pins_per_register);
    let r1 = pin1 % pins_per_register;
    let r2 = pin2 % pins_per_register;
    assert(r1 != r2);
    if r1 < r2 {
        vstd::arithmetic::mul::lemma_mul_inequality(r1 + 1, r2, field_width);
        vstd::arithmetic::mul::lemma_mul_is_distributive_add_other_way(field_width, r1, 1);
    } else {
        vstd::arithmetic::mul::lemma_mul_inequality(r2 + 1, r1, field_width);
        vstd::arithmetic::mul::lemma_mul_is_distributive_add_other_way(field_width, r2, 1);
    }
}

/// A pin's function: plain input, plain output, or one of six alternate
/// functions, each with its fixed 3-bit code.
#[derive(Copy, Clone)]
pub enum PinFn {
    Input,
    Output,
    AltFn0,
    AltFn1,
    AltFn2,
    AltFn3,
    AltFn4,
    AltFn5,
}

impl RegisterSetting for PinFn {
    open spec fn spec_value(&self) -> u64 {
        match self {
            PinFn::Input => 0b000,
            PinFn::Output => 0b001,
            PinFn::AltFn0 => 0b100,
            PinFn::AltFn1 => 0b101,
            PinFn::AltFn2 => 0b110,
            PinFn::AltFn3 => 0b111,
            PinFn::AltFn4 => 0b011,
            PinFn::AltFn5 => 0b010,
        }
    }

    open spec fn spec_mask(&self) -> u64 {
        0b111
    }

    proof fn setting_fits(&self) {
        let v = self.spec_value();
        assert(v & !0b111u64 == 0) by (bit_vector)
            requires
                v <= 7,
        ;
    }

    fn value(&self) -> u64 {
        match self {
            PinFn::Input => 0b000,
            PinFn::Output => 0b001,
            PinFn::AltFn0 => 0b100,
            PinFn::AltFn1 => 0b101,
            PinFn::AltFn2 => 0b110,
            PinFn::AltFn3 => 0b111,
            PinFn::AltFn4 => 0b011,
            PinFn::AltFn5 => 0b010,
        }
    }

    fn mask(&self) -> u64 {
        0b111
    }
}

/// The single-bit field written into a set or clear register: the literal 1
/// that commands the hardware action.
pub struct BitSetting {}

impl RegisterSetting for BitSetting {
    open spec fn spec_value(&self) -> u64 {
        0b1
    }

    open spec fn spec_mask(&self) -> u64 {
        0b1
    }

    proof fn setting_fits(&self) {
        assert(0b1u64 & !0b1u64 == 0) by (bit_vector);
    }

    fn value(&self) -> u64 {
        0b1
    }

    fn mask(&self) -> u64 {
        0b1
    }
}

/// One function-select register: ten pins' 3-bit function fields.
pub struct FselRegister {
    address: usize,
}

impl FselRegister {
    /// Handle on function-select register `register_number` of the
    /// peripheral at `gpio_base`.  The computed address must stay inside the
    /// window the base address identifies.
    pub fn new(gpio_base: usize, register_number: usize) -> (r: Self)
        requires
            gpio_base + FSEL_BANK_OFFSET + register_number * REGISTER_STRIDE <= usize::MAX,
            ((gpio_base + FSEL_BANK_OFFSET + register_number * REGISTER_STRIDE) as usize)
                & gpio_base == gpio_base,
        ensures
            r.spec_address() == gpio_base + FSEL_BANK_OFFSET + register_number * REGISTER_STRIDE,
            r.spec_address() & gpio_base == gpio_base,
    {
        let address = gpio_base + Self::bank_offset() + Self::register_offset(register_number);
        Self { address }
    }

    /// The masked update that sets the field of in-register pin `pin` to
    /// `function`'s code, given the value `current` just read: the field
    /// reads back as the code, every bit outside the field is untouched.
    pub fn select_fn(&self, pin: usize, function: PinFn, current: u64) -> (r: u64)
        requires
            pin < FSEL_PINS_PER_REGISTER,
        ensures
            r == spec_write_field(
                current,
                function.spec_value(),
                0b111,
                (pin * FSEL_FIELD_WIDTH) as usize,
            ),
            (r >> ((pin * FSEL_FIELD_WIDTH) as usize)) & 0b111 == function.spec_value(),
            r & !(0b111u64 << ((pin * FSEL_FIELD_WIDTH) as usize)) == current & !(0b111u64 << ((
            pin * FSEL_FIELD_WIDTH) as usize)),
    {
        let shift = pin * FSEL_FIELD_WIDTH;
        let r = self.write_value_at_offset(current, function, shift);
        proof {
            function.setting_fits();
            let v = function.spec_value();
            assert((0b111u64 << shift) >> shift == 0b111u64) by (bit_vector)
                requires
                    shift < 28,
            ;
            crate::register::lemma_write_field_round_trip(current, v, 0b111, shift);
            assert(((current & !(0b111u64 << shift)) | (v << shift)) & !(0b111u64 << shift)
                == current & !(0b111u64 << shift)) by (bit_vector)
                requires
                    v & !0b111u64 == 0,
            ;
        }
        r
    }
}

impl Register for FselRegister {
    closed spec fn spec_address(&self) -> usize {
        self.address
    }

    open spec fn spec_pins_per_register() -> usize {
        FSEL_PINS_PER_REGISTER
    }

    open spec fn spec_bank_offset() -> usize {
        FSEL_BANK_OFFSET
    }

    fn address(&self) -> usize {
        self.address
    }

    fn pins_per_register() -> usize {
        FSEL_PINS_PER_REGISTER
    }

    fn bank_offset() -> usize {
        FSEL_BANK_OFFSET
    }
}

/// One pin-set register: thirty-two pins' write-1-to-set bits.
pub struct SetRegister {
    address: usize,
}

impl SetRegister {
    /// Handle on set register `register_number` of the peripheral at
    /// `gpio_base`; the computed address must stay inside the base window.
    pub fn new(gpio_base: usize, register_number: usize) -> (r: Self)
        requires
            gpio_base + SET_BANK_OFFSET + register_number * REGISTER_STRIDE <= usize::MAX,
            ((gpio_base + SET_BANK_OFFSET + register_number * REGISTER_STRIDE) as usize)
                & gpio_base == gpio_base,
        ensures
            r.spec_address() == gpio_base + SET_BANK_OFFSET + register_number * REGISTER_STRIDE,
            r.spec_address() & gpio_base == gpio_base,
    {
        let address = gpio_base + Self::bank_offset() + Self::register_offset(register_number);
        Self { address }
    }

    /// The word to store to set in-register pin `pin` high: exactly bit
    /// `pin` is 1.  The hardware ignores the zero bits, so no read precedes
    /// this write and no other pin is disturbed.
    pub fn set_pin(&self, pin: usize) -> (r: u64)
        requires
            pin < SET_CLR_PINS_PER_REGISTER,
        ensures
            r == 1u64 << pin,
    {
        0b1u64 << pin
    }
}

impl Register for SetRegister {
    closed spec fn spec_address(&self) -> usize {
        self.address
    }

    open spec fn spec_pins_per_register() -> usize {
        SET_CLR_PINS_PER_REGISTER
    }

    open spec fn spec_bank_offset() -> usize {
        SET_BANK_OFFSET
    }

    fn address(&self) -> usize {
        self.address
    }

    fn pins_per_register() -> usize {
        SET_CLR_PINS_PER_REGISTER
    }

    fn bank_offset() -> usize {
        SET_BANK_OFFSET
    }
}

/// One pin-clear register: thirty-two pins' write-1-to-clear bits.
pub struct ClrRegister {
    address: usize,
}

impl ClrRegister {
    /// Handle on clear register `register_number` of the peripheral at
    /// `gpio_base`; the computed address must stay inside the base window.
    pub fn new(gpio_base: usize, register_number: usize) -> (r: Self)
        requires
            gpio_base + CLR_BANK_OFFSET + register_number * REGISTER_STRIDE <= usize::MAX,
            ((gpio_base + CLR_BANK_OFFSET + register_number * REGISTER_STRIDE) as usize)
                & gpio_base == gpio_base,
        ensures
            r.spec_address() == gpio_base + CLR_BANK_OFFSET + register_number * REGISTER_STRIDE,
            r.spec_address() & gpio_base == gpio_base,
    {
        let address = gpio_base + Self::bank_offset() + Self::register_offset(register_number);
        Self { address }
    }

    /// The word to store to pull in-register pin `pin` low: exactly bit
    /// `pin` is 1, and the hardware leaves every other pin alone.
    pub fn clear_pin(&self, pin: usize) -> (r: u64)
        requires
            pin < SET_CLR_PINS_PER_REGISTER,
        ensures
            r == 1u64 << pin,
    {
        0b1u64 << pin
    }
}

impl Register for ClrRegister {
    closed spec fn spec_address(&self) -> usize {
        self.address
    }

    open spec fn spec_pins_per_register() -> usize {
        SET_CLR_PINS_PER_REGISTER
    }

    open spec fn spec_bank_offset() -> usize {
        CLR_BANK_OFFSET
    }

    fn address(&self) -> usize {
        self.address
    }

    fn pins_per_register() -> usize {
        SET_CLR_PINS_PER_REGISTER
    }

    fn bank_offset() -> usize {
        CLR_BANK_OFFSET
    }
}

/// The peripheral's base address for this hardware revision.
pub fn gpio_address_base() -> (r: usize)
    ensures
        r == GPIO_ADDRESS_BASE,
{
    GPIO_ADDRESS_BASE
}

/// How many function-select registers the bank holds.
pub fn fsel_registers() -> (r: usize)
    ensures
        r == 6,
{
    6
}

/// How many set registers the bank holds.
pub fn set_registers() -> (r: usize)
    ensures
        r == 2,
{
    2
}

/// How many clear registers the bank holds.
pub fn clr_registers() -> (r: usize)
    ensures
        r == 2,
{
    2
}

/// Absolute address of the function-select register holding `pin`'s field:
/// what a caller must read before computing the masked update.
pub fn fsel_address(pin: usize) -> (r: usize)
    requires
        pin < PIN_COUNT,
    ensures
        r == spec_fsel_address(pin as int),
{
    let register_num = register_index(pin, FselRegister::pins_per_register());
    proof {
        lemma_fsel_window(register_num);
    }
    let register = FselRegister::new(gpio_address_base(), register_num);
    register.address()
}

/// Select `pin`'s function: returns the address of its function-select
/// register and the word to write back, given the value `current` just read
/// from that address.  Only the pin's own 3-bit field changes.
pub fn select_fn(pin: usize, function: PinFn, current: u64) -> (r: (usize, u64))
    requires
        pin < PIN_COUNT,
    ensures
        r.0 == spec_fsel_address(pin as int),
        r.1 == spec_write_field(
            current,
            function.spec_value(),
            0b111,
            spec_fsel_shift(pin as int) as usize,
        ),
        (r.1 >> (spec_fsel_shift(pin as int) as usize)) & 0b111 == function.spec_value(),
        r.1 & !(0b111u64 << (spec_fsel_shift(pin as int) as usize)) == current & !(0b111u64 << (
        spec_fsel_shift(pin as int) as usize)),
{
    let register_num = register_index(pin, FselRegister::pins_per_register());
    proof {
        lemma_fsel_window(register_num);
    }
    let register = FselRegister::new(gpio_address_base(), register_num);
    let offset = pin % FselRegister::pins_per_register();
    let value = register.select_fn(offset, function, current);
    (register.address(), value)
}

/// Set `pin` high: returns the address of its set register and the word to
/// store there, which has exactly bit `pin % 32` on.  No read precedes the
/// write; the hardware treats the zero bits as "leave unchanged".
pub fn set_pin(pin: usize) -> (r: (usize, u64))
    requires
        pin < PIN_COUNT,
    ensures
        r.0 == spec_set_address(pin as int),
        r.1 == 1u64 << ((pin % SET_CLR_PINS_PER_REGISTER) as usize),
{
    let register_num = pin / SetRegister::pins_per_register();
    proof {
        lemma_set_window(register_num);
    }
    let register = SetRegister::new(gpio_address_base(), register_num);
    let offset = pin % SetRegister::pins_per_register();
    let value = register.set_pin(offset);
    (register.address(), value)
}

/// Pull `pin` low: returns the address of its clear register and the word to
/// store there, which has exactly bit `pin % 32` on.  No read precedes the
/// write; the hardware treats the zero bits as "leave unchanged".
pub fn clear_pin(pin: usize) -> (r: (usize, u64))
    requires
        pin < PIN_COUNT,
    ensures
        r.0 == spec_clr_address(pin as int),
        r.1 == 1u64 << ((pin % SET_CLR_PINS_PER_REGISTER) as usize),
{
    let register_num = pin / ClrRegister::pins_per_register();
    proof {
        lemma_clr_window(register_num);
    }
    let register = ClrRegister::new(gpio_address_base(), register_num);
    let offset = pin % ClrRegister::pins_per_register();
    let value = register.clear_pin(offset);
    (register.address(), value)
}

/// A function-select write touches nothing outside the pin's own field:
/// every bit of the register outside `[offset, offset + 3)` reads back
/// exactly as it was before the write.
pub proof fn lemma_select_preserves_outside_field(
    current: u64,
    value: u64,
    offset: usize,
    i: usize,
)
    requires
        value & !0b111 == 0,
        offset + FSEL_FIELD_WIDTH <= WORD_BITS,
        i < WORD_BITS,
        i < offset || offset + FSEL_FIELD_WIDTH <= i,
    ensures
        nth_bit(spec_write_field(current, value, 0b111, offset), i) == nth_bit(current, i),
{
    assert(nth_bit((current & !(0b111u64 << offset)) | (value << offset), i) == nth_bit(current, i))
        by (bit_vector)
        requires
            value & !0b111u64 == 0,
            offset + 3 <= 64,
            i < 64,
            i < offset || offset + 3 <= i,
    ;
}

/// Every function-select register of this peripheral lies inside the base
/// address window.
proof fn lemma_fsel_window(register_num: usize)
    requires
        register_num < 6,
    ensures
        GPIO_ADDRESS_BASE + FSEL_BANK_OFFSET + register_num * REGISTER_STRIDE <= usize::MAX,
        ((GPIO_ADDRESS_BASE + FSEL_BANK_OFFSET + register_num * REGISTER_STRIDE) as usize)
            & GPIO_ADDRESS_BASE == GPIO_ADDRESS_BASE,
{
    assert(((0x3F00_0000usize + 0x20_0000 + register_num * 8) as usize) & 0x3F00_0000usize
        == 0x3F00_0000usize) by (bit_vector)
        requires
            register_num < 6,
    ;
}

/// Every set register of this peripheral lies inside the base address
/// window.
proof fn lemma_set_window(register_num: usize)
    requires
        register_num < 2,
    ensures
        GPIO_ADDRESS_BASE + SET_BANK_OFFSET + register_num * REGISTER_STRIDE <= usize::MAX,
        ((GPIO_ADDRESS_BASE + SET_BANK_OFFSET + register_num * REGISTER_STRIDE) as usize)
            & GPIO_ADDRESS_BASE == GPIO_ADDRESS_BASE,
{
    assert(((0x3F00_0000usize + 0x20_001C + register_num * 8) as usize) & 0x3F00_0000usize
        == 0x3F00_0000usize) by (bit_vector)
        requires
            register_num < 2,
    ;
}

/// Every clear register of this peripheral lies inside the base address
/// window.
proof fn lemma_clr_window(register_num: usize)
    requires
        register_num < 2,
    ensures
        GPIO_ADDRESS_BASE + CLR_BANK_OFFSET + register_num * REGISTER_STRIDE <= usize::MAX,
        ((GPIO_ADDRESS_BASE + CLR_BANK_OFFSET + register_num * REGISTER_STRIDE) as usize)
            & GPIO_ADDRESS_BASE == GPIO_ADDRESS_BASE,
{
    assert(((0x3F00_0000usize + 0x20_0028 + register_num * 8) as usize) & 0x3F00_0000usize
        == 0x3F00_0000usize) by (bit_vector)
        requires
            register_num < 2,
    ;
}

} // verus!
