use pi_gpio::controller::{Error, Gpio, PinFunction};
use pi_gpio::gpio::{
    bit_offset, clear_pin, clr_registers, fsel_address, fsel_registers, gpio_address_base,
    register_index, select_fn, set_pin, set_registers, BitSetting, ClrRegister, FselRegister,
    PinFn, SetRegister, CLR_BANK_OFFSET, FSEL_BANK_OFFSET, GPIO_ADDRESS_BASE, PIN_COUNT,
    SET_BANK_OFFSET,
};
use pi_gpio::register::{Register, RegisterSetting};
use pi_gpio::Pi;

fn nth_bit(x: u64, i: usize) -> bool {
    (x >> i) & 1 == 1
}

#[test]
fn pin_mapping_examples() {
    // With six pins per register and a 3-bit field, pin 7 lands in register
    // 1 at bit 3; pin 0 lands in register 0 at bit 0.
    assert_eq!(register_index(7, 6), 1);
    assert_eq!(bit_offset(7, 6, 3), 3);
    assert_eq!(register_index(0, 6), 0);
    assert_eq!(bit_offset(0, 6, 3), 0);
}

#[test]
fn pin_mapping_function_select_bank() {
    // Ten pins of 3 bits each per function-select register.
    assert_eq!(register_index(7, 10), 0);
    assert_eq!(bit_offset(7, 10, 3), 21);
    assert_eq!(register_index(58, 10), 5);
    assert_eq!(bit_offset(58, 10, 3), 24);
}

#[test]
fn distinct_pins_get_disjoint_fields() {
    // Pins 3 and 4 share function-select register 0; their 3-bit fields
    // must not overlap.
    assert_eq!(register_index(3, 10), register_index(4, 10));
    let o3 = bit_offset(3, 10, 3);
    let o4 = bit_offset(4, 10, 3);
    assert!(o3 + 3 <= o4 || o4 + 3 <= o3);
}

#[test]
fn select_fn_addresses() {
    assert_eq!(fsel_address(0), 0x3F20_0000);
    assert_eq!(fsel_address(7), 0x3F20_0000);
    assert_eq!(fsel_address(12), 0x3F20_0008);
    assert_eq!(fsel_address(58), 0x3F20_0028);
    let (addr, _) = select_fn(12, PinFn::Output, 0);
    assert_eq!(addr, 0x3F20_0008);
}

#[test]
fn select_fn_round_trip() {
    // After selecting Output for pin 7, the 3-bit field at its offset reads
    // back as Output's code.
    let pattern = 0xDEAD_BEEF_CAFE_F00Du64;
    let (_, value) = select_fn(7, PinFn::Output, pattern);
    assert_eq!((value >> 21) & 0b111, 0b001);
}

#[test]
fn select_fn_leaves_other_bits_unchanged() {
    // Simulated register memory: write a known pattern, perform the call,
    // and check every bit outside the pin's field against the pattern.
    let pattern = 0xDEAD_BEEF_CAFE_F00Du64;
    let (_, value) = select_fn(7, PinFn::AltFn3, pattern);
    for i in 0..64 {
        if i < 21 || i >= 24 {
            assert_eq!(nth_bit(value, i), nth_bit(pattern, i));
        }
    }
    assert_eq!((value >> 21) & 0b111, 0b111);
}

#[test]
fn select_fn_is_idempotent() {
    let pattern = 0x0123_4567_89AB_CDEFu64;
    let (_, once) = select_fn(23, PinFn::AltFn1, pattern);
    let (_, twice) = select_fn(23, PinFn::AltFn1, once);
    assert_eq!(twice, once);
}

#[test]
fn set_pin_writes_exactly_one_bit() {
    // The word presented to the set register has bit pin % 32 on and every
    // other bit zero: the hardware ignores zeros on this register.
    let (addr, value) = set_pin(7);
    assert_eq!(addr, 0x3F20_001C);
    assert_eq!(value, 1u64 << 7);
    assert_eq!(value.count_ones(), 1);

    let (addr, value) = set_pin(33);
    assert_eq!(addr, 0x3F20_0024);
    assert_eq!(value, 1u64 << 1);
    assert_eq!(value.count_ones(), 1);
}

#[test]
fn clear_pin_writes_exactly_one_bit() {
    let (addr, value) = clear_pin(7);
    assert_eq!(addr, 0x3F20_0028);
    assert_eq!(value, 1u64 << 7);
    assert_eq!(value.count_ones(), 1);

    let (addr, value) = clear_pin(58);
    assert_eq!(addr, 0x3F20_0030);
    assert_eq!(value, 1u64 << 26);
    assert_eq!(value.count_ones(), 1);
}

#[test]
fn select_function_rejects_out_of_range_pins() {
    let gpio = Gpio::new();
    assert!(matches!(
        gpio.select_function(PIN_COUNT, PinFunction::Output, 0),
        Err(Error::OutOfRange(_))
    ));
    assert!(matches!(
        gpio.select_function(PIN_COUNT + 1, PinFunction::Output, 0),
        Err(Error::OutOfRange(_))
    ));
    assert!(gpio.select_function(PIN_COUNT - 1, PinFunction::Output, 0).is_ok());
}

#[test]
fn select_function_computes_the_masked_write() {
    let gpio = Gpio::new();
    let pattern = 0xFFFF_FFFF_FFFF_FFFFu64;
    let (addr, value) = gpio.select_function(7, PinFunction::Input, pattern).unwrap();
    assert_eq!(addr, 0x3F20_0000);
    // Input's code is all-zero: exactly the three field bits go out.
    assert_eq!(value, !(0b111u64 << 21));
}

#[test]
fn select_function_is_idempotent() {
    let gpio = Gpio::new();
    let pattern = 0x0F0F_0F0F_0F0F_0F0Fu64;
    let (_, once) = gpio.select_function(11, PinFunction::AltFn5, pattern).unwrap();
    let (_, twice) = gpio.select_function(11, PinFunction::AltFn5, once).unwrap();
    assert_eq!(twice, once);
}

#[test]
fn pin_fn_codes() {
    assert_eq!(PinFn::Input.value(), 0b000);
    assert_eq!(PinFn::Output.value(), 0b001);
    assert_eq!(PinFn::AltFn0.value(), 0b100);
    assert_eq!(PinFn::AltFn1.value(), 0b101);
    assert_eq!(PinFn::AltFn2.value(), 0b110);
    assert_eq!(PinFn::AltFn3.value(), 0b111);
    assert_eq!(PinFn::AltFn4.value(), 0b011);
    assert_eq!(PinFn::AltFn5.value(), 0b010);
    assert_eq!(PinFn::Output.mask(), 0b111);
}

#[test]
fn pin_function_codes() {
    assert_eq!(PinFunction::Input.value(), 0b000);
    assert_eq!(PinFunction::Output.value(), 0b001);
    assert_eq!(PinFunction::AltFn0.value(), 0b100);
    assert_eq!(PinFunction::AltFn1.value(), 0b101);
    assert_eq!(PinFunction::AltFn2.value(), 0b110);
    assert_eq!(PinFunction::AltFn3.value(), 0b111);
    assert_eq!(PinFunction::AltFn4.value(), 0b011);
    assert_eq!(PinFunction::AltFn5.value(), 0b010);
    assert_eq!(PinFunction::AltFn2.mask(), 0b111);
}

#[test]
fn bit_setting_is_the_literal_one() {
    let s = BitSetting {};
    assert_eq!(s.value(), 0b1);
    assert_eq!(s.mask(), 0b1);
}

#[test]
fn bank_constants() {
    assert_eq!(gpio_address_base(), 0x3F00_0000);
    assert_eq!(GPIO_ADDRESS_BASE, 0x3F00_0000);
    assert_eq!(fsel_registers(), 6);
    assert_eq!(set_registers(), 2);
    assert_eq!(clr_registers(), 2);
    assert_eq!(FSEL_BANK_OFFSET, 0x20_0000);
    assert_eq!(SET_BANK_OFFSET, 0x20_001C);
    assert_eq!(CLR_BANK_OFFSET, 0x20_0028);
}

#[test]
fn register_handles_compute_their_addresses() {
    let fsel = FselRegister::new(gpio_address_base(), 3);
    assert_eq!(fsel.address(), 0x3F20_0018);
    assert_eq!(FselRegister::pins_per_register(), 10);
    assert_eq!(FselRegister::bank_offset(), 0x20_0000);

    let set = SetRegister::new(gpio_address_base(), 1);
    assert_eq!(set.address(), 0x3F20_0024);
    assert_eq!(SetRegister::pins_per_register(), 32);

    let clr = ClrRegister::new(gpio_address_base(), 0);
    assert_eq!(clr.address(), 0x3F20_0028);
    assert_eq!(ClrRegister::pins_per_register(), 32);

    assert_eq!(FselRegister::register_offset(2), 16);
}

#[test]
fn register_write_value_at_offset() {
    let fsel = FselRegister::new(gpio_address_base(), 0);
    let current = 0xFFu64;
    // Field of pin 1 (bits 3..6) becomes Output's code 0b001.
    let value = fsel.write_value_at_offset(current, PinFn::Output, 3);
    assert_eq!(value, 0b1100_1111);
}

#[test]
fn register_select_fn_shifts_by_field_width() {
    let fsel = FselRegister::new(gpio_address_base(), 0);
    let value = fsel.select_fn(2, PinFn::AltFn0, 0);
    assert_eq!(value, 0b100u64 << 6);
}

#[test]
fn set_and_clear_register_values() {
    let set = SetRegister::new(gpio_address_base(), 0);
    assert_eq!(set.set_pin(5), 1u64 << 5);
    let clr = ClrRegister::new(gpio_address_base(), 1);
    assert_eq!(clr.clear_pin(26), 1u64 << 26);
}

#[test]
fn pi_owns_a_working_controller() {
    let pi = Pi::new();
    let (addr, value) = pi.gpio.select_function(16, PinFunction::Output, 0).unwrap();
    assert_eq!(addr, 0x3F20_0008);
    assert_eq!(value, 0b001u64 << 18);
}
