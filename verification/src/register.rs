//! The register primitive: masked access to a sub-field of one
//! memory-mapped, word-sized hardware register.
//!
//! A register is identified by an absolute physical address; its contents are
//! never cached, so every operation is expressed as a function from the value
//! just read to the value that must be written back.

use vstd::prelude::*;

verus! {

/// Width of one hardware register, in bits.
pub const WORD_BITS: usize = 64;

/// Distance in bytes between consecutive registers of a bank: one register
/// word.
pub const REGISTER_STRIDE: usize = 8;

/// True iff bit `i` of `x` is set.
pub open spec fn nth_bit(x: u64, i: usize) -> bool {
    (x >> i) & 1 == 1
}

/// The value produced by the masked read-modify-write protocol: clear the
/// field bits `mask << offset` out of `current`, then or in the new field
/// value shifted into place.
pub open spec fn spec_write_field(current: u64, value: u64, mask: u64, offset: usize) -> u64 {
    (current & !(mask << offset)) | (value << offset)
}

/// A value that may be written into a register field, paired with the fixed
/// mask of the field it occupies.
pub trait RegisterSetting: Sized {
    /// The bit pattern this setting writes into its field.
    spec fn spec_value(&self) -> u64;

    /// The mask covering every bit the field owns, right-aligned.
    spec fn spec_mask(&self) -> u64;

    /// A setting never carries bits outside its own mask; a width violation
    /// is ruled out at the type level.
    proof fn setting_fits(&self)
        ensures
            self.spec_value() & !self.spec_mask() == 0,
    ;

    fn value(&self) -> (r: u64)
        ensures
            r == self.spec_value(),
    ;

    fn mask(&self) -> (r: u64)
        ensures
            r == self.spec_mask(),
    ;
}

/// A handle on one hardware register of a bank: an absolute address plus the
/// bank's fixed geometry.
pub trait Register: Sized {
    /// The absolute physical address this handle targets.
    spec fn spec_address(&self) -> usize;

    /// How many pins' fields fit in one register of this bank.
    spec fn spec_pins_per_register() -> usize;

    /// Byte offset from the peripheral base to the bank's first register.
    spec fn spec_bank_offset() -> usize;

    fn address(&self) -> (r: usize)
        ensures
            r == self.spec_address(),
    ;

    fn pins_per_register() -> (r: usize)
        ensures
            r == Self::spec_pins_per_register(),
    ;

    fn bank_offset() -> (r: usize)
        ensures
            r == Self::spec_bank_offset(),
    ;

    /// Byte offset of register `register_num` from the start of its bank.
    fn register_offset(register_num: usize) -> (r: usize)
        requires
            register_num * REGISTER_STRIDE <= usize::MAX,
        ensures
            r == register_num * REGISTER_STRIDE,
    {
        register_num * REGISTER_STRIDE
    }

    /// The read-modify-write step: given the value `current` just read from
    /// this register, produce the value to write back so that the field at
    /// `offset` holds `setting` and no other bit changes.
    fn write_value_at_offset<T: RegisterSetting>(&self, current: u64, setting: T, offset: usize) -> (r: u64)
        requires
            offset < WORD_BITS,
        ensures
            r == spec_write_field(current, setting.spec_value(), setting.spec_mask(), offset),
    {
        let mask = setting.mask() << offset;
        let cleared = current & !mask;
        let new_value = setting.value() << offset;
        cleared | new_value
    }
}

/// A masked field write changes nothing outside the field: every bit the
/// shifted mask does not cover reads back exactly as it was.
pub proof fn lemma_write_field_preserves_unmasked_bits(
    current: u64,
    value: u64,
    mask: u64,
    offset: usize,
    i: usize,
)
    requires
        value & !mask == 0,
        offset < WORD_BITS,
        i < WORD_BITS,
        !nth_bit(mask << offset, i),
    ensures
        nth_bit(spec_write_field(current, value, mask, offset), i) == nth_bit(current, i),
{
    assert(nth_bit((current & !(mask << offset)) | (value << offset), i) == nth_bit(current, i))
        by (bit_vector)
        requires
            value & !mask == 0,
            offset < 64,
            i < 64,
            !nth_bit(mask << offset, i),
    ;
}

/// Writing the same field value twice in a row leaves the register exactly
/// as one write does: the masked write is idempotent.
pub proof fn lemma_write_field_idempotent(current: u64, value: u64, mask: u64, offset: usize)
    requires
        offset < WORD_BITS,
    ensures
        spec_write_field(spec_write_field(current, value, mask, offset), value, mask, offset)
            == spec_write_field(current, value, mask, offset),
{
    assert((((current & !(mask << offset)) | (value << offset)) & !(mask << offset)) | (value
        << offset) == (current & !(mask << offset)) | (value << offset)) by (bit_vector);
}

/// Reading the field back out of the written register yields the value that
/// was written, provided the shift pushed no mask bit off the word.
pub proof fn lemma_write_field_round_trip(current: u64, value: u64, mask: u64, offset: usize)
    requires
        value & !mask == 0,
        offset < WORD_BITS,
        (mask << offset) >> offset == mask,
    ensures
        (spec_write_field(current, value, mask, offset) >> offset) & mask == value,
{
    assert((((current & !(mask << offset)) | (value << offset)) >> offset) & mask == value)
        by (bit_vector)
        requires
            value & !mask == 0,
            offset < 64,
            (mask << offset) >> offset == mask,
    ;
}

/// `1 << offset` has exactly one bit set: bit `offset` and no other.
pub proof fn lemma_single_bit(offset: usize, i: usize)
    requires
        offset < WORD_BITS,
        i < WORD_BITS,
    ensures
        nth_bit(1u64 << offset, i) <==> i == offset,
{
    assert(nth_bit(1u64 << offset, i) <==> i == offset) by (bit_vector)
        requires
            offset < 64,
            i < 64,
    ;
}

} // verus!
