//! Register fields as arithmetic: what the masks and shifts of the executable
//! code mean as quotients and remainders.

use vstd::prelude::*;

verus! {

/// The fields of an 8-bit register.
pub proof fn lemma_byte_fields(value: u8)
    by (bit_vector)
    ensures
        value & 0x03 == value % 4,
        value & 0x07 == value % 8,
        value & 0x0F == value % 16,
        value & 0x1F == value % 32,
        value >> 4 == value / 16,
        (value & 0x01 != 0) == (value % 2 == 1),
        (value & 0x02 != 0) == (value / 2 % 2 == 1),
        (value & 0x40 != 0) == (value / 64 % 2 == 1),
        (value & 0x80 != 0) == (value >= 0x80),
{
}

/// Replacing the low byte of a 12-bit frequency.
pub proof fn lemma_frequency_low(frequency: u16, value: u8)
    by (bit_vector)
    requires
        frequency < 0x1000,
    ensures
        (frequency & 0x0F00) | (value as u16) == (frequency / 256) * 256 + value,
        (frequency & 0x0F00) | (value as u16) < 0x1000,
{
}

/// Replacing the high nibble of a 12-bit frequency.
pub proof fn lemma_frequency_high(frequency: u16, value: u8)
    by (bit_vector)
    ensures
        (frequency & 0x00FF) | (((value & 0x0F) as u16) << 8) == frequency % 256 + (value % 16)
            * 256,
        (frequency & 0x00FF) | (((value & 0x0F) as u16) << 8) < 0x1000,
{
}

/// The 13-bit timer period from its two registers.
pub proof fn lemma_timer_period(low: u8, high: u8)
    by (bit_vector)
    ensures
        (((high & 0x1F) as u16) << 8) | (low as u16) == (high % 32) * 256 + low,
{
}

/// Splitting a fixed-point accumulator into whole steps and remainder.
pub proof fn lemma_accumulator_split(acc: u32)
    by (bit_vector)
    ensures
        acc >> 12 == acc / 0x1000,
        acc & 0x0FFF == acc % 0x1000,
        acc >> 16 == acc / 0x1_0000,
        acc & 0xFFFF == acc % 0x1_0000,
{
}

/// Dropping the 16 fractional bits of a signed mix rounds toward minus
/// infinity.
pub proof fn lemma_drop_fraction(value: i64)
    by (bit_vector)
    ensures
        value >> 16 == value / 0x1_0000,
{
}

} // verus!
