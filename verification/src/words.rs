//! Numbers cut down to a shorter word.

#[allow(unused_imports)]
use vstd::prelude::*;

verus! {

/// The lowest 32 bits of a number.
pub open spec fn low_word(value: usize) -> u32 {
    (value as u64 % 0x1_0000_0000) as u32
}

/// The lowest 16 bits of a number.
pub open spec fn low_half(value: u64) -> u16 {
    (value % 0x1_0000) as u16
}

/// Returns the lowest 32 bits of a number.
pub(crate) fn to_low_word(value: usize) -> (word: u32)
    ensures
        word == low_word(value),
        word as nat == value as nat % 0x1_0000_0000,
{
    let wide: u64 = value as u64;
    assert(wide as u32 == wide % 0x1_0000_0000) by (bit_vector);
    wide as u32
}

/// Returns the lowest 16 bits of a number.
pub(crate) fn to_low_half(value: u64) -> (half: u16)
    ensures
        half == low_half(value),
        half as nat == value as nat % 0x1_0000,
{
    assert(value as u16 == value % 0x1_0000) by (bit_vector);
    value as u16
}

/// A number is cut down to 32 bits by leaving out multiples of 2^32, and a shorter one is kept.
pub proof fn law_low_word_is_the_remainder(value: usize)
    ensures
        low_word(value) as nat == value as nat % 0x1_0000_0000,
        value < 0x1_0000_0000 ==> low_word(value) == value,
        exists|n: nat| value as nat == #[trigger] (0x1_0000_0000 * n) + low_word(value),
{
    let n: nat = value as nat / 0x1_0000_0000;
    assert(value as nat == (0x1_0000_0000 * n) + low_word(value));
}

/// A number is cut down to 16 bits by leaving out multiples of 2^16, and a shorter one is kept; so
/// two different numbers below 2^16 stay different.
pub proof fn law_low_half_is_the_remainder(value: u64, other: u64)
    ensures
        low_half(value) as nat == value as nat % 0x1_0000,
        value < 0x1_0000 ==> low_half(value) == value,
        value < 0x1_0000 && other < 0x1_0000 && value != other ==> low_half(value) != low_half(
            other,
        ),
{
}

} // verus!
