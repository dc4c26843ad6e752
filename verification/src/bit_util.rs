//! Joining two 7-bit halves into a 14-bit value, and splitting one again.
use vstd::prelude::*;
use crate::numbers::{U14, U7};

verus! {

/// The 14-bit number whose upper seven bits are `high` and whose lower seven
/// bits are `low`.
pub open spec fn join_7_bit_halves(high: nat, low: nat) -> nat {
    high * 128 + low
}

/// The upper seven bits of a 14-bit number.
pub open spec fn high_7_bits(value: nat) -> nat {
    value / 128
}

/// The lower seven bits of a 14-bit number.
pub open spec fn low_7_bits(value: nat) -> nat {
    value % 128
}

/// Splitting a number and joining the halves gives the number back.
pub proof fn lemma_join_of_halves(value: nat)
    ensures
        join_7_bit_halves(high_7_bits(value), low_7_bits(value)) == value,
{
}

/// Puts `high` into bits 7 to 13 and `low` into bits 0 to 6.
pub fn build_14_bit_value_from_two_7_bit_values(high: U7, low: U7) -> (r: U14)
    ensures
        r@ == join_7_bit_halves(high@, low@),
{
    let h: u16 = high.get() as u16;
    let l: u16 = low.get() as u16;
    let joined: u16 = (h << 7) | l;
    assert(joined == h * 128 + l) by (bit_vector)
        requires
            h <= 127,
            l <= 127,
            joined == (h << 7) | l,
    ;
    U14::new(joined)
}

/// Bits 7 to 13 of `value`.
pub fn extract_high_7_bit_value_from_14_bit_value(value: U14) -> (r: U7)
    ensures
        r@ == high_7_bits(value@),
{
    let v: u16 = value.get();
    let high: u16 = v >> 7;
    assert(high == v / 128 && high <= 127) by (bit_vector)
        requires
            v <= 16383,
            high == v >> 7,
    ;
    U7::new(high as u8)
}

/// Bits 0 to 6 of `value`.
pub fn extract_low_7_bit_value_from_14_bit_value(value: U14) -> (r: U7)
    ensures
        r@ == low_7_bits(value@),
{
    let v: u16 = value.get();
    let low: u16 = v & 0x7f;
    assert(low == v % 128 && low <= 127) by (bit_vector)
        requires
            low == v & 0x7f,
    ;
    U7::new(low as u8)
}

} // verus!
