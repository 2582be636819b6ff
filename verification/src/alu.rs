//! The arithmetic of the machine's 8-bit registers: each operation yields the
//! flag that goes into the flag register and the value that goes into the
//! target register.

use vstd::prelude::*;
use crate::model::bit;

verus! {

/// `a + b` modulo 256, flagged 1 if the sum did not fit into 8 bits.
pub fn add_with_carry(a: u8, b: u8) -> (r: (u8, u8))
    ensures
        r.0 == bit(a + b >= 256),
        r.1 == (a + b) % 256,
{
    let sum = a.wrapping_add(b);
    if sum < a {
        (1, sum)
    } else {
        (0, sum)
    }
}

/// `a - b` modulo 256, flagged 1 if `a` is above `b`.
pub fn subtract_with_flag(a: u8, b: u8) -> (r: (u8, u8))
    ensures
        r.0 == bit(a > b),
        r.1 == (a - b) % 256,
{
    let difference = a.wrapping_sub(b);
    if a > b {
        (1, difference)
    } else {
        (0, difference)
    }
}

/// `v` shifted right by one bit, flagged with the bit shifted out.
pub fn shift_right(v: u8) -> (r: (u8, u8))
    ensures
        r.0 == v % 2,
        r.1 == v / 2,
{
    assert(v & 1 == v % 2 && v >> 1 == v / 2) by (bit_vector);
    (v & 1, v >> 1)
}

/// `v` shifted left by one bit within 8 bits, flagged with the bit shifted
/// out.
pub fn shift_left(v: u8) -> (r: (u8, u8))
    ensures
        r.0 == v / 128,
        r.1 == (v * 2) % 256,
{
    assert(v >> 7 == v / 128 && v << 1 == (v * 2) % 256) by (bit_vector);
    (v >> 7, v << 1)
}

} // verus!
