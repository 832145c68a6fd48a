//! Reinterpretation of unsigned 64-bit values as signed ones and back.

use vstd::prelude::*;

verus! {

/// Two to the power of 64.
pub const TWO_64: u128 = 0x1_0000_0000_0000_0000;

/// The signed value with the same bits.
pub open spec fn signed(u: u64) -> i64 {
    if u <= i64::MAX {
        u as i64
    } else {
        (u - 0x1_0000_0000_0000_0000) as i64
    }
}

/// The unsigned value with the same bits.
pub open spec fn unsigned(i: i64) -> u64 {
    if i >= 0 {
        i as u64
    } else {
        (i + 0x1_0000_0000_0000_0000) as u64
    }
}

pub fn cast_signed(u: u64) -> (r: i64)
    ensures
        r == signed(u),
{
    if u <= 0x7fff_ffff_ffff_ffff {
        u as i64
    } else {
        (u as i128 - 0x1_0000_0000_0000_0000) as i64
    }
}

pub fn cast_unsigned(i: i64) -> (r: u64)
    ensures
        r == unsigned(i),
{
    if i >= 0 {
        i as u64
    } else {
        (i as i128 + 0x1_0000_0000_0000_0000) as u64
    }
}

/// Reinterpreting there and back changes nothing.
pub proof fn law_casts_round_trip(u: u64, i: i64)
    ensures
        unsigned(signed(u)) == u,
        signed(unsigned(i)) == i,
{
}

} // verus!
