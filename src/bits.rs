use vstd::prelude::*;

verus! {

/// Left rotation of a 128-bit word by `n` bits, `n < 128`.
pub open spec fn rotl128(x: u128, n: u32) -> u128 {
    if n == 0 {
        x
    } else {
        (x << n) | (x >> ((128 - n) as u32))
    }
}

/// Right rotation of a 64-bit word by `n` bits, `n < 64`.
pub open spec fn rotr64(x: u64, n: u32) -> u64 {
    if n == 0 {
        x
    } else {
        (x >> n) | (x << ((64 - n) as u32))
    }
}

/// Left rotation of a byte by `n` bits, `n < 8`.
pub open spec fn rotl8(x: u8, n: u32) -> u8 {
    if n == 0 {
        x
    } else {
        (x << n) | (x >> ((8 - n) as u32))
    }
}

pub fn rotate_left_u128(x: u128, n: u32) -> (r: u128)
    requires
        n < 128,
    ensures
        r == rotl128(x, n),
{
    if n == 0 {
        x
    } else {
        (x << n) | (x >> (128 - n))
    }
}

pub fn rotate_right_u64(x: u64, n: u32) -> (r: u64)
    requires
        n < 64,
    ensures
        r == rotr64(x, n),
{
    if n == 0 {
        x
    } else {
        (x >> n) | (x << (64 - n))
    }
}

pub fn rotate_left_u8(x: u8, n: u32) -> (r: u8)
    requires
        n < 8,
    ensures
        r == rotl8(x, n),
{
    if n == 0 {
        x
    } else {
        (x << n) | (x >> (8 - n))
    }
}

} // verus!
