//! Byte reversal of the fixed-width integers.
//!
//! Each `*_flip` spec function states the reversal as a combination of
//! shifts and masks; the executable functions compute the same combination
//! and each reversal is proved to be an involution.

use vstd::prelude::*;

verus! {

/// `x` with its two bytes exchanged.
pub open spec fn u16_flip(x: u16) -> u16 {
    (x << 8) | (x >> 8)
}

/// `x` with its four bytes in reverse order.
pub open spec fn u32_flip(x: u32) -> u32 {
    (x << 24) | ((x & 0xff00) << 8) | ((x >> 8) & 0xff00) | (x >> 24)
}

/// `x` with its eight bytes in reverse order.
pub open spec fn u64_flip(x: u64) -> u64 {
    (x << 56) | ((x & 0xff00) << 40) | ((x & 0xff_0000) << 24) | ((x & 0xff00_0000) << 8)
        | ((x >> 8) & 0xff00_0000) | ((x >> 24) & 0xff_0000) | ((x >> 40) & 0xff00) | (x >> 56)
}

/// `x` with its sixteen bytes in reverse order.
pub open spec fn u128_flip(x: u128) -> u128 {
    ((u64_flip((x & 0xffff_ffff_ffff_ffff) as u64) as u128) << 64) | (u64_flip(
        (x >> 64) as u64,
    ) as u128)
}

pub proof fn lemma_u16_flip_involutes(x: u16)
    ensures
        u16_flip(u16_flip(x)) == x,
{
    assert(u16_flip(u16_flip(x)) == x) by (bit_vector);
}

pub proof fn lemma_u32_flip_involutes(x: u32)
    ensures
        u32_flip(u32_flip(x)) == x,
{
    assert(u32_flip(u32_flip(x)) == x) by (bit_vector);
}

pub proof fn lemma_u64_flip_involutes(x: u64)
    ensures
        u64_flip(u64_flip(x)) == x,
{
    assert(u64_flip(u64_flip(x)) == x) by (bit_vector);
}

pub proof fn lemma_u128_flip_involutes(x: u128)
    ensures
        u128_flip(u128_flip(x)) == x,
{
    assert(u128_flip(u128_flip(x)) == x) by (bit_vector);
}

/// Exchanges the two bytes of `x`.
pub fn u16_byte_swap(x: u16) -> (r: u16)
    ensures
        r == u16_flip(x),
{
    (x << 8u16) | (x >> 8u16)
}

/// Reverses the four bytes of `x`.
pub fn u32_byte_swap(x: u32) -> (r: u32)
    ensures
        r == u32_flip(x),
{
    (x << 24u32) | ((x & 0xff00) << 8u32) | ((x >> 8u32) & 0xff00) | (x >> 24u32)
}

/// Reverses the eight bytes of `x`.
pub fn u64_byte_swap(x: u64) -> (r: u64)
    ensures
        r == u64_flip(x),
{
    (x << 56u64) | ((x & 0xff00) << 40u64) | ((x & 0xff_0000) << 24u64) | ((x & 0xff00_0000)
        << 8u64) | ((x >> 8u64) & 0xff00_0000) | ((x >> 24u64) & 0xff_0000) | ((x >> 40u64)
        & 0xff00) | (x >> 56u64)
}

/// Reverses the sixteen bytes of `x`.
pub fn u128_byte_swap(x: u128) -> (r: u128)
    ensures
        r == u128_flip(x),
{
    let low: u64 = (x & 0xffff_ffff_ffff_ffff) as u64;
    let high: u64 = (x >> 64u128) as u64;
    ((u64_byte_swap(low) as u128) << 64u128) | (u64_byte_swap(high) as u128)
}

} // verus!
