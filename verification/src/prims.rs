//! `Endian` on the primitive types.
//!
//! A single byte has no order, so `u8`, `i8` and `bool` reverse to
//! themselves. The wider integers reverse through the `flip` module, the
//! signed ones through their unsigned bit pattern. `char` reverses through
//! `u32`, but only where the reversed bit pattern is again a valid scalar
//! value, since a `char` cannot hold anything else.

use vstd::prelude::*;
use vstd::utf8::is_scalar;
use vstd::utf8::char_is_scalar;
use vstd::utf8::char_u32_cast;

use crate::Endian;
use crate::flip::u16_flip;
use crate::flip::u32_flip;
use crate::flip::u64_flip;
use crate::flip::u128_flip;
use crate::flip::u16_byte_swap;
use crate::flip::u32_byte_swap;
use crate::flip::u64_byte_swap;
use crate::flip::u128_byte_swap;
use crate::flip::lemma_u16_flip_involutes;
use crate::flip::lemma_u32_flip_involutes;
use crate::flip::lemma_u64_flip_involutes;
use crate::flip::lemma_u128_flip_involutes;

verus! {

impl Endian for u8 {
    open spec fn swaps_to(self, other: Self) -> bool {
        other == self
    }

    proof fn lemma_swaps_to_symmetric(self, other: Self) {
    }

    proof fn lemma_swaps_to_functional(self, a: Self, b: Self) {
    }

    fn byte_swap(self) -> (r: Self) {
        self
    }
}

impl Endian for i8 {
    open spec fn swaps_to(self, other: Self) -> bool {
        other == self
    }

    proof fn lemma_swaps_to_symmetric(self, other: Self) {
    }

    proof fn lemma_swaps_to_functional(self, a: Self, b: Self) {
    }

    fn byte_swap(self) -> (r: Self) {
        self
    }
}

impl Endian for bool {
    open spec fn swaps_to(self, other: Self) -> bool {
        other == self
    }

    proof fn lemma_swaps_to_symmetric(self, other: Self) {
    }

    proof fn lemma_swaps_to_functional(self, a: Self, b: Self) {
    }

    fn byte_swap(self) -> (r: Self) {
        self
    }
}

impl Endian for u16 {
    open spec fn swaps_to(self, other: Self) -> bool {
        other == u16_flip(self)
    }

    proof fn lemma_swaps_to_symmetric(self, other: Self) {
        lemma_u16_flip_involutes(self);
    }

    proof fn lemma_swaps_to_functional(self, a: Self, b: Self) {
    }

    fn byte_swap(self) -> (r: Self) {
        u16_byte_swap(self)
    }
}

impl Endian for u32 {
    open spec fn swaps_to(self, other: Self) -> bool {
        other == u32_flip(self)
    }

    proof fn lemma_swaps_to_symmetric(self, other: Self) {
        lemma_u32_flip_involutes(self);
    }

    proof fn lemma_swaps_to_functional(self, a: Self, b: Self) {
    }

    fn byte_swap(self) -> (r: Self) {
        u32_byte_swap(self)
    }
}

impl Endian for u64 {
    open spec fn swaps_to(self, other: Self) -> bool {
        other == u64_flip(self)
    }

    proof fn lemma_swaps_to_symmetric(self, other: Self) {
        lemma_u64_flip_involutes(self);
    }

    proof fn lemma_swaps_to_functional(self, a: Self, b: Self) {
    }

    fn byte_swap(self) -> (r: Self) {
        u64_byte_swap(self)
    }
}

impl Endian for u128 {
    open spec fn swaps_to(self, other: Self) -> bool {
        other == u128_flip(self)
    }

    proof fn lemma_swaps_to_symmetric(self, other: Self) {
        lemma_u128_flip_involutes(self);
    }

    proof fn lemma_swaps_to_functional(self, a: Self, b: Self) {
    }

    fn byte_swap(self) -> (r: Self) {
        u128_byte_swap(self)
    }
}

impl Endian for i16 {
    open spec fn swaps_to(self, other: Self) -> bool {
        other == u16_flip(self as u16) as i16
    }

    proof fn lemma_swaps_to_symmetric(self, other: Self) {
        assert(u16_flip((u16_flip(self as u16) as i16) as u16) as i16 == self) by (bit_vector);
    }

    proof fn lemma_swaps_to_functional(self, a: Self, b: Self) {
    }

    fn byte_swap(self) -> (r: Self) {
        u16_byte_swap(self as u16) as i16
    }
}

impl Endian for i32 {
    open spec fn swaps_to(self, other: Self) -> bool {
        other == u32_flip(self as u32) as i32
    }

    proof fn lemma_swaps_to_symmetric(self, other: Self) {
        assert(u32_flip((u32_flip(self as u32) as i32) as u32) as i32 == self) by (bit_vector);
    }

    proof fn lemma_swaps_to_functional(self, a: Self, b: Self) {
    }

    fn byte_swap(self) -> (r: Self) {
        u32_byte_swap(self as u32) as i32
    }
}

impl Endian for i64 {
    open spec fn swaps_to(self, other: Self) -> bool {
        other == u64_flip(self as u64) as i64
    }

    proof fn lemma_swaps_to_symmetric(self, other: Self) {
        assert(u64_flip((u64_flip(self as u64) as i64) as u64) as i64 == self) by (bit_vector);
    }

    proof fn lemma_swaps_to_functional(self, a: Self, b: Self) {
    }

    fn byte_swap(self) -> (r: Self) {
        u64_byte_swap(self as u64) as i64
    }
}

impl Endian for i128 {
    open spec fn swaps_to(self, other: Self) -> bool {
        other == u128_flip(self as u128) as i128
    }

    proof fn lemma_swaps_to_symmetric(self, other: Self) {
        assert(u128_flip((u128_flip(self as u128) as i128) as u128) as i128 == self)
            by (bit_vector);
    }

    proof fn lemma_swaps_to_functional(self, a: Self, b: Self) {
    }

    fn byte_swap(self) -> (r: Self) {
        u128_byte_swap(self as u128) as i128
    }
}

/// Relies on `char::from_u32` (std): it returns `Some` exactly when the
/// value is a Unicode scalar value, and then the returned `char` has that
/// value.
pub assume_specification[ char::from_u32 ](v: u32) -> (r: Option<char>)
    ensures
        r is Some <==> is_scalar(v),
        r is Some ==> (r->0 as u32) == v,
;

impl Endian for char {
    open spec fn swaps_to(self, other: Self) -> bool {
        (other as u32) == u32_flip(self as u32)
    }

    /// The reversed bit pattern of a `char` is representable only when it
    /// is itself a Unicode scalar value.
    open spec fn swappable(self) -> bool {
        is_scalar(u32_flip(self as u32))
    }

    proof fn lemma_swaps_to_symmetric(self, other: Self) {
        lemma_u32_flip_involutes(self as u32);
        char_is_scalar(self);
    }

    proof fn lemma_swaps_to_functional(self, a: Self, b: Self) {
        char_u32_cast(a, a as u32);
        char_u32_cast(b, b as u32);
    }

    fn byte_swap(self) -> (r: Self) {
        let flipped: u32 = u32_byte_swap(self as u32);
        proof {
            lemma_u32_flip_involutes(self as u32);
            char_is_scalar(self);
        }
        match char::from_u32(flipped) {
            Some(c) => c,
            None => vstd::pervasive::unreached(),
        }
    }
}

} // verus!
