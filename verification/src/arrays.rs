//! `Endian` on fixed-length arrays.
//!
//! An array reverses elementwise: each element is replaced by its own
//! reversal and the element order is preserved.

use vstd::prelude::*;
use vstd::array::group_array_axioms;

use crate::Endian;

verus! {

broadcast use group_array_axioms;

/// Relies on `<[T; N]>::map` (std): it applies the closure to each element
/// in order and returns an array of the results in the same order; the
/// closure only calls the verified `byte_swap`.
#[verifier::external_body]
fn array_byte_swap<T: Endian, const N: usize>(a: [T; N]) -> (r: [T; N])
    requires
        forall|i: int| 0 <= i < N ==> a@[i].swappable(),
    ensures
        forall|i: int| 0 <= i < N ==> a@[i].swaps_to(#[trigger] r@[i]),
{
    a.map(|x| x.byte_swap())
}

impl<T: Endian, const N: usize> Endian for [T; N] {
    /// Elementwise reversal, element order preserved.
    open spec fn swaps_to(self, other: Self) -> bool {
        forall|i: int| 0 <= i < N ==> self@[i].swaps_to(#[trigger] other@[i])
    }

    open spec fn swappable(self) -> bool {
        forall|i: int| 0 <= i < N ==> (#[trigger] self@[i]).swappable()
    }

    proof fn lemma_swaps_to_symmetric(self, other: Self) {
        assert forall|i: int| 0 <= i < N implies other@[i].swaps_to(#[trigger] self@[i])
            && other@[i].swappable() by {
            self@[i].lemma_swaps_to_symmetric(other@[i]);
        }
    }

    proof fn lemma_swaps_to_functional(self, a: Self, b: Self) {
        assert forall|i: int| 0 <= i < N implies a@[i] == #[trigger] b@[i] by {
            self@[i].lemma_swaps_to_functional(a@[i], b@[i]);
        }
        assert(a =~= b);
    }

    fn byte_swap(self) -> (r: Self) {
        let r = array_byte_swap(self);
        proof {
            self.lemma_swaps_to_symmetric(r);
        }
        r
    }
}

} // verus!
