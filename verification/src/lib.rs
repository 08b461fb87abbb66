/*! Byte-order conversion for composite data.

The [`Endian`] trait describes values whose byte order can be reversed, and
offers the four directed conversions between the hardware's native order and
big- or little-endian order. The trait is implemented here for the integer
primitives, `bool`, `char` and fixed-length arrays; the
[`derive`] function emits the source text of an `Endian` implementation for a
composite type from a description of its fields, so that the conversion of a
composite is the conversion of every field.

The contracts speak of the hardware's byte order through
[`vstd::endian::endianness()`], which fixes no particular order but is the
same order everywhere, so that converting to an order and back again is
proved to restore the original value.
!*/

use vstd::prelude::*;
use vstd::endian::endianness;

pub mod flip;
pub mod generate;
pub mod input;
mod arrays;
mod prims;

verus! {

/// True when the hardware stores the most significant byte first.
pub open spec fn host_big() -> bool {
    endianness() == vstd::endian::Endian::Big
}

/// Relies on `u16::from_ne_bytes` (std): it interprets the two bytes in the
/// hardware's native order, so `[1, 0]` reads as `0x0100` exactly on a
/// big-endian machine; `vstd::endian::endianness()` denotes that same native
/// order.
#[verifier::external_body]
fn host_is_big() -> (r: bool)
    ensures
        r == host_big(),
{
    u16::from_ne_bytes([1u8, 0u8]) == 0x0100
}

/// A value that can be converted between byte orders.
///
/// `swaps_to` is the reversal relation: `x.swaps_to(y)` holds when `y` is
/// `x` with the byte order of every component reversed. The relation is
/// symmetric and functional (each implementation proves both), so reversing
/// twice restores the original value. The four conversions either return the
/// value unchanged or its reversal, according to the hardware's byte order.
pub trait Endian: Sized {
    /// `other` is `self` with the byte order of every component reversed.
    spec fn swaps_to(self, other: Self) -> bool;

    /// The reversed form of `self` is representable. This fails only for
    /// `char`, whose reversed bit pattern may not be a valid scalar value.
    open spec fn swappable(self) -> bool {
        true
    }

    /// Reversal is symmetric: the reversal of the reversal is the original.
    proof fn lemma_swaps_to_symmetric(self, other: Self)
        requires
            self.swaps_to(other),
        ensures
            other.swaps_to(self),
            other.swappable(),
    ;

    /// Reversal is functional: a value has only one reversed form.
    proof fn lemma_swaps_to_functional(self, a: Self, b: Self)
        requires
            self.swaps_to(a),
            self.swaps_to(b),
        ensures
            a == b,
    ;

    /// Reverses the byte order of every component, whatever the hardware's
    /// own order is.
    fn byte_swap(self) -> (r: Self)
        requires
            self.swappable(),
        ensures
            self.swaps_to(r),
            r.swappable(),
    ;

    /// Converts from the hardware's byte order to big-endian order.
    fn to_be(self) -> (r: Self)
        requires
            self.swappable(),
        ensures
            host_big() ==> r == self,
            !host_big() ==> self.swaps_to(r),
            r.swappable(),
    {
        if host_is_big() {
            self
        } else {
            self.byte_swap()
        }
    }

    /// Converts from the hardware's byte order to little-endian order.
    fn to_le(self) -> (r: Self)
        requires
            self.swappable(),
        ensures
            !host_big() ==> r == self,
            host_big() ==> self.swaps_to(r),
            r.swappable(),
    {
        if host_is_big() {
            self.byte_swap()
        } else {
            self
        }
    }

    /// Converts from big-endian order to the hardware's byte order.
    fn from_be(self) -> (r: Self)
        requires
            self.swappable(),
        ensures
            host_big() ==> r == self,
            !host_big() ==> self.swaps_to(r),
            r.swappable(),
    {
        if host_is_big() {
            self
        } else {
            self.byte_swap()
        }
    }

    /// Converts from little-endian order to the hardware's byte order.
    fn from_le(self) -> (r: Self)
        requires
            self.swappable(),
        ensures
            !host_big() ==> r == self,
            host_big() ==> self.swaps_to(r),
            r.swappable(),
    {
        if host_is_big() {
            self.byte_swap()
        } else {
            self
        }
    }
}

/// What [`derive`] returns for a described type definition: the source text
/// of an `Endian` implementation that converts every field — named,
/// positional, or none — or every enumeration discriminant through its
/// `#[repr]` integer; or the reason none can be generated.
pub open spec fn derive_spec(d: input::TypeDef) -> Result<Seq<char>, generate::DeriveError> {
    match d.data {
        input::TypeData::Record(fields) => Ok(
            generate::struct_impl_text(
                d.name@,
                d.impl_generics@,
                d.ty_generics@,
                d.where_clause@,
                fields.deep_view(),
            ),
        ),
        input::TypeData::Tuple(n) => Ok(
            generate::struct_impl_text(
                d.name@,
                d.impl_generics@,
                d.ty_generics@,
                d.where_clause@,
                generate::index_names(n as nat),
            ),
        ),
        input::TypeData::Unit => Ok(
            generate::struct_impl_text(
                d.name@,
                d.impl_generics@,
                d.ty_generics@,
                d.where_clause@,
                Seq::empty(),
            ),
        ),
        input::TypeData::Enumeration(e) => generate::gen_enum_spec(
            d.name@,
            e.attrs@,
            e.unit_variants@,
        ),
        input::TypeData::Union => Err(generate::DeriveError::UnionType),
    }
}

/// Generates the source text of an `Endian` implementation for the
/// described type definition, or says why none can be generated.
///
/// A struct's implementation converts every field and rebuilds the struct;
/// an enumeration's converts the discriminant through the integer type its
/// `#[repr]` attribute names; a union is rejected.
pub fn derive(d: &input::TypeDef) -> (r: Result<String, generate::DeriveError>)
    ensures
        r is Ok <==> derive_spec(*d) is Ok,
        r is Ok ==> r->Ok_0@ == derive_spec(*d)->Ok_0,
        r is Err ==> r->Err_0 == derive_spec(*d)->Err_0,
{
    match &d.data {
        input::TypeData::Record(fields) => Ok(
            generate::gen_struct(
                &d.name,
                &d.impl_generics,
                &d.ty_generics,
                &d.where_clause,
                fields,
            ),
        ),
        input::TypeData::Tuple(n) => {
            let names = generate::make_index_names(*n);
            Ok(
                generate::gen_struct(
                    &d.name,
                    &d.impl_generics,
                    &d.ty_generics,
                    &d.where_clause,
                    &names,
                ),
            )
        },
        input::TypeData::Unit => {
            let names: Vec<String> = Vec::new();
            proof {
                assert(names.deep_view() =~= Seq::<Seq<char>>::empty());
            }
            Ok(
                generate::gen_struct(
                    &d.name,
                    &d.impl_generics,
                    &d.ty_generics,
                    &d.where_clause,
                    &names,
                ),
            )
        },
        input::TypeData::Enumeration(e) => generate::gen_enum(&d.name, &e.attrs, &e.unit_variants),
        input::TypeData::Union => Err(generate::DeriveError::UnionType),
    }
}

/// The two directed conversions of one order are mutual inverses: converting
/// to an order reverses the bytes or not according to the hardware, and
/// converting back undoes exactly that, so the round trip restores the
/// original value.
pub proof fn lemma_round_trip<T: Endian>(x: T, y: T, z: T)
    requires
        x.swaps_to(y),
        y.swaps_to(z),
    ensures
        z == x,
{
    x.lemma_swaps_to_symmetric(y);
    y.lemma_swaps_to_functional(z, x);
}

} // verus!

