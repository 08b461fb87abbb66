//! A plain description of the type definition that an `Endian`
//! implementation is generated for.
//!
//! The code generator does not read compiler data structures; the caller
//! describes the type definition with the values here: its name, its
//! generics as source text, and the shape of its data — named fields,
//! positional fields, no fields at all, an enumeration with its attributes,
//! or a union.

use vstd::prelude::*;

verus! {

/// One attribute of a type definition, reduced to what the generator
/// reads: the last segment of its path and its parsed argument shape.
pub struct Attr {
    /// The last segment of the attribute's path, e.g. `repr`.
    pub name: String,
    /// The parsed arguments, or `None` when they could not be parsed.
    pub meta: Option<AttrMeta>,
}

/// The argument shape of an attribute.
pub enum AttrMeta {
    /// Parenthesised arguments, as in `#[repr(u8)]`.
    List(Vec<NestedItem>),
    /// A bare path or a name-value pair; the generator accepts neither.
    Other,
}

/// One argument inside a parenthesised attribute.
pub enum NestedItem {
    /// A path, as its segments.
    Path(Vec<String>),
    /// A literal; the generator accepts none.
    Other,
}

/// The data carried by a type definition.
pub enum TypeData {
    /// A struct with named fields, in declaration order.
    Record(Vec<String>),
    /// A struct with positional fields, as their number.
    Tuple(usize),
    /// A struct with no fields.
    Unit,
    /// An enumeration.
    Enumeration(EnumDef),
    /// A union; `Endian` cannot be derived for one.
    Union,
}

/// An enumeration: its attributes and, for each variant, whether the
/// variant carries no fields.
pub struct EnumDef {
    /// The attributes on the enumeration, in source order.
    pub attrs: Vec<Attr>,
    /// One entry per variant: `true` when the variant has no fields.
    pub unit_variants: Vec<bool>,
}

/// A type definition to generate an `Endian` implementation for.
pub struct TypeDef {
    /// The name of the type.
    pub name: String,
    /// The generics as they stand after `impl`, e.g. `<A: Endian>`;
    /// empty when the type has none.
    pub impl_generics: String,
    /// The generics as they stand after the type's name, e.g. `<A>`;
    /// empty when the type has none.
    pub ty_generics: String,
    /// The `where` clause, e.g. `where A: Endian`; empty when the type
    /// has none.
    pub where_clause: String,
    /// The shape of the type's data.
    pub data: TypeData,
}

} // verus!
