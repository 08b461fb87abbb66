//! Generation of `Endian` implementations as source text.
//!
//! A struct's implementation converts every field and rebuilds the struct;
//! an enumeration's implementation reinterprets the discriminant as the
//! integer type named by its `#[repr]` attribute, converts that, and
//! reinterprets back — the generated text carries that reinterpretation,
//! and its caller is expected to revalidate the bit pattern before using
//! the value as the enumeration again. The generator itself only decides
//! and concatenates: every accepted input and every rejection is stated
//! exactly by the `*_spec` functions here.

use vstd::prelude::*;

use crate::input::Attr;
use crate::input::AttrMeta;
use crate::input::NestedItem;

verus! {

/// Why no implementation can be generated for a type definition.
#[derive(Clone, Copy, Debug, PartialEq, Eq)]
pub enum DeriveError {
    /// The definition is a union.
    UnionType,
    /// The enumeration has no `#[repr]` attribute.
    MissingRepr,
    /// The `#[repr]` attribute's arguments could not be parsed.
    UnparseableAttr,
    /// The `#[repr]` attribute is not a parenthesised list.
    ReprNotList,
    /// The `#[repr()]` list is empty.
    EmptyRepr,
    /// The first `#[repr(..)]` argument is not a path.
    ReprNotPath,
    /// The first `#[repr(..)]` argument is a path with no segments.
    EmptyReprPath,
    /// The representation is `C` or `packed`, which name no integer.
    SymbolRepr,
    /// A variant of the enumeration carries fields.
    DataVariants,
    /// The representation is not a Rust fundamental integer type.
    NonIntegerRepr,
}

/// The message that describes a [`DeriveError`].
pub open spec fn message_spec(e: DeriveError) -> Seq<char> {
    match e {
        DeriveError::UnionType => "Rust does not currently permit `#[derive(Trait)]` attributes on `union` types"@,
        DeriveError::MissingRepr => "`#[derive(Endian)]` requires a `#[repr]` of `C` or some integer for enums"@,
        DeriveError::UnparseableAttr => "the `#[repr]` attribute could not be parsed"@,
        DeriveError::ReprNotList => "`#[repr(_)]` attributes must only contain `C` or an integer type"@,
        DeriveError::EmptyRepr => "`#[repr(_)]` attributes must contain `C` or an integer type"@,
        DeriveError::ReprNotPath => "Invalid contents of `#[repr()]`"@,
        DeriveError::EmptyReprPath => "`#[repr()]` attributes must contain a representation type"@,
        DeriveError::SymbolRepr => "`#[repr(C)]` and `#[repr(packed)]` enums cannot currently implement `Endian`"@,
        DeriveError::DataVariants => "`Endian` cannot be derived on enums with data fields"@,
        DeriveError::NonIntegerRepr => "`#[repr(T)]` must have `T` be one of the Rust fundamental integer types"@,
    }
}

/// The message that describes a [`DeriveError`].
pub fn message(e: &DeriveError) -> (s: String)
    ensures
        s@ == message_spec(*e),
{
    match e {
        DeriveError::UnionType => String::from_str(
            "Rust does not currently permit `#[derive(Trait)]` attributes on `union` types",
        ),
        DeriveError::MissingRepr => String::from_str(
            "`#[derive(Endian)]` requires a `#[repr]` of `C` or some integer for enums",
        ),
        DeriveError::UnparseableAttr => String::from_str(
            "the `#[repr]` attribute could not be parsed",
        ),
        DeriveError::ReprNotList => String::from_str(
            "`#[repr(_)]` attributes must only contain `C` or an integer type",
        ),
        DeriveError::EmptyRepr => String::from_str(
            "`#[repr(_)]` attributes must contain `C` or an integer type",
        ),
        DeriveError::ReprNotPath => String::from_str("Invalid contents of `#[repr()]`"),
        DeriveError::EmptyReprPath => String::from_str(
            "`#[repr()]` attributes must contain a representation type",
        ),
        DeriveError::SymbolRepr => String::from_str(
            "`#[repr(C)]` and `#[repr(packed)]` enums cannot currently implement `Endian`",
        ),
        DeriveError::DataVariants => String::from_str(
            "`Endian` cannot be derived on enums with data fields",
        ),
        DeriveError::NonIntegerRepr => String::from_str(
            "`#[repr(T)]` must have `T` be one of the Rust fundamental integer types",
        ),
    }
}

/// True when `kind` names a Rust fundamental integer type.
pub open spec fn is_int_repr(kind: Seq<char>) -> bool {
    ||| kind == "i8"@
    ||| kind == "i16"@
    ||| kind == "i32"@
    ||| kind == "i64"@
    ||| kind == "i128"@
    ||| kind == "u8"@
    ||| kind == "u16"@
    ||| kind == "u32"@
    ||| kind == "u64"@
    ||| kind == "u128"@
}

fn is_int_repr_word(kind: &String) -> (r: bool)
    ensures
        r == is_int_repr(kind@),
{
    *kind == String::from_str("i8") || *kind == String::from_str("i16") || *kind == String::from_str(
        "i32",
    ) || *kind == String::from_str("i64") || *kind == String::from_str("i128") || *kind
        == String::from_str("u8") || *kind == String::from_str("u16") || *kind == String::from_str(
        "u32",
    ) || *kind == String::from_str("u64") || *kind == String::from_str("u128")
}

/// The trait's ghost items, which a generated implementation must name for
/// the compiler although they are erased and never called at run time.
pub open spec fn ghost_stub_text() -> Seq<char> {
    "    fn swaps_to(self, _: Self) -> bool { unreachable!() }\n    fn lemma_swaps_to_symmetric(self, _: Self) {}\n    fn lemma_swaps_to_functional(self, _: Self, _: Self) {}\n"@
}

fn push_ghost_stubs(out: &mut String)
    ensures
        final(out)@ == old(out)@ + ghost_stub_text(),
{
    out.append(
        "    fn swaps_to(self, _: Self) -> bool { unreachable!() }\n    fn lemma_swaps_to_symmetric(self, _: Self) {}\n    fn lemma_swaps_to_functional(self, _: Self, _: Self) {}\n",
    );
}

/// One method of a generated enumeration implementation: the discriminant
/// is reinterpreted as the `#[repr]` integer, converted, and written back.
pub open spec fn enum_method_text(m: Seq<char>, kind: Seq<char>) -> Seq<char> {
    "    fn "@ + m + "(mut self) -> Self {\n        let ptr = &mut self as *mut Self as *mut "@
        + kind + ";\n        unsafe { ptr.write(Endian::"@ + m
        + "(ptr.read())); }\n        self\n    }\n"@
}

/// A generated enumeration implementation.
pub open spec fn enum_impl_text(name: Seq<char>, kind: Seq<char>) -> Seq<char> {
    "impl Endian for "@ + name + " {\n"@ + ghost_stub_text() + enum_method_text("from_be"@, kind) + enum_method_text(
        "from_le"@,
        kind,
    ) + enum_method_text("to_be"@, kind) + enum_method_text("to_le"@, kind) + enum_method_text(
        "byte_swap"@,
        kind,
    ) + "}\n"@
}

fn push_enum_method(out: &mut String, m: &str, kind: &String)
    ensures
        final(out)@ == old(out)@ + enum_method_text(m@, kind@),
{
    out.append("    fn ");
    out.append(m);
    out.append("(mut self) -> Self {\n        let ptr = &mut self as *mut Self as *mut ");
    out.append(kind.as_str());
    out.append(";\n        unsafe { ptr.write(Endian::");
    out.append(m);
    out.append("(ptr.read())); }\n        self\n    }\n");
    proof {
        assert(out@ =~= old(out)@ + enum_method_text(m@, kind@));
    }
}

fn enum_impl(name: &String, kind: &String) -> (s: String)
    ensures
        s@ == enum_impl_text(name@, kind@),
{
    let mut out = String::from_str("impl Endian for ");
    out.append(name.as_str());
    out.append(" {\n");
    push_ghost_stubs(&mut out);
    push_enum_method(&mut out, "from_be", kind);
    push_enum_method(&mut out, "from_le", kind);
    push_enum_method(&mut out, "to_be", kind);
    push_enum_method(&mut out, "to_le", kind);
    push_enum_method(&mut out, "byte_swap", kind);
    out.append("}\n");
    proof {
        assert(out@ =~= enum_impl_text(name@, kind@));
    }
    out
}

/// True when every variant of the enumeration carries no fields.
pub open spec fn all_unit_variants(units: Seq<bool>) -> bool {
    forall|i: int| 0 <= i < units.len() ==> units[i]
}

fn all_unit(units: &Vec<bool>) -> (r: bool)
    ensures
        r == all_unit_variants(units@),
{
    let mut i: usize = 0;
    while i < units.len()
        invariant
            i <= units.len(),
            forall|j: int| 0 <= j < i ==> units@[j],
        decreases units.len() - i,
    {
        if !units[i] {
            return false;
        }
        i = i + 1;
    }
    true
}

/// What the generator decides once the representation's name is known:
/// `C` and `packed` name no integer; an integer representation is accepted
/// when every variant is bare; anything else is no representation at all.
pub open spec fn from_kind_spec(name: Seq<char>, kind: Seq<char>, units: Seq<bool>) -> Result<
    Seq<char>,
    DeriveError,
> {
    if kind == "C"@ || kind == "packed"@ {
        Err(DeriveError::SymbolRepr)
    } else if is_int_repr(kind) {
        if all_unit_variants(units) {
            Ok(enum_impl_text(name, kind))
        } else {
            Err(DeriveError::DataVariants)
        }
    } else {
        Err(DeriveError::NonIntegerRepr)
    }
}

fn from_kind(name: &String, kind: &String, units: &Vec<bool>) -> (r: Result<String, DeriveError>)
    ensures
        r is Ok <==> from_kind_spec(name@, kind@, units@) is Ok,
        r is Ok ==> r->Ok_0@ == from_kind_spec(name@, kind@, units@)->Ok_0,
        r is Err ==> r->Err_0 == from_kind_spec(name@, kind@, units@)->Err_0,
{
    if *kind == String::from_str("C") || *kind == String::from_str("packed") {
        Err(DeriveError::SymbolRepr)
    } else if is_int_repr_word(kind) {
        if all_unit(units) {
            Ok(enum_impl(name, kind))
        } else {
            Err(DeriveError::DataVariants)
        }
    } else {
        Err(DeriveError::NonIntegerRepr)
    }
}

/// What the generator decides for the `#[repr]` attribute it found: the
/// attribute must parse, must be a parenthesised list, and its first
/// argument must be a path; the path's last segment names the
/// representation.
pub open spec fn from_repr_attr_spec(name: Seq<char>, attr: Attr, units: Seq<bool>) -> Result<
    Seq<char>,
    DeriveError,
> {
    match attr.meta {
        Option::None => Err(DeriveError::UnparseableAttr),
        Option::Some(AttrMeta::Other) => Err(DeriveError::ReprNotList),
        Option::Some(AttrMeta::List(items)) => {
            if items@.len() == 0 {
                Err(DeriveError::EmptyRepr)
            } else {
                match items@[0] {
                    NestedItem::Other => Err(DeriveError::ReprNotPath),
                    NestedItem::Path(segs) => {
                        if segs@.len() == 0 {
                            Err(DeriveError::EmptyReprPath)
                        } else {
                            from_kind_spec(name, segs@.last()@, units)
                        }
                    },
                }
            }
        },
    }
}

fn from_repr_attr(name: &String, attr: &Attr, units: &Vec<bool>) -> (r: Result<
    String,
    DeriveError,
>)
    ensures
        r is Ok <==> from_repr_attr_spec(name@, *attr, units@) is Ok,
        r is Ok ==> r->Ok_0@ == from_repr_attr_spec(name@, *attr, units@)->Ok_0,
        r is Err ==> r->Err_0 == from_repr_attr_spec(name@, *attr, units@)->Err_0,
{
    match &attr.meta {
        Option::None => Err(DeriveError::UnparseableAttr),
        Option::Some(AttrMeta::Other) => Err(DeriveError::ReprNotList),
        Option::Some(AttrMeta::List(items)) => {
            if items.len() == 0 {
                Err(DeriveError::EmptyRepr)
            } else {
                match &items[0] {
                    NestedItem::Other => Err(DeriveError::ReprNotPath),
                    NestedItem::Path(segs) => {
                        if segs.len() == 0 {
                            Err(DeriveError::EmptyReprPath)
                        } else {
                            from_kind(name, &segs[segs.len() - 1], units)
                        }
                    },
                }
            }
        },
    }
}

/// What the generator decides for an enumeration: the first attribute
/// whose name is `repr` describes the representation; without one there
/// is nothing to reinterpret the discriminant as.
pub open spec fn gen_enum_spec(name: Seq<char>, attrs: Seq<Attr>, units: Seq<bool>) -> Result<
    Seq<char>,
    DeriveError,
>
    decreases attrs.len(),
{
    if attrs.len() == 0 {
        Err(DeriveError::MissingRepr)
    } else if attrs[0].name@ == "repr"@ {
        from_repr_attr_spec(name, attrs[0], units)
    } else {
        gen_enum_spec(name, attrs.drop_first(), units)
    }
}

fn gen_enum_from(name: &String, attrs: &Vec<Attr>, i: usize, units: &Vec<bool>) -> (r: Result<
    String,
    DeriveError,
>)
    requires
        i <= attrs@.len(),
    ensures
        r is Ok <==> gen_enum_spec(name@, attrs@.skip(i as int), units@) is Ok,
        r is Ok ==> r->Ok_0@ == gen_enum_spec(name@, attrs@.skip(i as int), units@)->Ok_0,
        r is Err ==> r->Err_0 == gen_enum_spec(name@, attrs@.skip(i as int), units@)->Err_0,
    decreases attrs@.len() - i,
{
    if i == attrs.len() {
        Err(DeriveError::MissingRepr)
    } else if attrs[i].name == String::from_str("repr") {
        from_repr_attr(name, &attrs[i], units)
    } else {
        let r = gen_enum_from(name, attrs, i + 1, units);
        proof {
            assert(attrs@.skip(i as int).drop_first() =~= attrs@.skip(i + 1 as int));
        }
        r
    }
}

/// The decimal digit `d` as a character.
pub open spec fn digit_char(d: nat) -> char {
    if d == 0 {
        '0'
    } else if d == 1 {
        '1'
    } else if d == 2 {
        '2'
    } else if d == 3 {
        '3'
    } else if d == 4 {
        '4'
    } else if d == 5 {
        '5'
    } else if d == 6 {
        '6'
    } else if d == 7 {
        '7'
    } else if d == 8 {
        '8'
    } else {
        '9'
    }
}

/// `n` written in decimal, without a sign and without leading zeros.
pub open spec fn spec_decimal(n: nat) -> Seq<char>
    decreases n,
{
    if n < 10 {
        seq![digit_char(n)]
    } else {
        spec_decimal(n / 10) + seq![digit_char(n % 10)]
    }
}

fn digit_str(d: usize) -> (s: &'static str)
    requires
        d < 10,
    ensures
        s@ == seq![digit_char(d as nat)],
{
    proof {
        reveal_strlit("0");
        reveal_strlit("1");
        reveal_strlit("2");
        reveal_strlit("3");
        reveal_strlit("4");
        reveal_strlit("5");
        reveal_strlit("6");
        reveal_strlit("7");
        reveal_strlit("8");
        reveal_strlit("9");
    }
    let s = if d == 0 {
        "0"
    } else if d == 1 {
        "1"
    } else if d == 2 {
        "2"
    } else if d == 3 {
        "3"
    } else if d == 4 {
        "4"
    } else if d == 5 {
        "5"
    } else if d == 6 {
        "6"
    } else if d == 7 {
        "7"
    } else if d == 8 {
        "8"
    } else {
        "9"
    };
    proof {
        assert(s@ =~= seq![digit_char(d as nat)]);
    }
    s
}

/// Writes `n` in decimal.
pub fn decimal(n: usize) -> (s: String)
    ensures
        s@ == spec_decimal(n as nat),
    decreases n,
{
    if n < 10 {
        String::from_str(digit_str(n))
    } else {
        let mut s = decimal(n / 10);
        s.append(digit_str(n % 10));
        s
    }
}

/// One field of a generated struct method: the field converted by the same
/// operation.
pub open spec fn field_line_text(m: Seq<char>, f: Seq<char>) -> Seq<char> {
    "            "@ + f + ": Endian::"@ + m + "(self."@ + f + "),\n"@
}

/// The fields of a generated struct method, in declaration order.
pub open spec fn field_lines_text(m: Seq<char>, fields: Seq<Seq<char>>) -> Seq<char>
    decreases fields.len(),
{
    if fields.len() == 0 {
        Seq::empty()
    } else {
        field_line_text(m, fields.first()) + field_lines_text(m, fields.drop_first())
    }
}

/// One method of a generated struct implementation: the struct rebuilt
/// with every field converted by the same operation.
pub open spec fn struct_method_text(m: Seq<char>, fields: Seq<Seq<char>>) -> Seq<char> {
    "    fn "@ + m + "(self) -> Self {\n        Self {\n"@ + field_lines_text(m, fields)
        + "        }\n    }\n"@
}

/// A piece of the implementation header: nothing when `s` is empty, else
/// `s` after one space.
pub open spec fn spaced(s: Seq<char>) -> Seq<char> {
    if s.len() == 0 {
        Seq::empty()
    } else {
        " "@ + s
    }
}

/// The header of a generated struct implementation, with the generics
/// carried over unchanged.
pub open spec fn struct_header_text(
    name: Seq<char>,
    impl_generics: Seq<char>,
    ty_generics: Seq<char>,
    where_clause: Seq<char>,
) -> Seq<char> {
    "impl"@ + spaced(impl_generics) + " Endian for "@ + name + ty_generics + spaced(where_clause)
        + " {\n"@
}

/// A generated struct implementation.
pub open spec fn struct_impl_text(
    name: Seq<char>,
    impl_generics: Seq<char>,
    ty_generics: Seq<char>,
    where_clause: Seq<char>,
    fields: Seq<Seq<char>>,
) -> Seq<char> {
    struct_header_text(name, impl_generics, ty_generics, where_clause) + ghost_stub_text()
        + struct_method_text("from_be"@, fields) + struct_method_text("from_le"@, fields) + struct_method_text("to_be"@, fields)
        + struct_method_text("to_le"@, fields) + struct_method_text("byte_swap"@, fields) + "}\n"@
}

fn push_field_lines(out: &mut String, m: &str, fields: &Vec<String>, i: usize)
    requires
        i <= fields@.len(),
    ensures
        final(out)@ == old(out)@ + field_lines_text(m@, fields.deep_view().skip(i as int)),
    decreases fields@.len() - i,
{
    if i == fields.len() {
        proof {
            assert(final(out)@ =~= old(out)@ + field_lines_text(
                m@,
                fields.deep_view().skip(i as int),
            ));
        }
    } else {
        out.append("            ");
        out.append(fields[i].as_str());
        out.append(": Endian::");
        out.append(m);
        out.append("(self.");
        out.append(fields[i].as_str());
        out.append("),\n");
        let ghost mid = out@;
        proof {
            assert(mid =~= old(out)@ + field_line_text(m@, fields.deep_view().skip(i as int).first()));
        }
        push_field_lines(out, m, fields, i + 1);
        proof {
            assert(fields.deep_view().skip(i as int).drop_first() =~= fields.deep_view().skip(
                i + 1 as int,
            ));
            assert(final(out)@ =~= old(out)@ + field_lines_text(
                m@,
                fields.deep_view().skip(i as int),
            ));
        }
    }
}

fn push_struct_method(out: &mut String, m: &str, fields: &Vec<String>)
    ensures
        final(out)@ == old(out)@ + struct_method_text(m@, fields.deep_view()),
{
    out.append("    fn ");
    out.append(m);
    out.append("(self) -> Self {\n        Self {\n");
    push_field_lines(out, m, fields, 0);
    out.append("        }\n    }\n");
    proof {
        assert(fields.deep_view().skip(0) =~= fields.deep_view());
        assert(final(out)@ =~= old(out)@ + struct_method_text(m@, fields.deep_view()));
    }
}

fn push_spaced(out: &mut String, s: &String)
    ensures
        final(out)@ == old(out)@ + spaced(s@),
{
    if !s.as_str().is_empty() {
        out.append(" ");
        out.append(s.as_str());
        proof {
            assert(final(out)@ =~= old(out)@ + spaced(s@));
        }
    } else {
        proof {
            assert(s@.len() == 0);
            assert(final(out)@ =~= old(out)@ + spaced(s@));
        }
    }
}

/// Generates the `Endian` implementation for a struct whose fields are
/// named by `fields`: each method converts every field by the same
/// operation and rebuilds the struct.
pub fn gen_struct(
    name: &String,
    impl_generics: &String,
    ty_generics: &String,
    where_clause: &String,
    fields: &Vec<String>,
) -> (s: String)
    ensures
        s@ == struct_impl_text(name@, impl_generics@, ty_generics@, where_clause@, fields.deep_view()),
{
    let mut out = String::from_str("impl");
    push_spaced(&mut out, impl_generics);
    out.append(" Endian for ");
    out.append(name.as_str());
    out.append(ty_generics.as_str());
    push_spaced(&mut out, where_clause);
    out.append(" {\n");
    proof {
        assert(out@ =~= struct_header_text(name@, impl_generics@, ty_generics@, where_clause@));
    }
    push_ghost_stubs(&mut out);
    push_struct_method(&mut out, "from_be", fields);
    push_struct_method(&mut out, "from_le", fields);
    push_struct_method(&mut out, "to_be", fields);
    push_struct_method(&mut out, "to_le", fields);
    push_struct_method(&mut out, "byte_swap", fields);
    out.append("}\n");
    proof {
        assert(out@ =~= struct_impl_text(
            name@,
            impl_generics@,
            ty_generics@,
            where_clause@,
            fields.deep_view(),
        ));
    }
    out
}

/// The names of `n` positional fields: `0` up to `n - 1`.
pub open spec fn index_names(n: nat) -> Seq<Seq<char>> {
    Seq::new(n, |i: int| spec_decimal(i as nat))
}

/// Writes the names of `n` positional fields.
pub fn make_index_names(n: usize) -> (v: Vec<String>)
    ensures
        v.deep_view() == index_names(n as nat),
{
    let mut v: Vec<String> = Vec::new();
    let mut i: usize = 0;
    while i < n
        invariant
            i <= n,
            v@.len() == i,
            forall|j: int| 0 <= j < i ==> (#[trigger] v@[j])@ == spec_decimal(j as nat),
        decreases n - i,
    {
        let ghost before = v@;
        v.push(decimal(i));
        proof {
            assert forall|j: int| 0 <= j < i + 1 implies (#[trigger] v@[j])@ == spec_decimal(
                j as nat,
            ) by {
                if j < i {
                    assert(v@[j] == before[j]);
                }
            }
        }
        i = i + 1;
    }
    proof {
        assert(v.deep_view() =~= index_names(n as nat));
    }
    v
}

/// Generates the `Endian` implementation for an enumeration, or says why
/// none can be generated.
pub fn gen_enum(name: &String, attrs: &Vec<Attr>, units: &Vec<bool>) -> (r: Result<
    String,
    DeriveError,
>)
    ensures
        r is Ok <==> gen_enum_spec(name@, attrs@, units@) is Ok,
        r is Ok ==> r->Ok_0@ == gen_enum_spec(name@, attrs@, units@)->Ok_0,
        r is Err ==> r->Err_0 == gen_enum_spec(name@, attrs@, units@)->Err_0,
{
    let r = gen_enum_from(name, attrs, 0, units);
    proof {
        assert(attrs@.skip(0) =~= attrs@);
    }
    r
}

} // verus!
