//! `Endian` on a struct that holds another `Endian` struct: the conversion
//! recurses through the field tree.

use endian_trait::Endian;

#[derive(Clone, Copy, Debug, PartialEq, Eq)]
struct Struct {
    a: u16,
    b: u16,
    c: u32,
    d: u64,
}

impl Endian for Struct {
    fn swaps_to(self, _: Self) -> bool {
        unreachable!()
    }
    fn lemma_swaps_to_symmetric(self, _: Self) {}
    fn lemma_swaps_to_functional(self, _: Self, _: Self) {}
    fn from_be(self) -> Self {
        Self {
            a: Endian::from_be(self.a),
            b: Endian::from_be(self.b),
            c: Endian::from_be(self.c),
            d: Endian::from_be(self.d),
        }
    }
    fn from_le(self) -> Self {
        Self {
            a: Endian::from_le(self.a),
            b: Endian::from_le(self.b),
            c: Endian::from_le(self.c),
            d: Endian::from_le(self.d),
        }
    }
    fn to_be(self) -> Self {
        Self {
            a: Endian::to_be(self.a),
            b: Endian::to_be(self.b),
            c: Endian::to_be(self.c),
            d: Endian::to_be(self.d),
        }
    }
    fn to_le(self) -> Self {
        Self {
            a: Endian::to_le(self.a),
            b: Endian::to_le(self.b),
            c: Endian::to_le(self.c),
            d: Endian::to_le(self.d),
        }
    }
    fn byte_swap(self) -> Self {
        Self {
            a: Endian::byte_swap(self.a),
            b: Endian::byte_swap(self.b),
            c: Endian::byte_swap(self.c),
            d: Endian::byte_swap(self.d),
        }
    }
}

#[derive(Clone, Copy, Debug, PartialEq, Eq)]
struct Nested {
    a: u64,
    b: Struct,
}

impl Endian for Nested {
    fn swaps_to(self, _: Self) -> bool {
        unreachable!()
    }
    fn lemma_swaps_to_symmetric(self, _: Self) {}
    fn lemma_swaps_to_functional(self, _: Self, _: Self) {}
    fn from_be(self) -> Self {
        Self {
            a: Endian::from_be(self.a),
            b: Endian::from_be(self.b),
        }
    }
    fn from_le(self) -> Self {
        Self {
            a: Endian::from_le(self.a),
            b: Endian::from_le(self.b),
        }
    }
    fn to_be(self) -> Self {
        Self {
            a: Endian::to_be(self.a),
            b: Endian::to_be(self.b),
        }
    }
    fn to_le(self) -> Self {
        Self {
            a: Endian::to_le(self.a),
            b: Endian::to_le(self.b),
        }
    }
    fn byte_swap(self) -> Self {
        Self {
            a: Endian::byte_swap(self.a),
            b: Endian::byte_swap(self.b),
        }
    }
}

fn get_struct() -> Struct {
    Struct {
        a: 0x1234,
        b: 0x5678,
        c: 0x9ABCDEF0,
        d: 0x123456789ABCDEF0,
    }
}

fn get_nested() -> Nested {
    Nested {
        a: 0xabad1dea0c05fefe,
        b: get_struct(),
    }
}

/// The nested struct's fields laid out as consecutive bytes in the
/// machine's own order, as a contiguous memory image would show them.
fn nested_bytes(n: Nested) -> [u8; 24] {
    let mut out = [0u8; 24];
    out[0..8].copy_from_slice(&n.a.to_ne_bytes());
    out[8..10].copy_from_slice(&n.b.a.to_ne_bytes());
    out[10..12].copy_from_slice(&n.b.b.to_ne_bytes());
    out[12..16].copy_from_slice(&n.b.c.to_ne_bytes());
    out[16..24].copy_from_slice(&n.b.d.to_ne_bytes());
    out
}

#[test]
fn flip_nested_struct() {
    let nb = get_nested().to_be();
    let nl = get_nested().to_le();

    let nb: [u8; 24] = nested_bytes(nb);
    let nl: [u8; 24] = nested_bytes(nl);

    //  .a
    assert_eq!(nb[0], nl[7]);
    assert_eq!(nb[1], nl[6]);
    assert_eq!(nb[2], nl[5]);
    assert_eq!(nb[3], nl[4]);
    assert_eq!(nb[4], nl[3]);
    assert_eq!(nb[5], nl[2]);
    assert_eq!(nb[6], nl[1]);
    assert_eq!(nb[7], nl[0]);

    //  .b.a
    assert_eq!(nb[8], nl[9]);
    assert_eq!(nb[9], nl[8]);

    //  .b.b
    assert_eq!(nb[10], nl[11]);
    assert_eq!(nb[11], nl[10]);

    //  .b.c
    assert_eq!(nb[12], nl[15]);
    assert_eq!(nb[13], nl[14]);
    assert_eq!(nb[14], nl[13]);
    assert_eq!(nb[15], nl[12]);

    //  .b.d
    assert_eq!(nb[16], nl[23]);
    assert_eq!(nb[17], nl[22]);
    assert_eq!(nb[18], nl[21]);
    assert_eq!(nb[19], nl[20]);
    assert_eq!(nb[20], nl[19]);
    assert_eq!(nb[21], nl[18]);
    assert_eq!(nb[22], nl[17]);
    assert_eq!(nb[23], nl[16]);
}
