//! `Endian` on a plain struct of unsigned integers, implemented as the
//! generator writes it: every method converts each field and rebuilds the
//! struct.

use endian_trait::Endian;

#[derive(Clone, Copy, Debug, PartialEq, Eq)]
struct Struct {
    a: u16,
    b: u16,
    c: u32,
    d: u64,
}

impl Endian for Struct {
    fn swaps_to(self, _: Self) -> bool {
        unreachable!()
    }
    fn lemma_swaps_to_symmetric(self, _: Self) {}
    fn lemma_swaps_to_functional(self, _: Self, _: Self) {}
    fn from_be(self) -> Self {
        Self {
            a: Endian::from_be(self.a),
            b: Endian::from_be(self.b),
            c: Endian::from_be(self.c),
            d: Endian::from_be(self.d),
        }
    }
    fn from_le(self) -> Self {
        Self {
            a: Endian::from_le(self.a),
            b: Endian::from_le(self.b),
            c: Endian::from_le(self.c),
            d: Endian::from_le(self.d),
        }
    }
    fn to_be(self) -> Self {
        Self {
            a: Endian::to_be(self.a),
            b: Endian::to_be(self.b),
            c: Endian::to_be(self.c),
            d: Endian::to_be(self.d),
        }
    }
    fn to_le(self) -> Self {
        Self {
            a: Endian::to_le(self.a),
            b: Endian::to_le(self.b),
            c: Endian::to_le(self.c),
            d: Endian::to_le(self.d),
        }
    }
    fn byte_swap(self) -> Self {
        Self {
            a: Endian::byte_swap(self.a),
            b: Endian::byte_swap(self.b),
            c: Endian::byte_swap(self.c),
            d: Endian::byte_swap(self.d),
        }
    }
}

fn get_struct() -> Struct {
    Struct {
        a: 0x1234,
        b: 0x5678,
        c: 0x9ABCDEF0,
        d: 0x123456789ABCDEF0,
    }
}

/// The struct's fields laid out as consecutive bytes in the machine's own
/// order, as a contiguous memory image of the struct would show them.
fn struct_bytes(s: Struct) -> [u8; 16] {
    let mut out = [0u8; 16];
    out[0..2].copy_from_slice(&s.a.to_ne_bytes());
    out[2..4].copy_from_slice(&s.b.to_ne_bytes());
    out[4..8].copy_from_slice(&s.c.to_ne_bytes());
    out[8..16].copy_from_slice(&s.d.to_ne_bytes());
    out
}

#[test]
fn flip_struct() {
    let eb = get_struct().to_be();
    let el = get_struct().to_le();
    assert_eq!(std::mem::size_of::<Struct>(), 16);
    let eb: [u8; 16] = struct_bytes(eb);
    let el: [u8; 16] = struct_bytes(el);

    //  .a
    assert_eq!(eb[0], el[1]);
    assert_eq!(eb[1], el[0]);

    //  .b
    assert_eq!(eb[2], el[3]);
    assert_eq!(eb[3], el[2]);

    //  .c
    assert_eq!(eb[4], el[7]);
    assert_eq!(eb[5], el[6]);
    assert_eq!(eb[6], el[5]);
    assert_eq!(eb[7], el[4]);

    //  .d
    assert_eq!(eb[8], el[15]);
    assert_eq!(eb[9], el[14]);
    assert_eq!(eb[10], el[13]);
    assert_eq!(eb[11], el[12]);
    assert_eq!(eb[12], el[11]);
    assert_eq!(eb[13], el[10]);
    assert_eq!(eb[14], el[9]);
    assert_eq!(eb[15], el[8]);
}

#[test]
fn double_flip() {
    let e = get_struct().to_be().from_be();
    assert_eq!(e, get_struct());

    let e = get_struct().to_le().from_le();
    assert_eq!(e, get_struct());

    //  On big-endian chips, to_be() goes away; on little-endian chips,
    //  to_le() goes away. Flipping twice must cancel out either way.
    let e = get_struct().to_be().to_be().to_le().to_le();
    assert_eq!(e, get_struct());
}
