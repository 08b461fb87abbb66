//! `Endian` on a struct whose fields force plenty of padding; the
//! conversions only ever touch the fields themselves.

use endian_trait::Endian;

#[derive(Clone, Copy, Debug, PartialEq, Eq)]
struct NotC {
    a: u8,
    b: u16,
    c: u8,
    d: u32,
    e: u8,
    f: u64,
}

impl Endian for NotC {
    fn swaps_to(self, _: Self) -> bool {
        unreachable!()
    }
    fn lemma_swaps_to_symmetric(self, _: Self) {}
    fn lemma_swaps_to_functional(self, _: Self, _: Self) {}
    fn from_be(self) -> Self {
        Self {
            a: Endian::from_be(self.a),
            b: Endian::from_be(self.b),
            c: Endian::from_be(self.c),
            d: Endian::from_be(self.d),
            e: Endian::from_be(self.e),
            f: Endian::from_be(self.f),
        }
    }
    fn from_le(self) -> Self {
        Self {
            a: Endian::from_le(self.a),
            b: Endian::from_le(self.b),
            c: Endian::from_le(self.c),
            d: Endian::from_le(self.d),
            e: Endian::from_le(self.e),
            f: Endian::from_le(self.f),
        }
    }
    fn to_be(self) -> Self {
        Self {
            a: Endian::to_be(self.a),
            b: Endian::to_be(self.b),
            c: Endian::to_be(self.c),
            d: Endian::to_be(self.d),
            e: Endian::to_be(self.e),
            f: Endian::to_be(self.f),
        }
    }
    fn to_le(self) -> Self {
        Self {
            a: Endian::to_le(self.a),
            b: Endian::to_le(self.b),
            c: Endian::to_le(self.c),
            d: Endian::to_le(self.d),
            e: Endian::to_le(self.e),
            f: Endian::to_le(self.f),
        }
    }
    fn byte_swap(self) -> Self {
        Self {
            a: Endian::byte_swap(self.a),
            b: Endian::byte_swap(self.b),
            c: Endian::byte_swap(self.c),
            d: Endian::byte_swap(self.d),
            e: Endian::byte_swap(self.e),
            f: Endian::byte_swap(self.f),
        }
    }
}

fn get_notc() -> NotC {
    NotC {
        a: 0xA5,
        b: 0x1234,
        c: 0x5A,
        d: 0xdeadbeef,
        e: 0x42,
        f: 0xc001c0deabad1dea,
    }
}

#[test]
fn flip_notc() {
    let cb = get_notc().to_be();
    let cl = get_notc().to_le();

    assert_eq!(cb.a.from_be(), cl.a.from_le());
    assert_eq!(cb.b.from_be(), cl.b.from_le());
    assert_eq!(cb.c.from_be(), cl.c.from_le());
    assert_eq!(cb.d.from_be(), cl.d.from_le());
    assert_eq!(cb.e.from_be(), cl.e.from_le());
    assert_eq!(cb.f.from_be(), cl.f.from_le());

    assert_eq!(cb.from_be(), cl.from_le());
    assert_eq!(cb.from_be(), get_notc());
    assert_eq!(cl.from_le(), get_notc());
}

#[test]
fn notc_bytes() {
    let cb = get_notc().to_be();

    let b: [u8; 2] = cb.b.to_ne_bytes();
    assert_eq!(b, [0x12, 0x34]);

    let d: [u8; 4] = cb.d.to_ne_bytes();
    assert_eq!(d, [0xde, 0xad, 0xbe, 0xef]);

    let f: [u8; 8] = cb.f.to_ne_bytes();
    assert_eq!(f, [0xc0, 0x01, 0xc0, 0xde, 0xab, 0xad, 0x1d, 0xea]);
}
