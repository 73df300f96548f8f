//! Records of the `doable.items` protobuf package, as plain values.
//!
//! An enumeration field is held as its wire number, as protobuf keeps it, so
//! that a value unknown to this version survives a round trip.

use vstd::prelude::*;
use vstd::utf8::encode_utf8;
use crate::items::shirt::Size;
use crate::wire::{key, put_bytes, put_key, put_varint, varint, WIRE_LEN, WIRE_VARINT};

pub mod shirt;

verus! {

/// A shirt: its colour and its size, as the wire number of a [`Size`].
#[derive(Clone, Debug, PartialEq, Eq)]
pub struct Shirt {
    pub color: String,
    pub size: i32,
}

impl Default for Shirt {
    /// No colour, size zero (small), as protobuf's default message.
    fn default() -> (r: Shirt)
        ensures
            r.color@ == Seq::<char>::empty(),
            r.size == 0,
    {
        Shirt { color: String::new(), size: 0 }
    }
}

impl Shirt {
    /// The size, read as a [`Size`]; a number that names no size reads as the
    /// default, small.
    pub fn size(&self) -> (r: Size)
        ensures
            r == Size::from_number_or_default(self.size as int),
    {
        match Size::from_i32(self.size) {
            Some(s) => s,
            None => Size::Small,
        }
    }

    pub fn set_size(&mut self, size: Size)
        ensures
            final(self).size as int == size.number(),
            final(self).color == old(self).color,
    {
        self.size = size.as_i32();
    }
}

/// The 64-bit two's complement of a 32-bit integer, as protobuf writes an `int32`.
pub open spec fn int32_wire(v: i32) -> nat {
    if v >= 0 {
        v as nat
    } else {
        (v + 0x1_0000_0000_0000_0000int) as nat
    }
}

/// The protobuf encoding of a shirt of colour `color` and size number `size`:
/// field 1 holds the colour's UTF-8 bytes, field 2 the size; a field that holds
/// its default (no colour, size zero) is left out.
pub open spec fn shirt_bytes(color: Seq<char>, size: i32) -> Seq<u8> {
    let text = encode_utf8(color);
    (if text.len() == 0 {
        Seq::empty()
    } else {
        key(1, 2) + varint(text.len()) + text
    }) + (if size == 0 {
        Seq::empty()
    } else {
        key(2, 0) + varint(int32_wire(size))
    })
}

impl Shirt {
    /// The protobuf encoding of the shirt.
    pub fn encode_to_vec(&self) -> (r: Vec<u8>)
        ensures
            r@ == shirt_bytes(self.color@, self.size),
    {
        let mut buf: Vec<u8> = Vec::new();
        let text = self.color.as_str().as_bytes();
        assert(text@ == encode_utf8(self.color@));
        if text.len() != 0 {
            put_key(1, WIRE_LEN, &mut buf);
            put_varint(text.len() as u64, &mut buf);
            put_bytes(text, &mut buf);
        }
        let ghost with_color = buf@;
        if self.size != 0 {
            put_key(2, WIRE_VARINT, &mut buf);
            let wire: u64 = if self.size >= 0 {
                self.size as u64
            } else {
                u64::MAX - (-(self.size as i64) - 1) as u64
            };
            put_varint(wire, &mut buf);
        }
        assert(buf@ =~= shirt_bytes(self.color@, self.size));
        buf
    }
}

/// A large shirt of the given colour.
pub fn create_large_shirt(color: String) -> (r: Shirt)
    ensures
        r.color == color,
        r.size as int == Size::Large.number(),
        r.size == 2,
{
    let mut shirt = Shirt::default();
    shirt.color = color;
    shirt.set_size(Size::Large);
    shirt
}

} // verus!
