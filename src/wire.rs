//! Building blocks of the protobuf wire format.

use vstd::prelude::*;

verus! {

/// The LEB128 form of `v`: seven bits per byte, low bits first, the high bit
/// set on every byte but the last.
pub open spec fn varint(v: nat) -> Seq<u8>
    decreases v,
{
    if v < 128 {
        seq![v as u8]
    } else {
        seq![(v % 128 + 128) as u8] + varint(v / 128)
    }
}

/// The key of a field: its tag and wire type, as a varint.
pub open spec fn key(tag: nat, wire_type: nat) -> Seq<u8> {
    varint(tag * 8 + wire_type)
}

/// The wire type of varint fields.
pub const WIRE_VARINT: u64 = 0;

/// The wire type of length-delimited fields.
pub const WIRE_LEN: u64 = 2;

/// Relies on prost::encoding::encode_varint, which appends the LEB128 form of
/// `v` to a `Vec<u8>`.
#[verifier::external_body]
pub(crate) fn put_varint(v: u64, buf: &mut Vec<u8>)
    ensures
        final(buf)@ == old(buf)@ + varint(v as nat),
{
    prost::encoding::encode_varint(v, buf)
}

/// Appends the key of a field.
pub fn put_key(tag: u32, wire_type: u64, buf: &mut Vec<u8>)
    requires
        wire_type < 8,
    ensures
        final(buf)@ == old(buf)@ + key(tag as nat, wire_type as nat),
{
    put_varint(tag as u64 * 8 + wire_type, buf);
}

/// Appends bytes as they are.
pub fn put_bytes(bytes: &[u8], buf: &mut Vec<u8>)
    ensures
        final(buf)@ == old(buf)@ + bytes@,
{
    let ghost start = buf@;
    let mut i: usize = 0;
    while i < bytes.len()
        invariant
            i <= bytes@.len(),
            buf@ == start + bytes@.take(i as int),
        decreases bytes@.len() - i,
    {
        buf.push(bytes[i]);
        i = i + 1;
        assert(buf@ =~= start + bytes@.take(i as int));
    }
    assert(bytes@.take(i as int) =~= bytes@);
}

} // verus!
