//! The byte layout of operands: fixed-width little-endian fields.
//!
//! A 16-bit field is two 8-bit fields, low byte first; a 32-bit field is two
//! 16-bit fields, low half first; a signed 32-bit field is the unsigned field
//! with the same bit pattern.
use vstd::prelude::*;
use crate::word::{wrap_i32, wrap_u32};

verus! {

/// The two bytes of a 16-bit field.
pub open spec fn u16_bytes(v: u16) -> Seq<u8> {
    seq![(v % 256) as u8, (v / 256) as u8]
}

/// The four bytes of a 32-bit field.
pub open spec fn u32_bytes(v: u32) -> Seq<u8> {
    u16_bytes((v % 0x1_0000) as u16) + u16_bytes((v / 0x1_0000) as u16)
}

/// The four bytes of a signed 32-bit field.
pub open spec fn i32_bytes(v: i32) -> Seq<u8> {
    u32_bytes(wrap_u32(v as int))
}

/// Whether a field of `width` bytes at offset `at` lies inside `bytes`.
pub open spec fn field_in_bounds(bytes: Seq<u8>, at: int, width: int) -> bool {
    0 <= at && at + width <= bytes.len()
}

/// The 16-bit field at offset `at`.
pub open spec fn read_u16(bytes: Seq<u8>, at: int) -> u16 {
    (bytes[at] + bytes[at + 1] * 256) as u16
}

/// The 32-bit field at offset `at`.
pub open spec fn read_u32(bytes: Seq<u8>, at: int) -> u32 {
    (read_u16(bytes, at) + read_u16(bytes, at + 2) * 0x1_0000) as u32
}

/// The signed 32-bit field at offset `at`.
pub open spec fn read_i32(bytes: Seq<u8>, at: int) -> i32 {
    wrap_i32(read_u32(bytes, at) as int)
}

/// `bytes` with `field` written over the bytes that start at offset `at`.
pub open spec fn overwrite(bytes: Seq<u8>, at: int, field: Seq<u8>) -> Seq<u8> {
    Seq::new(
        bytes.len(),
        |j: int|
            if at <= j < at + field.len() {
                field[j - at]
            } else {
                bytes[j]
            },
    )
}

/// Overwriting a field keeps the length, leaves every byte outside the field
/// as it was, and puts the field's bytes inside it.
pub proof fn overwrite_touches_only_the_field(bytes: Seq<u8>, at: int, field: Seq<u8>)
    requires
        field_in_bounds(bytes, at, field.len() as int),
    ensures
        overwrite(bytes, at, field).len() == bytes.len(),
        forall|j: int|
            0 <= j < bytes.len() && !(at <= j < at + field.len()) ==> overwrite(bytes, at, field)[j]
                == bytes[j],
        overwrite(bytes, at, field).subrange(at, at + field.len()) == field,
{
    assert(overwrite(bytes, at, field).subrange(at, at + field.len()) =~= field);
}

/// A 16-bit value appended to a buffer is read back unchanged.
pub proof fn u16_round_trip(bytes: Seq<u8>, v: u16)
    ensures
        read_u16(bytes + u16_bytes(v), bytes.len() as int) == v,
{
}

/// A 32-bit value appended to a buffer is read back unchanged.
pub proof fn u32_round_trip(bytes: Seq<u8>, v: u32)
    ensures
        read_u32(bytes + u32_bytes(v), bytes.len() as int) == v,
{
    let all = bytes + u32_bytes(v);
    let n = bytes.len() as int;
    assert(all[n] == u32_bytes(v)[0]);
    assert(all[n + 1] == u32_bytes(v)[1]);
    assert(all[n + 2] == u32_bytes(v)[2]);
    assert(all[n + 3] == u32_bytes(v)[3]);
}

/// A signed 32-bit value appended to a buffer is read back unchanged, for
/// every value from the smallest to the largest.
pub proof fn i32_round_trip(bytes: Seq<u8>, v: i32)
    ensures
        read_i32(bytes + i32_bytes(v), bytes.len() as int) == v,
{
    u32_round_trip(bytes, wrap_u32(v as int));
}

/// A value patched over a field is read back from that field unchanged.
pub proof fn patched_field_reads_back(bytes: Seq<u8>, at: int, v16: u16, v32: u32, v: i32)
    ensures
        field_in_bounds(bytes, at, 2) ==> read_u16(overwrite(bytes, at, u16_bytes(v16)), at) == v16,
        field_in_bounds(bytes, at, 4) ==> read_u32(overwrite(bytes, at, u32_bytes(v32)), at) == v32,
        field_in_bounds(bytes, at, 4) ==> read_i32(overwrite(bytes, at, i32_bytes(v)), at) == v,
{
    if field_in_bounds(bytes, at, 4) {
        let w = wrap_u32(v as int);
        let p = overwrite(bytes, at, u32_bytes(w));
        assert(p[at] == u32_bytes(w)[0]);
        assert(p[at + 1] == u32_bytes(w)[1]);
        assert(p[at + 2] == u32_bytes(w)[2]);
        assert(p[at + 3] == u32_bytes(w)[3]);
        let q = overwrite(bytes, at, u32_bytes(v32));
        assert(q[at] == u32_bytes(v32)[0]);
        assert(q[at + 1] == u32_bytes(v32)[1]);
        assert(q[at + 2] == u32_bytes(v32)[2]);
        assert(q[at + 3] == u32_bytes(v32)[3]);
    }
}

/// Encoding is onto: any four bytes are the encoding of the value that they
/// decode to, so encoding and decoding are inverse bijections between 32-bit
/// values and four-byte fields.
pub proof fn every_field_is_an_encoding(bytes: Seq<u8>, at: int)
    requires
        field_in_bounds(bytes, at, 4),
    ensures
        u32_bytes(read_u32(bytes, at)) == bytes.subrange(at, at + 4),
        i32_bytes(read_i32(bytes, at)) == bytes.subrange(at, at + 4),
{
    assert(u32_bytes(read_u32(bytes, at)) =~= bytes.subrange(at, at + 4));
}

} // verus!
