//! Thirty-two-bit words: the machine computes modulo 2^32 and reads one bit
//! pattern either as signed or as unsigned.
use vstd::prelude::*;

verus! {

/// The unsigned word congruent to `x` modulo 2^32.
pub open spec fn wrap_u32(x: int) -> u32 {
    (x % 0x1_0000_0000) as u32
}

/// The signed word congruent to `x` modulo 2^32 (two's complement).
pub open spec fn wrap_i32(x: int) -> i32 {
    let r: int = x % 0x1_0000_0000;
    if r > i32::MAX {
        (r - 0x1_0000_0000) as i32
    } else {
        r as i32
    }
}

/// Reading a bit pattern as unsigned and back as signed changes nothing,
/// and neither does the other direction.
pub proof fn reinterpretation_is_a_bijection(v: i32, u: u32)
    ensures
        wrap_i32(wrap_u32(v as int) as int) == v,
        wrap_u32(wrap_i32(u as int) as int) == u,
{
}

/// Stepping a word down and up again, or up and down again, comes back to
/// it, also across the ends of the range.
pub proof fn wrap_steps_cancel(word: u32)
    ensures
        wrap_u32(wrap_u32(word - 1) + 1) == word,
        wrap_u32(wrap_u32(word + 1) - 1) == word,
{
}

/// The bit pattern of a signed word, read as unsigned.
pub fn to_unsigned(v: i32) -> (r: u32)
    ensures
        r == wrap_u32(v as int),
{
    if v >= 0 {
        v as u32
    } else {
        (v as i64 + 0x1_0000_0000i64) as u32
    }
}

/// The bit pattern of an unsigned word, read as signed.
pub fn to_signed(u: u32) -> (r: i32)
    ensures
        r == wrap_i32(u as int),
{
    if u <= 0x7fff_ffffu32 {
        u as i32
    } else {
        (u as i64 - 0x1_0000_0000i64) as i32
    }
}

/// The low thirty-two bits of a byte offset, read as signed.
pub fn offset_to_signed(offset: usize) -> (r: i32)
    ensures
        r == wrap_i32(offset as int),
{
    let low: u64 = offset as u64 % 0x1_0000_0000u64;
    to_signed(low as u32)
}

/// `bytemuck::cast` from `i32` to `u32`. The two types have the same size,
/// so the call cannot fail; it hands back the argument's four bytes
/// unchanged, which read as unsigned are the argument modulo 2^32.
#[verifier::external_body]
pub(crate) fn cast_i32_to_u32(v: i32) -> (r: u32)
    ensures
        r == wrap_u32(v as int),
{
    bytemuck::cast(v)
}

/// `bytemuck::cast` from `u32` to `i32`. The two types have the same size,
/// so the call cannot fail; it hands back the argument's four bytes
/// unchanged, which read as signed are the two's-complement value.
#[verifier::external_body]
pub(crate) fn cast_u32_to_i32(u: u32) -> (r: i32)
    ensures
        r == wrap_i32(u as int),
{
    bytemuck::cast(u)
}

} // verus!
