//! The instruction buffer: a byte sequence that a producer builds by
//! appending opcodes and operands, and corrects by patching operands in place.
use vstd::prelude::*;
use crate::encoding::{
    field_in_bounds, i32_bytes, overwrite, read_i32, read_u16, read_u32, u16_bytes, u32_bytes,
};
use crate::instruction::Instruction;
use crate::word::{cast_i32_to_u32, cast_u32_to_i32};

verus! {

/// A buffer of encoded instructions.
pub struct Instructions {
    /// The encoded bytes, in order.
    pub code: Vec<u8>,
}

impl View for Instructions {
    type V = Seq<u8>;

    open spec fn view(&self) -> Seq<u8> {
        self.code@
    }
}

impl Instructions {
    /// An empty buffer.
    pub fn new() -> (r: Instructions)
        ensures
            r@ == Seq::<u8>::empty(),
    {
        Instructions { code: Vec::new() }
    }

    pub(crate) fn push(&mut self, val: u8)
        ensures
            final(self)@ == old(self)@.push(val),
    {
        self.code.push(val);
    }

    /// The number of bytes in the buffer.
    pub fn len(&self) -> (r: usize)
        ensures
            r == self@.len(),
    {
        self.code.len()
    }

    /// Appends the opcode of `ins`.
    pub fn push_instruction(&mut self, ins: Instruction)
        ensures
            final(self)@ == old(self)@.push(ins.opcode()),
    {
        self.code.push(u8::from(ins))
    }

    /// Appends one byte.
    pub fn push_u8_operand(&mut self, val: u8)
        ensures
            final(self)@ == old(self)@.push(val),
    {
        self.code.push(val)
    }

    /// Appends a 16-bit field.
    pub fn push_u16_operand(&mut self, val: u16)
        ensures
            final(self)@ == old(self)@ + u16_bytes(val),
    {
        assert(val as u8 == (val % 256) as u8 && (val >> 8) as u8 == (val / 256) as u8)
            by (bit_vector);
        self.push_u8_operand(#[verifier::truncate] (val as u8));
        self.push_u8_operand(#[verifier::truncate] ((val >> 8) as u8));
        assert(self@ =~= old(self)@ + u16_bytes(val));
    }

    /// Appends a 32-bit field.
    pub fn push_u32_operand(&mut self, val: u32)
        ensures
            final(self)@ == old(self)@ + u32_bytes(val),
    {
        assert(val as u16 == (val % 0x1_0000) as u16 && (val >> 16) as u16 == (val / 0x1_0000)
            as u16) by (bit_vector);
        self.push_u16_operand(#[verifier::truncate] (val as u16));
        self.push_u16_operand(#[verifier::truncate] ((val >> 16) as u16));
        assert(self@ =~= old(self)@ + u32_bytes(val));
    }

    /// Appends a signed 32-bit field. The field reads back as `val`, whatever
    /// `val` is.
    pub fn push_i32_operand(&mut self, val: i32)
        ensures
            final(self)@ == old(self)@ + i32_bytes(val),
            read_i32(final(self)@, old(self)@.len() as int) == val,
    {
        proof {
            crate::encoding::i32_round_trip(self@, val);
        }
        self.push_u32_operand(cast_i32_to_u32(val))
    }

    /// Overwrites the byte at `index`. The length and every other byte stay
    /// as they were.
    pub fn set_u8_operand(&mut self, val: u8, index: usize)
        requires
            index < old(self)@.len(),
        ensures
            final(self)@ == old(self)@.update(index as int, val),
            final(self)@.len() == old(self)@.len(),
            forall|j: int|
                0 <= j < old(self)@.len() && j != index ==> final(self)@[j] == old(self)@[j],
    {
        self.code[index] = val;
    }

    /// Overwrites the 16-bit field at `index`. The length and every byte
    /// outside the field stay as they were.
    pub fn set_u16_operand(&mut self, val: u16, index: usize)
        requires
            field_in_bounds(old(self)@, index as int, 2),
        ensures
            final(self)@ == overwrite(old(self)@, index as int, u16_bytes(val)),
            final(self)@.len() == old(self)@.len(),
            forall|j: int|
                0 <= j < old(self)@.len() && !(index <= j < index + 2) ==> final(self)@[j]
                    == old(self)@[j],
    {
        assert(val as u8 == (val % 256) as u8 && (val >> 8u32) as u8 == (val / 256) as u8)
            by (bit_vector);
        assert(self@.len() == self.code.len());
        self.set_u8_operand(#[verifier::truncate] (val as u8), index);
        self.set_u8_operand(#[verifier::truncate] ((val >> 8u32) as u8), index + 1);
        assert(self@ =~= overwrite(old(self)@, index as int, u16_bytes(val)));
    }

    /// Overwrites the 32-bit field at `index`. The length and every byte
    /// outside the field stay as they were.
    pub fn set_u32_operand(&mut self, val: u32, index: usize)
        requires
            field_in_bounds(old(self)@, index as int, 4),
        ensures
            final(self)@ == overwrite(old(self)@, index as int, u32_bytes(val)),
            final(self)@.len() == old(self)@.len(),
            forall|j: int|
                0 <= j < old(self)@.len() && !(index <= j < index + 4) ==> final(self)@[j]
                    == old(self)@[j],
    {
        assert(val as u16 == (val % 0x1_0000) as u16 && (val >> 16u32) as u16 == (val / 0x1_0000)
            as u16) by (bit_vector);
        assert(self@.len() == self.code.len());
        self.set_u16_operand(#[verifier::truncate] (val as u16), index);
        self.set_u16_operand(#[verifier::truncate] ((val >> 16u32) as u16), index + 2);
        assert(self@ =~= overwrite(old(self)@, index as int, u32_bytes(val)));
    }

    /// Overwrites the signed 32-bit field at `index`. The length and every
    /// byte outside the field stay as they were, and the field reads back as
    /// `val`.
    pub fn set_i32_operand(&mut self, val: i32, index: usize)
        requires
            field_in_bounds(old(self)@, index as int, 4),
        ensures
            final(self)@ == overwrite(old(self)@, index as int, i32_bytes(val)),
            final(self)@.len() == old(self)@.len(),
            forall|j: int|
                0 <= j < old(self)@.len() && !(index <= j < index + 4) ==> final(self)@[j]
                    == old(self)@[j],
            read_i32(final(self)@, index as int) == val,
    {
        proof {
            crate::encoding::patched_field_reads_back(self@, index as int, 0, 0, val);
        }
        self.set_u32_operand(cast_i32_to_u32(val), index);
    }

    /// The byte at `index`.
    pub fn get_u8(&self, index: usize) -> (r: u8)
        requires
            index < self@.len(),
        ensures
            r == self@[index as int],
    {
        self.code[index]
    }

    /// The 16-bit field at `index`.
    pub fn get_u16(&self, index: usize) -> (r: u16)
        requires
            field_in_bounds(self@, index as int, 2),
        ensures
            r == read_u16(self@, index as int),
    {
        assert(self@.len() == self.code.len());
        let low: u8 = self.get_u8(index);
        let high: u8 = self.get_u8(index + 1);
        assert(((high as u16) << 8) == high * 256) by (bit_vector);
        low as u16 + ((high as u16) << 8)
    }

    /// The 32-bit field at `index`.
    pub fn get_u32(&self, index: usize) -> (r: u32)
        requires
            field_in_bounds(self@, index as int, 4),
        ensures
            r == read_u32(self@, index as int),
    {
        assert(self@.len() == self.code.len());
        let low: u16 = self.get_u16(index);
        let high: u16 = self.get_u16(index + 2);
        assert(((high as u32) << 16) == high * 0x1_0000) by (bit_vector);
        low as u32 + ((high as u32) << 16)
    }

    /// The signed 32-bit field at `index`.
    pub fn get_i32(&self, index: usize) -> (r: i32)
        requires
            field_in_bounds(self@, index as int, 4),
        ensures
            r == read_i32(self@, index as int),
    {
        cast_u32_to_i32(self.get_u32(index))
    }
}

} // verus!
