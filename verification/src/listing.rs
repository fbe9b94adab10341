//! Disassembly: one line for each instruction of a buffer.
//!
//! A line shows the instruction's byte offset and name and, for the
//! instructions that a listing shows with an operand, the signed 32-bit
//! value that follows the opcode.
use vstd::prelude::*;
use vstd::string::StringExecFns;
use crate::buffer::Instructions;
use crate::encoding::read_i32;
use crate::instruction::Instruction;
use crate::text::{decimal, write_signed, write_unsigned};

verus! {

/// One line of a listing.
#[derive(Clone, Copy, Debug, PartialEq, Eq)]
pub struct Line {
    /// The byte offset of the opcode.
    pub offset: usize,
    /// The instruction.
    pub instruction: Instruction,
    /// The operand, where the listing shows one.
    pub operand: Option<i32>,
}

/// The lines `rest` with the lines `before` ahead of them, where there is a
/// `rest`.
pub open spec fn ahead(before: Seq<Line>, rest: Option<Seq<Line>>) -> Option<Seq<Line>> {
    match rest {
        Some(lines) => Some(before + lines),
        None => None,
    }
}

/// The line of the instruction at offset `at`.
pub open spec fn line_at(code: Seq<u8>, at: int) -> Line {
    let instruction = Instruction::decode(code[at]);
    Line {
        offset: at as usize,
        instruction,
        operand: if instruction.listed_with_operand() {
            Some(read_i32(code, at + 1))
        } else {
            None
        },
    }
}

/// The length in bytes of the instruction at offset `at`, as a listing
/// counts it.
pub open spec fn listed_length(code: Seq<u8>, at: int) -> int {
    if Instruction::decode(code[at]).listed_with_operand() {
        5
    } else {
        1
    }
}

/// The listing of the bytes from offset `at` on: none if the operand of one
/// of the instructions runs past the end of the buffer.
pub open spec fn listing_from(code: Seq<u8>, at: int) -> Option<Seq<Line>>
    decreases code.len() - at,
{
    if at < 0 || at >= code.len() {
        Some(Seq::<Line>::empty())
    } else if at + listed_length(code, at) > code.len() {
        None
    } else {
        ahead(seq![line_at(code, at)], listing_from(code, at + listed_length(code, at)))
    }
}

/// The listing of a buffer.
pub open spec fn listing(code: Seq<u8>) -> Option<Seq<Line>> {
    listing_from(code, 0)
}

/// The text of a line: offset, ` : `, name, then a space and the operand
/// where there is one, then a line feed.
pub open spec fn line_text(line: Line) -> Seq<char> {
    decimal(line.offset as int) + " : "@ + line.instruction.name() + match line.operand {
        Some(val) => " "@ + decimal(val as int),
        None => Seq::<char>::empty(),
    } + "\n"@
}

/// The text of a listing: the text of its lines, one after another.
pub open spec fn listing_text(lines: Seq<Line>) -> Seq<char>
    decreases lines.len(),
{
    if lines.len() == 0 {
        Seq::<char>::empty()
    } else {
        listing_text(lines.drop_last()) + line_text(lines.last())
    }
}

/// Appends the text of `line` to `out`.
pub fn write_line(out: &mut String, line: &Line)
    ensures
        final(out)@ == old(out)@ + line_text(*line),
{
    write_unsigned(out, line.offset as u64);
    out.append(" : ");
    out.append(line.instruction.mnemonic());
    let ghost shown = out@;
    match line.operand {
        Some(val) => {
            out.append(" ");
            write_signed(out, val);
            assert(out@ =~= shown + (" "@ + decimal(val as int)));
        },
        None => {
            assert(out@ =~= shown + Seq::<char>::empty());
        },
    }
    out.append("\n");
    assert(out@ =~= old(out)@ + line_text(*line));
}

/// The text of a listing.
pub fn render(lines: &Vec<Line>) -> (r: String)
    ensures
        r@ == listing_text(lines@),
{
    let mut out = String::new();
    let mut i: usize = 0;
    while i < lines.len()
        invariant
            i <= lines@.len(),
            out@ == listing_text(lines@.take(i as int)),
        decreases lines@.len() - i,
    {
        write_line(&mut out, &lines[i]);
        proof {
            assert(lines@.take(i + 1).drop_last() =~= lines@.take(i as int));
        }
        i += 1;
    }
    assert(lines@.take(i as int) =~= lines@);
    out
}

impl Instructions {
    /// Lists the buffer: one line for each instruction, from the first byte
    /// on. There is no listing if the operand of an instruction runs past
    /// the end of the buffer.
    pub fn disassemble(&self) -> (r: Option<Vec<Line>>)
        ensures
            r is Some == listing(self@) is Some,
            r matches Some(lines) ==> Some(lines@) == listing(self@),
    {
        let mut lines: Vec<Line> = Vec::new();
        let mut index: usize = 0;
        let len: usize = self.len();
        while index < len
            invariant
                len == self@.len(),
                listing(self@) == ahead(lines@, listing_from(self@, index as int)),
            decreases len - index,
        {
            let ins = Instruction::from(self.get_u8(index));
            let ghost rest = listing_from(self@, index + listed_length(self@, index as int));
            if ins.has_listed_operand() {
                if len - index < 5 {
                    return None;
                }
                let operand: i32 = self.get_i32(index + 1);
                lines.push(Line { offset: index, instruction: ins, operand: Some(operand) });
                index += 5;
            } else {
                lines.push(Line { offset: index, instruction: ins, operand: None });
                index += 1;
            }
            proof {
                if let Some(tail) = rest {
                    let before = lines@.drop_last();
                    assert(before + (seq![lines@.last()] + tail) =~= lines@ + tail);
                }
            }
        }
        assert(lines@ + Seq::<Line>::empty() =~= lines@);
        Some(lines)
    }

    /// The text of the buffer's listing, where there is a listing.
    pub fn to_text(&self) -> (r: Option<String>)
        ensures
            r is Some == listing(self@) is Some,
            r matches Some(text) ==> text@ == listing_text(listing(self@).unwrap()),
    {
        match self.disassemble() {
            Some(lines) => Some(render(&lines)),
            None => None,
        }
    }
}

} // verus!
