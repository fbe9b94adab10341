//! The instruction set: one-byte opcodes and the host-call selectors.
use vstd::prelude::*;
use vstd::std_specs::convert::FromSpecImpl;

verus! {

/// An operation of the machine. Its opcode is its position in this list,
/// from 0 for `Nop` to 31 for `NotEqual`.
#[derive(Clone, Copy, Debug, PartialEq, Eq, Structural)]
pub enum Instruction {
    /// Does nothing.
    Nop,
    /// Ends the run.
    Hlt,
    /// Replaces the two topmost values by their sum.
    I32Add,
    /// Replaces the two topmost values by their difference.
    I32Sub,
    /// Replaces the two topmost values by their product.
    I32Mul,
    /// Replaces the two topmost values by their quotient.
    I32Div,
    /// Pushes its operand.
    Push,
    /// Discards the topmost value.
    Pop,
    /// Calls the host function that its operand selects.
    CompilerCall,
    /// Saves the return address and the frame pointer, then jumps.
    Call,
    /// Restores the frame pointer and returns to the saved address.
    Ret,
    /// Pushes the register that its one-byte operand selects.
    PushReg,
    /// Pops a value into the register that its one-byte operand selects.
    PopReg,
    /// Pops a value into the cell at an absolute index.
    Store,
    /// Pushes the cell at an absolute index.
    Load,
    /// Pops a value into the cell at an offset from the frame pointer.
    StoreRelative,
    /// Pushes the cell at an offset from the frame pointer.
    LoadRelative,
    /// Adds its operand to the stack-top index.
    StackAdd,
    /// Replaces the topmost value by the cell that it indexes.
    Deref,
    /// Pushes the frame pointer plus its operand.
    Lea,
    /// Pops a value into the cell named by the cell at an absolute index.
    DerefAssign,
    /// Pops a value into the cell named by the cell at an offset from the frame pointer.
    DerefAssignRelative,
    /// Pops two values and records how they compare in the flag register.
    Cmp,
    /// Jumps to its operand.
    Jmp,
    /// Pops a value and jumps to its operand if the value is zero.
    Jz,
    /// Reserved; it can be encoded and listed but not executed.
    Jnz,
    /// Replaces the two topmost values by 1 if the first is greater, else by 0.
    Greater,
    /// Replaces the two topmost values by 1 if the first is greater or equal, else by 0.
    GreaterEqual,
    /// Replaces the two topmost values by 1 if the first is less, else by 0.
    Lesser,
    /// Replaces the two topmost values by 1 if the first is less or equal, else by 0.
    LesserEqual,
    /// Replaces the two topmost values by 1 if they are equal, else by 0.
    Equal,
    /// Replaces the two topmost values by 1 if they differ, else by 0.
    NotEqual,
}

impl Instruction {
    /// The opcode of an instruction.
    pub open spec fn opcode(self) -> u8 {
        match self {
            Instruction::Nop => 0u8,
            Instruction::Hlt => 1u8,
            Instruction::I32Add => 2u8,
            Instruction::I32Sub => 3u8,
            Instruction::I32Mul => 4u8,
            Instruction::I32Div => 5u8,
            Instruction::Push => 6u8,
            Instruction::Pop => 7u8,
            Instruction::CompilerCall => 8u8,
            Instruction::Call => 9u8,
            Instruction::Ret => 10u8,
            Instruction::PushReg => 11u8,
            Instruction::PopReg => 12u8,
            Instruction::Store => 13u8,
            Instruction::Load => 14u8,
            Instruction::StoreRelative => 15u8,
            Instruction::LoadRelative => 16u8,
            Instruction::StackAdd => 17u8,
            Instruction::Deref => 18u8,
            Instruction::Lea => 19u8,
            Instruction::DerefAssign => 20u8,
            Instruction::DerefAssignRelative => 21u8,
            Instruction::Cmp => 22u8,
            Instruction::Jmp => 23u8,
            Instruction::Jz => 24u8,
            Instruction::Jnz => 25u8,
            Instruction::Greater => 26u8,
            Instruction::GreaterEqual => 27u8,
            Instruction::Lesser => 28u8,
            Instruction::LesserEqual => 29u8,
            Instruction::Equal => 30u8,
            Instruction::NotEqual => 31u8,
        }
    }

    /// The instruction that a byte decodes to. Decoding is lenient: a byte
    /// that is no opcode decodes to `Nop`.
    #[verifier::opaque]
    pub open spec fn decode(byte: u8) -> Instruction {
        if byte == 0u8 {
            Instruction::Nop
        } else if byte == 1u8 {
            Instruction::Hlt
        } else if byte == 2u8 {
            Instruction::I32Add
        } else if byte == 3u8 {
            Instruction::I32Sub
        } else if byte == 4u8 {
            Instruction::I32Mul
        } else if byte == 5u8 {
            Instruction::I32Div
        } else if byte == 6u8 {
            Instruction::Push
        } else if byte == 7u8 {
            Instruction::Pop
        } else if byte == 8u8 {
            Instruction::CompilerCall
        } else if byte == 9u8 {
            Instruction::Call
        } else if byte == 10u8 {
            Instruction::Ret
        } else if byte == 11u8 {
            Instruction::PushReg
        } else if byte == 12u8 {
            Instruction::PopReg
        } else if byte == 13u8 {
            Instruction::Store
        } else if byte == 14u8 {
            Instruction::Load
        } else if byte == 15u8 {
            Instruction::StoreRelative
        } else if byte == 16u8 {
            Instruction::LoadRelative
        } else if byte == 17u8 {
            Instruction::StackAdd
        } else if byte == 18u8 {
            Instruction::Deref
        } else if byte == 19u8 {
            Instruction::Lea
        } else if byte == 20u8 {
            Instruction::DerefAssign
        } else if byte == 21u8 {
            Instruction::DerefAssignRelative
        } else if byte == 22u8 {
            Instruction::Cmp
        } else if byte == 23u8 {
            Instruction::Jmp
        } else if byte == 24u8 {
            Instruction::Jz
        } else if byte == 25u8 {
            Instruction::Jnz
        } else if byte == 26u8 {
            Instruction::Greater
        } else if byte == 27u8 {
            Instruction::GreaterEqual
        } else if byte == 28u8 {
            Instruction::Lesser
        } else if byte == 29u8 {
            Instruction::LesserEqual
        } else if byte == 30u8 {
            Instruction::Equal
        } else if byte == 31u8 {
            Instruction::NotEqual
        } else {
            Instruction::Nop
        }
    }

    /// Whether a listing shows a four-byte operand after this instruction.
    pub open spec fn listed_with_operand(self) -> bool {
        match self {
            Instruction::StackAdd
            | Instruction::PushReg
            | Instruction::Call
            | Instruction::Push
            | Instruction::CompilerCall
            | Instruction::StoreRelative
            | Instruction::LoadRelative
            | Instruction::DerefAssign
            | Instruction::DerefAssignRelative
            | Instruction::Lea
            | Instruction::PopReg
            | Instruction::Store
            | Instruction::Load
            | Instruction::Jmp
            | Instruction::Jz
            | Instruction::Jnz => true,
            _ => false,
        }
    }

    /// The instruction's name as a listing shows it.
    pub open spec fn name(self) -> Seq<char> {
        match self {
            Instruction::Nop => "Nop"@,
            Instruction::Hlt => "Hlt"@,
            Instruction::I32Add => "I32Add"@,
            Instruction::I32Sub => "I32Sub"@,
            Instruction::I32Mul => "I32Mul"@,
            Instruction::I32Div => "I32Div"@,
            Instruction::Push => "Push"@,
            Instruction::Pop => "Pop"@,
            Instruction::CompilerCall => "CompilerCall"@,
            Instruction::Call => "Call"@,
            Instruction::Ret => "Ret"@,
            Instruction::PushReg => "PushReg"@,
            Instruction::PopReg => "PopReg"@,
            Instruction::Store => "Store"@,
            Instruction::Load => "Load"@,
            Instruction::StoreRelative => "StoreRelative"@,
            Instruction::LoadRelative => "LoadRelative"@,
            Instruction::StackAdd => "StackAdd"@,
            Instruction::Deref => "Deref"@,
            Instruction::Lea => "Lea"@,
            Instruction::DerefAssign => "DerefAssign"@,
            Instruction::DerefAssignRelative => "DerefAssignRelative"@,
            Instruction::Cmp => "Cmp"@,
            Instruction::Jmp => "Jmp"@,
            Instruction::Jz => "Jz"@,
            Instruction::Jnz => "Jnz"@,
            Instruction::Greater => "Greater"@,
            Instruction::GreaterEqual => "GreaterEqual"@,
            Instruction::Lesser => "Lesser"@,
            Instruction::LesserEqual => "LesserEqual"@,
            Instruction::Equal => "Equal"@,
            Instruction::NotEqual => "NotEqual"@,
        }
    }

    /// Whether the instruction pops two values and pushes one made of them.
    pub open spec fn is_binary(self) -> bool {
        match self {
            Instruction::I32Add
            | Instruction::I32Sub
            | Instruction::I32Mul
            | Instruction::I32Div
            | Instruction::Greater
            | Instruction::GreaterEqual
            | Instruction::Lesser
            | Instruction::LesserEqual
            | Instruction::Equal
            | Instruction::NotEqual => true,
            _ => false,
        }
    }

    /// The number of operand bytes that execution reads after the opcode:
    /// four for a 32-bit operand, one for a register selector, else none.
    pub open spec fn operand_width(self) -> int {
        match self {
            Instruction::Lea
            | Instruction::Push
            | Instruction::CompilerCall
            | Instruction::Call
            | Instruction::Load
            | Instruction::Store
            | Instruction::LoadRelative
            | Instruction::StoreRelative
            | Instruction::StackAdd
            | Instruction::DerefAssign
            | Instruction::DerefAssignRelative
            | Instruction::Jmp
            | Instruction::Jz => 4,
            Instruction::PushReg | Instruction::PopReg => 1,
            _ => 0,
        }
    }

    /// Says whether a listing shows a four-byte operand after this
    /// instruction.
    pub fn has_listed_operand(self) -> (r: bool)
        ensures
            r == self.listed_with_operand(),
    {
        match self {
            Instruction::StackAdd
            | Instruction::PushReg
            | Instruction::Call
            | Instruction::Push
            | Instruction::CompilerCall
            | Instruction::StoreRelative
            | Instruction::LoadRelative
            | Instruction::DerefAssign
            | Instruction::DerefAssignRelative
            | Instruction::Lea
            | Instruction::PopReg
            | Instruction::Store
            | Instruction::Load
            | Instruction::Jmp
            | Instruction::Jz
            | Instruction::Jnz => true,
            _ => false,
        }
    }

    /// The number of operand bytes that execution reads after the opcode.
    pub fn width(self) -> (r: usize)
        ensures
            r == self.operand_width(),
    {
        match self {
            Instruction::Lea
            | Instruction::Push
            | Instruction::CompilerCall
            | Instruction::Call
            | Instruction::Load
            | Instruction::Store
            | Instruction::LoadRelative
            | Instruction::StoreRelative
            | Instruction::StackAdd
            | Instruction::DerefAssign
            | Instruction::DerefAssignRelative
            | Instruction::Jmp
            | Instruction::Jz => 4,
            Instruction::PushReg | Instruction::PopReg => 1,
            _ => 0,
        }
    }

    /// The instruction's name as a listing shows it.
    pub fn mnemonic(self) -> (r: &'static str)
        ensures
            r@ == self.name(),
    {
        match self {
            Instruction::Nop => "Nop",
            Instruction::Hlt => "Hlt",
            Instruction::I32Add => "I32Add",
            Instruction::I32Sub => "I32Sub",
            Instruction::I32Mul => "I32Mul",
            Instruction::I32Div => "I32Div",
            Instruction::Push => "Push",
            Instruction::Pop => "Pop",
            Instruction::CompilerCall => "CompilerCall",
            Instruction::Call => "Call",
            Instruction::Ret => "Ret",
            Instruction::PushReg => "PushReg",
            Instruction::PopReg => "PopReg",
            Instruction::Store => "Store",
            Instruction::Load => "Load",
            Instruction::StoreRelative => "StoreRelative",
            Instruction::LoadRelative => "LoadRelative",
            Instruction::StackAdd => "StackAdd",
            Instruction::Deref => "Deref",
            Instruction::Lea => "Lea",
            Instruction::DerefAssign => "DerefAssign",
            Instruction::DerefAssignRelative => "DerefAssignRelative",
            Instruction::Cmp => "Cmp",
            Instruction::Jmp => "Jmp",
            Instruction::Jz => "Jz",
            Instruction::Jnz => "Jnz",
            Instruction::Greater => "Greater",
            Instruction::GreaterEqual => "GreaterEqual",
            Instruction::Lesser => "Lesser",
            Instruction::LesserEqual => "LesserEqual",
            Instruction::Equal => "Equal",
            Instruction::NotEqual => "NotEqual",
        }
    }
}

/// Encoding an instruction and decoding the byte gives the instruction back.
pub proof fn opcode_round_trip(ins: Instruction)
    ensures
        ins.opcode() <= 31,
        Instruction::decode(ins.opcode()) == ins,
{
    reveal(Instruction::decode);
}

/// Decoding a byte and encoding the instruction gives the byte back exactly
/// when the byte is an opcode; any other byte comes back as 0.
pub proof fn decode_is_lenient(byte: u8)
    ensures
        byte <= 31 ==> Instruction::decode(byte).opcode() == byte,
        byte > 31 ==> Instruction::decode(byte) == Instruction::Nop,
{
    reveal(Instruction::decode);
}

impl From<u8> for Instruction {
    fn from(val: u8) -> (r: Instruction) {
        proof {
            reveal(Instruction::decode);
        }
        match val {
            0 => Instruction::Nop,
            1 => Instruction::Hlt,
            2 => Instruction::I32Add,
            3 => Instruction::I32Sub,
            4 => Instruction::I32Mul,
            5 => Instruction::I32Div,
            6 => Instruction::Push,
            7 => Instruction::Pop,
            8 => Instruction::CompilerCall,
            9 => Instruction::Call,
            10 => Instruction::Ret,
            11 => Instruction::PushReg,
            12 => Instruction::PopReg,
            13 => Instruction::Store,
            14 => Instruction::Load,
            15 => Instruction::StoreRelative,
            16 => Instruction::LoadRelative,
            17 => Instruction::StackAdd,
            18 => Instruction::Deref,
            19 => Instruction::Lea,
            20 => Instruction::DerefAssign,
            21 => Instruction::DerefAssignRelative,
            22 => Instruction::Cmp,
            23 => Instruction::Jmp,
            24 => Instruction::Jz,
            25 => Instruction::Jnz,
            26 => Instruction::Greater,
            27 => Instruction::GreaterEqual,
            28 => Instruction::Lesser,
            29 => Instruction::LesserEqual,
            30 => Instruction::Equal,
            31 => Instruction::NotEqual,
            _ => Instruction::Nop,
        }
    }
}

impl FromSpecImpl<u8> for Instruction {
    open spec fn obeys_from_spec() -> bool {
        true
    }

    open spec fn from_spec(val: u8) -> Instruction {
        Instruction::decode(val)
    }
}

impl From<Instruction> for u8 {
    fn from(ins: Instruction) -> (r: u8) {
        match ins {
            Instruction::Nop => 0,
            Instruction::Hlt => 1,
            Instruction::I32Add => 2,
            Instruction::I32Sub => 3,
            Instruction::I32Mul => 4,
            Instruction::I32Div => 5,
            Instruction::Push => 6,
            Instruction::Pop => 7,
            Instruction::CompilerCall => 8,
            Instruction::Call => 9,
            Instruction::Ret => 10,
            Instruction::PushReg => 11,
            Instruction::PopReg => 12,
            Instruction::Store => 13,
            Instruction::Load => 14,
            Instruction::StoreRelative => 15,
            Instruction::LoadRelative => 16,
            Instruction::StackAdd => 17,
            Instruction::Deref => 18,
            Instruction::Lea => 19,
            Instruction::DerefAssign => 20,
            Instruction::DerefAssignRelative => 21,
            Instruction::Cmp => 22,
            Instruction::Jmp => 23,
            Instruction::Jz => 24,
            Instruction::Jnz => 25,
            Instruction::Greater => 26,
            Instruction::GreaterEqual => 27,
            Instruction::Lesser => 28,
            Instruction::LesserEqual => 29,
            Instruction::Equal => 30,
            Instruction::NotEqual => 31,
        }
    }
}

impl FromSpecImpl<Instruction> for u8 {
    open spec fn obeys_from_spec() -> bool {
        true
    }

    open spec fn from_spec(ins: Instruction) -> u8 {
        ins.opcode()
    }
}

/// A host function that the `CompilerCall` instruction can select.
#[derive(Clone, Copy, Debug, PartialEq, Eq, Structural)]
pub enum CompilerCall {
    /// No host function: the call does nothing.
    Nothing,
    /// Emits the topmost value of the stack to the output channel.
    PrintInt,
}

/// What `str::trim` returns for a string with the characters `s`: the string
/// without its leading and trailing whitespace.
pub uninterp spec fn trimmed(s: Seq<char>) -> Seq<char>;

/// `str::trim`. The result depends on the characters of the argument alone.
#[verifier::external_body]
fn trim(s: &str) -> (r: &str)
    ensures
        r@ == trimmed(s@),
{
    s.trim()
}

/// Says whether two strings hold the same characters.
pub fn same_text(a: &str, b: &str) -> (r: bool)
    ensures
        r == (a@ == b@),
{
    let n: usize = a.unicode_len();
    if b.unicode_len() != n {
        return false;
    }
    let mut i: usize = 0;
    while i < n
        invariant
            n == a@.len(),
            n == b@.len(),
            i <= n,
            forall|j: int| 0 <= j < i ==> a@[j] == b@[j],
        decreases n - i,
    {
        if a.get_char(i) != b.get_char(i) {
            return false;
        }
        i += 1;
    }
    assert(a@ =~= b@);
    true
}

impl CompilerCall {
    /// The selector of a host function.
    pub open spec fn selector(self) -> u8 {
        match self {
            CompilerCall::Nothing => 0,
            CompilerCall::PrintInt => 1,
        }
    }

    /// The host function that a selector byte names: 1 names `PrintInt`,
    /// every other byte names none.
    pub open spec fn of_selector(byte: u8) -> CompilerCall {
        if byte == 1 {
            CompilerCall::PrintInt
        } else {
            CompilerCall::Nothing
        }
    }

    /// The host function that a name without surrounding whitespace names:
    /// `print_int` names `PrintInt`, every other name names none.
    pub open spec fn named(name: Seq<char>) -> CompilerCall {
        if name == "print_int"@ {
            CompilerCall::PrintInt
        } else {
            CompilerCall::Nothing
        }
    }

    /// The host function that `name` names, taken as it stands.
    pub fn from_name(name: &str) -> (r: CompilerCall)
        ensures
            r == CompilerCall::named(name@),
    {
        if same_text(name, "print_int") {
            CompilerCall::PrintInt
        } else {
            CompilerCall::Nothing
        }
    }
}

/// A host function's selector names that host function.
pub proof fn selector_round_trip(call: CompilerCall)
    ensures
        CompilerCall::of_selector(call.selector()) == call,
{
}

impl<'a> From<&'a str> for CompilerCall {
    /// The host function that `call` names once whitespace around it is
    /// trimmed.
    fn from(call: &'a str) -> (r: CompilerCall) {
        CompilerCall::from_name(trim(call))
    }
}

impl<'a> FromSpecImpl<&'a str> for CompilerCall {
    open spec fn obeys_from_spec() -> bool {
        true
    }

    open spec fn from_spec(call: &'a str) -> CompilerCall {
        CompilerCall::named(trimmed(call@))
    }
}

impl From<u8> for CompilerCall {
    fn from(call: u8) -> (r: CompilerCall) {
        match call {
            1 => CompilerCall::PrintInt,
            _ => CompilerCall::Nothing,
        }
    }
}

impl FromSpecImpl<u8> for CompilerCall {
    open spec fn obeys_from_spec() -> bool {
        true
    }

    open spec fn from_spec(call: u8) -> CompilerCall {
        CompilerCall::of_selector(call)
    }
}

impl From<CompilerCall> for u8 {
    fn from(call: CompilerCall) -> (r: u8) {
        match call {
            CompilerCall::Nothing => 0,
            CompilerCall::PrintInt => 1,
        }
    }
}

impl FromSpecImpl<CompilerCall> for u8 {
    open spec fn obeys_from_spec() -> bool {
        true
    }

    open spec fn from_spec(call: CompilerCall) -> u8 {
        call.selector()
    }
}

} // verus!
