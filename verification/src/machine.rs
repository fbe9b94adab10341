//! The machine as a mathematical value, and what one instruction does to it.
//!
//! One cycle fetches the opcode at the instruction pointer, reads the operand
//! that follows it, and executes the instruction. A cycle that meets a fatal
//! condition changes nothing: the machine stays as it was, pointing at the
//! instruction that failed.
use vstd::prelude::*;
use crate::encoding::read_i32;
use crate::flags::Flags;
use crate::instruction::Instruction;
use crate::stack::StackView;
use crate::word::{reinterpretation_is_a_bijection, wrap_i32, wrap_steps_cancel, wrap_u32};

verus! {

/// A fatal condition. None is recoverable: the run ends with it.
#[derive(Clone, Copy, Debug, PartialEq, Eq)]
pub enum Fault {
    /// A push found the top index outside the cells.
    StackOverflow,
    /// A pop or an addressed access named an index outside the cells.
    StackOutOfBounds,
    /// The operand of the instruction runs past the end of the buffer.
    TruncatedOperand,
    /// A host call with a selector that names no host function.
    UnknownCompilerCall(i32),
    /// A register selector that names no register.
    UnknownRegister(u8),
    /// An opcode that cannot be executed.
    InvalidInstruction(u8),
    /// A division by zero.
    DivisionByZero,
    /// The division of the smallest value by minus one.
    DivisionOverflow,
}

/// What one cycle asks of the host.
#[derive(Clone, Copy, Debug, PartialEq, Eq)]
pub enum Step {
    /// Nothing: go on with the next cycle.
    Continue,
    /// Emit this value to the output channel, then go on.
    Output(i32),
    /// The run has ended cleanly.
    Halt,
    /// The run has ended with a fatal condition.
    Fatal(Fault),
}

/// How a bounded run ended.
#[derive(Clone, Copy, Debug, PartialEq, Eq)]
pub enum Exit {
    /// The program halted.
    Halt,
    /// The program met a fatal condition.
    Fatal(Fault),
    /// The cycles allowed were used up before the program ended.
    OutOfCycles,
}

/// The state of the machine.
#[verifier::ext_equal]
pub struct Machine {
    /// The instruction buffer.
    pub code: Seq<u8>,
    /// The operand stack.
    pub stack: StackView,
    /// The instruction pointer: the byte offset of the next opcode.
    pub ip: usize,
    /// The frame pointer: the stack index at the base of the current frame.
    pub fp: u32,
    /// The flag register.
    pub flags: Flags,
}

/// The number of cells of a new machine's stack.
pub const STACK_CAPACITY: usize = 1024;

/// The quotient of `a` by `b`, rounded toward zero.
pub open spec fn quotient_toward_zero(a: int, b: int) -> int {
    if a >= 0 {
        if b > 0 {
            a / b
        } else {
            -(a / (-b))
        }
    } else {
        if b > 0 {
            -((-a) / b)
        } else {
            (-a) / (-b)
        }
    }
}

/// One if `b` holds, else zero.
pub open spec fn truth(b: bool) -> i32 {
    if b {
        1
    } else {
        0
    }
}

/// What a two-operand instruction makes of `a`, the value popped first, and
/// `b`, the value popped second. Sums, differences and products wrap around
/// modulo 2^32; a quotient that does not exist is a fault, and so is an
/// instruction that takes no two operands.
pub open spec fn binary_result(ins: Instruction, a: i32, b: i32) -> Result<i32, Fault> {
    match ins {
        Instruction::I32Add => Ok(wrap_i32(a + b)),
        Instruction::I32Sub => Ok(wrap_i32(a - b)),
        Instruction::I32Mul => Ok(wrap_i32(a * b)),
        Instruction::I32Div => if b == 0 {
            Err(Fault::DivisionByZero)
        } else if a == i32::MIN && b == -1 {
            Err(Fault::DivisionOverflow)
        } else {
            Ok(wrap_i32(quotient_toward_zero(a as int, b as int)))
        },
        Instruction::Greater => Ok(truth(a > b)),
        Instruction::GreaterEqual => Ok(truth(a >= b)),
        Instruction::Lesser => Ok(truth(a < b)),
        Instruction::LesserEqual => Ok(truth(a <= b)),
        Instruction::Equal => Ok(truth(a == b)),
        Instruction::NotEqual => Ok(truth(a != b)),
        _ => Err(Fault::InvalidInstruction(ins.opcode())),
    }
}

impl Machine {
    /// A new machine for `code`: a stack of `STACK_CAPACITY` zero cells,
    /// both pointers at zero, every flag down.
    pub open spec fn boot(code: Seq<u8>) -> Machine {
        Machine {
            code,
            stack: StackView::fresh(STACK_CAPACITY as nat),
            ip: 0,
            fp: 0,
            flags: Flags::cleared(),
        }
    }

    /// Whether the instruction pointer is at or past the end of the buffer,
    /// which halts the machine.
    pub open spec fn at_end(self) -> bool {
        self.ip >= self.code.len()
    }

    /// The instruction at the instruction pointer.
    pub open spec fn fetch(self) -> Instruction {
        Instruction::decode(self.code[self.ip as int])
    }

    /// Whether `width` operand bytes follow the opcode inside the buffer.
    pub open spec fn has_operand(self, width: int) -> bool {
        self.ip + 1 + width <= self.code.len()
    }

    /// The 32-bit operand of the instruction at the instruction pointer.
    pub open spec fn immediate(self) -> i32 {
        read_i32(self.code, self.ip + 1)
    }

    /// The one-byte operand of the instruction at the instruction pointer.
    pub open spec fn selector(self) -> u8 {
        self.code[self.ip + 1]
    }

    /// The offset just past the instruction at the instruction pointer.
    pub open spec fn next(self) -> usize {
        (self.ip + 1 + self.fetch().operand_width()) as usize
    }

    /// A 32-bit value as a byte offset.
    pub open spec fn offset_of(val: i32) -> usize {
        wrap_u32(val as int) as usize
    }

    /// The stack index that lies `offset` cells from the frame pointer.
    pub open spec fn frame_address(self, offset: i32) -> u32 {
        wrap_u32(self.fp + offset)
    }

    /// The machine with another instruction pointer.
    pub open spec fn at(self, ip: usize) -> Machine {
        Machine { ip, ..self }
    }

    /// The machine with another stack.
    pub open spec fn with_stack(self, stack: StackView) -> Machine {
        Machine { stack, ..self }
    }

    /// The cycle goes on with `m`.
    pub open spec fn goes_on(m: Machine) -> (Machine, Step) {
        (m, Step::Continue)
    }

    /// The cycle fails: the machine stays as it is.
    pub open spec fn fails(self, fault: Fault) -> (Machine, Step) {
        (self, Step::Fatal(fault))
    }

    /// Pushes `val` and moves past the instruction.
    #[verifier::opaque]
    pub open spec fn pushing(self, val: i32) -> (Machine, Step) {
        if !self.stack.can_push() {
            self.fails(Fault::StackOverflow)
        } else {
            Machine::goes_on(self.with_stack(self.stack.push(val)).at(self.next()))
        }
    }

    /// Pops one value and moves past the instruction.
    #[verifier::opaque]
    pub open spec fn dropping(self) -> (Machine, Step) {
        if !self.stack.can_pop() {
            self.fails(Fault::StackOutOfBounds)
        } else {
            Machine::goes_on(self.with_stack(self.stack.pop()).at(self.next()))
        }
    }

    /// Pops two values and pushes what `ins` makes of them.
    #[verifier::opaque]
    pub open spec fn combining(self, ins: Instruction) -> (Machine, Step) {
        let s = self.stack;
        if !s.can_pop() || !s.pop().can_pop() {
            self.fails(Fault::StackOutOfBounds)
        } else {
            match binary_result(ins, s.peek(), s.pop().peek()) {
                Err(fault) => self.fails(fault),
                Ok(val) => Machine::goes_on(
                    self.with_stack(s.pop().pop().push(val)).at(self.next()),
                ),
            }
        }
    }

    /// Pops two values and records their difference in the flag register.
    #[verifier::opaque]
    pub open spec fn comparing(self) -> (Machine, Step) {
        let s = self.stack;
        if !s.can_pop() || !s.pop().can_pop() {
            self.fails(Fault::StackOutOfBounds)
        } else {
            Machine::goes_on(
                Machine {
                    stack: s.pop().pop(),
                    ip: self.next(),
                    flags: self.flags.compared(wrap_i32(s.peek() - s.pop().peek())),
                    ..self
                },
            )
        }
    }

    /// Calls the host function that the operand selects: 0 does nothing, 1
    /// emits the topmost value without popping it.
    #[verifier::opaque]
    pub open spec fn calling_host(self) -> (Machine, Step) {
        let function = self.immediate();
        if function == 0 {
            Machine::goes_on(self.at(self.next()))
        } else if function == 1 {
            if !self.stack.can_pop() {
                self.fails(Fault::StackOutOfBounds)
            } else {
                (self.at(self.next()), Step::Output(self.stack.peek()))
            }
        } else {
            self.fails(Fault::UnknownCompilerCall(function))
        }
    }

    /// Pushes the return address, then the frame pointer; jumps to the
    /// operand; the frame pointer becomes the new top index.
    #[verifier::opaque]
    pub open spec fn calling(self) -> (Machine, Step) {
        let s = self.stack;
        let saved = s.push(wrap_i32(self.next() as int)).push(wrap_i32(self.fp as int));
        if !s.can_push() || !s.push(wrap_i32(self.next() as int)).can_push() {
            self.fails(Fault::StackOverflow)
        } else {
            Machine::goes_on(
                Machine {
                    stack: saved,
                    ip: Machine::offset_of(self.immediate()),
                    fp: saved.top,
                    ..self
                },
            )
        }
    }

    /// Pops the frame pointer, then the return address, and jumps there.
    #[verifier::opaque]
    pub open spec fn returning(self) -> (Machine, Step) {
        let s = self.stack;
        if !s.can_pop() || !s.pop().can_pop() {
            self.fails(Fault::StackOutOfBounds)
        } else {
            Machine::goes_on(
                Machine {
                    stack: s.pop().pop(),
                    ip: Machine::offset_of(s.pop().peek()),
                    fp: wrap_u32(s.peek() as int),
                    ..self
                },
            )
        }
    }

    /// Pushes the register that the selector names: 0 none, 1 the
    /// instruction pointer, 2 the top index, 3 the frame pointer.
    #[verifier::opaque]
    pub open spec fn pushing_register(self) -> (Machine, Step) {
        let register = self.selector();
        if register == 0 {
            Machine::goes_on(self.at(self.next()))
        } else if register == 1 {
            self.pushing(wrap_i32(self.next() as int))
        } else if register == 2 {
            self.pushing(wrap_i32(self.stack.top as int))
        } else if register == 3 {
            self.pushing(wrap_i32(self.fp as int))
        } else {
            self.fails(Fault::UnknownRegister(register))
        }
    }

    /// Pops a value into the register that the selector names; selector 0
    /// pops and discards.
    #[verifier::opaque]
    pub open spec fn popping_register(self) -> (Machine, Step) {
        let register = self.selector();
        let s = self.stack;
        let popped = self.with_stack(s.pop()).at(self.next());
        if !s.can_pop() {
            self.fails(Fault::StackOutOfBounds)
        } else if register == 0 {
            Machine::goes_on(popped)
        } else if register == 1 {
            Machine::goes_on(popped.at(Machine::offset_of(s.peek())))
        } else if register == 2 {
            Machine::goes_on(popped.with_stack(s.pop().with_top(wrap_u32(s.peek() as int))))
        } else if register == 3 {
            Machine::goes_on(Machine { fp: wrap_u32(s.peek() as int), ..popped })
        } else {
            self.fails(Fault::UnknownRegister(register))
        }
    }

    /// Pushes the cell at `address`.
    #[verifier::opaque]
    pub open spec fn loading(self, address: u32) -> (Machine, Step) {
        if !self.stack.in_bounds(address as int) {
            self.fails(Fault::StackOutOfBounds)
        } else {
            self.pushing(self.stack.cells[address as int])
        }
    }

    /// Pops a value into the cell at `address`.
    #[verifier::opaque]
    pub open spec fn storing(self, address: u32) -> (Machine, Step) {
        let s = self.stack;
        if !s.can_pop() || !s.in_bounds(address as int) {
            self.fails(Fault::StackOutOfBounds)
        } else {
            Machine::goes_on(
                self.with_stack(s.pop().store(address as int, s.peek())).at(self.next()),
            )
        }
    }

    /// Pops a value into the cell whose index the cell at `pointer` holds.
    #[verifier::opaque]
    pub open spec fn storing_through(self, pointer: u32) -> (Machine, Step) {
        if !self.stack.in_bounds(pointer as int) {
            self.fails(Fault::StackOutOfBounds)
        } else {
            self.storing(wrap_u32(self.stack.cells[pointer as int] as int))
        }
    }

    /// Pops an index and pushes the cell there.
    #[verifier::opaque]
    pub open spec fn dereferencing(self) -> (Machine, Step) {
        let s = self.stack;
        let pointer = wrap_u32(s.peek() as int);
        if !s.can_pop() || !s.in_bounds(pointer as int) {
            self.fails(Fault::StackOutOfBounds)
        } else {
            Machine::goes_on(
                self.with_stack(s.pop().push(s.cells[pointer as int])).at(self.next()),
            )
        }
    }

    /// Pops a value and jumps to the operand if the value is zero. The flag
    /// register plays no part.
    #[verifier::opaque]
    pub open spec fn jumping_if_zero(self) -> (Machine, Step) {
        let s = self.stack;
        if !s.can_pop() {
            self.fails(Fault::StackOutOfBounds)
        } else if s.peek() == 0 {
            Machine::goes_on(self.with_stack(s.pop()).at(Machine::offset_of(self.immediate())))
        } else {
            Machine::goes_on(self.with_stack(s.pop()).at(self.next()))
        }
    }

    /// What the instruction `ins`, found at the instruction pointer with its
    /// operand inside the buffer, does.
    #[verifier::opaque]
    pub open spec fn execute(self, ins: Instruction) -> (Machine, Step) {
        match ins {
            Instruction::Nop => Machine::goes_on(self.at(self.next())),
            Instruction::Hlt => (self.at(self.next()), Step::Halt),
            Instruction::I32Add
            | Instruction::I32Sub
            | Instruction::I32Mul
            | Instruction::I32Div
            | Instruction::Greater
            | Instruction::GreaterEqual
            | Instruction::Lesser
            | Instruction::LesserEqual
            | Instruction::Equal
            | Instruction::NotEqual => self.combining(ins),
            Instruction::Push => self.pushing(self.immediate()),
            Instruction::Pop => self.dropping(),
            Instruction::CompilerCall => self.calling_host(),
            Instruction::Call => self.calling(),
            Instruction::Ret => self.returning(),
            Instruction::PushReg => self.pushing_register(),
            Instruction::PopReg => self.popping_register(),
            Instruction::Store => self.storing(wrap_u32(self.immediate() as int)),
            Instruction::Load => self.loading(wrap_u32(self.immediate() as int)),
            Instruction::StoreRelative => self.storing(self.frame_address(self.immediate())),
            Instruction::LoadRelative => self.loading(self.frame_address(self.immediate())),
            Instruction::StackAdd => Machine::goes_on(
                self.with_stack(
                    self.stack.with_top(wrap_u32(self.stack.top + self.immediate())),
                ).at(self.next()),
            ),
            Instruction::Deref => self.dereferencing(),
            Instruction::Lea => self.pushing(wrap_i32(self.fp + self.immediate())),
            Instruction::DerefAssign => self.storing_through(wrap_u32(self.immediate() as int)),
            Instruction::DerefAssignRelative => self.storing_through(
                self.frame_address(self.immediate()),
            ),
            Instruction::Cmp => self.comparing(),
            Instruction::Jmp => Machine::goes_on(self.at(Machine::offset_of(self.immediate()))),
            Instruction::Jz => self.jumping_if_zero(),
            Instruction::Jnz => self.fails(Fault::InvalidInstruction(ins.opcode())),
        }
    }

    /// One cycle: the machine after it, and what it asks of the host.
    ///
    /// At or past the end of the buffer the machine halts where it is. An
    /// operand that runs past the end of the buffer is a fault.
    pub open spec fn step(self) -> (Machine, Step) {
        if self.at_end() {
            (self, Step::Halt)
        } else if !self.has_operand(self.fetch().operand_width()) {
            self.fails(Fault::TruncatedOperand)
        } else {
            self.execute(self.fetch())
        }
    }
    /// A run of at most `cycles` cycles: the machine at its end, the values
    /// emitted in order, and how it ended. The machine stops at the first
    /// cycle that halts or fails.
    pub open spec fn run(self, cycles: nat) -> (Machine, Seq<i32>, Exit)
        decreases cycles,
    {
        if cycles == 0 {
            (self, Seq::<i32>::empty(), Exit::OutOfCycles)
        } else {
            match self.step().1 {
                Step::Continue => self.step().0.run((cycles - 1) as nat),
                Step::Output(val) => Machine::emitted(
                    seq![val],
                    self.step().0.run((cycles - 1) as nat),
                ),
                Step::Halt => (self.step().0, Seq::<i32>::empty(), Exit::Halt),
                Step::Fatal(fault) => (self.step().0, Seq::<i32>::empty(), Exit::Fatal(fault)),
            }
        }
    }

    /// The run `rest` with `before` emitted ahead of it.
    pub open spec fn emitted(before: Seq<i32>, rest: (Machine, Seq<i32>, Exit)) -> (
        Machine,
        Seq<i32>,
        Exit,
    ) {
        (rest.0, before + rest.1, rest.2)
    }
}

/// A cycle that ends in a fault leaves the machine as it was, and no cycle
/// changes the buffer or the number of cells.
#[verifier::rlimit(50)]
pub proof fn step_keeps_code_and_capacity(m: Machine)
    ensures
        m.step().1 is Fatal ==> m.step().0 == m,
        m.step().0.code == m.code,
        m.step().0.stack.cells.len() == m.stack.cells.len(),
{
    reveal(Machine::execute);
    reveal(Machine::pushing);
    reveal(Machine::dropping);
    reveal(Machine::combining);
    reveal(Machine::comparing);
    reveal(Machine::calling_host);
    reveal(Machine::calling);
    reveal(Machine::returning);
    reveal(Machine::pushing_register);
    reveal(Machine::popping_register);
    reveal(Machine::loading);
    reveal(Machine::storing);
    reveal(Machine::storing_through);
    reveal(Machine::dereferencing);
    reveal(Machine::jumping_if_zero);
}

/// Frame balance. Let a `Call` succeed, and let the subroutine come to a
/// `Ret` with the top index where the call left it and the two cells of the
/// frame header as the call wrote them. Then the `Ret` succeeds and restores
/// the instruction pointer to the instruction after the `Call`, the frame
/// pointer to its value before the call, and the top index likewise.
///
/// The return address is saved in a 32-bit cell, so the law is stated for
/// return addresses that fit in 32 bits.
#[verifier::rlimit(50)]
pub proof fn call_and_return_are_balanced(caller: Machine, callee: Machine)
    requires
        !caller.at_end(),
        caller.fetch() == Instruction::Call,
        caller.step().1 == Step::Continue,
        caller.ip + 5 <= u32::MAX,
        !callee.at_end(),
        callee.fetch() == Instruction::Ret,
        callee.code == caller.code,
        callee.stack.cells.len() == caller.stack.cells.len(),
        callee.stack.top == caller.step().0.stack.top,
        callee.stack.cells[callee.stack.pop().top as int] == caller.step().0.stack.cells[
            callee.stack.pop().top as int],
        callee.stack.cells[callee.stack.pop().pop().top as int] == caller.step().0.stack.cells[
            callee.stack.pop().pop().top as int],
    ensures
        caller.step().0.fp == caller.step().0.stack.top,
        callee.step().1 == Step::Continue,
        callee.step().0.ip == caller.ip + 5,
        callee.step().0.fp == caller.fp,
        callee.step().0.stack.top == caller.stack.top,
{
    assert(caller.step() == caller.calling() && callee.step() == callee.returning()) by {
        reveal(Machine::execute);
    }
    reveal(Machine::calling);
    reveal(Machine::returning);
    let pushed = caller.stack.push(wrap_i32(caller.next() as int));
    let saved = pushed.push(wrap_i32(caller.fp as int));
    assert(caller.step().0.stack == saved);
    wrap_steps_cancel(caller.stack.top);
    wrap_steps_cancel(pushed.top);
    assert(callee.stack.pop().top == pushed.top);
    assert(callee.stack.pop().pop().top == caller.stack.top);
    assert(callee.stack.peek() == wrap_i32(caller.fp as int));
    assert(callee.stack.pop().peek() == wrap_i32(caller.next() as int));
    reinterpretation_is_a_bijection(0, caller.fp);
    reinterpretation_is_a_bijection(0, (caller.ip + 5) as u32);
}

/// A run goes on where a shorter run stopped for want of cycles: running
/// `first` cycles and then `second` more is running `first + second`.
pub proof fn run_in_two_parts(m: Machine, first: nat, second: nat)
    ensures
        m.run(first).2 == Exit::OutOfCycles ==> m.run(first + second) == Machine::emitted(
            m.run(first).1,
            m.run(first).0.run(second),
        ),
        m.run(first).2 != Exit::OutOfCycles ==> m.run(first + second) == m.run(first),
    decreases first,
{
    if first == 0 {
        assert(Seq::<i32>::empty() + m.run(second).1 =~= m.run(second).1);
    } else {
        let next = m.step().0;
        let before = (first - 1) as nat;
        run_in_two_parts(next, before, second);
        assert(before + second == (first + second - 1) as nat);
        match m.step().1 {
            Step::Output(val) => {
                if next.run(before).2 == Exit::OutOfCycles {
                    assert(seq![val] + (next.run(before).1 + next.run(before).0.run(second).1)
                        =~= (seq![val] + next.run(before).1) + next.run(before).0.run(second).1);
                }
            },
            _ => {},
        }
    }
}

} // verus!
