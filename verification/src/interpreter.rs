//! The interpreter: the machine in executable form.
//!
//! [`Interpreter::step`] runs one fetch-decode-execute cycle and reports what
//! the host has to do; [`Interpreter::run`] runs cycles until the program
//! ends or a bound is reached, and collects what the program emits.
use vstd::prelude::*;
use vstd::arithmetic::div_mod::{lemma_div_decreases, lemma_div_nonincreasing, lemma_div_pos_is_pos};
pub use crate::buffer::Instructions;
use crate::encoding::{
    field_in_bounds, i32_bytes, overwrite, read_i32, read_u16, read_u32, u16_bytes, u32_bytes,
};
pub use crate::flags::Flags;
pub use crate::instruction::{CompilerCall, Instruction};
use crate::machine::{
    binary_result, quotient_toward_zero, truth, Machine, STACK_CAPACITY,
};
pub use crate::machine::{Exit, Fault, Step};
pub use crate::stack::Stack;
use crate::word::{cast_u32_to_i32, offset_to_signed, to_signed, to_unsigned, wrap_i32, wrap_u32};

verus! {

/// A quotient rounded toward zero fits in 32 bits, but for the smallest
/// value divided by minus one.
proof fn quotient_fits(a: i32, b: i32)
    requires
        b != 0,
    ensures
        a == i32::MIN && b == -1 ==> quotient_toward_zero(a as int, b as int) > i32::MAX,
        !(a == i32::MIN && b == -1) ==> i32::MIN <= quotient_toward_zero(a as int, b as int)
            <= i32::MAX,
{
    let n: int = if a >= 0 {
        a as int
    } else {
        -(a as int)
    };
    let d: int = if b > 0 {
        b as int
    } else {
        -(b as int)
    };
    lemma_div_pos_is_pos(n, d);
    lemma_div_nonincreasing(n, d);
    if d == 1 {
        assert(n / 1 == n);
    } else if n > 0 {
        lemma_div_decreases(n, d);
    }
}

/// The quotient of `a` by `b`, rounded toward zero, where there is one.
fn divide(a: i32, b: i32) -> (r: Result<i32, Fault>)
    ensures
        r == binary_result(Instruction::I32Div, a, b),
{
    if b == 0 {
        Err(Fault::DivisionByZero)
    } else {
        proof {
            quotient_fits(a, b);
        }
        match a.checked_div(b) {
            Some(q) => Ok(q),
            None => Err(Fault::DivisionOverflow),
        }
    }
}

/// One if `b` holds, else zero.
fn truth_value(b: bool) -> (r: i32)
    ensures
        r == truth(b),
{
    if b {
        1
    } else {
        0
    }
}

/// Computes what a two-operand instruction makes of `a`, the value popped
/// first, and `b`, the value popped second.
pub fn apply_binary(ins: Instruction, a: i32, b: i32) -> (r: Result<i32, Fault>)
    ensures
        r == binary_result(ins, a, b),
{
    match ins {
        Instruction::I32Add => {
            let sum: i32 = a.wrapping_add(b);
            assert(sum == wrap_i32(a + b));
            Ok(sum)
        },
        Instruction::I32Sub => {
            let difference: i32 = a.wrapping_sub(b);
            assert(difference == wrap_i32(a - b));
            Ok(difference)
        },
        Instruction::I32Mul => {
            let product: i32 = a.wrapping_mul(b);
            assert(product == wrap_i32(a * b));
            Ok(product)
        },
        Instruction::I32Div => divide(a, b),
        Instruction::Greater => Ok(truth_value(a > b)),
        Instruction::GreaterEqual => Ok(truth_value(a >= b)),
        Instruction::Lesser => Ok(truth_value(a < b)),
        Instruction::LesserEqual => Ok(truth_value(a <= b)),
        Instruction::Equal => Ok(truth_value(a == b)),
        Instruction::NotEqual => Ok(truth_value(a != b)),
        _ => Err(Fault::InvalidInstruction(u8::from(ins))),
    }
}

/// Whether a cycle that started in `m` and is expected to end as `expected`
/// has done so: on success the machine `now` and the answer are the expected
/// ones; on a fault the expected answer is that fault with `m` unchanged,
/// and `now` still has the buffer and the cells of `m`.
spec fn settles(
    expected: (Machine, Step),
    m: Machine,
    now: Machine,
    r: Result<Step, Fault>,
) -> bool {
    &&& now.code == m.code
    &&& match r {
        Ok(step) => expected == (now, step),
        Err(fault) => expected == (m, Step::Fatal(fault)) && now.stack.cells == m.stack.cells,
    }
}

/// A machine that executes an instruction buffer.
pub struct Interpreter {
    stack: Stack,
    /// The instruction buffer.
    pub instructions: Instructions,
    ptr: usize,
    frame_ptr: u32,
    flags: Flags,
}

impl View for Interpreter {
    type V = Machine;

    closed spec fn view(&self) -> Machine {
        Machine {
            code: self.instructions@,
            stack: self.stack@,
            ip: self.ptr,
            fp: self.frame_ptr,
            flags: self.flags,
        }
    }
}

impl Interpreter {
    /// A machine ready to run `instructions` from their first byte.
    pub fn new(instructions: Vec<u8>) -> (r: Interpreter)
        ensures
            r@ == Machine::boot(instructions@),
    {
        Interpreter {
            stack: Stack::new(STACK_CAPACITY),
            instructions: Instructions { code: instructions },
            ptr: 0,
            frame_ptr: 0,
            flags: Flags::new(),
        }
    }

    /// The instruction pointer.
    pub fn instruction_pointer(&self) -> (r: usize)
        ensures
            r == self@.ip,
    {
        self.ptr
    }

    /// The frame pointer.
    pub fn frame_pointer(&self) -> (r: u32)
        ensures
            r == self@.fp,
    {
        self.frame_ptr
    }

    /// The flag register.
    pub fn flags(&self) -> (r: Flags)
        ensures
            r == self@.flags,
    {
        self.flags
    }

    /// The operand stack.
    pub fn stack(&self) -> (r: &Stack)
        ensures
            r@ == self@.stack,
    {
        &self.stack
    }

    /// Fetches the instruction at the instruction pointer and moves past its
    /// opcode; at or past the end of the buffer it is `Hlt`, and nothing moves.
    fn next_instruction(&mut self) -> (r: Instruction)
        ensures
            old(self)@.at_end() ==> r == Instruction::Hlt && final(self)@ == old(self)@,
            !old(self)@.at_end() ==> r == old(self)@.fetch() && final(self)@ == old(self)@.at(
                (old(self)@.ip + 1) as usize,
            ),
    {
        if self.ptr >= self.instructions.len() {
            return Instruction::Hlt;
        }
        let ins = Instruction::from(self.get_u8(self.ptr));
        self.ptr += 1;
        ins
    }

    /// Reads the 32-bit operand at the instruction pointer and moves past it.
    fn next_i32(&mut self) -> (r: Result<i32, Fault>)
        ensures
            field_in_bounds(old(self)@.code, old(self)@.ip as int, 4) ==> r == Ok::<i32, Fault>(
                read_i32(old(self)@.code, old(self)@.ip as int),
            ) && final(self)@ == old(self)@.at((old(self)@.ip + 4) as usize),
            !field_in_bounds(old(self)@.code, old(self)@.ip as int, 4) ==> r == Err::<i32, Fault>(
                Fault::TruncatedOperand,
            ) && final(self)@ == old(self)@,
    {
        let len: usize = self.instructions.len();
        if self.ptr > len || len - self.ptr < 4 {
            return Err(Fault::TruncatedOperand);
        }
        let val: i32 = cast_u32_to_i32(self.get_u32(self.ptr));
        self.ptr += 4;
        Ok(val)
    }

    /// Reads the one-byte operand at the instruction pointer and moves past
    /// it.
    fn next_u8(&mut self) -> (r: Result<u8, Fault>)
        ensures
            field_in_bounds(old(self)@.code, old(self)@.ip as int, 1) ==> r == Ok::<u8, Fault>(
                old(self)@.code[old(self)@.ip as int],
            ) && final(self)@ == old(self)@.at((old(self)@.ip + 1) as usize),
            !field_in_bounds(old(self)@.code, old(self)@.ip as int, 1) ==> r == Err::<u8, Fault>(
                Fault::TruncatedOperand,
            ) && final(self)@ == old(self)@,
    {
        if self.ptr >= self.instructions.len() {
            return Err(Fault::TruncatedOperand);
        }
        let val: u8 = self.get_u8(self.ptr);
        self.ptr += 1;
        Ok(val)
    }

    /// Pushes `val`, if there is room.
    fn stack_push(&mut self, val: i32) -> (r: Result<(), Fault>)
        ensures
            old(self)@.stack.can_push() ==> r is Ok && final(self)@ == old(self)@.with_stack(
                old(self)@.stack.push(val),
            ),
            !old(self)@.stack.can_push() ==> r == Err::<(), Fault>(Fault::StackOverflow)
                && final(self)@ == old(self)@,
    {
        if !self.stack.can_push() {
            return Err(Fault::StackOverflow);
        }
        self.stack.push(val);
        Ok(())
    }

    /// Pops a value, if there is a cell to pop.
    fn stack_pop(&mut self) -> (r: Result<i32, Fault>)
        ensures
            old(self)@.stack.can_pop() ==> r == Ok::<i32, Fault>(old(self)@.stack.peek())
                && final(self)@ == old(self)@.with_stack(old(self)@.stack.pop()),
            !old(self)@.stack.can_pop() ==> r == Err::<i32, Fault>(Fault::StackOutOfBounds)
                && final(self)@ == old(self)@,
    {
        if !self.stack.can_pop() {
            return Err(Fault::StackOutOfBounds);
        }
        Ok(self.stack.pop())
    }

    /// Reads the cell at `address`, if there is one.
    fn stack_get(&self, address: u32) -> (r: Result<i32, Fault>)
        ensures
            self@.stack.in_bounds(address as int) ==> r == Ok::<i32, Fault>(
                self@.stack.cells[address as int],
            ),
            !self@.stack.in_bounds(address as int) ==> r == Err::<i32, Fault>(
                Fault::StackOutOfBounds,
            ),
    {
        if !self.stack.in_bounds(address as usize) {
            return Err(Fault::StackOutOfBounds);
        }
        Ok(self.stack.get(address as usize))
    }

    /// Writes `val` into the cell at `address`, if there is one.
    fn stack_set(&mut self, address: u32, val: i32) -> (r: Result<(), Fault>)
        ensures
            old(self)@.stack.in_bounds(address as int) ==> r is Ok && final(self)@
                == old(self)@.with_stack(old(self)@.stack.store(address as int, val)),
            !old(self)@.stack.in_bounds(address as int) ==> r == Err::<(), Fault>(
                Fault::StackOutOfBounds,
            ) && final(self)@ == old(self)@,
    {
        if !self.stack.in_bounds(address as usize) {
            return Err(Fault::StackOutOfBounds);
        }
        self.stack.set(address as usize, val);
        Ok(())
    }

    /// Pushes `val`.
    fn push_value(&mut self, val: i32, Ghost(m): Ghost<Machine>) -> (r: Result<Step, Fault>)
        requires
            old(self)@ == m.at(m.next()),
        ensures
            settles(m.pushing(val), m, final(self)@, r),
    {
        proof {
            reveal(Machine::pushing);
        }
        self.stack_push(val)?;
        Ok(Step::Continue)
    }

    /// Pops a value and discards it.
    fn drop_value(&mut self, Ghost(m): Ghost<Machine>) -> (r: Result<Step, Fault>)
        requires
            old(self)@ == m.at(m.next()),
        ensures
            settles(m.dropping(), m, final(self)@, r),
    {
        proof {
            reveal(Machine::dropping);
        }
        let _ = self.stack_pop()?;
        Ok(Step::Continue)
    }

    /// Pops two values and pushes what `ins` makes of them.
    fn combine(&mut self, ins: Instruction, Ghost(m): Ghost<Machine>) -> (r: Result<Step, Fault>)
        requires
            old(self)@ == m.at(m.next()),
            ins.is_binary(),
        ensures
            settles(m.combining(ins), m, final(self)@, r),
    {
        proof {
            reveal(Machine::combining);
        }
        let a: i32 = self.stack_pop()?;
        let b: i32 = self.stack_pop()?;
        let c: i32 = apply_binary(ins, a, b)?;
        self.stack_push(c)?;
        Ok(Step::Continue)
    }

    /// Pops two values and records their difference in the flag register.
    fn compare(&mut self, Ghost(m): Ghost<Machine>) -> (r: Result<Step, Fault>)
        requires
            old(self)@ == m.at(m.next()),
        ensures
            settles(m.comparing(), m, final(self)@, r),
    {
        proof {
            reveal(Machine::comparing);
        }
        let lhs: i32 = self.stack_pop()?;
        let rhs: i32 = self.stack_pop()?;
        let diff: i32 = lhs.wrapping_sub(rhs);
        self.flags.record(diff);
        Ok(Step::Continue)
    }

    /// Calls the host function that `function` selects.
    fn call_host(&mut self, function: i32, Ghost(m): Ghost<Machine>) -> (r: Result<Step, Fault>)
        requires
            old(self)@ == m.at(m.next()),
            function == m.immediate(),
        ensures
            settles(m.calling_host(), m, final(self)@, r),
    {
        proof {
            reveal(Machine::calling_host);
        }
        match function {
            0 => Ok(Step::Continue),
            1 => {
                let val: i32 = self.stack_get(self.stack.top().wrapping_add(1))?;
                Ok(Step::Output(val))
            },
            _ => Err(Fault::UnknownCompilerCall(function)),
        }
    }

    /// Saves the return address and the frame pointer and jumps to
    /// `destination`.
    fn call(&mut self, destination: i32, Ghost(m): Ghost<Machine>) -> (r: Result<Step, Fault>)
        requires
            old(self)@ == m.at(m.next()),
            destination == m.immediate(),
        ensures
            settles(m.calling(), m, final(self)@, r),
    {
        proof {
            reveal(Machine::calling);
        }
        if !self.stack.in_bounds(self.stack.top().wrapping_sub(1) as usize) {
            return Err(Fault::StackOverflow);
        }
        self.stack_push(offset_to_signed(self.ptr))?;
        self.stack_push(to_signed(self.frame_ptr))?;
        self.ptr = to_unsigned(destination) as usize;
        self.frame_ptr = self.stack.top();
        Ok(Step::Continue)
    }

    /// Restores the frame pointer and jumps to the saved return address.
    fn ret(&mut self, Ghost(m): Ghost<Machine>) -> (r: Result<Step, Fault>)
        requires
            old(self)@ == m.at(m.next()),
        ensures
            settles(m.returning(), m, final(self)@, r),
    {
        proof {
            reveal(Machine::returning);
        }
        let frame_ptr: i32 = self.stack_pop()?;
        self.frame_ptr = to_unsigned(frame_ptr);
        let destination: i32 = self.stack_pop()?;
        self.ptr = to_unsigned(destination) as usize;
        Ok(Step::Continue)
    }

    /// Pops a value into the register that `dst` selects.
    fn pop_register(&mut self, dst: u8, Ghost(m): Ghost<Machine>) -> (r: Result<Step, Fault>)
        requires
            old(self)@ == m.at(m.next()),
            dst == m.selector(),
        ensures
            settles(m.popping_register(), m, final(self)@, r),
    {
        proof {
            reveal(Machine::popping_register);
        }
        let val: i32 = self.stack_pop()?;
        match dst {
            0 => {},
            1 => self.ptr = to_unsigned(val) as usize,
            2 => self.stack.set_top(to_unsigned(val)),
            3 => self.frame_ptr = to_unsigned(val),
            _ => return Err(Fault::UnknownRegister(dst)),
        }
        Ok(Step::Continue)
    }

    /// Pushes the register that `src` selects.
    fn push_register(&mut self, src: u8, Ghost(m): Ghost<Machine>) -> (r: Result<Step, Fault>)
        requires
            old(self)@ == m.at(m.next()),
            src == m.selector(),
        ensures
            settles(m.pushing_register(), m, final(self)@, r),
    {
        proof {
            reveal(Machine::pushing_register);
        }
        match src {
            0 => Ok(Step::Continue),
            1 => self.push_value(offset_to_signed(self.ptr), Ghost(m)),
            2 => self.push_value(to_signed(self.stack.top()), Ghost(m)),
            3 => self.push_value(to_signed(self.frame_ptr), Ghost(m)),
            _ => Err(Fault::UnknownRegister(src)),
        }
    }

    /// Pushes the cell at `address`.
    fn load(&mut self, address: u32, Ghost(m): Ghost<Machine>) -> (r: Result<Step, Fault>)
        requires
            old(self)@ == m.at(m.next()),
        ensures
            settles(m.loading(address), m, final(self)@, r),
    {
        proof {
            reveal(Machine::loading);
        }
        let val: i32 = self.stack_get(address)?;
        self.push_value(val, Ghost(m))
    }

    /// Pops a value into the cell at `address`.
    fn store(&mut self, address: u32, Ghost(m): Ghost<Machine>) -> (r: Result<Step, Fault>)
        requires
            old(self)@ == m.at(m.next()),
        ensures
            settles(m.storing(address), m, final(self)@, r),
    {
        proof {
            reveal(Machine::storing);
        }
        let val: i32 = self.stack_pop()?;
        self.stack_set(address, val)?;
        Ok(Step::Continue)
    }

    /// Pops a value into the cell whose index the cell at `pointer` holds.
    fn store_through(&mut self, pointer: u32, Ghost(m): Ghost<Machine>) -> (r: Result<
        Step,
        Fault,
    >)
        requires
            old(self)@ == m.at(m.next()),
        ensures
            settles(m.storing_through(pointer), m, final(self)@, r),
    {
        proof {
            reveal(Machine::storing_through);
        }
        let location: i32 = self.stack_get(pointer)?;
        self.store(to_unsigned(location), Ghost(m))
    }

    /// Pops an index and pushes the cell there.
    fn dereference(&mut self, Ghost(m): Ghost<Machine>) -> (r: Result<Step, Fault>)
        requires
            old(self)@ == m.at(m.next()),
        ensures
            settles(m.dereferencing(), m, final(self)@, r),
    {
        proof {
            reveal(Machine::dereferencing);
        }
        let ptr: i32 = self.stack_pop()?;
        let val: i32 = self.stack_get(to_unsigned(ptr))?;
        self.stack_push(val)?;
        Ok(Step::Continue)
    }

    /// Pops a value and jumps to `dst` if the value is zero.
    fn jump_if_zero(&mut self, dst: i32, Ghost(m): Ghost<Machine>) -> (r: Result<Step, Fault>)
        requires
            old(self)@ == m.at(m.next()),
            dst == m.immediate(),
        ensures
            settles(m.jumping_if_zero(), m, final(self)@, r),
    {
        proof {
            reveal(Machine::jumping_if_zero);
        }
        let val: i32 = self.stack_pop()?;
        if val == 0 {
            self.ptr = to_unsigned(dst) as usize;
        }
        Ok(Step::Continue)
    }

    /// Executes an instruction that has no operand.
    #[verifier::rlimit(40)]
    fn execute_plain(&mut self, ins: Instruction, Ghost(m): Ghost<Machine>) -> (r: Result<
        Step,
        Fault,
    >)
        requires
            old(self)@ == m.at(m.next()),
            ins == m.fetch(),
            ins.operand_width() == 0,
        ensures
            settles(m.execute(ins), m, final(self)@, r),
    {
        proof {
            reveal(Machine::execute);
        }
        match ins {
            Instruction::Nop => Ok(Step::Continue),
            Instruction::Hlt => Ok(Step::Halt),
            Instruction::I32Add
            | Instruction::I32Sub
            | Instruction::I32Mul
            | Instruction::I32Div
            | Instruction::Greater
            | Instruction::GreaterEqual
            | Instruction::Lesser
            | Instruction::LesserEqual
            | Instruction::Equal
            | Instruction::NotEqual => self.combine(ins, Ghost(m)),
            Instruction::Pop => self.drop_value(Ghost(m)),
            Instruction::Ret => self.ret(Ghost(m)),
            Instruction::Deref => self.dereference(Ghost(m)),
            Instruction::Cmp => self.compare(Ghost(m)),
            _ => Err(Fault::InvalidInstruction(u8::from(ins))),
        }
    }

    /// Executes an instruction whose operand is the register selector
    /// `register`.
    fn execute_with_selector(
        &mut self,
        ins: Instruction,
        register: u8,
        Ghost(m): Ghost<Machine>,
    ) -> (r: Result<Step, Fault>)
        requires
            old(self)@ == m.at(m.next()),
            ins == m.fetch(),
            ins.operand_width() == 1,
            register == m.selector(),
        ensures
            settles(m.execute(ins), m, final(self)@, r),
    {
        proof {
            reveal(Machine::execute);
        }
        match ins {
            Instruction::PushReg => self.push_register(register, Ghost(m)),
            Instruction::PopReg => self.pop_register(register, Ghost(m)),
            _ => Err(Fault::InvalidInstruction(u8::from(ins))),
        }
    }

    /// The stack index that lies `offset` cells from the frame pointer.
    fn frame_address(&self, offset: i32) -> (r: u32)
        ensures
            r == self@.frame_address(offset),
    {
        self.frame_ptr.wrapping_add_signed(offset)
    }

    /// Pushes the frame pointer plus `offset`.
    fn load_address(&mut self, offset: i32, Ghost(m): Ghost<Machine>) -> (r: Result<Step, Fault>)
        requires
            old(self)@ == m.at(m.next()),
        ensures
            settles(m.pushing(wrap_i32(m.fp + offset)), m, final(self)@, r),
    {
        let location: i32 = offset.wrapping_add(to_signed(self.frame_ptr));
        assert(location == wrap_i32(m.fp + offset));
        self.push_value(location, Ghost(m))
    }

    /// Adds `offset` to the top index.
    fn adjust_top(&mut self, offset: i32, Ghost(m): Ghost<Machine>) -> (r: Result<Step, Fault>)
        requires
            old(self)@ == m.at(m.next()),
        ensures
            settles(
                Machine::goes_on(
                    m.with_stack(m.stack.with_top(wrap_u32(m.stack.top + offset))).at(m.next()),
                ),
                m,
                final(self)@,
                r,
            ),
    {
        self.stack.set_top(self.stack.top().wrapping_add_signed(offset));
        Ok(Step::Continue)
    }

    /// Jumps to `dst`.
    fn jump(&mut self, dst: i32, Ghost(m): Ghost<Machine>) -> (r: Result<Step, Fault>)
        requires
            old(self)@ == m.at(m.next()),
        ensures
            settles(Machine::goes_on(m.at(Machine::offset_of(dst))), m, final(self)@, r),
    {
        self.ptr = to_unsigned(dst) as usize;
        Ok(Step::Continue)
    }

    /// Executes an instruction whose operand is the 32-bit value `operand`.
    #[verifier::rlimit(40)]
    fn execute_with_immediate(
        &mut self,
        ins: Instruction,
        operand: i32,
        Ghost(m): Ghost<Machine>,
    ) -> (r: Result<Step, Fault>)
        requires
            old(self)@ == m.at(m.next()),
            ins == m.fetch(),
            ins.operand_width() == 4,
            operand == m.immediate(),
        ensures
            settles(m.execute(ins), m, final(self)@, r),
    {
        proof {
            reveal(Machine::execute);
        }
        match ins {
            Instruction::Lea => self.load_address(operand, Ghost(m)),
            Instruction::Push => self.push_value(operand, Ghost(m)),
            Instruction::CompilerCall => self.call_host(operand, Ghost(m)),
            Instruction::Call => self.call(operand, Ghost(m)),
            Instruction::Load => self.load(to_unsigned(operand), Ghost(m)),
            Instruction::Store => self.store(to_unsigned(operand), Ghost(m)),
            Instruction::LoadRelative => self.load(self.frame_address(operand), Ghost(m)),
            Instruction::StoreRelative => self.store(self.frame_address(operand), Ghost(m)),
            Instruction::StackAdd => self.adjust_top(operand, Ghost(m)),
            Instruction::DerefAssignRelative => self.store_through(
                self.frame_address(operand),
                Ghost(m),
            ),
            Instruction::DerefAssign => self.store_through(to_unsigned(operand), Ghost(m)),
            Instruction::Jmp => self.jump(operand, Ghost(m)),
            Instruction::Jz => self.jump_if_zero(operand, Ghost(m)),
            _ => Err(Fault::InvalidInstruction(u8::from(ins))),
        }
    }

    /// Runs one cycle on the registers and the stack. On a fault the
    /// registers may have moved; the buffer and the cells have not.
    fn execute(&mut self) -> (r: Result<Step, Fault>)
        ensures
            settles(old(self)@.step(), old(self)@, final(self)@, r),
    {
        let ghost m = self@;
        if self.ptr >= self.instructions.len() {
            return Ok(Step::Halt);
        }
        let ins = self.next_instruction();
        let width: usize = ins.width();
        if width == 4 {
            let operand: i32 = self.next_i32()?;
            self.execute_with_immediate(ins, operand, Ghost(m))
        } else if width == 1 {
            let register: u8 = self.next_u8()?;
            self.execute_with_selector(ins, register, Ghost(m))
        } else {
            self.execute_plain(ins, Ghost(m))
        }
    }

    /// Runs one fetch-decode-execute cycle and says what it asks of the
    /// host. A cycle that ends in a fault leaves the machine as it was.
    pub fn step(&mut self) -> (r: Step)
        ensures
            final(self)@ == old(self)@.step().0,
            r == old(self)@.step().1,
    {
        let ip: usize = self.ptr;
        let fp: u32 = self.frame_ptr;
        let top: u32 = self.stack.top();
        let flags = self.flags;
        match self.execute() {
            Ok(step) => step,
            Err(fault) => {
                self.ptr = ip;
                self.frame_ptr = fp;
                self.stack.set_top(top);
                self.flags = flags;
                assert(self@ =~= old(self)@);
                Step::Fatal(fault)
            },
        }
    }

    /// Runs cycles until the program halts, fails, or `cycles` of them have
    /// run, and appends every value that the program emits to `output`.
    pub fn run(&mut self, cycles: u64, output: &mut Vec<i32>) -> (r: Exit)
        ensures
            final(self)@ == old(self)@.run(cycles as nat).0,
            final(output)@ == old(output)@ + old(self)@.run(cycles as nat).1,
            r == old(self)@.run(cycles as nat).2,
    {
        let ghost start = self@;
        let ghost before = output@;
        let ghost done = Seq::<i32>::empty();
        let mut left: u64 = cycles;
        proof {
            assert(done + self@.run(left as nat).1 =~= self@.run(left as nat).1);
            assert(before + done =~= before);
        }
        while left > 0
            invariant
                start == old(self)@,
                before == old(output)@,
                output@ == before + done,
                start.run(cycles as nat) == Machine::emitted(done, self@.run(left as nat)),
            decreases left,
        {
            let ghost now = self@;
            match self.step() {
                Step::Continue => {},
                Step::Output(val) => {
                    output.push(val);
                    proof {
                        let rest = self@.run((left - 1) as nat);
                        assert(done + (seq![val] + rest.1) =~= done.push(val) + rest.1);
                        assert((before + done).push(val) =~= before + done.push(val));
                        done = done.push(val);
                    }
                },
                Step::Halt => {
                    proof {
                        assert(done + Seq::<i32>::empty() =~= done);
                    }
                    return Exit::Halt;
                },
                Step::Fatal(fault) => {
                    proof {
                        assert(done + Seq::<i32>::empty() =~= done);
                    }
                    return Exit::Fatal(fault);
                },
            }
            left -= 1;
        }
        proof {
            assert(done + Seq::<i32>::empty() =~= done);
        }
        Exit::OutOfCycles
    }

    /// Appends one byte to the buffer.
    pub fn push_u8_operand(&mut self, val: u8)
        ensures
            final(self)@ == (Machine { code: old(self)@.code.push(val), ..old(self)@ }),
    {
        self.instructions.push(val)
    }

    /// Appends a 16-bit field to the buffer.
    pub fn push_u16_operand(&mut self, val: u16)
        ensures
            final(self)@ == (Machine { code: old(self)@.code + u16_bytes(val), ..old(self)@ }),
    {
        self.instructions.push_u16_operand(val)
    }

    /// Appends a 32-bit field to the buffer.
    pub fn push_u32_operand(&mut self, val: u32)
        ensures
            final(self)@ == (Machine { code: old(self)@.code + u32_bytes(val), ..old(self)@ }),
    {
        self.instructions.push_u32_operand(val)
    }

    /// Appends a signed 32-bit field to the buffer.
    pub fn push_i32_operand(&mut self, val: i32)
        ensures
            final(self)@ == (Machine { code: old(self)@.code + i32_bytes(val), ..old(self)@ }),
    {
        self.instructions.push_i32_operand(val)
    }

    /// Overwrites the byte at `index` of the buffer.
    pub fn set_u8_operand(&mut self, val: u8, index: usize)
        requires
            index < old(self)@.code.len(),
        ensures
            final(self)@ == (Machine {
                code: old(self)@.code.update(index as int, val),
                ..old(self)@
            }),
    {
        self.instructions.set_u8_operand(val, index);
    }

    /// Overwrites the 16-bit field at `index` of the buffer.
    pub fn set_u16_operand(&mut self, val: u16, index: usize)
        requires
            field_in_bounds(old(self)@.code, index as int, 2),
        ensures
            final(self)@ == (Machine {
                code: overwrite(old(self)@.code, index as int, u16_bytes(val)),
                ..old(self)@
            }),
    {
        self.instructions.set_u16_operand(val, index);
    }

    /// Overwrites the 32-bit field at `index` of the buffer.
    pub fn set_u32_operand(&mut self, val: u32, index: usize)
        requires
            field_in_bounds(old(self)@.code, index as int, 4),
        ensures
            final(self)@ == (Machine {
                code: overwrite(old(self)@.code, index as int, u32_bytes(val)),
                ..old(self)@
            }),
    {
        self.instructions.set_u32_operand(val, index);
    }

    /// Overwrites the signed 32-bit field at `index` of the buffer.
    pub fn set_i32_operand(&mut self, val: i32, index: usize)
        requires
            field_in_bounds(old(self)@.code, index as int, 4),
        ensures
            final(self)@ == (Machine {
                code: overwrite(old(self)@.code, index as int, i32_bytes(val)),
                ..old(self)@
            }),
    {
        self.instructions.set_i32_operand(val, index);
    }

    /// The byte at `index` of the buffer.
    pub fn get_u8(&self, index: usize) -> (r: u8)
        requires
            index < self@.code.len(),
        ensures
            r == self@.code[index as int],
    {
        self.instructions.get_u8(index)
    }

    /// The 16-bit field at `index` of the buffer.
    pub fn get_u16(&self, index: usize) -> (r: u16)
        requires
            field_in_bounds(self@.code, index as int, 2),
        ensures
            r == read_u16(self@.code, index as int),
    {
        self.instructions.get_u16(index)
    }

    /// The 32-bit field at `index` of the buffer.
    pub fn get_u32(&self, index: usize) -> (r: u32)
        requires
            field_in_bounds(self@.code, index as int, 4),
        ensures
            r == read_u32(self@.code, index as int),
    {
        self.instructions.get_u32(index)
    }
}

} // verus!
