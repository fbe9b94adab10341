use stack_vm::interpreter::{
    apply_binary, Exit, Fault, Instruction, Instructions, Interpreter, Step,
};

fn op(code: &mut Instructions, ins: Instruction) {
    code.push_instruction(ins);
}

fn op_i32(code: &mut Instructions, ins: Instruction, operand: i32) {
    code.push_instruction(ins);
    code.push_i32_operand(operand);
}

fn op_u8(code: &mut Instructions, ins: Instruction, operand: u8) {
    code.push_instruction(ins);
    code.push_u8_operand(operand);
}

fn run(code: Instructions) -> (Interpreter, Exit, Vec<i32>) {
    let mut machine = Interpreter::new(code.code);
    let mut output: Vec<i32> = Vec::new();
    let exit = machine.run(100_000, &mut output);
    (machine, exit, output)
}

/// Runs `body`, then emits the topmost value and halts.
fn result_of(mut code: Instructions) -> (Exit, Vec<i32>) {
    op_i32(&mut code, Instruction::CompilerCall, 1);
    op(&mut code, Instruction::Hlt);
    let (_, exit, output) = run(code);
    (exit, output)
}

fn binary(ins: Instruction, first_popped: i32, second_popped: i32) -> (Exit, Vec<i32>) {
    let mut code = Instructions::new();
    op_i32(&mut code, Instruction::Push, second_popped);
    op_i32(&mut code, Instruction::Push, first_popped);
    op(&mut code, ins);
    result_of(code)
}

#[test]
fn sum_is_emitted_and_the_run_halts() {
    let mut code = Instructions::new();
    op_i32(&mut code, Instruction::Push, 10);
    op_i32(&mut code, Instruction::Push, 20);
    op(&mut code, Instruction::I32Add);
    op_i32(&mut code, Instruction::CompilerCall, 1);
    op(&mut code, Instruction::Hlt);
    let (machine, exit, output) = run(code);
    assert_eq!(exit, Exit::Halt);
    assert_eq!(output, vec![30]);
    assert_eq!(machine.instruction_pointer(), 17);
    assert_eq!(machine.stack().top(), 1022);
    assert_eq!(machine.stack().get(1023), 30);
}

#[test]
fn each_cycle_reports_what_the_host_has_to_do() {
    let mut code = Instructions::new();
    op_i32(&mut code, Instruction::Push, 10);
    op_i32(&mut code, Instruction::CompilerCall, 0);
    op_i32(&mut code, Instruction::CompilerCall, 1);
    op(&mut code, Instruction::Nop);
    op(&mut code, Instruction::Hlt);
    let mut machine = Interpreter::new(code.code);
    assert_eq!(machine.step(), Step::Continue);
    assert_eq!(machine.instruction_pointer(), 5);
    assert_eq!(machine.step(), Step::Continue);
    assert_eq!(machine.step(), Step::Output(10));
    assert_eq!(machine.stack().top(), 1022);
    assert_eq!(machine.step(), Step::Continue);
    assert_eq!(machine.instruction_pointer(), 16);
    assert_eq!(machine.step(), Step::Halt);
    assert_eq!(machine.instruction_pointer(), 17);
    assert_eq!(machine.step(), Step::Halt);
    assert_eq!(machine.instruction_pointer(), 17);
}

#[test]
fn an_empty_buffer_halts_at_once() {
    let (machine, exit, output) = run(Instructions::new());
    assert_eq!(exit, Exit::Halt);
    assert!(output.is_empty());
    assert_eq!(machine.instruction_pointer(), 0);
    assert_eq!(machine.frame_pointer(), 0);
    assert_eq!(machine.stack().top(), 1023);
    assert_eq!(machine.stack().capacity(), 1024);
}

#[test]
fn unknown_bytes_execute_as_nop() {
    let mut code = Instructions::new();
    code.push_u8_operand(200);
    code.push_u8_operand(32);
    op(&mut code, Instruction::Hlt);
    let mut machine = Interpreter::new(code.code);
    assert_eq!(machine.step(), Step::Continue);
    assert_eq!(machine.step(), Step::Continue);
    assert_eq!(machine.step(), Step::Halt);
}

#[test]
fn pushing_past_capacity_is_a_stack_overflow() {
    let mut code = Instructions::new();
    for i in 0..1025 {
        op_i32(&mut code, Instruction::Push, i);
    }
    op(&mut code, Instruction::Hlt);
    let mut machine = Interpreter::new(code.code);
    for _ in 0..1024 {
        assert_eq!(machine.step(), Step::Continue);
    }
    assert_eq!(machine.stack().get(0), 1023);
    assert_eq!(machine.stack().top(), u32::MAX);
    assert_eq!(machine.step(), Step::Fatal(Fault::StackOverflow));
    assert_eq!(machine.instruction_pointer(), 1024 * 5);
    assert_eq!(machine.stack().top(), u32::MAX);

    let mut again = Instructions::new();
    for i in 0..1025 {
        op_i32(&mut again, Instruction::Push, i);
    }
    let (_, exit, output) = run(again);
    assert_eq!(exit, Exit::Fatal(Fault::StackOverflow));
    assert!(output.is_empty());
}

fn flags_after_cmp(lhs: i32, rhs: i32) -> (bool, bool, bool, bool) {
    let mut code = Instructions::new();
    op_i32(&mut code, Instruction::Push, rhs);
    op_i32(&mut code, Instruction::Push, lhs);
    op(&mut code, Instruction::Cmp);
    op(&mut code, Instruction::Hlt);
    let (machine, exit, _) = run(code);
    assert_eq!(exit, Exit::Halt);
    assert_eq!(machine.stack().top(), 1023);
    let f = machine.flags();
    assert!(!f.overflow && !f.underflow && !f.halted && !f.carry && !f.div_by_zero);
    (f.equals, f.not_zero, f.less_than, f.greater_than)
}

#[test]
fn cmp_sets_the_flag_register() {
    assert_eq!(flags_after_cmp(5, 5), (true, false, false, false));
    assert_eq!(flags_after_cmp(3, 5), (false, true, true, false));
    assert_eq!(flags_after_cmp(5, 3), (false, true, false, true));
    assert_eq!(flags_after_cmp(-1, 0), (false, true, true, false));
}

fn jz_lands_at(popped: i32, with_cmp_of: Option<(i32, i32)>) -> usize {
    let mut code = Instructions::new();
    if let Some((lhs, rhs)) = with_cmp_of {
        op_i32(&mut code, Instruction::Push, rhs);
        op_i32(&mut code, Instruction::Push, lhs);
        op(&mut code, Instruction::Cmp);
    }
    op_i32(&mut code, Instruction::Push, popped);
    op_i32(&mut code, Instruction::Jz, 500);
    let end = code.len();
    let mut machine = Interpreter::new(code.code);
    while machine.instruction_pointer() < end - 5 {
        assert_eq!(machine.step(), Step::Continue);
    }
    assert_eq!(machine.step(), Step::Continue);
    assert_eq!(machine.stack().top(), 1023);
    machine.instruction_pointer()
}

#[test]
fn jz_tests_the_popped_value_and_not_the_flags() {
    assert_eq!(jz_lands_at(0, None), 500);
    assert_eq!(jz_lands_at(1, None), 10);
    assert_eq!(jz_lands_at(-1, None), 10);
    assert_eq!(jz_lands_at(0, Some((3, 5))), 500);
    assert_eq!(jz_lands_at(0, Some((5, 5))), 500);
    assert_eq!(jz_lands_at(7, Some((5, 5))), 21);
    assert_eq!(jz_lands_at(7, Some((3, 5))), 21);
}

/// A subroutine that counts its argument down to zero by calling itself and
/// then hands 7 back in the argument's cell.
fn countdown(depth: i32) -> Instructions {
    let mut code = Instructions::new();
    op_i32(&mut code, Instruction::Push, depth);
    op_i32(&mut code, Instruction::Call, 16);
    op_i32(&mut code, Instruction::CompilerCall, 1);
    op(&mut code, Instruction::Hlt);
    assert_eq!(code.len(), 16);
    op_i32(&mut code, Instruction::LoadRelative, 3);
    op_i32(&mut code, Instruction::Jz, 48);
    op_i32(&mut code, Instruction::Push, 1);
    op_i32(&mut code, Instruction::LoadRelative, 3);
    op(&mut code, Instruction::I32Sub);
    op_i32(&mut code, Instruction::Call, 16);
    op_i32(&mut code, Instruction::StoreRelative, 3);
    op(&mut code, Instruction::Ret);
    assert_eq!(code.len(), 48);
    op_i32(&mut code, Instruction::Push, 7);
    op_i32(&mut code, Instruction::StoreRelative, 3);
    op(&mut code, Instruction::Ret);
    code
}

#[test]
fn recursion_gives_the_same_result_at_depth_one_and_five() {
    let (shallow, exit_one, output_one) = run(countdown(1));
    let (deep, exit_five, output_five) = run(countdown(5));
    assert_eq!(exit_one, Exit::Halt);
    assert_eq!(exit_five, Exit::Halt);
    assert_eq!(output_one, vec![7]);
    assert_eq!(output_five, output_one);
    assert_eq!(shallow.instruction_pointer(), deep.instruction_pointer());
    assert_eq!(shallow.frame_pointer(), deep.frame_pointer());
    assert_eq!(shallow.stack().top(), deep.stack().top());
    assert_eq!(deep.stack().top(), 1022);
    assert_eq!(deep.frame_pointer(), 0);
}

/// A subroutine that adds the numbers from its argument down to one.
fn triangle(n: i32) -> Instructions {
    let mut code = Instructions::new();
    op_i32(&mut code, Instruction::Push, n);
    op_i32(&mut code, Instruction::Call, 16);
    op_i32(&mut code, Instruction::CompilerCall, 1);
    op(&mut code, Instruction::Hlt);
    op_i32(&mut code, Instruction::LoadRelative, 3);
    op_i32(&mut code, Instruction::Jz, 54);
    op_i32(&mut code, Instruction::Push, 1);
    op_i32(&mut code, Instruction::LoadRelative, 3);
    op(&mut code, Instruction::I32Sub);
    op_i32(&mut code, Instruction::Call, 16);
    op_i32(&mut code, Instruction::LoadRelative, 3);
    op(&mut code, Instruction::I32Add);
    op_i32(&mut code, Instruction::StoreRelative, 3);
    op(&mut code, Instruction::Ret);
    assert_eq!(code.len(), 54);
    op(&mut code, Instruction::Ret);
    code
}

#[test]
fn recursion_with_frame_relative_locals_computes_a_sum() {
    for (n, sum) in [(0, 0), (1, 1), (5, 15), (100, 5050)] {
        let (machine, exit, output) = run(triangle(n));
        assert_eq!(exit, Exit::Halt);
        assert_eq!(output, vec![sum]);
        assert_eq!(machine.stack().top(), 1022);
    }
}

#[test]
fn recursion_is_bounded_by_the_stack_only() {
    let (_, exit, output) = run(triangle(340));
    assert_eq!(exit, Exit::Halt);
    assert_eq!(output, vec![340 * 341 / 2]);
    let (_, exit, output) = run(triangle(341));
    assert_eq!(exit, Exit::Fatal(Fault::StackOverflow));
    assert!(output.is_empty());
}

#[test]
fn call_and_ret_restore_the_pointers() {
    let mut code = Instructions::new();
    op_i32(&mut code, Instruction::Push, 77);
    op_u8(&mut code, Instruction::PopReg, 3);
    op_i32(&mut code, Instruction::Call, 13);
    op(&mut code, Instruction::Hlt);
    assert_eq!(code.len(), 13);
    op(&mut code, Instruction::Nop);
    op(&mut code, Instruction::Ret);
    let mut machine = Interpreter::new(code.code);
    assert_eq!(machine.step(), Step::Continue);
    assert_eq!(machine.step(), Step::Continue);
    assert_eq!(machine.frame_pointer(), 77);
    assert_eq!(machine.instruction_pointer(), 7);
    let top_before = machine.stack().top();
    assert_eq!(machine.step(), Step::Continue);
    assert_eq!(machine.instruction_pointer(), 13);
    assert_eq!(machine.stack().top(), top_before - 2);
    assert_eq!(machine.frame_pointer(), top_before - 2);
    assert_eq!(machine.stack().get(top_before as usize), 12);
    assert_eq!(machine.stack().get(top_before as usize - 1), 77);
    assert_eq!(machine.step(), Step::Continue);
    assert_eq!(machine.step(), Step::Continue);
    assert_eq!(machine.instruction_pointer(), 12);
    assert_eq!(machine.frame_pointer(), 77);
    assert_eq!(machine.stack().top(), top_before);
    assert_eq!(machine.step(), Step::Halt);
}

#[test]
fn arithmetic_takes_the_first_popped_value_as_left_operand() {
    assert_eq!(binary(Instruction::I32Add, 20, 10), (Exit::Halt, vec![30]));
    assert_eq!(binary(Instruction::I32Sub, 20, 3), (Exit::Halt, vec![17]));
    assert_eq!(binary(Instruction::I32Sub, 3, 20), (Exit::Halt, vec![-17]));
    assert_eq!(binary(Instruction::I32Mul, -6, 7), (Exit::Halt, vec![-42]));
    assert_eq!(binary(Instruction::I32Div, 20, 3), (Exit::Halt, vec![6]));
    assert_eq!(binary(Instruction::I32Div, 3, 20), (Exit::Halt, vec![0]));
}

#[test]
fn division_rounds_toward_zero() {
    assert_eq!(apply_binary(Instruction::I32Div, 7, 2), Ok(3));
    assert_eq!(apply_binary(Instruction::I32Div, -7, 2), Ok(-3));
    assert_eq!(apply_binary(Instruction::I32Div, 7, -2), Ok(-3));
    assert_eq!(apply_binary(Instruction::I32Div, -7, -2), Ok(3));
    assert_eq!(apply_binary(Instruction::I32Div, 0, -5), Ok(0));
    assert_eq!(apply_binary(Instruction::I32Div, i32::MIN, 1), Ok(i32::MIN));
    assert_eq!(apply_binary(Instruction::I32Div, i32::MIN, 2), Ok(-0x4000_0000));
    assert_eq!(apply_binary(Instruction::I32Div, i32::MAX, -1), Ok(-i32::MAX));
    assert_eq!(apply_binary(Instruction::I32Div, i32::MIN, i32::MIN), Ok(1));
}

#[test]
fn division_without_a_quotient_is_a_fault() {
    assert_eq!(apply_binary(Instruction::I32Div, 1, 0), Err(Fault::DivisionByZero));
    assert_eq!(apply_binary(Instruction::I32Div, 0, 0), Err(Fault::DivisionByZero));
    assert_eq!(apply_binary(Instruction::I32Div, i32::MIN, -1), Err(Fault::DivisionOverflow));
    assert_eq!(binary(Instruction::I32Div, 5, 0), (Exit::Fatal(Fault::DivisionByZero), vec![]));
    assert_eq!(
        binary(Instruction::I32Div, i32::MIN, -1),
        (Exit::Fatal(Fault::DivisionOverflow), vec![])
    );
}

#[test]
fn sums_differences_and_products_wrap_around() {
    assert_eq!(apply_binary(Instruction::I32Add, i32::MAX, 1), Ok(i32::MIN));
    assert_eq!(apply_binary(Instruction::I32Add, i32::MIN, -1), Ok(i32::MAX));
    assert_eq!(apply_binary(Instruction::I32Sub, i32::MIN, 1), Ok(i32::MAX));
    assert_eq!(apply_binary(Instruction::I32Sub, 0, i32::MIN), Ok(i32::MIN));
    assert_eq!(apply_binary(Instruction::I32Mul, 0x10000, 0x10000), Ok(0));
    assert_eq!(apply_binary(Instruction::I32Mul, i32::MAX, 2), Ok(-2));
    assert_eq!(apply_binary(Instruction::I32Mul, i32::MIN, -1), Ok(i32::MIN));
    assert_eq!(binary(Instruction::I32Add, i32::MAX, i32::MAX), (Exit::Halt, vec![-2]));
}

#[test]
fn comparisons_push_one_or_zero() {
    assert_eq!(binary(Instruction::Greater, 5, 3), (Exit::Halt, vec![1]));
    assert_eq!(binary(Instruction::Greater, 3, 5), (Exit::Halt, vec![0]));
    assert_eq!(binary(Instruction::Greater, 3, 3), (Exit::Halt, vec![0]));
    assert_eq!(binary(Instruction::GreaterEqual, 3, 3), (Exit::Halt, vec![1]));
    assert_eq!(binary(Instruction::GreaterEqual, 2, 3), (Exit::Halt, vec![0]));
    assert_eq!(binary(Instruction::Lesser, -5, 3), (Exit::Halt, vec![1]));
    assert_eq!(binary(Instruction::Lesser, 3, 3), (Exit::Halt, vec![0]));
    assert_eq!(binary(Instruction::LesserEqual, 3, 3), (Exit::Halt, vec![1]));
    assert_eq!(binary(Instruction::LesserEqual, 4, 3), (Exit::Halt, vec![0]));
    assert_eq!(binary(Instruction::Equal, 3, 3), (Exit::Halt, vec![1]));
    assert_eq!(binary(Instruction::Equal, 3, -3), (Exit::Halt, vec![0]));
    assert_eq!(binary(Instruction::NotEqual, 3, -3), (Exit::Halt, vec![1]));
    assert_eq!(binary(Instruction::NotEqual, 3, 3), (Exit::Halt, vec![0]));
}

#[test]
fn pop_discards_the_topmost_value() {
    let mut code = Instructions::new();
    op_i32(&mut code, Instruction::Push, 1);
    op_i32(&mut code, Instruction::Push, 2);
    op(&mut code, Instruction::Pop);
    assert_eq!(result_of(code), (Exit::Halt, vec![1]));
}

#[test]
fn load_and_store_address_cells_absolutely() {
    let mut code = Instructions::new();
    op_i32(&mut code, Instruction::Push, 99);
    op_i32(&mut code, Instruction::Store, 5);
    op_i32(&mut code, Instruction::Load, 5);
    op_i32(&mut code, Instruction::CompilerCall, 1);
    op(&mut code, Instruction::Hlt);
    let (machine, exit, output) = run(code);
    assert_eq!((exit, output), (Exit::Halt, vec![99]));
    assert_eq!(machine.stack().get(5), 99);
    assert_eq!(machine.stack().top(), 1022);
}

#[test]
fn relative_access_adds_the_offset_to_the_frame_pointer() {
    let mut code = Instructions::new();
    op_i32(&mut code, Instruction::Push, 100);
    op_u8(&mut code, Instruction::PopReg, 3);
    op_i32(&mut code, Instruction::Push, 55);
    op_i32(&mut code, Instruction::StoreRelative, -10);
    op_i32(&mut code, Instruction::LoadRelative, -10);
    op_i32(&mut code, Instruction::CompilerCall, 1);
    op_i32(&mut code, Instruction::Lea, -10);
    op_i32(&mut code, Instruction::CompilerCall, 1);
    op_i32(&mut code, Instruction::Lea, 7);
    op_i32(&mut code, Instruction::CompilerCall, 1);
    op(&mut code, Instruction::Hlt);
    let (machine, exit, output) = run(code);
    assert_eq!((exit, output), (Exit::Halt, vec![55, 90, 107]));
    assert_eq!(machine.frame_pointer(), 100);
    assert_eq!(machine.stack().get(90), 55);
}

#[test]
fn deref_reads_through_a_popped_index() {
    let mut code = Instructions::new();
    op_i32(&mut code, Instruction::Push, 1234);
    op_i32(&mut code, Instruction::Store, 40);
    op_i32(&mut code, Instruction::Push, 40);
    op(&mut code, Instruction::Deref);
    assert_eq!(result_of(code), (Exit::Halt, vec![1234]));
}

#[test]
fn deref_assign_writes_through_a_stored_index() {
    let mut code = Instructions::new();
    op_i32(&mut code, Instruction::Push, 40);
    op_i32(&mut code, Instruction::Store, 10);
    op_i32(&mut code, Instruction::Push, -8);
    op_i32(&mut code, Instruction::DerefAssign, 10);
    op_i32(&mut code, Instruction::Push, 20);
    op_u8(&mut code, Instruction::PopReg, 3);
    op_i32(&mut code, Instruction::Push, 41);
    op_i32(&mut code, Instruction::Store, 25);
    op_i32(&mut code, Instruction::Push, -9);
    op_i32(&mut code, Instruction::DerefAssignRelative, 5);
    op(&mut code, Instruction::Hlt);
    let (machine, exit, _) = run(code);
    assert_eq!(exit, Exit::Halt);
    assert_eq!(machine.stack().get(40), -8);
    assert_eq!(machine.stack().get(41), -9);
    assert_eq!(machine.stack().get(10), 40);
    assert_eq!(machine.stack().top(), 1023);
}

#[test]
fn stack_add_moves_the_top_index() {
    let mut code = Instructions::new();
    op_i32(&mut code, Instruction::StackAdd, -3);
    op_u8(&mut code, Instruction::PushReg, 2);
    op_i32(&mut code, Instruction::CompilerCall, 1);
    op_i32(&mut code, Instruction::StackAdd, 4);
    op(&mut code, Instruction::Hlt);
    let (machine, exit, output) = run(code);
    assert_eq!((exit, output), (Exit::Halt, vec![1020]));
    assert_eq!(machine.stack().top(), 1023);
}

#[test]
fn registers_are_pushed_and_popped_by_selector() {
    let mut code = Instructions::new();
    op_u8(&mut code, Instruction::PushReg, 0);
    op_u8(&mut code, Instruction::PushReg, 1);
    op_i32(&mut code, Instruction::CompilerCall, 1);
    op_u8(&mut code, Instruction::PushReg, 3);
    op_i32(&mut code, Instruction::CompilerCall, 1);
    op_i32(&mut code, Instruction::Push, 9);
    op_u8(&mut code, Instruction::PopReg, 0);
    op_i32(&mut code, Instruction::Push, 500);
    op_u8(&mut code, Instruction::PopReg, 2);
    op_i32(&mut code, Instruction::Push, 38);
    op_u8(&mut code, Instruction::PopReg, 1);
    op_i32(&mut code, Instruction::CompilerCall, 7);
    assert_eq!(code.len(), 42);
    code.set_u8_operand(u8::from(Instruction::Hlt), 38);
    let (machine, exit, output) = run(code);
    assert_eq!((exit, output), (Exit::Halt, vec![4, 0]));
    assert_eq!(machine.instruction_pointer(), 39);
    assert_eq!(machine.stack().top(), 500);
}

#[test]
fn jmp_sets_the_instruction_pointer() {
    let mut code = Instructions::new();
    op_i32(&mut code, Instruction::Jmp, 10);
    op_i32(&mut code, Instruction::Push, 1);
    op_i32(&mut code, Instruction::Push, 2);
    assert_eq!(result_of(code), (Exit::Halt, vec![2]));
}

fn fault_of(code: Instructions) -> (Fault, usize, usize) {
    let end = code.len();
    let mut machine = Interpreter::new(code.code);
    loop {
        let last = machine.instruction_pointer();
        let top = machine.stack().top();
        let fp = machine.frame_pointer();
        match machine.step() {
            Step::Continue | Step::Output(_) => {}
            Step::Halt => panic!("the program halted"),
            Step::Fatal(fault) => {
                assert_eq!(machine.instruction_pointer(), last);
                assert_eq!(machine.stack().top(), top);
                assert_eq!(machine.frame_pointer(), fp);
                return (fault, last, end);
            }
        }
    }
}

#[test]
fn unknown_host_call_is_a_fault() {
    let mut code = Instructions::new();
    op_i32(&mut code, Instruction::CompilerCall, 2);
    assert_eq!(fault_of(code).0, Fault::UnknownCompilerCall(2));
    let mut code = Instructions::new();
    op_i32(&mut code, Instruction::CompilerCall, -1);
    assert_eq!(fault_of(code).0, Fault::UnknownCompilerCall(-1));
}

#[test]
fn unknown_register_is_a_fault() {
    let mut code = Instructions::new();
    op_u8(&mut code, Instruction::PushReg, 4);
    assert_eq!(fault_of(code).0, Fault::UnknownRegister(4));
    let mut code = Instructions::new();
    op_i32(&mut code, Instruction::Push, 1);
    op_u8(&mut code, Instruction::PopReg, 200);
    assert_eq!(fault_of(code), (Fault::UnknownRegister(200), 5, 7));
    let mut code = Instructions::new();
    op_u8(&mut code, Instruction::PopReg, 200);
    assert_eq!(fault_of(code).0, Fault::StackOutOfBounds);
}

#[test]
fn jnz_cannot_be_executed() {
    let mut code = Instructions::new();
    op(&mut code, Instruction::Nop);
    op_i32(&mut code, Instruction::Jnz, 0);
    assert_eq!(fault_of(code), (Fault::InvalidInstruction(25), 1, 6));
    let mut code = Instructions::new();
    op(&mut code, Instruction::Jnz);
    assert_eq!(fault_of(code).0, Fault::InvalidInstruction(25));
}

#[test]
fn an_operand_cut_off_by_the_end_of_the_buffer_is_a_fault() {
    let mut code = Instructions::new();
    op(&mut code, Instruction::Push);
    code.push_u8_operand(1);
    code.push_u8_operand(0);
    code.push_u8_operand(0);
    assert_eq!(fault_of(code).0, Fault::TruncatedOperand);
    let mut code = Instructions::new();
    op(&mut code, Instruction::Nop);
    op(&mut code, Instruction::PushReg);
    assert_eq!(fault_of(code), (Fault::TruncatedOperand, 1, 2));
}

#[test]
fn popping_an_empty_stack_is_a_fault() {
    let mut code = Instructions::new();
    op(&mut code, Instruction::Pop);
    assert_eq!(fault_of(code).0, Fault::StackOutOfBounds);
    let mut code = Instructions::new();
    op_i32(&mut code, Instruction::Push, 1);
    op(&mut code, Instruction::I32Add);
    assert_eq!(fault_of(code), (Fault::StackOutOfBounds, 5, 6));
    let mut code = Instructions::new();
    op(&mut code, Instruction::Ret);
    assert_eq!(fault_of(code).0, Fault::StackOutOfBounds);
    let mut code = Instructions::new();
    op_i32(&mut code, Instruction::CompilerCall, 1);
    assert_eq!(fault_of(code).0, Fault::StackOutOfBounds);
}

#[test]
fn addressing_outside_the_cells_is_a_fault() {
    let mut code = Instructions::new();
    op_i32(&mut code, Instruction::Load, 1024);
    assert_eq!(fault_of(code).0, Fault::StackOutOfBounds);
    let mut code = Instructions::new();
    op_i32(&mut code, Instruction::Load, -1);
    assert_eq!(fault_of(code).0, Fault::StackOutOfBounds);
    let mut code = Instructions::new();
    op_i32(&mut code, Instruction::Push, 3);
    op_i32(&mut code, Instruction::Store, 5000);
    assert_eq!(fault_of(code).0, Fault::StackOutOfBounds);
    let mut code = Instructions::new();
    op_i32(&mut code, Instruction::Push, -1);
    op(&mut code, Instruction::Deref);
    assert_eq!(fault_of(code).0, Fault::StackOutOfBounds);
    let mut code = Instructions::new();
    op_i32(&mut code, Instruction::LoadRelative, -1);
    assert_eq!(fault_of(code).0, Fault::StackOutOfBounds);
    let mut code = Instructions::new();
    op_i32(&mut code, Instruction::LoadRelative, 1023);
    op_i32(&mut code, Instruction::CompilerCall, 1);
    op(&mut code, Instruction::Hlt);
    assert_eq!(run(code).1, Exit::Halt);
}

#[test]
fn call_needs_room_for_the_whole_frame_header() {
    let mut code = Instructions::new();
    op_i32(&mut code, Instruction::StackAdd, -1023);
    op_i32(&mut code, Instruction::Call, 0);
    let mut machine = Interpreter::new(code.code);
    assert_eq!(machine.step(), Step::Continue);
    assert_eq!(machine.stack().top(), 0);
    assert_eq!(machine.step(), Step::Fatal(Fault::StackOverflow));
    assert_eq!(machine.stack().top(), 0);
    assert_eq!(machine.stack().get(0), 0);
    assert_eq!(machine.instruction_pointer(), 5);
}

#[test]
fn a_bounded_run_stops_when_its_cycles_are_used_up() {
    let mut code = Instructions::new();
    op_i32(&mut code, Instruction::Push, 3);
    op_i32(&mut code, Instruction::CompilerCall, 1);
    op(&mut code, Instruction::Pop);
    op_i32(&mut code, Instruction::Jmp, 0);
    let mut machine = Interpreter::new(code.code);
    let mut output: Vec<i32> = vec![-1];
    assert_eq!(machine.run(0, &mut output), Exit::OutOfCycles);
    assert_eq!(machine.instruction_pointer(), 0);
    assert_eq!(machine.run(2, &mut output), Exit::OutOfCycles);
    assert_eq!(output, vec![-1, 3]);
    assert_eq!(machine.instruction_pointer(), 10);
    assert_eq!(machine.run(8, &mut output), Exit::OutOfCycles);
    assert_eq!(output, vec![-1, 3, 3, 3]);
    assert_eq!(machine.instruction_pointer(), 10);
}

#[test]
fn operands_can_be_appended_and_patched_through_the_machine() {
    let mut machine = Interpreter::new(Vec::new());
    machine.push_u8_operand(u8::from(Instruction::Push));
    machine.push_i32_operand(0);
    machine.push_u8_operand(u8::from(Instruction::CompilerCall));
    machine.push_u32_operand(1);
    machine.push_u8_operand(u8::from(Instruction::PushReg));
    machine.push_u8_operand(0);
    machine.push_u16_operand(0x0101);
    machine.set_i32_operand(-123456, 1);
    machine.set_u16_operand(0, 12);
    machine.set_u8_operand(u8::from(Instruction::Hlt), 13);
    assert_eq!(machine.get_u8(0), 6);
    assert_eq!(machine.get_u32(1), (-123456i32) as u32);
    assert_eq!(machine.get_u16(12), 0x0100);
    assert_eq!(machine.instructions.len(), 14);
    let mut output: Vec<i32> = Vec::new();
    assert_eq!(machine.run(10, &mut output), Exit::Halt);
    assert_eq!(output, vec![-123456]);
    machine.set_u32_operand(0xFFFF_FFFF, 1);
    assert_eq!(machine.instructions.get_i32(1), -1);
}
