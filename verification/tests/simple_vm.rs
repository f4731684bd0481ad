use libvmr::simple_vm::{Arguments, Operation, Register, RuntimeError, VirtualMachine, MEMORY_WORDS};

fn ne(w: u16) -> [u8; 2] {
    w.to_ne_bytes()
}

fn machine(code: &[u8]) -> VirtualMachine {
    let mut image = b"vmr".to_vec();
    image.extend_from_slice(code);
    let mut regs = [0u16; 17];
    regs[16] = 0xFFFF;
    VirtualMachine::from_bytes(image, regs)
}

fn run(vm: &mut VirtualMachine) -> Option<RuntimeError> {
    loop {
        match vm.try_cycle() {
            None => return None,
            Some(Ok(())) => {}
            Some(Err(e)) => return Some(e),
        }
    }
}

#[test]
fn simple_registers_and_opcodes() {
    assert_eq!(Register::from_u8(0), Some(Register::R1));
    assert_eq!(Register::from_u8(15), Some(Register::R16));
    assert_eq!(Register::from_u8(16), Some(Register::RSP));
    assert_eq!(Register::from_u8(17), None);
    assert_eq!(Register::R5.index(), 4);
    let mut count = 0;
    for b in 0u8..=255 {
        if let Some(op) = Operation::from_u8(b) {
            assert_eq!(op.to_u8(), b);
            count += 1;
        }
    }
    assert_eq!(count, 44);
    assert_eq!(Operation::from_u8(0xB2), Some(Operation::JE));
    assert_eq!(Operation::from_u8(0x60), None);
    assert_eq!(Operation::PUSH_IMM.arg_type(), Arguments::Imm);
    assert_eq!(Operation::JE_IMM.arg_type(), Arguments::Imm);
    assert_eq!(Operation::JE.arg_type(), Arguments::Reg);
    assert_eq!(Arguments::Imm.to_offset(), 3);
    assert_eq!(Operation::STORE_REL_IMM.arg_type(), Arguments::RegImmReg);
    assert_eq!(Arguments::RegImmReg.to_offset(), 5);
    assert_eq!(Arguments::NoArgs.to_offset(), 1);
}

#[test]
fn a_fresh_simple_machine() {
    let vm = machine(&[0x01, 0x00]);
    assert_eq!(vm.code(), &vec![0x01, 0x00]);
    assert_eq!(vm.memory().len(), MEMORY_WORDS);
    assert_eq!(vm.current_instruction(), 0);
    assert!(!vm.equal());
    assert_eq!(vm.registers()[16], 0xFFFF);
    let vm = VirtualMachine::from_bytes(b"vm".to_vec(), [0; 17]);
    assert!(vm.code().is_empty());
}

#[test]
fn immediates_follow_the_machine_byte_order() {
    let [a, b] = ne(0x1234);
    let mut vm = machine(&[0x11, 0x00, a, b, 0x00]);
    assert_eq!(run(&mut vm), Some(RuntimeError::Halted));
    assert_eq!(vm.registers()[0], 0x1234);
    assert_eq!(vm.current_instruction(), 4);
}

#[test]
fn arithmetic_wraps() {
    let [a, b] = ne(0xFFFF);
    let [c, d] = ne(2);
    let [e, f] = ne(17);
    let mut vm = machine(&[
        0x11, 0x00, a, b, // MOV_IMM R1, 0xFFFF
        0x41, 0x00, c, d, // ADD_IMM R1, 2
        0x11, 0x01, a, b, // MOV_IMM R2, 0xFFFF
        0x71, 0x01, e, f, // SHL_IMM R2, 17 (shifts by 1)
        0x43, 0x02, c, d, // SUB_IMM R3, 2
        0x00,
    ]);
    assert_eq!(run(&mut vm), Some(RuntimeError::Halted));
    assert_eq!(vm.registers()[0], 1);
    assert_eq!(vm.registers()[1], 0xFFFE);
    assert_eq!(vm.registers()[2], 0xFFFE);
}

#[test]
fn compare_and_jump_if_equal() {
    let [a, b] = ne(7);
    let [t0, t1] = ne(0x0C);
    let mut vm = machine(&[
        0x11, 0x00, a, b, // MOV_IMM R1, 7
        0x81, 0x00, a, b, // CMP_IMM R1, 7
        0xB3, t0, t1, // JE_IMM 0x0C
        0x01, // NOP (skipped)
        0x00,
    ]);
    assert_eq!(vm.try_cycle(), Some(Ok(())));
    assert_eq!(vm.try_cycle(), Some(Ok(())));
    assert!(vm.equal());
    assert_eq!(vm.try_cycle(), Some(Ok(())));
    assert_eq!(vm.current_instruction(), 0x0C);
    assert_eq!(vm.try_cycle(), Some(Err(RuntimeError::Halted)));
}

#[test]
fn a_jump_not_taken_moves_past_its_immediate() {
    let mut vm = machine(&[0xB3, 0x00, 0x00, 0x00]);
    assert_eq!(vm.try_cycle(), Some(Ok(())));
    assert_eq!(vm.current_instruction(), 3);
    assert_eq!(vm.try_cycle(), Some(Err(RuntimeError::Halted)));
}

#[test]
fn pushing_an_immediate_moves_past_it() {
    let [a, b] = ne(5);
    let mut vm = machine(&[0x92, a, b, 0x00]);
    assert_eq!(vm.try_cycle(), Some(Ok(())));
    assert_eq!(vm.current_instruction(), 3);
    assert_eq!(vm.memory()[0xFFFE], 5);
}

#[test]
fn register_jumps() {
    let [a, b] = ne(0x20);
    let mut vm = machine(&[0x11, 0x04, a, b, 0xB0, 0x04]);
    assert_eq!(vm.try_cycle(), Some(Ok(())));
    assert_eq!(vm.try_cycle(), Some(Ok(())));
    assert_eq!(vm.current_instruction(), 0x20);
    let mut vm = machine(&[0xB6, 0x04]);
    assert_eq!(vm.try_cycle(), Some(Ok(())));
    assert_eq!(vm.current_instruction(), 0);
}

#[test]
fn push_then_pop() {
    let [a, b] = ne(42);
    let mut vm = machine(&[
        0x11, 0x00, a, b, // MOV_IMM R1, 42
        0x90, 0x00, // PUSH R1
        0xA0, 0x01, // POP R2
        0x00,
    ]);
    assert_eq!(vm.try_cycle(), Some(Ok(())));
    assert_eq!(vm.try_cycle(), Some(Ok(())));
    assert_eq!(vm.registers()[16], 0xFFFE);
    assert_eq!(vm.memory()[0xFFFE], 42);
    assert_eq!(run(&mut vm), Some(RuntimeError::Halted));
    assert_eq!(vm.registers()[1], 42);
    assert_eq!(vm.registers()[16], 0xFFFF);
}

#[test]
fn pushing_below_zero_overflows() {
    let mut image = b"vmr".to_vec();
    image.extend_from_slice(&[0x90, 0x00]);
    let mut vm = VirtualMachine::from_bytes(image, [0; 17]);
    assert_eq!(vm.try_cycle(), Some(Err(RuntimeError::StackOverflow)));
}

#[test]
fn popping_past_the_last_cell_cannot_run() {
    let mut vm = machine(&[0xA0, 0x00]);
    assert_eq!(vm.try_cycle(), None);
    assert_eq!(vm.current_instruction(), 0);
    assert_eq!(vm.registers()[16], 0xFFFF);
}

#[test]
fn subroutines_cannot_run() {
    assert_eq!(machine(&[0xD0, 0x00]).try_cycle(), None);
    assert_eq!(machine(&[0xD1, 0x00, 0x00]).try_cycle(), None);
    assert_eq!(machine(&[0xD2]).try_cycle(), None);
}

#[test]
fn relative_addressing_reads_a_big_endian_offset() {
    let [a, b] = ne(0x10);
    let [c, d] = ne(0x99);
    let [e, f] = ne(0x0E);
    let mut vm = machine(&[
        0x11, 0x00, a, b, // MOV_IMM R1, 0x10
        0x35, e, f, c, d, // STORE_IMM_IMM [0x0E], 0x99
        0x21, 0x00, 0xFF, 0xFE, 0x02, // LOAD_REL R1, -2, R3
        0x34, 0x00, 0x00, 0x05, 0x00, 0x00, 0x07, // STORE_REL_IMM R1, 5 (imm at +5)
        0x00,
    ]);
    assert_eq!(run(&mut vm), Some(RuntimeError::Halted));
    assert_eq!(vm.registers()[2], 0x99);
    assert_eq!(vm.memory()[0x15], 7);
}

#[test]
fn memory_past_the_last_cell_cannot_run() {
    let [a, b] = ne(0xFFFF);
    let mut vm = machine(&[0x35, a, b, 0x00, 0x01]);
    assert_eq!(vm.try_cycle(), None);
    let mut vm = machine(&[0x22, a, b]);
    assert_eq!(vm.try_cycle(), Some(Err(RuntimeError::InvalidRegister)));
    let mut vm = machine(&[0x21, 0x00, 0xFF, 0xFF, 0x01]);
    assert_eq!(vm.try_cycle(), None);
}

#[test]
fn a_cut_big_endian_operand_cannot_run() {
    let mut vm = machine(&[0x33, 0x00, 0x01]);
    assert_eq!(vm.try_cycle(), None);
}

#[test]
fn decoding_errors() {
    assert_eq!(machine(&[0x60]).try_cycle(), Some(Err(RuntimeError::InvalidOPCode(0x60))));
    assert_eq!(machine(&[0x10, 0x00, 0x11]).try_cycle(), Some(Err(RuntimeError::InvalidRegister)));
    assert_eq!(machine(&[0x11, 0x00, 0x01]).try_cycle(), Some(Err(RuntimeError::InstructionOOB)));
    let mut vm = machine(&[0x01]);
    assert_eq!(vm.cycle(), Ok(()));
    assert_eq!(vm.cycle(), Err(RuntimeError::InstructionOOB));
}

#[test]
fn logic_operations_and_register_moves() {
    let [a, b] = ne(0x0F0F);
    let [c, d] = ne(0x00FF);
    let mut vm = machine(&[
        0x11, 0x00, a, b, // MOV_IMM R1, 0x0F0F
        0x11, 0x01, c, d, // MOV_IMM R2, 0x00FF
        0x50, 0x00, 0x01, // AND R1, R2
        0x10, 0x02, 0x00, // MOV R3, R1
        0x54, 0x02, 0x01, // XOR R3, R2
        0x52, 0x02, 0x00, // OR R3, R1
        0x00,
    ]);
    assert_eq!(run(&mut vm), Some(RuntimeError::Halted));
    assert_eq!(vm.registers()[0], 0x000F);
    assert_eq!(vm.registers()[2], (0x000F ^ 0x00FF) | 0x000F);
}

#[test]
fn simple_programs_start_with_the_stack_pointer_at_the_top() {
    let regs = VirtualMachine::initial_registers();
    assert_eq!(regs[16], 0xFFFF);
    assert!(regs[..16].iter().all(|&r| r == 0));
}
