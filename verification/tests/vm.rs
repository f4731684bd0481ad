use libvmr::isa::Flags;
use libvmr::vm::{RuntimeError, VirtualMachine, MEMORY_WORDS};

fn machine(code: &[u8]) -> VirtualMachine {
    let mut image = b"vmrx".to_vec();
    image.extend_from_slice(code);
    let mut regs = vec![0u16; 17];
    regs[16] = 0xFFFE;
    VirtualMachine::from_bytes(image, regs)
}

fn run(vm: &mut VirtualMachine) -> RuntimeError {
    loop {
        if let Err(e) = vm.cycle() {
            return e;
        }
    }
}

#[test]
fn a_fresh_machine() {
    let vm = machine(&[0x01, 0x00]);
    assert_eq!(vm.code(), &vec![0x01, 0x00]);
    assert_eq!(vm.memory().len(), MEMORY_WORDS);
    assert!(vm.memory().iter().all(|&w| w == 0));
    assert_eq!(vm.current_instruction(), 0);
    assert_eq!(vm.flags(), 0);
    assert_eq!(vm.registers()[16], 0xFFFE);
    assert_eq!(vm.dump_mem_readable(), None);
}

#[test]
fn the_header_is_not_code() {
    let vm = VirtualMachine::from_bytes(b"vmr".to_vec(), vec![0; 17]);
    assert!(vm.code().is_empty());
    let vm = VirtualMachine::from_bytes(b"vmrx".to_vec(), vec![0; 17]);
    assert!(vm.code().is_empty());
}

#[test]
fn halt_stops_without_moving() {
    let mut vm = machine(&[0x01, 0x00]);
    assert_eq!(vm.cycle(), Ok(()));
    assert_eq!(vm.current_instruction(), 1);
    assert_eq!(vm.cycle(), Err(RuntimeError::Halted));
    assert_eq!(vm.current_instruction(), 1);
}

#[test]
fn running_off_the_code_is_an_error() {
    let mut vm = machine(&[0x01]);
    assert_eq!(vm.cycle(), Ok(()));
    assert_eq!(vm.cycle(), Err(RuntimeError::InstructionOOB));
    let mut vm = machine(&[0x11, 0x01, 0x00]);
    assert_eq!(vm.cycle(), Err(RuntimeError::InstructionOOB));
}

#[test]
fn unknown_opcodes_and_registers_are_errors() {
    let mut vm = machine(&[0xC0]);
    assert_eq!(vm.cycle(), Err(RuntimeError::InvalidOPCode(0xC0)));
    let mut vm = machine(&[0x10, 0x01, 0x11]);
    assert_eq!(vm.cycle(), Err(RuntimeError::InvalidRegister));
}

#[test]
fn moves_and_loads() {
    let mut vm = machine(&[
        0x11, 0x01, 0x12, 0x34, // MOV_IMM R1, 0x1234
        0x10, 0x02, 0x01, // MOV R2, R1
        0x32, 0x00, 0x10, 0x02, // STORE_IMM_R [0x0010], R2
        0x22, 0x00, 0x10, 0x03, // LOAD_IMM [0x0010], R3
        0x00,
    ]);
    assert_eq!(run(&mut vm), RuntimeError::Halted);
    assert_eq!(vm.registers()[1], 0x1234);
    assert_eq!(vm.registers()[2], 0x1234);
    assert_eq!(vm.registers()[3], 0x1234);
    assert_eq!(vm.memory()[0x10], 0x1234);
    assert_eq!(vm.dump_mem_readable(), Some(vec![0u16; 0x10]));
}

#[test]
fn relative_addressing_takes_a_signed_offset() {
    let mut vm = machine(&[
        0x11, 0x01, 0x00, 0x10, // MOV_IMM R1, 0x10
        0x35, 0x00, 0x0E, 0x00, 0x99, // STORE_IMM_IMM [0x0E], 0x99
        0x21, 0x01, 0xFF, 0xFE, 0x02, // LOAD_REL R1, -2, R2
        0x34, 0x01, 0x00, 0x05, 0x00, 0x07, // STORE_REL_IMM R1, 5, 7
        0x00,
    ]);
    assert_eq!(run(&mut vm), RuntimeError::Halted);
    assert_eq!(vm.registers()[2], 0x99);
    assert_eq!(vm.memory()[0x15], 7);
}

#[test]
fn memory_beyond_the_last_cell_is_an_error() {
    let mut vm = machine(&[0x22, 0xFF, 0xFF, 0x01]);
    assert_eq!(vm.cycle(), Err(RuntimeError::MemoryOOB));
    let mut vm = machine(&[0x21, 0x01, 0xFF, 0xFF, 0x02]);
    assert_eq!(vm.cycle(), Err(RuntimeError::MemoryOOB));
}

#[test]
fn addition_sets_zero_and_carry() {
    let mut vm = machine(&[0x11, 0x01, 0xFF, 0xFF, 0x41, 0x01, 0x00, 0x01, 0x00]);
    assert_eq!(run(&mut vm), RuntimeError::Halted);
    assert_eq!(vm.registers()[1], 0);
    assert_eq!(vm.flags(), Flags::Equals.bits() | Flags::Carry.bits());
}

#[test]
fn addition_sets_overflow_and_negative() {
    let mut vm = machine(&[0x11, 0x01, 0x7F, 0xFF, 0x41, 0x01, 0x00, 0x01, 0x00]);
    assert_eq!(run(&mut vm), RuntimeError::Halted);
    assert_eq!(vm.registers()[1], 0x8000);
    assert_eq!(vm.flags(), Flags::Negative.bits() | Flags::Overflow.bits());
}

#[test]
fn subtraction_below_zero_borrows() {
    let mut vm = machine(&[0x43, 0x01, 0x00, 0x01, 0x00]);
    assert_eq!(run(&mut vm), RuntimeError::Halted);
    assert_eq!(vm.registers()[1], 0xFFFF);
    assert_eq!(vm.flags(), Flags::Negative.bits() | Flags::Carry.bits());
}

#[test]
fn compare_keeps_the_register_and_drives_jumps() {
    let mut vm = machine(&[
        0x11, 0x01, 0x00, 0x05, // MOV_IMM R1, 5
        0x81, 0x01, 0x00, 0x05, // CMP_IMM R1, 5
        0xB1, 0x00, 0x0F, // JZ 0x0F
        0x11, 0x00, 0x00, 0x01, // MOV_IMM R0, 1 (skipped)
        0x00,
    ]);
    assert_eq!(run(&mut vm), RuntimeError::Halted);
    assert_eq!(vm.registers()[1], 5);
    assert_eq!(vm.registers()[0], 0);
    assert_eq!(vm.flags(), Flags::Equals.bits());
    assert_eq!(vm.current_instruction(), 0x0F);
}

#[test]
fn a_jump_not_taken_falls_through() {
    let mut vm = machine(&[0x81, 0x01, 0x00, 0x05, 0xB3, 0x00, 0x00, 0x00]);
    assert_eq!(vm.cycle(), Ok(()));
    assert_eq!(vm.flags(), Flags::Negative.bits() | Flags::Carry.bits());
    assert_eq!(vm.cycle(), Ok(()));
    assert_eq!(vm.current_instruction(), 7);
    let mut vm = machine(&[0x81, 0x01, 0x00, 0x05, 0xB4, 0x00, 0x00]);
    assert_eq!(vm.cycle(), Ok(()));
    assert_eq!(vm.cycle(), Ok(()));
    assert_eq!(vm.current_instruction(), 0);
}

#[test]
fn logic_and_shifts() {
    let mut vm = machine(&[
        0x11, 0x01, 0x0F, 0x0F, // MOV_IMM R1, 0x0F0F
        0x51, 0x01, 0x00, 0xFF, // AND_IMM R1, 0x00FF
        0x53, 0x01, 0x10, 0x00, // OR_IMM R1, 0x1000
        0x55, 0x01, 0x00, 0x01, // XOR_IMM R1, 1
        0x71, 0x01, 0x00, 0x11, // SHL_IMM R1, 17 (shifts by 1)
        0x73, 0x01, 0x00, 0x02, // SHR_IMM R1, 2
        0x00,
    ]);
    assert_eq!(run(&mut vm), RuntimeError::Halted);
    assert_eq!(vm.registers()[1], (((0x0F0Fu16 & 0x00FF) | 0x1000) ^ 1) << 1 >> 2);
    assert_eq!(vm.flags(), 0);
}

#[test]
fn division_gives_quotient_and_remainder() {
    let mut vm = machine(&[
        0x11, 0x01, 0x00, 0x11, // MOV_IMM R1, 17
        0x11, 0x02, 0x00, 0x05, // MOV_IMM R2, 5
        0x60, 0x02, // DIV_MOD R2
        0x00,
    ]);
    assert_eq!(run(&mut vm), RuntimeError::Halted);
    assert_eq!(vm.registers()[0], 3);
    assert_eq!(vm.registers()[1], 2);
}

#[test]
fn division_by_zero_is_an_error() {
    let mut vm = machine(&[0x11, 0x01, 0x00, 0x11, 0x60, 0x03]);
    assert_eq!(vm.cycle(), Ok(()));
    assert_eq!(vm.cycle(), Err(RuntimeError::DivisionByZero));
    assert_eq!(vm.registers()[1], 17);
}

#[test]
fn push_then_pop_restores_the_stack() {
    let mut vm = machine(&[
        0x11, 0x01, 0x00, 0x07, // MOV_IMM R1, 7
        0x90, 0x01, // PUSH R1
        0x92, 0x00, 0x09, // PUSH_IMM 9
        0xA0, 0x02, // POP R2
        0xA0, 0x03, // POP R3
        0x00,
    ]);
    for _ in 0..3 {
        assert_eq!(vm.cycle(), Ok(()));
    }
    assert_eq!(vm.registers()[16], 0xFFFC);
    assert_eq!(vm.memory()[0xFFFD], 7);
    assert_eq!(vm.memory()[0xFFFC], 9);
    assert_eq!(run(&mut vm), RuntimeError::Halted);
    assert_eq!(vm.registers()[2], 9);
    assert_eq!(vm.registers()[3], 7);
    assert_eq!(vm.registers()[16], 0xFFFE);
}

#[test]
fn pushing_at_address_zero_overflows_the_stack() {
    let mut image = b"vmrx".to_vec();
    image.extend_from_slice(&[0x90, 0x01]);
    let mut vm = VirtualMachine::from_bytes(image, vec![0; 17]);
    assert_eq!(vm.cycle(), Err(RuntimeError::StackOverflow));
}

#[test]
fn call_and_return() {
    let mut vm = machine(&[
        0xD0, 0x00, 0x04, // CALL 4
        0x00, // HALT
        0x11, 0x00, 0x00, 0x2A, // MOV_IMM R0, 42
        0xD2, // RET
    ]);
    assert_eq!(vm.cycle(), Ok(()));
    assert_eq!(vm.current_instruction(), 4);
    assert_eq!(vm.registers()[16], 0xFFFD);
    assert_eq!(vm.memory()[0xFFFD], 3);
    assert_eq!(run(&mut vm), RuntimeError::Halted);
    assert_eq!(vm.current_instruction(), 3);
    assert_eq!(vm.registers()[0], 42);
    assert_eq!(vm.registers()[16], 0xFFFE);
}

#[test]
fn print_hands_memory_cells_to_the_output() {
    let mut vm = machine(&[
        0x35, 0x00, 0x10, 0x00, 0x41, // STORE_IMM_IMM [0x10], 0x41
        0x35, 0x00, 0x11, 0x00, 0x42, // STORE_IMM_IMM [0x11], 0x42
        0x11, 0x01, 0x00, 0x01, // MOV_IMM R1, 1
        0x11, 0x02, 0x00, 0x10, // MOV_IMM R2, 0x10
        0x11, 0x03, 0x00, 0x02, // MOV_IMM R3, 2
        0xFF, // SYSCALL
        0x00,
    ]);
    assert_eq!(run(&mut vm), RuntimeError::Halted);
    assert_eq!(vm.take_output(), vec![0x41, 0x42]);
    assert_eq!(vm.take_output(), Vec::<u16>::new());
}

#[test]
fn unknown_system_calls_and_ranges_are_errors() {
    let mut vm = machine(&[0x11, 0x01, 0x00, 0x02, 0xFF]);
    assert_eq!(vm.cycle(), Ok(()));
    assert_eq!(vm.cycle(), Err(RuntimeError::InvalidCode));
    let mut vm = machine(&[
        0x11, 0x01, 0x00, 0x01, // MOV_IMM R1, 1
        0x11, 0x02, 0xFF, 0xFE, // MOV_IMM R2, 0xFFFE
        0x11, 0x03, 0x00, 0x02, // MOV_IMM R3, 2
        0xFF,
    ]);
    assert_eq!(run(&mut vm), RuntimeError::MemoryOOB);
    assert!(vm.take_output().is_empty());
}

#[test]
fn a_short_register_file_refuses_missing_registers() {
    let mut image = b"vmrx".to_vec();
    image.extend_from_slice(&[0x11, 0x05, 0x00, 0x01]);
    let mut vm = VirtualMachine::from_bytes(image, vec![0; 3]);
    assert_eq!(vm.cycle(), Err(RuntimeError::InvalidRegister));
}

#[test]
fn a_binary_dump_holds_every_cell_in_machine_order() {
    let mut vm = machine(&[0x35, 0x00, 0x10, 0x12, 0x34, 0x00]);
    assert_eq!(run(&mut vm), RuntimeError::Halted);
    let bytes = vm.dump_mem_bin();
    assert_eq!(bytes.len(), 2 * MEMORY_WORDS);
    assert_eq!(&bytes[0x20..0x22], &0x1234u16.to_ne_bytes());
    assert!(bytes[..0x20].iter().all(|&b| b == 0));
    assert!(bytes[0x22..].iter().all(|&b| b == 0));
}

#[test]
fn carry_after_addition_drives_jc() {
    let mut vm = machine(&[
        0x11, 0x01, 0xFF, 0xFF, // MOV_IMM R1, 0xFFFF
        0x41, 0x01, 0x00, 0x02, // ADD_IMM R1, 2
        0xBB, 0x00, 0x20, // JC 0x20
    ]);
    for _ in 0..3 {
        assert_eq!(vm.cycle(), Ok(()));
    }
    assert_eq!(vm.current_instruction(), 0x20);
    assert_eq!(vm.registers()[1], 1);
}

#[test]
fn jb_and_jc_agree_as_do_jae_and_jnc() {
    for (cmp, expect_below) in [(0x0005u16, true), (0x0000u16, false)] {
        let [hi, lo] = cmp.to_be_bytes();
        for (op, jumps_when_below) in [(0xB4u8, true), (0xBBu8, true), (0xB5u8, false), (0xBCu8, false)] {
            let mut vm = machine(&[0x81, 0x01, hi, lo, op, 0x00, 0x40]);
            assert_eq!(vm.cycle(), Ok(()));
            assert_eq!(vm.cycle(), Ok(()));
            let jumped = vm.current_instruction() == 0x40;
            assert_eq!(jumped, expect_below == jumps_when_below);
        }
    }
}

#[test]
fn logic_leaves_the_flags_alone() {
    let mut vm = machine(&[
        0x81, 0x01, 0x00, 0x05, // CMP_IMM R1, 5 (sets Negative and Carry)
        0x51, 0x01, 0x00, 0x00, // AND_IMM R1, 0
        0x71, 0x01, 0x00, 0x01, // SHL_IMM R1, 1
        0x11, 0x02, 0x00, 0x09, // MOV_IMM R2, 9
        0x90, 0x02, // PUSH R2
        0x00,
    ]);
    assert_eq!(run(&mut vm), RuntimeError::Halted);
    assert_eq!(vm.flags(), Flags::Negative.bits() | Flags::Carry.bits());
    assert_eq!(vm.memory().len(), MEMORY_WORDS);
    assert_eq!(vm.registers().len(), 17);
}

#[test]
fn programs_start_with_an_empty_register_file_and_the_stack_at_the_top() {
    let regs = VirtualMachine::initial_registers();
    assert_eq!(regs.len(), 17);
    assert_eq!(regs[16], 0xFFFE);
    assert!(regs[..16].iter().all(|&r| r == 0));
}

#[test]
fn a_failing_cycle_keeps_the_program_counter() {
    let mut vm = machine(&[0x01, 0x10, 0x01, 0x20]);
    assert_eq!(vm.cycle(), Ok(()));
    assert_eq!(vm.cycle(), Err(RuntimeError::InvalidRegister));
    assert_eq!(vm.current_instruction(), 1);
    let mut vm = machine(&[0x34, 0x01, 0x00]);
    assert_eq!(vm.cycle(), Err(RuntimeError::InstructionOOB));
    assert_eq!(vm.current_instruction(), 0);
}

#[test]
fn an_address_outside_memory_fails_in_place_with_memory_oob() {
    // LOAD_REL R1, -2, R2 with R1 = 0: the address is below the first cell.
    let mut vm = machine(&[0x21, 0x01, 0xFF, 0xFE, 0x02]);
    assert_eq!(vm.cycle(), Err(RuntimeError::MemoryOOB));
    assert_eq!(vm.current_instruction(), 0);
    // MOV_IMM R1, 0xFFF0 then STORE_REL_IMM R1, 0x20, 1: past the last cell.
    let mut vm = machine(&[0x11, 0x01, 0xFF, 0xF0, 0x34, 0x01, 0x00, 0x20, 0x00, 0x01]);
    assert_eq!(vm.cycle(), Ok(()));
    assert_eq!(vm.cycle(), Err(RuntimeError::MemoryOOB));
    assert_eq!(vm.current_instruction(), 4);
    assert!(vm.memory().iter().all(|&w| w == 0));
    // STORE_IMM_IMM [0xFFFF], 1: the address one past the last cell.
    let mut vm = machine(&[0x35, 0xFF, 0xFF, 0x00, 0x01]);
    assert_eq!(vm.cycle(), Err(RuntimeError::MemoryOOB));
    assert_eq!(vm.current_instruction(), 0);
}

#[test]
fn a_binary_dump_uses_one_byte_order_for_every_cell() {
    let mut vm = machine(&[
        0x35, 0x00, 0x10, 0x12, 0x34, // STORE_IMM_IMM [0x10], 0x1234
        0x35, 0x00, 0x11, 0xAB, 0xCD, // STORE_IMM_IMM [0x11], 0xABCD
        0x00,
    ]);
    assert_eq!(run(&mut vm), RuntimeError::Halted);
    let bytes = vm.dump_mem_bin();
    let little = bytes[0x20] == 0x34;
    let expect = |w: u16| if little { w.to_le_bytes() } else { w.to_be_bytes() };
    assert_eq!(&bytes[0x20..0x22], &expect(0x1234));
    assert_eq!(&bytes[0x22..0x24], &expect(0xABCD));
    assert_eq!(&bytes[0x20..0x22], &0x1234u16.to_ne_bytes());
}
