use libvmr::isa::{Arguments, Flags, Operation, Register};

fn chars(s: &str) -> Vec<char> {
    s.chars().collect()
}

fn mnemonic(s: &str) -> Option<Operation> {
    let cs = chars(s);
    Operation::from_mnemonic(&cs, 0, cs.len())
}

#[test]
fn every_opcode_byte_round_trips() {
    let mut count = 0;
    for b in 0u8..=255 {
        if let Some(op) = Operation::from_u8(b) {
            assert_eq!(op.to_u8(), b);
            count += 1;
        }
    }
    assert_eq!(count, 52);
}

#[test]
fn opcode_values_follow_the_reference() {
    assert_eq!(Operation::from_u8(0x00), Some(Operation::HALT));
    assert_eq!(Operation::from_u8(0x11), Some(Operation::MOV_IMM));
    assert_eq!(Operation::from_u8(0x60), Some(Operation::DIV_MOD));
    assert_eq!(Operation::from_u8(0xB0), Some(Operation::JMP));
    assert_eq!(Operation::from_u8(0xBC), Some(Operation::JNC));
    assert_eq!(Operation::from_u8(0xD0), Some(Operation::CALL));
    assert_eq!(Operation::from_u8(0xD2), Some(Operation::RET));
    assert_eq!(Operation::from_u8(0xFF), Some(Operation::SYSCALL));
    assert_eq!(Operation::STORE_REL_IMM.to_u8(), 0x34);
}

#[test]
fn reserved_opcodes_decode_to_nothing() {
    assert_eq!(Operation::from_u8(0xC0), None);
    assert_eq!(Operation::from_u8(0xCF), None);
    assert_eq!(Operation::from_u8(0xD1), None);
    assert_eq!(Operation::from_u8(0x02), None);
    assert_eq!(Operation::from_u8(0xBD), None);
}

#[test]
fn operand_shapes_follow_the_reference() {
    assert_eq!(Operation::HALT.arg_type(), Arguments::NoArgs);
    assert_eq!(Operation::SYSCALL.arg_type(), Arguments::NoArgs);
    assert_eq!(Operation::RET.arg_type(), Arguments::NoArgs);
    assert_eq!(Operation::DIV_MOD.arg_type(), Arguments::Reg);
    assert_eq!(Operation::PUSH_M.arg_type(), Arguments::Reg);
    assert_eq!(Operation::PUSH_IMM.arg_type(), Arguments::Imm);
    assert_eq!(Operation::JMP.arg_type(), Arguments::Imm);
    assert_eq!(Operation::CALL.arg_type(), Arguments::Imm);
    assert_eq!(Operation::MOV.arg_type(), Arguments::RegReg);
    assert_eq!(Operation::CMP_IMM.arg_type(), Arguments::RegImm);
    assert_eq!(Operation::LOAD_IMM.arg_type(), Arguments::ImmReg);
    assert_eq!(Operation::STORE_IMM_IMM.arg_type(), Arguments::ImmImm);
    assert_eq!(Operation::LOAD_REL.arg_type(), Arguments::RegImmReg);
    assert_eq!(Operation::STORE_REL_IMM.arg_type(), Arguments::RegImmImm);
}

#[test]
fn instruction_lengths_follow_the_reference() {
    assert_eq!(Arguments::NoArgs.to_offset(), 1);
    assert_eq!(Arguments::Reg.to_offset(), 2);
    assert_eq!(Arguments::RegReg.to_offset(), 3);
    assert_eq!(Arguments::RegImm.to_offset(), 4);
    assert_eq!(Arguments::ImmImm.to_offset(), 5);
    assert_eq!(Arguments::RegImmReg.to_offset(), 5);
    assert_eq!(Arguments::ImmReg.to_offset(), 4);
    assert_eq!(Arguments::Imm.to_offset(), 3);
    assert_eq!(Arguments::RegImmImm.to_offset(), 6);
}

#[test]
fn register_bytes_round_trip() {
    for b in 0u8..=16 {
        let r = Register::from_u8(b).unwrap();
        assert_eq!(r.index(), b);
    }
    assert_eq!(Register::from_u8(16), Some(Register::RSP));
    assert_eq!(Register::from_u8(0), Some(Register::R0));
    assert_eq!(Register::from_u8(17), None);
    assert_eq!(Register::from_u8(0xFF), None);
}

#[test]
fn flag_masks() {
    assert_eq!(Flags::Equals.bits(), 0b0001);
    assert_eq!(Flags::Negative.bits(), 0b0010);
    assert_eq!(Flags::Overflow.bits(), 0b0100);
    assert_eq!(Flags::Carry.bits(), 0b1000);
}

#[test]
fn mnemonics_are_case_sensitive() {
    assert_eq!(mnemonic("MOV_IMM"), Some(Operation::MOV_IMM));
    assert_eq!(mnemonic("SYSCALL"), Some(Operation::SYSCALL));
    assert_eq!(mnemonic("mov_imm"), None);
    assert_eq!(mnemonic("MOVI"), None);
    assert_eq!(mnemonic("MOV_IMM "), None);
    assert_eq!(mnemonic(""), None);
}

#[test]
fn mnemonic_inside_a_longer_text() {
    let cs = chars("xx JMP yy");
    assert_eq!(Operation::from_mnemonic(&cs, 3, 6), Some(Operation::JMP));
    assert_eq!(Operation::from_mnemonic(&cs, 2, 6), None);
}

#[test]
fn every_mnemonic_names_its_operation() {
    for b in 0u8..=255 {
        if let Some(op) = Operation::from_u8(b) {
            let name = format!("{:?}", op);
            assert_eq!(mnemonic(&name), Some(op));
        }
    }
}
