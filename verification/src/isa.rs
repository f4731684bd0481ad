//! The instruction set: registers, operations, operand shapes and flag bits.
use vstd::prelude::*;

verus! {

/// A register operand. `R0`..`R15` are general purpose; `RSP` is the stack pointer.
#[derive(Debug, Clone, Copy, PartialEq, Eq, Structural)]
pub enum Register {
    R0,
    R1,
    R2,
    R3,
    R4,
    R5,
    R6,
    R7,
    R8,
    R9,
    R10,
    R11,
    R12,
    R13,
    R14,
    R15,
    RSP,
}

/// An immediate operand as it is stored in the instruction stream.
pub type Immediate = u16;

/// A signed offset operand of the relative addressing instructions.
pub type Offset = i16;

/// The byte that encodes register `r` in the instruction stream.
pub open spec fn spec_register_index(r: Register) -> u8 {
    match r {
        Register::R0 => 0,
        Register::R1 => 1,
        Register::R2 => 2,
        Register::R3 => 3,
        Register::R4 => 4,
        Register::R5 => 5,
        Register::R6 => 6,
        Register::R7 => 7,
        Register::R8 => 8,
        Register::R9 => 9,
        Register::R10 => 10,
        Register::R11 => 11,
        Register::R12 => 12,
        Register::R13 => 13,
        Register::R14 => 14,
        Register::R15 => 15,
        Register::RSP => 16,
    }
}

/// The register that byte `b` encodes, if any.
pub open spec fn spec_register_from_u8(b: u8) -> Option<Register> {
    match b {
        0 => Some(Register::R0),
        1 => Some(Register::R1),
        2 => Some(Register::R2),
        3 => Some(Register::R3),
        4 => Some(Register::R4),
        5 => Some(Register::R5),
        6 => Some(Register::R6),
        7 => Some(Register::R7),
        8 => Some(Register::R8),
        9 => Some(Register::R9),
        10 => Some(Register::R10),
        11 => Some(Register::R11),
        12 => Some(Register::R12),
        13 => Some(Register::R13),
        14 => Some(Register::R14),
        15 => Some(Register::R15),
        16 => Some(Register::RSP),
        _ => None,
    }
}

impl Register {
    /// The byte that encodes this register (its position `0..=16`).
    pub fn index(self) -> (r: u8)
        ensures
            r == spec_register_index(self),
    {
        match self {
            Register::R0 => 0,
            Register::R1 => 1,
            Register::R2 => 2,
            Register::R3 => 3,
            Register::R4 => 4,
            Register::R5 => 5,
            Register::R6 => 6,
            Register::R7 => 7,
            Register::R8 => 8,
            Register::R9 => 9,
            Register::R10 => 10,
            Register::R11 => 11,
            Register::R12 => 12,
            Register::R13 => 13,
            Register::R14 => 14,
            Register::R15 => 15,
            Register::RSP => 16,
        }
    }

    /// Decodes a register byte: bytes `0..=16` name `R0`..`R15` and `RSP`, others none.
    pub fn from_u8(b: u8) -> (r: Option<Register>)
        ensures
            r == spec_register_from_u8(b),
            r is Some <==> b <= 16,
    {
        match b {
            0 => Some(Register::R0),
            1 => Some(Register::R1),
            2 => Some(Register::R2),
            3 => Some(Register::R3),
            4 => Some(Register::R4),
            5 => Some(Register::R5),
            6 => Some(Register::R6),
            7 => Some(Register::R7),
            8 => Some(Register::R8),
            9 => Some(Register::R9),
            10 => Some(Register::R10),
            11 => Some(Register::R11),
            12 => Some(Register::R12),
            13 => Some(Register::R13),
            14 => Some(Register::R14),
            15 => Some(Register::R15),
            16 => Some(Register::RSP),
            _ => None,
        }
    }
}

/// Decoding a register's byte gives the register back, and every decodable byte is the
/// encoding of the register it decodes to.
pub proof fn lemma_register_encoding(r: Register, b: u8)
    ensures
        spec_register_from_u8(spec_register_index(r)) == Some(r),
        spec_register_index(r) <= 16,
        spec_register_from_u8(b) matches Some(q) ==> spec_register_index(q) == b,
{
}

/// An operation of the virtual machine, named by its assembler mnemonic.
#[allow(non_camel_case_types)]
#[derive(Debug, Clone, Copy, PartialEq, Eq, Structural)]
pub enum Operation {
    HALT,
    NOP,
    MOV,
    MOV_IMM,
    LOAD,
    LOAD_REL,
    LOAD_IMM,
    STORE_R_R,
    STORE_REL_R,
    STORE_IMM_R,
    STORE_R_IMM,
    STORE_REL_IMM,
    STORE_IMM_IMM,
    ADD,
    ADD_IMM,
    SUB,
    SUB_IMM,
    AND,
    AND_IMM,
    OR,
    OR_IMM,
    XOR,
    XOR_IMM,
    DIV_MOD,
    SHL,
    SHL_IMM,
    SHR,
    SHR_IMM,
    CMP,
    CMP_IMM,
    PUSH,
    PUSH_M,
    PUSH_IMM,
    POP,
    POP_M,
    POP_IMM,
    JMP,
    JZ,
    JNZ,
    JA,
    JB,
    JAE,
    JBE,
    JN,
    JNN,
    JO,
    JNO,
    JC,
    JNC,
    CALL,
    RET,
    SYSCALL,
}

/// The shape of the operands that follow an opcode byte.
#[derive(Debug, Clone, Copy, PartialEq, Eq, Structural)]
pub enum Arguments {
    NoArgs,
    Reg,
    RegReg,
    RegImm,
    ImmImm,
    RegImmReg,
    ImmReg,
    Imm,
    RegImmImm,
}

/// One operand slot of an instruction: a one-byte register or a two-byte immediate.
#[derive(Debug, Clone, Copy, PartialEq, Eq, Structural)]
pub enum OperandKind {
    Reg,
    Imm,
}

/// The opcode byte of an operation.
pub open spec fn spec_op_code(op: Operation) -> u8 {
    match op {
        Operation::HALT => 0x00,
        Operation::NOP => 0x01,
        Operation::MOV => 0x10,
        Operation::MOV_IMM => 0x11,
        Operation::LOAD => 0x20,
        Operation::LOAD_REL => 0x21,
        Operation::LOAD_IMM => 0x22,
        Operation::STORE_R_R => 0x30,
        Operation::STORE_REL_R => 0x31,
        Operation::STORE_IMM_R => 0x32,
        Operation::STORE_R_IMM => 0x33,
        Operation::STORE_REL_IMM => 0x34,
        Operation::STORE_IMM_IMM => 0x35,
        Operation::ADD => 0x40,
        Operation::ADD_IMM => 0x41,
        Operation::SUB => 0x42,
        Operation::SUB_IMM => 0x43,
        Operation::AND => 0x50,
        Operation::AND_IMM => 0x51,
        Operation::OR => 0x52,
        Operation::OR_IMM => 0x53,
        Operation::XOR => 0x54,
        Operation::XOR_IMM => 0x55,
        Operation::DIV_MOD => 0x60,
        Operation::SHL => 0x70,
        Operation::SHL_IMM => 0x71,
        Operation::SHR => 0x72,
        Operation::SHR_IMM => 0x73,
        Operation::CMP => 0x80,
        Operation::CMP_IMM => 0x81,
        Operation::PUSH => 0x90,
        Operation::PUSH_M => 0x91,
        Operation::PUSH_IMM => 0x92,
        Operation::POP => 0xA0,
        Operation::POP_M => 0xA1,
        Operation::POP_IMM => 0xA2,
        Operation::JMP => 0xB0,
        Operation::JZ => 0xB1,
        Operation::JNZ => 0xB2,
        Operation::JA => 0xB3,
        Operation::JB => 0xB4,
        Operation::JAE => 0xB5,
        Operation::JBE => 0xB6,
        Operation::JN => 0xB7,
        Operation::JNN => 0xB8,
        Operation::JO => 0xB9,
        Operation::JNO => 0xBA,
        Operation::JC => 0xBB,
        Operation::JNC => 0xBC,
        Operation::CALL => 0xD0,
        Operation::RET => 0xD2,
        Operation::SYSCALL => 0xFF,
    }
}

/// The operation that an opcode byte encodes, if any.
pub open spec fn spec_op_from_code(b: u8) -> Option<Operation> {
    match b {
        0x00 => Some(Operation::HALT),
        0x01 => Some(Operation::NOP),
        0x10 => Some(Operation::MOV),
        0x11 => Some(Operation::MOV_IMM),
        0x20 => Some(Operation::LOAD),
        0x21 => Some(Operation::LOAD_REL),
        0x22 => Some(Operation::LOAD_IMM),
        0x30 => Some(Operation::STORE_R_R),
        0x31 => Some(Operation::STORE_REL_R),
        0x32 => Some(Operation::STORE_IMM_R),
        0x33 => Some(Operation::STORE_R_IMM),
        0x34 => Some(Operation::STORE_REL_IMM),
        0x35 => Some(Operation::STORE_IMM_IMM),
        0x40 => Some(Operation::ADD),
        0x41 => Some(Operation::ADD_IMM),
        0x42 => Some(Operation::SUB),
        0x43 => Some(Operation::SUB_IMM),
        0x50 => Some(Operation::AND),
        0x51 => Some(Operation::AND_IMM),
        0x52 => Some(Operation::OR),
        0x53 => Some(Operation::OR_IMM),
        0x54 => Some(Operation::XOR),
        0x55 => Some(Operation::XOR_IMM),
        0x60 => Some(Operation::DIV_MOD),
        0x70 => Some(Operation::SHL),
        0x71 => Some(Operation::SHL_IMM),
        0x72 => Some(Operation::SHR),
        0x73 => Some(Operation::SHR_IMM),
        0x80 => Some(Operation::CMP),
        0x81 => Some(Operation::CMP_IMM),
        0x90 => Some(Operation::PUSH),
        0x91 => Some(Operation::PUSH_M),
        0x92 => Some(Operation::PUSH_IMM),
        0xA0 => Some(Operation::POP),
        0xA1 => Some(Operation::POP_M),
        0xA2 => Some(Operation::POP_IMM),
        0xB0 => Some(Operation::JMP),
        0xB1 => Some(Operation::JZ),
        0xB2 => Some(Operation::JNZ),
        0xB3 => Some(Operation::JA),
        0xB4 => Some(Operation::JB),
        0xB5 => Some(Operation::JAE),
        0xB6 => Some(Operation::JBE),
        0xB7 => Some(Operation::JN),
        0xB8 => Some(Operation::JNN),
        0xB9 => Some(Operation::JO),
        0xBA => Some(Operation::JNO),
        0xBB => Some(Operation::JC),
        0xBC => Some(Operation::JNC),
        0xD0 => Some(Operation::CALL),
        0xD2 => Some(Operation::RET),
        0xFF => Some(Operation::SYSCALL),
        _ => None,
    }
}

/// The operand shape of an operation.
pub open spec fn spec_arg_type(op: Operation) -> Arguments {
    match op {
        Operation::HALT => Arguments::NoArgs,
        Operation::NOP => Arguments::NoArgs,
        Operation::MOV => Arguments::RegReg,
        Operation::MOV_IMM => Arguments::RegImm,
        Operation::LOAD => Arguments::RegReg,
        Operation::LOAD_REL => Arguments::RegImmReg,
        Operation::LOAD_IMM => Arguments::ImmReg,
        Operation::STORE_R_R => Arguments::RegReg,
        Operation::STORE_REL_R => Arguments::RegImmReg,
        Operation::STORE_IMM_R => Arguments::ImmReg,
        Operation::STORE_R_IMM => Arguments::RegImm,
        Operation::STORE_REL_IMM => Arguments::RegImmImm,
        Operation::STORE_IMM_IMM => Arguments::ImmImm,
        Operation::ADD => Arguments::RegReg,
        Operation::ADD_IMM => Arguments::RegImm,
        Operation::SUB => Arguments::RegReg,
        Operation::SUB_IMM => Arguments::RegImm,
        Operation::AND => Arguments::RegReg,
        Operation::AND_IMM => Arguments::RegImm,
        Operation::OR => Arguments::RegReg,
        Operation::OR_IMM => Arguments::RegImm,
        Operation::XOR => Arguments::RegReg,
        Operation::XOR_IMM => Arguments::RegImm,
        Operation::DIV_MOD => Arguments::Reg,
        Operation::SHL => Arguments::RegReg,
        Operation::SHL_IMM => Arguments::RegImm,
        Operation::SHR => Arguments::RegReg,
        Operation::SHR_IMM => Arguments::RegImm,
        Operation::CMP => Arguments::RegReg,
        Operation::CMP_IMM => Arguments::RegImm,
        Operation::PUSH => Arguments::Reg,
        Operation::PUSH_M => Arguments::Reg,
        Operation::PUSH_IMM => Arguments::Imm,
        Operation::POP => Arguments::Reg,
        Operation::POP_M => Arguments::Reg,
        Operation::POP_IMM => Arguments::Imm,
        Operation::JMP => Arguments::Imm,
        Operation::JZ => Arguments::Imm,
        Operation::JNZ => Arguments::Imm,
        Operation::JA => Arguments::Imm,
        Operation::JB => Arguments::Imm,
        Operation::JAE => Arguments::Imm,
        Operation::JBE => Arguments::Imm,
        Operation::JN => Arguments::Imm,
        Operation::JNN => Arguments::Imm,
        Operation::JO => Arguments::Imm,
        Operation::JNO => Arguments::Imm,
        Operation::JC => Arguments::Imm,
        Operation::JNC => Arguments::Imm,
        Operation::CALL => Arguments::Imm,
        Operation::RET => Arguments::NoArgs,
        Operation::SYSCALL => Arguments::NoArgs,
    }
}

/// The mnemonic of an operation, spelled exactly as the enum variant.
pub open spec fn spec_op_name(op: Operation) -> Seq<char> {
    match op {
        Operation::HALT => seq!['H', 'A', 'L', 'T'],
        Operation::NOP => seq!['N', 'O', 'P'],
        Operation::MOV => seq!['M', 'O', 'V'],
        Operation::MOV_IMM => seq!['M', 'O', 'V', '_', 'I', 'M', 'M'],
        Operation::LOAD => seq!['L', 'O', 'A', 'D'],
        Operation::LOAD_REL => seq!['L', 'O', 'A', 'D', '_', 'R', 'E', 'L'],
        Operation::LOAD_IMM => seq!['L', 'O', 'A', 'D', '_', 'I', 'M', 'M'],
        Operation::STORE_R_R => seq!['S', 'T', 'O', 'R', 'E', '_', 'R', '_', 'R'],
        Operation::STORE_REL_R => seq!['S', 'T', 'O', 'R', 'E', '_', 'R', 'E', 'L', '_', 'R'],
        Operation::STORE_IMM_R => seq!['S', 'T', 'O', 'R', 'E', '_', 'I', 'M', 'M', '_', 'R'],
        Operation::STORE_R_IMM => seq!['S', 'T', 'O', 'R', 'E', '_', 'R', '_', 'I', 'M', 'M'],
        Operation::STORE_REL_IMM => seq!['S', 'T', 'O', 'R', 'E', '_', 'R', 'E', 'L', '_', 'I', 'M', 'M'],
        Operation::STORE_IMM_IMM => seq!['S', 'T', 'O', 'R', 'E', '_', 'I', 'M', 'M', '_', 'I', 'M', 'M'],
        Operation::ADD => seq!['A', 'D', 'D'],
        Operation::ADD_IMM => seq!['A', 'D', 'D', '_', 'I', 'M', 'M'],
        Operation::SUB => seq!['S', 'U', 'B'],
        Operation::SUB_IMM => seq!['S', 'U', 'B', '_', 'I', 'M', 'M'],
        Operation::AND => seq!['A', 'N', 'D'],
        Operation::AND_IMM => seq!['A', 'N', 'D', '_', 'I', 'M', 'M'],
        Operation::OR => seq!['O', 'R'],
        Operation::OR_IMM => seq!['O', 'R', '_', 'I', 'M', 'M'],
        Operation::XOR => seq!['X', 'O', 'R'],
        Operation::XOR_IMM => seq!['X', 'O', 'R', '_', 'I', 'M', 'M'],
        Operation::DIV_MOD => seq!['D', 'I', 'V', '_', 'M', 'O', 'D'],
        Operation::SHL => seq!['S', 'H', 'L'],
        Operation::SHL_IMM => seq!['S', 'H', 'L', '_', 'I', 'M', 'M'],
        Operation::SHR => seq!['S', 'H', 'R'],
        Operation::SHR_IMM => seq!['S', 'H', 'R', '_', 'I', 'M', 'M'],
        Operation::CMP => seq!['C', 'M', 'P'],
        Operation::CMP_IMM => seq!['C', 'M', 'P', '_', 'I', 'M', 'M'],
        Operation::PUSH => seq!['P', 'U', 'S', 'H'],
        Operation::PUSH_M => seq!['P', 'U', 'S', 'H', '_', 'M'],
        Operation::PUSH_IMM => seq!['P', 'U', 'S', 'H', '_', 'I', 'M', 'M'],
        Operation::POP => seq!['P', 'O', 'P'],
        Operation::POP_M => seq!['P', 'O', 'P', '_', 'M'],
        Operation::POP_IMM => seq!['P', 'O', 'P', '_', 'I', 'M', 'M'],
        Operation::JMP => seq!['J', 'M', 'P'],
        Operation::JZ => seq!['J', 'Z'],
        Operation::JNZ => seq!['J', 'N', 'Z'],
        Operation::JA => seq!['J', 'A'],
        Operation::JB => seq!['J', 'B'],
        Operation::JAE => seq!['J', 'A', 'E'],
        Operation::JBE => seq!['J', 'B', 'E'],
        Operation::JN => seq!['J', 'N'],
        Operation::JNN => seq!['J', 'N', 'N'],
        Operation::JO => seq!['J', 'O'],
        Operation::JNO => seq!['J', 'N', 'O'],
        Operation::JC => seq!['J', 'C'],
        Operation::JNC => seq!['J', 'N', 'C'],
        Operation::CALL => seq!['C', 'A', 'L', 'L'],
        Operation::RET => seq!['R', 'E', 'T'],
        Operation::SYSCALL => seq!['S', 'Y', 'S', 'C', 'A', 'L', 'L'],
    }
}


/// The total length in bytes of an instruction with operand shape `a`, opcode included.
pub open spec fn spec_to_offset(a: Arguments) -> u8 {
    match a {
        Arguments::NoArgs => 1,
        Arguments::Reg => 2,
        Arguments::Imm | Arguments::RegReg => 3,
        Arguments::RegImm | Arguments::ImmReg => 4,
        Arguments::ImmImm | Arguments::RegImmReg => 5,
        Arguments::RegImmImm => 6,
    }
}

/// The operand slots of a shape, in the order they follow the opcode.
pub open spec fn spec_operands(a: Arguments) -> Seq<OperandKind> {
    match a {
        Arguments::NoArgs => seq![],
        Arguments::Reg => seq![OperandKind::Reg],
        Arguments::RegReg => seq![OperandKind::Reg, OperandKind::Reg],
        Arguments::RegImm => seq![OperandKind::Reg, OperandKind::Imm],
        Arguments::ImmImm => seq![OperandKind::Imm, OperandKind::Imm],
        Arguments::RegImmReg => seq![OperandKind::Reg, OperandKind::Imm, OperandKind::Reg],
        Arguments::ImmReg => seq![OperandKind::Imm, OperandKind::Reg],
        Arguments::Imm => seq![OperandKind::Imm],
        Arguments::RegImmImm => seq![OperandKind::Reg, OperandKind::Imm, OperandKind::Imm],
    }
}

/// The number of bytes an operand slot takes in the instruction stream.
pub open spec fn spec_operand_size(k: OperandKind) -> nat {
    match k {
        OperandKind::Reg => 1,
        OperandKind::Imm => 2,
    }
}

/// The number of bytes that a list of operand slots takes.
pub open spec fn spec_operands_size(ks: Seq<OperandKind>) -> nat
    decreases ks.len(),
{
    if ks.len() == 0 {
        0
    } else {
        spec_operands_size(ks.drop_last()) + spec_operand_size(ks.last())
    }
}

impl Operation {
    /// The opcode byte of this operation.
    pub fn to_u8(self) -> (r: u8)
        ensures
            r == spec_op_code(self),
    {
        match self {
            Operation::HALT => 0x00,
            Operation::NOP => 0x01,
            Operation::MOV => 0x10,
            Operation::MOV_IMM => 0x11,
            Operation::LOAD => 0x20,
            Operation::LOAD_REL => 0x21,
            Operation::LOAD_IMM => 0x22,
            Operation::STORE_R_R => 0x30,
            Operation::STORE_REL_R => 0x31,
            Operation::STORE_IMM_R => 0x32,
            Operation::STORE_R_IMM => 0x33,
            Operation::STORE_REL_IMM => 0x34,
            Operation::STORE_IMM_IMM => 0x35,
            Operation::ADD => 0x40,
            Operation::ADD_IMM => 0x41,
            Operation::SUB => 0x42,
            Operation::SUB_IMM => 0x43,
            Operation::AND => 0x50,
            Operation::AND_IMM => 0x51,
            Operation::OR => 0x52,
            Operation::OR_IMM => 0x53,
            Operation::XOR => 0x54,
            Operation::XOR_IMM => 0x55,
            Operation::DIV_MOD => 0x60,
            Operation::SHL => 0x70,
            Operation::SHL_IMM => 0x71,
            Operation::SHR => 0x72,
            Operation::SHR_IMM => 0x73,
            Operation::CMP => 0x80,
            Operation::CMP_IMM => 0x81,
            Operation::PUSH => 0x90,
            Operation::PUSH_M => 0x91,
            Operation::PUSH_IMM => 0x92,
            Operation::POP => 0xA0,
            Operation::POP_M => 0xA1,
            Operation::POP_IMM => 0xA2,
            Operation::JMP => 0xB0,
            Operation::JZ => 0xB1,
            Operation::JNZ => 0xB2,
            Operation::JA => 0xB3,
            Operation::JB => 0xB4,
            Operation::JAE => 0xB5,
            Operation::JBE => 0xB6,
            Operation::JN => 0xB7,
            Operation::JNN => 0xB8,
            Operation::JO => 0xB9,
            Operation::JNO => 0xBA,
            Operation::JC => 0xBB,
            Operation::JNC => 0xBC,
            Operation::CALL => 0xD0,
            Operation::RET => 0xD2,
            Operation::SYSCALL => 0xFF,
        }
    }

    /// Decodes an opcode byte; bytes that encode no operation give `None`.
    pub fn from_u8(b: u8) -> (r: Option<Operation>)
        ensures
            r == spec_op_from_code(b),
    {
        match b {
            0x00 => Some(Operation::HALT),
            0x01 => Some(Operation::NOP),
            0x10 => Some(Operation::MOV),
            0x11 => Some(Operation::MOV_IMM),
            0x20 => Some(Operation::LOAD),
            0x21 => Some(Operation::LOAD_REL),
            0x22 => Some(Operation::LOAD_IMM),
            0x30 => Some(Operation::STORE_R_R),
            0x31 => Some(Operation::STORE_REL_R),
            0x32 => Some(Operation::STORE_IMM_R),
            0x33 => Some(Operation::STORE_R_IMM),
            0x34 => Some(Operation::STORE_REL_IMM),
            0x35 => Some(Operation::STORE_IMM_IMM),
            0x40 => Some(Operation::ADD),
            0x41 => Some(Operation::ADD_IMM),
            0x42 => Some(Operation::SUB),
            0x43 => Some(Operation::SUB_IMM),
            0x50 => Some(Operation::AND),
            0x51 => Some(Operation::AND_IMM),
            0x52 => Some(Operation::OR),
            0x53 => Some(Operation::OR_IMM),
            0x54 => Some(Operation::XOR),
            0x55 => Some(Operation::XOR_IMM),
            0x60 => Some(Operation::DIV_MOD),
            0x70 => Some(Operation::SHL),
            0x71 => Some(Operation::SHL_IMM),
            0x72 => Some(Operation::SHR),
            0x73 => Some(Operation::SHR_IMM),
            0x80 => Some(Operation::CMP),
            0x81 => Some(Operation::CMP_IMM),
            0x90 => Some(Operation::PUSH),
            0x91 => Some(Operation::PUSH_M),
            0x92 => Some(Operation::PUSH_IMM),
            0xA0 => Some(Operation::POP),
            0xA1 => Some(Operation::POP_M),
            0xA2 => Some(Operation::POP_IMM),
            0xB0 => Some(Operation::JMP),
            0xB1 => Some(Operation::JZ),
            0xB2 => Some(Operation::JNZ),
            0xB3 => Some(Operation::JA),
            0xB4 => Some(Operation::JB),
            0xB5 => Some(Operation::JAE),
            0xB6 => Some(Operation::JBE),
            0xB7 => Some(Operation::JN),
            0xB8 => Some(Operation::JNN),
            0xB9 => Some(Operation::JO),
            0xBA => Some(Operation::JNO),
            0xBB => Some(Operation::JC),
            0xBC => Some(Operation::JNC),
            0xD0 => Some(Operation::CALL),
            0xD2 => Some(Operation::RET),
            0xFF => Some(Operation::SYSCALL),
            _ => None,
        }
    }

    /// The operand shape that follows this operation's opcode.
    pub fn arg_type(&self) -> (r: Arguments)
        ensures
            r == spec_arg_type(*self),
    {
        match self {
            Operation::HALT => Arguments::NoArgs,
            Operation::NOP => Arguments::NoArgs,
            Operation::MOV => Arguments::RegReg,
            Operation::MOV_IMM => Arguments::RegImm,
            Operation::LOAD => Arguments::RegReg,
            Operation::LOAD_REL => Arguments::RegImmReg,
            Operation::LOAD_IMM => Arguments::ImmReg,
            Operation::STORE_R_R => Arguments::RegReg,
            Operation::STORE_REL_R => Arguments::RegImmReg,
            Operation::STORE_IMM_R => Arguments::ImmReg,
            Operation::STORE_R_IMM => Arguments::RegImm,
            Operation::STORE_REL_IMM => Arguments::RegImmImm,
            Operation::STORE_IMM_IMM => Arguments::ImmImm,
            Operation::ADD => Arguments::RegReg,
            Operation::ADD_IMM => Arguments::RegImm,
            Operation::SUB => Arguments::RegReg,
            Operation::SUB_IMM => Arguments::RegImm,
            Operation::AND => Arguments::RegReg,
            Operation::AND_IMM => Arguments::RegImm,
            Operation::OR => Arguments::RegReg,
            Operation::OR_IMM => Arguments::RegImm,
            Operation::XOR => Arguments::RegReg,
            Operation::XOR_IMM => Arguments::RegImm,
            Operation::DIV_MOD => Arguments::Reg,
            Operation::SHL => Arguments::RegReg,
            Operation::SHL_IMM => Arguments::RegImm,
            Operation::SHR => Arguments::RegReg,
            Operation::SHR_IMM => Arguments::RegImm,
            Operation::CMP => Arguments::RegReg,
            Operation::CMP_IMM => Arguments::RegImm,
            Operation::PUSH => Arguments::Reg,
            Operation::PUSH_M => Arguments::Reg,
            Operation::PUSH_IMM => Arguments::Imm,
            Operation::POP => Arguments::Reg,
            Operation::POP_M => Arguments::Reg,
            Operation::POP_IMM => Arguments::Imm,
            Operation::JMP => Arguments::Imm,
            Operation::JZ => Arguments::Imm,
            Operation::JNZ => Arguments::Imm,
            Operation::JA => Arguments::Imm,
            Operation::JB => Arguments::Imm,
            Operation::JAE => Arguments::Imm,
            Operation::JBE => Arguments::Imm,
            Operation::JN => Arguments::Imm,
            Operation::JNN => Arguments::Imm,
            Operation::JO => Arguments::Imm,
            Operation::JNO => Arguments::Imm,
            Operation::JC => Arguments::Imm,
            Operation::JNC => Arguments::Imm,
            Operation::CALL => Arguments::Imm,
            Operation::RET => Arguments::NoArgs,
            Operation::SYSCALL => Arguments::NoArgs,
        }
    }

    /// Looks up the operation whose mnemonic is exactly the characters `name[start..end]`
    /// (case-sensitive).
    pub fn from_mnemonic(name: &[char], start: usize, end: usize) -> (r: Option<Operation>)
        requires
            start <= end <= name@.len(),
        ensures
            r == spec_op_from_name(name@.subrange(start as int, end as int)),
    {
        if eq_range(name, start, end, &['H', 'A', 'L', 'T']) {
            return Some(Operation::HALT);
        }
        if eq_range(name, start, end, &['N', 'O', 'P']) {
            return Some(Operation::NOP);
        }
        if eq_range(name, start, end, &['M', 'O', 'V']) {
            return Some(Operation::MOV);
        }
        if eq_range(name, start, end, &['M', 'O', 'V', '_', 'I', 'M', 'M']) {
            return Some(Operation::MOV_IMM);
        }
        if eq_range(name, start, end, &['L', 'O', 'A', 'D']) {
            return Some(Operation::LOAD);
        }
        if eq_range(name, start, end, &['L', 'O', 'A', 'D', '_', 'R', 'E', 'L']) {
            return Some(Operation::LOAD_REL);
        }
        if eq_range(name, start, end, &['L', 'O', 'A', 'D', '_', 'I', 'M', 'M']) {
            return Some(Operation::LOAD_IMM);
        }
        if eq_range(name, start, end, &['S', 'T', 'O', 'R', 'E', '_', 'R', '_', 'R']) {
            return Some(Operation::STORE_R_R);
        }
        if eq_range(name, start, end, &['S', 'T', 'O', 'R', 'E', '_', 'R', 'E', 'L', '_', 'R']) {
            return Some(Operation::STORE_REL_R);
        }
        if eq_range(name, start, end, &['S', 'T', 'O', 'R', 'E', '_', 'I', 'M', 'M', '_', 'R']) {
            return Some(Operation::STORE_IMM_R);
        }
        if eq_range(name, start, end, &['S', 'T', 'O', 'R', 'E', '_', 'R', '_', 'I', 'M', 'M']) {
            return Some(Operation::STORE_R_IMM);
        }
        if eq_range(name, start, end, &['S', 'T', 'O', 'R', 'E', '_', 'R', 'E', 'L', '_', 'I', 'M', 'M']) {
            return Some(Operation::STORE_REL_IMM);
        }
        if eq_range(name, start, end, &['S', 'T', 'O', 'R', 'E', '_', 'I', 'M', 'M', '_', 'I', 'M', 'M']) {
            return Some(Operation::STORE_IMM_IMM);
        }
        if eq_range(name, start, end, &['A', 'D', 'D']) {
            return Some(Operation::ADD);
        }
        if eq_range(name, start, end, &['A', 'D', 'D', '_', 'I', 'M', 'M']) {
            return Some(Operation::ADD_IMM);
        }
        if eq_range(name, start, end, &['S', 'U', 'B']) {
            return Some(Operation::SUB);
        }
        if eq_range(name, start, end, &['S', 'U', 'B', '_', 'I', 'M', 'M']) {
            return Some(Operation::SUB_IMM);
        }
        if eq_range(name, start, end, &['A', 'N', 'D']) {
            return Some(Operation::AND);
        }
        if eq_range(name, start, end, &['A', 'N', 'D', '_', 'I', 'M', 'M']) {
            return Some(Operation::AND_IMM);
        }
        if eq_range(name, start, end, &['O', 'R']) {
            return Some(Operation::OR);
        }
        if eq_range(name, start, end, &['O', 'R', '_', 'I', 'M', 'M']) {
            return Some(Operation::OR_IMM);
        }
        if eq_range(name, start, end, &['X', 'O', 'R']) {
            return Some(Operation::XOR);
        }
        if eq_range(name, start, end, &['X', 'O', 'R', '_', 'I', 'M', 'M']) {
            return Some(Operation::XOR_IMM);
        }
        if eq_range(name, start, end, &['D', 'I', 'V', '_', 'M', 'O', 'D']) {
            return Some(Operation::DIV_MOD);
        }
        if eq_range(name, start, end, &['S', 'H', 'L']) {
            return Some(Operation::SHL);
        }
        if eq_range(name, start, end, &['S', 'H', 'L', '_', 'I', 'M', 'M']) {
            return Some(Operation::SHL_IMM);
        }
        if eq_range(name, start, end, &['S', 'H', 'R']) {
            return Some(Operation::SHR);
        }
        if eq_range(name, start, end, &['S', 'H', 'R', '_', 'I', 'M', 'M']) {
            return Some(Operation::SHR_IMM);
        }
        if eq_range(name, start, end, &['C', 'M', 'P']) {
            return Some(Operation::CMP);
        }
        if eq_range(name, start, end, &['C', 'M', 'P', '_', 'I', 'M', 'M']) {
            return Some(Operation::CMP_IMM);
        }
        if eq_range(name, start, end, &['P', 'U', 'S', 'H']) {
            return Some(Operation::PUSH);
        }
        if eq_range(name, start, end, &['P', 'U', 'S', 'H', '_', 'M']) {
            return Some(Operation::PUSH_M);
        }
        if eq_range(name, start, end, &['P', 'U', 'S', 'H', '_', 'I', 'M', 'M']) {
            return Some(Operation::PUSH_IMM);
        }
        if eq_range(name, start, end, &['P', 'O', 'P']) {
            return Some(Operation::POP);
        }
        if eq_range(name, start, end, &['P', 'O', 'P', '_', 'M']) {
            return Some(Operation::POP_M);
        }
        if eq_range(name, start, end, &['P', 'O', 'P', '_', 'I', 'M', 'M']) {
            return Some(Operation::POP_IMM);
        }
        if eq_range(name, start, end, &['J', 'M', 'P']) {
            return Some(Operation::JMP);
        }
        if eq_range(name, start, end, &['J', 'Z']) {
            return Some(Operation::JZ);
        }
        if eq_range(name, start, end, &['J', 'N', 'Z']) {
            return Some(Operation::JNZ);
        }
        if eq_range(name, start, end, &['J', 'A']) {
            return Some(Operation::JA);
        }
        if eq_range(name, start, end, &['J', 'B']) {
            return Some(Operation::JB);
        }
        if eq_range(name, start, end, &['J', 'A', 'E']) {
            return Some(Operation::JAE);
        }
        if eq_range(name, start, end, &['J', 'B', 'E']) {
            return Some(Operation::JBE);
        }
        if eq_range(name, start, end, &['J', 'N']) {
            return Some(Operation::JN);
        }
        if eq_range(name, start, end, &['J', 'N', 'N']) {
            return Some(Operation::JNN);
        }
        if eq_range(name, start, end, &['J', 'O']) {
            return Some(Operation::JO);
        }
        if eq_range(name, start, end, &['J', 'N', 'O']) {
            return Some(Operation::JNO);
        }
        if eq_range(name, start, end, &['J', 'C']) {
            return Some(Operation::JC);
        }
        if eq_range(name, start, end, &['J', 'N', 'C']) {
            return Some(Operation::JNC);
        }
        if eq_range(name, start, end, &['C', 'A', 'L', 'L']) {
            return Some(Operation::CALL);
        }
        if eq_range(name, start, end, &['R', 'E', 'T']) {
            return Some(Operation::RET);
        }
        if eq_range(name, start, end, &['S', 'Y', 'S', 'C', 'A', 'L', 'L']) {
            return Some(Operation::SYSCALL);
        }
        None
    }
}

impl Arguments {
    /// The total length in bytes of an instruction of this shape, opcode included.
    pub fn to_offset(&self) -> (r: u8)
        ensures
            r == spec_to_offset(*self),
            r as nat == 1 + spec_operands_size(spec_operands(*self)),
    {
        proof {
            reveal_with_fuel(spec_operands_size, 4);
        }
        match self {
            Arguments::NoArgs => 1,
            Arguments::Reg => 2,
            Arguments::Imm | Arguments::RegReg => 3,
            Arguments::RegImm | Arguments::ImmReg => 4,
            Arguments::ImmImm | Arguments::RegImmReg => 5,
            Arguments::RegImmImm => 6,
        }
    }
}

/// Whether `name[start..end]` is exactly `lit`.
fn eq_range(name: &[char], start: usize, end: usize, lit: &[char]) -> (r: bool)
    requires
        start <= end <= name@.len(),
    ensures
        r == (name@.subrange(start as int, end as int) == lit@),
{
    if end - start != lit.len() {
        return false;
    }
    let mut i: usize = 0;
    while i < lit.len()
        invariant
            start <= end <= name@.len(),
            end - start == lit@.len(),
            i <= lit@.len(),
            forall|j: int| 0 <= j < i ==> name@[start + j] == lit@[j],
        decreases lit@.len() - i,
    {
        if name[start + i] != lit[i] {
            assert(name@.subrange(start as int, end as int)[i as int] != lit@[i as int]);
            return false;
        }
        i += 1;
    }
    assert(name@.subrange(start as int, end as int) =~= lit@);
    true
}

/// Decoding an operation's opcode byte gives the operation back, and every decodable byte
/// is the opcode of the operation it decodes to.
pub proof fn lemma_op_encoding(op: Operation, b: u8)
    ensures
        spec_op_from_code(spec_op_code(op)) == Some(op),
        spec_op_from_code(b) matches Some(o) ==> spec_op_code(o) == b,
{
}

/// Looking up an operation's mnemonic gives the operation back, and a lookup succeeds only on
/// the exact mnemonic of the operation it returns.
pub proof fn lemma_op_name_roundtrip(op: Operation, s: Seq<char>)
    ensures
        spec_op_from_name(spec_op_name(op)) == Some(op),
        spec_op_from_name(s) matches Some(o) ==> spec_op_name(o) == s,
{
    lemma_name_lookup(op);
}

/// The length of every instruction is its opcode byte plus one byte per register operand and
/// two bytes per immediate operand.
pub proof fn lemma_instruction_length(a: Arguments)
    ensures
        spec_to_offset(a) as nat == 1 + spec_operands_size(spec_operands(a)),
{
    reveal_with_fuel(spec_operands_size, 4);
}

/// Distinct operations have distinct mnemonics.
pub proof fn lemma_op_names_distinct()
    ensures
        forall|a: Operation, b: Operation| spec_op_name(a) == spec_op_name(b) ==> a == b,
{
    assert forall|a: Operation, b: Operation| spec_op_name(a) == spec_op_name(b) implies a == b by {
        lemma_op_name_determines(a, b);
    }
}

proof fn lemma_op_name_determines(a: Operation, b: Operation)
    requires
        spec_op_name(a) == spec_op_name(b),
    ensures
        a == b,
{
    lemma_name_lookup(a);
    lemma_name_lookup(b);
}

/// The operation whose mnemonic is `s`, if there is one (no two operations share a mnemonic,
/// see `lemma_op_names_distinct`).
pub open spec fn spec_op_from_name(s: Seq<char>) -> Option<Operation> {
    if s == seq!['H', 'A', 'L', 'T'] {
        Some(Operation::HALT)
    }     else if s == seq!['N', 'O', 'P'] {
        Some(Operation::NOP)
    }     else if s == seq!['M', 'O', 'V'] {
        Some(Operation::MOV)
    }     else if s == seq!['M', 'O', 'V', '_', 'I', 'M', 'M'] {
        Some(Operation::MOV_IMM)
    }     else if s == seq!['L', 'O', 'A', 'D'] {
        Some(Operation::LOAD)
    }     else if s == seq!['L', 'O', 'A', 'D', '_', 'R', 'E', 'L'] {
        Some(Operation::LOAD_REL)
    }     else if s == seq!['L', 'O', 'A', 'D', '_', 'I', 'M', 'M'] {
        Some(Operation::LOAD_IMM)
    }     else if s == seq!['S', 'T', 'O', 'R', 'E', '_', 'R', '_', 'R'] {
        Some(Operation::STORE_R_R)
    }     else if s == seq!['S', 'T', 'O', 'R', 'E', '_', 'R', 'E', 'L', '_', 'R'] {
        Some(Operation::STORE_REL_R)
    }     else if s == seq!['S', 'T', 'O', 'R', 'E', '_', 'I', 'M', 'M', '_', 'R'] {
        Some(Operation::STORE_IMM_R)
    }     else if s == seq!['S', 'T', 'O', 'R', 'E', '_', 'R', '_', 'I', 'M', 'M'] {
        Some(Operation::STORE_R_IMM)
    }     else if s == seq!['S', 'T', 'O', 'R', 'E', '_', 'R', 'E', 'L', '_', 'I', 'M', 'M'] {
        Some(Operation::STORE_REL_IMM)
    }     else if s == seq!['S', 'T', 'O', 'R', 'E', '_', 'I', 'M', 'M', '_', 'I', 'M', 'M'] {
        Some(Operation::STORE_IMM_IMM)
    }     else if s == seq!['A', 'D', 'D'] {
        Some(Operation::ADD)
    }     else if s == seq!['A', 'D', 'D', '_', 'I', 'M', 'M'] {
        Some(Operation::ADD_IMM)
    }     else if s == seq!['S', 'U', 'B'] {
        Some(Operation::SUB)
    }     else if s == seq!['S', 'U', 'B', '_', 'I', 'M', 'M'] {
        Some(Operation::SUB_IMM)
    }     else if s == seq!['A', 'N', 'D'] {
        Some(Operation::AND)
    }     else if s == seq!['A', 'N', 'D', '_', 'I', 'M', 'M'] {
        Some(Operation::AND_IMM)
    }     else if s == seq!['O', 'R'] {
        Some(Operation::OR)
    }     else if s == seq!['O', 'R', '_', 'I', 'M', 'M'] {
        Some(Operation::OR_IMM)
    }     else if s == seq!['X', 'O', 'R'] {
        Some(Operation::XOR)
    }     else if s == seq!['X', 'O', 'R', '_', 'I', 'M', 'M'] {
        Some(Operation::XOR_IMM)
    }     else if s == seq!['D', 'I', 'V', '_', 'M', 'O', 'D'] {
        Some(Operation::DIV_MOD)
    }     else if s == seq!['S', 'H', 'L'] {
        Some(Operation::SHL)
    }     else if s == seq!['S', 'H', 'L', '_', 'I', 'M', 'M'] {
        Some(Operation::SHL_IMM)
    }     else if s == seq!['S', 'H', 'R'] {
        Some(Operation::SHR)
    }     else if s == seq!['S', 'H', 'R', '_', 'I', 'M', 'M'] {
        Some(Operation::SHR_IMM)
    }     else if s == seq!['C', 'M', 'P'] {
        Some(Operation::CMP)
    }     else if s == seq!['C', 'M', 'P', '_', 'I', 'M', 'M'] {
        Some(Operation::CMP_IMM)
    }     else if s == seq!['P', 'U', 'S', 'H'] {
        Some(Operation::PUSH)
    }     else if s == seq!['P', 'U', 'S', 'H', '_', 'M'] {
        Some(Operation::PUSH_M)
    }     else if s == seq!['P', 'U', 'S', 'H', '_', 'I', 'M', 'M'] {
        Some(Operation::PUSH_IMM)
    }     else if s == seq!['P', 'O', 'P'] {
        Some(Operation::POP)
    }     else if s == seq!['P', 'O', 'P', '_', 'M'] {
        Some(Operation::POP_M)
    }     else if s == seq!['P', 'O', 'P', '_', 'I', 'M', 'M'] {
        Some(Operation::POP_IMM)
    }     else if s == seq!['J', 'M', 'P'] {
        Some(Operation::JMP)
    }     else if s == seq!['J', 'Z'] {
        Some(Operation::JZ)
    }     else if s == seq!['J', 'N', 'Z'] {
        Some(Operation::JNZ)
    }     else if s == seq!['J', 'A'] {
        Some(Operation::JA)
    }     else if s == seq!['J', 'B'] {
        Some(Operation::JB)
    }     else if s == seq!['J', 'A', 'E'] {
        Some(Operation::JAE)
    }     else if s == seq!['J', 'B', 'E'] {
        Some(Operation::JBE)
    }     else if s == seq!['J', 'N'] {
        Some(Operation::JN)
    }     else if s == seq!['J', 'N', 'N'] {
        Some(Operation::JNN)
    }     else if s == seq!['J', 'O'] {
        Some(Operation::JO)
    }     else if s == seq!['J', 'N', 'O'] {
        Some(Operation::JNO)
    }     else if s == seq!['J', 'C'] {
        Some(Operation::JC)
    }     else if s == seq!['J', 'N', 'C'] {
        Some(Operation::JNC)
    }     else if s == seq!['C', 'A', 'L', 'L'] {
        Some(Operation::CALL)
    }     else if s == seq!['R', 'E', 'T'] {
        Some(Operation::RET)
    }     else if s == seq!['S', 'Y', 'S', 'C', 'A', 'L', 'L'] {
        Some(Operation::SYSCALL)
    } else {
        None
    }
}

proof fn lemma_name_lookup(op: Operation)
    ensures
        spec_op_from_name(spec_op_name(op)) == Some(op),
{
    match op {
        Operation::HALT => {
        },
        Operation::NOP => {
            assert(spec_op_name(Operation::NOP).len() != spec_op_name(Operation::HALT).len());
        },
        Operation::MOV => {
            assert(spec_op_name(Operation::MOV).len() != spec_op_name(Operation::HALT).len());
            assert(spec_op_name(Operation::MOV)[0] != spec_op_name(Operation::NOP)[0]);
        },
        Operation::MOV_IMM => {
            assert(spec_op_name(Operation::MOV_IMM).len() != spec_op_name(Operation::HALT).len());
            assert(spec_op_name(Operation::MOV_IMM).len() != spec_op_name(Operation::NOP).len());
            assert(spec_op_name(Operation::MOV_IMM).len() != spec_op_name(Operation::MOV).len());
        },
        Operation::LOAD => {
            assert(spec_op_name(Operation::LOAD)[0] != spec_op_name(Operation::HALT)[0]);
            assert(spec_op_name(Operation::LOAD).len() != spec_op_name(Operation::NOP).len());
            assert(spec_op_name(Operation::LOAD).len() != spec_op_name(Operation::MOV).len());
            assert(spec_op_name(Operation::LOAD).len() != spec_op_name(Operation::MOV_IMM).len());
        },
        Operation::LOAD_REL => {
            assert(spec_op_name(Operation::LOAD_REL).len() != spec_op_name(Operation::HALT).len());
            assert(spec_op_name(Operation::LOAD_REL).len() != spec_op_name(Operation::NOP).len());
            assert(spec_op_name(Operation::LOAD_REL).len() != spec_op_name(Operation::MOV).len());
            assert(spec_op_name(Operation::LOAD_REL).len() != spec_op_name(Operation::MOV_IMM).len());
            assert(spec_op_name(Operation::LOAD_REL).len() != spec_op_name(Operation::LOAD).len());
        },
        Operation::LOAD_IMM => {
            assert(spec_op_name(Operation::LOAD_IMM).len() != spec_op_name(Operation::HALT).len());
            assert(spec_op_name(Operation::LOAD_IMM).len() != spec_op_name(Operation::NOP).len());
            assert(spec_op_name(Operation::LOAD_IMM).len() != spec_op_name(Operation::MOV).len());
            assert(spec_op_name(Operation::LOAD_IMM).len() != spec_op_name(Operation::MOV_IMM).len());
            assert(spec_op_name(Operation::LOAD_IMM).len() != spec_op_name(Operation::LOAD).len());
            assert(spec_op_name(Operation::LOAD_IMM)[5] != spec_op_name(Operation::LOAD_REL)[5]);
        },
        Operation::STORE_R_R => {
            assert(spec_op_name(Operation::STORE_R_R).len() != spec_op_name(Operation::HALT).len());
            assert(spec_op_name(Operation::STORE_R_R).len() != spec_op_name(Operation::NOP).len());
            assert(spec_op_name(Operation::STORE_R_R).len() != spec_op_name(Operation::MOV).len());
            assert(spec_op_name(Operation::STORE_R_R).len() != spec_op_name(Operation::MOV_IMM).len());
            assert(spec_op_name(Operation::STORE_R_R).len() != spec_op_name(Operation::LOAD).len());
            assert(spec_op_name(Operation::STORE_R_R).len() != spec_op_name(Operation::LOAD_REL).len());
            assert(spec_op_name(Operation::STORE_R_R).len() != spec_op_name(Operation::LOAD_IMM).len());
        },
        Operation::STORE_REL_R => {
            assert(spec_op_name(Operation::STORE_REL_R).len() != spec_op_name(Operation::HALT).len());
            assert(spec_op_name(Operation::STORE_REL_R).len() != spec_op_name(Operation::NOP).len());
            assert(spec_op_name(Operation::STORE_REL_R).len() != spec_op_name(Operation::MOV).len());
            assert(spec_op_name(Operation::STORE_REL_R).len() != spec_op_name(Operation::MOV_IMM).len());
            assert(spec_op_name(Operation::STORE_REL_R).len() != spec_op_name(Operation::LOAD).len());
            assert(spec_op_name(Operation::STORE_REL_R).len() != spec_op_name(Operation::LOAD_REL).len());
            assert(spec_op_name(Operation::STORE_REL_R).len() != spec_op_name(Operation::LOAD_IMM).len());
            assert(spec_op_name(Operation::STORE_REL_R).len() != spec_op_name(Operation::STORE_R_R).len());
        },
        Operation::STORE_IMM_R => {
            assert(spec_op_name(Operation::STORE_IMM_R).len() != spec_op_name(Operation::HALT).len());
            assert(spec_op_name(Operation::STORE_IMM_R).len() != spec_op_name(Operation::NOP).len());
            assert(spec_op_name(Operation::STORE_IMM_R).len() != spec_op_name(Operation::MOV).len());
            assert(spec_op_name(Operation::STORE_IMM_R).len() != spec_op_name(Operation::MOV_IMM).len());
            assert(spec_op_name(Operation::STORE_IMM_R).len() != spec_op_name(Operation::LOAD).len());
            assert(spec_op_name(Operation::STORE_IMM_R).len() != spec_op_name(Operation::LOAD_REL).len());
            assert(spec_op_name(Operation::STORE_IMM_R).len() != spec_op_name(Operation::LOAD_IMM).len());
            assert(spec_op_name(Operation::STORE_IMM_R).len() != spec_op_name(Operation::STORE_R_R).len());
            assert(spec_op_name(Operation::STORE_IMM_R)[6] != spec_op_name(Operation::STORE_REL_R)[6]);
        },
        Operation::STORE_R_IMM => {
            assert(spec_op_name(Operation::STORE_R_IMM).len() != spec_op_name(Operation::HALT).len());
            assert(spec_op_name(Operation::STORE_R_IMM).len() != spec_op_name(Operation::NOP).len());
            assert(spec_op_name(Operation::STORE_R_IMM).len() != spec_op_name(Operation::MOV).len());
            assert(spec_op_name(Operation::STORE_R_IMM).len() != spec_op_name(Operation::MOV_IMM).len());
            assert(spec_op_name(Operation::STORE_R_IMM).len() != spec_op_name(Operation::LOAD).len());
            assert(spec_op_name(Operation::STORE_R_IMM).len() != spec_op_name(Operation::LOAD_REL).len());
            assert(spec_op_name(Operation::STORE_R_IMM).len() != spec_op_name(Operation::LOAD_IMM).len());
            assert(spec_op_name(Operation::STORE_R_IMM).len() != spec_op_name(Operation::STORE_R_R).len());
            assert(spec_op_name(Operation::STORE_R_IMM)[7] != spec_op_name(Operation::STORE_REL_R)[7]);
            assert(spec_op_name(Operation::STORE_R_IMM)[6] != spec_op_name(Operation::STORE_IMM_R)[6]);
        },
        Operation::STORE_REL_IMM => {
            assert(spec_op_name(Operation::STORE_REL_IMM).len() != spec_op_name(Operation::HALT).len());
            assert(spec_op_name(Operation::STORE_REL_IMM).len() != spec_op_name(Operation::NOP).len());
            assert(spec_op_name(Operation::STORE_REL_IMM).len() != spec_op_name(Operation::MOV).len());
            assert(spec_op_name(Operation::STORE_REL_IMM).len() != spec_op_name(Operation::MOV_IMM).len());
            assert(spec_op_name(Operation::STORE_REL_IMM).len() != spec_op_name(Operation::LOAD).len());
            assert(spec_op_name(Operation::STORE_REL_IMM).len() != spec_op_name(Operation::LOAD_REL).len());
            assert(spec_op_name(Operation::STORE_REL_IMM).len() != spec_op_name(Operation::LOAD_IMM).len());
            assert(spec_op_name(Operation::STORE_REL_IMM).len() != spec_op_name(Operation::STORE_R_R).len());
            assert(spec_op_name(Operation::STORE_REL_IMM).len() != spec_op_name(Operation::STORE_REL_R).len());
            assert(spec_op_name(Operation::STORE_REL_IMM).len() != spec_op_name(Operation::STORE_IMM_R).len());
            assert(spec_op_name(Operation::STORE_REL_IMM).len() != spec_op_name(Operation::STORE_R_IMM).len());
        },
        Operation::STORE_IMM_IMM => {
            assert(spec_op_name(Operation::STORE_IMM_IMM).len() != spec_op_name(Operation::HALT).len());
            assert(spec_op_name(Operation::STORE_IMM_IMM).len() != spec_op_name(Operation::NOP).len());
            assert(spec_op_name(Operation::STORE_IMM_IMM).len() != spec_op_name(Operation::MOV).len());
            assert(spec_op_name(Operation::STORE_IMM_IMM).len() != spec_op_name(Operation::MOV_IMM).len());
            assert(spec_op_name(Operation::STORE_IMM_IMM).len() != spec_op_name(Operation::LOAD).len());
            assert(spec_op_name(Operation::STORE_IMM_IMM).len() != spec_op_name(Operation::LOAD_REL).len());
            assert(spec_op_name(Operation::STORE_IMM_IMM).len() != spec_op_name(Operation::LOAD_IMM).len());
            assert(spec_op_name(Operation::STORE_IMM_IMM).len() != spec_op_name(Operation::STORE_R_R).len());
            assert(spec_op_name(Operation::STORE_IMM_IMM).len() != spec_op_name(Operation::STORE_REL_R).len());
            assert(spec_op_name(Operation::STORE_IMM_IMM).len() != spec_op_name(Operation::STORE_IMM_R).len());
            assert(spec_op_name(Operation::STORE_IMM_IMM).len() != spec_op_name(Operation::STORE_R_IMM).len());
            assert(spec_op_name(Operation::STORE_IMM_IMM)[6] != spec_op_name(Operation::STORE_REL_IMM)[6]);
        },
        Operation::ADD => {
            assert(spec_op_name(Operation::ADD).len() != spec_op_name(Operation::HALT).len());
            assert(spec_op_name(Operation::ADD)[0] != spec_op_name(Operation::NOP)[0]);
            assert(spec_op_name(Operation::ADD)[0] != spec_op_name(Operation::MOV)[0]);
            assert(spec_op_name(Operation::ADD).len() != spec_op_name(Operation::MOV_IMM).len());
            assert(spec_op_name(Operation::ADD).len() != spec_op_name(Operation::LOAD).len());
            assert(spec_op_name(Operation::ADD).len() != spec_op_name(Operation::LOAD_REL).len());
            assert(spec_op_name(Operation::ADD).len() != spec_op_name(Operation::LOAD_IMM).len());
            assert(spec_op_name(Operation::ADD).len() != spec_op_name(Operation::STORE_R_R).len());
            assert(spec_op_name(Operation::ADD).len() != spec_op_name(Operation::STORE_REL_R).len());
            assert(spec_op_name(Operation::ADD).len() != spec_op_name(Operation::STORE_IMM_R).len());
            assert(spec_op_name(Operation::ADD).len() != spec_op_name(Operation::STORE_R_IMM).len());
            assert(spec_op_name(Operation::ADD).len() != spec_op_name(Operation::STORE_REL_IMM).len());
            assert(spec_op_name(Operation::ADD).len() != spec_op_name(Operation::STORE_IMM_IMM).len());
        },
        Operation::ADD_IMM => {
            assert(spec_op_name(Operation::ADD_IMM).len() != spec_op_name(Operation::HALT).len());
            assert(spec_op_name(Operation::ADD_IMM).len() != spec_op_name(Operation::NOP).len());
            assert(spec_op_name(Operation::ADD_IMM).len() != spec_op_name(Operation::MOV).len());
            assert(spec_op_name(Operation::ADD_IMM)[0] != spec_op_name(Operation::MOV_IMM)[0]);
            assert(spec_op_name(Operation::ADD_IMM).len() != spec_op_name(Operation::LOAD).len());
            assert(spec_op_name(Operation::ADD_IMM).len() != spec_op_name(Operation::LOAD_REL).len());
            assert(spec_op_name(Operation::ADD_IMM).len() != spec_op_name(Operation::LOAD_IMM).len());
            assert(spec_op_name(Operation::ADD_IMM).len() != spec_op_name(Operation::STORE_R_R).len());
            assert(spec_op_name(Operation::ADD_IMM).len() != spec_op_name(Operation::STORE_REL_R).len());
            assert(spec_op_name(Operation::ADD_IMM).len() != spec_op_name(Operation::STORE_IMM_R).len());
            assert(spec_op_name(Operation::ADD_IMM).len() != spec_op_name(Operation::STORE_R_IMM).len());
            assert(spec_op_name(Operation::ADD_IMM).len() != spec_op_name(Operation::STORE_REL_IMM).len());
            assert(spec_op_name(Operation::ADD_IMM).len() != spec_op_name(Operation::STORE_IMM_IMM).len());
            assert(spec_op_name(Operation::ADD_IMM).len() != spec_op_name(Operation::ADD).len());
        },
        Operation::SUB => {
            assert(spec_op_name(Operation::SUB).len() != spec_op_name(Operation::HALT).len());
            assert(spec_op_name(Operation::SUB)[0] != spec_op_name(Operation::NOP)[0]);
            assert(spec_op_name(Operation::SUB)[0] != spec_op_name(Operation::MOV)[0]);
            assert(spec_op_name(Operation::SUB).len() != spec_op_name(Operation::MOV_IMM).len());
            assert(spec_op_name(Operation::SUB).len() != spec_op_name(Operation::LOAD).len());
            assert(spec_op_name(Operation::SUB).len() != spec_op_name(Operation::LOAD_REL).len());
            assert(spec_op_name(Operation::SUB).len() != spec_op_name(Operation::LOAD_IMM).len());
            assert(spec_op_name(Operation::SUB).len() != spec_op_name(Operation::STORE_R_R).len());
            assert(spec_op_name(Operation::SUB).len() != spec_op_name(Operation::STORE_REL_R).len());
            assert(spec_op_name(Operation::SUB).len() != spec_op_name(Operation::STORE_IMM_R).len());
            assert(spec_op_name(Operation::SUB).len() != spec_op_name(Operation::STORE_R_IMM).len());
            assert(spec_op_name(Operation::SUB).len() != spec_op_name(Operation::STORE_REL_IMM).len());
            assert(spec_op_name(Operation::SUB).len() != spec_op_name(Operation::STORE_IMM_IMM).len());
            assert(spec_op_name(Operation::SUB)[0] != spec_op_name(Operation::ADD)[0]);
            assert(spec_op_name(Operation::SUB).len() != spec_op_name(Operation::ADD_IMM).len());
        },
        Operation::SUB_IMM => {
            assert(spec_op_name(Operation::SUB_IMM).len() != spec_op_name(Operation::HALT).len());
            assert(spec_op_name(Operation::SUB_IMM).len() != spec_op_name(Operation::NOP).len());
            assert(spec_op_name(Operation::SUB_IMM).len() != spec_op_name(Operation::MOV).len());
            assert(spec_op_name(Operation::SUB_IMM)[0] != spec_op_name(Operation::MOV_IMM)[0]);
            assert(spec_op_name(Operation::SUB_IMM).len() != spec_op_name(Operation::LOAD).len());
            assert(spec_op_name(Operation::SUB_IMM).len() != spec_op_name(Operation::LOAD_REL).len());
            assert(spec_op_name(Operation::SUB_IMM).len() != spec_op_name(Operation::LOAD_IMM).len());
            assert(spec_op_name(Operation::SUB_IMM).len() != spec_op_name(Operation::STORE_R_R).len());
            assert(spec_op_name(Operation::SUB_IMM).len() != spec_op_name(Operation::STORE_REL_R).len());
            assert(spec_op_name(Operation::SUB_IMM).len() != spec_op_name(Operation::STORE_IMM_R).len());
            assert(spec_op_name(Operation::SUB_IMM).len() != spec_op_name(Operation::STORE_R_IMM).len());
            assert(spec_op_name(Operation::SUB_IMM).len() != spec_op_name(Operation::STORE_REL_IMM).len());
            assert(spec_op_name(Operation::SUB_IMM).len() != spec_op_name(Operation::STORE_IMM_IMM).len());
            assert(spec_op_name(Operation::SUB_IMM).len() != spec_op_name(Operation::ADD).len());
            assert(spec_op_name(Operation::SUB_IMM)[0] != spec_op_name(Operation::ADD_IMM)[0]);
            assert(spec_op_name(Operation::SUB_IMM).len() != spec_op_name(Operation::SUB).len());
        },
        Operation::AND => {
            assert(spec_op_name(Operation::AND).len() != spec_op_name(Operation::HALT).len());
            assert(spec_op_name(Operation::AND)[0] != spec_op_name(Operation::NOP)[0]);
            assert(spec_op_name(Operation::AND)[0] != spec_op_name(Operation::MOV)[0]);
            assert(spec_op_name(Operation::AND).len() != spec_op_name(Operation::MOV_IMM).len());
            assert(spec_op_name(Operation::AND).len() != spec_op_name(Operation::LOAD).len());
            assert(spec_op_name(Operation::AND).len() != spec_op_name(Operation::LOAD_REL).len());
            assert(spec_op_name(Operation::AND).len() != spec_op_name(Operation::LOAD_IMM).len());
            assert(spec_op_name(Operation::AND).len() != spec_op_name(Operation::STORE_R_R).len());
            assert(spec_op_name(Operation::AND).len() != spec_op_name(Operation::STORE_REL_R).len());
            assert(spec_op_name(Operation::AND).len() != spec_op_name(Operation::STORE_IMM_R).len());
            assert(spec_op_name(Operation::AND).len() != spec_op_name(Operation::STORE_R_IMM).len());
            assert(spec_op_name(Operation::AND).len() != spec_op_name(Operation::STORE_REL_IMM).len());
            assert(spec_op_name(Operation::AND).len() != spec_op_name(Operation::STORE_IMM_IMM).len());
            assert(spec_op_name(Operation::AND)[1] != spec_op_name(Operation::ADD)[1]);
            assert(spec_op_name(Operation::AND).len() != spec_op_name(Operation::ADD_IMM).len());
            assert(spec_op_name(Operation::AND)[0] != spec_op_name(Operation::SUB)[0]);
            assert(spec_op_name(Operation::AND).len() != spec_op_name(Operation::SUB_IMM).len());
        },
        Operation::AND_IMM => {
            assert(spec_op_name(Operation::AND_IMM).len() != spec_op_name(Operation::HALT).len());
            assert(spec_op_name(Operation::AND_IMM).len() != spec_op_name(Operation::NOP).len());
            assert(spec_op_name(Operation::AND_IMM).len() != spec_op_name(Operation::MOV).len());
            assert(spec_op_name(Operation::AND_IMM)[0] != spec_op_name(Operation::MOV_IMM)[0]);
            assert(spec_op_name(Operation::AND_IMM).len() != spec_op_name(Operation::LOAD).len());
            assert(spec_op_name(Operation::AND_IMM).len() != spec_op_name(Operation::LOAD_REL).len());
            assert(spec_op_name(Operation::AND_IMM).len() != spec_op_name(Operation::LOAD_IMM).len());
            assert(spec_op_name(Operation::AND_IMM).len() != spec_op_name(Operation::STORE_R_R).len());
            assert(spec_op_name(Operation::AND_IMM).len() != spec_op_name(Operation::STORE_REL_R).len());
            assert(spec_op_name(Operation::AND_IMM).len() != spec_op_name(Operation::STORE_IMM_R).len());
            assert(spec_op_name(Operation::AND_IMM).len() != spec_op_name(Operation::STORE_R_IMM).len());
            assert(spec_op_name(Operation::AND_IMM).len() != spec_op_name(Operation::STORE_REL_IMM).len());
            assert(spec_op_name(Operation::AND_IMM).len() != spec_op_name(Operation::STORE_IMM_IMM).len());
            assert(spec_op_name(Operation::AND_IMM).len() != spec_op_name(Operation::ADD).len());
            assert(spec_op_name(Operation::AND_IMM)[1] != spec_op_name(Operation::ADD_IMM)[1]);
            assert(spec_op_name(Operation::AND_IMM).len() != spec_op_name(Operation::SUB).len());
            assert(spec_op_name(Operation::AND_IMM)[0] != spec_op_name(Operation::SUB_IMM)[0]);
            assert(spec_op_name(Operation::AND_IMM).len() != spec_op_name(Operation::AND).len());
        },
        Operation::OR => {
            assert(spec_op_name(Operation::OR).len() != spec_op_name(Operation::HALT).len());
            assert(spec_op_name(Operation::OR).len() != spec_op_name(Operation::NOP).len());
            assert(spec_op_name(Operation::OR).len() != spec_op_name(Operation::MOV).len());
            assert(spec_op_name(Operation::OR).len() != spec_op_name(Operation::MOV_IMM).len());
            assert(spec_op_name(Operation::OR).len() != spec_op_name(Operation::LOAD).len());
            assert(spec_op_name(Operation::OR).len() != spec_op_name(Operation::LOAD_REL).len());
            assert(spec_op_name(Operation::OR).len() != spec_op_name(Operation::LOAD_IMM).len());
            assert(spec_op_name(Operation::OR).len() != spec_op_name(Operation::STORE_R_R).len());
            assert(spec_op_name(Operation::OR).len() != spec_op_name(Operation::STORE_REL_R).len());
            assert(spec_op_name(Operation::OR).len() != spec_op_name(Operation::STORE_IMM_R).len());
            assert(spec_op_name(Operation::OR).len() != spec_op_name(Operation::STORE_R_IMM).len());
            assert(spec_op_name(Operation::OR).len() != spec_op_name(Operation::STORE_REL_IMM).len());
            assert(spec_op_name(Operation::OR).len() != spec_op_name(Operation::STORE_IMM_IMM).len());
            assert(spec_op_name(Operation::OR).len() != spec_op_name(Operation::ADD).len());
            assert(spec_op_name(Operation::OR).len() != spec_op_name(Operation::ADD_IMM).len());
            assert(spec_op_name(Operation::OR).len() != spec_op_name(Operation::SUB).len());
            assert(spec_op_name(Operation::OR).len() != spec_op_name(Operation::SUB_IMM).len());
            assert(spec_op_name(Operation::OR).len() != spec_op_name(Operation::AND).len());
            assert(spec_op_name(Operation::OR).len() != spec_op_name(Operation::AND_IMM).len());
        },
        Operation::OR_IMM => {
            assert(spec_op_name(Operation::OR_IMM).len() != spec_op_name(Operation::HALT).len());
            assert(spec_op_name(Operation::OR_IMM).len() != spec_op_name(Operation::NOP).len());
            assert(spec_op_name(Operation::OR_IMM).len() != spec_op_name(Operation::MOV).len());
            assert(spec_op_name(Operation::OR_IMM).len() != spec_op_name(Operation::MOV_IMM).len());
            assert(spec_op_name(Operation::OR_IMM).len() != spec_op_name(Operation::LOAD).len());
            assert(spec_op_name(Operation::OR_IMM).len() != spec_op_name(Operation::LOAD_REL).len());
            assert(spec_op_name(Operation::OR_IMM).len() != spec_op_name(Operation::LOAD_IMM).len());
            assert(spec_op_name(Operation::OR_IMM).len() != spec_op_name(Operation::STORE_R_R).len());
            assert(spec_op_name(Operation::OR_IMM).len() != spec_op_name(Operation::STORE_REL_R).len());
            assert(spec_op_name(Operation::OR_IMM).len() != spec_op_name(Operation::STORE_IMM_R).len());
            assert(spec_op_name(Operation::OR_IMM).len() != spec_op_name(Operation::STORE_R_IMM).len());
            assert(spec_op_name(Operation::OR_IMM).len() != spec_op_name(Operation::STORE_REL_IMM).len());
            assert(spec_op_name(Operation::OR_IMM).len() != spec_op_name(Operation::STORE_IMM_IMM).len());
            assert(spec_op_name(Operation::OR_IMM).len() != spec_op_name(Operation::ADD).len());
            assert(spec_op_name(Operation::OR_IMM).len() != spec_op_name(Operation::ADD_IMM).len());
            assert(spec_op_name(Operation::OR_IMM).len() != spec_op_name(Operation::SUB).len());
            assert(spec_op_name(Operation::OR_IMM).len() != spec_op_name(Operation::SUB_IMM).len());
            assert(spec_op_name(Operation::OR_IMM).len() != spec_op_name(Operation::AND).len());
            assert(spec_op_name(Operation::OR_IMM).len() != spec_op_name(Operation::AND_IMM).len());
            assert(spec_op_name(Operation::OR_IMM).len() != spec_op_name(Operation::OR).len());
        },
        Operation::XOR => {
            assert(spec_op_name(Operation::XOR).len() != spec_op_name(Operation::HALT).len());
            assert(spec_op_name(Operation::XOR)[0] != spec_op_name(Operation::NOP)[0]);
            assert(spec_op_name(Operation::XOR)[0] != spec_op_name(Operation::MOV)[0]);
            assert(spec_op_name(Operation::XOR).len() != spec_op_name(Operation::MOV_IMM).len());
            assert(spec_op_name(Operation::XOR).len() != spec_op_name(Operation::LOAD).len());
            assert(spec_op_name(Operation::XOR).len() != spec_op_name(Operation::LOAD_REL).len());
            assert(spec_op_name(Operation::XOR).len() != spec_op_name(Operation::LOAD_IMM).len());
            assert(spec_op_name(Operation::XOR).len() != spec_op_name(Operation::STORE_R_R).len());
            assert(spec_op_name(Operation::XOR).len() != spec_op_name(Operation::STORE_REL_R).len());
            assert(spec_op_name(Operation::XOR).len() != spec_op_name(Operation::STORE_IMM_R).len());
            assert(spec_op_name(Operation::XOR).len() != spec_op_name(Operation::STORE_R_IMM).len());
            assert(spec_op_name(Operation::XOR).len() != spec_op_name(Operation::STORE_REL_IMM).len());
            assert(spec_op_name(Operation::XOR).len() != spec_op_name(Operation::STORE_IMM_IMM).len());
            assert(spec_op_name(Operation::XOR)[0] != spec_op_name(Operation::ADD)[0]);
            assert(spec_op_name(Operation::XOR).len() != spec_op_name(Operation::ADD_IMM).len());
            assert(spec_op_name(Operation::XOR)[0] != spec_op_name(Operation::SUB)[0]);
            assert(spec_op_name(Operation::XOR).len() != spec_op_name(Operation::SUB_IMM).len());
            assert(spec_op_name(Operation::XOR)[0] != spec_op_name(Operation::AND)[0]);
            assert(spec_op_name(Operation::XOR).len() != spec_op_name(Operation::AND_IMM).len());
            assert(spec_op_name(Operation::XOR).len() != spec_op_name(Operation::OR).len());
            assert(spec_op_name(Operation::XOR).len() != spec_op_name(Operation::OR_IMM).len());
        },
        Operation::XOR_IMM => {
            assert(spec_op_name(Operation::XOR_IMM).len() != spec_op_name(Operation::HALT).len());
            assert(spec_op_name(Operation::XOR_IMM).len() != spec_op_name(Operation::NOP).len());
            assert(spec_op_name(Operation::XOR_IMM).len() != spec_op_name(Operation::MOV).len());
            assert(spec_op_name(Operation::XOR_IMM)[0] != spec_op_name(Operation::MOV_IMM)[0]);
            assert(spec_op_name(Operation::XOR_IMM).len() != spec_op_name(Operation::LOAD).len());
            assert(spec_op_name(Operation::XOR_IMM).len() != spec_op_name(Operation::LOAD_REL).len());
            assert(spec_op_name(Operation::XOR_IMM).len() != spec_op_name(Operation::LOAD_IMM).len());
            assert(spec_op_name(Operation::XOR_IMM).len() != spec_op_name(Operation::STORE_R_R).len());
            assert(spec_op_name(Operation::XOR_IMM).len() != spec_op_name(Operation::STORE_REL_R).len());
            assert(spec_op_name(Operation::XOR_IMM).len() != spec_op_name(Operation::STORE_IMM_R).len());
            assert(spec_op_name(Operation::XOR_IMM).len() != spec_op_name(Operation::STORE_R_IMM).len());
            assert(spec_op_name(Operation::XOR_IMM).len() != spec_op_name(Operation::STORE_REL_IMM).len());
            assert(spec_op_name(Operation::XOR_IMM).len() != spec_op_name(Operation::STORE_IMM_IMM).len());
            assert(spec_op_name(Operation::XOR_IMM).len() != spec_op_name(Operation::ADD).len());
            assert(spec_op_name(Operation::XOR_IMM)[0] != spec_op_name(Operation::ADD_IMM)[0]);
            assert(spec_op_name(Operation::XOR_IMM).len() != spec_op_name(Operation::SUB).len());
            assert(spec_op_name(Operation::XOR_IMM)[0] != spec_op_name(Operation::SUB_IMM)[0]);
            assert(spec_op_name(Operation::XOR_IMM).len() != spec_op_name(Operation::AND).len());
            assert(spec_op_name(Operation::XOR_IMM)[0] != spec_op_name(Operation::AND_IMM)[0]);
            assert(spec_op_name(Operation::XOR_IMM).len() != spec_op_name(Operation::OR).len());
            assert(spec_op_name(Operation::XOR_IMM).len() != spec_op_name(Operation::OR_IMM).len());
            assert(spec_op_name(Operation::XOR_IMM).len() != spec_op_name(Operation::XOR).len());
        },
        Operation::DIV_MOD => {
            assert(spec_op_name(Operation::DIV_MOD).len() != spec_op_name(Operation::HALT).len());
            assert(spec_op_name(Operation::DIV_MOD).len() != spec_op_name(Operation::NOP).len());
            assert(spec_op_name(Operation::DIV_MOD).len() != spec_op_name(Operation::MOV).len());
            assert(spec_op_name(Operation::DIV_MOD)[0] != spec_op_name(Operation::MOV_IMM)[0]);
            assert(spec_op_name(Operation::DIV_MOD).len() != spec_op_name(Operation::LOAD).len());
            assert(spec_op_name(Operation::DIV_MOD).len() != spec_op_name(Operation::LOAD_REL).len());
            assert(spec_op_name(Operation::DIV_MOD).len() != spec_op_name(Operation::LOAD_IMM).len());
            assert(spec_op_name(Operation::DIV_MOD).len() != spec_op_name(Operation::STORE_R_R).len());
            assert(spec_op_name(Operation::DIV_MOD).len() != spec_op_name(Operation::STORE_REL_R).len());
            assert(spec_op_name(Operation::DIV_MOD).len() != spec_op_name(Operation::STORE_IMM_R).len());
            assert(spec_op_name(Operation::DIV_MOD).len() != spec_op_name(Operation::STORE_R_IMM).len());
            assert(spec_op_name(Operation::DIV_MOD).len() != spec_op_name(Operation::STORE_REL_IMM).len());
            assert(spec_op_name(Operation::DIV_MOD).len() != spec_op_name(Operation::STORE_IMM_IMM).len());
            assert(spec_op_name(Operation::DIV_MOD).len() != spec_op_name(Operation::ADD).len());
            assert(spec_op_name(Operation::DIV_MOD)[0] != spec_op_name(Operation::ADD_IMM)[0]);
            assert(spec_op_name(Operation::DIV_MOD).len() != spec_op_name(Operation::SUB).len());
            assert(spec_op_name(Operation::DIV_MOD)[0] != spec_op_name(Operation::SUB_IMM)[0]);
            assert(spec_op_name(Operation::DIV_MOD).len() != spec_op_name(Operation::AND).len());
            assert(spec_op_name(Operation::DIV_MOD)[0] != spec_op_name(Operation::AND_IMM)[0]);
            assert(spec_op_name(Operation::DIV_MOD).len() != spec_op_name(Operation::OR).len());
            assert(spec_op_name(Operation::DIV_MOD).len() != spec_op_name(Operation::OR_IMM).len());
            assert(spec_op_name(Operation::DIV_MOD).len() != spec_op_name(Operation::XOR).len());
            assert(spec_op_name(Operation::DIV_MOD)[0] != spec_op_name(Operation::XOR_IMM)[0]);
        },
        Operation::SHL => {
            assert(spec_op_name(Operation::SHL).len() != spec_op_name(Operation::HALT).len());
            assert(spec_op_name(Operation::SHL)[0] != spec_op_name(Operation::NOP)[0]);
            assert(spec_op_name(Operation::SHL)[0] != spec_op_name(Operation::MOV)[0]);
            assert(spec_op_name(Operation::SHL).len() != spec_op_name(Operation::MOV_IMM).len());
            assert(spec_op_name(Operation::SHL).len() != spec_op_name(Operation::LOAD).len());
            assert(spec_op_name(Operation::SHL).len() != spec_op_name(Operation::LOAD_REL).len());
            assert(spec_op_name(Operation::SHL).len() != spec_op_name(Operation::LOAD_IMM).len());
            assert(spec_op_name(Operation::SHL).len() != spec_op_name(Operation::STORE_R_R).len());
            assert(spec_op_name(Operation::SHL).len() != spec_op_name(Operation::STORE_REL_R).len());
            assert(spec_op_name(Operation::SHL).len() != spec_op_name(Operation::STORE_IMM_R).len());
            assert(spec_op_name(Operation::SHL).len() != spec_op_name(Operation::STORE_R_IMM).len());
            assert(spec_op_name(Operation::SHL).len() != spec_op_name(Operation::STORE_REL_IMM).len());
            assert(spec_op_name(Operation::SHL).len() != spec_op_name(Operation::STORE_IMM_IMM).len());
            assert(spec_op_name(Operation::SHL)[0] != spec_op_name(Operation::ADD)[0]);
            assert(spec_op_name(Operation::SHL).len() != spec_op_name(Operation::ADD_IMM).len());
            assert(spec_op_name(Operation::SHL)[1] != spec_op_name(Operation::SUB)[1]);
            assert(spec_op_name(Operation::SHL).len() != spec_op_name(Operation::SUB_IMM).len());
            assert(spec_op_name(Operation::SHL)[0] != spec_op_name(Operation::AND)[0]);
            assert(spec_op_name(Operation::SHL).len() != spec_op_name(Operation::AND_IMM).len());
            assert(spec_op_name(Operation::SHL).len() != spec_op_name(Operation::OR).len());
            assert(spec_op_name(Operation::SHL).len() != spec_op_name(Operation::OR_IMM).len());
            assert(spec_op_name(Operation::SHL)[0] != spec_op_name(Operation::XOR)[0]);
            assert(spec_op_name(Operation::SHL).len() != spec_op_name(Operation::XOR_IMM).len());
            assert(spec_op_name(Operation::SHL).len() != spec_op_name(Operation::DIV_MOD).len());
        },
        Operation::SHL_IMM => {
            assert(spec_op_name(Operation::SHL_IMM).len() != spec_op_name(Operation::HALT).len());
            assert(spec_op_name(Operation::SHL_IMM).len() != spec_op_name(Operation::NOP).len());
            assert(spec_op_name(Operation::SHL_IMM).len() != spec_op_name(Operation::MOV).len());
            assert(spec_op_name(Operation::SHL_IMM)[0] != spec_op_name(Operation::MOV_IMM)[0]);
            assert(spec_op_name(Operation::SHL_IMM).len() != spec_op_name(Operation::LOAD).len());
            assert(spec_op_name(Operation::SHL_IMM).len() != spec_op_name(Operation::LOAD_REL).len());
            assert(spec_op_name(Operation::SHL_IMM).len() != spec_op_name(Operation::LOAD_IMM).len());
            assert(spec_op_name(Operation::SHL_IMM).len() != spec_op_name(Operation::STORE_R_R).len());
            assert(spec_op_name(Operation::SHL_IMM).len() != spec_op_name(Operation::STORE_REL_R).len());
            assert(spec_op_name(Operation::SHL_IMM).len() != spec_op_name(Operation::STORE_IMM_R).len());
            assert(spec_op_name(Operation::SHL_IMM).len() != spec_op_name(Operation::STORE_R_IMM).len());
            assert(spec_op_name(Operation::SHL_IMM).len() != spec_op_name(Operation::STORE_REL_IMM).len());
            assert(spec_op_name(Operation::SHL_IMM).len() != spec_op_name(Operation::STORE_IMM_IMM).len());
            assert(spec_op_name(Operation::SHL_IMM).len() != spec_op_name(Operation::ADD).len());
            assert(spec_op_name(Operation::SHL_IMM)[0] != spec_op_name(Operation::ADD_IMM)[0]);
            assert(spec_op_name(Operation::SHL_IMM).len() != spec_op_name(Operation::SUB).len());
            assert(spec_op_name(Operation::SHL_IMM)[1] != spec_op_name(Operation::SUB_IMM)[1]);
            assert(spec_op_name(Operation::SHL_IMM).len() != spec_op_name(Operation::AND).len());
            assert(spec_op_name(Operation::SHL_IMM)[0] != spec_op_name(Operation::AND_IMM)[0]);
            assert(spec_op_name(Operation::SHL_IMM).len() != spec_op_name(Operation::OR).len());
            assert(spec_op_name(Operation::SHL_IMM).len() != spec_op_name(Operation::OR_IMM).len());
            assert(spec_op_name(Operation::SHL_IMM).len() != spec_op_name(Operation::XOR).len());
            assert(spec_op_name(Operation::SHL_IMM)[0] != spec_op_name(Operation::XOR_IMM)[0]);
            assert(spec_op_name(Operation::SHL_IMM)[0] != spec_op_name(Operation::DIV_MOD)[0]);
            assert(spec_op_name(Operation::SHL_IMM).len() != spec_op_name(Operation::SHL).len());
        },
        Operation::SHR => {
            assert(spec_op_name(Operation::SHR).len() != spec_op_name(Operation::HALT).len());
            assert(spec_op_name(Operation::SHR)[0] != spec_op_name(Operation::NOP)[0]);
            assert(spec_op_name(Operation::SHR)[0] != spec_op_name(Operation::MOV)[0]);
            assert(spec_op_name(Operation::SHR).len() != spec_op_name(Operation::MOV_IMM).len());
            assert(spec_op_name(Operation::SHR).len() != spec_op_name(Operation::LOAD).len());
            assert(spec_op_name(Operation::SHR).len() != spec_op_name(Operation::LOAD_REL).len());
            assert(spec_op_name(Operation::SHR).len() != spec_op_name(Operation::LOAD_IMM).len());
            assert(spec_op_name(Operation::SHR).len() != spec_op_name(Operation::STORE_R_R).len());
            assert(spec_op_name(Operation::SHR).len() != spec_op_name(Operation::STORE_REL_R).len());
            assert(spec_op_name(Operation::SHR).len() != spec_op_name(Operation::STORE_IMM_R).len());
            assert(spec_op_name(Operation::SHR).len() != spec_op_name(Operation::STORE_R_IMM).len());
            assert(spec_op_name(Operation::SHR).len() != spec_op_name(Operation::STORE_REL_IMM).len());
            assert(spec_op_name(Operation::SHR).len() != spec_op_name(Operation::STORE_IMM_IMM).len());
            assert(spec_op_name(Operation::SHR)[0] != spec_op_name(Operation::ADD)[0]);
            assert(spec_op_name(Operation::SHR).len() != spec_op_name(Operation::ADD_IMM).len());
            assert(spec_op_name(Operation::SHR)[1] != spec_op_name(Operation::SUB)[1]);
            assert(spec_op_name(Operation::SHR).len() != spec_op_name(Operation::SUB_IMM).len());
            assert(spec_op_name(Operation::SHR)[0] != spec_op_name(Operation::AND)[0]);
            assert(spec_op_name(Operation::SHR).len() != spec_op_name(Operation::AND_IMM).len());
            assert(spec_op_name(Operation::SHR).len() != spec_op_name(Operation::OR).len());
            assert(spec_op_name(Operation::SHR).len() != spec_op_name(Operation::OR_IMM).len());
            assert(spec_op_name(Operation::SHR)[0] != spec_op_name(Operation::XOR)[0]);
            assert(spec_op_name(Operation::SHR).len() != spec_op_name(Operation::XOR_IMM).len());
            assert(spec_op_name(Operation::SHR).len() != spec_op_name(Operation::DIV_MOD).len());
            assert(spec_op_name(Operation::SHR)[2] != spec_op_name(Operation::SHL)[2]);
            assert(spec_op_name(Operation::SHR).len() != spec_op_name(Operation::SHL_IMM).len());
        },
        Operation::SHR_IMM => {
            assert(spec_op_name(Operation::SHR_IMM).len() != spec_op_name(Operation::HALT).len());
            assert(spec_op_name(Operation::SHR_IMM).len() != spec_op_name(Operation::NOP).len());
            assert(spec_op_name(Operation::SHR_IMM).len() != spec_op_name(Operation::MOV).len());
            assert(spec_op_name(Operation::SHR_IMM)[0] != spec_op_name(Operation::MOV_IMM)[0]);
            assert(spec_op_name(Operation::SHR_IMM).len() != spec_op_name(Operation::LOAD).len());
            assert(spec_op_name(Operation::SHR_IMM).len() != spec_op_name(Operation::LOAD_REL).len());
            assert(spec_op_name(Operation::SHR_IMM).len() != spec_op_name(Operation::LOAD_IMM).len());
            assert(spec_op_name(Operation::SHR_IMM).len() != spec_op_name(Operation::STORE_R_R).len());
            assert(spec_op_name(Operation::SHR_IMM).len() != spec_op_name(Operation::STORE_REL_R).len());
            assert(spec_op_name(Operation::SHR_IMM).len() != spec_op_name(Operation::STORE_IMM_R).len());
            assert(spec_op_name(Operation::SHR_IMM).len() != spec_op_name(Operation::STORE_R_IMM).len());
            assert(spec_op_name(Operation::SHR_IMM).len() != spec_op_name(Operation::STORE_REL_IMM).len());
            assert(spec_op_name(Operation::SHR_IMM).len() != spec_op_name(Operation::STORE_IMM_IMM).len());
            assert(spec_op_name(Operation::SHR_IMM).len() != spec_op_name(Operation::ADD).len());
            assert(spec_op_name(Operation::SHR_IMM)[0] != spec_op_name(Operation::ADD_IMM)[0]);
            assert(spec_op_name(Operation::SHR_IMM).len() != spec_op_name(Operation::SUB).len());
            assert(spec_op_name(Operation::SHR_IMM)[1] != spec_op_name(Operation::SUB_IMM)[1]);
            assert(spec_op_name(Operation::SHR_IMM).len() != spec_op_name(Operation::AND).len());
            assert(spec_op_name(Operation::SHR_IMM)[0] != spec_op_name(Operation::AND_IMM)[0]);
            assert(spec_op_name(Operation::SHR_IMM).len() != spec_op_name(Operation::OR).len());
            assert(spec_op_name(Operation::SHR_IMM).len() != spec_op_name(Operation::OR_IMM).len());
            assert(spec_op_name(Operation::SHR_IMM).len() != spec_op_name(Operation::XOR).len());
            assert(spec_op_name(Operation::SHR_IMM)[0] != spec_op_name(Operation::XOR_IMM)[0]);
            assert(spec_op_name(Operation::SHR_IMM)[0] != spec_op_name(Operation::DIV_MOD)[0]);
            assert(spec_op_name(Operation::SHR_IMM).len() != spec_op_name(Operation::SHL).len());
            assert(spec_op_name(Operation::SHR_IMM)[2] != spec_op_name(Operation::SHL_IMM)[2]);
            assert(spec_op_name(Operation::SHR_IMM).len() != spec_op_name(Operation::SHR).len());
        },
        Operation::CMP => {
            assert(spec_op_name(Operation::CMP).len() != spec_op_name(Operation::HALT).len());
            assert(spec_op_name(Operation::CMP)[0] != spec_op_name(Operation::NOP)[0]);
            assert(spec_op_name(Operation::CMP)[0] != spec_op_name(Operation::MOV)[0]);
            assert(spec_op_name(Operation::CMP).len() != spec_op_name(Operation::MOV_IMM).len());
            assert(spec_op_name(Operation::CMP).len() != spec_op_name(Operation::LOAD).len());
            assert(spec_op_name(Operation::CMP).len() != spec_op_name(Operation::LOAD_REL).len());
            assert(spec_op_name(Operation::CMP).len() != spec_op_name(Operation::LOAD_IMM).len());
            assert(spec_op_name(Operation::CMP).len() != spec_op_name(Operation::STORE_R_R).len());
            assert(spec_op_name(Operation::CMP).len() != spec_op_name(Operation::STORE_REL_R).len());
            assert(spec_op_name(Operation::CMP).len() != spec_op_name(Operation::STORE_IMM_R).len());
            assert(spec_op_name(Operation::CMP).len() != spec_op_name(Operation::STORE_R_IMM).len());
            assert(spec_op_name(Operation::CMP).len() != spec_op_name(Operation::STORE_REL_IMM).len());
            assert(spec_op_name(Operation::CMP).len() != spec_op_name(Operation::STORE_IMM_IMM).len());
            assert(spec_op_name(Operation::CMP)[0] != spec_op_name(Operation::ADD)[0]);
            assert(spec_op_name(Operation::CMP).len() != spec_op_name(Operation::ADD_IMM).len());
            assert(spec_op_name(Operation::CMP)[0] != spec_op_name(Operation::SUB)[0]);
            assert(spec_op_name(Operation::CMP).len() != spec_op_name(Operation::SUB_IMM).len());
            assert(spec_op_name(Operation::CMP)[0] != spec_op_name(Operation::AND)[0]);
            assert(spec_op_name(Operation::CMP).len() != spec_op_name(Operation::AND_IMM).len());
            assert(spec_op_name(Operation::CMP).len() != spec_op_name(Operation::OR).len());
            assert(spec_op_name(Operation::CMP).len() != spec_op_name(Operation::OR_IMM).len());
            assert(spec_op_name(Operation::CMP)[0] != spec_op_name(Operation::XOR)[0]);
            assert(spec_op_name(Operation::CMP).len() != spec_op_name(Operation::XOR_IMM).len());
            assert(spec_op_name(Operation::CMP).len() != spec_op_name(Operation::DIV_MOD).len());
            assert(spec_op_name(Operation::CMP)[0] != spec_op_name(Operation::SHL)[0]);
            assert(spec_op_name(Operation::CMP).len() != spec_op_name(Operation::SHL_IMM).len());
            assert(spec_op_name(Operation::CMP)[0] != spec_op_name(Operation::SHR)[0]);
            assert(spec_op_name(Operation::CMP).len() != spec_op_name(Operation::SHR_IMM).len());
        },
        Operation::CMP_IMM => {
            assert(spec_op_name(Operation::CMP_IMM).len() != spec_op_name(Operation::HALT).len());
            assert(spec_op_name(Operation::CMP_IMM).len() != spec_op_name(Operation::NOP).len());
            assert(spec_op_name(Operation::CMP_IMM).len() != spec_op_name(Operation::MOV).len());
            assert(spec_op_name(Operation::CMP_IMM)[0] != spec_op_name(Operation::MOV_IMM)[0]);
            assert(spec_op_name(Operation::CMP_IMM).len() != spec_op_name(Operation::LOAD).len());
            assert(spec_op_name(Operation::CMP_IMM).len() != spec_op_name(Operation::LOAD_REL).len());
            assert(spec_op_name(Operation::CMP_IMM).len() != spec_op_name(Operation::LOAD_IMM).len());
            assert(spec_op_name(Operation::CMP_IMM).len() != spec_op_name(Operation::STORE_R_R).len());
            assert(spec_op_name(Operation::CMP_IMM).len() != spec_op_name(Operation::STORE_REL_R).len());
            assert(spec_op_name(Operation::CMP_IMM).len() != spec_op_name(Operation::STORE_IMM_R).len());
            assert(spec_op_name(Operation::CMP_IMM).len() != spec_op_name(Operation::STORE_R_IMM).len());
            assert(spec_op_name(Operation::CMP_IMM).len() != spec_op_name(Operation::STORE_REL_IMM).len());
            assert(spec_op_name(Operation::CMP_IMM).len() != spec_op_name(Operation::STORE_IMM_IMM).len());
            assert(spec_op_name(Operation::CMP_IMM).len() != spec_op_name(Operation::ADD).len());
            assert(spec_op_name(Operation::CMP_IMM)[0] != spec_op_name(Operation::ADD_IMM)[0]);
            assert(spec_op_name(Operation::CMP_IMM).len() != spec_op_name(Operation::SUB).len());
            assert(spec_op_name(Operation::CMP_IMM)[0] != spec_op_name(Operation::SUB_IMM)[0]);
            assert(spec_op_name(Operation::CMP_IMM).len() != spec_op_name(Operation::AND).len());
            assert(spec_op_name(Operation::CMP_IMM)[0] != spec_op_name(Operation::AND_IMM)[0]);
            assert(spec_op_name(Operation::CMP_IMM).len() != spec_op_name(Operation::OR).len());
            assert(spec_op_name(Operation::CMP_IMM).len() != spec_op_name(Operation::OR_IMM).len());
            assert(spec_op_name(Operation::CMP_IMM).len() != spec_op_name(Operation::XOR).len());
            assert(spec_op_name(Operation::CMP_IMM)[0] != spec_op_name(Operation::XOR_IMM)[0]);
            assert(spec_op_name(Operation::CMP_IMM)[0] != spec_op_name(Operation::DIV_MOD)[0]);
            assert(spec_op_name(Operation::CMP_IMM).len() != spec_op_name(Operation::SHL).len());
            assert(spec_op_name(Operation::CMP_IMM)[0] != spec_op_name(Operation::SHL_IMM)[0]);
            assert(spec_op_name(Operation::CMP_IMM).len() != spec_op_name(Operation::SHR).len());
            assert(spec_op_name(Operation::CMP_IMM)[0] != spec_op_name(Operation::SHR_IMM)[0]);
            assert(spec_op_name(Operation::CMP_IMM).len() != spec_op_name(Operation::CMP).len());
        },
        Operation::PUSH => {
            assert(spec_op_name(Operation::PUSH)[0] != spec_op_name(Operation::HALT)[0]);
            assert(spec_op_name(Operation::PUSH).len() != spec_op_name(Operation::NOP).len());
            assert(spec_op_name(Operation::PUSH).len() != spec_op_name(Operation::MOV).len());
            assert(spec_op_name(Operation::PUSH).len() != spec_op_name(Operation::MOV_IMM).len());
            assert(spec_op_name(Operation::PUSH)[0] != spec_op_name(Operation::LOAD)[0]);
            assert(spec_op_name(Operation::PUSH).len() != spec_op_name(Operation::LOAD_REL).len());
            assert(spec_op_name(Operation::PUSH).len() != spec_op_name(Operation::LOAD_IMM).len());
            assert(spec_op_name(Operation::PUSH).len() != spec_op_name(Operation::STORE_R_R).len());
            assert(spec_op_name(Operation::PUSH).len() != spec_op_name(Operation::STORE_REL_R).len());
            assert(spec_op_name(Operation::PUSH).len() != spec_op_name(Operation::STORE_IMM_R).len());
            assert(spec_op_name(Operation::PUSH).len() != spec_op_name(Operation::STORE_R_IMM).len());
            assert(spec_op_name(Operation::PUSH).len() != spec_op_name(Operation::STORE_REL_IMM).len());
            assert(spec_op_name(Operation::PUSH).len() != spec_op_name(Operation::STORE_IMM_IMM).len());
            assert(spec_op_name(Operation::PUSH).len() != spec_op_name(Operation::ADD).len());
            assert(spec_op_name(Operation::PUSH).len() != spec_op_name(Operation::ADD_IMM).len());
            assert(spec_op_name(Operation::PUSH).len() != spec_op_name(Operation::SUB).len());
            assert(spec_op_name(Operation::PUSH).len() != spec_op_name(Operation::SUB_IMM).len());
            assert(spec_op_name(Operation::PUSH).len() != spec_op_name(Operation::AND).len());
            assert(spec_op_name(Operation::PUSH).len() != spec_op_name(Operation::AND_IMM).len());
            assert(spec_op_name(Operation::PUSH).len() != spec_op_name(Operation::OR).len());
            assert(spec_op_name(Operation::PUSH).len() != spec_op_name(Operation::OR_IMM).len());
            assert(spec_op_name(Operation::PUSH).len() != spec_op_name(Operation::XOR).len());
            assert(spec_op_name(Operation::PUSH).len() != spec_op_name(Operation::XOR_IMM).len());
            assert(spec_op_name(Operation::PUSH).len() != spec_op_name(Operation::DIV_MOD).len());
            assert(spec_op_name(Operation::PUSH).len() != spec_op_name(Operation::SHL).len());
            assert(spec_op_name(Operation::PUSH).len() != spec_op_name(Operation::SHL_IMM).len());
            assert(spec_op_name(Operation::PUSH).len() != spec_op_name(Operation::SHR).len());
            assert(spec_op_name(Operation::PUSH).len() != spec_op_name(Operation::SHR_IMM).len());
            assert(spec_op_name(Operation::PUSH).len() != spec_op_name(Operation::CMP).len());
            assert(spec_op_name(Operation::PUSH).len() != spec_op_name(Operation::CMP_IMM).len());
        },
        Operation::PUSH_M => {
            assert(spec_op_name(Operation::PUSH_M).len() != spec_op_name(Operation::HALT).len());
            assert(spec_op_name(Operation::PUSH_M).len() != spec_op_name(Operation::NOP).len());
            assert(spec_op_name(Operation::PUSH_M).len() != spec_op_name(Operation::MOV).len());
            assert(spec_op_name(Operation::PUSH_M).len() != spec_op_name(Operation::MOV_IMM).len());
            assert(spec_op_name(Operation::PUSH_M).len() != spec_op_name(Operation::LOAD).len());
            assert(spec_op_name(Operation::PUSH_M).len() != spec_op_name(Operation::LOAD_REL).len());
            assert(spec_op_name(Operation::PUSH_M).len() != spec_op_name(Operation::LOAD_IMM).len());
            assert(spec_op_name(Operation::PUSH_M).len() != spec_op_name(Operation::STORE_R_R).len());
            assert(spec_op_name(Operation::PUSH_M).len() != spec_op_name(Operation::STORE_REL_R).len());
            assert(spec_op_name(Operation::PUSH_M).len() != spec_op_name(Operation::STORE_IMM_R).len());
            assert(spec_op_name(Operation::PUSH_M).len() != spec_op_name(Operation::STORE_R_IMM).len());
            assert(spec_op_name(Operation::PUSH_M).len() != spec_op_name(Operation::STORE_REL_IMM).len());
            assert(spec_op_name(Operation::PUSH_M).len() != spec_op_name(Operation::STORE_IMM_IMM).len());
            assert(spec_op_name(Operation::PUSH_M).len() != spec_op_name(Operation::ADD).len());
            assert(spec_op_name(Operation::PUSH_M).len() != spec_op_name(Operation::ADD_IMM).len());
            assert(spec_op_name(Operation::PUSH_M).len() != spec_op_name(Operation::SUB).len());
            assert(spec_op_name(Operation::PUSH_M).len() != spec_op_name(Operation::SUB_IMM).len());
            assert(spec_op_name(Operation::PUSH_M).len() != spec_op_name(Operation::AND).len());
            assert(spec_op_name(Operation::PUSH_M).len() != spec_op_name(Operation::AND_IMM).len());
            assert(spec_op_name(Operation::PUSH_M).len() != spec_op_name(Operation::OR).len());
            assert(spec_op_name(Operation::PUSH_M)[0] != spec_op_name(Operation::OR_IMM)[0]);
            assert(spec_op_name(Operation::PUSH_M).len() != spec_op_name(Operation::XOR).len());
            assert(spec_op_name(Operation::PUSH_M).len() != spec_op_name(Operation::XOR_IMM).len());
            assert(spec_op_name(Operation::PUSH_M).len() != spec_op_name(Operation::DIV_MOD).len());
            assert(spec_op_name(Operation::PUSH_M).len() != spec_op_name(Operation::SHL).len());
            assert(spec_op_name(Operation::PUSH_M).len() != spec_op_name(Operation::SHL_IMM).len());
            assert(spec_op_name(Operation::PUSH_M).len() != spec_op_name(Operation::SHR).len());
            assert(spec_op_name(Operation::PUSH_M).len() != spec_op_name(Operation::SHR_IMM).len());
            assert(spec_op_name(Operation::PUSH_M).len() != spec_op_name(Operation::CMP).len());
            assert(spec_op_name(Operation::PUSH_M).len() != spec_op_name(Operation::CMP_IMM).len());
            assert(spec_op_name(Operation::PUSH_M).len() != spec_op_name(Operation::PUSH).len());
        },
        Operation::PUSH_IMM => {
            assert(spec_op_name(Operation::PUSH_IMM).len() != spec_op_name(Operation::HALT).len());
            assert(spec_op_name(Operation::PUSH_IMM).len() != spec_op_name(Operation::NOP).len());
            assert(spec_op_name(Operation::PUSH_IMM).len() != spec_op_name(Operation::MOV).len());
            assert(spec_op_name(Operation::PUSH_IMM).len() != spec_op_name(Operation::MOV_IMM).len());
            assert(spec_op_name(Operation::PUSH_IMM).len() != spec_op_name(Operation::LOAD).len());
            assert(spec_op_name(Operation::PUSH_IMM)[0] != spec_op_name(Operation::LOAD_REL)[0]);
            assert(spec_op_name(Operation::PUSH_IMM)[0] != spec_op_name(Operation::LOAD_IMM)[0]);
            assert(spec_op_name(Operation::PUSH_IMM).len() != spec_op_name(Operation::STORE_R_R).len());
            assert(spec_op_name(Operation::PUSH_IMM).len() != spec_op_name(Operation::STORE_REL_R).len());
            assert(spec_op_name(Operation::PUSH_IMM).len() != spec_op_name(Operation::STORE_IMM_R).len());
            assert(spec_op_name(Operation::PUSH_IMM).len() != spec_op_name(Operation::STORE_R_IMM).len());
            assert(spec_op_name(Operation::PUSH_IMM).len() != spec_op_name(Operation::STORE_REL_IMM).len());
            assert(spec_op_name(Operation::PUSH_IMM).len() != spec_op_name(Operation::STORE_IMM_IMM).len());
            assert(spec_op_name(Operation::PUSH_IMM).len() != spec_op_name(Operation::ADD).len());
            assert(spec_op_name(Operation::PUSH_IMM).len() != spec_op_name(Operation::ADD_IMM).len());
            assert(spec_op_name(Operation::PUSH_IMM).len() != spec_op_name(Operation::SUB).len());
            assert(spec_op_name(Operation::PUSH_IMM).len() != spec_op_name(Operation::SUB_IMM).len());
            assert(spec_op_name(Operation::PUSH_IMM).len() != spec_op_name(Operation::AND).len());
            assert(spec_op_name(Operation::PUSH_IMM).len() != spec_op_name(Operation::AND_IMM).len());
            assert(spec_op_name(Operation::PUSH_IMM).len() != spec_op_name(Operation::OR).len());
            assert(spec_op_name(Operation::PUSH_IMM).len() != spec_op_name(Operation::OR_IMM).len());
            assert(spec_op_name(Operation::PUSH_IMM).len() != spec_op_name(Operation::XOR).len());
            assert(spec_op_name(Operation::PUSH_IMM).len() != spec_op_name(Operation::XOR_IMM).len());
            assert(spec_op_name(Operation::PUSH_IMM).len() != spec_op_name(Operation::DIV_MOD).len());
            assert(spec_op_name(Operation::PUSH_IMM).len() != spec_op_name(Operation::SHL).len());
            assert(spec_op_name(Operation::PUSH_IMM).len() != spec_op_name(Operation::SHL_IMM).len());
            assert(spec_op_name(Operation::PUSH_IMM).len() != spec_op_name(Operation::SHR).len());
            assert(spec_op_name(Operation::PUSH_IMM).len() != spec_op_name(Operation::SHR_IMM).len());
            assert(spec_op_name(Operation::PUSH_IMM).len() != spec_op_name(Operation::CMP).len());
            assert(spec_op_name(Operation::PUSH_IMM).len() != spec_op_name(Operation::CMP_IMM).len());
            assert(spec_op_name(Operation::PUSH_IMM).len() != spec_op_name(Operation::PUSH).len());
            assert(spec_op_name(Operation::PUSH_IMM).len() != spec_op_name(Operation::PUSH_M).len());
        },
        Operation::POP => {
            assert(spec_op_name(Operation::POP).len() != spec_op_name(Operation::HALT).len());
            assert(spec_op_name(Operation::POP)[0] != spec_op_name(Operation::NOP)[0]);
            assert(spec_op_name(Operation::POP)[0] != spec_op_name(Operation::MOV)[0]);
            assert(spec_op_name(Operation::POP).len() != spec_op_name(Operation::MOV_IMM).len());
            assert(spec_op_name(Operation::POP).len() != spec_op_name(Operation::LOAD).len());
            assert(spec_op_name(Operation::POP).len() != spec_op_name(Operation::LOAD_REL).len());
            assert(spec_op_name(Operation::POP).len() != spec_op_name(Operation::LOAD_IMM).len());
            assert(spec_op_name(Operation::POP).len() != spec_op_name(Operation::STORE_R_R).len());
            assert(spec_op_name(Operation::POP).len() != spec_op_name(Operation::STORE_REL_R).len());
            assert(spec_op_name(Operation::POP).len() != spec_op_name(Operation::STORE_IMM_R).len());
            assert(spec_op_name(Operation::POP).len() != spec_op_name(Operation::STORE_R_IMM).len());
            assert(spec_op_name(Operation::POP).len() != spec_op_name(Operation::STORE_REL_IMM).len());
            assert(spec_op_name(Operation::POP).len() != spec_op_name(Operation::STORE_IMM_IMM).len());
            assert(spec_op_name(Operation::POP)[0] != spec_op_name(Operation::ADD)[0]);
            assert(spec_op_name(Operation::POP).len() != spec_op_name(Operation::ADD_IMM).len());
            assert(spec_op_name(Operation::POP)[0] != spec_op_name(Operation::SUB)[0]);
            assert(spec_op_name(Operation::POP).len() != spec_op_name(Operation::SUB_IMM).len());
            assert(spec_op_name(Operation::POP)[0] != spec_op_name(Operation::AND)[0]);
            assert(spec_op_name(Operation::POP).len() != spec_op_name(Operation::AND_IMM).len());
            assert(spec_op_name(Operation::POP).len() != spec_op_name(Operation::OR).len());
            assert(spec_op_name(Operation::POP).len() != spec_op_name(Operation::OR_IMM).len());
            assert(spec_op_name(Operation::POP)[0] != spec_op_name(Operation::XOR)[0]);
            assert(spec_op_name(Operation::POP).len() != spec_op_name(Operation::XOR_IMM).len());
            assert(spec_op_name(Operation::POP).len() != spec_op_name(Operation::DIV_MOD).len());
            assert(spec_op_name(Operation::POP)[0] != spec_op_name(Operation::SHL)[0]);
            assert(spec_op_name(Operation::POP).len() != spec_op_name(Operation::SHL_IMM).len());
            assert(spec_op_name(Operation::POP)[0] != spec_op_name(Operation::SHR)[0]);
            assert(spec_op_name(Operation::POP).len() != spec_op_name(Operation::SHR_IMM).len());
            assert(spec_op_name(Operation::POP)[0] != spec_op_name(Operation::CMP)[0]);
            assert(spec_op_name(Operation::POP).len() != spec_op_name(Operation::CMP_IMM).len());
            assert(spec_op_name(Operation::POP).len() != spec_op_name(Operation::PUSH).len());
            assert(spec_op_name(Operation::POP).len() != spec_op_name(Operation::PUSH_M).len());
            assert(spec_op_name(Operation::POP).len() != spec_op_name(Operation::PUSH_IMM).len());
        },
        Operation::POP_M => {
            assert(spec_op_name(Operation::POP_M).len() != spec_op_name(Operation::HALT).len());
            assert(spec_op_name(Operation::POP_M).len() != spec_op_name(Operation::NOP).len());
            assert(spec_op_name(Operation::POP_M).len() != spec_op_name(Operation::MOV).len());
            assert(spec_op_name(Operation::POP_M).len() != spec_op_name(Operation::MOV_IMM).len());
            assert(spec_op_name(Operation::POP_M).len() != spec_op_name(Operation::LOAD).len());
            assert(spec_op_name(Operation::POP_M).len() != spec_op_name(Operation::LOAD_REL).len());
            assert(spec_op_name(Operation::POP_M).len() != spec_op_name(Operation::LOAD_IMM).len());
            assert(spec_op_name(Operation::POP_M).len() != spec_op_name(Operation::STORE_R_R).len());
            assert(spec_op_name(Operation::POP_M).len() != spec_op_name(Operation::STORE_REL_R).len());
            assert(spec_op_name(Operation::POP_M).len() != spec_op_name(Operation::STORE_IMM_R).len());
            assert(spec_op_name(Operation::POP_M).len() != spec_op_name(Operation::STORE_R_IMM).len());
            assert(spec_op_name(Operation::POP_M).len() != spec_op_name(Operation::STORE_REL_IMM).len());
            assert(spec_op_name(Operation::POP_M).len() != spec_op_name(Operation::STORE_IMM_IMM).len());
            assert(spec_op_name(Operation::POP_M).len() != spec_op_name(Operation::ADD).len());
            assert(spec_op_name(Operation::POP_M).len() != spec_op_name(Operation::ADD_IMM).len());
            assert(spec_op_name(Operation::POP_M).len() != spec_op_name(Operation::SUB).len());
            assert(spec_op_name(Operation::POP_M).len() != spec_op_name(Operation::SUB_IMM).len());
            assert(spec_op_name(Operation::POP_M).len() != spec_op_name(Operation::AND).len());
            assert(spec_op_name(Operation::POP_M).len() != spec_op_name(Operation::AND_IMM).len());
            assert(spec_op_name(Operation::POP_M).len() != spec_op_name(Operation::OR).len());
            assert(spec_op_name(Operation::POP_M).len() != spec_op_name(Operation::OR_IMM).len());
            assert(spec_op_name(Operation::POP_M).len() != spec_op_name(Operation::XOR).len());
            assert(spec_op_name(Operation::POP_M).len() != spec_op_name(Operation::XOR_IMM).len());
            assert(spec_op_name(Operation::POP_M).len() != spec_op_name(Operation::DIV_MOD).len());
            assert(spec_op_name(Operation::POP_M).len() != spec_op_name(Operation::SHL).len());
            assert(spec_op_name(Operation::POP_M).len() != spec_op_name(Operation::SHL_IMM).len());
            assert(spec_op_name(Operation::POP_M).len() != spec_op_name(Operation::SHR).len());
            assert(spec_op_name(Operation::POP_M).len() != spec_op_name(Operation::SHR_IMM).len());
            assert(spec_op_name(Operation::POP_M).len() != spec_op_name(Operation::CMP).len());
            assert(spec_op_name(Operation::POP_M).len() != spec_op_name(Operation::CMP_IMM).len());
            assert(spec_op_name(Operation::POP_M).len() != spec_op_name(Operation::PUSH).len());
            assert(spec_op_name(Operation::POP_M).len() != spec_op_name(Operation::PUSH_M).len());
            assert(spec_op_name(Operation::POP_M).len() != spec_op_name(Operation::PUSH_IMM).len());
            assert(spec_op_name(Operation::POP_M).len() != spec_op_name(Operation::POP).len());
        },
        Operation::POP_IMM => {
            assert(spec_op_name(Operation::POP_IMM).len() != spec_op_name(Operation::HALT).len());
            assert(spec_op_name(Operation::POP_IMM).len() != spec_op_name(Operation::NOP).len());
            assert(spec_op_name(Operation::POP_IMM).len() != spec_op_name(Operation::MOV).len());
            assert(spec_op_name(Operation::POP_IMM)[0] != spec_op_name(Operation::MOV_IMM)[0]);
            assert(spec_op_name(Operation::POP_IMM).len() != spec_op_name(Operation::LOAD).len());
            assert(spec_op_name(Operation::POP_IMM).len() != spec_op_name(Operation::LOAD_REL).len());
            assert(spec_op_name(Operation::POP_IMM).len() != spec_op_name(Operation::LOAD_IMM).len());
            assert(spec_op_name(Operation::POP_IMM).len() != spec_op_name(Operation::STORE_R_R).len());
            assert(spec_op_name(Operation::POP_IMM).len() != spec_op_name(Operation::STORE_REL_R).len());
            assert(spec_op_name(Operation::POP_IMM).len() != spec_op_name(Operation::STORE_IMM_R).len());
            assert(spec_op_name(Operation::POP_IMM).len() != spec_op_name(Operation::STORE_R_IMM).len());
            assert(spec_op_name(Operation::POP_IMM).len() != spec_op_name(Operation::STORE_REL_IMM).len());
            assert(spec_op_name(Operation::POP_IMM).len() != spec_op_name(Operation::STORE_IMM_IMM).len());
            assert(spec_op_name(Operation::POP_IMM).len() != spec_op_name(Operation::ADD).len());
            assert(spec_op_name(Operation::POP_IMM)[0] != spec_op_name(Operation::ADD_IMM)[0]);
            assert(spec_op_name(Operation::POP_IMM).len() != spec_op_name(Operation::SUB).len());
            assert(spec_op_name(Operation::POP_IMM)[0] != spec_op_name(Operation::SUB_IMM)[0]);
            assert(spec_op_name(Operation::POP_IMM).len() != spec_op_name(Operation::AND).len());
            assert(spec_op_name(Operation::POP_IMM)[0] != spec_op_name(Operation::AND_IMM)[0]);
            assert(spec_op_name(Operation::POP_IMM).len() != spec_op_name(Operation::OR).len());
            assert(spec_op_name(Operation::POP_IMM).len() != spec_op_name(Operation::OR_IMM).len());
            assert(spec_op_name(Operation::POP_IMM).len() != spec_op_name(Operation::XOR).len());
            assert(spec_op_name(Operation::POP_IMM)[0] != spec_op_name(Operation::XOR_IMM)[0]);
            assert(spec_op_name(Operation::POP_IMM)[0] != spec_op_name(Operation::DIV_MOD)[0]);
            assert(spec_op_name(Operation::POP_IMM).len() != spec_op_name(Operation::SHL).len());
            assert(spec_op_name(Operation::POP_IMM)[0] != spec_op_name(Operation::SHL_IMM)[0]);
            assert(spec_op_name(Operation::POP_IMM).len() != spec_op_name(Operation::SHR).len());
            assert(spec_op_name(Operation::POP_IMM)[0] != spec_op_name(Operation::SHR_IMM)[0]);
            assert(spec_op_name(Operation::POP_IMM).len() != spec_op_name(Operation::CMP).len());
            assert(spec_op_name(Operation::POP_IMM)[0] != spec_op_name(Operation::CMP_IMM)[0]);
            assert(spec_op_name(Operation::POP_IMM).len() != spec_op_name(Operation::PUSH).len());
            assert(spec_op_name(Operation::POP_IMM).len() != spec_op_name(Operation::PUSH_M).len());
            assert(spec_op_name(Operation::POP_IMM).len() != spec_op_name(Operation::PUSH_IMM).len());
            assert(spec_op_name(Operation::POP_IMM).len() != spec_op_name(Operation::POP).len());
            assert(spec_op_name(Operation::POP_IMM).len() != spec_op_name(Operation::POP_M).len());
        },
        Operation::JMP => {
            assert(spec_op_name(Operation::JMP).len() != spec_op_name(Operation::HALT).len());
            assert(spec_op_name(Operation::JMP)[0] != spec_op_name(Operation::NOP)[0]);
            assert(spec_op_name(Operation::JMP)[0] != spec_op_name(Operation::MOV)[0]);
            assert(spec_op_name(Operation::JMP).len() != spec_op_name(Operation::MOV_IMM).len());
            assert(spec_op_name(Operation::JMP).len() != spec_op_name(Operation::LOAD).len());
            assert(spec_op_name(Operation::JMP).len() != spec_op_name(Operation::LOAD_REL).len());
            assert(spec_op_name(Operation::JMP).len() != spec_op_name(Operation::LOAD_IMM).len());
            assert(spec_op_name(Operation::JMP).len() != spec_op_name(Operation::STORE_R_R).len());
            assert(spec_op_name(Operation::JMP).len() != spec_op_name(Operation::STORE_REL_R).len());
            assert(spec_op_name(Operation::JMP).len() != spec_op_name(Operation::STORE_IMM_R).len());
            assert(spec_op_name(Operation::JMP).len() != spec_op_name(Operation::STORE_R_IMM).len());
            assert(spec_op_name(Operation::JMP).len() != spec_op_name(Operation::STORE_REL_IMM).len());
            assert(spec_op_name(Operation::JMP).len() != spec_op_name(Operation::STORE_IMM_IMM).len());
            assert(spec_op_name(Operation::JMP)[0] != spec_op_name(Operation::ADD)[0]);
            assert(spec_op_name(Operation::JMP).len() != spec_op_name(Operation::ADD_IMM).len());
            assert(spec_op_name(Operation::JMP)[0] != spec_op_name(Operation::SUB)[0]);
            assert(spec_op_name(Operation::JMP).len() != spec_op_name(Operation::SUB_IMM).len());
            assert(spec_op_name(Operation::JMP)[0] != spec_op_name(Operation::AND)[0]);
            assert(spec_op_name(Operation::JMP).len() != spec_op_name(Operation::AND_IMM).len());
            assert(spec_op_name(Operation::JMP).len() != spec_op_name(Operation::OR).len());
            assert(spec_op_name(Operation::JMP).len() != spec_op_name(Operation::OR_IMM).len());
            assert(spec_op_name(Operation::JMP)[0] != spec_op_name(Operation::XOR)[0]);
            assert(spec_op_name(Operation::JMP).len() != spec_op_name(Operation::XOR_IMM).len());
            assert(spec_op_name(Operation::JMP).len() != spec_op_name(Operation::DIV_MOD).len());
            assert(spec_op_name(Operation::JMP)[0] != spec_op_name(Operation::SHL)[0]);
            assert(spec_op_name(Operation::JMP).len() != spec_op_name(Operation::SHL_IMM).len());
            assert(spec_op_name(Operation::JMP)[0] != spec_op_name(Operation::SHR)[0]);
            assert(spec_op_name(Operation::JMP).len() != spec_op_name(Operation::SHR_IMM).len());
            assert(spec_op_name(Operation::JMP)[0] != spec_op_name(Operation::CMP)[0]);
            assert(spec_op_name(Operation::JMP).len() != spec_op_name(Operation::CMP_IMM).len());
            assert(spec_op_name(Operation::JMP).len() != spec_op_name(Operation::PUSH).len());
            assert(spec_op_name(Operation::JMP).len() != spec_op_name(Operation::PUSH_M).len());
            assert(spec_op_name(Operation::JMP).len() != spec_op_name(Operation::PUSH_IMM).len());
            assert(spec_op_name(Operation::JMP)[0] != spec_op_name(Operation::POP)[0]);
            assert(spec_op_name(Operation::JMP).len() != spec_op_name(Operation::POP_M).len());
            assert(spec_op_name(Operation::JMP).len() != spec_op_name(Operation::POP_IMM).len());
        },
        Operation::JZ => {
            assert(spec_op_name(Operation::JZ).len() != spec_op_name(Operation::HALT).len());
            assert(spec_op_name(Operation::JZ).len() != spec_op_name(Operation::NOP).len());
            assert(spec_op_name(Operation::JZ).len() != spec_op_name(Operation::MOV).len());
            assert(spec_op_name(Operation::JZ).len() != spec_op_name(Operation::MOV_IMM).len());
            assert(spec_op_name(Operation::JZ).len() != spec_op_name(Operation::LOAD).len());
            assert(spec_op_name(Operation::JZ).len() != spec_op_name(Operation::LOAD_REL).len());
            assert(spec_op_name(Operation::JZ).len() != spec_op_name(Operation::LOAD_IMM).len());
            assert(spec_op_name(Operation::JZ).len() != spec_op_name(Operation::STORE_R_R).len());
            assert(spec_op_name(Operation::JZ).len() != spec_op_name(Operation::STORE_REL_R).len());
            assert(spec_op_name(Operation::JZ).len() != spec_op_name(Operation::STORE_IMM_R).len());
            assert(spec_op_name(Operation::JZ).len() != spec_op_name(Operation::STORE_R_IMM).len());
            assert(spec_op_name(Operation::JZ).len() != spec_op_name(Operation::STORE_REL_IMM).len());
            assert(spec_op_name(Operation::JZ).len() != spec_op_name(Operation::STORE_IMM_IMM).len());
            assert(spec_op_name(Operation::JZ).len() != spec_op_name(Operation::ADD).len());
            assert(spec_op_name(Operation::JZ).len() != spec_op_name(Operation::ADD_IMM).len());
            assert(spec_op_name(Operation::JZ).len() != spec_op_name(Operation::SUB).len());
            assert(spec_op_name(Operation::JZ).len() != spec_op_name(Operation::SUB_IMM).len());
            assert(spec_op_name(Operation::JZ).len() != spec_op_name(Operation::AND).len());
            assert(spec_op_name(Operation::JZ).len() != spec_op_name(Operation::AND_IMM).len());
            assert(spec_op_name(Operation::JZ)[0] != spec_op_name(Operation::OR)[0]);
            assert(spec_op_name(Operation::JZ).len() != spec_op_name(Operation::OR_IMM).len());
            assert(spec_op_name(Operation::JZ).len() != spec_op_name(Operation::XOR).len());
            assert(spec_op_name(Operation::JZ).len() != spec_op_name(Operation::XOR_IMM).len());
            assert(spec_op_name(Operation::JZ).len() != spec_op_name(Operation::DIV_MOD).len());
            assert(spec_op_name(Operation::JZ).len() != spec_op_name(Operation::SHL).len());
            assert(spec_op_name(Operation::JZ).len() != spec_op_name(Operation::SHL_IMM).len());
            assert(spec_op_name(Operation::JZ).len() != spec_op_name(Operation::SHR).len());
            assert(spec_op_name(Operation::JZ).len() != spec_op_name(Operation::SHR_IMM).len());
            assert(spec_op_name(Operation::JZ).len() != spec_op_name(Operation::CMP).len());
            assert(spec_op_name(Operation::JZ).len() != spec_op_name(Operation::CMP_IMM).len());
            assert(spec_op_name(Operation::JZ).len() != spec_op_name(Operation::PUSH).len());
            assert(spec_op_name(Operation::JZ).len() != spec_op_name(Operation::PUSH_M).len());
            assert(spec_op_name(Operation::JZ).len() != spec_op_name(Operation::PUSH_IMM).len());
            assert(spec_op_name(Operation::JZ).len() != spec_op_name(Operation::POP).len());
            assert(spec_op_name(Operation::JZ).len() != spec_op_name(Operation::POP_M).len());
            assert(spec_op_name(Operation::JZ).len() != spec_op_name(Operation::POP_IMM).len());
            assert(spec_op_name(Operation::JZ).len() != spec_op_name(Operation::JMP).len());
        },
        Operation::JNZ => {
            assert(spec_op_name(Operation::JNZ).len() != spec_op_name(Operation::HALT).len());
            assert(spec_op_name(Operation::JNZ)[0] != spec_op_name(Operation::NOP)[0]);
            assert(spec_op_name(Operation::JNZ)[0] != spec_op_name(Operation::MOV)[0]);
            assert(spec_op_name(Operation::JNZ).len() != spec_op_name(Operation::MOV_IMM).len());
            assert(spec_op_name(Operation::JNZ).len() != spec_op_name(Operation::LOAD).len());
            assert(spec_op_name(Operation::JNZ).len() != spec_op_name(Operation::LOAD_REL).len());
            assert(spec_op_name(Operation::JNZ).len() != spec_op_name(Operation::LOAD_IMM).len());
            assert(spec_op_name(Operation::JNZ).len() != spec_op_name(Operation::STORE_R_R).len());
            assert(spec_op_name(Operation::JNZ).len() != spec_op_name(Operation::STORE_REL_R).len());
            assert(spec_op_name(Operation::JNZ).len() != spec_op_name(Operation::STORE_IMM_R).len());
            assert(spec_op_name(Operation::JNZ).len() != spec_op_name(Operation::STORE_R_IMM).len());
            assert(spec_op_name(Operation::JNZ).len() != spec_op_name(Operation::STORE_REL_IMM).len());
            assert(spec_op_name(Operation::JNZ).len() != spec_op_name(Operation::STORE_IMM_IMM).len());
            assert(spec_op_name(Operation::JNZ)[0] != spec_op_name(Operation::ADD)[0]);
            assert(spec_op_name(Operation::JNZ).len() != spec_op_name(Operation::ADD_IMM).len());
            assert(spec_op_name(Operation::JNZ)[0] != spec_op_name(Operation::SUB)[0]);
            assert(spec_op_name(Operation::JNZ).len() != spec_op_name(Operation::SUB_IMM).len());
            assert(spec_op_name(Operation::JNZ)[0] != spec_op_name(Operation::AND)[0]);
            assert(spec_op_name(Operation::JNZ).len() != spec_op_name(Operation::AND_IMM).len());
            assert(spec_op_name(Operation::JNZ).len() != spec_op_name(Operation::OR).len());
            assert(spec_op_name(Operation::JNZ).len() != spec_op_name(Operation::OR_IMM).len());
            assert(spec_op_name(Operation::JNZ)[0] != spec_op_name(Operation::XOR)[0]);
            assert(spec_op_name(Operation::JNZ).len() != spec_op_name(Operation::XOR_IMM).len());
            assert(spec_op_name(Operation::JNZ).len() != spec_op_name(Operation::DIV_MOD).len());
            assert(spec_op_name(Operation::JNZ)[0] != spec_op_name(Operation::SHL)[0]);
            assert(spec_op_name(Operation::JNZ).len() != spec_op_name(Operation::SHL_IMM).len());
            assert(spec_op_name(Operation::JNZ)[0] != spec_op_name(Operation::SHR)[0]);
            assert(spec_op_name(Operation::JNZ).len() != spec_op_name(Operation::SHR_IMM).len());
            assert(spec_op_name(Operation::JNZ)[0] != spec_op_name(Operation::CMP)[0]);
            assert(spec_op_name(Operation::JNZ).len() != spec_op_name(Operation::CMP_IMM).len());
            assert(spec_op_name(Operation::JNZ).len() != spec_op_name(Operation::PUSH).len());
            assert(spec_op_name(Operation::JNZ).len() != spec_op_name(Operation::PUSH_M).len());
            assert(spec_op_name(Operation::JNZ).len() != spec_op_name(Operation::PUSH_IMM).len());
            assert(spec_op_name(Operation::JNZ)[0] != spec_op_name(Operation::POP)[0]);
            assert(spec_op_name(Operation::JNZ).len() != spec_op_name(Operation::POP_M).len());
            assert(spec_op_name(Operation::JNZ).len() != spec_op_name(Operation::POP_IMM).len());
            assert(spec_op_name(Operation::JNZ)[1] != spec_op_name(Operation::JMP)[1]);
            assert(spec_op_name(Operation::JNZ).len() != spec_op_name(Operation::JZ).len());
        },
        Operation::JA => {
            assert(spec_op_name(Operation::JA).len() != spec_op_name(Operation::HALT).len());
            assert(spec_op_name(Operation::JA).len() != spec_op_name(Operation::NOP).len());
            assert(spec_op_name(Operation::JA).len() != spec_op_name(Operation::MOV).len());
            assert(spec_op_name(Operation::JA).len() != spec_op_name(Operation::MOV_IMM).len());
            assert(spec_op_name(Operation::JA).len() != spec_op_name(Operation::LOAD).len());
            assert(spec_op_name(Operation::JA).len() != spec_op_name(Operation::LOAD_REL).len());
            assert(spec_op_name(Operation::JA).len() != spec_op_name(Operation::LOAD_IMM).len());
            assert(spec_op_name(Operation::JA).len() != spec_op_name(Operation::STORE_R_R).len());
            assert(spec_op_name(Operation::JA).len() != spec_op_name(Operation::STORE_REL_R).len());
            assert(spec_op_name(Operation::JA).len() != spec_op_name(Operation::STORE_IMM_R).len());
            assert(spec_op_name(Operation::JA).len() != spec_op_name(Operation::STORE_R_IMM).len());
            assert(spec_op_name(Operation::JA).len() != spec_op_name(Operation::STORE_REL_IMM).len());
            assert(spec_op_name(Operation::JA).len() != spec_op_name(Operation::STORE_IMM_IMM).len());
            assert(spec_op_name(Operation::JA).len() != spec_op_name(Operation::ADD).len());
            assert(spec_op_name(Operation::JA).len() != spec_op_name(Operation::ADD_IMM).len());
            assert(spec_op_name(Operation::JA).len() != spec_op_name(Operation::SUB).len());
            assert(spec_op_name(Operation::JA).len() != spec_op_name(Operation::SUB_IMM).len());
            assert(spec_op_name(Operation::JA).len() != spec_op_name(Operation::AND).len());
            assert(spec_op_name(Operation::JA).len() != spec_op_name(Operation::AND_IMM).len());
            assert(spec_op_name(Operation::JA)[0] != spec_op_name(Operation::OR)[0]);
            assert(spec_op_name(Operation::JA).len() != spec_op_name(Operation::OR_IMM).len());
            assert(spec_op_name(Operation::JA).len() != spec_op_name(Operation::XOR).len());
            assert(spec_op_name(Operation::JA).len() != spec_op_name(Operation::XOR_IMM).len());
            assert(spec_op_name(Operation::JA).len() != spec_op_name(Operation::DIV_MOD).len());
            assert(spec_op_name(Operation::JA).len() != spec_op_name(Operation::SHL).len());
            assert(spec_op_name(Operation::JA).len() != spec_op_name(Operation::SHL_IMM).len());
            assert(spec_op_name(Operation::JA).len() != spec_op_name(Operation::SHR).len());
            assert(spec_op_name(Operation::JA).len() != spec_op_name(Operation::SHR_IMM).len());
            assert(spec_op_name(Operation::JA).len() != spec_op_name(Operation::CMP).len());
            assert(spec_op_name(Operation::JA).len() != spec_op_name(Operation::CMP_IMM).len());
            assert(spec_op_name(Operation::JA).len() != spec_op_name(Operation::PUSH).len());
            assert(spec_op_name(Operation::JA).len() != spec_op_name(Operation::PUSH_M).len());
            assert(spec_op_name(Operation::JA).len() != spec_op_name(Operation::PUSH_IMM).len());
            assert(spec_op_name(Operation::JA).len() != spec_op_name(Operation::POP).len());
            assert(spec_op_name(Operation::JA).len() != spec_op_name(Operation::POP_M).len());
            assert(spec_op_name(Operation::JA).len() != spec_op_name(Operation::POP_IMM).len());
            assert(spec_op_name(Operation::JA).len() != spec_op_name(Operation::JMP).len());
            assert(spec_op_name(Operation::JA)[1] != spec_op_name(Operation::JZ)[1]);
            assert(spec_op_name(Operation::JA).len() != spec_op_name(Operation::JNZ).len());
        },
        Operation::JB => {
            assert(spec_op_name(Operation::JB).len() != spec_op_name(Operation::HALT).len());
            assert(spec_op_name(Operation::JB).len() != spec_op_name(Operation::NOP).len());
            assert(spec_op_name(Operation::JB).len() != spec_op_name(Operation::MOV).len());
            assert(spec_op_name(Operation::JB).len() != spec_op_name(Operation::MOV_IMM).len());
            assert(spec_op_name(Operation::JB).len() != spec_op_name(Operation::LOAD).len());
            assert(spec_op_name(Operation::JB).len() != spec_op_name(Operation::LOAD_REL).len());
            assert(spec_op_name(Operation::JB).len() != spec_op_name(Operation::LOAD_IMM).len());
            assert(spec_op_name(Operation::JB).len() != spec_op_name(Operation::STORE_R_R).len());
            assert(spec_op_name(Operation::JB).len() != spec_op_name(Operation::STORE_REL_R).len());
            assert(spec_op_name(Operation::JB).len() != spec_op_name(Operation::STORE_IMM_R).len());
            assert(spec_op_name(Operation::JB).len() != spec_op_name(Operation::STORE_R_IMM).len());
            assert(spec_op_name(Operation::JB).len() != spec_op_name(Operation::STORE_REL_IMM).len());
            assert(spec_op_name(Operation::JB).len() != spec_op_name(Operation::STORE_IMM_IMM).len());
            assert(spec_op_name(Operation::JB).len() != spec_op_name(Operation::ADD).len());
            assert(spec_op_name(Operation::JB).len() != spec_op_name(Operation::ADD_IMM).len());
            assert(spec_op_name(Operation::JB).len() != spec_op_name(Operation::SUB).len());
            assert(spec_op_name(Operation::JB).len() != spec_op_name(Operation::SUB_IMM).len());
            assert(spec_op_name(Operation::JB).len() != spec_op_name(Operation::AND).len());
            assert(spec_op_name(Operation::JB).len() != spec_op_name(Operation::AND_IMM).len());
            assert(spec_op_name(Operation::JB)[0] != spec_op_name(Operation::OR)[0]);
            assert(spec_op_name(Operation::JB).len() != spec_op_name(Operation::OR_IMM).len());
            assert(spec_op_name(Operation::JB).len() != spec_op_name(Operation::XOR).len());
            assert(spec_op_name(Operation::JB).len() != spec_op_name(Operation::XOR_IMM).len());
            assert(spec_op_name(Operation::JB).len() != spec_op_name(Operation::DIV_MOD).len());
            assert(spec_op_name(Operation::JB).len() != spec_op_name(Operation::SHL).len());
            assert(spec_op_name(Operation::JB).len() != spec_op_name(Operation::SHL_IMM).len());
            assert(spec_op_name(Operation::JB).len() != spec_op_name(Operation::SHR).len());
            assert(spec_op_name(Operation::JB).len() != spec_op_name(Operation::SHR_IMM).len());
            assert(spec_op_name(Operation::JB).len() != spec_op_name(Operation::CMP).len());
            assert(spec_op_name(Operation::JB).len() != spec_op_name(Operation::CMP_IMM).len());
            assert(spec_op_name(Operation::JB).len() != spec_op_name(Operation::PUSH).len());
            assert(spec_op_name(Operation::JB).len() != spec_op_name(Operation::PUSH_M).len());
            assert(spec_op_name(Operation::JB).len() != spec_op_name(Operation::PUSH_IMM).len());
            assert(spec_op_name(Operation::JB).len() != spec_op_name(Operation::POP).len());
            assert(spec_op_name(Operation::JB).len() != spec_op_name(Operation::POP_M).len());
            assert(spec_op_name(Operation::JB).len() != spec_op_name(Operation::POP_IMM).len());
            assert(spec_op_name(Operation::JB).len() != spec_op_name(Operation::JMP).len());
            assert(spec_op_name(Operation::JB)[1] != spec_op_name(Operation::JZ)[1]);
            assert(spec_op_name(Operation::JB).len() != spec_op_name(Operation::JNZ).len());
            assert(spec_op_name(Operation::JB)[1] != spec_op_name(Operation::JA)[1]);
        },
        Operation::JAE => {
            assert(spec_op_name(Operation::JAE).len() != spec_op_name(Operation::HALT).len());
            assert(spec_op_name(Operation::JAE)[0] != spec_op_name(Operation::NOP)[0]);
            assert(spec_op_name(Operation::JAE)[0] != spec_op_name(Operation::MOV)[0]);
            assert(spec_op_name(Operation::JAE).len() != spec_op_name(Operation::MOV_IMM).len());
            assert(spec_op_name(Operation::JAE).len() != spec_op_name(Operation::LOAD).len());
            assert(spec_op_name(Operation::JAE).len() != spec_op_name(Operation::LOAD_REL).len());
            assert(spec_op_name(Operation::JAE).len() != spec_op_name(Operation::LOAD_IMM).len());
            assert(spec_op_name(Operation::JAE).len() != spec_op_name(Operation::STORE_R_R).len());
            assert(spec_op_name(Operation::JAE).len() != spec_op_name(Operation::STORE_REL_R).len());
            assert(spec_op_name(Operation::JAE).len() != spec_op_name(Operation::STORE_IMM_R).len());
            assert(spec_op_name(Operation::JAE).len() != spec_op_name(Operation::STORE_R_IMM).len());
            assert(spec_op_name(Operation::JAE).len() != spec_op_name(Operation::STORE_REL_IMM).len());
            assert(spec_op_name(Operation::JAE).len() != spec_op_name(Operation::STORE_IMM_IMM).len());
            assert(spec_op_name(Operation::JAE)[0] != spec_op_name(Operation::ADD)[0]);
            assert(spec_op_name(Operation::JAE).len() != spec_op_name(Operation::ADD_IMM).len());
            assert(spec_op_name(Operation::JAE)[0] != spec_op_name(Operation::SUB)[0]);
            assert(spec_op_name(Operation::JAE).len() != spec_op_name(Operation::SUB_IMM).len());
            assert(spec_op_name(Operation::JAE)[0] != spec_op_name(Operation::AND)[0]);
            assert(spec_op_name(Operation::JAE).len() != spec_op_name(Operation::AND_IMM).len());
            assert(spec_op_name(Operation::JAE).len() != spec_op_name(Operation::OR).len());
            assert(spec_op_name(Operation::JAE).len() != spec_op_name(Operation::OR_IMM).len());
            assert(spec_op_name(Operation::JAE)[0] != spec_op_name(Operation::XOR)[0]);
            assert(spec_op_name(Operation::JAE).len() != spec_op_name(Operation::XOR_IMM).len());
            assert(spec_op_name(Operation::JAE).len() != spec_op_name(Operation::DIV_MOD).len());
            assert(spec_op_name(Operation::JAE)[0] != spec_op_name(Operation::SHL)[0]);
            assert(spec_op_name(Operation::JAE).len() != spec_op_name(Operation::SHL_IMM).len());
            assert(spec_op_name(Operation::JAE)[0] != spec_op_name(Operation::SHR)[0]);
            assert(spec_op_name(Operation::JAE).len() != spec_op_name(Operation::SHR_IMM).len());
            assert(spec_op_name(Operation::JAE)[0] != spec_op_name(Operation::CMP)[0]);
            assert(spec_op_name(Operation::JAE).len() != spec_op_name(Operation::CMP_IMM).len());
            assert(spec_op_name(Operation::JAE).len() != spec_op_name(Operation::PUSH).len());
            assert(spec_op_name(Operation::JAE).len() != spec_op_name(Operation::PUSH_M).len());
            assert(spec_op_name(Operation::JAE).len() != spec_op_name(Operation::PUSH_IMM).len());
            assert(spec_op_name(Operation::JAE)[0] != spec_op_name(Operation::POP)[0]);
            assert(spec_op_name(Operation::JAE).len() != spec_op_name(Operation::POP_M).len());
            assert(spec_op_name(Operation::JAE).len() != spec_op_name(Operation::POP_IMM).len());
            assert(spec_op_name(Operation::JAE)[1] != spec_op_name(Operation::JMP)[1]);
            assert(spec_op_name(Operation::JAE).len() != spec_op_name(Operation::JZ).len());
            assert(spec_op_name(Operation::JAE)[1] != spec_op_name(Operation::JNZ)[1]);
            assert(spec_op_name(Operation::JAE).len() != spec_op_name(Operation::JA).len());
            assert(spec_op_name(Operation::JAE).len() != spec_op_name(Operation::JB).len());
        },
        Operation::JBE => {
            assert(spec_op_name(Operation::JBE).len() != spec_op_name(Operation::HALT).len());
            assert(spec_op_name(Operation::JBE)[0] != spec_op_name(Operation::NOP)[0]);
            assert(spec_op_name(Operation::JBE)[0] != spec_op_name(Operation::MOV)[0]);
            assert(spec_op_name(Operation::JBE).len() != spec_op_name(Operation::MOV_IMM).len());
            assert(spec_op_name(Operation::JBE).len() != spec_op_name(Operation::LOAD).len());
            assert(spec_op_name(Operation::JBE).len() != spec_op_name(Operation::LOAD_REL).len());
            assert(spec_op_name(Operation::JBE).len() != spec_op_name(Operation::LOAD_IMM).len());
            assert(spec_op_name(Operation::JBE).len() != spec_op_name(Operation::STORE_R_R).len());
            assert(spec_op_name(Operation::JBE).len() != spec_op_name(Operation::STORE_REL_R).len());
            assert(spec_op_name(Operation::JBE).len() != spec_op_name(Operation::STORE_IMM_R).len());
            assert(spec_op_name(Operation::JBE).len() != spec_op_name(Operation::STORE_R_IMM).len());
            assert(spec_op_name(Operation::JBE).len() != spec_op_name(Operation::STORE_REL_IMM).len());
            assert(spec_op_name(Operation::JBE).len() != spec_op_name(Operation::STORE_IMM_IMM).len());
            assert(spec_op_name(Operation::JBE)[0] != spec_op_name(Operation::ADD)[0]);
            assert(spec_op_name(Operation::JBE).len() != spec_op_name(Operation::ADD_IMM).len());
            assert(spec_op_name(Operation::JBE)[0] != spec_op_name(Operation::SUB)[0]);
            assert(spec_op_name(Operation::JBE).len() != spec_op_name(Operation::SUB_IMM).len());
            assert(spec_op_name(Operation::JBE)[0] != spec_op_name(Operation::AND)[0]);
            assert(spec_op_name(Operation::JBE).len() != spec_op_name(Operation::AND_IMM).len());
            assert(spec_op_name(Operation::JBE).len() != spec_op_name(Operation::OR).len());
            assert(spec_op_name(Operation::JBE).len() != spec_op_name(Operation::OR_IMM).len());
            assert(spec_op_name(Operation::JBE)[0] != spec_op_name(Operation::XOR)[0]);
            assert(spec_op_name(Operation::JBE).len() != spec_op_name(Operation::XOR_IMM).len());
            assert(spec_op_name(Operation::JBE).len() != spec_op_name(Operation::DIV_MOD).len());
            assert(spec_op_name(Operation::JBE)[0] != spec_op_name(Operation::SHL)[0]);
            assert(spec_op_name(Operation::JBE).len() != spec_op_name(Operation::SHL_IMM).len());
            assert(spec_op_name(Operation::JBE)[0] != spec_op_name(Operation::SHR)[0]);
            assert(spec_op_name(Operation::JBE).len() != spec_op_name(Operation::SHR_IMM).len());
            assert(spec_op_name(Operation::JBE)[0] != spec_op_name(Operation::CMP)[0]);
            assert(spec_op_name(Operation::JBE).len() != spec_op_name(Operation::CMP_IMM).len());
            assert(spec_op_name(Operation::JBE).len() != spec_op_name(Operation::PUSH).len());
            assert(spec_op_name(Operation::JBE).len() != spec_op_name(Operation::PUSH_M).len());
            assert(spec_op_name(Operation::JBE).len() != spec_op_name(Operation::PUSH_IMM).len());
            assert(spec_op_name(Operation::JBE)[0] != spec_op_name(Operation::POP)[0]);
            assert(spec_op_name(Operation::JBE).len() != spec_op_name(Operation::POP_M).len());
            assert(spec_op_name(Operation::JBE).len() != spec_op_name(Operation::POP_IMM).len());
            assert(spec_op_name(Operation::JBE)[1] != spec_op_name(Operation::JMP)[1]);
            assert(spec_op_name(Operation::JBE).len() != spec_op_name(Operation::JZ).len());
            assert(spec_op_name(Operation::JBE)[1] != spec_op_name(Operation::JNZ)[1]);
            assert(spec_op_name(Operation::JBE).len() != spec_op_name(Operation::JA).len());
            assert(spec_op_name(Operation::JBE).len() != spec_op_name(Operation::JB).len());
            assert(spec_op_name(Operation::JBE)[1] != spec_op_name(Operation::JAE)[1]);
        },
        Operation::JN => {
            assert(spec_op_name(Operation::JN).len() != spec_op_name(Operation::HALT).len());
            assert(spec_op_name(Operation::JN).len() != spec_op_name(Operation::NOP).len());
            assert(spec_op_name(Operation::JN).len() != spec_op_name(Operation::MOV).len());
            assert(spec_op_name(Operation::JN).len() != spec_op_name(Operation::MOV_IMM).len());
            assert(spec_op_name(Operation::JN).len() != spec_op_name(Operation::LOAD).len());
            assert(spec_op_name(Operation::JN).len() != spec_op_name(Operation::LOAD_REL).len());
            assert(spec_op_name(Operation::JN).len() != spec_op_name(Operation::LOAD_IMM).len());
            assert(spec_op_name(Operation::JN).len() != spec_op_name(Operation::STORE_R_R).len());
            assert(spec_op_name(Operation::JN).len() != spec_op_name(Operation::STORE_REL_R).len());
            assert(spec_op_name(Operation::JN).len() != spec_op_name(Operation::STORE_IMM_R).len());
            assert(spec_op_name(Operation::JN).len() != spec_op_name(Operation::STORE_R_IMM).len());
            assert(spec_op_name(Operation::JN).len() != spec_op_name(Operation::STORE_REL_IMM).len());
            assert(spec_op_name(Operation::JN).len() != spec_op_name(Operation::STORE_IMM_IMM).len());
            assert(spec_op_name(Operation::JN).len() != spec_op_name(Operation::ADD).len());
            assert(spec_op_name(Operation::JN).len() != spec_op_name(Operation::ADD_IMM).len());
            assert(spec_op_name(Operation::JN).len() != spec_op_name(Operation::SUB).len());
            assert(spec_op_name(Operation::JN).len() != spec_op_name(Operation::SUB_IMM).len());
            assert(spec_op_name(Operation::JN).len() != spec_op_name(Operation::AND).len());
            assert(spec_op_name(Operation::JN).len() != spec_op_name(Operation::AND_IMM).len());
            assert(spec_op_name(Operation::JN)[0] != spec_op_name(Operation::OR)[0]);
            assert(spec_op_name(Operation::JN).len() != spec_op_name(Operation::OR_IMM).len());
            assert(spec_op_name(Operation::JN).len() != spec_op_name(Operation::XOR).len());
            assert(spec_op_name(Operation::JN).len() != spec_op_name(Operation::XOR_IMM).len());
            assert(spec_op_name(Operation::JN).len() != spec_op_name(Operation::DIV_MOD).len());
            assert(spec_op_name(Operation::JN).len() != spec_op_name(Operation::SHL).len());
            assert(spec_op_name(Operation::JN).len() != spec_op_name(Operation::SHL_IMM).len());
            assert(spec_op_name(Operation::JN).len() != spec_op_name(Operation::SHR).len());
            assert(spec_op_name(Operation::JN).len() != spec_op_name(Operation::SHR_IMM).len());
            assert(spec_op_name(Operation::JN).len() != spec_op_name(Operation::CMP).len());
            assert(spec_op_name(Operation::JN).len() != spec_op_name(Operation::CMP_IMM).len());
            assert(spec_op_name(Operation::JN).len() != spec_op_name(Operation::PUSH).len());
            assert(spec_op_name(Operation::JN).len() != spec_op_name(Operation::PUSH_M).len());
            assert(spec_op_name(Operation::JN).len() != spec_op_name(Operation::PUSH_IMM).len());
            assert(spec_op_name(Operation::JN).len() != spec_op_name(Operation::POP).len());
            assert(spec_op_name(Operation::JN).len() != spec_op_name(Operation::POP_M).len());
            assert(spec_op_name(Operation::JN).len() != spec_op_name(Operation::POP_IMM).len());
            assert(spec_op_name(Operation::JN).len() != spec_op_name(Operation::JMP).len());
            assert(spec_op_name(Operation::JN)[1] != spec_op_name(Operation::JZ)[1]);
            assert(spec_op_name(Operation::JN).len() != spec_op_name(Operation::JNZ).len());
            assert(spec_op_name(Operation::JN)[1] != spec_op_name(Operation::JA)[1]);
            assert(spec_op_name(Operation::JN)[1] != spec_op_name(Operation::JB)[1]);
            assert(spec_op_name(Operation::JN).len() != spec_op_name(Operation::JAE).len());
            assert(spec_op_name(Operation::JN).len() != spec_op_name(Operation::JBE).len());
        },
        Operation::JNN => {
            assert(spec_op_name(Operation::JNN).len() != spec_op_name(Operation::HALT).len());
            assert(spec_op_name(Operation::JNN)[0] != spec_op_name(Operation::NOP)[0]);
            assert(spec_op_name(Operation::JNN)[0] != spec_op_name(Operation::MOV)[0]);
            assert(spec_op_name(Operation::JNN).len() != spec_op_name(Operation::MOV_IMM).len());
            assert(spec_op_name(Operation::JNN).len() != spec_op_name(Operation::LOAD).len());
            assert(spec_op_name(Operation::JNN).len() != spec_op_name(Operation::LOAD_REL).len());
            assert(spec_op_name(Operation::JNN).len() != spec_op_name(Operation::LOAD_IMM).len());
            assert(spec_op_name(Operation::JNN).len() != spec_op_name(Operation::STORE_R_R).len());
            assert(spec_op_name(Operation::JNN).len() != spec_op_name(Operation::STORE_REL_R).len());
            assert(spec_op_name(Operation::JNN).len() != spec_op_name(Operation::STORE_IMM_R).len());
            assert(spec_op_name(Operation::JNN).len() != spec_op_name(Operation::STORE_R_IMM).len());
            assert(spec_op_name(Operation::JNN).len() != spec_op_name(Operation::STORE_REL_IMM).len());
            assert(spec_op_name(Operation::JNN).len() != spec_op_name(Operation::STORE_IMM_IMM).len());
            assert(spec_op_name(Operation::JNN)[0] != spec_op_name(Operation::ADD)[0]);
            assert(spec_op_name(Operation::JNN).len() != spec_op_name(Operation::ADD_IMM).len());
            assert(spec_op_name(Operation::JNN)[0] != spec_op_name(Operation::SUB)[0]);
            assert(spec_op_name(Operation::JNN).len() != spec_op_name(Operation::SUB_IMM).len());
            assert(spec_op_name(Operation::JNN)[0] != spec_op_name(Operation::AND)[0]);
            assert(spec_op_name(Operation::JNN).len() != spec_op_name(Operation::AND_IMM).len());
            assert(spec_op_name(Operation::JNN).len() != spec_op_name(Operation::OR).len());
            assert(spec_op_name(Operation::JNN).len() != spec_op_name(Operation::OR_IMM).len());
            assert(spec_op_name(Operation::JNN)[0] != spec_op_name(Operation::XOR)[0]);
            assert(spec_op_name(Operation::JNN).len() != spec_op_name(Operation::XOR_IMM).len());
            assert(spec_op_name(Operation::JNN).len() != spec_op_name(Operation::DIV_MOD).len());
            assert(spec_op_name(Operation::JNN)[0] != spec_op_name(Operation::SHL)[0]);
            assert(spec_op_name(Operation::JNN).len() != spec_op_name(Operation::SHL_IMM).len());
            assert(spec_op_name(Operation::JNN)[0] != spec_op_name(Operation::SHR)[0]);
            assert(spec_op_name(Operation::JNN).len() != spec_op_name(Operation::SHR_IMM).len());
            assert(spec_op_name(Operation::JNN)[0] != spec_op_name(Operation::CMP)[0]);
            assert(spec_op_name(Operation::JNN).len() != spec_op_name(Operation::CMP_IMM).len());
            assert(spec_op_name(Operation::JNN).len() != spec_op_name(Operation::PUSH).len());
            assert(spec_op_name(Operation::JNN).len() != spec_op_name(Operation::PUSH_M).len());
            assert(spec_op_name(Operation::JNN).len() != spec_op_name(Operation::PUSH_IMM).len());
            assert(spec_op_name(Operation::JNN)[0] != spec_op_name(Operation::POP)[0]);
            assert(spec_op_name(Operation::JNN).len() != spec_op_name(Operation::POP_M).len());
            assert(spec_op_name(Operation::JNN).len() != spec_op_name(Operation::POP_IMM).len());
            assert(spec_op_name(Operation::JNN)[1] != spec_op_name(Operation::JMP)[1]);
            assert(spec_op_name(Operation::JNN).len() != spec_op_name(Operation::JZ).len());
            assert(spec_op_name(Operation::JNN)[2] != spec_op_name(Operation::JNZ)[2]);
            assert(spec_op_name(Operation::JNN).len() != spec_op_name(Operation::JA).len());
            assert(spec_op_name(Operation::JNN).len() != spec_op_name(Operation::JB).len());
            assert(spec_op_name(Operation::JNN)[1] != spec_op_name(Operation::JAE)[1]);
            assert(spec_op_name(Operation::JNN)[1] != spec_op_name(Operation::JBE)[1]);
            assert(spec_op_name(Operation::JNN).len() != spec_op_name(Operation::JN).len());
        },
        Operation::JO => {
            assert(spec_op_name(Operation::JO).len() != spec_op_name(Operation::HALT).len());
            assert(spec_op_name(Operation::JO).len() != spec_op_name(Operation::NOP).len());
            assert(spec_op_name(Operation::JO).len() != spec_op_name(Operation::MOV).len());
            assert(spec_op_name(Operation::JO).len() != spec_op_name(Operation::MOV_IMM).len());
            assert(spec_op_name(Operation::JO).len() != spec_op_name(Operation::LOAD).len());
            assert(spec_op_name(Operation::JO).len() != spec_op_name(Operation::LOAD_REL).len());
            assert(spec_op_name(Operation::JO).len() != spec_op_name(Operation::LOAD_IMM).len());
            assert(spec_op_name(Operation::JO).len() != spec_op_name(Operation::STORE_R_R).len());
            assert(spec_op_name(Operation::JO).len() != spec_op_name(Operation::STORE_REL_R).len());
            assert(spec_op_name(Operation::JO).len() != spec_op_name(Operation::STORE_IMM_R).len());
            assert(spec_op_name(Operation::JO).len() != spec_op_name(Operation::STORE_R_IMM).len());
            assert(spec_op_name(Operation::JO).len() != spec_op_name(Operation::STORE_REL_IMM).len());
            assert(spec_op_name(Operation::JO).len() != spec_op_name(Operation::STORE_IMM_IMM).len());
            assert(spec_op_name(Operation::JO).len() != spec_op_name(Operation::ADD).len());
            assert(spec_op_name(Operation::JO).len() != spec_op_name(Operation::ADD_IMM).len());
            assert(spec_op_name(Operation::JO).len() != spec_op_name(Operation::SUB).len());
            assert(spec_op_name(Operation::JO).len() != spec_op_name(Operation::SUB_IMM).len());
            assert(spec_op_name(Operation::JO).len() != spec_op_name(Operation::AND).len());
            assert(spec_op_name(Operation::JO).len() != spec_op_name(Operation::AND_IMM).len());
            assert(spec_op_name(Operation::JO)[0] != spec_op_name(Operation::OR)[0]);
            assert(spec_op_name(Operation::JO).len() != spec_op_name(Operation::OR_IMM).len());
            assert(spec_op_name(Operation::JO).len() != spec_op_name(Operation::XOR).len());
            assert(spec_op_name(Operation::JO).len() != spec_op_name(Operation::XOR_IMM).len());
            assert(spec_op_name(Operation::JO).len() != spec_op_name(Operation::DIV_MOD).len());
            assert(spec_op_name(Operation::JO).len() != spec_op_name(Operation::SHL).len());
            assert(spec_op_name(Operation::JO).len() != spec_op_name(Operation::SHL_IMM).len());
            assert(spec_op_name(Operation::JO).len() != spec_op_name(Operation::SHR).len());
            assert(spec_op_name(Operation::JO).len() != spec_op_name(Operation::SHR_IMM).len());
            assert(spec_op_name(Operation::JO).len() != spec_op_name(Operation::CMP).len());
            assert(spec_op_name(Operation::JO).len() != spec_op_name(Operation::CMP_IMM).len());
            assert(spec_op_name(Operation::JO).len() != spec_op_name(Operation::PUSH).len());
            assert(spec_op_name(Operation::JO).len() != spec_op_name(Operation::PUSH_M).len());
            assert(spec_op_name(Operation::JO).len() != spec_op_name(Operation::PUSH_IMM).len());
            assert(spec_op_name(Operation::JO).len() != spec_op_name(Operation::POP).len());
            assert(spec_op_name(Operation::JO).len() != spec_op_name(Operation::POP_M).len());
            assert(spec_op_name(Operation::JO).len() != spec_op_name(Operation::POP_IMM).len());
            assert(spec_op_name(Operation::JO).len() != spec_op_name(Operation::JMP).len());
            assert(spec_op_name(Operation::JO)[1] != spec_op_name(Operation::JZ)[1]);
            assert(spec_op_name(Operation::JO).len() != spec_op_name(Operation::JNZ).len());
            assert(spec_op_name(Operation::JO)[1] != spec_op_name(Operation::JA)[1]);
            assert(spec_op_name(Operation::JO)[1] != spec_op_name(Operation::JB)[1]);
            assert(spec_op_name(Operation::JO).len() != spec_op_name(Operation::JAE).len());
            assert(spec_op_name(Operation::JO).len() != spec_op_name(Operation::JBE).len());
            assert(spec_op_name(Operation::JO)[1] != spec_op_name(Operation::JN)[1]);
            assert(spec_op_name(Operation::JO).len() != spec_op_name(Operation::JNN).len());
        },
        Operation::JNO => {
            assert(spec_op_name(Operation::JNO).len() != spec_op_name(Operation::HALT).len());
            assert(spec_op_name(Operation::JNO)[0] != spec_op_name(Operation::NOP)[0]);
            assert(spec_op_name(Operation::JNO)[0] != spec_op_name(Operation::MOV)[0]);
            assert(spec_op_name(Operation::JNO).len() != spec_op_name(Operation::MOV_IMM).len());
            assert(spec_op_name(Operation::JNO).len() != spec_op_name(Operation::LOAD).len());
            assert(spec_op_name(Operation::JNO).len() != spec_op_name(Operation::LOAD_REL).len());
            assert(spec_op_name(Operation::JNO).len() != spec_op_name(Operation::LOAD_IMM).len());
            assert(spec_op_name(Operation::JNO).len() != spec_op_name(Operation::STORE_R_R).len());
            assert(spec_op_name(Operation::JNO).len() != spec_op_name(Operation::STORE_REL_R).len());
            assert(spec_op_name(Operation::JNO).len() != spec_op_name(Operation::STORE_IMM_R).len());
            assert(spec_op_name(Operation::JNO).len() != spec_op_name(Operation::STORE_R_IMM).len());
            assert(spec_op_name(Operation::JNO).len() != spec_op_name(Operation::STORE_REL_IMM).len());
            assert(spec_op_name(Operation::JNO).len() != spec_op_name(Operation::STORE_IMM_IMM).len());
            assert(spec_op_name(Operation::JNO)[0] != spec_op_name(Operation::ADD)[0]);
            assert(spec_op_name(Operation::JNO).len() != spec_op_name(Operation::ADD_IMM).len());
            assert(spec_op_name(Operation::JNO)[0] != spec_op_name(Operation::SUB)[0]);
            assert(spec_op_name(Operation::JNO).len() != spec_op_name(Operation::SUB_IMM).len());
            assert(spec_op_name(Operation::JNO)[0] != spec_op_name(Operation::AND)[0]);
            assert(spec_op_name(Operation::JNO).len() != spec_op_name(Operation::AND_IMM).len());
            assert(spec_op_name(Operation::JNO).len() != spec_op_name(Operation::OR).len());
            assert(spec_op_name(Operation::JNO).len() != spec_op_name(Operation::OR_IMM).len());
            assert(spec_op_name(Operation::JNO)[0] != spec_op_name(Operation::XOR)[0]);
            assert(spec_op_name(Operation::JNO).len() != spec_op_name(Operation::XOR_IMM).len());
            assert(spec_op_name(Operation::JNO).len() != spec_op_name(Operation::DIV_MOD).len());
            assert(spec_op_name(Operation::JNO)[0] != spec_op_name(Operation::SHL)[0]);
            assert(spec_op_name(Operation::JNO).len() != spec_op_name(Operation::SHL_IMM).len());
            assert(spec_op_name(Operation::JNO)[0] != spec_op_name(Operation::SHR)[0]);
            assert(spec_op_name(Operation::JNO).len() != spec_op_name(Operation::SHR_IMM).len());
            assert(spec_op_name(Operation::JNO)[0] != spec_op_name(Operation::CMP)[0]);
            assert(spec_op_name(Operation::JNO).len() != spec_op_name(Operation::CMP_IMM).len());
            assert(spec_op_name(Operation::JNO).len() != spec_op_name(Operation::PUSH).len());
            assert(spec_op_name(Operation::JNO).len() != spec_op_name(Operation::PUSH_M).len());
            assert(spec_op_name(Operation::JNO).len() != spec_op_name(Operation::PUSH_IMM).len());
            assert(spec_op_name(Operation::JNO)[0] != spec_op_name(Operation::POP)[0]);
            assert(spec_op_name(Operation::JNO).len() != spec_op_name(Operation::POP_M).len());
            assert(spec_op_name(Operation::JNO).len() != spec_op_name(Operation::POP_IMM).len());
            assert(spec_op_name(Operation::JNO)[1] != spec_op_name(Operation::JMP)[1]);
            assert(spec_op_name(Operation::JNO).len() != spec_op_name(Operation::JZ).len());
            assert(spec_op_name(Operation::JNO)[2] != spec_op_name(Operation::JNZ)[2]);
            assert(spec_op_name(Operation::JNO).len() != spec_op_name(Operation::JA).len());
            assert(spec_op_name(Operation::JNO).len() != spec_op_name(Operation::JB).len());
            assert(spec_op_name(Operation::JNO)[1] != spec_op_name(Operation::JAE)[1]);
            assert(spec_op_name(Operation::JNO)[1] != spec_op_name(Operation::JBE)[1]);
            assert(spec_op_name(Operation::JNO).len() != spec_op_name(Operation::JN).len());
            assert(spec_op_name(Operation::JNO)[2] != spec_op_name(Operation::JNN)[2]);
            assert(spec_op_name(Operation::JNO).len() != spec_op_name(Operation::JO).len());
        },
        Operation::JC => {
            assert(spec_op_name(Operation::JC).len() != spec_op_name(Operation::HALT).len());
            assert(spec_op_name(Operation::JC).len() != spec_op_name(Operation::NOP).len());
            assert(spec_op_name(Operation::JC).len() != spec_op_name(Operation::MOV).len());
            assert(spec_op_name(Operation::JC).len() != spec_op_name(Operation::MOV_IMM).len());
            assert(spec_op_name(Operation::JC).len() != spec_op_name(Operation::LOAD).len());
            assert(spec_op_name(Operation::JC).len() != spec_op_name(Operation::LOAD_REL).len());
            assert(spec_op_name(Operation::JC).len() != spec_op_name(Operation::LOAD_IMM).len());
            assert(spec_op_name(Operation::JC).len() != spec_op_name(Operation::STORE_R_R).len());
            assert(spec_op_name(Operation::JC).len() != spec_op_name(Operation::STORE_REL_R).len());
            assert(spec_op_name(Operation::JC).len() != spec_op_name(Operation::STORE_IMM_R).len());
            assert(spec_op_name(Operation::JC).len() != spec_op_name(Operation::STORE_R_IMM).len());
            assert(spec_op_name(Operation::JC).len() != spec_op_name(Operation::STORE_REL_IMM).len());
            assert(spec_op_name(Operation::JC).len() != spec_op_name(Operation::STORE_IMM_IMM).len());
            assert(spec_op_name(Operation::JC).len() != spec_op_name(Operation::ADD).len());
            assert(spec_op_name(Operation::JC).len() != spec_op_name(Operation::ADD_IMM).len());
            assert(spec_op_name(Operation::JC).len() != spec_op_name(Operation::SUB).len());
            assert(spec_op_name(Operation::JC).len() != spec_op_name(Operation::SUB_IMM).len());
            assert(spec_op_name(Operation::JC).len() != spec_op_name(Operation::AND).len());
            assert(spec_op_name(Operation::JC).len() != spec_op_name(Operation::AND_IMM).len());
            assert(spec_op_name(Operation::JC)[0] != spec_op_name(Operation::OR)[0]);
            assert(spec_op_name(Operation::JC).len() != spec_op_name(Operation::OR_IMM).len());
            assert(spec_op_name(Operation::JC).len() != spec_op_name(Operation::XOR).len());
            assert(spec_op_name(Operation::JC).len() != spec_op_name(Operation::XOR_IMM).len());
            assert(spec_op_name(Operation::JC).len() != spec_op_name(Operation::DIV_MOD).len());
            assert(spec_op_name(Operation::JC).len() != spec_op_name(Operation::SHL).len());
            assert(spec_op_name(Operation::JC).len() != spec_op_name(Operation::SHL_IMM).len());
            assert(spec_op_name(Operation::JC).len() != spec_op_name(Operation::SHR).len());
            assert(spec_op_name(Operation::JC).len() != spec_op_name(Operation::SHR_IMM).len());
            assert(spec_op_name(Operation::JC).len() != spec_op_name(Operation::CMP).len());
            assert(spec_op_name(Operation::JC).len() != spec_op_name(Operation::CMP_IMM).len());
            assert(spec_op_name(Operation::JC).len() != spec_op_name(Operation::PUSH).len());
            assert(spec_op_name(Operation::JC).len() != spec_op_name(Operation::PUSH_M).len());
            assert(spec_op_name(Operation::JC).len() != spec_op_name(Operation::PUSH_IMM).len());
            assert(spec_op_name(Operation::JC).len() != spec_op_name(Operation::POP).len());
            assert(spec_op_name(Operation::JC).len() != spec_op_name(Operation::POP_M).len());
            assert(spec_op_name(Operation::JC).len() != spec_op_name(Operation::POP_IMM).len());
            assert(spec_op_name(Operation::JC).len() != spec_op_name(Operation::JMP).len());
            assert(spec_op_name(Operation::JC)[1] != spec_op_name(Operation::JZ)[1]);
            assert(spec_op_name(Operation::JC).len() != spec_op_name(Operation::JNZ).len());
            assert(spec_op_name(Operation::JC)[1] != spec_op_name(Operation::JA)[1]);
            assert(spec_op_name(Operation::JC)[1] != spec_op_name(Operation::JB)[1]);
            assert(spec_op_name(Operation::JC).len() != spec_op_name(Operation::JAE).len());
            assert(spec_op_name(Operation::JC).len() != spec_op_name(Operation::JBE).len());
            assert(spec_op_name(Operation::JC)[1] != spec_op_name(Operation::JN)[1]);
            assert(spec_op_name(Operation::JC).len() != spec_op_name(Operation::JNN).len());
            assert(spec_op_name(Operation::JC)[1] != spec_op_name(Operation::JO)[1]);
            assert(spec_op_name(Operation::JC).len() != spec_op_name(Operation::JNO).len());
        },
        Operation::JNC => {
            assert(spec_op_name(Operation::JNC).len() != spec_op_name(Operation::HALT).len());
            assert(spec_op_name(Operation::JNC)[0] != spec_op_name(Operation::NOP)[0]);
            assert(spec_op_name(Operation::JNC)[0] != spec_op_name(Operation::MOV)[0]);
            assert(spec_op_name(Operation::JNC).len() != spec_op_name(Operation::MOV_IMM).len());
            assert(spec_op_name(Operation::JNC).len() != spec_op_name(Operation::LOAD).len());
            assert(spec_op_name(Operation::JNC).len() != spec_op_name(Operation::LOAD_REL).len());
            assert(spec_op_name(Operation::JNC).len() != spec_op_name(Operation::LOAD_IMM).len());
            assert(spec_op_name(Operation::JNC).len() != spec_op_name(Operation::STORE_R_R).len());
            assert(spec_op_name(Operation::JNC).len() != spec_op_name(Operation::STORE_REL_R).len());
            assert(spec_op_name(Operation::JNC).len() != spec_op_name(Operation::STORE_IMM_R).len());
            assert(spec_op_name(Operation::JNC).len() != spec_op_name(Operation::STORE_R_IMM).len());
            assert(spec_op_name(Operation::JNC).len() != spec_op_name(Operation::STORE_REL_IMM).len());
            assert(spec_op_name(Operation::JNC).len() != spec_op_name(Operation::STORE_IMM_IMM).len());
            assert(spec_op_name(Operation::JNC)[0] != spec_op_name(Operation::ADD)[0]);
            assert(spec_op_name(Operation::JNC).len() != spec_op_name(Operation::ADD_IMM).len());
            assert(spec_op_name(Operation::JNC)[0] != spec_op_name(Operation::SUB)[0]);
            assert(spec_op_name(Operation::JNC).len() != spec_op_name(Operation::SUB_IMM).len());
            assert(spec_op_name(Operation::JNC)[0] != spec_op_name(Operation::AND)[0]);
            assert(spec_op_name(Operation::JNC).len() != spec_op_name(Operation::AND_IMM).len());
            assert(spec_op_name(Operation::JNC).len() != spec_op_name(Operation::OR).len());
            assert(spec_op_name(Operation::JNC).len() != spec_op_name(Operation::OR_IMM).len());
            assert(spec_op_name(Operation::JNC)[0] != spec_op_name(Operation::XOR)[0]);
            assert(spec_op_name(Operation::JNC).len() != spec_op_name(Operation::XOR_IMM).len());
            assert(spec_op_name(Operation::JNC).len() != spec_op_name(Operation::DIV_MOD).len());
            assert(spec_op_name(Operation::JNC)[0] != spec_op_name(Operation::SHL)[0]);
            assert(spec_op_name(Operation::JNC).len() != spec_op_name(Operation::SHL_IMM).len());
            assert(spec_op_name(Operation::JNC)[0] != spec_op_name(Operation::SHR)[0]);
            assert(spec_op_name(Operation::JNC).len() != spec_op_name(Operation::SHR_IMM).len());
            assert(spec_op_name(Operation::JNC)[0] != spec_op_name(Operation::CMP)[0]);
            assert(spec_op_name(Operation::JNC).len() != spec_op_name(Operation::CMP_IMM).len());
            assert(spec_op_name(Operation::JNC).len() != spec_op_name(Operation::PUSH).len());
            assert(spec_op_name(Operation::JNC).len() != spec_op_name(Operation::PUSH_M).len());
            assert(spec_op_name(Operation::JNC).len() != spec_op_name(Operation::PUSH_IMM).len());
            assert(spec_op_name(Operation::JNC)[0] != spec_op_name(Operation::POP)[0]);
            assert(spec_op_name(Operation::JNC).len() != spec_op_name(Operation::POP_M).len());
            assert(spec_op_name(Operation::JNC).len() != spec_op_name(Operation::POP_IMM).len());
            assert(spec_op_name(Operation::JNC)[1] != spec_op_name(Operation::JMP)[1]);
            assert(spec_op_name(Operation::JNC).len() != spec_op_name(Operation::JZ).len());
            assert(spec_op_name(Operation::JNC)[2] != spec_op_name(Operation::JNZ)[2]);
            assert(spec_op_name(Operation::JNC).len() != spec_op_name(Operation::JA).len());
            assert(spec_op_name(Operation::JNC).len() != spec_op_name(Operation::JB).len());
            assert(spec_op_name(Operation::JNC)[1] != spec_op_name(Operation::JAE)[1]);
            assert(spec_op_name(Operation::JNC)[1] != spec_op_name(Operation::JBE)[1]);
            assert(spec_op_name(Operation::JNC).len() != spec_op_name(Operation::JN).len());
            assert(spec_op_name(Operation::JNC)[2] != spec_op_name(Operation::JNN)[2]);
            assert(spec_op_name(Operation::JNC).len() != spec_op_name(Operation::JO).len());
            assert(spec_op_name(Operation::JNC)[2] != spec_op_name(Operation::JNO)[2]);
            assert(spec_op_name(Operation::JNC).len() != spec_op_name(Operation::JC).len());
        },
        Operation::CALL => {
            assert(spec_op_name(Operation::CALL)[0] != spec_op_name(Operation::HALT)[0]);
            assert(spec_op_name(Operation::CALL).len() != spec_op_name(Operation::NOP).len());
            assert(spec_op_name(Operation::CALL).len() != spec_op_name(Operation::MOV).len());
            assert(spec_op_name(Operation::CALL).len() != spec_op_name(Operation::MOV_IMM).len());
            assert(spec_op_name(Operation::CALL)[0] != spec_op_name(Operation::LOAD)[0]);
            assert(spec_op_name(Operation::CALL).len() != spec_op_name(Operation::LOAD_REL).len());
            assert(spec_op_name(Operation::CALL).len() != spec_op_name(Operation::LOAD_IMM).len());
            assert(spec_op_name(Operation::CALL).len() != spec_op_name(Operation::STORE_R_R).len());
            assert(spec_op_name(Operation::CALL).len() != spec_op_name(Operation::STORE_REL_R).len());
            assert(spec_op_name(Operation::CALL).len() != spec_op_name(Operation::STORE_IMM_R).len());
            assert(spec_op_name(Operation::CALL).len() != spec_op_name(Operation::STORE_R_IMM).len());
            assert(spec_op_name(Operation::CALL).len() != spec_op_name(Operation::STORE_REL_IMM).len());
            assert(spec_op_name(Operation::CALL).len() != spec_op_name(Operation::STORE_IMM_IMM).len());
            assert(spec_op_name(Operation::CALL).len() != spec_op_name(Operation::ADD).len());
            assert(spec_op_name(Operation::CALL).len() != spec_op_name(Operation::ADD_IMM).len());
            assert(spec_op_name(Operation::CALL).len() != spec_op_name(Operation::SUB).len());
            assert(spec_op_name(Operation::CALL).len() != spec_op_name(Operation::SUB_IMM).len());
            assert(spec_op_name(Operation::CALL).len() != spec_op_name(Operation::AND).len());
            assert(spec_op_name(Operation::CALL).len() != spec_op_name(Operation::AND_IMM).len());
            assert(spec_op_name(Operation::CALL).len() != spec_op_name(Operation::OR).len());
            assert(spec_op_name(Operation::CALL).len() != spec_op_name(Operation::OR_IMM).len());
            assert(spec_op_name(Operation::CALL).len() != spec_op_name(Operation::XOR).len());
            assert(spec_op_name(Operation::CALL).len() != spec_op_name(Operation::XOR_IMM).len());
            assert(spec_op_name(Operation::CALL).len() != spec_op_name(Operation::DIV_MOD).len());
            assert(spec_op_name(Operation::CALL).len() != spec_op_name(Operation::SHL).len());
            assert(spec_op_name(Operation::CALL).len() != spec_op_name(Operation::SHL_IMM).len());
            assert(spec_op_name(Operation::CALL).len() != spec_op_name(Operation::SHR).len());
            assert(spec_op_name(Operation::CALL).len() != spec_op_name(Operation::SHR_IMM).len());
            assert(spec_op_name(Operation::CALL).len() != spec_op_name(Operation::CMP).len());
            assert(spec_op_name(Operation::CALL).len() != spec_op_name(Operation::CMP_IMM).len());
            assert(spec_op_name(Operation::CALL)[0] != spec_op_name(Operation::PUSH)[0]);
            assert(spec_op_name(Operation::CALL).len() != spec_op_name(Operation::PUSH_M).len());
            assert(spec_op_name(Operation::CALL).len() != spec_op_name(Operation::PUSH_IMM).len());
            assert(spec_op_name(Operation::CALL).len() != spec_op_name(Operation::POP).len());
            assert(spec_op_name(Operation::CALL).len() != spec_op_name(Operation::POP_M).len());
            assert(spec_op_name(Operation::CALL).len() != spec_op_name(Operation::POP_IMM).len());
            assert(spec_op_name(Operation::CALL).len() != spec_op_name(Operation::JMP).len());
            assert(spec_op_name(Operation::CALL).len() != spec_op_name(Operation::JZ).len());
            assert(spec_op_name(Operation::CALL).len() != spec_op_name(Operation::JNZ).len());
            assert(spec_op_name(Operation::CALL).len() != spec_op_name(Operation::JA).len());
            assert(spec_op_name(Operation::CALL).len() != spec_op_name(Operation::JB).len());
            assert(spec_op_name(Operation::CALL).len() != spec_op_name(Operation::JAE).len());
            assert(spec_op_name(Operation::CALL).len() != spec_op_name(Operation::JBE).len());
            assert(spec_op_name(Operation::CALL).len() != spec_op_name(Operation::JN).len());
            assert(spec_op_name(Operation::CALL).len() != spec_op_name(Operation::JNN).len());
            assert(spec_op_name(Operation::CALL).len() != spec_op_name(Operation::JO).len());
            assert(spec_op_name(Operation::CALL).len() != spec_op_name(Operation::JNO).len());
            assert(spec_op_name(Operation::CALL).len() != spec_op_name(Operation::JC).len());
            assert(spec_op_name(Operation::CALL).len() != spec_op_name(Operation::JNC).len());
        },
        Operation::RET => {
            assert(spec_op_name(Operation::RET).len() != spec_op_name(Operation::HALT).len());
            assert(spec_op_name(Operation::RET)[0] != spec_op_name(Operation::NOP)[0]);
            assert(spec_op_name(Operation::RET)[0] != spec_op_name(Operation::MOV)[0]);
            assert(spec_op_name(Operation::RET).len() != spec_op_name(Operation::MOV_IMM).len());
            assert(spec_op_name(Operation::RET).len() != spec_op_name(Operation::LOAD).len());
            assert(spec_op_name(Operation::RET).len() != spec_op_name(Operation::LOAD_REL).len());
            assert(spec_op_name(Operation::RET).len() != spec_op_name(Operation::LOAD_IMM).len());
            assert(spec_op_name(Operation::RET).len() != spec_op_name(Operation::STORE_R_R).len());
            assert(spec_op_name(Operation::RET).len() != spec_op_name(Operation::STORE_REL_R).len());
            assert(spec_op_name(Operation::RET).len() != spec_op_name(Operation::STORE_IMM_R).len());
            assert(spec_op_name(Operation::RET).len() != spec_op_name(Operation::STORE_R_IMM).len());
            assert(spec_op_name(Operation::RET).len() != spec_op_name(Operation::STORE_REL_IMM).len());
            assert(spec_op_name(Operation::RET).len() != spec_op_name(Operation::STORE_IMM_IMM).len());
            assert(spec_op_name(Operation::RET)[0] != spec_op_name(Operation::ADD)[0]);
            assert(spec_op_name(Operation::RET).len() != spec_op_name(Operation::ADD_IMM).len());
            assert(spec_op_name(Operation::RET)[0] != spec_op_name(Operation::SUB)[0]);
            assert(spec_op_name(Operation::RET).len() != spec_op_name(Operation::SUB_IMM).len());
            assert(spec_op_name(Operation::RET)[0] != spec_op_name(Operation::AND)[0]);
            assert(spec_op_name(Operation::RET).len() != spec_op_name(Operation::AND_IMM).len());
            assert(spec_op_name(Operation::RET).len() != spec_op_name(Operation::OR).len());
            assert(spec_op_name(Operation::RET).len() != spec_op_name(Operation::OR_IMM).len());
            assert(spec_op_name(Operation::RET)[0] != spec_op_name(Operation::XOR)[0]);
            assert(spec_op_name(Operation::RET).len() != spec_op_name(Operation::XOR_IMM).len());
            assert(spec_op_name(Operation::RET).len() != spec_op_name(Operation::DIV_MOD).len());
            assert(spec_op_name(Operation::RET)[0] != spec_op_name(Operation::SHL)[0]);
            assert(spec_op_name(Operation::RET).len() != spec_op_name(Operation::SHL_IMM).len());
            assert(spec_op_name(Operation::RET)[0] != spec_op_name(Operation::SHR)[0]);
            assert(spec_op_name(Operation::RET).len() != spec_op_name(Operation::SHR_IMM).len());
            assert(spec_op_name(Operation::RET)[0] != spec_op_name(Operation::CMP)[0]);
            assert(spec_op_name(Operation::RET).len() != spec_op_name(Operation::CMP_IMM).len());
            assert(spec_op_name(Operation::RET).len() != spec_op_name(Operation::PUSH).len());
            assert(spec_op_name(Operation::RET).len() != spec_op_name(Operation::PUSH_M).len());
            assert(spec_op_name(Operation::RET).len() != spec_op_name(Operation::PUSH_IMM).len());
            assert(spec_op_name(Operation::RET)[0] != spec_op_name(Operation::POP)[0]);
            assert(spec_op_name(Operation::RET).len() != spec_op_name(Operation::POP_M).len());
            assert(spec_op_name(Operation::RET).len() != spec_op_name(Operation::POP_IMM).len());
            assert(spec_op_name(Operation::RET)[0] != spec_op_name(Operation::JMP)[0]);
            assert(spec_op_name(Operation::RET).len() != spec_op_name(Operation::JZ).len());
            assert(spec_op_name(Operation::RET)[0] != spec_op_name(Operation::JNZ)[0]);
            assert(spec_op_name(Operation::RET).len() != spec_op_name(Operation::JA).len());
            assert(spec_op_name(Operation::RET).len() != spec_op_name(Operation::JB).len());
            assert(spec_op_name(Operation::RET)[0] != spec_op_name(Operation::JAE)[0]);
            assert(spec_op_name(Operation::RET)[0] != spec_op_name(Operation::JBE)[0]);
            assert(spec_op_name(Operation::RET).len() != spec_op_name(Operation::JN).len());
            assert(spec_op_name(Operation::RET)[0] != spec_op_name(Operation::JNN)[0]);
            assert(spec_op_name(Operation::RET).len() != spec_op_name(Operation::JO).len());
            assert(spec_op_name(Operation::RET)[0] != spec_op_name(Operation::JNO)[0]);
            assert(spec_op_name(Operation::RET).len() != spec_op_name(Operation::JC).len());
            assert(spec_op_name(Operation::RET)[0] != spec_op_name(Operation::JNC)[0]);
            assert(spec_op_name(Operation::RET).len() != spec_op_name(Operation::CALL).len());
        },
        Operation::SYSCALL => {
            assert(spec_op_name(Operation::SYSCALL).len() != spec_op_name(Operation::HALT).len());
            assert(spec_op_name(Operation::SYSCALL).len() != spec_op_name(Operation::NOP).len());
            assert(spec_op_name(Operation::SYSCALL).len() != spec_op_name(Operation::MOV).len());
            assert(spec_op_name(Operation::SYSCALL)[0] != spec_op_name(Operation::MOV_IMM)[0]);
            assert(spec_op_name(Operation::SYSCALL).len() != spec_op_name(Operation::LOAD).len());
            assert(spec_op_name(Operation::SYSCALL).len() != spec_op_name(Operation::LOAD_REL).len());
            assert(spec_op_name(Operation::SYSCALL).len() != spec_op_name(Operation::LOAD_IMM).len());
            assert(spec_op_name(Operation::SYSCALL).len() != spec_op_name(Operation::STORE_R_R).len());
            assert(spec_op_name(Operation::SYSCALL).len() != spec_op_name(Operation::STORE_REL_R).len());
            assert(spec_op_name(Operation::SYSCALL).len() != spec_op_name(Operation::STORE_IMM_R).len());
            assert(spec_op_name(Operation::SYSCALL).len() != spec_op_name(Operation::STORE_R_IMM).len());
            assert(spec_op_name(Operation::SYSCALL).len() != spec_op_name(Operation::STORE_REL_IMM).len());
            assert(spec_op_name(Operation::SYSCALL).len() != spec_op_name(Operation::STORE_IMM_IMM).len());
            assert(spec_op_name(Operation::SYSCALL).len() != spec_op_name(Operation::ADD).len());
            assert(spec_op_name(Operation::SYSCALL)[0] != spec_op_name(Operation::ADD_IMM)[0]);
            assert(spec_op_name(Operation::SYSCALL).len() != spec_op_name(Operation::SUB).len());
            assert(spec_op_name(Operation::SYSCALL)[1] != spec_op_name(Operation::SUB_IMM)[1]);
            assert(spec_op_name(Operation::SYSCALL).len() != spec_op_name(Operation::AND).len());
            assert(spec_op_name(Operation::SYSCALL)[0] != spec_op_name(Operation::AND_IMM)[0]);
            assert(spec_op_name(Operation::SYSCALL).len() != spec_op_name(Operation::OR).len());
            assert(spec_op_name(Operation::SYSCALL).len() != spec_op_name(Operation::OR_IMM).len());
            assert(spec_op_name(Operation::SYSCALL).len() != spec_op_name(Operation::XOR).len());
            assert(spec_op_name(Operation::SYSCALL)[0] != spec_op_name(Operation::XOR_IMM)[0]);
            assert(spec_op_name(Operation::SYSCALL)[0] != spec_op_name(Operation::DIV_MOD)[0]);
            assert(spec_op_name(Operation::SYSCALL).len() != spec_op_name(Operation::SHL).len());
            assert(spec_op_name(Operation::SYSCALL)[1] != spec_op_name(Operation::SHL_IMM)[1]);
            assert(spec_op_name(Operation::SYSCALL).len() != spec_op_name(Operation::SHR).len());
            assert(spec_op_name(Operation::SYSCALL)[1] != spec_op_name(Operation::SHR_IMM)[1]);
            assert(spec_op_name(Operation::SYSCALL).len() != spec_op_name(Operation::CMP).len());
            assert(spec_op_name(Operation::SYSCALL)[0] != spec_op_name(Operation::CMP_IMM)[0]);
            assert(spec_op_name(Operation::SYSCALL).len() != spec_op_name(Operation::PUSH).len());
            assert(spec_op_name(Operation::SYSCALL).len() != spec_op_name(Operation::PUSH_M).len());
            assert(spec_op_name(Operation::SYSCALL).len() != spec_op_name(Operation::PUSH_IMM).len());
            assert(spec_op_name(Operation::SYSCALL).len() != spec_op_name(Operation::POP).len());
            assert(spec_op_name(Operation::SYSCALL).len() != spec_op_name(Operation::POP_M).len());
            assert(spec_op_name(Operation::SYSCALL)[0] != spec_op_name(Operation::POP_IMM)[0]);
            assert(spec_op_name(Operation::SYSCALL).len() != spec_op_name(Operation::JMP).len());
            assert(spec_op_name(Operation::SYSCALL).len() != spec_op_name(Operation::JZ).len());
            assert(spec_op_name(Operation::SYSCALL).len() != spec_op_name(Operation::JNZ).len());
            assert(spec_op_name(Operation::SYSCALL).len() != spec_op_name(Operation::JA).len());
            assert(spec_op_name(Operation::SYSCALL).len() != spec_op_name(Operation::JB).len());
            assert(spec_op_name(Operation::SYSCALL).len() != spec_op_name(Operation::JAE).len());
            assert(spec_op_name(Operation::SYSCALL).len() != spec_op_name(Operation::JBE).len());
            assert(spec_op_name(Operation::SYSCALL).len() != spec_op_name(Operation::JN).len());
            assert(spec_op_name(Operation::SYSCALL).len() != spec_op_name(Operation::JNN).len());
            assert(spec_op_name(Operation::SYSCALL).len() != spec_op_name(Operation::JO).len());
            assert(spec_op_name(Operation::SYSCALL).len() != spec_op_name(Operation::JNO).len());
            assert(spec_op_name(Operation::SYSCALL).len() != spec_op_name(Operation::JC).len());
            assert(spec_op_name(Operation::SYSCALL).len() != spec_op_name(Operation::JNC).len());
            assert(spec_op_name(Operation::SYSCALL).len() != spec_op_name(Operation::CALL).len());
            assert(spec_op_name(Operation::SYSCALL).len() != spec_op_name(Operation::RET).len());
        },
    }
}

/// A bit of the flags register.
#[derive(Debug, Clone, Copy, PartialEq, Eq, Structural)]
pub enum Flags {
    Equals,
    Negative,
    Overflow,
    Carry,
}

/// The mask of a flag in the flags register.
pub open spec fn spec_flag_bits(f: Flags) -> u16 {
    match f {
        Flags::Equals => 0b0001,
        Flags::Negative => 0b0010,
        Flags::Overflow => 0b0100,
        Flags::Carry => 0b1000,
    }
}

impl Flags {
    /// The mask of this flag in the flags register.
    pub fn bits(self) -> (r: u16)
        ensures
            r == spec_flag_bits(self),
    {
        match self {
            Flags::Equals => 0b0001,
            Flags::Negative => 0b0010,
            Flags::Overflow => 0b0100,
            Flags::Carry => 0b1000,
        }
    }
}

} // verus!
