//! A simpler virtual machine with an `equal` flag in place of the flags register: registers
//! `R1`..`R16` and `RSP`, a 3-byte image header, and no subroutine calls.
use vstd::prelude::*;
use vstd::slice::{slice_subrange, slice_to_vec};

verus! {

/// A register of the simple machine: `R1`..`R16`, then the stack pointer `RSP`.
#[derive(Debug, Clone, Copy, PartialEq, Eq, Structural)]
pub enum Register {
    R1,
    R2,
    R3,
    R4,
    R5,
    R6,
    R7,
    R8,
    R9,
    R10,
    R11,
    R12,
    R13,
    R14,
    R15,
    R16,
    RSP,
}

/// The register that a byte names, if any.
pub open spec fn spec_register_from_u8(b: u8) -> Option<Register> {
    match b {
        0 => Some(Register::R1),
        1 => Some(Register::R2),
        2 => Some(Register::R3),
        3 => Some(Register::R4),
        4 => Some(Register::R5),
        5 => Some(Register::R6),
        6 => Some(Register::R7),
        7 => Some(Register::R8),
        8 => Some(Register::R9),
        9 => Some(Register::R10),
        10 => Some(Register::R11),
        11 => Some(Register::R12),
        12 => Some(Register::R13),
        13 => Some(Register::R14),
        14 => Some(Register::R15),
        15 => Some(Register::R16),
        16 => Some(Register::RSP),
        _ => None,
    }
}

/// The byte that names a register.
pub open spec fn spec_register_index(r: Register) -> u8 {
    match r {
        Register::R1 => 0,
        Register::R2 => 1,
        Register::R3 => 2,
        Register::R4 => 3,
        Register::R5 => 4,
        Register::R6 => 5,
        Register::R7 => 6,
        Register::R8 => 7,
        Register::R9 => 8,
        Register::R10 => 9,
        Register::R11 => 10,
        Register::R12 => 11,
        Register::R13 => 12,
        Register::R14 => 13,
        Register::R15 => 14,
        Register::R16 => 15,
        Register::RSP => 16,
    }
}

impl Register {
    /// The register that byte `b` names: bytes 0 to 15 name `R1` to `R16`, byte 16 `RSP`.
    pub fn from_u8(b: u8) -> (r: Option<Register>)
        ensures
            r == spec_register_from_u8(b),
    {
        match b {
            0 => Some(Register::R1),
            1 => Some(Register::R2),
            2 => Some(Register::R3),
            3 => Some(Register::R4),
            4 => Some(Register::R5),
            5 => Some(Register::R6),
            6 => Some(Register::R7),
            7 => Some(Register::R8),
            8 => Some(Register::R9),
            9 => Some(Register::R10),
            10 => Some(Register::R11),
            11 => Some(Register::R12),
            12 => Some(Register::R13),
            13 => Some(Register::R14),
            14 => Some(Register::R15),
            15 => Some(Register::R16),
            16 => Some(Register::RSP),
            _ => None,
        }
    }

    /// The byte that names this register.
    pub fn index(self) -> (r: u8)
        ensures
            r == spec_register_index(self),
    {
        match self {
            Register::R1 => 0,
            Register::R2 => 1,
            Register::R3 => 2,
            Register::R4 => 3,
            Register::R5 => 4,
            Register::R6 => 5,
            Register::R7 => 6,
            Register::R8 => 7,
            Register::R9 => 8,
            Register::R10 => 9,
            Register::R11 => 10,
            Register::R12 => 11,
            Register::R13 => 12,
            Register::R14 => 13,
            Register::R15 => 14,
            Register::R16 => 15,
            Register::RSP => 16,
        }
    }
}

/// A register byte names a register exactly when it is at most 16, and then it is that
/// register's index.
pub proof fn lemma_register_bytes(b: u8)
    ensures
        spec_register_from_u8(b) is Some <==> b <= 16,
        spec_register_from_u8(b) matches Some(r) ==> spec_register_index(r) == b,
{
}

/// An operation of the simple machine.
#[allow(non_camel_case_types)]
#[derive(Debug, Clone, Copy, PartialEq, Eq, Structural)]
pub enum Operation {
    HALT,
    NOP,
    MOV,
    MOV_IMM,
    LOAD,
    LOAD_REL,
    LOAD_IMM,
    STORE_R_R,
    STORE_REL_R,
    STORE_IMM_R,
    STORE_R_IMM,
    STORE_REL_IMM,
    STORE_IMM_IMM,
    ADD,
    ADD_IMM,
    SUB,
    SUB_IMM,
    AND,
    AND_IMM,
    OR,
    OR_IMM,
    XOR,
    XOR_IMM,
    SHL,
    SHL_IMM,
    SHR,
    SHR_IMM,
    CMP,
    CMP_IMM,
    PUSH,
    PUSH_M,
    PUSH_IMM,
    POP,
    POP_M,
    POP_IMM,
    JMP,
    JMP_IMM,
    JE,
    JE_IMM,
    JNE,
    JNE_IMM,
    CALL,
    CALL_IMM,
    RET,
}

/// The shape of the operands that follow an opcode byte.
#[derive(Debug, Clone, Copy, PartialEq, Eq, Structural)]
pub enum Arguments {
    NoArgs,
    Reg,
    RegReg,
    RegImm,
    ImmImm,
    RegImmReg,
    ImmReg,
    Imm,
}

/// The opcode byte of an operation.
pub open spec fn spec_op_code(op: Operation) -> u8 {
    match op {
        Operation::HALT => 0x00,
        Operation::NOP => 0x01,
        Operation::MOV => 0x10,
        Operation::MOV_IMM => 0x11,
        Operation::LOAD => 0x20,
        Operation::LOAD_REL => 0x21,
        Operation::LOAD_IMM => 0x22,
        Operation::STORE_R_R => 0x30,
        Operation::STORE_REL_R => 0x31,
        Operation::STORE_IMM_R => 0x32,
        Operation::STORE_R_IMM => 0x33,
        Operation::STORE_REL_IMM => 0x34,
        Operation::STORE_IMM_IMM => 0x35,
        Operation::ADD => 0x40,
        Operation::ADD_IMM => 0x41,
        Operation::SUB => 0x42,
        Operation::SUB_IMM => 0x43,
        Operation::AND => 0x50,
        Operation::AND_IMM => 0x51,
        Operation::OR => 0x52,
        Operation::OR_IMM => 0x53,
        Operation::XOR => 0x54,
        Operation::XOR_IMM => 0x55,
        Operation::SHL => 0x70,
        Operation::SHL_IMM => 0x71,
        Operation::SHR => 0x72,
        Operation::SHR_IMM => 0x73,
        Operation::CMP => 0x80,
        Operation::CMP_IMM => 0x81,
        Operation::PUSH => 0x90,
        Operation::PUSH_M => 0x91,
        Operation::PUSH_IMM => 0x92,
        Operation::POP => 0xA0,
        Operation::POP_M => 0xA1,
        Operation::POP_IMM => 0xA2,
        Operation::JMP => 0xB0,
        Operation::JMP_IMM => 0xB1,
        Operation::JE => 0xB2,
        Operation::JE_IMM => 0xB3,
        Operation::JNE => 0xB6,
        Operation::JNE_IMM => 0xB7,
        Operation::CALL => 0xD0,
        Operation::CALL_IMM => 0xD1,
        Operation::RET => 0xD2,
    }
}

/// The operation that an opcode byte encodes, if any.
pub open spec fn spec_op_from_code(b: u8) -> Option<Operation> {
    match b {
        0x00 => Some(Operation::HALT),
        0x01 => Some(Operation::NOP),
        0x10 => Some(Operation::MOV),
        0x11 => Some(Operation::MOV_IMM),
        0x20 => Some(Operation::LOAD),
        0x21 => Some(Operation::LOAD_REL),
        0x22 => Some(Operation::LOAD_IMM),
        0x30 => Some(Operation::STORE_R_R),
        0x31 => Some(Operation::STORE_REL_R),
        0x32 => Some(Operation::STORE_IMM_R),
        0x33 => Some(Operation::STORE_R_IMM),
        0x34 => Some(Operation::STORE_REL_IMM),
        0x35 => Some(Operation::STORE_IMM_IMM),
        0x40 => Some(Operation::ADD),
        0x41 => Some(Operation::ADD_IMM),
        0x42 => Some(Operation::SUB),
        0x43 => Some(Operation::SUB_IMM),
        0x50 => Some(Operation::AND),
        0x51 => Some(Operation::AND_IMM),
        0x52 => Some(Operation::OR),
        0x53 => Some(Operation::OR_IMM),
        0x54 => Some(Operation::XOR),
        0x55 => Some(Operation::XOR_IMM),
        0x70 => Some(Operation::SHL),
        0x71 => Some(Operation::SHL_IMM),
        0x72 => Some(Operation::SHR),
        0x73 => Some(Operation::SHR_IMM),
        0x80 => Some(Operation::CMP),
        0x81 => Some(Operation::CMP_IMM),
        0x90 => Some(Operation::PUSH),
        0x91 => Some(Operation::PUSH_M),
        0x92 => Some(Operation::PUSH_IMM),
        0xA0 => Some(Operation::POP),
        0xA1 => Some(Operation::POP_M),
        0xA2 => Some(Operation::POP_IMM),
        0xB0 => Some(Operation::JMP),
        0xB1 => Some(Operation::JMP_IMM),
        0xB2 => Some(Operation::JE),
        0xB3 => Some(Operation::JE_IMM),
        0xB6 => Some(Operation::JNE),
        0xB7 => Some(Operation::JNE_IMM),
        0xD0 => Some(Operation::CALL),
        0xD1 => Some(Operation::CALL_IMM),
        0xD2 => Some(Operation::RET),
        _ => None,
    }
}

/// The operand shape of an operation: the `_IMM` forms of the stack, jump and call operations
/// take one two-byte immediate, their plain forms one register.
pub open spec fn spec_arg_type(op: Operation) -> Arguments {
    match op {
        Operation::HALT => Arguments::NoArgs,
        Operation::NOP => Arguments::NoArgs,
        Operation::MOV => Arguments::RegReg,
        Operation::MOV_IMM => Arguments::RegImm,
        Operation::LOAD => Arguments::RegReg,
        Operation::LOAD_REL => Arguments::RegImmReg,
        Operation::LOAD_IMM => Arguments::ImmReg,
        Operation::STORE_R_R => Arguments::RegReg,
        Operation::STORE_REL_R => Arguments::RegImmReg,
        Operation::STORE_IMM_R => Arguments::ImmReg,
        Operation::STORE_R_IMM => Arguments::RegImm,
        Operation::STORE_REL_IMM => Arguments::RegImmReg,
        Operation::STORE_IMM_IMM => Arguments::ImmImm,
        Operation::ADD => Arguments::RegReg,
        Operation::ADD_IMM => Arguments::RegImm,
        Operation::SUB => Arguments::RegReg,
        Operation::SUB_IMM => Arguments::RegImm,
        Operation::AND => Arguments::RegReg,
        Operation::AND_IMM => Arguments::RegImm,
        Operation::OR => Arguments::RegReg,
        Operation::OR_IMM => Arguments::RegImm,
        Operation::XOR => Arguments::RegReg,
        Operation::XOR_IMM => Arguments::RegImm,
        Operation::SHL => Arguments::RegReg,
        Operation::SHL_IMM => Arguments::RegImm,
        Operation::SHR => Arguments::RegReg,
        Operation::SHR_IMM => Arguments::RegImm,
        Operation::CMP => Arguments::RegReg,
        Operation::CMP_IMM => Arguments::RegImm,
        Operation::PUSH => Arguments::Reg,
        Operation::PUSH_M => Arguments::Reg,
        Operation::PUSH_IMM => Arguments::Imm,
        Operation::POP => Arguments::Reg,
        Operation::POP_M => Arguments::Reg,
        Operation::POP_IMM => Arguments::Imm,
        Operation::JMP => Arguments::Reg,
        Operation::JMP_IMM => Arguments::Imm,
        Operation::JE => Arguments::Reg,
        Operation::JE_IMM => Arguments::Imm,
        Operation::JNE => Arguments::Reg,
        Operation::JNE_IMM => Arguments::Imm,
        Operation::CALL => Arguments::Reg,
        Operation::CALL_IMM => Arguments::Imm,
        Operation::RET => Arguments::NoArgs,
    }
}

/// The number of bytes that the program counter advances over an instruction of a shape.
pub open spec fn spec_to_offset(a: Arguments) -> u8 {
    match a {
        Arguments::NoArgs => 1,
        Arguments::Reg => 2,
        Arguments::RegReg => 3,
        Arguments::RegImm => 4,
        Arguments::ImmImm => 5,
        Arguments::RegImmReg => 5,
        Arguments::ImmReg => 4,
        Arguments::Imm => 3,
    }
}

impl Operation {
    /// The opcode byte of this operation.
    pub fn to_u8(self) -> (r: u8)
        ensures
            r == spec_op_code(self),
    {
        match self {
            Operation::HALT => 0x00,
            Operation::NOP => 0x01,
            Operation::MOV => 0x10,
            Operation::MOV_IMM => 0x11,
            Operation::LOAD => 0x20,
            Operation::LOAD_REL => 0x21,
            Operation::LOAD_IMM => 0x22,
            Operation::STORE_R_R => 0x30,
            Operation::STORE_REL_R => 0x31,
            Operation::STORE_IMM_R => 0x32,
            Operation::STORE_R_IMM => 0x33,
            Operation::STORE_REL_IMM => 0x34,
            Operation::STORE_IMM_IMM => 0x35,
            Operation::ADD => 0x40,
            Operation::ADD_IMM => 0x41,
            Operation::SUB => 0x42,
            Operation::SUB_IMM => 0x43,
            Operation::AND => 0x50,
            Operation::AND_IMM => 0x51,
            Operation::OR => 0x52,
            Operation::OR_IMM => 0x53,
            Operation::XOR => 0x54,
            Operation::XOR_IMM => 0x55,
            Operation::SHL => 0x70,
            Operation::SHL_IMM => 0x71,
            Operation::SHR => 0x72,
            Operation::SHR_IMM => 0x73,
            Operation::CMP => 0x80,
            Operation::CMP_IMM => 0x81,
            Operation::PUSH => 0x90,
            Operation::PUSH_M => 0x91,
            Operation::PUSH_IMM => 0x92,
            Operation::POP => 0xA0,
            Operation::POP_M => 0xA1,
            Operation::POP_IMM => 0xA2,
            Operation::JMP => 0xB0,
            Operation::JMP_IMM => 0xB1,
            Operation::JE => 0xB2,
            Operation::JE_IMM => 0xB3,
            Operation::JNE => 0xB6,
            Operation::JNE_IMM => 0xB7,
            Operation::CALL => 0xD0,
            Operation::CALL_IMM => 0xD1,
            Operation::RET => 0xD2,
        }
    }

    /// The operation that opcode byte `b` encodes, if any.
    pub fn from_u8(b: u8) -> (r: Option<Operation>)
        ensures
            r == spec_op_from_code(b),
    {
        match b {
            0x00 => Some(Operation::HALT),
            0x01 => Some(Operation::NOP),
            0x10 => Some(Operation::MOV),
            0x11 => Some(Operation::MOV_IMM),
            0x20 => Some(Operation::LOAD),
            0x21 => Some(Operation::LOAD_REL),
            0x22 => Some(Operation::LOAD_IMM),
            0x30 => Some(Operation::STORE_R_R),
            0x31 => Some(Operation::STORE_REL_R),
            0x32 => Some(Operation::STORE_IMM_R),
            0x33 => Some(Operation::STORE_R_IMM),
            0x34 => Some(Operation::STORE_REL_IMM),
            0x35 => Some(Operation::STORE_IMM_IMM),
            0x40 => Some(Operation::ADD),
            0x41 => Some(Operation::ADD_IMM),
            0x42 => Some(Operation::SUB),
            0x43 => Some(Operation::SUB_IMM),
            0x50 => Some(Operation::AND),
            0x51 => Some(Operation::AND_IMM),
            0x52 => Some(Operation::OR),
            0x53 => Some(Operation::OR_IMM),
            0x54 => Some(Operation::XOR),
            0x55 => Some(Operation::XOR_IMM),
            0x70 => Some(Operation::SHL),
            0x71 => Some(Operation::SHL_IMM),
            0x72 => Some(Operation::SHR),
            0x73 => Some(Operation::SHR_IMM),
            0x80 => Some(Operation::CMP),
            0x81 => Some(Operation::CMP_IMM),
            0x90 => Some(Operation::PUSH),
            0x91 => Some(Operation::PUSH_M),
            0x92 => Some(Operation::PUSH_IMM),
            0xA0 => Some(Operation::POP),
            0xA1 => Some(Operation::POP_M),
            0xA2 => Some(Operation::POP_IMM),
            0xB0 => Some(Operation::JMP),
            0xB1 => Some(Operation::JMP_IMM),
            0xB2 => Some(Operation::JE),
            0xB3 => Some(Operation::JE_IMM),
            0xB6 => Some(Operation::JNE),
            0xB7 => Some(Operation::JNE_IMM),
            0xD0 => Some(Operation::CALL),
            0xD1 => Some(Operation::CALL_IMM),
            0xD2 => Some(Operation::RET),
            _ => None,
        }
    }

    /// The operand shape of this operation.
    pub fn arg_type(&self) -> (r: Arguments)
        ensures
            r == spec_arg_type(*self),
    {
        match self {
            Operation::HALT => Arguments::NoArgs,
            Operation::NOP => Arguments::NoArgs,
            Operation::MOV => Arguments::RegReg,
            Operation::MOV_IMM => Arguments::RegImm,
            Operation::LOAD => Arguments::RegReg,
            Operation::LOAD_REL => Arguments::RegImmReg,
            Operation::LOAD_IMM => Arguments::ImmReg,
            Operation::STORE_R_R => Arguments::RegReg,
            Operation::STORE_REL_R => Arguments::RegImmReg,
            Operation::STORE_IMM_R => Arguments::ImmReg,
            Operation::STORE_R_IMM => Arguments::RegImm,
            Operation::STORE_REL_IMM => Arguments::RegImmReg,
            Operation::STORE_IMM_IMM => Arguments::ImmImm,
            Operation::ADD => Arguments::RegReg,
            Operation::ADD_IMM => Arguments::RegImm,
            Operation::SUB => Arguments::RegReg,
            Operation::SUB_IMM => Arguments::RegImm,
            Operation::AND => Arguments::RegReg,
            Operation::AND_IMM => Arguments::RegImm,
            Operation::OR => Arguments::RegReg,
            Operation::OR_IMM => Arguments::RegImm,
            Operation::XOR => Arguments::RegReg,
            Operation::XOR_IMM => Arguments::RegImm,
            Operation::SHL => Arguments::RegReg,
            Operation::SHL_IMM => Arguments::RegImm,
            Operation::SHR => Arguments::RegReg,
            Operation::SHR_IMM => Arguments::RegImm,
            Operation::CMP => Arguments::RegReg,
            Operation::CMP_IMM => Arguments::RegImm,
            Operation::PUSH => Arguments::Reg,
            Operation::PUSH_M => Arguments::Reg,
            Operation::PUSH_IMM => Arguments::Imm,
            Operation::POP => Arguments::Reg,
            Operation::POP_M => Arguments::Reg,
            Operation::POP_IMM => Arguments::Imm,
            Operation::JMP => Arguments::Reg,
            Operation::JMP_IMM => Arguments::Imm,
            Operation::JE => Arguments::Reg,
            Operation::JE_IMM => Arguments::Imm,
            Operation::JNE => Arguments::Reg,
            Operation::JNE_IMM => Arguments::Imm,
            Operation::CALL => Arguments::Reg,
            Operation::CALL_IMM => Arguments::Imm,
            Operation::RET => Arguments::NoArgs,
        }
    }
}

impl Arguments {
    /// The number of bytes that the program counter advances over an instruction of this shape.
    pub fn to_offset(&self) -> (r: u8)
        ensures
            r == spec_to_offset(*self),
    {
        match self {
            Arguments::NoArgs => 1,
            Arguments::Reg => 2,
            Arguments::RegReg => 3,
            Arguments::RegImm => 4,
            Arguments::ImmImm => 5,
            Arguments::RegImmReg => 5,
            Arguments::ImmReg => 4,
            Arguments::Imm => 3,
        }
    }
}

/// Decoding an operation's opcode byte gives the operation back, and every decodable byte is
/// the opcode of the operation it decodes to.
pub proof fn lemma_op_encoding(op: Operation, b: u8)
    ensures
        spec_op_from_code(spec_op_code(op)) == Some(op),
        spec_op_from_code(b) matches Some(o) ==> spec_op_code(o) == b,
{
}

/// Why a cycle of the simple machine stopped.
#[derive(Debug, Clone, Copy, PartialEq, Eq, Structural)]
pub enum RuntimeError {
    InstructionOOB,
    MemoryOOB,
    InvalidOPCode(u8),
    InvalidRegister,
    InvalidCode,
    OffsetOOB,
    Halted,
    StackOverflow,
}

/// Number of words of data memory a fresh machine has.
pub const MEMORY_WORDS: usize = 0xFFFF;

/// Bytes of header that precede the code in an image for this machine.
pub const HEADER_BYTES: usize = 3;

/// Index of the stack pointer in the register file.
pub open spec fn rsp() -> int {
    16
}

/// The abstract state of the simple machine.
#[verifier::ext_equal]
pub struct SimpleState {
    pub code: Seq<u8>,
    pub memory: Seq<u16>,
    pub equal: bool,
    pub pc: u16,
    pub registers: Seq<u16>,
    pub little_endian: bool,
}

/// The simple machine: byte-addressed code, word-addressed data memory holding the stack, the
/// register file, the `equal` flag and the program counter. Words in the instruction stream are
/// read in the byte order of the machine it runs on, recorded in `little_endian`, except the
/// offsets and immediates of `LOAD_REL`, `STORE_R_IMM` and `STORE_REL_IMM`, which are
/// big-endian. Arithmetic wraps around at 2^16 and shifts take their amount modulo 16.
pub struct VirtualMachine {
    code: Vec<u8>,
    memory: Vec<u16>,
    equal: bool,
    current_instruction: u16,
    registers: Vec<u16>,
    little_endian: bool,
}

impl View for VirtualMachine {
    type V = SimpleState;

    closed spec fn view(&self) -> SimpleState {
        SimpleState {
            code: self.code@,
            memory: self.memory@,
            equal: self.equal,
            pc: self.current_instruction,
            registers: self.registers@,
            little_endian: self.little_endian,
        }
    }
}

/// A word from two consecutive bytes, in little-endian or big-endian order.
pub open spec fn native_word(little: bool, b0: u8, b1: u8) -> u16 {
    if little {
        (b0 as int + b1 as int * 256) as u16
    } else {
        (b0 as int * 256 + b1 as int) as u16
    }
}

/// The byte at `pc + off`.
pub open spec fn fetch_u8(s: SimpleState, off: int) -> Result<u8, RuntimeError> {
    if s.pc + off < s.code.len() {
        Ok(s.code[s.pc + off])
    } else {
        Err(RuntimeError::InstructionOOB)
    }
}

/// The word at `pc + off`, in the machine's byte order.
pub open spec fn fetch_word(s: SimpleState, off: int) -> Result<u16, RuntimeError> {
    if s.pc + off + 2 <= s.code.len() {
        Ok(native_word(s.little_endian, s.code[s.pc + off], s.code[s.pc + off + 1]))
    } else {
        Err(RuntimeError::InstructionOOB)
    }
}

/// The index of the register named by the byte at `pc + off`.
pub open spec fn fetch_reg(s: SimpleState, off: int) -> Result<int, RuntimeError> {
    match fetch_u8(s, off) {
        Err(e) => Err(e),
        Ok(b) => match spec_register_from_u8(b) {
            Some(r) => Ok(spec_register_index(r) as int),
            None => Err(RuntimeError::InvalidRegister),
        },
    }
}

/// The big-endian word in the code range from `pc + off` to `pc + off + 2`, both taken modulo
/// 2^16; `None` where that range is not two bytes of the code (the machine panics).
pub open spec fn slice_word(s: SimpleState, off: int) -> Option<u16> {
    let st = (s.pc + off) % 0x10000;
    let en = (s.pc + off + 2) % 0x10000;
    if st + 2 == en && en <= s.code.len() {
        Some((s.code[st] as int * 256 + s.code[st + 1] as int) as u16)
    } else {
        None
    }
}

pub open spec fn get_reg(s: SimpleState, r: int) -> Option<u16> {
    if 0 <= r < s.registers.len() {
        Some(s.registers[r])
    } else {
        None
    }
}

pub open spec fn put_reg(s: SimpleState, r: int, v: u16) -> Option<SimpleState> {
    if 0 <= r < s.registers.len() {
        Some(SimpleState { registers: s.registers.update(r, v), ..s })
    } else {
        None
    }
}

pub open spec fn get_mem(s: SimpleState, a: int) -> Option<u16> {
    if 0 <= a < s.memory.len() {
        Some(s.memory[a])
    } else {
        None
    }
}

pub open spec fn put_mem(s: SimpleState, a: int, v: u16) -> Option<SimpleState> {
    if 0 <= a < s.memory.len() {
        Some(SimpleState { memory: s.memory.update(a, v), ..s })
    } else {
        None
    }
}

/// `x` minus one, wrapping around at 2^16.
pub open spec fn dec16(x: u16) -> u16 {
    ((x + 0xFFFF) % 0x10000) as u16
}

/// `x` plus one, wrapping around at 2^16.
pub open spec fn inc16(x: u16) -> u16 {
    ((x + 1) % 0x10000) as u16
}

/// The register that a move or load writes and the value it writes: `None` where the machine
/// panics, an error where the instruction stream is cut short or names no register.
pub open spec fn load_effect(s: SimpleState, op: Operation) -> Option<Result<(int, u16), RuntimeError>> {
    match op {
        Operation::MOV => match fetch_reg(s, 1) {
            Err(e) => Some(Err(e)),
            Ok(r1) => match fetch_reg(s, 2) {
                Err(e) => Some(Err(e)),
                Ok(r2) => match get_reg(s, r2) {
                    None => None,
                    Some(v) => Some(Ok((r1, v))),
                },
            },
        },
        Operation::MOV_IMM => match fetch_reg(s, 1) {
            Err(e) => Some(Err(e)),
            Ok(r1) => match fetch_word(s, 2) {
                Err(e) => Some(Err(e)),
                Ok(v) => Some(Ok((r1, v))),
            },
        },
        Operation::LOAD => match fetch_reg(s, 1) {
            Err(e) => Some(Err(e)),
            Ok(r1) => match fetch_reg(s, 2) {
                Err(e) => Some(Err(e)),
                Ok(r2) => match get_reg(s, r2) {
                    None => None,
                    Some(a) => match get_mem(s, a as int) {
                        None => None,
                        Some(v) => Some(Ok((r1, v))),
                    },
                },
            },
        },
        Operation::LOAD_REL => match fetch_reg(s, 1) {
            Err(e) => Some(Err(e)),
            Ok(r1) => match slice_word(s, 2) {
                None => None,
                Some(off) => match fetch_reg(s, 4) {
                    Err(e) => Some(Err(e)),
                    Ok(r3) => match get_reg(s, r1) {
                        None => None,
                        Some(base) => match get_mem(s, base as int + (off as i16) as int) {
                            None => None,
                            Some(v) => Some(Ok((r3, v))),
                        },
                    },
                },
            },
        },
        _ => match fetch_word(s, 1) {
            // LOAD_IMM
            Err(e) => Some(Err(e)),
            Ok(a) => match fetch_reg(s, 2) {
                Err(e) => Some(Err(e)),
                Ok(r2) => match get_mem(s, a as int) {
                    None => None,
                    Some(v) => Some(Ok((r2, v))),
                },
            },
        },
    }
}

/// The memory cell that a store writes and the value it writes, as for `load_effect`.
pub open spec fn store_effect(s: SimpleState, op: Operation) -> Option<Result<(int, u16), RuntimeError>> {
    match op {
        Operation::STORE_R_R => match fetch_reg(s, 1) {
            Err(e) => Some(Err(e)),
            Ok(r1) => match fetch_reg(s, 2) {
                Err(e) => Some(Err(e)),
                Ok(r2) => match (get_reg(s, r1), get_reg(s, r2)) {
                    (Some(a), Some(v)) => Some(Ok((a as int, v))),
                    _ => None,
                },
            },
        },
        Operation::STORE_REL_R => match fetch_reg(s, 1) {
            Err(e) => Some(Err(e)),
            Ok(r1) => match fetch_word(s, 2) {
                Err(e) => Some(Err(e)),
                Ok(off) => match fetch_reg(s, 4) {
                    Err(e) => Some(Err(e)),
                    Ok(r3) => match (get_reg(s, r1), get_reg(s, r3)) {
                        (Some(base), Some(v)) => Some(Ok((base as int + (off as i16) as int, v))),
                        _ => None,
                    },
                },
            },
        },
        Operation::STORE_IMM_R => match fetch_word(s, 1) {
            Err(e) => Some(Err(e)),
            Ok(a) => match fetch_reg(s, 2) {
                Err(e) => Some(Err(e)),
                Ok(r2) => match get_reg(s, r2) {
                    None => None,
                    Some(v) => Some(Ok((a as int, v))),
                },
            },
        },
        Operation::STORE_R_IMM => match fetch_reg(s, 1) {
            Err(e) => Some(Err(e)),
            Ok(r1) => match slice_word(s, 2) {
                None => None,
                Some(v) => match get_reg(s, r1) {
                    None => None,
                    Some(a) => Some(Ok((a as int, v))),
                },
            },
        },
        Operation::STORE_REL_IMM => match fetch_reg(s, 1) {
            Err(e) => Some(Err(e)),
            Ok(r1) => match (slice_word(s, 2), slice_word(s, 5)) {
                (Some(off), Some(v)) => match get_reg(s, r1) {
                    None => None,
                    Some(base) => Some(Ok((base as int + (off as i16) as int, v))),
                },
                _ => None,
            },
        },
        _ => match fetch_word(s, 1) {
            // STORE_IMM_IMM
            Err(e) => Some(Err(e)),
            Ok(a) => match fetch_word(s, 3) {
                Err(e) => Some(Err(e)),
                Ok(v) => Some(Ok((a as int, v))),
            },
        },
    }
}

/// Whether an arithmetic, logic, shift or compare operation takes an immediate operand.
pub open spec fn alu_takes_imm(op: Operation) -> bool {
    match op {
        Operation::ADD_IMM | Operation::SUB_IMM | Operation::AND_IMM | Operation::OR_IMM
        | Operation::XOR_IMM | Operation::SHL_IMM | Operation::SHR_IMM | Operation::CMP_IMM => true,
        _ => false,
    }
}

/// The value an arithmetic, logic or shift operation computes.
pub open spec fn alu_result(op: Operation, a: u16, b: u16) -> u16 {
    match op {
        Operation::ADD | Operation::ADD_IMM => ((a + b) % 0x10000) as u16,
        Operation::SUB | Operation::SUB_IMM => ((a - b + 0x10000) % 0x10000) as u16,
        Operation::AND | Operation::AND_IMM => a & b,
        Operation::OR | Operation::OR_IMM => a | b,
        Operation::XOR | Operation::XOR_IMM => a ^ b,
        Operation::SHL | Operation::SHL_IMM => a << (b % 16),
        _ => a >> (b % 16),
    }
}

/// The operands of an arithmetic, logic, shift or compare instruction: the first register,
/// its value and the second operand's value.
pub open spec fn alu_operands(s: SimpleState, op: Operation) -> Option<Result<(int, u16, u16), RuntimeError>> {
    match fetch_reg(s, 1) {
        Err(e) => Some(Err(e)),
        Ok(r1) => {
            let second: Option<Result<u16, RuntimeError>> = if alu_takes_imm(op) {
                Some(fetch_word(s, 2))
            } else {
                match fetch_reg(s, 2) {
                    Err(e) => Some(Err(e)),
                    Ok(r2) => match get_reg(s, r2) {
                        None => None,
                        Some(v) => Some(Ok(v)),
                    },
                }
            };
            match second {
                None => None,
                Some(Err(e)) => Some(Err(e)),
                Some(Ok(b)) => match get_reg(s, r1) {
                    None => None,
                    Some(a) => Some(Ok((r1, a, b))),
                },
            }
        },
    }
}

/// An arithmetic, logic, shift or compare instruction. A compare sets `equal` and writes no
/// register; no other instruction here touches `equal`.
pub open spec fn spec_alu(s: SimpleState, op: Operation) -> Option<(SimpleState, Result<Option<u16>, RuntimeError>)> {
    match alu_operands(s, op) {
        None => None,
        Some(Err(e)) => Some((s, Err(e))),
        Some(Ok((r1, a, b))) => match op {
            Operation::CMP | Operation::CMP_IMM => Some(
                (SimpleState { equal: a == b, ..s }, Ok(None)),
            ),
            _ => match put_reg(s, r1, alu_result(op, a, b)) {
                None => None,
                Some(s1) => Some((s1, Ok(None))),
            },
        },
    }
}

/// Moves the stack pointer of `s` down by one (`PUSH` refuses to go below 0, the other pushes
/// wrap around), then writes at its new position the value to push: register `r1` read after
/// the move (`PUSH`), the cell that register names (`PUSH_M`), or `imm` (`PUSH_IMM`).
pub open spec fn push_with(s: SimpleState, op: Operation, r1: int, imm: u16) -> Option<
    (SimpleState, Result<Option<u16>, RuntimeError>),
> {
    match get_reg(s, rsp()) {
        None => None,
        Some(sp) => if op is PUSH && sp == 0 {
            Some((s, Err(RuntimeError::StackOverflow)))
        } else {
            let nsp = dec16(sp);
            let s1 = SimpleState { registers: s.registers.update(rsp(), nsp), ..s };
            let v: Option<u16> = match op {
                Operation::PUSH => get_reg(s1, r1),
                Operation::PUSH_M => match get_reg(s1, r1) {
                    None => None,
                    Some(a) => get_mem(s1, a as int),
                },
                _ => Some(imm),
            };
            match v {
                None => None,
                Some(x) => match put_mem(s1, nsp as int, x) {
                    None => None,
                    Some(s2) => Some((s2, Ok(None))),
                },
            }
        },
    }
}

/// `PUSH`, `PUSH_M` and `PUSH_IMM`: the stack pointer moves down, then the value (read after
/// the move) is written at its new position. `PUSH` refuses to move it below 0; the other two
/// wrap around.
pub open spec fn spec_push(s: SimpleState, op: Operation) -> Option<(SimpleState, Result<Option<u16>, RuntimeError>)> {
    match op {
        Operation::PUSH | Operation::PUSH_M => match fetch_reg(s, 1) {
            Err(e) => Some((s, Err(e))),
            Ok(r1) => push_with(s, op, r1, 0),
        },
        _ => match fetch_word(s, 1) {
            // PUSH_IMM
            Err(e) => Some((s, Err(e))),
            Ok(v) => push_with(s, op, 0, v),
        },
    }
}

/// Moves the stack pointer of `s` up by one, wrapping around.
pub open spec fn pop_tail(s: SimpleState) -> Option<(SimpleState, Result<Option<u16>, RuntimeError>)> {
    match get_reg(s, rsp()) {
        None => None,
        Some(sp) => Some((SimpleState { registers: s.registers.update(rsp(), inc16(sp)), ..s }, Ok(None))),
    }
}

/// Pops the top of the stack of `s` into register `r1` (`POP`), into the cell that register
/// `r1` names (`POP_M`) or into cell `a` (`POP_IMM`).
pub open spec fn pop_with(s: SimpleState, op: Operation, r1: int, a: u16) -> Option<
    (SimpleState, Result<Option<u16>, RuntimeError>),
> {
    match get_reg(s, rsp()) {
        None => None,
        Some(sp) => match get_mem(s, sp as int) {
            None => None,
            Some(v) => {
                let s1: Option<SimpleState> = match op {
                    Operation::POP => put_reg(s, r1, v),
                    Operation::POP_M => match get_reg(s, r1) {
                        None => None,
                        Some(d) => put_mem(s, d as int, v),
                    },
                    _ => put_mem(s, a as int, v),
                };
                match s1 {
                    None => None,
                    Some(t) => pop_tail(t),
                }
            },
        },
    }
}

/// `POP`, `POP_M` and `POP_IMM`: the word at the top of the stack is written to the
/// destination, then the stack pointer (read again) moves up, wrapping around.
pub open spec fn spec_pop(s: SimpleState, op: Operation) -> Option<(SimpleState, Result<Option<u16>, RuntimeError>)> {
    match op {
        Operation::POP | Operation::POP_M => match fetch_reg(s, 1) {
            Err(e) => Some((s, Err(e))),
            Ok(r1) => pop_with(s, op, r1, 0),
        },
        _ => match fetch_word(s, 1) {
            // POP_IMM
            Err(e) => Some((s, Err(e))),
            Ok(a) => pop_with(s, op, 0, a),
        },
    }
}

/// Whether a conditional jump jumps given the `equal` flag; the unconditional ones always do.
pub open spec fn jump_taken(op: Operation, equal: bool) -> bool {
    match op {
        Operation::JE | Operation::JE_IMM => equal,
        Operation::JNE | Operation::JNE_IMM => !equal,
        _ => true,
    }
}

/// The jumps: `JMP`, `JE` and `JNE` take their target from a register, the `_IMM` forms from
/// the instruction stream.
pub open spec fn spec_jump(s: SimpleState, op: Operation) -> Option<(SimpleState, Result<Option<u16>, RuntimeError>)> {
    match op {
        Operation::JMP_IMM | Operation::JE_IMM | Operation::JNE_IMM => match fetch_word(s, 1) {
            Err(e) => Some((s, Err(e))),
            Ok(a) => Some((s, Ok(if jump_taken(op, s.equal) { Some(a) } else { None }))),
        },
        _ => match fetch_reg(s, 1) {
            Err(e) => Some((s, Err(e))),
            Ok(r1) => if jump_taken(op, s.equal) {
                match get_reg(s, r1) {
                    None => None,
                    Some(a) => Some((s, Ok(Some(a)))),
                }
            } else {
                Some((s, Ok(None)))
            },
        },
    }
}

/// Executing operation `op`: the new state and, on success, the jump target if the instruction
/// jumps; `None` where the machine panics, which every `CALL`, `CALL_IMM` and `RET` does.
pub open spec fn spec_execute(s: SimpleState, op: Operation) -> Option<(SimpleState, Result<Option<u16>, RuntimeError>)> {
    match op {
        Operation::HALT => Some((s, Err(RuntimeError::Halted))),
        Operation::NOP => Some((s, Ok(None))),
        Operation::MOV | Operation::MOV_IMM | Operation::LOAD | Operation::LOAD_REL
        | Operation::LOAD_IMM => match load_effect(s, op) {
            None => None,
            Some(Err(e)) => Some((s, Err(e))),
            Some(Ok((r, v))) => match put_reg(s, r, v) {
                None => None,
                Some(s1) => Some((s1, Ok(None))),
            },
        },
        Operation::STORE_R_R | Operation::STORE_REL_R | Operation::STORE_IMM_R
        | Operation::STORE_R_IMM | Operation::STORE_REL_IMM | Operation::STORE_IMM_IMM => match store_effect(s, op) {
            None => None,
            Some(Err(e)) => Some((s, Err(e))),
            Some(Ok((a, v))) => match put_mem(s, a, v) {
                None => None,
                Some(s1) => Some((s1, Ok(None))),
            },
        },
        Operation::PUSH | Operation::PUSH_M | Operation::PUSH_IMM => spec_push(s, op),
        Operation::POP | Operation::POP_M | Operation::POP_IMM => spec_pop(s, op),
        Operation::JMP | Operation::JMP_IMM | Operation::JE | Operation::JE_IMM | Operation::JNE
        | Operation::JNE_IMM => spec_jump(s, op),
        Operation::CALL | Operation::CALL_IMM | Operation::RET => None,
        _ => spec_alu(s, op),
    }
}

/// One cycle: decode the instruction at `pc`, execute it, advance `pc` past it (wrapping
/// around at 2^16) and then to the jump target if there is one. `None` where the machine
/// panics.
pub open spec fn spec_cycle(s: SimpleState) -> Option<(SimpleState, Result<(), RuntimeError>)> {
    if s.pc >= s.code.len() {
        Some((s, Err(RuntimeError::InstructionOOB)))
    } else {
        match spec_op_from_code(s.code[s.pc as int]) {
            None => Some((s, Err(RuntimeError::InvalidOPCode(s.code[s.pc as int])))),
            Some(op) => match spec_execute(s, op) {
                None => None,
                Some((s1, Err(e))) => Some((s1, Err(e))),
                Some((s1, Ok(target))) => {
                    let next = ((s.pc + spec_to_offset(spec_arg_type(op))) % 0x10000) as u16;
                    Some(
                        (
                            SimpleState {
                                pc: match target {
                                    Some(a) => a,
                                    None => next,
                                },
                                ..s1
                            },
                            Ok(()),
                        ),
                    )
                },
            },
        }
    }
}

/// Reads two bytes as a `u16` in the byte order of the machine it runs on
/// (`bytemuck::pod_read_unaligned`): the result is the little-endian or the big-endian word of
/// the two bytes. Which of the two depends on the machine and is not stated.
#[verifier::external_body]
fn read_native_u16(b0: u8, b1: u8) -> (r: u16)
    ensures
        r == native_word(true, b0, b1) || r == native_word(false, b0, b1),
{
    bytemuck::pod_read_unaligned::<u16>(&[b0, b1])
}

/// Executing an instruction never changes the code or the program counter.
proof fn lemma_execute_keeps_code_and_pc(s: SimpleState, op: Operation)
    ensures
        spec_execute(s, op) matches Some((s1, _)) ==> s1.code == s.code && s1.pc == s.pc,
{
}

impl VirtualMachine {
    /// A machine about to run `code` (its 3-byte header included) with the register file
    /// `registers`: the code region is `code` without its first 3 bytes, data memory is
    /// `0xFFFF` zeroed words, `equal` is clear and the program counter is 0. The byte order is
    /// the one of the machine it runs on.
    pub fn from_bytes(code: Vec<u8>, registers: [u16; 17]) -> (vm: VirtualMachine)
        ensures
            vm@.code == (if code@.len() >= HEADER_BYTES {
                code@.subrange(HEADER_BYTES as int, code@.len() as int)
            } else {
                Seq::empty()
            }),
            vm@.memory == Seq::new(MEMORY_WORDS as nat, |i: int| 0u16),
            !vm@.equal,
            vm@.pc == 0,
            vm@.registers == registers@,
    {
        let probe = read_native_u16(1, 0);
        let body: Vec<u8> = if code.len() >= HEADER_BYTES {
            slice_to_vec(slice_subrange(code.as_slice(), HEADER_BYTES, code.len()))
        } else {
            Vec::new()
        };
        let mut memory: Vec<u16> = Vec::new();
        let mut i: usize = 0;
        while i < MEMORY_WORDS
            invariant
                i <= MEMORY_WORDS,
                memory@ == Seq::new(i as nat, |j: int| 0u16),
            decreases MEMORY_WORDS - i,
        {
            memory.push(0);
            i += 1;
            assert(memory@ =~= Seq::new(i as nat, |j: int| 0u16));
        }
        VirtualMachine {
            code: body,
            memory,
            equal: false,
            current_instruction: 0,
            registers: slice_to_vec(registers.as_slice()),
            little_endian: probe == 1,
        }
    }

    /// The register file a program starts with: every register 0 except the stack pointer,
    /// which starts at `0xFFFF`.
    pub fn initial_registers() -> (r: [u16; 17])
        ensures
            r@[rsp()] == 0xFFFF,
            forall|i: int| 0 <= i < 16 ==> r@[i] == 0,
    {
        let mut r = [0u16; 17];
        r[16] = 0xFFFF;
        r
    }

    /// The code region.
    pub fn code(&self) -> (r: &Vec<u8>)
        ensures
            r@ == self@.code,
    {
        &self.code
    }

    /// The data memory.
    pub fn memory(&self) -> (r: &Vec<u16>)
        ensures
            r@ == self@.memory,
    {
        &self.memory
    }

    /// The register file.
    pub fn registers(&self) -> (r: &Vec<u16>)
        ensures
            r@ == self@.registers,
    {
        &self.registers
    }

    /// The `equal` flag.
    pub fn equal(&self) -> (r: bool)
        ensures
            r == self@.equal,
    {
        self.equal
    }

    /// The program counter, an offset into the code region.
    pub fn current_instruction(&self) -> (r: u16)
        ensures
            r == self@.pc,
    {
        self.current_instruction
    }

    fn next_u8(&self, off: u16) -> (r: Result<u8, RuntimeError>)
        ensures
            r == fetch_u8(self@, off as int),
    {
        let idx = self.current_instruction as usize + off as usize;
        if idx < self.code.len() {
            Ok(self.code[idx])
        } else {
            Err(RuntimeError::InstructionOOB)
        }
    }

    fn next_word(&self, off: u16) -> (r: Result<u16, RuntimeError>)
        ensures
            r == fetch_word(self@, off as int),
    {
        let idx = self.current_instruction as usize + off as usize;
        if idx + 2 <= self.code.len() {
            let b0 = self.code[idx];
            let b1 = self.code[idx + 1];
            if self.little_endian {
                Ok(b0 as u16 + b1 as u16 * 256)
            } else {
                Ok(b0 as u16 * 256 + b1 as u16)
            }
        } else {
            Err(RuntimeError::InstructionOOB)
        }
    }

    fn next_reg(&self, off: u16) -> (r: Result<usize, RuntimeError>)
        ensures
            match fetch_reg(self@, off as int) {
                Ok(i) => r == Ok::<usize, RuntimeError>(i as usize),
                Err(e) => r == Err::<usize, RuntimeError>(e),
            },
            r matches Ok(i) ==> i <= 16,
    {
        let b = match self.next_u8(off) {
            Ok(b) => b,
            Err(e) => return Err(e),
        };
        match Register::from_u8(b) {
            Some(reg) => Ok(reg.index() as usize),
            None => Err(RuntimeError::InvalidRegister),
        }
    }

    fn slice_word_at(&self, off: u16) -> (r: Option<u16>)
        ensures
            r == slice_word(self@, off as int),
    {
        let st: u32 = (self.current_instruction as u32 + off as u32) % 0x10000;
        let en: u32 = (self.current_instruction as u32 + off as u32 + 2) % 0x10000;
        if st + 2 == en && (en as usize) <= self.code.len() {
            Some(self.code[st as usize] as u16 * 256 + self.code[st as usize + 1] as u16)
        } else {
            None
        }
    }

    fn reg_value(&self, r: usize) -> (v: Option<u16>)
        ensures
            v == get_reg(self@, r as int),
    {
        if r < self.registers.len() {
            Some(self.registers[r])
        } else {
            None
        }
    }

    fn mem_value(&self, a: i32) -> (v: Option<u16>)
        ensures
            v == get_mem(self@, a as int),
    {
        if a >= 0 && (a as usize) < self.memory.len() {
            Some(self.memory[a as usize])
        } else {
            None
        }
    }

    fn set_reg(&mut self, r: usize, v: u16)
        requires
            r < old(self)@.registers.len(),
        ensures
            final(self)@ == (SimpleState { registers: old(self)@.registers.update(r as int, v), ..old(self)@ }),
    {
        self.registers.set(r, v);
    }

    fn set_mem(&mut self, a: usize, v: u16)
        requires
            a < old(self)@.memory.len(),
        ensures
            final(self)@ == (SimpleState { memory: old(self)@.memory.update(a as int, v), ..old(self)@ }),
    {
        self.memory.set(a, v);
    }

    fn load_source(&self, op: Operation) -> (r: Option<Result<(usize, u16), RuntimeError>>)
        ensures
            match load_effect(self@, op) {
                None => r is None,
                Some(Err(e)) => r == Some(Err::<(usize, u16), RuntimeError>(e)),
                Some(Ok((ri, v))) => r matches Some(Ok((i, x))) && i as int == ri && x == v && i
                    <= 16,
            },
    {
        match op {
            Operation::MOV => {
                let r1 = match self.next_reg(1) {
                    Ok(x) => x,
                    Err(e) => return Some(Err(e)),
                };
                let r2 = match self.next_reg(2) {
                    Ok(x) => x,
                    Err(e) => return Some(Err(e)),
                };
                match self.reg_value(r2) {
                    None => None,
                    Some(v) => Some(Ok((r1, v))),
                }
            },
            Operation::MOV_IMM => {
                let r1 = match self.next_reg(1) {
                    Ok(x) => x,
                    Err(e) => return Some(Err(e)),
                };
                match self.next_word(2) {
                    Ok(v) => Some(Ok((r1, v))),
                    Err(e) => Some(Err(e)),
                }
            },
            Operation::LOAD => {
                let r1 = match self.next_reg(1) {
                    Ok(x) => x,
                    Err(e) => return Some(Err(e)),
                };
                let r2 = match self.next_reg(2) {
                    Ok(x) => x,
                    Err(e) => return Some(Err(e)),
                };
                let a = match self.reg_value(r2) {
                    Some(a) => a,
                    None => return None,
                };
                match self.mem_value(a as i32) {
                    None => None,
                    Some(v) => Some(Ok((r1, v))),
                }
            },
            Operation::LOAD_REL => {
                let r1 = match self.next_reg(1) {
                    Ok(x) => x,
                    Err(e) => return Some(Err(e)),
                };
                let off = match self.slice_word_at(2) {
                    Some(w) => w,
                    None => return None,
                };
                let r3 = match self.next_reg(4) {
                    Ok(x) => x,
                    Err(e) => return Some(Err(e)),
                };
                let base = match self.reg_value(r1) {
                    Some(b) => b,
                    None => return None,
                };
                match self.mem_value(base as i32 + (off as i16) as i32) {
                    None => None,
                    Some(v) => Some(Ok((r3, v))),
                }
            },
            _ => {
                let a = match self.next_word(1) {
                    Ok(a) => a,
                    Err(e) => return Some(Err(e)),
                };
                let r2 = match self.next_reg(2) {
                    Ok(x) => x,
                    Err(e) => return Some(Err(e)),
                };
                match self.mem_value(a as i32) {
                    None => None,
                    Some(v) => Some(Ok((r2, v))),
                }
            },
        }
    }

    fn store_target(&self, op: Operation) -> (r: Option<Result<(i32, u16), RuntimeError>>)
        ensures
            match store_effect(self@, op) {
                None => r is None,
                Some(Err(e)) => r == Some(Err::<(i32, u16), RuntimeError>(e)),
                Some(Ok((a, v))) => r matches Some(Ok((b, x))) && b as int == a && x == v,
            },
    {
        match op {
            Operation::STORE_R_R => {
                let r1 = match self.next_reg(1) {
                    Ok(x) => x,
                    Err(e) => return Some(Err(e)),
                };
                let r2 = match self.next_reg(2) {
                    Ok(x) => x,
                    Err(e) => return Some(Err(e)),
                };
                match (self.reg_value(r1), self.reg_value(r2)) {
                    (Some(a), Some(v)) => Some(Ok((a as i32, v))),
                    _ => None,
                }
            },
            Operation::STORE_REL_R => {
                let r1 = match self.next_reg(1) {
                    Ok(x) => x,
                    Err(e) => return Some(Err(e)),
                };
                let off = match self.next_word(2) {
                    Ok(w) => w,
                    Err(e) => return Some(Err(e)),
                };
                let r3 = match self.next_reg(4) {
                    Ok(x) => x,
                    Err(e) => return Some(Err(e)),
                };
                match (self.reg_value(r1), self.reg_value(r3)) {
                    (Some(base), Some(v)) => Some(Ok((base as i32 + (off as i16) as i32, v))),
                    _ => None,
                }
            },
            Operation::STORE_IMM_R => {
                let a = match self.next_word(1) {
                    Ok(a) => a,
                    Err(e) => return Some(Err(e)),
                };
                let r2 = match self.next_reg(2) {
                    Ok(x) => x,
                    Err(e) => return Some(Err(e)),
                };
                match self.reg_value(r2) {
                    None => None,
                    Some(v) => Some(Ok((a as i32, v))),
                }
            },
            Operation::STORE_R_IMM => {
                let r1 = match self.next_reg(1) {
                    Ok(x) => x,
                    Err(e) => return Some(Err(e)),
                };
                let v = match self.slice_word_at(2) {
                    Some(w) => w,
                    None => return None,
                };
                match self.reg_value(r1) {
                    None => None,
                    Some(a) => Some(Ok((a as i32, v))),
                }
            },
            Operation::STORE_REL_IMM => {
                let r1 = match self.next_reg(1) {
                    Ok(x) => x,
                    Err(e) => return Some(Err(e)),
                };
                match (self.slice_word_at(2), self.slice_word_at(5)) {
                    (Some(off), Some(v)) => match self.reg_value(r1) {
                        None => None,
                        Some(base) => Some(Ok((base as i32 + (off as i16) as i32, v))),
                    },
                    _ => None,
                }
            },
            _ => {
                let a = match self.next_word(1) {
                    Ok(a) => a,
                    Err(e) => return Some(Err(e)),
                };
                match self.next_word(3) {
                    Ok(v) => Some(Ok((a as i32, v))),
                    Err(e) => Some(Err(e)),
                }
            },
        }
    }

    fn exec_load(&mut self, op: Operation) -> (r: Option<Result<Option<u16>, RuntimeError>>)
        requires
            op is MOV || op is MOV_IMM || op is LOAD || op is LOAD_REL || op is LOAD_IMM,
        ensures
            match spec_execute(old(self)@, op) {
                None => r is None && final(self)@ == old(self)@,
                Some((s1, res)) => r == Some(res) && final(self)@ == s1,
            },
    {
        match self.load_source(op) {
            None => None,
            Some(Err(e)) => Some(Err(e)),
            Some(Ok((r, v))) => {
                if r < self.registers.len() {
                    self.set_reg(r, v);
                    Some(Ok(None))
                } else {
                    None
                }
            },
        }
    }

    fn exec_store(&mut self, op: Operation) -> (r: Option<Result<Option<u16>, RuntimeError>>)
        requires
            op is STORE_R_R || op is STORE_REL_R || op is STORE_IMM_R || op is STORE_R_IMM
                || op is STORE_REL_IMM || op is STORE_IMM_IMM,
        ensures
            match spec_execute(old(self)@, op) {
                None => r is None && final(self)@ == old(self)@,
                Some((s1, res)) => r == Some(res) && final(self)@ == s1,
            },
    {
        match self.store_target(op) {
            None => None,
            Some(Err(e)) => Some(Err(e)),
            Some(Ok((a, v))) => {
                if a >= 0 && (a as usize) < self.memory.len() {
                    self.set_mem(a as usize, v);
                    Some(Ok(None))
                } else {
                    None
                }
            },
        }
    }

    fn exec_alu(&mut self, op: Operation) -> (r: Option<Result<Option<u16>, RuntimeError>>)
        ensures
            match spec_alu(old(self)@, op) {
                None => r is None && final(self)@ == old(self)@,
                Some((s1, res)) => r == Some(res) && final(self)@ == s1,
            },
    {
        let r1 = match self.next_reg(1) {
            Ok(x) => x,
            Err(e) => return Some(Err(e)),
        };
        let b: u16 = if takes_imm(op) {
            match self.next_word(2) {
                Ok(w) => w,
                Err(e) => return Some(Err(e)),
            }
        } else {
            let r2 = match self.next_reg(2) {
                Ok(x) => x,
                Err(e) => return Some(Err(e)),
            };
            match self.reg_value(r2) {
                Some(v) => v,
                None => return None,
            }
        };
        let a = match self.reg_value(r1) {
            Some(v) => v,
            None => return None,
        };
        match op {
            Operation::CMP | Operation::CMP_IMM => {
                self.equal = a == b;
            },
            _ => {
                self.set_reg(r1, compute_alu(op, a, b));
            },
        }
        Some(Ok(None))
    }

    fn exec_push(&mut self, op: Operation) -> (r: Option<Result<Option<u16>, RuntimeError>>)
        requires
            op is PUSH || op is PUSH_M || op is PUSH_IMM,
        ensures
            match spec_push(old(self)@, op) {
                None => r is None && final(self)@ == old(self)@,
                Some((s1, res)) => r == Some(res) && final(self)@ == s1,
            },
    {
        let (r1, imm) = match op {
            Operation::PUSH | Operation::PUSH_M => match self.next_reg(1) {
                Ok(x) => (x, 0u16),
                Err(e) => return Some(Err(e)),
            },
            _ => match self.next_word(1) {
                Ok(v) => (0usize, v),
                Err(e) => return Some(Err(e)),
            },
        };
        if self.registers.len() <= 16 {
            return None;
        }
        let sp = self.registers[16];
        let is_push = match op {
            Operation::PUSH => true,
            _ => false,
        };
        if is_push && sp == 0 {
            return Some(Err(RuntimeError::StackOverflow));
        }
        let nsp: u16 = if sp == 0 {
            0xFFFF
        } else {
            sp - 1
        };
        let v: u16 = match op {
            Operation::PUSH => {
                if r1 >= self.registers.len() {
                    return None;
                }
                if r1 == 16 {
                    nsp
                } else {
                    self.registers[r1]
                }
            },
            Operation::PUSH_M => {
                if r1 >= self.registers.len() {
                    return None;
                }
                let a = if r1 == 16 {
                    nsp
                } else {
                    self.registers[r1]
                };
                if (a as usize) < self.memory.len() {
                    self.memory[a as usize]
                } else {
                    return None;
                }
            },
            _ => imm,
        };
        if (nsp as usize) >= self.memory.len() {
            return None;
        }
        self.set_reg(16, nsp);
        self.set_mem(nsp as usize, v);
        Some(Ok(None))
    }

    fn exec_pop(&mut self, op: Operation) -> (r: Option<Result<Option<u16>, RuntimeError>>)
        requires
            op is POP || op is POP_M || op is POP_IMM,
        ensures
            match spec_pop(old(self)@, op) {
                None => r is None && final(self)@ == old(self)@,
                Some((s1, res)) => r == Some(res) && final(self)@ == s1,
            },
    {
        let (r1, a) = match op {
            Operation::POP | Operation::POP_M => match self.next_reg(1) {
                Ok(x) => (x, 0u16),
                Err(e) => return Some(Err(e)),
            },
            _ => match self.next_word(1) {
                Ok(w) => (0usize, w),
                Err(e) => return Some(Err(e)),
            },
        };
        if self.registers.len() <= 16 {
            return None;
        }
        let sp = self.registers[16];
        if (sp as usize) >= self.memory.len() {
            return None;
        }
        let v = self.memory[sp as usize];
        match op {
            Operation::POP => {
                if r1 >= self.registers.len() {
                    return None;
                }
                self.set_reg(r1, v);
            },
            Operation::POP_M => {
                if r1 >= self.registers.len() {
                    return None;
                }
                let d = self.registers[r1];
                if (d as usize) >= self.memory.len() {
                    return None;
                }
                self.set_mem(d as usize, v);
            },
            _ => {
                if (a as usize) >= self.memory.len() {
                    return None;
                }
                self.set_mem(a as usize, v);
            },
        }
        let sp2 = self.registers[16];
        let nsp: u16 = if sp2 == 0xFFFF {
            0
        } else {
            sp2 + 1
        };
        self.set_reg(16, nsp);
        Some(Ok(None))
    }

    fn exec_jump(&self, op: Operation) -> (r: Option<Result<Option<u16>, RuntimeError>>)
        requires
            op is JMP || op is JMP_IMM || op is JE || op is JE_IMM || op is JNE || op is JNE_IMM,
        ensures
            match spec_jump(self@, op) {
                None => r is None,
                Some((s1, res)) => r == Some(res) && s1 == self@,
            },
    {
        let taken = match op {
            Operation::JE | Operation::JE_IMM => self.equal,
            Operation::JNE | Operation::JNE_IMM => !self.equal,
            _ => true,
        };
        match op {
            Operation::JMP_IMM | Operation::JE_IMM | Operation::JNE_IMM => match self.next_word(1) {
                Err(e) => Some(Err(e)),
                Ok(a) => Some(
                    Ok(
                        if taken {
                            Some(a)
                        } else {
                            None
                        },
                    ),
                ),
            },
            _ => {
                let r1 = match self.next_reg(1) {
                    Ok(x) => x,
                    Err(e) => return Some(Err(e)),
                };
                if taken {
                    match self.reg_value(r1) {
                        None => None,
                        Some(a) => Some(Ok(Some(a))),
                    }
                } else {
                    Some(Ok(None))
                }
            },
        }
    }

    /// Runs one instruction, or reports with `None` that the machine cannot run it (it panics):
    /// `CALL`, `CALL_IMM` and `RET`, an access to a memory cell or a register that does not
    /// exist, or a big-endian operand that does not lie in the code. On `None` the machine is
    /// left unchanged; otherwise the outcome is that of `spec_cycle`.
    pub fn try_cycle(&mut self) -> (r: Option<Result<(), RuntimeError>>)
        ensures
            match spec_cycle(old(self)@) {
                None => r is None && final(self)@ == old(self)@,
                Some((s1, res)) => r == Some(res) && final(self)@ == s1,
            },
    {
        let pc = self.current_instruction;
        if pc as usize >= self.code.len() {
            return Some(Err(RuntimeError::InstructionOOB));
        }
        let op_code = self.code[pc as usize];
        let op = match Operation::from_u8(op_code) {
            Some(o) => o,
            None => return Some(Err(RuntimeError::InvalidOPCode(op_code))),
        };
        let ghost s0 = self@;
        let step = match op {
            Operation::HALT => return Some(Err(RuntimeError::Halted)),
            Operation::NOP => Some(Ok(None)),
            Operation::MOV | Operation::MOV_IMM | Operation::LOAD | Operation::LOAD_REL
            | Operation::LOAD_IMM => self.exec_load(op),
            Operation::STORE_R_R | Operation::STORE_REL_R | Operation::STORE_IMM_R
            | Operation::STORE_R_IMM | Operation::STORE_REL_IMM | Operation::STORE_IMM_IMM => self.exec_store(op),
            Operation::PUSH | Operation::PUSH_M | Operation::PUSH_IMM => self.exec_push(op),
            Operation::POP | Operation::POP_M | Operation::POP_IMM => self.exec_pop(op),
            Operation::JMP | Operation::JMP_IMM | Operation::JE | Operation::JE_IMM
            | Operation::JNE | Operation::JNE_IMM => self.exec_jump(op),
            Operation::CALL | Operation::CALL_IMM | Operation::RET => None,
            _ => self.exec_alu(op),
        };
        match step {
            None => None,
            Some(Err(e)) => Some(Err(e)),
            Some(Ok(target)) => {
                let offset = op.arg_type().to_offset();
                let next: u16 = ((pc as u32 + offset as u32) % 0x10000) as u16;
                self.current_instruction = match target {
                    Some(a) => a,
                    None => next,
                };
                Some(Ok(()))
            },
        }
    }

    /// Runs one instruction on a state on which the machine does not panic (see `try_cycle`).
    pub fn cycle(&mut self) -> (r: Result<(), RuntimeError>)
        requires
            spec_cycle(old(self)@) is Some,
        ensures
            (final(self)@, r) == spec_cycle(old(self)@)->Some_0,
    {
        match self.try_cycle() {
            Some(r) => r,
            None => Err(RuntimeError::InvalidCode),
        }
    }
}

fn takes_imm(op: Operation) -> (r: bool)
    ensures
        r == alu_takes_imm(op),
{
    match op {
        Operation::ADD_IMM | Operation::SUB_IMM | Operation::AND_IMM | Operation::OR_IMM
        | Operation::XOR_IMM | Operation::SHL_IMM | Operation::SHR_IMM | Operation::CMP_IMM => true,
        _ => false,
    }
}

fn compute_alu(op: Operation, a: u16, b: u16) -> (r: u16)
    ensures
        r == alu_result(op, a, b),
{
    match op {
        Operation::ADD | Operation::ADD_IMM => ((a as u32 + b as u32) % 0x10000) as u16,
        Operation::SUB | Operation::SUB_IMM => ((a as u32 + 0x10000 - b as u32) % 0x10000) as u16,
        Operation::AND | Operation::AND_IMM => a & b,
        Operation::OR | Operation::OR_IMM => a | b,
        Operation::XOR | Operation::XOR_IMM => a ^ b,
        Operation::SHL | Operation::SHL_IMM => a << (b % 16),
        _ => a >> (b % 16),
    }
}

/// A cycle never changes the code, the size of the data memory or the size of the register
/// file.
pub proof fn lemma_cycle_frame(s: SimpleState)
    requires
        spec_cycle(s) is Some,
    ensures
        spec_cycle(s)->Some_0.0.code == s.code,
        spec_cycle(s)->Some_0.0.memory.len() == s.memory.len(),
        spec_cycle(s)->Some_0.0.registers.len() == s.registers.len(),
{
    if s.pc < s.code.len() {
        if let Some(op) = spec_op_from_code(s.code[s.pc as int]) {
            lemma_execute_keeps_code_and_pc(s, op);
            lemma_execute_sizes(s, op);
        }
    }
}

proof fn lemma_execute_sizes(s: SimpleState, op: Operation)
    ensures
        spec_execute(s, op) matches Some((s1, _)) ==> s1.memory.len() == s.memory.len()
            && s1.registers.len() == s.registers.len(),
{
    match op {
        Operation::PUSH | Operation::PUSH_M | Operation::PUSH_IMM => {},
        Operation::POP | Operation::POP_M | Operation::POP_IMM => {},
        _ => {},
    }
}

/// Only a compare touches the `equal` flag.
pub proof fn lemma_only_compares_set_equal(s: SimpleState, op: Operation)
    requires
        !(op is CMP || op is CMP_IMM),
    ensures
        spec_execute(s, op) matches Some((s1, _)) ==> s1.equal == s.equal,
{
    match op {
        Operation::PUSH | Operation::PUSH_M | Operation::PUSH_IMM => {
            lemma_push_keeps_equal(s, op);
        },
        Operation::POP | Operation::POP_M | Operation::POP_IMM => {
            lemma_pop_keeps_equal(s, op);
        },
        Operation::JMP | Operation::JMP_IMM | Operation::JE | Operation::JE_IMM | Operation::JNE
        | Operation::JNE_IMM => {},
        Operation::HALT | Operation::NOP | Operation::CALL | Operation::CALL_IMM | Operation::RET => {},
        Operation::MOV | Operation::MOV_IMM | Operation::LOAD | Operation::LOAD_REL
        | Operation::LOAD_IMM => {},
        Operation::STORE_R_R | Operation::STORE_REL_R | Operation::STORE_IMM_R
        | Operation::STORE_R_IMM | Operation::STORE_REL_IMM | Operation::STORE_IMM_IMM => {},
        _ => {
            lemma_alu_keeps_equal(s, op);
        },
    }
}

proof fn lemma_push_keeps_equal(s: SimpleState, op: Operation)
    ensures
        spec_push(s, op) matches Some((s1, _)) ==> s1.equal == s.equal,
{
}

proof fn lemma_pop_keeps_equal(s: SimpleState, op: Operation)
    ensures
        spec_pop(s, op) matches Some((s1, _)) ==> s1.equal == s.equal,
{
}

proof fn lemma_alu_keeps_equal(s: SimpleState, op: Operation)
    requires
        !(op is CMP || op is CMP_IMM),
    ensures
        spec_alu(s, op) matches Some((s1, _)) ==> s1.equal == s.equal,
{
}

/// After a compare of two equal values `JE` jumps and `JNE` falls through, and the other way
/// round after a compare of different values.
pub proof fn lemma_compare_then_jump(s: SimpleState, op: Operation)
    requires
        op is CMP || op is CMP_IMM,
        spec_alu(s, op) matches Some((_, Ok(_))),
    ensures
        ({
            let s1 = spec_alu(s, op)->Some_0.0;
            let (_, a, b) = alu_operands(s, op)->Some_0->Ok_0;
            &&& jump_taken(Operation::JE, s1.equal) == (a == b)
            &&& jump_taken(Operation::JNE, s1.equal) == (a != b)
            &&& s1.registers == s.registers
        }),
{
}

/// An instruction with an immediate operand is its opcode followed by the immediate's two
/// bytes: when it does not jump, the program counter moves past both.
pub proof fn lemma_immediate_length(s: SimpleState, op: Operation)
    requires
        op is PUSH_IMM || op is POP_IMM || op is JMP_IMM || op is JE_IMM || op is JNE_IMM
            || op is CALL_IMM,
        s.pc < s.code.len(),
        s.code[s.pc as int] == spec_op_code(op),
        spec_cycle(s) matches Some((s1, Ok(()))),
        spec_execute(s, op) matches Some((_, Ok(None))),
    ensures
        spec_to_offset(spec_arg_type(op)) == 3,
        spec_cycle(s)->Some_0.0.pc == (s.pc + 3) % 0x10000,
{
}

/// The byte at `pc + off` of the code, as a number.
pub open spec fn code_byte(s: SimpleState, off: int) -> int {
    s.code[s.pc + off] as int
}

/// The word of the two bytes at `pc + off` of the code, low byte first on a little-endian
/// machine and high byte first otherwise, as a number.
pub open spec fn code_native_word(s: SimpleState, off: int) -> int {
    if s.little_endian {
        s.code[s.pc + off] as int + s.code[s.pc + off + 1] as int * 256
    } else {
        s.code[s.pc + off] as int * 256 + s.code[s.pc + off + 1] as int
    }
}

/// The state after an instruction of `len` bytes at `pc` that changed nothing else.
pub open spec fn advanced(s: SimpleState, len: int) -> SimpleState {
    SimpleState { pc: ((s.pc + len) % 0x10000) as u16, ..s }
}

/// `LOAD a, b` (`20 a b`) sets register `a` to the memory cell whose address is in register
/// `b`, and nothing else but the program counter changes.
pub proof fn lemma_load(s: SimpleState)
    requires
        s.pc + 3 <= s.code.len(),
        s.code[s.pc as int] == 0x20,
        code_byte(s, 1) <= 16 && code_byte(s, 1) < s.registers.len(),
        code_byte(s, 2) <= 16 && code_byte(s, 2) < s.registers.len(),
        s.registers[code_byte(s, 2)] < s.memory.len(),
    ensures
        spec_cycle(s) == Some(
            (
                SimpleState {
                    registers: s.registers.update(
                        code_byte(s, 1),
                        s.memory[s.registers[code_byte(s, 2)] as int],
                    ),
                    ..advanced(s, 3)
                },
                Ok::<(), RuntimeError>(()),
            ),
        ),
{
    lemma_register_bytes(s.code[s.pc + 1]);
    lemma_register_bytes(s.code[s.pc + 2]);
}

/// `MOV a, b` (`10 a b`) copies register `b` into register `a`.
pub proof fn lemma_mov(s: SimpleState)
    requires
        s.pc + 3 <= s.code.len(),
        s.code[s.pc as int] == 0x10,
        code_byte(s, 1) <= 16 && code_byte(s, 1) < s.registers.len(),
        code_byte(s, 2) <= 16 && code_byte(s, 2) < s.registers.len(),
    ensures
        spec_cycle(s) == Some(
            (
                SimpleState {
                    registers: s.registers.update(code_byte(s, 1), s.registers[code_byte(s, 2)]),
                    ..advanced(s, 3)
                },
                Ok::<(), RuntimeError>(()),
            ),
        ),
{
    lemma_register_bytes(s.code[s.pc + 1]);
    lemma_register_bytes(s.code[s.pc + 2]);
}

/// `STORE_R_R a, b` (`30 a b`) writes register `b` into the memory cell whose address is in
/// register `a`.
pub proof fn lemma_store_r_r(s: SimpleState)
    requires
        s.pc + 3 <= s.code.len(),
        s.code[s.pc as int] == 0x30,
        code_byte(s, 1) <= 16 && code_byte(s, 1) < s.registers.len(),
        code_byte(s, 2) <= 16 && code_byte(s, 2) < s.registers.len(),
        s.registers[code_byte(s, 1)] < s.memory.len(),
    ensures
        spec_cycle(s) == Some(
            (
                SimpleState {
                    memory: s.memory.update(
                        s.registers[code_byte(s, 1)] as int,
                        s.registers[code_byte(s, 2)],
                    ),
                    ..advanced(s, 3)
                },
                Ok::<(), RuntimeError>(()),
            ),
        ),
{
    lemma_register_bytes(s.code[s.pc + 1]);
    lemma_register_bytes(s.code[s.pc + 2]);
}

/// `JMP_IMM w` (`B1 w`) always jumps to `w`, `JE_IMM w` (`B3 w`) exactly when `equal` is set,
/// and `JNE_IMM w` (`B7 w`) exactly when it is clear; otherwise the program counter moves past
/// the instruction. Nothing else changes.
pub proof fn lemma_immediate_jumps(s: SimpleState)
    requires
        s.pc + 3 <= s.code.len(),
        s.code[s.pc as int] == 0xB1 || s.code[s.pc as int] == 0xB3 || s.code[s.pc as int] == 0xB7,
    ensures
        ({
            let c = s.code[s.pc as int];
            let taken = c == 0xB1 || (c == 0xB3 && s.equal) || (c == 0xB7 && !s.equal);
            spec_cycle(s) == Some(
                (
                    if taken {
                        SimpleState { pc: code_native_word(s, 1) as u16, ..s }
                    } else {
                        advanced(s, 3)
                    },
                    Ok::<(), RuntimeError>(()),
                ),
            )
        }),
{
}

/// `JMP a` (`B0 a`) always jumps to the address in register `a`, `JE a` (`B2 a`) exactly when
/// `equal` is set, and `JNE a` (`B6 a`) exactly when it is clear; otherwise the program counter
/// moves past the instruction. Nothing else changes.
pub proof fn lemma_register_jumps(s: SimpleState)
    requires
        s.pc + 2 <= s.code.len(),
        s.code[s.pc as int] == 0xB0 || s.code[s.pc as int] == 0xB2 || s.code[s.pc as int] == 0xB6,
        code_byte(s, 1) <= 16 && code_byte(s, 1) < s.registers.len(),
    ensures
        ({
            let c = s.code[s.pc as int];
            let taken = c == 0xB0 || (c == 0xB2 && s.equal) || (c == 0xB6 && !s.equal);
            spec_cycle(s) == Some(
                (
                    if taken {
                        SimpleState { pc: s.registers[code_byte(s, 1)], ..s }
                    } else {
                        advanced(s, 2)
                    },
                    Ok::<(), RuntimeError>(()),
                ),
            )
        }),
{
    lemma_register_bytes(s.code[s.pc + 1]);
}

/// `CMP a, b` (`80 a b`) sets `equal` exactly when registers `a` and `b` hold the same value,
/// and changes nothing else but the program counter.
pub proof fn lemma_compare(s: SimpleState)
    requires
        s.pc + 3 <= s.code.len(),
        s.code[s.pc as int] == 0x80,
        code_byte(s, 1) <= 16 && code_byte(s, 1) < s.registers.len(),
        code_byte(s, 2) <= 16 && code_byte(s, 2) < s.registers.len(),
    ensures
        spec_cycle(s) == Some(
            (
                SimpleState {
                    equal: s.registers[code_byte(s, 1)] == s.registers[code_byte(s, 2)],
                    ..advanced(s, 3)
                },
                Ok::<(), RuntimeError>(()),
            ),
        ),
{
    lemma_register_bytes(s.code[s.pc + 1]);
    lemma_register_bytes(s.code[s.pc + 2]);
}

/// The value that the arithmetic, logic or shift operation with opcode byte `c` computes from
/// `a` and `b`: sum and difference modulo 2^16, and, or, exclusive or, left and right shift by
/// `b` modulo 16.
pub open spec fn arith_value(c: u8, a: u16, b: u16) -> u16 {
    if c == 0x40 || c == 0x41 {
        ((a + b) % 0x10000) as u16
    } else if c == 0x42 || c == 0x43 {
        ((a - b + 0x10000) % 0x10000) as u16
    } else if c == 0x50 || c == 0x51 {
        a & b
    } else if c == 0x52 || c == 0x53 {
        a | b
    } else if c == 0x54 || c == 0x55 {
        a ^ b
    } else if c == 0x70 || c == 0x71 {
        a << (b % 16)
    } else {
        a >> (b % 16)
    }
}

/// `ADD`, `SUB`, `AND`, `OR`, `XOR`, `SHL`, `SHR` with a register second operand (even opcode)
/// or an immediate one in the machine's byte order (odd opcode) set register `a` to
/// `arith_value` of its value and the second operand; `equal` and memory stay as they were.
pub proof fn lemma_arithmetic(s: SimpleState)
    requires
        ({
            let c = s.code[s.pc as int];
            c == 0x40 || c == 0x41 || c == 0x42 || c == 0x43 || c == 0x50 || c == 0x51 || c == 0x52
                || c == 0x53 || c == 0x54 || c == 0x55 || c == 0x70 || c == 0x71 || c == 0x72 || c
                == 0x73
        }),
        s.pc + 4 <= s.code.len(),
        code_byte(s, 1) <= 16 && code_byte(s, 1) < s.registers.len(),
        s.code[s.pc as int] % 2 == 0 ==> code_byte(s, 2) <= 16 && code_byte(s, 2) < s.registers.len(),
    ensures
        ({
            let c = s.code[s.pc as int];
            let reg = c % 2 == 0;
            let b: u16 = if reg {
                s.registers[code_byte(s, 2)]
            } else {
                code_native_word(s, 2) as u16
            };
            spec_cycle(s) == Some(
                (
                    SimpleState {
                        registers: s.registers.update(
                            code_byte(s, 1),
                            arith_value(c, s.registers[code_byte(s, 1)], b),
                        ),
                        ..advanced(s, if reg { 3 } else { 4 })
                    },
                    Ok::<(), RuntimeError>(()),
                ),
            )
        }),
{
    lemma_register_bytes(s.code[s.pc + 1]);
    lemma_register_bytes(s.code[s.pc + 2]);
}

/// `CMP_IMM a, w` (`81 a w`, `w` in the machine's byte order) sets `equal` exactly when
/// register `a` holds `w`.
pub proof fn lemma_compare_immediate(s: SimpleState)
    requires
        s.pc + 4 <= s.code.len(),
        s.code[s.pc as int] == 0x81,
        code_byte(s, 1) <= 16 && code_byte(s, 1) < s.registers.len(),
    ensures
        spec_cycle(s) == Some(
            (
                SimpleState {
                    equal: s.registers[code_byte(s, 1)] as int == code_native_word(s, 2),
                    ..advanced(s, 4)
                },
                Ok::<(), RuntimeError>(()),
            ),
        ),
{
    lemma_register_bytes(s.code[s.pc + 1]);
}

/// `MOV_IMM a, w` (`11 a w`, `w` in the machine's byte order) sets register `a` to `w`.
pub proof fn lemma_mov_imm(s: SimpleState)
    requires
        s.pc + 4 <= s.code.len(),
        s.code[s.pc as int] == 0x11,
        code_byte(s, 1) <= 16 && code_byte(s, 1) < s.registers.len(),
    ensures
        spec_cycle(s) == Some(
            (
                SimpleState {
                    registers: s.registers.update(code_byte(s, 1), code_native_word(s, 2) as u16),
                    ..advanced(s, 4)
                },
                Ok::<(), RuntimeError>(()),
            ),
        ),
{
    lemma_register_bytes(s.code[s.pc + 1]);
}

/// `STORE_IMM_IMM w, v` (`35 w v`, both in the machine's byte order) writes `v` into the cell at
/// address `w`.
pub proof fn lemma_store_imm_imm(s: SimpleState)
    requires
        s.pc + 5 <= s.code.len(),
        s.code[s.pc as int] == 0x35,
        code_native_word(s, 1) < s.memory.len(),
    ensures
        spec_cycle(s) == Some(
            (
                SimpleState {
                    memory: s.memory.update(code_native_word(s, 1), code_native_word(s, 3) as u16),
                    ..advanced(s, 5)
                },
                Ok::<(), RuntimeError>(()),
            ),
        ),
{
}

/// `STORE_R_IMM a, w` (`33 a w`, `w` big-endian) writes `w` into the cell whose address is in
/// register `a`.
pub proof fn lemma_store_r_imm(s: SimpleState)
    requires
        s.pc + 4 <= s.code.len(),
        s.pc + 4 <= 0xFFFF,
        s.code[s.pc as int] == 0x33,
        code_byte(s, 1) <= 16 && code_byte(s, 1) < s.registers.len(),
        s.registers[code_byte(s, 1)] < s.memory.len(),
    ensures
        spec_cycle(s) == Some(
            (
                SimpleState {
                    memory: s.memory.update(
                        s.registers[code_byte(s, 1)] as int,
                        (s.code[s.pc + 2] as int * 256 + s.code[s.pc + 3] as int) as u16,
                    ),
                    ..advanced(s, 4)
                },
                Ok::<(), RuntimeError>(()),
            ),
        ),
{
    lemma_register_bytes(s.code[s.pc + 1]);
}

/// `PUSH_IMM w` (`92 w`, in the machine's byte order) moves the stack pointer down by one,
/// wrapping around, and writes `w` there.
pub proof fn lemma_push_immediate(s: SimpleState)
    requires
        s.pc + 3 <= s.code.len(),
        s.code[s.pc as int] == 0x92,
        16 < s.registers.len(),
        (s.registers[16] + 0xFFFF) % 0x10000 < s.memory.len(),
    ensures
        ({
            let sp = ((s.registers[16] + 0xFFFF) % 0x10000) as u16;
            spec_cycle(s) == Some(
                (
                    SimpleState {
                        registers: s.registers.update(16, sp),
                        memory: s.memory.update(sp as int, code_native_word(s, 1) as u16),
                        ..advanced(s, 3)
                    },
                    Ok::<(), RuntimeError>(()),
                ),
            )
        }),
{
}

/// `POP a` (`A0 a`) writes the word at the top of the stack into register `a`, then moves the
/// stack pointer (as it then is) up by one, wrapping around.
pub proof fn lemma_pop(s: SimpleState)
    requires
        s.pc + 2 <= s.code.len(),
        s.code[s.pc as int] == 0xA0,
        16 < s.registers.len(),
        code_byte(s, 1) <= 16,
        s.registers[16] < s.memory.len(),
    ensures
        ({
            let regs = s.registers.update(code_byte(s, 1), s.memory[s.registers[16] as int]);
            spec_cycle(s) == Some(
                (
                    SimpleState {
                        registers: regs.update(16, ((regs[16] + 1) % 0x10000) as u16),
                        ..advanced(s, 2)
                    },
                    Ok::<(), RuntimeError>(()),
                ),
            )
        }),
{
    lemma_register_bytes(s.code[s.pc + 1]);
}

} // verus!
