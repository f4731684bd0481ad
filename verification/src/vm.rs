//! The virtual machine that runs linked executables, one instruction per `cycle`.
use vstd::prelude::*;
use vstd::slice::{slice_subrange, slice_to_vec};

use crate::isa::{
    spec_arg_type, spec_flag_bits, spec_op_from_code, spec_operand_size, spec_operands,
    spec_operands_size, spec_register_from_u8, spec_register_index, spec_to_offset, Arguments,
    Flags, OperandKind, Operation, Register,
};
use crate::linker::{lemma_link_header, spec_link, LinkerModel};

verus! {

/// The ways a cycle of the machine can stop.
#[derive(Debug, Clone, Copy, PartialEq, Eq, Structural)]
pub enum RuntimeError {
    InstructionOOB,
    MemoryOOB,
    InvalidOPCode(u8),
    InvalidRegister,
    InvalidCode,
    OffsetOOB,
    Halted,
    StackOverflow,
    DivisionByZero,
}

/// Index of the stack pointer in the register file.
pub open spec fn rsp_index() -> usize {
    16
}

/// Number of words of data memory a fresh machine has.
pub const MEMORY_WORDS: usize = 0xFFFF;

/// Bytes of executable header that precede the code region (`"vmrx"`).
pub const HEADER_BYTES: usize = 4;

/// The abstract state of the machine.
#[verifier::ext_equal]
pub struct VmState {
    pub code: Seq<u8>,
    pub memory: Seq<u16>,
    pub flags: u16,
    pub pc: u16,
    pub registers: Seq<u16>,
    pub output: Seq<u16>,
}

/// The machine: a byte-addressed code region, a word-addressed data memory holding the stack,
/// a register file, the flags register and the program counter. Cells printed by the
/// `PRINT` system call wait in `output` until they are taken.
pub struct VirtualMachine {
    code: Vec<u8>,
    memory: Vec<u16>,
    flags: u16,
    current_instruction: u16,
    registers: Vec<u16>,
    output: Vec<u16>,
}

impl View for VirtualMachine {
    type V = VmState;

    closed spec fn view(&self) -> VmState {
        VmState {
            code: self.code@,
            memory: self.memory@,
            flags: self.flags,
            pc: self.current_instruction,
            registers: self.registers@,
            output: self.output@,
        }
    }
}

/// Big-endian value of two bytes.
pub open spec fn be16(hi: u8, lo: u8) -> u16 {
    (hi as int * 256 + lo as int) as u16
}

/// The byte at `pc + off` of the code region.
pub open spec fn fetch_u8(s: VmState, off: int) -> Result<u8, RuntimeError> {
    if s.pc + off < s.code.len() {
        Ok(s.code[s.pc + off])
    } else {
        Err(RuntimeError::InstructionOOB)
    }
}

/// The big-endian word at `pc + off` of the code region.
pub open spec fn fetch_u16(s: VmState, off: int) -> Result<u16, RuntimeError> {
    if s.pc + off + 2 <= s.code.len() {
        Ok(be16(s.code[s.pc + off], s.code[s.pc + off + 1]))
    } else {
        Err(RuntimeError::InstructionOOB)
    }
}

/// The big-endian two's complement word at `pc + off` of the code region.
pub open spec fn fetch_i16(s: VmState, off: int) -> Result<i16, RuntimeError> {
    match fetch_u16(s, off) {
        Ok(v) => Ok(v as i16),
        Err(e) => Err(e),
    }
}

/// The register named by the byte at `pc + off`.
pub open spec fn fetch_reg(s: VmState, off: int) -> Result<usize, RuntimeError> {
    match fetch_u8(s, off) {
        Ok(b) => match spec_register_from_u8(b) {
            Some(r) => Ok(spec_register_index(r) as usize),
            None => Err(RuntimeError::InvalidRegister),
        },
        Err(e) => Err(e),
    }
}

pub open spec fn read_reg(s: VmState, r: int) -> Result<u16, RuntimeError> {
    if 0 <= r < s.registers.len() {
        Ok(s.registers[r])
    } else {
        Err(RuntimeError::InvalidRegister)
    }
}

pub open spec fn write_reg(s: VmState, r: int, v: u16) -> Result<VmState, RuntimeError> {
    if 0 <= r < s.registers.len() {
        Ok(VmState { registers: s.registers.update(r, v), ..s })
    } else {
        Err(RuntimeError::InvalidRegister)
    }
}

pub open spec fn read_mem(s: VmState, a: int) -> Result<u16, RuntimeError> {
    if 0 <= a < s.memory.len() {
        Ok(s.memory[a])
    } else {
        Err(RuntimeError::MemoryOOB)
    }
}

pub open spec fn write_mem(s: VmState, a: int, v: u16) -> Result<VmState, RuntimeError> {
    if 0 <= a < s.memory.len() {
        Ok(VmState { memory: s.memory.update(a, v), ..s })
    } else {
        Err(RuntimeError::MemoryOOB)
    }
}

/// Where a data-moving instruction writes a register and what value, read before any change.
pub open spec fn load_source(s: VmState, op: Operation) -> Result<(usize, u16), RuntimeError> {
    match op {
        Operation::MOV => match fetch_reg(s, 1) {
            Err(e) => Err(e),
            Ok(r1) => match fetch_reg(s, 2) {
                Err(e) => Err(e),
                Ok(r2) => match read_reg(s, r2 as int) {
                    Err(e) => Err(e),
                    Ok(v) => Ok((r1, v)),
                },
            },
        },
        Operation::MOV_IMM => match fetch_reg(s, 1) {
            Err(e) => Err(e),
            Ok(r1) => match fetch_u16(s, 2) {
                Err(e) => Err(e),
                Ok(v) => Ok((r1, v)),
            },
        },
        Operation::LOAD => match fetch_reg(s, 1) {
            Err(e) => Err(e),
            Ok(r1) => match fetch_reg(s, 2) {
                Err(e) => Err(e),
                Ok(r2) => match read_reg(s, r2 as int) {
                    Err(e) => Err(e),
                    Ok(a) => match read_mem(s, a as int) {
                        Err(e) => Err(e),
                        Ok(v) => Ok((r1, v)),
                    },
                },
            },
        },
        Operation::LOAD_REL => match fetch_reg(s, 1) {
            Err(e) => Err(e),
            Ok(r1) => match fetch_i16(s, 2) {
                Err(e) => Err(e),
                Ok(off) => match fetch_reg(s, 4) {
                    Err(e) => Err(e),
                    Ok(r3) => match read_reg(s, r1 as int) {
                        Err(e) => Err(e),
                        Ok(base) => match read_mem(s, base as int + off as int) {
                            Err(e) => Err(e),
                            Ok(v) => Ok((r3, v)),
                        },
                    },
                },
            },
        },
        _ => match fetch_u16(s, 1) {
            // LOAD_IMM
            Err(e) => Err(e),
            Ok(a) => match fetch_reg(s, 3) {
                Err(e) => Err(e),
                Ok(r2) => match read_mem(s, a as int) {
                    Err(e) => Err(e),
                    Ok(v) => Ok((r2, v)),
                },
            },
        },
    }
}

/// Where a store instruction writes memory and what value, read before any change.
pub open spec fn store_target(s: VmState, op: Operation) -> Result<(int, u16), RuntimeError> {
    match op {
        Operation::STORE_R_R => match fetch_reg(s, 1) {
            Err(e) => Err(e),
            Ok(r1) => match fetch_reg(s, 2) {
                Err(e) => Err(e),
                Ok(r2) => match read_reg(s, r2 as int) {
                    Err(e) => Err(e),
                    Ok(v) => match read_reg(s, r1 as int) {
                        Err(e) => Err(e),
                        Ok(a) => Ok((a as int, v)),
                    },
                },
            },
        },
        Operation::STORE_REL_R => match fetch_reg(s, 1) {
            Err(e) => Err(e),
            Ok(r1) => match fetch_i16(s, 2) {
                Err(e) => Err(e),
                Ok(off) => match fetch_reg(s, 4) {
                    Err(e) => Err(e),
                    Ok(r3) => match read_reg(s, r1 as int) {
                        Err(e) => Err(e),
                        Ok(base) => match read_reg(s, r3 as int) {
                            Err(e) => Err(e),
                            Ok(v) => Ok((base as int + off as int, v)),
                        },
                    },
                },
            },
        },
        Operation::STORE_IMM_R => match fetch_u16(s, 1) {
            Err(e) => Err(e),
            Ok(a) => match fetch_reg(s, 3) {
                Err(e) => Err(e),
                Ok(r2) => match read_reg(s, r2 as int) {
                    Err(e) => Err(e),
                    Ok(v) => Ok((a as int, v)),
                },
            },
        },
        Operation::STORE_R_IMM => match fetch_reg(s, 1) {
            Err(e) => Err(e),
            Ok(r1) => match fetch_u16(s, 2) {
                Err(e) => Err(e),
                Ok(v) => match read_reg(s, r1 as int) {
                    Err(e) => Err(e),
                    Ok(a) => Ok((a as int, v)),
                },
            },
        },
        Operation::STORE_REL_IMM => match fetch_reg(s, 1) {
            Err(e) => Err(e),
            Ok(r1) => match fetch_i16(s, 2) {
                Err(e) => Err(e),
                Ok(off) => match fetch_u16(s, 4) {
                    Err(e) => Err(e),
                    Ok(v) => match read_reg(s, r1 as int) {
                        Err(e) => Err(e),
                        Ok(base) => Ok((base as int + off as int, v)),
                    },
                },
            },
        },
        _ => match fetch_u16(s, 1) {
            // STORE_IMM_IMM
            Err(e) => Err(e),
            Ok(a) => match fetch_u16(s, 3) {
                Err(e) => Err(e),
                Ok(v) => Ok((a as int, v)),
            },
        },
    }
}

/// Whether an arithmetic or logic operation takes its second operand as an immediate.
pub open spec fn alu_takes_imm(op: Operation) -> bool {
    match op {
        Operation::ADD_IMM | Operation::SUB_IMM | Operation::AND_IMM | Operation::OR_IMM
        | Operation::XOR_IMM | Operation::SHL_IMM | Operation::SHR_IMM | Operation::CMP_IMM => true,
        _ => false,
    }
}

/// The destination register and the two operand values of an arithmetic or logic operation.
pub open spec fn alu_operands(s: VmState, op: Operation) -> Result<(usize, u16, u16), RuntimeError> {
    match fetch_reg(s, 1) {
        Err(e) => Err(e),
        Ok(r1) => {
            let second: Result<u16, RuntimeError> = if alu_takes_imm(op) {
                fetch_u16(s, 2)
            } else {
                match fetch_reg(s, 2) {
                    Err(e) => Err(e),
                    Ok(r2) => read_reg(s, r2 as int),
                }
            };
            match second {
                Err(e) => Err(e),
                Ok(b) => match read_reg(s, r1 as int) {
                    Err(e) => Err(e),
                    Ok(a) => Ok((r1, a, b)),
                },
            }
        },
    }
}

/// The sign bit of a word.
pub open spec fn negative(x: int) -> bool {
    x >= 0x8000
}

/// The flags word after adding `b` to `a`.
pub open spec fn add_flags(a: u16, b: u16) -> u16 {
    let res = (a + b) % 0x10000;
    let e: int = if res == 0 { 1 } else { 0 };
    let n: int = if negative(res) { 2 } else { 0 };
    let o: int = if negative(a as int) == negative(b as int) && negative(res) != negative(a as int) {
        4
    } else {
        0
    };
    let c: int = if a + b > 0xFFFF { 8 } else { 0 };
    (e + n + o + c) as u16
}

/// The flags word after subtracting `b` from `a`.
pub open spec fn sub_flags(a: u16, b: u16) -> u16 {
    let res = (a - b + 0x10000) % 0x10000;
    let e: int = if res == 0 { 1 } else { 0 };
    let n: int = if negative(res) { 2 } else { 0 };
    let o: int = if negative(a as int) != negative(b as int) && negative(res) != negative(a as int) {
        4
    } else {
        0
    };
    let c: int = if a < b { 8 } else { 0 };
    (e + n + o + c) as u16
}

/// The value an arithmetic or logic operation computes from its operands.
pub open spec fn alu_result(op: Operation, a: u16, b: u16) -> u16 {
    match op {
        Operation::ADD | Operation::ADD_IMM => ((a + b) % 0x10000) as u16,
        Operation::SUB | Operation::SUB_IMM | Operation::CMP | Operation::CMP_IMM => ((a - b
            + 0x10000) % 0x10000) as u16,
        Operation::AND | Operation::AND_IMM => a & b,
        Operation::OR | Operation::OR_IMM => a | b,
        Operation::XOR | Operation::XOR_IMM => a ^ b,
        Operation::SHL | Operation::SHL_IMM => a << (b % 16),
        _ => a >> (b % 16),
    }
}

/// One arithmetic, logic, shift or compare instruction. Additions, subtractions and compares
/// recompute all flags; a compare writes no register.
pub open spec fn spec_alu(s: VmState, op: Operation) -> (VmState, Result<Option<u16>, RuntimeError>) {
    match alu_operands(s, op) {
        Err(e) => (s, Err(e)),
        Ok((r1, a, b)) => {
            let res = alu_result(op, a, b);
            match op {
                Operation::CMP | Operation::CMP_IMM => (
                    VmState { flags: sub_flags(a, b), ..s },
                    Ok(None),
                ),
                _ => match write_reg(s, r1 as int, res) {
                    Err(e) => (s, Err(e)),
                    Ok(s1) => match op {
                        Operation::ADD | Operation::ADD_IMM => (
                            VmState { flags: add_flags(a, b), ..s1 },
                            Ok(None),
                        ),
                        Operation::SUB | Operation::SUB_IMM => (
                            VmState { flags: sub_flags(a, b), ..s1 },
                            Ok(None),
                        ),
                        _ => (s1, Ok(None)),
                    },
                },
            }
        },
    }
}

/// `DIV_MOD`: divides `R1` by the operand register; the quotient goes to `R0` and the
/// remainder to `R1`.
pub open spec fn spec_div_mod(s: VmState) -> (VmState, Result<Option<u16>, RuntimeError>) {
    match fetch_reg(s, 1) {
        Err(e) => (s, Err(e)),
        Ok(r) => match read_reg(s, r as int) {
            Err(e) => (s, Err(e)),
            Ok(d) => match read_reg(s, 1) {
                Err(e) => (s, Err(e)),
                Ok(n) => if d == 0 {
                    (s, Err(RuntimeError::DivisionByZero))
                } else {
                    (
                        VmState {
                            registers: s.registers.update(0, (n / d) as u16).update(
                                1,
                                (n % d) as u16,
                            ),
                            ..s
                        },
                        Ok(None),
                    )
                },
            },
        },
    }
}

/// Decrements the stack pointer and writes `v` at its new value.
pub open spec fn push_word(s: VmState, v: u16) -> (VmState, Result<Option<u16>, RuntimeError>) {
    match read_reg(s, rsp_index() as int) {
        Err(e) => (s, Err(e)),
        Ok(rsp) => if rsp == 0 {
            (s, Err(RuntimeError::StackOverflow))
        } else {
            match write_reg(s, rsp_index() as int, (rsp - 1) as u16) {
                Err(e) => (s, Err(e)),
                Ok(s1) => match write_mem(s1, rsp - 1, v) {
                    Err(e) => (s1, Err(e)),
                    Ok(s2) => (s2, Ok(None)),
                },
            }
        },
    }
}

/// `PUSH`, `PUSH_M` and `PUSH_IMM`.
pub open spec fn spec_push(s: VmState, op: Operation) -> (VmState, Result<Option<u16>, RuntimeError>) {
    match op {
        Operation::PUSH => match fetch_reg(s, 1) {
            Err(e) => (s, Err(e)),
            Ok(r1) => match read_reg(s, r1 as int) {
                Err(e) => (s, Err(e)),
                Ok(v) => push_word(s, v),
            },
        },
        Operation::PUSH_IMM => match fetch_u16(s, 1) {
            Err(e) => (s, Err(e)),
            Ok(v) => push_word(s, v),
        },
        _ => match fetch_reg(s, 1) {
            // PUSH_M: the stack pointer moves before the source cell is read.
            Err(e) => (s, Err(e)),
            Ok(r1) => match read_reg(s, rsp_index() as int) {
                Err(e) => (s, Err(e)),
                Ok(rsp) => if rsp == 0 {
                    (s, Err(RuntimeError::StackOverflow))
                } else {
                    match write_reg(s, rsp_index() as int, (rsp - 1) as u16) {
                        Err(e) => (s, Err(e)),
                        Ok(s1) => match read_reg(s1, r1 as int) {
                            Err(e) => (s1, Err(e)),
                            Ok(a) => match read_mem(s1, a as int) {
                                Err(e) => (s1, Err(e)),
                                Ok(v) => match write_mem(s1, rsp - 1, v) {
                                    Err(e) => (s1, Err(e)),
                                    Ok(s2) => (s2, Ok(None)),
                                },
                            },
                        },
                    }
                },
            },
        },
    }
}

/// Increments the stack pointer, as read from state `s`.
pub open spec fn pop_tail(s: VmState) -> (VmState, Result<Option<u16>, RuntimeError>) {
    match read_reg(s, rsp_index() as int) {
        Err(e) => (s, Err(e)),
        Ok(rsp) => if rsp == 0xFFFF {
            (s, Err(RuntimeError::StackOverflow))
        } else {
            match write_reg(s, rsp_index() as int, (rsp + 1) as u16) {
                Err(e) => (s, Err(e)),
                Ok(s1) => (s1, Ok(None)),
            }
        },
    }
}

/// The word at the top of the stack.
pub open spec fn stack_top(s: VmState) -> Result<u16, RuntimeError> {
    match read_reg(s, rsp_index() as int) {
        Err(e) => Err(e),
        Ok(rsp) => read_mem(s, rsp as int),
    }
}

/// `POP`, `POP_M` and `POP_IMM`: the word at the top of the stack is written to the
/// destination, then the stack pointer (read again) is incremented.
pub open spec fn spec_pop(s: VmState, op: Operation) -> (VmState, Result<Option<u16>, RuntimeError>) {
    match op {
        Operation::POP => match fetch_reg(s, 1) {
            Err(e) => (s, Err(e)),
            Ok(r1) => match stack_top(s) {
                Err(e) => (s, Err(e)),
                Ok(v) => match write_reg(s, r1 as int, v) {
                    Err(e) => (s, Err(e)),
                    Ok(s1) => pop_tail(s1),
                },
            },
        },
        Operation::POP_IMM => match fetch_u16(s, 1) {
            Err(e) => (s, Err(e)),
            Ok(a) => match stack_top(s) {
                Err(e) => (s, Err(e)),
                Ok(v) => match write_mem(s, a as int, v) {
                    Err(e) => (s, Err(e)),
                    Ok(s1) => pop_tail(s1),
                },
            },
        },
        _ => match fetch_reg(s, 1) {
            // POP_M: the destination cell is named by the operand register.
            Err(e) => (s, Err(e)),
            Ok(r1) => match stack_top(s) {
                Err(e) => (s, Err(e)),
                Ok(v) => match read_reg(s, r1 as int) {
                    Err(e) => (s, Err(e)),
                    Ok(a) => match write_mem(s, a as int, v) {
                        Err(e) => (s, Err(e)),
                        Ok(s1) => pop_tail(s1),
                    },
                },
            },
        },
    }
}

pub open spec fn flag_set(flags: u16, f: Flags) -> bool {
    flags & spec_flag_bits(f) != 0
}

/// Whether a jump operation jumps with the given flags.
pub open spec fn jump_taken(op: Operation, flags: u16) -> bool {
    let e = flag_set(flags, Flags::Equals);
    let n = flag_set(flags, Flags::Negative);
    let o = flag_set(flags, Flags::Overflow);
    let c = flag_set(flags, Flags::Carry);
    match op {
        Operation::JZ => e,
        Operation::JNZ => !e,
        Operation::JA => !c && !e,
        Operation::JB | Operation::JC => c,
        Operation::JAE | Operation::JNC => !c,
        Operation::JBE => c || e,
        Operation::JN => n,
        Operation::JNN => !n,
        Operation::JO => o,
        Operation::JNO => !o,
        _ => true,
    }
}

/// The jumps: the target is the immediate operand.
pub open spec fn spec_jump(s: VmState, op: Operation) -> (VmState, Result<Option<u16>, RuntimeError>) {
    match fetch_u16(s, 1) {
        Err(e) => (s, Err(e)),
        Ok(a) => (s, Ok(if jump_taken(op, s.flags) { Some(a) } else { None })),
    }
}

/// `CALL`: pushes the address after the instruction, then jumps to the immediate.
pub open spec fn spec_call(s: VmState) -> (VmState, Result<Option<u16>, RuntimeError>) {
    match fetch_u16(s, 1) {
        Err(e) => (s, Err(e)),
        Ok(a) => if s.pc + 3 > 0xFFFF {
            (s, Err(RuntimeError::InstructionOOB))
        } else {
            let (s1, r) = push_word(s, (s.pc + 3) as u16);
            match r {
                Err(e) => (s1, Err(e)),
                Ok(_) => (s1, Ok(Some(a))),
            }
        },
    }
}

/// `RET`: pops the return address and jumps to it.
pub open spec fn spec_ret(s: VmState) -> (VmState, Result<Option<u16>, RuntimeError>) {
    match read_reg(s, rsp_index() as int) {
        Err(e) => (s, Err(e)),
        Ok(rsp) => match read_mem(s, rsp as int) {
            Err(e) => (s, Err(e)),
            Ok(ret) => if rsp == 0xFFFF {
                (s, Err(RuntimeError::StackOverflow))
            } else {
                match write_reg(s, rsp_index() as int, (rsp + 1) as u16) {
                    Err(e) => (s, Err(e)),
                    Ok(s1) => (s1, Ok(Some(ret))),
                }
            },
        },
    }
}

/// `SYSCALL`: `R1` selects the call; call 1 (`PRINT`) appends the `R3` memory cells that start
/// at address `R2` to the output. Other call numbers are invalid.
pub open spec fn spec_syscall(s: VmState) -> (VmState, Result<Option<u16>, RuntimeError>) {
    match read_reg(s, 1) {
        Err(e) => (s, Err(e)),
        Ok(n) => if n != 1 {
            (s, Err(RuntimeError::InvalidCode))
        } else {
            match read_reg(s, 2) {
                Err(e) => (s, Err(e)),
                Ok(start) => match read_reg(s, 3) {
                    Err(e) => (s, Err(e)),
                    Ok(count) => if start + count > s.memory.len() {
                        (s, Err(RuntimeError::MemoryOOB))
                    } else {
                        (
                            VmState {
                                output: s.output + s.memory.subrange(
                                    start as int,
                                    start + count,
                                ),
                                ..s
                            },
                            Ok(None),
                        )
                    },
                },
            }
        },
    }
}

/// The effect of executing operation `op` at `pc`: the new state and, on success, the jump
/// target if the instruction transfers control.
pub open spec fn spec_execute(s: VmState, op: Operation) -> (VmState, Result<Option<u16>, RuntimeError>) {
    match op {
        Operation::HALT => (s, Err(RuntimeError::Halted)),
        Operation::NOP => (s, Ok(None)),
        Operation::MOV | Operation::MOV_IMM | Operation::LOAD | Operation::LOAD_REL
        | Operation::LOAD_IMM => match load_source(s, op) {
            Err(e) => (s, Err(e)),
            Ok((r, v)) => match write_reg(s, r as int, v) {
                Err(e) => (s, Err(e)),
                Ok(s1) => (s1, Ok(None)),
            },
        },
        Operation::STORE_R_R | Operation::STORE_REL_R | Operation::STORE_IMM_R
        | Operation::STORE_R_IMM | Operation::STORE_REL_IMM | Operation::STORE_IMM_IMM => match store_target(s, op) {
            Err(e) => (s, Err(e)),
            Ok((a, v)) => match write_mem(s, a, v) {
                Err(e) => (s, Err(e)),
                Ok(s1) => (s1, Ok(None)),
            },
        },
        Operation::DIV_MOD => spec_div_mod(s),
        Operation::PUSH | Operation::PUSH_M | Operation::PUSH_IMM => spec_push(s, op),
        Operation::POP | Operation::POP_M | Operation::POP_IMM => spec_pop(s, op),
        Operation::JMP | Operation::JZ | Operation::JNZ | Operation::JA | Operation::JB
        | Operation::JAE | Operation::JBE | Operation::JN | Operation::JNN | Operation::JO
        | Operation::JNO | Operation::JC | Operation::JNC => spec_jump(s, op),
        Operation::CALL => spec_call(s),
        Operation::RET => spec_ret(s),
        Operation::SYSCALL => spec_syscall(s),
        _ => spec_alu(s, op),
    }
}

/// The address of the instruction after the one at `pc`.
pub open spec fn spec_next_addr(s: VmState) -> Result<u16, RuntimeError> {
    if s.pc >= s.code.len() {
        Err(RuntimeError::InstructionOOB)
    } else {
        match spec_op_from_code(s.code[s.pc as int]) {
            None => Err(RuntimeError::InvalidOPCode(s.code[s.pc as int])),
            Some(op) => {
                let next = s.pc + spec_to_offset(spec_arg_type(op));
                if next > 0xFFFF {
                    Err(RuntimeError::InstructionOOB)
                } else {
                    Ok(next as u16)
                }
            },
        }
    }
}

/// One cycle: decode the instruction at `pc`, execute it, then move `pc` to the jump target
/// or to the next instruction. On an error the state is left as the failing instruction left it.
pub open spec fn spec_cycle(s: VmState) -> (VmState, Result<(), RuntimeError>) {
    if s.pc >= s.code.len() {
        (s, Err(RuntimeError::InstructionOOB))
    } else {
        match spec_op_from_code(s.code[s.pc as int]) {
            None => (s, Err(RuntimeError::InvalidOPCode(s.code[s.pc as int]))),
            Some(op) => {
                let (s1, r) = spec_execute(s, op);
                match r {
                    Err(e) => (s1, Err(e)),
                    Ok(Some(addr)) => (VmState { pc: addr, ..s1 }, Ok(())),
                    Ok(None) => {
                        let next = s.pc + spec_to_offset(spec_arg_type(op));
                        if next > 0xFFFF {
                            (s1, Err(RuntimeError::InstructionOOB))
                        } else {
                            (VmState { pc: next as u16, ..s1 }, Ok(()))
                        }
                    },
                }
            },
        }
    }
}

impl VirtualMachine {
    fn next_u8(&self, offset: u16) -> (r: Result<u8, RuntimeError>)
        ensures
            r == fetch_u8(self@, offset as int),
    {
        let idx = self.current_instruction as usize + offset as usize;
        if idx < self.code.len() {
            Ok(self.code[idx])
        } else {
            Err(RuntimeError::InstructionOOB)
        }
    }

    fn next_u16(&self, offset: u16) -> (r: Result<u16, RuntimeError>)
        ensures
            r == fetch_u16(self@, offset as int),
    {
        let idx = self.current_instruction as usize + offset as usize;
        if idx < self.code.len() && idx + 1 < self.code.len() {
            let hi = self.code[idx];
            let lo = self.code[idx + 1];
            Ok(hi as u16 * 256 + lo as u16)
        } else {
            Err(RuntimeError::InstructionOOB)
        }
    }

    fn next_i16(&self, offset: u16) -> (r: Result<i16, RuntimeError>)
        ensures
            r == fetch_i16(self@, offset as int),
    {
        let v = self.next_u16(offset)?;
        Ok(v as i16)
    }

    fn next_reg(&self, offset: u16) -> (r: Result<usize, RuntimeError>)
        ensures
            r == fetch_reg(self@, offset as int),
            r matches Ok(i) ==> i <= 16,
    {
        let reg_byte = self.next_u8(offset)?;
        match Register::from_u8(reg_byte) {
            Some(reg) => Ok(reg.index() as usize),
            None => Err(RuntimeError::InvalidRegister),
        }
    }

    fn get_mem(&self, address: usize) -> (r: Result<u16, RuntimeError>)
        ensures
            r == read_mem(self@, address as int),
    {
        if address < self.memory.len() {
            Ok(self.memory[address])
        } else {
            Err(RuntimeError::MemoryOOB)
        }
    }

    fn set_mem(&mut self, address: usize, value: u16) -> (r: Result<(), RuntimeError>)
        ensures
            match write_mem(old(self)@, address as int, value) {
                Ok(s) => r is Ok && final(self)@ == s,
                Err(e) => r == Err::<(), RuntimeError>(e) && final(self)@ == old(self)@,
            },
    {
        if address < self.memory.len() {
            self.memory.set(address, value);
            Ok(())
        } else {
            Err(RuntimeError::MemoryOOB)
        }
    }

    fn get_reg(&self, register: usize) -> (r: Result<u16, RuntimeError>)
        ensures
            r == read_reg(self@, register as int),
    {
        if register < self.registers.len() {
            Ok(self.registers[register])
        } else {
            Err(RuntimeError::InvalidRegister)
        }
    }

    fn set_reg(&mut self, register: usize, value: u16) -> (r: Result<(), RuntimeError>)
        ensures
            match write_reg(old(self)@, register as int, value) {
                Ok(s) => r is Ok && final(self)@ == s,
                Err(e) => r == Err::<(), RuntimeError>(e) && final(self)@ == old(self)@,
            },
    {
        if register < self.registers.len() {
            self.registers.set(register, value);
            Ok(())
        } else {
            Err(RuntimeError::InvalidRegister)
        }
    }
}

/// Whether an operation is one of the register-writing data moves.
pub open spec fn is_load_op(op: Operation) -> bool {
    op is MOV || op is MOV_IMM || op is LOAD || op is LOAD_REL || op is LOAD_IMM
}

pub open spec fn is_store_op(op: Operation) -> bool {
    op is STORE_R_R || op is STORE_REL_R || op is STORE_IMM_R || op is STORE_R_IMM
        || op is STORE_REL_IMM || op is STORE_IMM_IMM
}

pub open spec fn is_jump_op(op: Operation) -> bool {
    op is JMP || op is JZ || op is JNZ || op is JA || op is JB || op is JAE || op is JBE || op is JN
        || op is JNN || op is JO || op is JNO || op is JC || op is JNC
}

pub open spec fn is_alu_op(op: Operation) -> bool {
    op is ADD || op is ADD_IMM || op is SUB || op is SUB_IMM || op is AND || op is AND_IMM || op is OR
        || op is OR_IMM || op is XOR || op is XOR_IMM || op is SHL || op is SHL_IMM || op is SHR
        || op is SHR_IMM || op is CMP || op is CMP_IMM
}

fn takes_imm(op: Operation) -> (r: bool)
    ensures
        r == alu_takes_imm(op),
{
    match op {
        Operation::ADD_IMM | Operation::SUB_IMM | Operation::AND_IMM | Operation::OR_IMM
        | Operation::XOR_IMM | Operation::SHL_IMM | Operation::SHR_IMM | Operation::CMP_IMM => true,
        _ => false,
    }
}

fn compute_add_flags(a: u16, b: u16) -> (r: u16)
    ensures
        r == add_flags(a, b),
{
    let sum: u32 = a as u32 + b as u32;
    let res: u32 = sum % 0x10000;
    let e: u16 = if res == 0 { 1 } else { 0 };
    let n: u16 = if res >= 0x8000 { 2 } else { 0 };
    let o: u16 = if (a >= 0x8000) == (b >= 0x8000) && (res >= 0x8000) != (a >= 0x8000) {
        4
    } else {
        0
    };
    let c: u16 = if sum > 0xFFFF { 8 } else { 0 };
    e + n + o + c
}

fn compute_sub_flags(a: u16, b: u16) -> (r: u16)
    ensures
        r == sub_flags(a, b),
{
    let res: u32 = (a as u32 + 0x10000 - b as u32) % 0x10000;
    let e: u16 = if res == 0 { 1 } else { 0 };
    let n: u16 = if res >= 0x8000 { 2 } else { 0 };
    let o: u16 = if (a >= 0x8000) != (b >= 0x8000) && (res >= 0x8000) != (a >= 0x8000) {
        4
    } else {
        0
    };
    let c: u16 = if a < b { 8 } else { 0 };
    e + n + o + c
}

fn compute_alu(op: Operation, a: u16, b: u16) -> (r: u16)
    ensures
        r == alu_result(op, a, b),
{
    match op {
        Operation::ADD | Operation::ADD_IMM => ((a as u32 + b as u32) % 0x10000) as u16,
        Operation::SUB | Operation::SUB_IMM | Operation::CMP | Operation::CMP_IMM => ((a as u32
            + 0x10000 - b as u32) % 0x10000) as u16,
        Operation::AND | Operation::AND_IMM => a & b,
        Operation::OR | Operation::OR_IMM => a | b,
        Operation::XOR | Operation::XOR_IMM => a ^ b,
        Operation::SHL | Operation::SHL_IMM => a << (b % 16),
        _ => a >> (b % 16),
    }
}

fn jump_condition(op: Operation, flags: u16) -> (r: bool)
    ensures
        r == jump_taken(op, flags),
{
    let e = flags & Flags::Equals.bits() != 0;
    let n = flags & Flags::Negative.bits() != 0;
    let o = flags & Flags::Overflow.bits() != 0;
    let c = flags & Flags::Carry.bits() != 0;
    match op {
        Operation::JZ => e,
        Operation::JNZ => !e,
        Operation::JA => !c && !e,
        Operation::JB | Operation::JC => c,
        Operation::JAE | Operation::JNC => !c,
        Operation::JBE => c || e,
        Operation::JN => n,
        Operation::JNN => !n,
        Operation::JO => o,
        Operation::JNO => !o,
        _ => true,
    }
}

impl VirtualMachine {
    fn exec_load(&mut self, op: Operation) -> (r: Result<Option<u16>, RuntimeError>)
        requires
            is_load_op(op),
        ensures
            (final(self)@, r) == spec_execute(old(self)@, op),
    {
        let (dst, v) = match op {
            Operation::MOV => {
                let r1 = self.next_reg(1)?;
                let r2 = self.next_reg(2)?;
                let v = self.get_reg(r2)?;
                (r1, v)
            },
            Operation::MOV_IMM => {
                let r1 = self.next_reg(1)?;
                let v = self.next_u16(2)?;
                (r1, v)
            },
            Operation::LOAD => {
                let r1 = self.next_reg(1)?;
                let r2 = self.next_reg(2)?;
                let a = self.get_reg(r2)?;
                let v = self.get_mem(a as usize)?;
                (r1, v)
            },
            Operation::LOAD_REL => {
                let r1 = self.next_reg(1)?;
                let off = self.next_i16(2)?;
                let r3 = self.next_reg(4)?;
                let base = self.get_reg(r1)?;
                let addr: i32 = base as i32 + off as i32;
                if addr < 0 {
                    return Err(RuntimeError::MemoryOOB);
                }
                let v = self.get_mem(addr as usize)?;
                (r3, v)
            },
            _ => {
                let a = self.next_u16(1)?;
                let r2 = self.next_reg(3)?;
                let v = self.get_mem(a as usize)?;
                (r2, v)
            },
        };
        self.set_reg(dst, v)?;
        Ok(None)
    }

    fn exec_store(&mut self, op: Operation) -> (r: Result<Option<u16>, RuntimeError>)
        requires
            is_store_op(op),
        ensures
            (final(self)@, r) == spec_execute(old(self)@, op),
    {
        let (addr, v): (i32, u16) = match op {
            Operation::STORE_R_R => {
                let r1 = self.next_reg(1)?;
                let r2 = self.next_reg(2)?;
                let v = self.get_reg(r2)?;
                let a = self.get_reg(r1)?;
                (a as i32, v)
            },
            Operation::STORE_REL_R => {
                let r1 = self.next_reg(1)?;
                let off = self.next_i16(2)?;
                let r3 = self.next_reg(4)?;
                let base = self.get_reg(r1)?;
                let v = self.get_reg(r3)?;
                (base as i32 + off as i32, v)
            },
            Operation::STORE_IMM_R => {
                let a = self.next_u16(1)?;
                let r2 = self.next_reg(3)?;
                let v = self.get_reg(r2)?;
                (a as i32, v)
            },
            Operation::STORE_R_IMM => {
                let r1 = self.next_reg(1)?;
                let v = self.next_u16(2)?;
                let a = self.get_reg(r1)?;
                (a as i32, v)
            },
            Operation::STORE_REL_IMM => {
                let r1 = self.next_reg(1)?;
                let off = self.next_i16(2)?;
                let v = self.next_u16(4)?;
                let base = self.get_reg(r1)?;
                (base as i32 + off as i32, v)
            },
            _ => {
                let a = self.next_u16(1)?;
                let v = self.next_u16(3)?;
                (a as i32, v)
            },
        };
        if addr < 0 {
            return Err(RuntimeError::MemoryOOB);
        }
        self.set_mem(addr as usize, v)?;
        Ok(None)
    }

    fn exec_alu(&mut self, op: Operation) -> (r: Result<Option<u16>, RuntimeError>)
        requires
            is_alu_op(op),
        ensures
            (final(self)@, r) == spec_execute(old(self)@, op),
    {
        let r1 = self.next_reg(1)?;
        let b = if takes_imm(op) {
            self.next_u16(2)?
        } else {
            let r2 = self.next_reg(2)?;
            self.get_reg(r2)?
        };
        let a = self.get_reg(r1)?;
        let res = compute_alu(op, a, b);
        match op {
            Operation::CMP | Operation::CMP_IMM => {
                self.flags = compute_sub_flags(a, b);
            },
            Operation::ADD | Operation::ADD_IMM => {
                self.set_reg(r1, res)?;
                self.flags = compute_add_flags(a, b);
            },
            Operation::SUB | Operation::SUB_IMM => {
                self.set_reg(r1, res)?;
                self.flags = compute_sub_flags(a, b);
            },
            _ => {
                self.set_reg(r1, res)?;
            },
        }
        Ok(None)
    }

    fn exec_div_mod(&mut self) -> (r: Result<Option<u16>, RuntimeError>)
        ensures
            (final(self)@, r) == spec_execute(old(self)@, Operation::DIV_MOD),
    {
        let reg = self.next_reg(1)?;
        let d = self.get_reg(reg)?;
        let n = self.get_reg(1)?;
        if d == 0 {
            return Err(RuntimeError::DivisionByZero);
        }
        self.set_reg(0, n / d)?;
        self.set_reg(1, n % d)?;
        Ok(None)
    }

    fn push_word(&mut self, v: u16) -> (r: Result<Option<u16>, RuntimeError>)
        ensures
            (final(self)@, r) == push_word(old(self)@, v),
    {
        let rsp = self.get_reg(16)?;
        if rsp == 0 {
            return Err(RuntimeError::StackOverflow);
        }
        self.set_reg(16, rsp - 1)?;
        self.set_mem((rsp - 1) as usize, v)?;
        Ok(None)
    }

    fn exec_push(&mut self, op: Operation) -> (r: Result<Option<u16>, RuntimeError>)
        requires
            op is PUSH || op is PUSH_M || op is PUSH_IMM,
        ensures
            (final(self)@, r) == spec_execute(old(self)@, op),
    {
        match op {
            Operation::PUSH => {
                let r1 = self.next_reg(1)?;
                let v = self.get_reg(r1)?;
                self.push_word(v)
            },
            Operation::PUSH_IMM => {
                let v = self.next_u16(1)?;
                self.push_word(v)
            },
            _ => {
                let r1 = self.next_reg(1)?;
                let rsp = self.get_reg(16)?;
                if rsp == 0 {
                    return Err(RuntimeError::StackOverflow);
                }
                self.set_reg(16, rsp - 1)?;
                let a = self.get_reg(r1)?;
                let v = self.get_mem(a as usize)?;
                self.set_mem((rsp - 1) as usize, v)?;
                Ok(None)
            },
        }
    }

    fn stack_top(&self) -> (r: Result<u16, RuntimeError>)
        ensures
            r == stack_top(self@),
    {
        let rsp = self.get_reg(16)?;
        self.get_mem(rsp as usize)
    }

    fn pop_tail(&mut self) -> (r: Result<Option<u16>, RuntimeError>)
        ensures
            (final(self)@, r) == pop_tail(old(self)@),
    {
        let rsp = self.get_reg(16)?;
        if rsp == 0xFFFF {
            return Err(RuntimeError::StackOverflow);
        }
        self.set_reg(16, rsp + 1)?;
        Ok(None)
    }

    fn exec_pop(&mut self, op: Operation) -> (r: Result<Option<u16>, RuntimeError>)
        requires
            op is POP || op is POP_M || op is POP_IMM,
        ensures
            (final(self)@, r) == spec_execute(old(self)@, op),
    {
        match op {
            Operation::POP => {
                let r1 = self.next_reg(1)?;
                let v = self.stack_top()?;
                self.set_reg(r1, v)?;
                self.pop_tail()
            },
            Operation::POP_IMM => {
                let a = self.next_u16(1)?;
                let v = self.stack_top()?;
                self.set_mem(a as usize, v)?;
                self.pop_tail()
            },
            _ => {
                let r1 = self.next_reg(1)?;
                let v = self.stack_top()?;
                let a = self.get_reg(r1)?;
                self.set_mem(a as usize, v)?;
                self.pop_tail()
            },
        }
    }

    fn exec_jump(&self, op: Operation) -> (r: Result<Option<u16>, RuntimeError>)
        requires
            is_jump_op(op),
        ensures
            (self@, r) == spec_execute(self@, op),
    {
        let a = self.next_u16(1)?;
        if jump_condition(op, self.flags) {
            Ok(Some(a))
        } else {
            Ok(None)
        }
    }

    fn exec_call(&mut self) -> (r: Result<Option<u16>, RuntimeError>)
        requires
            old(self)@.pc < old(self)@.code.len(),
            spec_op_from_code(old(self)@.code[old(self)@.pc as int]) == Some(Operation::CALL),
        ensures
            (final(self)@, r) == spec_execute(old(self)@, Operation::CALL),
    {
        let a = self.next_u16(1)?;
        let ret = self.next_instruction_addr()?;
        self.push_word(ret)?;
        Ok(Some(a))
    }

    fn exec_ret(&mut self) -> (r: Result<Option<u16>, RuntimeError>)
        ensures
            (final(self)@, r) == spec_execute(old(self)@, Operation::RET),
    {
        let rsp = self.get_reg(16)?;
        let ret = self.get_mem(rsp as usize)?;
        if rsp == 0xFFFF {
            return Err(RuntimeError::StackOverflow);
        }
        self.set_reg(16, rsp + 1)?;
        Ok(Some(ret))
    }

    fn exec_syscall(&mut self) -> (r: Result<Option<u16>, RuntimeError>)
        ensures
            (final(self)@, r) == spec_execute(old(self)@, Operation::SYSCALL),
    {
        let n = self.get_reg(1)?;
        if n != 1 {
            return Err(RuntimeError::InvalidCode);
        }
        let start = self.get_reg(2)?;
        let count = self.get_reg(3)?;
        let end: usize = start as usize + count as usize;
        if end > self.memory.len() {
            return Err(RuntimeError::MemoryOOB);
        }
        let ghost old_output = self.output@;
        let mut i: usize = start as usize;
        while i < end
            invariant
                start <= i <= end <= self.memory@.len(),
                self.output@ == old_output + self.memory@.subrange(start as int, i as int),
                self.code@ == old(self)@.code,
                self.memory@ == old(self)@.memory,
                self.registers@ == old(self)@.registers,
                self.flags == old(self)@.flags,
                self.current_instruction == old(self)@.pc,
                old_output == old(self)@.output,
            decreases end - i,
        {
            let cell = self.memory[i];
            self.output.push(cell);
            assert(self.memory@.subrange(start as int, i + 1) =~= self.memory@.subrange(
                start as int,
                i as int,
            ).push(cell));
            i += 1;
        }
        Ok(None)
    }

    fn next_instruction_addr(&self) -> (r: Result<u16, RuntimeError>)
        ensures
            r == spec_next_addr(self@),
    {
        let pc = self.current_instruction as usize;
        if pc >= self.code.len() {
            return Err(RuntimeError::InstructionOOB);
        }
        let op_num = self.code[pc];
        let curr_op = match Operation::from_u8(op_num) {
            Some(op) => op,
            None => return Err(RuntimeError::InvalidOPCode(op_num)),
        };
        let offset = curr_op.arg_type().to_offset() as u16;
        self.current_instruction.checked_add(offset).ok_or(RuntimeError::InstructionOOB)
    }

    /// Runs one instruction. On success the program counter has moved to the jump target or
    /// to the next instruction; `Err(Halted)` reports a `HALT` and leaves the machine unchanged.
    pub fn cycle(&mut self) -> (r: Result<(), RuntimeError>)
        ensures
            (final(self)@, r) == spec_cycle(old(self)@),
    {
        let pc = self.current_instruction as usize;
        if pc >= self.code.len() {
            return Err(RuntimeError::InstructionOOB);
        }
        let op_code = self.code[pc];
        let op = match Operation::from_u8(op_code) {
            Some(o) => o,
            None => return Err(RuntimeError::InvalidOPCode(op_code)),
        };
        let ghost s0 = self@;
        let new_addr = match op {
            Operation::HALT => return Err(RuntimeError::Halted),
            Operation::NOP => None,
            Operation::MOV | Operation::MOV_IMM | Operation::LOAD | Operation::LOAD_REL
            | Operation::LOAD_IMM => self.exec_load(op)?,
            Operation::STORE_R_R | Operation::STORE_REL_R | Operation::STORE_IMM_R
            | Operation::STORE_R_IMM | Operation::STORE_REL_IMM | Operation::STORE_IMM_IMM => self.exec_store(op)?,
            Operation::DIV_MOD => self.exec_div_mod()?,
            Operation::PUSH | Operation::PUSH_M | Operation::PUSH_IMM => self.exec_push(op)?,
            Operation::POP | Operation::POP_M | Operation::POP_IMM => self.exec_pop(op)?,
            Operation::JMP | Operation::JZ | Operation::JNZ | Operation::JA | Operation::JB
            | Operation::JAE | Operation::JBE | Operation::JN | Operation::JNN | Operation::JO
            | Operation::JNO | Operation::JC | Operation::JNC => self.exec_jump(op)?,
            Operation::CALL => self.exec_call()?,
            Operation::RET => self.exec_ret()?,
            Operation::SYSCALL => self.exec_syscall()?,
            _ => self.exec_alu(op)?,
        };
        proof {
            lemma_execute_keeps_code_and_pc(s0, op);
        }
        match new_addr {
            Some(addr) => {
                self.current_instruction = addr;
            },
            None => {
                self.current_instruction = self.next_instruction_addr()?;
            },
        }
        Ok(())
    }
}

/// Executing an instruction never changes the code region or the program counter.
proof fn lemma_execute_keeps_code_and_pc(s: VmState, op: Operation)
    ensures
        spec_execute(s, op).0.code == s.code,
        spec_execute(s, op).0.pc == s.pc,
{
}

/// The code region of a machine loaded from an executable image: the image without its
/// header.
pub open spec fn code_region(image: Seq<u8>) -> Seq<u8> {
    if image.len() >= HEADER_BYTES {
        image.subrange(HEADER_BYTES as int, image.len() as int)
    } else {
        Seq::empty()
    }
}

/// The index one past the last nonzero cell of `mem`, or 0 when every cell is zero.
pub open spec fn used_prefix_len(mem: Seq<u16>) -> int
    decreases mem.len(),
{
    if mem.len() == 0 {
        0
    } else if mem.last() != 0 {
        mem.len() as int
    } else {
        used_prefix_len(mem.drop_last())
    }
}

/// Whether `b0`, `b1` are the bytes of the word `w`, low byte first when `little` holds and
/// high byte first otherwise.
pub open spec fn cell_bytes(little: bool, w: u16, b0: u8, b1: u8) -> bool {
    if little {
        b0 == (w % 256) as u8 && b1 == (w / 256) as u8
    } else {
        b0 == (w / 256) as u8 && b1 == (w % 256) as u8
    }
}

/// Whether `bytes` holds the words of `words`, two bytes per word, every word in the one byte
/// order that `little` names.
pub open spec fn words_as_bytes(words: Seq<u16>, bytes: Seq<u8>, little: bool) -> bool {
    &&& bytes.len() == 2 * words.len()
    &&& forall|i: int|
        0 <= i < words.len() ==> cell_bytes(little, #[trigger] words[i], bytes[2 * i], bytes[2 * i + 1])
}

/// The bytes of `words` in memory (`bytemuck::cast_slice`): two per word, every word in the one
/// byte order of the machine it runs on. Which of the two orders that is depends on the machine
/// and is not stated.
#[verifier::external_body]
fn memory_bytes(words: &[u16]) -> (r: Vec<u8>)
    ensures
        words_as_bytes(words@, r@, true) || words_as_bytes(words@, r@, false),
{
    bytemuck::cast_slice::<u16, u8>(words).to_vec()
}

impl VirtualMachine {
    /// A machine about to run the executable `code` (header included) with the register file
    /// `registers`: the code region is `code` without its 4-byte header, data memory is
    /// `0xFFFF` zeroed words, flags are clear and the program counter is 0.
    pub fn from_bytes(code: Vec<u8>, registers: Vec<u16>) -> (vm: VirtualMachine)
        ensures
            vm@.code == code_region(code@),
            vm@.memory == Seq::new(MEMORY_WORDS as nat, |i: int| 0u16),
            vm@.flags == 0,
            vm@.pc == 0,
            vm@.registers == registers@,
            vm@.output == Seq::<u16>::empty(),
    {
        let body: Vec<u8> = if code.len() >= HEADER_BYTES {
            slice_to_vec(slice_subrange(code.as_slice(), HEADER_BYTES, code.len()))
        } else {
            Vec::new()
        };
        let mut memory: Vec<u16> = Vec::new();
        let mut i: usize = 0;
        while i < MEMORY_WORDS
            invariant
                i <= MEMORY_WORDS,
                memory@ == Seq::new(i as nat, |j: int| 0u16),
            decreases MEMORY_WORDS - i,
        {
            memory.push(0);
            i += 1;
            assert(memory@ =~= Seq::new(i as nat, |j: int| 0u16));
        }
        VirtualMachine {
            code: body,
            memory,
            flags: 0,
            current_instruction: 0,
            registers,
            output: Vec::new(),
        }
    }

    /// The register file a program starts with: every register 0 except the stack pointer,
    /// which starts at `0xFFFE`.
    pub fn initial_registers() -> (r: Vec<u16>)
        ensures
            r@.len() == 17,
            r@[rsp_index() as int] == 0xFFFE,
            forall|i: int| 0 <= i < 16 ==> r@[i] == 0,
    {
        let mut r: Vec<u16> = Vec::new();
        let mut i: usize = 0;
        while i < 16
            invariant
                i <= 16,
                r@.len() == i,
                forall|j: int| 0 <= j < i ==> r@[j] == 0,
            decreases 16 - i,
        {
            r.push(0);
            i += 1;
        }
        r.push(0xFFFE);
        r
    }

    /// The code region.
    pub fn code(&self) -> (r: &Vec<u8>)
        ensures
            r@ == self@.code,
    {
        &self.code
    }

    /// The data memory.
    pub fn memory(&self) -> (r: &Vec<u16>)
        ensures
            r@ == self@.memory,
    {
        &self.memory
    }

    /// The register file.
    pub fn registers(&self) -> (r: &Vec<u16>)
        ensures
            r@ == self@.registers,
    {
        &self.registers
    }

    /// The flags register.
    pub fn flags(&self) -> (r: u16)
        ensures
            r == self@.flags,
    {
        self.flags
    }

    /// The program counter, an offset into the code region.
    pub fn current_instruction(&self) -> (r: u16)
        ensures
            r == self@.pc,
    {
        self.current_instruction
    }

    /// Hands over the cells printed since the last call and clears them.
    pub fn take_output(&mut self) -> (r: Vec<u16>)
        ensures
            r@ == old(self)@.output,
            final(self)@ == (VmState { output: Seq::empty(), ..old(self)@ }),
    {
        let mut out: Vec<u16> = Vec::new();
        std::mem::swap(&mut out, &mut self.output);
        out
    }

    /// The data memory as bytes, two per cell, every cell in the one byte order of the machine
    /// it runs on: the content of a binary memory dump.
    pub fn dump_mem_bin(&self) -> (r: Vec<u8>)
        ensures
            words_as_bytes(self@.memory, r@, true) || words_as_bytes(self@.memory, r@, false),
    {
        memory_bytes(self.memory.as_slice())
    }

    /// The cells of a readable memory dump: the memory up to, but not including, its last
    /// nonzero cell; `None` when every cell is zero.
    pub fn dump_mem_readable(&self) -> (r: Option<Vec<u16>>)
        ensures
            match r {
                None => forall|i: int| 0 <= i < self@.memory.len() ==> self@.memory[i] == 0,
                Some(cells) => used_prefix_len(self@.memory) > 0 && cells@
                    == self@.memory.subrange(0, used_prefix_len(self@.memory) - 1),
            },
    {
        let mut n: usize = self.memory.len();
        assert(self.memory@.subrange(0, n as int) =~= self.memory@);
        while n > 0 && self.memory[n - 1] == 0
            invariant
                n <= self.memory@.len(),
                used_prefix_len(self.memory@) == used_prefix_len(self.memory@.subrange(0, n as int)),
                forall|i: int| n <= i < self.memory@.len() ==> self.memory@[i] == 0,
            decreases n,
        {
            assert(self.memory@.subrange(0, n as int).drop_last() =~= self.memory@.subrange(
                0,
                n - 1,
            ));
            n -= 1;
        }
        if n == 0 {
            None
        } else {
            assert(self.memory@.subrange(0, n as int).last() != 0);
            Some(slice_to_vec(slice_subrange(self.memory.as_slice(), 0, n - 1)))
        }
    }
}

proof fn lemma_flag_word_bits(e: u16, n: u16, o: u16, c: u16)
    requires
        e == 0 || e == 1,
        n == 0 || n == 2,
        o == 0 || o == 4,
        c == 0 || c == 8,
    ensures
        ((e + n + o + c) as u16 & 1u16 != 0) == (e == 1),
        ((e + n + o + c) as u16 & 2u16 != 0) == (n == 2),
        ((e + n + o + c) as u16 & 4u16 != 0) == (o == 4),
        ((e + n + o + c) as u16 & 8u16 != 0) == (c == 8),
{
    assert(((e + n + o + c) as u16 & 1u16 != 0) == (e == 1)) by (bit_vector)
        requires
            e == 0 || e == 1,
            n == 0 || n == 2,
            o == 0 || o == 4,
            c == 0 || c == 8,
    ;
    assert(((e + n + o + c) as u16 & 2u16 != 0) == (n == 2)) by (bit_vector)
        requires
            e == 0 || e == 1,
            n == 0 || n == 2,
            o == 0 || o == 4,
            c == 0 || c == 8,
    ;
    assert(((e + n + o + c) as u16 & 4u16 != 0) == (o == 4)) by (bit_vector)
        requires
            e == 0 || e == 1,
            n == 0 || n == 2,
            o == 0 || o == 4,
            c == 0 || c == 8,
    ;
    assert(((e + n + o + c) as u16 & 8u16 != 0) == (c == 8)) by (bit_vector)
        requires
            e == 0 || e == 1,
            n == 0 || n == 2,
            o == 0 || o == 4,
            c == 0 || c == 8,
    ;
}

/// After a compare (or subtraction) of `a` with `b`, the conditional jumps test the unsigned
/// relation of `a` to `b`: `JZ` equal, `JNZ` different, `JA` above, `JAE`/`JNC` above or equal,
/// `JB`/`JC` below, `JBE` below or equal; `JN` tests the sign bit of `a - b`.
pub proof fn lemma_compare_then_jump(a: u16, b: u16)
    ensures
        jump_taken(Operation::JZ, sub_flags(a, b)) == (a == b),
        jump_taken(Operation::JNZ, sub_flags(a, b)) == (a != b),
        jump_taken(Operation::JA, sub_flags(a, b)) == (a > b),
        jump_taken(Operation::JAE, sub_flags(a, b)) == (a >= b),
        jump_taken(Operation::JNC, sub_flags(a, b)) == (a >= b),
        jump_taken(Operation::JB, sub_flags(a, b)) == (a < b),
        jump_taken(Operation::JC, sub_flags(a, b)) == (a < b),
        jump_taken(Operation::JBE, sub_flags(a, b)) == (a <= b),
        jump_taken(Operation::JN, sub_flags(a, b)) == negative((a - b + 0x10000) % 0x10000),
        jump_taken(Operation::JMP, sub_flags(a, b)),
{
    let res = (a - b + 0x10000) % 0x10000;
    let e: u16 = if res == 0 { 1 } else { 0 };
    let n: u16 = if negative(res) { 2 } else { 0 };
    let o: u16 = if negative(a as int) != negative(b as int) && negative(res) != negative(a as int) {
        4
    } else {
        0
    };
    let c: u16 = if a < b { 8 } else { 0 };
    assert(sub_flags(a, b) == (e + n + o + c) as u16);
    lemma_flag_word_bits(e, n, o, c);
}

/// After an addition of `b` to `a`, `JC` jumps exactly on unsigned overflow and `JZ` exactly
/// when the 16-bit sum is zero.
pub proof fn lemma_add_then_jump(a: u16, b: u16)
    ensures
        jump_taken(Operation::JC, add_flags(a, b)) == (a + b > 0xFFFF),
        jump_taken(Operation::JZ, add_flags(a, b)) == ((a + b) % 0x10000 == 0),
{
    let res = (a + b) % 0x10000;
    let e: u16 = if res == 0 { 1 } else { 0 };
    let n: u16 = if negative(res) { 2 } else { 0 };
    let o: u16 = if negative(a as int) == negative(b as int) && negative(res) != negative(a as int) {
        4
    } else {
        0
    };
    let c: u16 = if a + b > 0xFFFF { 8 } else { 0 };
    assert(add_flags(a, b) == (e + n + o + c) as u16);
    lemma_flag_word_bits(e, n, o, c);
}

/// A word pushed on the stack is the word at the top of the stack, and popping it restores the
/// stack pointer.
pub proof fn lemma_push_then_pop(s: VmState, v: u16)
    requires
        push_word(s, v).1 is Ok,
    ensures
        stack_top(push_word(s, v).0) == Ok::<u16, RuntimeError>(v),
        pop_tail(push_word(s, v).0).1 is Ok,
        pop_tail(push_word(s, v).0).0.registers == s.registers,
        pop_tail(push_word(s, v).0).0.memory == push_word(s, v).0.memory,
{
    let rsp = s.registers[16];
    let s1 = push_word(s, v).0;
    assert(s1.registers[16] == rsp - 1);
    assert(s1.registers.update(16, rsp) =~= s.registers);
}

/// A `CALL` followed, at its target, by a `RET` comes back to the instruction after the
/// `CALL` with the stack pointer it had before the call.
pub proof fn lemma_call_then_ret(s: VmState)
    requires
        spec_call(s).1 is Ok,
    ensures
        ({
            let after_call = spec_call(s).0;
            let at_target = VmState { pc: spec_call(s).1->Ok_0->Some_0, ..after_call };
            &&& spec_call(s).1->Ok_0 is Some
            &&& spec_ret(at_target).1 == Ok::<Option<u16>, RuntimeError>(Some((s.pc + 3) as u16))
            &&& spec_ret(at_target).0.registers == s.registers
        }),
{
    let ret = (s.pc + 3) as u16;
    lemma_push_then_pop(s, ret);
}

/// `JB` and `JC` jump on the same flags, and so do `JAE` and `JNC`.
pub proof fn lemma_jump_synonyms(flags: u16)
    ensures
        jump_taken(Operation::JB, flags) == jump_taken(Operation::JC, flags),
        jump_taken(Operation::JAE, flags) == jump_taken(Operation::JNC, flags),
{
}

/// Whether an operation recomputes the flags.
pub open spec fn sets_flags(op: Operation) -> bool {
    match op {
        Operation::ADD | Operation::ADD_IMM | Operation::SUB | Operation::SUB_IMM | Operation::CMP
        | Operation::CMP_IMM => true,
        _ => false,
    }
}

/// No instruction but an addition, a subtraction or a compare touches the flags.
pub proof fn lemma_flags_only_from_arithmetic(s: VmState, op: Operation)
    requires
        !sets_flags(op),
    ensures
        spec_execute(s, op).0.flags == s.flags,
{
}

/// Executing an instruction keeps the size of the data memory and of the register file.
proof fn lemma_execute_sizes(s: VmState, op: Operation)
    ensures
        spec_execute(s, op).0.memory.len() == s.memory.len(),
        spec_execute(s, op).0.registers.len() == s.registers.len(),
{
    match op {
        Operation::DIV_MOD => {},
        Operation::PUSH | Operation::PUSH_M | Operation::PUSH_IMM => {
            lemma_push_sizes(s, op);
        },
        Operation::POP | Operation::POP_M | Operation::POP_IMM => {
            lemma_pop_sizes(s, op);
        },
        Operation::CALL => {},
        Operation::RET => {},
        Operation::SYSCALL => {},
        _ => {},
    }
}

proof fn lemma_push_sizes(s: VmState, op: Operation)
    ensures
        spec_push(s, op).0.memory.len() == s.memory.len(),
        spec_push(s, op).0.registers.len() == s.registers.len(),
{
}

proof fn lemma_pop_sizes(s: VmState, op: Operation)
    ensures
        spec_pop(s, op).0.memory.len() == s.memory.len(),
        spec_pop(s, op).0.registers.len() == s.registers.len(),
{
}

/// A cycle never changes the code region, the size of the data memory or the size of the
/// register file.
pub proof fn lemma_cycle_frame(s: VmState)
    ensures
        spec_cycle(s).0.code == s.code,
        spec_cycle(s).0.memory.len() == s.memory.len(),
        spec_cycle(s).0.registers.len() == s.registers.len(),
{
    if s.pc < s.code.len() {
        if let Some(op) = spec_op_from_code(s.code[s.pc as int]) {
            lemma_execute_keeps_code_and_pc(s, op);
            lemma_execute_sizes(s, op);
        }
    }
}

/// A machine loaded with a linked executable starts at the entry point: its first cycle runs
/// the trampoline, which moves the program counter to the entry point's address and changes
/// nothing else.
pub proof fn lemma_executable_starts_at_entry(l: LinkerModel, entry: Seq<char>, s: VmState)
    requires
        spec_link(l, entry) is Ok,
        s.code == code_region(spec_link(l, entry)->Ok_0),
        s.pc == 0,
    ensures
        spec_cycle(s) == (VmState { pc: l.symbols[entry], ..s }, Ok::<(), RuntimeError>(())),
{
    lemma_link_header(l, entry);
    let image = spec_link(l, entry)->Ok_0;
    assert(s.code[0] == image[4]);
    assert(s.code[1] == image[5] && s.code[2] == image[6]);
}

/// No step of an instruction reports `OffsetOOB`.
proof fn lemma_execute_no_offset_error(s: VmState, op: Operation)
    ensures
        !(spec_execute(s, op).1 matches Err(e) && e is OffsetOOB),
{
    match op {
        Operation::PUSH | Operation::PUSH_M | Operation::PUSH_IMM => {},
        Operation::POP | Operation::POP_M | Operation::POP_IMM => {},
        Operation::CALL => {},
        Operation::RET => {},
        Operation::SYSCALL => {},
        Operation::DIV_MOD => {},
        _ => {},
    }
}

/// A cycle that fails leaves the program counter at the failing instruction, and no cycle
/// reports `OffsetOOB`: an address below 0 or past the last cell is `MemoryOOB`.
pub proof fn lemma_cycle_errors(s: VmState)
    ensures
        spec_cycle(s).1 is Err ==> spec_cycle(s).0.pc == s.pc,
        !(spec_cycle(s).1 matches Err(e) && e is OffsetOOB),
{
    if s.pc < s.code.len() {
        if let Some(op) = spec_op_from_code(s.code[s.pc as int]) {
            lemma_execute_keeps_code_and_pc(s, op);
            lemma_execute_no_offset_error(s, op);
        }
    }
}

/// An instruction whose first operand is a register and whose register byte is present but
/// greater than `0x10` stops with `InvalidRegister`.
pub proof fn lemma_invalid_register(s: VmState)
    requires
        s.pc + 1 < s.code.len(),
        spec_op_from_code(s.code[s.pc as int]) matches Some(op) && spec_operands(spec_arg_type(op)).len() > 0
            && spec_operands(spec_arg_type(op))[0] == OperandKind::Reg,
        s.code[s.pc + 1] > 0x10,
    ensures
        spec_cycle(s).1 == Err::<(), RuntimeError>(RuntimeError::InvalidRegister),
{
    let op = spec_op_from_code(s.code[s.pc as int])->Some_0;
    match op {
        Operation::PUSH | Operation::PUSH_M => {},
        Operation::POP | Operation::POP_M => {},
        Operation::DIV_MOD => {},
        _ => {},
    }
}

/// An instruction cut short by the end of the code stops with `InstructionOOB`, or with
/// `InvalidRegister` when a register byte that is present names no register.
pub proof fn lemma_cut_instruction(s: VmState)
    requires
        s.pc < s.code.len(),
        spec_op_from_code(s.code[s.pc as int]) matches Some(op) && s.pc + spec_to_offset(
            spec_arg_type(op),
        ) > s.code.len(),
    ensures
        spec_cycle(s).1 == Err::<(), RuntimeError>(RuntimeError::InstructionOOB)
            || spec_cycle(s).1 == Err::<(), RuntimeError>(RuntimeError::InvalidRegister),
{
    let op = spec_op_from_code(s.code[s.pc as int])->Some_0;
    match op {
        Operation::PUSH | Operation::PUSH_M | Operation::PUSH_IMM => {},
        Operation::POP | Operation::POP_M | Operation::POP_IMM => {},
        Operation::CALL => {},
        Operation::DIV_MOD => {},
        _ => {},
    }
}


/// The memory cell that the load or store instruction at `pc` reaches, once its operands are
/// decoded and the registers that it reads before the memory access are read; `None` for any
/// other instruction, or when one of those earlier steps fails.
pub open spec fn access_address(s: VmState) -> Option<int> {
    if s.pc >= s.code.len() {
        None
    } else {
        match spec_op_from_code(s.code[s.pc as int]) {
            None => None,
            Some(op) => match op {
                Operation::LOAD => match (fetch_reg(s, 1), fetch_reg(s, 2)) {
                    (Ok(_), Ok(r2)) => match read_reg(s, r2 as int) {
                        Ok(a) => Some(a as int),
                        Err(_) => None,
                    },
                    _ => None,
                },
                Operation::LOAD_REL => match (fetch_reg(s, 1), fetch_i16(s, 2), fetch_reg(s, 4)) {
                    (Ok(r1), Ok(off), Ok(_)) => match read_reg(s, r1 as int) {
                        Ok(base) => Some(base as int + off as int),
                        Err(_) => None,
                    },
                    _ => None,
                },
                Operation::LOAD_IMM => match (fetch_u16(s, 1), fetch_reg(s, 3)) {
                    (Ok(a), Ok(_)) => Some(a as int),
                    _ => None,
                },
                Operation::STORE_R_R | Operation::STORE_REL_R | Operation::STORE_IMM_R
                | Operation::STORE_R_IMM | Operation::STORE_REL_IMM
                | Operation::STORE_IMM_IMM => match store_target(s, op) {
                    Ok((a, _)) => Some(a),
                    Err(_) => None,
                },
                _ => None,
            },
        }
    }
}

/// A load or store whose cell lies below 0 or past the last memory cell (a base register plus
/// a signed offset included) stops with `MemoryOOB`.
pub proof fn lemma_out_of_memory(s: VmState)
    requires
        access_address(s) matches Some(a) && !(0 <= a < s.memory.len()),
    ensures
        spec_cycle(s).1 == Err::<(), RuntimeError>(RuntimeError::MemoryOOB),
{
    let op = spec_op_from_code(s.code[s.pc as int])->Some_0;
    match op {
        Operation::LOAD | Operation::LOAD_REL | Operation::LOAD_IMM => {},
        _ => {},
    }
}

/// What every cycle keeps to, whatever the state: it fails only with the program counter where
/// it was and never with `OffsetOOB`; a first register operand whose byte is above `0x10`
/// fails with `InvalidRegister`; an instruction cut short by the end of the code fails with
/// `InstructionOOB` or `InvalidRegister`; a load or store outside memory fails with `MemoryOOB`.
pub proof fn lemma_cycle_failure_modes(s: VmState)
    ensures
        spec_cycle(s).1 is Err ==> spec_cycle(s).0.pc == s.pc,
        !(spec_cycle(s).1 matches Err(e) && e is OffsetOOB),
        (s.pc + 1 < s.code.len() && (spec_op_from_code(s.code[s.pc as int]) matches Some(op)
            && spec_operands(spec_arg_type(op)).len() > 0 && spec_operands(spec_arg_type(op))[0]
            == OperandKind::Reg) && s.code[s.pc + 1] > 0x10) ==> spec_cycle(s).1 == Err::<
            (),
            RuntimeError,
        >(RuntimeError::InvalidRegister),
        (s.pc < s.code.len() && (spec_op_from_code(s.code[s.pc as int]) matches Some(op) && s.pc
            + spec_to_offset(spec_arg_type(op)) > s.code.len())) ==> (spec_cycle(s).1 == Err::<
            (),
            RuntimeError,
        >(RuntimeError::InstructionOOB) || spec_cycle(s).1 == Err::<(), RuntimeError>(
            RuntimeError::InvalidRegister,
        )),
        (access_address(s) matches Some(a) && !(0 <= a < s.memory.len())) ==> spec_cycle(s).1
            == Err::<(), RuntimeError>(RuntimeError::MemoryOOB),
{
    lemma_cycle_errors(s);
    if s.pc + 1 < s.code.len() && (spec_op_from_code(s.code[s.pc as int]) matches Some(op)
        && spec_operands(spec_arg_type(op)).len() > 0 && spec_operands(spec_arg_type(op))[0]
        == OperandKind::Reg) && s.code[s.pc + 1] > 0x10 {
        lemma_invalid_register(s);
    }
    if s.pc < s.code.len() && (spec_op_from_code(s.code[s.pc as int]) matches Some(op) && s.pc
        + spec_to_offset(spec_arg_type(op)) > s.code.len()) {
        lemma_cut_instruction(s);
    }
    if access_address(s) matches Some(a) && !(0 <= a < s.memory.len()) {
        lemma_out_of_memory(s);
    }
}

/// The byte at `pc + off` of the code region, as a number.
pub open spec fn code_byte(s: VmState, off: int) -> int {
    s.code[s.pc + off] as int
}

/// The big-endian word of the two bytes at `pc + off` of the code region, as a number.
pub open spec fn code_word(s: VmState, off: int) -> int {
    s.code[s.pc + off] as int * 256 + s.code[s.pc + off + 1] as int
}

/// A 16-bit word read as a two's complement number.
pub open spec fn signed16(w: int) -> int {
    if w >= 0x8000 {
        w - 0x10000
    } else {
        w
    }
}

/// The state after an instruction of `len` bytes at `pc` that changed nothing else.
pub open spec fn advanced(s: VmState, len: int) -> VmState {
    VmState { pc: (s.pc + len) as u16, ..s }
}

proof fn lemma_i16_value(v: u16)
    ensures
        (v as i16) as int == signed16(v as int),
{
    assert((v as i16) as int == if v >= 0x8000 { v as int - 0x10000 } else { v as int })
        by (bit_vector);
}

/// `STORE_R_R a, b` (`30 a b`) writes the value of register `b` into the cell whose address is
/// in register `a`, and moves on to the next instruction.
pub proof fn lemma_store_r_r(s: VmState)
    requires
        s.pc + 3 <= s.code.len(),
        s.pc + 3 <= 0xFFFF,
        s.code[s.pc as int] == 0x30,
        code_byte(s, 1) <= 16 && code_byte(s, 1) < s.registers.len(),
        code_byte(s, 2) <= 16 && code_byte(s, 2) < s.registers.len(),
        s.registers[code_byte(s, 1)] < s.memory.len(),
    ensures
        spec_cycle(s) == (
            VmState {
                memory: s.memory.update(
                    s.registers[code_byte(s, 1)] as int,
                    s.registers[code_byte(s, 2)],
                ),
                ..advanced(s, 3)
            },
            Ok::<(), RuntimeError>(()),
        ),
{
}

/// `STORE_R_IMM a, w` (`33 a w`) writes the big-endian immediate `w` into the cell whose
/// address is in register `a`.
pub proof fn lemma_store_r_imm(s: VmState)
    requires
        s.pc + 4 <= s.code.len(),
        s.pc + 4 <= 0xFFFF,
        s.code[s.pc as int] == 0x33,
        code_byte(s, 1) <= 16 && code_byte(s, 1) < s.registers.len(),
        s.registers[code_byte(s, 1)] < s.memory.len(),
    ensures
        spec_cycle(s) == (
            VmState {
                memory: s.memory.update(s.registers[code_byte(s, 1)] as int, code_word(s, 2) as u16),
                ..advanced(s, 4)
            },
            Ok::<(), RuntimeError>(()),
        ),
{
}

/// `STORE_IMM_R w, b` (`32 w b`) writes the value of register `b` into the cell at address `w`.
pub proof fn lemma_store_imm_r(s: VmState)
    requires
        s.pc + 4 <= s.code.len(),
        s.pc + 4 <= 0xFFFF,
        s.code[s.pc as int] == 0x32,
        code_byte(s, 3) <= 16 && code_byte(s, 3) < s.registers.len(),
        code_word(s, 1) < s.memory.len(),
    ensures
        spec_cycle(s) == (
            VmState {
                memory: s.memory.update(code_word(s, 1), s.registers[code_byte(s, 3)]),
                ..advanced(s, 4)
            },
            Ok::<(), RuntimeError>(()),
        ),
{
}

/// `STORE_IMM_IMM w, v` (`35 w v`) writes the immediate `v` into the cell at address `w`.
pub proof fn lemma_store_imm_imm(s: VmState)
    requires
        s.pc + 5 <= s.code.len(),
        s.pc + 5 <= 0xFFFF,
        s.code[s.pc as int] == 0x35,
        code_word(s, 1) < s.memory.len(),
    ensures
        spec_cycle(s) == (
            VmState { memory: s.memory.update(code_word(s, 1), code_word(s, 3) as u16), ..advanced(s, 5) },
            Ok::<(), RuntimeError>(()),
        ),
{
}

/// `STORE_REL_R a, d, b` (`31 a d b`) writes the value of register `b` into the cell at the
/// address in register `a` plus the signed offset `d`.
pub proof fn lemma_store_rel_r(s: VmState)
    requires
        s.pc + 5 <= s.code.len(),
        s.pc + 5 <= 0xFFFF,
        s.code[s.pc as int] == 0x31,
        code_byte(s, 1) <= 16 && code_byte(s, 1) < s.registers.len(),
        code_byte(s, 4) <= 16 && code_byte(s, 4) < s.registers.len(),
        0 <= s.registers[code_byte(s, 1)] + signed16(code_word(s, 2)) < s.memory.len(),
    ensures
        spec_cycle(s) == (
            VmState {
                memory: s.memory.update(
                    s.registers[code_byte(s, 1)] + signed16(code_word(s, 2)),
                    s.registers[code_byte(s, 4)],
                ),
                ..advanced(s, 5)
            },
            Ok::<(), RuntimeError>(()),
        ),
{
    lemma_i16_value(be16(s.code[s.pc + 2], s.code[s.pc + 3]));
}

/// `STORE_REL_IMM a, d, v` (`34 a d v`) writes the immediate `v` into the cell at the address
/// in register `a` plus the signed offset `d`.
pub proof fn lemma_store_rel_imm(s: VmState)
    requires
        s.pc + 6 <= s.code.len(),
        s.pc + 6 <= 0xFFFF,
        s.code[s.pc as int] == 0x34,
        code_byte(s, 1) <= 16 && code_byte(s, 1) < s.registers.len(),
        0 <= s.registers[code_byte(s, 1)] + signed16(code_word(s, 2)) < s.memory.len(),
    ensures
        spec_cycle(s) == (
            VmState {
                memory: s.memory.update(
                    s.registers[code_byte(s, 1)] + signed16(code_word(s, 2)),
                    code_word(s, 4) as u16,
                ),
                ..advanced(s, 6)
            },
            Ok::<(), RuntimeError>(()),
        ),
{
    lemma_i16_value(be16(s.code[s.pc + 2], s.code[s.pc + 3]));
}

/// `MOV a, b` (`10 a b`) copies register `b` into register `a`.
pub proof fn lemma_mov(s: VmState)
    requires
        s.pc + 3 <= s.code.len(),
        s.pc + 3 <= 0xFFFF,
        s.code[s.pc as int] == 0x10,
        code_byte(s, 1) <= 16 && code_byte(s, 1) < s.registers.len(),
        code_byte(s, 2) <= 16 && code_byte(s, 2) < s.registers.len(),
    ensures
        spec_cycle(s) == (
            VmState {
                registers: s.registers.update(code_byte(s, 1), s.registers[code_byte(s, 2)]),
                ..advanced(s, 3)
            },
            Ok::<(), RuntimeError>(()),
        ),
{
}

/// `MOV_IMM a, w` (`11 a w`) sets register `a` to the big-endian immediate `w`.
pub proof fn lemma_mov_imm(s: VmState)
    requires
        s.pc + 4 <= s.code.len(),
        s.pc + 4 <= 0xFFFF,
        s.code[s.pc as int] == 0x11,
        code_byte(s, 1) <= 16 && code_byte(s, 1) < s.registers.len(),
    ensures
        spec_cycle(s) == (
            VmState {
                registers: s.registers.update(code_byte(s, 1), code_word(s, 2) as u16),
                ..advanced(s, 4)
            },
            Ok::<(), RuntimeError>(()),
        ),
{
}

/// `LOAD a, b` (`20 a b`) sets register `a` to the cell whose address is in register `b`.
pub proof fn lemma_load(s: VmState)
    requires
        s.pc + 3 <= s.code.len(),
        s.pc + 3 <= 0xFFFF,
        s.code[s.pc as int] == 0x20,
        code_byte(s, 1) <= 16 && code_byte(s, 1) < s.registers.len(),
        code_byte(s, 2) <= 16 && code_byte(s, 2) < s.registers.len(),
        s.registers[code_byte(s, 2)] < s.memory.len(),
    ensures
        spec_cycle(s) == (
            VmState {
                registers: s.registers.update(
                    code_byte(s, 1),
                    s.memory[s.registers[code_byte(s, 2)] as int],
                ),
                ..advanced(s, 3)
            },
            Ok::<(), RuntimeError>(()),
        ),
{
}

/// `LOAD_IMM w, b` (`22 w b`) sets register `b` to the cell at address `w`.
pub proof fn lemma_load_imm(s: VmState)
    requires
        s.pc + 4 <= s.code.len(),
        s.pc + 4 <= 0xFFFF,
        s.code[s.pc as int] == 0x22,
        code_byte(s, 3) <= 16 && code_byte(s, 3) < s.registers.len(),
        code_word(s, 1) < s.memory.len(),
    ensures
        spec_cycle(s) == (
            VmState {
                registers: s.registers.update(code_byte(s, 3), s.memory[code_word(s, 1)]),
                ..advanced(s, 4)
            },
            Ok::<(), RuntimeError>(()),
        ),
{
}

/// `LOAD_REL a, d, b` (`21 a d b`) sets register `b` to the cell at the address in register
/// `a` plus the signed offset `d`.
pub proof fn lemma_load_rel(s: VmState)
    requires
        s.pc + 5 <= s.code.len(),
        s.pc + 5 <= 0xFFFF,
        s.code[s.pc as int] == 0x21,
        code_byte(s, 1) <= 16 && code_byte(s, 1) < s.registers.len(),
        code_byte(s, 4) <= 16 && code_byte(s, 4) < s.registers.len(),
        0 <= s.registers[code_byte(s, 1)] + signed16(code_word(s, 2)) < s.memory.len(),
    ensures
        spec_cycle(s) == (
            VmState {
                registers: s.registers.update(
                    code_byte(s, 4),
                    s.memory[s.registers[code_byte(s, 1)] + signed16(code_word(s, 2))],
                ),
                ..advanced(s, 5)
            },
            Ok::<(), RuntimeError>(()),
        ),
{
    lemma_i16_value(be16(s.code[s.pc + 2], s.code[s.pc + 3]));
}

/// What the flags word `f` says after subtracting `b` from `a`: Equals exactly when `a == b`,
/// Negative exactly when the top bit of the 16-bit difference is set, Overflow exactly when
/// the difference of `a` and `b` read as signed numbers lies outside `-0x8000..=0x7FFF`, Carry
/// exactly when `a < b` (a borrow).
pub open spec fn flags_after_sub(f: u16, a: int, b: int) -> bool {
    &&& (f & 1 != 0) == (a == b)
    &&& (f & 2 != 0) == ((a - b + 0x10000) % 0x10000 >= 0x8000)
    &&& (f & 4 != 0) == !(-0x8000 <= signed16(a) - signed16(b) <= 0x7FFF)
    &&& (f & 8 != 0) == (a < b)
}

/// What the flags word `f` says after adding `b` to `a`: Equals exactly when the 16-bit sum is
/// zero, Negative exactly when its top bit is set, Overflow exactly when the sum of `a` and `b`
/// read as signed numbers lies outside `-0x8000..=0x7FFF`, Carry exactly when the sum exceeds
/// `0xFFFF`.
pub open spec fn flags_after_add(f: u16, a: int, b: int) -> bool {
    &&& (f & 1 != 0) == ((a + b) % 0x10000 == 0)
    &&& (f & 2 != 0) == ((a + b) % 0x10000 >= 0x8000)
    &&& (f & 4 != 0) == !(-0x8000 <= signed16(a) + signed16(b) <= 0x7FFF)
    &&& (f & 8 != 0) == (a + b > 0xFFFF)
}

/// The flags of a subtraction or compare are the four conditions of `flags_after_sub`; in
/// particular `JO` jumps after one exactly on signed overflow and `JNO` exactly without it.
pub proof fn lemma_sub_flags_meaning(a: u16, b: u16)
    ensures
        flags_after_sub(sub_flags(a, b), a as int, b as int),
        jump_taken(Operation::JO, sub_flags(a, b)) == !(-0x8000 <= signed16(a as int) - signed16(
            b as int,
        ) <= 0x7FFF),
        jump_taken(Operation::JNO, sub_flags(a, b)) == (-0x8000 <= signed16(a as int) - signed16(
            b as int,
        ) <= 0x7FFF),
{
    let res = (a - b + 0x10000) % 0x10000;
    let e: u16 = if res == 0 { 1 } else { 0 };
    let n: u16 = if negative(res) { 2 } else { 0 };
    let o: u16 = if negative(a as int) != negative(b as int) && negative(res) != negative(a as int) {
        4
    } else {
        0
    };
    let c: u16 = if a < b { 8 } else { 0 };
    assert(sub_flags(a, b) == (e + n + o + c) as u16);
    lemma_flag_word_bits(e, n, o, c);
    assert((o == 4) == !(-0x8000 <= signed16(a as int) - signed16(b as int) <= 0x7FFF));
    assert((e == 1) == (a == b));
}

/// The flags of an addition are the four conditions of `flags_after_add`; in particular `JO`
/// jumps after one exactly on signed overflow.
pub proof fn lemma_add_flags_meaning(a: u16, b: u16)
    ensures
        flags_after_add(add_flags(a, b), a as int, b as int),
        jump_taken(Operation::JO, add_flags(a, b)) == !(-0x8000 <= signed16(a as int) + signed16(
            b as int,
        ) <= 0x7FFF),
{
    let res = (a + b) % 0x10000;
    let e: u16 = if res == 0 { 1 } else { 0 };
    let n: u16 = if negative(res) { 2 } else { 0 };
    let o: u16 = if negative(a as int) == negative(b as int) && negative(res) != negative(a as int) {
        4
    } else {
        0
    };
    let c: u16 = if a + b > 0xFFFF { 8 } else { 0 };
    assert(add_flags(a, b) == (e + n + o + c) as u16);
    lemma_flag_word_bits(e, n, o, c);
    assert((o == 4) == !(-0x8000 <= signed16(a as int) + signed16(b as int) <= 0x7FFF));
}

/// `CMP a, b` (`80 a b`) and `CMP_IMM a, w` (`81 a w`) change only the flags, to what a
/// subtraction of the second operand from register `a` says (`flags_after_sub`).
pub proof fn lemma_compare(s: VmState)
    requires
        s.code[s.pc as int] == 0x80 || s.code[s.pc as int] == 0x81,
        s.pc + (if s.code[s.pc as int] == 0x80 { 3int } else { 4int }) <= s.code.len(),
        s.pc + 4 <= 0xFFFF,
        code_byte(s, 1) <= 16 && code_byte(s, 1) < s.registers.len(),
        s.code[s.pc as int] == 0x80 ==> code_byte(s, 2) <= 16 && code_byte(s, 2) < s.registers.len(),
    ensures
        ({
            let len: int = if s.code[s.pc as int] == 0x80 { 3 } else { 4 };
            let b: int = if s.code[s.pc as int] == 0x80 {
                s.registers[code_byte(s, 2)] as int
            } else {
                code_word(s, 2)
            };
            let (s1, r) = spec_cycle(s);
            &&& r is Ok
            &&& s1 == VmState { flags: s1.flags, ..advanced(s, len) }
            &&& flags_after_sub(s1.flags, s.registers[code_byte(s, 1)] as int, b)
        }),
{
    let op = spec_op_from_code(s.code[s.pc as int])->Some_0;
    let (_, a, b) = alu_operands(s, op)->Ok_0;
    lemma_sub_flags_meaning(a, b);
}

/// `SUB a, b` (`42 a b`) and `SUB_IMM a, w` (`43 a w`) set register `a` to its value minus the
/// second operand, modulo 2^16, and the flags to what the subtraction says
/// (`flags_after_sub`); nothing else changes.
pub proof fn lemma_subtract(s: VmState)
    requires
        s.code[s.pc as int] == 0x42 || s.code[s.pc as int] == 0x43,
        s.pc + (if s.code[s.pc as int] == 0x42 { 3int } else { 4int }) <= s.code.len(),
        s.pc + 4 <= 0xFFFF,
        code_byte(s, 1) <= 16 && code_byte(s, 1) < s.registers.len(),
        s.code[s.pc as int] == 0x42 ==> code_byte(s, 2) <= 16 && code_byte(s, 2) < s.registers.len(),
    ensures
        ({
            let len: int = if s.code[s.pc as int] == 0x42 { 3 } else { 4 };
            let a: int = s.registers[code_byte(s, 1)] as int;
            let b: int = if s.code[s.pc as int] == 0x42 {
                s.registers[code_byte(s, 2)] as int
            } else {
                code_word(s, 2)
            };
            let (s1, r) = spec_cycle(s);
            &&& r is Ok
            &&& s1 == VmState {
                registers: s.registers.update(code_byte(s, 1), ((a - b + 0x10000) % 0x10000) as u16),
                flags: s1.flags,
                ..advanced(s, len)
            }
            &&& flags_after_sub(s1.flags, a, b)
        }),
{
    let op = spec_op_from_code(s.code[s.pc as int])->Some_0;
    let (_, a, b) = alu_operands(s, op)->Ok_0;
    lemma_sub_flags_meaning(a, b);
}

/// `ADD a, b` (`40 a b`) and `ADD_IMM a, w` (`41 a w`) set register `a` to its value plus the
/// second operand, modulo 2^16, and the flags to what the addition says (`flags_after_add`);
/// nothing else changes.
pub proof fn lemma_addition(s: VmState)
    requires
        s.code[s.pc as int] == 0x40 || s.code[s.pc as int] == 0x41,
        s.pc + (if s.code[s.pc as int] == 0x40 { 3int } else { 4int }) <= s.code.len(),
        s.pc + 4 <= 0xFFFF,
        code_byte(s, 1) <= 16 && code_byte(s, 1) < s.registers.len(),
        s.code[s.pc as int] == 0x40 ==> code_byte(s, 2) <= 16 && code_byte(s, 2) < s.registers.len(),
    ensures
        ({
            let len: int = if s.code[s.pc as int] == 0x40 { 3 } else { 4 };
            let a: int = s.registers[code_byte(s, 1)] as int;
            let b: int = if s.code[s.pc as int] == 0x40 {
                s.registers[code_byte(s, 2)] as int
            } else {
                code_word(s, 2)
            };
            let (s1, r) = spec_cycle(s);
            &&& r is Ok
            &&& s1 == VmState {
                registers: s.registers.update(code_byte(s, 1), ((a + b) % 0x10000) as u16),
                flags: s1.flags,
                ..advanced(s, len)
            }
            &&& flags_after_add(s1.flags, a, b)
        }),
{
    let op = spec_op_from_code(s.code[s.pc as int])->Some_0;
    let (_, a, b) = alu_operands(s, op)->Ok_0;
    lemma_add_flags_meaning(a, b);
}

/// The byte offset, from the opcode, of slot `j` of an operand plan: one for the opcode and the
/// sizes of the slots before it.
pub open spec fn slot_offset(ks: Seq<OperandKind>, j: int) -> int {
    1 + spec_operands_size(ks.take(j)) as int
}

proof fn lemma_slot_offsets(a: Arguments, j: int)
    requires
        0 <= j < spec_operands(a).len(),
    ensures
        slot_offset(spec_operands(a), j) == if j == 0 {
            1int
        } else if j == 1 {
            1 + spec_operand_size(spec_operands(a)[0]) as int
        } else {
            1 + spec_operand_size(spec_operands(a)[0]) as int + spec_operand_size(spec_operands(a)[1]) as int
        },
{
    let ks = spec_operands(a);
    reveal_with_fuel(spec_operands_size, 4);
    assert(ks.take(0) =~= Seq::<OperandKind>::empty());
    if j >= 1 {
        assert(ks.take(1) =~= seq![ks[0]]);
        assert(ks.take(1).drop_last() =~= Seq::<OperandKind>::empty());
    }
    if j >= 2 {
        assert(ks.take(2) =~= seq![ks[0], ks[1]]);
        assert(ks.take(2).drop_last() =~= seq![ks[0]]);
        assert(seq![ks[0]].drop_last() =~= Seq::<OperandKind>::empty());
    }
}

/// The machine reads each register operand where the operand plan of its operation puts it:
/// an instruction present in full, one of whose register slots (at the offset that the slots
/// before it give) holds a byte that names no register, does not complete.
pub proof fn lemma_register_slots(s: VmState, j: int)
    requires
        s.pc < s.code.len(),
        spec_op_from_code(s.code[s.pc as int]) matches Some(op) && 0 <= j < spec_operands(
            spec_arg_type(op),
        ).len() && spec_operands(spec_arg_type(op))[j] == OperandKind::Reg && s.pc + spec_to_offset(
            spec_arg_type(op),
        ) <= s.code.len() && s.code[s.pc + slot_offset(spec_operands(spec_arg_type(op)), j)] > 0x10,
    ensures
        spec_cycle(s).1 is Err,
{
    let op = spec_op_from_code(s.code[s.pc as int])->Some_0;
    lemma_slot_offsets(spec_arg_type(op), j);
    match op {
        Operation::PUSH | Operation::PUSH_M | Operation::PUSH_IMM => {},
        Operation::POP | Operation::POP_M | Operation::POP_IMM => {},
        Operation::DIV_MOD => {},
        Operation::MOV | Operation::MOV_IMM | Operation::LOAD | Operation::LOAD_REL
        | Operation::LOAD_IMM => {},
        Operation::STORE_R_R | Operation::STORE_REL_R | Operation::STORE_IMM_R
        | Operation::STORE_R_IMM | Operation::STORE_REL_IMM | Operation::STORE_IMM_IMM => {},
        _ => {},
    }
}

/// Whether the jump with opcode byte `c` (`B0`..`BC`) jumps under the flags word `f`, from the
/// flag bits Equals (1), Negative (2), Overflow (4) and Carry (8).
pub open spec fn jumps_under(c: u8, f: u16) -> bool {
    let e = f & 1 != 0;
    let n = f & 2 != 0;
    let o = f & 4 != 0;
    let cy = f & 8 != 0;
    if c == 0xB1 {
        e
    } else if c == 0xB2 {
        !e
    } else if c == 0xB3 {
        !cy && !e
    } else if c == 0xB4 || c == 0xBB {
        cy
    } else if c == 0xB5 || c == 0xBC {
        !cy
    } else if c == 0xB6 {
        cy || e
    } else if c == 0xB7 {
        n
    } else if c == 0xB8 {
        !n
    } else if c == 0xB9 {
        o
    } else if c == 0xBA {
        !o
    } else {
        true
    }
}

/// The jumps `JMP`..`JNC` (`B0 w`..`BC w`) move the program counter to `w` when their condition
/// holds of the flags (`jumps_under`) and past the instruction otherwise; nothing else changes.
pub proof fn lemma_jumps(s: VmState)
    requires
        s.pc + 3 <= s.code.len(),
        s.pc + 3 <= 0xFFFF,
        0xB0 <= s.code[s.pc as int] <= 0xBC,
    ensures
        spec_cycle(s) == (
            if jumps_under(s.code[s.pc as int], s.flags) {
                VmState { pc: code_word(s, 1) as u16, ..s }
            } else {
                advanced(s, 3)
            },
            Ok::<(), RuntimeError>(()),
        ),
{
    assert(spec_flag_bits(Flags::Equals) == 1);
    assert(spec_flag_bits(Flags::Negative) == 2);
    assert(spec_flag_bits(Flags::Overflow) == 4);
    assert(spec_flag_bits(Flags::Carry) == 8);
}

/// `CALL w` (`D0 w`) moves the stack pointer down by one, writes there the address of the next
/// instruction, and jumps to `w`.
pub proof fn lemma_call(s: VmState)
    requires
        s.pc + 3 <= s.code.len(),
        s.pc + 3 <= 0xFFFF,
        s.code[s.pc as int] == 0xD0,
        16 < s.registers.len(),
        0 < s.registers[16] <= s.memory.len(),
    ensures
        spec_cycle(s) == (
            VmState {
                registers: s.registers.update(16, (s.registers[16] - 1) as u16),
                memory: s.memory.update(s.registers[16] - 1, (s.pc + 3) as u16),
                pc: code_word(s, 1) as u16,
                ..s
            },
            Ok::<(), RuntimeError>(()),
        ),
{
}

/// `RET` (`D2`) jumps to the word at the top of the stack and moves the stack pointer up by one.
pub proof fn lemma_ret(s: VmState)
    requires
        s.pc < s.code.len(),
        s.code[s.pc as int] == 0xD2,
        16 < s.registers.len(),
        s.registers[16] < s.memory.len(),
        s.registers[16] < 0xFFFF,
    ensures
        spec_cycle(s) == (
            VmState {
                registers: s.registers.update(16, (s.registers[16] + 1) as u16),
                pc: s.memory[s.registers[16] as int],
                ..s
            },
            Ok::<(), RuntimeError>(()),
        ),
{
}

/// `PUSH a` (`90 a`) moves the stack pointer down by one and writes there the value that
/// register `a` held; `PUSH_IMM w` (`92 w`) writes `w` there instead.
pub proof fn lemma_push(s: VmState)
    requires
        s.code[s.pc as int] == 0x90 || s.code[s.pc as int] == 0x92,
        s.pc + (if s.code[s.pc as int] == 0x90 { 2int } else { 3int }) <= s.code.len(),
        s.pc + 3 <= 0xFFFF,
        16 < s.registers.len(),
        0 < s.registers[16] <= s.memory.len(),
        s.code[s.pc as int] == 0x90 ==> code_byte(s, 1) <= 16 && code_byte(s, 1) < s.registers.len(),
    ensures
        ({
            let push = s.code[s.pc as int] == 0x90;
            let v: u16 = if push { s.registers[code_byte(s, 1)] } else { code_word(s, 1) as u16 };
            spec_cycle(s) == (
                VmState {
                    registers: s.registers.update(16, (s.registers[16] - 1) as u16),
                    memory: s.memory.update(s.registers[16] - 1, v),
                    ..advanced(s, if push { 2 } else { 3 })
                },
                Ok::<(), RuntimeError>(()),
            )
        }),
{
}

/// `POP a` (`A0 a`) writes the word at the top of the stack into register `a`, then moves the
/// stack pointer (as it then is) up by one.
pub proof fn lemma_pop(s: VmState)
    requires
        s.pc + 2 <= s.code.len(),
        s.pc + 2 <= 0xFFFF,
        s.code[s.pc as int] == 0xA0,
        16 < s.registers.len(),
        code_byte(s, 1) <= 16,
        s.registers[16] < s.memory.len(),
        ({
            let regs = s.registers.update(code_byte(s, 1), s.memory[s.registers[16] as int]);
            regs[16] < 0xFFFF
        }),
    ensures
        ({
            let regs = s.registers.update(code_byte(s, 1), s.memory[s.registers[16] as int]);
            spec_cycle(s) == (
                VmState { registers: regs.update(16, (regs[16] + 1) as u16), ..advanced(s, 2) },
                Ok::<(), RuntimeError>(()),
            )
        }),
{
}

/// `DIV_MOD a` (`60 a`) divides `R1` by register `a`: the quotient goes to `R0` and the
/// remainder to `R1`; dividing by zero is an error that changes nothing.
pub proof fn lemma_div_mod(s: VmState)
    requires
        s.pc + 2 <= s.code.len(),
        s.pc + 2 <= 0xFFFF,
        s.code[s.pc as int] == 0x60,
        code_byte(s, 1) <= 16 && code_byte(s, 1) < s.registers.len(),
        1 < s.registers.len(),
    ensures
        ({
            let d = s.registers[code_byte(s, 1)];
            let n = s.registers[1];
            spec_cycle(s) == if d == 0 {
                (s, Err::<(), RuntimeError>(RuntimeError::DivisionByZero))
            } else {
                (
                    VmState {
                        registers: s.registers.update(0, (n / d) as u16).update(1, (n % d) as u16),
                        ..advanced(s, 2)
                    },
                    Ok::<(), RuntimeError>(()),
                )
            }
        }),
{
}

/// The value that the logic or shift operation with opcode byte `c` computes from `a` and `b`:
/// and, or, exclusive or, left and right shift by `b` modulo 16.
pub open spec fn logic_value(c: u8, a: u16, b: u16) -> u16 {
    if c == 0x50 || c == 0x51 {
        a & b
    } else if c == 0x52 || c == 0x53 {
        a | b
    } else if c == 0x54 || c == 0x55 {
        a ^ b
    } else if c == 0x70 || c == 0x71 {
        a << (b % 16)
    } else {
        a >> (b % 16)
    }
}

/// `AND`, `OR`, `XOR`, `SHL`, `SHR` (`50`, `52`, `54`, `70`, `72`, register second operand) and
/// their `_IMM` forms (`51`, `53`, `55`, `71`, `73`, immediate second operand) set register `a`
/// to `logic_value` of its value and the second operand, and leave the flags alone.
pub proof fn lemma_logic(s: VmState)
    requires
        ({
            let c = s.code[s.pc as int];
            c == 0x50 || c == 0x51 || c == 0x52 || c == 0x53 || c == 0x54 || c == 0x55 || c == 0x70
                || c == 0x71 || c == 0x72 || c == 0x73
        }),
        s.pc + 4 <= s.code.len(),
        s.pc + 4 <= 0xFFFF,
        code_byte(s, 1) <= 16 && code_byte(s, 1) < s.registers.len(),
        s.code[s.pc as int] % 2 == 0 ==> code_byte(s, 2) <= 16 && code_byte(s, 2) < s.registers.len(),
    ensures
        ({
            let c = s.code[s.pc as int];
            let reg = c % 2 == 0;
            let b: u16 = if reg { s.registers[code_byte(s, 2)] } else { code_word(s, 2) as u16 };
            spec_cycle(s) == (
                VmState {
                    registers: s.registers.update(
                        code_byte(s, 1),
                        logic_value(c, s.registers[code_byte(s, 1)], b),
                    ),
                    ..advanced(s, if reg { 3 } else { 4 })
                },
                Ok::<(), RuntimeError>(()),
            )
        }),
{
}

/// `SYSCALL` (`FF`) with `R1 == 1` (`PRINT`) appends the `R3` memory cells that start at
/// address `R2` to the output; any other call number is `InvalidCode`.
pub proof fn lemma_print(s: VmState)
    requires
        s.pc + 1 <= s.code.len(),
        s.pc + 1 <= 0xFFFF,
        s.code[s.pc as int] == 0xFF,
        3 < s.registers.len(),
        s.registers[1] == 1 ==> s.registers[2] + s.registers[3] <= s.memory.len(),
    ensures
        spec_cycle(s) == if s.registers[1] == 1 {
            (
                VmState {
                    output: s.output + s.memory.subrange(
                        s.registers[2] as int,
                        s.registers[2] + s.registers[3],
                    ),
                    ..advanced(s, 1)
                },
                Ok::<(), RuntimeError>(()),
            )
        } else {
            (s, Err::<(), RuntimeError>(RuntimeError::InvalidCode))
        },
{
}

/// `HALT` (`00`) stops the machine where it stands, and `NOP` (`01`) only moves on.
pub proof fn lemma_halt_and_nop(s: VmState)
    requires
        s.pc + 1 <= s.code.len(),
        s.pc + 1 <= 0xFFFF,
        s.code[s.pc as int] == 0x00 || s.code[s.pc as int] == 0x01,
    ensures
        spec_cycle(s) == if s.code[s.pc as int] == 0x00 {
            (s, Err::<(), RuntimeError>(RuntimeError::Halted))
        } else {
            (advanced(s, 1), Ok::<(), RuntimeError>(()))
        },
{
}

/// `PUSH_M a` (`91 a`) moves the stack pointer down by one, then writes there the cell whose
/// address register `a` holds once the pointer has moved.
pub proof fn lemma_push_cell(s: VmState)
    requires
        s.pc + 2 <= s.code.len(),
        s.pc + 2 <= 0xFFFF,
        s.code[s.pc as int] == 0x91,
        16 < s.registers.len(),
        code_byte(s, 1) <= 16,
        0 < s.registers[16] <= s.memory.len(),
        s.registers.update(16, (s.registers[16] - 1) as u16)[code_byte(s, 1)] < s.memory.len(),
    ensures
        ({
            let regs = s.registers.update(16, (s.registers[16] - 1) as u16);
            spec_cycle(s) == (
                VmState {
                    registers: regs,
                    memory: s.memory.update(s.registers[16] - 1, s.memory[regs[code_byte(s, 1)] as int]),
                    ..advanced(s, 2)
                },
                Ok::<(), RuntimeError>(()),
            )
        }),
{
}

/// `POP_M a` (`A1 a`) writes the word at the top of the stack into the cell whose address
/// register `a` holds; `POP_IMM w` (`A2 w`) writes it into cell `w`. Both then move the stack
/// pointer up by one.
pub proof fn lemma_pop_to_memory(s: VmState)
    requires
        s.code[s.pc as int] == 0xA1 || s.code[s.pc as int] == 0xA2,
        s.pc + (if s.code[s.pc as int] == 0xA1 { 2int } else { 3int }) <= s.code.len(),
        s.pc + 3 <= 0xFFFF,
        16 < s.registers.len(),
        s.registers[16] < s.memory.len(),
        s.registers[16] < 0xFFFF,
        s.code[s.pc as int] == 0xA1 ==> code_byte(s, 1) <= 16 && s.registers[code_byte(s, 1)]
            < s.memory.len(),
        s.code[s.pc as int] == 0xA2 ==> code_word(s, 1) < s.memory.len(),
    ensures
        ({
            let cell: bool = s.code[s.pc as int] == 0xA1;
            let a: int = if cell { s.registers[code_byte(s, 1)] as int } else { code_word(s, 1) };
            spec_cycle(s) == (
                VmState {
                    registers: s.registers.update(16, (s.registers[16] + 1) as u16),
                    memory: s.memory.update(a, s.memory[s.registers[16] as int]),
                    ..advanced(s, if cell { 2 } else { 3 })
                },
                Ok::<(), RuntimeError>(()),
            )
        }),
{
}

} // verus!
