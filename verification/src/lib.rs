//! Assembler, linker and virtual machine for the VMR 16-bit instruction set.
use vstd::prelude::*;

pub mod assembler;
pub mod indexed_vec;
pub mod isa;
pub mod linker;
pub mod object;
pub mod simple_vm;
pub mod symbols;
pub mod text;
pub mod vm;

verus! {

} // verus!
