//! The errors an instruction can raise. Each step either commits all of
//! its effects or returns one of these and leaves the machine unchanged.

use vstd::prelude::*;

use crate::instruction::{Instruction, InstructionData};
use crate::opcode::Opcode;
use crate::register::Register;

verus! {

/// Why an instruction failed to execute.
#[derive(Clone, Copy, Debug, PartialEq, Eq)]
pub enum EmulateError {
    /// The instruction was given a register outside its allowed set.
    UnsupportedRegister { opcode: Opcode, register: Register },
    /// The immediate data does not fit the opcode's size.
    InvalidInstructionData { data: InstructionData, opcode: Opcode },
    /// The decoded opcode has no implementation in this engine.
    UnimplementedInstruction { instruction: Instruction },
    /// A byte-level access was requested on `M` or `SP`.
    RegisterNot8Bit { register: Register },
    /// A push would place the stack pointer below writable memory.
    StackOverflow,
    /// A write was attempted into the read-only region.
    WriteToROM,
}

} // verus!
