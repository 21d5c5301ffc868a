//! The fatal conditions of a run, and the reasons a program image is refused.

use crate::memory::RegisterTarget;
use vstd::prelude::*;

verus! {

/// A condition that ends a run. None of them can be recovered from: the
/// fetch-execute loop halts the machine on any of them.
#[derive(Clone, Copy, Debug, PartialEq, Eq, Structural)]
pub enum VmError {
    /// The opcode byte of the instruction at `pc` names no instruction.
    UnknownInstruction { opcode: u8, pc: u16 },
    /// An addressing-mode header of the instruction at `pc` names no mode.
    UnknownAddressingMode { header: u8, pc: u16 },
    /// The three words of the instruction at `pc` do not all lie in program
    /// memory; `instruction_address` is where the first of them would be.
    InstructionOutOfBounds { pc: u16, instruction_address: u32 },
    /// An access to `offset` in `bank` resolved outside the backing array,
    /// while the instruction at `instruction_address` was current.
    BoundsViolation { bank: RegisterTarget, offset: u16, instruction_address: u32 },
    /// A literal operand was the target of a write.
    InvalidWriteTarget,
    /// A division had a zero divisor.
    DivisionByZero,
}

/// Why a program image cannot be loaded.
#[derive(Clone, Copy, Debug, PartialEq, Eq, Structural)]
pub enum LoadError {
    /// The image is shorter than its two-byte header.
    MissingHeader,
    /// The program does not fit into program memory.
    ProgramTooLarge,
}

impl VmError {
    /// Whether the error was raised while decoding an instruction.
    pub open spec fn is_decode_error(self) -> bool {
        self is UnknownInstruction || self is UnknownAddressingMode
    }
}

} // verus!
