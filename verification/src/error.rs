//! Errors reported while decoding and executing LC-3 instructions.

use core::ops::RangeInclusive;

use vstd::prelude::*;

use crate::instruction::Opcode;

verus! {

/// Errors raised while extracting fields from an instruction.
#[derive(Debug, PartialEq, Eq)]
pub enum InstructionError {
    /// The requested bit range is not a range of instruction bits `1..=16`
    /// (or, for a register field, is not three bits wide).
    InvalidBitRange(RangeInclusive<u8>),
    /// The extracted bits do not fit the requested target type.
    InvalidBitConversion,
    /// A TRAP instruction names a trap vector with no routine.
    InvalidTrapCode(u8),
}

/// Errors that stop the virtual machine.
#[derive(Debug)]
pub enum Lc3Error {
    /// Decoding an instruction failed.
    Instruction(InstructionError),
    /// A reserved or unsupported opcode (RTI or RES) was executed.
    UnsupportedInstruction(Opcode),
}

impl From<InstructionError> for Lc3Error {
    fn from(error: InstructionError) -> (r: Lc3Error) {
        Lc3Error::Instruction(error)
    }
}

impl vstd::std_specs::convert::FromSpecImpl<InstructionError> for Lc3Error {
    open spec fn obeys_from_spec() -> bool {
        true
    }

    open spec fn from_spec(v: InstructionError) -> Lc3Error {
        Lc3Error::Instruction(v)
    }
}

} // verus!
