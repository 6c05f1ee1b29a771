//! The LC-3 LD operation.

use vstd::prelude::*;

use crate::error::InstructionError;
use crate::instruction::DecodedInstruction;
use crate::operation::{
    effective_address, field, offset9_of, MemoryLoadOp, MemoryLoadOperands, Offset,
    PC_OFFSET_9_FIELD_START, PC_OFFSET_9_FIELD_END,
};
use crate::register::Register;
use crate::vm::{MachineState, VirtualMachine};

verus! {

/// Implements the LC-3 Load (LD) operation.
///
/// Loads a value from memory into the destination register using a
/// PC-relative address calculated from the instruction's 9-bit offset.
pub struct LdOp {
    /// Destination register.
    pub dr: Register,
    /// PC-relative 9-bit offset.
    pub offset: Offset,
}

impl MemoryLoadOp for LdOp {
    open spec fn parts(&self) -> (Register, Offset) {
        (self.dr, self.offset)
    }

    open spec fn offset_of(word: u16) -> Offset {
        Offset::Offset9(offset9_of(word))
    }

    open spec fn spec_load(offset: Offset, m: MachineState) -> u16 {
        m.mem(effective_address(offset, m))
    }

    fn from_parts(dr: Register, offset: Offset) -> (r: Self) {
        Self { dr, offset }
    }

    fn offset(instruction: &DecodedInstruction) -> (r: Result<Offset, InstructionError>) {
        let raw = instruction.raw();
        let offset = field(&raw, PC_OFFSET_9_FIELD_START, PC_OFFSET_9_FIELD_END);
        Ok(Offset::Offset9(offset))
    }

    fn operands(self) -> (r: MemoryLoadOperands) {
        MemoryLoadOperands { dr: self.dr, offset: self.offset }
    }

    /// Reads the value at the address obtained by adding the sign-extended
    /// offset to the incremented program counter.
    fn operate(offset: Offset, vm: &VirtualMachine) -> (r: u16) {
        let address = offset.address(vm);
        vm.read_memory(address)
    }
}

} // verus!
