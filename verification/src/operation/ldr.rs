//! The LC-3 LDR operation.

use vstd::prelude::*;

use crate::error::InstructionError;
use crate::instruction::DecodedInstruction;
use crate::operation::{
    effective_address, field, offset6_of, MemoryLoadOp, MemoryLoadOperands, Offset,
    register_field, sr1_of, OFFSET_6_FIELD_START, OFFSET_6_FIELD_END, SR1_FIELD_START, SR1_FIELD_END,
};
use crate::register::Register;
use crate::vm::{MachineState, VirtualMachine};

verus! {

/// Implements the LC-3 Load Base + offset (LDR) operation.
///
/// Loads a value from memory into the destination register using an
/// address calculated from the instruction's base register + 6-bit offset.
pub struct LdrOp {
    /// Destination register.
    pub dr: Register,
    /// Base register and 6-bit offset.
    pub offset: Offset,
}

impl MemoryLoadOp for LdrOp {
    open spec fn parts(&self) -> (Register, Offset) {
        (self.dr, self.offset)
    }

    open spec fn offset_of(word: u16) -> Offset {
        Offset::Offset6 { base_r: sr1_of(word), value: offset6_of(word) }
    }

    open spec fn spec_load(offset: Offset, m: MachineState) -> u16 {
        m.mem(effective_address(offset, m))
    }

    fn from_parts(dr: Register, offset: Offset) -> (r: Self) {
        Self { dr, offset }
    }

    fn offset(instruction: &DecodedInstruction) -> (r: Result<Offset, InstructionError>) {
        let raw = instruction.raw();
        let offset = field(&raw, OFFSET_6_FIELD_START, OFFSET_6_FIELD_END);
        let base_r = register_field(&raw, SR1_FIELD_START, SR1_FIELD_END);
        Ok(Offset::Offset6 { base_r, value: offset })
    }

    fn operands(self) -> (r: MemoryLoadOperands) {
        MemoryLoadOperands { dr: self.dr, offset: self.offset }
    }

    /// Reads the value at the address obtained by adding the sign-extended
    /// offset to the value stored at the base register.
    fn operate(offset: Offset, vm: &VirtualMachine) -> (r: u16) {
        let address = offset.address(vm);
        vm.read_memory(address)
    }
}

} // verus!
