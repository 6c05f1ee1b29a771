//! The LC-3 STR operation.

use vstd::prelude::*;

use crate::error::InstructionError;
use crate::instruction::DecodedInstruction;
use crate::memory::Address;
use crate::operation::{
    effective_address, field, offset6_of, MemoryStoreOp, MemoryStoreOperands, Offset,
    register_field, sr1_of, OFFSET_6_FIELD_START, OFFSET_6_FIELD_END, SR1_FIELD_START, SR1_FIELD_END,
};
use crate::register::Register;
use crate::vm::{MachineState, VirtualMachine};

verus! {

/// Stores the value of a register at an address calculated relative to a base
/// register.
///
/// The address is calculated by sign-extending the encoded 6-bit offset and
/// adding it to the value of the base register.
pub struct StrOp {
    /// Source register.
    pub sr: Register,
    /// Base register and 6-bit offset.
    pub offset: Offset,
}

impl MemoryStoreOp for StrOp {
    open spec fn parts(&self) -> (Register, Offset) {
        (self.sr, self.offset)
    }

    open spec fn offset_of(word: u16) -> Offset {
        Offset::Offset6 { base_r: sr1_of(word), value: offset6_of(word) }
    }

    open spec fn spec_address(offset: Offset, m: MachineState) -> u16 {
        effective_address(offset, m)
    }

    fn from_parts(sr: Register, offset: Offset) -> (r: Self) {
        Self { sr, offset }
    }

    fn offset(instruction: &DecodedInstruction) -> (r: Result<Offset, InstructionError>) {
        let raw = instruction.raw();
        let offset = field(&raw, OFFSET_6_FIELD_START, OFFSET_6_FIELD_END);
        let base_r = register_field(&raw, SR1_FIELD_START, SR1_FIELD_END);
        Ok(Offset::Offset6 { base_r, value: offset })
    }

    fn operands(self) -> (r: MemoryStoreOperands) {
        MemoryStoreOperands { sr: self.sr, offset: self.offset }
    }

    /// The address obtained by adding the sign-extended offset to the
    /// value of the base register.
    fn compute_address(offset: Offset, vm: &VirtualMachine) -> (r: Address) {
        offset.address(vm)
    }
}

} // verus!
