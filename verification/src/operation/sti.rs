//! The LC-3 STI operation.

use vstd::prelude::*;

use crate::error::InstructionError;
use crate::instruction::DecodedInstruction;
use crate::memory::Address;
use crate::operation::{
    effective_address, field, offset9_of, MemoryStoreOp, MemoryStoreOperands, Offset,
    PC_OFFSET_9_FIELD_START, PC_OFFSET_9_FIELD_END,
};
use crate::register::Register;
use crate::vm::{MachineState, VirtualMachine};

verus! {

/// Stores the value of a register at an address obtained indirectly through
/// a PC-relative address.
///
/// The address of the indirect pointer is calculated by sign-extending the
/// encoded 9-bit offset and adding it to the current program counter. The
/// value read from that address is then used as the target memory address.
pub struct StiOp {
    /// Source register.
    pub sr: Register,
    /// PC-relative 9-bit offset of the pointer.
    pub offset: Offset,
}

impl MemoryStoreOp for StiOp {
    open spec fn parts(&self) -> (Register, Offset) {
        (self.sr, self.offset)
    }

    open spec fn offset_of(word: u16) -> Offset {
        Offset::Offset9(offset9_of(word))
    }

    open spec fn spec_address(offset: Offset, m: MachineState) -> u16 {
        m.mem(effective_address(offset, m))
    }

    fn from_parts(sr: Register, offset: Offset) -> (r: Self) {
        Self { sr, offset }
    }

    fn offset(instruction: &DecodedInstruction) -> (r: Result<Offset, InstructionError>) {
        let raw = instruction.raw();
        let offset = field(&raw, PC_OFFSET_9_FIELD_START, PC_OFFSET_9_FIELD_END);
        Ok(Offset::Offset9(offset))
    }

    fn operands(self) -> (r: MemoryStoreOperands) {
        MemoryStoreOperands { sr: self.sr, offset: self.offset }
    }

    /// The address stored in the word at the PC-relative pointer address.
    fn compute_address(offset: Offset, vm: &VirtualMachine) -> (r: Address) {
        let address_indirect = offset.address(vm);
        Address::new(vm.read_memory(address_indirect))
    }
}

} // verus!
