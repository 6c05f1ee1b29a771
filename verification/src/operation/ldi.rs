//! The LC-3 LDI operation.

use vstd::prelude::*;

use crate::error::InstructionError;
use crate::instruction::DecodedInstruction;
use crate::memory::Address;
use crate::operation::{
    effective_address, field, offset9_of, MemoryLoadOp, MemoryLoadOperands, Offset,
    PC_OFFSET_9_FIELD_START, PC_OFFSET_9_FIELD_END,
};
use crate::register::Register;
use crate::vm::{MachineState, VirtualMachine};

verus! {

/// Implements the LC-3 Load Indirect (LDI) operation.
///
/// Loads a value from memory into the destination register using a
/// PC-relative address. The value at the computed address is interpreted
/// as a second memory address, from which the value loaded into the
/// destination register is obtained.
pub struct LdiOp {
    /// Destination register.
    pub dr: Register,
    /// PC-relative 9-bit offset.
    pub offset: Offset,
}

impl MemoryLoadOp for LdiOp {
    open spec fn parts(&self) -> (Register, Offset) {
        (self.dr, self.offset)
    }

    open spec fn offset_of(word: u16) -> Offset {
        Offset::Offset9(offset9_of(word))
    }

    open spec fn spec_load(offset: Offset, m: MachineState) -> u16 {
        m.mem(m.mem(effective_address(offset, m)))
    }

    fn from_parts(dr: Register, offset: Offset) -> (r: Self) {
        Self { dr, offset }
    }

    fn offset(instruction: &DecodedInstruction) -> (r: Result<Offset, InstructionError>) {
        let raw = instruction.raw();
        let offset = field(&raw, PC_OFFSET_9_FIELD_START, PC_OFFSET_9_FIELD_END);
        Ok(Offset::Offset9(offset))
    }

    fn operands(self) -> (r: MemoryLoadOperands) {
        MemoryLoadOperands { dr: self.dr, offset: self.offset }
    }

    /// Computes a PC-relative address and performs two memory reads:
    /// the first obtains the address of the value to load, and the second
    /// obtains the value itself.
    fn operate(offset: Offset, vm: &VirtualMachine) -> (r: u16) {
        let address = offset.address(vm);
        vm.read_memory(Address::new(vm.read_memory(address)))
    }
}

} // verus!
