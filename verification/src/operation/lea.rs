//! The LC-3 load effective address (LEA) operation.

use vstd::prelude::*;

use crate::error::Lc3Error;
use crate::instruction::DecodedInstruction;
use crate::operation::{
    effective_address, field, offset9_of, register_field, dr_of, Offset, DR_FIELD_END,
    DR_FIELD_START, PC_OFFSET_9_FIELD_END, PC_OFFSET_9_FIELD_START,
};
use crate::register::Register;
use crate::vm::VirtualMachine;

verus! {

/// Loads an address calculated relative to the program counter into a register.
///
/// The address is calculated by sign-extending the encoded 9-bit offset and
/// adding it to the current program counter. The resulting address is written
/// to the destination register; the condition code is left unchanged.
pub struct LeaOp {
    /// Destination register.
    pub dr: Register,
    /// PC-relative 9-bit offset.
    pub offset: Offset,
}

impl LeaOp {
    /// Builds the operation from its destination register and offset.
    pub fn from_parts(register: Register, offset: Offset) -> (r: LeaOp)
        ensures
            r.dr == register,
            r.offset == offset,
    {
        LeaOp { dr: register, offset }
    }

    /// Decodes the 9-bit PC offset of the instruction.
    pub fn offset(instruction: &DecodedInstruction) -> (r: Result<Offset, Lc3Error>)
        ensures
            r matches Ok(offset) && offset == Offset::Offset9(offset9_of(instruction@)),
    {
        let raw = instruction.raw();
        Ok(Offset::Offset9(field(&raw, PC_OFFSET_9_FIELD_START, PC_OFFSET_9_FIELD_END)))
    }

    /// Decodes the destination register and the offset. The fixed fields
    /// always decode, so the result is always `Ok`.
    pub fn decode(instruction: DecodedInstruction) -> (r: Result<LeaOp, Lc3Error>)
        ensures
            r matches Ok(op) && op.dr == dr_of(instruction@) && op.offset == Offset::Offset9(
                offset9_of(instruction@),
            ),
    {
        let offset = match Self::offset(&instruction) {
            Ok(offset) => offset,
            Err(e) => return Err(e),
        };
        let raw = instruction.raw();
        Ok(Self::from_parts(register_field(&raw, DR_FIELD_START, DR_FIELD_END), offset))
    }

    /// Computes a `PC` relative address and writes this computed address into
    /// the destination register.
    pub fn execute(self, vm: &mut VirtualMachine) -> (r: Result<(), Lc3Error>)
        ensures
            r is Ok,
            final(vm)@ == old(vm)@.with_reg(self.dr, effective_address(self.offset, old(vm)@)),
    {
        let address_value = self.offset.address(vm).as_u16();
        vm.write_register(self.dr, address_value);
        Ok(())
    }
}

} // verus!
