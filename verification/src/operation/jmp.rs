//! The LC-3 jump (JMP) operation.

use vstd::prelude::*;

use crate::error::Lc3Error;
use crate::instruction::DecodedInstruction;
use crate::memory::Address;
use crate::operation::{register_field, sr1_of, SR1_FIELD_END, SR1_FIELD_START};
use crate::register::Register;
use crate::vm::VirtualMachine;

verus! {

/// Represents an LC-3 Jump (JMP) operation.
///
/// The operation unconditionally sets the [`VirtualMachine`] program counter
/// to the address stored in the base [`Register`].
pub struct JmpOp(pub Register);

impl JmpOp {
    /// Decodes the base register. The fixed field always decodes, so the
    /// result is always `Ok`.
    pub fn decode(instruction: DecodedInstruction) -> (r: Result<JmpOp, Lc3Error>)
        ensures
            r matches Ok(op) && op.0 == sr1_of(instruction@),
    {
        let raw = instruction.raw();
        Ok(JmpOp(register_field(&raw, SR1_FIELD_START, SR1_FIELD_END)))
    }

    /// Sets the `PC` to the address stored in the base register.
    pub fn execute(self, vm: &mut VirtualMachine)
        ensures
            final(vm)@ == old(vm)@.with_pc(old(vm)@.reg(self.0)),
    {
        let target = vm.read_register(self.0);
        vm.set_pc(Address::new(target));
    }
}

} // verus!
