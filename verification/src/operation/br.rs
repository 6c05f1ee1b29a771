//! The LC-3 conditional branch (BR) operation.

use vstd::prelude::*;

use crate::error::InstructionError;
use crate::instruction::{bit_field, DecodedInstruction};
use crate::memory::wrap16;
use crate::operation::{
    byte_field, field, offset9_of, sign_extend, sign_extend_spec, OFFSET_9_BIT_COUNT,
    PC_OFFSET_9_FIELD_END, PC_OFFSET_9_FIELD_START,
};
use crate::register::ConditionCode;
use crate::vm::{MachineState, VirtualMachine};

verus! {

/// First bit of the `nzp` condition flags field.
pub const CONDITION_FLAGS_FIELD_START: u8 = 5;
/// Last bit of the `nzp` condition flags field.
pub const CONDITION_FLAGS_FIELD_END: u8 = 7;
/// The `n` flag: branch when the condition code is negative.
pub const N_FLAG: u8 = 4;
/// The `z` flag: branch when the condition code is zero.
pub const Z_FLAG: u8 = 2;
/// The `p` flag: branch when the condition code is positive.
pub const P_FLAG: u8 = 1;

/// Whether a branch with the `nzp` flags `flags` is taken under condition
/// code `cond`: one of the set flags names the current condition.
pub open spec fn branch_taken(flags: u8, cond: ConditionCode) -> bool {
    ||| (flags & N_FLAG != 0 && cond == ConditionCode::Neg)
    ||| (flags & Z_FLAG != 0 && cond == ConditionCode::Zro)
    ||| (flags & P_FLAG != 0 && cond == ConditionCode::Pos)
}

/// The state after a branch with the given flags and 9-bit offset.
pub open spec fn branch_spec(flags: u8, offset: u16, m: MachineState) -> MachineState {
    if branch_taken(flags, m.cond) {
        m.with_pc(wrap16(m.pc + sign_extend_spec(offset, 9)))
    } else {
        m
    }
}

/// Represents an LC-3 conditional branch (`BR`) operation.
///
/// If any of the condition flags encoded in the instruction match the
/// [`VirtualMachine`] condition code, sets the program counter to an address
/// computed by adding the sign-extended 9-bit offset to the incremented
/// program counter.
pub struct BrOp {
    /// The `nzp` flags.
    pub condition_flags: u8,
    /// The 9-bit PC offset.
    pub offset: u16,
}

impl BrOp {
    /// Decodes the condition flags and the PC offset. The fixed fields always
    /// decode, so the result is always `Ok`.
    pub fn decode(instruction: DecodedInstruction) -> (r: Result<BrOp, InstructionError>)
        ensures
            r matches Ok(op) && op.condition_flags == bit_field(instruction@, 5, 7)
                && op.offset == offset9_of(instruction@),
    {
        let raw = instruction.raw();
        let condition_flags = byte_field(&raw, CONDITION_FLAGS_FIELD_START, CONDITION_FLAGS_FIELD_END);
        let offset = field(&raw, PC_OFFSET_9_FIELD_START, PC_OFFSET_9_FIELD_END);
        Ok(BrOp { condition_flags, offset })
    }

    /// Checks whether any condition flag encoded in the instruction matches the
    /// [`VirtualMachine`] condition code. If a match is found, updates the
    /// program counter using the encoded offset.
    pub fn execute(self, vm: &mut VirtualMachine)
        ensures
            final(vm)@ == branch_spec(self.condition_flags, self.offset, old(vm)@),
    {
        let cond = vm.read_cond();
        let should_branch = (self.condition_flags & N_FLAG != 0 && cond == ConditionCode::Neg)
            || (self.condition_flags & Z_FLAG != 0 && cond == ConditionCode::Zro)
            || (self.condition_flags & P_FLAG != 0 && cond == ConditionCode::Pos);

        if should_branch {
            let sext_offset = sign_extend(self.offset, OFFSET_9_BIT_COUNT);
            let address = vm.read_pc().wrapping_add(sext_offset);
            vm.set_pc(address);
        }
    }
}

} // verus!
