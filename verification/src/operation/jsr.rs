//! The LC-3 jump to subroutine (JSR / JSRR) operation.

use vstd::prelude::*;

use crate::error::Lc3Error;
use crate::instruction::{bit_field, DecodedInstruction};
use crate::memory::{wrap16, Address};
use crate::operation::{field, register_field, sign_extend, sign_extend_spec, sr1_of, SR1_FIELD_END, SR1_FIELD_START};
use crate::register::Register;
use crate::vm::{MachineState, VirtualMachine};

verus! {

/// Width of the JSR PC offset.
pub const OFFSET_11_BIT_COUNT: u8 = 11;
/// First bit of the 11-bit PC offset field.
pub const PC_OFFSET_11_FIELD_START: u8 = 6;
/// Last bit of the 11-bit PC offset field.
pub const PC_OFFSET_11_FIELD_END: u8 = 16;
/// The bit that selects PC-relative (1) or register (0) mode.
pub const MODE_BIT: u8 = 5;

/// Specifies the addressing mode used by a [`JsrOp`].
///
/// A [`JsrOp`] can either use an 11-bit PC-relative offset or a base
/// [`Register`] as its jump target.
#[derive(Debug, Copy, Clone, PartialEq, Eq, Structural)]
pub enum JsrMode {
    Offset(u16),
    Register(Register),
}

/// The addressing mode encoded in a JSR instruction word.
pub open spec fn jsr_mode_of(word: u16) -> JsrMode {
    if bit_field(word, 5, 5) == 0 {
        JsrMode::Register(sr1_of(word))
    } else {
        JsrMode::Offset(bit_field(word, 6, 16))
    }
}

/// The state after a jump to subroutine: `R7` receives the program counter,
/// then the program counter receives the target, read after that write.
pub open spec fn jsr_spec(mode: JsrMode, m: MachineState) -> MachineState {
    let linked = m.with_reg(Register::R7, m.pc);
    match mode {
        JsrMode::Offset(offset) => linked.with_pc(wrap16(m.pc + sign_extend_spec(offset, 11))),
        JsrMode::Register(base) => linked.with_pc(linked.reg(base)),
    }
}

/// Represents an LC-3 Jump to Subroutine (JSR) operation.
///
/// The operation stores the incremented [`VirtualMachine`] program counter
/// in `R7`, then sets the program counter using either a sign-extended
/// 11-bit PC-relative offset or a base [`Register`].
pub struct JsrOp {
    /// The addressing mode and its operand.
    pub mode: JsrMode,
}

impl JsrOp {
    /// Decodes the addressing mode and its operand. The fixed fields always
    /// decode, so the result is always `Ok`.
    pub fn decode(instruction: DecodedInstruction) -> (r: Result<JsrOp, Lc3Error>)
        ensures
            r matches Ok(op) && op.mode == jsr_mode_of(instruction@),
    {
        let raw = instruction.raw();
        let mode_bit = field(&raw, MODE_BIT, MODE_BIT);
        if mode_bit == 0 {
            Ok(JsrOp { mode: JsrMode::Register(register_field(&raw, SR1_FIELD_START, SR1_FIELD_END)) })
        } else {
            Ok(JsrOp { mode: JsrMode::Offset(field(&raw, PC_OFFSET_11_FIELD_START, PC_OFFSET_11_FIELD_END)) })
        }
    }

    /// Saves the return address in `R7` and jumps to the target.
    pub fn execute(self, vm: &mut VirtualMachine) -> (r: Result<(), Lc3Error>)
        ensures
            r is Ok,
            final(vm)@ == jsr_spec(self.mode, old(vm)@),
    {
        let pc = vm.read_pc();
        vm.write_register(Register::R7, pc.as_u16());
        match self.mode {
            JsrMode::Offset(offset) => {
                let sext_offset = sign_extend(offset, OFFSET_11_BIT_COUNT);
                vm.set_pc(vm.read_pc().wrapping_add(sext_offset));
            },
            JsrMode::Register(register) => {
                vm.set_pc(Address::new(vm.read_register(register)));
            },
        }
        Ok(())
    }
}

} // verus!
