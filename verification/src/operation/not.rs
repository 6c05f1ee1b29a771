//! The LC-3 NOT operation.

use vstd::prelude::*;

use crate::operation::{UnaryOp, UnaryOperands};
use crate::register::Register;
use crate::vm::VirtualMachine;

verus! {

/// Represents an LC-3 NOT operation.
///
/// The operation applies a bitwise complement on the value in `SR`.
/// The result is stored in `DR` and the condition code is updated based on the result.
#[derive(Debug)]
pub struct NotOp {
    /// Destination register.
    pub dr: Register,
    /// Source register.
    pub sr: Register,
}

impl UnaryOp for NotOp {
    open spec fn parts(&self) -> (Register, Register) {
        (self.dr, self.sr)
    }

    open spec fn spec_operate(value: u16) -> u16 {
        !value
    }

    fn from_parts(dr: Register, sr: Register) -> (r: Self) {
        Self { dr, sr }
    }

    fn operands(self, vm: &VirtualMachine) -> (r: UnaryOperands) {
        UnaryOperands { dr: self.dr, value: vm.read_register(self.sr) }
    }

    fn operate(value: u16) -> (r: u16) {
        !value
    }
}

} // verus!
