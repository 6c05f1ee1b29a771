//! The LC-3 AND operation.

use vstd::prelude::*;

use crate::operation::{sign_extend, BinaryOp, BinaryOpMode, BinaryOperands, IMM5_BIT_COUNT};
use crate::register::Register;
use crate::vm::VirtualMachine;

verus! {

/// Represents an LC-3 AND operation.
///
/// A bitwise AND `&` operation is performed between `SR1` and the value in `SR2` or
/// a sign-extended 5-bit immediate operand. The result is stored in `DR`,
/// and the condition code is updated based on the result.
#[derive(Debug)]
pub struct AndOp {
    /// Destination register.
    pub dr: Register,
    /// First source register.
    pub sr1: Register,
    /// Second operand: a register or a 5-bit immediate.
    pub mode: BinaryOpMode,
}

impl BinaryOp for AndOp {
    open spec fn parts(&self) -> (Register, Register, BinaryOpMode) {
        (self.dr, self.sr1, self.mode)
    }

    open spec fn spec_operate(lhs: u16, rhs: u16) -> u16 {
        lhs & rhs
    }

    fn from_parts(dr: Register, sr1: Register, mode: BinaryOpMode) -> (r: Self) {
        Self { dr, sr1, mode }
    }

    fn operands(self, vm: &VirtualMachine) -> (r: BinaryOperands) {
        BinaryOperands {
            dr: self.dr,
            lhs: vm.read_register(self.sr1),
            rhs: match self.mode {
                BinaryOpMode::Register(sr2) => vm.read_register(sr2),
                BinaryOpMode::Immediate(imm5) => sign_extend(imm5, IMM5_BIT_COUNT),
            },
        }
    }

    fn operate(lhs: u16, rhs: u16) -> (r: u16) {
        lhs & rhs
    }
}

} // verus!
