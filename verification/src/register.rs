//! Register types for the LC-3 virtual machine.
//!
//! The LC-3 defines ten registers:
//! - Eight general-purpose registers (`R0`-`R7`), each holding a 16-bit value.
//! - A 16-bit program counter (`PC`).
//! - A condition code register (`COND`) representing the result of the most
//!   recent operation.

use vstd::prelude::*;

use crate::memory::{wrap16, Address};

verus! {

/// Starting memory address for user space.
pub const PC_START: u16 = 0x3000;

/// Number of general purpose registers defined by the LC-3 architecture.
pub const GENERAL_REGISTERS_SIZE: usize = 8;

/// Represents the LC-3 condition code.
///
/// The condition code records whether the result of the most recent
/// operation was positive, zero, or negative.
#[derive(Debug, Copy, Clone, PartialEq, Eq, Structural)]
pub enum ConditionCode {
    /// Positive
    Pos,
    /// Zero
    Zro,
    /// Negative
    Neg,
}

/// The condition code that a result value sets: zero, negative when the
/// sign bit (bit 15) is set, positive otherwise.
pub open spec fn cond_of(value: u16) -> ConditionCode {
    if value == 0 {
        ConditionCode::Zro
    } else if value >= 0x8000 {
        ConditionCode::Neg
    } else {
        ConditionCode::Pos
    }
}

impl ConditionCode {
    /// Classifies an operation result by its sign as a 16-bit two's
    /// complement value.
    pub fn from_result(value: u16) -> (r: ConditionCode)
        ensures
            r == cond_of(value),
        no_unwind
    {
        if value == 0 {
            ConditionCode::Zro
        } else if value >= 0x8000 {
            ConditionCode::Neg
        } else {
            ConditionCode::Pos
        }
    }
}

impl Default for ConditionCode {
    fn default() -> (r: ConditionCode)
        ensures
            r == ConditionCode::Zro,
    {
        ConditionCode::Zro
    }
}

/// Identifies one of the LC-3 general-purpose registers.
///
/// The variants correspond, in order, to the three-bit register identifiers
/// encoded in LC-3 instructions.
#[derive(Debug, Copy, Clone, PartialEq, Eq, Structural)]
pub enum Register {
    R0,
    R1,
    R2,
    R3,
    R4,
    R5,
    R6,
    R7,
}

/// The register named by a three-bit identifier.
pub open spec fn register_of(id: int) -> Register {
    if id == 0 {
        Register::R0
    } else if id == 1 {
        Register::R1
    } else if id == 2 {
        Register::R2
    } else if id == 3 {
        Register::R3
    } else if id == 4 {
        Register::R4
    } else if id == 5 {
        Register::R5
    } else if id == 6 {
        Register::R6
    } else {
        Register::R7
    }
}

impl Register {
    /// The three-bit identifier of the register.
    pub open spec fn id(self) -> int {
        match self {
            Register::R0 => 0,
            Register::R1 => 1,
            Register::R2 => 2,
            Register::R3 => 3,
            Register::R4 => 4,
            Register::R5 => 5,
            Register::R6 => 6,
            Register::R7 => 7,
        }
    }

    /// Returns the register named by the three-bit identifier `id`.
    pub fn from_id(id: u8) -> (r: Register)
        requires
            id < 8,
        ensures
            r == register_of(id as int),
            r.id() == id,
    {
        if id == 0 {
            Register::R0
        } else if id == 1 {
            Register::R1
        } else if id == 2 {
            Register::R2
        } else if id == 3 {
            Register::R3
        } else if id == 4 {
            Register::R4
        } else if id == 5 {
            Register::R5
        } else if id == 6 {
            Register::R6
        } else {
            Register::R7
        }
    }

    /// Returns the register's identifier as an index.
    pub fn index(self) -> (r: usize)
        ensures
            r == self.id(),
        no_unwind
    {
        match self {
            Register::R0 => 0,
            Register::R1 => 1,
            Register::R2 => 2,
            Register::R3 => 3,
            Register::R4 => 4,
            Register::R5 => 5,
            Register::R6 => 6,
            Register::R7 => 7,
        }
    }
}

impl From<Register> for usize {
    fn from(register: Register) -> (r: usize) {
        register.index()
    }
}

impl vstd::std_specs::convert::FromSpecImpl<Register> for usize {
    open spec fn obeys_from_spec() -> bool {
        true
    }

    open spec fn from_spec(v: Register) -> usize {
        v.id() as usize
    }
}

/// The abstract contents of the register file.
pub struct RegistersView {
    /// The eight general-purpose registers, `R0` first.
    pub general: Seq<u16>,
    /// The program counter.
    pub pc: u16,
    /// The condition code.
    pub cond: ConditionCode,
}

/// Represents the registers defined by the LC-3 architecture.
///
/// The eight general-purpose registers are stored internally as an array of
/// 16-bit values. The program counter and condition code are represented
/// separately because they have different semantics from the general-purpose
/// registers.
#[derive(Debug)]
pub struct Registers {
    general: [u16; 8],
    pc: Address,
    cond: ConditionCode,
}

impl View for Registers {
    type V = RegistersView;

    closed spec fn view(&self) -> RegistersView {
        RegistersView { general: self.general@, pc: self.pc@, cond: self.cond }
    }
}

impl Default for Registers {
    fn default() -> (r: Registers)
        ensures
            r@.general == Seq::new(8, |i: int| 0u16),
            r@.pc == PC_START,
            r@.cond == ConditionCode::Zro,
    {
        let r = Registers {
            general: [0u16, 0, 0, 0, 0, 0, 0, 0],
            pc: Address::new(PC_START),
            cond: ConditionCode::default(),
        };
        assert(r@.general =~= Seq::new(8, |i: int| 0u16));
        r
    }
}

impl Registers {
    /// The register file always holds eight general-purpose registers.
    pub proof fn lemma_len(&self)
        ensures
            self@.general.len() == GENERAL_REGISTERS_SIZE,
    {
    }

    /// Returns the number of general purpose registers.
    pub fn len(&self) -> (r: usize)
        ensures
            r == GENERAL_REGISTERS_SIZE,
            r == self@.general.len(),
    {
        GENERAL_REGISTERS_SIZE
    }

    /// Returns the current `PC` [`Address`]
    pub fn pc(&self) -> (r: Address)
        ensures
            r@ == self@.pc,
    {
        self.pc
    }

    /// Returns the current [`ConditionCode`]
    pub fn cond(&self) -> (r: ConditionCode)
        ensures
            r == self@.cond,
    {
        self.cond
    }

    /// Advance the `PC` to the next memory [`Address`].
    /// If current `PC` points to the last address in the LC-3 space, it wraps
    /// around to the beginning.
    pub fn advance_pc(&mut self)
        ensures
            final(self)@ == (RegistersView { pc: wrap16(old(self)@.pc + 1), ..old(self)@ }),
        no_unwind
    {
        self.pc = self.pc.wrapping_add(1);
    }

    /// Sets `PC` to a specific [`Address`] ensuring a valid LC-3 memory location.
    pub fn set_pc(&mut self, address: Address)
        ensures
            final(self)@ == (RegistersView { pc: address@, ..old(self)@ }),
        no_unwind
    {
        self.pc = address;
    }

    /// Sets the condition code from the sign of an operation result.
    pub fn set_cond(&mut self, op_result: u16)
        ensures
            final(self)@ == (RegistersView { cond: cond_of(op_result), ..old(self)@ }),
        no_unwind
    {
        self.cond = ConditionCode::from_result(op_result);
    }

    /// Returns the value stored in a general-purpose register.
    pub fn read(&self, register: Register) -> (r: u16)
        ensures
            r == self@.general[register.id()],
    {
        self.general[register.index()]
    }

    /// Stores `value` in a general-purpose register.
    pub fn write(&mut self, register: Register, value: u16)
        ensures
            final(self)@ == (RegistersView {
                general: old(self)@.general.update(register.id(), value),
                ..old(self)@
            }),
        no_unwind
    {
        self.general[register.index()] = value;
    }
}

} // verus!
