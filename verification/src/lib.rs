//! An LC-3 virtual machine whose instruction semantics are stated as
//! contracts and proved with Verus.
//!
//! The machine state is modelled by [`vm::MachineState`]; every instruction
//! is specified as a function from one such state to the next, and the
//! executable code is proved to compute exactly that function.

pub mod error;
pub mod instruction;
pub mod memory;
pub mod register;
pub mod vm;
pub mod operation;
pub mod properties;
