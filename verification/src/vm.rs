//! The LC-3 virtual machine: its state, the model of that state, and the
//! execution of one instruction at a time.

use vstd::prelude::*;

use crate::error::{InstructionError, Lc3Error};
use crate::instruction::{bit_field, word_opcode, DecodedInstruction, Opcode, RawInstruction};
use crate::memory::{wrap16, Address, Memory, MEMORY_SIZE};
use crate::operation::add::AddOp;
use crate::operation::and::AndOp;
use crate::operation::br::{branch_spec, BrOp};
use crate::operation::jmp::JmpOp;
use crate::operation::jsr::{jsr_mode_of, jsr_spec, JsrOp};
use crate::operation::ld::LdOp;
use crate::operation::ldi::LdiOp;
use crate::operation::ldr::LdrOp;
use crate::operation::lea::LeaOp;
use crate::operation::not::NotOp;
use crate::operation::st::StOp;
use crate::operation::sti::StiOp;
use crate::operation::str::StrOp;
use crate::operation::trap::{
    trap_code_of, trap_routine_of, trap_spec, TrapOp, TrapRoutine,
};
use crate::operation::{
    binary_mode_of, binary_rhs, dr_of, effective_address, offset6_of, offset9_of, sr1_of,
    BinaryOp, MemoryLoadOp, MemoryStoreOp, Offset, UnaryOp,
};
use crate::register::{cond_of, ConditionCode, Register, Registers, GENERAL_REGISTERS_SIZE, PC_START};

verus! {

/// The abstract state of an LC-3 machine.
pub struct MachineState {
    /// The 65,536 words of memory, indexed by address.
    pub memory: Seq<u16>,
    /// The eight general-purpose registers, `R0` first.
    pub registers: Seq<u16>,
    /// The program counter.
    pub pc: u16,
    /// The condition code.
    pub cond: ConditionCode,
    /// Whether the machine is still executing instructions.
    pub running: bool,
}

impl MachineState {
    /// The state has one word per address and eight general registers.
    pub open spec fn wf(self) -> bool {
        &&& self.memory.len() == MEMORY_SIZE
        &&& self.registers.len() == GENERAL_REGISTERS_SIZE
    }

    /// The value of a general-purpose register.
    pub open spec fn reg(self, r: Register) -> u16 {
        self.registers[r.id()]
    }

    /// The word stored at an address.
    pub open spec fn mem(self, address: u16) -> u16 {
        self.memory[address as int]
    }

    /// The state with `value` stored in register `r`.
    pub open spec fn with_reg(self, r: Register, value: u16) -> MachineState {
        MachineState { registers: self.registers.update(r.id(), value), ..self }
    }

    /// The state with the condition code set from the sign of `value`.
    pub open spec fn with_cond(self, value: u16) -> MachineState {
        MachineState { cond: cond_of(value), ..self }
    }

    /// The state with the program counter set to `pc`.
    pub open spec fn with_pc(self, pc: u16) -> MachineState {
        MachineState { pc, ..self }
    }

    /// The state with `value` stored at `address`.
    pub open spec fn with_mem(self, address: u16, value: u16) -> MachineState {
        MachineState { memory: self.memory.update(address as int, value), ..self }
    }

    /// The state with execution stopped.
    pub open spec fn halted(self) -> MachineState {
        MachineState { running: false, ..self }
    }

    /// The state of a freshly created machine: zeroed memory and registers,
    /// the program counter at the start of user space, condition code zero.
    pub open spec fn initial() -> MachineState {
        MachineState {
            memory: Seq::new(MEMORY_SIZE as nat, |i: int| 0u16),
            registers: Seq::new(GENERAL_REGISTERS_SIZE as nat, |i: int| 0u16),
            pc: PC_START,
            cond: ConditionCode::Zro,
            running: true,
        }
    }
}

/// What the caller has to do after a step of the machine.
///
/// The console work of a trap routine is left to the caller, and the
/// changes the routine makes to the machine are made by the caller once
/// that work has succeeded, so that a failed read or write leaves them
/// undone.
#[derive(Debug)]
pub enum Action {
    /// The instruction completed without console work.
    Continue,
    /// Write these bytes to the console (OUT, PUTS, PUTSP).
    Output(Vec<u8>),
    /// Write `message` to the console, then stop the machine with
    /// [`VirtualMachine::halt`] (HALT).
    Halt { message: Vec<u8> },
    /// Write `prompt`, read one byte, write the byte back when `echo` is
    /// set, then store it with [`TrapRoutine::finish_input`] (GETC, IN).
    Input { routine: TrapRoutine, prompt: Vec<u8>, echo: bool },
}

/// The abstract counterpart of an [`Action`].
pub enum Outcome {
    /// The instruction completed without console work.
    Continue,
    /// These bytes are to be written.
    Output(Seq<u8>),
    /// The message is to be written, then the machine stopped.
    Halt(Seq<u8>),
    /// The prompt is to be written, a byte read, echoed when `echo` holds,
    /// and stored by `routine`.
    Input { routine: TrapRoutine, prompt: Seq<u8>, echo: bool },
}

/// The abstract counterpart of an [`Action`].
pub open spec fn action_outcome(a: Action) -> Outcome {
    match a {
        Action::Continue => Outcome::Continue,
        Action::Output(bytes) => Outcome::Output(bytes@),
        Action::Halt { message } => Outcome::Halt(message@),
        Action::Input { routine, prompt, echo } => Outcome::Input { routine, prompt: prompt@, echo },
    }
}

/// The abstract outcome of a step.
pub open spec fn outcome_of(r: Result<Action, Lc3Error>) -> Result<Outcome, Lc3Error> {
    match r {
        Ok(a) => Ok(action_outcome(a)),
        Err(e) => Err(e),
    }
}

/// The state after an operation that writes `value` to `dr` and sets the
/// condition code from it.
pub open spec fn set_result(m: MachineState, dr: Register, value: u16) -> MachineState {
    m.with_reg(dr, value).with_cond(value)
}

/// Executes the decoded instruction `word` in state `m`, whose program
/// counter has already been advanced past it. A trap changes nothing here:
/// its console work and the changes that follow it are the caller's, as
/// the outcome describes.
pub open spec fn execute_spec(word: u16, m: MachineState) -> (MachineState, Result<Outcome, Lc3Error>) {
    let dr = dr_of(word);
    let sr1 = sr1_of(word);
    let pc_offset = Offset::Offset9(offset9_of(word));
    let base_offset = Offset::Offset6 { base_r: sr1, value: offset6_of(word) };
    match word_opcode(word) {
        Opcode::Br => (branch_spec(bit_field(word, 5, 7) as u8, offset9_of(word), m), Ok(Outcome::Continue)),
        Opcode::Add => (
            set_result(m, dr, wrap16(m.reg(sr1) + binary_rhs(binary_mode_of(word), m))),
            Ok(Outcome::Continue),
        ),
        Opcode::Ld => (set_result(m, dr, m.mem(effective_address(pc_offset, m))), Ok(Outcome::Continue)),
        Opcode::St => (m.with_mem(effective_address(pc_offset, m), m.reg(dr)), Ok(Outcome::Continue)),
        Opcode::Jsr => (jsr_spec(jsr_mode_of(word), m), Ok(Outcome::Continue)),
        Opcode::And => (
            set_result(m, dr, m.reg(sr1) & binary_rhs(binary_mode_of(word), m)),
            Ok(Outcome::Continue),
        ),
        Opcode::Ldr => (set_result(m, dr, m.mem(effective_address(base_offset, m))), Ok(Outcome::Continue)),
        Opcode::Str => (m.with_mem(effective_address(base_offset, m), m.reg(dr)), Ok(Outcome::Continue)),
        Opcode::Rti => (m, Err(Lc3Error::UnsupportedInstruction(Opcode::Rti))),
        Opcode::Not => (set_result(m, dr, !m.reg(sr1)), Ok(Outcome::Continue)),
        Opcode::Ldi => (
            set_result(m, dr, m.mem(m.mem(effective_address(pc_offset, m)))),
            Ok(Outcome::Continue),
        ),
        Opcode::Sti => (m.with_mem(m.mem(effective_address(pc_offset, m)), m.reg(dr)), Ok(Outcome::Continue)),
        Opcode::Jmp => (m.with_pc(m.reg(sr1)), Ok(Outcome::Continue)),
        Opcode::Res => (m, Err(Lc3Error::UnsupportedInstruction(Opcode::Res))),
        Opcode::Lea => (m.with_reg(dr, effective_address(pc_offset, m)), Ok(Outcome::Continue)),
        Opcode::Trap => match trap_routine_of(trap_code_of(word)) {
            Some(routine) => (m, Ok(trap_spec(routine, m))),
            None => (m, Err(Lc3Error::Instruction(InstructionError::InvalidTrapCode(trap_code_of(word))))),
        },
    }
}

/// One step of the machine: fetch the instruction at the program counter,
/// advance the program counter, and execute the instruction.
pub open spec fn step_spec(m: MachineState) -> (MachineState, Result<Outcome, Lc3Error>) {
    execute_spec(m.mem(m.pc), m.with_pc(wrap16(m.pc + 1)))
}

/// Whether the instruction at the program counter finishes: a PUTS or
/// PUTSP trap only finishes when some word of memory is zero, which ends
/// the string it prints.
pub open spec fn step_finishes(m: MachineState) -> bool {
    let word = m.mem(m.pc);
    let prints_string = word_opcode(word) is Trap && (trap_routine_of(trap_code_of(word)) == Some(
        TrapRoutine::PutS) || trap_routine_of(trap_code_of(word)) == Some(TrapRoutine::PutSp));
    prints_string ==> m.memory.contains(0)
}

/// Whether the machine is running or has been halted.
#[derive(Debug)]
enum VmState {
    Running,
    Stopped,
}

/// Represents an LC-3 virtual machine.
///
/// The architecture spec defines 65536 16 bit memory locations
/// for a total of 128 KiB of memory and 10 registers.
/// 8 general-purpose registers, the program counter, and the
/// condition code register.
#[derive(Debug)]
pub struct VirtualMachine {
    memory: Memory,
    registers: Registers,
    state: VmState,
}

impl View for VirtualMachine {
    type V = MachineState;

    closed spec fn view(&self) -> MachineState {
        MachineState {
            memory: self.memory@,
            registers: self.registers@.general,
            pc: self.registers@.pc,
            cond: self.registers@.cond,
            running: self.state is Running,
        }
    }
}

impl Default for VirtualMachine {
    fn default() -> (vm: VirtualMachine)
        ensures
            vm@ == MachineState::initial(),
    {
        let vm = VirtualMachine {
            memory: Memory::default(),
            registers: Registers::default(),
            state: VmState::Running,
        };
        assert(vm@.registers =~= MachineState::initial().registers);
        vm
    }
}

impl VirtualMachine {
    #[verifier::type_invariant]
    spec fn well_formed(self) -> bool {
        &&& self.memory@.len() == MEMORY_SIZE
        &&& self.registers@.general.len() == GENERAL_REGISTERS_SIZE
    }

    /// The model of every machine is well formed.
    pub fn check_well_formed(&self)
        ensures
            self@.wf(),
    {
        proof {
            use_type_invariant(self);
        }
    }

    /// The machine's memory.
    pub fn memory(&self) -> (r: &Memory)
        ensures
            r@ == self@.memory,
    {
        &self.memory
    }

    /// The machine's register file.
    pub fn registers(&self) -> (r: &Registers)
        ensures
            r@.general == self@.registers,
            r@.pc == self@.pc,
            r@.cond == self@.cond,
    {
        &self.registers
    }

    /// Fetches the instruction at the address stored in the program counter
    /// and advances the program counter to the next memory location.
    ///
    /// The program counter is advanced before the fetched instruction is
    /// decoded or executed.
    pub fn fetch(&mut self) -> (r: RawInstruction)
        ensures
            r@ == old(self)@.mem(old(self)@.pc),
            final(self)@ == old(self)@.with_pc(wrap16(old(self)@.pc + 1)),
    {
        proof {
            use_type_invariant(&*self);
        }
        let raw = self.memory.read(self.registers.pc());
        self.registers.advance_pc();
        RawInstruction::new(raw)
    }

    /// Returns the value stored at the specified general purpose register.
    pub fn read_register(&self, register: Register) -> (r: u16)
        ensures
            r == self@.reg(register),
    {
        self.registers.read(register)
    }

    /// Writes a value to the specified general purpose register.
    pub fn write_register(&mut self, register: Register, value: u16)
        ensures
            final(self)@ == old(self)@.with_reg(register, value),
    {
        proof {
            use_type_invariant(&*self);
        }
        self.registers.write(register, value);
    }

    /// Sets the `COND` register to a [`ConditionCode`] based on the
    /// last operation result value.
    pub fn set_cond(&mut self, op_result: u16)
        ensures
            final(self)@ == old(self)@.with_cond(op_result),
    {
        proof {
            use_type_invariant(&*self);
        }
        self.registers.set_cond(op_result);
    }

    /// Returns the [`ConditionCode`] stored in the `COND` register.
    pub fn read_cond(&self) -> (r: ConditionCode)
        ensures
            r == self@.cond,
    {
        self.registers.cond()
    }

    /// Decodes a raw LC-3 instruction into its corresponding instruction
    /// representation.
    pub fn decode(instruction: RawInstruction) -> (r: DecodedInstruction)
        ensures
            r@ == instruction@,
    {
        DecodedInstruction::decode(instruction)
    }

    /// Returns the current [`Address`] stored in the program counter.
    pub fn read_pc(&self) -> (r: Address)
        ensures
            r@ == self@.pc,
    {
        self.registers.pc()
    }

    /// Sets the program counter to `address`.
    pub fn set_pc(&mut self, address: Address)
        ensures
            final(self)@ == old(self)@.with_pc(address@),
    {
        proof {
            use_type_invariant(&*self);
        }
        self.registers.set_pc(address);
    }

    /// Returns the underlying `u16` at the specified [`Address`]
    pub fn read_memory(&self, address: Address) -> (r: u16)
        ensures
            r == self@.mem(address@),
    {
        self.memory.read(address)
    }

    /// Writes a `u16` value at the specified [`Address`]
    pub fn write_memory(&mut self, address: Address, value: u16)
        ensures
            final(self)@ == old(self)@.with_mem(address@, value),
    {
        proof {
            use_type_invariant(&*self);
        }
        self.memory.write(address, value);
    }

    /// Halts execution.
    pub fn halt(&mut self)
        ensures
            final(self)@ == old(self)@.halted(),
    {
        proof {
            use_type_invariant(&*self);
        }
        self.state = VmState::Stopped;
    }

    /// Executes the instruction at the program counter: fetches it,
    /// advances the program counter, decodes and executes it, and reports
    /// what the caller has to do. For a trap the caller performs the
    /// console work and then, for HALT, GETC and IN, the change of state
    /// that follows it, as the returned [`Action`] says.
    ///
    /// # Errors
    ///
    /// Returns [`Lc3Error::Instruction`] if instruction decoding fails.
    /// Returns [`Lc3Error::UnsupportedInstruction`] if a reserved or unsupported
    /// operation is encountered.
    pub fn step(&mut self) -> (r: Result<Action, Lc3Error>)
        requires
            old(self)@.running,
            step_finishes(old(self)@),
        ensures
            (final(self)@, outcome_of(r)) == step_spec(old(self)@),
    {
        proof {
            use_type_invariant(&*self);
        }
        let raw = self.fetch();
        let instruction = Self::decode(raw);
        let opcode = *instruction.opcode();
        match opcode {
            Opcode::Add | Opcode::And | Opcode::Not => Ok(self.execute_alu(instruction)),
            Opcode::Ld | Opcode::Ldi | Opcode::Ldr | Opcode::Lea => Ok(self.execute_load(instruction)),
            Opcode::St | Opcode::Sti | Opcode::Str => Ok(self.execute_store(instruction)),
            Opcode::Br | Opcode::Jmp | Opcode::Jsr => Ok(self.execute_control(instruction)),
            Opcode::Rti | Opcode::Res => Err(Lc3Error::UnsupportedInstruction(opcode)),
            Opcode::Trap => match TrapOp::decode(instruction) {
                Ok(op) => Ok(op.execute(self)),
                Err(e) => Err(e),
            },
        }
    }

    /// Whether the next step can run to completion: false only when the
    /// instruction at the program counter prints a string (PUTS or PUTSP)
    /// and no word of memory is zero, so that the string never ends.
    pub fn next_step_finishes(&self) -> (r: bool)
        ensures
            r == step_finishes(self@),
    {
        proof {
            use_type_invariant(self);
        }
        let word = self.read_memory(self.read_pc());
        let decoded = Self::decode(RawInstruction::new(word));
        let opcode = *decoded.opcode();
        if opcode != Opcode::Trap {
            return true;
        }
        match TrapOp::decode(decoded) {
            Ok(op) => match op.0 {
                TrapRoutine::PutS | TrapRoutine::PutSp => self.memory_has_zero(),
                _ => true,
            },
            Err(_) => true,
        }
    }

    /// Whether some word of memory is zero.
    fn memory_has_zero(&self) -> (r: bool)
        ensures
            r == self@.memory.contains(0),
    {
        proof {
            use_type_invariant(self);
        }
        let mut i: usize = 0;
        while i < MEMORY_SIZE
            invariant
                self@.memory.len() == MEMORY_SIZE,
                i <= MEMORY_SIZE,
                forall|j: int| 0 <= j < i ==> self@.memory[j] != 0,
            decreases MEMORY_SIZE - i,
        {
            if self.memory.read(Address::new(i as u16)) == 0 {
                return true;
            }
            i = i + 1;
        }
        false
    }

    /// Executes an ADD, AND or NOT instruction.
    fn execute_alu(&mut self, instruction: DecodedInstruction) -> (r: Action)
        requires
            word_opcode(instruction@) is Add || word_opcode(instruction@) is And
                || word_opcode(instruction@) is Not,
        ensures
            (final(self)@, outcome_of(Ok(r))) == execute_spec(instruction@, old(self)@),
    {
        let opcode = *instruction.opcode();
        match opcode {
            Opcode::Add => {
                if let Ok(op) = AddOp::decode(instruction) {
                    op.execute(self);
                }
            },
            Opcode::And => {
                if let Ok(op) = AndOp::decode(instruction) {
                    op.execute(self);
                }
            },
            _ => {
                if let Ok(op) = NotOp::decode(instruction) {
                    op.execute(self);
                }
            },
        }
        Action::Continue
    }

    /// Executes an LD, LDI, LDR or LEA instruction.
    fn execute_load(&mut self, instruction: DecodedInstruction) -> (r: Action)
        requires
            word_opcode(instruction@) is Ld || word_opcode(instruction@) is Ldi
                || word_opcode(instruction@) is Ldr || word_opcode(instruction@) is Lea,
        ensures
            (final(self)@, outcome_of(Ok(r))) == execute_spec(instruction@, old(self)@),
    {
        let opcode = *instruction.opcode();
        match opcode {
            Opcode::Ld => {
                if let Ok(op) = LdOp::decode(instruction) {
                    op.execute(self);
                }
            },
            Opcode::Ldi => {
                if let Ok(op) = LdiOp::decode(instruction) {
                    op.execute(self);
                }
            },
            Opcode::Ldr => {
                if let Ok(op) = LdrOp::decode(instruction) {
                    op.execute(self);
                }
            },
            _ => {
                if let Ok(op) = LeaOp::decode(instruction) {
                    let _ = op.execute(self);
                }
            },
        }
        Action::Continue
    }

    /// Executes an ST, STI or STR instruction.
    fn execute_store(&mut self, instruction: DecodedInstruction) -> (r: Action)
        requires
            word_opcode(instruction@) is St || word_opcode(instruction@) is Sti
                || word_opcode(instruction@) is Str,
        ensures
            (final(self)@, outcome_of(Ok(r))) == execute_spec(instruction@, old(self)@),
    {
        let opcode = *instruction.opcode();
        match opcode {
            Opcode::St => {
                if let Ok(op) = StOp::decode(instruction) {
                    op.execute(self);
                }
            },
            Opcode::Sti => {
                if let Ok(op) = StiOp::decode(instruction) {
                    op.execute(self);
                }
            },
            _ => {
                if let Ok(op) = StrOp::decode(instruction) {
                    op.execute(self);
                }
            },
        }
        Action::Continue
    }

    /// Executes a BR, JMP or JSR instruction.
    fn execute_control(&mut self, instruction: DecodedInstruction) -> (r: Action)
        requires
            word_opcode(instruction@) is Br || word_opcode(instruction@) is Jmp
                || word_opcode(instruction@) is Jsr,
        ensures
            (final(self)@, outcome_of(Ok(r))) == execute_spec(instruction@, old(self)@),
    {
        let opcode = *instruction.opcode();
        match opcode {
            Opcode::Br => {
                if let Ok(op) = BrOp::decode(instruction) {
                    op.execute(self);
                }
            },
            Opcode::Jmp => {
                if let Ok(op) = JmpOp::decode(instruction) {
                    op.execute(self);
                }
            },
            _ => {
                if let Ok(op) = JsrOp::decode(instruction) {
                    let _ = op.execute(self);
                }
            },
        }
        Action::Continue
    }

    /// Checks if the [`VirtualMachine`] is in a running state.
    pub fn is_running(&self) -> (r: bool)
        ensures
            r == self@.running,
    {
        match self.state {
            VmState::Running => true,
            VmState::Stopped => false,
        }
    }
}

} // verus!
