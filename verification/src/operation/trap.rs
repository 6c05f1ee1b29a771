//! The LC-3 TRAP operation and the trap service routines.
//!
//! The routines that talk to the console are split in two: the library
//! computes what is to be printed and read, and the caller does the console
//! work. The changes a routine makes to the machine after its console work
//! (storing the character read, stopping) are made by the caller once that
//! work has succeeded, through [`TrapRoutine::finish_input`] and
//! [`TrapRoutine::halt`], so that a failed read or write leaves them undone.

use vstd::prelude::*;
use vstd::string::{StrSliceExecFns, StringSliceAdditionalSpecFns};

use crate::error::{InstructionError, Lc3Error};
use crate::instruction::{bit_field, DecodedInstruction};
use crate::memory::{wrap16, Address, MEMORY_SIZE};
use crate::operation::byte_field;
use crate::register::Register;
use crate::vm::{action_outcome, Action, MachineState, Outcome, VirtualMachine};

verus! {

/// First bit of the trap vector field.
pub const TRAP_CODE_FIELD_START: u8 = 9;
/// Last bit of the trap vector field.
pub const TRAP_CODE_FIELD_END: u8 = 16;

/// Represents the different trap routines defined by the LC-3 architecture.
#[derive(Debug, Copy, Clone, PartialEq, Eq, Structural)]
pub enum TrapRoutine {
    /// `0x20`: read a character without echo.
    GetC,
    /// `0x21`: write a character.
    Out,
    /// `0x22`: write a string of one character per word.
    PutS,
    /// `0x23`: prompt for, read and echo a character.
    In,
    /// `0x24`: write a string of two characters per word.
    PutSp,
    /// `0x25`: stop execution.
    Halt,
}

/// The trap routine with trap vector `code`, if there is one.
pub open spec fn trap_routine_of(code: u8) -> Option<TrapRoutine> {
    if code == 0x20 {
        Some(TrapRoutine::GetC)
    } else if code == 0x21 {
        Some(TrapRoutine::Out)
    } else if code == 0x22 {
        Some(TrapRoutine::PutS)
    } else if code == 0x23 {
        Some(TrapRoutine::In)
    } else if code == 0x24 {
        Some(TrapRoutine::PutSp)
    } else if code == 0x25 {
        Some(TrapRoutine::Halt)
    } else {
        None
    }
}

/// The trap vector of a TRAP instruction word (its low eight bits).
pub open spec fn trap_code_of(word: u16) -> u8 {
    bit_field(word, 9, 16) as u8
}

/// The character held in the low eight bits of a word.
pub open spec fn low_byte(word: u16) -> u8 {
    (word % 256) as u8
}

/// The character held in the high eight bits of a word.
pub open spec fn high_byte(word: u16) -> u8 {
    (word / 256) as u8
}

/// Whether the string starting at `start` ends after `k` words: the word at
/// `start + k` is zero and none before it is.
pub open spec fn string_ends_at(memory: Seq<u16>, start: u16, k: int) -> bool {
    &&& 0 <= k < MEMORY_SIZE
    &&& memory[wrap16(start + k) as int] == 0
    &&& forall|j: int| 0 <= j < k ==> memory[#[trigger] wrap16(start + j) as int] != 0
}

/// The number of words of the zero-terminated string at `start`, reading
/// upwards and wrapping around the address space.
pub open spec fn string_length(memory: Seq<u16>, start: u16) -> int {
    choose|k: int| string_ends_at(memory, start, k)
}

/// The bytes written by PUTS: the low byte of each word of the string.
pub open spec fn puts_output(memory: Seq<u16>, start: u16) -> Seq<u8> {
    Seq::new(
        string_length(memory, start) as nat,
        |i: int| low_byte(memory[wrap16(start + i) as int]),
    )
}

/// The characters packed in one word: the low byte, then the high byte
/// unless it is zero.
pub open spec fn packed_chars(word: u16) -> Seq<u8> {
    if high_byte(word) != 0 {
        seq![low_byte(word), high_byte(word)]
    } else {
        seq![low_byte(word)]
    }
}

/// The characters packed in the first `n` words starting at `start`.
pub open spec fn packed_string(memory: Seq<u16>, start: u16, n: int) -> Seq<u8>
    decreases n,
{
    if n <= 0 {
        Seq::empty()
    } else {
        packed_string(memory, start, n - 1) + packed_chars(memory[wrap16(start + n - 1) as int])
    }
}

/// The bytes written by PUTSP: the characters packed in each word of the
/// string.
pub open spec fn putsp_output(memory: Seq<u16>, start: u16) -> Seq<u8> {
    packed_string(memory, start, string_length(memory, start))
}

/// The message printed when the machine halts.
pub open spec fn halt_message() -> Seq<u8> {
    "Stopping execution\n".spec_bytes()
}

/// The prompt printed before IN reads a character.
pub open spec fn in_prompt() -> Seq<u8> {
    "Enter a character: ".spec_bytes()
}

/// Whether a routine reads a character from the console.
pub open spec fn reads_input(routine: TrapRoutine) -> bool {
    routine is GetC || routine is In
}

/// Whether a routine can run to completion in state `m`: the string
/// routines find a terminating zero word (without one, they would read
/// forever).
pub open spec fn trap_can_run(routine: TrapRoutine, m: MachineState) -> bool {
    (routine is PutS || routine is PutSp) ==> m.memory.contains(0)
}

/// What a routine asks the caller to do in state `m`: the bytes to write,
/// or the prompt and echo of a read, or the message to write before
/// stopping.
pub open spec fn trap_spec(routine: TrapRoutine, m: MachineState) -> Outcome {
    match routine {
        TrapRoutine::GetC => Outcome::Input { routine, prompt: Seq::empty(), echo: false },
        TrapRoutine::Out => Outcome::Output(seq![low_byte(m.reg(Register::R0))]),
        TrapRoutine::PutS => Outcome::Output(puts_output(m.memory, m.reg(Register::R0))),
        TrapRoutine::In => Outcome::Input { routine, prompt: in_prompt(), echo: true },
        TrapRoutine::PutSp => Outcome::Output(putsp_output(m.memory, m.reg(Register::R0))),
        TrapRoutine::Halt => Outcome::Halt(halt_message()),
    }
}

proof fn lemma_byte_split(word: u16)
    by (bit_vector)
    ensures
        word & 0x00FF == word % 256,
        (word >> 8) & 0x00FF == word / 256,
        word % 256 < 256,
        word / 256 < 256,
{
}

/// Every address is reached within one pass over the address space from
/// any starting address.
proof fn lemma_reaches(start: u16, a: int)
    requires
        0 <= a < MEMORY_SIZE,
    ensures
        wrap16(start + ((a - start) % 65536)) == a,
        0 <= (a - start) % 65536 < 65536,
{
}

/// A string that has a terminator has exactly one length.
pub proof fn lemma_string_length(memory: Seq<u16>, start: u16, k: int)
    requires
        string_ends_at(memory, start, k),
    ensures
        string_length(memory, start) == k,
{
    let l = string_length(memory, start);
    assert(string_ends_at(memory, start, l));
    if l < k {
        assert(memory[wrap16(start + l) as int] != 0);
    }
    if k < l {
        assert(memory[wrap16(start + k) as int] != 0);
    }
}

/// Scanning from `start`, a memory that holds a zero word cannot have
/// `MEMORY_SIZE` non-zero words in a row.
proof fn lemma_scan_bounded(memory: Seq<u16>, start: u16, count: int)
    requires
        memory.len() == MEMORY_SIZE,
        memory.contains(0),
        0 <= count,
        forall|j: int| 0 <= j < count ==> memory[#[trigger] wrap16(start + j) as int] != 0,
    ensures
        count < MEMORY_SIZE,
{
    if count >= MEMORY_SIZE {
        let z = choose|z: int| 0 <= z < memory.len() && memory[z] == 0;
        lemma_reaches(start, z);
        let j = (z - start) % 65536;
        assert(memory[wrap16(start + j) as int] != 0);
    }
}

impl TrapRoutine {
    /// Whether the routine reads a character from the console.
    pub fn needs_input(&self) -> (r: bool)
        ensures
            r == reads_input(*self),
    {
        match self {
            TrapRoutine::GetC | TrapRoutine::In => true,
            _ => false,
        }
    }

    /// The prompt printed before the routine reads a character: empty for
    /// GETC, a request for a character for IN.
    pub fn prompt(&self) -> (r: Vec<u8>)
        ensures
            r@ == (if *self is In { in_prompt() } else { Seq::<u8>::empty() }),
    {
        match self {
            TrapRoutine::In => "Enter a character: ".as_bytes_vec(),
            _ => Vec::new(),
        }
    }

    /// Stores the character that GETC read, without echo: its ASCII code
    /// goes to [`Register::R0`].
    pub fn getc(vm: &mut VirtualMachine, byte: u8)
        ensures
            final(vm)@ == old(vm)@.with_reg(Register::R0, byte as u16),
    {
        vm.write_register(Register::R0, byte as u16);
    }

    /// Returns the character to write to the console: the lower 8 bits of
    /// [`Register::R0`].
    pub fn out(vm: &VirtualMachine) -> (r: Vec<u8>)
        ensures
            r@ == seq![low_byte(vm@.reg(Register::R0))],
    {
        let word = vm.read_register(Register::R0);
        proof {
            lemma_byte_split(word);
        }
        let byte = (word & 0x00FF) as u8;
        let mut bytes = Vec::new();
        bytes.push(byte);
        bytes
    }

    /// Returns the string of ascii characters to write to the console.
    ///
    /// The string characters are read sequentially from memory starting from the address stored in [`Register::R0`].
    /// Each memory location contains one character in its lower 8 bits and the string is terminated
    /// by a `0x0000` value.
    pub fn puts(vm: &VirtualMachine) -> (r: Vec<u8>)
        requires
            vm@.memory.contains(0),
        ensures
            r@ == puts_output(vm@.memory, vm@.reg(Register::R0)),
    {
        vm.check_well_formed();
        let ghost memory = vm@.memory;
        let ghost start = vm@.reg(Register::R0);
        let mut address = Address::new(vm.read_register(Register::R0));
        let mut buff: Vec<u8> = Vec::new();
        let ghost mut count: int = 0;
        loop
            invariant
                vm@.memory == memory,
                memory.len() == MEMORY_SIZE,
                memory.contains(0),
                0 <= count < MEMORY_SIZE,
                address@ == wrap16(start + count),
                forall|j: int| 0 <= j < count ==> memory[#[trigger] wrap16(start + j) as int] != 0,
                buff@ == Seq::new(count as nat, |i: int| low_byte(memory[wrap16(start + i) as int])),
            ensures
                buff@ == puts_output(memory, start),
            decreases MEMORY_SIZE - count,
        {
            let word = vm.read_memory(address);
            if word != 0 {
                proof {
                    lemma_byte_split(word);
                }
                let byte = (word & 0x0FF) as u8;
                buff.push(byte);
            } else {
                proof {
                    assert(string_ends_at(memory, start, count));
                    lemma_string_length(memory, start, count);
                }
                break;
            }
            address = address.wrapping_add(1);
            proof {
                assert(buff@ =~= Seq::new((count + 1) as nat, |i: int| low_byte(memory[wrap16(start + i) as int])));
                count = count + 1;
                assert(address@ == wrap16(start + count));
                lemma_scan_bounded(memory, start, count);
            }
        }
        buff
    }

    /// Stores the character that IN read, after the prompt was written
    /// and the character echoed: its ASCII code goes to [`Register::R0`].
    pub fn _in(vm: &mut VirtualMachine, byte: u8)
        ensures
            final(vm)@ == old(vm)@.with_reg(Register::R0, byte as u16),
    {
        vm.write_register(Register::R0, byte as u16);
    }

    /// Stores the character read for a routine that reads one (GETC or IN),
    /// once the console work the routine asked for has succeeded.
    pub fn finish_input(self, vm: &mut VirtualMachine, byte: u8)
        requires
            reads_input(self),
        ensures
            final(vm)@ == old(vm)@.with_reg(Register::R0, byte as u16),
    {
        match self {
            TrapRoutine::GetC => TrapRoutine::getc(vm, byte),
            _ => TrapRoutine::_in(vm, byte),
        }
    }

    /// Returns the string of ascii characters to write to the console.
    ///
    /// The string characters are read sequentially from memory starting from the address stored in [`Register::R0`].
    ///
    /// Each memory location contains two characters, each encoded in 8 bits.
    /// The character encoded in the lower 8 bits is displayed first, followed
    /// by the character encoded in the upper 8 bits when it is non-zero.
    /// The string is terminated when the value `0x0000` is found.
    pub fn putsp(vm: &VirtualMachine) -> (r: Vec<u8>)
        requires
            vm@.memory.contains(0),
        ensures
            r@ == putsp_output(vm@.memory, vm@.reg(Register::R0)),
    {
        vm.check_well_formed();
        let ghost memory = vm@.memory;
        let ghost start = vm@.reg(Register::R0);
        let mut buff: Vec<u8> = Vec::new();
        let mut address = Address::new(vm.read_register(Register::R0));
        let ghost mut count: int = 0;
        loop
            invariant
                vm@.memory == memory,
                memory.len() == MEMORY_SIZE,
                memory.contains(0),
                0 <= count < MEMORY_SIZE,
                address@ == wrap16(start + count),
                forall|j: int| 0 <= j < count ==> memory[#[trigger] wrap16(start + j) as int] != 0,
                buff@ == packed_string(memory, start, count),
            ensures
                buff@ == putsp_output(memory, start),
            decreases MEMORY_SIZE - count,
        {
            let word = vm.read_memory(address);

            if word != 0 {
                proof {
                    lemma_byte_split(word);
                }
                let first_byte = (word & 0x00FF) as u8;
                let second_byte = ((word >> 8) & 0x00FF) as u8;

                buff.push(first_byte);

                if second_byte != 0 {
                    buff.push(second_byte);
                }
                proof {
                    assert(buff@ =~= packed_string(memory, start, count + 1));
                }
            } else {
                proof {
                    assert(string_ends_at(memory, start, count));
                    lemma_string_length(memory, start, count);
                }
                break;
            }

            address = address.wrapping_add(1);
            proof {
                count = count + 1;
                lemma_scan_bounded(memory, start, count);
            }
        }
        buff
    }

    /// Stops execution, once the halt message has been written.
    pub fn halt(vm: &mut VirtualMachine)
        ensures
            final(vm)@ == old(vm)@.halted(),
    {
        vm.halt();
    }

    /// The message written before the machine stops.
    pub fn stop_message() -> (r: Vec<u8>)
        ensures
            r@ == halt_message(),
    {
        "Stopping execution\n".as_bytes_vec()
    }
}

/// Represents the LC-3 TRAP operation: a call of one of the trap routines.
pub struct TrapOp(pub TrapRoutine);

impl TrapOp {
    /// Decodes the trap vector of the instruction.
    ///
    /// # Errors
    ///
    /// Returns [`InstructionError::InvalidTrapCode`] when the vector names
    /// no trap routine.
    pub fn decode(instruction: DecodedInstruction) -> (r: Result<TrapOp, Lc3Error>)
        ensures
            match trap_routine_of(trap_code_of(instruction@)) {
                Some(routine) => r matches Ok(op) && op.0 == routine,
                None => r matches Err(Lc3Error::Instruction(InstructionError::InvalidTrapCode(code)))
                    && code == trap_code_of(instruction@),
            },
    {
        let raw = instruction.raw();
        let trap_code = byte_field(&raw, TRAP_CODE_FIELD_START, TRAP_CODE_FIELD_END);
        match trap_code {
            0x20 => Ok(TrapOp(TrapRoutine::GetC)),
            0x21 => Ok(TrapOp(TrapRoutine::Out)),
            0x22 => Ok(TrapOp(TrapRoutine::PutS)),
            0x23 => Ok(TrapOp(TrapRoutine::In)),
            0x24 => Ok(TrapOp(TrapRoutine::PutSp)),
            0x25 => Ok(TrapOp(TrapRoutine::Halt)),
            _ => Err(Lc3Error::Instruction(InstructionError::InvalidTrapCode(trap_code))),
        }
    }

    /// Runs the trap routine as far as the machine goes: returns the
    /// console work to do, and leaves to the caller the change of state
    /// that follows it (stopping for HALT, storing the character for GETC
    /// and IN).
    pub fn execute(self, vm: &VirtualMachine) -> (r: Action)
        requires
            trap_can_run(self.0, vm@),
        ensures
            action_outcome(r) == trap_spec(self.0, vm@),
    {
        match self.0 {
            TrapRoutine::GetC => Action::Input { routine: TrapRoutine::GetC, prompt: Vec::new(), echo: false },
            TrapRoutine::Out => Action::Output(TrapRoutine::out(vm)),
            TrapRoutine::PutS => Action::Output(TrapRoutine::puts(vm)),
            TrapRoutine::In => Action::Input { routine: TrapRoutine::In, prompt: TrapRoutine::In.prompt(), echo: true },
            TrapRoutine::PutSp => Action::Output(TrapRoutine::putsp(vm)),
            TrapRoutine::Halt => Action::Halt { message: TrapRoutine::stop_message() },
        }
    }
}

} // verus!
