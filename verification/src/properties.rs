//! Properties of the machine model that span several operations.

use vstd::prelude::*;
use vstd::string::StringSliceAdditionalSpecFns;

use crate::instruction::{bit_field, opcode_of, word_opcode};
use vstd::arithmetic::power2::lemma2_to64;
use crate::memory::wrap16;
use crate::operation::br::branch_taken;
use crate::operation::trap::{halt_message, trap_code_of};
use crate::operation::{
    dr_of, effective_address, lemma_sign_extend_value, offset6_of, offset9_of, sign_extend_spec,
    sr1_of, Offset,
};
use crate::register::{cond_of, register_of, ConditionCode, Register};
use crate::vm::{execute_spec, step_spec, MachineState, Outcome};

verus! {

/// The opcode of an instruction is the value of its bits 1 to 4 (the four
/// most significant bits).
pub proof fn lemma_opcode_is_top_field(word: u16)
    ensures
        word_opcode(word) == opcode_of(bit_field(word, 1, 4) as int),
{
    lemma2_to64();
    let q = word as nat / 4096;
    assert(q < 16);
    vstd::arithmetic::div_mod::lemma_small_mod(q, 16);
    assert(bit_field(word, 1, 4) == q);
}

/// Reading a word after writing it gives back the value written; every
/// other word keeps its value.
pub proof fn lemma_memory_read_after_write(m: MachineState, address: u16, value: u16, other: u16)
    requires
        m.wf(),
    ensures
        m.with_mem(address, value).wf(),
        m.with_mem(address, value).mem(address) == value,
        other != address ==> m.with_mem(address, value).mem(other) == m.mem(other),
{
}

/// Reading a register after writing it gives back the value written; every
/// other register keeps its value.
pub proof fn lemma_register_read_after_write(m: MachineState, r: Register, value: u16, other: Register)
    requires
        m.wf(),
    ensures
        m.with_reg(r, value).wf(),
        m.with_reg(r, value).reg(r) == value,
        other != r ==> m.with_reg(r, value).reg(other) == m.reg(other),
{
}

/// Executing an instruction keeps the machine well formed: memory keeps
/// its 65,536 words and the register file its eight registers.
pub proof fn lemma_step_keeps_wf(m: MachineState)
    requires
        m.wf(),
    ensures
        step_spec(m).0.wf(),
{
}

/// An STR followed by an LDR with the same base register and offset loads
/// the value that was stored, and sets the condition code from it.
pub proof fn lemma_store_then_load(m: MachineState, store: u16, load: u16)
    requires
        m.wf(),
        word_opcode(store) is Str,
        word_opcode(load) is Ldr,
        sr1_of(load) == sr1_of(store),
        offset6_of(load) == offset6_of(store),
    ensures
        ({
            let stored = execute_spec(store, m).0;
            let loaded = execute_spec(load, stored).0;
            &&& loaded.reg(dr_of(load)) == m.reg(dr_of(store))
            &&& loaded.cond == cond_of(m.reg(dr_of(store)))
        }),
{
}

/// NOT applied twice to a register restores its value.
pub proof fn lemma_not_twice(m: MachineState, word: u16)
    requires
        m.wf(),
        word_opcode(word) is Not,
        dr_of(word) == sr1_of(word),
    ensures
        ({
            let once = execute_spec(word, m).0;
            let twice = execute_spec(word, once).0;
            twice.reg(dr_of(word)) == m.reg(dr_of(word))
        }),
{
    let v = m.reg(dr_of(word));
    assert(!(!v) == v) by (bit_vector);
}

/// A jump to subroutine saves the return address in `R7`: as long as `R7`
/// still holds it, a `JMP R7` (RET) resumes at the instruction after the
/// call.
pub proof fn lemma_subroutine_return(m: MachineState, call: u16, ret: u16, callee: MachineState)
    requires
        m.wf(),
        word_opcode(call) is Jsr,
        word_opcode(ret) is Jmp,
        sr1_of(ret) == Register::R7,
        callee.reg(Register::R7) == execute_spec(call, m).0.reg(Register::R7),
    ensures
        execute_spec(ret, callee).0.pc == m.pc,
{
}

/// A branch with all of `n`, `z` and `p` set is always taken; one with
/// none set is never taken.
pub proof fn lemma_branch_flags(m: MachineState, word: u16)
    requires
        word_opcode(word) is Br,
    ensures
        bit_field(word, 5, 7) == 7 ==> execute_spec(word, m).0 == m.with_pc(
            wrap16(m.pc + sign_extend_spec(offset9_of(word), 9)),
        ),
        bit_field(word, 5, 7) == 0 ==> execute_spec(word, m).0 == m,
{
    let flags = bit_field(word, 5, 7) as u8;
    if bit_field(word, 5, 7) == 7 {
        assert(flags & 4 != 0 && flags & 2 != 0 && flags & 1 != 0) by (bit_vector)
            requires
                flags == 7,
        ;
        assert(branch_taken(flags, m.cond));
    }
    if bit_field(word, 5, 7) == 0 {
        assert(flags & 4 == 0 && flags & 2 == 0 && flags & 1 == 0) by (bit_vector)
            requires
                flags == 0,
        ;
    }
}

/// HALT asks for the halt message to be written and the machine stopped;
/// the step itself only advances the program counter, and
/// [`crate::vm::VirtualMachine::halt`] then stops the machine.
pub proof fn lemma_halt_asks_to_stop(m: MachineState)
    requires
        word_opcode(m.mem(m.pc)) is Trap,
        trap_code_of(m.mem(m.pc)) == 0x25,
    ensures
        step_spec(m).0 == m.with_pc(wrap16(m.pc + 1)),
        step_spec(m).1 == Ok::<Outcome, crate::error::Lc3Error>(Outcome::Halt(halt_message())),
        !step_spec(m).0.halted().running,
{
}

/// A step never stops the machine: stopping is left to the caller, after
/// the halt message has been written.
pub proof fn lemma_step_keeps_running(m: MachineState)
    ensures
        step_spec(m).0.running == m.running,
{
}

/// A trap step changes nothing but the program counter: the console work
/// and what follows it are the caller's.
pub proof fn lemma_trap_only_advances(m: MachineState)
    requires
        word_opcode(m.mem(m.pc)) is Trap,
    ensures
        step_spec(m).0 == m.with_pc(wrap16(m.pc + 1)),
{
}

/// Only the store instructions (ST, STI, STR) change memory.
pub proof fn lemma_only_stores_write_memory(m: MachineState)
    requires
        !(word_opcode(m.mem(m.pc)) is St || word_opcode(m.mem(m.pc)) is Sti
            || word_opcode(m.mem(m.pc)) is Str),
    ensures
        step_spec(m).0.memory == m.memory,
{
}

/// The instruction fields, read as arithmetic on the instruction word.
proof fn lemma_fields(word: u16)
    ensures
        bit_field(word, 5, 7) == (word / 512) % 8,
        bit_field(word, 8, 10) == (word / 64) % 8,
        bit_field(word, 14, 16) == word % 8,
        bit_field(word, 12, 16) == word % 32,
        bit_field(word, 11, 11) == (word / 32) % 2,
        bit_field(word, 8, 16) == word % 512,
        bit_field(word, 11, 16) == word % 64,
        bit_field(word, 9, 16) == word % 256,
        word_opcode(word) == opcode_of(word as int / 4096),
{
    lemma2_to64();
    let w = word as nat;
    assert(w / vstd::arithmetic::power2::pow2(0) == w);
    assert(bit_field(word, 14, 16) == (w % 8) as u16);
    assert(bit_field(word, 12, 16) == (w % 32) as u16);
}

/// A base register plus a 6-bit offset: the offset is the two's complement
/// value of its six bits, so `0..=31` move forwards and `32..=63` move
/// backwards by `64 - value`, modulo 2^16.
pub proof fn lemma_base_relative_address(m: MachineState, base_r: Register, value: u16)
    requires
        value < 64,
    ensures
        effective_address(Offset::Offset6 { base_r, value }, m) as int == (m.reg(base_r) + (if value
            >= 32 {
            value - 64
        } else {
            value as int
        })) % 65536,
{
    lemma2_to64();
    lemma_sign_extend_value(value, 6);
}

/// A PC-relative 9-bit offset: the program counter plus the two's
/// complement value of the nine bits, modulo 2^16.
pub proof fn lemma_pc_relative_address(m: MachineState, value: u16)
    requires
        value < 512,
    ensures
        effective_address(Offset::Offset9(value), m) as int == (m.pc + (if value >= 256 {
            value - 512
        } else {
            value as int
        })) % 65536,
{
    lemma2_to64();
    lemma_sign_extend_value(value, 9);
}

/// A BR step moves the program counter past the instruction and then, when
/// one of its set flags names the condition code (n with negative, z with
/// zero, p with positive), on by the signed 9-bit offset; it changes
/// nothing else.
#[verifier::spinoff_prover]
#[verifier::rlimit(40)]
pub proof fn lemma_branch_step(m: MachineState)
    requires
        m.wf(),
        m.mem(m.pc) / 4096 == 0,
    ensures
        ({
            let word = m.mem(m.pc) as int;
            let flags = (word / 512) % 8;
            let offset = word % 512;
            let next = (m.pc + 1) % 65536;
            let taken = (flags >= 4 && m.cond == ConditionCode::Neg) || ((flags / 2) % 2 == 1
                && m.cond == ConditionCode::Zro) || (flags % 2 == 1 && m.cond == ConditionCode::Pos);
            let target = (next + (if offset >= 256 {
                offset - 512
            } else {
                offset as int
            })) % 65536;
            &&& step_spec(m).0.pc as int == (if taken {
                target
            } else {
                next
            })
            &&& step_spec(m).0 == m.with_pc(step_spec(m).0.pc)
            &&& step_spec(m).1 == Ok::<Outcome, crate::error::Lc3Error>(Outcome::Continue)
        }),
{
    let word = m.mem(m.pc);
    lemma_fields(word);
    lemma2_to64();
    let f = bit_field(word, 5, 7) as u8;
    assert(f < 8 ==> ((f & 4 != 0) == (f >= 4) && (f & 2 != 0) == ((f / 2) % 2 == 1) && (f & 1
        != 0) == (f % 2 == 1))) by (bit_vector);
    lemma_sign_extend_value(word % 512, 9);
    let next = m.with_pc(wrap16(m.pc + 1));
    assert(step_spec(m) == (
        crate::operation::br::branch_spec(f, word % 512, next),
        Ok::<Outcome, crate::error::Lc3Error>(Outcome::Continue),
    ));
}

/// ADD with an immediate adds the two's complement value of its five bits
/// (`-16..=15`) modulo 2^16; ADD with a register adds that register; both
/// set the condition code from the sign of the sum and change nothing else
/// but the program counter.
#[verifier::spinoff_prover]
#[verifier::rlimit(40)]
pub proof fn lemma_add_step(m: MachineState)
    requires
        m.wf(),
        m.mem(m.pc) / 4096 == 1,
    ensures
        ({
            let word = m.mem(m.pc) as int;
            let dr = register_of((word / 512) % 8);
            let lhs = m.reg(register_of((word / 64) % 8));
            let rhs = if (word / 32) % 2 == 1 {
                let imm = word % 32;
                if imm >= 16 {
                    imm - 32
                } else {
                    imm as int
                }
            } else {
                m.reg(register_of(word % 8)) as int
            };
            let sum = (lhs + rhs) % 65536;
            let next = step_spec(m).0;
            &&& next.reg(dr) as int == sum
            &&& next.cond == (if sum == 0 {
                ConditionCode::Zro
            } else if sum >= 0x8000 {
                ConditionCode::Neg
            } else {
                ConditionCode::Pos
            })
            &&& next == m.with_pc(((m.pc + 1) % 65536) as u16).with_reg(dr, sum as u16).with_cond(
                sum as u16,
            )
        }),
{
    let word = m.mem(m.pc);
    lemma_fields(word);
    lemma2_to64();
    lemma_sign_extend_value(word % 32, 5);
}

/// AND with an immediate ands with the five bits sign-extended to 16 bits
/// (bit 4 copied into bits 5 to 15); AND with a register ands with that
/// register; both set the condition code from the sign of the result.
#[verifier::spinoff_prover]
#[verifier::rlimit(40)]
pub proof fn lemma_and_step(m: MachineState)
    requires
        m.wf(),
        m.mem(m.pc) / 4096 == 5,
    ensures
        ({
            let word = m.mem(m.pc) as int;
            let dr = register_of((word / 512) % 8);
            let lhs = m.reg(register_of((word / 64) % 8));
            let imm = word % 32;
            let rhs: u16 = if (word / 32) % 2 == 1 {
                if imm >= 16 {
                    (imm + 0xFFE0) as u16
                } else {
                    imm as u16
                }
            } else {
                m.reg(register_of(word % 8))
            };
            let next = step_spec(m).0;
            &&& next.reg(dr) == lhs & rhs
            &&& next == m.with_pc(((m.pc + 1) % 65536) as u16).with_reg(dr, lhs & rhs).with_cond(
                lhs & rhs,
            )
        }),
{
    let word = m.mem(m.pc);
    lemma_fields(word);
    lemma2_to64();
    lemma_sign_extend_value(word % 32, 5);
}

/// LDR loads the word at the base register plus the two's complement value
/// of the 6-bit offset, and sets the condition code from it.
#[verifier::spinoff_prover]
#[verifier::rlimit(40)]
pub proof fn lemma_ldr_step(m: MachineState)
    requires
        m.wf(),
        m.mem(m.pc) / 4096 == 6,
    ensures
        ({
            let word = m.mem(m.pc) as int;
            let dr = register_of((word / 512) % 8);
            let base = m.reg(register_of((word / 64) % 8));
            let offset = word % 64;
            let address = ((base + (if offset >= 32 {
                offset - 64
            } else {
                offset as int
            })) % 65536) as u16;
            step_spec(m).0 == m.with_pc(((m.pc + 1) % 65536) as u16).with_reg(dr, m.mem(address)).with_cond(
                m.mem(address),
            )
        }),
{
    let word = m.mem(m.pc);
    lemma_fields(word);
    lemma_base_relative_address(
        m.with_pc(wrap16(m.pc + 1)),
        register_of((word as int / 64) % 8),
        word % 64,
    );
}

/// STR stores the source register at the base register plus the two's
/// complement value of the 6-bit offset, and changes nothing else but the
/// program counter.
#[verifier::spinoff_prover]
#[verifier::rlimit(40)]
pub proof fn lemma_str_step(m: MachineState)
    requires
        m.wf(),
        m.mem(m.pc) / 4096 == 7,
    ensures
        ({
            let word = m.mem(m.pc) as int;
            let sr = register_of((word / 512) % 8);
            let base = m.reg(register_of((word / 64) % 8));
            let offset = word % 64;
            let address = ((base + (if offset >= 32 {
                offset - 64
            } else {
                offset as int
            })) % 65536) as u16;
            step_spec(m).0 == m.with_pc(((m.pc + 1) % 65536) as u16).with_mem(address, m.reg(sr))
        }),
{
    let word = m.mem(m.pc);
    lemma_fields(word);
    lemma_base_relative_address(
        m.with_pc(wrap16(m.pc + 1)),
        register_of((word as int / 64) % 8),
        word % 64,
    );
}

/// The characters PUTSP writes for one more word of the string: the low
/// byte, then the high byte when it is not zero.
pub proof fn lemma_packed_string_extends(memory: Seq<u16>, start: u16, n: int)
    requires
        0 <= n,
    ensures
        ({
            let word = memory[((start + n) % 65536)];
            let low = (word % 256) as u8;
            let high = (word / 256) as u8;
            crate::operation::trap::packed_string(memory, start, n + 1) == crate::operation::trap::packed_string(
                memory,
                start,
                n,
            ) + (if high != 0 {
                seq![low, high]
            } else {
                seq![low]
            })
        }),
{
}

/// Nothing is packed in no words.
pub proof fn lemma_packed_string_empty(memory: Seq<u16>, start: u16)
    ensures
        crate::operation::trap::packed_string(memory, start, 0) == Seq::<u8>::empty(),
{
}

/// A TRAP x24 (PUTSP) step asks to write the characters packed in the
/// words of the string at R0, up to the first zero word, and changes
/// nothing but the program counter.
#[verifier::spinoff_prover]
#[verifier::rlimit(40)]
pub proof fn lemma_putsp_step(m: MachineState, k: int)
    requires
        m.wf(),
        m.mem(m.pc) / 4096 == 15,
        m.mem(m.pc) % 256 == 0x24,
        0 <= k < 65536,
        m.memory[(m.reg(Register::R0) + k) % 65536] == 0,
        forall|j: int| 0 <= j < k ==> m.memory[#[trigger] ((m.reg(Register::R0) + j) % 65536)] != 0,
    ensures
        step_spec(m).0 == m.with_pc(((m.pc + 1) % 65536) as u16),
        step_spec(m).1 == Ok::<Outcome, crate::error::Lc3Error>(
            Outcome::Output(crate::operation::trap::packed_string(m.memory, m.reg(Register::R0), k)),
        ),
{
    let word = m.mem(m.pc);
    lemma_fields(word);
    let start = m.reg(Register::R0);
    let next = m.with_pc(wrap16(m.pc + 1));
    assert(crate::operation::trap::string_ends_at(next.memory, start, k));
    crate::operation::trap::lemma_string_length(next.memory, start, k);
}

/// A TRAP x22 (PUTS) step asks to write the low byte of each word of the
/// string at R0, up to the first zero word, and changes nothing but the
/// program counter.
#[verifier::spinoff_prover]
#[verifier::rlimit(40)]
pub proof fn lemma_puts_step(m: MachineState, k: int)
    requires
        m.wf(),
        m.mem(m.pc) / 4096 == 15,
        m.mem(m.pc) % 256 == 0x22,
        0 <= k < 65536,
        m.memory[(m.reg(Register::R0) + k) % 65536] == 0,
        forall|j: int| 0 <= j < k ==> m.memory[#[trigger] ((m.reg(Register::R0) + j) % 65536)] != 0,
    ensures
        step_spec(m).0 == m.with_pc(((m.pc + 1) % 65536) as u16),
        step_spec(m).1 == Ok::<Outcome, crate::error::Lc3Error>(
            Outcome::Output(
                Seq::new(
                    k as nat,
                    |i: int| (m.memory[(m.reg(Register::R0) + i) % 65536] % 256) as u8,
                ),
            ),
        ),
{
    let word = m.mem(m.pc);
    lemma_fields(word);
    let start = m.reg(Register::R0);
    let next = m.with_pc(wrap16(m.pc + 1));
    assert(crate::operation::trap::string_ends_at(next.memory, start, k));
    crate::operation::trap::lemma_string_length(next.memory, start, k);
    assert(crate::operation::trap::puts_output(next.memory, start) =~= Seq::new(
        k as nat,
        |i: int| (m.memory[(start + i) % 65536] % 256) as u8,
    ));
}

/// The next step fails to finish only for a PUTS or PUTSP trap (TRAP x22
/// or x24) when no word of memory is zero.
#[verifier::spinoff_prover]
#[verifier::rlimit(40)]
pub proof fn lemma_step_finishes_exactly(m: MachineState)
    requires
        m.wf(),
    ensures
        ({
            let word = m.mem(m.pc) as int;
            let prints_string = word / 4096 == 15 && (word % 256 == 0x22 || word % 256 == 0x24);
            crate::vm::step_finishes(m) <==> (!prints_string || m.memory.contains(0))
        }),
{
    lemma_fields(m.mem(m.pc));
}

/// NOT writes the bitwise complement of the source register (65535 minus
/// its value) and sets the condition code from it.
#[verifier::spinoff_prover]
#[verifier::rlimit(40)]
pub proof fn lemma_not_step(m: MachineState)
    requires
        m.wf(),
        m.mem(m.pc) / 4096 == 9,
    ensures
        ({
            let word = m.mem(m.pc) as int;
            let dr = register_of((word / 512) % 8);
            let result = (65535 - m.reg(register_of((word / 64) % 8))) as u16;
            step_spec(m).0 == m.with_pc(((m.pc + 1) % 65536) as u16).with_reg(dr, result).with_cond(
                result,
            )
        }),
{
    let word = m.mem(m.pc);
    lemma_fields(word);
    let v = m.reg(sr1_of(word));
    assert(!v == (65535 - v) as u16) by (bit_vector);
}

/// LD, LDI and LEA use the program counter after the instruction plus the
/// two's complement value of the 9-bit offset: LD loads the word there, LDI
/// the word at the address stored there, and LEA the address itself. LD
/// and LDI set the condition code from the loaded value; LEA leaves it.
#[verifier::spinoff_prover]
#[verifier::rlimit(40)]
pub proof fn lemma_pc_relative_load_steps(m: MachineState)
    requires
        m.wf(),
        m.mem(m.pc) / 4096 == 2 || m.mem(m.pc) / 4096 == 10 || m.mem(m.pc) / 4096 == 14,
    ensures
        ({
            let word = m.mem(m.pc) as int;
            let opcode = word / 4096;
            let dr = register_of((word / 512) % 8);
            let offset = word % 512;
            let pc = (m.pc + 1) % 65536;
            let address = ((pc + (if offset >= 256 {
                offset - 512
            } else {
                offset
            })) % 65536) as u16;
            let advanced = m.with_pc(pc as u16);
            &&& opcode == 2 ==> step_spec(m).0 == advanced.with_reg(dr, m.mem(address)).with_cond(
                m.mem(address),
            )
            &&& opcode == 10 ==> step_spec(m).0 == advanced.with_reg(dr, m.mem(m.mem(address))).with_cond(
                m.mem(m.mem(address)),
            )
            &&& opcode == 14 ==> step_spec(m).0 == advanced.with_reg(dr, address)
            &&& step_spec(m).1 == Ok::<Outcome, crate::error::Lc3Error>(Outcome::Continue)
        }),
{
    let word = m.mem(m.pc);
    lemma_fields(word);
    lemma_pc_relative_address(m.with_pc(wrap16(m.pc + 1)), word % 512);
}

/// ST and STI use the program counter after the instruction plus the two's
/// complement value of the 9-bit offset: ST stores the source register
/// there, STI at the address stored there. Nothing else but the program
/// counter changes.
#[verifier::spinoff_prover]
#[verifier::rlimit(40)]
pub proof fn lemma_pc_relative_store_steps(m: MachineState)
    requires
        m.wf(),
        m.mem(m.pc) / 4096 == 3 || m.mem(m.pc) / 4096 == 11,
    ensures
        ({
            let word = m.mem(m.pc) as int;
            let sr = register_of((word / 512) % 8);
            let offset = word % 512;
            let pc = (m.pc + 1) % 65536;
            let address = ((pc + (if offset >= 256 {
                offset - 512
            } else {
                offset
            })) % 65536) as u16;
            let advanced = m.with_pc(pc as u16);
            &&& word / 4096 == 3 ==> step_spec(m).0 == advanced.with_mem(address, m.reg(sr))
            &&& word / 4096 == 11 ==> step_spec(m).0 == advanced.with_mem(m.mem(address), m.reg(sr))
        }),
{
    let word = m.mem(m.pc);
    lemma_fields(word);
    lemma_pc_relative_address(m.with_pc(wrap16(m.pc + 1)), word % 512);
}

/// JMP sets the program counter to the base register; JSR first saves the
/// program counter after the instruction in R7, then jumps by the two's
/// complement value of its 11-bit offset (bit 11 set) or to the base
/// register read after that save (bit 11 clear).
#[verifier::spinoff_prover]
#[verifier::rlimit(40)]
pub proof fn lemma_jump_steps(m: MachineState)
    requires
        m.wf(),
        m.mem(m.pc) / 4096 == 12 || m.mem(m.pc) / 4096 == 4,
    ensures
        ({
            let word = m.mem(m.pc) as int;
            let base = register_of((word / 64) % 8);
            let pc = ((m.pc + 1) % 65536) as u16;
            let linked = m.with_pc(pc).with_reg(Register::R7, pc);
            let offset = word % 2048;
            &&& word / 4096 == 12 ==> step_spec(m).0 == m.with_pc(m.reg(base))
            &&& (word / 4096 == 4 && (word / 2048) % 2 == 1) ==> step_spec(m).0 == linked.with_pc(
                ((pc + (if offset >= 1024 {
                    offset - 2048
                } else {
                    offset
                })) % 65536) as u16,
            )
            &&& (word / 4096 == 4 && (word / 2048) % 2 == 0) ==> step_spec(m).0 == linked.with_pc(
                linked.reg(base),
            )
        }),
{
    let word = m.mem(m.pc);
    lemma_fields(word);
    lemma2_to64();
    assert(bit_field(word, 5, 5) == (word / 2048) % 2);
    assert(word as nat / vstd::arithmetic::power2::pow2(0) == word as nat);
    assert(bit_field(word, 6, 16) == word % 2048);
    lemma_sign_extend_value(word % 2048, 11);
}

/// The console traps: OUT asks to write the low byte of R0; GETC asks for a
/// character with no prompt and no echo; IN asks for one with its prompt
/// and an echo; HALT asks to write its message before stopping. None of
/// them changes anything but the program counter. A trap vector with no
/// routine is an error.
#[verifier::spinoff_prover]
#[verifier::rlimit(40)]
pub proof fn lemma_console_trap_steps(m: MachineState)
    requires
        m.wf(),
        m.mem(m.pc) / 4096 == 15,
    ensures
        ({
            let word = m.mem(m.pc) as int;
            let code = word % 256;
            let advanced = m.with_pc(((m.pc + 1) % 65536) as u16);
            &&& code == 0x21 ==> step_spec(m) == (advanced, Ok::<Outcome, crate::error::Lc3Error>(
                Outcome::Output(seq![(m.reg(Register::R0) % 256) as u8]),
            ))
            &&& code == 0x20 ==> step_spec(m) == (advanced, Ok::<Outcome, crate::error::Lc3Error>(
                Outcome::Input {
                    routine: crate::operation::trap::TrapRoutine::GetC,
                    prompt: Seq::empty(),
                    echo: false,
                },
            ))
            &&& code == 0x23 ==> step_spec(m) == (advanced, Ok::<Outcome, crate::error::Lc3Error>(
                Outcome::Input {
                    routine: crate::operation::trap::TrapRoutine::In,
                    prompt: "Enter a character: ".spec_bytes(),
                    echo: true,
                },
            ))
            &&& code == 0x25 ==> step_spec(m) == (advanced, Ok::<Outcome, crate::error::Lc3Error>(
                Outcome::Halt("Stopping execution\n".spec_bytes()),
            ))
            &&& !(0x20 <= code <= 0x25) ==> step_spec(m) == (advanced, Err::<Outcome, crate::error::Lc3Error>(
                crate::error::Lc3Error::Instruction(
                    crate::error::InstructionError::InvalidTrapCode(code as u8),
                ),
            ))
        }),
{
    lemma_fields(m.mem(m.pc));
}

/// RTI (opcode 8) and the reserved opcode 13 are errors that name the
/// opcode; the program counter has moved past them and nothing else
/// changes.
#[verifier::spinoff_prover]
#[verifier::rlimit(40)]
pub proof fn lemma_unsupported_steps(m: MachineState)
    requires
        m.wf(),
        m.mem(m.pc) / 4096 == 8 || m.mem(m.pc) / 4096 == 13,
    ensures
        step_spec(m) == (m.with_pc(((m.pc + 1) % 65536) as u16), Err::<Outcome, crate::error::Lc3Error>(
            crate::error::Lc3Error::UnsupportedInstruction(
                if m.mem(m.pc) / 4096 == 8 {
                    crate::instruction::Opcode::Rti
                } else {
                    crate::instruction::Opcode::Res
                },
            ),
        )),
{
    lemma_fields(m.mem(m.pc));
}

/// Register identifiers name the registers in order: identifier `i` names
/// the register whose identifier is `i`, for each of the eight.
pub proof fn lemma_register_ids(i: int)
    requires
        0 <= i < 8,
    ensures
        register_of(i).id() == i,
{
}

} // verus!
