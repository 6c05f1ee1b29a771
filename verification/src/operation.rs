//! Instruction operations: the shared field layouts, sign extension, and the
//! traits that give families of LC-3 operations a common decoding and
//! execution scheme.

use vstd::prelude::*;
use vstd::arithmetic::power2::pow2;

use crate::error::InstructionError;
use crate::instruction::{bit_field, lemma_bit_field_bound, DecodedInstruction};
use crate::memory::{wrap16, Address};
use crate::register::{register_of, Register};
use crate::vm::{MachineState, VirtualMachine};

pub mod add;
pub mod and;
pub mod br;
pub mod jmp;
pub mod jsr;
pub mod ld;
pub mod ldi;
pub mod ldr;
pub mod lea;
pub mod not;
pub mod st;
pub mod sti;
pub mod str;
pub mod trap;

verus! {

/// First bit of the destination (or source, for stores) register field.
pub const DR_FIELD_START: u8 = 5;
/// Last bit of the destination register field.
pub const DR_FIELD_END: u8 = 7;
/// First bit of the first source (or base) register field.
pub const SR1_FIELD_START: u8 = 8;
/// Last bit of the first source register field.
pub const SR1_FIELD_END: u8 = 10;
/// The bit that selects register or immediate mode.
pub const MODE_FIELD_BIT: u8 = 11;
/// First bit of the second source register field.
pub const SR2_FIELD_START: u8 = 14;
/// Last bit of the second source register field.
pub const SR2_FIELD_END: u8 = 16;
/// First bit of the 5-bit immediate field.
pub const IMM5_FIELD_START: u8 = 12;
/// Last bit of the 5-bit immediate field.
pub const IMM5_FIELD_END: u8 = 16;
/// Width of the immediate operand.
pub const IMM5_BIT_COUNT: u8 = 5;
/// First bit of the 9-bit PC offset field.
pub const PC_OFFSET_9_FIELD_START: u8 = 8;
/// Last bit of the 9-bit PC offset field.
pub const PC_OFFSET_9_FIELD_END: u8 = 16;
/// Width of a PC offset.
pub const OFFSET_9_BIT_COUNT: u8 = 9;
/// First bit of the 6-bit base offset field.
pub const OFFSET_6_FIELD_START: u8 = 11;
/// Last bit of the 6-bit base offset field.
pub const OFFSET_6_FIELD_END: u8 = 16;
/// Width of a base offset.
pub const OFFSET_6_BIT_COUNT: u8 = 6;

/// The destination register named by an instruction word (bits 11..9).
pub open spec fn dr_of(word: u16) -> Register {
    register_of(bit_field(word, 5, 7) as int)
}

/// The first source or base register named by an instruction word (bits 8..6).
pub open spec fn sr1_of(word: u16) -> Register {
    register_of(bit_field(word, 8, 10) as int)
}

/// The second source register named by an instruction word (bits 2..0).
pub open spec fn sr2_of(word: u16) -> Register {
    register_of(bit_field(word, 14, 16) as int)
}

/// The 5-bit immediate operand field of an instruction word (bits 4..0).
pub open spec fn imm5_of(word: u16) -> u16 {
    bit_field(word, 12, 16)
}

/// The 9-bit PC offset field of an instruction word (bits 8..0).
pub open spec fn offset9_of(word: u16) -> u16 {
    bit_field(word, 8, 16)
}

/// The 6-bit base offset field of an instruction word (bits 5..0).
pub open spec fn offset6_of(word: u16) -> u16 {
    bit_field(word, 11, 16)
}

/// The second operand of a binary operation: a register when bit 5 is
/// clear, the 5-bit immediate otherwise.
pub open spec fn binary_mode_of(word: u16) -> BinaryOpMode {
    if bit_field(word, 11, 11) == 0 {
        BinaryOpMode::Register(sr2_of(word))
    } else {
        BinaryOpMode::Immediate(imm5_of(word))
    }
}

/// Reads the register named by the register field `start..=end`, whose
/// range is a valid three-bit field.
fn register_field(raw: &crate::instruction::RawInstruction, start: u8, end: u8) -> (r: Register)
    requires
        1 <= start,
        start + 2 == end,
        end <= 16,
    ensures
        r == register_of(bit_field(raw@, start as int, end as int) as int),
{
    match raw.decode_register(start..=end) {
        Ok(register) => register,
        Err(_) => Register::R0,
    }
}

/// Reads the unsigned field `start..=end` of a valid bit range.
fn field(raw: &crate::instruction::RawInstruction, start: u8, end: u8) -> (r: u16)
    requires
        1 <= start <= end <= 16,
    ensures
        r == bit_field(raw@, start as int, end as int),
        r < pow2((end - start + 1) as nat),
{
    proof {
        lemma_bit_field_bound(raw@, start as int, end as int);
    }
    match raw.bits(start..=end) {
        Ok(value) => value,
        Err(_) => 0,
    }
}

/// Whether bit `n - 1` (counting from the least significant bit, 0-based)
/// of `value` is set: the sign bit of an `n`-bit field.
pub open spec fn sign_bit_set(value: u16, n: nat) -> bool {
    (value as nat / pow2((n - 1) as nat)) % 2 == 1
}

/// Sign extension of an `n`-bit field to 16 bits: when the field's sign bit
/// is set, every bit from position `n` upwards is set as well.
pub open spec fn sign_extend_spec(value: u16, n: nat) -> u16 {
    if sign_bit_set(value, n) {
        value | ((65536 - pow2(n)) as u16)
    } else {
        value
    }
}

/// The 16-bit two's complement encoding of the value that the `n`-bit two's
/// complement field `value` stands for.
pub open spec fn twos_complement_extension(value: u16, n: nat) -> int {
    if value >= pow2((n - 1) as nat) {
        value + 65536 - pow2(n)
    } else {
        value as int
    }
}

proof fn lemma_high_mask(v: u16, n: u32)
    by (bit_vector)
    requires
        1 <= n <= 16,
    ensures
        ((0xFFFFu32 << n) as u16) as u32 == 0x10000u32 - (1u32 << n),
        (v as u32) < (1u32 << n) ==> (v | ((0xFFFFu32 << n) as u16)) as u32 == v as u32 + (
        0x10000u32 - (1u32 << n)),
{
}

/// Sign-extending an `n`-bit field gives the 16-bit encoding of the value
/// the field stands for in two's complement.
pub proof fn lemma_sign_extend_value(value: u16, n: nat)
    requires
        1 <= n <= 16,
        value < pow2(n),
    ensures
        sign_extend_spec(value, n) as int == twos_complement_extension(value, n),
{
    vstd::bits::lemma_u32_pow2_no_overflow(n);
    vstd::bits::lemma_u32_shl_is_mul(1, n as u32);
    lemma_high_mask(value, n as u32);
    vstd::arithmetic::power2::lemma_pow2_pos((n - 1) as nat);
    vstd::arithmetic::power2::lemma_pow2_unfold(n);
    let p = pow2((n - 1) as nat) as int;
    vstd::arithmetic::div_mod::lemma_fundamental_div_mod(value as int, p);
    assert((value as int / p) % 2 == 1 <==> value >= p) by (nonlinear_arith)
        requires
            0 <= value < 2 * p,
            p > 0,
    ;
}

proof fn lemma_low_bit(x: u16)
    by (bit_vector)
    ensures
        (x & 1 == 1) == (x % 2 == 1),
{
}

/// Reads the field `start..=end` of a valid bit range at most eight bits
/// wide, as a byte.
fn byte_field(raw: &crate::instruction::RawInstruction, start: u8, end: u8) -> (r: u8)
    requires
        1 <= start <= end <= 16,
        end - start < 8,
    ensures
        r == bit_field(raw@, start as int, end as int),
{
    proof {
        lemma_bit_field_bound(raw@, start as int, end as int);
        if end - start + 1 < 8 {
            vstd::arithmetic::power2::lemma_pow2_strictly_increases((end - start + 1) as nat, 8);
        }
        vstd::arithmetic::power2::lemma2_to64();
    }
    match raw.bits_as::<u8>(start..=end) {
        Ok(value) => value,
        Err(_) => 0,
    }
}

/// Represents the operation mode based on instruction bit 5 (field bit 11).
///
/// - 0 = [`BinaryOpMode::Register`]
/// - 1 = [`BinaryOpMode::Immediate`]
#[derive(Debug, Copy, Clone, PartialEq, Eq, Structural)]
pub enum BinaryOpMode {
    Register(Register),
    Immediate(u16),
}

/// Represents a memory operation addressing mode.
///
/// - [`Offset::Offset9`] represents an immediate 9-bit encoded value, added
///   to the program counter.
/// - [`Offset::Offset6`] represents a paired [`Register`] - immediate 6-bit
///   encoded value, added to the register's contents.
#[derive(Debug, Copy, Clone, PartialEq, Eq, Structural)]
pub enum Offset {
    Offset9(u16),
    Offset6 { base_r: Register, value: u16 },
}

/// The address an offset designates in state `m`: the sign-extended 9-bit
/// offset added to the program counter, or the sign-extended 6-bit offset
/// added to the base register, both modulo 2^16.
pub open spec fn effective_address(offset: Offset, m: MachineState) -> u16 {
    match offset {
        Offset::Offset9(value) => wrap16(m.pc + sign_extend_spec(value, 9)),
        Offset::Offset6 { base_r, value } => wrap16(m.reg(base_r) + sign_extend_spec(value, 6)),
    }
}

impl Offset {
    /// Returns the extracted offset numeric value.
    pub fn value(&self) -> (r: u16)
        ensures
            r == (match *self {
                Offset::Offset9(value) => value,
                Offset::Offset6 { value, .. } => value,
            }),
    {
        match self {
            Offset::Offset9(value) => *value,
            Offset::Offset6 { value, .. } => *value,
        }
    }

    /// Returns the decoded base [`Register`] on a paired register-offset variant.
    pub fn base_r(&self) -> (r: Option<Register>)
        ensures
            r == (match *self {
                Offset::Offset9(_) => None,
                Offset::Offset6 { base_r, .. } => Some(base_r),
            }),
    {
        if let Offset::Offset6 { base_r, .. } = self {
            Some(*base_r)
        } else {
            None
        }
    }

    /// Computes the address the offset designates in the machine's
    /// current state.
    pub fn address(&self, vm: &VirtualMachine) -> (r: Address)
        ensures
            r@ == effective_address(*self, vm@),
    {
        match self {
            Offset::Offset9(value) => {
                vm.read_pc().wrapping_add(sign_extend(*value, OFFSET_9_BIT_COUNT))
            },
            Offset::Offset6 { base_r, value } => {
                Address::new(vm.read_register(*base_r)).wrapping_add(
                    sign_extend(*value, OFFSET_6_BIT_COUNT),
                )
            },
        }
    }
}

/// Contains the resolved operands required to execute a binary operation.
pub struct BinaryOperands {
    pub dr: Register,
    pub lhs: u16,
    pub rhs: u16,
}

/// Contains the resolved operands required to execute a unary operation.
pub struct UnaryOperands {
    pub dr: Register,
    pub value: u16,
}

/// Contains the resolved operands required for a memory load operation.
pub struct MemoryLoadOperands {
    pub dr: Register,
    pub offset: Offset,
}

/// Contains the resolved operands required for a memory store operation.
pub struct MemoryStoreOperands {
    pub sr: Register,
    pub offset: Offset,
}

/// The value of the second operand of a binary operation in state `m`.
pub open spec fn binary_rhs(mode: BinaryOpMode, m: MachineState) -> u16 {
    match mode {
        BinaryOpMode::Register(sr2) => m.reg(sr2),
        BinaryOpMode::Immediate(imm5) => sign_extend_spec(imm5, 5),
    }
}

/// Provides shared decoding and execution logic for LC-3 unary operations.
///
/// A unary operation reads one source register and writes its result to a
/// destination register, updating the condition code.
pub trait UnaryOp: Sized {
    /// The destination and source registers of the operation.
    spec fn parts(&self) -> (Register, Register);

    /// The operation-specific computation.
    spec fn spec_operate(value: u16) -> u16;

    /// Constructs the operation from its decoded operands.
    fn from_parts(dr: Register, sr: Register) -> (r: Self)
        ensures
            r.parts() == (dr, sr),
    ;

    /// Decodes the operands of a unary operation from a decoded instruction.
    ///
    /// The destination and source registers are extracted from their respective fields;
    /// these fixed fields always decode, so the result is always `Ok`.
    fn decode(instruction: DecodedInstruction) -> (r: Result<Self, InstructionError>)
        ensures
            r matches Ok(op) && op.parts() == (dr_of(instruction@), sr1_of(instruction@)),
    {
        let raw = instruction.raw();
        let dr = register_field(&raw, DR_FIELD_START, DR_FIELD_END);
        let sr = register_field(&raw, SR1_FIELD_START, SR1_FIELD_END);
        Ok(Self::from_parts(dr, sr))
    }

    /// Resolves the operation's operands from the virtual machine state.
    fn operands(self, vm: &VirtualMachine) -> (r: UnaryOperands)
        ensures
            r.dr == self.parts().0,
            r.value == vm@.reg(self.parts().1),
    ;

    /// Performs the operation-specific computation.
    fn operate(value: u16) -> (r: u16)
        ensures
            r == Self::spec_operate(value),
    ;

    /// Executes the unary operation and updates the condition code.
    fn execute(self, vm: &mut VirtualMachine)
        ensures
            ({
                let v = Self::spec_operate(old(vm)@.reg(self.parts().1));
                final(vm)@ == old(vm)@.with_reg(self.parts().0, v).with_cond(v)
            }),
    {
        let operands = Self::operands(self, vm);
        let result = Self::operate(operands.value);
        vm.write_register(operands.dr, result);
        vm.set_cond(result);
    }
}

/// Provides shared decoding and execution logic for LC-3 binary operations.
///
/// Binary operations have two source operands and one destination register.
/// The second operand can either be a register or a sign-extended immediate
/// value, depending on the operation's mode.
///
/// Implementors provide the operation-specific construction, operand
/// resolution, and computation while the common decoding and execution
/// logic is provided by this trait.
pub trait BinaryOp: Sized {
    /// The destination register, first source register and second operand.
    spec fn parts(&self) -> (Register, Register, BinaryOpMode);

    /// The operation-specific computation on two operands.
    spec fn spec_operate(lhs: u16, rhs: u16) -> u16;

    /// Constructs the operation from its decoded operands.
    fn from_parts(dr: Register, sr1: Register, mode: BinaryOpMode) -> (r: Self)
        ensures
            r.parts() == (dr, sr1, mode),
    ;

    /// Decodes the operands of a binary operation from a decoded instruction.
    ///
    /// The destination and first source registers are extracted from their
    /// respective instruction fields. The second operand is decoded as either
    /// a register or a 5-bit immediate value according to the mode bit.
    /// These fixed fields always decode, so the result is always `Ok`.
    fn decode(instruction: DecodedInstruction) -> (r: Result<Self, InstructionError>)
        ensures
            r matches Ok(op) && op.parts() == (
                dr_of(instruction@),
                sr1_of(instruction@),
                binary_mode_of(instruction@),
            ),
    {
        let raw = instruction.raw();
        let dr = register_field(&raw, DR_FIELD_START, DR_FIELD_END);
        let sr1 = register_field(&raw, SR1_FIELD_START, SR1_FIELD_END);
        let mode_bit = field(&raw, MODE_FIELD_BIT, MODE_FIELD_BIT);
        let mode = if mode_bit == 0 {
            BinaryOpMode::Register(register_field(&raw, SR2_FIELD_START, SR2_FIELD_END))
        } else {
            BinaryOpMode::Immediate(field(&raw, IMM5_FIELD_START, IMM5_FIELD_END))
        };
        Ok(Self::from_parts(dr, sr1, mode))
    }

    /// Performs the operation-specific computation on two operands.
    fn operate(lhs: u16, rhs: u16) -> (r: u16)
        ensures
            r == Self::spec_operate(lhs, rhs),
    ;

    /// Resolves the operation's operands from the virtual machine state.
    fn operands(self, vm: &VirtualMachine) -> (r: BinaryOperands)
        ensures
            r.dr == self.parts().0,
            r.lhs == vm@.reg(self.parts().1),
            r.rhs == binary_rhs(self.parts().2, vm@),
    ;

    /// Executes the binary operation and updates the condition code.
    fn execute(self, vm: &mut VirtualMachine)
        ensures
            ({
                let (dr, sr1, mode) = self.parts();
                let v = Self::spec_operate(old(vm)@.reg(sr1), binary_rhs(mode, old(vm)@));
                final(vm)@ == old(vm)@.with_reg(dr, v).with_cond(v)
            }),
    {
        let operands = Self::operands(self, vm);
        let result = Self::operate(operands.lhs, operands.rhs);
        vm.write_register(operands.dr, result);
        vm.set_cond(result);
    }
}

/// Provides shared decoding and execution logic for LC-3 memory load operations.
///
/// Memory load operations have one destination [`Register`] and an [`Offset`]
/// that designates the memory word involved. The loaded value is written to
/// the destination register and sets the condition code.
pub trait MemoryLoadOp: Sized {
    /// The destination register and the offset of the operation.
    spec fn parts(&self) -> (Register, Offset);

    /// The offset encoded in an instruction word.
    spec fn offset_of(word: u16) -> Offset;

    /// The value the operation loads in state `m`.
    spec fn spec_load(offset: Offset, m: MachineState) -> u16;

    /// Construct the operation from extracted instruction data.
    fn from_parts(dr: Register, offset: Offset) -> (r: Self)
        ensures
            r.parts() == (dr, offset),
    ;

    /// Decodes the [`Offset`] value from an LC-3 instruction.
    fn offset(instruction: &DecodedInstruction) -> (r: Result<Offset, InstructionError>)
        ensures
            r == Ok::<Offset, InstructionError>(Self::offset_of(instruction@)),
    ;

    /// Decodes the operands of a memory load operation from a decoded instruction.
    /// The fixed fields always decode, so the result is always `Ok`.
    fn decode(instruction: DecodedInstruction) -> (r: Result<Self, InstructionError>)
        ensures
            r matches Ok(op) && op.parts() == (dr_of(instruction@), Self::offset_of(instruction@)),
    {
        let offset = match Self::offset(&instruction) {
            Ok(offset) => offset,
            Err(e) => return Err(e),
        };
        let raw = instruction.raw();
        let dr = register_field(&raw, DR_FIELD_START, DR_FIELD_END);
        Ok(Self::from_parts(dr, offset))
    }

    /// Splits the operation into its operands.
    fn operands(self) -> (r: MemoryLoadOperands)
        ensures
            r.dr == self.parts().0,
            r.offset == self.parts().1,
    ;

    /// Reads the value the operation loads.
    fn operate(offset: Offset, vm: &VirtualMachine) -> (r: u16)
        ensures
            r == Self::spec_load(offset, vm@),
    ;

    /// Loads the value into the destination register and updates the
    /// condition code.
    fn execute(self, vm: &mut VirtualMachine)
        ensures
            ({
                let (dr, offset) = self.parts();
                let v = Self::spec_load(offset, old(vm)@);
                final(vm)@ == old(vm)@.with_reg(dr, v).with_cond(v)
            }),
    {
        let operands = Self::operands(self);
        let result = Self::operate(operands.offset, vm);
        vm.write_register(operands.dr, result);
        vm.set_cond(result);
    }
}

/// Provides shared decoding and execution logic for LC-3 memory store operations.
///
/// Memory store operations have one source [`Register`] and an [`Offset`]
/// from which the target address is computed. Stores leave the condition
/// code unchanged.
pub trait MemoryStoreOp: Sized {
    /// The source register and the offset of the operation.
    spec fn parts(&self) -> (Register, Offset);

    /// The offset encoded in an instruction word.
    spec fn offset_of(word: u16) -> Offset;

    /// The address the operation writes to in state `m`.
    spec fn spec_address(offset: Offset, m: MachineState) -> u16;

    /// Construct the operation from extracted instruction data.
    fn from_parts(sr: Register, offset: Offset) -> (r: Self)
        ensures
            r.parts() == (sr, offset),
    ;

    /// Decodes the [`Offset`] value from an LC-3 instruction.
    fn offset(instruction: &DecodedInstruction) -> (r: Result<Offset, InstructionError>)
        ensures
            r == Ok::<Offset, InstructionError>(Self::offset_of(instruction@)),
    ;

    /// Decodes the operands of a memory store operation from a decoded instruction.
    /// The fixed fields always decode, so the result is always `Ok`.
    fn decode(instruction: DecodedInstruction) -> (r: Result<Self, InstructionError>)
        ensures
            r matches Ok(op) && op.parts() == (dr_of(instruction@), Self::offset_of(instruction@)),
    {
        let offset = match Self::offset(&instruction) {
            Ok(offset) => offset,
            Err(e) => return Err(e),
        };
        let raw = instruction.raw();
        let sr = register_field(&raw, DR_FIELD_START, DR_FIELD_END);
        Ok(Self::from_parts(sr, offset))
    }

    /// Splits the operation into its operands.
    fn operands(self) -> (r: MemoryStoreOperands)
        ensures
            r.sr == self.parts().0,
            r.offset == self.parts().1,
    ;

    /// Computes the address the operation writes to.
    fn compute_address(offset: Offset, vm: &VirtualMachine) -> (r: Address)
        ensures
            r@ == Self::spec_address(offset, vm@),
    ;

    /// Stores the source register's value at the computed address.
    fn execute(self, vm: &mut VirtualMachine)
        ensures
            ({
                let (sr, offset) = self.parts();
                final(vm)@ == old(vm)@.with_mem(Self::spec_address(offset, old(vm)@), old(vm)@.reg(sr))
            }),
    {
        let operands = Self::operands(self);
        let address = Self::compute_address(operands.offset, vm);
        let value = vm.read_register(operands.sr);
        vm.write_memory(address, value);
    }
}

/// Sign-extends an LC-3 value to 16 bits using two's complement representation.
///
/// The most significant bit of the value's bit field is used as the sign bit.
/// If set, the unused upper bits are filled with `1`s; otherwise, they remain
/// `0`.
///
/// # Examples
///
/// A 5-bit immediate value of `0b11111` represents `-1` and is sign-extended
/// to `0xFFFF`.
pub fn sign_extend(value: u16, bit_count: u8) -> (r: u16)
    requires
        0 < bit_count <= 16,
    ensures
        r == sign_extend_spec(value, bit_count as nat),
        value < pow2(bit_count as nat) ==> r as int == twos_complement_extension(
            value,
            bit_count as nat,
        ),
{
    let shift: u16 = (bit_count - 1) as u16;
    let high: u16 = #[verifier::truncate] ((0xFFFFu32 << (bit_count as u32)) as u16);
    proof {
        vstd::bits::lemma_u16_shr_is_div(value, shift);
        lemma_low_bit(value >> shift);
        vstd::bits::lemma_u32_pow2_no_overflow(bit_count as nat);
        vstd::bits::lemma_u32_shl_is_mul(1, bit_count as u32);
        lemma_high_mask(value, bit_count as u32);
        vstd::arithmetic::power2::lemma_pow2_pos((bit_count - 1) as nat);
        vstd::arithmetic::power2::lemma_pow2_unfold(bit_count as nat);
        if value < pow2(bit_count as nat) {
            let p = pow2((bit_count - 1) as nat) as int;
            vstd::arithmetic::div_mod::lemma_fundamental_div_mod(value as int, p);
            assert((value as int / p) % 2 == 1 <==> value >= p) by (nonlinear_arith)
                requires
                    0 <= value < 2 * p,
                    p > 0,
            ;
        }
    }
    if (value >> shift) & 1 == 1 {
        value | high
    } else {
        value
    }
}

} // verus!
