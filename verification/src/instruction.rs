//! Representation and decoding of LC-3 instructions.
//!
//! LC-3 instructions are encoded as 16-bit values. [`RawInstruction`]
//! represents an instruction in its encoded form, while [`DecodedInstruction`]
//! represents its decoded form.
//!
//! The four most significant bits of an instruction encode its [`Opcode`].

use core::ops::RangeInclusive;

use vstd::prelude::*;
use vstd::arithmetic::power2::pow2;
use vstd::std_specs::convert::TryFromSpec;
use vstd::bits::{lemma_u16_shr_is_div, lemma_u32_shl_is_mul, lemma_u32_low_bits_mask_is_mod};

pub use crate::error::InstructionError;
use crate::register::{register_of, Register};

verus! {

/// Bit shift for extracting the opcode field from a raw `u16` instruction.
pub const OPCODE_SHIFT: u16 = 12;

/// Number of bits in an instruction.
pub const INSTRUCTION_BITS: u8 = 16;

/// `RangeInclusive::start` returns the lower bound the range was built with.
pub assume_specification<Idx>[ RangeInclusive::<Idx>::start ](range: &RangeInclusive<Idx>) -> (r: &Idx)
    ensures
        *r == range@.start,
;

/// `RangeInclusive::end` returns the upper bound the range was built with.
pub assume_specification<Idx>[ RangeInclusive::<Idx>::end ](range: &RangeInclusive<Idx>) -> (r: &Idx)
    ensures
        *r == range@.end,
;

/// Number of items left in a range of bit positions.
///
/// Calls `ExactSizeIterator::len` on the range, which counts the values from
/// the lower to the upper bound, or none once the range is empty or has been
/// iterated to its end.
#[verifier::external_body]
fn range_len(range: &RangeInclusive<u8>) -> (n: usize)
    ensures
        n == (if range@.exhausted || range@.start > range@.end {
            0
        } else {
            range@.end - range@.start + 1
        }),
{
    range.len()
}

/// A bit range `start..=end` names instruction bits, numbered 1 to 16 from
/// the most significant bit.
pub open spec fn valid_bit_range(start: int, end: int) -> bool {
    1 <= start <= end <= 16
}

/// The unsigned value of bits `start..=end` of `word`, bits numbered 1 to 16
/// from the most significant bit.
pub open spec fn bit_field(word: u16, start: int, end: int) -> u16 {
    ((word as nat / pow2((16 - end) as nat)) % pow2((end - start + 1) as nat)) as u16
}

/// A field of `n` bits holds a value below `2^n`, so it fits in 16 bits.
pub proof fn lemma_bit_field_bound(word: u16, start: int, end: int)
    requires
        valid_bit_range(start, end),
    ensures
        bit_field(word, start, end) as int == (word as nat / pow2((16 - end) as nat)) % pow2(
            (end - start + 1) as nat,
        ),
        bit_field(word, start, end) < pow2((end - start + 1) as nat),
{
    let n = (end - start + 1) as nat;
    vstd::arithmetic::power2::lemma_pow2_pos(n);
    vstd::arithmetic::power2::lemma_pow2_pos((16 - end) as nat);
    if n < 16 {
        vstd::arithmetic::power2::lemma_pow2_strictly_increases(n, 16);
    }
    vstd::arithmetic::power2::lemma2_to64();
}

/// Represent the raw 16-bit instruction.
#[derive(Debug, PartialEq, Eq, Structural)]
pub struct RawInstruction(u16);

impl View for RawInstruction {
    type V = u16;

    closed spec fn view(&self) -> u16 {
        self.0
    }
}

impl From<u16> for RawInstruction {
    fn from(value: u16) -> (r: RawInstruction)
        ensures
            r@ == value,
    {
        RawInstruction(value)
    }
}

impl vstd::std_specs::convert::FromSpecImpl<u16> for RawInstruction {
    open spec fn obeys_from_spec() -> bool {
        true
    }

    closed spec fn from_spec(v: u16) -> RawInstruction {
        RawInstruction(v)
    }
}

impl RawInstruction {
    /// Builds a raw instruction from its encoding.
    pub fn new(value: u16) -> (r: RawInstruction)
        ensures
            r@ == value,
    {
        RawInstruction(value)
    }

    /// The encoded instruction word.
    pub fn value(&self) -> (r: u16)
        ensures
            r == self@,
    {
        self.0
    }

    /// Extracts the field defined by the given inclusive bit range.
    /// Bits are numbered 1 - 16 from the most significant bit.
    ///
    /// # Errors
    /// - If lower bound of `range` is 0.
    /// - If lower bound of `range` > upper bound.
    /// - If upper bound of `range` > `INSTRUCTION_BITS`.
    pub fn bits(&self, range: RangeInclusive<u8>) -> (r: Result<u16, InstructionError>)
        ensures
            valid_bit_range(range@.start as int, range@.end as int) ==> r == Ok::<u16, InstructionError>(
                bit_field(self@, range@.start as int, range@.end as int),
            ),
            !valid_bit_range(range@.start as int, range@.end as int) ==> r == Err::<u16, InstructionError>(
                InstructionError::InvalidBitRange(range),
            ),
    {
        let start = *range.start();
        let end = *range.end();

        if start == 0 || start > end || end > INSTRUCTION_BITS {
            return Err(InstructionError::InvalidBitRange(range));
        }

        let len: u8 = end - start + 1;
        let shift: u16 = (INSTRUCTION_BITS - end) as u16;
        let shifted: u16 = self.0 >> shift;
        proof {
            lemma_u16_shr_is_div(self.0, shift);
            vstd::bits::lemma_u32_pow2_no_overflow(len as nat);
            lemma_u32_shl_is_mul(1, len as u32);
        }
        let mask: u32 = (1u32 << (len as u32)) - 1;
        let field: u32 = (shifted as u32) & mask;
        proof {
            lemma_u32_low_bits_mask_is_mod(shifted as u32, len as nat);
            lemma_bit_field_bound(self.0, start as int, end as int);
        }
        Ok(field as u16)
    }

    /// This is a typed wrapper around [`RawInstruction::bits`]. The target type must
    /// implement `TryFrom<u16>`.
    ///
    /// # Errors
    ///
    /// Returns [`InstructionError::InvalidBitConversion`] if the extracted value cannot
    /// be represented by the target type.
    pub fn bits_as<T: TryFrom<u16>>(&self, range: RangeInclusive<u8>) -> (r: Result<T, InstructionError>)
        ensures
            !valid_bit_range(range@.start as int, range@.end as int) ==> r == Err::<T, InstructionError>(
                InstructionError::InvalidBitRange(range),
            ),
            valid_bit_range(range@.start as int, range@.end as int) ==> match r {
                Ok(t) => T::obeys_try_from_spec() ==> (T::try_from_spec(
                    bit_field(self@, range@.start as int, range@.end as int),
                ) matches Ok(u) && u == t),
                Err(e) => e == InstructionError::InvalidBitConversion && (T::obeys_try_from_spec()
                    ==> T::try_from_spec(
                    bit_field(self@, range@.start as int, range@.end as int),
                ) is Err),
            },
    {
        match self.bits(range) {
            Ok(value) => match T::try_from(value) {
                Ok(t) => Ok(t),
                Err(_) => Err(InstructionError::InvalidBitConversion),
            },
            Err(e) => Err(e),
        }
    }

    /// Decodes a [`Register`] from an LC-3 16-bit instruction.
    ///
    /// The [`Register`] identifier is a 3-bit ecoded value.
    ///
    /// # Errors
    ///
    /// - If `range.len() != 3`.
    pub fn decode_register(&self, range: RangeInclusive<u8>) -> (r: Result<Register, InstructionError>)
        ensures
            (is_register_range(range@) && valid_bit_range(range@.start as int, range@.end as int))
                ==> r == Ok::<Register, InstructionError>(
                register_of(bit_field(self@, range@.start as int, range@.end as int) as int),
            ),
            !(is_register_range(range@) && valid_bit_range(range@.start as int, range@.end as int))
                ==> r == Err::<Register, InstructionError>(InstructionError::InvalidBitRange(range)),
    {
        if range_len(&range) != 3 {
            return Err(InstructionError::InvalidBitRange(range));
        }
        proof {
            vstd::arithmetic::power2::lemma2_to64();
            if valid_bit_range(range@.start as int, range@.end as int) {
                lemma_bit_field_bound(self@, range@.start as int, range@.end as int);
            }
        }
        let register_id = match self.bits_as::<u8>(range) {
            Ok(id) => id,
            Err(e) => return Err(e),
        };
        Ok(Register::from_id(register_id))
    }
}

/// A range that names exactly three bits: the width of a register field.
pub open spec fn is_register_range(range: vstd::std_specs::range::RangeInclusiveView<u8>) -> bool {
    !range.exhausted && range.start <= range.end && range.end - range.start + 1 == 3
}

/// Represents one of the 16 opcodes defined by the LC-3 instruction set.
///
/// The opcode is encoded in the four most significant bits of every LC-3
/// instruction; the variants are listed in encoding order, `Br` being 0.
#[derive(Debug, Copy, Clone, PartialEq, Eq, Structural)]
pub enum Opcode {
    /// branch
    Br,
    /// add
    Add,
    /// load
    Ld,
    /// store
    St,
    /// jump to subroutine
    Jsr,
    /// bitwise and
    And,
    /// load register
    Ldr,
    /// store register
    Str,
    /// return from interrupt (unused)
    Rti,
    /// bitwise not
    Not,
    /// load indirect
    Ldi,
    /// store indirect
    Sti,
    /// jump
    Jmp,
    /// reserved (unused)
    Res,
    /// load effective address
    Lea,
    /// execute trap
    Trap,
}

/// The opcode with the four-bit encoding `code`.
pub open spec fn opcode_of(code: int) -> Opcode {
    if code == 0 {
        Opcode::Br
    } else if code == 1 {
        Opcode::Add
    } else if code == 2 {
        Opcode::Ld
    } else if code == 3 {
        Opcode::St
    } else if code == 4 {
        Opcode::Jsr
    } else if code == 5 {
        Opcode::And
    } else if code == 6 {
        Opcode::Ldr
    } else if code == 7 {
        Opcode::Str
    } else if code == 8 {
        Opcode::Rti
    } else if code == 9 {
        Opcode::Not
    } else if code == 10 {
        Opcode::Ldi
    } else if code == 11 {
        Opcode::Sti
    } else if code == 12 {
        Opcode::Jmp
    } else if code == 13 {
        Opcode::Res
    } else if code == 14 {
        Opcode::Lea
    } else {
        Opcode::Trap
    }
}

/// The opcode of an instruction word: its four most significant bits.
pub open spec fn word_opcode(word: u16) -> Opcode {
    opcode_of(word as int / 4096)
}

/// Represents an LC-3 instruction after decoding its opcode and fields.
///
/// The original [`RawInstruction`] is retained so that additional instruction
/// fields can be extracted from the original encoding during instruction
/// processing.
pub struct DecodedInstruction {
    opcode: Opcode,
    raw: RawInstruction,
}

impl View for DecodedInstruction {
    type V = u16;

    closed spec fn view(&self) -> u16 {
        self.raw@
    }
}

impl DecodedInstruction {
    #[verifier::type_invariant]
    spec fn opcode_matches(self) -> bool {
        self.opcode == word_opcode(self.raw@)
    }

    /// The decoded opcode.
    pub fn opcode(&self) -> (r: &Opcode)
        ensures
            *r == word_opcode(self@),
    {
        proof {
            use_type_invariant(self);
        }
        &self.opcode
    }

    /// The instruction in its encoded form.
    pub fn raw(&self) -> (r: RawInstruction)
        ensures
            r@ == self@,
    {
        RawInstruction(self.raw.0)
    }

    /// Decodes the opcode from a raw LC-3 instruction.
    ///
    /// The opcode is stored in the four most significant bits of the
    /// instruction.
    pub fn decode(value: RawInstruction) -> (r: DecodedInstruction)
        ensures
            r@ == value@,
    {
        let code: u16 = value.0 >> OPCODE_SHIFT;
        proof {
            let w = value.0;
            assert(w >> 12u16 == w / 4096 && w >> 12u16 < 16) by (bit_vector);
        }
        let opcode = match code {
            0 => Opcode::Br,
            1 => Opcode::Add,
            2 => Opcode::Ld,
            3 => Opcode::St,
            4 => Opcode::Jsr,
            5 => Opcode::And,
            6 => Opcode::Ldr,
            7 => Opcode::Str,
            8 => Opcode::Rti,
            9 => Opcode::Not,
            10 => Opcode::Ldi,
            11 => Opcode::Sti,
            12 => Opcode::Jmp,
            13 => Opcode::Res,
            14 => Opcode::Lea,
            _ => Opcode::Trap,
        };
        DecodedInstruction { opcode, raw: value }
    }
}

impl From<RawInstruction> for DecodedInstruction {
    fn from(value: RawInstruction) -> (r: DecodedInstruction)
        ensures
            r@ == value@,
    {
        let r = DecodedInstruction::decode(value);
        proof {
            use_type_invariant(&r);
        }
        r
    }
}

impl vstd::std_specs::convert::FromSpecImpl<RawInstruction> for DecodedInstruction {
    open spec fn obeys_from_spec() -> bool {
        true
    }

    closed spec fn from_spec(v: RawInstruction) -> DecodedInstruction {
        DecodedInstruction { opcode: word_opcode(v@), raw: v }
    }
}

} // verus!
