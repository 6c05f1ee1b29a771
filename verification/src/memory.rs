//! Memory and address types for the LC-3 virtual machine.
//!
//! The LC-3 has a 16-bit address space containing 65,536 addressable
//! memory locations. Each location stores a 16-bit word, for a total
//! memory capacity of 128 KiB.
//!
//! [`Memory`] provides access to LC-3 memory using [`Address`], which
//! represents a valid 16-bit memory address.

use vstd::prelude::*;

verus! {

/// Number of addressable memory locations defined by the LC-3 architecture.
pub const MEMORY_SIZE: usize = 65536;

/// Reduces an integer to the 16-bit address space (arithmetic modulo 2^16).
pub open spec fn wrap16(x: int) -> u16 {
    (x % 65536) as u16
}

/// Represents a 16-bit address in the LC-3 address space.
///
/// Since the LC-3 uses a 16-bit address bus, all `u16` values represent
/// valid memory addresses.
#[derive(Debug, PartialEq, Eq, Structural, Copy, Clone)]
pub struct Address(u16);

impl View for Address {
    type V = u16;

    closed spec fn view(&self) -> u16 {
        self.0
    }
}

impl vstd::std_specs::convert::FromSpecImpl<u16> for Address {
    open spec fn obeys_from_spec() -> bool {
        true
    }

    closed spec fn from_spec(v: u16) -> Address {
        Address(v)
    }
}

impl From<u16> for Address {
    fn from(value: u16) -> (r: Address)
        ensures
            r@ == value,
    {
        Address(value)
    }
}

impl From<Address> for u16 {
    fn from(address: Address) -> (r: u16)
        ensures
            r == address@,
    {
        address.0
    }
}

impl vstd::std_specs::convert::FromSpecImpl<Address> for u16 {
    open spec fn obeys_from_spec() -> bool {
        true
    }

    open spec fn from_spec(v: Address) -> u16 {
        v@
    }
}

impl Address {
    /// Builds an address from its 16-bit value.
    pub fn new(value: u16) -> (r: Address)
        ensures
            r@ == value,
    {
        Address(value)
    }

    /// Returns the address as its underlying 16-bit value.
    pub fn as_u16(self) -> (r: u16)
        ensures
            r == self@,
        no_unwind
    {
        self.0
    }

    /// Adds `rhs` to the address using 16-bit wrapping arithmetic.
    ///
    /// This mirrors the behavior of the LC-3's 16-bit address arithmetic:
    /// values that exceed `0xFFFF` wrap around to the beginning of the
    /// address space.
    pub fn wrapping_add(self, rhs: u16) -> (r: Address)
        ensures
            r@ == wrap16(self@ + rhs),
        no_unwind
    {
        let sum: u32 = self.0 as u32 + rhs as u32;
        Address((sum % 65536) as u16)
    }
}

/// LC-3 memory containing 65,536 16-bit words.
///
/// Memory is indexed using [`Address`] values. Since [`Address`] is
/// represented by a `u16`, every possible address is guaranteed to fall
/// within the LC-3 address space.
#[derive(Debug)]
pub struct Memory {
    words: Vec<u16>,
}

impl View for Memory {
    type V = Seq<u16>;

    closed spec fn view(&self) -> Seq<u16> {
        self.words@
    }
}

impl Memory {
    #[verifier::type_invariant]
    spec fn full_size(self) -> bool {
        self.words@.len() == MEMORY_SIZE
    }

    /// Creates a memory whose every word is zero.
    fn zeroed() -> (m: Memory)
        ensures
            m@.len() == MEMORY_SIZE,
            forall|i: int| 0 <= i < MEMORY_SIZE ==> #[trigger] m@[i] == 0,
    {
        let mut words: Vec<u16> = Vec::new();
        while words.len() < MEMORY_SIZE
            invariant
                words@.len() <= MEMORY_SIZE,
                forall|i: int| 0 <= i < words@.len() ==> #[trigger] words@[i] == 0,
            decreases MEMORY_SIZE - words@.len(),
        {
            words.push(0);
        }
        Memory { words }
    }

    /// Reads the 16-bit word stored at `address`.
    ///
    /// Every [`Address`] represents a valid location in the LC-3 address space,
    /// so this operation cannot address memory outside the allocated buffer.
    pub fn read(&self, address: Address) -> (r: u16)
        ensures
            r == self@[address@ as int],
    {
        proof {
            use_type_invariant(self);
        }
        self.words[address.as_u16() as usize]
    }

    /// Writes the 16-bit word `value` at `address`.
    pub fn write(&mut self, address: Address, value: u16)
        ensures
            final(self)@ == old(self)@.update(address@ as int, value),
        no_unwind
    {
        proof {
            use_type_invariant(&*self);
        }
        self.words[address.as_u16() as usize] = value;
    }

    /// Returns the number of addressable memory locations.
    pub fn len(&self) -> (r: usize)
        ensures
            r == MEMORY_SIZE,
            r == self@.len(),
    {
        proof {
            use_type_invariant(self);
        }
        self.words.len()
    }
}

impl Default for Memory {
    fn default() -> (m: Memory)
        ensures
            m@ == Seq::new(MEMORY_SIZE as nat, |i: int| 0u16),
    {
        let m = Memory::zeroed();
        assert(m@ =~= Seq::new(MEMORY_SIZE as nat, |i: int| 0u16));
        m
    }
}

} // verus!
