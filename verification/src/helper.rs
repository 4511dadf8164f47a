//! Single bits, byte-wide hardware registers and byte/word conversions.

use vstd::prelude::*;

verus! {

/// One of the eight bit positions of a byte.
#[derive(Clone, Copy, Debug, PartialEq, Eq, Structural)]
pub enum Bit {
    Bit0,
    Bit1,
    Bit2,
    Bit3,
    Bit4,
    Bit5,
    Bit6,
    Bit7,
}

impl Bit {
    /// The byte that has exactly this bit set.
    pub open spec fn spec_mask(self) -> u8 {
        match self {
            Bit::Bit0 => 0x01,
            Bit::Bit1 => 0x02,
            Bit::Bit2 => 0x04,
            Bit::Bit3 => 0x08,
            Bit::Bit4 => 0x10,
            Bit::Bit5 => 0x20,
            Bit::Bit6 => 0x40,
            Bit::Bit7 => 0x80,
        }
    }

    #[verifier::when_used_as_spec(spec_mask)]
    pub fn mask(self) -> (m: u8)
        ensures
            m == self.spec_mask(),
    {
        match self {
            Bit::Bit0 => 0x01,
            Bit::Bit1 => 0x02,
            Bit::Bit2 => 0x04,
            Bit::Bit3 => 0x08,
            Bit::Bit4 => 0x10,
            Bit::Bit5 => 0x20,
            Bit::Bit6 => 0x40,
            Bit::Bit7 => 0x80,
        }
    }

    /// The bit at position `index` (0 is the least significant); positions
    /// above 7 count as 7.
    pub open spec fn spec_from_index(index: u8) -> Bit {
        if index == 0 {
            Bit::Bit0
        } else if index == 1 {
            Bit::Bit1
        } else if index == 2 {
            Bit::Bit2
        } else if index == 3 {
            Bit::Bit3
        } else if index == 4 {
            Bit::Bit4
        } else if index == 5 {
            Bit::Bit5
        } else if index == 6 {
            Bit::Bit6
        } else {
            Bit::Bit7
        }
    }

    #[verifier::when_used_as_spec(spec_from_index)]
    pub fn from_index(index: u8) -> (b: Bit)
        ensures
            b == Bit::spec_from_index(index),
    {
        if index == 0 {
            Bit::Bit0
        } else if index == 1 {
            Bit::Bit1
        } else if index == 2 {
            Bit::Bit2
        } else if index == 3 {
            Bit::Bit3
        } else if index == 4 {
            Bit::Bit4
        } else if index == 5 {
            Bit::Bit5
        } else if index == 6 {
            Bit::Bit6
        } else {
            Bit::Bit7
        }
    }
}

/// The 16-bit word with high byte `hi` and low byte `lo`.
pub open spec fn spec_combine(hi: u8, lo: u8) -> u16 {
    (hi as int * 256 + lo as int) as u16
}

#[verifier::when_used_as_spec(spec_combine)]
pub fn combine(hi: u8, lo: u8) -> (word: u16)
    ensures
        word == spec_combine(hi, lo),
        word / 256 == hi,
        word % 256 == lo,
{
    let hi16: u16 = hi as u16;
    let lo16: u16 = lo as u16;
    hi16 * 256 + lo16
}

/// The high byte of a word.
pub open spec fn spec_high(word: u16) -> u8 {
    (word / 256) as u8
}

#[verifier::when_used_as_spec(spec_high)]
pub fn high(word: u16) -> (byte: u8)
    ensures
        byte == spec_high(word),
{
    (word / 256) as u8
}

/// The low byte of a word.
pub open spec fn spec_low(word: u16) -> u8 {
    (word % 256) as u8
}

#[verifier::when_used_as_spec(spec_low)]
pub fn low(word: u16) -> (byte: u8)
    ensures
        byte == spec_low(word),
{
    (word % 256) as u8
}

/// Splitting a word into bytes and joining them again gives the word back,
/// and the other way round.
pub proof fn lemma_combine_split(hi: u8, lo: u8, word: u16)
    ensures
        spec_high(spec_combine(hi, lo)) == hi,
        spec_low(spec_combine(hi, lo)) == lo,
        spec_combine(spec_high(word), spec_low(word)) == word,
{
}

/// A byte-wide hardware register.
#[derive(Clone, Copy, Debug, PartialEq, Eq, Structural)]
pub struct MemoryRegister {
    pub value: u8,
}

impl MemoryRegister {
    pub fn new(data: u8) -> (reg: MemoryRegister)
        ensures
            reg.value == data,
    {
        MemoryRegister { value: data }
    }

    pub fn get(&self) -> (data: u8)
        ensures
            data == self.value,
    {
        self.value
    }

    pub fn set(&mut self, data: u8)
        ensures
            final(self).value == data,
        no_unwind
    {
        self.value = data;
    }

    pub fn clear(&mut self)
        ensures
            final(self).value == 0,
        no_unwind
    {
        self.set(0x00);
    }

    pub fn set_bit(&mut self, b: Bit)
        ensures
            final(self).value == old(self).value | b.mask(),
    {
        self.value = self.value | b.mask();
    }

    pub fn clear_bit(&mut self, b: Bit)
        ensures
            final(self).value == old(self).value & !b.mask(),
    {
        self.value = self.value & !b.mask();
    }

    /// Whether bit `b` of the register is 1.
    pub open spec fn spec_is_set(&self, b: Bit) -> bool {
        self.value & b.mask() != 0
    }

    #[verifier::when_used_as_spec(spec_is_set)]
    pub fn is_set(&self, b: Bit) -> (set: bool)
        ensures
            set == self.spec_is_set(b),
    {
        self.value & b.mask() != 0
    }

    /// Adds modulo 256.
    pub fn add(&mut self, data: u8)
        ensures
            final(self).value as int == (old(self).value + data) % 256,
    {
        self.value = self.value.wrapping_add(data);
    }

    /// Subtracts modulo 256.
    pub fn sub(&mut self, data: u8)
        ensures
            final(self).value as int == (old(self).value - data) % 256,
    {
        self.value = self.value.wrapping_sub(data);
    }
}

} // verus!
