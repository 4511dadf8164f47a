//! The processor's register file and its flags byte.

use vstd::prelude::*;
use vstd::string::*;
use crate::helper::{combine, high, low, spec_combine, spec_high, spec_low};
use crate::text::{append_if, hex_byte, hex_word, push_hex_byte, push_hex_word, spec_piece_if};

verus! {

/// The four condition flags held in the upper nibble of `F`.
#[derive(Clone, Copy, Debug, PartialEq, Eq, Structural)]
pub enum Flag {
    Zero,
    Sub,
    HalfCarry,
    Carry,
}

impl Flag {
    /// The bit of `F` that holds this flag.
    pub open spec fn spec_mask(self) -> u8 {
        match self {
            Flag::Zero => 0x80,
            Flag::Sub => 0x40,
            Flag::HalfCarry => 0x20,
            Flag::Carry => 0x10,
        }
    }

    #[verifier::when_used_as_spec(spec_mask)]
    pub fn mask(self) -> (m: u8)
        ensures
            m == self.spec_mask(),
    {
        match self {
            Flag::Zero => 0x80,
            Flag::Sub => 0x40,
            Flag::HalfCarry => 0x20,
            Flag::Carry => 0x10,
        }
    }
}

/// The flags byte in which exactly the given flags are set.
pub open spec fn spec_pack_flags(zero: bool, sub: bool, half_carry: bool, carry: bool) -> u8 {
    ((if zero { 0x80int } else { 0 }) + (if sub { 0x40int } else { 0 })
        + (if half_carry { 0x20int } else { 0 }) + (if carry { 0x10int } else { 0 })) as u8
}

#[verifier::when_used_as_spec(spec_pack_flags)]
pub fn pack_flags(zero: bool, sub: bool, half_carry: bool, carry: bool) -> (f: u8)
    ensures
        f == spec_pack_flags(zero, sub, half_carry, carry),
{
    let z: u8 = if zero { 0x80 } else { 0 };
    let n: u8 = if sub { 0x40 } else { 0 };
    let h: u8 = if half_carry { 0x20 } else { 0 };
    let c: u8 = if carry { 0x10 } else { 0 };
    z + n + h + c
}

/// Whether `flag` is set in the flags byte `f`.
pub open spec fn flag_in(f: u8, flag: Flag) -> bool {
    f & flag.mask() != 0
}

/// A packed flags byte reads back as the flags it was made of, and its low
/// nibble is zero.
pub proof fn lemma_pack_flags(zero: bool, sub: bool, half_carry: bool, carry: bool)
    ensures
        flag_in(spec_pack_flags(zero, sub, half_carry, carry), Flag::Zero) == zero,
        flag_in(spec_pack_flags(zero, sub, half_carry, carry), Flag::Sub) == sub,
        flag_in(spec_pack_flags(zero, sub, half_carry, carry), Flag::HalfCarry) == half_carry,
        flag_in(spec_pack_flags(zero, sub, half_carry, carry), Flag::Carry) == carry,
        spec_pack_flags(zero, sub, half_carry, carry) & 0x0F == 0,
{
    let f = spec_pack_flags(zero, sub, half_carry, carry);
    assert(f == 0x00 || f == 0x10 || f == 0x20 || f == 0x30 || f == 0x40 || f == 0x50 || f == 0x60
        || f == 0x70 || f == 0x80 || f == 0x90 || f == 0xA0 || f == 0xB0 || f == 0xC0 || f == 0xD0
        || f == 0xE0 || f == 0xF0);
    assert((f & 0x80 != 0) == (f >= 0x80) && (f & 0x40 != 0) == (f % 0x80 >= 0x40) && (f & 0x20
        != 0) == (f % 0x40 >= 0x20) && (f & 0x10 != 0) == (f % 0x20 >= 0x10) && (f % 16 == 0 ==> f
        & 0x0F == 0)) by (bit_vector);
}

/// Setting or clearing one flag leaves the other three and the low nibble
/// as they were.
pub proof fn lemma_set_flag(f: u8, flag: Flag, on: bool, other: Flag)
    ensures
        flag_in(spec_with_flag(f, flag, on), flag) == on,
        other != flag ==> flag_in(spec_with_flag(f, flag, on), other) == flag_in(f, other),
        spec_with_flag(f, flag, on) & 0x0F == f & 0x0F,
{
    let m = flag.mask();
    let o = other.mask();
    assert((m == 0x80 || m == 0x40 || m == 0x20 || m == 0x10) && (o == 0x80 || o == 0x40 || o
        == 0x20 || o == 0x10) ==> ((f | m) & m != 0) && ((f & !m) & m == 0) && (o != m ==> ((f
        | m) & o == f & o) && ((f & !m) & o == f & o)) && ((f | m) & 0x0F == f & 0x0F) && ((f
        & !m) & 0x0F == f & 0x0F)) by (bit_vector);
}

/// The flags byte `f` with `flag` set when `on` holds and cleared otherwise.
pub open spec fn spec_with_flag(f: u8, flag: Flag, on: bool) -> u8 {
    if on {
        f | flag.mask()
    } else {
        f & !flag.mask()
    }
}

/// The eight 8-bit registers and the two 16-bit registers.
#[derive(Clone, Copy, Debug, PartialEq, Eq, Structural)]
pub struct Registers {
    pub a: u8,
    pub f: u8,
    pub b: u8,
    pub c: u8,
    pub d: u8,
    pub e: u8,
    pub h: u8,
    pub l: u8,
    pub sp: u16,
    pub pc: u16,
}

impl Registers {
    /// The low nibble of `F` is zero.
    pub open spec fn wf(&self) -> bool {
        self.f & 0x0F == 0
    }

    /// The register values left behind by the boot program.
    pub open spec fn spec_new() -> Registers {
        Registers {
            a: 0x01,
            f: 0xB0,
            b: 0x00,
            c: 0x13,
            d: 0x00,
            e: 0xD8,
            h: 0x01,
            l: 0x4D,
            sp: 0xFFFE,
            pc: 0x0100,
        }
    }

    pub fn new() -> (regs: Registers)
        ensures
            regs == Registers::spec_new(),
            regs.wf(),
    {
        proof {
            lemma_pack_flags(true, false, true, true);
        }
        Registers {
            a: 0x01,
            f: 0xB0,
            b: 0x00,
            c: 0x13,
            d: 0x00,
            e: 0xD8,
            h: 0x01,
            l: 0x4D,
            sp: 0xFFFE,
            pc: 0x0100,
        }
    }

    pub open spec fn spec_af(&self) -> u16 {
        spec_combine(self.a, self.f)
    }

    #[verifier::when_used_as_spec(spec_af)]
    pub fn af(&self) -> (word: u16)
        ensures
            word == self.spec_af(),
    {
        combine(self.a, self.f)
    }

    pub open spec fn spec_bc(&self) -> u16 {
        spec_combine(self.b, self.c)
    }

    #[verifier::when_used_as_spec(spec_bc)]
    pub fn bc(&self) -> (word: u16)
        ensures
            word == self.spec_bc(),
    {
        combine(self.b, self.c)
    }

    pub open spec fn spec_de(&self) -> u16 {
        spec_combine(self.d, self.e)
    }

    #[verifier::when_used_as_spec(spec_de)]
    pub fn de(&self) -> (word: u16)
        ensures
            word == self.spec_de(),
    {
        combine(self.d, self.e)
    }

    pub open spec fn spec_hl(&self) -> u16 {
        spec_combine(self.h, self.l)
    }

    #[verifier::when_used_as_spec(spec_hl)]
    pub fn hl(&self) -> (word: u16)
        ensures
            word == self.spec_hl(),
    {
        combine(self.h, self.l)
    }

    /// `A` takes the high byte; `F` takes the low byte with its low nibble
    /// forced to zero.
    pub open spec fn with_af(self, value: u16) -> Registers {
        Registers { a: spec_high(value), f: spec_low(value) & 0xF0, ..self }
    }

    pub fn set_af(&mut self, value: u16)
        ensures
            *final(self) == old(self).with_af(value),
            final(self).wf(),
    {
        let f: u8 = low(value);
        assert((f & 0xF0) & 0x0F == 0) by (bit_vector);
        self.a = high(value);
        self.f = f & 0xF0;
    }

    pub open spec fn with_bc(self, value: u16) -> Registers {
        Registers { b: spec_high(value), c: spec_low(value), ..self }
    }

    pub fn set_bc(&mut self, value: u16)
        ensures
            *final(self) == old(self).with_bc(value),
    {
        self.b = high(value);
        self.c = low(value);
    }

    pub open spec fn with_de(self, value: u16) -> Registers {
        Registers { d: spec_high(value), e: spec_low(value), ..self }
    }

    pub fn set_de(&mut self, value: u16)
        ensures
            *final(self) == old(self).with_de(value),
    {
        self.d = high(value);
        self.e = low(value);
    }

    pub open spec fn with_hl(self, value: u16) -> Registers {
        Registers { h: spec_high(value), l: spec_low(value), ..self }
    }

    pub fn set_hl(&mut self, value: u16)
        ensures
            *final(self) == old(self).with_hl(value),
    {
        self.h = high(value);
        self.l = low(value);
    }

    /// Increments `HL`, wrapping at 16 bits.
    pub fn hli(&mut self)
        ensures
            *final(self) == old(self).with_hl(old(self).hl().wrapping_add(1)),
    {
        let new: u16 = self.hl().wrapping_add(1);
        self.set_hl(new);
    }

    /// Decrements `HL`, wrapping at 16 bits.
    pub fn hld(&mut self)
        ensures
            *final(self) == old(self).with_hl(old(self).hl().wrapping_sub(1)),
    {
        let new: u16 = self.hl().wrapping_sub(1);
        self.set_hl(new);
    }

    pub open spec fn with_flag(self, flag: Flag, condition: bool) -> Registers {
        Registers { f: spec_with_flag(self.f, flag, condition), ..self }
    }

    /// Sets `flag` when `condition` holds and clears it otherwise.
    pub fn set_flag(&mut self, flag: Flag, condition: bool)
        ensures
            *final(self) == old(self).with_flag(flag, condition),
            final(self).spec_is_flag_set(flag) == condition,
            forall|other: Flag|
                other != flag ==> final(self).spec_is_flag_set(other) == old(
                    self,
                ).spec_is_flag_set(other),
            old(self).wf() ==> final(self).wf(),
    {
        proof {
            lemma_set_flag(self.f, flag, condition, flag);
            assert forall|other: Flag| other != flag implies flag_in(
                spec_with_flag(self.f, flag, condition),
                other,
            ) == flag_in(self.f, other) by {
                lemma_set_flag(self.f, flag, condition, other);
            }
        }
        if condition {
            self.f = self.f | flag.mask();
        } else {
            self.f = self.f & !flag.mask();
        }
    }

    pub open spec fn spec_is_flag_set(&self, flag: Flag) -> bool {
        flag_in(self.f, flag)
    }

    #[verifier::when_used_as_spec(spec_is_flag_set)]
    pub fn is_flag_set(&self, flag: Flag) -> (set: bool)
        ensures
            set == self.spec_is_flag_set(flag),
    {
        self.f & flag.mask() != 0
    }

    pub open spec fn with_flags(self, zero: bool, sub: bool, half_carry: bool, carry: bool)
        -> Registers {
        Registers { f: spec_pack_flags(zero, sub, half_carry, carry), ..self }
    }

    /// Replaces all four flags at once.
    pub fn set_flags(&mut self, zero: bool, sub: bool, half_carry: bool, carry: bool)
        ensures
            *final(self) == old(self).with_flags(zero, sub, half_carry, carry),
            final(self).wf(),
    {
        proof {
            lemma_pack_flags(zero, sub, half_carry, carry);
        }
        self.f = pack_flags(zero, sub, half_carry, carry);
    }
}


impl Registers {
    /// The registers written out: the pairs and `SP` and `PC` in
    /// hexadecimal, one to a line, and the names of the flags that are set.
    pub open spec fn text(self) -> Seq<char> {
        "Registers:\nAF: $"@ + hex_byte(self.a) + hex_byte(self.f) + "\nBC: $"@ + hex_byte(self.b)
            + hex_byte(self.c) + "\nDE: $"@ + hex_byte(self.d) + hex_byte(self.e) + "\nHL: $"@
            + hex_byte(self.h) + hex_byte(self.l) + "\nSP: $"@ + hex_word(self.sp) + "\nPC: $"@
            + hex_word(self.pc) + "\nFlags: "@ + spec_piece_if(
            self.spec_is_flag_set(Flag::Zero),
            "Zero | "@,
        ) + spec_piece_if(self.spec_is_flag_set(Flag::Sub), "Sub | "@) + spec_piece_if(
            self.spec_is_flag_set(Flag::HalfCarry),
            "HalfCarry | "@,
        ) + spec_piece_if(self.spec_is_flag_set(Flag::Carry), "Carry"@)
    }

    /// Writes the registers out.
    pub fn to_string(&self) -> (text: String)
        ensures
            text@ == self.text(),
    {
        let mut text = String::from_str("Registers:\nAF: $");
        push_hex_byte(&mut text, self.a);
        push_hex_byte(&mut text, self.f);
        text.append("\nBC: $");
        push_hex_byte(&mut text, self.b);
        push_hex_byte(&mut text, self.c);
        text.append("\nDE: $");
        push_hex_byte(&mut text, self.d);
        push_hex_byte(&mut text, self.e);
        text.append("\nHL: $");
        push_hex_byte(&mut text, self.h);
        push_hex_byte(&mut text, self.l);
        text.append("\nSP: $");
        push_hex_word(&mut text, self.sp);
        text.append("\nPC: $");
        push_hex_word(&mut text, self.pc);
        text.append("\nFlags: ");
        append_if(&mut text, self.is_flag_set(Flag::Zero), "Zero | ");
        append_if(&mut text, self.is_flag_set(Flag::Sub), "Sub | ");
        append_if(&mut text, self.is_flag_set(Flag::HalfCarry), "HalfCarry | ");
        append_if(&mut text, self.is_flag_set(Flag::Carry), "Carry");
        text
    }
}

} // verus!
