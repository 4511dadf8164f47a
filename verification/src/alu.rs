//! What the arithmetic and logic instructions compute: results and flags,
//! stated as arithmetic on the register values.

use vstd::prelude::*;
use crate::helper::Bit;
use crate::register::{Flag, Registers};

verus! {

/// The carry that goes into an addition or subtraction: the carry flag if
/// the instruction uses it, else nothing.
pub open spec fn carry_in(regs: Registers, use_carry: bool) -> int {
    if use_carry && regs.is_flag_set(Flag::Carry) {
        1
    } else {
        0
    }
}

/// A byte read as a signed number.
pub open spec fn signed(n: u8) -> int {
    if n < 128 {
        n as int
    } else {
        n - 256
    }
}

/// The eight rotate and shift operations of the prefixed instructions, in
/// the order of their encoding.
#[derive(Clone, Copy, Debug, PartialEq, Eq, Structural)]
pub enum Shift {
    /// Rotate left; bit 7 goes to bit 0 and to the carry.
    Rlc,
    /// Rotate right; bit 0 goes to bit 7 and to the carry.
    Rrc,
    /// Rotate left through the carry.
    Rl,
    /// Rotate right through the carry.
    Rr,
    /// Shift left; bit 0 becomes 0.
    Sla,
    /// Shift right; bit 7 stays as it is.
    Sra,
    /// Exchange the two nibbles.
    Swap,
    /// Shift right; bit 7 becomes 0.
    Srl,
}

impl Shift {
    /// The operation with number `index` in the encoding.
    pub open spec fn spec_from_index(index: u8) -> Shift {
        if index == 0 {
            Shift::Rlc
        } else if index == 1 {
            Shift::Rrc
        } else if index == 2 {
            Shift::Rl
        } else if index == 3 {
            Shift::Rr
        } else if index == 4 {
            Shift::Sla
        } else if index == 5 {
            Shift::Sra
        } else if index == 6 {
            Shift::Swap
        } else {
            Shift::Srl
        }
    }

    #[verifier::when_used_as_spec(spec_from_index)]
    pub fn from_index(index: u8) -> (shift: Shift)
        ensures
            shift == Shift::spec_from_index(index),
    {
        if index == 0 {
            Shift::Rlc
        } else if index == 1 {
            Shift::Rrc
        } else if index == 2 {
            Shift::Rl
        } else if index == 3 {
            Shift::Rr
        } else if index == 4 {
            Shift::Sla
        } else if index == 5 {
            Shift::Sra
        } else if index == 6 {
            Shift::Swap
        } else {
            Shift::Srl
        }
    }
}

/// `n` rotated left by one bit.
pub open spec fn rotated_left(n: u8) -> u8 {
    ((n * 2) % 256 + n / 128) as u8
}

/// `n` rotated right by one bit.
pub open spec fn rotated_right(n: u8) -> u8 {
    (n / 2 + (n % 2) * 128) as u8
}

/// `n` shifted left by one bit, with `carry` coming in at bit 0.
pub open spec fn shifted_left(n: u8, carry: bool) -> u8 {
    ((n * 2) % 256 + if carry {
        1int
    } else {
        0int
    }) as u8
}

/// `n` shifted right by one bit, with `carry` coming in at bit 7.
pub open spec fn shifted_right(n: u8, carry: bool) -> u8 {
    (n / 2 + if carry {
        128int
    } else {
        0int
    }) as u8
}

/// `n` with its nibbles exchanged.
pub open spec fn swapped(n: u8) -> u8 {
    ((n % 16) * 16 + n / 16) as u8
}

/// How the shifts and rotates written with bit operators come out as arithmetic.
pub proof fn lemma_shifts(n: u8)
    by (bit_vector)
    ensures
        ({
            &&& ((n << 1u8) | (n >> 7u8)) as int == (n * 2) % 256 + n / 128
            &&& ((n >> 1u8) | (n << 7u8)) as int == n / 2 + (n % 2) * 128
            &&& ((n << 1u8) | 1) as int == (n * 2) % 256 + 1
            &&& (n << 1u8) as int == (n * 2) % 256
            &&& ((n >> 1u8) | 0x80) as int == n / 2 + 128
            &&& (n >> 1u8) as int == n / 2
            &&& (n >= 128 ==> ((n >> 1u8) | (n & 0x80)) as int == n / 2 + 128)
            &&& (n < 128 ==> ((n >> 1u8) | (n & 0x80)) as int == n / 2)
            &&& ((n << 4u8) | (n >> 4u8)) as int == (n % 16) * 16 + n / 16
            &&& (n & 0x80 != 0) == (n >= 128)
            &&& (n & 0x01 != 0) == (n % 2 == 1)
            &&& (n & 0x0F) as int == n % 16
            &&& (!n) as int == 255 - n
        }),
{
}

impl Registers {
    /// After `ADD` or `ADC` of `n` to `A`. `H` is the carry out of bit 3,
    /// `C` the carry out of bit 7.
    pub open spec fn after_add(self, n: u8, use_carry: bool) -> Registers {
        let c = carry_in(self, use_carry);
        let sum = self.a + n + c;
        Registers { a: (sum % 256) as u8, ..self }.with_flags(
            sum % 256 == 0,
            false,
            self.a % 16 + n % 16 + c > 15,
            sum > 255,
        )
    }

    /// After `SUB` or `SBC` of `n` from `A`. `H` is the borrow into bit 3,
    /// `C` the borrow into bit 7.
    pub open spec fn after_sub(self, n: u8, use_carry: bool) -> Registers {
        let c = carry_in(self, use_carry);
        let difference = self.a - n - c;
        Registers { a: (difference % 256) as u8, ..self }.with_flags(
            difference % 256 == 0,
            true,
            self.a % 16 < n % 16 + c,
            self.a < n + c,
        )
    }

    /// After `AND` of `n` with `A`.
    pub open spec fn after_and(self, n: u8) -> Registers {
        Registers { a: self.a & n, ..self }.with_flags(self.a & n == 0, false, true, false)
    }

    /// After `OR` of `n` with `A`.
    pub open spec fn after_or(self, n: u8) -> Registers {
        Registers { a: self.a | n, ..self }.with_flags(self.a | n == 0, false, false, false)
    }

    /// After `XOR` of `n` with `A`.
    pub open spec fn after_xor(self, n: u8) -> Registers {
        Registers { a: self.a ^ n, ..self }.with_flags(self.a ^ n == 0, false, false, false)
    }

    /// After `CP`: the flags of a subtraction, with `A` left as it was.
    pub open spec fn after_cp(self, n: u8) -> Registers {
        Registers { a: self.a, ..self.after_sub(n, false) }
    }

    /// The flags after an 8-bit increment of `n`; the carry flag stays.
    pub open spec fn after_inc(self, n: u8) -> Registers {
        self.with_flags((n + 1) % 256 == 0, false, n % 16 == 15, self.is_flag_set(Flag::Carry))
    }

    /// The flags after an 8-bit decrement of `n`; the carry flag stays.
    pub open spec fn after_dec(self, n: u8) -> Registers {
        self.with_flags((n - 1) % 256 == 0, true, n % 16 == 0, self.is_flag_set(Flag::Carry))
    }

    /// After `CPL`: every bit of `A` inverted, `N` and `H` set.
    pub open spec fn after_cpl(self) -> Registers {
        Registers { a: (255 - self.a) as u8, ..self }.with_flags(
            self.is_flag_set(Flag::Zero),
            true,
            true,
            self.is_flag_set(Flag::Carry),
        )
    }

    /// After `SCF`.
    pub open spec fn after_scf(self) -> Registers {
        self.with_flags(self.is_flag_set(Flag::Zero), false, false, true)
    }

    /// After `CCF`.
    pub open spec fn after_ccf(self) -> Registers {
        self.with_flags(self.is_flag_set(Flag::Zero), false, false, !self.is_flag_set(Flag::Carry))
    }

    /// What a rotate or shift makes of `n`.
    pub open spec fn shift_result(self, shift: Shift, n: u8) -> u8 {
        match shift {
            Shift::Rlc => rotated_left(n),
            Shift::Rrc => rotated_right(n),
            Shift::Rl => shifted_left(n, self.is_flag_set(Flag::Carry)),
            Shift::Rr => shifted_right(n, self.is_flag_set(Flag::Carry)),
            Shift::Sla => shifted_left(n, false),
            Shift::Sra => shifted_right(n, n >= 128),
            Shift::Swap => swapped(n),
            Shift::Srl => shifted_right(n, false),
        }
    }

    /// The bit that a rotate or shift of `n` moves out, which the carry flag
    /// takes; `SWAP` moves none out.
    pub open spec fn shift_carry(shift: Shift, n: u8) -> bool {
        match shift {
            Shift::Rlc => n >= 128,
            Shift::Rl => n >= 128,
            Shift::Sla => n >= 128,
            Shift::Swap => false,
            _ => n % 2 == 1,
        }
    }

    /// The flags after a rotate or shift of `n`. The zero flag follows the
    /// result where `update_zero` holds and is cleared where not.
    pub open spec fn after_shift(self, shift: Shift, n: u8, update_zero: bool) -> Registers {
        self.with_flags(
            update_zero && self.shift_result(shift, n) == 0,
            false,
            false,
            Registers::shift_carry(shift, n),
        )
    }

    /// The flags after `BIT`: `Z` is set when the bit is 0; the carry flag stays.
    pub open spec fn after_bit(self, n: u8, bit: Bit) -> Registers {
        self.with_flags(n & bit.mask() == 0, false, true, self.is_flag_set(Flag::Carry))
    }

    /// What `DAA` adds to `A`, modulo 256, to make it two decimal digits
    /// again after an addition or subtraction of such numbers.
    pub open spec fn daa_adjustment(self) -> int {
        if !self.is_flag_set(Flag::Sub) {
            (if self.is_flag_set(Flag::Carry) || self.a > 0x99 {
                0x60int
            } else {
                0int
            }) + (if self.is_flag_set(Flag::HalfCarry) || self.a % 16 > 9 {
                0x06int
            } else {
                0int
            })
        } else {
            (if self.is_flag_set(Flag::Carry) {
                0xA0int
            } else {
                0int
            }) + (if self.is_flag_set(Flag::HalfCarry) {
                0xFAint
            } else {
                0int
            })
        }
    }

    /// The carry flag after `DAA`.
    pub open spec fn daa_carry(self) -> bool {
        self.is_flag_set(Flag::Carry) || (!self.is_flag_set(Flag::Sub) && self.a > 0x99)
    }

    /// After `DAA`.
    pub open spec fn after_daa(self) -> Registers {
        let a = ((self.a + self.daa_adjustment()) % 256) as u8;
        Registers { a, ..self }.with_flags(
            a == 0,
            self.is_flag_set(Flag::Sub),
            false,
            self.daa_carry(),
        )
    }

    /// After `ADD HL, rr` with `n` the value of `rr`. `H` is the carry out
    /// of bit 11, `C` the carry out of bit 15; the zero flag stays.
    pub open spec fn after_add_hl(self, n: u16) -> Registers {
        self.with_hl(((self.hl() + n) % 0x10000) as u16).with_flags(
            self.is_flag_set(Flag::Zero),
            false,
            self.hl() % 0x1000 + n % 0x1000 > 0xFFF,
            self.hl() + n > 0xFFFF,
        )
    }

    /// `SP` plus the signed byte `n`, modulo 65536.
    pub open spec fn sp_plus(self, n: u8) -> u16 {
        ((self.sp + signed(n)) % 0x10000) as u16
    }

    /// The flags after `SP` plus the signed byte `n` was computed: `H` and
    /// `C` are the carries out of bit 3 and bit 7 of the low byte.
    pub open spec fn after_sp_offset(self, n: u8) -> Registers {
        self.with_flags(false, false, self.sp % 16 + n % 16 > 15, self.sp % 256 + n > 255)
    }

    /// After `LD HL, SP+e`.
    pub open spec fn after_ld_hl(self, n: u8) -> Registers {
        self.after_sp_offset(n).with_hl(self.sp_plus(n))
    }

    /// After `ADD SP, e`.
    pub open spec fn after_add_sp(self, n: u8) -> Registers {
        Registers { sp: self.sp_plus(n), ..self.after_sp_offset(n) }
    }
}

} // verus!
