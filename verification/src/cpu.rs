//! The processor: fetch, decode and execute, interrupt entry and `HALT`.

use vstd::prelude::*;
use crate::alu::{lemma_shifts, signed, Shift};
use crate::helper::{combine, high, low, spec_combine, spec_high, spec_low, Bit};
use crate::interconnect::{BusModel, Interconnect};
use crate::interrupt::InterruptHandler;
use crate::register::{Flag, Registers};

verus! {

/// Machine cycles an interrupt entry takes.
pub const INTERRUPT_CYCLES: usize = 5;

/// Machine cycles a step takes while the processor is halted.
pub const HALT_CYCLES: usize = 1;

/// Where the registers reached through `LD (C), A` and `LD (n), A` begin.
pub const HIGH_PAGE: u16 = 0xFF00;

/// An opcode that stands for no instruction, and where it was fetched.
#[derive(Clone, Copy, Debug, PartialEq, Eq, Structural)]
pub struct DecodeError {
    pub opcode: u8,
    pub pc: u16,
}

/// The four conditions of the conditional jumps, calls and returns, in the
/// order of their encoding.
#[derive(Clone, Copy, Debug, PartialEq, Eq, Structural)]
pub enum Condition {
    NotZero,
    Zero,
    NotCarry,
    Carry,
}

impl Condition {
    /// The condition with number `index` in the encoding.
    pub open spec fn spec_from_index(index: u8) -> Condition {
        if index == 0 {
            Condition::NotZero
        } else if index == 1 {
            Condition::Zero
        } else if index == 2 {
            Condition::NotCarry
        } else {
            Condition::Carry
        }
    }

    #[verifier::when_used_as_spec(spec_from_index)]
    pub fn from_index(index: u8) -> (condition: Condition)
        ensures
            condition == Condition::spec_from_index(index),
    {
        if index == 0 {
            Condition::NotZero
        } else if index == 1 {
            Condition::Zero
        } else if index == 2 {
            Condition::NotCarry
        } else {
            Condition::Carry
        }
    }

    /// Whether the condition holds of the flags in `regs`.
    pub open spec fn spec_holds(self, regs: Registers) -> bool {
        match self {
            Condition::NotZero => !regs.is_flag_set(Flag::Zero),
            Condition::Zero => regs.is_flag_set(Flag::Zero),
            Condition::NotCarry => !regs.is_flag_set(Flag::Carry),
            Condition::Carry => regs.is_flag_set(Flag::Carry),
        }
    }

    #[verifier::when_used_as_spec(spec_holds)]
    pub fn holds(self, regs: Registers) -> (holds: bool)
        ensures
            holds == self.spec_holds(regs),
    {
        match self {
            Condition::NotZero => !regs.is_flag_set(Flag::Zero),
            Condition::Zero => regs.is_flag_set(Flag::Zero),
            Condition::NotCarry => !regs.is_flag_set(Flag::Carry),
            Condition::Carry => regs.is_flag_set(Flag::Carry),
        }
    }
}

/// The processor: its registers, whether it is halted, and whether an `EI`
/// is waiting to take effect.
#[derive(Clone, Copy, Debug, PartialEq, Eq, Structural)]
pub struct CPU {
    pub regs: Registers,
    pub halted: bool,
    /// Set by `EI`; the master enable follows when the next instruction is fetched.
    pub ime_pending: bool,
}

/// The address `offset` bytes into the page of memory-mapped registers.
pub open spec fn spec_high_address(offset: u8) -> u16 {
    (HIGH_PAGE + offset) as u16
}

#[verifier::when_used_as_spec(spec_high_address)]
pub fn high_address(offset: u8) -> (address: u16)
    ensures
        address == spec_high_address(offset),
{
    HIGH_PAGE + offset as u16
}

/// The address `e` bytes away from `pc`, with `e` read as a signed number,
/// modulo 65536.
pub open spec fn spec_relative(pc: u16, e: u8) -> u16 {
    ((pc + signed(e)) % 0x10000) as u16
}

#[verifier::when_used_as_spec(spec_relative)]
pub fn relative(pc: u16, e: u8) -> (target: u16)
    ensures
        target == spec_relative(pc, e),
{
    let back: u32 = if e >= 128 {
        256
    } else {
        0
    };
    ((pc as u32 + 0x10000 + e as u32 - back) % 0x10000) as u16
}

impl CPU {
    pub open spec fn spec_new() -> CPU {
        CPU { regs: Registers::spec_new(), halted: false, ime_pending: false }
    }

    /// The processor as the boot program leaves it.
    pub fn new() -> (cpu: CPU)
        ensures
            cpu == CPU::spec_new(),
            cpu.regs.wf(),
    {
        CPU { regs: Registers::new(), halted: false, ime_pending: false }
    }

    /// The processor with its registers replaced.
    pub open spec fn with_regs(self, regs: Registers) -> CPU {
        CPU { regs, ..self }
    }

    pub fn add_u8(&mut self, n: u8, use_carry: bool)
        ensures
            *final(self) == old(self).with_regs(old(self).regs.after_add(n, use_carry)),
    {
        let a: u8 = self.regs.a;
        let c: u16 = if use_carry && self.regs.is_flag_set(Flag::Carry) {
            1
        } else {
            0
        };
        let sum: u16 = a as u16 + n as u16 + c;
        let half_carry = (a % 16) as u16 + (n % 16) as u16 + c > 15;
        self.regs.a = (sum % 256) as u8;
        self.regs.set_flags(sum % 256 == 0, false, half_carry, sum > 255);
    }

    pub fn sub_u8(&mut self, n: u8, use_carry: bool)
        ensures
            *final(self) == old(self).with_regs(old(self).regs.after_sub(n, use_carry)),
    {
        let a: u8 = self.regs.a;
        let c: u16 = if use_carry && self.regs.is_flag_set(Flag::Carry) {
            1
        } else {
            0
        };
        let borrowed: u16 = 256 + a as u16 - n as u16 - c;
        let half_carry = ((a % 16) as u16) < (n % 16) as u16 + c;
        self.regs.a = (borrowed % 256) as u8;
        self.regs.set_flags(borrowed % 256 == 0, true, half_carry, (a as u16) < n as u16 + c);
    }

    pub fn and_u8(&mut self, n: u8)
        ensures
            *final(self) == old(self).with_regs(old(self).regs.after_and(n)),
    {
        let result: u8 = self.regs.a & n;
        self.regs.a = result;
        self.regs.set_flags(result == 0, false, true, false);
    }

    pub fn or_u8(&mut self, n: u8)
        ensures
            *final(self) == old(self).with_regs(old(self).regs.after_or(n)),
    {
        let result: u8 = self.regs.a | n;
        self.regs.a = result;
        self.regs.set_flags(result == 0, false, false, false);
    }

    pub fn xor_u8(&mut self, n: u8)
        ensures
            *final(self) == old(self).with_regs(old(self).regs.after_xor(n)),
    {
        let result: u8 = self.regs.a ^ n;
        self.regs.a = result;
        self.regs.set_flags(result == 0, false, false, false);
    }

    /// Compares `A` with `n`: the flags of a subtraction, with `A` left as it was.
    pub fn cp_u8(&mut self, n: u8)
        ensures
            *final(self) == old(self).with_regs(old(self).regs.after_cp(n)),
    {
        let a: u8 = self.regs.a;
        self.sub_u8(n, false);
        self.regs.a = a;
    }

    /// The eight operations of the arithmetic instructions, by their number
    /// in the encoding: `ADD`, `ADC`, `SUB`, `SBC`, `AND`, `XOR`, `OR`, `CP`.
    pub open spec fn after_alu(regs: Registers, kind: u8, n: u8) -> Registers {
        if kind == 0 {
            regs.after_add(n, false)
        } else if kind == 1 {
            regs.after_add(n, true)
        } else if kind == 2 {
            regs.after_sub(n, false)
        } else if kind == 3 {
            regs.after_sub(n, true)
        } else if kind == 4 {
            regs.after_and(n)
        } else if kind == 5 {
            regs.after_xor(n)
        } else if kind == 6 {
            regs.after_or(n)
        } else {
            regs.after_cp(n)
        }
    }

    pub fn alu(&mut self, kind: u8, n: u8)
        ensures
            *final(self) == old(self).with_regs(CPU::after_alu(old(self).regs, kind, n)),
    {
        if kind == 0 {
            self.add_u8(n, false);
        } else if kind == 1 {
            self.add_u8(n, true);
        } else if kind == 2 {
            self.sub_u8(n, false);
        } else if kind == 3 {
            self.sub_u8(n, true);
        } else if kind == 4 {
            self.and_u8(n);
        } else if kind == 5 {
            self.xor_u8(n);
        } else if kind == 6 {
            self.or_u8(n);
        } else {
            self.cp_u8(n);
        }
    }

    /// `n + 1` modulo 256, with the flags of an increment.
    pub fn inc_u8(&mut self, n: u8) -> (result: u8)
        ensures
            *final(self) == old(self).with_regs(old(self).regs.after_inc(n)),
            result as int == (n + 1) % 256,
    {
        let result: u8 = n.wrapping_add(1);
        let carry = self.regs.is_flag_set(Flag::Carry);
        self.regs.set_flags(result == 0, false, n % 16 == 15, carry);
        result
    }

    /// `n - 1` modulo 256, with the flags of a decrement.
    pub fn dec_u8(&mut self, n: u8) -> (result: u8)
        ensures
            *final(self) == old(self).with_regs(old(self).regs.after_dec(n)),
            result as int == (n - 1) % 256,
    {
        let result: u8 = n.wrapping_sub(1);
        let carry = self.regs.is_flag_set(Flag::Carry);
        self.regs.set_flags(result == 0, true, n % 16 == 0, carry);
        result
    }

    pub fn cpl(&mut self)
        ensures
            *final(self) == old(self).with_regs(old(self).regs.after_cpl()),
    {
        proof {
            lemma_shifts(self.regs.a);
        }
        let zero = self.regs.is_flag_set(Flag::Zero);
        let carry = self.regs.is_flag_set(Flag::Carry);
        self.regs.a = !self.regs.a;
        self.regs.set_flags(zero, true, true, carry);
    }

    pub fn scf(&mut self)
        ensures
            *final(self) == old(self).with_regs(old(self).regs.after_scf()),
    {
        let zero = self.regs.is_flag_set(Flag::Zero);
        self.regs.set_flags(zero, false, false, true);
    }

    pub fn ccf(&mut self)
        ensures
            *final(self) == old(self).with_regs(old(self).regs.after_ccf()),
    {
        let zero = self.regs.is_flag_set(Flag::Zero);
        let carry = self.regs.is_flag_set(Flag::Carry);
        self.regs.set_flags(zero, false, false, !carry);
    }

    /// Rotates `n` left by one bit, through the carry flag if
    /// `include_carry` holds. The carry flag takes bit 7.
    pub fn rotate_left(&mut self, n: u8, include_carry: bool, update_zero: bool) -> (result: u8)
        ensures
            result == old(self).regs.shift_result(
                if include_carry {
                    Shift::Rl
                } else {
                    Shift::Rlc
                },
                n,
            ),
            *final(self) == old(self).with_regs(
                old(self).regs.after_shift(
                    if include_carry {
                        Shift::Rl
                    } else {
                        Shift::Rlc
                    },
                    n,
                    update_zero,
                ),
            ),
    {
        proof {
            lemma_shifts(n);
        }
        let result: u8 = if include_carry {
            if self.regs.is_flag_set(Flag::Carry) {
                (n << 1u8) | 1
            } else {
                n << 1u8
            }
        } else {
            (n << 1u8) | (n >> 7u8)
        };
        self.regs.set_flags(update_zero && result == 0, false, false, n & 0x80 != 0);
        result
    }

    /// Rotates `n` right by one bit, through the carry flag if
    /// `include_carry` holds. The carry flag takes bit 0.
    pub fn rotate_right(&mut self, n: u8, include_carry: bool, update_zero: bool) -> (result: u8)
        ensures
            result == old(self).regs.shift_result(
                if include_carry {
                    Shift::Rr
                } else {
                    Shift::Rrc
                },
                n,
            ),
            *final(self) == old(self).with_regs(
                old(self).regs.after_shift(
                    if include_carry {
                        Shift::Rr
                    } else {
                        Shift::Rrc
                    },
                    n,
                    update_zero,
                ),
            ),
    {
        proof {
            lemma_shifts(n);
        }
        let result: u8 = if include_carry {
            if self.regs.is_flag_set(Flag::Carry) {
                (n >> 1u8) | 0x80
            } else {
                n >> 1u8
            }
        } else {
            (n >> 1u8) | (n << 7u8)
        };
        self.regs.set_flags(update_zero && result == 0, false, false, n & 0x01 != 0);
        result
    }

    /// Shifts `n` left by one bit. The carry flag takes bit 7.
    pub fn shift_left(&mut self, n: u8) -> (result: u8)
        ensures
            result == old(self).regs.shift_result(Shift::Sla, n),
            *final(self) == old(self).with_regs(old(self).regs.after_shift(Shift::Sla, n, true)),
    {
        proof {
            lemma_shifts(n);
        }
        let result: u8 = n << 1u8;
        self.regs.set_flags(result == 0, false, false, n & 0x80 != 0);
        result
    }

    /// Shifts `n` right by one bit; bit 7 stays as it is if `keep_bit7`
    /// holds and becomes 0 if not. The carry flag takes bit 0.
    pub fn shift_right(&mut self, n: u8, keep_bit7: bool) -> (result: u8)
        ensures
            result == old(self).regs.shift_result(
                if keep_bit7 {
                    Shift::Sra
                } else {
                    Shift::Srl
                },
                n,
            ),
            *final(self) == old(self).with_regs(
                old(self).regs.after_shift(
                    if keep_bit7 {
                        Shift::Sra
                    } else {
                        Shift::Srl
                    },
                    n,
                    true,
                ),
            ),
    {
        proof {
            lemma_shifts(n);
        }
        let result: u8 = if keep_bit7 {
            (n >> 1u8) | (n & 0x80)
        } else {
            n >> 1u8
        };
        self.regs.set_flags(result == 0, false, false, n & 0x01 != 0);
        result
    }

    /// Exchanges the nibbles of `n`.
    pub fn swap(&mut self, n: u8) -> (result: u8)
        ensures
            result == old(self).regs.shift_result(Shift::Swap, n),
            *final(self) == old(self).with_regs(old(self).regs.after_shift(Shift::Swap, n, true)),
    {
        proof {
            lemma_shifts(n);
        }
        let result: u8 = (n << 4u8) | (n >> 4u8);
        self.regs.set_flags(result == 0, false, false, false);
        result
    }

    /// One of the eight rotates and shifts of the prefixed instructions.
    pub fn shift(&mut self, shift: Shift, n: u8) -> (result: u8)
        ensures
            result == old(self).regs.shift_result(shift, n),
            *final(self) == old(self).with_regs(old(self).regs.after_shift(shift, n, true)),
    {
        match shift {
            Shift::Rlc => self.rotate_left(n, false, true),
            Shift::Rrc => self.rotate_right(n, false, true),
            Shift::Rl => self.rotate_left(n, true, true),
            Shift::Rr => self.rotate_right(n, true, true),
            Shift::Sla => self.shift_left(n),
            Shift::Sra => self.shift_right(n, true),
            Shift::Swap => self.swap(n),
            Shift::Srl => self.shift_right(n, false),
        }
    }

    /// Tests bit `bit` of `n`.
    pub fn bit(&mut self, n: u8, bit: Bit)
        ensures
            *final(self) == old(self).with_regs(old(self).regs.after_bit(n, bit)),
    {
        let carry = self.regs.is_flag_set(Flag::Carry);
        self.regs.set_flags(n & bit.mask() == 0, false, true, carry);
    }

    /// `n` with bit `bit` set.
    pub fn set(&mut self, n: u8, bit: Bit) -> (result: u8)
        ensures
            result == n | bit.mask(),
            *final(self) == *old(self),
    {
        n | bit.mask()
    }

    /// `n` with bit `bit` cleared.
    pub fn res(&mut self, n: u8, bit: Bit) -> (result: u8)
        ensures
            result == n & !bit.mask(),
            *final(self) == *old(self),
    {
        n & !bit.mask()
    }

    /// Adjusts `A` to two decimal digits after an addition or subtraction.
    pub fn daa(&mut self)
        ensures
            *final(self) == old(self).with_regs(old(self).regs.after_daa()),
    {
        let sub = self.regs.is_flag_set(Flag::Sub);
        let half_carry = self.regs.is_flag_set(Flag::HalfCarry);
        let mut carry = self.regs.is_flag_set(Flag::Carry);
        let a: u8 = self.regs.a;
        let mut adjustment: u16 = 0;
        if !sub {
            if carry || a > 0x99 {
                adjustment = adjustment + 0x60;
                carry = true;
            }
            if half_carry || a % 16 > 0x09 {
                adjustment = adjustment + 0x06;
            }
        } else {
            if carry {
                adjustment = adjustment + 0xA0;
            }
            if half_carry {
                adjustment = adjustment + 0xFA;
            }
        }
        let result: u8 = ((a as u16 + adjustment) % 256) as u8;
        self.regs.a = result;
        self.regs.set_flags(result == 0, sub, false, carry);
    }

    /// Adds `n` to `HL`.
    pub fn add_hl(&mut self, n: u16)
        ensures
            *final(self) == old(self).with_regs(old(self).regs.after_add_hl(n)),
    {
        let hl: u16 = self.regs.hl();
        let sum: u32 = hl as u32 + n as u32;
        let half_carry = (hl % 0x1000) as u32 + (n % 0x1000) as u32 > 0xFFF;
        let zero = self.regs.is_flag_set(Flag::Zero);
        self.regs.set_hl((sum % 0x10000) as u16);
        self.regs.set_flags(zero, false, half_carry, sum > 0xFFFF);
    }

    /// `SP` plus the signed byte `n`, with the flags that go with it.
    fn sp_offset(&mut self, n: u8) -> (result: u16)
        ensures
            result == old(self).regs.sp_plus(n),
            *final(self) == old(self).with_regs(old(self).regs.after_sp_offset(n)),
    {
        let sp: u16 = self.regs.sp;
        let result: u16 = relative(sp, n);
        self.regs.set_flags(
            false,
            false,
            (sp % 16) as u16 + (n % 16) as u16 > 15,
            sp % 256 + n as u16 > 255,
        );
        result
    }

    /// Loads `HL` with `SP` plus the signed byte `n`.
    pub fn ld_hl(&mut self, n: u8)
        ensures
            *final(self) == old(self).with_regs(old(self).regs.after_ld_hl(n)),
    {
        let result: u16 = self.sp_offset(n);
        self.regs.set_hl(result);
    }

    /// Adds the signed byte `n` to `SP`.
    pub fn add_sp(&mut self, n: u8)
        ensures
            *final(self) == old(self).with_regs(old(self).regs.after_add_sp(n)),
    {
        let result: u16 = self.sp_offset(n);
        self.regs.sp = result;
    }

    /// Continues at `source`.
    pub fn jump(&mut self, source: u16)
        ensures
            *final(self) == old(self).with_regs(Registers { pc: source, ..old(self).regs }),
    {
        self.regs.pc = source;
    }

    /// Continues `source` bytes further on, `source` read as a signed number.
    pub fn jump_rel(&mut self, source: u8)
        ensures
            *final(self) == old(self).with_regs(
                Registers { pc: spec_relative(old(self).regs.pc, source), ..old(self).regs },
            ),
    {
        let target: u16 = relative(self.regs.pc, source);
        self.jump(target);
    }

    /// Where a conditional jump to `source` continues.
    pub open spec fn after_jump_if(self, source: u16, condition: Condition) -> CPU {
        if condition.holds(self.regs) {
            self.with_regs(Registers { pc: source, ..self.regs })
        } else {
            self
        }
    }

    /// Continues at `source` if `condition` holds. Takes 4 machine cycles if
    /// it does and 3 if not.
    pub fn jump_if(&mut self, source: u16, condition: Condition) -> (cycles: usize)
        ensures
            *final(self) == old(self).after_jump_if(source, condition),
            cycles == if condition.holds(old(self).regs) {
                4usize
            } else {
                3usize
            },
    {
        if condition.holds(self.regs) {
            self.jump(source);
            4
        } else {
            3
        }
    }

    /// Continues `source` bytes further on if `condition` holds. Takes 3
    /// machine cycles if it does and 2 if not.
    pub fn jump_rel_if(&mut self, source: u8, condition: Condition) -> (cycles: usize)
        ensures
            *final(self) == old(self).after_jump_if(
                spec_relative(old(self).regs.pc, source),
                condition,
            ),
            cycles == if condition.holds(old(self).regs) {
                3usize
            } else {
                2usize
            },
    {
        let target: u16 = relative(self.regs.pc, source);
        self.jump_if(target, condition) - 1
    }
}


/// The processor together with everything on the bus.
pub struct Machine {
    pub cpu: CPU,
    pub bus: BusModel,
}

/// The machine after a step, and the machine cycles the step took or the
/// reason it could not be taken.
pub struct Stepped {
    pub machine: Machine,
    pub result: Result<usize, DecodeError>,
}

/// The machine made of the processor `cpu` and the devices `bus`.
pub open spec fn machine(cpu: CPU, bus: BusModel) -> Machine {
    Machine { cpu, bus }
}

/// The number of the last of the four register pairs: `SP` where registers
/// are loaded and counted, `AF` where they are pushed and popped.
pub const PAIR_LAST: u8 = 3;

impl Registers {
    /// The registers after the operation on `A` with number `which` in the
    /// encoding: `RLCA`, `RRCA`, `RLA`, `RRA`, `DAA`, `CPL`, `SCF`, `CCF`.
    /// The rotates of `A` clear the zero flag.
    pub open spec fn after_accumulator(self, which: u8) -> Registers {
        if which < 4 {
            Registers {
                a: self.shift_result(Shift::spec_from_index(which), self.a),
                ..self.after_shift(Shift::spec_from_index(which), self.a, false)
            }
        } else if which == 4 {
            self.after_daa()
        } else if which == 5 {
            self.after_cpl()
        } else if which == 6 {
            self.after_scf()
        } else {
            self.after_ccf()
        }
    }

    /// The register pair with number `index`: `BC`, `DE`, `HL`, and as the
    /// fourth `SP`.
    pub open spec fn pair(self, index: u8) -> u16 {
        if index == 0 {
            self.bc()
        } else if index == 1 {
            self.de()
        } else if index == 2 {
            self.hl()
        } else {
            self.sp
        }
    }

    /// The registers with the pair `index` set to `value`.
    pub open spec fn with_pair(self, index: u8, value: u16) -> Registers {
        if index == 0 {
            self.with_bc(value)
        } else if index == 1 {
            self.with_de(value)
        } else if index == 2 {
            self.with_hl(value)
        } else {
            Registers { sp: value, ..self }
        }
    }

    /// The register pair with number `index` as `PUSH` and `POP` count
    /// them: `BC`, `DE`, `HL`, and as the fourth `AF`.
    pub open spec fn stack_pair(self, index: u8) -> u16 {
        if index == PAIR_LAST {
            self.af()
        } else {
            self.pair(index)
        }
    }

    /// The registers with the pair `index`, counted as `POP` does, set to
    /// `value`. The low nibble of `F` stays zero.
    pub open spec fn with_stack_pair(self, index: u8, value: u16) -> Registers {
        if index == PAIR_LAST {
            self.with_af(value)
        } else {
            self.with_pair(index, value)
        }
    }
}

/// The number that stands for the byte at `(HL)` among the 8-bit operands.
pub const AT_HL: u8 = 6;

impl Machine {
    /// The machine with the registers replaced.
    pub open spec fn with_regs(self, regs: Registers) -> Machine {
        Machine { cpu: self.cpu.with_regs(regs), ..self }
    }

    /// The machine after `cycles` machine cycles were spent on an instruction.
    pub open spec fn took(self, cycles: usize) -> Stepped {
        Stepped { machine: self, result: Ok(cycles) }
    }

    /// The machine with `PC` moved one byte on, wrapping at 16 bits, and the
    /// byte that was there.
    pub open spec fn fetched(self) -> (Machine, u8) {
        (
            self.with_regs(Registers { pc: self.cpu.regs.pc.wrapping_add(1), ..self.cpu.regs }),
            self.bus.read(self.cpu.regs.pc),
        )
    }

    /// The machine with `PC` moved two bytes on, and the word that was
    /// there, low byte first.
    pub open spec fn fetched_word(self) -> (Machine, u16) {
        (
            self.fetched().0.fetched().0,
            spec_combine(self.fetched().0.fetched().1, self.fetched().1),
        )
    }

    /// The machine with `data` written to `address`.
    pub open spec fn stored(self, address: u16, data: u8) -> Machine {
        Machine { bus: self.bus.write(address, data), ..self }
    }

    /// The machine after `data` was pushed: the high byte goes to `SP - 1`,
    /// the low byte to `SP - 2`, and `SP` comes down by two.
    pub open spec fn pushed(self, data: u16) -> Machine {
        let upper = self.cpu.regs.sp.wrapping_sub(1);
        let lower = upper.wrapping_sub(1);
        self.stored(upper, spec_high(data)).stored(lower, spec_low(data)).with_regs(
            Registers { sp: lower, ..self.cpu.regs },
        )
    }

    /// The machine after a word was popped, and that word: the low byte
    /// comes from `SP`, the high byte from `SP + 1`, and `SP` goes up by two.
    pub open spec fn popped(self) -> (Machine, u16) {
        let upper = self.cpu.regs.sp.wrapping_add(1);
        (
            self.with_regs(Registers { sp: upper.wrapping_add(1), ..self.cpu.regs }),
            spec_combine(self.bus.read(upper), self.bus.read(self.cpu.regs.sp)),
        )
    }

    /// The 8-bit operand with number `index` in the encoding: `B`, `C`, `D`,
    /// `E`, `H`, `L`, the byte at `(HL)`, `A`.
    pub open spec fn r8(self, index: u8) -> u8 {
        let regs = self.cpu.regs;
        if index == 0 {
            regs.b
        } else if index == 1 {
            regs.c
        } else if index == 2 {
            regs.d
        } else if index == 3 {
            regs.e
        } else if index == 4 {
            regs.h
        } else if index == 5 {
            regs.l
        } else if index == AT_HL {
            self.bus.read(regs.hl())
        } else {
            regs.a
        }
    }

    /// The machine with the 8-bit operand `index` set to `value`.
    pub open spec fn with_r8(self, index: u8, value: u8) -> Machine {
        let regs = self.cpu.regs;
        if index == 0 {
            self.with_regs(Registers { b: value, ..regs })
        } else if index == 1 {
            self.with_regs(Registers { c: value, ..regs })
        } else if index == 2 {
            self.with_regs(Registers { d: value, ..regs })
        } else if index == 3 {
            self.with_regs(Registers { e: value, ..regs })
        } else if index == 4 {
            self.with_regs(Registers { h: value, ..regs })
        } else if index == 5 {
            self.with_regs(Registers { l: value, ..regs })
        } else if index == AT_HL {
            self.stored(regs.hl(), value)
        } else {
            self.with_regs(Registers { a: value, ..regs })
        }
    }

    /// Machine cycles of an instruction with the 8-bit operand `index`:
    /// `plain` with a register, `memory` with the byte at `(HL)`.
    pub open spec fn operand_cycles(index: u8, plain: usize, memory: usize) -> usize {
        if index == AT_HL {
            memory
        } else {
            plain
        }
    }

    /// The machine with the register pair `index` set to `value`.
    pub open spec fn with_r16(self, index: u8, value: u16) -> Machine {
        self.with_regs(self.cpu.regs.with_pair(index, value))
    }

    /// The machine with the register pair `index`, counted as `POP` does,
    /// set to `value`.
    pub open spec fn with_stack_pair(self, index: u8, value: u16) -> Machine {
        self.with_regs(self.cpu.regs.with_stack_pair(index, value))
    }

    /// The machine continuing at `target`.
    pub open spec fn jumped(self, target: u16) -> Machine {
        self.with_regs(Registers { pc: target, ..self.cpu.regs })
    }

    /// The machine after a call of `target`: `PC` is pushed and replaced.
    pub open spec fn called(self, target: u16) -> Machine {
        self.pushed(self.cpu.regs.pc).jumped(target)
    }

    /// The machine after a return: `PC` is popped.
    pub open spec fn returned(self) -> Machine {
        self.popped().0.jumped(self.popped().1)
    }

    /// The machine with the master enable of the interrupts set to `on`.
    pub open spec fn with_master_enable(self, on: bool) -> Machine {
        Machine {
            bus: BusModel {
                interrupt: InterruptHandler { master_enable: on, ..self.bus.interrupt },
                ..self.bus
            },
            ..self
        }
    }
}

impl CPU {
    /// Reads the byte at `PC` and moves `PC` on.
    pub fn next_byte(&mut self, memory: &Interconnect) -> (byte: u8)
        ensures
            (machine(*final(self), memory@), byte) == machine(*old(self), memory@).fetched(),
    {
        let byte: u8 = memory.read(self.regs.pc);
        self.regs.pc = self.regs.pc.wrapping_add(1);
        byte
    }

    /// Reads the word at `PC`, low byte first, and moves `PC` on.
    pub fn next_pointer(&mut self, memory: &Interconnect) -> (word: u16)
        ensures
            (machine(*final(self), memory@), word) == machine(*old(self), memory@).fetched_word(),
    {
        let low: u8 = self.next_byte(memory);
        let high: u8 = self.next_byte(memory);
        combine(high, low)
    }

    /// Pushes `data` on the stack.
    pub fn push(&mut self, memory: &mut Interconnect, data: u16)
        ensures
            machine(*final(self), final(memory)@) == machine(*old(self), old(memory)@).pushed(data),
    {
        self.regs.sp = self.regs.sp.wrapping_sub(1);
        memory.write(self.regs.sp, high(data));
        self.regs.sp = self.regs.sp.wrapping_sub(1);
        memory.write(self.regs.sp, low(data));
    }

    /// Pops a word off the stack.
    pub fn pop(&mut self, memory: &Interconnect) -> (word: u16)
        ensures
            (machine(*final(self), memory@), word) == machine(*old(self), memory@).popped(),
    {
        let low: u8 = memory.read(self.regs.sp);
        self.regs.sp = self.regs.sp.wrapping_add(1);
        let high: u8 = memory.read(self.regs.sp);
        self.regs.sp = self.regs.sp.wrapping_add(1);
        combine(high, low)
    }

    /// The 8-bit operand with number `index`.
    pub fn read_r8(&self, memory: &Interconnect, index: u8) -> (value: u8)
        ensures
            value == machine(*self, memory@).r8(index),
    {
        if index == 0 {
            self.regs.b
        } else if index == 1 {
            self.regs.c
        } else if index == 2 {
            self.regs.d
        } else if index == 3 {
            self.regs.e
        } else if index == 4 {
            self.regs.h
        } else if index == 5 {
            self.regs.l
        } else if index == AT_HL {
            memory.read(self.regs.hl())
        } else {
            self.regs.a
        }
    }

    /// Sets the 8-bit operand with number `index`.
    pub fn write_r8(&mut self, memory: &mut Interconnect, index: u8, value: u8)
        ensures
            machine(*final(self), final(memory)@) == machine(*old(self), old(memory)@).with_r8(
                index,
                value,
            ),
    {
        if index == 0 {
            self.regs.b = value;
        } else if index == 1 {
            self.regs.c = value;
        } else if index == 2 {
            self.regs.d = value;
        } else if index == 3 {
            self.regs.e = value;
        } else if index == 4 {
            self.regs.h = value;
        } else if index == 5 {
            self.regs.l = value;
        } else if index == AT_HL {
            memory.write(self.regs.hl(), value);
        } else {
            self.regs.a = value;
        }
    }

    /// The register pair with number `index`, `SP` being the fourth.
    pub fn read_r16(&self, index: u8) -> (value: u16)
        ensures
            value == self.regs.pair(index),
    {
        if index == 0 {
            self.regs.bc()
        } else if index == 1 {
            self.regs.de()
        } else if index == 2 {
            self.regs.hl()
        } else {
            self.regs.sp
        }
    }

    /// Sets the register pair with number `index`, `SP` being the fourth.
    pub fn write_r16(&mut self, index: u8, value: u16)
        ensures
            *final(self) == old(self).with_regs(old(self).regs.with_pair(index, value)),
    {
        if index == 0 {
            self.regs.set_bc(value);
        } else if index == 1 {
            self.regs.set_de(value);
        } else if index == 2 {
            self.regs.set_hl(value);
        } else {
            self.regs.sp = value;
        }
    }

    /// The register pair with number `index`, `AF` being the fourth.
    pub fn read_stack_pair(&self, index: u8) -> (value: u16)
        ensures
            value == self.regs.stack_pair(index),
    {
        if index == PAIR_LAST {
            self.regs.af()
        } else {
            self.read_r16(index)
        }
    }

    /// Sets the register pair with number `index`, `AF` being the fourth.
    pub fn write_stack_pair(&mut self, index: u8, value: u16)
        ensures
            *final(self) == old(self).with_regs(old(self).regs.with_stack_pair(index, value)),
    {
        if index == PAIR_LAST {
            self.regs.set_af(value);
        } else {
            self.write_r16(index, value);
        }
    }

    /// Calls `source`: pushes `PC` and continues there.
    pub fn call(&mut self, memory: &mut Interconnect, source: u16)
        ensures
            machine(*final(self), final(memory)@) == machine(*old(self), old(memory)@).called(
                source,
            ),
    {
        let pc: u16 = self.regs.pc;
        self.push(memory, pc);
        self.regs.pc = source;
    }

    /// Calls `source` if `condition` holds. Takes 6 machine cycles if it
    /// does and 3 if not.
    pub fn call_if(&mut self, memory: &mut Interconnect, source: u16, condition: Condition) -> (cycles:
        usize)
        ensures
            machine(*final(self), final(memory)@) == if condition.holds(old(self).regs) {
                machine(*old(self), old(memory)@).called(source)
            } else {
                machine(*old(self), old(memory)@)
            },
            cycles == if condition.holds(old(self).regs) {
                6usize
            } else {
                3usize
            },
    {
        if condition.holds(self.regs) {
            self.call(memory, source);
            6
        } else {
            3
        }
    }

    /// Returns: pops `PC`.
    pub fn ret(&mut self, memory: &Interconnect)
        ensures
            machine(*final(self), memory@) == machine(*old(self), memory@).returned(),
    {
        let pc: u16 = self.pop(memory);
        self.regs.pc = pc;
    }

    /// Returns if `condition` holds. Takes 5 machine cycles if it does and
    /// 2 if not.
    pub fn ret_if(&mut self, memory: &Interconnect, condition: Condition) -> (cycles: usize)
        ensures
            machine(*final(self), memory@) == if condition.holds(old(self).regs) {
                machine(*old(self), memory@).returned()
            } else {
                machine(*old(self), memory@)
            },
            cycles == if condition.holds(old(self).regs) {
                5usize
            } else {
                2usize
            },
    {
        if condition.holds(self.regs) {
            self.ret(memory);
            5
        } else {
            2
        }
    }

    /// Calls one of the eight fixed entry points in the first page.
    pub fn rst(&mut self, memory: &mut Interconnect, vector: u8)
        ensures
            machine(*final(self), final(memory)@) == machine(*old(self), old(memory)@).called(
                vector as u16,
            ),
    {
        self.call(memory, vector as u16);
    }
}


impl Machine {
    /// What an opcode from `0x40` to `0x7F` does: `LD r, r'`, but for
    /// `0x76`, which is `HALT`.
    pub open spec fn block_load(self, opcode: u8) -> Stepped {
        let target = ((opcode - 0x40) / 8) as u8;
        let source = opcode % 8;
        if opcode == 0x76 {
            (Machine { cpu: CPU { halted: true, ..self.cpu }, ..self }).took(1)
        } else {
            self.with_r8(target, self.r8(source)).took(
                if target == AT_HL || source == AT_HL {
                    2
                } else {
                    1
                },
            )
        }
    }

    /// What an opcode from `0x80` to `0xBF` does: one of the eight
    /// arithmetic operations on `A` and an 8-bit operand.
    pub open spec fn block_alu(self, opcode: u8) -> Stepped {
        let kind = ((opcode - 0x80) / 8) as u8;
        let source = opcode % 8;
        self.with_regs(CPU::after_alu(self.cpu.regs, kind, self.r8(source))).took(
            Machine::operand_cycles(source, 1, 2),
        )
    }

    /// `NOP`, `LD (nn), SP`, `STOP`, `JR e` and `JR cc, e`. `STOP` skips the
    /// byte after it and does nothing else: the low-power state is not modelled.
    pub open spec fn column_control(self, opcode: u8) -> Stepped {
        if opcode == 0x00 {
            self.took(1)
        } else if opcode == 0x08 {
            let at = self.fetched_word();
            at.0.stored(at.1, spec_low(self.cpu.regs.sp)).stored(
                at.1.wrapping_add(1),
                spec_high(self.cpu.regs.sp),
            ).took(5)
        } else if opcode == 0x10 {
            self.fetched().0.took(1)
        } else if opcode == 0x18 {
            let e = self.fetched();
            e.0.jumped(spec_relative(e.0.cpu.regs.pc, e.1)).took(3)
        } else {
            let e = self.fetched();
            if Condition::spec_from_index(((opcode - 0x20) / 8) as u8).holds(self.cpu.regs) {
                e.0.jumped(spec_relative(e.0.cpu.regs.pc, e.1)).took(3)
            } else {
                e.0.took(2)
            }
        }
    }

    /// `LD rr, nn` and `ADD HL, rr`.
    pub open spec fn column_pair(self, opcode: u8) -> Stepped {
        let pair = opcode / 16;
        if opcode % 16 == 1 {
            let nn = self.fetched_word();
            nn.0.with_r16(pair, nn.1).took(3)
        } else {
            self.with_regs(self.cpu.regs.after_add_hl(self.cpu.regs.pair(pair))).took(2)
        }
    }

    /// The address that the loads between `A` and memory use with pair
    /// number `pair`: `BC`, `DE`, and twice `HL`.
    pub open spec fn indirect_address(self, pair: u8) -> u16 {
        if pair == 0 {
            self.cpu.regs.bc()
        } else if pair == 1 {
            self.cpu.regs.de()
        } else {
            self.cpu.regs.hl()
        }
    }

    /// The machine after such a load: with pair number 2 `HL` has gone up
    /// by one, with pair number 3 it has come down by one.
    pub open spec fn indirect_done(self, pair: u8) -> Machine {
        if pair == 2 {
            self.with_regs(self.cpu.regs.with_hl(self.cpu.regs.hl().wrapping_add(1)))
        } else if pair == 3 {
            self.with_regs(self.cpu.regs.with_hl(self.cpu.regs.hl().wrapping_sub(1)))
        } else {
            self
        }
    }

    /// `LD (rr), A` and `LD A, (rr)`, with `HL` counted up or down after it
    /// in the forms that say so.
    pub open spec fn column_indirect(self, opcode: u8) -> Stepped {
        let pair = opcode / 16;
        let address = self.indirect_address(pair);
        if opcode % 16 == 2 {
            self.stored(address, self.cpu.regs.a).indirect_done(pair).took(2)
        } else {
            self.with_regs(
                Registers { a: self.bus.read(address), ..self.cpu.regs },
            ).indirect_done(pair).took(2)
        }
    }

    /// `INC rr` and `DEC rr`, which change no flag.
    pub open spec fn column_count(self, opcode: u8) -> Stepped {
        let pair = opcode / 16;
        if opcode % 16 == 3 {
            self.with_r16(pair, self.cpu.regs.pair(pair).wrapping_add(1)).took(2)
        } else {
            self.with_r16(pair, self.cpu.regs.pair(pair).wrapping_sub(1)).took(2)
        }
    }

    /// `INC r`.
    pub open spec fn column_inc(self, opcode: u8) -> Stepped {
        let target = opcode / 8;
        let n = self.r8(target);
        self.with_regs(self.cpu.regs.after_inc(n)).with_r8(target, n.wrapping_add(1)).took(
            Machine::operand_cycles(target, 1, 3),
        )
    }

    /// `DEC r`.
    pub open spec fn column_dec(self, opcode: u8) -> Stepped {
        let target = opcode / 8;
        let n = self.r8(target);
        self.with_regs(self.cpu.regs.after_dec(n)).with_r8(target, n.wrapping_sub(1)).took(
            Machine::operand_cycles(target, 1, 3),
        )
    }

    /// `LD r, n`.
    pub open spec fn column_immediate(self, opcode: u8) -> Stepped {
        let target = opcode / 8;
        let n = self.fetched();
        n.0.with_r8(target, n.1).took(Machine::operand_cycles(target, 2, 3))
    }

    /// `RLCA`, `RRCA`, `RLA`, `RRA`, `DAA`, `CPL`, `SCF` and `CCF`.
    pub open spec fn column_accumulator(self, opcode: u8) -> Stepped {
        self.with_regs(self.cpu.regs.after_accumulator(opcode / 8)).took(1)
    }

    /// What an opcode below `0x40` does.
    pub open spec fn block_misc(self, opcode: u8) -> Stepped {
        let column = opcode % 8;
        if column == 0 {
            self.column_control(opcode)
        } else if column == 1 {
            self.column_pair(opcode)
        } else if column == 2 {
            self.column_indirect(opcode)
        } else if column == 3 {
            self.column_count(opcode)
        } else if column == 4 {
            self.column_inc(opcode)
        } else if column == 5 {
            self.column_dec(opcode)
        } else if column == 6 {
            self.column_immediate(opcode)
        } else {
            self.column_accumulator(opcode)
        }
    }

    /// What an opcode after the prefix `0xCB` does: a rotate or shift, `BIT`,
    /// `RES` or `SET`, on an 8-bit operand.
    pub open spec fn prefixed(self, opcode: u8) -> Stepped {
        let operand = opcode % 8;
        let group = opcode / 64;
        let index = (opcode / 8) % 8;
        let n = self.r8(operand);
        if group == 0 {
            let shift = Shift::spec_from_index(index);
            self.with_regs(self.cpu.regs.after_shift(shift, n, true)).with_r8(
                operand,
                self.cpu.regs.shift_result(shift, n),
            ).took(Machine::operand_cycles(operand, 2, 4))
        } else if group == 1 {
            self.with_regs(self.cpu.regs.after_bit(n, Bit::spec_from_index(index))).took(
                Machine::operand_cycles(operand, 2, 3),
            )
        } else if group == 2 {
            self.with_r8(operand, n & !Bit::spec_from_index(index).mask()).took(
                Machine::operand_cycles(operand, 2, 4),
            )
        } else {
            self.with_r8(operand, n | Bit::spec_from_index(index).mask()).took(
                Machine::operand_cycles(operand, 2, 4),
            )
        }
    }

    /// The step that found `opcode` at `at` and knows no instruction for it.
    pub open spec fn refused(self, opcode: u8, at: u16) -> Stepped {
        Stepped { machine: self, result: Err(DecodeError { opcode, pc: at }) }
    }

    /// `RET cc`, the loads between `A` and the register page by immediate
    /// offset, `ADD SP, e` and `LD HL, SP+e`.
    pub open spec fn column_return(self, opcode: u8) -> Stepped {
        if opcode < 0xE0 {
            if Condition::spec_from_index(((opcode - 0xC0) / 8) as u8).holds(self.cpu.regs) {
                self.returned().took(5)
            } else {
                self.took(2)
            }
        } else {
            let n = self.fetched();
            let regs = n.0.cpu.regs;
            if opcode == 0xE0 {
                n.0.stored(spec_high_address(n.1), regs.a).took(3)
            } else if opcode == 0xE8 {
                n.0.with_regs(regs.after_add_sp(n.1)).took(4)
            } else if opcode == 0xF0 {
                n.0.with_regs(
                    Registers { a: n.0.bus.read(spec_high_address(n.1)), ..regs },
                ).took(3)
            } else {
                n.0.with_regs(regs.after_ld_hl(n.1)).took(3)
            }
        }
    }

    /// `POP rr`, `RET`, `RETI`, `JP (HL)` and `LD SP, HL`. `RETI` returns and
    /// sets the master enable at once.
    pub open spec fn column_pop(self, opcode: u8) -> Stepped {
        if opcode % 16 == 1 {
            self.popped().0.with_stack_pair(((opcode - 0xC1) / 16) as u8, self.popped().1).took(3)
        } else if opcode == 0xC9 {
            self.returned().took(4)
        } else if opcode == 0xD9 {
            self.returned().with_master_enable(true).took(4)
        } else if opcode == 0xE9 {
            self.jumped(self.cpu.regs.hl()).took(1)
        } else {
            self.with_regs(Registers { sp: self.cpu.regs.hl(), ..self.cpu.regs }).took(2)
        }
    }

    /// `JP cc, nn` and the loads between `A` and memory at `0xFF00 + C` or
    /// at an immediate address.
    pub open spec fn column_jump(self, opcode: u8) -> Stepped {
        let regs = self.cpu.regs;
        if opcode < 0xE0 {
            let nn = self.fetched_word();
            if Condition::spec_from_index(((opcode - 0xC2) / 8) as u8).holds(regs) {
                nn.0.jumped(nn.1).took(4)
            } else {
                nn.0.took(3)
            }
        } else if opcode == 0xE2 {
            self.stored(spec_high_address(regs.c), regs.a).took(2)
        } else if opcode == 0xEA {
            let nn = self.fetched_word();
            nn.0.stored(nn.1, regs.a).took(4)
        } else if opcode == 0xF2 {
            self.with_regs(Registers { a: self.bus.read(spec_high_address(regs.c)), ..regs }).took(
                2,
            )
        } else {
            let nn = self.fetched_word();
            nn.0.with_regs(Registers { a: nn.0.bus.read(nn.1), ..nn.0.cpu.regs }).took(4)
        }
    }

    /// `JP nn`, the prefix `0xCB`, `DI` and `EI`. `DI` clears the master
    /// enable at once; after `EI` it is set when the next instruction has
    /// been fetched.
    pub open spec fn column_system(self, opcode: u8, at: u16) -> Stepped {
        if opcode == 0xC3 {
            let nn = self.fetched_word();
            nn.0.jumped(nn.1).took(4)
        } else if opcode == 0xCB {
            let second = self.fetched();
            second.0.prefixed(second.1)
        } else if opcode == 0xF3 {
            (Machine {
                cpu: CPU { ime_pending: false, ..self.cpu },
                ..self.with_master_enable(false)
            }).took(1)
        } else if opcode == 0xFB {
            (Machine { cpu: CPU { ime_pending: true, ..self.cpu }, ..self }).took(1)
        } else {
            self.refused(opcode, at)
        }
    }

    /// `CALL cc, nn`.
    pub open spec fn column_call_if(self, opcode: u8, at: u16) -> Stepped {
        if opcode < 0xE0 {
            let nn = self.fetched_word();
            if Condition::spec_from_index(((opcode - 0xC4) / 8) as u8).holds(self.cpu.regs) {
                nn.0.called(nn.1).took(6)
            } else {
                nn.0.took(3)
            }
        } else {
            self.refused(opcode, at)
        }
    }

    /// `PUSH rr` and `CALL nn`.
    pub open spec fn column_push(self, opcode: u8, at: u16) -> Stepped {
        if opcode % 16 == 5 {
            self.pushed(self.cpu.regs.stack_pair(((opcode - 0xC5) / 16) as u8)).took(4)
        } else if opcode == 0xCD {
            let nn = self.fetched_word();
            nn.0.called(nn.1).took(6)
        } else {
            self.refused(opcode, at)
        }
    }

    /// What an opcode from `0xC0` on does.
    pub open spec fn block_flow(self, opcode: u8, at: u16) -> Stepped {
        let column = opcode % 8;
        if column == 0 {
            self.column_return(opcode)
        } else if column == 1 {
            self.column_pop(opcode)
        } else if column == 2 {
            self.column_jump(opcode)
        } else if column == 3 {
            self.column_system(opcode, at)
        } else if column == 4 {
            self.column_call_if(opcode, at)
        } else if column == 5 {
            self.column_push(opcode, at)
        } else if column == 6 {
            let n = self.fetched();
            n.0.with_regs(
                CPU::after_alu(n.0.cpu.regs, ((opcode - 0xC0) / 8) as u8, n.1),
            ).took(2)
        } else {
            self.called((opcode - 0xC7) as u16).took(4)
        }
    }

    /// What the instruction with the opcode `opcode`, fetched at `at`, does.
    #[verifier::opaque]
    pub open spec fn executed(self, opcode: u8, at: u16) -> Stepped {
        if opcode < 0x40 {
            self.block_misc(opcode)
        } else if opcode < 0x80 {
            self.block_load(opcode)
        } else if opcode < 0xC0 {
            self.block_alu(opcode)
        } else {
            self.block_flow(opcode, at)
        }
    }

    /// The machine with a halted processor woken, if an interrupt is both
    /// enabled and requested; the master enable does not matter for that.
    pub open spec fn woken(self) -> Machine {
        if self.cpu.halted && self.bus.interrupt.spec_pending() is Some {
            Machine { cpu: CPU { halted: false, ..self.cpu }, ..self }
        } else {
            self
        }
    }

    /// Whether the step enters an interrupt: the master enable is set and
    /// an interrupt is both enabled and requested.
    pub open spec fn interrupted(self) -> bool {
        self.bus.interrupt.next_vector() is Some
    }

    /// The machine after the interrupt of highest priority was entered: the
    /// master enable is cleared, the request withdrawn, `PC` pushed and
    /// replaced by the entry point.
    pub open spec fn serviced(self) -> Machine {
        (Machine {
            bus: BusModel { interrupt: self.bus.interrupt.after_execute_next(), ..self.bus },
            ..self.woken()
        }).called(self.bus.interrupt.next_vector()->Some_0.address())
    }

    /// The machine with the master enable set if an `EI` was waiting.
    pub open spec fn enabled_late(self) -> Machine {
        if self.cpu.ime_pending {
            (Machine { cpu: CPU { ime_pending: false, ..self.cpu }, ..self }).with_master_enable(
                true,
            )
        } else {
            self
        }
    }

    /// One step of the machine: enter an interrupt, or stay halted, or fetch
    /// and execute one instruction.
    #[verifier::opaque]
    pub open spec fn step(self) -> Stepped {
        if self.interrupted() {
            self.serviced().took(INTERRUPT_CYCLES)
        } else if self.woken().cpu.halted {
            self.woken().took(HALT_CYCLES)
        } else {
            self.woken().fetched().0.enabled_late().executed(
                self.woken().fetched().1,
                self.cpu.regs.pc,
            )
        }
    }
}


/// The outcome of a step that left the processor as `cpu` and the devices
/// as `bus`.
pub open spec fn stepped(cpu: CPU, bus: BusModel, result: Result<usize, DecodeError>) -> Stepped {
    Stepped { machine: machine(cpu, bus), result }
}

/// Machine cycles of an instruction with the 8-bit operand `index`.
fn operand_cycles(index: u8, plain: usize, memory: usize) -> (cycles: usize)
    ensures
        cycles == Machine::operand_cycles(index, plain, memory),
{
    if index == AT_HL {
        memory
    } else {
        plain
    }
}

impl CPU {
    fn block_load(&mut self, memory: &mut Interconnect, opcode: u8) -> (cycles: usize)
        requires
            0x40 <= opcode < 0x80,
        ensures
            stepped(*final(self), final(memory)@, Ok(cycles)) == machine(
                *old(self),
                old(memory)@,
            ).block_load(opcode),
    {
        let target: u8 = (opcode - 0x40) / 8;
        let source: u8 = opcode % 8;
        if opcode == 0x76 {
            self.halted = true;
            1
        } else {
            let value: u8 = self.read_r8(memory, source);
            self.write_r8(memory, target, value);
            if target == AT_HL || source == AT_HL {
                2
            } else {
                1
            }
        }
    }

    fn block_alu(&mut self, memory: &mut Interconnect, opcode: u8) -> (cycles: usize)
        requires
            0x80 <= opcode < 0xC0,
        ensures
            stepped(*final(self), final(memory)@, Ok(cycles)) == machine(
                *old(self),
                old(memory)@,
            ).block_alu(opcode),
    {
        let kind: u8 = (opcode - 0x80) / 8;
        let source: u8 = opcode % 8;
        let value: u8 = self.read_r8(memory, source);
        self.alu(kind, value);
        operand_cycles(source, 1, 2)
    }

    fn column_control(&mut self, memory: &mut Interconnect, opcode: u8) -> (cycles: usize)
        requires
            opcode < 0x40,
            opcode % 8 == 0,
        ensures
            stepped(*final(self), final(memory)@, Ok(cycles)) == machine(
                *old(self),
                old(memory)@,
            ).column_control(opcode),
    {
        if opcode == 0x00 {
            1
        } else if opcode == 0x08 {
            let sp: u16 = self.regs.sp;
            let nn: u16 = self.next_pointer(memory);
            memory.write(nn, low(sp));
            memory.write(nn.wrapping_add(1), high(sp));
            5
        } else if opcode == 0x10 {
            let _ = self.next_byte(memory);
            1
        } else if opcode == 0x18 {
            let e: u8 = self.next_byte(memory);
            self.jump_rel(e);
            3
        } else {
            let e: u8 = self.next_byte(memory);
            self.jump_rel_if(e, Condition::from_index((opcode - 0x20) / 8))
        }
    }

    fn column_pair(&mut self, memory: &mut Interconnect, opcode: u8) -> (cycles: usize)
        requires
            opcode < 0x40,
            opcode % 8 == 1,
        ensures
            stepped(*final(self), final(memory)@, Ok(cycles)) == machine(
                *old(self),
                old(memory)@,
            ).column_pair(opcode),
    {
        let pair: u8 = opcode / 16;
        if opcode % 16 == 1 {
            let nn: u16 = self.next_pointer(memory);
            self.write_r16(pair, nn);
            3
        } else {
            let value: u16 = self.read_r16(pair);
            self.add_hl(value);
            2
        }
    }

    fn column_indirect(&mut self, memory: &mut Interconnect, opcode: u8) -> (cycles: usize)
        requires
            opcode < 0x40,
            opcode % 8 == 2,
        ensures
            stepped(*final(self), final(memory)@, Ok(cycles)) == machine(
                *old(self),
                old(memory)@,
            ).column_indirect(opcode),
    {
        let pair: u8 = opcode / 16;
        let address: u16 = if pair == 0 {
            self.regs.bc()
        } else if pair == 1 {
            self.regs.de()
        } else {
            self.regs.hl()
        };
        if opcode % 16 == 2 {
            memory.write(address, self.regs.a);
        } else {
            self.regs.a = memory.read(address);
        }
        if pair == 2 {
            self.regs.hli();
        } else if pair == 3 {
            self.regs.hld();
        }
        2
    }

    fn column_count(&mut self, memory: &mut Interconnect, opcode: u8) -> (cycles: usize)
        requires
            opcode < 0x40,
            opcode % 8 == 3,
        ensures
            stepped(*final(self), final(memory)@, Ok(cycles)) == machine(
                *old(self),
                old(memory)@,
            ).column_count(opcode),
    {
        let pair: u8 = opcode / 16;
        let value: u16 = self.read_r16(pair);
        if opcode % 16 == 3 {
            self.write_r16(pair, value.wrapping_add(1));
        } else {
            self.write_r16(pair, value.wrapping_sub(1));
        }
        2
    }

    fn column_inc(&mut self, memory: &mut Interconnect, opcode: u8) -> (cycles: usize)
        requires
            opcode < 0x40,
            opcode % 8 == 4,
        ensures
            stepped(*final(self), final(memory)@, Ok(cycles)) == machine(
                *old(self),
                old(memory)@,
            ).column_inc(opcode),
    {
        let target: u8 = opcode / 8;
        let n: u8 = self.read_r8(memory, target);
        let result: u8 = self.inc_u8(n);
        self.write_r8(memory, target, result);
        operand_cycles(target, 1, 3)
    }

    fn column_dec(&mut self, memory: &mut Interconnect, opcode: u8) -> (cycles: usize)
        requires
            opcode < 0x40,
            opcode % 8 == 5,
        ensures
            stepped(*final(self), final(memory)@, Ok(cycles)) == machine(
                *old(self),
                old(memory)@,
            ).column_dec(opcode),
    {
        let target: u8 = opcode / 8;
        let n: u8 = self.read_r8(memory, target);
        let result: u8 = self.dec_u8(n);
        self.write_r8(memory, target, result);
        operand_cycles(target, 1, 3)
    }

    fn column_immediate(&mut self, memory: &mut Interconnect, opcode: u8) -> (cycles: usize)
        requires
            opcode < 0x40,
            opcode % 8 == 6,
        ensures
            stepped(*final(self), final(memory)@, Ok(cycles)) == machine(
                *old(self),
                old(memory)@,
            ).column_immediate(opcode),
    {
        let target: u8 = opcode / 8;
        let n: u8 = self.next_byte(memory);
        self.write_r8(memory, target, n);
        operand_cycles(target, 2, 3)
    }

    fn column_accumulator(&mut self, opcode: u8) -> (cycles: usize)
        requires
            opcode < 0x40,
            opcode % 8 == 7,
        ensures
            *final(self) == old(self).with_regs(old(self).regs.after_accumulator(opcode / 8)),
            cycles == 1,
    {
        let which: u8 = opcode / 8;
        let a: u8 = self.regs.a;
        if which == 0 {
            self.regs.a = self.rotate_left(a, false, false);
        } else if which == 1 {
            self.regs.a = self.rotate_right(a, false, false);
        } else if which == 2 {
            self.regs.a = self.rotate_left(a, true, false);
        } else if which == 3 {
            self.regs.a = self.rotate_right(a, true, false);
        } else if which == 4 {
            self.daa();
        } else if which == 5 {
            self.cpl();
        } else if which == 6 {
            self.scf();
        } else {
            self.ccf();
        }
        1
    }

    fn block_misc(&mut self, memory: &mut Interconnect, opcode: u8) -> (cycles: usize)
        requires
            opcode < 0x40,
        ensures
            stepped(*final(self), final(memory)@, Ok(cycles)) == machine(
                *old(self),
                old(memory)@,
            ).block_misc(opcode),
    {
        let column: u8 = opcode % 8;
        if column == 0 {
            self.column_control(memory, opcode)
        } else if column == 1 {
            self.column_pair(memory, opcode)
        } else if column == 2 {
            self.column_indirect(memory, opcode)
        } else if column == 3 {
            self.column_count(memory, opcode)
        } else if column == 4 {
            self.column_inc(memory, opcode)
        } else if column == 5 {
            self.column_dec(memory, opcode)
        } else if column == 6 {
            self.column_immediate(memory, opcode)
        } else {
            self.column_accumulator(opcode)
        }
    }

    /// Executes the instruction that follows the prefix `0xCB` and gives
    /// the machine cycles it took.
    pub fn sub_op(&mut self, memory: &mut Interconnect) -> (cycles: usize)
        ensures
            stepped(*final(self), final(memory)@, Ok(cycles)) == machine(
                *old(self),
                old(memory)@,
            ).fetched().0.prefixed(machine(*old(self), old(memory)@).fetched().1),
            2 <= cycles <= 4,
    {
        let opcode: u8 = self.next_byte(memory);
        let operand: u8 = opcode % 8;
        let group: u8 = opcode / 64;
        let index: u8 = (opcode / 8) % 8;
        let n: u8 = self.read_r8(memory, operand);
        if group == 0 {
            let result: u8 = self.shift(Shift::from_index(index), n);
            self.write_r8(memory, operand, result);
            operand_cycles(operand, 2, 4)
        } else if group == 1 {
            self.bit(n, Bit::from_index(index));
            operand_cycles(operand, 2, 3)
        } else if group == 2 {
            let result: u8 = self.res(n, Bit::from_index(index));
            self.write_r8(memory, operand, result);
            operand_cycles(operand, 2, 4)
        } else {
            let result: u8 = self.set(n, Bit::from_index(index));
            self.write_r8(memory, operand, result);
            operand_cycles(operand, 2, 4)
        }
    }

    fn column_return(&mut self, memory: &mut Interconnect, opcode: u8) -> (cycles: usize)
        requires
            opcode >= 0xC0,
            opcode % 8 == 0,
        ensures
            stepped(*final(self), final(memory)@, Ok(cycles)) == machine(
                *old(self),
                old(memory)@,
            ).column_return(opcode),
    {
        if opcode < 0xE0 {
            self.ret_if(memory, Condition::from_index((opcode - 0xC0) / 8))
        } else {
            let n: u8 = self.next_byte(memory);
            if opcode == 0xE0 {
                memory.write(high_address(n), self.regs.a);
                3
            } else if opcode == 0xE8 {
                self.add_sp(n);
                4
            } else if opcode == 0xF0 {
                self.regs.a = memory.read(high_address(n));
                3
            } else {
                self.ld_hl(n);
                3
            }
        }
    }

    fn column_pop(&mut self, memory: &mut Interconnect, opcode: u8) -> (cycles: usize)
        requires
            opcode >= 0xC0,
            opcode % 8 == 1,
        ensures
            stepped(*final(self), final(memory)@, Ok(cycles)) == machine(
                *old(self),
                old(memory)@,
            ).column_pop(opcode),
    {
        if opcode % 16 == 1 {
            let value: u16 = self.pop(memory);
            self.write_stack_pair((opcode - 0xC1) / 16, value);
            3
        } else if opcode == 0xC9 {
            self.ret(memory);
            4
        } else if opcode == 0xD9 {
            self.ret(memory);
            memory.interrupt.enable();
            4
        } else if opcode == 0xE9 {
            let hl: u16 = self.regs.hl();
            self.jump(hl);
            1
        } else {
            self.regs.sp = self.regs.hl();
            2
        }
    }

    fn column_jump(&mut self, memory: &mut Interconnect, opcode: u8) -> (cycles: usize)
        requires
            opcode >= 0xC0,
            opcode % 8 == 2,
        ensures
            stepped(*final(self), final(memory)@, Ok(cycles)) == machine(
                *old(self),
                old(memory)@,
            ).column_jump(opcode),
    {
        if opcode < 0xE0 {
            let nn: u16 = self.next_pointer(memory);
            self.jump_if(nn, Condition::from_index((opcode - 0xC2) / 8))
        } else if opcode == 0xE2 {
            memory.write(high_address(self.regs.c), self.regs.a);
            2
        } else if opcode == 0xEA {
            let nn: u16 = self.next_pointer(memory);
            memory.write(nn, self.regs.a);
            4
        } else if opcode == 0xF2 {
            self.regs.a = memory.read(high_address(self.regs.c));
            2
        } else {
            let nn: u16 = self.next_pointer(memory);
            self.regs.a = memory.read(nn);
            4
        }
    }

    fn column_system(&mut self, memory: &mut Interconnect, opcode: u8, at: u16) -> (result: Result<
        usize,
        DecodeError,
    >)
        requires
            opcode >= 0xC0,
            opcode % 8 == 3,
        ensures
            stepped(*final(self), final(memory)@, result) == machine(
                *old(self),
                old(memory)@,
            ).column_system(opcode, at),
    {
        if opcode == 0xC3 {
            let nn: u16 = self.next_pointer(memory);
            self.jump(nn);
            Ok(4)
        } else if opcode == 0xCB {
            Ok(self.sub_op(memory))
        } else if opcode == 0xF3 {
            memory.interrupt.disable();
            self.ime_pending = false;
            Ok(1)
        } else if opcode == 0xFB {
            self.ime_pending = true;
            Ok(1)
        } else {
            Err(DecodeError { opcode, pc: at })
        }
    }

    fn column_call_if(&mut self, memory: &mut Interconnect, opcode: u8, at: u16) -> (result: Result<
        usize,
        DecodeError,
    >)
        requires
            opcode >= 0xC0,
            opcode % 8 == 4,
        ensures
            stepped(*final(self), final(memory)@, result) == machine(
                *old(self),
                old(memory)@,
            ).column_call_if(opcode, at),
    {
        if opcode < 0xE0 {
            let condition = Condition::from_index((opcode - 0xC4) / 8);
            let nn: u16 = self.next_pointer(memory);
            Ok(self.call_if(memory, nn, condition))
        } else {
            Err(DecodeError { opcode, pc: at })
        }
    }

    fn column_push(&mut self, memory: &mut Interconnect, opcode: u8, at: u16) -> (result: Result<
        usize,
        DecodeError,
    >)
        requires
            opcode >= 0xC0,
            opcode % 8 == 5,
        ensures
            stepped(*final(self), final(memory)@, result) == machine(
                *old(self),
                old(memory)@,
            ).column_push(opcode, at),
    {
        if opcode % 16 == 5 {
            let value: u16 = self.read_stack_pair((opcode - 0xC5) / 16);
            self.push(memory, value);
            Ok(4)
        } else if opcode == 0xCD {
            let nn: u16 = self.next_pointer(memory);
            self.call(memory, nn);
            Ok(6)
        } else {
            Err(DecodeError { opcode, pc: at })
        }
    }

    fn block_flow(&mut self, memory: &mut Interconnect, opcode: u8, at: u16) -> (result: Result<
        usize,
        DecodeError,
    >)
        requires
            opcode >= 0xC0,
        ensures
            stepped(*final(self), final(memory)@, result) == machine(
                *old(self),
                old(memory)@,
            ).block_flow(opcode, at),
    {
        let column: u8 = opcode % 8;
        if column == 0 {
            Ok(self.column_return(memory, opcode))
        } else if column == 1 {
            Ok(self.column_pop(memory, opcode))
        } else if column == 2 {
            Ok(self.column_jump(memory, opcode))
        } else if column == 3 {
            self.column_system(memory, opcode, at)
        } else if column == 4 {
            self.column_call_if(memory, opcode, at)
        } else if column == 5 {
            self.column_push(memory, opcode, at)
        } else if column == 6 {
            let n: u8 = self.next_byte(memory);
            self.alu((opcode - 0xC0) / 8, n);
            Ok(2)
        } else {
            self.rst(memory, opcode - 0xC7);
            Ok(4)
        }
    }

    /// Executes the instruction with the opcode `opcode`, which was fetched
    /// at `at`.
    pub fn execute(&mut self, memory: &mut Interconnect, opcode: u8, at: u16) -> (result: Result<
        usize,
        DecodeError,
    >)
        ensures
            stepped(*final(self), final(memory)@, result) == machine(
                *old(self),
                old(memory)@,
            ).executed(opcode, at),
    {
        reveal(Machine::executed);
        if opcode < 0x40 {
            Ok(self.block_misc(memory, opcode))
        } else if opcode < 0x80 {
            Ok(self.block_load(memory, opcode))
        } else if opcode < 0xC0 {
            Ok(self.block_alu(memory, opcode))
        } else {
            self.block_flow(memory, opcode, at)
        }
    }

    /// Wakes a halted processor if an interrupt is both enabled and
    /// requested, and enters the interrupt of highest priority if the
    /// master enable is set. Says whether it entered one.
    pub fn handle_interrupts(&mut self, memory: &mut Interconnect) -> (entered: bool)
        ensures
            entered == machine(*old(self), old(memory)@).interrupted(),
            machine(*final(self), final(memory)@) == if entered {
                machine(*old(self), old(memory)@).serviced()
            } else {
                machine(*old(self), old(memory)@).woken()
            },
    {
        if self.halted && memory.interrupt.pending().is_some() {
            self.halted = false;
        }
        match memory.interrupt.execute_next() {
            Some(vector) => {
                self.call(memory, vector.address());
                true
            },
            None => false,
        }
    }

    /// Performs one step: enters an interrupt, or stays halted, or fetches
    /// and executes one instruction. Gives the machine cycles the step took,
    /// or the opcode that stands for no instruction and where it was found.
    pub fn step(&mut self, memory: &mut Interconnect) -> (result: Result<usize, DecodeError>)
        ensures
            stepped(*final(self), final(memory)@, result) == machine(*old(self), old(memory)@).step(),
            result matches Ok(cycles) ==> 1 <= cycles <= 6,
            old(self).regs.wf() ==> final(self).regs.wf(),
    {
        proof {
            reveal(Machine::step);
            lemma_step_bounds(machine(*self, memory@));
        }
        if self.handle_interrupts(memory) {
            return Ok(INTERRUPT_CYCLES);
        }
        if self.halted {
            return Ok(HALT_CYCLES);
        }
        let at: u16 = self.regs.pc;
        let opcode: u8 = self.next_byte(memory);
        if self.ime_pending {
            self.ime_pending = false;
            memory.interrupt.enable();
        }
        self.execute(memory, opcode, at)
    }
}


/// Whatever flags are packed into a byte, and whatever byte is masked for
/// `F`, the low nibble of the result is zero.
pub proof fn lemma_flags_stay_packed()
    ensures
        forall|zero: bool, sub: bool, half_carry: bool, carry: bool|
            (#[trigger] crate::register::spec_pack_flags(zero, sub, half_carry, carry)) & 0x0F == 0,
        forall|value: u8| (#[trigger] (value & 0xF0)) & 0x0F == 0,
{
    assert forall|zero: bool, sub: bool, half_carry: bool, carry: bool|
        (#[trigger] crate::register::spec_pack_flags(zero, sub, half_carry, carry)) & 0x0F
            == 0 by {
        crate::register::lemma_pack_flags(zero, sub, half_carry, carry);
    }
    assert forall|value: u8| (#[trigger] (value & 0xF0)) & 0x0F == 0 by {
        assert((value & 0xF0) & 0x0F == 0) by (bit_vector);
    }
}

/// What `lemma_step_bounds` says, of one column of the instructions below `0x40`.
proof fn lemma_column_control_bounds(m: Machine, opcode: u8)
    requires
        opcode < 0x40,
        opcode % 8 == 0,
    ensures
        m.column_control(opcode).result matches Ok(cycles) && 1 <= cycles <= 6,
        m.cpu.regs.wf() ==> m.column_control(opcode).machine.cpu.regs.wf(),
{
    lemma_flags_stay_packed();
}

/// What `lemma_step_bounds` says, of one column of the instructions below `0x40`.
proof fn lemma_column_pair_bounds(m: Machine, opcode: u8)
    requires
        opcode < 0x40,
        opcode % 8 == 1,
    ensures
        m.column_pair(opcode).result matches Ok(cycles) && 1 <= cycles <= 6,
        m.cpu.regs.wf() ==> m.column_pair(opcode).machine.cpu.regs.wf(),
{
    lemma_flags_stay_packed();
}

/// What `lemma_step_bounds` says, of one column of the instructions below `0x40`.
proof fn lemma_column_indirect_bounds(m: Machine, opcode: u8)
    requires
        opcode < 0x40,
        opcode % 8 == 2,
    ensures
        m.column_indirect(opcode).result matches Ok(cycles) && 1 <= cycles <= 6,
        m.cpu.regs.wf() ==> m.column_indirect(opcode).machine.cpu.regs.wf(),
{
    lemma_flags_stay_packed();
}

/// What `lemma_step_bounds` says, of one column of the instructions below `0x40`.
proof fn lemma_column_count_bounds(m: Machine, opcode: u8)
    requires
        opcode < 0x40,
        opcode % 8 == 3,
    ensures
        m.column_count(opcode).result matches Ok(cycles) && 1 <= cycles <= 6,
        m.cpu.regs.wf() ==> m.column_count(opcode).machine.cpu.regs.wf(),
{
    lemma_flags_stay_packed();
}

/// What `lemma_step_bounds` says, of one column of the instructions below `0x40`.
proof fn lemma_column_inc_bounds(m: Machine, opcode: u8)
    requires
        opcode < 0x40,
        opcode % 8 == 4,
    ensures
        m.column_inc(opcode).result matches Ok(cycles) && 1 <= cycles <= 6,
        m.cpu.regs.wf() ==> m.column_inc(opcode).machine.cpu.regs.wf(),
{
    lemma_flags_stay_packed();
}

/// What `lemma_step_bounds` says, of one column of the instructions below `0x40`.
proof fn lemma_column_dec_bounds(m: Machine, opcode: u8)
    requires
        opcode < 0x40,
        opcode % 8 == 5,
    ensures
        m.column_dec(opcode).result matches Ok(cycles) && 1 <= cycles <= 6,
        m.cpu.regs.wf() ==> m.column_dec(opcode).machine.cpu.regs.wf(),
{
    lemma_flags_stay_packed();
}

/// What `lemma_step_bounds` says, of one column of the instructions below `0x40`.
proof fn lemma_column_immediate_bounds(m: Machine, opcode: u8)
    requires
        opcode < 0x40,
        opcode % 8 == 6,
    ensures
        m.column_immediate(opcode).result matches Ok(cycles) && 1 <= cycles <= 6,
        m.cpu.regs.wf() ==> m.column_immediate(opcode).machine.cpu.regs.wf(),
{
    lemma_flags_stay_packed();
}

/// What `lemma_step_bounds` says, of one column of the instructions below `0x40`.
proof fn lemma_column_accumulator_bounds(m: Machine, opcode: u8)
    requires
        opcode < 0x40,
        opcode % 8 == 7,
    ensures
        m.column_accumulator(opcode).result matches Ok(cycles) && 1 <= cycles <= 6,
        m.cpu.regs.wf() ==> m.column_accumulator(opcode).machine.cpu.regs.wf(),
{
    lemma_flags_stay_packed();
}

/// What `lemma_step_bounds` says, of an instruction below `0x40`.
proof fn lemma_misc_bounds(m: Machine, opcode: u8)
    requires
        opcode < 0x40,
    ensures
        m.block_misc(opcode).result matches Ok(cycles) && 1 <= cycles <= 6,
        m.cpu.regs.wf() ==> m.block_misc(opcode).machine.cpu.regs.wf(),
{
    let column = opcode % 8;
    if column == 0 {
        lemma_column_control_bounds(m, opcode);
    } else if column == 1 {
        lemma_column_pair_bounds(m, opcode);
    } else if column == 2 {
        lemma_column_indirect_bounds(m, opcode);
    } else if column == 3 {
        lemma_column_count_bounds(m, opcode);
    } else if column == 4 {
        lemma_column_inc_bounds(m, opcode);
    } else if column == 5 {
        lemma_column_dec_bounds(m, opcode);
    } else if column == 6 {
        lemma_column_immediate_bounds(m, opcode);
    } else {
        lemma_column_accumulator_bounds(m, opcode);
    }
}

/// What `lemma_step_bounds` says, of an instruction from `0x40` to `0x7F`.
proof fn lemma_load_bounds(m: Machine, opcode: u8)
    requires
        0x40 <= opcode < 0x80,
    ensures
        m.block_load(opcode).result matches Ok(cycles) && 1 <= cycles <= 6,
        m.cpu.regs.wf() ==> m.block_load(opcode).machine.cpu.regs.wf(),
{
}

/// What `lemma_step_bounds` says, of an instruction from `0x80` to `0xBF`.
proof fn lemma_alu_bounds(m: Machine, opcode: u8)
    requires
        0x80 <= opcode < 0xC0,
    ensures
        m.block_alu(opcode).result matches Ok(cycles) && 1 <= cycles <= 6,
        m.cpu.regs.wf() ==> m.block_alu(opcode).machine.cpu.regs.wf(),
{
    lemma_flags_stay_packed();
}

/// What `lemma_step_bounds` says, of an instruction after the prefix.
proof fn lemma_prefixed_bounds(m: Machine, opcode: u8)
    ensures
        m.prefixed(opcode).result matches Ok(cycles) && 1 <= cycles <= 6,
        m.cpu.regs.wf() ==> m.prefixed(opcode).machine.cpu.regs.wf(),
{
    lemma_flags_stay_packed();
}

/// What `lemma_step_bounds` says, of one column of the instructions from `0xC0` on.
proof fn lemma_column_return_bounds(m: Machine, opcode: u8, at: u16)
    requires
        opcode >= 0xC0,
        opcode % 8 == 0,
    ensures
        m.column_return(opcode).result matches Ok(cycles) ==> 1 <= cycles <= 6,
        m.cpu.regs.wf() ==> m.column_return(opcode).machine.cpu.regs.wf(),
{
    lemma_flags_stay_packed();
}

/// What `lemma_step_bounds` says, of one column of the instructions from `0xC0` on.
proof fn lemma_column_pop_bounds(m: Machine, opcode: u8, at: u16)
    requires
        opcode >= 0xC0,
        opcode % 8 == 1,
    ensures
        m.column_pop(opcode).result matches Ok(cycles) ==> 1 <= cycles <= 6,
        m.cpu.regs.wf() ==> m.column_pop(opcode).machine.cpu.regs.wf(),
{
    lemma_flags_stay_packed();
}

/// What `lemma_step_bounds` says, of one column of the instructions from `0xC0` on.
proof fn lemma_column_jump_bounds(m: Machine, opcode: u8, at: u16)
    requires
        opcode >= 0xC0,
        opcode % 8 == 2,
    ensures
        m.column_jump(opcode).result matches Ok(cycles) ==> 1 <= cycles <= 6,
        m.cpu.regs.wf() ==> m.column_jump(opcode).machine.cpu.regs.wf(),
{
    lemma_flags_stay_packed();
}

/// What `lemma_step_bounds` says, of one column of the instructions from `0xC0` on.
proof fn lemma_column_system_bounds(m: Machine, opcode: u8, at: u16)
    requires
        opcode >= 0xC0,
        opcode % 8 == 3,
    ensures
        m.column_system(opcode, at).result matches Ok(cycles) ==> 1 <= cycles <= 6,
        m.cpu.regs.wf() ==> m.column_system(opcode, at).machine.cpu.regs.wf(),
{
    lemma_flags_stay_packed();
    lemma_prefixed_bounds(m.fetched().0, m.fetched().1);
}

/// What `lemma_step_bounds` says, of one column of the instructions from `0xC0` on.
proof fn lemma_column_call_if_bounds(m: Machine, opcode: u8, at: u16)
    requires
        opcode >= 0xC0,
        opcode % 8 == 4,
    ensures
        m.column_call_if(opcode, at).result matches Ok(cycles) ==> 1 <= cycles <= 6,
        m.cpu.regs.wf() ==> m.column_call_if(opcode, at).machine.cpu.regs.wf(),
{
    lemma_flags_stay_packed();
}

/// What `lemma_step_bounds` says, of one column of the instructions from `0xC0` on.
proof fn lemma_column_push_bounds(m: Machine, opcode: u8, at: u16)
    requires
        opcode >= 0xC0,
        opcode % 8 == 5,
    ensures
        m.column_push(opcode, at).result matches Ok(cycles) ==> 1 <= cycles <= 6,
        m.cpu.regs.wf() ==> m.column_push(opcode, at).machine.cpu.regs.wf(),
{
    lemma_flags_stay_packed();
}

/// What `lemma_step_bounds` says, of an instruction from `0xC0` on.
proof fn lemma_flow_bounds(m: Machine, opcode: u8, at: u16)
    requires
        opcode >= 0xC0,
    ensures
        m.block_flow(opcode, at).result matches Ok(cycles) ==> 1 <= cycles <= 6,
        m.cpu.regs.wf() ==> m.block_flow(opcode, at).machine.cpu.regs.wf(),
{
    let column = opcode % 8;
    if column == 0 {
        lemma_column_return_bounds(m, opcode, at);
    } else if column == 1 {
        lemma_column_pop_bounds(m, opcode, at);
    } else if column == 2 {
        lemma_column_jump_bounds(m, opcode, at);
    } else if column == 3 {
        lemma_column_system_bounds(m, opcode, at);
    } else if column == 4 {
        lemma_column_call_if_bounds(m, opcode, at);
    } else if column == 5 {
        lemma_column_push_bounds(m, opcode, at);
    } else {
        lemma_flags_stay_packed();
    }
}

/// A step takes from one to six machine cycles, and it leaves the low
/// nibble of `F` zero if it was zero before.
pub proof fn lemma_step_bounds(m: Machine)
    ensures
        m.step().result matches Ok(cycles) ==> 1 <= cycles <= 6,
        m.cpu.regs.wf() ==> m.step().machine.cpu.regs.wf(),
{
    reveal(Machine::step);
    reveal(Machine::executed);
    if !m.interrupted() && !m.woken().cpu.halted {
        let fetched = m.woken().fetched();
        let ready = fetched.0.enabled_late();
        let opcode = fetched.1;
        if opcode < 0x40 {
            lemma_misc_bounds(ready, opcode);
        } else if opcode < 0x80 {
            lemma_load_bounds(ready, opcode);
        } else if opcode < 0xC0 {
            lemma_alu_bounds(ready, opcode);
        } else {
            lemma_flow_bounds(ready, opcode, m.cpu.regs.pc);
        }
    }
}

} // verus!
