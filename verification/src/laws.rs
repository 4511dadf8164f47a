//! Laws that relate several instructions to one another.

use vstd::prelude::*;
use crate::alu::{rotated_left, swapped};
use crate::cpu::{Machine, AT_HL, PAIR_LAST};
use crate::helper::{lemma_combine_split, spec_high, spec_low};
use crate::interconnect::{is_plain_ram, lemma_ram_read_after_write};
use crate::interrupt::{lemma_live_bits, InterruptFlag, InterruptHandler};
use crate::register::{lemma_pack_flags, Flag, Registers};

verus! {

/// A word pushed on a stack in plain RAM is the word popped next, and the
/// pop leaves `SP` where it was before the push.
pub proof fn lemma_push_pop(m: Machine, data: u16)
    requires
        m.bus.wf(),
        is_plain_ram(m.cpu.regs.sp.wrapping_sub(1)),
        is_plain_ram(m.cpu.regs.sp.wrapping_sub(1).wrapping_sub(1)),
    ensures
        m.pushed(data).popped().1 == data,
        m.pushed(data).popped().0.cpu.regs.sp == m.cpu.regs.sp,
{
    let upper = m.cpu.regs.sp.wrapping_sub(1);
    let lower = upper.wrapping_sub(1);
    let first = m.bus.write(upper, spec_high(data));
    lemma_ram_read_after_write(m.bus, upper, spec_high(data), lower);
    lemma_ram_read_after_write(first, lower, spec_low(data), upper);
    lemma_combine_split(spec_high(data), spec_low(data), data);
    assert(lower.wrapping_add(1) == upper);
    assert(upper.wrapping_add(1) == m.cpu.regs.sp);
}

/// After `PUSH` of one register pair and `POP` into another, with the stack
/// in plain RAM, the second pair holds what the first held; where the second
/// is `AF`, the low nibble of `F` is zero instead.
pub proof fn lemma_push_then_pop(m: Machine, from: u8, to: u8)
    requires
        m.bus.wf(),
        from < 4,
        to < 4,
        is_plain_ram(m.cpu.regs.sp.wrapping_sub(1)),
        is_plain_ram(m.cpu.regs.sp.wrapping_sub(1).wrapping_sub(1)),
    ensures
        ({
            let push = (0xC5 + 16 * from) as u8;
            let pop = (0xC1 + 16 * to) as u8;
            let before = m.cpu.regs.stack_pair(from);
            let after = m.column_push(push, 0).machine.column_pop(pop).machine.cpu.regs;
            &&& to != PAIR_LAST ==> after.stack_pair(to) == before
            &&& to == PAIR_LAST ==> after.a == spec_high(before) && after.f == spec_low(before)
                & 0xF0
            &&& after.sp == m.cpu.regs.sp
        }),
{
    let before = m.cpu.regs.stack_pair(from);
    lemma_push_pop(m, before);
    lemma_combine_split(spec_high(before), spec_low(before), before);
}

/// After `INC r` and then `DEC r` on a register, the register holds what it
/// held before and the carry flag is as it was. The half-carry flag is as
/// `INC r` left it; `N` is set, and `Z` says whether the register is zero.
pub proof fn lemma_inc_then_dec(m: Machine, target: u8)
    requires
        target < 8,
        target != AT_HL,
    ensures
        ({
            let inc = (0x04 + 8 * target) as u8;
            let dec = (0x05 + 8 * target) as u8;
            let between = m.column_inc(inc).machine;
            let after = between.column_dec(dec).machine;
            &&& after.r8(target) == m.r8(target)
            &&& after.cpu.regs.is_flag_set(Flag::Carry) == m.cpu.regs.is_flag_set(Flag::Carry)
            &&& after.cpu.regs.is_flag_set(Flag::HalfCarry) == between.cpu.regs.is_flag_set(
                Flag::HalfCarry,
            )
            &&& after.cpu.regs.is_flag_set(Flag::HalfCarry) == (m.r8(target) % 16 == 15)
            &&& after.cpu.regs.is_flag_set(Flag::Sub)
            &&& after.cpu.regs.is_flag_set(Flag::Zero) == (m.r8(target) == 0)
            &&& after.cpu.regs == (Registers { f: after.cpu.regs.f, ..m.cpu.regs })
        }),
{
    let n = m.r8(target);
    let carry = m.cpu.regs.is_flag_set(Flag::Carry);
    lemma_pack_flags((n + 1) % 256 == 0, false, n % 16 == 15, carry);
    let up = n.wrapping_add(1);
    lemma_pack_flags((up - 1) % 256 == 0, true, up % 16 == 0, carry);
}

/// After `CPL` twice, `A` holds what it held before, and `N` and `H` are
/// set as they were after the first; `Z` and `C` are untouched.
pub proof fn lemma_cpl_twice(regs: Registers)
    ensures
        regs.after_cpl().after_cpl().a == regs.a,
        regs.after_cpl().is_flag_set(Flag::Sub) && regs.after_cpl().is_flag_set(Flag::HalfCarry),
        regs.after_cpl().after_cpl().is_flag_set(Flag::Sub),
        regs.after_cpl().after_cpl().is_flag_set(Flag::HalfCarry),
        regs.after_cpl().after_cpl().is_flag_set(Flag::Zero) == regs.is_flag_set(Flag::Zero),
        regs.after_cpl().after_cpl().is_flag_set(Flag::Carry) == regs.is_flag_set(Flag::Carry),
        regs.after_cpl().after_cpl() == (Registers { f: regs.after_cpl().f, ..regs }),
{
    let zero = regs.is_flag_set(Flag::Zero);
    let carry = regs.is_flag_set(Flag::Carry);
    lemma_pack_flags(zero, true, true, carry);
}

/// Exchanging the nibbles of a byte twice gives the byte back.
pub proof fn lemma_swap_twice(n: u8)
    ensures
        swapped(swapped(n)) == n,
{
}

/// After `SWAP r` twice on a register, the register holds what it held before.
pub proof fn lemma_swap_then_swap(m: Machine, target: u8)
    requires
        target < 8,
        target != AT_HL,
    ensures
        ({
            let swap = (0x30 + target) as u8;
            m.prefixed(swap).machine.prefixed(swap).machine.r8(target) == m.r8(target)
        }),
{
    lemma_swap_twice(m.r8(target));
}

/// Rotating a byte left eight times gives the byte back.
pub proof fn lemma_rotate_eight_times(n: u8)
    by (bit_vector)
    ensures
        rotated_left(
            rotated_left(
                rotated_left(
                    rotated_left(rotated_left(rotated_left(rotated_left(rotated_left(n))))),
                ),
            ),
        ) == n,
{
}

/// `A` after `RLCA` was executed `times` times.
pub open spec fn rlca_times(m: Machine, times: nat) -> Machine
    decreases times,
{
    if times == 0 {
        m
    } else {
        rlca_times(m, (times - 1) as nat).column_accumulator(0x07).machine
    }
}

/// After `RLCA` eight times, `A` holds what it held before, and so does
/// every other register but `F`.
pub proof fn lemma_rlca_eight_times(m: Machine)
    ensures
        rlca_times(m, 8).cpu.regs == (Registers { f: rlca_times(m, 8).cpu.regs.f, ..m.cpu.regs }),
        rlca_times(m, 8).bus == m.bus,
{
    reveal_with_fuel(rlca_times, 9);
    lemma_rotate_eight_times(m.cpu.regs.a);
    let a1 = rotated_left(m.cpu.regs.a);
    let a2 = rotated_left(a1);
    let a3 = rotated_left(a2);
    let a4 = rotated_left(a3);
    let a5 = rotated_left(a4);
    let a6 = rotated_left(a5);
    let a7 = rotated_left(a6);
    assert(rlca_times(m, 1).cpu.regs.a == a1);
    assert(rlca_times(m, 2).cpu.regs.a == a2);
    assert(rlca_times(m, 3).cpu.regs.a == a3);
    assert(rlca_times(m, 4).cpu.regs.a == a4);
    assert(rlca_times(m, 5).cpu.regs.a == a5);
    assert(rlca_times(m, 6).cpu.regs.a == a6);
    assert(rlca_times(m, 7).cpu.regs.a == a7);
}

/// An interrupt is entered only while the master enable is set, and only
/// for a source that is both enabled and requested: a request alone, or an
/// enable alone, enters nothing.
pub proof fn lemma_interrupt_entry(m: Machine)
    requires
        m.interrupted(),
    ensures
        m.bus.interrupt.master_enable,
        m.bus.interrupt.spec_pending() matches Some(source) && m.bus.interrupt.enabled.value
            & source.mask() != 0 && m.bus.interrupt.requested.value & source.mask() != 0,
{
    lemma_live_bits(m.bus.interrupt.enabled.value, m.bus.interrupt.requested.value);
}

/// Requesting an interrupt sets its bit in the request register whether or
/// not the master enable is set, and changes nothing else.
pub proof fn lemma_request_ignores_master_enable(interrupt: InterruptHandler, source: InterruptFlag)
    ensures
        interrupt.with_request(source).requested.value & source.mask() != 0,
        interrupt.with_request(source).master_enable == interrupt.master_enable,
        interrupt.with_request(source).enabled == interrupt.enabled,
{
    let r = interrupt.requested.value;
    let mask = source.mask();
    assert(mask != 0 ==> (r | mask) & mask != 0) by (bit_vector);
}

} // verus!
