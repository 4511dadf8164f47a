use gameboy_crust::cpu::{Condition, DecodeError, CPU};
use gameboy_crust::gameboy::GameBoy;
use gameboy_crust::helper::Bit;
use gameboy_crust::interconnect::Interconnect;
use gameboy_crust::register::{Flag, Registers};
use gameboy_crust::rom::Rom;
use gameboy_crust::sink::VideoSink;

fn image(program: &[u8]) -> Vec<u8> {
    let mut bytes = vec![0u8; 0x8000];
    for (i, byte) in program.iter().enumerate() {
        bytes[0x100 + i] = *byte;
    }
    bytes
}

fn bus(program: &[u8]) -> Interconnect {
    Interconnect::new(Rom::new(image(program)).unwrap())
}

fn flags(cpu: &CPU) -> (bool, bool, bool, bool) {
    (
        cpu.regs.is_flag_set(Flag::Zero),
        cpu.regs.is_flag_set(Flag::Sub),
        cpu.regs.is_flag_set(Flag::HalfCarry),
        cpu.regs.is_flag_set(Flag::Carry),
    )
}

#[test]
fn registers_after_boot() {
    let regs = Registers::new();
    assert_eq!(regs.a, 0x01);
    assert_eq!(regs.f, 0xB0);
    assert_eq!(regs.bc(), 0x0013);
    assert_eq!(regs.de(), 0x00D8);
    assert_eq!(regs.hl(), 0x014D);
    assert_eq!(regs.sp, 0xFFFE);
    assert_eq!(regs.pc, 0x0100);
}

#[test]
fn set_af_masks_low_nibble() {
    let mut regs = Registers::new();
    regs.set_af(0x12FF);
    assert_eq!(regs.a, 0x12);
    assert_eq!(regs.f, 0xF0);
    assert_eq!(regs.af(), 0x12F0);
}

#[test]
fn hl_counts_up_and_down_with_wrap() {
    let mut regs = Registers::new();
    regs.set_hl(0xFFFF);
    regs.hli();
    assert_eq!(regs.hl(), 0x0000);
    regs.hld();
    assert_eq!(regs.hl(), 0xFFFF);
}

#[test]
fn set_flag_touches_one_flag() {
    let mut regs = Registers::new();
    regs.f = 0x00;
    regs.set_flag(Flag::HalfCarry, true);
    assert_eq!(regs.f, 0x20);
    regs.set_flag(Flag::Zero, true);
    assert_eq!(regs.f, 0xA0);
    regs.set_flag(Flag::HalfCarry, false);
    assert_eq!(regs.f, 0x80);
    assert!(regs.is_flag_set(Flag::Zero));
    assert!(!regs.is_flag_set(Flag::Carry));
}

#[test]
fn adc_half_carry() {
    let mut memory = bus(&[0xCE, 0xC6]);
    let mut cpu = CPU::new();
    cpu.regs.a = 0x3A;
    cpu.regs.f = 0x10;
    assert_eq!(cpu.step(&mut memory), Ok(2));
    assert_eq!(cpu.regs.a, 0x01);
    assert_eq!(flags(&cpu), (false, false, true, true));
}

#[test]
fn daa_after_subtract() {
    let mut memory = bus(&[0xD6, 0x28, 0x27]);
    let mut cpu = CPU::new();
    cpu.regs.a = 0x47;
    assert_eq!(cpu.step(&mut memory), Ok(2));
    assert_eq!(cpu.regs.a, 0x1F);
    assert_eq!(cpu.step(&mut memory), Ok(1));
    assert_eq!(cpu.regs.a, 0x19);
    assert_eq!(flags(&cpu), (false, true, false, false));
}

#[test]
fn daa_after_add() {
    let mut cpu = CPU::new();
    cpu.regs.a = 0x45;
    cpu.regs.f = 0x00;
    cpu.add_u8(0x38, false);
    assert_eq!(cpu.regs.a, 0x7D);
    cpu.daa();
    assert_eq!(cpu.regs.a, 0x83);
    assert_eq!(flags(&cpu), (false, false, false, false));
    cpu.regs.a = 0x99;
    cpu.regs.f = 0x00;
    cpu.add_u8(0x01, false);
    cpu.daa();
    assert_eq!(cpu.regs.a, 0x00);
    assert_eq!(flags(&cpu), (true, false, false, true));
}

#[test]
fn pop_af_masking() {
    let mut memory = bus(&[0xF1]);
    memory.write(0xC000, 0xFF);
    memory.write(0xC001, 0x12);
    let mut cpu = CPU::new();
    cpu.regs.sp = 0xC000;
    assert_eq!(cpu.step(&mut memory), Ok(3));
    assert_eq!(cpu.regs.a, 0x12);
    assert_eq!(cpu.regs.f, 0xF0);
    assert_eq!(cpu.regs.sp, 0xC002);
}

#[test]
fn ld_hl_sp_plus_offset() {
    let mut memory = bus(&[0xF8, 0x02]);
    let mut cpu = CPU::new();
    cpu.regs.sp = 0xFFF8;
    assert_eq!(cpu.step(&mut memory), Ok(3));
    assert_eq!(cpu.regs.hl(), 0xFFFA);
    assert_eq!(flags(&cpu), (false, false, false, false));

    let mut memory = bus(&[0xF8, 0xFE]);
    let mut cpu = CPU::new();
    cpu.regs.sp = 0xFFF8;
    assert_eq!(cpu.step(&mut memory), Ok(3));
    assert_eq!(cpu.regs.hl(), 0xFFF6);
    assert_eq!(flags(&cpu), (false, false, true, true));
    assert_eq!(cpu.regs.sp, 0xFFF8);
}

#[test]
fn add_sp_offset() {
    let mut memory = bus(&[0xE8, 0xFE]);
    let mut cpu = CPU::new();
    cpu.regs.sp = 0xFFF8;
    assert_eq!(cpu.step(&mut memory), Ok(4));
    assert_eq!(cpu.regs.sp, 0xFFF6);
    assert_eq!(flags(&cpu), (false, false, true, true));
}

#[test]
fn interrupt_dispatch_priority() {
    let mut memory = bus(&[0x00]);
    let mut cpu = CPU::new();
    cpu.regs.sp = 0xD000;
    memory.interrupt.enable();
    memory.write(0xFFFF, 0x1F);
    memory.write(0xFF0F, 0x05);
    assert_eq!(cpu.step(&mut memory), Ok(5));
    assert_eq!(cpu.regs.pc, 0x0040);
    assert_eq!(memory.read(0xFF0F), 0x04);
    assert!(!memory.interrupt.master_enable);
    assert_eq!(cpu.regs.sp, 0xCFFE);
    assert_eq!(memory.read(0xCFFE), 0x00);
    assert_eq!(memory.read(0xCFFF), 0x01);
}

#[test]
fn request_without_enable_enters_nothing() {
    let mut memory = bus(&[0x00]);
    let mut cpu = CPU::new();
    memory.interrupt.enable();
    memory.write(0xFFFF, 0x02);
    memory.write(0xFF0F, 0x05);
    assert_eq!(cpu.step(&mut memory), Ok(1));
    assert_eq!(cpu.regs.pc, 0x0101);
    assert_eq!(memory.read(0xFF0F), 0x05);
    assert!(memory.interrupt.master_enable);
}

#[test]
fn master_enable_blocks_entry_not_requests() {
    let mut memory = bus(&[0x00]);
    let mut cpu = CPU::new();
    memory.write(0xFFFF, 0x1F);
    memory.write(0xFF0F, 0x01);
    assert_eq!(cpu.step(&mut memory), Ok(1));
    assert_eq!(cpu.regs.pc, 0x0101);
    assert_eq!(memory.read(0xFF0F), 0x01);
}

#[test]
fn halt_waits_and_wakes_without_master_enable() {
    let mut memory = bus(&[0x76, 0x3C]);
    let mut cpu = CPU::new();
    memory.write(0xFFFF, 0x04);
    assert_eq!(cpu.step(&mut memory), Ok(1));
    assert!(cpu.halted);
    assert_eq!(cpu.step(&mut memory), Ok(1));
    assert_eq!(cpu.regs.pc, 0x0101);
    memory.write(0xFF0F, 0x04);
    assert_eq!(cpu.step(&mut memory), Ok(1));
    assert!(!cpu.halted);
    assert_eq!(cpu.regs.pc, 0x0102);
    assert_eq!(cpu.regs.a, 0x02);
    assert_eq!(memory.read(0xFF0F), 0x04);
}

#[test]
fn ei_takes_effect_one_instruction_late() {
    let mut memory = bus(&[0xFB, 0x00, 0x00]);
    let mut cpu = CPU::new();
    cpu.regs.sp = 0xD000;
    memory.write(0xFFFF, 0x01);
    memory.write(0xFF0F, 0x01);
    assert_eq!(cpu.step(&mut memory), Ok(1));
    assert!(!memory.interrupt.master_enable);
    assert_eq!(cpu.step(&mut memory), Ok(1));
    assert_eq!(cpu.regs.pc, 0x0102);
    assert!(memory.interrupt.master_enable);
    assert_eq!(cpu.step(&mut memory), Ok(5));
    assert_eq!(cpu.regs.pc, 0x0040);
}

#[test]
fn di_clears_master_enable_at_once() {
    let mut memory = bus(&[0xF3]);
    let mut cpu = CPU::new();
    memory.interrupt.enable();
    assert_eq!(cpu.step(&mut memory), Ok(1));
    assert!(!memory.interrupt.master_enable);
}

#[test]
fn reti_returns_and_enables() {
    let mut memory = bus(&[0xD9]);
    memory.write(0xC000, 0x34);
    memory.write(0xC001, 0x12);
    let mut cpu = CPU::new();
    cpu.regs.sp = 0xC000;
    assert_eq!(cpu.step(&mut memory), Ok(4));
    assert_eq!(cpu.regs.pc, 0x1234);
    assert!(memory.interrupt.master_enable);
}

#[test]
fn unknown_opcode_is_reported() {
    for opcode in [0xD3u8, 0xDB, 0xDD, 0xE3, 0xE4, 0xEB, 0xEC, 0xED, 0xF4, 0xFC, 0xFD] {
        let mut memory = bus(&[opcode]);
        let mut cpu = CPU::new();
        assert_eq!(cpu.step(&mut memory), Err(DecodeError { opcode, pc: 0x0100 }));
    }
}

#[test]
fn every_known_opcode_takes_one_to_six_cycles() {
    let unknown = [0xD3u8, 0xDB, 0xDD, 0xE3, 0xE4, 0xEB, 0xEC, 0xED, 0xF4, 0xFC, 0xFD];
    for opcode in 0..=255u8 {
        if unknown.contains(&opcode) {
            continue;
        }
        for f in [0x00u8, 0xF0] {
            let mut memory = bus(&[opcode, 0x10, 0xC0]);
            let mut cpu = CPU::new();
            cpu.regs.f = f;
            cpu.regs.sp = 0xD000;
            let cycles = cpu.step(&mut memory).unwrap();
            assert!(1 <= cycles && cycles <= 6);
            assert_eq!(cpu.regs.f & 0x0F, 0);
        }
    }
}

#[test]
fn every_prefixed_opcode_takes_two_to_four_cycles() {
    for opcode in 0..=255u8 {
        let mut memory = bus(&[0xCB, opcode]);
        let mut cpu = CPU::new();
        cpu.regs.set_hl(0xC000);
        let cycles = cpu.step(&mut memory).unwrap();
        let on_memory = opcode % 8 == 6;
        let bit_test = opcode / 64 == 1;
        let expected = if !on_memory {
            2
        } else if bit_test {
            3
        } else {
            4
        };
        assert_eq!(cycles, expected);
        assert_eq!(cpu.regs.f & 0x0F, 0);
    }
}

#[test]
fn conditional_flow_takes_longer_when_taken() {
    let cases: [(u8, usize, usize); 4] = [(0x20, 3, 2), (0xC2, 4, 3), (0xC4, 6, 3), (0xC0, 5, 2)];
    for (opcode, taken, not_taken) in cases {
        let mut memory = bus(&[opcode, 0x05, 0x02]);
        let mut cpu = CPU::new();
        cpu.regs.sp = 0xD000;
        cpu.regs.f = 0x00;
        assert_eq!(cpu.step(&mut memory), Ok(taken));
        let mut memory = bus(&[opcode, 0x05, 0x02]);
        let mut cpu = CPU::new();
        cpu.regs.sp = 0xD000;
        cpu.regs.f = 0x80;
        assert_eq!(cpu.step(&mut memory), Ok(not_taken));
    }
}

#[test]
fn jr_goes_forward_and_backward() {
    let mut memory = bus(&[0x18, 0x05]);
    let mut cpu = CPU::new();
    assert_eq!(cpu.step(&mut memory), Ok(3));
    assert_eq!(cpu.regs.pc, 0x0107);
    let mut memory = bus(&[0x18, 0xFE]);
    let mut cpu = CPU::new();
    assert_eq!(cpu.step(&mut memory), Ok(3));
    assert_eq!(cpu.regs.pc, 0x0100);
}

#[test]
fn call_and_ret() {
    let mut memory = bus(&[0xCD, 0x50, 0x01]);
    let mut cpu = CPU::new();
    cpu.regs.sp = 0xD000;
    assert_eq!(cpu.step(&mut memory), Ok(6));
    assert_eq!(cpu.regs.pc, 0x0150);
    assert_eq!(cpu.regs.sp, 0xCFFE);
    assert_eq!(memory.read(0xCFFE), 0x03);
    assert_eq!(memory.read(0xCFFF), 0x01);
    cpu.ret(&memory);
    assert_eq!(cpu.regs.pc, 0x0103);
    assert_eq!(cpu.regs.sp, 0xD000);
}

#[test]
fn rst_calls_fixed_entry() {
    for (opcode, target) in [(0xC7u8, 0x00u16), (0xCF, 0x08), (0xD7, 0x10), (0xDF, 0x18), (0xE7, 0x20), (0xEF, 0x28), (0xF7, 0x30), (0xFF, 0x38)] {
        let mut memory = bus(&[opcode]);
        let mut cpu = CPU::new();
        cpu.regs.sp = 0xD000;
        assert_eq!(cpu.step(&mut memory), Ok(4));
        assert_eq!(cpu.regs.pc, target);
        assert_eq!(memory.read(0xCFFE), 0x01);
    }
}

#[test]
fn push_then_pop_gives_the_word_back() {
    let pushes = [0xC5u8, 0xD5, 0xE5, 0xF5];
    let pops = [0xC1u8, 0xD1, 0xE1, 0xF1];
    for (from, push) in pushes.iter().enumerate() {
        for (to, pop) in pops.iter().enumerate() {
            let mut memory = bus(&[*push, *pop]);
            let mut cpu = CPU::new();
            cpu.regs.sp = 0xDFF0;
            cpu.regs.set_bc(0x1234);
            cpu.regs.set_de(0x5678);
            cpu.regs.set_hl(0x9ABC);
            cpu.regs.set_af(0xDEF0);
            let pushed = [cpu.regs.bc(), cpu.regs.de(), cpu.regs.hl(), cpu.regs.af()][from];
            assert_eq!(cpu.step(&mut memory), Ok(4));
            assert_eq!(cpu.step(&mut memory), Ok(3));
            let popped = [cpu.regs.bc(), cpu.regs.de(), cpu.regs.hl(), cpu.regs.af()][to];
            let expected = if to == 3 {
                pushed & 0xFFF0
            } else {
                pushed
            };
            assert_eq!(popped, expected);
            assert_eq!(cpu.regs.sp, 0xDFF0);
        }
    }
}

#[test]
fn push_on_rom_is_lost() {
    let mut memory = bus(&[0xC5, 0xD1]);
    let mut cpu = CPU::new();
    cpu.regs.sp = 0x4000;
    cpu.regs.set_bc(0x1234);
    cpu.step(&mut memory).unwrap();
    cpu.step(&mut memory).unwrap();
    assert_eq!(cpu.regs.de(), 0x0000);
}

#[test]
fn inc_then_dec_restores_register_and_carry() {
    for n in 0..=255u8 {
        for f in [0x00u8, 0x10, 0x20, 0xF0] {
            let mut memory = bus(&[0x04, 0x05]);
            let mut cpu = CPU::new();
            cpu.regs.b = n;
            cpu.regs.f = f;
            assert_eq!(cpu.step(&mut memory), Ok(1));
            let half_after_inc = cpu.regs.is_flag_set(Flag::HalfCarry);
            assert_eq!(cpu.regs.b, n.wrapping_add(1));
            assert_eq!(cpu.step(&mut memory), Ok(1));
            assert_eq!(cpu.regs.b, n);
            assert_eq!(cpu.regs.is_flag_set(Flag::Carry), f & 0x10 != 0);
            assert_eq!(cpu.regs.is_flag_set(Flag::HalfCarry), half_after_inc);
            assert_eq!(cpu.regs.is_flag_set(Flag::HalfCarry), n % 16 == 15);
            assert!(cpu.regs.is_flag_set(Flag::Sub));
            assert_eq!(cpu.regs.is_flag_set(Flag::Zero), n == 0);
        }
    }
}

#[test]
fn inc_and_dec_flags() {
    let mut cpu = CPU::new();
    cpu.regs.f = 0x10;
    assert_eq!(cpu.inc_u8(0x0F), 0x10);
    assert_eq!(flags(&cpu), (false, false, true, true));
    assert_eq!(cpu.inc_u8(0xFF), 0x00);
    assert_eq!(flags(&cpu), (true, false, true, true));
    assert_eq!(cpu.dec_u8(0x10), 0x0F);
    assert_eq!(flags(&cpu), (false, true, true, true));
    assert_eq!(cpu.dec_u8(0x01), 0x00);
    assert_eq!(flags(&cpu), (true, true, false, true));
}

#[test]
fn cpl_twice_restores_a() {
    for a in 0..=255u8 {
        let mut memory = bus(&[0x2F, 0x2F]);
        let mut cpu = CPU::new();
        cpu.regs.a = a;
        cpu.regs.f = 0x90;
        cpu.step(&mut memory).unwrap();
        assert_eq!(cpu.regs.a, !a);
        assert_eq!(flags(&cpu), (true, true, true, true));
        cpu.step(&mut memory).unwrap();
        assert_eq!(cpu.regs.a, a);
        assert_eq!(flags(&cpu), (true, true, true, true));
    }
}

#[test]
fn swap_twice_restores_register() {
    for n in 0..=255u8 {
        let mut memory = bus(&[0xCB, 0x31, 0xCB, 0x31]);
        let mut cpu = CPU::new();
        cpu.regs.c = n;
        assert_eq!(cpu.step(&mut memory), Ok(2));
        assert_eq!(cpu.regs.c, (n << 4) | (n >> 4));
        assert_eq!(flags(&cpu), (n == 0, false, false, false));
        assert_eq!(cpu.step(&mut memory), Ok(2));
        assert_eq!(cpu.regs.c, n);
    }
}

#[test]
fn rlca_eight_times_is_identity() {
    for a in 0..=255u8 {
        let mut memory = bus(&[0x07; 8]);
        let mut cpu = CPU::new();
        cpu.regs.a = a;
        for _ in 0..8 {
            assert_eq!(cpu.step(&mut memory), Ok(1));
            assert!(!cpu.regs.is_flag_set(Flag::Zero));
        }
        assert_eq!(cpu.regs.a, a);
    }
}

#[test]
fn rotates_and_shifts() {
    let mut cpu = CPU::new();
    cpu.regs.f = 0x00;
    assert_eq!(cpu.rotate_left(0x85, false, true), 0x0B);
    assert_eq!(flags(&cpu), (false, false, false, true));
    cpu.regs.f = 0x00;
    assert_eq!(cpu.rotate_left(0x80, true, true), 0x00);
    assert_eq!(flags(&cpu), (true, false, false, true));
    assert_eq!(cpu.rotate_left(0x00, true, false), 0x01);
    assert_eq!(flags(&cpu), (false, false, false, false));
    assert_eq!(cpu.rotate_right(0x01, false, true), 0x80);
    assert_eq!(flags(&cpu), (false, false, false, true));
    assert_eq!(cpu.rotate_right(0x02, true, true), 0x81);
    assert_eq!(flags(&cpu), (false, false, false, false));
    assert_eq!(cpu.shift_left(0xC0), 0x80);
    assert_eq!(flags(&cpu), (false, false, false, true));
    assert_eq!(cpu.shift_right(0x81, true), 0xC0);
    assert_eq!(flags(&cpu), (false, false, false, true));
    assert_eq!(cpu.shift_right(0x81, false), 0x40);
    assert_eq!(flags(&cpu), (false, false, false, true));
    assert_eq!(cpu.swap(0xF1), 0x1F);
    assert_eq!(flags(&cpu), (false, false, false, false));
}

#[test]
fn bit_set_and_res() {
    let mut cpu = CPU::new();
    cpu.regs.f = 0x10;
    cpu.bit(0x80, Bit::Bit7);
    assert_eq!(flags(&cpu), (false, false, true, true));
    cpu.bit(0x7F, Bit::Bit7);
    assert_eq!(flags(&cpu), (true, false, true, true));
    assert_eq!(cpu.set(0x00, Bit::Bit3), 0x08);
    assert_eq!(cpu.res(0xFF, Bit::Bit0), 0xFE);
}

#[test]
fn logic_flags() {
    let mut cpu = CPU::new();
    cpu.regs.a = 0x5A;
    cpu.and_u8(0x0F);
    assert_eq!(cpu.regs.a, 0x0A);
    assert_eq!(flags(&cpu), (false, false, true, false));
    cpu.or_u8(0xF0);
    assert_eq!(cpu.regs.a, 0xFA);
    assert_eq!(flags(&cpu), (false, false, false, false));
    cpu.xor_u8(0xFA);
    assert_eq!(cpu.regs.a, 0x00);
    assert_eq!(flags(&cpu), (true, false, false, false));
}

#[test]
fn subtract_and_compare_flags() {
    let mut cpu = CPU::new();
    cpu.regs.a = 0x3E;
    cpu.regs.f = 0x00;
    cpu.sub_u8(0x3E, false);
    assert_eq!(cpu.regs.a, 0x00);
    assert_eq!(flags(&cpu), (true, true, false, false));
    cpu.regs.a = 0x3E;
    cpu.sub_u8(0x0F, false);
    assert_eq!(cpu.regs.a, 0x2F);
    assert_eq!(flags(&cpu), (false, true, true, false));
    cpu.regs.a = 0x3E;
    cpu.sub_u8(0x40, false);
    assert_eq!(cpu.regs.a, 0xFE);
    assert_eq!(flags(&cpu), (false, true, false, true));
    cpu.regs.a = 0x3B;
    cpu.regs.f = 0x10;
    cpu.sub_u8(0x2A, true);
    assert_eq!(cpu.regs.a, 0x10);
    assert_eq!(flags(&cpu), (false, true, false, false));
    cpu.regs.a = 0x3C;
    cpu.cp_u8(0x40);
    assert_eq!(cpu.regs.a, 0x3C);
    assert_eq!(flags(&cpu), (false, true, false, true));
}

#[test]
fn add_hl_flags() {
    let mut cpu = CPU::new();
    cpu.regs.f = 0x80;
    cpu.regs.set_hl(0x8A23);
    cpu.add_hl(0x0605);
    assert_eq!(cpu.regs.hl(), 0x9028);
    assert_eq!(flags(&cpu), (true, false, true, false));
    cpu.regs.set_hl(0x8A23);
    cpu.add_hl(0x8A23);
    assert_eq!(cpu.regs.hl(), 0x1446);
    assert_eq!(flags(&cpu), (true, false, true, true));
}

#[test]
fn scf_and_ccf() {
    let mut cpu = CPU::new();
    cpu.regs.f = 0xE0;
    cpu.scf();
    assert_eq!(flags(&cpu), (true, false, false, true));
    cpu.ccf();
    assert_eq!(flags(&cpu), (true, false, false, false));
    cpu.ccf();
    assert_eq!(flags(&cpu), (true, false, false, true));
}

#[test]
fn conditions_read_the_flags() {
    let mut regs = Registers::new();
    regs.f = 0x80;
    assert!(Condition::Zero.holds(regs));
    assert!(!Condition::NotZero.holds(regs));
    assert!(Condition::NotCarry.holds(regs));
    assert!(!Condition::Carry.holds(regs));
}

#[test]
fn loads_between_registers_and_memory() {
    let mut memory = bus(&[0x36, 0x42, 0x7E, 0x47, 0x70, 0x2A, 0x3A, 0xEA, 0x10, 0xC0, 0xFA, 0x10, 0xC0]);
    let mut cpu = CPU::new();
    cpu.regs.set_hl(0xC005);
    assert_eq!(cpu.step(&mut memory), Ok(3));
    assert_eq!(memory.read(0xC005), 0x42);
    assert_eq!(cpu.step(&mut memory), Ok(2));
    assert_eq!(cpu.regs.a, 0x42);
    assert_eq!(cpu.step(&mut memory), Ok(1));
    assert_eq!(cpu.regs.b, 0x42);
    assert_eq!(cpu.step(&mut memory), Ok(2));
    assert_eq!(cpu.step(&mut memory), Ok(2));
    assert_eq!(cpu.regs.hl(), 0xC006);
    assert_eq!(cpu.step(&mut memory), Ok(2));
    assert_eq!(cpu.regs.hl(), 0xC005);
    cpu.regs.a = 0x99;
    assert_eq!(cpu.step(&mut memory), Ok(4));
    assert_eq!(memory.read(0xC010), 0x99);
    cpu.regs.a = 0x00;
    assert_eq!(cpu.step(&mut memory), Ok(4));
    assert_eq!(cpu.regs.a, 0x99);
}

#[test]
fn high_page_loads() {
    let mut memory = bus(&[0xE0, 0x80, 0xF0, 0x80, 0xE2, 0xF2]);
    let mut cpu = CPU::new();
    cpu.regs.a = 0x5A;
    assert_eq!(cpu.step(&mut memory), Ok(3));
    assert_eq!(memory.read(0xFF80), 0x5A);
    cpu.regs.a = 0;
    assert_eq!(cpu.step(&mut memory), Ok(3));
    assert_eq!(cpu.regs.a, 0x5A);
    cpu.regs.c = 0x81;
    cpu.regs.a = 0x77;
    assert_eq!(cpu.step(&mut memory), Ok(2));
    assert_eq!(memory.read(0xFF81), 0x77);
    cpu.regs.a = 0;
    assert_eq!(cpu.step(&mut memory), Ok(2));
    assert_eq!(cpu.regs.a, 0x77);
}

#[test]
fn ld_nn_sp_stores_both_bytes() {
    let mut memory = bus(&[0x08, 0x00, 0xC1]);
    let mut cpu = CPU::new();
    cpu.regs.sp = 0xBEEF;
    assert_eq!(cpu.step(&mut memory), Ok(5));
    assert_eq!(memory.read(0xC100), 0xEF);
    assert_eq!(memory.read(0xC101), 0xBE);
}

#[test]
fn stop_skips_its_operand() {
    let mut memory = bus(&[0x10, 0x00, 0x3C]);
    let mut cpu = CPU::new();
    assert_eq!(cpu.step(&mut memory), Ok(1));
    assert_eq!(cpu.regs.pc, 0x0102);
    assert!(!cpu.halted);
}

#[test]
fn pc_wraps_at_sixteen_bits() {
    let mut memory = bus(&[]);
    memory.write(0xFFFF, 0x00);
    let mut cpu = CPU::new();
    cpu.regs.pc = 0xFFFF;
    assert_eq!(cpu.next_byte(&memory), 0x00);
    assert_eq!(cpu.regs.pc, 0x0000);
}

#[test]
fn sixteen_bit_counting_changes_no_flag() {
    let mut memory = bus(&[0x03, 0x0B, 0x33, 0x3B]);
    let mut cpu = CPU::new();
    cpu.regs.set_bc(0xFFFF);
    cpu.regs.f = 0xF0;
    assert_eq!(cpu.step(&mut memory), Ok(2));
    assert_eq!(cpu.regs.bc(), 0x0000);
    assert_eq!(cpu.step(&mut memory), Ok(2));
    assert_eq!(cpu.regs.bc(), 0xFFFF);
    cpu.regs.sp = 0xFFFF;
    assert_eq!(cpu.step(&mut memory), Ok(2));
    assert_eq!(cpu.regs.sp, 0x0000);
    assert_eq!(cpu.step(&mut memory), Ok(2));
    assert_eq!(cpu.regs.sp, 0xFFFF);
    assert_eq!(cpu.regs.f, 0xF0);
}

#[test]
fn machine_step_pumps_the_devices() {
    let mut gameboy = GameBoy::new(Rom::new(image(&[0x00, 0xCD, 0x00, 0x02])).unwrap());
    let mut sink = VideoSink::new();
    assert_eq!(gameboy.step(&mut sink), Ok(4));
    assert_eq!(gameboy.step(&mut sink), Ok(24));
    assert_eq!(gameboy.cpu.regs.pc, 0x0200);
}

#[test]
fn frame_budget_is_met_and_a_frame_delivered() {
    let mut gameboy = GameBoy::new(Rom::new(image(&[0x18, 0xFE])).unwrap());
    let budget = gameboy_crust::gameboy::cycles_per_frame(false);
    assert_eq!(budget, 69905);
    assert_eq!(gameboy_crust::gameboy::cycles_per_frame(true), 699050);
    let mut sink = VideoSink::new();
    let spent = gameboy.run_frame(&mut sink, budget).unwrap();
    assert!(spent > budget && spent <= budget + 24);
    assert_eq!(spent, 69912);
    let frame = sink.consume().unwrap();
    assert_eq!(frame.len(), 160 * 144);
}

#[test]
fn frame_run_stops_at_unknown_opcode() {
    let mut gameboy = GameBoy::new(Rom::new(image(&[0x00, 0xDD])).unwrap());
    let mut sink = VideoSink::new();
    assert_eq!(gameboy.run_frame(&mut sink, 69905), Err(DecodeError { opcode: 0xDD, pc: 0x0101 }));
}
