use gameboy_crust::dma::OamDma;
use gameboy_crust::helper::{combine, high, low, Bit, MemoryRegister};
use gameboy_crust::hram::Hram;
use gameboy_crust::interconnect::Interconnect;
use gameboy_crust::interrupt::{InterruptFlag, InterruptHandler, InterruptVector};
use gameboy_crust::joypad::{Joypad, BUTTON_A, BUTTON_START, PAD_DOWN, PAD_RIGHT};
use gameboy_crust::oam::Oam;
use gameboy_crust::rom::Rom;
use gameboy_crust::sink::VideoSink;
use gameboy_crust::timer::Timer;
use gameboy_crust::vram::Vram;
use gameboy_crust::wram::Wram;

fn empty_bus() -> Interconnect {
    Interconnect::new(Rom::new(vec![0u8; 0x8000]).unwrap())
}

#[test]
fn bytes_and_words() {
    assert_eq!(combine(0x12, 0x34), 0x1234);
    assert_eq!(high(0x1234), 0x12);
    assert_eq!(low(0x1234), 0x34);
    assert_eq!(Bit::Bit5.mask(), 0x20);
    assert_eq!(Bit::from_index(7), Bit::Bit7);
}

#[test]
fn memory_register_operations() {
    let mut reg = MemoryRegister::new(0x0F);
    assert_eq!(reg.get(), 0x0F);
    reg.set_bit(Bit::Bit7);
    assert_eq!(reg.get(), 0x8F);
    reg.clear_bit(Bit::Bit0);
    assert_eq!(reg.get(), 0x8E);
    assert!(reg.is_set(Bit::Bit1));
    assert!(!reg.is_set(Bit::Bit0));
    reg.add(0x80);
    assert_eq!(reg.get(), 0x0E);
    reg.sub(0x0F);
    assert_eq!(reg.get(), 0xFF);
    reg.set(0x42);
    assert_eq!(reg.get(), 0x42);
    reg.clear();
    assert_eq!(reg.get(), 0x00);
}

#[test]
fn plain_memories_start_zeroed_and_store() {
    let mut hram = Hram::new();
    assert_eq!(hram.size(), 127);
    assert_eq!(hram.read(126), 0);
    hram.write(126, 0xAB);
    assert_eq!(hram.read(126), 0xAB);
    let mut oam = Oam::new();
    assert_eq!(oam.size(), 160);
    oam.write(159, 0x01);
    assert_eq!(oam.read(159), 0x01);
    let mut vram = Vram::new();
    assert_eq!(vram.size(), 8192);
    vram.write(8191, 0x02);
    assert_eq!(vram.read(8191), 0x02);
    assert_eq!(vram.read(0), 0x00);
}

#[test]
fn work_ram_banks() {
    let mut wram = Wram::new();
    assert_eq!(wram.size(), 32768);
    assert_eq!(wram.get_ram_bank(), 0);
    wram.write(0xC000, 0x11);
    wram.write(0xD000, 0x22);
    wram.set_ram_bank(1);
    assert_eq!(wram.read(0xD000), 0x22);
    wram.set_ram_bank(7);
    assert_eq!(wram.read(0xD000), 0x00);
    wram.write(0xDFFF, 0x77);
    wram.set_ram_bank(0x0F);
    assert_eq!(wram.get_ram_bank(), 7);
    assert_eq!(wram.read(0xDFFF), 0x77);
    wram.set_ram_bank(2);
    assert_eq!(wram.read(0xDFFF), 0x00);
    assert_eq!(wram.read(0xC000), 0x11);
}

#[test]
fn echo_mirrors_work_ram() {
    let mut bus = empty_bus();
    bus.write(0xC123, 0x5A);
    assert_eq!(bus.read(0xE123), 0x5A);
    bus.write(0xFDFF, 0xA5);
    assert_eq!(bus.read(0xDDFF), 0xA5);
}

#[test]
fn unmapped_reads_give_ff_and_writes_are_dropped() {
    let mut bus = empty_bus();
    for address in [0xFEA0u16, 0xFEFF, 0xFF01, 0xFF10, 0xFF46, 0xFF4F, 0xFF70, 0xFF7F] {
        bus.write(address, 0x12);
        assert_eq!(bus.read(address), 0xFF);
    }
    bus.write(0x0150, 0x12);
    assert_eq!(bus.read(0x0150), 0x00);
    assert_eq!(bus.read(0xA000), 0xFF);
}

#[test]
fn high_ram_and_interrupt_enable_share_the_top() {
    let mut bus = empty_bus();
    bus.write(0xFF80, 0x01);
    bus.write(0xFFFE, 0x02);
    bus.write(0xFFFF, 0x03);
    assert_eq!(bus.read(0xFF80), 0x01);
    assert_eq!(bus.read(0xFFFE), 0x02);
    assert_eq!(bus.read(0xFFFF), 0x03);
    assert_eq!(bus.interrupt.enabled.get(), 0x03);
}

#[test]
fn div_write_resets() {
    let mut bus = empty_bus();
    let mut sink = VideoSink::new();
    bus.cycles(1024, &mut sink);
    assert_eq!(bus.read(0xFF04), 4);
    bus.write(0xFF04, 0x9C);
    assert_eq!(bus.read(0xFF04), 0);
}

#[test]
fn divider_steps_every_256_cycles() {
    let mut timer = Timer::new();
    let mut interrupt = InterruptHandler::new();
    timer.cycles(255, &mut interrupt);
    assert_eq!(timer.read_div(), 0);
    timer.cycles(1, &mut interrupt);
    assert_eq!(timer.read_div(), 1);
    timer.cycles(256 * 255 + 3, &mut interrupt);
    assert_eq!(timer.read_div(), 0);
    timer.cycles(253, &mut interrupt);
    assert_eq!(timer.read_div(), 1);
}

#[test]
fn timer_counts_at_the_selected_rate() {
    for (select, period) in [(0u8, 1024usize), (1, 16), (2, 64), (3, 256)] {
        let mut timer = Timer::new();
        let mut interrupt = InterruptHandler::new();
        timer.write_control(0x04 | select);
        timer.cycles(period - 1, &mut interrupt);
        assert_eq!(timer.read_counter(), 0);
        timer.cycles(1, &mut interrupt);
        assert_eq!(timer.read_counter(), 1);
        timer.cycles(period * 3, &mut interrupt);
        assert_eq!(timer.read_counter(), 4);
        assert_eq!(interrupt.requested.get(), 0);
    }
}

#[test]
fn timer_stands_still_when_disabled() {
    let mut timer = Timer::new();
    let mut interrupt = InterruptHandler::new();
    timer.write_control(0x01);
    timer.cycles(4096, &mut interrupt);
    assert_eq!(timer.read_counter(), 0);
    assert_eq!(timer.read_div(), 16);
}

#[test]
fn timer_overflow_reloads_and_requests() {
    let mut timer = Timer::new();
    let mut interrupt = InterruptHandler::new();
    timer.write_control(0x05);
    timer.write_modulo(0xF0);
    timer.write_counter(0xFF);
    timer.cycles(16, &mut interrupt);
    assert_eq!(timer.read_counter(), 0xF0);
    assert_eq!(interrupt.requested.get(), 0x04);
    assert_eq!(timer.read_modulo(), 0xF0);
    timer.cycles(16 * 17, &mut interrupt);
    assert_eq!(timer.read_counter(), 0xF1);
}

#[test]
fn timer_control_reads_unused_bits_as_one() {
    let mut timer = Timer::new();
    timer.write_control(0x05);
    assert_eq!(timer.read_control(), 0xFD);
}

#[test]
fn interrupt_controller_picks_lowest_bit() {
    let mut interrupt = InterruptHandler::new();
    interrupt.write(0xFFFF, 0x1F);
    assert_eq!(interrupt.pending(), None);
    interrupt.request_interrupt(InterruptFlag::Joypad);
    interrupt.request_interrupt(InterruptFlag::Timer);
    assert_eq!(interrupt.read(0xFF0F), 0x14);
    assert_eq!(interrupt.pending(), Some(InterruptFlag::Timer));
    assert_eq!(interrupt.execute_next(), None);
    interrupt.enable();
    assert_eq!(interrupt.execute_next(), Some(InterruptVector::Timer));
    assert_eq!(interrupt.read(0xFF0F), 0x10);
    assert!(!interrupt.master_enable);
    interrupt.enable();
    interrupt.disable();
    assert_eq!(interrupt.execute_next(), None);
}

#[test]
fn interrupt_vectors() {
    assert_eq!(InterruptFlag::VBlank.vector().address(), 0x0040);
    assert_eq!(InterruptFlag::Lcdc.vector().address(), 0x0048);
    assert_eq!(InterruptFlag::Timer.vector().address(), 0x0050);
    assert_eq!(InterruptFlag::Serial.vector().address(), 0x0058);
    assert_eq!(InterruptFlag::Joypad.vector().address(), 0x0060);
    assert_eq!(InterruptFlag::Serial.mask(), 0x08);
}

#[test]
fn joypad_groups() {
    let mut joypad = Joypad::new();
    let mut interrupt = InterruptHandler::new();
    assert_eq!(joypad.read(), 0x3F);
    joypad.set_button_pressed(&mut interrupt, BUTTON_A, true);
    joypad.set_direction_pressed(&mut interrupt, PAD_DOWN, true);
    assert_eq!(joypad.read(), 0x3F);
    joypad.write(0x20);
    assert_eq!(joypad.read(), 0x27);
    joypad.write(0x10);
    assert_eq!(joypad.read(), 0x1E);
    joypad.write(0x00);
    assert_eq!(joypad.read(), 0x06);
    joypad.set_button_pressed(&mut interrupt, BUTTON_A, false);
    assert_eq!(joypad.read(), 0x07);
}

#[test]
fn joypad_interrupt_on_press_only() {
    let mut joypad = Joypad::new();
    let mut interrupt = InterruptHandler::new();
    joypad.set_button_pressed(&mut interrupt, BUTTON_START, true);
    assert_eq!(interrupt.requested.get(), 0x10);
    interrupt.write(0xFF0F, 0x00);
    joypad.set_button_pressed(&mut interrupt, BUTTON_START, true);
    assert_eq!(interrupt.requested.get(), 0x00);
    joypad.set_button_pressed(&mut interrupt, BUTTON_START, false);
    assert_eq!(interrupt.requested.get(), 0x00);
    joypad.set_direction_pressed(&mut interrupt, PAD_RIGHT, true);
    assert_eq!(interrupt.requested.get(), 0x10);
}

#[test]
fn joypad_through_the_bus() {
    let mut bus = empty_bus();
    bus.joypad.set_direction_pressed(&mut bus.interrupt, PAD_RIGHT, true);
    bus.write(0xFF00, 0x20);
    assert_eq!(bus.read(0xFF00), 0x2E);
}

#[test]
fn dma_engine_hands_out_eight_bytes_per_eight_cycles() {
    let mut dma = OamDma::new();
    assert!(!dma.active);
    dma.request(0xC1);
    assert!(dma.active);
    assert_eq!(dma.cycles(4), (0xC100, 0xFE00, 0));
    assert_eq!(dma.cycles(4), (0xC100, 0xFE00, 8));
    assert_eq!(dma.cycles(20), (0xC108, 0xFE08, 16));
    assert_eq!(dma.cycles(4), (0xC118, 0xFE18, 8));
    assert_eq!(dma.cycles(1000), (0xC120, 0xFE20, 128));
    assert!(!dma.active);
}

#[test]
fn dma_copies_a_page_into_sprite_memory() {
    let mut bus = empty_bus();
    let mut sink = VideoSink::new();
    for i in 0..160u16 {
        bus.write(0xC200 + i, (i as u8) ^ 0x5A);
    }
    bus.gpu.write(0xFF40, 0x00);
    bus.write(0xFF46, 0xC2);
    bus.cycles(80, &mut sink);
    assert!(bus.oam_dma.active);
    assert_eq!(bus.read(0xFE00 + 79), 79 ^ 0x5A);
    assert_eq!(bus.read(0xFE00 + 80), 0x00);
    bus.cycles(80, &mut sink);
    assert!(!bus.oam_dma.active);
    for i in 0..160u16 {
        assert_eq!(bus.read(0xFE00 + i), (i as u8) ^ 0x5A);
    }
}

#[test]
fn video_sink_keeps_the_latest() {
    let mut sink = VideoSink::new();
    sink.append(vec![1, 2, 3]);
    sink.append(vec![4, 5]);
    assert_eq!(sink.consume(), Some(vec![4, 5]));
    assert_eq!(VideoSink::new().consume(), None);
}

#[test]
fn bus_pumps_lcd_timer_and_interrupts() {
    let mut bus = empty_bus();
    let mut sink = VideoSink::new();
    bus.write(0xFF0F, 0x00);
    bus.write(0xFF06, 0xAB);
    bus.write(0xFF05, 0xFF);
    bus.write(0xFF07, 0x05);
    assert_eq!(bus.read(0xFF07), 0xFD);
    bus.cycles(16, &mut sink);
    assert_eq!(bus.read(0xFF05), 0xAB);
    assert_eq!(bus.read(0xFF0F), 0x04);
    bus.cycles(456 * 144 - 16, &mut sink);
    assert_eq!(bus.read(0xFF44), 144);
    assert_eq!(bus.read(0xFF0F) & 0x01, 0x01);
    assert_eq!(bus.read(0xFF41) & 0x03, 0x01);
    assert!(sink.consume().is_some());
}

#[test]
fn lcd_registers_through_the_bus() {
    let mut bus = empty_bus();
    assert_eq!(bus.read(0xFF40), 0x91);
    bus.write(0xFF42, 0x12);
    bus.write(0xFF4B, 0x34);
    assert_eq!(bus.read(0xFF42), 0x12);
    assert_eq!(bus.read(0xFF4B), 0x34);
    assert_eq!(bus.gpu.read(0xFF42), 0x12);
    bus.write(0x8000, 0x77);
    assert_eq!(bus.read(0x8000), 0x77);
    bus.write(0xFE00, 0x55);
    assert_eq!(bus.read(0xFE00), 0xFF);
}

#[test]
fn timer_counts_many_steps_at_once() {
    let mut timer = Timer::new();
    let mut interrupt = InterruptHandler::new();
    interrupt.write(0xFF0F, 0x00);
    timer.write_control(0x05);
    timer.write_modulo(0xF0);
    timer.cycles(16 * 255, &mut interrupt);
    assert_eq!(timer.read_counter(), 0xFF);
    assert_eq!(interrupt.requested.get(), 0x00);
    timer.write_counter(0x00);
    timer.cycles(16 * 1000, &mut interrupt);
    assert_eq!(timer.read_counter(), 0xF8);
    assert_eq!(interrupt.requested.get(), 0x04);
    let mut stepwise = Timer::new();
    stepwise.write_control(0x05);
    stepwise.write_modulo(0xF0);
    for _ in 0..1000 {
        stepwise.cycles(16, &mut interrupt);
    }
    assert_eq!(stepwise.read_counter(), 0xF8);
    let mut wrapped = Timer::new();
    wrapped.write_control(0x05);
    wrapped.write_modulo(0xFF);
    wrapped.write_counter(0x10);
    wrapped.cycles(16 * 5000 + 7, &mut interrupt);
    assert_eq!(wrapped.read_counter(), 0xFF);
}
