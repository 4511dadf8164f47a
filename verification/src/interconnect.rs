//! The interconnect: every device of the machine behind one 16-bit address
//! space.

use vstd::prelude::*;
use crate::dma::OamDma;
use crate::gpu::{delivered, raised, Gpu, GpuModel};
use crate::hram::{Hram, HRAM_SIZE};
use crate::interrupt::{InterruptFlag, InterruptHandler};
use crate::joypad::Joypad;
use crate::memory_map::{
    BGP, DIV, DMA, ECHO_END, ERAM_END, HRAM_END, HRAM_START, IE, IF, JOYP, LCDC, LY, LYC, OAM_END,
    OAM_START, OBP0, OBP1, ROM_BANK_END, SCX, SCY, STAT, TAC, TIMA, TMA, VRAM_END, WRAM_END,
    WRAM_START, WX, WY,
};
use crate::rom::{Rom, RomModel};
use crate::sink::VideoSink;
use crate::timer::Timer;
use crate::wram::{Wram, WramModel};

verus! {

/// What a read of an address without a device gives.
pub const UNMAPPED: u8 = 0xFF;

/// How far the mirror of work RAM lies above work RAM.
pub const ECHO_OFFSET: u16 = 0x2000;

/// The state of every device on the bus.
pub struct BusModel {
    pub rom: RomModel,
    pub wram: WramModel,
    pub hram: Seq<u8>,
    pub oam_dma: OamDma,
    pub timer: Timer,
    pub gpu: GpuModel,
    pub interrupt: InterruptHandler,
    pub joypad: Joypad,
}

/// Whether `address` is one of the eleven registers of the LCD controller.
pub open spec fn spec_is_lcd_register(address: u16) -> bool {
    address == LCDC || address == STAT || address == SCY || address == SCX || address == LY
        || address == LYC || address == BGP || address == OBP0 || address == OBP1 || address == WY
        || address == WX
}

#[verifier::when_used_as_spec(spec_is_lcd_register)]
pub fn is_lcd_register(address: u16) -> (owned: bool)
    ensures
        owned == spec_is_lcd_register(address),
{
    address == LCDC || address == STAT || address == SCY || address == SCX || address == LY
        || address == LYC || address == BGP || address == OBP0 || address == OBP1 || address == WY
        || address == WX
}

impl BusModel {
    pub open spec fn wf(self) -> bool {
        self.rom.wf() && self.wram.wf() && self.hram.len() == HRAM_SIZE && self.gpu.wf()
    }

    /// The machine as it is switched on with the cartridge `rom` in it.
    pub open spec fn initial(rom: RomModel) -> BusModel {
        BusModel {
            rom,
            wram: WramModel::blank(),
            hram: Seq::new(HRAM_SIZE as nat, |i: int| 0u8),
            oam_dma: OamDma::spec_new(),
            timer: Timer::spec_new(),
            gpu: GpuModel::initial(),
            interrupt: InterruptHandler::spec_new(),
            joypad: Joypad::spec_new(),
        }
    }

    /// The value of the register at `address`, if there is a readable one.
    pub open spec fn read_registers(self, address: u16) -> Option<u8> {
        if address == JOYP {
            Some(self.joypad.spec_read())
        } else if address == IE {
            Some(self.interrupt.enabled.value)
        } else if address == IF {
            Some(self.interrupt.requested.value)
        } else if spec_is_lcd_register(address) {
            Some(self.gpu.read(address))
        } else if address == DIV {
            Some(self.timer.div.value)
        } else if address == TIMA {
            Some(self.timer.tima.value)
        } else if address == TMA {
            Some(self.timer.tma.value)
        } else if address == TAC {
            Some(self.timer.spec_read_control())
        } else {
            None
        }
    }

    /// What a read of `address` gives. Registers come first; then the
    /// address decides by the region it lies in; where nothing answers the
    /// read gives `0xFF`.
    #[verifier::opaque]
    pub open spec fn read(self, address: u16) -> u8 {
        if self.read_registers(address) is Some {
            self.read_registers(address)->Some_0
        } else if address <= ROM_BANK_END {
            self.rom.read(address)
        } else if address <= VRAM_END {
            self.gpu.read(address)
        } else if address <= ERAM_END {
            self.rom.read(address)
        } else if address <= WRAM_END {
            self.wram.read(address)
        } else if address <= ECHO_END {
            self.wram.read((address - ECHO_OFFSET) as u16)
        } else if address <= OAM_END {
            self.gpu.read(address)
        } else if HRAM_START <= address <= HRAM_END {
            self.hram[address - HRAM_START]
        } else {
            UNMAPPED
        }
    }

    /// The machine after `data` was written to the register at `address`, if
    /// there is a writable one.
    pub open spec fn write_registers(self, address: u16, data: u8) -> Option<BusModel> {
        if address == JOYP {
            Some(
                BusModel {
                    joypad: Joypad { register: crate::helper::MemoryRegister { value: data }, ..self.joypad },
                    ..self
                },
            )
        } else if spec_is_lcd_register(address) {
            Some(BusModel { gpu: self.gpu.write(address, data), ..self })
        } else if address == DMA {
            Some(BusModel { oam_dma: OamDma::requested(data), ..self })
        } else if address == IE || address == IF {
            Some(BusModel { interrupt: self.interrupt.with_write(address, data), ..self })
        } else if address == DIV {
            Some(
                BusModel {
                    timer: Timer { div: crate::helper::MemoryRegister { value: 0 }, ..self.timer },
                    ..self
                },
            )
        } else if address == TIMA {
            Some(
                BusModel {
                    timer: Timer { tima: crate::helper::MemoryRegister { value: data }, ..self.timer },
                    ..self
                },
            )
        } else if address == TMA {
            Some(
                BusModel {
                    timer: Timer { tma: crate::helper::MemoryRegister { value: data }, ..self.timer },
                    ..self
                },
            )
        } else if address == TAC {
            Some(
                BusModel {
                    timer: Timer { tac: crate::helper::MemoryRegister { value: data }, ..self.timer },
                    ..self
                },
            )
        } else {
            None
        }
    }

    /// The machine after `data` was written to `address`. A write where
    /// nothing answers is dropped.
    #[verifier::opaque]
    pub open spec fn write(self, address: u16, data: u8) -> BusModel {
        if self.write_registers(address, data) is Some {
            self.write_registers(address, data)->Some_0
        } else if address <= ROM_BANK_END {
            BusModel { rom: self.rom.write(address, data), ..self }
        } else if address <= VRAM_END {
            BusModel { gpu: self.gpu.write(address, data), ..self }
        } else if address <= ERAM_END {
            BusModel { rom: self.rom.write(address, data), ..self }
        } else if address <= WRAM_END {
            BusModel { wram: self.wram.write(address, data), ..self }
        } else if address <= ECHO_END {
            BusModel { wram: self.wram.write((address - ECHO_OFFSET) as u16, data), ..self }
        } else if address <= OAM_END {
            BusModel { gpu: self.gpu.write(address, data), ..self }
        } else if HRAM_START <= address <= HRAM_END {
            BusModel { hram: self.hram.update(address - HRAM_START, data), ..self }
        } else {
            self
        }
    }

    /// The machine after `count` bytes were copied, one after the other,
    /// from `from` on into sprite memory from offset `to` on.
    pub open spec fn copied(self, from: u16, to: u16, count: nat) -> BusModel
        decreases count,
    {
        if count == 0 {
            self
        } else {
            (BusModel { gpu: self.gpu.with_oam_byte(to, self.read(from)), ..self }).copied(
                (from + 1) as u16,
                (to + 1) as u16,
                (count - 1) as nat,
            )
        }
    }

    /// The machine after the transfer into sprite memory, if one is under
    /// way, was given `cycles` clock cycles.
    pub open spec fn after_dma(self, cycles: nat) -> BusModel {
        if self.oam_dma.active {
            (BusModel { oam_dma: self.oam_dma.after_cycles(cycles), ..self }).copied(
                self.oam_dma.chunk(cycles).0,
                (self.oam_dma.chunk(cycles).1 - OAM_START) as u16,
                self.oam_dma.chunk(cycles).2 as nat,
            )
        } else {
            self
        }
    }

    /// The machine after `cycles` clock cycles were counted by the LCD
    /// controller, then by the timer, then by the transfer into sprite memory.
    #[verifier::opaque]
    pub open spec fn tick(self, cycles: nat) -> BusModel {
        let lcd = self.gpu.tick(cycles);
        let interrupt = raised(self.interrupt, lcd);
        (BusModel {
            gpu: lcd.gpu,
            timer: self.timer.after_cycles(cycles),
            interrupt: if self.timer.overflows(cycles) {
                interrupt.with_request(InterruptFlag::Timer)
            } else {
                interrupt
            },
            ..self
        }).after_dma(cycles)
    }
}

/// The interconnect. It owns every device.
pub struct Interconnect {
    pub rom: Rom,
    pub wram: Wram,
    pub hram: Hram,
    pub oam_dma: OamDma,
    pub timer: Timer,
    pub gpu: Gpu,
    pub interrupt: InterruptHandler,
    pub joypad: Joypad,
}

impl View for Interconnect {
    type V = BusModel;

    open spec fn view(&self) -> BusModel {
        BusModel {
            rom: self.rom@,
            wram: self.wram@,
            hram: self.hram@,
            oam_dma: self.oam_dma,
            timer: self.timer,
            gpu: self.gpu@,
            interrupt: self.interrupt,
            joypad: self.joypad,
        }
    }
}

impl Interconnect {
    pub fn new(rom: Rom) -> (bus: Interconnect)
        ensures
            bus@ == BusModel::initial(rom@),
    {
        Interconnect {
            rom,
            gpu: Gpu::new(),
            wram: Wram::new(),
            hram: Hram::new(),
            timer: Timer::new(),
            oam_dma: OamDma::new(),
            interrupt: InterruptHandler::new(),
            joypad: Joypad::new(),
        }
    }

    /// The value of the register at `address`, if there is a readable one.
    fn read_registers(&self, address: u16) -> (value: Option<u8>)
        ensures
            value == self@.read_registers(address),
    {
        if address == JOYP {
            Some(self.joypad.read())
        } else if address == IE {
            Some(self.interrupt.enabled.get())
        } else if address == IF {
            Some(self.interrupt.requested.get())
        } else if is_lcd_register(address) {
            Some(self.gpu.read(address))
        } else if address == DIV {
            Some(self.timer.read_div())
        } else if address == TIMA {
            Some(self.timer.read_counter())
        } else if address == TMA {
            Some(self.timer.read_modulo())
        } else if address == TAC {
            Some(self.timer.read_control())
        } else {
            None
        }
    }

    pub fn read(&self, address: u16) -> (value: u8)
        ensures
            value == self@.read(address),
    {
        reveal(BusModel::read);
        if let Some(value) = self.read_registers(address) {
            return value;
        }
        if address <= ROM_BANK_END {
            self.rom.read(address)
        } else if address <= VRAM_END {
            self.gpu.read(address)
        } else if address <= ERAM_END {
            self.rom.read(address)
        } else if address <= WRAM_END {
            self.wram.read(address)
        } else if address <= ECHO_END {
            self.wram.read(address - ECHO_OFFSET)
        } else if address <= OAM_END {
            self.gpu.read(address)
        } else if HRAM_START <= address && address <= HRAM_END {
            self.hram.read(address - HRAM_START)
        } else {
            UNMAPPED
        }
    }

    /// Writes `data` to the register at `address`, if there is a writable
    /// one, and says whether there was.
    fn write_registers(&mut self, address: u16, data: u8) -> (found: bool)
        ensures
            found == old(self)@.write_registers(address, data) is Some,
            found ==> final(self)@ == old(self)@.write_registers(address, data)->Some_0,
            !found ==> final(self)@ == old(self)@,
    {
        if address == JOYP {
            self.joypad.write(data);
            true
        } else if is_lcd_register(address) {
            self.gpu.write(address, data);
            true
        } else if address == DMA {
            self.oam_dma.request(data);
            true
        } else if address == IE || address == IF {
            self.interrupt.write(address, data);
            true
        } else if address == DIV {
            self.timer.write_div(data);
            true
        } else if address == TIMA {
            self.timer.write_counter(data);
            true
        } else if address == TMA {
            self.timer.write_modulo(data);
            true
        } else if address == TAC {
            self.timer.write_control(data);
            true
        } else {
            false
        }
    }

    pub fn write(&mut self, address: u16, data: u8)
        ensures
            final(self)@ == old(self)@.write(address, data),
    {
        reveal(BusModel::write);
        let found = self.write_registers(address, data);
        if !found {
            if address <= ROM_BANK_END {
                self.rom.write(address, data);
            } else if address <= VRAM_END {
                self.gpu.write(address, data);
            } else if address <= ERAM_END {
                self.rom.write(address, data);
            } else if address <= WRAM_END {
                self.wram.write(address, data);
            } else if address <= ECHO_END {
                self.wram.write(address - ECHO_OFFSET, data);
            } else if address <= OAM_END {
                self.gpu.write(address, data);
            } else if HRAM_START <= address && address <= HRAM_END {
                self.hram.write(address - HRAM_START, data);
            }
        }
    }

    /// Gives the transfer into sprite memory, if one is under way, `cycles`
    /// clock cycles and copies the bytes that fall due.
    fn perform_dma(&mut self, cycles: usize)
        ensures
            final(self)@ == old(self)@.after_dma(cycles as nat),
    {
        if self.oam_dma.active {
            let chunk = self.oam_dma.cycles(cycles);
            let from: u16 = chunk.0;
            let to: u16 = chunk.1 - OAM_START;
            let bytes: u8 = chunk.2;
            let ghost start = self@;
            let mut offset: u8 = 0;
            while offset < bytes
                invariant
                    offset <= bytes,
                    from + bytes <= 0xFFFF,
                    to + bytes <= 160,
                    start.copied(from, to, bytes as nat) == self@.copied(
                        (from + offset) as u16,
                        (to + offset) as u16,
                        (bytes - offset) as nat,
                    ),
                decreases bytes - offset,
            {
                let value: u8 = self.read(from + offset as u16);
                self.gpu.write_oam(to + offset as u16, value);
                offset = offset + 1;
            }
        }
    }

    /// Counts `cycles` clock cycles on every device that keeps time. A frame
    /// that the LCD controller finishes goes to `video_sink`.
    pub fn cycles(&mut self, cycles: usize, video_sink: &mut VideoSink)
        ensures
            final(self)@ == old(self)@.tick(cycles as nat),
            final(video_sink)@ == delivered(old(video_sink)@, old(self)@.gpu.tick(cycles as nat)),
    {
        reveal(BusModel::tick);
        self.gpu.cycles(cycles, &mut self.interrupt, video_sink);
        self.timer.cycles(cycles, &mut self.interrupt);
        self.perform_dma(cycles);
    }
}

/// Whatever is written to the divider register, it reads zero afterwards.
pub proof fn lemma_div_write_reads_zero(bus: BusModel, data: u8)
    ensures
        bus.write(DIV, data).read(DIV) == 0,
{
    reveal(BusModel::read);
    reveal(BusModel::write);
}

/// An address at which the machine stores what is written: work RAM, its
/// mirror, and high RAM.
pub open spec fn is_plain_ram(address: u16) -> bool {
    WRAM_START <= address <= ECHO_END || HRAM_START <= address <= HRAM_END
}

/// The buffer cell behind an address of plain RAM; two addresses name the
/// same byte just when their cells are equal.
pub open spec fn ram_cell(bus: BusModel, address: u16) -> int {
    if address <= WRAM_END {
        bus.wram.offset(address)
    } else if address <= ECHO_END {
        bus.wram.offset((address - ECHO_OFFSET) as u16)
    } else {
        -1 - (address - HRAM_START)
    }
}

/// A byte written to plain RAM is read back from there, and the write
/// changes no other byte of plain RAM.
pub proof fn lemma_ram_read_after_write(bus: BusModel, address: u16, data: u8, other: u16)
    requires
        bus.wf(),
        is_plain_ram(address),
        is_plain_ram(other),
    ensures
        bus.write(address, data).wf(),
        bus.write(address, data).read(address) == data,
        ram_cell(bus, other) != ram_cell(bus, address) ==> bus.write(address, data).read(other)
            == bus.read(other),
        ram_cell(bus.write(address, data), other) == ram_cell(bus, other),
{
    reveal(BusModel::read);
    reveal(BusModel::write);
}

} // verus!
