//! The third-generation bank controller: 128 ROM banks and four RAM banks.
//! Its real-time clock is not modelled: the clock registers cannot be
//! selected, and a write of their numbers selects a RAM bank by the two low bits.

use vstd::prelude::*;
use crate::mbc::{
    copy_bytes, opens_ram, rom_byte, spec_opens_ram, spec_rom_byte, MemoryController, OPEN_BUS,
    RAM_BANK_SIZE, ROM_BANK_SIZE,
};
use crate::memory_map::{ERAM_END, ERAM_START, ROM_BANK_END, ROM_BANK_START, ROM_END};

verus! {

/// Bytes of external RAM behind this controller: four banks.
pub const MBC3_RAM_SIZE: usize = 0x8000;

/// The registers and the external RAM of the controller.
pub struct Mbc3Model {
    /// The ROM bank seen at `0x4000`, never zero.
    pub rom_bank: u8,
    /// The RAM bank seen at `0xA000`.
    pub ram_bank: u8,
    pub ram_enabled: bool,
    pub eram: Seq<u8>,
}

impl Mbc3Model {
    pub open spec fn wf(self) -> bool {
        1 <= self.rom_bank < 128 && self.ram_bank < 4 && self.eram.len() == MBC3_RAM_SIZE
    }

    /// The controller as it powers up.
    pub open spec fn initial() -> Mbc3Model {
        Mbc3Model {
            rom_bank: 1,
            ram_bank: 0,
            ram_enabled: false,
            eram: Seq::new(MBC3_RAM_SIZE as nat, |i: int| 0u8),
        }
    }

    /// Where in external RAM the byte at `address` lies.
    pub open spec fn ram_offset(self, address: u16) -> int {
        self.ram_bank * RAM_BANK_SIZE + (address - ERAM_START)
    }

    pub open spec fn read(self, rom: Seq<u8>, address: u16) -> u8 {
        if address <= ROM_END {
            spec_rom_byte(rom, address as int)
        } else if address <= ROM_BANK_END {
            spec_rom_byte(rom, self.rom_bank * ROM_BANK_SIZE + (address - ROM_BANK_START))
        } else if ERAM_START <= address <= ERAM_END && self.ram_enabled {
            self.eram[self.ram_offset(address)]
        } else {
            OPEN_BUS
        }
    }

    /// The seven-bit bank number in `data`, with bank 1 in place of bank 0.
    pub open spec fn bank_for(data: u8) -> u8 {
        if data % 128 == 0 {
            1
        } else {
            data % 128
        }
    }

    pub open spec fn write(self, address: u16, data: u8) -> Mbc3Model {
        if address <= 0x1FFF {
            Mbc3Model { ram_enabled: spec_opens_ram(data), ..self }
        } else if address <= 0x3FFF {
            Mbc3Model { rom_bank: Self::bank_for(data), ..self }
        } else if address <= 0x5FFF {
            if self.ram_enabled {
                Mbc3Model { ram_bank: data % 4, ..self }
            } else {
                self
            }
        } else if ERAM_START <= address <= ERAM_END && self.ram_enabled {
            Mbc3Model { eram: self.eram.update(self.ram_offset(address), data), ..self }
        } else {
            self
        }
    }
}

/// The third-generation bank controller.
pub struct MBC3 {
    rom_bank: u8,
    ram_bank: u8,
    ram_enabled: bool,
    eram: Vec<u8>,
}

impl View for MBC3 {
    type V = Mbc3Model;

    closed spec fn view(&self) -> Mbc3Model {
        Mbc3Model {
            rom_bank: self.rom_bank,
            ram_bank: self.ram_bank,
            ram_enabled: self.ram_enabled,
            eram: self.eram@,
        }
    }
}

impl MBC3 {
    #[verifier::type_invariant]
    pub open spec fn inv(&self) -> bool {
        self@.wf()
    }

    pub fn new() -> (mbc: MBC3)
        ensures
            mbc@ == Mbc3Model::initial(),
    {
        let mbc = MBC3 {
            rom_bank: 1,
            ram_bank: 0,
            ram_enabled: false,
            eram: vec![0u8; MBC3_RAM_SIZE],
        };
        assert(mbc.eram@ =~= Seq::new(MBC3_RAM_SIZE as nat, |i: int| 0u8));
        mbc
    }

    fn ram_offset(&self, address: u16) -> (offset: usize)
        requires
            ERAM_START <= address <= ERAM_END,
        ensures
            offset == self@.ram_offset(address),
            offset < MBC3_RAM_SIZE,
            self@.wf(),
    {
        proof {
            use_type_invariant(self);
        }
        self.ram_bank as usize * RAM_BANK_SIZE + (address - ERAM_START) as usize
    }
}

impl MemoryController for MBC3 {
    open spec fn reads(&self, rom: Seq<u8>, address: u16) -> u8 {
        self@.read(rom, address)
    }

    open spec fn writes(&self, address: u16, data: u8, after: &Self) -> bool {
        after@ == self@.write(address, data)
    }

    open spec fn saved(&self) -> Seq<u8> {
        self@.eram
    }

    open spec fn restores(&self, data: Seq<u8>, after: &Self) -> bool {
        after@ == (Mbc3Model { eram: data, ..self@ })
    }

    fn read(&self, bytes: &Vec<u8>, address: u16) -> (value: u8) {
        if address <= ROM_END {
            rom_byte(bytes, address as usize)
        } else if address <= ROM_BANK_END {
            rom_byte(
                bytes,
                self.rom_bank as usize * ROM_BANK_SIZE + (address - ROM_BANK_START) as usize,
            )
        } else if ERAM_START <= address && address <= ERAM_END && self.ram_enabled {
            let offset = self.ram_offset(address);
            self.eram[offset]
        } else {
            OPEN_BUS
        }
    }

    fn write(&mut self, address: u16, data: u8) {
        proof {
            use_type_invariant(&*self);
        }
        if address <= 0x1FFF {
            self.ram_enabled = opens_ram(data);
        } else if address <= 0x3FFF {
            let bank: u8 = data % 128;
            self.rom_bank = if bank == 0 {
                1
            } else {
                bank
            };
        } else if address <= 0x5FFF {
            if self.ram_enabled {
                self.ram_bank = data % 4;
            }
        } else if ERAM_START <= address && address <= ERAM_END && self.ram_enabled {
            let offset = self.ram_offset(address);
            self.eram[offset] = data;
        }
    }

    fn persist(&self) -> (data: Vec<u8>) {
        copy_bytes(&self.eram)
    }

    fn restore(&mut self, data: &Vec<u8>) -> (taken: bool) {
        proof {
            use_type_invariant(&*self);
        }
        if data.len() == self.eram.len() {
            self.eram = copy_bytes(data);
            true
        } else {
            false
        }
    }
}

} // verus!
