//! The first-generation bank controller: up to 128 ROM banks and four RAM
//! banks, chosen through two registers and a mode bit.

use vstd::prelude::*;
use crate::mbc::{
    copy_bytes, opens_ram, rom_byte, spec_opens_ram, spec_rom_byte, MemoryController, OPEN_BUS,
    RAM_BANK_SIZE, ROM_BANK_SIZE,
};
use crate::memory_map::{ERAM_END, ERAM_START, ROM_BANK_END, ROM_BANK_START, ROM_END};

verus! {

/// Bytes of external RAM behind this controller: four banks.
pub const MBC1_RAM_SIZE: usize = 0x8000;

/// The registers and the external RAM of the controller.
pub struct Mbc1Model {
    /// The low five bits of the ROM bank number.
    pub bank_low: u8,
    /// Two more bits: the top of the ROM bank number, or the RAM bank.
    pub bank_high: u8,
    pub ram_enabled: bool,
    /// Whether `bank_high` selects the RAM bank instead of ROM bank bits.
    pub ram_mode: bool,
    pub eram: Seq<u8>,
}

impl Mbc1Model {
    pub open spec fn wf(self) -> bool {
        self.bank_low < 32 && self.bank_high < 4 && self.eram.len() == MBC1_RAM_SIZE
    }

    /// The controller as it powers up.
    pub open spec fn initial() -> Mbc1Model {
        Mbc1Model {
            bank_low: 1,
            bank_high: 0,
            ram_enabled: false,
            ram_mode: false,
            eram: Seq::new(MBC1_RAM_SIZE as nat, |i: int| 0u8),
        }
    }

    /// The ROM bank seen at `0x4000`. Banks `0x00`, `0x20`, `0x40` and `0x60`
    /// cannot be selected: the bank after each takes its place.
    pub open spec fn rom_bank(self) -> int {
        let raw = if self.ram_mode {
            self.bank_low as int
        } else {
            self.bank_high * 32 + self.bank_low
        };
        if raw % 32 == 0 {
            raw + 1
        } else {
            raw
        }
    }

    /// The RAM bank seen at `0xA000`.
    pub open spec fn ram_bank(self) -> int {
        if self.ram_mode {
            self.bank_high as int
        } else {
            0
        }
    }

    /// Where in external RAM the byte at `address` lies.
    pub open spec fn ram_offset(self, address: u16) -> int {
        self.ram_bank() * RAM_BANK_SIZE + (address - ERAM_START)
    }

    pub open spec fn read(self, rom: Seq<u8>, address: u16) -> u8 {
        if address <= ROM_END {
            spec_rom_byte(rom, address as int)
        } else if address <= ROM_BANK_END {
            spec_rom_byte(rom, self.rom_bank() * ROM_BANK_SIZE + (address - ROM_BANK_START))
        } else if ERAM_START <= address <= ERAM_END && self.ram_enabled {
            self.eram[self.ram_offset(address)]
        } else {
            OPEN_BUS
        }
    }

    pub open spec fn write(self, address: u16, data: u8) -> Mbc1Model {
        if address <= 0x1FFF {
            Mbc1Model { ram_enabled: spec_opens_ram(data), ..self }
        } else if address <= 0x3FFF {
            Mbc1Model { bank_low: data % 32, ..self }
        } else if address <= 0x5FFF {
            Mbc1Model { bank_high: data % 4, ..self }
        } else if address <= 0x7FFF {
            Mbc1Model { ram_mode: data % 2 == 1, ..self }
        } else if ERAM_START <= address <= ERAM_END && self.ram_enabled {
            Mbc1Model { eram: self.eram.update(self.ram_offset(address), data), ..self }
        } else {
            self
        }
    }
}

/// The first-generation bank controller.
pub struct MBC1 {
    bank_low: u8,
    bank_high: u8,
    ram_enabled: bool,
    ram_mode: bool,
    eram: Vec<u8>,
}

impl View for MBC1 {
    type V = Mbc1Model;

    closed spec fn view(&self) -> Mbc1Model {
        Mbc1Model {
            bank_low: self.bank_low,
            bank_high: self.bank_high,
            ram_enabled: self.ram_enabled,
            ram_mode: self.ram_mode,
            eram: self.eram@,
        }
    }
}

impl MBC1 {
    #[verifier::type_invariant]
    pub open spec fn inv(&self) -> bool {
        self@.wf()
    }

    pub fn new() -> (mbc: MBC1)
        ensures
            mbc@ == Mbc1Model::initial(),
    {
        let mbc = MBC1 {
            bank_low: 1,
            bank_high: 0,
            ram_enabled: false,
            ram_mode: false,
            eram: vec![0u8; MBC1_RAM_SIZE],
        };
        assert(mbc.eram@ =~= Seq::new(MBC1_RAM_SIZE as nat, |i: int| 0u8));
        mbc
    }

    fn rom_bank(&self) -> (bank: usize)
        ensures
            bank == self@.rom_bank(),
            bank < 128,
    {
        proof {
            use_type_invariant(self);
        }
        let raw: usize = if self.ram_mode {
            self.bank_low as usize
        } else {
            self.bank_high as usize * 32 + self.bank_low as usize
        };
        if raw % 32 == 0 {
            raw + 1
        } else {
            raw
        }
    }

    fn ram_offset(&self, address: u16) -> (offset: usize)
        requires
            ERAM_START <= address <= ERAM_END,
        ensures
            offset == self@.ram_offset(address),
            offset < MBC1_RAM_SIZE,
            self@.wf(),
    {
        proof {
            use_type_invariant(self);
        }
        let bank: usize = if self.ram_mode {
            self.bank_high as usize
        } else {
            0
        };
        bank * RAM_BANK_SIZE + (address - ERAM_START) as usize
    }
}

impl MemoryController for MBC1 {
    open spec fn reads(&self, rom: Seq<u8>, address: u16) -> u8 {
        self@.read(rom, address)
    }

    open spec fn writes(&self, address: u16, data: u8, after: &Self) -> bool {
        after@ == self@.write(address, data)
    }

    open spec fn saved(&self) -> Seq<u8> {
        self@.eram
    }

    open spec fn restores(&self, data: Seq<u8>, after: &Self) -> bool {
        after@ == (Mbc1Model { eram: data, ..self@ })
    }

    fn read(&self, bytes: &Vec<u8>, address: u16) -> (value: u8) {
        if address <= ROM_END {
            rom_byte(bytes, address as usize)
        } else if address <= ROM_BANK_END {
            rom_byte(bytes, self.rom_bank() * ROM_BANK_SIZE + (address - ROM_BANK_START) as usize)
        } else if ERAM_START <= address && address <= ERAM_END && self.ram_enabled {
            let offset = self.ram_offset(address);
            self.eram[offset]
        } else {
            OPEN_BUS
        }
    }

    fn write(&mut self, address: u16, data: u8) {
        proof {
            use_type_invariant(&*self);
        }
        if address <= 0x1FFF {
            self.ram_enabled = opens_ram(data);
        } else if address <= 0x3FFF {
            self.bank_low = data % 32;
        } else if address <= 0x5FFF {
            self.bank_high = data % 4;
        } else if address <= 0x7FFF {
            self.ram_mode = data % 2 == 1;
        } else if ERAM_START <= address && address <= ERAM_END && self.ram_enabled {
            let offset = self.ram_offset(address);
            self.eram[offset] = data;
        }
    }

    fn persist(&self) -> (data: Vec<u8>) {
        copy_bytes(&self.eram)
    }

    fn restore(&mut self, data: &Vec<u8>) -> (taken: bool) {
        proof {
            use_type_invariant(&*self);
        }
        if data.len() == self.eram.len() {
            self.eram = copy_bytes(data);
            true
        } else {
            false
        }
    }
}

} // verus!
