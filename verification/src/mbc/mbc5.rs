//! The fifth-generation bank controller: 512 ROM banks and sixteen RAM banks.

use vstd::prelude::*;
use crate::mbc::{
    copy_bytes, opens_ram, rom_byte, spec_opens_ram, spec_rom_byte, MemoryController, OPEN_BUS,
    RAM_BANK_SIZE, ROM_BANK_SIZE,
};
use crate::memory_map::{ERAM_END, ERAM_START, ROM_BANK_END, ROM_BANK_START, ROM_END};

verus! {

/// Bytes of external RAM behind this controller: sixteen banks.
pub const MBC5_RAM_SIZE: usize = 0x20000;

/// The registers and the external RAM of the controller.
pub struct Mbc5Model {
    /// The nine-bit ROM bank seen at `0x4000`.
    pub rom_bank: u16,
    /// The four-bit RAM bank seen at `0xA000`.
    pub ram_bank: u8,
    pub ram_enabled: bool,
    pub eram: Seq<u8>,
}

impl Mbc5Model {
    pub open spec fn wf(self) -> bool {
        self.rom_bank < 512 && self.ram_bank < 16 && self.eram.len() == MBC5_RAM_SIZE
    }

    /// The controller as it powers up.
    pub open spec fn initial() -> Mbc5Model {
        Mbc5Model {
            rom_bank: 1,
            ram_bank: 0,
            ram_enabled: false,
            eram: Seq::new(MBC5_RAM_SIZE as nat, |i: int| 0u8),
        }
    }

    /// Where in external RAM the byte at `address` lies.
    pub open spec fn ram_offset(self, address: u16) -> int {
        self.ram_bank * RAM_BANK_SIZE + (address - ERAM_START)
    }

    pub open spec fn read(self, rom: Seq<u8>, address: u16) -> u8 {
        if address <= ROM_END {
            spec_rom_byte(rom, address as int)
        } else if address <= ROM_BANK_END {
            spec_rom_byte(rom, self.rom_bank * ROM_BANK_SIZE + (address - ROM_BANK_START))
        } else if ERAM_START <= address <= ERAM_END && self.ram_enabled {
            self.eram[self.ram_offset(address)]
        } else {
            OPEN_BUS
        }
    }

    pub open spec fn write(self, address: u16, data: u8) -> Mbc5Model {
        if address <= 0x1FFF {
            Mbc5Model { ram_enabled: spec_opens_ram(data), ..self }
        } else if address <= 0x2FFF {
            Mbc5Model { rom_bank: ((self.rom_bank / 256) * 256 + data) as u16, ..self }
        } else if address <= 0x3FFF {
            Mbc5Model { rom_bank: ((data % 2) * 256 + self.rom_bank % 256) as u16, ..self }
        } else if address <= 0x5FFF {
            Mbc5Model { ram_bank: data % 16, ..self }
        } else if ERAM_START <= address <= ERAM_END && self.ram_enabled {
            Mbc5Model { eram: self.eram.update(self.ram_offset(address), data), ..self }
        } else {
            self
        }
    }
}

/// The fifth-generation bank controller.
pub struct MBC5 {
    rom_bank: u16,
    ram_bank: u8,
    ram_enabled: bool,
    eram: Vec<u8>,
}

impl View for MBC5 {
    type V = Mbc5Model;

    closed spec fn view(&self) -> Mbc5Model {
        Mbc5Model {
            rom_bank: self.rom_bank,
            ram_bank: self.ram_bank,
            ram_enabled: self.ram_enabled,
            eram: self.eram@,
        }
    }
}

impl MBC5 {
    #[verifier::type_invariant]
    pub open spec fn inv(&self) -> bool {
        self@.wf()
    }

    pub fn new() -> (mbc: MBC5)
        ensures
            mbc@ == Mbc5Model::initial(),
    {
        let mbc = MBC5 {
            rom_bank: 1,
            ram_bank: 0,
            ram_enabled: false,
            eram: vec![0u8; MBC5_RAM_SIZE],
        };
        assert(mbc.eram@ =~= Seq::new(MBC5_RAM_SIZE as nat, |i: int| 0u8));
        mbc
    }

    fn ram_offset(&self, address: u16) -> (offset: usize)
        requires
            ERAM_START <= address <= ERAM_END,
        ensures
            offset == self@.ram_offset(address),
            offset < MBC5_RAM_SIZE,
            self@.wf(),
    {
        proof {
            use_type_invariant(self);
        }
        self.ram_bank as usize * RAM_BANK_SIZE + (address - ERAM_START) as usize
    }
}

impl MemoryController for MBC5 {
    open spec fn reads(&self, rom: Seq<u8>, address: u16) -> u8 {
        self@.read(rom, address)
    }

    open spec fn writes(&self, address: u16, data: u8, after: &Self) -> bool {
        after@ == self@.write(address, data)
    }

    open spec fn saved(&self) -> Seq<u8> {
        self@.eram
    }

    open spec fn restores(&self, data: Seq<u8>, after: &Self) -> bool {
        after@ == (Mbc5Model { eram: data, ..self@ })
    }

    fn read(&self, bytes: &Vec<u8>, address: u16) -> (value: u8) {
        proof {
            use_type_invariant(self);
        }
        if address <= ROM_END {
            rom_byte(bytes, address as usize)
        } else if address <= ROM_BANK_END {
            rom_byte(
                bytes,
                self.rom_bank as usize * ROM_BANK_SIZE + (address - ROM_BANK_START) as usize,
            )
        } else if ERAM_START <= address && address <= ERAM_END && self.ram_enabled {
            let offset = self.ram_offset(address);
            self.eram[offset]
        } else {
            OPEN_BUS
        }
    }

    fn write(&mut self, address: u16, data: u8) {
        proof {
            use_type_invariant(&*self);
        }
        if address <= 0x1FFF {
            self.ram_enabled = opens_ram(data);
        } else if address <= 0x2FFF {
            self.rom_bank = (self.rom_bank / 256) * 256 + data as u16;
        } else if address <= 0x3FFF {
            self.rom_bank = (data % 2) as u16 * 256 + self.rom_bank % 256;
        } else if address <= 0x5FFF {
            self.ram_bank = data % 16;
        } else if ERAM_START <= address && address <= ERAM_END && self.ram_enabled {
            let offset = self.ram_offset(address);
            self.eram[offset] = data;
        }
    }

    fn persist(&self) -> (data: Vec<u8>) {
        copy_bytes(&self.eram)
    }

    fn restore(&mut self, data: &Vec<u8>) -> (taken: bool) {
        proof {
            use_type_invariant(&*self);
        }
        if data.len() == self.eram.len() {
            self.eram = copy_bytes(data);
            true
        } else {
            false
        }
    }
}

} // verus!
