//! A cartridge without a bank controller: 32 KiB of ROM and no RAM.

use vstd::prelude::*;
use crate::mbc::{rom_byte, spec_rom_byte, MemoryController, OPEN_BUS};
use crate::memory_map::ROM_BANK_END;

verus! {

/// The controller of a cartridge that has none.
#[derive(Clone, Copy, Debug, PartialEq, Eq, Structural)]
pub struct MBC0;

impl MBC0 {
    /// The ROM is seen as it is; everywhere else nothing answers.
    pub open spec fn spec_read(rom: Seq<u8>, address: u16) -> u8 {
        if address <= ROM_BANK_END {
            spec_rom_byte(rom, address as int)
        } else {
            OPEN_BUS
        }
    }
}

impl MemoryController for MBC0 {
    open spec fn reads(&self, rom: Seq<u8>, address: u16) -> u8 {
        MBC0::spec_read(rom, address)
    }

    open spec fn writes(&self, address: u16, data: u8, after: &Self) -> bool {
        true
    }

    open spec fn saved(&self) -> Seq<u8> {
        Seq::empty()
    }

    open spec fn restores(&self, data: Seq<u8>, after: &Self) -> bool {
        true
    }

    fn read(&self, bytes: &Vec<u8>, address: u16) -> (value: u8) {
        if address <= ROM_BANK_END {
            rom_byte(bytes, address as usize)
        } else {
            OPEN_BUS
        }
    }

    /// Writes change nothing.
    fn write(&mut self, address: u16, data: u8) {
    }

    fn persist(&self) -> (data: Vec<u8>) {
        Vec::new()
    }

    fn restore(&mut self, data: &Vec<u8>) -> (taken: bool) {
        data.len() == 0
    }
}

} // verus!
