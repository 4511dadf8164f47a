//! Work RAM: eight banks of 4 KiB, the first fixed and one of the others
//! switched in behind it.

use vstd::prelude::*;
use crate::memory_map::{WRAM_END, WRAM_START};

verus! {

/// Number of bytes of work RAM, all banks together.
pub const WRAM_SIZE: usize = 32768;

/// Number of bytes in one bank.
pub const WRAM_BANK_SIZE: usize = 4096;

/// What work RAM holds and which bank is selected.
pub struct WramModel {
    pub bytes: Seq<u8>,
    pub bank: u8,
}

impl WramModel {
    pub open spec fn wf(self) -> bool {
        self.bytes.len() == WRAM_SIZE && self.bank < 8
    }

    /// Freshly made work RAM: all zero, bank register zero.
    pub open spec fn blank() -> WramModel {
        WramModel { bytes: Seq::new(WRAM_SIZE as nat, |i: int| 0u8), bank: 0 }
    }

    /// The bank seen in the upper half of the window: the selected one, or
    /// bank 1 where bank 0 is selected.
    pub open spec fn upper_bank(self) -> int {
        if self.bank == 0 {
            1
        } else {
            self.bank as int
        }
    }

    /// Where in the buffer the byte at `address` lies. The lower 4 KiB of
    /// the window always show bank 0.
    pub open spec fn offset(self, address: u16) -> int {
        if address < WRAM_START + WRAM_BANK_SIZE {
            address - WRAM_START
        } else {
            self.upper_bank() * WRAM_BANK_SIZE + (address - WRAM_START - WRAM_BANK_SIZE)
        }
    }

    pub open spec fn read(self, address: u16) -> u8 {
        self.bytes[self.offset(address)]
    }

    pub open spec fn write(self, address: u16, data: u8) -> WramModel {
        WramModel { bytes: self.bytes.update(self.offset(address), data), ..self }
    }

    pub open spec fn with_bank(self, data: u8) -> WramModel {
        WramModel { bank: data % 8, ..self }
    }
}

/// Work RAM, addressed as the processor sees it (`0xC000` to `0xDFFF`).
pub struct Wram {
    bytes: Vec<u8>,
    ram_bank: u8,
}

impl View for Wram {
    type V = WramModel;

    closed spec fn view(&self) -> WramModel {
        WramModel { bytes: self.bytes@, bank: self.ram_bank }
    }
}

impl Wram {
    #[verifier::type_invariant]
    pub open spec fn inv(&self) -> bool {
        self@.wf()
    }

    pub fn new() -> (ram: Wram)
        ensures
            ram@ == WramModel::blank(),
    {
        let ram = Wram { bytes: vec![0u8; WRAM_SIZE], ram_bank: 0 };
        assert(ram.bytes@ =~= Seq::new(WRAM_SIZE as nat, |i: int| 0u8));
        ram
    }

    pub fn size(&self) -> (n: usize)
        ensures
            n == WRAM_SIZE,
            n == self@.bytes.len(),
    {
        proof {
            use_type_invariant(self);
        }
        self.bytes.len()
    }

    fn offset(&self, address: u16) -> (index: usize)
        requires
            WRAM_START <= address <= WRAM_END,
        ensures
            index == self@.offset(address),
            index < WRAM_SIZE,
            self@.wf(),
    {
        proof {
            use_type_invariant(self);
        }
        if address < 0xD000 {
            (address - 0xC000) as usize
        } else {
            let bank: usize = if self.ram_bank == 0 {
                1
            } else {
                self.ram_bank as usize
            };
            bank * 4096 + (address - 0xD000) as usize
        }
    }

    pub fn read(&self, address: u16) -> (value: u8)
        requires
            WRAM_START <= address <= WRAM_END,
        ensures
            value == self@.read(address),
    {
        let index = self.offset(address);
        self.bytes[index]
    }

    pub fn write(&mut self, address: u16, data: u8)
        requires
            WRAM_START <= address <= WRAM_END,
        ensures
            final(self)@ == old(self)@.write(address, data),
    {
        let index = self.offset(address);
        self.bytes[index] = data;
    }

    /// The bank register.
    pub fn get_ram_bank(&self) -> (bank: u8)
        ensures
            bank == self@.bank,
    {
        self.ram_bank
    }

    /// Selects a bank; only the three low bits of `data` count.
    pub fn set_ram_bank(&mut self, data: u8)
        ensures
            final(self)@ == old(self)@.with_bank(data),
    {
        proof {
            use_type_invariant(&*self);
        }
        self.ram_bank = data % 8;
    }
}

/// A byte written to work RAM is read back from the same address, and no
/// other address of the window changes.
pub proof fn lemma_wram_read_after_write(ram: WramModel, address: u16, data: u8, other: u16)
    requires
        ram.wf(),
        WRAM_START <= address <= WRAM_END,
        WRAM_START <= other <= WRAM_END,
    ensures
        ram.write(address, data).wf(),
        ram.write(address, data).read(address) == data,
        other != address ==> ram.write(address, data).read(other) == ram.read(other),
{
}

} // verus!
