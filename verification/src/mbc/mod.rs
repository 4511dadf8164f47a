//! Cartridge bank controllers: what sits between the address bus and the
//! ROM image with its external RAM.

use vstd::prelude::*;

pub mod mbc0;
pub mod mbc1;
pub mod mbc3;
pub mod mbc5;



verus! {

/// Bytes in one switchable ROM bank.
pub const ROM_BANK_SIZE: usize = 0x4000;

/// Bytes in one external RAM bank.
pub const RAM_BANK_SIZE: usize = 0x2000;

/// What a read from a place without memory gives.
pub const OPEN_BUS: u8 = 0xFF;

/// The byte at `index` of the image, or `0xFF` where the image has ended.
pub open spec fn spec_rom_byte(rom: Seq<u8>, index: int) -> u8 {
    if 0 <= index < rom.len() {
        rom[index]
    } else {
        OPEN_BUS
    }
}

pub fn rom_byte(rom: &Vec<u8>, index: usize) -> (value: u8)
    ensures
        value == spec_rom_byte(rom@, index as int),
{
    if index < rom.len() {
        rom[index]
    } else {
        OPEN_BUS
    }
}

/// Whether a write of `data` to the RAM gate opens external RAM: it does
/// when the low nibble is `0xA`.
pub open spec fn spec_opens_ram(data: u8) -> bool {
    data % 16 == 0x0A
}

#[verifier::when_used_as_spec(spec_opens_ram)]
pub fn opens_ram(data: u8) -> (open: bool)
    ensures
        open == spec_opens_ram(data),
{
    data % 16 == 0x0A
}

/// A copy of `bytes`.
pub fn copy_bytes(bytes: &Vec<u8>) -> (copy: Vec<u8>)
    ensures
        copy@ == bytes@,
{
    let mut copy: Vec<u8> = Vec::with_capacity(bytes.len());
    let mut i: usize = 0;
    while i < bytes.len()
        invariant
            i <= bytes.len(),
            copy@ == bytes@.subrange(0, i as int),
        decreases bytes.len() - i,
    {
        copy.push(bytes[i]);
        assert(copy@ =~= bytes@.subrange(0, i + 1));
        i = i + 1;
    }
    assert(copy@ =~= bytes@);
    copy
}

/// What every bank controller offers to the interconnect.
pub trait MemoryController: Sized {
    /// What a read of `address` gives, over the image `rom`.
    spec fn reads(&self, rom: Seq<u8>, address: u16) -> u8;

    /// Whether `after` is this controller after `data` was written to `address`.
    spec fn writes(&self, address: u16, data: u8, after: &Self) -> bool;

    /// The external RAM as it would be saved.
    spec fn saved(&self) -> Seq<u8>;

    /// Whether `after` is this controller with its external RAM replaced by `data`.
    spec fn restores(&self, data: Seq<u8>, after: &Self) -> bool;

    fn read(&self, bytes: &Vec<u8>, address: u16) -> (value: u8)
        ensures
            value == self.reads(bytes@, address),
    ;

    fn write(&mut self, address: u16, data: u8)
        ensures
            old(self).writes(address, data, final(self)),
    ;

    /// Hands out the external RAM for saving.
    fn persist(&self) -> (data: Vec<u8>)
        ensures
            data@ == self.saved(),
    ;

    /// Takes over saved external RAM, if `data` has the size of the external
    /// RAM; says whether it did.
    fn restore(&mut self, data: &Vec<u8>) -> (taken: bool)
        ensures
            taken == (data@.len() == old(self).saved().len()),
            taken ==> old(self).restores(data@, final(self)),
            !taken ==> *final(self) == *old(self),
    ;
}

} // verus!
