//! Video RAM: tile data and tile maps.

use vstd::prelude::*;

verus! {

/// Number of bytes of video RAM.
pub const VRAM_SIZE: usize = 8192;

/// Video RAM, addressed by offset from its first byte.
pub struct Vram {
    bytes: Vec<u8>,
}

impl View for Vram {
    type V = Seq<u8>;

    closed spec fn view(&self) -> Seq<u8> {
        self.bytes@
    }
}

impl Vram {
    #[verifier::type_invariant]
    pub open spec fn inv(&self) -> bool {
        self@.len() == VRAM_SIZE
    }

    /// All bytes start out zero.
    pub fn new() -> (vram: Vram)
        ensures
            vram@ == Seq::new(VRAM_SIZE as nat, |i: int| 0u8),
    {
        let vram = Vram { bytes: vec![0u8; VRAM_SIZE] };
        assert(vram.bytes@ =~= Seq::new(VRAM_SIZE as nat, |i: int| 0u8));
        vram
    }

    pub fn size(&self) -> (n: usize)
        ensures
            n == VRAM_SIZE,
            n == self@.len(),
    {
        proof {
            use_type_invariant(self);
        }
        self.bytes.len()
    }

    pub fn read(&self, address: u16) -> (value: u8)
        requires
            address < VRAM_SIZE,
        ensures
            value == self@[address as int],
        no_unwind
    {
        proof {
            use_type_invariant(self);
        }
        self.bytes[address as usize]
    }

    pub fn write(&mut self, address: u16, data: u8)
        requires
            address < VRAM_SIZE,
        ensures
            final(self)@ == old(self)@.update(address as int, data),
        no_unwind
    {
        proof {
            use_type_invariant(&*self);
        }
        self.bytes[address as usize] = data;
    }
}

} // verus!
