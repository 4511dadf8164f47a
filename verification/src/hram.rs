//! High RAM: the small block of fast memory at the top of the address space.

use vstd::prelude::*;

verus! {

/// Number of bytes of high RAM.
pub const HRAM_SIZE: usize = 127;

/// High RAM, addressed by offset from its first byte.
pub struct Hram {
    bytes: Vec<u8>,
}

impl View for Hram {
    type V = Seq<u8>;

    closed spec fn view(&self) -> Seq<u8> {
        self.bytes@
    }
}

impl Hram {
    #[verifier::type_invariant]
    pub open spec fn inv(&self) -> bool {
        self@.len() == HRAM_SIZE
    }

    /// All bytes start out zero.
    pub fn new() -> (hram: Hram)
        ensures
            hram@ == Seq::new(HRAM_SIZE as nat, |i: int| 0u8),
    {
        let hram = Hram { bytes: vec![0u8; HRAM_SIZE] };
        assert(hram.bytes@ =~= Seq::new(HRAM_SIZE as nat, |i: int| 0u8));
        hram
    }

    pub fn size(&self) -> (n: usize)
        ensures
            n == HRAM_SIZE,
            n == self@.len(),
    {
        proof {
            use_type_invariant(self);
        }
        self.bytes.len()
    }

    pub fn read(&self, address: u16) -> (value: u8)
        requires
            address < HRAM_SIZE,
        ensures
            value == self@[address as int],
    {
        proof {
            use_type_invariant(self);
        }
        self.bytes[address as usize]
    }

    pub fn write(&mut self, address: u16, data: u8)
        requires
            address < HRAM_SIZE,
        ensures
            final(self)@ == old(self)@.update(address as int, data),
    {
        proof {
            use_type_invariant(&*self);
        }
        self.bytes[address as usize] = data;
    }
}

} // verus!
