//! Sprite attribute memory: forty entries of four bytes.

use vstd::prelude::*;

verus! {

/// Number of bytes of sprite attribute memory.
pub const OAM_SIZE: usize = 160;

/// Sprite attribute memory, addressed by offset from its first byte.
pub struct Oam {
    bytes: Vec<u8>,
}

impl View for Oam {
    type V = Seq<u8>;

    closed spec fn view(&self) -> Seq<u8> {
        self.bytes@
    }
}

impl Oam {
    #[verifier::type_invariant]
    pub open spec fn inv(&self) -> bool {
        self@.len() == OAM_SIZE
    }

    /// All bytes start out zero.
    pub fn new() -> (oam: Oam)
        ensures
            oam@ == Seq::new(OAM_SIZE as nat, |i: int| 0u8),
    {
        let oam = Oam { bytes: vec![0u8; OAM_SIZE] };
        assert(oam.bytes@ =~= Seq::new(OAM_SIZE as nat, |i: int| 0u8));
        oam
    }

    pub fn size(&self) -> (n: usize)
        ensures
            n == OAM_SIZE,
            n == self@.len(),
    {
        proof {
            use_type_invariant(self);
        }
        self.bytes.len()
    }

    pub fn read(&self, address: u16) -> (value: u8)
        requires
            address < OAM_SIZE,
        ensures
            value == self@[address as int],
        no_unwind
    {
        proof {
            use_type_invariant(self);
        }
        self.bytes[address as usize]
    }

    pub fn write(&mut self, address: u16, data: u8)
        requires
            address < OAM_SIZE,
        ensures
            final(self)@ == old(self)@.update(address as int, data),
        no_unwind
    {
        proof {
            use_type_invariant(&*self);
        }
        self.bytes[address as usize] = data;
    }
}

} // verus!
