//! The interrupt controller: master enable, the enable and request
//! registers, and the choice of the next interrupt to serve.

use vstd::prelude::*;
use crate::helper::MemoryRegister;
use crate::memory_map::{IE, IF};

verus! {

/// The five interrupt sources, in order of priority.
#[derive(Clone, Copy, Debug, PartialEq, Eq, Structural)]
pub enum InterruptFlag {
    VBlank,
    Lcdc,
    Timer,
    Serial,
    Joypad,
}

impl InterruptFlag {
    /// The bit of the enable and request registers that belongs to this source.
    pub open spec fn spec_mask(self) -> u8 {
        match self {
            InterruptFlag::VBlank => 0x01,
            InterruptFlag::Lcdc => 0x02,
            InterruptFlag::Timer => 0x04,
            InterruptFlag::Serial => 0x08,
            InterruptFlag::Joypad => 0x10,
        }
    }

    #[verifier::when_used_as_spec(spec_mask)]
    pub fn mask(self) -> (m: u8)
        ensures
            m == self.spec_mask(),
    {
        match self {
            InterruptFlag::VBlank => 0x01,
            InterruptFlag::Lcdc => 0x02,
            InterruptFlag::Timer => 0x04,
            InterruptFlag::Serial => 0x08,
            InterruptFlag::Joypad => 0x10,
        }
    }

    /// The handler entry that serves this source.
    pub open spec fn spec_vector(self) -> InterruptVector {
        match self {
            InterruptFlag::VBlank => InterruptVector::VBlank,
            InterruptFlag::Lcdc => InterruptVector::Lcdc,
            InterruptFlag::Timer => InterruptVector::Timer,
            InterruptFlag::Serial => InterruptVector::Serial,
            InterruptFlag::Joypad => InterruptVector::Joypad,
        }
    }

    #[verifier::when_used_as_spec(spec_vector)]
    pub fn vector(self) -> (v: InterruptVector)
        ensures
            v == self.spec_vector(),
    {
        match self {
            InterruptFlag::VBlank => InterruptVector::VBlank,
            InterruptFlag::Lcdc => InterruptVector::Lcdc,
            InterruptFlag::Timer => InterruptVector::Timer,
            InterruptFlag::Serial => InterruptVector::Serial,
            InterruptFlag::Joypad => InterruptVector::Joypad,
        }
    }
}

/// The handler entry points, one per interrupt source.
#[derive(Clone, Copy, Debug, PartialEq, Eq, Structural)]
pub enum InterruptVector {
    VBlank,
    Lcdc,
    Timer,
    Serial,
    Joypad,
}

impl InterruptVector {
    /// The address the processor jumps to.
    pub open spec fn spec_address(self) -> u16 {
        match self {
            InterruptVector::VBlank => 0x0040,
            InterruptVector::Lcdc => 0x0048,
            InterruptVector::Timer => 0x0050,
            InterruptVector::Serial => 0x0058,
            InterruptVector::Joypad => 0x0060,
        }
    }

    #[verifier::when_used_as_spec(spec_address)]
    pub fn address(self) -> (a: u16)
        ensures
            a == self.spec_address(),
    {
        match self {
            InterruptVector::VBlank => 0x0040,
            InterruptVector::Lcdc => 0x0048,
            InterruptVector::Timer => 0x0050,
            InterruptVector::Serial => 0x0058,
            InterruptVector::Joypad => 0x0060,
        }
    }
}

/// The interrupt controller.
#[derive(Clone, Copy, Debug, PartialEq, Eq, Structural)]
pub struct InterruptHandler {
    /// The master enable: while false no interrupt is entered.
    pub master_enable: bool,
    /// Which sources may interrupt.
    pub enabled: MemoryRegister,
    /// Which sources have asked for service.
    pub requested: MemoryRegister,
}

impl InterruptHandler {
    pub open spec fn spec_new() -> InterruptHandler {
        InterruptHandler {
            master_enable: false,
            enabled: MemoryRegister { value: 0xFA },
            requested: MemoryRegister { value: 0x00 },
        }
    }

    pub fn new() -> (handler: InterruptHandler)
        ensures
            handler == InterruptHandler::spec_new(),
    {
        InterruptHandler {
            master_enable: false,
            enabled: MemoryRegister::new(0xFA),
            requested: MemoryRegister::new(0x00),
        }
    }

    /// Sets the master enable.
    pub fn enable(&mut self)
        ensures
            *final(self) == (InterruptHandler { master_enable: true, ..*old(self) }),
    {
        self.master_enable = true;
    }

    /// Clears the master enable. Requests are still recorded.
    pub fn disable(&mut self)
        ensures
            *final(self) == (InterruptHandler { master_enable: false, ..*old(self) }),
    {
        self.master_enable = false;
    }

    /// The value of the enable register (`IE`) or of the request register (`IF`).
    pub open spec fn spec_read(&self, address: u16) -> u8 {
        if address == IE {
            self.enabled.value
        } else {
            self.requested.value
        }
    }

    #[verifier::when_used_as_spec(spec_read)]
    pub fn read(&self, address: u16) -> (data: u8)
        requires
            address == IE || address == IF,
        ensures
            data == self.spec_read(address),
    {
        if address == IE {
            self.enabled.get()
        } else {
            self.requested.get()
        }
    }

    pub open spec fn with_write(self, address: u16, data: u8) -> InterruptHandler {
        if address == IE {
            InterruptHandler { enabled: MemoryRegister { value: data }, ..self }
        } else {
            InterruptHandler { requested: MemoryRegister { value: data }, ..self }
        }
    }

    pub fn write(&mut self, address: u16, data: u8)
        requires
            address == IE || address == IF,
        ensures
            *final(self) == old(self).with_write(address, data),
    {
        if address == IE {
            self.enabled.set(data);
        } else {
            self.requested.set(data);
        }
    }

    /// The bits that are both enabled and requested.
    pub open spec fn live(&self) -> u8 {
        self.enabled.value & self.requested.value
    }

    /// The source of highest priority that is both enabled and requested.
    pub open spec fn spec_pending(&self) -> Option<InterruptFlag> {
        if self.live() & 0x01 != 0 {
            Some(InterruptFlag::VBlank)
        } else if self.live() & 0x02 != 0 {
            Some(InterruptFlag::Lcdc)
        } else if self.live() & 0x04 != 0 {
            Some(InterruptFlag::Timer)
        } else if self.live() & 0x08 != 0 {
            Some(InterruptFlag::Serial)
        } else if self.live() & 0x10 != 0 {
            Some(InterruptFlag::Joypad)
        } else {
            None
        }
    }

    #[verifier::when_used_as_spec(spec_pending)]
    pub fn pending(&self) -> (next: Option<InterruptFlag>)
        ensures
            next == self.spec_pending(),
            next is None <==> self.live() & 0x1F == 0,
            next matches Some(k) ==> self.enabled.value & k.mask() != 0 && self.requested.value
                & k.mask() != 0,
    {
        let live: u8 = self.enabled.get() & self.requested.get();
        proof {
            lemma_live_bits(self.enabled.value, self.requested.value);
        }
        if live & 0x01 != 0 {
            Some(InterruptFlag::VBlank)
        } else if live & 0x02 != 0 {
            Some(InterruptFlag::Lcdc)
        } else if live & 0x04 != 0 {
            Some(InterruptFlag::Timer)
        } else if live & 0x08 != 0 {
            Some(InterruptFlag::Serial)
        } else if live & 0x10 != 0 {
            Some(InterruptFlag::Joypad)
        } else {
            None
        }
    }

    /// The controller after source `flag` has been taken up: the master
    /// enable is off and the source's request is withdrawn.
    pub open spec fn acknowledged(self, flag: InterruptFlag) -> InterruptHandler {
        InterruptHandler {
            master_enable: false,
            requested: MemoryRegister { value: self.requested.value & !flag.mask() },
            ..self
        }
    }

    /// The controller after `execute_next`.
    pub open spec fn after_execute_next(self) -> InterruptHandler {
        if self.master_enable && self.spec_pending() is Some {
            self.acknowledged(self.spec_pending()->Some_0)
        } else {
            self
        }
    }

    /// The entry point that `execute_next` hands out.
    pub open spec fn next_vector(self) -> Option<InterruptVector> {
        if self.master_enable && self.spec_pending() is Some {
            Some(self.spec_pending()->Some_0.vector())
        } else {
            None
        }
    }

    /// Takes up the pending interrupt of highest priority, if the master
    /// enable is set and there is one.
    pub fn execute_next(&mut self) -> (vector: Option<InterruptVector>)
        ensures
            vector == old(self).next_vector(),
            *final(self) == old(self).after_execute_next(),
    {
        if !self.master_enable {
            return None;
        }
        match self.pending() {
            Some(flag) => {
                self.master_enable = false;
                let request: u8 = self.requested.get();
                self.requested.set(request & !flag.mask());
                Some(flag.vector())
            },
            None => None,
        }
    }

    /// The controller with the request bit of `flag` set.
    pub open spec fn with_request(self, flag: InterruptFlag) -> InterruptHandler {
        InterruptHandler {
            requested: MemoryRegister { value: self.requested.value | flag.mask() },
            ..self
        }
    }

    /// Records a request, whatever the enables say.
    pub fn request_interrupt(&mut self, flag: InterruptFlag)
        ensures
            *final(self) == old(self).with_request(flag),
    {
        let register: u8 = self.requested.get();
        self.requested.set(register | flag.mask());
    }
}

/// How the single bits of two registers relate to their conjunction.
pub proof fn lemma_live_bits(ie: u8, iflag: u8)
    ensures
        ((ie & iflag) & 0x1F == 0) <==> ((ie & iflag) & 0x01 == 0 && (ie & iflag) & 0x02 == 0 && (ie
            & iflag) & 0x04 == 0 && (ie & iflag) & 0x08 == 0 && (ie & iflag) & 0x10 == 0),
        forall|m: u8| #![trigger (ie & iflag) & m] (ie & iflag) & m != 0 ==> ie & m != 0 && iflag & m != 0,
{
    assert(((ie & iflag) & 0x1F == 0) <==> ((ie & iflag) & 0x01 == 0 && (ie & iflag) & 0x02 == 0
        && (ie & iflag) & 0x04 == 0 && (ie & iflag) & 0x08 == 0 && (ie & iflag) & 0x10 == 0))
        by (bit_vector);
    assert forall|m: u8| #![trigger (ie & iflag) & m] (ie & iflag) & m != 0 implies ie & m != 0
        && iflag & m != 0 by {
        assert((ie & iflag) & m != 0 ==> ie & m != 0 && iflag & m != 0) by (bit_vector);
    }
}

} // verus!
