//! The engine that copies a 160-byte page into sprite memory, eight bytes
//! for every eight clock cycles.

use vstd::prelude::*;
use crate::memory_map::OAM_START;

verus! {

/// Units of eight bytes in one transfer.
pub const DMA_UNITS: u8 = 20;

/// Clock cycles one unit takes.
pub const DMA_UNIT_CYCLES: u8 = 8;

/// A transfer into sprite memory and how far it has come.
#[derive(Clone, Copy, Debug, PartialEq, Eq, Structural)]
pub struct OamDma {
    pub active: bool,
    /// High byte of the address the transfer reads from.
    pub page: u8,
    /// Units copied so far.
    pub progress: u8,
    /// Cycles counted towards the next unit.
    pub pending: u8,
}

impl OamDma {
    pub open spec fn spec_new() -> OamDma {
        OamDma { active: false, page: 0, progress: 0, pending: 0 }
    }

    pub fn new() -> (dma: OamDma)
        ensures
            dma == OamDma::spec_new(),
    {
        OamDma { active: false, page: 0, progress: 0, pending: 0 }
    }

    /// A transfer from page `source`, about to begin.
    pub open spec fn requested(source: u8) -> OamDma {
        OamDma { active: true, page: source, progress: 0, pending: 0 }
    }

    /// Starts a transfer of 160 bytes from address `source * 256`.
    pub fn request(&mut self, source: u8)
        ensures
            *final(self) == OamDma::requested(source),
    {
        self.active = true;
        self.page = source;
        self.progress = 0;
        self.pending = 0;
    }

    /// Units copied so far, which never counts above the whole transfer.
    pub open spec fn done(self) -> nat {
        if self.progress < DMA_UNITS {
            self.progress as nat
        } else {
            DMA_UNITS as nat
        }
    }

    /// Units that become due when `cycles` more cycles are counted.
    pub open spec fn units_due(self, cycles: nat) -> nat {
        let counted = (self.pending as nat + cycles) / (DMA_UNIT_CYCLES as nat);
        let left = (DMA_UNITS as nat - self.done()) as nat;
        if counted < left {
            counted
        } else {
            left
        }
    }

    /// What to copy for `cycles` more cycles: where from, where to, and
    /// how many bytes.
    pub open spec fn chunk(self, cycles: nat) -> (u16, u16, u8) {
        (
            (self.page as nat * 256 + self.done() * 8) as u16,
            (OAM_START as nat + self.done() * 8) as u16,
            (self.units_due(cycles) * 8) as u8,
        )
    }

    /// The engine after `cycles` more cycles. Once all units are copied it
    /// is idle again.
    pub open spec fn after_cycles(self, cycles: nat) -> OamDma {
        let progress = self.done() + self.units_due(cycles);
        if progress == DMA_UNITS {
            OamDma { active: false, progress: 0, pending: 0, ..self }
        } else {
            OamDma {
                progress: progress as u8,
                pending: ((self.pending as nat + cycles) % (DMA_UNIT_CYCLES as nat)) as u8,
                ..self
            }
        }
    }

    /// Counts `cycles` clock cycles and says which bytes are to be copied
    /// for them.
    pub fn cycles(&mut self, cycles: usize) -> (chunk: (u16, u16, u8))
        ensures
            chunk == old(self).chunk(cycles as nat),
            *final(self) == old(self).after_cycles(cycles as nat),
            chunk.2 <= 160,
            OAM_START <= chunk.1,
            chunk.1 + chunk.2 <= OAM_START + 160,
            chunk.0 + chunk.2 <= 0xFFFF,
    {
        let done: u8 = if self.progress < DMA_UNITS {
            self.progress
        } else {
            DMA_UNITS
        };
        let total: u128 = self.pending as u128 + cycles as u128;
        let counted: u128 = total / 8;
        let left: u8 = DMA_UNITS - done;
        let units: u8 = if counted < left as u128 {
            counted as u8
        } else {
            left
        };
        let offset: u16 = done as u16 * 8;
        let chunk = (self.page as u16 * 256 + offset, OAM_START + offset, units * 8);
        let progress: u8 = done + units;
        if progress == DMA_UNITS {
            self.active = false;
            self.progress = 0;
            self.pending = 0;
        } else {
            self.progress = progress;
            self.pending = (total % 8) as u8;
        }
        chunk
    }
}

} // verus!
