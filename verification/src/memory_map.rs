//! Addresses of the memory-mapped registers and bounds of the memory regions.

use vstd::prelude::*;

verus! {

/// Joypad.
pub const JOYP: u16 = 0xFF00;

/// Divider.
pub const DIV: u16 = 0xFF04;

/// Timer counter.
pub const TIMA: u16 = 0xFF05;

/// Timer modulo.
pub const TMA: u16 = 0xFF06;

/// Timer control.
pub const TAC: u16 = 0xFF07;

/// Interrupt requests.
pub const IF: u16 = 0xFF0F;

/// LCD control.
pub const LCDC: u16 = 0xFF40;

/// LCD status.
pub const STAT: u16 = 0xFF41;

/// Background scroll, vertical.
pub const SCY: u16 = 0xFF42;

/// Background scroll, horizontal.
pub const SCX: u16 = 0xFF43;

/// Current scanline.
pub const LY: u16 = 0xFF44;

/// Scanline to compare against.
pub const LYC: u16 = 0xFF45;

/// Start of a sprite-memory transfer.
pub const DMA: u16 = 0xFF46;

/// Background and window palette.
pub const BGP: u16 = 0xFF47;

/// Sprite palette 0.
pub const OBP0: u16 = 0xFF48;

/// Sprite palette 1.
pub const OBP1: u16 = 0xFF49;

/// Window position, vertical.
pub const WY: u16 = 0xFF4A;

/// Window position, horizontal (plus 7).
pub const WX: u16 = 0xFF4B;

/// Interrupt enables.
pub const IE: u16 = 0xFFFF;

/// Fixed ROM bank.
pub const ROM_START: u16 = 0x0000;

pub const ROM_END: u16 = 0x3FFF;

/// Switchable ROM bank.
pub const ROM_BANK_START: u16 = 0x4000;

pub const ROM_BANK_END: u16 = 0x7FFF;

/// Video RAM.
pub const VRAM_START: u16 = 0x8000;

pub const VRAM_END: u16 = 0x9FFF;

/// Last byte of the tile data in video RAM.
pub const TILE_RAM_END: u16 = 0x97FF;

/// External (cartridge) RAM.
pub const ERAM_START: u16 = 0xA000;

pub const ERAM_END: u16 = 0xBFFF;

/// Work RAM.
pub const WRAM_START: u16 = 0xC000;

pub const WRAM_END: u16 = 0xDFFF;

/// Mirror of the first 7680 bytes of work RAM.
pub const ECHO_START: u16 = 0xE000;

pub const ECHO_END: u16 = 0xFDFF;

/// Sprite attribute memory.
pub const OAM_START: u16 = 0xFE00;

pub const OAM_END: u16 = 0xFE9F;

/// Memory-mapped registers.
pub const IO_START: u16 = 0xFF00;

pub const IO_END: u16 = 0xFF7F;

/// High RAM.
pub const HRAM_START: u16 = 0xFF80;

pub const HRAM_END: u16 = 0xFFFE;

} // verus!
