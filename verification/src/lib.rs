//! A handheld console emulator core: processor, memory interconnect, pixel
//! pipeline and timers, each stated against a mathematical model.

pub mod alu;
pub mod cpu;
pub mod disassembler;
pub mod dma;
pub mod gameboy;
pub mod gpu;
pub mod header;
pub mod helper;
pub mod hram;
pub mod interconnect;
pub mod interrupt;
pub mod joypad;
pub mod laws;
pub mod mbc;
pub mod memory_map;
pub mod oam;
pub mod register;
pub mod rom;
pub mod sink;
pub mod text;
pub mod timer;
pub mod vram;
pub mod wram;
