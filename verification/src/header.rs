//! What the bytes of the cartridge header mean, in words.

use vstd::prelude::*;

verus! {

/// What the header byte for the colour console means.
pub open spec fn spec_cgb_flag_text(code: u8) -> Seq<char> {
    if code == 0x80 {
        "Game supports CGB functions, but works on GB also"@
    } else if code == 0xC0 {
        "Game only works on CGB"@
    } else {
        "Pre-GBC game"@
    }
}

pub fn cgb_flag_text(code: u8) -> (text: &'static str)
    ensures
        text@ == spec_cgb_flag_text(code),
{
    if code == 0x80 {
        "Game supports CGB functions, but works on GB also"
    } else if code == 0xC0 {
        "Game only works on CGB"
    } else {
        "Pre-GBC game"
    }
}

/// What the header byte for the television adapter means.
pub open spec fn spec_sgb_flag_text(code: u8) -> Seq<char> {
    if code == 0x00 {
        "No SGB functions (Normal Gameboy or CGB only)"@
    } else if code == 0x03 {
        "Game supports SGB functions"@
    } else {
        ""@
    }
}

pub fn sgb_flag_text(code: u8) -> (text: &'static str)
    ensures
        text@ == spec_sgb_flag_text(code),
{
    if code == 0x00 {
        "No SGB functions (Normal Gameboy or CGB only)"
    } else if code == 0x03 {
        "Game supports SGB functions"
    } else {
        ""
    }
}

/// What the header byte for the size of the ROM means.
pub open spec fn spec_rom_size_text(code: u8) -> Seq<char> {
    if code == 0x00 {
        "32KByte (no ROM banking)"@
    } else if code == 0x01 {
        "64KByte (4 banks)"@
    } else if code == 0x02 {
        "128KByte (8 banks)"@
    } else if code == 0x03 {
        "256KByte (16 banks)"@
    } else if code == 0x04 {
        "512KByte (32 banks)"@
    } else if code == 0x05 {
        "1MByte (64 banks) - only 63 banks used by MBC1"@
    } else if code == 0x06 {
        "2MByte (128 banks) - only 125 banks used by MBC1"@
    } else if code == 0x07 {
        "4MByte (256 banks)"@
    } else if code == 0x52 {
        "1.1MByte (72 banks)"@
    } else if code == 0x53 {
        "1.2MByte (80 banks)"@
    } else if code == 0x54 {
        "1.5MByte (96 banks)"@
    } else {
        "UNKNOWN ROM SIZE"@
    }
}

pub fn rom_size_text(code: u8) -> (text: &'static str)
    ensures
        text@ == spec_rom_size_text(code),
{
    if code == 0x00 {
        "32KByte (no ROM banking)"
    } else if code == 0x01 {
        "64KByte (4 banks)"
    } else if code == 0x02 {
        "128KByte (8 banks)"
    } else if code == 0x03 {
        "256KByte (16 banks)"
    } else if code == 0x04 {
        "512KByte (32 banks)"
    } else if code == 0x05 {
        "1MByte (64 banks) - only 63 banks used by MBC1"
    } else if code == 0x06 {
        "2MByte (128 banks) - only 125 banks used by MBC1"
    } else if code == 0x07 {
        "4MByte (256 banks)"
    } else if code == 0x52 {
        "1.1MByte (72 banks)"
    } else if code == 0x53 {
        "1.2MByte (80 banks)"
    } else if code == 0x54 {
        "1.5MByte (96 banks)"
    } else {
        "UNKNOWN ROM SIZE"
    }
}

/// What the header byte for the size of the external RAM means.
pub open spec fn spec_ram_size_text(code: u8) -> Seq<char> {
    if code == 0x00 {
        "None"@
    } else if code == 0x01 {
        "2 KBytes"@
    } else if code == 0x02 {
        "8 Kbytes"@
    } else if code == 0x03 {
        "32 KBytes (4 banks of 8KBytes each)"@
    } else {
        "UNKNOWN RAM SIZE"@
    }
}

pub fn ram_size_text(code: u8) -> (text: &'static str)
    ensures
        text@ == spec_ram_size_text(code),
{
    if code == 0x00 {
        "None"
    } else if code == 0x01 {
        "2 KBytes"
    } else if code == 0x02 {
        "8 Kbytes"
    } else if code == 0x03 {
        "32 KBytes (4 banks of 8KBytes each)"
    } else {
        "UNKNOWN RAM SIZE"
    }
}

/// What the header byte for the market means.
pub open spec fn spec_destination_text(code: u8) -> Seq<char> {
    if code == 0x00 {
        "Japanese"@
    } else if code == 0x01 {
        "Non-Japanese"@
    } else {
        "UNKNOWN DEST CODE"@
    }
}

pub fn destination_text(code: u8) -> (text: &'static str)
    ensures
        text@ == spec_destination_text(code),
{
    if code == 0x00 {
        "Japanese"
    } else if code == 0x01 {
        "Non-Japanese"
    } else {
        "UNKNOWN DEST CODE"
    }
}

/// What the header byte for the cartridge type means.
pub open spec fn spec_cart_type_text(code: u8) -> Seq<char> {
    if code == 0x00 {
        "ROM ONLY"@
    } else if code == 0x01 {
        "MBC1"@
    } else if code == 0x02 {
        "MBC1+RAM"@
    } else if code == 0x03 {
        "MBC1+RAM+BATTERY"@
    } else if code == 0x05 {
        "MBC2"@
    } else if code == 0x06 {
        "MBC2+BATTERY"@
    } else if code == 0x08 {
        "ROM+RAM"@
    } else if code == 0x09 {
        "ROM+RAM+BATTERY"@
    } else if code == 0x0B {
        "MMM01"@
    } else if code == 0x0C {
        "MMM01+RAM"@
    } else if code == 0x0D {
        "MMM01+RAM+BATTERY"@
    } else if code == 0x0F {
        "MBC3+TIMER+BATTERY"@
    } else if code == 0x10 {
        "MBC3+TIMER+RAM+BATTERY"@
    } else if code == 0x11 {
        "MBC3"@
    } else if code == 0x12 {
        "MBC3+RAM"@
    } else if code == 0x13 {
        "MBC3+RAM+BATTERY"@
    } else if code == 0x15 {
        "MBC4"@
    } else if code == 0x16 {
        "MBC4+RAM"@
    } else if code == 0x17 {
        "MBC4+RAM+BATTERY"@
    } else if code == 0x19 {
        "MBC5"@
    } else if code == 0x1A {
        "MBC5+RAM"@
    } else if code == 0x1B {
        "MBC5+RAM+BATTERY"@
    } else if code == 0x1C {
        "MBC5+RUMBLE"@
    } else if code == 0x1D {
        "MBC5+RUMBLE+RAM"@
    } else if code == 0x1E {
        "MBC5+RUMBLE+RAM+BATTERY"@
    } else if code == 0xFC {
        "POCKET CAMERA"@
    } else if code == 0xFD {
        "BANDAI TAMA5"@
    } else if code == 0xFE {
        "HuC3"@
    } else if code == 0xFF {
        "HuC1+RAM+BATTERY"@
    } else {
        "UNKNOWN CARTRIDGE TYPE"@
    }
}

pub fn cart_type_text(code: u8) -> (text: &'static str)
    ensures
        text@ == spec_cart_type_text(code),
{
    if code == 0x00 {
        "ROM ONLY"
    } else if code == 0x01 {
        "MBC1"
    } else if code == 0x02 {
        "MBC1+RAM"
    } else if code == 0x03 {
        "MBC1+RAM+BATTERY"
    } else if code == 0x05 {
        "MBC2"
    } else if code == 0x06 {
        "MBC2+BATTERY"
    } else if code == 0x08 {
        "ROM+RAM"
    } else if code == 0x09 {
        "ROM+RAM+BATTERY"
    } else if code == 0x0B {
        "MMM01"
    } else if code == 0x0C {
        "MMM01+RAM"
    } else if code == 0x0D {
        "MMM01+RAM+BATTERY"
    } else if code == 0x0F {
        "MBC3+TIMER+BATTERY"
    } else if code == 0x10 {
        "MBC3+TIMER+RAM+BATTERY"
    } else if code == 0x11 {
        "MBC3"
    } else if code == 0x12 {
        "MBC3+RAM"
    } else if code == 0x13 {
        "MBC3+RAM+BATTERY"
    } else if code == 0x15 {
        "MBC4"
    } else if code == 0x16 {
        "MBC4+RAM"
    } else if code == 0x17 {
        "MBC4+RAM+BATTERY"
    } else if code == 0x19 {
        "MBC5"
    } else if code == 0x1A {
        "MBC5+RAM"
    } else if code == 0x1B {
        "MBC5+RAM+BATTERY"
    } else if code == 0x1C {
        "MBC5+RUMBLE"
    } else if code == 0x1D {
        "MBC5+RUMBLE+RAM"
    } else if code == 0x1E {
        "MBC5+RUMBLE+RAM+BATTERY"
    } else if code == 0xFC {
        "POCKET CAMERA"
    } else if code == 0xFD {
        "BANDAI TAMA5"
    } else if code == 0xFE {
        "HuC3"
    } else if code == 0xFF {
        "HuC1+RAM+BATTERY"
    } else {
        "UNKNOWN CARTRIDGE TYPE"
    }
}

} // verus!
