use gameboy_crust::disassembler::{disassemble, operand_name};
use gameboy_crust::header::{
    cart_type_text, cgb_flag_text, destination_text, ram_size_text, rom_size_text, sgb_flag_text,
};
use gameboy_crust::interconnect::Interconnect;
use gameboy_crust::register::Registers;
use gameboy_crust::rom::Rom;
use gameboy_crust::text::{append_if, hex_digit, push_hex_byte, push_hex_word};

fn titled_image(title: &[u8], cart_type: u8) -> Vec<u8> {
    let mut bytes = vec![0u8; 0x8000];
    for (i, byte) in title.iter().enumerate() {
        bytes[0x134 + i] = *byte;
    }
    bytes[0x147] = cart_type;
    bytes
}

#[test]
fn hexadecimal_digits() {
    let digits: Vec<char> = (0..16u8).map(hex_digit).collect();
    assert_eq!(digits.iter().collect::<String>(), "0123456789ABCDEF");
    let mut text = String::from("$");
    push_hex_byte(&mut text, 0x0A);
    push_hex_byte(&mut text, 0xF0);
    push_hex_word(&mut text, 0x1B2C);
    assert_eq!(text, "$0AF01B2C");
}

#[test]
fn conditional_pieces() {
    let mut text = String::from("a");
    append_if(&mut text, false, "b");
    append_if(&mut text, true, "c");
    assert_eq!(text, "ac");
}

#[test]
fn registers_in_words() {
    let regs = Registers::new();
    assert_eq!(
        regs.to_string(),
        "Registers:\nAF: $01B0\nBC: $0013\nDE: $00D8\nHL: $014D\nSP: $FFFE\nPC: $0100\nFlags: Zero | HalfCarry | Carry"
    );
    let mut regs = Registers::new();
    regs.f = 0x40;
    regs.sp = 0x00AB;
    assert_eq!(
        regs.to_string(),
        "Registers:\nAF: $0140\nBC: $0013\nDE: $00D8\nHL: $014D\nSP: $00AB\nPC: $0100\nFlags: Sub | "
    );
}

#[test]
fn header_in_words() {
    let mut bytes = titled_image(b"ZELDA", 0x03);
    bytes[0x143] = 0x80;
    bytes[0x146] = 0x03;
    bytes[0x148] = 0x05;
    bytes[0x149] = 0x03;
    bytes[0x14A] = 0x01;
    let rom = Rom::new(bytes).unwrap();
    assert_eq!(
        rom.to_string(),
        "== ROM HEADER ==\n\
Title: ZELDA\n\
CGB Flag: $80 - Game supports CGB functions, but works on GB also\n\
SGB Flag: $03 - Game supports SGB functions\n\
ROM Size: $05 - 1MByte (64 banks) - only 63 banks used by MBC1\n\
RAM Size: $03 - 32 KBytes (4 banks of 8KBytes each)\n\
Destination Code: Non-Japanese\n\
Cartridge Type: $03 - MBC1+RAM+BATTERY\n\
== END ROM HEADER =="
    );
    let rom = Rom::new(titled_image(b"", 0x00)).unwrap();
    assert_eq!(
        rom.to_string(),
        "== ROM HEADER ==\n\
Title: \n\
CGB Flag: $00 - Pre-GBC game\n\
SGB Flag: $00 - No SGB functions (Normal Gameboy or CGB only)\n\
ROM Size: $00 - 32KByte (no ROM banking)\n\
RAM Size: $00 - None\n\
Destination Code: Japanese\n\
Cartridge Type: $00 - ROM ONLY\n\
== END ROM HEADER =="
    );
}

#[test]
fn header_tables() {
    assert_eq!(cgb_flag_text(0xC0), "Game only works on CGB");
    assert_eq!(cgb_flag_text(0x01), "Pre-GBC game");
    assert_eq!(sgb_flag_text(0x01), "");
    assert_eq!(rom_size_text(0x54), "1.5MByte (96 banks)");
    assert_eq!(rom_size_text(0x08), "UNKNOWN ROM SIZE");
    assert_eq!(ram_size_text(0x02), "8 Kbytes");
    assert_eq!(ram_size_text(0x04), "UNKNOWN RAM SIZE");
    assert_eq!(destination_text(0x02), "UNKNOWN DEST CODE");
    assert_eq!(cart_type_text(0x1E), "MBC5+RUMBLE+RAM+BATTERY");
    assert_eq!(cart_type_text(0xFF), "HuC1+RAM+BATTERY");
    assert_eq!(cart_type_text(0x04), "UNKNOWN CARTRIDGE TYPE");
}

#[test]
fn loads_in_words() {
    let mut image = titled_image(b"", 0x00);
    image[0x100] = 0x9C;
    let mut bus = Interconnect::new(Rom::new(image).unwrap());
    bus.write(0xC000, 0x5A);
    bus.write(0xC100, 0x6B);
    bus.write(0xFF80, 0x7C);
    let mut regs = Registers::new();
    regs.a = 0x12;
    regs.set_bc(0xC100);
    regs.set_de(0xC000);
    regs.set_hl(0xC000);
    assert_eq!(disassemble(&regs, &bus, 0x78), "LD A, B=$C1");
    assert_eq!(disassemble(&regs, &bus, 0x6D), "LD L, L=$00");
    assert_eq!(disassemble(&regs, &bus, 0x6C), "LD L, H=$C0");
    assert_eq!(disassemble(&regs, &bus, 0x46), "LD B, (HL)=$5A");
    assert_eq!(disassemble(&regs, &bus, 0x77), "LD (HL), $12");
    assert_eq!(disassemble(&regs, &bus, 0x3E), "LD A, $9C");
    assert_eq!(disassemble(&regs, &bus, 0x36), "LD (HL), $9C");
    assert_eq!(disassemble(&regs, &bus, 0x0A), "LD A, (BC)=$6B");
    assert_eq!(disassemble(&regs, &bus, 0x1A), "LD A, (DE)=$5A");
    regs.c = 0x80;
    assert_eq!(disassemble(&regs, &bus, 0xF2), "LD A, ($FF80)=$7C");
    assert_eq!(disassemble(&regs, &bus, 0x76), "Unknown: 76");
    assert_eq!(disassemble(&regs, &bus, 0xCB), "Unknown: CB");
    assert_eq!(operand_name(6), "(HL)");
    assert_eq!(operand_name(7), "A");
}
