use gameboy_crust::mbc::mbc0::MBC0;
use gameboy_crust::mbc::mbc1::MBC1;
use gameboy_crust::mbc::mbc3::MBC3;
use gameboy_crust::mbc::mbc5::MBC5;
use gameboy_crust::mbc::MemoryController;
use gameboy_crust::rom::{controller_kind, ControllerKind, Rom, RomError};

fn banked_image(banks: usize, cart_type: u8) -> Vec<u8> {
    let mut bytes = vec![0u8; banks * 0x4000];
    for bank in 0..banks {
        bytes[bank * 0x4000] = bank as u8;
        bytes[bank * 0x4000 + 1] = (bank >> 8) as u8;
    }
    bytes[0x147] = cart_type;
    bytes
}

#[test]
fn image_is_kept_byte_for_byte() {
    let mut bytes = banked_image(2, 0x00);
    for (i, byte) in bytes.iter_mut().enumerate() {
        if i != 0x147 {
            *byte = (i * 7 % 251) as u8;
        }
    }
    let rom = Rom::new(bytes.clone()).unwrap();
    assert_eq!(rom.size(), bytes.len());
    assert_eq!(rom.image(), &bytes);
    for address in [0x0000u16, 0x0100, 0x3FFF, 0x4000, 0x7FFF] {
        assert_eq!(rom.read(address), bytes[address as usize]);
    }
}

#[test]
fn header_fields() {
    let mut bytes = banked_image(2, 0x01);
    for (i, byte) in b"TETRIS".iter().enumerate() {
        bytes[0x134 + i] = *byte;
    }
    bytes[0x143] = 0x80;
    bytes[0x146] = 0x03;
    bytes[0x148] = 0x01;
    bytes[0x149] = 0x02;
    let rom = Rom::new(bytes).unwrap();
    assert_eq!(rom.name(), "TETRIS");
    assert_eq!(rom.save_name(), "TETRIS.sav");
    assert_eq!(rom.cart_type(), 0x01);
    assert_eq!(rom.cgb_flag(), 0x80);
    assert_eq!(rom.sgb_flag(), 0x03);
    assert_eq!(rom.rom_size(), 0x01);
    assert_eq!(rom.ram_size(), 0x02);
}

#[test]
fn title_ends_after_fifteen_bytes() {
    let mut bytes = banked_image(2, 0x00);
    for i in 0..16 {
        bytes[0x134 + i] = b'A' + i as u8;
    }
    let rom = Rom::new(bytes).unwrap();
    assert_eq!(rom.name(), "ABCDEFGHIJKLMNO");
    let rom = Rom::new(banked_image(2, 0x00)).unwrap();
    assert_eq!(rom.name(), "");
}

#[test]
fn controller_for_each_type() {
    assert_eq!(controller_kind(0x00), Some(ControllerKind::Mbc0));
    for t in 0x01..=0x03u8 {
        assert_eq!(controller_kind(t), Some(ControllerKind::Mbc1));
    }
    for t in 0x0F..=0x13u8 {
        assert_eq!(controller_kind(t), Some(ControllerKind::Mbc3));
    }
    for t in 0x19..=0x1Eu8 {
        assert_eq!(controller_kind(t), Some(ControllerKind::Mbc5));
    }
    for t in [0x04u8, 0x05, 0x06, 0x08, 0x0E, 0x14, 0x18, 0x1F, 0xFF] {
        assert_eq!(controller_kind(t), None);
    }
}

#[test]
fn unsupported_and_truncated_images_are_refused() {
    assert!(matches!(Rom::new(vec![0u8; 0x147]), Err(RomError::Truncated)));
    assert!(matches!(Rom::new(Vec::new()), Err(RomError::Truncated)));
    assert!(matches!(Rom::new(banked_image(2, 0x05)), Err(RomError::UnsupportedType(0x05))));
    assert!(matches!(Rom::new(banked_image(2, 0xFC)), Err(RomError::UnsupportedType(0xFC))));
    assert!(Rom::new(vec![0u8; 0x148]).is_ok());
}

#[test]
fn reads_past_the_image_give_ff() {
    let rom = Rom::new(vec![0u8; 0x148]).unwrap();
    assert_eq!(rom.read(0x0147), 0x00);
    assert_eq!(rom.read(0x0148), 0xFF);
    assert_eq!(rom.read(0x7FFF), 0xFF);
}

#[test]
fn mbc0_ignores_writes() {
    let bytes = banked_image(2, 0x00);
    let mut mbc = MBC0;
    mbc.write(0x2000, 0x01);
    assert_eq!(mbc.read(&bytes, 0x4000), 0x01);
    assert_eq!(mbc.read(&bytes, 0xA000), 0xFF);
    assert_eq!(mbc.persist(), Vec::<u8>::new());
}

#[test]
fn mbc1_rom_banking() {
    let bytes = banked_image(128, 0x01);
    let mut mbc = MBC1::new();
    assert_eq!(mbc.read(&bytes, 0x0000), 0);
    assert_eq!(mbc.read(&bytes, 0x4000), 1);
    mbc.write(0x2000, 0x05);
    assert_eq!(mbc.read(&bytes, 0x4000), 5);
    mbc.write(0x2000, 0xE0);
    assert_eq!(mbc.read(&bytes, 0x4000), 1);
    mbc.write(0x4000, 0x01);
    assert_eq!(mbc.read(&bytes, 0x4000), 0x21);
    mbc.write(0x3FFF, 0x1F);
    assert_eq!(mbc.read(&bytes, 0x4000), 0x3F);
    mbc.write(0x4000, 0x03);
    mbc.write(0x2000, 0x00);
    assert_eq!(mbc.read(&bytes, 0x4000), 0x61);
    mbc.write(0x6000, 0x01);
    assert_eq!(mbc.read(&bytes, 0x4000), 0x01);
    assert_eq!(mbc.read(&bytes, 0x0000), 0);
}

#[test]
fn mbc1_ram_enable_and_banks() {
    let bytes = banked_image(4, 0x03);
    let mut mbc = MBC1::new();
    mbc.write(0xA000, 0x55);
    assert_eq!(mbc.read(&bytes, 0xA000), 0xFF);
    mbc.write(0x0000, 0x0A);
    assert_eq!(mbc.read(&bytes, 0xA000), 0x00);
    mbc.write(0xA000, 0x55);
    assert_eq!(mbc.read(&bytes, 0xA000), 0x55);
    mbc.write(0x6000, 0x01);
    mbc.write(0x4000, 0x02);
    assert_eq!(mbc.read(&bytes, 0xA000), 0x00);
    mbc.write(0xBFFF, 0x66);
    mbc.write(0x4000, 0x00);
    assert_eq!(mbc.read(&bytes, 0xA000), 0x55);
    assert_eq!(mbc.read(&bytes, 0xBFFF), 0x00);
    mbc.write(0x1FFF, 0x3A);
    assert_eq!(mbc.read(&bytes, 0xA000), 0x55);
    mbc.write(0x0000, 0x0B);
    assert_eq!(mbc.read(&bytes, 0xA000), 0xFF);
    let saved = mbc.persist();
    assert_eq!(saved.len(), 0x8000);
    assert_eq!(saved[0], 0x55);
    assert_eq!(saved[2 * 0x2000 + 0x1FFF], 0x66);
}

#[test]
fn mbc3_banking() {
    let bytes = banked_image(128, 0x13);
    let mut mbc = MBC3::new();
    assert_eq!(mbc.read(&bytes, 0x4000), 1);
    mbc.write(0x2000, 0x7F);
    assert_eq!(mbc.read(&bytes, 0x4000), 0x7F);
    mbc.write(0x2000, 0x80);
    assert_eq!(mbc.read(&bytes, 0x4000), 1);
    mbc.write(0x2000, 0x20);
    assert_eq!(mbc.read(&bytes, 0x4000), 0x20);
    assert_eq!(mbc.read(&bytes, 0xA000), 0xFF);
    mbc.write(0x4000, 0x03);
    mbc.write(0x0000, 0x0A);
    mbc.write(0xA000, 0x11);
    mbc.write(0x4000, 0x03);
    assert_eq!(mbc.read(&bytes, 0xA000), 0x00);
    mbc.write(0xA000, 0x33);
    mbc.write(0x6000, 0x01);
    mbc.write(0x4000, 0x00);
    assert_eq!(mbc.read(&bytes, 0xA000), 0x11);
    assert_eq!(mbc.persist()[3 * 0x2000], 0x33);
}

#[test]
fn mbc5_banking() {
    let bytes = banked_image(512, 0x1B);
    let mut mbc = MBC5::new();
    assert_eq!(mbc.read(&bytes, 0x4000), 1);
    mbc.write(0x2000, 0x00);
    assert_eq!(mbc.read(&bytes, 0x4000), 0);
    mbc.write(0x2FFF, 0xFF);
    assert_eq!(mbc.read(&bytes, 0x4000), 0xFF);
    assert_eq!(mbc.read(&bytes, 0x4001), 0x00);
    mbc.write(0x3000, 0x01);
    assert_eq!(mbc.read(&bytes, 0x4000), 0xFF);
    assert_eq!(mbc.read(&bytes, 0x4001), 0x01);
    mbc.write(0x2000, 0x02);
    mbc.write(0x3000, 0xFE);
    assert_eq!(mbc.read(&bytes, 0x4000), 0x02);
    assert_eq!(mbc.read(&bytes, 0x4001), 0x00);
    mbc.write(0x0000, 0x0A);
    mbc.write(0x4000, 0x1F);
    mbc.write(0xA010, 0x99);
    assert_eq!(mbc.read(&bytes, 0xA010), 0x99);
    let saved = mbc.persist();
    assert_eq!(saved.len(), 0x20000);
    assert_eq!(saved[15 * 0x2000 + 0x10], 0x99);
}

#[test]
fn external_ram_survives_save_and_restore() {
    let mut rom = Rom::new(banked_image(4, 0x03)).unwrap();
    rom.write(0x0000, 0x0A);
    rom.write(0xA123, 0x42);
    let saved = rom.persist();
    let mut fresh = Rom::new(banked_image(4, 0x03)).unwrap();
    assert!(fresh.restore(&saved));
    fresh.write(0x0000, 0x0A);
    assert_eq!(fresh.read(0xA123), 0x42);
    assert_eq!(fresh.persist(), saved);
    assert!(!fresh.restore(&vec![0u8; 16]));
    assert_eq!(fresh.read(0xA123), 0x42);
    let mut plain = Rom::new(banked_image(2, 0x00)).unwrap();
    assert!(plain.restore(&Vec::new()));
    assert!(!plain.restore(&saved));
}
