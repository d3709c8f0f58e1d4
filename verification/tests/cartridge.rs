use rs_boy::cartridge::Cartridge as OldCartridge;
use rs_boy::gameboy::cartridge::{load, save_file_title, CartridgeSlot};
use rs_boy::gameboy::memory_bus::MemoryAccessor;
use rs_boy::lib_rs_boy::gameboy::cartridge::mbc5::MBC5;
use rs_boy::lib_rs_boy::gameboy::cartridge::{
    check_rom, no_cartridge, try_load_rom, Cartridge, LoadedCartridge, MbcType, RomError,
};

/// A ROM image of `size_code` (32 KiB << code) with the given header bytes;
/// byte i of the image holds i / 0x4000 (its bank) outside the header.
fn image(cartridge_type: u8, size_code: u8, ram_code: u8) -> Vec<u8> {
    let len = 32 * 1024usize << size_code;
    let mut rom: Vec<u8> = (0..len).map(|i| (i / 0x4000) as u8).collect();
    for i in 0x134..0x142 {
        rom[i] = b'A';
    }
    rom[0x147] = cartridge_type;
    rom[0x148] = size_code;
    rom[0x149] = ram_code;
    rom
}

#[test]
fn header_errors_in_order() {
    assert_eq!(check_rom(&vec![0u8; 0x14f]), Err(RomError::TooSmall));
    let mut bad_title = image(0, 0, 0);
    bad_title[0x134] = 0xff;
    assert_eq!(check_rom(&bad_title), Err(RomError::TitleNotUtf8));
    assert_eq!(check_rom(&image(0x20, 0, 0)), Err(RomError::UnsupportedMbc(0x20)));
    let mut large_mbc1 = image(1, 0, 0);
    large_mbc1[0x148] = 5;
    assert_eq!(check_rom(&large_mbc1), Err(RomError::LargeMbc1));
    let mut overflow = image(0, 0, 0);
    overflow[0x148] = 17;
    assert_eq!(check_rom(&overflow), Err(RomError::RomSizeOverflow(17)));
    let mut wrong = image(0, 0, 0);
    wrong[0x148] = 1;
    assert_eq!(
        check_rom(&wrong),
        Err(RomError::WrongLength { expected: 65536, found: 32768 })
    );
    assert_eq!(check_rom(&image(0, 0, 1)), Err(RomError::UnsupportedRamSize(1)));
}

#[test]
fn header_names_the_controller() {
    assert_eq!(check_rom(&image(0, 0, 0)), Ok(MbcType::NoMBC));
    assert_eq!(check_rom(&image(0x03, 0, 0)), Ok(MbcType::MBC1));
    assert_eq!(check_rom(&image(0x13, 1, 3)), Ok(MbcType::MBC3));
}

#[test]
fn title_that_is_utf8_passes() {
    // a two-byte UTF-8 sequence in the title is accepted
    let mut rom = image(0, 0, 0);
    rom[0x134] = 0xc3;
    rom[0x135] = 0xa9;
    assert_eq!(check_rom(&rom), Ok(MbcType::NoMBC));
}

#[test]
fn mbc1_is_unavailable() {
    assert!(matches!(try_load_rom(image(0x01, 0, 0)), Err(RomError::Mbc1Unavailable)));
}

#[test]
fn plain_rom_reads_its_bytes() {
    let c = try_load_rom(image(0, 0, 0)).ok().unwrap();
    assert!(matches!(c, LoadedCartridge::NoMBC(_)));
    assert_eq!(c.get(0x0000), 0);
    assert_eq!(c.get(0x4000), 1);
    assert_eq!(c.get(0x147), 0);
}

#[test]
fn mbc3_banks_and_ram() {
    let mut c = try_load_rom(image(0x13, 2, 3)).ok().unwrap();
    assert!(matches!(c, LoadedCartridge::MBC3(_)));
    // bank 1 is selected at first
    assert_eq!(c.get(0x4000), 1);
    c.write(0x2000, 3);
    assert_eq!(c.get(0x4000), 3);
    // writing bank 0 selects bank 1
    c.write(0x2000, 0);
    assert_eq!(c.get(0x4000), 1);
    // the RAM reads 0xFF until enabled
    assert_eq!(c.get(0xa000), 0xff);
    c.write(0x0000, 0x0a);
    assert_eq!(c.get(0xa000), 0);
    c.write(0xa000, 0x42);
    assert_eq!(c.get(0xa000), 0x42);
    // another RAM bank
    c.write(0x4000, 1);
    assert_eq!(c.get(0xa000), 0);
    c.write(0x4000, 0);
    assert_eq!(c.get(0xa000), 0x42);
    // the battery-backed RAM is handed out
    assert_eq!(c.get_ram().len(), 32 * 1024);
    assert_eq!(c.get_ram()[0], 0x42);
    assert_eq!(c.get_rumble_state(), None);
}

#[test]
fn mbc5_rumble_and_banks() {
    // MBC5 with rumble, RAM and battery
    let mut c = MBC5::new(image(0x1e, 2, 0), Some(vec![0u8; 8 * 1024]), 0x1e);
    assert_eq!(c.get(0x4000), 1);
    c.write(0x2000, 2);
    assert_eq!(c.get(0x4000), 2);
    c.write(0x2000, 0);
    assert_eq!(c.get(0x4000), 0);
    assert_eq!(c.get_rumble_state(), Some(false));
    c.write(0x4000, 0x08);
    assert_eq!(c.get_rumble_state(), Some(true));
    c.write(0x0000, 0x0a);
    c.write(0xa000, 7);
    assert_eq!(c.get(0xa000), 7);
}

#[test]
fn empty_slot() {
    let c = no_cartridge();
    assert!(matches!(c, LoadedCartridge::Empty(_)));
}

#[test]
fn old_cartridge_checks_and_banks() {
    let mut bad = image(0, 0, 0);
    bad[0x149] = 2;
    assert_eq!(OldCartridge::check_image(&bad), Err(RomError::UnsupportedRamSize(2)));
    let rom = image(0x13, 2, 3);
    assert_eq!(OldCartridge::check_image(&rom), Ok(()));
    let mut c = OldCartridge::from_rom(rom);
    assert_eq!(c.get(0x4000), 1);
    c.write(0x2000, 0x22);
    // five bits of the bank number
    assert_eq!(c.get(0x4000), 2);
    c.write(0x2000, 0x20);
    assert_eq!(c.get(0x4000), 1);
}

#[test]
fn save_file_is_named_by_the_padded_title() {
    let mut rom = image(0x13, 0, 2);
    for i in 0x134..0x142 {
        rom[i] = 0;
    }
    rom[0x134..0x138].copy_from_slice(b"ZELD");
    assert_eq!(save_file_title(&rom), Some(b"ZELD".to_vec()));
    // a NUL inside the title stays, only the padding goes
    rom[0x136] = 0;
    assert_eq!(save_file_title(&rom), Some(vec![b'Z', b'E', 0, b'D']));
    // a full title keeps all 14 bytes
    assert_eq!(save_file_title(&image(0x13, 0, 3)), Some(vec![b'A'; 14]));
    // no RAM, no save file
    assert_eq!(save_file_title(&image(0x13, 0, 0)), None);
    let mut blank = image(0x13, 0, 2);
    for i in 0x134..0x142 {
        blank[i] = 0;
    }
    assert_eq!(save_file_title(&blank), Some(Vec::new()));
}

#[test]
fn windowed_load_builds_the_cartridge() {
    assert!(matches!(load(image(0, 0, 0), None), Ok(CartridgeSlot::NoMBC(_))));
    assert!(matches!(load(image(0x01, 0, 0), None), Err(RomError::Mbc1Unavailable)));
    assert!(matches!(load(vec![0u8; 0x100], None), Err(RomError::TooSmall)));
    assert!(matches!(load(image(0x13, 0, 1), None), Err(RomError::UnsupportedRamSize(1))));

    // fresh RAM reads zero, saved RAM is taken as it was saved
    let mut fresh = match load(image(0x13, 0, 2), None) {
        Ok(c) => c,
        Err(e) => panic!("{:?}", e),
    };
    fresh.write(0x0000, 0x0a);
    assert_eq!(fresh.get(0xa000), 0);
    let mut saved = match load(image(0x13, 0, 2), Some(vec![7u8; 8192])) {
        Ok(c) => c,
        Err(e) => panic!("{:?}", e),
    };
    saved.write(0x0000, 0x0a);
    assert_eq!(saved.get(0xa000), 7);
    assert_eq!(saved.get(0x4000), 1);
    match saved {
        CartridgeSlot::MBC3(c) => assert_eq!(c.ram_contents(), Some(&vec![7u8; 8192])),
        CartridgeSlot::NoMBC(_) => panic!("expected an MBC3 cartridge"),
    }
}

#[test]
fn restored_ram_is_read_back() {
    let mut c = try_load_rom(image(0x10, 0, 2)).ok().unwrap();
    let save: Vec<u8> = (0..8192).map(|i| (i % 251) as u8).collect();
    c.get_ram().copy_from_slice(&save);
    c.write(0x0000, 0x0a);
    assert_eq!(c.get(0xa000), 0);
    assert_eq!(c.get(0xa001), 1);
    assert_eq!(c.get(0xbfff), (8191 % 251) as u8);
    let mut m = MBC5::new(image(0x1b, 2, 0), Some(vec![0u8; 8 * 1024]), 0x1b);
    m.get_ram()[5] = 9;
    m.write(0x0000, 0x0a);
    assert_eq!(m.get(0xa005), 9);
}

#[test]
fn mbc5_bank_halves_commute() {
    let rom = image(0x19, 8, 0);
    let mut a = MBC5::new(rom.clone(), None, 0x19);
    let mut b = MBC5::new(rom, None, 0x19);
    a.write(0x2000, 0x05);
    a.write(0x3000, 0x01);
    b.write(0x3000, 0x01);
    b.write(0x2000, 0x05);
    for loc in [0x0000usize, 0x3fff, 0x4000, 0x5555, 0x7fff] {
        assert_eq!(a.get(loc), b.get(loc));
    }
}
