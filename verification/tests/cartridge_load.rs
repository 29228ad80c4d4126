use rustendulator_core::bus::Bus;
use rustendulator_core::cartridge::{Cartridge, CartridgeError, Mirroring};

fn ines_image(prg_banks: u8, chr_banks: u8, flags6: u8, flags7: u8) -> Vec<u8> {
    let mut rom = vec![0x4E, 0x45, 0x53, 0x1A, prg_banks, chr_banks, flags6, flags7];
    rom.extend_from_slice(&[0u8; 8]);
    if flags6 & 0x04 != 0 {
        rom.extend(std::iter::repeat(0u8).take(512));
    }
    rom.extend(std::iter::repeat(0u8).take(prg_banks as usize * 16384));
    rom.extend(std::iter::repeat(0u8).take(chr_banks as usize * 8192));
    rom
}

fn parse_err(rom: &[u8]) -> CartridgeError {
    match Cartridge::from_bytes(rom) {
        Err(e) => e,
        Ok(_) => panic!("expected a rejected image"),
    }
}

#[test]
fn header_too_small_is_rejected() {
    let err = parse_err(&[0u8; 8]);
    assert_eq!(err, CartridgeError::HeaderTooSmall);
    assert_eq!(err.message(), "ROM too small for iNES header");
}

#[test]
fn bad_magic_is_rejected() {
    let mut rom = ines_image(1, 1, 0, 0);
    rom[3] = 0x00;
    let err = parse_err(&rom);
    assert_eq!(err, CartridgeError::InvalidMagic);
    assert_eq!(err.message(), "Invalid iNES magic number");
}

#[test]
fn truncated_image_is_rejected() {
    let mut rom = ines_image(1, 1, 0, 0);
    rom.truncate(16 + 100);
    let err = parse_err(&rom);
    assert_eq!(err, CartridgeError::Truncated);
    assert_eq!(err.message(), "ROM file truncated");
}

#[test]
fn unsupported_mapper_is_rejected() {
    // Mapper id 1: low nibble from flags 6 high nibble.
    let rom = ines_image(1, 1, 0x10, 0);
    let err = parse_err(&rom);
    assert_eq!(err, CartridgeError::UnsupportedMapper);
    assert_eq!(err.message(), "Unsupported mapper");
    // High nibble from flags 7.
    let rom = ines_image(1, 1, 0, 0x40);
    assert_eq!(parse_err(&rom), CartridgeError::UnsupportedMapper);
}

#[test]
fn well_formed_image_parses() {
    let cart = Cartridge::from_bytes(&ines_image(2, 1, 0, 0)).ok().expect("expected a well-formed image");
    assert_eq!(cart.prg_rom_size, 32768);
    assert_eq!(cart.chr_rom_size, 8192);
    assert_eq!(cart.mapper_id, 0);
    assert_eq!(cart.mirroring, Mirroring::Horizontal);
    assert!(!cart.has_battery);
    assert!(!cart.has_trainer);
}

#[test]
fn mirroring_and_battery_flags_parse() {
    let vertical = Cartridge::from_bytes(&ines_image(1, 1, 0x01, 0)).ok().expect("expected a well-formed image");
    assert_eq!(vertical.mirroring, Mirroring::Vertical);
    // Four-screen beats the vertical bit.
    let four = Cartridge::from_bytes(&ines_image(1, 1, 0x09, 0)).ok().expect("expected a well-formed image");
    assert_eq!(four.mirroring, Mirroring::FourScreen);
    let battery = Cartridge::from_bytes(&ines_image(1, 1, 0x02, 0)).ok().expect("expected a well-formed image");
    assert!(battery.has_battery);
}

#[test]
fn trainer_block_is_skipped() {
    let mut rom = ines_image(1, 1, 0x04, 0);
    // First PRG byte sits after the 16-byte header and the 512-byte
    // trainer.
    rom[16 + 512] = 0xAB;
    let cart = Cartridge::from_bytes(&rom).ok().expect("expected a well-formed image");
    assert!(cart.has_trainer);
    assert_eq!(cart.cpu_read(0x8000), 0xAB);
}

#[test]
fn zero_chr_banks_mean_chr_ram() {
    let mut cart = Cartridge::from_bytes(&ines_image(1, 0, 0, 0)).ok().expect("expected a well-formed image");
    assert_eq!(cart.chr_rom_size, 0);
    cart.ppu_write(0x0100, 0x55);
    assert_eq!(cart.ppu_read(0x0100), 0x55);
}

#[test]
fn second_load_is_refused_until_unload() {
    let rom = ines_image(1, 1, 0, 0);
    let mut bus = Bus::new();
    assert!(bus.load_cartridge(&rom).is_ok());
    let err = bus.load_cartridge(&rom).unwrap_err();
    assert_eq!(err, CartridgeError::AlreadyLoaded);
    assert_eq!(err.message(), "Cartridge already loaded");
    bus.unload_cartridge();
    assert!(bus.load_cartridge(&rom).is_ok());
}
