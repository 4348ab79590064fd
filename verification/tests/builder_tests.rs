use libgb_rs::builder::{build_cartridge, Cartridge};
use libgb_rs::cartridge::{CartridgeMapper, LoadCartridgeError};
use libgb_rs::memory::{DmgMemoryController, MemoryController};

/// A header-complete ROM image of `banks` 16 KiB banks.
fn rom_image(cartridge_type: u8, rom_size_code: u8, ram_size_code: u8, banks: usize) -> Vec<u8> {
    let mut rom = vec![0u8; banks * 16384];
    rom[0x147] = cartridge_type;
    rom[0x148] = rom_size_code;
    rom[0x149] = ram_size_code;
    rom
}

#[test]
fn test_build_rejects_short_image() {
    assert!(matches!(
        build_cartridge(vec![0; 0x100]),
        Err(LoadCartridgeError::InvalidRomFile)
    ));
}

#[test]
fn test_build_rejects_bad_size_codes() {
    assert!(matches!(
        build_cartridge(rom_image(0x01, 7, 0, 2)),
        Err(LoadCartridgeError::InvalidRomFile)
    ));
    assert!(matches!(
        build_cartridge(rom_image(0x01, 1, 6, 2)),
        Err(LoadCartridgeError::InvalidRomFile)
    ));
}

#[test]
fn test_build_rejects_unknown_type() {
    assert!(matches!(
        build_cartridge(rom_image(0x42, 1, 0, 2)),
        Err(LoadCartridgeError::UnsupportedType)
    ));
}

#[test]
fn test_build_rejects_oversized_image() {
    // the header claims 2 banks but the image holds 4
    assert!(matches!(
        build_cartridge(rom_image(0x01, 0, 0, 4)),
        Err(LoadCartridgeError::InvalidRomFile)
    ));
}

#[test]
fn test_build_selects_mapper_variants() {
    assert!(matches!(
        build_cartridge(rom_image(0x00, 0, 0, 1)),
        Ok(Cartridge::RomOnly(_))
    ));
    assert!(matches!(
        build_cartridge(rom_image(0x03, 1, 3, 4)),
        Ok(Cartridge::Mbc1(_))
    ));
    assert!(matches!(
        build_cartridge(rom_image(0x06, 1, 0, 4)),
        Ok(Cartridge::Mbc2(_))
    ));
    assert!(matches!(
        build_cartridge(rom_image(0x10, 1, 3, 4)),
        Ok(Cartridge::Mbc3(_))
    ));
}

#[test]
fn test_built_cartridge_battery_flags() {
    let with_battery = build_cartridge(rom_image(0x03, 1, 3, 4)).unwrap();
    assert!(with_battery.can_save());

    let without_battery = build_cartridge(rom_image(0x02, 1, 3, 4)).unwrap();
    assert!(!without_battery.can_save());
}

#[test]
fn test_built_cartridge_runs_on_the_bus() {
    let mut rom = rom_image(0x03, 1, 3, 4);
    rom[0x42] = 0x99;
    rom[16384 * 2 + 0x10] = 0x55;
    let cartridge = build_cartridge(rom).unwrap();
    let mut bus = DmgMemoryController::new(cartridge);

    assert_eq!(bus.load_byte(0x0042), Some(0x99), "bank 0 reads through the bus");

    // select ROM bank 2 and read through the high window
    assert!(bus.store_byte(0x2000, 2).is_ok());
    assert_eq!(bus.load_byte(0x4010), Some(0x55), "bank 2 reads through the bus");

    // enable cartridge RAM and write through the bus
    assert!(bus.store_byte(0x0000, 0x0A).is_ok());
    assert_eq!(bus.store_byte(0xA007, 0x31), Ok(0));
    assert_eq!(bus.load_byte(0xA007), Some(0x31));
}
