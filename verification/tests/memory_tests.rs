use libgb_rs::basicrom::RomOnlyCartridge;
use libgb_rs::cartridge::CartridgeMapper;
use libgb_rs::memory::{DmgMemoryController, MemoryController, MemoryWriteError};

const DMG_ROM_END: u16 = 0x7FFF;
const DMG_VRAM_START: u16 = 0x8000;
const DMG_VRAM_END: u16 = 0x9FFF;
const DMG_EXT_START: u16 = 0xA000;
const DMG_RAM_START: u16 = 0xC000;

/// A cartridge with no RAM: RAM reads and writes fail, ROM writes fail.
fn bare_cartridge() -> RomOnlyCartridge {
    RomOnlyCartridge::new(Vec::new(), false, false).unwrap()
}

/// A cartridge whose RAM holds the given bytes at the given addresses.
fn cartridge_with_ram(cells: &[(usize, u8)]) -> RomOnlyCartridge {
    let mut cartridge = RomOnlyCartridge::new(Vec::new(), true, true).unwrap();
    let mut save = vec![0u8; 8192];
    for (addr, value) in cells {
        save[*addr] = *value;
    }
    cartridge.load_save(save).unwrap();
    cartridge
}

#[test]
fn test_rom_write_fails() {
    let mut controller = DmgMemoryController::new(bare_cartridge());

    let result = controller.store_byte(42, 42);

    assert!(result.is_err(), "Test that writing to a rom does not work");
}

#[test]
fn test_rom_read() {
    let mut rom = vec![0u8; 64];
    rom[42] = 210;
    let cartridge = RomOnlyCartridge::new(rom, false, false).unwrap();
    let controller = DmgMemoryController::new(cartridge);

    let result = controller.load_byte(42);

    assert_eq!(result, Some(210), "Test reading from a ROM address");
}

#[test]
fn test_vram_io() {
    let mut controller = DmgMemoryController::new(bare_cartridge());

    assert_eq!(controller.load_byte(0x8000), Some(0));

    let result = controller.store_byte(0x8000, 80);

    assert_eq!(result, Ok(0), "Test writing to VRAM");
    assert_eq!(controller.load_byte(0x8000), Some(80), "Test changed RAM value");
}

#[test]
fn test_cart_ram_read_success() {
    let controller = DmgMemoryController::new(cartridge_with_ram(&[(42, 0x22)]));

    let result = controller.load_byte(DMG_EXT_START + 42);

    assert_eq!(result, Some(0x22), "Test reading from cartridge RAM");
}

#[test]
fn test_cart_ram_read_fail() {
    let controller = DmgMemoryController::new(bare_cartridge());

    let result = controller.load_byte(DMG_EXT_START + 42);

    assert!(result.is_none(), "Test reading cartridge RAM when it doesn't exist");
}

#[test]
fn test_cart_ram_write_fail() {
    let mut controller = DmgMemoryController::new(bare_cartridge());

    let result = controller.store_byte(DMG_EXT_START + 42, 42);

    assert!(result.is_err(), "Test that accessing non-existent cartridge RAM errors");
}

#[test]
fn test_ram_io() {
    let mut controller = DmgMemoryController::new(bare_cartridge());

    assert_eq!(controller.load_byte(0xC042), Some(0));

    let result = controller.store_byte(0xC042, 28);

    assert_eq!(result, Ok(0), "Test writing to system RAM");
    assert_eq!(controller.load_byte(0xC042), Some(28), "Test changed RAM value");
}

#[test]
fn test_reserved_io() {
    let mut controller = DmgMemoryController::new(bare_cartridge());

    assert_eq!(controller.load_byte(0xFE42), Some(0));

    let result = controller.store_byte(0xFE42, 7);

    assert_eq!(result, Ok(0), "Test writing to reserved addresses");
    assert_eq!(controller.load_byte(0xFE42), Some(7), "Test changed RAM value");
}

#[test]
fn test_echo_region_is_unmapped() {
    let mut controller = DmgMemoryController::new(bare_cartridge());

    assert_eq!(controller.load_byte(0xE000), None);
    assert!(controller.store_byte(0xFD00, 1).is_err());
}

#[test]
fn test_load_half_word_valid_address() {
    let mut controller = DmgMemoryController::new(bare_cartridge());
    controller.store_byte(DMG_RAM_START, 0x04).unwrap();
    controller.store_byte(DMG_RAM_START + 1, 0x28).unwrap();

    let result = controller.load_half_word(DMG_RAM_START);

    // little-endian: the byte at the lower address is the low byte
    assert_eq!(result, Some(0x2804), "Test valid 16-bit load");
}

#[test]
fn test_load_half_word_invalid_first_byte() {
    let controller = DmgMemoryController::new(bare_cartridge());

    let result = controller.load_half_word(0xBFFF);

    assert!(result.is_none(), "Test loading address where 1st byte is an invalid address")
}

#[test]
fn test_load_half_word_invalid_second_byte() {
    let controller = DmgMemoryController::new(bare_cartridge());

    let result = controller.load_half_word(0x9FFF);

    assert!(result.is_none(), "Test loading address where 2nd byte is an invalid address");
}

#[test]
fn test_store_half_word_valid_address() {
    let mut controller = DmgMemoryController::new(bare_cartridge());

    let result = controller.store_half_word(DMG_RAM_START, 0x0428);

    assert_eq!(result, Ok(()), "Test storing 2 bytes into a valid address");
    // little-endian: the low byte lands at the lower address
    assert_eq!(controller.load_byte(DMG_RAM_START), Some(0x28), "Test first loaded byte");
    assert_eq!(controller.load_byte(DMG_RAM_START + 1), Some(0x04), "Test second loaded byte");
}

#[test]
fn test_store_half_byte_invalid_first_byte() {
    let mut controller = DmgMemoryController::new(bare_cartridge());

    let result = controller.store_half_word(DMG_ROM_END, 0x0812);

    assert!(result.is_err(), "Test that the invalid write failed");
    assert_eq!(
        controller.load_byte(DMG_VRAM_START),
        Some(0),
        "Test that the valid address is unchanged"
    );
}

#[test]
fn test_store_half_byte_invalid_second_byte() {
    let mut controller = DmgMemoryController::new(bare_cartridge());

    let result = controller.store_half_word(DMG_VRAM_END, 0x0106);

    assert_eq!(result, Err(MemoryWriteError), "Test that the invalid write failed");
    assert_eq!(
        controller.load_byte(DMG_VRAM_END),
        Some(0),
        "Test that the valid address is unchanged"
    );
}

#[test]
fn test_store_half_word_at_address_space_end() {
    let mut controller = DmgMemoryController::new(bare_cartridge());

    // the second byte would fall past 0xFFFF: the store fails and rolls back
    let result = controller.store_half_word(0xFFFF, 0x1234);

    assert!(result.is_err());
    assert_eq!(controller.load_byte(0xFFFF), Some(0), "first byte rolled back");
    assert_eq!(controller.load_half_word(0xFFFF), None, "no 16-bit value fits at the end");
}
