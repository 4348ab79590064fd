use libgb_rs::basicrom::RomOnlyCartridge;
use libgb_rs::cartridge::{CartridgeMapper, SaveError};
use libgb_rs::memory::MemoryWriteError;

const ROM_SIZE: usize = 32768;
const RAM_SIZE: usize = 8192;

fn init_rom(rom: Vec<u8>, ram: Option<Vec<u8>>, has_battery: bool) -> RomOnlyCartridge {
    match ram {
        Some(ram) => {
            let result = RomOnlyCartridge::new(rom, true, has_battery);
            assert!(result.is_ok(), "Should be able to create ROM");
            let mut cartridge = result.unwrap();

            let save_result = cartridge.load_save(ram);
            assert!(save_result.is_ok(), "Should be able to load memory");

            cartridge
        }
        None => {
            let result = RomOnlyCartridge::new(rom, false, has_battery);
            assert!(result.is_ok(), "Should be able to create ROM");
            result.unwrap()
        }
    }
}

#[test]
fn test_read_rom_valid_address() {
    let mut rom = vec![0; ROM_SIZE];
    rom[2450] = 128;
    let controller = init_rom(rom, None, false);

    let result = controller.read_rom(2450);

    assert_eq!(result, Some(128), "Test reading from ROM");
}

#[test]
fn basicrom_test_read_rom_invalid_address() {
    let rom = vec![0; ROM_SIZE];
    let controller = init_rom(rom, None, false);

    let result = controller.read_rom(0x8000);

    assert_eq!(result, None, "Test that invalid addresses returns 'None'");
}

#[test]
fn test_write_rom_address() {
    let rom = vec![0; ROM_SIZE];
    let mut controller = init_rom(rom, None, false);

    let result = controller.write_rom(0, 12);

    assert_eq!(result, Err(MemoryWriteError), "Writing to ROM is not supported");
}

#[test]
fn test_read_mem_valid_address() {
    let rom = vec![0; ROM_SIZE];
    let mut ram = vec![0; RAM_SIZE];
    ram[4096] = 200;
    let controller = init_rom(rom, Some(ram), true);

    let result = controller.read_mem(4096);

    assert_eq!(result, Some(200), "Test reading from RAM");
}

#[test]
fn test_read_mem_no_ram() {
    let rom = vec![0; ROM_SIZE];
    let controller = init_rom(rom, None, true);

    let result = controller.read_mem(4096);

    assert_eq!(result, None, "Test reading from RAM when there is no RAM");
}

#[test]
fn test_read_mem_invalid_address() {
    let rom = vec![0; ROM_SIZE];
    let ram = vec![0; RAM_SIZE];
    let controller = init_rom(rom, Some(ram), true);

    let result = controller.read_mem(8192);

    assert_eq!(result, None, "Test reading from invalid RAM address");
}

#[test]
fn test_write_mem_valid_address() {
    let rom = vec![0; ROM_SIZE];
    let mut ram = vec![0; RAM_SIZE];
    ram[4096] = 30;
    let mut controller = init_rom(rom, Some(ram), true);

    let result = controller.write_mem(4096, 200);

    assert_eq!(result, Ok(30), "Test writing to a valid RAM address");
    assert_eq!(controller.read_mem(4096), Some(200), "Test Writing to RAM");
}

#[test]
fn test_write_mem_no_ram() {
    let rom = vec![0; ROM_SIZE];
    let mut controller = init_rom(rom, None, false);

    let result = controller.write_mem(1024, 200);

    assert!(result.is_err(), "Test writing when there is no RAM");
}

#[test]
fn test_write_mem_invalid_address() {
    let rom = vec![0; ROM_SIZE];
    let ram = vec![0; RAM_SIZE];
    let mut controller = init_rom(rom, Some(ram), true);

    let result = controller.write_mem(0x2000, 200);

    assert!(result.is_err(), "Test writing to invalid address")
}

#[test]
fn test_rom_too_large_is_rejected() {
    let rom = vec![0; ROM_SIZE + 1];
    assert!(RomOnlyCartridge::new(rom, false, false).is_err());
}

#[test]
fn test_save_round_trip_prefix() {
    let rom = vec![0; ROM_SIZE];
    let mut cartridge = init_rom(rom, Some(vec![0; RAM_SIZE]), true);

    let save_data = vec![7, 6, 5, 4];
    assert!(cartridge.load_save(save_data.clone()).is_ok());
    let dump = cartridge.save();
    assert_eq!(dump.len(), RAM_SIZE);
    assert_eq!(&dump[0..4], &save_data[..]);
}

#[test]
fn test_save_errors() {
    // no battery: loading is refused
    let mut no_battery = init_rom(vec![0; ROM_SIZE], None, false);
    assert!(matches!(no_battery.load_save(vec![1]), Err(SaveError::SavesNotSupported)));
    assert!(!no_battery.can_save());

    // a save larger than the RAM is refused
    let mut with_ram = init_rom(vec![0; ROM_SIZE], Some(vec![0; RAM_SIZE]), true);
    assert!(matches!(
        with_ram.load_save(vec![0; RAM_SIZE + 1]),
        Err(SaveError::SaveFileTooBig)
    ));
    assert!(with_ram.can_save());
}
