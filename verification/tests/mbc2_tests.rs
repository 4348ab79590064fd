use libgb_rs::cartridge::CartridgeMapper;
use libgb_rs::mbc2::{MBC2, MBC2_MEM_SIZE};

const ROM_BANK_SIZE: usize = 16384;

fn init_mapper(rom: Vec<Vec<u8>>, ram: [u8; MBC2_MEM_SIZE]) -> MBC2 {
    let sequential_rom = rom.concat();
    let ram = Vec::from(ram);

    let result = MBC2::create(sequential_rom, rom.len() as u8, 0, true);
    assert!(result.is_ok(), "Should create MBC2 object correctly");
    let mut cartridge = result.unwrap();

    let save_result = cartridge.load_save(ram);
    assert!(save_result.is_ok(), "Should load memory successfully");

    cartridge
}

#[test]
fn mbc2_test_read_bank_0() {
    let mut rom = vec![vec![0; ROM_BANK_SIZE]; 2];
    rom[0][0x4] = 0x28;
    let ram = [0; MBC2_MEM_SIZE];
    let mbc2 = init_mapper(rom, ram);

    let result = mbc2.read_rom(4);

    assert_eq!(result, Some(0x28), "Should be able to read from first half");
}

#[test]
fn test_read_bank_0_after_switch() {
    let mut rom = vec![vec![0; ROM_BANK_SIZE]; 4];
    rom[0][0x4] = 0x28;
    let ram = [0; MBC2_MEM_SIZE];
    let mut mbc2 = init_mapper(rom, ram);

    let write_result = mbc2.write_rom(0x0106, 3);
    let read_result = mbc2.read_rom(0x0004);

    assert!(write_result.is_ok(), "Should be able to change ROM banks successfully");
    assert_eq!(read_result, Some(0x28), "Should still read from bank 0 in first half");
}

#[test]
fn test_bank_switching() {
    let mut rom = vec![vec![0; ROM_BANK_SIZE]; 32];
    rom[1][0x3FFF] = 0xBE;
    // the bank register is 4 bits wide, so a write of 28 selects bank 12
    rom[12][0x4] = 0x07;
    let ram = [0; MBC2_MEM_SIZE];
    let mut mbc2 = init_mapper(rom, ram);

    let bank0_read_result = mbc2.read_rom(0x7FFF);
    let write_result = mbc2.write_rom(0x0106, 28);
    let bank28_read_result = mbc2.read_rom(0x4004);

    assert_eq!(bank0_read_result, Some(0xBE), "Should be able to read from bank 1");
    assert!(write_result.is_ok(), "Should be able to switch banks");
    assert_eq!(bank28_read_result, Some(0x7), "Should be able to read from the masked bank");
}

#[test]
fn test_switch_to_bank_0() {
    let mut rom = vec![vec![0; ROM_BANK_SIZE]; 32];
    rom[1][0x42] = 0x42;
    let ram = [0; MBC2_MEM_SIZE];
    let mut mbc2 = init_mapper(rom, ram);

    let write_result = mbc2.write_rom(0x0106, 0);
    let read_result = mbc2.read_rom(0x4042);

    assert!(write_result.is_ok(), "Should still be able to switch to bank 0");
    assert_eq!(read_result, Some(0x42), "Switching to bank 0 should switch to bank 1 instead");
}

#[test]
fn test_invalid_rom_read() {
    let rom = vec![vec![0; ROM_BANK_SIZE]; 32];
    let ram = [0; MBC2_MEM_SIZE];
    let mbc2 = init_mapper(rom, ram);

    let result = mbc2.read_rom(0x8000);

    assert!(result.is_none(), "Should return none when ROM read address is out of bounds");
}

#[test]
fn test_invalid_rom_write() {
    let rom = vec![vec![0; ROM_BANK_SIZE]; 32];
    let ram = [0; MBC2_MEM_SIZE];
    let mut mbc2 = init_mapper(rom, ram);

    let result = mbc2.write_rom(0x8000, 0xFE);

    assert!(result.is_err(), "Should return error when ROM write address is out of bounds");
}

#[test]
fn test_ram_read() {
    let rom = vec![];
    let mut ram = [0; MBC2_MEM_SIZE];
    ram[0x1FF] = 42;
    let mut mbc2 = init_mapper(rom, ram);

    let enable_result = mbc2.write_rom(0x000A, 0x0A);
    let result = mbc2.read_mem(0x1FF);
    let repeat_result = mbc2.read_mem(0x3FF);

    assert!(enable_result.is_ok(), "Should be able to enable RAM");
    // the half-byte RAM keeps only the low nibble of the loaded 42
    assert_eq!(result, Some(42 & 0x0F), "Should be able to read from memory");
    assert_eq!(repeat_result, Some(42 & 0x0F), "Should repeat when reading past max address");
}

#[test]
fn test_ram_disabled_read() {
    let rom = vec![];
    let ram = [0; MBC2_MEM_SIZE];
    let mbc2 = init_mapper(rom, ram);

    let result = mbc2.read_mem(0x42);

    assert_eq!(result, Some(0xFF), "Should return '0xFF' when RAM is disabled");
}

#[test]
fn test_ram_write() {
    let rom = vec![];
    let ram = [0; MBC2_MEM_SIZE];
    let mut mbc2 = init_mapper(rom, ram);

    let enable_result = mbc2.write_rom(0x02FA, 0x0A);
    let write_result = mbc2.write_mem(0x42, 0x77);
    let write_repeat_result = mbc2.write_mem(0x442, 0x88);
    let written_value = mbc2.read_mem(0x42);

    assert!(enable_result.is_ok(), "Should be able to enable RAM");
    assert_eq!(write_result, Ok(0), "Should be able to write to RAM");
    assert_eq!(
        write_repeat_result,
        Ok(0x07),
        "Should repeat when writing past max address, and first half-byte should be cut off"
    );
    assert_eq!(written_value, Some(0x08), "Previous call should have changed value in RAM");
}

#[test]
fn test_ram_disabled_write() {
    let rom = vec![];
    let ram = [0; MBC2_MEM_SIZE];
    let mut mbc2 = init_mapper(rom, ram);

    let result = mbc2.write_mem(0xBE, 0xEF);

    assert_eq!(result, Ok(0xFF), "Should ignore writes when memory is disabled");
}

#[test]
fn test_ram_mirror_drops_high_nibble() {
    let rom = vec![];
    let ram = [0; MBC2_MEM_SIZE];
    let mut mbc2 = init_mapper(rom, ram);

    assert!(mbc2.write_rom(0x000A, 0x0A).is_ok(), "Should enable RAM");
    assert_eq!(mbc2.write_mem(0x0042, 0x77), Ok(0));

    assert_eq!(
        mbc2.read_mem(0x0442),
        Some(0x07),
        "high nibble dropped, address aliased every 512 bytes"
    );
}
