//! The cartridge factory: inspect the header of a ROM image (type byte
//! 0x147, ROM size code 0x148, RAM size code 0x149) and build the matching
//! mapper variant.

use vstd::prelude::*;

use crate::basicrom::RomOnlyCartridge;
use crate::cartridge::{CartridgeMapper, LoadCartridgeError, SaveError};
use crate::mbc1::MBC1;
use crate::mbc2::MBC2;
use crate::mbc3::MBC3;
use crate::memory::MemoryWriteError;
use crate::rtc::RealTimeClock;

verus! {

/// A cartridge of any supported mapper type, as the factory returns it.
pub enum Cartridge {
    RomOnly(RomOnlyCartridge),
    Mbc1(MBC1),
    Mbc2(MBC2),
    Mbc3(MBC3),
}

/// The RAM bank count a RAM size code denotes; codes above 5 are invalid.
pub open spec fn spec_ram_banks_of_code(code: u8) -> u8 {
    if code == 0 {
        0u8
    } else if code <= 2 {
        1u8
    } else if code == 3 {
        4u8
    } else if code == 4 {
        16u8
    } else {
        8u8
    }
}

/// The ROM bank count a ROM size code denotes; codes above 6 name sizes
/// these mappers cannot address.
pub open spec fn spec_rom_banks_of_code(code: u8) -> int {
    (1u16 << (code + 1)) as int
}

/// Whether a ROM image is larger than the capacity its header declares: one
/// fixed 32 KiB window for a ROM-only cartridge, the declared bank count for
/// the banked mappers.
pub open spec fn spec_image_too_big(image_len: int, cartridge_type: u8, rom_size: u8) -> bool {
    if cartridge_type == 0x00 || cartridge_type == 0x08 || cartridge_type == 0x09 {
        image_len > 32768
    } else {
        image_len > spec_rom_banks_of_code(rom_size) * 16384
    }
}

/// Whether a cartridge type byte names a supported mapper.
pub open spec fn spec_supported_type(cartridge_type: u8) -> bool {
    ||| cartridge_type == 0x00
    ||| cartridge_type == 0x08
    ||| cartridge_type == 0x09
    ||| cartridge_type == 0x01
    ||| cartridge_type == 0x02
    ||| cartridge_type == 0x03
    ||| cartridge_type == 0x05
    ||| cartridge_type == 0x06
    ||| cartridge_type == 0x0F
    ||| cartridge_type == 0x10
    ||| cartridge_type == 0x11
    ||| cartridge_type == 0x12
    ||| cartridge_type == 0x13
}

/// Build the cartridge a ROM image's header calls for. The image must reach
/// past the header; the ROM size code must be at most 6 (larger cartridges
/// than 128 banks do not exist for these mappers); the RAM size code must be
/// at most 5; the type byte must name a supported mapper; and the image must
/// fit the bank count its size code declares.
pub fn build_cartridge(rom: Vec<u8>) -> (r: Result<Cartridge, LoadCartridgeError>)
    ensures
        rom@.len() < 0x14A ==> r == Err::<Cartridge, LoadCartridgeError>(
            LoadCartridgeError::InvalidRomFile,
        ),
        rom@.len() >= 0x14A ==> {
            let cartridge_type = rom@[0x147];
            let rom_size = rom@[0x148];
            let ram_size = rom@[0x149];
            if rom_size > 6 || ram_size > 5 {
                r == Err::<Cartridge, LoadCartridgeError>(LoadCartridgeError::InvalidRomFile)
            } else if !spec_supported_type(cartridge_type) {
                r == Err::<Cartridge, LoadCartridgeError>(LoadCartridgeError::UnsupportedType)
            } else if spec_image_too_big(rom@.len() as int, cartridge_type, rom_size) {
                r == Err::<Cartridge, LoadCartridgeError>(LoadCartridgeError::InvalidRomFile)
            } else {
                match r {
                    Ok(cart) => {
                        &&& cart.wf()
                        &&& match cart {
                            Cartridge::RomOnly(c) => {
                                &&& cartridge_type == 0x00 || cartridge_type == 0x08
                                    || cartridge_type == 0x09
                                &&& c.has_battery == (cartridge_type == 0x09)
                                &&& c.ram is Some <==> cartridge_type != 0x00
                            },
                            Cartridge::Mbc1(c) => {
                                &&& cartridge_type == 0x01 || cartridge_type == 0x02
                                    || cartridge_type == 0x03
                                &&& c.rom.has_battery == (cartridge_type == 0x03)
                                &&& c.rom.rom@.len() == spec_rom_banks_of_code(rom_size) * 16384
                                &&& c.rom.ram@.len() == (if cartridge_type == 0x01 {
                                    0int
                                } else {
                                    spec_ram_banks_of_code(ram_size) as int
                                }) * 8192
                            },
                            Cartridge::Mbc2(c) => {
                                &&& cartridge_type == 0x05 || cartridge_type == 0x06
                                &&& c.has_battery == (cartridge_type == 0x06)
                                &&& c.rom.rom@.len() == spec_rom_banks_of_code(rom_size) * 16384
                            },
                            Cartridge::Mbc3(c) => {
                                &&& 0x0F <= cartridge_type <= 0x13
                                &&& c.rom.has_battery == (cartridge_type == 0x0F
                                    || cartridge_type == 0x10 || cartridge_type == 0x13)
                                &&& c.rtc is Some <==> (cartridge_type == 0x0F || cartridge_type
                                    == 0x10)
                                &&& c.rom.rom@.len() == spec_rom_banks_of_code(rom_size) * 16384
                                &&& c.rom.ram@.len() == (if cartridge_type == 0x0F
                                    || cartridge_type == 0x11 {
                                    0int
                                } else {
                                    spec_ram_banks_of_code(ram_size) as int
                                }) * 8192
                            },
                        }
                    },
                    Err(_) => false,
                }
            }
        },
{
    if rom.len() < 0x14A {
        return Err(LoadCartridgeError::InvalidRomFile);
    }
    let cartridge_type = rom[0x147];
    let rom_size = rom[0x148];
    let ram_size = rom[0x149];

    if rom_size > 6 {
        // bank count = 2 << code; codes past 6 name sizes these mappers
        // cannot address
        return Err(LoadCartridgeError::InvalidRomFile);
    }
    let rom_banks: u8 = 2u8 << rom_size;
    proof {
        let rs = rom_size;
        assert(rs <= 6 ==> (2u8 << rs) == (1u16 << (rs + 1)) && 0 < (2u8 << rs) <= 128)
            by (bit_vector);
    }

    let mem_banks: u8 = if ram_size == 0 {
        0
    } else if ram_size <= 2 {
        1
    } else if ram_size == 3 {
        4
    } else if ram_size == 4 {
        16
    } else if ram_size == 5 {
        8
    } else {
        return Err(LoadCartridgeError::InvalidRomFile);
    };

    if cartridge_type == 0x00 {
        Ok(Cartridge::RomOnly(RomOnlyCartridge::new(rom, false, false)?))
    } else if cartridge_type == 0x08 {
        Ok(Cartridge::RomOnly(RomOnlyCartridge::new(rom, true, false)?))
    } else if cartridge_type == 0x09 {
        Ok(Cartridge::RomOnly(RomOnlyCartridge::new(rom, true, true)?))
    } else if cartridge_type == 0x01 {
        Ok(Cartridge::Mbc1(MBC1::new(rom, rom_banks, 0, false)?))
    } else if cartridge_type == 0x02 {
        Ok(Cartridge::Mbc1(MBC1::new(rom, rom_banks, mem_banks, false)?))
    } else if cartridge_type == 0x03 {
        Ok(Cartridge::Mbc1(MBC1::new(rom, rom_banks, mem_banks, true)?))
    } else if cartridge_type == 0x05 {
        Ok(Cartridge::Mbc2(MBC2::create(rom, rom_banks, 0, false)?))
    } else if cartridge_type == 0x06 {
        Ok(Cartridge::Mbc2(MBC2::create(rom, rom_banks, 0, true)?))
    } else if cartridge_type == 0x0F {
        Ok(
            Cartridge::Mbc3(
                MBC3::new(rom, rom_banks, 0, true, Some(RealTimeClock::default()))?,
            ),
        )
    } else if cartridge_type == 0x10 {
        Ok(
            Cartridge::Mbc3(
                MBC3::new(rom, rom_banks, mem_banks, true, Some(RealTimeClock::default()))?,
            ),
        )
    } else if cartridge_type == 0x11 {
        Ok(Cartridge::Mbc3(MBC3::new(rom, rom_banks, 0, false, None)?))
    } else if cartridge_type == 0x12 {
        Ok(Cartridge::Mbc3(MBC3::new(rom, rom_banks, mem_banks, false, None)?))
    } else if cartridge_type == 0x13 {
        Ok(Cartridge::Mbc3(MBC3::new(rom, rom_banks, mem_banks, true, None)?))
    } else {
        Err(LoadCartridgeError::UnsupportedType)
    }
}

impl CartridgeMapper for Cartridge {
    open spec fn wf(&self) -> bool {
        match self {
            Cartridge::RomOnly(c) => c.wf(),
            Cartridge::Mbc1(c) => c.wf(),
            Cartridge::Mbc2(c) => c.wf(),
            Cartridge::Mbc3(c) => c.wf(),
        }
    }

    open spec fn spec_read_rom(&self, address: u16) -> Option<u8> {
        match self {
            Cartridge::RomOnly(c) => c.spec_read_rom(address),
            Cartridge::Mbc1(c) => c.spec_read_rom(address),
            Cartridge::Mbc2(c) => c.spec_read_rom(address),
            Cartridge::Mbc3(c) => c.spec_read_rom(address),
        }
    }

    open spec fn spec_write_rom_ok(&self, address: u16, data: u8) -> bool {
        match self {
            Cartridge::RomOnly(c) => c.spec_write_rom_ok(address, data),
            Cartridge::Mbc1(c) => c.spec_write_rom_ok(address, data),
            Cartridge::Mbc2(c) => c.spec_write_rom_ok(address, data),
            Cartridge::Mbc3(c) => c.spec_write_rom_ok(address, data),
        }
    }

    open spec fn spec_write_rom(pre: Self, post: Self, address: u16, data: u8) -> bool {
        match pre {
            Cartridge::RomOnly(c) => post matches Cartridge::RomOnly(q)
                && RomOnlyCartridge::spec_write_rom(c, q, address, data),
            Cartridge::Mbc1(c) => post matches Cartridge::Mbc1(q) && MBC1::spec_write_rom(
                c,
                q,
                address,
                data,
            ),
            Cartridge::Mbc2(c) => post matches Cartridge::Mbc2(q) && MBC2::spec_write_rom(
                c,
                q,
                address,
                data,
            ),
            Cartridge::Mbc3(c) => post matches Cartridge::Mbc3(q) && MBC3::spec_write_rom(
                c,
                q,
                address,
                data,
            ),
        }
    }

    open spec fn spec_read_mem(&self, address: u16) -> Option<u8> {
        match self {
            Cartridge::RomOnly(c) => c.spec_read_mem(address),
            Cartridge::Mbc1(c) => c.spec_read_mem(address),
            Cartridge::Mbc2(c) => c.spec_read_mem(address),
            Cartridge::Mbc3(c) => c.spec_read_mem(address),
        }
    }

    open spec fn spec_write_mem_result(&self, address: u16, data: u8) -> Result<
        u8,
        MemoryWriteError,
    > {
        match self {
            Cartridge::RomOnly(c) => c.spec_write_mem_result(address, data),
            Cartridge::Mbc1(c) => c.spec_write_mem_result(address, data),
            Cartridge::Mbc2(c) => c.spec_write_mem_result(address, data),
            Cartridge::Mbc3(c) => c.spec_write_mem_result(address, data),
        }
    }

    open spec fn spec_write_mem(pre: Self, post: Self, address: u16, data: u8) -> bool {
        match pre {
            Cartridge::RomOnly(c) => post matches Cartridge::RomOnly(q)
                && RomOnlyCartridge::spec_write_mem(c, q, address, data),
            Cartridge::Mbc1(c) => post matches Cartridge::Mbc1(q) && MBC1::spec_write_mem(
                c,
                q,
                address,
                data,
            ),
            Cartridge::Mbc2(c) => post matches Cartridge::Mbc2(q) && MBC2::spec_write_mem(
                c,
                q,
                address,
                data,
            ),
            Cartridge::Mbc3(c) => post matches Cartridge::Mbc3(q) && MBC3::spec_write_mem(
                c,
                q,
                address,
                data,
            ),
        }
    }

    open spec fn spec_can_save(&self) -> bool {
        match self {
            Cartridge::RomOnly(c) => c.spec_can_save(),
            Cartridge::Mbc1(c) => c.spec_can_save(),
            Cartridge::Mbc2(c) => c.spec_can_save(),
            Cartridge::Mbc3(c) => c.spec_can_save(),
        }
    }

    open spec fn spec_save(&self) -> Seq<u8> {
        match self {
            Cartridge::RomOnly(c) => c.spec_save(),
            Cartridge::Mbc1(c) => c.spec_save(),
            Cartridge::Mbc2(c) => c.spec_save(),
            Cartridge::Mbc3(c) => c.spec_save(),
        }
    }

    open spec fn spec_load_save_result(&self, data: Seq<u8>) -> Result<(), SaveError> {
        match self {
            Cartridge::RomOnly(c) => c.spec_load_save_result(data),
            Cartridge::Mbc1(c) => c.spec_load_save_result(data),
            Cartridge::Mbc2(c) => c.spec_load_save_result(data),
            Cartridge::Mbc3(c) => c.spec_load_save_result(data),
        }
    }

    open spec fn spec_load_save(pre: Self, post: Self, data: Seq<u8>) -> bool {
        match pre {
            Cartridge::RomOnly(c) => post matches Cartridge::RomOnly(q)
                && RomOnlyCartridge::spec_load_save(c, q, data),
            Cartridge::Mbc1(c) => post matches Cartridge::Mbc1(q) && MBC1::spec_load_save(
                c,
                q,
                data,
            ),
            Cartridge::Mbc2(c) => post matches Cartridge::Mbc2(q) && MBC2::spec_load_save(
                c,
                q,
                data,
            ),
            Cartridge::Mbc3(c) => post matches Cartridge::Mbc3(q) && MBC3::spec_load_save(
                c,
                q,
                data,
            ),
        }
    }

    fn read_rom(&self, address: u16) -> (r: Option<u8>) {
        match self {
            Cartridge::RomOnly(c) => c.read_rom(address),
            Cartridge::Mbc1(c) => c.read_rom(address),
            Cartridge::Mbc2(c) => c.read_rom(address),
            Cartridge::Mbc3(c) => c.read_rom(address),
        }
    }

    fn write_rom(&mut self, address: u16, data: u8) -> (r: Result<(), MemoryWriteError>) {
        match self {
            Cartridge::RomOnly(c) => c.write_rom(address, data),
            Cartridge::Mbc1(c) => c.write_rom(address, data),
            Cartridge::Mbc2(c) => c.write_rom(address, data),
            Cartridge::Mbc3(c) => c.write_rom(address, data),
        }
    }

    fn read_mem(&self, address: u16) -> (r: Option<u8>) {
        match self {
            Cartridge::RomOnly(c) => c.read_mem(address),
            Cartridge::Mbc1(c) => c.read_mem(address),
            Cartridge::Mbc2(c) => c.read_mem(address),
            Cartridge::Mbc3(c) => c.read_mem(address),
        }
    }

    fn write_mem(&mut self, address: u16, data: u8) -> (r: Result<u8, MemoryWriteError>) {
        match self {
            Cartridge::RomOnly(c) => c.write_mem(address, data),
            Cartridge::Mbc1(c) => c.write_mem(address, data),
            Cartridge::Mbc2(c) => c.write_mem(address, data),
            Cartridge::Mbc3(c) => c.write_mem(address, data),
        }
    }

    fn can_save(&self) -> (r: bool) {
        match self {
            Cartridge::RomOnly(c) => c.can_save(),
            Cartridge::Mbc1(c) => c.can_save(),
            Cartridge::Mbc2(c) => c.can_save(),
            Cartridge::Mbc3(c) => c.can_save(),
        }
    }

    fn load_save(&mut self, save_data: Vec<u8>) -> (r: Result<(), SaveError>) {
        match self {
            Cartridge::RomOnly(c) => c.load_save(save_data),
            Cartridge::Mbc1(c) => c.load_save(save_data),
            Cartridge::Mbc2(c) => c.load_save(save_data),
            Cartridge::Mbc3(c) => c.load_save(save_data),
        }
    }

    fn save(&self) -> (r: Vec<u8>) {
        match self {
            Cartridge::RomOnly(c) => c.save(),
            Cartridge::Mbc1(c) => c.save(),
            Cartridge::Mbc2(c) => c.save(),
            Cartridge::Mbc3(c) => c.save(),
        }
    }
}

} // verus!
