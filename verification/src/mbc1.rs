//! The MBC1 memory bank controller: a 5-bit ROM bank register (with the
//! forced-to-1 hardware quirk), a 2-bit secondary bank register, a RAM
//! enable latch, and two banking modes that decide whether the secondary
//! register steers RAM or the high bits of the ROM bank.

use vstd::prelude::*;

use crate::bankedrom::BankedRom;
use crate::cartridge::{CartridgeMapper, LoadCartridgeError, SaveError, RAM_BANK_SIZE};
use crate::memory::MemoryWriteError;

verus! {

/// The banking mode of an MBC1 cartridge.
///
/// - In `ROM` mode the cartridge reads from up to 2 MiB of ROM but only one
///   RAM bank, and the first 16 KiB window is locked to bank 0.
/// - In `RAM` mode the secondary register selects the RAM bank, and on large
///   cartridges it also re-points the first 16 KiB window at banks 0x20,
///   0x40 or 0x60.
#[derive(Debug, Clone, Copy, PartialEq, Eq, Structural)]
pub enum StorageMode {
    ROM,
    RAM,
}

/// The storage mode a bank-mode write selects: only the lowest bit counts.
pub open spec fn spec_mode_of(data: u8) -> StorageMode {
    if data % 2 == 0 {
        StorageMode::ROM
    } else {
        StorageMode::RAM
    }
}

/// An MBC1 (Memory Bank Controller 1) cartridge mapper.
pub struct MBC1 {
    pub rom: BankedRom,
    pub storage_mode: StorageMode,
    pub rom_bank: u8,
    pub ram_bank: u8,
    pub ram_enabled: bool,
    /// Set when the ROM has more than 32 banks, so the secondary register
    /// supplies bits 5 and 6 of the ROM bank.
    pub extra_storage: bool,
}

impl MBC1 {
    /// The ROM bank a read at `address` goes to, before reduction modulo the
    /// bank count: bank 0 for the first window (re-pointed by the secondary
    /// register in RAM mode on large cartridges), and the combined bank
    /// registers for the second window.
    pub open spec fn spec_rom_bank_for(&self, address: u16) -> usize {
        let first_half = address < 0x4000;
        if first_half && self.storage_mode == StorageMode::RAM && self.extra_storage {
            (self.ram_bank << 5) as usize
        } else if first_half {
            0
        } else if self.extra_storage {
            ((self.ram_bank << 5) as usize) | ((self.rom_bank as usize) & 0x1F)
        } else {
            self.rom_bank as usize
        }
    }

    /// The RAM bank accesses go to: the secondary register in RAM mode,
    /// bank 0 otherwise.
    pub open spec fn spec_mem_bank(&self) -> usize {
        if self.storage_mode == StorageMode::ROM {
            0
        } else {
            self.ram_bank as usize
        }
    }

    /// Build an MBC1 cartridge holding `rom_banks` ROM banks and `ram_banks`
    /// RAM banks; `rom` is the ROM image, zero-padded to whole banks and
    /// rejected when larger than the capacity.
    pub fn new(rom: Vec<u8>, rom_banks: u8, ram_banks: u8, has_battery: bool) -> (r: Result<
        MBC1,
        LoadCartridgeError,
    >)
        ensures
            rom@.len() > rom_banks * 16384 ==> r == Err::<MBC1, LoadCartridgeError>(
                LoadCartridgeError::InvalidRomFile,
            ),
            rom@.len() <= rom_banks * 16384 ==> match r {
                Ok(cart) => {
                    &&& cart.wf()
                    &&& cart.rom.rom@.len() == rom_banks * 16384
                    &&& forall|i: int| 0 <= i < rom@.len() ==> cart.rom.rom@[i] == rom@[i]
                    &&& forall|i: int|
                        rom@.len() <= i < cart.rom.rom@.len() ==> cart.rom.rom@[i] == 0u8
                    &&& cart.rom.ram@.len() == ram_banks * 8192
                    &&& forall|i: int| 0 <= i < cart.rom.ram@.len() ==> cart.rom.ram@[i] == 0u8
                    &&& cart.rom.has_battery == has_battery
                    &&& cart.storage_mode == StorageMode::ROM
                    &&& cart.rom_bank == 1u8
                    &&& cart.ram_bank == 0u8
                    &&& !cart.ram_enabled
                    &&& cart.extra_storage == (rom_banks > 32)
                },
                Err(_) => false,
            },
    {
        let banked = BankedRom::new(rom, rom_banks as usize, ram_banks as usize, has_battery, true);
        match banked {
            Ok(rom) => Ok(
                MBC1 {
                    rom,
                    storage_mode: StorageMode::ROM,
                    ram_bank: 0,
                    rom_bank: 1,
                    ram_enabled: false,
                    extra_storage: rom_banks > 32,
                },
            ),
            Err(e) => Err(e),
        }
    }
}

impl CartridgeMapper for MBC1 {
    open spec fn wf(&self) -> bool {
        &&& self.rom.wf()
        &&& 1 <= self.rom_bank <= 0x1F
        &&& self.ram_bank <= 3
    }

    open spec fn spec_read_rom(&self, address: u16) -> Option<u8> {
        self.rom.spec_read_rom_in_bank(self.spec_rom_bank_for(address), address)
    }

    open spec fn spec_write_rom_ok(&self, address: u16, data: u8) -> bool {
        address < 0x8000
    }

    open spec fn spec_write_rom(pre: Self, post: Self, address: u16, data: u8) -> bool {
        if address < 0x2000 {
            post == (MBC1 { ram_enabled: data & 0xF == 0xA, ..pre })
        } else if address < 0x4000 {
            post == (MBC1 {
                rom_bank: if data & 0x1F == 0 {
                    1u8
                } else {
                    data & 0x1F
                },
                ..pre
            })
        } else if address < 0x6000 {
            post == (MBC1 { ram_bank: data & 3, ..pre })
        } else if address < 0x8000 {
            post == (MBC1 { storage_mode: spec_mode_of(data), ..pre })
        } else {
            post == pre
        }
    }

    open spec fn spec_read_mem(&self, address: u16) -> Option<u8> {
        if !self.ram_enabled {
            Some(0xFF)
        } else {
            self.rom.spec_read_mem_in_bank(self.spec_mem_bank(), address)
        }
    }

    open spec fn spec_write_mem_result(&self, address: u16, data: u8) -> Result<
        u8,
        MemoryWriteError,
    > {
        if !self.ram_enabled {
            Ok(0)
        } else {
            match self.rom.spec_read_mem_in_bank(self.spec_mem_bank(), address) {
                Some(prev) => Ok(prev),
                None => Err(MemoryWriteError),
            }
        }
    }

    open spec fn spec_write_mem(pre: Self, post: Self, address: u16, data: u8) -> bool {
        if pre.ram_enabled && pre.rom.spec_read_mem_in_bank(pre.spec_mem_bank(), address) is Some {
            &&& BankedRom::ram_byte_updated(
                pre.rom,
                post.rom,
                pre.rom.spec_effective_ram_bank(pre.spec_mem_bank()) * RAM_BANK_SIZE
                    + address as int,
                data,
            )
            &&& post.storage_mode == pre.storage_mode
            &&& post.rom_bank == pre.rom_bank
            &&& post.ram_bank == pre.ram_bank
            &&& post.ram_enabled == pre.ram_enabled
            &&& post.extra_storage == pre.extra_storage
        } else {
            post == pre
        }
    }

    open spec fn spec_can_save(&self) -> bool {
        self.rom.has_battery
    }

    open spec fn spec_save(&self) -> Seq<u8> {
        self.rom.ram@
    }

    open spec fn spec_load_save_result(&self, data: Seq<u8>) -> Result<(), SaveError> {
        self.rom.spec_load_save_result(data)
    }

    open spec fn spec_load_save(pre: Self, post: Self, data: Seq<u8>) -> bool {
        if pre.rom.spec_load_save_result(data) is Ok {
            &&& BankedRom::save_loaded(pre.rom, post.rom, data)
            &&& post.storage_mode == pre.storage_mode
            &&& post.rom_bank == pre.rom_bank
            &&& post.ram_bank == pre.ram_bank
            &&& post.ram_enabled == pre.ram_enabled
            &&& post.extra_storage == pre.extra_storage
        } else {
            post == pre
        }
    }

    fn read_rom(&self, address: u16) -> (r: Option<u8>) {
        let mut bank = self.rom_bank as usize;
        let first_half = address < 0x4000;

        // The first window is re-pointed to bank 0x00, 0x20, 0x40 or 0x60
        // when there are enough banks and the RAM banking mode is selected
        if first_half && self.storage_mode == StorageMode::RAM && self.extra_storage {
            bank = (self.ram_bank << 5) as usize;
        } else if first_half {
            // the first window is otherwise always bank 0
            bank = 0;
        } else if self.extra_storage {
            // account for the secondary register in the internal index
            bank = ((self.ram_bank << 5) as usize) | (bank & 0x1F);
        }

        self.rom.read_rom_in_bank(bank, address)
    }

    fn write_rom(&mut self, address: u16, data: u8) -> (r: Result<(), MemoryWriteError>) {
        if address < 0x2000 {
            self.ram_enabled = (data & 0xF) == 0xA;
            Ok(())
        } else if address < 0x4000 {
            // hardware quirk present in MBC1 cartridges: the 0-comparison
            // only looks at the five bits that were written
            let mut bank = data & 0x1F;
            proof {
                assert(data & 0x1F <= 0x1F) by (bit_vector);
            }
            if bank == 0 {
                bank = 1;
            }
            self.rom_bank = bank;
            Ok(())
        } else if address < 0x6000 {
            proof {
                assert(data & 3 <= 3) by (bit_vector);
            }
            self.ram_bank = data & 3;
            Ok(())
        } else if address < 0x8000 {
            self.storage_mode = if data % 2 == 0 {
                StorageMode::ROM
            } else {
                StorageMode::RAM
            };
            Ok(())
        } else {
            Err(MemoryWriteError)
        }
    }

    fn read_mem(&self, address: u16) -> (r: Option<u8>) {
        if !self.ram_enabled {
            return Some(0xFF);
        }
        let bank = if self.storage_mode == StorageMode::ROM {
            0
        } else {
            self.ram_bank as usize
        };
        self.rom.read_mem_in_bank(bank, address)
    }

    fn write_mem(&mut self, address: u16, data: u8) -> (r: Result<u8, MemoryWriteError>) {
        if !self.ram_enabled {
            return Ok(0);
        }
        let bank = if self.storage_mode == StorageMode::ROM {
            0
        } else {
            self.ram_bank as usize
        };
        self.rom.write_mem_in_bank(bank, address, data)
    }

    fn can_save(&self) -> (r: bool) {
        self.rom.can_save()
    }

    fn load_save(&mut self, save_data: Vec<u8>) -> (r: Result<(), SaveError>) {
        self.rom.load_save(save_data)
    }

    fn save(&self) -> (r: Vec<u8>) {
        self.rom.save()
    }
}

} // verus!
