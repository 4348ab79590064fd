//! The simplest cartridge: 32 KiB of ROM with no banking, and an optional
//! single 8 KiB RAM bank.

use vstd::prelude::*;

use crate::cartridge::{CartridgeMapper, LoadCartridgeError, SaveError};
use crate::memory::MemoryWriteError;
use crate::utils::{clone_bytes, copy_into_prefix, zero_bytes};

verus! {

/// Bytes of ROM in a cartridge without banking.
pub const ROM_SIZE: usize = 32768;

/// Bytes of RAM in a cartridge without banking.
pub const RAM_SIZE: usize = 8192;

/// A cartridge with no memory bank controller: one fixed 32 KiB ROM window
/// and, optionally, one 8 KiB RAM bank.
pub struct RomOnlyCartridge {
    pub rom: Vec<u8>,
    pub ram: Option<Vec<u8>>,
    pub has_battery: bool,
}

impl RomOnlyCartridge {
    /// Build a ROM-only cartridge from a ROM image of at most 32 KiB, padded
    /// with zeroes. Rejects larger images.
    pub fn new(rom_data: Vec<u8>, has_ram: bool, has_battery: bool) -> (r: Result<
        RomOnlyCartridge,
        LoadCartridgeError,
    >)
        ensures
            rom_data@.len() > ROM_SIZE ==> r == Err::<RomOnlyCartridge, LoadCartridgeError>(
                LoadCartridgeError::InvalidRomFile,
            ),
            rom_data@.len() <= ROM_SIZE ==> match r {
                Ok(cart) => {
                    &&& cart.wf()
                    &&& cart.rom@.len() == ROM_SIZE
                    &&& forall|i: int| 0 <= i < rom_data@.len() ==> cart.rom@[i] == rom_data@[i]
                    &&& forall|i: int|
                        rom_data@.len() <= i < ROM_SIZE ==> cart.rom@[i] == 0u8
                    &&& cart.ram is Some <==> has_ram
                    &&& has_ram ==> forall|i: int|
                        0 <= i < RAM_SIZE ==> cart.ram->0@[i] == 0u8
                    &&& cart.has_battery == has_battery
                },
                Err(_) => false,
            },
    {
        if rom_data.len() > ROM_SIZE {
            return Err(LoadCartridgeError::InvalidRomFile);
        }
        let ram = if has_ram {
            Some(zero_bytes(RAM_SIZE))
        } else {
            None
        };
        let mut rom = zero_bytes(ROM_SIZE);
        copy_into_prefix(&mut rom, &rom_data);
        Ok(RomOnlyCartridge { rom, ram, has_battery })
    }
}

impl CartridgeMapper for RomOnlyCartridge {
    open spec fn wf(&self) -> bool {
        &&& self.rom@.len() == ROM_SIZE
        &&& match self.ram {
            Some(ram) => ram@.len() == RAM_SIZE,
            None => true,
        }
    }

    open spec fn spec_read_rom(&self, address: u16) -> Option<u8> {
        if address < ROM_SIZE {
            Some(self.rom@[address as int])
        } else {
            None
        }
    }

    open spec fn spec_write_rom_ok(&self, address: u16, data: u8) -> bool {
        false
    }

    open spec fn spec_write_rom(pre: Self, post: Self, address: u16, data: u8) -> bool {
        post == pre
    }

    open spec fn spec_read_mem(&self, address: u16) -> Option<u8> {
        match self.ram {
            Some(ram) => if address < RAM_SIZE {
                Some(ram@[address as int])
            } else {
                None
            },
            None => None,
        }
    }

    open spec fn spec_write_mem_result(&self, address: u16, data: u8) -> Result<
        u8,
        MemoryWriteError,
    > {
        match self.ram {
            Some(ram) => if address < RAM_SIZE {
                Ok(ram@[address as int])
            } else {
                Err(MemoryWriteError)
            },
            None => Err(MemoryWriteError),
        }
    }

    open spec fn spec_write_mem(pre: Self, post: Self, address: u16, data: u8) -> bool {
        match pre.ram {
            Some(ram) => if address < RAM_SIZE {
                &&& post.ram is Some
                &&& post.ram->0@ == ram@.update(address as int, data)
                &&& post.rom == pre.rom
                &&& post.has_battery == pre.has_battery
            } else {
                post == pre
            },
            None => post == pre,
        }
    }

    open spec fn spec_can_save(&self) -> bool {
        self.has_battery
    }

    open spec fn spec_save(&self) -> Seq<u8> {
        match self.ram {
            Some(ram) => ram@,
            None => Seq::empty(),
        }
    }

    open spec fn spec_load_save_result(&self, data: Seq<u8>) -> Result<(), SaveError> {
        if !self.has_battery {
            Err(SaveError::SavesNotSupported)
        } else {
            match self.ram {
                Some(ram) => if data.len() > RAM_SIZE {
                    Err(SaveError::SaveFileTooBig)
                } else {
                    Ok(())
                },
                None => Err(SaveError::SavesNotSupported),
            }
        }
    }

    open spec fn spec_load_save(pre: Self, post: Self, data: Seq<u8>) -> bool {
        if pre.spec_load_save_result(data) is Ok {
            &&& post.ram is Some
            &&& post.ram->0@.len() == RAM_SIZE
            &&& forall|i: int| 0 <= i < data.len() ==> post.ram->0@[i] == data[i]
            &&& forall|i: int|
                data.len() <= i < RAM_SIZE ==> post.ram->0@[i] == pre.ram->0@[i]
            &&& post.rom == pre.rom
            &&& post.has_battery == pre.has_battery
        } else {
            post == pre
        }
    }

    fn read_rom(&self, address: u16) -> (r: Option<u8>) {
        if (address as usize) < ROM_SIZE {
            Some(self.rom[address as usize])
        } else {
            None
        }
    }

    fn write_rom(&mut self, _address: u16, _data: u8) -> (r: Result<(), MemoryWriteError>) {
        Err(MemoryWriteError)
    }

    fn read_mem(&self, address: u16) -> (r: Option<u8>) {
        match &self.ram {
            Some(ram) => {
                if (address as usize) < RAM_SIZE {
                    Some(ram[address as usize])
                } else {
                    None
                }
            },
            None => None,
        }
    }

    fn write_mem(&mut self, address: u16, data: u8) -> (r: Result<u8, MemoryWriteError>) {
        match &mut self.ram {
            Some(ram) => {
                if (address as usize) < RAM_SIZE {
                    let prev = ram[address as usize];
                    ram.set(address as usize, data);
                    Ok(prev)
                } else {
                    Err(MemoryWriteError)
                }
            },
            None => Err(MemoryWriteError),
        }
    }

    fn can_save(&self) -> (r: bool) {
        self.has_battery
    }

    fn load_save(&mut self, save_data: Vec<u8>) -> (r: Result<(), SaveError>) {
        if !self.has_battery {
            return Err(SaveError::SavesNotSupported);
        }
        match &mut self.ram {
            Some(ram) => {
                if save_data.len() > RAM_SIZE {
                    return Err(SaveError::SaveFileTooBig);
                }
                copy_into_prefix(ram, &save_data);
                Ok(())
            },
            None => Err(SaveError::SavesNotSupported),
        }
    }

    fn save(&self) -> (r: Vec<u8>) {
        match &self.ram {
            Some(ram) => clone_bytes(ram),
            None => Vec::new(),
        }
    }
}

} // verus!
