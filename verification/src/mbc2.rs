//! The MBC2 memory bank controller: a single 4-bit ROM bank register
//! addressed by bit 8 of the write address, and a built-in 512 half-byte RAM
//! that repeats through the whole RAM window.

use vstd::prelude::*;

use crate::bankedrom::BankedRom;
use crate::cartridge::{CartridgeMapper, LoadCartridgeError, SaveError, ROM_BANK_SIZE};
use crate::memory::MemoryWriteError;
use crate::utils::zero_bytes;

verus! {

/// Entries in the built-in half-byte RAM of an MBC2 cartridge.
pub const MBC2_MEM_SIZE: usize = 512;

/// Masking with `0x1FF` is reduction modulo the half-byte RAM size.
proof fn lemma_mbc2_offset(a: u16)
    ensures
        a & 0x1FF == a % 512,
        a & 0x1FF < 512,
{
    assert(a & 0x1FF == a % 512 && a & 0x1FF < 512) by (bit_vector);
}

/// An MBC2 (Memory Bank Controller 2) cartridge mapper.
pub struct MBC2 {
    pub rom: BankedRom,
    /// 512 half-byte entries, stored one per byte with a zero high nibble.
    pub ram: Vec<u8>,
    pub ram_enabled: bool,
    pub has_battery: bool,
}

impl MBC2 {
    /// The ROM bank a bank-select write of `data` lands on: the low four
    /// bits, with 0 forced to 1, reduced modulo the bank count.
    pub open spec fn spec_selected_rom_bank(&self, data: u8) -> int {
        let bank = if data & 0x0F == 0 {
            1u8
        } else {
            data & 0x0F
        };
        self.rom.spec_effective_rom_bank(bank as usize)
    }

    /// Build an MBC2 cartridge holding `rom_banks` ROM banks; the RAM is the
    /// fixed built-in 512 half-bytes, so `_ram_banks` is ignored. `rom` is
    /// the ROM image, zero-padded to whole banks and rejected when larger
    /// than the capacity.
    pub fn create(rom: Vec<u8>, rom_banks: u8, _ram_banks: u8, has_battery: bool) -> (r: Result<
        MBC2,
        LoadCartridgeError,
    >)
        ensures
            rom@.len() > rom_banks * 16384 ==> r == Err::<MBC2, LoadCartridgeError>(
                LoadCartridgeError::InvalidRomFile,
            ),
            rom@.len() <= rom_banks * 16384 ==> match r {
                Ok(cart) => {
                    &&& cart.wf()
                    &&& cart.rom.rom@.len() == rom_banks * 16384
                    &&& forall|i: int| 0 <= i < rom@.len() ==> cart.rom.rom@[i] == rom@[i]
                    &&& forall|i: int|
                        rom@.len() <= i < cart.rom.rom@.len() ==> cart.rom.rom@[i] == 0u8
                    &&& forall|i: int| 0 <= i < MBC2_MEM_SIZE ==> cart.ram@[i] == 0u8
                    &&& cart.rom.rom_bank == 1
                    &&& !cart.ram_enabled
                    &&& cart.has_battery == has_battery
                },
                Err(_) => false,
            },
    {
        let banked = BankedRom::new(rom, rom_banks as usize, 0, false, false);
        match banked {
            Ok(rom) => Ok(
                MBC2 { rom, ram: zero_bytes(MBC2_MEM_SIZE), ram_enabled: false, has_battery },
            ),
            Err(e) => Err(e),
        }
    }
}

impl CartridgeMapper for MBC2 {
    open spec fn wf(&self) -> bool {
        &&& self.rom.wf()
        &&& self.ram@.len() == MBC2_MEM_SIZE
    }

    open spec fn spec_read_rom(&self, address: u16) -> Option<u8> {
        self.rom.spec_read_rom(address)
    }

    open spec fn spec_write_rom_ok(&self, address: u16, data: u8) -> bool {
        address <= 0x7FFF
    }

    open spec fn spec_write_rom(pre: Self, post: Self, address: u16, data: u8) -> bool {
        if address > 0x7FFF || address >= ROM_BANK_SIZE {
            post == pre
        } else if address & 0x0100 == 0 {
            post == (MBC2 { ram_enabled: data == 0x0A, ..pre })
        } else {
            post == (MBC2 {
                rom: BankedRom {
                    rom_bank: pre.spec_selected_rom_bank(data) as usize,
                    ..pre.rom
                },
                ..pre
            })
        }
    }

    open spec fn spec_read_mem(&self, address: u16) -> Option<u8> {
        if self.ram_enabled {
            Some(self.ram@[(address as int) % 512])
        } else {
            Some(0xFF)
        }
    }

    open spec fn spec_write_mem_result(&self, address: u16, data: u8) -> Result<
        u8,
        MemoryWriteError,
    > {
        if self.ram_enabled {
            Ok(self.ram@[(address as int) % 512])
        } else {
            Ok(0xFF)
        }
    }

    open spec fn spec_write_mem(pre: Self, post: Self, address: u16, data: u8) -> bool {
        if pre.ram_enabled {
            &&& post.ram@ == pre.ram@.update((address as int) % 512, data & 0x0F)
            &&& post.rom == pre.rom
            &&& post.ram_enabled == pre.ram_enabled
            &&& post.has_battery == pre.has_battery
        } else {
            post == pre
        }
    }

    open spec fn spec_can_save(&self) -> bool {
        self.has_battery
    }

    open spec fn spec_save(&self) -> Seq<u8> {
        self.ram@
    }

    open spec fn spec_load_save_result(&self, data: Seq<u8>) -> Result<(), SaveError> {
        if !self.has_battery {
            Err(SaveError::SavesNotSupported)
        } else if data.len() > MBC2_MEM_SIZE {
            Err(SaveError::SaveFileTooBig)
        } else {
            Ok(())
        }
    }

    open spec fn spec_load_save(pre: Self, post: Self, data: Seq<u8>) -> bool {
        if pre.spec_load_save_result(data) is Ok {
            &&& post.ram@.len() == MBC2_MEM_SIZE
            &&& forall|i: int| 0 <= i < data.len() ==> post.ram@[i] == data[i] & 0x0F
            &&& forall|i: int| data.len() <= i < MBC2_MEM_SIZE ==> post.ram@[i] == pre.ram@[i]
            &&& post.rom == pre.rom
            &&& post.ram_enabled == pre.ram_enabled
            &&& post.has_battery == pre.has_battery
        } else {
            post == pre
        }
    }

    fn read_rom(&self, address: u16) -> (r: Option<u8>) {
        self.rom.read_rom(address)
    }

    fn write_rom(&mut self, address: u16, data: u8) -> (r: Result<(), MemoryWriteError>) {
        if address > 0x7FFF {
            return Err(MemoryWriteError);
        }
        if address >= (ROM_BANK_SIZE as u16) {
            return Ok(());
        }
        // bit 8 of the address decides whether the write enables RAM or
        // selects the ROM bank
        if address & 0x0100 == 0 {
            self.ram_enabled = data == 0x0A;
        } else {
            let mut bank = data & 0x0F;
            proof {
                assert(data & 0x0F <= 0x0F) by (bit_vector);
            }
            if bank == 0 {
                bank = 1;
            }
            self.rom.set_rom_bank(bank as usize);
        }
        Ok(())
    }

    fn read_mem(&self, address: u16) -> (r: Option<u8>) {
        proof {
            lemma_mbc2_offset(address);
        }
        // only the first 9 address bits count: the 512 entries repeat
        let address = (address & 0x1FF) as usize;
        if self.ram_enabled {
            Some(self.ram[address])
        } else {
            Some(0xFF)
        }
    }

    fn write_mem(&mut self, address: u16, data: u8) -> (r: Result<u8, MemoryWriteError>) {
        if !self.ram_enabled {
            return Ok(0xFF);
        }
        proof {
            lemma_mbc2_offset(address);
            assert(data & 0x0F <= 0x0F) by (bit_vector);
        }
        // only the first 9 address bits count: the 512 entries repeat
        let address = (address & 0x1FF) as usize;
        let old_value = self.ram[address];
        // only the low 4 bits are stored, leaving the high nibble 0
        self.ram.set(address, data & 0x0F);
        Ok(old_value)
    }

    fn can_save(&self) -> (r: bool) {
        self.has_battery
    }

    fn load_save(&mut self, save_data: Vec<u8>) -> (r: Result<(), SaveError>) {
        if !self.has_battery {
            return Err(SaveError::SavesNotSupported);
        }
        if save_data.len() > MBC2_MEM_SIZE {
            return Err(SaveError::SaveFileTooBig);
        }

        // the data cannot just be copied because each entry keeps only its
        // low 4 bits
        let mut idx: usize = 0;
        while idx < save_data.len()
            invariant
                idx <= save_data@.len(),
                save_data@.len() <= MBC2_MEM_SIZE,
                self.ram@.len() == MBC2_MEM_SIZE,
                forall|i: int| 0 <= i < idx ==> self.ram@[i] == save_data@[i] & 0x0F,
                forall|i: int| idx <= i < MBC2_MEM_SIZE ==> self.ram@[i] == old(self).ram@[i],
                self.rom == old(self).rom,
                self.ram_enabled == old(self).ram_enabled,
                self.has_battery == old(self).has_battery,
            decreases save_data@.len() - idx,
        {
            let b = save_data[idx];
            self.ram.set(idx, b & 0x0F);
            idx = idx + 1;
        }

        Ok(())
    }

    fn save(&self) -> (r: Vec<u8>) {
        crate::utils::clone_bytes(&self.ram)
    }
}

} // verus!
