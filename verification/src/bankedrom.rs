//! A reusable storage primitive for cartridges: a padded byte sequence split
//! into 16 KiB ROM banks and 8 KiB RAM banks, with one selected ROM bank and
//! one selected RAM bank at a time. It also handles save loading and dumping,
//! without any mapper-specific bank logic.

use vstd::prelude::*;

use crate::cartridge::{LoadCartridgeError, SaveError, RAM_BANK_SIZE, ROM_BANK_SIZE};
use crate::memory::MemoryWriteError;
use crate::utils::{
    clone_bytes, copy_into_prefix, lemma_ram_bank_address, lemma_ram_offset,
    lemma_rom_bank_address, lemma_rom_offset, zero_bytes,
};

verus! {

/// The most banks a container will hold; more than an 8-bit bank register
/// can ever address.
pub const MAX_BANKS: usize = 256;

/// Banked ROM and RAM storage shared by the cartridge mappers.
pub struct BankedRom {
    pub rom: Vec<u8>,
    pub rom_bank: usize,
    pub ram: Vec<u8>,
    pub ram_bank: usize,
    pub has_battery: bool,
    /// When unset, any read from the first 16 KiB window maps to bank 0;
    /// when set, the selected ROM bank is used for every window.
    pub manual_bank_logic: bool,
}

impl BankedRom {
    /// How many 16 KiB banks the ROM holds.
    pub open spec fn spec_rom_banks(&self) -> int {
        self.rom@.len() as int / ROM_BANK_SIZE as int
    }

    /// How many 8 KiB banks the RAM holds.
    pub open spec fn spec_ram_banks(&self) -> int {
        self.ram@.len() as int / RAM_BANK_SIZE as int
    }

    /// Backing sizes are whole numbers of banks within capacity, and the
    /// selected banks are in range (a fresh container starts on ROM bank 1
    /// even when the ROM has fewer banks than that).
    pub open spec fn wf(&self) -> bool {
        &&& self.rom@.len() == self.spec_rom_banks() * ROM_BANK_SIZE
        &&& self.spec_rom_banks() <= MAX_BANKS
        &&& self.ram@.len() == self.spec_ram_banks() * RAM_BANK_SIZE
        &&& self.spec_ram_banks() <= MAX_BANKS
        &&& self.rom_bank < self.spec_rom_banks() || self.rom_bank <= 1
        &&& self.ram_bank < self.spec_ram_banks() || self.ram_bank == 0
    }

    /// The byte a ROM read at `address` returns: the in-bank offset of the
    /// address, looked up in bank 0 for the first window (unless manual bank
    /// logic is on) and in the selected bank otherwise. Out-of-range
    /// addresses and banks give `None`.
    pub open spec fn spec_read_rom(&self, address: u16) -> Option<u8> {
        if address >= 0x8000 {
            None
        } else {
            let offset = (address as int) % (ROM_BANK_SIZE as int);
            let tag: int = if !self.manual_bank_logic && address < ROM_BANK_SIZE {
                0
            } else {
                self.rom_bank as int
            };
            let rom_address = tag * ROM_BANK_SIZE + offset;
            if rom_address < self.rom@.len() {
                Some(self.rom@[rom_address])
            } else {
                None
            }
        }
    }

    /// The byte a RAM read at `address` returns: the in-bank offset looked
    /// up in the selected RAM bank.
    pub open spec fn spec_read_mem(&self, address: u16) -> Option<u8> {
        if address >= 0x2000 {
            None
        } else {
            let ram_address = self.ram_bank * RAM_BANK_SIZE + (address as int);
            if ram_address < self.ram@.len() {
                Some(self.ram@[ram_address])
            } else {
                None
            }
        }
    }

    /// The bank that selecting `bank` lands on: reduced modulo the bank
    /// count, or 0 when there are no banks.
    pub open spec fn spec_effective_rom_bank(&self, bank: usize) -> int {
        if self.spec_rom_banks() == 0 {
            0
        } else {
            bank as int % self.spec_rom_banks()
        }
    }

    /// As `spec_effective_rom_bank`, for the RAM banks.
    pub open spec fn spec_effective_ram_bank(&self, bank: usize) -> int {
        if self.spec_ram_banks() == 0 {
            0
        } else {
            bank as int % self.spec_ram_banks()
        }
    }

    /// The byte a ROM read at `address` returns when bank `bank` is selected
    /// for every window.
    pub open spec fn spec_read_rom_in_bank(&self, bank: usize, address: u16) -> Option<u8> {
        if address >= 0x8000 {
            None
        } else {
            let offset = (address as int) % (ROM_BANK_SIZE as int);
            let rom_address = self.spec_effective_rom_bank(bank) * ROM_BANK_SIZE + offset;
            if rom_address < self.rom@.len() {
                Some(self.rom@[rom_address])
            } else {
                None
            }
        }
    }

    /// The byte a RAM read at `address` returns when bank `bank` is selected.
    pub open spec fn spec_read_mem_in_bank(&self, bank: usize, address: u16) -> Option<u8> {
        if address >= 0x2000 {
            None
        } else {
            let ram_address = self.spec_effective_ram_bank(bank) * RAM_BANK_SIZE + (address as int);
            if ram_address < self.ram@.len() {
                Some(self.ram@[ram_address])
            } else {
                None
            }
        }
    }

    /// `post` is `pre` with one RAM byte replaced and everything else kept.
    pub open spec fn ram_byte_updated(pre: BankedRom, post: BankedRom, idx: int, value: u8) -> bool {
        &&& post.ram@ == pre.ram@.update(idx, value)
        &&& post.rom == pre.rom
        &&& post.rom_bank == pre.rom_bank
        &&& post.ram_bank == pre.ram_bank
        &&& post.has_battery == pre.has_battery
        &&& post.manual_bank_logic == pre.manual_bank_logic
    }

    /// `post` is `pre` with `data` copied over the start of the RAM and
    /// everything else kept.
    pub open spec fn save_loaded(pre: BankedRom, post: BankedRom, data: Seq<u8>) -> bool {
        &&& post.ram@.len() == pre.ram@.len()
        &&& forall|i: int| 0 <= i < data.len() ==> post.ram@[i] == data[i]
        &&& forall|i: int| data.len() <= i < pre.ram@.len() ==> post.ram@[i] == pre.ram@[i]
        &&& post.rom == pre.rom
        &&& post.rom_bank == pre.rom_bank
        &&& post.ram_bank == pre.ram_bank
        &&& post.has_battery == pre.has_battery
        &&& post.manual_bank_logic == pre.manual_bank_logic
    }

    /// Build a container of `rom_banks` ROM banks and `ram_banks` RAM banks,
    /// copying `rom_bytes` in (zero-padded) and zero-filling the RAM. A ROM
    /// image larger than the capacity is rejected.
    pub fn new(
        rom_bytes: Vec<u8>,
        rom_banks: usize,
        ram_banks: usize,
        has_battery: bool,
        manual_bank_logic: bool,
    ) -> (r: Result<BankedRom, LoadCartridgeError>)
        requires
            rom_banks <= MAX_BANKS,
            ram_banks <= MAX_BANKS,
        ensures
            rom_bytes@.len() > rom_banks * ROM_BANK_SIZE ==> r == Err::<
                BankedRom,
                LoadCartridgeError,
            >(LoadCartridgeError::InvalidRomFile),
            rom_bytes@.len() <= rom_banks * ROM_BANK_SIZE ==> match r {
                Ok(bank) => {
                    &&& bank.wf()
                    &&& bank.rom@.len() == rom_banks * ROM_BANK_SIZE
                    &&& forall|i: int|
                        0 <= i < rom_bytes@.len() ==> bank.rom@[i] == rom_bytes@[i]
                    &&& forall|i: int|
                        rom_bytes@.len() <= i < bank.rom@.len() ==> bank.rom@[i] == 0u8
                    &&& bank.ram@.len() == ram_banks * RAM_BANK_SIZE
                    &&& forall|i: int| 0 <= i < bank.ram@.len() ==> bank.ram@[i] == 0u8
                    &&& bank.rom_bank == 1
                    &&& bank.ram_bank == 0
                    &&& bank.has_battery == has_battery
                    &&& bank.manual_bank_logic == manual_bank_logic
                },
                Err(_) => false,
            },
    {
        let ram_size = RAM_BANK_SIZE * ram_banks;
        let rom_size = ROM_BANK_SIZE * rom_banks;

        if rom_bytes.len() > rom_size {
            return Err(LoadCartridgeError::InvalidRomFile);
        }

        let mut rom = zero_bytes(rom_size);
        copy_into_prefix(&mut rom, &rom_bytes);

        let result = BankedRom {
            rom,
            rom_bank: 1,
            ram: zero_bytes(ram_size),
            ram_bank: 0,
            has_battery,
            manual_bank_logic,
        };
        proof {
            assert(result.spec_rom_banks() == rom_banks) by (nonlinear_arith)
                requires
                    result.rom@.len() == rom_banks * (ROM_BANK_SIZE as int),
                    rom_banks <= MAX_BANKS,
            ;
            assert(result.spec_ram_banks() == ram_banks) by (nonlinear_arith)
                requires
                    result.ram@.len() == ram_banks * (RAM_BANK_SIZE as int),
                    ram_banks <= MAX_BANKS,
            ;
        }
        Ok(result)
    }

    /// Select a ROM bank, reduced modulo the bank count. With no banks at
    /// all, the selection pins to 0.
    pub fn set_rom_bank(&mut self, bank: usize)
        requires
            old(self).wf(),
        ensures
            final(self).wf(),
            *final(self) == (BankedRom {
                rom_bank: if old(self).spec_rom_banks() == 0 {
                    0
                } else {
                    (bank as int % old(self).spec_rom_banks()) as usize
                },
                ..*old(self)
            }),
    {
        let bank_count = self.rom.len() / ROM_BANK_SIZE;
        if bank_count == 0 {
            self.rom_bank = 0;
        } else {
            self.rom_bank = bank % bank_count;
        }
    }

    /// Read a byte from the ROM, honouring the bank selection for the upper
    /// window (and for the lower one only under manual bank logic).
    pub fn read_rom(&self, address: u16) -> (r: Option<u8>)
        requires
            self.wf(),
        ensures
            r == self.spec_read_rom(address),
    {
        if address >= 0x8000 {
            return None;
        }

        let address = address as usize;
        let offset = address & 0x3FFF;  // address inside of the bank (up to 16 KiB)
        proof {
            lemma_rom_offset(address);
        }
        let tag = if !self.manual_bank_logic && offset == address {
            0
        } else {
            self.rom_bank
        };
        proof {
            lemma_rom_bank_address(tag, offset as usize);
        }
        let rom_address = (tag << 14) | offset;

        if rom_address < self.rom.len() {
            Some(self.rom[rom_address])
        } else {
            None
        }
    }

    /// Read a byte from the ROM with bank `bank` selected for every window,
    /// without changing the stored selection.
    pub fn read_rom_in_bank(&self, bank: usize, address: u16) -> (r: Option<u8>)
        requires
            self.wf(),
        ensures
            r == self.spec_read_rom_in_bank(bank, address),
    {
        if address >= 0x8000 {
            return None;
        }

        let bank_count = self.rom.len() / ROM_BANK_SIZE;
        let tag = if bank_count == 0 {
            0
        } else {
            bank % bank_count
        };
        let offset = (address as usize) & 0x3FFF;  // address inside of the bank (up to 16 KiB)
        proof {
            lemma_rom_offset(address as usize);
            lemma_rom_bank_address(tag, offset);
        }
        let rom_address = (tag << 14) | offset;

        if rom_address < self.rom.len() {
            Some(self.rom[rom_address])
        } else {
            None
        }
    }

    /// Read a byte from RAM with bank `bank` selected, without changing the
    /// stored selection.
    pub fn read_mem_in_bank(&self, bank: usize, address: u16) -> (r: Option<u8>)
        requires
            self.wf(),
        ensures
            r == self.spec_read_mem_in_bank(bank, address),
    {
        if address >= 0x2000 {
            return None;
        }

        let bank_count = self.ram.len() / RAM_BANK_SIZE;
        let tag = if bank_count == 0 {
            0
        } else {
            bank % bank_count
        };
        let offset = (address as usize) & 0x1FFF;  // address inside of the bank (up to 8 KiB)
        proof {
            lemma_ram_offset(address as usize);
            assert(offset == address as int);
            lemma_ram_bank_address(tag, offset);
        }
        let ram_address = (tag << 13) | offset;
        if ram_address < self.ram.len() {
            Some(self.ram[ram_address])
        } else {
            None
        }
    }

    /// Write a byte into RAM with bank `bank` selected, without changing the
    /// stored selection. Returns the previous byte.
    pub fn write_mem_in_bank(&mut self, bank: usize, address: u16, value: u8) -> (r: Result<
        u8,
        MemoryWriteError,
    >)
        requires
            old(self).wf(),
        ensures
            final(self).wf(),
            r == match old(self).spec_read_mem_in_bank(bank, address) {
                Some(prev) => Ok::<u8, MemoryWriteError>(prev),
                None => Err::<u8, MemoryWriteError>(MemoryWriteError),
            },
            old(self).spec_read_mem_in_bank(bank, address) is Some ==> BankedRom::ram_byte_updated(
                *old(self),
                *final(self),
                old(self).spec_effective_ram_bank(bank) * RAM_BANK_SIZE + address as int,
                value,
            ),
            old(self).spec_read_mem_in_bank(bank, address) is None ==> *final(self) == *old(self),
    {
        if address >= 0x2000 {
            return Err(MemoryWriteError);
        }

        let bank_count = self.ram.len() / RAM_BANK_SIZE;
        let tag = if bank_count == 0 {
            0
        } else {
            bank % bank_count
        };
        let offset = (address as usize) & 0x1FFF;  // address inside of the bank (up to 8 KiB)
        proof {
            lemma_ram_offset(address as usize);
            assert(offset == address as int);
            lemma_ram_bank_address(tag, offset);
        }
        let ram_address = (tag << 13) | offset;
        if ram_address < self.ram.len() {
            let old_value = self.ram[ram_address];
            self.ram.set(ram_address, value);
            Ok(old_value)
        } else {
            Err(MemoryWriteError)
        }
    }

    /// Select a RAM bank, reduced modulo the bank count. With no banks at
    /// all, the selection pins to 0.
    pub fn set_mem_bank(&mut self, bank: usize)
        requires
            old(self).wf(),
        ensures
            final(self).wf(),
            *final(self) == (BankedRom {
                ram_bank: if old(self).spec_ram_banks() == 0 {
                    0
                } else {
                    (bank as int % old(self).spec_ram_banks()) as usize
                },
                ..*old(self)
            }),
    {
        let bank_count = self.ram.len() / RAM_BANK_SIZE;
        if bank_count == 0 {
            self.ram_bank = 0;
        } else {
            self.ram_bank = bank % bank_count;
        }
    }

    /// Read a byte from the selected RAM bank.
    pub fn read_mem(&self, address: u16) -> (r: Option<u8>)
        requires
            self.wf(),
        ensures
            r == self.spec_read_mem(address),
    {
        if address >= 0x2000 {
            return None;
        }

        let offset = (address as usize) & 0x1FFF;  // address inside of the bank (up to 8 KiB)
        proof {
            lemma_ram_offset(address as usize);
            assert(offset == address as int);
            lemma_ram_bank_address(self.ram_bank, offset);
        }
        let ram_address = (self.ram_bank << 13) | offset;
        if ram_address < self.ram.len() {
            Some(self.ram[ram_address])
        } else {
            None
        }
    }

    /// Write a byte into the selected RAM bank, returning the previous byte.
    pub fn write_mem(&mut self, address: u16, value: u8) -> (r: Result<u8, MemoryWriteError>)
        requires
            old(self).wf(),
        ensures
            final(self).wf(),
            r == match old(self).spec_read_mem(address) {
                Some(prev) => Ok::<u8, MemoryWriteError>(prev),
                None => Err::<u8, MemoryWriteError>(MemoryWriteError),
            },
            old(self).spec_read_mem(address) is Some ==> final(self).ram@ == old(self).ram@.update(
                old(self).ram_bank * RAM_BANK_SIZE + address as int,
                value,
            ),
            old(self).spec_read_mem(address) is None ==> *final(self) == *old(self),
            final(self).rom == old(self).rom,
            final(self).rom_bank == old(self).rom_bank,
            final(self).ram_bank == old(self).ram_bank,
            final(self).has_battery == old(self).has_battery,
            final(self).manual_bank_logic == old(self).manual_bank_logic,
    {
        if address >= 0x2000 {
            return Err(MemoryWriteError);
        }

        let offset = (address as usize) & 0x1FFF;  // address inside of the bank (up to 8 KiB)
        proof {
            lemma_ram_offset(address as usize);
            assert(offset == address as int);
            lemma_ram_bank_address(self.ram_bank, offset);
        }
        let ram_address = (self.ram_bank << 13) | offset;
        if ram_address < self.ram.len() {
            let old_value = self.ram[ram_address];
            self.ram.set(ram_address, value);
            Ok(old_value)
        } else {
            Err(MemoryWriteError)
        }
    }

    /// Load a save file over the start of the battery-backed RAM.
    pub fn load_save(&mut self, save_data: Vec<u8>) -> (r: Result<(), SaveError>)
        requires
            old(self).wf(),
        ensures
            final(self).wf(),
            r == old(self).spec_load_save_result(save_data@),
            r is Ok ==> {
                &&& final(self).ram@.len() == old(self).ram@.len()
                &&& forall|i: int|
                    0 <= i < save_data@.len() ==> final(self).ram@[i] == save_data@[i]
                &&& forall|i: int|
                    save_data@.len() <= i < old(self).ram@.len() ==> final(self).ram@[i] == old(
                        self,
                    ).ram@[i]
            },
            r is Err ==> *final(self) == *old(self),
            final(self).rom == old(self).rom,
            final(self).rom_bank == old(self).rom_bank,
            final(self).ram_bank == old(self).ram_bank,
            final(self).has_battery == old(self).has_battery,
            final(self).manual_bank_logic == old(self).manual_bank_logic,
    {
        if !self.has_battery {
            return Err(SaveError::SavesNotSupported);
        }

        if save_data.len() > self.ram.len() {
            return Err(SaveError::SaveFileTooBig);
        }

        copy_into_prefix(&mut self.ram, &save_data);
        Ok(())
    }

    /// The value loading a save file returns: rejected without a battery or
    /// when the file is larger than the RAM.
    pub open spec fn spec_load_save_result(&self, data: Seq<u8>) -> Result<(), SaveError> {
        if !self.has_battery {
            Err(SaveError::SavesNotSupported)
        } else if data.len() > self.ram@.len() {
            Err(SaveError::SaveFileTooBig)
        } else {
            Ok(())
        }
    }

    /// Dump the whole RAM.
    pub fn save(&self) -> (r: Vec<u8>)
        ensures
            r@ == self.ram@,
    {
        clone_bytes(&self.ram)
    }

    /// Whether the container supports saving.
    pub fn can_save(&self) -> (r: bool)
        ensures
            r == self.has_battery,
    {
        self.has_battery
    }
}

} // verus!
