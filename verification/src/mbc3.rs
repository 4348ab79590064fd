//! The MBC3 memory bank controller: a 7-bit ROM bank register, a 4-bit RAM
//! bank register that also selects the real-time-clock registers, a RAM
//! enable latch, and the two-write clock latch sequence.

use vstd::prelude::*;

use crate::bankedrom::BankedRom;
use crate::cartridge::{CartridgeMapper, LoadCartridgeError, SaveError};
use crate::memory::MemoryWriteError;
use crate::rtc::RealTimeClock;

verus! {

/// An MBC3 (Memory Bank Controller 3) cartridge mapper. It keeps track of
/// additional memory and storage by intercepting write calls to read-only
/// memory addresses, and may carry a real-time clock.
pub struct MBC3 {
    pub rom: BankedRom,
    pub ram_enabled: bool,
    pub ram_bank: u8,
    pub rtc: Option<RealTimeClock>,
    /// Set once a 0 was written into the latch region; the following write
    /// of 1 latches the clock.
    pub latching: bool,
}

impl MBC3 {
    /// Build an MBC3 cartridge holding `rom_banks` ROM banks and `ram_banks`
    /// RAM banks, with an optional real-time clock. `rom` is the ROM image,
    /// zero-padded to whole banks and rejected when larger than the
    /// capacity.
    pub fn new(
        rom: Vec<u8>,
        rom_banks: u8,
        ram_banks: u8,
        has_battery: bool,
        rtc: Option<RealTimeClock>,
    ) -> (r: Result<MBC3, LoadCartridgeError>)
        requires
            match rtc {
                Some(clock) => clock.wf(),
                None => true,
            },
        ensures
            rom@.len() > rom_banks * 16384 ==> r == Err::<MBC3, LoadCartridgeError>(
                LoadCartridgeError::InvalidRomFile,
            ),
            rom@.len() <= rom_banks * 16384 ==> match r {
                Ok(cart) => {
                    &&& cart.wf()
                    &&& cart.rom.rom@.len() == rom_banks * 16384
                    &&& forall|i: int| 0 <= i < rom@.len() ==> cart.rom.rom@[i] == rom@[i]
                    &&& forall|i: int|
                        rom@.len() <= i < cart.rom.rom@.len() ==> cart.rom.rom@[i] == 0u8
                    &&& cart.rom.ram@.len() == ram_banks * 8192
                    &&& forall|i: int| 0 <= i < cart.rom.ram@.len() ==> cart.rom.ram@[i] == 0u8
                    &&& cart.rom.has_battery == has_battery
                    &&& cart.rom.rom_bank == 1
                    &&& cart.rom.ram_bank == 0
                    &&& !cart.ram_enabled
                    &&& cart.ram_bank == 1u8
                    &&& cart.rtc == rtc
                    &&& !cart.latching
                },
                Err(_) => false,
            },
    {
        let banked = BankedRom::new(rom, rom_banks as usize, ram_banks as usize, has_battery, false);
        match banked {
            Ok(rom) => Ok(
                MBC3 { rom, ram_enabled: false, ram_bank: 1, rtc, latching: false },
            ),
            Err(e) => Err(e),
        }
    }
}

impl CartridgeMapper for MBC3 {
    open spec fn wf(&self) -> bool {
        &&& self.rom.wf()
        &&& self.ram_bank <= 0x0F
        &&& match self.rtc {
            Some(clock) => clock.wf(),
            None => true,
        }
    }

    open spec fn spec_read_rom(&self, address: u16) -> Option<u8> {
        self.rom.spec_read_rom(address)
    }

    open spec fn spec_write_rom_ok(&self, address: u16, data: u8) -> bool {
        &&& address < 0x8000
        &&& !(0x6000 <= address && data == 1 && self.latching && self.rtc is None)
    }

    open spec fn spec_write_rom(pre: Self, post: Self, address: u16, data: u8) -> bool {
        if address < 0x2000 {
            // RAM enable region
            post == (MBC3 { ram_enabled: data == 0xA0, ..pre })
        } else if address < 0x4000 {
            // ROM bank region
            post == (MBC3 {
                rom: BankedRom {
                    rom_bank: pre.rom.spec_effective_rom_bank((data & 0x7F) as usize) as usize,
                    ..pre.rom
                },
                ..pre
            })
        } else if address < 0x6000 {
            // RAM bank region
            post == (MBC3 {
                ram_bank: data & 0x0F,
                rom: BankedRom {
                    ram_bank: pre.rom.spec_effective_ram_bank((data & 0x0F) as usize) as usize,
                    ..pre.rom
                },
                ..pre
            })
        } else if address < 0x8000 {
            // clock latch region: a 0 arms the latch, a following 1 fires it
            if data == 0 {
                post == (MBC3 { latching: true, ..pre })
            } else if data == 1 && pre.latching {
                match pre.rtc {
                    Some(clock) => {
                        &&& !post.latching
                        &&& post.rtc is Some
                        &&& exists|now: u64|
                            RealTimeClock::spec_latched(clock, post.rtc->0, now)
                        &&& post.rom == pre.rom
                        &&& post.ram_enabled == pre.ram_enabled
                        &&& post.ram_bank == pre.ram_bank
                    },
                    None => post == pre,
                }
            } else {
                post == (MBC3 { latching: false, ..pre })
            }
        } else {
            post == pre
        }
    }

    open spec fn spec_read_mem(&self, address: u16) -> Option<u8> {
        if !self.ram_enabled {
            Some(0xFF)
        } else if self.ram_bank <= 3 {
            self.rom.spec_read_mem(address)
        } else {
            match self.rtc {
                Some(clock) => match self.ram_bank {
                    8u8 => Some(clock.seconds),
                    9u8 => Some(clock.minutes),
                    0xAu8 => Some(clock.hours),
                    0xBu8 => Some(clock.days_lower),
                    0xCu8 => Some(clock.days_upper),
                    _ => None,
                },
                None => None,
            }
        }
    }

    open spec fn spec_write_mem_result(&self, address: u16, data: u8) -> Result<
        u8,
        MemoryWriteError,
    > {
        if !self.ram_enabled {
            Ok(0xFF)
        } else if self.ram_bank <= 3 {
            match self.rom.spec_read_mem(address) {
                Some(prev) => Ok(prev),
                None => Err(MemoryWriteError),
            }
        } else {
            match self.rtc {
                Some(clock) => match self.ram_bank {
                    8u8 => Ok(clock.seconds),
                    9u8 => Ok(clock.minutes),
                    0xAu8 => Ok(clock.hours),
                    0xBu8 => Ok(clock.days_lower),
                    0xCu8 => Ok(clock.days_upper),
                    _ => Err(MemoryWriteError),
                },
                None => Err(MemoryWriteError),
            }
        }
    }

    open spec fn spec_write_mem(pre: Self, post: Self, address: u16, data: u8) -> bool {
        if !pre.ram_enabled {
            post == pre
        } else if pre.ram_bank <= 3 {
            if pre.rom.spec_read_mem(address) is Some {
                &&& BankedRom::ram_byte_updated(
                    pre.rom,
                    post.rom,
                    pre.rom.ram_bank * 8192 + address as int,
                    data,
                )
                &&& post.ram_enabled == pre.ram_enabled
                &&& post.ram_bank == pre.ram_bank
                &&& post.rtc == pre.rtc
                &&& post.latching == pre.latching
            } else {
                post == pre
            }
        } else {
            match pre.rtc {
                Some(clock) => match pre.ram_bank {
                    8u8 => post == (MBC3 {
                        rtc: Some(RealTimeClock { seconds: data & 0x3F, ..clock }),
                        ..pre
                    }),
                    9u8 => post == (MBC3 {
                        rtc: Some(RealTimeClock { minutes: data & 0x3F, ..clock }),
                        ..pre
                    }),
                    0xAu8 => post == (MBC3 {
                        rtc: Some(RealTimeClock { hours: data & 0x1F, ..clock }),
                        ..pre
                    }),
                    0xBu8 => post == (MBC3 {
                        rtc: Some(RealTimeClock { days_lower: data, ..clock }),
                        ..pre
                    }),
                    0xCu8 => {
                        &&& post.rtc is Some
                        &&& exists|now: u64|
                            RealTimeClock::spec_days_upper_set(clock, post.rtc->0, data, now)
                        &&& post.rom == pre.rom
                        &&& post.ram_enabled == pre.ram_enabled
                        &&& post.ram_bank == pre.ram_bank
                        &&& post.latching == pre.latching
                    },
                    _ => post == pre,
                },
                None => post == pre,
            }
        }
    }

    open spec fn spec_can_save(&self) -> bool {
        self.rom.has_battery
    }

    open spec fn spec_save(&self) -> Seq<u8> {
        self.rom.ram@
    }

    open spec fn spec_load_save_result(&self, data: Seq<u8>) -> Result<(), SaveError> {
        self.rom.spec_load_save_result(data)
    }

    open spec fn spec_load_save(pre: Self, post: Self, data: Seq<u8>) -> bool {
        if pre.rom.spec_load_save_result(data) is Ok {
            &&& BankedRom::save_loaded(pre.rom, post.rom, data)
            &&& post.ram_enabled == pre.ram_enabled
            &&& post.ram_bank == pre.ram_bank
            &&& post.rtc == pre.rtc
            &&& post.latching == pre.latching
        } else {
            post == pre
        }
    }

    fn read_rom(&self, address: u16) -> (r: Option<u8>) {
        self.rom.read_rom(address)
    }

    fn write_rom(&mut self, address: u16, data: u8) -> (r: Result<(), MemoryWriteError>) {
        if address < 0x2000 {
            // RAM enable region
            self.ram_enabled = data == 0xA0;
            Ok(())
        } else if address < 0x4000 {
            // ROM bank region
            proof {
                assert(data & 0x7F <= 0x7F) by (bit_vector);
            }
            self.rom.set_rom_bank((data & 0x7F) as usize);
            Ok(())
        } else if address < 0x6000 {
            // RAM bank region
            proof {
                assert(data & 0x0F <= 0x0F) by (bit_vector);
            }
            self.ram_bank = data & 0x0F;
            self.rom.set_mem_bank(self.ram_bank as usize);
            Ok(())
        } else if address < 0x8000 {
            // clock latch region (see the clock itself for the semantics)
            if data == 0 {
                self.latching = true;
                Ok(())
            } else if data == 1 && self.latching {
                match &mut self.rtc {
                    Some(clock) => {
                        clock.latch();
                        self.latching = false;
                        Ok(())
                    },
                    None => Err(MemoryWriteError),
                }
            } else {
                self.latching = false;
                Ok(())
            }
        } else {
            Err(MemoryWriteError)
        }
    }

    fn read_mem(&self, address: u16) -> (r: Option<u8>) {
        if !self.ram_enabled {
            return Some(0xFF);
        }

        // the first 4 banks are RAM, 0x8 through 0xC the clock registers
        if self.ram_bank <= 3 {
            self.rom.read_mem(address)
        } else {
            match &self.rtc {
                Some(clock) => match self.ram_bank {
                    8u8 => Some(clock.get_seconds()),
                    9u8 => Some(clock.get_minutes()),
                    0xAu8 => Some(clock.get_hours()),
                    0xBu8 => Some(clock.get_days_lower()),
                    0xCu8 => Some(clock.get_days_upper()),
                    _ => None,
                },
                None => None,
            }
        }
    }

    fn write_mem(&mut self, address: u16, data: u8) -> (r: Result<u8, MemoryWriteError>) {
        if !self.ram_enabled {
            return Ok(0xFF);
        }

        // the first 4 banks are RAM, 0x8 through 0xC the clock registers
        if self.ram_bank <= 3 {
            self.rom.write_mem(address, data)
        } else {
            match &mut self.rtc {
                Some(clock) => match self.ram_bank {
                    8u8 => Ok(clock.set_seconds(data)),
                    9u8 => Ok(clock.set_minutes(data)),
                    0xAu8 => Ok(clock.set_hours(data)),
                    0xBu8 => Ok(clock.set_days_lower(data)),
                    0xCu8 => Ok(clock.set_days_upper(data)),
                    _ => Err(MemoryWriteError),
                },
                None => Err(MemoryWriteError),
            }
        }
    }

    fn can_save(&self) -> (r: bool) {
        self.rom.can_save()
    }

    fn load_save(&mut self, save_data: Vec<u8>) -> (r: Result<(), SaveError>) {
        self.rom.load_save(save_data)
    }

    fn save(&self) -> (r: Vec<u8>) {
        self.rom.save()
    }
}

} // verus!
