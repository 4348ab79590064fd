//! The memory bus of a Game Boy system: routing of 16-bit addresses across
//! cartridge ROM, cartridge RAM, video RAM, work RAM and the system area.

use vstd::prelude::*;

use crate::cartridge::CartridgeMapper;
use crate::utils::{spec_merge, spec_high_byte, spec_low_byte, zero_bytes, Merge, Split};

verus! {

/// A write touched an unmapped address or a disallowed region.
#[derive(Debug, Clone, Copy, PartialEq, Eq, Structural)]
pub struct MemoryWriteError;

/// The functionality needed for interacting with a Game Boy system's memory.
///
/// Every implementation describes itself with spec functions: what its loads
/// return and how a store transforms it. The instruction decoder reads
/// through these without knowing which controller it borrows.
pub trait MemoryController: Sized {
    /// Structural well-formedness that constructors establish and methods
    /// preserve.
    spec fn wf(&self) -> bool;

    /// The byte a load at `address` returns, or `None` if the address does
    /// not exist.
    spec fn spec_load_byte(&self, address: u16) -> Option<u8>;

    /// The 16-bit number a load at `address` returns, or `None` if either
    /// byte of the number sits at an invalid address.
    spec fn spec_load_half_word(&self, address: u16) -> Option<u16>;

    /// How a byte store transforms the memory, and what it returns.
    spec fn spec_store_byte(pre: Self, post: Self, address: u16, data: u8, r: Result<
        u8,
        MemoryWriteError,
    >) -> bool;

    /// How a 16-bit store transforms the memory, and what it returns.
    spec fn spec_store_half_word(pre: Self, post: Self, address: u16, data: u16, r: Result<
        (),
        MemoryWriteError,
    >) -> bool;

    /// Retrieve a byte from the given address in memory, or `None` if the
    /// address does not exist.
    fn load_byte(&self, address: u16) -> (r: Option<u8>)
        requires
            self.wf(),
        ensures
            r == self.spec_load_byte(address),
    ;

    /// Load a 16-bit number from two successive bytes at the given address,
    /// or `None` if either byte sits at an invalid address.
    fn load_half_word(&self, address: u16) -> (r: Option<u16>)
        requires
            self.wf(),
        ensures
            r == self.spec_load_half_word(address),
    ;

    /// Save a byte into the given location in memory. Returns the byte which
    /// was previously in that location, or an error if the address is
    /// invalid.
    fn store_byte(&mut self, address: u16, data: u8) -> (r: Result<u8, MemoryWriteError>)
        requires
            old(self).wf(),
        ensures
            final(self).wf(),
            Self::spec_store_byte(*old(self), *final(self), address, data, r),
    ;

    /// Save a 16-bit number into the given location in memory. If either
    /// byte of it would sit at an invalid location, an error is returned and
    /// memory is left unchanged.
    fn store_half_word(&mut self, address: u16, data: u16) -> (r: Result<(), MemoryWriteError>)
        requires
            old(self).wf(),
        ensures
            final(self).wf(),
            Self::spec_store_half_word(*old(self), *final(self), address, data, r),
    ;
}

/// Start of the video RAM region.
pub const DMG_VRAM_START: u16 = 0x8000;

/// Start of the cartridge RAM region.
pub const DMG_EXT_START: u16 = 0xA000;

/// Start of the work RAM region.
pub const DMG_RAM_START: u16 = 0xC000;

/// Start of the system/IO region.
pub const DMG_RES_START: u16 = 0xFE00;

/// Bytes of work RAM.
pub const DMG_RAM_SIZE: usize = 8192;

/// Bytes of video RAM.
pub const DMG_VRAM_SIZE: usize = 8192;

/// Bytes in the system/IO region.
pub const DMG_RES_SIZE: usize = 512;

/// The memory of an original Game Boy (DMG) system: the cartridge plus the
/// work RAM, video RAM and system region the bus itself owns.
pub struct DmgMemoryController<C: CartridgeMapper> {
    pub cartridge: C,
    pub ram: Vec<u8>,
    pub vram: Vec<u8>,
    pub system: Vec<u8>,
}

impl<C: CartridgeMapper> DmgMemoryController<C> {
    /// Build a bus around `cartridge`, with work RAM, video RAM and the
    /// system region zeroed.
    pub fn new(cartridge: C) -> (r: DmgMemoryController<C>)
        requires
            cartridge.wf(),
        ensures
            r.wf(),
            r.cartridge == cartridge,
            forall|i: int| 0 <= i < DMG_RAM_SIZE ==> r.ram@[i] == 0u8,
            forall|i: int| 0 <= i < DMG_VRAM_SIZE ==> r.vram@[i] == 0u8,
            forall|i: int| 0 <= i < DMG_RES_SIZE ==> r.system@[i] == 0u8,
    {
        DmgMemoryController {
            cartridge,
            ram: zero_bytes(DMG_RAM_SIZE),
            vram: zero_bytes(DMG_VRAM_SIZE),
            system: zero_bytes(DMG_RES_SIZE),
        }
    }
}

impl<C: CartridgeMapper> MemoryController for DmgMemoryController<C> {
    open spec fn wf(&self) -> bool {
        &&& self.cartridge.wf()
        &&& self.ram@.len() == DMG_RAM_SIZE
        &&& self.vram@.len() == DMG_VRAM_SIZE
        &&& self.system@.len() == DMG_RES_SIZE
    }

    open spec fn spec_load_byte(&self, address: u16) -> Option<u8> {
        if address < DMG_VRAM_START {
            self.cartridge.spec_read_rom(address)
        } else if address < DMG_EXT_START {
            Some(self.vram@[address - DMG_VRAM_START])
        } else if address < DMG_RAM_START {
            self.cartridge.spec_read_mem((address - DMG_EXT_START) as u16)
        } else if address < 0xE000 {
            Some(self.ram@[address - DMG_RAM_START])
        } else if address < DMG_RES_START {
            None
        } else {
            Some(self.system@[address - DMG_RES_START])
        }
    }

    open spec fn spec_load_half_word(&self, address: u16) -> Option<u16> {
        if address == 0xFFFF {
            None
        } else {
            match (self.spec_load_byte(address), self.spec_load_byte((address + 1) as u16)) {
                (Some(lo), Some(hi)) => Some(spec_merge(hi, lo)),
                _ => None,
            }
        }
    }

    open spec fn spec_store_byte(
        pre: Self,
        post: Self,
        address: u16,
        data: u8,
        r: Result<u8, MemoryWriteError>,
    ) -> bool {
        if address < DMG_VRAM_START {
            &&& C::spec_write_rom(pre.cartridge, post.cartridge, address, data)
            &&& post.ram == pre.ram
            &&& post.vram == pre.vram
            &&& post.system == pre.system
            &&& r == if pre.cartridge.spec_write_rom_ok(address, data) {
                Ok::<u8, MemoryWriteError>(data)
            } else {
                Err::<u8, MemoryWriteError>(MemoryWriteError)
            }
        } else if address < DMG_EXT_START {
            &&& post == (DmgMemoryController {
                vram: post.vram,
                ..pre
            })
            &&& post.vram@ == pre.vram@.update(address - DMG_VRAM_START, data)
            &&& r == Ok::<u8, MemoryWriteError>(pre.vram@[address - DMG_VRAM_START])
        } else if address < DMG_RAM_START {
            &&& C::spec_write_mem(pre.cartridge, post.cartridge, (address - DMG_EXT_START) as u16, data)
            &&& post.ram == pre.ram
            &&& post.vram == pre.vram
            &&& post.system == pre.system
            &&& r == pre.cartridge.spec_write_mem_result((address - DMG_EXT_START) as u16, data)
        } else if address < 0xE000 {
            &&& post == (DmgMemoryController {
                ram: post.ram,
                ..pre
            })
            &&& post.ram@ == pre.ram@.update(address - DMG_RAM_START, data)
            &&& r == Ok::<u8, MemoryWriteError>(pre.ram@[address - DMG_RAM_START])
        } else if address < DMG_RES_START {
            &&& post == pre
            &&& r == Err::<u8, MemoryWriteError>(MemoryWriteError)
        } else {
            &&& post == (DmgMemoryController {
                system: post.system,
                ..pre
            })
            &&& post.system@ == pre.system@.update(address - DMG_RES_START, data)
            &&& r == Ok::<u8, MemoryWriteError>(pre.system@[address - DMG_RES_START])
        }
    }

    open spec fn spec_store_half_word(
        pre: Self,
        post: Self,
        address: u16,
        data: u16,
        r: Result<(), MemoryWriteError>,
    ) -> bool {
        exists|mid: Self, r0: Result<u8, MemoryWriteError>|
            {
                &&& #[trigger] Self::spec_store_byte(pre, mid, address, spec_low_byte(data), r0)
                &&& match r0 {
                    Err(_) => post == mid && r is Err,
                    Ok(prev) => if address == 0xFFFF {
                        // the second byte would fall past the address
                        // space: the first write is rolled back
                        &&& r is Err
                        &&& exists|rb: Result<u8, MemoryWriteError>|
                            #[trigger] Self::spec_store_byte(mid, post, address, prev, rb)
                    } else {
                        exists|mid2: Self, r1: Result<u8, MemoryWriteError>|
                            {
                                &&& #[trigger] Self::spec_store_byte(
                                    mid,
                                    mid2,
                                    (address + 1) as u16,
                                    spec_high_byte(data),
                                    r1,
                                )
                                &&& match r1 {
                                    Ok(_) => post == mid2 && r is Ok,
                                    // roll the first write back so a failed
                                    // store leaves the two bytes as before
                                    Err(_) => {
                                        &&& r is Err
                                        &&& exists|rb: Result<u8, MemoryWriteError>|
                                            #[trigger] Self::spec_store_byte(
                                                mid2,
                                                post,
                                                address,
                                                prev,
                                                rb,
                                            )
                                    },
                                }
                            }
                    },
                }
            }
    }

    fn load_byte(&self, address: u16) -> (r: Option<u8>) {
        if address < DMG_VRAM_START {
            self.cartridge.read_rom(address)
        } else if address < DMG_EXT_START {
            Some(self.vram[(address - DMG_VRAM_START) as usize])
        } else if address < DMG_RAM_START {
            self.cartridge.read_mem(address - DMG_EXT_START)
        } else if address < 0xE000 {
            Some(self.ram[(address - DMG_RAM_START) as usize])
        } else if address < DMG_RES_START {
            None
        } else {
            Some(self.system[(address - DMG_RES_START) as usize])
        }
    }

    fn load_half_word(&self, address: u16) -> (r: Option<u16>) {
        if address == 0xFFFF {
            return None;
        }
        let left = self.load_byte(address);
        let right = self.load_byte(address + 1);
        match (left, right) {
            (Some(lo), Some(hi)) => Some(hi.merge(lo)),
            _ => None,
        }
    }

    fn store_byte(&mut self, address: u16, data: u8) -> (r: Result<u8, MemoryWriteError>) {
        if address < DMG_VRAM_START {
            match self.cartridge.write_rom(address, data) {
                Ok(_) => Ok(data),
                Err(e) => Err(e),
            }
        } else if address < DMG_EXT_START {
            let idx = (address - DMG_VRAM_START) as usize;
            let prev = self.vram[idx];
            self.vram.set(idx, data);
            Ok(prev)
        } else if address < DMG_RAM_START {
            self.cartridge.write_mem(address - DMG_EXT_START, data)
        } else if address < 0xE000 {
            let idx = (address - DMG_RAM_START) as usize;
            let prev = self.ram[idx];
            self.ram.set(idx, data);
            Ok(prev)
        } else if address < DMG_RES_START {
            Err(MemoryWriteError)
        } else {
            let idx = (address - DMG_RES_START) as usize;
            let prev = self.system[idx];
            self.system.set(idx, data);
            Ok(prev)
        }
    }

    fn store_half_word(&mut self, address: u16, data: u16) -> (r: Result<(), MemoryWriteError>) {
        let (left_data, right_data) = data.split();

        let first = self.store_byte(address, right_data);
        let ghost mid = *self;
        let ghost r0 = first;
        let prev_left = match first {
            Ok(prev) => prev,
            Err(_) => {
                proof {
                    assert(Self::spec_store_byte(*old(self), mid, address, spec_low_byte(data), r0));
                }
                return Err(MemoryWriteError);
            },
        };
        if address == 0xFFFF {
            // the second byte would fall past the address space: roll the
            // first write back
            let rb = self.store_byte(address, prev_left);
            proof {
                assert(Self::spec_store_byte(*old(self), mid, address, spec_low_byte(data), r0));
                assert(Self::spec_store_byte(mid, *self, address, prev_left, rb));
            }
            return Err(MemoryWriteError);
        }
        let second = self.store_byte(address + 1, left_data);
        let ghost mid2 = *self;
        let ghost r1 = second;
        if second.is_err() {
            // roll the first write back so a failed store leaves the two
            // bytes as before
            let rb = self.store_byte(address, prev_left);
            proof {
                assert(Self::spec_store_byte(*old(self), mid, address, spec_low_byte(data), r0));
                assert(Self::spec_store_byte(mid, mid2, (address + 1) as u16, spec_high_byte(data), r1));
                assert(Self::spec_store_byte(mid2, *self, address, prev_left, rb));
            }
            return Err(MemoryWriteError);
        }
        proof {
            assert(Self::spec_store_byte(*old(self), mid, address, spec_low_byte(data), r0));
            assert(Self::spec_store_byte(mid, mid2, (address + 1) as u16, spec_high_byte(data), r1));
        }
        Ok(())
    }
}

} // verus!
