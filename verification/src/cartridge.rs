//! The common contract of Game Boy cartridge memory mappers. A mapper
//! intercepts writes into the ROM address range as bank-control commands,
//! translates ROM and RAM reads into bank-offset lookups, and may export and
//! import battery-backed RAM.

use vstd::prelude::*;

use crate::memory::MemoryWriteError;

verus! {

/// Bytes in one ROM bank.
pub const ROM_BANK_SIZE: usize = 16384;

/// Bytes in one RAM bank.
pub const RAM_BANK_SIZE: usize = 8192;

/// Why a cartridge could not be built from a ROM image.
#[derive(Debug, Clone, Copy, PartialEq, Eq, Structural)]
pub enum LoadCartridgeError {
    UnsupportedType,
    InvalidRomFile,
}

/// Why battery-backed RAM could not be loaded.
#[derive(Debug, Clone, Copy, PartialEq, Eq, Structural)]
pub enum SaveError {
    SavesNotSupported,
    SaveFileTooBig,
}

/// A Game Boy cartridge memory mapper. The different cartridge types allow
/// for more ROM and RAM than the address space holds, in several slightly
/// different ways; this trait is the operation set they share.
///
/// Every implementation describes itself with spec functions: what its reads
/// return, and how a write transforms its state. The bus routes through these
/// without knowing which mapper it holds.
pub trait CartridgeMapper: Sized {
    /// Structural well-formedness (backing sizes match bank counts, selected
    /// banks in range) that constructors establish and methods preserve.
    spec fn wf(&self) -> bool;

    /// The byte a ROM read at `address` returns.
    spec fn spec_read_rom(&self, address: u16) -> Option<u8>;

    /// Whether a bank-control write to `address` is accepted.
    spec fn spec_write_rom_ok(&self, address: u16, data: u8) -> bool;

    /// How a bank-control write transforms the mapper.
    spec fn spec_write_rom(pre: Self, post: Self, address: u16, data: u8) -> bool;

    /// The byte a cartridge RAM read at `address` returns.
    spec fn spec_read_mem(&self, address: u16) -> Option<u8>;

    /// The value a cartridge RAM write returns.
    spec fn spec_write_mem_result(&self, address: u16, data: u8) -> Result<u8, MemoryWriteError>;

    /// How a cartridge RAM write transforms the mapper.
    spec fn spec_write_mem(pre: Self, post: Self, address: u16, data: u8) -> bool;

    /// Whether the cartridge supports saving.
    spec fn spec_can_save(&self) -> bool;

    /// The battery-backed RAM dump a save returns.
    spec fn spec_save(&self) -> Seq<u8>;

    /// The value loading a save file returns.
    spec fn spec_load_save_result(&self, data: Seq<u8>) -> Result<(), SaveError>;

    /// How loading a save file transforms the mapper.
    spec fn spec_load_save(pre: Self, post: Self, data: Seq<u8>) -> bool;

    /// Get the 8-bit number at the given address on the cartridge ROM,
    /// indexed between 0 and 32,767, or `None` if the address is not valid.
    fn read_rom(&self, address: u16) -> (r: Option<u8>)
        requires
            self.wf(),
        ensures
            r == self.spec_read_rom(address),
    ;

    /// Send a write command to an address in the ROM of a cartridge. This
    /// never modifies the contents of the ROM: memory bank controllers use
    /// writes to a ROM address to switch between banks. Returns an error if
    /// the address is not in the valid range.
    fn write_rom(&mut self, address: u16, data: u8) -> (r: Result<(), MemoryWriteError>)
        requires
            old(self).wf(),
        ensures
            final(self).wf(),
            Self::spec_write_rom(*old(self), *final(self), address, data),
            r is Ok <==> old(self).spec_write_rom_ok(address, data),
    ;

    /// Get the 8-bit number at the given address on the cartridge RAM,
    /// indexed between 0 and 8,191.
    fn read_mem(&self, address: u16) -> (r: Option<u8>)
        requires
            self.wf(),
        ensures
            r == self.spec_read_mem(address),
    ;

    /// Write the given byte into this cartridge's RAM at the given location,
    /// returning the value that was overwritten, or an error if the address
    /// is not in the valid range.
    fn write_mem(&mut self, address: u16, data: u8) -> (r: Result<u8, MemoryWriteError>)
        requires
            old(self).wf(),
        ensures
            final(self).wf(),
            Self::spec_write_mem(*old(self), *final(self), address, data),
            r == old(self).spec_write_mem_result(address, data),
    ;

    /// Whether or not this cartridge supports saving.
    fn can_save(&self) -> (r: bool)
        requires
            self.wf(),
        ensures
            r == self.spec_can_save(),
    ;

    /// Load a save file into the cartridge's memory.
    fn load_save(&mut self, save_data: Vec<u8>) -> (r: Result<(), SaveError>)
        requires
            old(self).wf(),
        ensures
            final(self).wf(),
            Self::spec_load_save(*old(self), *final(self), save_data@),
            r == old(self).spec_load_save_result(save_data@),
    ;

    /// Dump the cartridge's memory as a vector of bytes.
    fn save(&self) -> (r: Vec<u8>)
        requires
            self.wf(),
        ensures
            r@ == self.spec_save(),
    ;
}

} // verus!
