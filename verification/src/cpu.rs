//! The register file of a Game Boy / Game Boy Color CPU: eight 8-bit
//! lettered registers, the stack pointer and the program counter, together
//! with the flag register layout.

use vstd::prelude::*;

use crate::utils::{spec_merge, spec_high_byte, spec_low_byte, Merge, Split};

verus! {

/// One of the lettered 8-bit registers in a Game Boy CPU.
#[derive(Debug, Clone, Copy)]
pub enum CpuRegister {
    A,
    B,
    C,
    D,
    E,
    H,
    L,
    F,
}

/// The CPU flags, unpacked from the high four bits of the F register.
#[derive(Debug, Clone, Copy)]
pub struct FlagRegister {
    pub zero: bool,
    pub subtract: bool,
    pub half_carry: bool,
    pub carry: bool,
}

/// The F-register byte encoding `flags`: zero in bit 7, subtract in bit 6,
/// half-carry in bit 5, carry in bit 4, and the low four bits always zero.
pub open spec fn spec_flag_bits(flags: FlagRegister) -> u8 {
    ((if flags.zero { 0x80u8 } else { 0u8 }) | (if flags.subtract { 0x40u8 } else { 0u8 })
        | (if flags.half_carry { 0x20u8 } else { 0u8 }) | (if flags.carry { 0x10u8 } else { 0u8 }))
}

/// The flags encoded in byte `value`, one per bit of the high nibble.
pub open spec fn spec_flags_of_bits(value: u8) -> FlagRegister {
    FlagRegister {
        zero: value & 0x80 != 0,
        subtract: value & 0x40 != 0,
        half_carry: value & 0x20 != 0,
        carry: value & 0x10 != 0,
    }
}

impl FlagRegister {
    /// Pack the flags into an F-register byte; bits 3..0 read as zero.
    pub fn to_bits(self) -> (r: u8)
        ensures
            r == spec_flag_bits(self),
    {
        ((if self.zero { 0x80u8 } else { 0u8 }) | (if self.subtract { 0x40u8 } else { 0u8 })
            | (if self.half_carry { 0x20u8 } else { 0u8 }) | (if self.carry { 0x10u8 } else { 0u8 }))
    }

    /// Unpack an F-register byte into the four flags.
    pub fn from_bits(value: u8) -> (r: FlagRegister)
        ensures
            r == spec_flags_of_bits(value),
    {
        FlagRegister {
            zero: (value & 0x80) != 0,
            subtract: (value & 0x40) != 0,
            half_carry: (value & 0x20) != 0,
            carry: (value & 0x10) != 0,
        }
    }
}

/// The CPU registers of a Game Boy / Game Boy Color system.
pub struct CpuData {
    pub a: u8,
    pub b: u8,
    pub c: u8,
    pub d: u8,
    pub e: u8,
    pub h: u8,
    pub l: u8,
    pub f: u8,
    pub sp: u16,
    pub pc: u16,
}

impl CpuData {
    /// The value the register `idx` holds.
    pub open spec fn spec_register(self, idx: CpuRegister) -> u8 {
        match idx {
            CpuRegister::A => self.a,
            CpuRegister::B => self.b,
            CpuRegister::C => self.c,
            CpuRegister::D => self.d,
            CpuRegister::E => self.e,
            CpuRegister::H => self.h,
            CpuRegister::L => self.l,
            CpuRegister::F => self.f,
        }
    }

    /// `self` with register `idx` replaced by `value`.
    pub open spec fn spec_with_register(self, idx: CpuRegister, value: u8) -> CpuData {
        match idx {
            CpuRegister::A => CpuData { a: value, ..self },
            CpuRegister::B => CpuData { b: value, ..self },
            CpuRegister::C => CpuData { c: value, ..self },
            CpuRegister::D => CpuData { d: value, ..self },
            CpuRegister::E => CpuData { e: value, ..self },
            CpuRegister::H => CpuData { h: value, ..self },
            CpuRegister::L => CpuData { l: value, ..self },
            CpuRegister::F => CpuData { f: value, ..self },
        }
    }

    /// The 16-bit value of the pair whose most-significant byte sits in
    /// `idx1` and least-significant byte in `idx2`.
    pub open spec fn spec_joined(self, idx1: CpuRegister, idx2: CpuRegister) -> u16 {
        spec_merge(self.spec_register(idx1), self.spec_register(idx2))
    }

    /// A register file with every register, the stack pointer and the
    /// program counter zeroed.
    pub fn new() -> (r: CpuData)
        ensures
            forall|idx: CpuRegister| r.spec_register(idx) == 0u8,
            r.sp == 0u16,
            r.pc == 0u16,
    {
        CpuData { a: 0, b: 0, c: 0, d: 0, e: 0, h: 0, l: 0, f: 0, sp: 0, pc: 0 }
    }

    /// Read one 8-bit register.
    pub fn get_register(&self, idx: CpuRegister) -> (r: u8)
        ensures
            r == self.spec_register(idx),
    {
        match idx {
            CpuRegister::A => self.a,
            CpuRegister::B => self.b,
            CpuRegister::C => self.c,
            CpuRegister::D => self.d,
            CpuRegister::E => self.e,
            CpuRegister::H => self.h,
            CpuRegister::L => self.l,
            CpuRegister::F => self.f,
        }
    }

    /// Overwrite one 8-bit register.
    pub fn set_register(&mut self, idx: CpuRegister, value: u8)
        ensures
            *final(self) == old(self).spec_with_register(idx, value),
    {
        match idx {
            CpuRegister::A => self.a = value,
            CpuRegister::B => self.b = value,
            CpuRegister::C => self.c = value,
            CpuRegister::D => self.d = value,
            CpuRegister::E => self.e = value,
            CpuRegister::H => self.h = value,
            CpuRegister::L => self.l = value,
            CpuRegister::F => self.f = value,
        }
    }

    /// Get a 16-bit value by joining two registers; `idx1` holds the
    /// most-significant byte.
    pub fn get_joined_registers(&self, idx1: CpuRegister, idx2: CpuRegister) -> (r: u16)
        ensures
            r == self.spec_joined(idx1, idx2),
    {
        let left = self.get_register(idx1);
        let right = self.get_register(idx2);
        left.merge(right)
    }

    /// Store a 16-bit value by splitting it over two registers; `idx1`
    /// receives the most-significant byte.
    pub fn set_joined_registers(&mut self, idx1: CpuRegister, idx2: CpuRegister, data: u16)
        ensures
            *final(self) == old(self).spec_with_register(idx1, spec_high_byte(data)).spec_with_register(
                idx2,
                spec_low_byte(data),
            ),
    {
        let (left_data, right_data) = data.split();
        // Register 1 gets the 8 most significant bits
        self.set_register(idx1, left_data);
        // Register 2 gets the 8 least significant bits
        self.set_register(idx2, right_data);
    }
}

/// Joining two registers reads back exactly the value a `set_joined_registers`
/// with distinct registers stored.
pub proof fn lemma_joined_round_trip(cpu: CpuData, idx1: CpuRegister, idx2: CpuRegister, data: u16)
    requires
        idx1 != idx2,
    ensures
        cpu.spec_with_register(idx1, spec_high_byte(data)).spec_with_register(
            idx2,
            spec_low_byte(data),
        ).spec_joined(idx1, idx2) == data,
{
    crate::utils::lemma_merge_split(data);
}

} // verus!
