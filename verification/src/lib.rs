//! Core of a Game Boy / Game Boy Color emulation library: the Sharp SM83
//! instruction fetch-decode pipeline and the cartridge memory-mapping
//! subsystem (ROM-only, MBC1, MBC2, MBC3 with real-time clock), together
//! with the memory bus that routes 16-bit addresses between them.

pub mod bankedrom;
pub mod basicrom;
pub mod builder;
pub mod cartridge;
pub mod cpu;
pub mod decode;
pub mod instructions;
pub mod laws;
pub mod mbc1;
pub mod mbc2;
pub mod mbc3;
pub mod memory;
pub mod rtc;
pub mod utils;

use vstd::prelude::*;

use crate::cpu::{CpuData, CpuRegister};
use crate::memory::MemoryController;

verus! {

/// Why a system operation failed.
#[derive(Debug, Clone, Copy, PartialEq, Eq, Structural)]
pub enum GameBoySystemError {
    /// The address at which a read was attempted
    MemoryReadError(u16),
    /// The address at which a write was attempted, and the write value
    MemoryWriteError(u16, u16),
    /// The invalid binary instruction
    InvalidInstructionError(u8),
}

/// A Game Boy system: the CPU register file over a memory controller.
pub struct GameBoySystem<M: MemoryController> {
    pub registers: CpuData,
    pub memory: M,
}

/// The byte a fetch at the program counter returns, with the register file
/// after it: the program counter moves past each byte fetched (wrapping),
/// and stays put when the read fails.
pub open spec fn spec_fetch_byte<M: MemoryController>(m: M, cpu: CpuData) -> (Result<
    u8,
    GameBoySystemError,
>, CpuData) {
    match m.spec_load_byte(cpu.pc) {
        Some(byte) => (Ok(byte), CpuData { pc: cpu.pc.wrapping_add(1), ..cpu }),
        None => (Err(GameBoySystemError::MemoryReadError(cpu.pc)), cpu),
    }
}

/// The 16-bit little-endian immediate a fetch at the program counter
/// returns, with the register file after it.
pub open spec fn spec_fetch_imm16<M: MemoryController>(m: M, cpu: CpuData) -> (Result<
    u16,
    GameBoySystemError,
>, CpuData) {
    match m.spec_load_half_word(cpu.pc) {
        Some(half_word) => (Ok(half_word), CpuData { pc: cpu.pc.wrapping_add(2), ..cpu }),
        None => (Err(GameBoySystemError::MemoryReadError(cpu.pc)), cpu),
    }
}

/// The register an 8-bit register index of the instruction encoding selects.
/// Index 6 selects the indirect `(HL)` operand and never reaches this table.
pub open spec fn spec_register_of_index(reg: u8) -> CpuRegister {
    if reg == 0 {
        CpuRegister::A
    } else if reg == 1 {
        CpuRegister::B
    } else if reg == 2 {
        CpuRegister::C
    } else if reg == 3 {
        CpuRegister::D
    } else if reg == 4 {
        CpuRegister::E
    } else if reg == 5 {
        CpuRegister::H
    } else if reg == 6 {
        CpuRegister::L
    } else {
        CpuRegister::F
    }
}

/// What reading 8-bit operand `reg` returns: the lettered register, or for
/// index 6 the byte of memory at the address in HL.
pub open spec fn spec_get_r8<M: MemoryController>(m: M, cpu: CpuData, reg: u8) -> Result<
    u8,
    GameBoySystemError,
> {
    if reg == 6 {
        let addr = cpu.spec_joined(CpuRegister::H, CpuRegister::L);
        match m.spec_load_byte(addr) {
            Some(byte) => Ok(byte),
            None => Err(GameBoySystemError::MemoryReadError(addr)),
        }
    } else {
        Ok(cpu.spec_register(spec_register_of_index(reg)))
    }
}

/// The 16-bit register pair `register` selects: BC, DE, HL or the stack
/// pointer.
pub open spec fn spec_r16(cpu: CpuData, register: u8) -> u16 {
    if register == 0 {
        cpu.spec_joined(CpuRegister::B, CpuRegister::C)
    } else if register == 1 {
        cpu.spec_joined(CpuRegister::D, CpuRegister::E)
    } else if register == 2 {
        cpu.spec_joined(CpuRegister::H, CpuRegister::L)
    } else {
        cpu.sp
    }
}

/// The address the memory form of a register pair yields, with the register
/// file after it: BC, DE, or HL with a post-increment or post-decrement of
/// HL as a decode-time side effect.
pub open spec fn spec_r16_mem(cpu: CpuData, register: u8) -> (u16, CpuData) {
    if register == 0 {
        (cpu.spec_joined(CpuRegister::B, CpuRegister::C), cpu)
    } else if register == 1 {
        (cpu.spec_joined(CpuRegister::D, CpuRegister::E), cpu)
    } else {
        let value = cpu.spec_joined(CpuRegister::H, CpuRegister::L);
        let next = if register == 2 {
            value.wrapping_add(1)
        } else {
            value.wrapping_sub(1)
        };
        (
            value,
            cpu.spec_with_register(
                CpuRegister::H,
                crate::utils::spec_high_byte(next),
            ).spec_with_register(CpuRegister::L, crate::utils::spec_low_byte(next)),
        )
    }
}

impl<M: MemoryController> GameBoySystem<M> {
    /// A system with zeroed registers around the given memory controller.
    pub fn new(memory: M) -> (r: GameBoySystem<M>)
        requires
            memory.wf(),
        ensures
            r.wf(),
            r.memory == memory,
            forall|idx: CpuRegister| r.registers.spec_register(idx) == 0u8,
            r.registers.sp == 0u16,
            r.registers.pc == 0u16,
    {
        GameBoySystem { registers: CpuData::new(), memory }
    }

    /// The memory controller is well-formed.
    pub open spec fn wf(&self) -> bool {
        self.memory.wf()
    }

    /// Fetch the byte at the program counter and move past it.
    pub(crate) fn fetch_byte(&mut self) -> (r: Result<u8, GameBoySystemError>)
        requires
            old(self).wf(),
        ensures
            final(self).wf(),
            final(self).memory == old(self).memory,
            ({
                let (r_spec, cpu_spec) = spec_fetch_byte(old(self).memory, old(self).registers);
                r == r_spec && final(self).registers == cpu_spec
            }),
    {
        let byte = self.memory.load_byte(self.registers.pc);
        match byte {
            Some(byte) => {
                self.registers.pc = self.registers.pc.wrapping_add(1);
                Ok(byte)
            },
            None => Err(GameBoySystemError::MemoryReadError(self.registers.pc)),
        }
    }

    /// Fetch the 16-bit little-endian immediate at the program counter and
    /// move past it.
    pub(crate) fn fetch_imm16(&mut self) -> (r: Result<u16, GameBoySystemError>)
        requires
            old(self).wf(),
        ensures
            final(self).wf(),
            final(self).memory == old(self).memory,
            ({
                let (r_spec, cpu_spec) = spec_fetch_imm16(old(self).memory, old(self).registers);
                r == r_spec && final(self).registers == cpu_spec
            }),
    {
        let half_word = self.memory.load_half_word(self.registers.pc);
        match half_word {
            Some(half_word) => {
                self.registers.pc = self.registers.pc.wrapping_add(2);
                Ok(half_word)
            },
            None => Err(GameBoySystemError::MemoryReadError(self.registers.pc)),
        }
    }

    /// Read an 8-bit operand: a lettered register, or the byte at the
    /// address in HL for index 6.
    pub(crate) fn get_r8(&self, reg: u8) -> (r: Result<u8, GameBoySystemError>)
        requires
            self.wf(),
            reg < 8,
        ensures
            r == spec_get_r8(self.memory, self.registers, reg),
    {
        if reg == 6 {
            let addr = self.registers.get_joined_registers(CpuRegister::H, CpuRegister::L);
            return match self.memory.load_byte(addr) {
                Some(byte) => Ok(byte),
                None => Err(GameBoySystemError::MemoryReadError(addr)),
            };
        }

        Ok(self.registers.get_register(register_of_index(reg)))
    }

    /// Write an 8-bit operand: a lettered register, or the byte at the
    /// address in HL for index 6.
    pub(crate) fn set_r8(&mut self, reg: u8, value: u8) -> (r: Result<(), GameBoySystemError>)
        requires
            old(self).wf(),
            reg < 8,
        ensures
            final(self).wf(),
            reg != 6 ==> {
                &&& final(self).memory == old(self).memory
                &&& final(self).registers == old(self).registers.spec_with_register(
                    spec_register_of_index(reg),
                    value,
                )
                &&& r is Ok
            },
            reg == 6 ==> {
                let addr = old(self).registers.spec_joined(CpuRegister::H, CpuRegister::L);
                &&& final(self).registers == old(self).registers
                &&& exists|res: Result<u8, crate::memory::MemoryWriteError>|
                    #[trigger] M::spec_store_byte(
                        old(self).memory,
                        final(self).memory,
                        addr,
                        value,
                        res,
                    ) && (r is Ok <==> res is Ok)
                &&& r is Err ==> r == Err::<(), GameBoySystemError>(
                    GameBoySystemError::MemoryWriteError(addr, value as u16),
                )
            },
    {
        if reg == 6 {
            let address = self.registers.get_joined_registers(CpuRegister::H, CpuRegister::L);
            let res = self.memory.store_byte(address, value);
            return match res {
                Ok(_) => Ok(()),
                Err(_) => Err(GameBoySystemError::MemoryWriteError(address, value as u16)),
            };
        }

        self.registers.set_register(register_of_index(reg), value);
        Ok(())
    }

    /// Read a 16-bit register pair: BC, DE, HL or the stack pointer.
    pub(crate) fn get_r16(&self, register: u8) -> (r: u16)
        requires
            register < 4,
        ensures
            r == spec_r16(self.registers, register),
    {
        if register == 0 {
            self.registers.get_joined_registers(CpuRegister::B, CpuRegister::C)
        } else if register == 1 {
            self.registers.get_joined_registers(CpuRegister::D, CpuRegister::E)
        } else if register == 2 {
            self.registers.get_joined_registers(CpuRegister::H, CpuRegister::L)
        } else {
            self.registers.sp
        }
    }

    /// Resolve the memory form of a register pair, with HL's post-increment
    /// or post-decrement applied as a decode-time side effect.
    pub(crate) fn get_r16_mem(&mut self, register: u8) -> (r: u16)
        requires
            old(self).wf(),
            register < 4,
        ensures
            final(self).wf(),
            final(self).memory == old(self).memory,
            ({
                let (r_spec, cpu_spec) = spec_r16_mem(old(self).registers, register);
                r == r_spec && final(self).registers == cpu_spec
            }),
    {
        if register == 0 {
            self.registers.get_joined_registers(CpuRegister::B, CpuRegister::C)
        } else if register == 1 {
            self.registers.get_joined_registers(CpuRegister::D, CpuRegister::E)
        } else {
            let value = self.registers.get_joined_registers(CpuRegister::H, CpuRegister::L);
            let next = if register == 2 {
                value.wrapping_add(1)
            } else {
                value.wrapping_sub(1)
            };
            self.registers.set_joined_registers(CpuRegister::H, CpuRegister::L, next);
            value
        }
    }
}

/// The register an 8-bit register index selects; see `spec_register_of_index`.
fn register_of_index(reg: u8) -> (r: CpuRegister)
    ensures
        r == spec_register_of_index(reg),
{
    if reg == 0 {
        CpuRegister::A
    } else if reg == 1 {
        CpuRegister::B
    } else if reg == 2 {
        CpuRegister::C
    } else if reg == 3 {
        CpuRegister::D
    } else if reg == 4 {
        CpuRegister::E
    } else if reg == 5 {
        CpuRegister::H
    } else if reg == 6 {
        CpuRegister::L
    } else {
        CpuRegister::F
    }
}

} // verus!
