//! The Sharp SM83 instruction decoder: fetch bytes at the program counter
//! through the bus, classify each opcode by fixed bit-field decomposition,
//! and emit an `Operation` IR value plus a machine-cycle count.
//!
//! Every decode step is specified as a pure function of the register file
//! and the memory: `spec_load_instruction` is the whole decoder, and
//! `load_instruction` is proved to return exactly its result and to leave
//! the registers exactly in its post-state (the program counter moves once
//! per byte fetched, and HL moves for the post-increment and post-decrement
//! addressing forms).
//!
//! See the bit-layout tables at
//! <https://gbdev.io/pandocs/CPU_Instruction_Set.html> for the encoding this
//! follows.

use vstd::prelude::*;

use crate::cpu::{spec_flags_of_bits, CpuData, CpuRegister, FlagRegister};
use crate::instructions::{Instruction, Operation};
use crate::memory::MemoryController;
use crate::{
    spec_fetch_byte, spec_fetch_imm16, spec_get_r8, spec_r16, spec_r16_mem, GameBoySystem,
    GameBoySystemError,
};

verus! {

/// The register index that stands for the indirect `(HL)` operand.
pub const REG_MEM_READ: u8 = 6;

/// The register index block 3 loads into register A with.
pub const REG_A: u8 = 0;

/// Bounds of the bit fields an opcode decomposes into.
pub proof fn lemma_opcode_fields(op: u8)
    ensures
        op & 7 <= 7,
        (op >> 3) & 7 <= 7,
        (op >> 3) & 3 <= 3,
        (op >> 4) & 3 <= 3,
        op >> 6 <= 3,
        (op & 0xC0) >> 6 <= 3,
        op & 0x0F <= 0x0F,
        op & 0x38 <= 0x38,
        ((op & 0xC0) >> 6 == 0) == (op & 0xC0 == 0),
        ((op & 0xC0) >> 6 == 1) == (op & 0xC0 == 0x40),
        ((op & 0xC0) >> 6 == 2) == (op & 0xC0 == 0x80),
        ((op & 0xC0) >> 6 == 3) == (op & 0xC0 == 0xC0),
{
    assert(op & 7 <= 7 && (op >> 3) & 7 <= 7 && (op >> 3) & 3 <= 3 && (op >> 4) & 3 <= 3 && op >> 6
        <= 3 && (op & 0xC0) >> 6 <= 3 && op & 0x0F <= 0x0F && op & 0x38 <= 0x38 && (((op & 0xC0) >> 6 == 0) == (op & 0xC0
        == 0)) && (((op & 0xC0) >> 6 == 1) == (op & 0xC0 == 0x40)) && (((op & 0xC0) >> 6 == 2) == (
    op & 0xC0 == 0x80)) && (((op & 0xC0) >> 6 == 3) == (op & 0xC0 == 0xC0))) by (bit_vector);
}

/// The eleven opcodes the hardware documents as invalid.
pub open spec fn spec_is_invalid_opcode(op: u8) -> bool {
    ||| op == 0xD3
    ||| op == 0xDB
    ||| op == 0xDD
    ||| op == 0xE3
    ||| op == 0xE4
    ||| op == 0xEB
    ||| op == 0xEC
    ||| op == 0xED
    ||| op == 0xF4
    ||| op == 0xFC
    ||| op == 0xFD
}

/// Whether the condition code of a conditional jump, call or return holds of
/// the flag register.
pub open spec fn spec_cond_flag(cpu: CpuData, flag_code: u8) -> bool {
    let flags = spec_flags_of_bits(cpu.spec_register(CpuRegister::F));
    if flag_code == 0 {
        !flags.zero
    } else if flag_code == 1 {
        flags.zero
    } else if flag_code == 2 {
        !flags.carry
    } else {
        flags.carry
    }
}

/// Relative jumps: an unconditional one always lands (3 cycles); a
/// conditional one that is not taken decodes as a 2-cycle no-op, with the
/// displacement byte already consumed. The target wraps modulo the address
/// space.
pub open spec fn spec_load_jump_relative<M: MemoryController>(
    m: M,
    cpu: CpuData,
    instruction: u8,
) -> (Result<Instruction, GameBoySystemError>, CpuData) {
    // the only bit distinguishing unconditional from conditional forms
    let jump_type = instruction & 0x20;
    let (fetched, cpu1) = spec_fetch_byte(m, cpu);
    match fetched {
        Ok(byte) => {
            let offset = (byte as i8) as u16;
            let address = cpu1.pc.wrapping_add(offset);
            let taken = Instruction { cycles: 3, op: Operation::Jump(address) };
            if jump_type == 0 {
                (Ok(taken), cpu1)
            } else if spec_cond_flag(cpu1, (instruction & 0x18) >> 3) {
                (Ok(taken), cpu1)
            } else {
                (Ok(Instruction { cycles: 2, op: Operation::NOP }), cpu1)
            }
        },
        Err(e) => (Err(e), cpu1),
    }
}

/// The block-0 ALU family: rotates of A, decimal adjust, complement and the
/// carry-flag pair, one cycle each.
pub open spec fn spec_load_block_0_alu(instruction: u8) -> Instruction {
    Instruction {
        cycles: 1,
        op: match instruction {
            0x07 => Operation::RotateLeft(0, true),
            0x0F => Operation::RotateRight(0, true),
            0x17 => Operation::RotateLeft(0, false),
            0x1F => Operation::RotateRight(0, false),
            0x27 => Operation::DAA,
            0x2F => Operation::Complement,
            0x37 => Operation::SetCarryFlag,
            _ => Operation::ComplementCarryFlag,
        },
    }
}

/// The block-0 16-bit family, keyed by the low nibble: immediate pair loads,
/// stores of A through the pair address forms, pair increments and
/// decrements, the stack-pointer store and the 16-bit add.
pub open spec fn spec_load_block_0_16bit<M: MemoryController>(
    m: M,
    cpu: CpuData,
    instruction: u8,
) -> (Result<Instruction, GameBoySystemError>, CpuData) {
    let fn4 = instruction & 0x0F;
    let register = (instruction >> 4) & 3;
    if fn4 == 1 {
        let (fetched, cpu1) = spec_fetch_imm16(m, cpu);
        match fetched {
            Ok(imm) => (
                Ok(Instruction { cycles: 3, op: Operation::Load16(register, imm) }),
                cpu1,
            ),
            Err(e) => (Err(e), cpu1),
        }
    } else if fn4 == 2 {
        let (address, cpu1) = spec_r16_mem(cpu, register);
        (
            Ok(
                Instruction {
                    cycles: 2,
                    op: Operation::Store8(address, cpu1.spec_register(CpuRegister::A)),
                },
            ),
            cpu1,
        )
    } else if fn4 == 0xA {
        let (address, cpu1) = spec_r16_mem(cpu, register);
        match m.spec_load_byte(address) {
            Some(value) => (
                Ok(Instruction { cycles: 2, op: Operation::Load8(7, value) }),
                cpu1,
            ),
            None => (Err(GameBoySystemError::MemoryReadError(address)), cpu1),
        }
    } else if fn4 == 8 {
        let (fetched, cpu1) = spec_fetch_imm16(m, cpu);
        match fetched {
            Ok(imm) => (
                Ok(Instruction { cycles: 5, op: Operation::Store16(imm, cpu1.sp) }),
                cpu1,
            ),
            Err(e) => (Err(e), cpu1),
        }
    } else if fn4 == 3 {
        (Ok(Instruction { cycles: 2, op: Operation::Increment16(register) }), cpu)
    } else if fn4 == 0xB {
        (Ok(Instruction { cycles: 2, op: Operation::Decrement16(register) }), cpu)
    } else {
        // fn4 == 9
        (Ok(Instruction { cycles: 2, op: Operation::Add16(spec_r16(cpu, register)) }), cpu)
    }
}

/// Block 0: relative jumps, the 16-bit family, 8-bit increments, decrements
/// and immediate loads, and the block-0 ALU family.
pub open spec fn spec_load_block_0<M: MemoryController>(
    m: M,
    cpu: CpuData,
    instruction: u8,
) -> (Result<Instruction, GameBoySystemError>, CpuData) {
    let fn3 = instruction & 0x07;
    if fn3 == 0 && (instruction & 0xF0) != 0 {
        spec_load_jump_relative(m, cpu, instruction)
    } else if fn3 < 4 {
        spec_load_block_0_16bit(m, cpu, instruction)
    } else if fn3 == 7 {
        (Ok(spec_load_block_0_alu(instruction)), cpu)
    } else {
        let reg = (instruction >> 4) & 0x03;
        let cycles: u8 = if reg == REG_MEM_READ {
            3
        } else if fn3 == 6 {
            2
        } else {
            1
        };
        if fn3 == 4 {
            (Ok(Instruction { cycles, op: Operation::Increment8(reg) }), cpu)
        } else if fn3 == 5 {
            (Ok(Instruction { cycles, op: Operation::Decrement8(reg) }), cpu)
        } else {
            // fn3 == 6
            let (fetched, cpu1) = spec_fetch_byte(m, cpu);
            match fetched {
                Ok(value) => (
                    Ok(Instruction { cycles, op: Operation::Load8(reg, value) }),
                    cpu1,
                ),
                Err(e) => (Err(e), cpu1),
            }
        }
    }
}

/// Block 1: 8-bit register-to-register loads, with `(HL)` as both a source
/// and a destination form, and the halt exception where both are `(HL)`.
pub open spec fn spec_load_block_1<M: MemoryController>(
    m: M,
    cpu: CpuData,
    instruction: u8,
) -> (Result<Instruction, GameBoySystemError>, CpuData) {
    let src_reg = instruction & 7;
    let dest_reg = (instruction >> 3) & 7;
    if src_reg == dest_reg && src_reg == REG_MEM_READ {
        (Ok(Instruction { cycles: 1, op: Operation::Halt }), cpu)
    } else {
        match spec_get_r8(m, cpu, src_reg) {
            Ok(value) => (
                Ok(Instruction { cycles: 2, op: Operation::Load8(dest_reg, value) }),
                cpu,
            ),
            Err(e) => (Err(e), cpu),
        }
    }
}

/// The ALU operation a 3-bit function code selects, applied to `value`.
pub open spec fn spec_alu_op(subop: u8, value: u8) -> Operation {
    if subop == 0 {
        Operation::Add8(value, false)
    } else if subop == 1 {
        Operation::Add8(value, true)
    } else if subop == 2 {
        Operation::Sub8(value, false)
    } else if subop == 3 {
        Operation::Sub8(value, true)
    } else if subop == 4 {
        Operation::And8(value)
    } else if subop == 5 {
        Operation::Xor8(value)
    } else if subop == 6 {
        Operation::Or8(value)
    } else {
        Operation::Compare8(value)
    }
}

/// Block 2: the register-against-A ALU family; reading through `(HL)` costs
/// one extra cycle.
pub open spec fn spec_load_block_2<M: MemoryController>(
    m: M,
    cpu: CpuData,
    instruction: u8,
) -> (Result<Instruction, GameBoySystemError>, CpuData) {
    let register = instruction & 7;
    let cycles: u8 = if register == REG_MEM_READ {
        2
    } else {
        1
    };
    match spec_get_r8(m, cpu, register) {
        Ok(value) => (
            Ok(Instruction { cycles, op: spec_alu_op((instruction >> 3) & 7, value) }),
            cpu,
        ),
        Err(e) => (Err(e), cpu),
    }
}

/// The block-3 ALU family: the same operations as block 2 but against an
/// immediate operand.
pub open spec fn spec_load_block_3_alu<M: MemoryController>(
    m: M,
    cpu: CpuData,
    instruction: u8,
) -> (Result<Instruction, GameBoySystemError>, CpuData) {
    let (fetched, cpu1) = spec_fetch_byte(m, cpu);
    match fetched {
        Ok(imm8) => (
            Ok(Instruction { cycles: 2, op: spec_alu_op((instruction >> 3) & 7, imm8) }),
            cpu1,
        ),
        Err(e) => (Err(e), cpu1),
    }
}

/// Stack pushes and pops of a register pair.
pub open spec fn spec_load_block_3_stack(instruction: u8) -> Instruction {
    let r16stk = (instruction >> 4) & 3;
    if instruction & 0xF == 1 {
        Instruction { cycles: 3, op: Operation::PopStack(r16stk) }
    } else {
        Instruction { cycles: 3, op: Operation::PushStack(r16stk) }
    }
}

/// Conditional returns, jumps and calls. When the condition fails, the
/// decoder emits a no-op without consuming the immediate, at the documented
/// not-taken cost.
pub open spec fn spec_load_block_3_cond<M: MemoryController>(
    m: M,
    cpu: CpuData,
    instruction: u8,
) -> (Result<Instruction, GameBoySystemError>, CpuData) {
    let fn3 = instruction & 7;
    if !spec_cond_flag(cpu, (instruction >> 3) & 3) {
        let cycles: u8 = if fn3 == 0 {
            2
        } else {
            3
        };
        (Ok(Instruction { cycles, op: Operation::NOP }), cpu)
    } else if fn3 == 0 {
        (Ok(Instruction { cycles: 5, op: Operation::Return(false) }), cpu)
    } else {
        let (fetched, cpu1) = spec_fetch_imm16(m, cpu);
        match fetched {
            Ok(imm) => if fn3 == 2 {
                (Ok(Instruction { cycles: 4, op: Operation::Jump(imm) }), cpu1)
            } else {
                (Ok(Instruction { cycles: 6, op: Operation::Call(imm) }), cpu1)
            },
            Err(e) => (Err(e), cpu1),
        }
    }
}

/// The operation a prefixed shift/rotate function code selects.
pub open spec fn spec_prefixed_alu(fn3: u8, register: u8) -> Operation {
    if fn3 == 0 {
        Operation::RotateLeft(register, true)
    } else if fn3 == 1 {
        Operation::RotateRight(register, true)
    } else if fn3 == 2 {
        Operation::RotateLeft(register, false)
    } else if fn3 == 3 {
        Operation::RotateRight(register, false)
    } else if fn3 == 4 {
        Operation::ShiftLeftArithmetic(register)
    } else if fn3 == 5 {
        Operation::ShiftRightArithmetic(register)
    } else if fn3 == 6 {
        Operation::SwapBits(register)
    } else {
        Operation::ShiftRightLogical(register)
    }
}

/// The 0xCB-prefixed decoder: shifts, rotates, swaps and the three bit
/// operations, with the extra cost of touching memory through `(HL)`.
pub open spec fn spec_load_prefixed<M: MemoryController>(m: M, cpu: CpuData) -> (Result<
    Instruction,
    GameBoySystemError,
>, CpuData) {
    let (fetched, cpu1) = spec_fetch_byte(m, cpu);
    match fetched {
        Ok(instruction) => {
            let fn2 = instruction >> 6;
            let index = (instruction >> 3) & 7;
            let register = instruction & 7;
            let cycles: u8 = if fn2 == 1 && register == REG_MEM_READ {
                3
            } else if register == REG_MEM_READ {
                4
            } else {
                2
            };
            let op = if fn2 == 0 {
                spec_prefixed_alu(index, register)
            } else if fn2 == 1 {
                Operation::TestBit(register, index)
            } else if fn2 == 2 {
                Operation::ResetBit(register, index)
            } else {
                Operation::SetBit(register, index)
            };
            (Ok(Instruction { cycles, op }), cpu1)
        },
        Err(e) => (Err(e), cpu1),
    }
}

/// Block 3: the prefixed decoder, immediate ALU, restart vectors, stack
/// operations, conditional control, a lookup of the remaining fixed
/// opcodes, and the eleven invalid opcodes.
pub open spec fn spec_load_block_3<M: MemoryController>(
    m: M,
    cpu: CpuData,
    instruction: u8,
) -> (Result<Instruction, GameBoySystemError>, CpuData) {
    let fn3 = instruction & 7;
    let tgt = instruction & 0x38;
    if instruction == 0xCB {
        spec_load_prefixed(m, cpu)
    } else if fn3 == 6 {
        spec_load_block_3_alu(m, cpu, instruction)
    } else if fn3 == 7 && (instruction & 0x2) != 0 {
        (Ok(Instruction { cycles: 4, op: Operation::Call(tgt as u16) }), cpu)
    } else if instruction & 0xF == 1 || instruction & 0xF == 5 {
        (Ok(spec_load_block_3_stack(instruction)), cpu)
    } else if instruction < 0xE0 && instruction & 1 == 0 {
        spec_load_block_3_cond(m, cpu, instruction)
    } else if instruction == 0xC9 {
        (Ok(Instruction { cycles: 4, op: Operation::Return(false) }), cpu)
    } else if instruction == 0xD9 {
        (Ok(Instruction { cycles: 4, op: Operation::Return(true) }), cpu)
    } else if instruction == 0xC3 {
        let (fetched, cpu1) = spec_fetch_imm16(m, cpu);
        match fetched {
            Ok(imm) => (Ok(Instruction { cycles: 4, op: Operation::Jump(imm) }), cpu1),
            Err(e) => (Err(e), cpu1),
        }
    } else if instruction == 0xE9 {
        (
            Ok(
                Instruction {
                    cycles: 1,
                    op: Operation::Jump(cpu.spec_joined(CpuRegister::H, CpuRegister::L)),
                },
            ),
            cpu,
        )
    } else if instruction == 0xCD {
        let (fetched, cpu1) = spec_fetch_imm16(m, cpu);
        match fetched {
            Ok(imm) => (Ok(Instruction { cycles: 6, op: Operation::Call(imm) }), cpu1),
            Err(e) => (Err(e), cpu1),
        }
    } else if instruction == 0xE0 {
        let (fetched, cpu1) = spec_fetch_byte(m, cpu);
        match fetched {
            Ok(byte) => (
                Ok(
                    Instruction {
                        cycles: 3,
                        op: Operation::Store8(
                            (0xFF00 + byte as u16) as u16,
                            cpu1.spec_register(CpuRegister::A),
                        ),
                    },
                ),
                cpu1,
            ),
            Err(e) => (Err(e), cpu1),
        }
    } else if instruction == 0xE2 {
        (
            Ok(
                Instruction {
                    cycles: 2,
                    op: Operation::Store8(
                        (0xFF00 + cpu.spec_register(CpuRegister::C) as u16) as u16,
                        cpu.spec_register(CpuRegister::A),
                    ),
                },
            ),
            cpu,
        )
    } else if instruction == 0xEA {
        let (fetched, cpu1) = spec_fetch_imm16(m, cpu);
        match fetched {
            Ok(imm) => (
                Ok(
                    Instruction {
                        cycles: 4,
                        op: Operation::Store8(imm, cpu1.spec_register(CpuRegister::A)),
                    },
                ),
                cpu1,
            ),
            Err(e) => (Err(e), cpu1),
        }
    } else if instruction == 0xF0 {
        let (fetched, cpu1) = spec_fetch_byte(m, cpu);
        match fetched {
            Ok(byte) => {
                let addr = (0xFF00 + byte as u16) as u16;
                match m.spec_load_byte(addr) {
                    Some(value) => (
                        Ok(Instruction { cycles: 3, op: Operation::Load8(REG_A, value) }),
                        cpu1,
                    ),
                    None => (Err(GameBoySystemError::MemoryReadError(addr)), cpu1),
                }
            },
            Err(e) => (Err(e), cpu1),
        }
    } else if instruction == 0xF2 {
        let addr = (0xFF00 + cpu.spec_register(CpuRegister::C) as u16) as u16;
        match m.spec_load_byte(addr) {
            Some(value) => (
                Ok(Instruction { cycles: 3, op: Operation::Load8(REG_A, value) }),
                cpu,
            ),
            None => (Err(GameBoySystemError::MemoryReadError(addr)), cpu),
        }
    } else if instruction == 0xFA {
        let (fetched, cpu1) = spec_fetch_imm16(m, cpu);
        match fetched {
            Ok(addr) => match m.spec_load_byte(addr) {
                Some(value) => (
                    Ok(Instruction { cycles: 4, op: Operation::Load8(REG_A, value) }),
                    cpu1,
                ),
                None => (Err(GameBoySystemError::MemoryReadError(addr)), cpu1),
            },
            Err(e) => (Err(e), cpu1),
        }
    } else if instruction == 0xE8 {
        let (fetched, cpu1) = spec_fetch_byte(m, cpu);
        match fetched {
            Ok(byte) => (
                Ok(Instruction { cycles: 4, op: Operation::AddStackPointer(byte as i8) }),
                cpu1,
            ),
            Err(e) => (Err(e), cpu1),
        }
    } else if instruction == 0xF8 {
        let (fetched, cpu1) = spec_fetch_byte(m, cpu);
        match fetched {
            Ok(byte) => {
                let new_val = cpu1.sp.wrapping_add((byte as i8) as u16);
                (Ok(Instruction { cycles: 3, op: Operation::Load16(2, new_val) }), cpu1)
            },
            Err(e) => (Err(e), cpu1),
        }
    } else if instruction == 0xF9 {
        (
            Ok(
                Instruction {
                    cycles: 2,
                    op: Operation::SetStackPointer(
                        cpu.spec_joined(CpuRegister::H, CpuRegister::L),
                    ),
                },
            ),
            cpu,
        )
    } else if instruction == 0xF3 {
        (Ok(Instruction { cycles: 1, op: Operation::DisableInterrupts }), cpu)
    } else if instruction == 0xFB {
        (Ok(Instruction { cycles: 1, op: Operation::EnableInterrupts }), cpu)
    } else {
        (Err(GameBoySystemError::InvalidInstructionError(instruction)), cpu)
    }
}

/// The whole decoder: one fetched opcode classified into its block, with
/// no-op and stop handled up front.
pub open spec fn spec_load_instruction<M: MemoryController>(m: M, cpu: CpuData) -> (Result<
    Instruction,
    GameBoySystemError,
>, CpuData) {
    let (fetched, cpu1) = spec_fetch_byte(m, cpu);
    match fetched {
        Ok(instruction) => if instruction == 0 {
            (Ok(Instruction { cycles: 1, op: Operation::NOP }), cpu1)
        } else if instruction == 0x10 {
            // stop consumes one more byte without reading it
            (
                Ok(Instruction { cycles: 1, op: Operation::Stop }),
                CpuData { pc: cpu1.pc.wrapping_add(1), ..cpu1 },
            )
        } else {
            let block = (instruction & 0xC0) >> 6;
            if block == 0 {
                spec_load_block_0(m, cpu1, instruction)
            } else if block == 1 {
                spec_load_block_1(m, cpu1, instruction)
            } else if block == 2 {
                spec_load_block_2(m, cpu1, instruction)
            } else {
                spec_load_block_3(m, cpu1, instruction)
            }
        },
        Err(e) => (Err(e), cpu1),
    }
}

impl<M: MemoryController> GameBoySystem<M> {
    /// Fetch and decode the instruction at the program counter. The result
    /// and the new register file are exactly those of
    /// `spec_load_instruction`; memory is only read.
    pub fn load_instruction(&mut self) -> (r: Result<Instruction, GameBoySystemError>)
        requires
            old(self).wf(),
        ensures
            final(self).wf(),
            final(self).memory == old(self).memory,
            ({
                let (r_spec, cpu_spec) = spec_load_instruction(
                    old(self).memory,
                    old(self).registers,
                );
                r == r_spec && final(self).registers == cpu_spec
            }),
    {
        let instruction = match self.fetch_byte() {
            Ok(byte) => byte,
            Err(e) => {
                return Err(e);
            },
        };
        let block = (instruction & 0xC0) >> 6;

        if instruction == 0 {
            return Ok(Instruction { op: Operation::NOP, cycles: 1 });
        } else if instruction == 0x10 {
            self.registers.pc = self.registers.pc.wrapping_add(1);
            return Ok(Instruction { op: Operation::Stop, cycles: 1 });
        }

        proof {
            lemma_opcode_fields(instruction);
        }
        if block == 0 {
            self.load_block_0(instruction)
        } else if block == 1 {
            self.load_block_1(instruction)
        } else if block == 2 {
            self.load_block_2(instruction)
        } else {
            self.load_block_3(instruction)
        }
    }

    fn load_block_0(&mut self, instruction: u8) -> (r: Result<Instruction, GameBoySystemError>)
        requires
            old(self).wf(),
            instruction & 0xC0 == 0,
            instruction != 0,
        ensures
            final(self).wf(),
            final(self).memory == old(self).memory,
            ({
                let (r_spec, cpu_spec) = spec_load_block_0(
                    old(self).memory,
                    old(self).registers,
                    instruction,
                );
                r == r_spec && final(self).registers == cpu_spec
            }),
    {
        let fn3 = instruction & 0x07;
        if fn3 == 0 && (instruction & 0xF0) != 0 {
            return self.load_jump_relative(instruction);
        }
        if fn3 < 4 {
            return self.load_block_0_16bit(instruction);
        } else if fn3 == 7 {
            return Ok(self.load_block_0_alu(instruction));
        }

        let reg = (instruction >> 4) & 0x03;
        let mut cycles: u8 = 1;
        if reg == REG_MEM_READ {
            // doing anything on (HL) takes more cycles
            cycles = 3;
        } else if fn3 == 6 {
            // loading from memory takes 2 cycles
            cycles = 2;
        }

        proof {
            lemma_opcode_fields(instruction);
        }
        if fn3 == 4 {
            Ok(Instruction { cycles, op: Operation::Increment8(reg) })
        } else if fn3 == 5 {
            Ok(Instruction { cycles, op: Operation::Decrement8(reg) })
        } else {
            let value = match self.fetch_byte() {
                Ok(byte) => byte,
                Err(e) => {
                    return Err(e);
                },
            };
            Ok(Instruction { cycles, op: Operation::Load8(reg, value) })
        }
    }

    fn load_jump_relative(&mut self, instruction: u8) -> (r: Result<
        Instruction,
        GameBoySystemError,
    >)
        requires
            old(self).wf(),
        ensures
            final(self).wf(),
            final(self).memory == old(self).memory,
            ({
                let (r_spec, cpu_spec) = spec_load_jump_relative(
                    old(self).memory,
                    old(self).registers,
                    instruction,
                );
                r == r_spec && final(self).registers == cpu_spec
            }),
    {
        // the only distinguishing bit between jr and jr [cond]
        let jump_type = instruction & 0x20;

        // the double cast sign-extends into a 16-bit integer, so that
        // wrapping 16-bit addition of a negative offset subtracts
        let byte = match self.fetch_byte() {
            Ok(byte) => byte,
            Err(e) => {
                return Err(e);
            },
        };
        let offset = (byte as i8) as u16;
        let address = self.registers.pc.wrapping_add(offset);
        let result = Instruction { cycles: 3, op: Operation::Jump(address) };

        if jump_type == 0 {
            return Ok(result);
        }

        let flag_code = (instruction & 0x18) >> 3;
        proof {
            assert((instruction & 0x18) >> 3 == (instruction >> 3) & 3 && (instruction & 0x18) >> 3
                < 4) by (bit_vector);
        }
        if self.get_cond_flag(flag_code) {
            Ok(result)
        } else {
            Ok(Instruction { cycles: 2, op: Operation::NOP })
        }
    }

    fn get_cond_flag(&self, flag_code: u8) -> (r: bool)
        requires
            flag_code < 4,
        ensures
            r == spec_cond_flag(self.registers, flag_code),
    {
        let flag_register = FlagRegister::from_bits(self.registers.get_register(CpuRegister::F));
        if flag_code == 0 {
            !flag_register.zero
        } else if flag_code == 1 {
            flag_register.zero
        } else if flag_code == 2 {
            !flag_register.carry
        } else {
            flag_register.carry
        }
    }

    fn load_block_0_16bit(&mut self, instruction: u8) -> (r: Result<
        Instruction,
        GameBoySystemError,
    >)
        requires
            old(self).wf(),
            instruction & 0xC0 == 0,
            instruction != 0,
            instruction & 7 < 4,
            !(instruction & 7 == 0 && instruction & 0xF0 != 0),
        ensures
            final(self).wf(),
            final(self).memory == old(self).memory,
            ({
                let (r_spec, cpu_spec) = spec_load_block_0_16bit(
                    old(self).memory,
                    old(self).registers,
                    instruction,
                );
                r == r_spec && final(self).registers == cpu_spec
            }),
    {
        // these instructions use a 4-bit function code
        let fn4 = instruction & 0x0F;
        let register = (instruction >> 4) & 3;
        proof {
            lemma_opcode_fields(instruction);
        }
        if fn4 == 1 {
            let imm = match self.fetch_imm16() {
                Ok(imm) => imm,
                Err(e) => {
                    return Err(e);
                },
            };
            Ok(Instruction { cycles: 3, op: Operation::Load16(register, imm) })
        } else if fn4 == 2 {
            let address = self.get_r16_mem(register);
            let value = self.registers.get_register(CpuRegister::A);
            Ok(Instruction { cycles: 2, op: Operation::Store8(address, value) })
        } else if fn4 == 0xA {
            let address = self.get_r16_mem(register);
            match self.memory.load_byte(address) {
                Some(value) => Ok(
                    Instruction { cycles: 2, op: Operation::Load8(7, value) },
                ),
                None => Err(GameBoySystemError::MemoryReadError(address)),
            }
        } else if fn4 == 8 {
            let imm = match self.fetch_imm16() {
                Ok(imm) => imm,
                Err(e) => {
                    return Err(e);
                },
            };
            Ok(Instruction { cycles: 5, op: Operation::Store16(imm, self.registers.sp) })
        } else if fn4 == 3 {
            Ok(Instruction { cycles: 2, op: Operation::Increment16(register) })
        } else if fn4 == 0xB {
            Ok(Instruction { cycles: 2, op: Operation::Decrement16(register) })
        } else {
            proof {
                let op = instruction;
                assert(op & 0x0F == 9) by (bit_vector)
                    requires
                        op & 0xC0 == 0,
                        op != 0,
                        op & 7 < 4,
                        !(op & 7 == 0 && op & 0xF0 != 0),
                        op & 0x0F != 1,
                        op & 0x0F != 2,
                        op & 0x0F != 0xA,
                        op & 0x0F != 8,
                        op & 0x0F != 3,
                        op & 0x0F != 0xB,
                ;
            }
            let value = self.get_r16(register);
            Ok(Instruction { cycles: 2, op: Operation::Add16(value) })
        }
    }

    fn load_block_0_alu(&self, instruction: u8) -> (r: Instruction)
        requires
            instruction & 0xC0 == 0,
            instruction & 7 == 7,
        ensures
            r == spec_load_block_0_alu(instruction),
    {
        proof {
            let op = instruction;
            assert(op == 0x07 || op == 0x0F || op == 0x17 || op == 0x1F || op == 0x27 || op == 0x2F
                || op == 0x37 || op == 0x3F) by (bit_vector)
                requires
                    op & 0xC0 == 0,
                    op & 7 == 7,
            ;
        }
        Instruction {
            cycles: 1,
            op: if instruction == 0x07 {
                Operation::RotateLeft(0, true)
            } else if instruction == 0x0F {
                Operation::RotateRight(0, true)
            } else if instruction == 0x17 {
                Operation::RotateLeft(0, false)
            } else if instruction == 0x1F {
                Operation::RotateRight(0, false)
            } else if instruction == 0x27 {
                Operation::DAA
            } else if instruction == 0x2F {
                Operation::Complement
            } else if instruction == 0x37 {
                Operation::SetCarryFlag
            } else {
                Operation::ComplementCarryFlag
            },
        }
    }

    fn load_block_1(&mut self, instruction: u8) -> (r: Result<Instruction, GameBoySystemError>)
        requires
            old(self).wf(),
            instruction & 0xC0 == 0x40,
        ensures
            final(self).wf(),
            final(self).memory == old(self).memory,
            ({
                let (r_spec, cpu_spec) = spec_load_block_1(
                    old(self).memory,
                    old(self).registers,
                    instruction,
                );
                r == r_spec && final(self).registers == cpu_spec
            }),
    {
        let src_reg = instruction & 7;
        let dest_reg = (instruction >> 3) & 7;
        proof {
            lemma_opcode_fields(instruction);
        }

        // if both operands are (HL) the encoding means halt
        if src_reg == dest_reg && src_reg == REG_MEM_READ {
            return Ok(Instruction { op: Operation::Halt, cycles: 1 });
        }
        match self.get_r8(src_reg) {
            Ok(value) => Ok(Instruction { cycles: 2, op: Operation::Load8(dest_reg, value) }),
            Err(e) => Err(e),
        }
    }

    fn load_block_2(&self, instruction: u8) -> (r: Result<Instruction, GameBoySystemError>)
        requires
            self.wf(),
            instruction & 0xC0 == 0x80,
        ensures
            ({
                let (r_spec, cpu_spec) = spec_load_block_2(self.memory, self.registers, instruction);
                r == r_spec && self.registers == cpu_spec
            }),
    {
        // 8-bit arithmetic and logic against A
        let register = instruction & 7;
        proof {
            lemma_opcode_fields(instruction);
        }
        let value = match self.get_r8(register) {
            Ok(value) => value,
            Err(e) => {
                return Err(e);
            },
        };

        let cycles: u8 = if register == REG_MEM_READ {
            2
        } else {
            1
        };
        Ok(Instruction { cycles, op: alu_op((instruction >> 3) & 7, value) })
    }

    fn load_block_3(&mut self, instruction: u8) -> (r: Result<Instruction, GameBoySystemError>)
        requires
            old(self).wf(),
            instruction & 0xC0 == 0xC0,
        ensures
            final(self).wf(),
            final(self).memory == old(self).memory,
            ({
                let (r_spec, cpu_spec) = spec_load_block_3(
                    old(self).memory,
                    old(self).registers,
                    instruction,
                );
                r == r_spec && final(self).registers == cpu_spec
            }),
    {
        let fn3 = instruction & 7;
        let tgt = instruction & 0x38;
        proof {
            lemma_opcode_fields(instruction);
        }

        if instruction == 0xCB {
            return self.load_prefixed();
        } else if fn3 == 6 {
            return self.load_block_3_alu(instruction);
        } else if fn3 == 7 && (instruction & 0x2) != 0 {
            // the restart vectors sit at the bit-5..3 offsets
            return Ok(Instruction { op: Operation::Call(tgt as u16), cycles: 4 });
        }

        let fn4 = instruction & 0xF;
        if fn4 == 1 || fn4 == 5 {
            return Ok(self.load_block_3_stack(instruction));
        }

        // only 0xC0 through 0xDF carry condition codes; the even opcodes
        // above that range belong to the fixed lookup below
        if instruction < 0xE0 && instruction & 1 == 0 {
            return self.load_block_3_cond(instruction);
        }

        if instruction == 0xC9 {
            Ok(Instruction { op: Operation::Return(false), cycles: 4 })
        } else if instruction == 0xD9 {
            Ok(Instruction { op: Operation::Return(true), cycles: 4 })
        } else if instruction == 0xC3 {
            match self.fetch_imm16() {
                Ok(imm) => Ok(Instruction { op: Operation::Jump(imm), cycles: 4 }),
                Err(e) => Err(e),
            }
        } else if instruction == 0xE9 {
            Ok(
                Instruction {
                    op: Operation::Jump(
                        self.registers.get_joined_registers(CpuRegister::H, CpuRegister::L),
                    ),
                    cycles: 1,
                },
            )
        } else if instruction == 0xCD {
            match self.fetch_imm16() {
                Ok(imm) => Ok(Instruction { op: Operation::Call(imm), cycles: 6 }),
                Err(e) => Err(e),
            }
        } else if instruction == 0xE0 {
            match self.fetch_byte() {
                Ok(byte) => Ok(
                    Instruction {
                        op: Operation::Store8(
                            0xFF00 + (byte as u16),
                            self.registers.get_register(CpuRegister::A),
                        ),
                        cycles: 3,
                    },
                ),
                Err(e) => Err(e),
            }
        } else if instruction == 0xE2 {
            Ok(
                Instruction {
                    op: Operation::Store8(
                        0xFF00 + (self.registers.get_register(CpuRegister::C) as u16),
                        self.registers.get_register(CpuRegister::A),
                    ),
                    cycles: 2,
                },
            )
        } else if instruction == 0xEA {
            match self.fetch_imm16() {
                Ok(imm) => Ok(
                    Instruction {
                        op: Operation::Store8(imm, self.registers.get_register(CpuRegister::A)),
                        cycles: 4,
                    },
                ),
                Err(e) => Err(e),
            }
        } else if instruction == 0xF0 {
            let byte = match self.fetch_byte() {
                Ok(byte) => byte,
                Err(e) => {
                    return Err(e);
                },
            };
            let addr = 0xFF00 + (byte as u16);
            match self.memory.load_byte(addr) {
                Some(mem_value) => Ok(
                    Instruction { op: Operation::Load8(REG_A, mem_value), cycles: 3 },
                ),
                None => Err(GameBoySystemError::MemoryReadError(addr)),
            }
        } else if instruction == 0xF2 {
            let byte = self.registers.get_register(CpuRegister::C);
            let addr = 0xFF00 + (byte as u16);
            match self.memory.load_byte(addr) {
                Some(mem_value) => Ok(
                    Instruction { op: Operation::Load8(REG_A, mem_value), cycles: 3 },
                ),
                None => Err(GameBoySystemError::MemoryReadError(addr)),
            }
        } else if instruction == 0xFA {
            let addr = match self.fetch_imm16() {
                Ok(imm) => imm,
                Err(e) => {
                    return Err(e);
                },
            };
            match self.memory.load_byte(addr) {
                Some(mem_val) => Ok(
                    Instruction { op: Operation::Load8(REG_A, mem_val), cycles: 4 },
                ),
                None => Err(GameBoySystemError::MemoryReadError(addr)),
            }
        } else if instruction == 0xE8 {
            match self.fetch_byte() {
                Ok(byte) => Ok(
                    Instruction { op: Operation::AddStackPointer(byte as i8), cycles: 4 },
                ),
                Err(e) => Err(e),
            }
        } else if instruction == 0xF8 {
            let byte = match self.fetch_byte() {
                Ok(byte) => byte,
                Err(e) => {
                    return Err(e);
                },
            };
            let new_val = self.registers.sp.wrapping_add((byte as i8) as u16);
            Ok(Instruction { op: Operation::Load16(2, new_val), cycles: 3 })
        } else if instruction == 0xF9 {
            Ok(
                Instruction {
                    op: Operation::SetStackPointer(
                        self.registers.get_joined_registers(CpuRegister::H, CpuRegister::L),
                    ),
                    cycles: 2,
                },
            )
        } else if instruction == 0xF3 {
            Ok(Instruction { op: Operation::DisableInterrupts, cycles: 1 })
        } else if instruction == 0xFB {
            Ok(Instruction { op: Operation::EnableInterrupts, cycles: 1 })
        } else {
            Err(GameBoySystemError::InvalidInstructionError(instruction))
        }
    }

    fn load_block_3_alu(&mut self, instruction: u8) -> (r: Result<Instruction, GameBoySystemError>)
        requires
            old(self).wf(),
        ensures
            final(self).wf(),
            final(self).memory == old(self).memory,
            ({
                let (r_spec, cpu_spec) = spec_load_block_3_alu(
                    old(self).memory,
                    old(self).registers,
                    instruction,
                );
                r == r_spec && final(self).registers == cpu_spec
            }),
    {
        let imm8 = match self.fetch_byte() {
            Ok(byte) => byte,
            Err(e) => {
                return Err(e);
            },
        };
        proof {
            lemma_opcode_fields(instruction);
        }
        Ok(Instruction { op: alu_op((instruction >> 3) & 7, imm8), cycles: 2 })
    }

    fn load_block_3_stack(&self, instruction: u8) -> (r: Instruction)
        requires
            instruction & 0xF == 1 || instruction & 0xF == 5,
        ensures
            r == spec_load_block_3_stack(instruction),
    {
        let r16stk = (instruction >> 4) & 3;
        if instruction & 0xF == 1 {
            Instruction { op: Operation::PopStack(r16stk), cycles: 3 }
        } else {
            Instruction { op: Operation::PushStack(r16stk), cycles: 3 }
        }
    }

    fn load_block_3_cond(&mut self, instruction: u8) -> (r: Result<Instruction, GameBoySystemError>)
        requires
            old(self).wf(),
            instruction & 0xC0 == 0xC0,
            instruction & 1 == 0,
            instruction & 7 != 6,
        ensures
            final(self).wf(),
            final(self).memory == old(self).memory,
            ({
                let (r_spec, cpu_spec) = spec_load_block_3_cond(
                    old(self).memory,
                    old(self).registers,
                    instruction,
                );
                r == r_spec && final(self).registers == cpu_spec
            }),
    {
        let fn3 = instruction & 7;
        proof {
            lemma_opcode_fields(instruction);
            let op = instruction;
            assert(op & 7 == 0 || op & 7 == 2 || op & 7 == 4) by (bit_vector)
                requires
                    op & 1 == 0,
                    op & 7 != 6,
            ;
        }
        let cond_flag = self.get_cond_flag((instruction >> 3) & 3);
        // nothing happens when the condition is not met
        if !cond_flag {
            return Ok(
                Instruction {
                    op: Operation::NOP,
                    cycles: if fn3 == 0 {
                        2
                    } else {
                        3
                    },
                },
            );
        }

        if fn3 == 0 {
            Ok(Instruction { op: Operation::Return(false), cycles: 5 })
        } else {
            let imm = match self.fetch_imm16() {
                Ok(imm) => imm,
                Err(e) => {
                    return Err(e);
                },
            };
            if fn3 == 2 {
                Ok(Instruction { op: Operation::Jump(imm), cycles: 4 })
            } else {
                Ok(Instruction { op: Operation::Call(imm), cycles: 6 })
            }
        }
    }

    fn load_prefixed(&mut self) -> (r: Result<Instruction, GameBoySystemError>)
        requires
            old(self).wf(),
        ensures
            final(self).wf(),
            final(self).memory == old(self).memory,
            ({
                let (r_spec, cpu_spec) = spec_load_prefixed(old(self).memory, old(self).registers);
                r == r_spec && final(self).registers == cpu_spec
            }),
    {
        let instruction = match self.fetch_byte() {
            Ok(byte) => byte,
            Err(e) => {
                return Err(e);
            },
        };
        let fn2 = instruction >> 6;
        let index = (instruction >> 3) & 7;
        let register = instruction & 7;
        proof {
            lemma_opcode_fields(instruction);
        }
        let mut cycles: u8 = 2;
        if fn2 == 1 && register == REG_MEM_READ {
            // testing a bit only reads the memory operand
            cycles = 3;
        } else if register == REG_MEM_READ {
            cycles = 4;
        }
        if fn2 == 0 {
            Ok(Instruction { op: prefixed_alu(index, register), cycles })
        } else if fn2 == 1 {
            Ok(Instruction { op: Operation::TestBit(register, index), cycles })
        } else if fn2 == 2 {
            Ok(Instruction { op: Operation::ResetBit(register, index), cycles })
        } else {
            Ok(Instruction { op: Operation::SetBit(register, index), cycles })
        }
    }
}

/// The ALU operation a 3-bit function code selects; see `spec_alu_op`.
fn alu_op(subop: u8, value: u8) -> (r: Operation)
    requires
        subop < 8,
    ensures
        r == spec_alu_op(subop, value),
{
    if subop == 0 {
        Operation::Add8(value, false)
    } else if subop == 1 {
        Operation::Add8(value, true)
    } else if subop == 2 {
        Operation::Sub8(value, false)
    } else if subop == 3 {
        Operation::Sub8(value, true)
    } else if subop == 4 {
        Operation::And8(value)
    } else if subop == 5 {
        Operation::Xor8(value)
    } else if subop == 6 {
        Operation::Or8(value)
    } else {
        Operation::Compare8(value)
    }
}

/// The prefixed shift/rotate operation a function code selects; see
/// `spec_prefixed_alu`.
fn prefixed_alu(fn3: u8, register: u8) -> (r: Operation)
    requires
        fn3 < 8,
        register < 8,
    ensures
        r == spec_prefixed_alu(fn3, register),
{
    if fn3 == 0 {
        Operation::RotateLeft(register, true)
    } else if fn3 == 1 {
        Operation::RotateRight(register, true)
    } else if fn3 == 2 {
        Operation::RotateLeft(register, false)
    } else if fn3 == 3 {
        Operation::RotateRight(register, false)
    } else if fn3 == 4 {
        Operation::ShiftLeftArithmetic(register)
    } else if fn3 == 5 {
        Operation::ShiftRightArithmetic(register)
    } else if fn3 == 6 {
        Operation::SwapBits(register)
    } else {
        Operation::ShiftRightLogical(register)
    }
}

} // verus!
