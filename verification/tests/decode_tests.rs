use std::cell::Cell;

use libgb_rs::basicrom::RomOnlyCartridge;
use libgb_rs::instructions::Operation;
use libgb_rs::memory::{DmgMemoryController, MemoryController, MemoryWriteError};
use libgb_rs::{GameBoySystem, GameBoySystemError};

/// A memory stub that feeds the decoder a stream of pseudo-random valid
/// opcode bytes, whatever address it asks for.
struct FuzzMemory {
    state: Cell<u64>,
}

const INVALID_INSTRUCTIONS: [u8; 11] = [
    0xD3, 0xDB, 0xDD, 0xE3, 0xE4, 0xEB, 0xEC, 0xED, 0xF4, 0xFC, 0xFD,
];

impl FuzzMemory {
    fn new(seed: u64) -> FuzzMemory {
        FuzzMemory { state: Cell::new(seed) }
    }

    /// A linear congruential step, skipping the invalid opcodes.
    fn next_byte(&self) -> u8 {
        loop {
            let next = self
                .state
                .get()
                .wrapping_mul(6364136223846793005)
                .wrapping_add(1442695040888963407);
            self.state.set(next);
            let byte = (next >> 33) as u8;
            if !INVALID_INSTRUCTIONS.contains(&byte) {
                return byte;
            }
        }
    }
}

impl MemoryController for FuzzMemory {
    // the specification items are ghost code and never run; a test double
    // only needs them to exist
    fn wf(&self) -> bool {
        true
    }

    fn spec_load_byte(&self, _address: u16) -> Option<u8> {
        None
    }

    fn spec_load_half_word(&self, _address: u16) -> Option<u16> {
        None
    }

    fn spec_store_byte(
        _pre: Self,
        _post: Self,
        _address: u16,
        _data: u8,
        _r: Result<u8, MemoryWriteError>,
    ) -> bool {
        true
    }

    fn spec_store_half_word(
        _pre: Self,
        _post: Self,
        _address: u16,
        _data: u16,
        _r: Result<(), MemoryWriteError>,
    ) -> bool {
        true
    }

    fn load_byte(&self, _address: u16) -> Option<u8> {
        Some(self.next_byte())
    }

    fn load_half_word(&self, _address: u16) -> Option<u16> {
        Some(0xFFFF)
    }

    fn store_byte(&mut self, _address: u16, data: u8) -> Result<u8, MemoryWriteError> {
        Ok(data)
    }

    fn store_half_word(&mut self, _address: u16, _data: u16) -> Result<(), MemoryWriteError> {
        Ok(())
    }
}

#[test]
fn fuzz_test_instructions() {
    let mem = FuzzMemory::new(0x0123_4567_89AB_CDEF);
    let mut dmg = GameBoySystem::new(mem);

    // technically this is not guaranteed to test everything but realistically it should
    for _ in 0..10_000 {
        let result = dmg.load_instruction();
        assert!(result.is_ok(), "");
    }
}

fn system_with_rom(cells: &[(usize, u8)]) -> GameBoySystem<DmgMemoryController<RomOnlyCartridge>> {
    let mut rom = vec![0u8; 32768];
    for (addr, value) in cells {
        rom[*addr] = *value;
    }
    let cartridge = RomOnlyCartridge::new(rom, false, false).unwrap();
    GameBoySystem::new(DmgMemoryController::new(cartridge))
}

#[test]
fn test_relative_jump_taken() {
    // jr -2 at 0x0100 re-points the two-byte instruction at itself
    let mut system = system_with_rom(&[(0x0100, 0x18), (0x0101, 0xFE)]);
    system.registers.pc = 0x0100;

    let instruction = system.load_instruction().unwrap();

    assert_eq!(instruction.op, Operation::Jump(0x0100));
    assert_eq!(instruction.cycles, 3);
    assert_eq!(system.registers.pc, 0x0102, "both bytes were consumed");
}

#[test]
fn test_nop_and_stop() {
    let mut system = system_with_rom(&[(0x0001, 0x10)]);

    let nop = system.load_instruction().unwrap();
    assert_eq!(nop.op, Operation::NOP);
    assert_eq!(nop.cycles, 1);
    assert_eq!(system.registers.pc, 1);

    let stop = system.load_instruction().unwrap();
    assert_eq!(stop.op, Operation::Stop);
    assert_eq!(stop.cycles, 1);
    assert_eq!(system.registers.pc, 3, "stop consumes a second byte");
}

#[test]
fn test_invalid_opcodes_are_rejected() {
    for opcode in INVALID_INSTRUCTIONS {
        let mut system = system_with_rom(&[(0, opcode)]);
        let result = system.load_instruction();
        assert_eq!(
            result,
            Err(GameBoySystemError::InvalidInstructionError(opcode)),
            "opcode {opcode:#X} must decode as invalid"
        );
    }
}

#[test]
fn test_unmapped_fetch_is_memory_read_error() {
    let mut system = system_with_rom(&[]);
    system.registers.pc = 0xE000; // the echo region is unmapped

    let result = system.load_instruction();

    assert_eq!(result, Err(GameBoySystemError::MemoryReadError(0xE000)));
}

#[test]
fn test_load16_immediate() {
    // ld de, 0xBEEF
    let mut system = system_with_rom(&[(0, 0x11), (1, 0xEF), (2, 0xBE)]);

    let instruction = system.load_instruction().unwrap();

    assert_eq!(instruction.op, Operation::Load16(1, 0xBEEF));
    assert_eq!(instruction.cycles, 3);
    assert_eq!(system.registers.pc, 3);
}

#[test]
fn test_block_1_load_and_halt() {
    // a register-to-register load (0x48: destination index 1, source
    // index 0, which reads register A), then halt (0x76)
    let mut system = system_with_rom(&[(0, 0x48), (1, 0x76)]);
    system.registers.set_register(libgb_rs::cpu::CpuRegister::A, 0x5A);

    let load = system.load_instruction().unwrap();
    assert_eq!(load.op, Operation::Load8(1, 0x5A));
    assert_eq!(load.cycles, 2);

    let halt = system.load_instruction().unwrap();
    assert_eq!(halt.op, Operation::Halt);
    assert_eq!(halt.cycles, 1);
}

#[test]
fn test_block_2_alu() {
    // add (0x80): source index 0 reads register A, here holding 7
    let mut system = system_with_rom(&[(0, 0x80), (1, 0x96)]);
    system.registers.set_register(libgb_rs::cpu::CpuRegister::A, 7);

    let add = system.load_instruction().unwrap();
    assert_eq!(add.op, Operation::Add8(7, false));
    assert_eq!(add.cycles, 1);

    // sub a, (hl) (0x96) with hl pointing at the 0x80 byte
    let sub = system.load_instruction().unwrap();
    assert_eq!(sub.op, Operation::Sub8(0x80, false));
    assert_eq!(sub.cycles, 2, "reading through (HL) costs one more cycle");
}

#[test]
fn test_hl_post_increment_store() {
    // ld (hl+), a (0x22)
    let mut system = system_with_rom(&[(0, 0x22)]);
    system.registers.set_joined_registers(
        libgb_rs::cpu::CpuRegister::H,
        libgb_rs::cpu::CpuRegister::L,
        0xC123,
    );
    system.registers.set_register(libgb_rs::cpu::CpuRegister::A, 9);

    let instruction = system.load_instruction().unwrap();

    assert_eq!(instruction.op, Operation::Store8(0xC123, 9));
    assert_eq!(instruction.cycles, 2);
    assert_eq!(
        system
            .registers
            .get_joined_registers(libgb_rs::cpu::CpuRegister::H, libgb_rs::cpu::CpuRegister::L),
        0xC124,
        "HL is incremented at decode time"
    );
}

#[test]
fn test_conditional_jump_not_taken_keeps_immediate() {
    // jp nz, imm16 (0xC2) with the zero flag set: not taken, immediate kept
    let mut system = system_with_rom(&[(0, 0xC2), (1, 0x34), (2, 0x12)]);
    system.registers.set_register(libgb_rs::cpu::CpuRegister::F, 0x80);

    let instruction = system.load_instruction().unwrap();

    assert_eq!(instruction.op, Operation::NOP);
    assert_eq!(instruction.cycles, 3);
    assert_eq!(system.registers.pc, 1, "the immediate is not consumed when not taken");
}

#[test]
fn test_restart_vector() {
    // rst 0x28 (0xEF)
    let mut system = system_with_rom(&[(0, 0xEF)]);

    let instruction = system.load_instruction().unwrap();

    assert_eq!(instruction.op, Operation::Call(0x28));
    assert_eq!(instruction.cycles, 4);
}

#[test]
fn test_prefixed_bit_ops() {
    // cb 0x7E: bit 7, (hl); cb 0x11: rl c
    let mut system = system_with_rom(&[(0, 0xCB), (1, 0x7E), (2, 0xCB), (3, 0x11)]);

    let test_bit = system.load_instruction().unwrap();
    assert_eq!(test_bit.op, Operation::TestBit(6, 7));
    assert_eq!(test_bit.cycles, 3, "bit tests only read the memory operand");

    let rotate = system.load_instruction().unwrap();
    assert_eq!(rotate.op, Operation::RotateLeft(1, false));
    assert_eq!(rotate.cycles, 2);
}

#[test]
fn test_high_page_store() {
    // ldh (0x80), a (0xE0 0x80)
    let mut system = system_with_rom(&[(0, 0xE0), (1, 0x80)]);
    system.registers.set_register(libgb_rs::cpu::CpuRegister::A, 0x3C);

    let instruction = system.load_instruction().unwrap();

    assert_eq!(instruction.op, Operation::Store8(0xFF80, 0x3C));
    assert_eq!(instruction.cycles, 3);
}

#[test]
fn test_add_stack_pointer() {
    // add sp, -1 (0xE8 0xFF)
    let mut system = system_with_rom(&[(0, 0xE8), (1, 0xFF)]);

    let instruction = system.load_instruction().unwrap();

    assert_eq!(instruction.op, Operation::AddStackPointer(-1));
    assert_eq!(instruction.cycles, 4);
}
