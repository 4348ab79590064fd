//! Library-wide laws, proved once and for all inputs: what the decoder can
//! reject, that battery-backed RAM survives a save/load round trip, the
//! MBC1 forced-to-1 bank rule, the MBC2 half-byte rule, and how the
//! real-time clock distributes elapsed wall time over its registers.

use vstd::prelude::*;

use crate::basicrom::RomOnlyCartridge;
use crate::bankedrom::BankedRom;
use crate::builder::Cartridge;
use crate::cartridge::CartridgeMapper;
use crate::cpu::CpuData;
use crate::decode::{spec_is_invalid_opcode, spec_load_instruction};
use crate::mbc1::MBC1;
use crate::mbc2::MBC2;
use crate::mbc3::MBC3;
use crate::memory::MemoryController;
use crate::rtc::RealTimeClock;
use crate::GameBoySystemError;

verus! {

/// The decoder fails with an invalid-instruction error only on the eleven
/// opcodes the hardware documents as invalid, and then reports exactly the
/// opcode it fetched; every other failure is a memory-read error.
pub proof fn lemma_decode_rejects_only_invalid_opcodes<M: MemoryController>(m: M, cpu: CpuData)
    ensures
        match spec_load_instruction(m, cpu).0 {
            Ok(_) => true,
            Err(GameBoySystemError::MemoryReadError(_)) => true,
            Err(GameBoySystemError::MemoryWriteError(_, _)) => false,
            Err(GameBoySystemError::InvalidInstructionError(op)) => spec_is_invalid_opcode(op)
                && m.spec_load_byte(cpu.pc) == Some(op),
        },
{
    match spec_load_instruction(m, cpu).0 {
        Err(GameBoySystemError::InvalidInstructionError(op)) => {
            crate::decode::lemma_opcode_fields(op);
            assert(spec_is_invalid_opcode(op)) by (bit_vector)
                requires
                    op & 0xC0 == 0xC0,
                    op != 0xCB,
                    op & 7 != 6,
                    !(op & 7 == 7 && op & 0x2 != 0),
                    op & 0xF != 1,
                    op & 0xF != 5,
                    !(op < 0xE0 && op & 1 == 0),
                    op != 0xC9 && op != 0xD9 && op != 0xC3 && op != 0xE9 && op != 0xCD && op
                        != 0xE0 && op != 0xE2 && op != 0xEA && op != 0xF0 && op != 0xF2 && op
                        != 0xFA && op != 0xE8 && op != 0xF8 && op != 0xF9 && op != 0xF3 && op
                        != 0xFB,
            ;
        },
        _ => {},
    }
}

/// A fetched opcode outside the invalid set always decodes to an
/// instruction or fails as a memory read, never as an invalid instruction.
pub proof fn lemma_valid_opcode_decodes<M: MemoryController>(m: M, cpu: CpuData, op: u8)
    requires
        m.spec_load_byte(cpu.pc) == Some(op),
        !spec_is_invalid_opcode(op),
    ensures
        spec_load_instruction(m, cpu).0 matches Ok(_) || spec_load_instruction(m, cpu).0 matches Err(
            GameBoySystemError::MemoryReadError(_),
        ),
{
    lemma_decode_rejects_only_invalid_opcodes(m, cpu);
}

/// Loading a save file into a banked container and dumping it again gives
/// back the loaded bytes as the dump's prefix.
pub proof fn lemma_banked_save_round_trip(pre: BankedRom, post: BankedRom, data: Seq<u8>)
    requires
        pre.has_battery,
        data.len() <= pre.ram@.len(),
        BankedRom::save_loaded(pre, post, data),
    ensures
        post.ram@.len() >= data.len(),
        forall|i: int| 0 <= i < data.len() ==> post.ram@[i] == data[i],
{
}

/// Save/load round trip for a ROM-only cartridge with battery-backed RAM.
pub proof fn lemma_rom_only_save_round_trip(pre: RomOnlyCartridge, post: RomOnlyCartridge, data: Seq<u8>)
    requires
        pre.wf(),
        pre.spec_load_save_result(data) is Ok,
        RomOnlyCartridge::spec_load_save(pre, post, data),
    ensures
        post.spec_save().len() >= data.len(),
        forall|i: int| 0 <= i < data.len() ==> post.spec_save()[i] == data[i],
{
}

/// Save/load round trip for an MBC1 cartridge with battery-backed RAM.
pub proof fn lemma_mbc1_save_round_trip(pre: MBC1, post: MBC1, data: Seq<u8>)
    requires
        pre.wf(),
        pre.spec_load_save_result(data) is Ok,
        MBC1::spec_load_save(pre, post, data),
    ensures
        post.spec_save().len() >= data.len(),
        forall|i: int| 0 <= i < data.len() ==> post.spec_save()[i] == data[i],
{
}

/// Save/load round trip for an MBC3 cartridge with battery-backed RAM.
pub proof fn lemma_mbc3_save_round_trip(pre: MBC3, post: MBC3, data: Seq<u8>)
    requires
        pre.wf(),
        pre.spec_load_save_result(data) is Ok,
        MBC3::spec_load_save(pre, post, data),
    ensures
        post.spec_save().len() >= data.len(),
        forall|i: int| 0 <= i < data.len() ==> post.spec_save()[i] == data[i],
{
}

/// Save/load round trip for an MBC2 cartridge: its RAM holds half-bytes, so
/// the dump gives back the loaded bytes masked to their low nibble — for a
/// save file of half-byte values it gives back exactly the loaded bytes.
pub proof fn lemma_mbc2_save_round_trip(pre: MBC2, post: MBC2, data: Seq<u8>)
    requires
        pre.wf(),
        pre.spec_load_save_result(data) is Ok,
        MBC2::spec_load_save(pre, post, data),
    ensures
        post.spec_save().len() >= data.len(),
        forall|i: int| 0 <= i < data.len() ==> post.spec_save()[i] == data[i] & 0x0F,
        (forall|i: int| 0 <= i < data.len() ==> data[i] & 0x0F == data[i]) ==> forall|i: int|
            0 <= i < data.len() ==> post.spec_save()[i] == data[i],
{
}

/// Save/load round trip for every cartridge the factory can build: loading a
/// save file that the cartridge accepts and dumping again gives back the
/// loaded bytes as the dump's prefix. The one carve-out is the MBC2, whose
/// RAM holds half-bytes: there the loaded bytes must already be half-byte
/// values.
pub proof fn lemma_cartridge_save_round_trip(pre: Cartridge, post: Cartridge, data: Seq<u8>)
    requires
        pre.wf(),
        pre.spec_load_save_result(data) is Ok,
        Cartridge::spec_load_save(pre, post, data),
        pre matches Cartridge::Mbc2(_) ==> forall|i: int|
            0 <= i < data.len() ==> data[i] & 0x0F == data[i],
    ensures
        post.spec_save().len() >= data.len(),
        forall|i: int| 0 <= i < data.len() ==> post.spec_save()[i] == data[i],
{
    match pre {
        Cartridge::RomOnly(c) => match post {
            Cartridge::RomOnly(q) => lemma_rom_only_save_round_trip(c, q, data),
            _ => {},
        },
        Cartridge::Mbc1(c) => match post {
            Cartridge::Mbc1(q) => lemma_mbc1_save_round_trip(c, q, data),
            _ => {},
        },
        Cartridge::Mbc2(c) => match post {
            Cartridge::Mbc2(q) => lemma_mbc2_save_round_trip(c, q, data),
            _ => {},
        },
        Cartridge::Mbc3(c) => match post {
            Cartridge::Mbc3(q) => lemma_mbc3_save_round_trip(c, q, data),
            _ => {},
        },
    }
}

/// The MBC1 forced-to-1 rule: on a cartridge of at most 32 ROM banks (and at
/// least 2), after any bank-select write whose low five bits are zero, reads
/// of the high window index bank 1, never bank 0.
pub proof fn lemma_mbc1_bank_never_zero(pre: MBC1, post: MBC1, address: u16, data: u8)
    requires
        pre.wf(),
        !pre.extra_storage,
        2 <= pre.rom.spec_rom_banks() <= 32,
        0x2000 <= address < 0x4000,
        data & 0x1F == 0,
        MBC1::spec_write_rom(pre, post, address, data),
    ensures
        post.rom_bank == 1u8,
        forall|a: u16|
            0x4000 <= a < 0x8000 ==> post.rom.spec_effective_rom_bank(
                #[trigger] post.spec_rom_bank_for(a),
            ) == 1,
        forall|a: u16|
            0x4000 <= a < 0x8000 ==> #[trigger] post.spec_read_rom(a) == Some(
                post.rom.rom@[16384 + (a as int) % 16384],
            ),
{
    assert(post.rom_bank == 1u8);
    assert forall|a: u16| 0x4000 <= a < 0x8000 implies post.rom.spec_effective_rom_bank(
        #[trigger] post.spec_rom_bank_for(a),
    ) == 1 by {
        assert(post.spec_rom_bank_for(a) == 1);
        assert(1int % post.rom.spec_rom_banks() == 1) by (nonlinear_arith)
            requires
                post.rom.spec_rom_banks() >= 2,
        ;
    }
    assert forall|a: u16| 0x4000 <= a < 0x8000 implies #[trigger] post.spec_read_rom(a) == Some(
        post.rom.rom@[16384 + (a as int) % 16384],
    ) by {
        assert(post.rom.spec_read_rom_in_bank(post.spec_rom_bank_for(a), a) == Some(
            post.rom.rom@[16384 + (a as int) % 16384],
        )) by (nonlinear_arith)
            requires
                post.spec_rom_bank_for(a) == 1,
                post.rom.spec_rom_banks() >= 2,
                post.rom.rom@.len() == post.rom.spec_rom_banks() * 16384,
                0x4000 <= a < 0x8000,
        ;
    }
}

/// The MBC2 half-byte rule: after a write with RAM enabled, a read through
/// any address that aliases the written one (the 512 entries repeat) gives
/// the written value's low nibble, with the high nibble zero.
pub proof fn lemma_mbc2_write_then_read(pre: MBC2, post: MBC2, address: u16, data: u8)
    requires
        pre.wf(),
        pre.ram_enabled,
        MBC2::spec_write_mem(pre, post, address, data),
    ensures
        forall|alias: u16|
            (alias as int) % 512 == (address as int) % 512 ==> #[trigger] post.spec_read_mem(alias)
                == Some(data & 0x0F),
        data & 0x0F < 0x10,
{
    assert(data & 0x0F < 0x10) by (bit_vector);
}

/// The clock distributes a plain wall-time delta over its registers: latched
/// with no prior writes and no accumulated time, the visible registers are
/// exactly the decomposition of the elapsed seconds into days, hours,
/// minutes and seconds, with the day-overflow bit set once the day count
/// passes 511.
pub proof fn lemma_rtc_latch_decomposes_delta(pre: RealTimeClock, post: RealTimeClock, now: u64)
    requires
        pre.wf(),
        pre.seconds == 0,
        pre.minutes == 0,
        pre.hours == 0,
        pre.days_lower == 0,
        pre.days_upper == 0,
        !pre.halted,
        pre.seconds_since_latch == 0,
        now >= pre.last_modified,
        RealTimeClock::spec_latched(pre, post, now),
    ensures
        ({
            let delta = now - pre.last_modified;
            &&& post.seconds == delta % 60
            &&& post.minutes == (delta / 60) % 60
            &&& post.hours == (delta / 3600) % 24
            &&& post.days_lower == (delta / 86400) % 256
            &&& post.days_upper == (if delta / 86400 >= 0x200 {
                0x80int
            } else {
                0int
            }) + ((delta / 86400) / 256) % 2
        }),
{
    assert(0u8 & 1 == 0) by (bit_vector);
    assert(pre.spec_current_offset() == 0);
    assert(pre.spec_total(now) == now - pre.last_modified);
}

/// The day-overflow (carry) bit is sticky: once set, no latch ever clears
/// it; only an explicit write to the upper day register can.
pub proof fn lemma_rtc_carry_sticky(pre: RealTimeClock, post: RealTimeClock, now: u64)
    requires
        pre.days_upper >= 0x80,
        RealTimeClock::spec_latched(pre, post, now),
    ensures
        post.days_upper >= 0x80,
{
}

/// The packed flag byte always reads zero in its low four bits, so no
/// operation on the flag register can set them.
pub proof fn lemma_flag_bits_low_nibble_zero(flags: crate::cpu::FlagRegister)
    ensures
        crate::cpu::spec_flag_bits(flags) & 0x0F == 0,
{
    let z: u8 = if flags.zero {
        0x80
    } else {
        0
    };
    let s: u8 = if flags.subtract {
        0x40
    } else {
        0
    };
    let h: u8 = if flags.half_carry {
        0x20
    } else {
        0
    };
    let c: u8 = if flags.carry {
        0x10
    } else {
        0
    };
    assert((z | s | h | c) & 0x0F == 0) by (bit_vector)
        requires
            z == 0x80u8 || z == 0u8,
            s == 0x40u8 || s == 0u8,
            h == 0x20u8 || h == 0u8,
            c == 0x10u8 || c == 0u8,
    ;
}

/// Halting the clock banks the running time and stops the count; resuming
/// restarts it: across a halt from `t1` to `t2`, a latch at `t3` sees
/// exactly the non-halted time, the sum of the interval before the halt and
/// the interval after the resume.
pub proof fn lemma_rtc_halt_excludes_halted_time(
    pre: RealTimeClock,
    s1: RealTimeClock,
    s2: RealTimeClock,
    post: RealTimeClock,
    halt_value: u8,
    resume_value: u8,
    t1: u64,
    t2: u64,
    t3: u64,
)
    requires
        pre.wf(),
        pre.seconds == 0,
        pre.minutes == 0,
        pre.hours == 0,
        pre.days_lower == 0,
        pre.days_upper == 0,
        !pre.halted,
        pre.seconds_since_latch == 0,
        pre.last_modified <= t1 <= t2 <= t3,
        halt_value & 0x40 != 0,
        resume_value & 0x40 == 0,
        RealTimeClock::spec_days_upper_set(pre, s1, halt_value, t1),
        RealTimeClock::spec_days_upper_set(s1, s2, resume_value, t2),
        RealTimeClock::spec_latched(s2, post, t3),
        s1.wf(),
        s2.wf(),
        resume_value & 1 == 0,
        (t1 - pre.last_modified) + (t3 - t2) <= u64::MAX,
    ensures
        ({
            let running = (t1 - pre.last_modified) + (t3 - t2);
            &&& post.seconds == running % 60
            &&& post.minutes == (running / 60) % 60
            &&& post.hours == (running / 3600) % 24
            &&& post.days_lower == (running / 86400) % 256
        }),
{
    assert(s1.halted);
    assert(s1.seconds_since_latch == t1 - pre.last_modified);
    assert(s1.last_modified == pre.last_modified);
    assert(!s2.halted);
    assert(s2.last_modified == t2);
    assert(s2.seconds_since_latch == t1 - pre.last_modified);
    let dv = s2.days_upper;
    assert(dv == resume_value & 0xC1);
    assert(resume_value & 1 == 0 ==> (resume_value & 0xC1) & 1 == 0) by (bit_vector);
    assert(s2.spec_days() == 0);
    assert(s2.spec_current_offset() == 0);
    assert(s2.spec_elapsed(t3) == t3 - t2);
    assert(s2.spec_total(t3) == (t1 - pre.last_modified) + (t3 - t2));
}

} // verus!
